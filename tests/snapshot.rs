use store_backup::checkpoint::{CheckpointMode, CheckpointReport};
use store_backup::checksum::{checksum_windows, fast_checksum_of_bytes};
use store_backup::error::StoreError;
use store_backup::snapshot::{
    BackupDescriptor, SnapshotAction, SnapshotEvent, SnapshotJob, SnapshotNext, SnapshotPhase,
};

fn database(n: usize) -> Vec<u8> {
    (0..n).map(|i| ((i * 7 + i / 300) % 256) as u8).collect()
}

/// Drives a snapshot against a copy that ends up holding `copy`.
fn snapshot_of(copy: &[u8], source_present: bool, checkpoint: CheckpointReport) -> Result<BackupDescriptor, StoreError> {
    let mut job = SnapshotJob::new("backup.db".to_string());
    let mut checkpoint = Some(checkpoint);
    loop {
        let event = match job.action() {
            SnapshotAction::CheckSource => SnapshotEvent::SourceChecked { present: source_present },
            SnapshotAction::Checkpoint(mode) => {
                assert_eq!(mode, CheckpointMode::Light);
                SnapshotEvent::Checkpointed(checkpoint.take().unwrap())
            }
            SnapshotAction::CopyPages { pages_per_step, pause_ms } => {
                assert_eq!((pages_per_step, pause_ms), (100, 10));
                SnapshotEvent::Copied(Ok(()))
            }
            SnapshotAction::Measure => SnapshotEvent::Measured(Ok(copy.len() as u64)),
            SnapshotAction::ReadWindows(w) => {
                let head = copy[..w.head_len as usize].to_vec();
                let tail = match w.tail_start {
                    Some(t) => copy[t as usize..].to_vec(),
                    None => Vec::new(),
                };
                SnapshotEvent::WindowsRead(Ok((head, tail)))
            }
        };
        match job.advance(event) {
            SnapshotNext::Continue(next) => job = next,
            SnapshotNext::Done(r) => return r,
        }
    }
}

#[test]
fn end_to_end_snapshot_and_corruption() {
    let db = database(500_000);
    let d = snapshot_of(&db, true, CheckpointReport::Clean).unwrap();
    assert_eq!(d.path, "backup.db");
    assert_eq!(d.size_bytes, 500_000);
    assert_eq!(d.checksum.len(), 64);
    assert!(d.checksum.chars().all(|c| c.is_ascii_hexdigit() && !c.is_ascii_uppercase()));
    assert_eq!(d.checksum, fast_checksum_of_bytes(&db));
    let mut corrupted = db.clone();
    corrupted[40_000] ^= 0x5a;
    assert_ne!(fast_checksum_of_bytes(&corrupted), d.checksum);
}

#[test]
fn snapshot_below_one_kib_is_too_small() {
    assert_eq!(
        snapshot_of(&database(1023), true, CheckpointReport::Clean),
        Err(StoreError::TooSmall(1023))
    );
    assert_eq!(snapshot_of(&database(0), true, CheckpointReport::Clean), Err(StoreError::TooSmall(0)));
    let d = snapshot_of(&database(1024), true, CheckpointReport::Clean).unwrap();
    assert_eq!(d.size_bytes, 1024);
}

#[test]
fn snapshot_of_missing_source() {
    assert_eq!(
        snapshot_of(&database(5000), false, CheckpointReport::Clean),
        Err(StoreError::SourceMissing)
    );
}

#[test]
fn checkpoint_warning_does_not_stop_snapshot() {
    let db = database(150_000);
    let d = snapshot_of(&db, true, CheckpointReport::Warning(vec!["database is locked".to_string()])).unwrap();
    assert_eq!(d.checksum, fast_checksum_of_bytes(&db));
}

#[test]
fn copy_failure_is_reported() {
    let job = SnapshotJob { dest: "b.db".to_string(), phase: SnapshotPhase::Copying };
    assert_eq!(
        job.advance(SnapshotEvent::Copied(Err("disk full".to_string()))),
        SnapshotNext::Done(Err(StoreError::BackupFailed("disk full".to_string())))
    );
    let job = SnapshotJob { dest: "b.db".to_string(), phase: SnapshotPhase::Measuring };
    assert_eq!(
        job.advance(SnapshotEvent::Measured(Err("no such file".to_string()))),
        SnapshotNext::Done(Err(StoreError::BackupFailed("no such file".to_string())))
    );
}

#[test]
fn short_windows_are_reported() {
    let job = SnapshotJob { dest: "b.db".to_string(), phase: SnapshotPhase::Reading { size: 200_000 } };
    assert_eq!(
        job.action(),
        SnapshotAction::ReadWindows(checksum_windows(200_000))
    );
    let r = job.advance(SnapshotEvent::WindowsRead(Ok((vec![0; 10], vec![]))));
    assert_eq!(
        r,
        SnapshotNext::Done(Err(StoreError::BackupFailed(
            "checksum windows have unexpected lengths".to_string()
        )))
    );
}

#[test]
fn unrelated_event_leaves_snapshot_unchanged() {
    let job = SnapshotJob { dest: "b.db".to_string(), phase: SnapshotPhase::Measuring };
    let r = job.clone().advance(SnapshotEvent::SourceChecked { present: true });
    assert_eq!(r, SnapshotNext::Continue(job));
}
