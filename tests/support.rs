use store_backup::checkpoint::{
    busy_timeout_ms, checkpoint_plan, checkpoint_report, CheckpointMode, CheckpointReport,
    CheckpointStep, PlannedStep,
};
use store_backup::compat::{check_windows_compatibility, CompatInputs};
use store_backup::naming::{database_file_name, replace_paths, scratch_path, side_file_path, SideFile};
use store_backup::restart::RestartTimer;

#[test]
fn light_checkpoint_plan() {
    let plan = checkpoint_plan(CheckpointMode::Light);
    assert_eq!(
        plan,
        vec![
            PlannedStep { step: CheckpointStep::CommitPending, pause_ms: 0 },
            PlannedStep { step: CheckpointStep::Restart, pause_ms: 0 },
        ]
    );
    assert_eq!(busy_timeout_ms(CheckpointMode::Light), 10_000);
}

#[test]
fn heavy_checkpoint_plan() {
    let steps: Vec<CheckpointStep> =
        checkpoint_plan(CheckpointMode::Heavy).iter().map(|p| p.step).collect();
    assert_eq!(
        steps,
        vec![
            CheckpointStep::CommitPending,
            CheckpointStep::Restart,
            CheckpointStep::Truncate,
            CheckpointStep::Full
        ]
    );
    assert_eq!(busy_timeout_ms(CheckpointMode::Heavy), 60_000);
}

#[test]
fn checkpoint_sql() {
    assert_eq!(CheckpointStep::CommitPending.sql(), "BEGIN IMMEDIATE; COMMIT;");
    assert_eq!(CheckpointStep::Restart.sql(), "PRAGMA wal_checkpoint(RESTART);");
    assert_eq!(CheckpointStep::Truncate.sql(), "PRAGMA wal_checkpoint(TRUNCATE);");
    assert_eq!(CheckpointStep::Full.sql(), "PRAGMA wal_checkpoint(FULL);");
}

#[test]
fn checkpoint_reports() {
    assert_eq!(checkpoint_report(Ok(()), &vec![Ok(()), Ok(())]), CheckpointReport::Clean);
    assert_eq!(
        checkpoint_report(Ok(()), &vec![Err("a".to_string()), Ok(()), Err("b".to_string())]),
        CheckpointReport::Warning(vec!["a".to_string(), "b".to_string()])
    );
    assert_eq!(
        checkpoint_report(Err("cannot open".to_string()), &vec![]),
        CheckpointReport::Warning(vec!["cannot open".to_string()])
    );
}

#[test]
fn side_file_names() {
    assert_eq!(side_file_path("/data/store.db", SideFile::Wal), "/data/store.db-wal");
    assert_eq!(side_file_path("/data/store.db", SideFile::Shm), "/data/store.db-shm");
    assert_eq!(database_file_name(), "store.db");
}

#[test]
fn sibling_names() {
    let p = replace_paths("/d/store.db");
    assert_eq!(p.temp, "/d/store.db.restore.tmp");
    assert_eq!(p.backup, "/d/store.db.backup.tmp");
    assert_eq!(p.safety, "/d/store.db.pre-restore-backup");
    assert_eq!(scratch_path("/d/old.db"), "/d/old.db.tmp_delete");
}

#[test]
fn compatibility_warnings() {
    let ok = CompatInputs {
        os_name: Some("Windows_NT".to_string()),
        writable_dir_found: true,
        primary_root_set: true,
        secondary_root_set: false,
    };
    assert!(check_windows_compatibility(&ok).is_empty());
    let bad = CompatInputs {
        os_name: Some("Linux".to_string()),
        writable_dir_found: false,
        primary_root_set: false,
        secondary_root_set: false,
    };
    assert_eq!(
        check_windows_compatibility(&bad),
        vec![
            "Not running on Windows OS".to_string(),
            "No writable directories found - check permissions".to_string(),
            "Running in highly restricted environment".to_string()
        ]
    );
    let unknown = CompatInputs { os_name: None, ..ok.clone() };
    assert!(check_windows_compatibility(&unknown).is_empty());
    let short = CompatInputs { os_name: Some("Win".to_string()), ..ok };
    assert_eq!(check_windows_compatibility(&short).len(), 1);
}

#[test]
fn restart_timer() {
    let t = RestartTimer::schedule(None);
    assert_eq!(t.delay_ms, 1000);
    assert!(!t.should_fire(999));
    assert!(t.should_fire(1000));
    let mut t = RestartTimer::schedule(Some(2000));
    assert!(t.should_fire(2500));
    t.cancel();
    assert!(!t.should_fire(5000));
    assert_eq!(t.delay_ms, 2000);
}
