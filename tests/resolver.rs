use std::collections::HashSet;

use store_backup::error::StoreError;
use store_backup::resolver::{
    candidate_dirs, DirResolver, DirectoryCandidate, ProbeOp, ResolveAction, RootSource,
    StorageConfig,
};

fn config(primary: Option<&str>, secondary: Option<&str>, profile: Option<&str>) -> StorageConfig {
    StorageConfig {
        app_name: "com.example.store".to_string(),
        primary_root: primary.map(String::from),
        secondary_root: secondary.map(String::from),
        profile_root: profile.map(String::from),
        temp_root: Some("/tmp".to_string()),
        current_dir: Some("/work".to_string()),
    }
}

/// Resolves over `config`, where the candidates listed in `writable` accept
/// writes. Returns the chosen candidate and the markers left behind.
fn resolve(config: &StorageConfig, writable: &[RootSource]) -> (Result<DirectoryCandidate, StoreError>, HashSet<usize>) {
    let candidates = candidate_dirs(config);
    let mut markers = HashSet::new();
    let mut r = DirResolver::begin(candidates.len());
    let mut action = r.action();
    loop {
        match action {
            ResolveAction::Finish(res) => {
                return (res.map(|i| candidates[i].clone()), markers);
            }
            ResolveAction::Probe { candidate, op } => {
                let ok = writable.contains(&candidates[candidate].source);
                let outcome = if ok {
                    match op {
                        ProbeOp::EnsureDir => {}
                        ProbeOp::WriteMarker => {
                            markers.insert(candidate);
                        }
                        ProbeOp::RemoveMarker => {
                            markers.remove(&candidate);
                        }
                    }
                    Ok(())
                } else {
                    Err(format!("{:?} denied on {}", op, candidates[candidate].root))
                };
                action = r.advance(outcome);
            }
        }
    }
}

#[test]
fn candidates_in_priority_order() {
    let c = candidate_dirs(&config(Some("/roam"), Some("/local"), Some("/home/u")));
    let sources: Vec<RootSource> = c.iter().map(|d| d.source).collect();
    assert_eq!(
        sources,
        vec![
            RootSource::PrimaryAppData,
            RootSource::SecondaryAppData,
            RootSource::UserDocuments,
            RootSource::TempFallback,
            RootSource::CurrentDirFallback
        ]
    );
    assert_eq!(c[0].root, "/roam");
    assert_eq!(c[0].segments, vec!["com.example.store".to_string()]);
    assert_eq!(c[2].root, "/home/u");
    assert_eq!(c[2].segments, vec!["Documents".to_string(), "com.example.store".to_string()]);
    assert_eq!(c[4].segments, vec!["data".to_string(), "com.example.store".to_string()]);
}

#[test]
fn unset_roots_are_skipped() {
    let c = candidate_dirs(&config(None, None, Some("/home/u")));
    assert_eq!(c.len(), 3);
    assert_eq!(c[0].source, RootSource::UserDocuments);
}

#[test]
fn first_two_unset_third_writable() {
    let (r, markers) = resolve(
        &config(None, None, Some("/home/u")),
        &[RootSource::UserDocuments, RootSource::TempFallback],
    );
    let chosen = r.unwrap();
    assert_eq!(chosen.source, RootSource::UserDocuments);
    assert_eq!(chosen.root, "/home/u");
    assert!(markers.is_empty());
}

#[test]
fn first_two_unwritable_third_writable() {
    let (r, markers) = resolve(
        &config(Some("/roam"), Some("/local"), Some("/home/u")),
        &[RootSource::UserDocuments, RootSource::CurrentDirFallback],
    );
    assert_eq!(r.unwrap().source, RootSource::UserDocuments);
    assert!(markers.is_empty());
}

#[test]
fn no_writable_location_keeps_last_error() {
    let (r, markers) = resolve(&config(Some("/roam"), None, None), &[]);
    assert_eq!(
        r.unwrap_err(),
        StoreError::NoWritableLocation(Some("EnsureDir denied on /work".to_string()))
    );
    assert!(markers.is_empty());
}

#[test]
fn no_candidates_at_all() {
    let r = DirResolver::begin(0);
    assert!(r.is_finished());
    assert_eq!(r.action(), ResolveAction::Finish(Err(StoreError::NoWritableLocation(None))));
}

#[test]
fn marker_removal_failure_rejects_candidate() {
    let mut r = DirResolver::begin(2);
    assert_eq!(r.advance(Ok(())), ResolveAction::Probe { candidate: 0, op: ProbeOp::WriteMarker });
    assert_eq!(r.advance(Ok(())), ResolveAction::Probe { candidate: 0, op: ProbeOp::RemoveMarker });
    assert_eq!(
        r.advance(Err("busy".to_string())),
        ResolveAction::Probe { candidate: 1, op: ProbeOp::EnsureDir }
    );
    r.advance(Ok(()));
    assert_eq!(
        r.advance(Err("read-only".to_string())),
        ResolveAction::Probe { candidate: 1, op: ProbeOp::RemoveMarker }
    );
    assert_eq!(
        r.advance(Ok(())),
        ResolveAction::Finish(Err(StoreError::NoWritableLocation(Some("read-only".to_string()))))
    );
}
