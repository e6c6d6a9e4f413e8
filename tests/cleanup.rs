use store_backup::cleanup::{DeleteAction, DeleteOp, ForceDelete};
use store_backup::error::StoreError;

/// Runs a forced delete of a file that is present; `fails` lists the
/// operations that fail, `claims_only` those that report success but leave
/// the file where it is.
fn drive(fails: &[DeleteOp], claims_only: &[DeleteOp]) -> (Result<(), StoreError>, Vec<DeleteOp>, bool) {
    let mut at_path = true;
    let mut at_scratch = false;
    let mut ops = Vec::new();
    let mut d = ForceDelete::begin(true);
    let mut action = d.action();
    loop {
        match action {
            DeleteAction::Finish(r) => return (r, ops, at_path),
            DeleteAction::Run(op) => {
                ops.push(op);
                let report = if op == DeleteOp::CheckPresent {
                    Ok(at_path)
                } else if fails.contains(&op) {
                    Err(format!("{:?}: access denied", op))
                } else {
                    if !claims_only.contains(&op) {
                        match op {
                            DeleteOp::RemoveFile | DeleteOp::ForceRemove => at_path = false,
                            DeleteOp::RenameToScratch => {
                                at_scratch = at_path;
                                at_path = false
                            }
                            DeleteOp::RemoveScratch => at_scratch = false,
                            DeleteOp::CheckPresent => {}
                        }
                    }
                    Ok(true)
                };
                action = d.advance(report);
            }
        }
    }
}

#[test]
fn direct_delete_then_verified() {
    let (r, ops, present) = drive(&[], &[]);
    assert_eq!(r, Ok(()));
    assert!(!present);
    assert_eq!(ops, vec![DeleteOp::RemoveFile, DeleteOp::CheckPresent]);
}

#[test]
fn ladder_escalates_to_rename() {
    let (r, ops, present) = drive(&[DeleteOp::RemoveFile, DeleteOp::ForceRemove], &[]);
    assert_eq!(r, Ok(()));
    assert!(!present);
    assert_eq!(
        ops,
        vec![
            DeleteOp::RemoveFile,
            DeleteOp::ForceRemove,
            DeleteOp::RenameToScratch,
            DeleteOp::RemoveScratch,
            DeleteOp::CheckPresent
        ]
    );
}

#[test]
fn claimed_success_with_file_still_open_fails() {
    // The delete reports success while another handle keeps the file in place.
    let (r, _, present) = drive(&[], &[DeleteOp::RemoveFile]);
    assert_eq!(
        r,
        Err(StoreError::DeleteFailed("file still present after deletion".to_string()))
    );
    assert!(present);
}

#[test]
fn all_strategies_failing_reports_first_error() {
    let (r, ops, present) = drive(
        &[DeleteOp::RemoveFile, DeleteOp::ForceRemove, DeleteOp::RenameToScratch],
        &[],
    );
    assert_eq!(r, Err(StoreError::DeleteFailed("RemoveFile: access denied".to_string())));
    assert!(present);
    assert_eq!(ops.len(), 3);
}

#[test]
fn nothing_to_delete() {
    let d = ForceDelete::begin(false);
    assert!(d.is_finished());
    assert_eq!(d.action(), DeleteAction::Finish(Ok(())));
}

#[test]
fn failed_check_is_a_failure() {
    let mut d = ForceDelete::begin(true);
    d.advance(Ok(true));
    assert_eq!(d.action(), DeleteAction::Run(DeleteOp::CheckPresent));
    assert_eq!(
        d.advance(Err("permission denied".to_string())),
        DeleteAction::Finish(Err(StoreError::DeleteFailed("permission denied".to_string())))
    );
}
