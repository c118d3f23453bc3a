use nerd_backup::coordinator::{
    managed_ids, AttachedContainer, BackupCycle, TransactionStep, VolumeTransaction,
};
use nerd_backup::error::Error;

fn strings(items: &[&str]) -> Vec<String> {
    items.iter().map(|s| s.to_string()).collect()
}

/// Drive a whole transaction, answering every stop with `stop_ok(i)`, the
/// backup with `backup_ok`, and every start with `start_ok(i)`. Returns the
/// ids stopped, the ids started, and the transaction's result.
fn drive(
    tx: &mut VolumeTransaction,
    stop_ok: impl Fn(usize) -> bool,
    backup_ok: bool,
    start_ok: impl Fn(usize) -> bool,
) -> (Vec<String>, Vec<String>, Result<(), Error>) {
    let mut stops: Vec<String> = Vec::new();
    let mut starts: Vec<String> = Vec::new();
    loop {
        match tx.next_step() {
            TransactionStep::StopContainer(id) => {
                let ok = stop_ok(stops.len());
                stops.push(id);
                tx.on_stop_result(ok, format!("stop failed"));
            }
            TransactionStep::RunBackup => {
                tx.on_backup_result(backup_ok, format!("backup failed"));
            }
            TransactionStep::StartContainer(id) => {
                let ok = start_ok(starts.len());
                starts.push(id);
                tx.on_start_result(ok, format!("start failed"));
            }
            TransactionStep::Finished => {
                return (stops, starts, tx.outcome());
            }
        }
    }
}

#[test]
fn successful_backup_stops_then_starts_every_container_once() {
    let mut tx = VolumeTransaction::new(
        "data".to_string(),
        "/mnt/data".to_string(),
        strings(&["c1", "c2", "c3"]),
    );
    let (stops, starts, outcome) = drive(&mut tx, |_| true, true, |_| true);
    assert_eq!(stops, strings(&["c1", "c2", "c3"]));
    assert_eq!(starts, strings(&["c1", "c2", "c3"]));
    assert!(outcome.is_ok());
}

#[test]
fn failed_backup_still_starts_every_stopped_container() {
    let mut tx = VolumeTransaction::new(
        "data".to_string(),
        "/mnt/data".to_string(),
        strings(&["c1", "c2"]),
    );
    let (stops, starts, outcome) = drive(&mut tx, |_| true, false, |_| true);
    assert_eq!(stops, strings(&["c1", "c2"]));
    assert_eq!(starts, strings(&["c1", "c2"]));
    match outcome {
        Err(Error::Backup(volume, detail)) => {
            assert_eq!(volume, "data");
            assert_eq!(detail, "backup failed");
        }
        other => panic!("expected a backup failure, got {:?}", other),
    }
}

#[test]
fn stop_failure_skips_backup_but_restarts_what_was_stopped() {
    let mut tx = VolumeTransaction::new(
        "data".to_string(),
        "/mnt/data".to_string(),
        strings(&["c1", "c2", "c3"]),
    );
    // The second stop fails: c1 was stopped, c2 was not, c3 is never tried.
    let (stops, starts, outcome) = drive(&mut tx, |i| i != 1, true, |_| true);
    assert_eq!(stops, strings(&["c1", "c2"]));
    assert_eq!(starts, strings(&["c1"]));
    assert!(matches!(outcome, Err(Error::Docker(_))));
}

#[test]
fn start_failure_is_reported_but_every_start_is_attempted() {
    let mut tx = VolumeTransaction::new(
        "data".to_string(),
        "/mnt/data".to_string(),
        strings(&["c1", "c2", "c3"]),
    );
    let (_, starts, outcome) = drive(&mut tx, |_| true, true, |i| i != 1);
    assert_eq!(starts, strings(&["c1", "c2", "c3"]));
    match outcome {
        Err(Error::Docker(detail)) => assert_eq!(detail, "start failed"),
        other => panic!("expected a runtime failure, got {:?}", other),
    }
}

#[test]
fn backup_failure_is_not_suppressed_by_a_start_failure() {
    let mut tx = VolumeTransaction::new(
        "data".to_string(),
        "/mnt/data".to_string(),
        strings(&["c1", "c2"]),
    );
    let (_, starts, outcome) = drive(&mut tx, |_| true, false, |_| false);
    assert_eq!(starts.len(), 2);
    assert!(matches!(outcome, Err(Error::Backup(_, _))));
}

#[test]
fn volume_without_containers_is_backed_up_directly() {
    let mut tx =
        VolumeTransaction::new("data".to_string(), "/mnt/data".to_string(), Vec::new());
    let (stops, starts, outcome) = drive(&mut tx, |_| true, true, |_| true);
    assert!(stops.is_empty());
    assert!(starts.is_empty());
    assert!(outcome.is_ok());
}

#[test]
fn managed_ids_keeps_order_and_skips_entries_without_id() {
    let cs = vec![
        AttachedContainer { id: Some("a".to_string()), names: strings(&["/one"]) },
        AttachedContainer { id: None, names: strings(&["/two"]) },
        AttachedContainer { id: Some("b".to_string()), names: Vec::new() },
    ];
    assert_eq!(managed_ids(&cs), strings(&["a", "b"]));
}

#[test]
fn cycle_walks_volumes_in_order_on_success() {
    let mut cycle = BackupCycle::new(strings(&["v1", "v2"]));
    assert_eq!(cycle.current_volume(), Some("v1".to_string()));
    cycle.on_volume_outcome(Ok(()));
    assert_eq!(cycle.current_volume(), Some("v2".to_string()));
    cycle.on_volume_outcome(Ok(()));
    assert_eq!(cycle.current_volume(), None);
    assert!(cycle.outcome().is_ok());
}

#[test]
fn first_volume_failure_ends_the_cycle_before_later_volumes() {
    let mut cycle = BackupCycle::new(strings(&["v1", "v2"]));
    assert_eq!(cycle.current_volume(), Some("v1".to_string()));
    cycle.on_volume_outcome(Err(Error::Backup("v1".to_string(), "disk full".to_string())));
    // v2 is never offered for processing.
    assert_eq!(cycle.current_volume(), None);
    match cycle.outcome() {
        Err(Error::Backup(volume, detail)) => {
            assert_eq!(volume, "v1");
            assert_eq!(detail, "disk full");
        }
        other => panic!("expected the first volume's failure, got {:?}", other),
    }
}
