use sfo_reuseport::executor::TaskTable;

#[test]
fn cancelled_task_hands_back_its_handle_once() {
    let mut table: TaskTable<&str> = TaskTable::new();
    assert_eq!(table.started(1, "listener"), None);
    assert_eq!(table.started(2, "dispatcher"), None);

    assert_eq!(table.cancel(1), Some("listener"));
    assert_eq!(table.cancel(1), None);
    assert_eq!(table.cancel(7), None);
}

#[test]
fn finished_task_is_not_stopped_at_shutdown() {
    let mut table: TaskTable<u32> = TaskTable::new();
    let _ = table.started(10, 100);
    let _ = table.started(11, 110);
    let _ = table.started(12, 120);
    table.finished(11);

    let mut remaining = table.drain();
    remaining.sort();
    assert_eq!(remaining, vec![100, 120]);
    assert!(table.drain().is_empty());
}

#[test]
fn restarting_an_identifier_replaces_its_handle() {
    let mut table: TaskTable<u32> = TaskTable::new();
    assert_eq!(table.started(5, 1), None);
    assert_eq!(table.started(5, 2), Some(1));
    assert_eq!(table.drain(), vec![2]);
}
