use ao3reader::tasks::{TaskId, TaskList};
use ao3reader::timers::Timers;

#[test]
fn an_order_is_due_until_its_task_goes() {
    let mut timers = Timers::new();
    let mut tasks = TaskList::new();
    tasks.schedule_task(TaskId::CheckBattery);
    tasks.schedule_task(TaskId::Suspend);
    let battery = timers.order(TaskId::CheckBattery);
    let sleep = timers.order(TaskId::Suspend);
    assert!(timers.is_due(battery) && timers.is_due(sleep));
    timers.keep(&tasks);
    assert!(timers.is_due(battery) && timers.is_due(sleep));
    tasks.cancel(TaskId::Suspend);
    timers.keep(&tasks);
    assert!(timers.is_due(battery));
    assert!(!timers.is_due(sleep));
}

#[test]
fn a_dropped_order_is_never_due_again() {
    let mut timers = Timers::new();
    let mut tasks = TaskList::new();
    let sleep = timers.order(TaskId::Suspend);
    timers.keep(&tasks);
    assert!(!timers.is_due(sleep));
    tasks.schedule_task(TaskId::Suspend);
    let again = timers.order(TaskId::Suspend);
    timers.keep(&tasks);
    assert_ne!(sleep, again);
    assert!(!timers.is_due(sleep));
    assert!(timers.is_due(again));
}

#[test]
fn an_order_replaces_one_of_its_kind() {
    let mut timers = Timers::new();
    let first = timers.order(TaskId::PrepareSuspend);
    let other = timers.order(TaskId::CheckBattery);
    let second = timers.order(TaskId::PrepareSuspend);
    assert!(!timers.is_due(first));
    assert!(timers.is_due(other));
    assert!(timers.is_due(second));
    assert!(!timers.is_due(second + 1));
    assert!(timers.has_ticket());
}
