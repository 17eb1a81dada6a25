use ao3reader::tasks::{
    TaskId, TaskList, BATTERY_REFRESH_INTERVAL, PREPARE_SUSPEND_WAIT_DELAY, SUSPEND_WAIT_DELAY,
};

#[test]
fn a_new_list_is_empty() {
    let tasks = TaskList::new();
    assert!(tasks.pending().is_empty());
    assert!(!tasks.contains(TaskId::CheckBattery));
    assert!(!tasks.contains(TaskId::PrepareSuspend));
    assert!(!tasks.contains(TaskId::Suspend));
}

#[test]
fn scheduling_twice_lists_once() {
    let mut tasks = TaskList::new();
    tasks.schedule_task(TaskId::Suspend);
    tasks.schedule_task(TaskId::CheckBattery);
    tasks.schedule_task(TaskId::Suspend);
    assert_eq!(tasks.pending(), &vec![TaskId::CheckBattery, TaskId::Suspend]);
}

#[test]
fn a_task_that_is_scheduled_again_comes_last() {
    let mut tasks = TaskList::new();
    tasks.schedule_task(TaskId::CheckBattery);
    tasks.schedule_task(TaskId::PrepareSuspend);
    assert_eq!(tasks.pending(), &vec![TaskId::CheckBattery, TaskId::PrepareSuspend]);
    tasks.schedule_task(TaskId::CheckBattery);
    assert_eq!(tasks.pending(), &vec![TaskId::PrepareSuspend, TaskId::CheckBattery]);
    tasks.schedule_task(TaskId::Suspend);
    tasks.cancel(TaskId::CheckBattery);
    assert_eq!(tasks.pending(), &vec![TaskId::PrepareSuspend, TaskId::Suspend]);
}

#[test]
fn cancelling_takes_one_kind_away() {
    let mut tasks = TaskList::new();
    tasks.schedule_task(TaskId::PrepareSuspend);
    tasks.schedule_task(TaskId::CheckBattery);
    tasks.cancel(TaskId::PrepareSuspend);
    tasks.cancel(TaskId::Suspend);
    assert_eq!(tasks.pending(), &vec![TaskId::CheckBattery]);
    assert!(tasks.contains(TaskId::CheckBattery));
    assert!(!tasks.contains(TaskId::PrepareSuspend));
}

#[test]
fn clearing_takes_all_away() {
    let mut tasks = TaskList::new();
    tasks.schedule_task(TaskId::PrepareSuspend);
    tasks.schedule_task(TaskId::CheckBattery);
    tasks.clear();
    assert!(tasks.pending().is_empty());
}

#[test]
fn delays_are_those_of_the_device() {
    assert_eq!(TaskId::CheckBattery.delay(), 299);
    assert_eq!(TaskId::PrepareSuspend.delay(), 3);
    assert_eq!(TaskId::Suspend.delay(), 15);
    assert_eq!(BATTERY_REFRESH_INTERVAL, 299);
    assert_eq!(PREPARE_SUSPEND_WAIT_DELAY, 3);
    assert_eq!(SUSPEND_WAIT_DELAY, 15);
}
