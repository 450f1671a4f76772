use woi::future::{ReadyFuture, YieldOnceFuture};
use woi::header::JoinWaker;
use woi::raw::{RawTask, Status, TaskVTable};
use woi::sched::{NoopScheduler, QueueScheduler};
use woi::state::RunState;

#[test]
fn scenario_immediate_completion() {
    let mut task = RawTask::new(ReadyFuture::new(42u64), NoopScheduler::new());
    assert_eq!(task.header.state.ref_count, 1);
    assert_eq!(task.header.state.run_state, RunState::Idle);
    let notify = task.poll();
    assert!(notify.is_none());
    assert_eq!(task.header.state.run_state, RunState::Complete);
    assert!(matches!(task.status, Status::Finished(42)));
    let out = task.get_output();
    assert_eq!(out, 42);
    assert!(matches!(task.status, Status::Consumed));
    // Dropping the join side releases the last reference and frees the task.
    assert!(task.drop_join_handle().is_none());
}

#[test]
fn scenario_pending_then_wake() {
    let mut task = RawTask::new(
        YieldOnceFuture::new(String::from("done")),
        QueueScheduler::new(),
    );
    // The waker the future stores during its first poll is one reference.
    task.clone_waker();
    assert_eq!(task.header.state.ref_count, 2);

    let n1 = task.poll();
    assert!(n1.is_none());
    assert_eq!(task.header.state.run_state, RunState::Idle);
    assert!(task.try_get_output().is_none());

    // The event source fires the stored waker: scheduled once, accepted once.
    task.wake();
    assert_eq!(task.header.state.run_state, RunState::Scheduled);
    assert_eq!(task.scheduler.len(), 1);

    let n2 = task.poll();
    assert!(n2.is_none());
    assert_eq!(task.header.state.run_state, RunState::Complete);
    let out = task.try_get_output();
    assert_eq!(out, Some(String::from("done")));
    // The output can be taken exactly once; a second take is rejected.
    assert!(task.try_get_output().is_none());

    let task = task.drop_waker().expect("join side still holds a reference");
    assert!(task.drop_join_handle().is_none());
}

#[test]
fn scenario_waker_clones_release_the_task() {
    let mut task = RawTask::new(ReadyFuture::new(5u8), NoopScheduler::new());
    task.clone_waker();
    task.clone_waker();
    task.clone_waker();
    assert_eq!(task.header.state.ref_count, 4);
    // Drop all four references (the original and the three clones): the task
    // is freed at the fourth drop, not before.
    let task = task.drop_waker().expect("three references left");
    let task = task.drop_waker().expect("two references left");
    let task = task.drop_waker().expect("one reference left");
    assert_eq!(task.header.state.ref_count, 1);
    assert!(task.drop_waker().is_none());
}

#[test]
fn waking_idle_task_schedules_exactly_once() {
    let mut task = RawTask::new(YieldOnceFuture::new(1u32), QueueScheduler::new());
    let _ = task.poll();
    assert_eq!(task.header.state.run_state, RunState::Idle);
    task.wake();
    assert_eq!(task.header.state.run_state, RunState::Scheduled);
    assert_eq!(task.scheduler.len(), 1);
    task.wake_by_ref();
    assert_eq!(task.scheduler.len(), 2);
    // Cloning and dropping wakers changes the count by exactly that number.
    let before = task.header.state.ref_count;
    task.clone_waker();
    task.clone_waker();
    assert_eq!(task.header.state.ref_count, before + 2);
    let task = task.drop_waker().unwrap();
    let task = task.drop_waker().unwrap();
    assert_eq!(task.header.state.ref_count, before);
}

#[test]
fn join_waiter_notified_exactly_once_at_completion() {
    let mut task = RawTask::new(YieldOnceFuture::new(9i64), NoopScheduler::new());
    task.register_join_waker(JoinWaker::new(7));
    assert!(task.header.state.has_join_waiter);
    // The pending poll does not notify.
    let n1 = task.poll();
    assert!(n1.is_none());
    assert_eq!(task.header.join_waker, Some(JoinWaker { id: 7 }));
    // The completing poll hands the waker out, exactly once.
    task.wake();
    let n2 = task.poll();
    assert_eq!(n2, Some(JoinWaker { id: 7 }));
    assert_eq!(task.header.join_waker, None);
}

#[test]
fn no_join_waiter_no_notification() {
    let mut task = RawTask::new(ReadyFuture::new(0u16), NoopScheduler::new());
    let notify = task.poll();
    assert!(notify.is_none());
    assert_eq!(task.header.state.run_state, RunState::Complete);
}

#[test]
fn completed_task_cannot_be_polled_again() {
    let mut task = RawTask::new(ReadyFuture::new('x'), NoopScheduler::new());
    assert!(task.can_poll());
    let _ = task.poll();
    assert!(!task.can_poll());
    // A redundant wake never corrupts state: the executor sees the task is
    // not pollable and drops the request.
    task.wake();
    assert_eq!(task.header.state.run_state, RunState::Scheduled);
    assert!(!task.can_poll());
    let out = task.get_output();
    assert_eq!(out, 'x');
}

#[test]
fn operation_table_drives_a_task_to_completion() {
    let vtable = TaskVTable::new();
    let mut task = RawTask::new(YieldOnceFuture::new(11u64), QueueScheduler::new());
    let n1 = vtable.poll(&mut task);
    assert!(n1.is_none());
    task.wake();
    let n2 = vtable.poll(&mut task);
    assert!(n2.is_none());
    assert_eq!(task.header.state.run_state, RunState::Complete);
    let out = vtable.get_output(&mut task);
    assert_eq!(out, 11);
    vtable.schedule(&mut task);
    assert_eq!(task.scheduler.len(), 2);
    assert!(vtable.drop_join_handle(task).is_none());
}

#[test]
fn dropping_join_handle_before_completion() {
    let mut task = RawTask::new(YieldOnceFuture::new(3u64), NoopScheduler::new());
    task.clone_waker();
    task.register_join_waker(JoinWaker::new(1));
    let _ = task.poll();
    // The join side gives up: its flag, waker and reference go with it.
    let task = task.drop_join_handle().expect("the waker still holds a reference");
    assert!(!task.header.state.has_join_waiter);
    assert_eq!(task.header.join_waker, None);
    assert_eq!(task.header.state.ref_count, 1);
    assert!(task.drop_waker().is_none());
}
