use woi::state::{RunState, State};

#[test]
fn state_new_is_one_idle_no_waiter() {
    let s = State::new();
    assert_eq!(s.ref_count, 1);
    assert_eq!(s.run_state, RunState::Idle);
    assert!(!s.has_join_waiter);
}

#[test]
fn state_ref_count_arithmetic() {
    let mut s = State::new();
    s.ref_incr();
    s.ref_incr();
    assert_eq!(s.ref_count(), 3);
    s.ref_decr();
    assert_eq!(s.ref_count(), 2);
    s.ref_decr();
    s.ref_decr();
    assert_eq!(s.ref_count(), 0);
}

#[test]
fn state_transitions_follow_the_cycle() {
    let mut s = State::new();
    s.transition_to_scheduled();
    assert_eq!(s.run_state, RunState::Scheduled);
    s.transition_to_running();
    assert_eq!(s.run_state, RunState::Running);
    s.transition_to_idle();
    assert_eq!(s.run_state, RunState::Idle);
    s.transition_to_running();
    s.transition_to_complete();
    assert_eq!(s.run_state, RunState::Complete);
    // A wake after completion leaves the state Scheduled again.
    s.transition_to_scheduled();
    assert_eq!(s.run_state, RunState::Scheduled);
}

#[test]
fn state_join_waiter_flag() {
    let mut s = State::new();
    assert!(!s.has_join_waker());
    s.set_join_waker();
    assert!(s.has_join_waker());
    s.unset_join_handle();
    assert!(!s.has_join_waker());
}
