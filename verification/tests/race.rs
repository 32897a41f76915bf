use crunch::race::{RaceEvent, SupervisedOutcome, SupervisedTask, CANCELLED_CODE, TIMEOUT_CODE};

#[test]
fn cancelled_outcome_has_code_5() {
    assert_eq!(SupervisedOutcome::Cancelled.code(), 5);
    assert_eq!(CANCELLED_CODE, 5);
}

#[test]
fn timeout_outcome_has_code_99() {
    assert_eq!(SupervisedOutcome::Timeout.code(), 99);
    assert_eq!(TIMEOUT_CODE, 99);
}

#[test]
fn codes_read_back() {
    assert_eq!(SupervisedOutcome::from_code(5), Some(SupervisedOutcome::Cancelled));
    assert_eq!(SupervisedOutcome::from_code(99), Some(SupervisedOutcome::Timeout));
    for outcome in [SupervisedOutcome::Cancelled, SupervisedOutcome::Timeout] {
        assert_eq!(SupervisedOutcome::from_code(outcome.code()), Some(outcome));
    }
}

#[test]
fn other_codes_stand_for_nothing() {
    for code in [i32::MIN, -99, -5, -1, 0, 1, 4, 6, 98, 100, 599, i32::MAX] {
        assert_eq!(SupervisedOutcome::from_code(code), None);
    }
}

#[test]
fn each_event_wins_its_own_outcome() {
    assert_eq!(RaceEvent::Cancellation.outcome(), SupervisedOutcome::Cancelled);
    assert_eq!(RaceEvent::Timeout.outcome(), SupervisedOutcome::Timeout);
}

#[test]
fn new_task_is_undecided() {
    let task = SupervisedTask::new();
    assert_eq!(task.outcome(), None);
    assert!(!task.is_finished());
}

#[test]
fn cancellation_before_timeout_gives_cancelled() {
    let mut task = SupervisedTask::new();
    assert_eq!(task.observe(RaceEvent::Cancellation), Some(SupervisedOutcome::Cancelled));
    assert_eq!(task.observe(RaceEvent::Timeout), None);
    assert_eq!(task.outcome(), Some(SupervisedOutcome::Cancelled));
    assert!(task.is_finished());
}

#[test]
fn timeout_before_cancellation_gives_timeout() {
    let mut task = SupervisedTask::new();
    assert_eq!(task.observe(RaceEvent::Timeout), Some(SupervisedOutcome::Timeout));
    assert_eq!(task.observe(RaceEvent::Cancellation), None);
    assert_eq!(task.outcome(), Some(SupervisedOutcome::Timeout));
    assert!(task.is_finished());
}

#[test]
fn timeout_alone_gives_timeout() {
    let mut task = SupervisedTask::new();
    assert_eq!(task.observe(RaceEvent::Timeout), Some(SupervisedOutcome::Timeout));
    assert_eq!(task.outcome().map(|outcome| outcome.code()), Some(99));
}

#[test]
fn a_task_produces_one_outcome_however_many_events_come() {
    let events = [
        RaceEvent::Cancellation,
        RaceEvent::Cancellation,
        RaceEvent::Timeout,
        RaceEvent::Cancellation,
        RaceEvent::Timeout,
    ];
    for first in 0..events.len() {
        let mut task = SupervisedTask::new();
        let mut produced = 0;
        for event in &events[first..] {
            if task.observe(*event).is_some() {
                produced += 1;
            }
        }
        assert_eq!(produced, 1);
        assert_eq!(task.outcome(), Some(events[first].outcome()));
    }
}
