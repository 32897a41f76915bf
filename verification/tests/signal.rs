use crunch::signal::{CancellationSignal, SignalState};

#[test]
fn fresh_signal_is_pending() {
    let mut signal = CancellationSignal::new();
    assert_eq!(signal.state(), SignalState::Pending);
    assert_eq!(signal.observe(), SignalState::Pending);
    assert!(!signal.token().is_cancelled());
}

#[test]
fn cancel_sets_the_signal() {
    let mut signal = CancellationSignal::new();
    signal.cancel();
    assert_eq!(signal.state(), SignalState::Cancelled);
    assert!(signal.token().is_cancelled());
    assert_eq!(signal.observe(), SignalState::Cancelled);
}

#[test]
fn second_cancel_is_a_no_op() {
    let mut signal = CancellationSignal::new();
    signal.cancel();
    let after_first = (signal.state(), signal.token().is_cancelled());
    signal.cancel();
    let after_second = (signal.state(), signal.token().is_cancelled());
    assert_eq!(after_first, (SignalState::Cancelled, true));
    assert_eq!(after_second, after_first);
}

#[test]
fn cancel_reaches_every_handle() {
    let mut canceller = CancellationSignal::new();
    let mut first = canceller.share();
    let mut second = first.share();
    assert_eq!(first.state(), SignalState::Pending);
    canceller.cancel();
    assert!(first.token().is_cancelled());
    assert!(second.token().is_cancelled());
    assert_eq!(first.state(), SignalState::Pending);
    assert_eq!(first.observe(), SignalState::Cancelled);
    assert_eq!(first.state(), SignalState::Cancelled);
    assert_eq!(second.observe(), SignalState::Cancelled);
}

#[test]
fn a_handle_shared_after_cancel_knows_of_it() {
    let mut signal = CancellationSignal::new();
    signal.cancel();
    let other = signal.share();
    assert_eq!(other.state(), SignalState::Cancelled);
    assert!(other.token().is_cancelled());
}

#[test]
fn separate_signals_do_not_touch_each_other() {
    let mut one = CancellationSignal::new();
    let mut other = CancellationSignal::new();
    one.cancel();
    assert_eq!(other.observe(), SignalState::Pending);
    assert!(!other.token().is_cancelled());
}

#[test]
fn signal_state_knows_whether_it_is_cancelled() {
    assert!(!SignalState::Pending.is_cancelled());
    assert!(SignalState::Cancelled.is_cancelled());
}

#[test]
fn seeing_the_flag_never_forgets_a_cancellation() {
    assert_eq!(SignalState::Pending.seeing(false), SignalState::Pending);
    assert_eq!(SignalState::Pending.seeing(true), SignalState::Cancelled);
    assert_eq!(SignalState::Cancelled.seeing(false), SignalState::Cancelled);
    assert_eq!(SignalState::Cancelled.seeing(true), SignalState::Cancelled);
}

#[test]
fn shared_handles_hold_the_same_token() {
    let mut first = CancellationSignal::new();
    let second = first.share();
    let third = second.share();
    assert!(first.token() == second.token());
    assert!(second.token() == third.token());
    first.cancel();
    first.observe();
    assert!(first.token() == second.token());
    assert!(first.share().token() == third.token());
}

#[test]
fn separate_signals_hold_different_tokens() {
    let one = CancellationSignal::new();
    let other = CancellationSignal::new();
    assert!(one.token() != other.token());
    assert!(one.share().token() != other.share().token());
}
