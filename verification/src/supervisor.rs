//! The shutdown supervisor: the state machine that takes a supervised run
//! from start to exit.
//!
//! The supervisor does no waiting of its own. Its driver spawns the tasks,
//! awaits what there is to await, and reports each thing that happens as an
//! [`Event`]; the supervisor answers with the [`Action`] to take. Every event
//! is accepted in every phase, so the driver never has to ask first.

use crate::race::SupervisedOutcome;
use crate::signal::{CancellationSignal, SignalState};
use tokio_util::sync::CancellationToken;
use vstd::prelude::*;

verus! {

/// Where a supervised run stands. A run only ever moves down this list.
#[derive(Clone, Copy, Debug, PartialEq, Eq, Structural)]
pub enum Phase {
    /// The tasks are running and nobody has asked for anything.
    Running,
    /// The cancellation signal is set; the supervised task has yet to act on it.
    CancellationPending,
    /// Shutdown has begun: dependent work is told to stop and is waited for.
    ShuttingDown,
    /// Dependent work has finished. The process may exit.
    Terminated,
}

/// What made a run begin its shutdown.
#[derive(Clone, Copy, Debug, PartialEq, Eq, Structural)]
pub enum ShutdownCause {
    /// The supervised task ended, with this outcome.
    Outcome(SupervisedOutcome),
    /// The operating system delivered an interrupt request.
    Interrupt,
    /// Listening for the interrupt request failed. The run shuts down all the
    /// same, rather than go on without a way to be stopped.
    ListenFailure,
}

/// Something the driver has seen happen.
#[derive(Clone, Copy, Debug, PartialEq, Eq, Structural)]
pub enum Event {
    /// Somebody asked for cancellation: the canceller task, after its delay.
    CancelRequested,
    /// The supervised task ended.
    SupervisedFinished(SupervisedOutcome),
    /// The interrupt request arrived.
    Interrupted,
    /// Listening for the interrupt request failed.
    ListenFailed,
    /// Every spawned task has been joined.
    Drained,
}

/// What the driver is to do next.
#[derive(Clone, Copy, Debug, PartialEq, Eq, Structural)]
pub enum Action {
    /// Nothing: go on waiting for events.
    Wait,
    /// Join the spawned tasks, then report `Drained`. The cancellation signal
    /// is set by now, so the tasks are on their way out.
    Shutdown,
    /// Leave.
    Exit,
}

/// The state of a supervisor, as plain values.
#[derive(Clone, Copy, Debug, PartialEq, Eq, Structural)]
pub struct SupervisorState {
    /// The phase of the run.
    pub phase: Phase,
    /// What the supervisor knows of the cancellation signal.
    pub signal: SignalState,
    /// The outcome of the supervised task, once it was reported.
    pub outcome: Option<SupervisedOutcome>,
    /// What began the shutdown, once it has begun.
    pub cause: Option<ShutdownCause>,
}

impl Phase {
    /// The place of a phase in the order of a run.
    pub open spec fn rank(self) -> nat {
        match self {
            Phase::Running => 0,
            Phase::CancellationPending => 1,
            Phase::ShuttingDown => 2,
            Phase::Terminated => 3,
        }
    }

    /// Whether shutdown has not begun yet.
    pub open spec fn is_live(self) -> bool {
        self == Phase::Running || self == Phase::CancellationPending
    }
}

impl Event {
    /// The cause of shutdown that this event is, if it is one. Three events
    /// begin a shutdown: the end of the supervised task, the interrupt, and
    /// the failure to listen for it.
    pub open spec fn cause(self) -> Option<ShutdownCause> {
        match self {
            Event::SupervisedFinished(outcome) => Some(ShutdownCause::Outcome(outcome)),
            Event::Interrupted => Some(ShutdownCause::Interrupt),
            Event::ListenFailed => Some(ShutdownCause::ListenFailure),
            Event::CancelRequested | Event::Drained => None,
        }
    }

    /// The outcome that this event reports, if it reports one.
    pub open spec fn outcome(self) -> Option<SupervisedOutcome> {
        match self {
            Event::SupervisedFinished(outcome) => Some(outcome),
            _ => None,
        }
    }
}

impl SupervisorState {
    /// The state a run starts in.
    pub open spec fn initial() -> SupervisorState {
        SupervisorState {
            phase: Phase::Running,
            signal: SignalState::Pending,
            outcome: None,
            cause: None,
        }
    }

    /// What holds of every state that a run can reach.
    ///
    /// The signal is pending exactly while the run is in its first phase.
    /// Shutdown has a cause exactly once it has begun. Before that no outcome
    /// is known, and if the outcome is the cause, it is the outcome on record.
    pub open spec fn wf(self) -> bool {
        &&& self.signal == SignalState::Pending <==> self.phase == Phase::Running
        &&& self.cause is None <==> self.phase.is_live()
        &&& self.phase.is_live() ==> self.outcome is None
        &&& forall|outcome: SupervisedOutcome|
            self.cause == Some(ShutdownCause::Outcome(outcome)) ==> self.outcome == Some(outcome)
    }

    /// The outcome on record after `event`: the first one reported stays.
    pub open spec fn recorded(self, event: Event) -> Option<SupervisedOutcome> {
        if self.outcome is Some {
            self.outcome
        } else {
            event.outcome()
        }
    }

    /// The state after `event`.
    ///
    /// Before shutdown, a cancel request sets the signal, each cause of
    /// shutdown begins the shutdown (which sets the signal too), and there is
    /// nothing to drain. During shutdown, an outcome that comes in late is
    /// put on record and `Drained` ends the run. After that nothing changes.
    pub open spec fn next(self, event: Event) -> SupervisorState {
        if self.phase.is_live() {
            if event.cause() is Some {
                SupervisorState {
                    phase: Phase::ShuttingDown,
                    signal: SignalState::Cancelled,
                    outcome: self.recorded(event),
                    cause: event.cause(),
                }
            } else if event == Event::CancelRequested {
                SupervisorState {
                    phase: Phase::CancellationPending,
                    signal: SignalState::Cancelled,
                    ..self
                }
            } else {
                self
            }
        } else if self.phase == Phase::ShuttingDown {
            if event == Event::Drained {
                SupervisorState { phase: Phase::Terminated, ..self }
            } else {
                SupervisorState { outcome: self.recorded(event), ..self }
            }
        } else {
            self
        }
    }

    /// The answer to `event` in this state: `Shutdown` when the event begins
    /// the shutdown, `Exit` when it ends the run or the run has ended, and
    /// `Wait` otherwise.
    pub open spec fn action(self, event: Event) -> Action {
        if self.phase.is_live() {
            if event.cause() is Some {
                Action::Shutdown
            } else {
                Action::Wait
            }
        } else if self.phase == Phase::ShuttingDown {
            if event == Event::Drained {
                Action::Exit
            } else {
                Action::Wait
            }
        } else {
            Action::Exit
        }
    }

    /// The state after a run of events, in order.
    pub open spec fn run(self, events: Seq<Event>) -> SupervisorState
        decreases events.len(),
    {
        if events.len() == 0 {
            self
        } else {
            self.run(events.drop_last()).next(events.last())
        }
    }

    /// How often the signal changes state over a run of events.
    pub open spec fn signal_changes(self, events: Seq<Event>) -> nat
        decreases events.len(),
    {
        if events.len() == 0 {
            0
        } else {
            let before = self.run(events.drop_last());
            let changed: nat = if before.next(events.last()).signal != before.signal {
                1
            } else {
                0
            };
            self.signal_changes(events.drop_last()) + changed
        }
    }
}

/// The supervisor of one run. It owns the cancellation signal of the run.
pub struct ShutdownSupervisor {
    phase: Phase,
    signal: CancellationSignal,
    outcome: Option<SupervisedOutcome>,
    cause: Option<ShutdownCause>,
}

impl View for ShutdownSupervisor {
    type V = SupervisorState;

    closed spec fn view(&self) -> SupervisorState {
        SupervisorState {
            phase: self.phase,
            signal: self.signal@,
            outcome: self.outcome,
            cause: self.cause,
        }
    }
}

impl ShutdownSupervisor {
    /// The token of the run's signal: the one that every handle given out by
    /// `signal` holds.
    pub closed spec fn token_spec(&self) -> CancellationToken {
        self.signal.token_spec()
    }

    /// A supervisor at the start of a run, with a fresh signal.
    pub fn new() -> (supervisor: ShutdownSupervisor)
        ensures
            supervisor@ == SupervisorState::initial(),
    {
        ShutdownSupervisor {
            phase: Phase::Running,
            signal: CancellationSignal::new(),
            outcome: None,
            cause: None,
        }
    }

    /// Takes in one event and answers with what to do.
    ///
    /// Where the event sets the signal, the supervisor cancels the token
    /// that every handle of the run shares. The token is the same before and
    /// after every step; of its flag the contract says what the supervisor
    /// knows.
    pub fn step(&mut self, event: Event) -> (action: Action)
        ensures
            final(self)@ == old(self)@.next(event),
            action == old(self)@.action(event),
            final(self).token_spec() == old(self).token_spec(),
    {
        match self.phase {
            Phase::Running | Phase::CancellationPending => match event {
                Event::CancelRequested => {
                    self.signal.cancel();
                    self.phase = Phase::CancellationPending;
                    Action::Wait
                },
                Event::SupervisedFinished(outcome) => {
                    self.begin_shutdown(ShutdownCause::Outcome(outcome));
                    self.record(outcome);
                    Action::Shutdown
                },
                Event::Interrupted => {
                    self.begin_shutdown(ShutdownCause::Interrupt);
                    Action::Shutdown
                },
                Event::ListenFailed => {
                    self.begin_shutdown(ShutdownCause::ListenFailure);
                    Action::Shutdown
                },
                Event::Drained => Action::Wait,
            },
            Phase::ShuttingDown => match event {
                Event::Drained => {
                    self.phase = Phase::Terminated;
                    Action::Exit
                },
                Event::SupervisedFinished(outcome) => {
                    self.record(outcome);
                    Action::Wait
                },
                _ => Action::Wait,
            },
            Phase::Terminated => Action::Exit,
        }
    }

    /// Enters the shutdown phase: sets the signal and notes the cause.
    fn begin_shutdown(&mut self, cause: ShutdownCause)
        ensures
            final(self)@ == (SupervisorState {
                phase: Phase::ShuttingDown,
                signal: SignalState::Cancelled,
                cause: Some(cause),
                ..old(self)@
            }),
            final(self).token_spec() == old(self).token_spec(),
    {
        self.signal.cancel();
        self.phase = Phase::ShuttingDown;
        self.cause = Some(cause);
    }

    /// Puts an outcome on record unless one is there already.
    fn record(&mut self, outcome: SupervisedOutcome)
        ensures
            final(self)@ == (SupervisorState {
                outcome: old(self)@.recorded(Event::SupervisedFinished(outcome)),
                ..old(self)@
            }),
            final(self).token_spec() == old(self).token_spec(),
    {
        if self.outcome.is_none() {
            self.outcome = Some(outcome);
        }
    }

    /// The state, as plain values.
    pub fn state(&self) -> (state: SupervisorState)
        ensures
            state == self@,
    {
        SupervisorState {
            phase: self.phase,
            signal: self.signal.state(),
            outcome: self.outcome,
            cause: self.cause,
        }
    }

    /// The phase of the run.
    pub fn phase(&self) -> (phase: Phase)
        ensures
            phase == self@.phase,
    {
        self.phase
    }

    /// The outcome of the supervised task, once it was reported.
    pub fn outcome(&self) -> (outcome: Option<SupervisedOutcome>)
        ensures
            outcome == self@.outcome,
    {
        self.outcome
    }

    /// What began the shutdown, once it has begun.
    pub fn cause(&self) -> (cause: Option<ShutdownCause>)
        ensures
            cause == self@.cause,
    {
        self.cause
    }

    /// Whether the run has ended.
    pub fn is_terminated(&self) -> (terminated: bool)
        ensures
            terminated == (self@.phase == Phase::Terminated),
    {
        match self.phase {
            Phase::Terminated => true,
            _ => false,
        }
    }

    /// A handle on the signal of this run, for a task to hold: it holds the
    /// run's token, and it starts out knowing what the supervisor knows.
    pub fn signal(&self) -> (handle: CancellationSignal)
        ensures
            handle.token_spec() == self.token_spec(),
            handle@ == self@.signal,
    {
        self.signal.share()
    }
}

/// A run starts in a state that is well formed.
pub proof fn lemma_initial_is_wf()
    ensures
        SupervisorState::initial().wf(),
{
}

/// No event leads out of the well-formed states.
pub proof fn lemma_next_keeps_wf(state: SupervisorState, event: Event)
    requires
        state.wf(),
    ensures
        state.next(event).wf(),
{
}

/// A run never goes back: no event lowers the rank of the phase, and only
/// a state that is running can be followed by one that is.
pub proof fn lemma_phase_never_goes_back(state: SupervisorState, event: Event)
    ensures
        state.phase.rank() <= state.next(event).phase.rank(),
        state.next(event).phase == Phase::Running ==> state.phase == Phase::Running,
{
}

/// Once set, the signal stays set; and asking again for a cancellation that
/// was asked for already changes nothing at all.
pub proof fn lemma_signal_stays_set(state: SupervisorState, event: Event)
    ensures
        state.signal == SignalState::Cancelled ==> state.next(event).signal
            == SignalState::Cancelled,
        state.phase == Phase::CancellationPending && state.signal == SignalState::Cancelled
            ==> state.next(Event::CancelRequested) == state,
        state.next(Event::CancelRequested).next(Event::CancelRequested) == state.next(
            Event::CancelRequested,
        ),
{
}

/// The supervised task has one outcome: the first one on record stays there.
pub proof fn lemma_outcome_is_recorded_once(state: SupervisorState, event: Event)
    ensures
        state.outcome is Some ==> state.next(event).outcome == state.outcome,
{
}

/// A run that has ended takes no further step, and the answer to every event
/// is to leave.
pub proof fn lemma_terminated_is_final(state: SupervisorState, event: Event)
    requires
        state.phase == Phase::Terminated,
    ensures
        state.next(event) == state,
        state.action(event) == Action::Exit,
{
}

/// Before shutdown has begun, each of the three causes begins it, whether or
/// not the cancellation signal was set before: the phase becomes
/// `ShuttingDown`, the signal is set, the cause is noted and the answer is
/// `Shutdown`. In particular an interrupt that arrives before any internal
/// cancellation does so, and so does a failure to listen for it.
pub proof fn lemma_every_cause_begins_shutdown(state: SupervisorState, event: Event)
    requires
        state.phase.is_live(),
        event.cause() is Some,
    ensures
        state.next(event).phase == Phase::ShuttingDown,
        state.next(event).signal == SignalState::Cancelled,
        state.next(event).cause == event.cause(),
        state.action(event) == Action::Shutdown,
{
}

/// The interrupt and the internal cancellation are two ways to the same end.
/// From a running state, the interrupt alone, and a cancel request followed
/// by the outcome of the supervised task, both lead to `ShuttingDown`; from
/// there `Drained` leads to `Terminated` either way.
pub proof fn lemma_interrupt_and_cancellation_end_alike(
    state: SupervisorState,
    outcome: SupervisedOutcome,
)
    requires
        state.phase == Phase::Running,
    ensures
        state.next(Event::Interrupted).phase == Phase::ShuttingDown,
        state.next(Event::CancelRequested).phase == Phase::CancellationPending,
        state.next(Event::CancelRequested).next(Event::SupervisedFinished(outcome)).phase
            == Phase::ShuttingDown,
        state.next(Event::CancelRequested).next(Event::Interrupted).phase == Phase::ShuttingDown,
        state.next(Event::Interrupted).next(Event::Drained).phase == Phase::Terminated,
        state.next(Event::CancelRequested).next(Event::SupervisedFinished(outcome)).next(
            Event::Drained,
        ).phase == Phase::Terminated,
{
}

/// Only `Drained`, and only during shutdown, ends a run.
pub proof fn lemma_only_drained_terminates(state: SupervisorState, event: Event)
    requires
        state.phase != Phase::Terminated,
    ensures
        state.next(event).phase == Phase::Terminated <==> state.phase == Phase::ShuttingDown
            && event == Event::Drained,
        state.action(event) == Action::Exit <==> state.next(event).phase == Phase::Terminated,
{
}

/// Running one run of events after another is running the two joined.
pub proof fn lemma_run_in_two_parts(state: SupervisorState, first: Seq<Event>, second: Seq<Event>)
    ensures
        state.run(first + second) == state.run(first).run(second),
    decreases second.len(),
{
    if second.len() == 0 {
        assert(first + second == first);
    } else {
        lemma_run_in_two_parts(state, first, second.drop_last());
        assert((first + second).drop_last() == first + second.drop_last());
        assert((first + second).last() == second.last());
    }
}

/// At no point of a run is the phase earlier than at a point before it, and
/// at no point is a signal pending that was set before.
pub proof fn lemma_later_is_never_earlier(
    state: SupervisorState,
    first: Seq<Event>,
    second: Seq<Event>,
)
    ensures
        state.run(first).phase.rank() <= state.run(first + second).phase.rank(),
        state.run(first).signal == SignalState::Cancelled ==> state.run(first + second).signal
            == SignalState::Cancelled,
        state.run(first).outcome is Some ==> state.run(first + second).outcome == state.run(
            first,
        ).outcome,
{
    lemma_run_in_two_parts(state, first, second);
    lemma_run_never_goes_back(state.run(first), second);
}

/// Every state that a run reaches is well formed, whatever the events.
pub proof fn lemma_run_keeps_wf(state: SupervisorState, events: Seq<Event>)
    requires
        state.wf(),
    ensures
        state.run(events).wf(),
    decreases events.len(),
{
    if events.len() > 0 {
        lemma_run_keeps_wf(state, events.drop_last());
        lemma_next_keeps_wf(state.run(events.drop_last()), events.last());
    }
}

/// Over a whole run, whatever the events: the phase does not go back, a set
/// signal stays set, and an outcome on record stays on record.
pub proof fn lemma_run_never_goes_back(state: SupervisorState, events: Seq<Event>)
    ensures
        state.phase.rank() <= state.run(events).phase.rank(),
        state.signal == SignalState::Cancelled ==> state.run(events).signal
            == SignalState::Cancelled,
        state.outcome is Some ==> state.run(events).outcome == state.outcome,
        state.phase == Phase::Terminated ==> state.run(events) == state,
    decreases events.len(),
{
    if events.len() > 0 {
        lemma_run_never_goes_back(state, events.drop_last());
    }
}

/// Over a whole run, whatever the events, the signal changes state at most
/// once: not at all if it was set at the start, and else once if it is set at
/// the end.
pub proof fn lemma_signal_changes_at_most_once(state: SupervisorState, events: Seq<Event>)
    ensures
        state.signal_changes(events) <= 1,
        state.signal == SignalState::Cancelled ==> state.signal_changes(events) == 0,
        state.signal_changes(events) == 1 <==> state.signal == SignalState::Pending
            && state.run(events).signal == SignalState::Cancelled,
    decreases events.len(),
{
    if events.len() > 0 {
        lemma_signal_changes_at_most_once(state, events.drop_last());
        lemma_run_never_goes_back(state, events.drop_last());
    }
}

} // verus!
