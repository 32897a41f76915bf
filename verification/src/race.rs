//! The supervised race: a task waits for the cancellation signal and for a
//! long safety timeout at once, and whichever comes first decides its outcome.

use vstd::prelude::*;

verus! {

/// The code a supervised task yields when the cancellation signal won the race.
pub const CANCELLED_CODE: i32 = 5;

/// The code a supervised task yields when the safety timeout won the race.
pub const TIMEOUT_CODE: i32 = 99;

/// One of the two things a supervised task waits for has happened.
#[derive(Clone, Copy, Debug, PartialEq, Eq, Structural)]
pub enum RaceEvent {
    /// The cancellation signal was seen set.
    Cancellation,
    /// The safety timeout elapsed.
    Timeout,
}

/// How a supervised task ended.
#[derive(Clone, Copy, Debug, PartialEq, Eq, Structural)]
pub enum SupervisedOutcome {
    /// The cancellation signal came first.
    Cancelled,
    /// The safety timeout came first.
    Timeout,
}

impl RaceEvent {
    /// The outcome of a race that this event wins.
    pub open spec fn outcome_spec(self) -> SupervisedOutcome {
        match self {
            RaceEvent::Cancellation => SupervisedOutcome::Cancelled,
            RaceEvent::Timeout => SupervisedOutcome::Timeout,
        }
    }

    /// The outcome of a race that this event wins.
    pub fn outcome(self) -> (outcome: SupervisedOutcome)
        ensures
            outcome == self.outcome_spec(),
    {
        match self {
            RaceEvent::Cancellation => SupervisedOutcome::Cancelled,
            RaceEvent::Timeout => SupervisedOutcome::Timeout,
        }
    }
}

impl SupervisedOutcome {
    /// The code of this outcome, as an integer.
    pub open spec fn code_spec(self) -> int {
        match self {
            SupervisedOutcome::Cancelled => 5,
            SupervisedOutcome::Timeout => 99,
        }
    }

    /// The outcome that a code stands for, if it stands for one.
    pub open spec fn of_code(code: int) -> Option<SupervisedOutcome> {
        if code == 5 {
            Some(SupervisedOutcome::Cancelled)
        } else if code == 99 {
            Some(SupervisedOutcome::Timeout)
        } else {
            None
        }
    }

    /// The code that a supervised task hands to whoever joins it.
    pub fn code(self) -> (code: i32)
        ensures
            code == self.code_spec(),
    {
        match self {
            SupervisedOutcome::Cancelled => CANCELLED_CODE,
            SupervisedOutcome::Timeout => TIMEOUT_CODE,
        }
    }

    /// Reads a code back. Only the two codes of `code` stand for an outcome.
    pub fn from_code(code: i32) -> (outcome: Option<SupervisedOutcome>)
        ensures
            outcome == SupervisedOutcome::of_code(code as int),
    {
        if code == CANCELLED_CODE {
            Some(SupervisedOutcome::Cancelled)
        } else if code == TIMEOUT_CODE {
            Some(SupervisedOutcome::Timeout)
        } else {
            None
        }
    }
}

/// What is settled of a race after one more event: the first event decides,
/// and an event that arrives after the decision changes nothing.
pub open spec fn settle(settled: Option<SupervisedOutcome>, event: RaceEvent) -> Option<
    SupervisedOutcome,
> {
    match settled {
        Some(outcome) => Some(outcome),
        None => Some(event.outcome_spec()),
    }
}

/// What is settled of a race after a run of events, starting from `settled`.
pub open spec fn settle_all(settled: Option<SupervisedOutcome>, events: Seq<RaceEvent>) -> Option<
    SupervisedOutcome,
>
    decreases events.len(),
{
    if events.len() == 0 {
        settled
    } else {
        settle(settle_all(settled, events.drop_last()), events.last())
    }
}

/// How many outcomes a run of events produces, starting from `settled`: an
/// event produces one exactly when nothing was settled before it.
pub open spec fn outcomes_produced(settled: Option<SupervisedOutcome>, events: Seq<RaceEvent>) -> nat
    decreases events.len(),
{
    if events.len() == 0 {
        0
    } else {
        let before = events.drop_last();
        let produced: nat = if settle_all(settled, before) is None {
            1
        } else {
            0
        };
        outcomes_produced(settled, before) + produced
    }
}

/// The outcome of a race in which `events` happen in this order: that of the
/// first one, and none while nothing has happened.
pub open spec fn race(events: Seq<RaceEvent>) -> Option<SupervisedOutcome> {
    if events.len() == 0 {
        None
    } else {
        Some(events[0].outcome_spec())
    }
}

/// A supervised task: one race, decided once.
#[derive(Debug)]
pub struct SupervisedTask {
    outcome: Option<SupervisedOutcome>,
}

impl View for SupervisedTask {
    type V = Option<SupervisedOutcome>;

    /// The outcome, once the race is decided.
    closed spec fn view(&self) -> Option<SupervisedOutcome> {
        self.outcome
    }
}

impl SupervisedTask {
    /// A task whose race is still open.
    pub fn new() -> (task: SupervisedTask)
        ensures
            task@ is None,
    {
        SupervisedTask { outcome: None }
    }

    /// Tells the task that one of the two things it waits for has happened.
    /// The first event decides the race and its outcome is returned; a later
    /// event is dropped and `None` is returned.
    pub fn observe(&mut self, event: RaceEvent) -> (produced: Option<SupervisedOutcome>)
        ensures
            final(self)@ == settle(old(self)@, event),
            produced == (if old(self)@ is None {
                Some(event.outcome_spec())
            } else {
                None
            }),
    {
        match self.outcome {
            Some(_) => None,
            None => {
                let outcome = event.outcome();
                self.outcome = Some(outcome);
                Some(outcome)
            },
        }
    }

    /// The outcome, once the race is decided.
    pub fn outcome(&self) -> (outcome: Option<SupervisedOutcome>)
        ensures
            outcome == self@,
    {
        self.outcome
    }

    /// Whether the race is decided.
    pub fn is_finished(&self) -> (finished: bool)
        ensures
            finished == (self@ is Some),
    {
        self.outcome.is_some()
    }
}

/// The two codes differ and each reads back as its outcome, so a code tells
/// exactly one outcome and every outcome has a code.
pub proof fn lemma_codes_tell_outcomes_apart(outcome: SupervisedOutcome, code: int)
    ensures
        SupervisedOutcome::of_code(outcome.code_spec()) == Some(outcome),
        SupervisedOutcome::of_code(code) == Some(outcome) <==> code == outcome.code_spec(),
        outcome.code_spec() == 5 || outcome.code_spec() == 99,
        SupervisedOutcome::Cancelled.code_spec() != SupervisedOutcome::Timeout.code_spec(),
{
}

/// Once a race is decided, no run of further events changes the outcome or
/// produces another one.
pub proof fn lemma_decided_race_stays_decided(outcome: SupervisedOutcome, events: Seq<RaceEvent>)
    ensures
        settle_all(Some(outcome), events) == Some(outcome),
        outcomes_produced(Some(outcome), events) == 0,
    decreases events.len(),
{
    if events.len() > 0 {
        lemma_decided_race_stays_decided(outcome, events.drop_last());
    }
}

/// Whatever events reach a task and in whatever order, the first one decides:
/// the task ends up with `race(events)`, and it produces an outcome once if
/// anything happened at all and never otherwise.
pub proof fn lemma_first_event_decides(events: Seq<RaceEvent>)
    ensures
        settle_all(None, events) == race(events),
        outcomes_produced(None, events) == (if events.len() == 0 {
            0nat
        } else {
            1nat
        }),
    decreases events.len(),
{
    if events.len() > 0 {
        let before = events.drop_last();
        lemma_first_event_decides(before);
        if before.len() > 0 {
            assert(before[0] == events[0]);
        }
    }
}

/// The race has exactly two outcomes and the order of the two events picks
/// one: cancellation before the timeout gives `Cancelled`, the timeout before
/// any cancellation gives `Timeout`, and the loser of the race is ignored.
pub proof fn lemma_race_is_decided_by_order(first: RaceEvent, rest: Seq<RaceEvent>)
    ensures
        first == RaceEvent::Cancellation ==> race(seq![first] + rest) == Some(
            SupervisedOutcome::Cancelled,
        ),
        first == RaceEvent::Timeout ==> race(seq![first] + rest) == Some(SupervisedOutcome::Timeout),
        settle_all(None, seq![first] + rest) == Some(first.outcome_spec()),
{
    let events = seq![first] + rest;
    assert(events[0] == first);
    lemma_first_event_decides(events);
}

} // verus!
