//! The cancellation signal: a one-shot flag shared by the tasks of a run.
//!
//! The flag itself lives in a `tokio_util` [`CancellationToken`]. Every clone
//! of a token reaches the same flag through a shared reference, so the flag
//! can change under a handle at any time and no contract can speak of its
//! state. The contracts speak of two things instead. One is which token a
//! handle holds: handles that were shared from one another hold the same
//! token, and no operation swaps it for another. The other is what a handle
//! *knows*: a handle that has cancelled the flag, or has seen it cancelled,
//! knows it to be cancelled, and since the flag never goes back that
//! knowledge stays true.

use tokio_util::sync::CancellationToken;
use vstd::prelude::*;

verus! {

/// `tokio_util::sync::CancellationToken`, opaque to the verifier: a handle on
/// a flag that other handles may set.
#[verifier::external_type_specification]
#[verifier::external_body]
pub struct ExCancellationToken(tokio_util::sync::CancellationToken);

/// `CancellationToken::new`. Nothing is claimed of the token it returns.
pub assume_specification[ CancellationToken::new ]() -> (token: CancellationToken);

/// `CancellationToken::cancel`. It sets the shared flag, which no clause can
/// describe; nothing is claimed.
pub assume_specification[ CancellationToken::cancel ](token: &CancellationToken);

/// `CancellationToken::is_cancelled`. The answer depends on what every other
/// handle has done so far; nothing is claimed of it.
pub assume_specification[ CancellationToken::is_cancelled ](token: &CancellationToken) -> (cancelled: bool);

/// `Clone::clone` of a `CancellationToken`. The clone is a handle on the very
/// flag of the token it was made from: it is built on the same node, and the
/// type's own `==`, which compares the nodes, holds the two for equal. To the
/// verifier a token is which flag it stands for, so the clone is the same
/// token. Of the flag's state nothing is claimed.
pub assume_specification[ <CancellationToken as Clone>::clone ](token: &CancellationToken) -> (copy: CancellationToken)
    ensures
        copy == *token,
;

/// The two states of a cancellation signal.
#[derive(Clone, Copy, Debug, PartialEq, Eq, Structural)]
pub enum SignalState {
    /// Nobody has asked for cancellation yet.
    Pending,
    /// Cancellation was requested. There is no way back.
    Cancelled,
}

impl SignalState {
    /// The state after a cancel request: cancelled, whatever it was before.
    pub open spec fn after_cancel(self) -> SignalState {
        SignalState::Cancelled
    }

    /// The state after looking at the shared flag: what was known before,
    /// joined with what the flag says now.
    pub open spec fn after_seeing(self, flag: bool) -> SignalState {
        if flag {
            SignalState::Cancelled
        } else {
            self
        }
    }

    /// Whether this is the cancelled state.
    pub fn is_cancelled(self) -> (cancelled: bool)
        ensures
            cancelled == (self == SignalState::Cancelled),
    {
        match self {
            SignalState::Pending => false,
            SignalState::Cancelled => true,
        }
    }

    /// Joins what a handle knew with a reading of the shared flag. Knowledge
    /// of a cancellation is never lost to a stale reading.
    pub fn seeing(self, flag: bool) -> (state: SignalState)
        ensures
            state == self.after_seeing(flag),
    {
        if flag {
            SignalState::Cancelled
        } else {
            self
        }
    }
}

/// A handle on the cancellation signal of a run.
pub struct CancellationSignal {
    token: CancellationToken,
    known: SignalState,
}

impl View for CancellationSignal {
    type V = SignalState;

    /// What this handle knows of the signal.
    closed spec fn view(&self) -> SignalState {
        self.known
    }
}

impl CancellationSignal {
    /// The token behind this handle.
    pub closed spec fn token_spec(&self) -> CancellationToken {
        self.token
    }

    /// A fresh signal, pending.
    pub fn new() -> (signal: CancellationSignal)
        ensures
            signal@ == SignalState::Pending,
    {
        CancellationSignal { token: CancellationToken::new(), known: SignalState::Pending }
    }

    /// Another handle on the same signal, for another task: it holds the
    /// same token, and it starts out knowing what this one knows.
    pub fn share(&self) -> (other: CancellationSignal)
        ensures
            other.token_spec() == self.token_spec(),
            other@ == self@,
    {
        CancellationSignal { token: self.token.clone(), known: self.known }
    }

    /// Requests cancellation. On a signal already cancelled this changes
    /// nothing.
    pub fn cancel(&mut self)
        ensures
            final(self)@ == old(self)@.after_cancel(),
            final(self).token_spec() == old(self).token_spec(),
    {
        self.token.cancel();
        self.known = SignalState::Cancelled;
    }

    /// Looks at the shared flag and returns what is known afterwards.
    pub fn observe(&mut self) -> (state: SignalState)
        ensures
            state == final(self)@,
            old(self)@ == SignalState::Cancelled ==> state == SignalState::Cancelled,
            final(self).token_spec() == old(self).token_spec(),
    {
        let flag = self.token.is_cancelled();
        self.known = self.known.seeing(flag);
        self.known
    }

    /// What this handle knows, without looking at the shared flag.
    pub fn state(&self) -> (state: SignalState)
        ensures
            state == self@,
    {
        self.known
    }

    /// The token, for a task that wants to await the cancellation.
    pub fn token(&self) -> (token: &CancellationToken)
        ensures
            *token == self.token_spec(),
    {
        &self.token
    }
}

/// One thing that can be done with a handle: ask for cancellation, or look at
/// the shared flag and find it set or not.
pub enum SignalOp {
    /// `cancel`.
    Cancel,
    /// `observe`, with what the flag said.
    Observe(bool),
}

impl SignalState {
    /// The state after one operation.
    pub open spec fn after(self, op: SignalOp) -> SignalState {
        match op {
            SignalOp::Cancel => self.after_cancel(),
            SignalOp::Observe(flag) => self.after_seeing(flag),
        }
    }

    /// The state after a run of operations, in order.
    pub open spec fn after_all(self, ops: Seq<SignalOp>) -> SignalState
        decreases ops.len(),
    {
        if ops.len() == 0 {
            self
        } else {
            self.after_all(ops.drop_last()).after(ops.last())
        }
    }

    /// How often the state changes over a run of operations.
    pub open spec fn changes(self, ops: Seq<SignalOp>) -> nat
        decreases ops.len(),
    {
        if ops.len() == 0 {
            0
        } else {
            let before = self.after_all(ops.drop_last());
            let changed: nat = if before.after(ops.last()) != before {
                1
            } else {
                0
            };
            self.changes(ops.drop_last()) + changed
        }
    }
}

/// A second cancel is a no-op: on a cancelled signal no operation changes
/// anything, and to cancel twice is to cancel once.
pub proof fn lemma_second_cancel_changes_nothing(state: SignalState, op: SignalOp)
    ensures
        SignalState::Cancelled.after(op) == SignalState::Cancelled,
        state.after_cancel().after_cancel() == state.after_cancel(),
        state.after_cancel().after(op) == state.after_cancel(),
{
}

/// Over any run of operations a signal changes state at most once, from
/// pending to cancelled, and a signal that is cancelled stays so.
pub proof fn lemma_signal_changes_once(state: SignalState, ops: Seq<SignalOp>)
    ensures
        state.changes(ops) <= 1,
        state == SignalState::Cancelled ==> state.after_all(ops) == SignalState::Cancelled
            && state.changes(ops) == 0,
        state.changes(ops) == 1 <==> state == SignalState::Pending && state.after_all(ops)
            == SignalState::Cancelled,
    decreases ops.len(),
{
    if ops.len() > 0 {
        lemma_signal_changes_once(state, ops.drop_last());
    }
}

} // verus!
