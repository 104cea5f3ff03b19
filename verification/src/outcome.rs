//! Plain data the whole benchmark core speaks of: operation tokens,
//! connection handles, normalized operation outcomes, the actions a state
//! machine asks the substrate to perform, and the protocol-violation error.

use vstd::prelude::*;

verus! {

/// Handle for exactly one in-flight asynchronous operation on the substrate.
/// Issued when an operation is started, consumed when its completion is
/// observed, and never reused afterwards.
pub type PendingOperationToken = u64;

/// Identifier of an established connection, produced by a completed Accept
/// or Connect operation.
pub type ConnectionHandle = u64;

/// Normalized completion record of an asynchronous operation, as a loop
/// observes it when blocking on the dispatcher. `Other` stands for every
/// outcome a loop does not expect in any state and is always fatal.
pub enum OperationOutcome {
    Accepted(ConnectionHandle),
    Connected,
    Sent,
    Received(ConnectionHandle, Vec<u8>),
    Other,
}

/// The variant of an outcome without its data; kept in diagnostics.
#[derive(Clone, Copy, Debug, PartialEq, Eq, Structural)]
pub enum OutcomeKind {
    Accepted,
    Connected,
    Sent,
    Received,
    Other,
}

impl OperationOutcome {
    /// The variant this outcome carries.
    pub open spec fn kind_spec(&self) -> OutcomeKind {
        match self {
            OperationOutcome::Accepted(_) => OutcomeKind::Accepted,
            OperationOutcome::Connected => OutcomeKind::Connected,
            OperationOutcome::Sent => OutcomeKind::Sent,
            OperationOutcome::Received(_, _) => OutcomeKind::Received,
            OperationOutcome::Other => OutcomeKind::Other,
        }
    }

    pub fn kind(&self) -> (k: OutcomeKind)
        ensures
            k == self.kind_spec(),
    {
        match self {
            OperationOutcome::Accepted(_) => OutcomeKind::Accepted,
            OperationOutcome::Connected => OutcomeKind::Connected,
            OperationOutcome::Sent => OutcomeKind::Sent,
            OperationOutcome::Received(_, _) => OutcomeKind::Received,
            OperationOutcome::Other => OutcomeKind::Other,
        }
    }
}

/// The loop state in which an unexpected outcome was observed; diagnostic
/// context carried by a protocol violation.
#[derive(Clone, Copy, Debug, PartialEq, Eq, Structural)]
pub enum LoopStage {
    ServerAwaitingAccept,
    ServerAwaitingReceive,
    ServerAwaitingSend,
    ClientConnecting,
    ClientAwaitingSent,
    ClientAwaitingReceived,
    ClientDone,
    ClientPipelined,
}

/// Fatal error: the dispatcher reported an outcome inconsistent with the
/// current state of the loop. Nothing is retried; the run terminates.
#[derive(Clone, Copy, Debug, PartialEq, Eq, Structural)]
pub struct ProtocolViolation {
    /// The state the loop was in.
    pub stage: LoopStage,
    /// The outcome variant that was observed there.
    pub observed: OutcomeKind,
}

/// One operation a state machine asks the substrate to issue next. The
/// embedding runtime performs it, obtains a fresh token, and registers that
/// token in the loop's pending set.
pub enum Action {
    /// Push the payload on the connection.
    IssueSend { conn: ConnectionHandle, payload: Vec<u8> },
    /// Pop the next payload from the connection.
    IssueReceive { conn: ConnectionHandle },
}

/// What one accepted step of a state machine tells its driver: the
/// operations to issue now, and the finished iteration's latency, if this
/// step completed one.
pub struct StepEffect {
    pub actions: Vec<Action>,
    /// Elapsed nanoseconds of the iteration this completion finished.
    pub report: Option<u64>,
}

} // verus!
