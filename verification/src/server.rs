//! Echo server loop: the state machine driving accept, then an
//! uninterrupted receive/echo chain on the accepted connection.
//!
//! The embedding runtime binds, listens and issues the initial Accept; from
//! then on it blocks on the dispatcher and feeds every completion into
//! [`server_step`], which answers with the operation to issue next. Every
//! received payload is echoed back verbatim on its connection, and after
//! every completed echo the next Receive is issued on the same connection,
//! so the echo chain never breaks. Only one connection is served: the
//! single Accept token is never re-issued after the first connection.

use crate::latency::{elapsed_nanos, elapsed_spec, Timestamp};
use crate::outcome::{
    Action, ConnectionHandle, LoopStage, OperationOutcome, ProtocolViolation, StepEffect,
};
use vstd::prelude::*;

verus! {

/// State of the echo server between two dispatcher completions: which
/// operation it has outstanding.
#[derive(Clone, Copy, Debug, PartialEq, Eq, Structural)]
pub enum ServerState {
    /// The initial Accept is outstanding.
    AwaitingAccept,
    /// A Receive is outstanding on the accepted connection.
    AwaitingReceive { conn: ConnectionHandle },
    /// An echo Send is outstanding; `echo_started` is the clock reading
    /// taken when the echoed payload arrived.
    AwaitingSend { conn: ConnectionHandle, echo_started: Timestamp },
}

impl ServerState {
    /// The diagnostic tag of this state.
    pub open spec fn stage_spec(&self) -> LoopStage {
        match self {
            ServerState::AwaitingAccept => LoopStage::ServerAwaitingAccept,
            ServerState::AwaitingReceive { .. } => LoopStage::ServerAwaitingReceive,
            ServerState::AwaitingSend { .. } => LoopStage::ServerAwaitingSend,
        }
    }

    /// Whether this state expects the outcome: exactly the pairs
    /// `server_step` accepts.
    pub open spec fn expects(&self, outcome: OperationOutcome) -> bool {
        match (self, outcome) {
            (ServerState::AwaitingAccept, OperationOutcome::Accepted(_)) => true,
            (ServerState::AwaitingReceive { .. }, OperationOutcome::Received(_, _)) => true,
            (ServerState::AwaitingSend { .. }, OperationOutcome::Sent) => true,
            _ => false,
        }
    }
}

/// The transition relation of the echo server: what one accepted step
/// leaves as its next state and effect.
pub open spec fn server_step_rel(
    pre: ServerState,
    outcome: OperationOutcome,
    now: Timestamp,
    post: ServerState,
    effect: StepEffect,
) -> bool {
    match (pre, outcome) {
        // A connection arrived: start the echo chain with a Receive on it.
        (ServerState::AwaitingAccept, OperationOutcome::Accepted(conn)) => {
            &&& post == (ServerState::AwaitingReceive { conn })
            &&& effect.actions@.len() == 1
            &&& effect.actions@[0] == (Action::IssueReceive { conn })
            &&& effect.report is None
        },
        // A payload arrived: note the time and echo it back verbatim.
        (ServerState::AwaitingReceive { .. }, OperationOutcome::Received(conn, payload)) => {
            &&& post == (ServerState::AwaitingSend { conn, echo_started: now })
            &&& effect.actions@.len() == 1
            &&& effect.actions@[0] == (Action::IssueSend { conn, payload })
            &&& effect.report is None
        },
        // The echo went out: report its duration and receive the next
        // payload on the same connection.
        (ServerState::AwaitingSend { conn, echo_started }, OperationOutcome::Sent) => {
            &&& post == (ServerState::AwaitingReceive { conn })
            &&& effect.actions@.len() == 1
            &&& effect.actions@[0] == (Action::IssueReceive { conn })
            &&& effect.report == Some(elapsed_spec(echo_started, now))
        },
        _ => false,
    }
}

/// One step of the echo server: consumes the completion the dispatcher
/// reported and answers with the next state and the operation to issue.
/// Every outcome the state does not expect is a protocol violation, fatal
/// and without partial processing.
pub fn server_step(state: ServerState, outcome: OperationOutcome, now: Timestamp) -> (r: Result<
    (ServerState, StepEffect),
    ProtocolViolation,
>)
    ensures
        r matches Ok((post, effect)) ==> server_step_rel(state, outcome, now, post, effect),
        r is Ok <==> state.expects(outcome),
        r matches Err(v) ==> v == (ProtocolViolation {
            stage: state.stage_spec(),
            observed: outcome.kind_spec(),
        }),
{
    match (state, outcome) {
        (ServerState::AwaitingAccept, OperationOutcome::Accepted(conn)) => {
            let mut actions: Vec<Action> = Vec::new();
            actions.push(Action::IssueReceive { conn });
            Ok((ServerState::AwaitingReceive { conn }, StepEffect { actions, report: None }))
        },
        (ServerState::AwaitingReceive { .. }, OperationOutcome::Received(conn, payload)) => {
            let mut actions: Vec<Action> = Vec::new();
            actions.push(Action::IssueSend { conn, payload });
            Ok((
                ServerState::AwaitingSend { conn, echo_started: now },
                StepEffect { actions, report: None },
            ))
        },
        (ServerState::AwaitingSend { conn, echo_started }, OperationOutcome::Sent) => {
            let mut actions: Vec<Action> = Vec::new();
            actions.push(Action::IssueReceive { conn });
            let elapsed = elapsed_nanos(echo_started, now);
            Ok((ServerState::AwaitingReceive { conn }, StepEffect {
                actions,
                report: Some(elapsed),
            }))
        },
        (state, outcome) => {
            let stage = match &state {
                ServerState::AwaitingAccept => LoopStage::ServerAwaitingAccept,
                ServerState::AwaitingReceive { .. } => LoopStage::ServerAwaitingReceive,
                ServerState::AwaitingSend { .. } => LoopStage::ServerAwaitingSend,
            };
            Err(ProtocolViolation { stage, observed: outcome.kind() })
        },
    }
}

/// Law: the server echoes verbatim. Whenever a step consumes a received
/// payload, the Send it issues carries that exact payload on that exact
/// connection.
pub proof fn lemma_server_echoes_verbatim(
    pre: ServerState,
    conn: ConnectionHandle,
    payload: Vec<u8>,
    now: Timestamp,
    post: ServerState,
    effect: StepEffect,
)
    requires
        server_step_rel(pre, OperationOutcome::Received(conn, payload), now, post, effect),
    ensures
        effect.actions@.len() == 1,
        effect.actions@[0] == (Action::IssueSend { conn, payload }),
        post == (ServerState::AwaitingSend { conn, echo_started: now }),
{
}

} // verus!
