//! Ping-pong client loops: the closed-loop (synchronous) and open-loop
//! (pipelined) state machines.
//!
//! The embedding runtime issues the initial Connect; every later completion
//! is fed into the step function of the chosen variant, which answers with
//! the operations to issue next. The closed loop sends one stamped payload,
//! waits for the reply, reports the round-trip duration and sends the next
//! payload with an incremented sequence value, so at most one operation is
//! ever outstanding. The open loop answers every completed Send with both a
//! Receive for its reply and a fresh Send, keeping one of each in flight;
//! its Send/Receive pairing is positional, not content-keyed, so a reply
//! that overtakes another is charged to the most recent Send.

use crate::latency::{elapsed_nanos, elapsed_spec, Timestamp};
use crate::outcome::{
    Action, ConnectionHandle, LoopStage, OperationOutcome, ProtocolViolation, StepEffect,
};
use crate::packet::{build, payload_spec, STAMP_WIDTH};
use vstd::prelude::*;

verus! {

/// The sequence value after `v`, wrapping at the stamp width.
pub open spec fn wrap_inc_spec(v: u64) -> u64 {
    if v == u64::MAX {
        0
    } else {
        (v + 1) as u64
    }
}

/// The sequence value after `v`, wrapping at the stamp width.
pub fn wrap_inc(v: u64) -> (r: u64)
    ensures
        r == wrap_inc_spec(v),
{
    if v == u64::MAX {
        0
    } else {
        v + 1
    }
}

/// Phase of the closed-loop client between two dispatcher completions.
#[derive(Clone, Copy, Debug, PartialEq, Eq, Structural)]
pub enum ClosedPhase {
    /// The initial Connect is outstanding.
    Connecting,
    /// The Send of the payload stamped `seq_sent` is outstanding.
    AwaitingSent { conn: ConnectionHandle, seq_sent: u64 },
    /// The Receive of the reply to `seq_sent` is outstanding; `issued` is
    /// the clock reading taken when that Send completed.
    AwaitingReceived { conn: ConnectionHandle, seq_sent: u64, issued: Timestamp },
    /// The configured iteration count is exhausted; nothing is outstanding.
    Done,
}

impl ClosedPhase {
    /// The diagnostic tag of this phase.
    pub open spec fn stage_spec(&self) -> LoopStage {
        match self {
            ClosedPhase::Connecting => LoopStage::ClientConnecting,
            ClosedPhase::AwaitingSent { .. } => LoopStage::ClientAwaitingSent,
            ClosedPhase::AwaitingReceived { .. } => LoopStage::ClientAwaitingReceived,
            ClosedPhase::Done => LoopStage::ClientDone,
        }
    }
}

/// The closed-loop (synchronous ping-pong) client: one request, then its
/// reply, for a configured number of iterations.
#[derive(Clone, Copy, Debug, PartialEq, Eq, Structural)]
pub struct ClosedLoopClient {
    /// Size in bytes of every payload this client sends.
    pub payload_size: usize,
    /// The sequence value the next payload will be stamped with.
    pub next_seq: u64,
    /// Iterations still owed, the current one included once its Send is out.
    pub remaining: u64,
    pub phase: ClosedPhase,
}

impl ClosedLoopClient {
    /// The payloads are wide enough for the stamp, and while an operation
    /// of the current iteration is outstanding, that iteration is counted.
    pub open spec fn wf(&self) -> bool {
        &&& self.payload_size >= STAMP_WIDTH
        &&& (self.phase is AwaitingSent || self.phase is AwaitingReceived) ==> self.remaining >= 1
    }

    /// Whether this phase expects the outcome: exactly the pairs
    /// `closed_step` accepts.
    pub open spec fn expects(&self, outcome: OperationOutcome) -> bool {
        match (self.phase, outcome) {
            (ClosedPhase::Connecting, OperationOutcome::Connected) => true,
            (ClosedPhase::AwaitingSent { .. }, OperationOutcome::Sent) => true,
            (ClosedPhase::AwaitingReceived { .. }, OperationOutcome::Received(_, _)) => true,
            _ => false,
        }
    }

    /// A closed-loop client about to connect, rejecting a payload size
    /// smaller than the sequence stamp.
    pub fn new(payload_size: usize, iterations: u64, first_seq: u64) -> (r: Option<
        ClosedLoopClient,
    >)
        ensures
            r is Some <==> payload_size >= STAMP_WIDTH,
            r matches Some(c) ==> c == (ClosedLoopClient {
                payload_size,
                next_seq: first_seq,
                remaining: iterations,
                phase: ClosedPhase::Connecting,
            }) && c.wf(),
    {
        if payload_size < STAMP_WIDTH {
            return None;
        }
        Some(
            ClosedLoopClient {
                payload_size,
                next_seq: first_seq,
                remaining: iterations,
                phase: ClosedPhase::Connecting,
            },
        )
    }
}

/// The transition relation of the closed-loop client: what one accepted
/// step leaves as its next state and effect.
pub open spec fn closed_step_rel(
    pre: ClosedLoopClient,
    conn: ConnectionHandle,
    outcome: OperationOutcome,
    now: Timestamp,
    post: ClosedLoopClient,
    effect: StepEffect,
) -> bool {
    match (pre.phase, outcome) {
        // Connected: send the first stamped payload, unless no iterations
        // were asked for.
        (ClosedPhase::Connecting, OperationOutcome::Connected) => {
            if pre.remaining == 0 {
                &&& post == (ClosedLoopClient { phase: ClosedPhase::Done, ..pre })
                &&& effect.actions@.len() == 0
                &&& effect.report is None
            } else {
                &&& post == (ClosedLoopClient {
                    next_seq: wrap_inc_spec(pre.next_seq),
                    phase: (ClosedPhase::AwaitingSent { conn, seq_sent: pre.next_seq }),
                    ..pre
                })
                &&& effect.actions@.len() == 1
                &&& (effect.actions@[0] matches Action::IssueSend { conn: c, payload } && c == conn
                    && payload@ == payload_spec(pre.payload_size as int, pre.next_seq))
                &&& effect.report is None
            }
        },
        // The request went out: note the time and wait for its reply.
        (ClosedPhase::AwaitingSent { conn: c0, seq_sent }, OperationOutcome::Sent) => {
            &&& post == (ClosedLoopClient {
                phase: (ClosedPhase::AwaitingReceived { conn: c0, seq_sent, issued: now }),
                ..pre
            })
            &&& effect.actions@.len() == 1
            &&& effect.actions@[0] == (Action::IssueReceive { conn: c0 })
            &&& effect.report is None
        },
        // The reply arrived: report the round trip and send the next
        // payload, stamped with the incremented sequence value.
        (ClosedPhase::AwaitingReceived { conn: c0, issued, .. }, OperationOutcome::Received(_, _)) => {
            &&& effect.report == Some(elapsed_spec(issued, now))
            &&& if pre.remaining == 1 {
                &&& post == (ClosedLoopClient {
                    remaining: 0,
                    phase: ClosedPhase::Done,
                    ..pre
                })
                &&& effect.actions@.len() == 0
            } else {
                &&& post == (ClosedLoopClient {
                    next_seq: wrap_inc_spec(pre.next_seq),
                    remaining: (pre.remaining - 1) as u64,
                    phase: (ClosedPhase::AwaitingSent { conn: c0, seq_sent: pre.next_seq }),
                    ..pre
                })
                &&& effect.actions@.len() == 1
                &&& (effect.actions@[0] matches Action::IssueSend { conn: c, payload } && c == c0
                    && payload@ == payload_spec(pre.payload_size as int, pre.next_seq))
            }
        },
        _ => false,
    }
}

/// One step of the closed-loop client. Every outcome the phase does not
/// expect is a protocol violation, fatal and without partial processing.
pub fn closed_step(
    client: ClosedLoopClient,
    conn: ConnectionHandle,
    outcome: OperationOutcome,
    now: Timestamp,
) -> (r: Result<(ClosedLoopClient, StepEffect), ProtocolViolation>)
    requires
        client.wf(),
    ensures
        r matches Ok((post, effect)) ==> closed_step_rel(client, conn, outcome, now, post, effect)
            && post.wf(),
        r is Ok <==> client.expects(outcome),
        r matches Err(v) ==> v == (ProtocolViolation {
            stage: client.phase.stage_spec(),
            observed: outcome.kind_spec(),
        }),
{
    match (client.phase, outcome) {
        (ClosedPhase::Connecting, OperationOutcome::Connected) => {
            if client.remaining == 0 {
                let post = ClosedLoopClient { phase: ClosedPhase::Done, ..client };
                Ok((post, StepEffect { actions: Vec::new(), report: None }))
            } else {
                let payload = build(client.payload_size, client.next_seq).unwrap();
                let mut actions: Vec<Action> = Vec::new();
                actions.push(Action::IssueSend { conn, payload });
                let post = ClosedLoopClient {
                    next_seq: wrap_inc(client.next_seq),
                    phase: ClosedPhase::AwaitingSent { conn, seq_sent: client.next_seq },
                    ..client
                };
                Ok((post, StepEffect { actions, report: None }))
            }
        },
        (ClosedPhase::AwaitingSent { conn: c0, seq_sent }, OperationOutcome::Sent) => {
            let mut actions: Vec<Action> = Vec::new();
            actions.push(Action::IssueReceive { conn: c0 });
            let post = ClosedLoopClient {
                phase: ClosedPhase::AwaitingReceived { conn: c0, seq_sent, issued: now },
                ..client
            };
            Ok((post, StepEffect { actions, report: None }))
        },
        (ClosedPhase::AwaitingReceived { conn: c0, issued, .. }, OperationOutcome::Received(_, _)) => {
            let report = Some(elapsed_nanos(issued, now));
            if client.remaining == 1 {
                let post = ClosedLoopClient { remaining: 0, phase: ClosedPhase::Done, ..client };
                Ok((post, StepEffect { actions: Vec::new(), report }))
            } else {
                let payload = build(client.payload_size, client.next_seq).unwrap();
                let mut actions: Vec<Action> = Vec::new();
                actions.push(Action::IssueSend { conn: c0, payload });
                let post = ClosedLoopClient {
                    next_seq: wrap_inc(client.next_seq),
                    remaining: client.remaining - 1,
                    phase: ClosedPhase::AwaitingSent { conn: c0, seq_sent: client.next_seq },
                    ..client
                };
                Ok((post, StepEffect { actions, report }))
            }
        },
        (_, outcome) => {
            let stage = match &client.phase {
                ClosedPhase::Connecting => LoopStage::ClientConnecting,
                ClosedPhase::AwaitingSent { .. } => LoopStage::ClientAwaitingSent,
                ClosedPhase::AwaitingReceived { .. } => LoopStage::ClientAwaitingReceived,
                ClosedPhase::Done => LoopStage::ClientDone,
            };
            Err(ProtocolViolation { stage, observed: outcome.kind() })
        },
    }
}

/// Law: the closed-loop client never pipelines. Every accepted step issues
/// at most one operation, and since a step consumes exactly one completed
/// token, a pending set driven by this client never holds more than one
/// token after the initial Connect is consumed.
pub proof fn lemma_closed_loop_single_outstanding(
    pre: ClosedLoopClient,
    conn: ConnectionHandle,
    outcome: OperationOutcome,
    now: Timestamp,
    post: ClosedLoopClient,
    effect: StepEffect,
)
    requires
        closed_step_rel(pre, conn, outcome, now, post, effect),
    ensures
        effect.actions@.len() <= 1,
{
}

/// Phase of the open-loop client between two dispatcher completions.
#[derive(Clone, Copy, Debug, PartialEq, Eq, Structural)]
pub enum OpenPhase {
    /// The initial Connect is outstanding.
    Connecting,
    /// The pipeline runs; `last_send_done` is the clock reading taken when
    /// the most recent Send completed.
    Pipelined { conn: ConnectionHandle, last_send_done: Timestamp },
}

impl OpenPhase {
    /// The diagnostic tag of this phase.
    pub open spec fn stage_spec(&self) -> LoopStage {
        match self {
            OpenPhase::Connecting => LoopStage::ClientConnecting,
            OpenPhase::Pipelined { .. } => LoopStage::ClientPipelined,
        }
    }
}

/// The open-loop (pipelined ping-pong) client: every completed Send is
/// answered with a Receive for its reply and a fresh Send, decoupling the
/// send cadence from reply arrival. It runs until externally interrupted.
#[derive(Clone, Copy, Debug, PartialEq, Eq, Structural)]
pub struct OpenLoopClient {
    /// Size in bytes of every payload this client sends.
    pub payload_size: usize,
    /// The sequence value every payload is stamped with: a recognizable
    /// marker, not a correlation key.
    pub stamp: u64,
    pub phase: OpenPhase,
}

impl OpenLoopClient {
    /// The payloads are wide enough for the stamp.
    pub open spec fn wf(&self) -> bool {
        self.payload_size >= STAMP_WIDTH
    }

    /// Whether this phase expects the outcome: exactly the pairs
    /// `open_step` accepts.
    pub open spec fn expects(&self, outcome: OperationOutcome) -> bool {
        match (self.phase, outcome) {
            (OpenPhase::Connecting, OperationOutcome::Connected) => true,
            (OpenPhase::Pipelined { .. }, OperationOutcome::Sent) => true,
            (OpenPhase::Pipelined { .. }, OperationOutcome::Received(_, _)) => true,
            _ => false,
        }
    }

    /// An open-loop client about to connect, rejecting a payload size
    /// smaller than the sequence stamp.
    pub fn new(payload_size: usize, stamp: u64) -> (r: Option<OpenLoopClient>)
        ensures
            r is Some <==> payload_size >= STAMP_WIDTH,
            r matches Some(c) ==> c == (OpenLoopClient {
                payload_size,
                stamp,
                phase: OpenPhase::Connecting,
            }) && c.wf(),
    {
        if payload_size < STAMP_WIDTH {
            return None;
        }
        Some(OpenLoopClient { payload_size, stamp, phase: OpenPhase::Connecting })
    }
}

/// The transition relation of the open-loop client: what one accepted step
/// leaves as its next state and effect.
pub open spec fn open_step_rel(
    pre: OpenLoopClient,
    conn: ConnectionHandle,
    outcome: OperationOutcome,
    now: Timestamp,
    post: OpenLoopClient,
    effect: StepEffect,
) -> bool {
    match (pre.phase, outcome) {
        // Connected: prime the pipeline with the first Send.
        (OpenPhase::Connecting, OperationOutcome::Connected) => {
            &&& post == (OpenLoopClient {
                phase: (OpenPhase::Pipelined { conn, last_send_done: now }),
                ..pre
            })
            &&& effect.actions@.len() == 1
            &&& (effect.actions@[0] matches Action::IssueSend { conn: c, payload } && c == conn
                && payload@ == payload_spec(pre.payload_size as int, pre.stamp))
            &&& effect.report is None
        },
        // A Send completed: receive its reply and keep the pipeline full
        // with a fresh Send, both at once.
        (OpenPhase::Pipelined { conn: c0, .. }, OperationOutcome::Sent) => {
            &&& post == (OpenLoopClient {
                phase: (OpenPhase::Pipelined { conn: c0, last_send_done: now }),
                ..pre
            })
            &&& effect.actions@.len() == 2
            &&& effect.actions@[0] == (Action::IssueReceive { conn: c0 })
            &&& (effect.actions@[1] matches Action::IssueSend { conn: c, payload } && c == c0
                && payload@ == payload_spec(pre.payload_size as int, pre.stamp))
            &&& effect.report is None
        },
        // A reply arrived: report the positional latency, from the most
        // recent Send completion to now; the matching Receive was already
        // issued, so nothing new is put in flight.
        (OpenPhase::Pipelined { last_send_done, .. }, OperationOutcome::Received(_, _)) => {
            &&& post == pre
            &&& effect.actions@.len() == 0
            &&& effect.report == Some(elapsed_spec(last_send_done, now))
        },
        _ => false,
    }
}

/// One step of the open-loop client. Every outcome the phase does not
/// expect is a protocol violation, fatal and without partial processing.
pub fn open_step(
    client: OpenLoopClient,
    conn: ConnectionHandle,
    outcome: OperationOutcome,
    now: Timestamp,
) -> (r: Result<(OpenLoopClient, StepEffect), ProtocolViolation>)
    requires
        client.wf(),
    ensures
        r matches Ok((post, effect)) ==> open_step_rel(client, conn, outcome, now, post, effect)
            && post.wf(),
        r is Ok <==> client.expects(outcome),
        r matches Err(v) ==> v == (ProtocolViolation {
            stage: client.phase.stage_spec(),
            observed: outcome.kind_spec(),
        }),
{
    match (client.phase, outcome) {
        (OpenPhase::Connecting, OperationOutcome::Connected) => {
            let payload = build(client.payload_size, client.stamp).unwrap();
            let mut actions: Vec<Action> = Vec::new();
            actions.push(Action::IssueSend { conn, payload });
            let post = OpenLoopClient {
                phase: OpenPhase::Pipelined { conn, last_send_done: now },
                ..client
            };
            Ok((post, StepEffect { actions, report: None }))
        },
        (OpenPhase::Pipelined { conn: c0, .. }, OperationOutcome::Sent) => {
            let payload = build(client.payload_size, client.stamp).unwrap();
            let mut actions: Vec<Action> = Vec::new();
            actions.push(Action::IssueReceive { conn: c0 });
            actions.push(Action::IssueSend { conn: c0, payload });
            let post = OpenLoopClient {
                phase: OpenPhase::Pipelined { conn: c0, last_send_done: now },
                ..client
            };
            Ok((post, StepEffect { actions, report: None }))
        },
        (OpenPhase::Pipelined { last_send_done, .. }, OperationOutcome::Received(_, _)) => {
            let report = Some(elapsed_nanos(last_send_done, now));
            Ok((client, StepEffect { actions: Vec::new(), report }))
        },
        (_, outcome) => {
            let stage = match &client.phase {
                OpenPhase::Connecting => LoopStage::ClientConnecting,
                OpenPhase::Pipelined { .. } => LoopStage::ClientPipelined,
            };
            Err(ProtocolViolation { stage, observed: outcome.kind() })
        },
    }
}

/// Law: the open-loop token budget. Priming the pipeline issues one Send;
/// every completed Send issues exactly two operations, a Receive then a
/// Send; a consumed reply issues none. With one token consumed per
/// completion, a pending set driven by this client holds exactly two
/// tokens, one Send and one Receive, at every point where completed Sends
/// and consumed replies balance after the first Send completed.
pub proof fn lemma_open_loop_token_accounting(
    pre: OpenLoopClient,
    conn: ConnectionHandle,
    outcome: OperationOutcome,
    now: Timestamp,
    post: OpenLoopClient,
    effect: StepEffect,
)
    requires
        open_step_rel(pre, conn, outcome, now, post, effect),
    ensures
        outcome is Connected ==> effect.actions@.len() == 1 && (effect.actions@[0] matches Action::IssueSend { .. }),
        outcome is Sent ==> effect.actions@.len() == 2 && (effect.actions@[0] matches Action::IssueReceive { .. }) && (effect.actions@[1] matches Action::IssueSend { .. }),
        outcome is Received ==> effect.actions@.len() == 0 && post == pre,
{
}

} // verus!
