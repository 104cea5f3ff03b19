//! Paired runs of the echo server and a client over an ideal substrate:
//! a lossless, in-order connection on which every issued operation
//! completes and every Send completion is served before the reply it
//! produces, as the dispatcher's priority rule orders them.
//!
//! These runs exercise the state machines exactly as an embedding runtime
//! does, with a synthetic clock and real pending-set bookkeeping, and their
//! contracts state the end-to-end laws of the benchmark: every iteration's
//! reply is byte-identical to what was sent, the closed loop never holds
//! more than one token, and the open loop holds exactly two from the first
//! completed Send on.

use crate::client::{
    closed_step, open_step, wrap_inc, ClosedLoopClient, ClosedPhase, OpenLoopClient, OpenPhase,
};
use crate::outcome::{Action, ConnectionHandle, OperationOutcome};
use crate::packet::{copy_payload, payload_spec, STAMP_WIDTH};
use crate::pending::PendingSet;
use crate::server::{server_step, ServerState};
use vstd::prelude::*;

verus! {

/// The sequence value stamped into the payload of iteration `i` of a
/// closed-loop run that starts at `first`.
pub open spec fn seq_at(first: u64, i: int) -> u64
    decreases i,
{
    if i <= 0 {
        first
    } else {
        crate::client::wrap_inc_spec(seq_at(first, i - 1))
    }
}

/// What one closed-loop iteration transferred: the payload sent, the reply
/// received, and the round-trip duration the client measured.
pub struct EchoRecord {
    pub sent: Vec<u8>,
    pub received: Vec<u8>,
    pub latency_nanos: u64,
}

/// Outcome of a closed-loop run.
pub struct ClosedRun {
    pub records: Vec<EchoRecord>,
    /// The most tokens the client's pending set ever held, the initial
    /// Connect excluded.
    pub max_outstanding: usize,
}

/// Runs the closed-loop client against the echo server for `iterations`
/// round trips on an ideal connection. Every iteration receives back
/// exactly the bytes it sent, and the client's pending set never holds
/// more than one token.
pub fn run_closed_loop(iterations: u64, payload_size: usize, first_seq: u64) -> (r: Option<
    ClosedRun,
>)
    ensures
        r is Some <==> payload_size >= STAMP_WIDTH,
        r matches Some(run) ==> {
            &&& run.records@.len() == iterations
            &&& forall|i: int|
                0 <= i < iterations ==> (#[trigger] run.records@[i].sent)@ == payload_spec(
                    payload_size as int,
                    seq_at(first_seq, i),
                )
            &&& forall|i: int|
                0 <= i < iterations ==> (#[trigger] run.records@[i].received)@
                    == run.records@[i].sent@
            &&& run.max_outstanding <= 1
        },
{
    let client0 = match ClosedLoopClient::new(payload_size, iterations, first_seq) {
        Some(c) => c,
        None => { return None; },
    };
    let conn: ConnectionHandle = 1;
    let mut now: u64 = 0;

    // The connection is established: the server's Accept and the client's
    // Connect complete.
    let (mut server_state, _accept_effect) = server_step(
        ServerState::AwaitingAccept,
        OperationOutcome::Accepted(conn),
        now,
    ).unwrap();
    now = wrap_inc(now);
    let (mut client, connect_effect) = closed_step(
        client0,
        conn,
        OperationOutcome::Connected,
        now,
    ).unwrap();

    let mut records: Vec<EchoRecord> = Vec::new();
    let mut max_outstanding: usize = 0;
    let mut pending = PendingSet::new();
    let mut next_token: u64 = 0;

    if iterations == 0 {
        return Some(ClosedRun { records, max_outstanding });
    }

    // The first request is in flight.
    let mut connect_effect = connect_effect;
    let mut in_flight: Vec<u8> = match connect_effect.actions.pop() {
        Some(Action::IssueSend { payload, .. }) => payload,
        _ => {
            proof {
                assert(false);
            }
            Vec::new()
        },
    };
    pending.insert(next_token);
    next_token = wrap_inc(next_token);
    if pending.len() > max_outstanding {
        max_outstanding = pending.len();
    }

    let mut i: u64 = 0;
    while i < iterations
        invariant
            payload_size >= STAMP_WIDTH,
            i <= iterations,
            client.wf(),
            client.payload_size == payload_size,
            i < iterations ==> {
                &&& client.phase == (ClosedPhase::AwaitingSent {
                    conn,
                    seq_sent: seq_at(first_seq, i as int),
                })
                &&& client.next_seq == seq_at(first_seq, i as int + 1)
                &&& client.remaining == iterations - i
                &&& in_flight@ == payload_spec(payload_size as int, seq_at(first_seq, i as int))
                &&& pending@.len() == 1
            },
            i == iterations ==> client.phase is Done && pending@.len() == 0,
            server_state == (ServerState::AwaitingReceive { conn }),
            pending.wf(),
            max_outstanding <= 1,
            records@.len() == i,
            forall|j: int|
                0 <= j < i ==> (#[trigger] records@[j].sent)@ == payload_spec(
                    payload_size as int,
                    seq_at(first_seq, j),
                ),
            forall|j: int| 0 <= j < i ==> (#[trigger] records@[j].received)@ == records@[j].sent@,
        decreases iterations - i,
    {
        // The request reaches the server, which echoes it back.
        now = wrap_inc(now);
        let sent_copy = copy_payload(&in_flight);
        let (s2, mut server_effect) = server_step(
            server_state,
            OperationOutcome::Received(conn, in_flight),
            now,
        ).unwrap();
        let echo: Vec<u8> = match server_effect.actions.pop() {
            Some(Action::IssueSend { payload, .. }) => payload,
            _ => {
                proof {
                    assert(false);
                }
                Vec::new()
            },
        };

        // The client's Send completes first, as Send completions have
        // priority; the client turns around and waits for the reply.
        now = wrap_inc(now);
        pending.remove_at(0);
        let (c2, _sent_effect) = closed_step(client, conn, OperationOutcome::Sent, now).unwrap();
        client = c2;
        pending.insert(next_token);
        next_token = wrap_inc(next_token);
        if pending.len() > max_outstanding {
            max_outstanding = pending.len();
        }

        // The server's echo Send completes; the server re-issues its
        // Receive, keeping the echo chain unbroken.
        now = wrap_inc(now);
        let (s3, _echo_effect) = server_step(s2, OperationOutcome::Sent, now).unwrap();
        server_state = s3;

        // The reply reaches the client, closing the iteration.
        now = wrap_inc(now);
        pending.remove_at(0);
        let received_copy = copy_payload(&echo);
        let (c3, mut reply_effect) = closed_step(
            client,
            conn,
            OperationOutcome::Received(conn, echo),
            now,
        ).unwrap();
        client = c3;
        let latency_nanos = reply_effect.report.unwrap();
        records.push(EchoRecord { sent: sent_copy, received: received_copy, latency_nanos });

        i = i + 1;
        // The next request, already built unless the run is over, goes in
        // flight.
        in_flight = match reply_effect.actions.pop() {
            Some(Action::IssueSend { payload, .. }) => payload,
            _ => Vec::new(),
        };
        if i < iterations {
            pending.insert(next_token);
            next_token = wrap_inc(next_token);
            if pending.len() > max_outstanding {
                max_outstanding = pending.len();
            }
        }
    }
    Some(ClosedRun { records, max_outstanding })
}

/// Outcome of an open-loop run.
pub struct OpenRun {
    /// The positional latency reported as each reply was consumed.
    pub latencies: Vec<u64>,
    /// Pending-set size observed right after each completed Send was
    /// processed: always exactly two, one Send and one Receive in flight.
    pub after_send: Vec<usize>,
    /// Pending-set size observed right after each reply was consumed:
    /// always exactly one, the pipelined Send still in flight.
    pub after_receive: Vec<usize>,
}

/// Runs the open-loop client against the echo server for `rounds` of its
/// steady state on an ideal connection where each reply is consumed before
/// the next Send completes. From the first completed Send on, the pending
/// set holds exactly two tokens whenever a Send completion has just been
/// processed, and exactly one right after a reply is consumed.
pub fn run_open_loop(rounds: u64, payload_size: usize, stamp: u64) -> (r: Option<OpenRun>)
    ensures
        r is Some <==> payload_size >= STAMP_WIDTH,
        r matches Some(run) ==> {
            &&& run.latencies@.len() == rounds
            &&& run.after_send@.len() == rounds
            &&& run.after_receive@.len() == rounds
            &&& forall|i: int| 0 <= i < rounds ==> #[trigger] run.after_send@[i] == 2
            &&& forall|i: int| 0 <= i < rounds ==> #[trigger] run.after_receive@[i] == 1
        },
{
    let client0 = match OpenLoopClient::new(payload_size, stamp) {
        Some(c) => c,
        None => { return None; },
    };
    let conn: ConnectionHandle = 1;
    let mut now: u64 = 0;

    let (mut server_state, _accept_effect) = server_step(
        ServerState::AwaitingAccept,
        OperationOutcome::Accepted(conn),
        now,
    ).unwrap();
    now = wrap_inc(now);
    let (mut client, mut connect_effect) = open_step(
        client0,
        conn,
        OperationOutcome::Connected,
        now,
    ).unwrap();

    // The pipeline is primed: the first Send is in flight.
    let mut in_flight: Vec<u8> = match connect_effect.actions.pop() {
        Some(Action::IssueSend { payload, .. }) => payload,
        _ => {
            proof {
                assert(false);
            }
            Vec::new()
        },
    };
    let mut pending = PendingSet::new();
    let mut next_token: u64 = 0;
    pending.insert(next_token);
    next_token = wrap_inc(next_token);

    let mut latencies: Vec<u64> = Vec::new();
    let mut after_send: Vec<usize> = Vec::new();
    let mut after_receive: Vec<usize> = Vec::new();

    let mut i: u64 = 0;
    while i < rounds
        invariant
            payload_size >= STAMP_WIDTH,
            i <= rounds,
            client.wf(),
            client.payload_size == payload_size,
            client.stamp == stamp,
            client.phase matches OpenPhase::Pipelined { conn: c, .. } && c == conn,
            server_state == (ServerState::AwaitingReceive { conn }),
            in_flight@ == payload_spec(payload_size as int, stamp),
            pending.wf(),
            pending@.len() == 1,
            latencies@.len() == i,
            after_send@.len() == i,
            after_receive@.len() == i,
            forall|j: int| 0 <= j < i ==> #[trigger] after_send@[j] == 2,
            forall|j: int| 0 <= j < i ==> #[trigger] after_receive@[j] == 1,
        decreases rounds - i,
    {
        // The in-flight request reaches the server, which echoes it back.
        now = wrap_inc(now);
        let (s2, mut server_effect) = server_step(
            server_state,
            OperationOutcome::Received(conn, in_flight),
            now,
        ).unwrap();
        let echo: Vec<u8> = match server_effect.actions.pop() {
            Some(Action::IssueSend { payload, .. }) => payload,
            _ => {
                proof {
                    assert(false);
                }
                Vec::new()
            },
        };

        // The client's Send completes: it issues the Receive for this
        // request's reply and the next Send, both at once.
        now = wrap_inc(now);
        pending.remove_at(0);
        let (c2, mut sent_effect) = open_step(client, conn, OperationOutcome::Sent, now).unwrap();
        client = c2;
        in_flight = match sent_effect.actions.pop() {
            Some(Action::IssueSend { payload, .. }) => payload,
            _ => {
                proof {
                    assert(false);
                }
                Vec::new()
            },
        };
        let receive_token = next_token;
        next_token = wrap_inc(next_token);
        let send_token = next_token;
        next_token = wrap_inc(next_token);
        pending.insert(receive_token);
        proof {
            assert(forall|k: int| 0 <= k < pending@.len() ==> pending@[k] == receive_token);
        }
        pending.insert(send_token);
        after_send.push(pending.len());

        // The server's echo Send completes; it re-issues its Receive.
        now = wrap_inc(now);
        let (s3, _echo_effect) = server_step(s2, OperationOutcome::Sent, now).unwrap();
        server_state = s3;

        // The reply arrives and is consumed before the next Send
        // completes; the pipelined Send stays in flight.
        now = wrap_inc(now);
        pending.remove_at(0);
        let (c3, reply_effect) = open_step(
            client,
            conn,
            OperationOutcome::Received(conn, echo),
            now,
        ).unwrap();
        client = c3;
        latencies.push(reply_effect.report.unwrap());
        after_receive.push(pending.len());

        i = i + 1;
    }
    Some(OpenRun { latencies, after_send, after_receive })
}

} // verus!
