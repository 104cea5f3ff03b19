use echo_bench::client::{closed_step, ClosedLoopClient, ClosedPhase};
use echo_bench::config::{Endpoint, Ipv4Address};
use echo_bench::outcome::{Action, OperationOutcome};
use echo_bench::packet::build;
use echo_bench::server::{server_step, ServerState};
use echo_bench::sim::{run_closed_loop, run_open_loop};

#[test]
fn closed_loop_run_echoes_every_iteration() {
    let run = run_closed_loop(3, 8, 123).expect("size 8 is accepted");
    assert_eq!(run.records.len(), 3);
    for (i, record) in run.records.iter().enumerate() {
        assert_eq!(record.sent, build(8, 123 + i as u64).unwrap());
        assert_eq!(record.received, record.sent);
    }
    assert!(run.max_outstanding <= 1);
}

#[test]
fn closed_loop_run_with_zero_iterations_is_empty() {
    let run = run_closed_loop(0, 8, 0).expect("size 8 is accepted");
    assert_eq!(run.records.len(), 0);
    assert_eq!(run.max_outstanding, 0);
}

#[test]
fn closed_loop_run_rejects_narrow_payloads() {
    assert!(run_closed_loop(1, 7, 0).is_none());
}

#[test]
fn closed_loop_run_wraps_the_sequence_value() {
    let run = run_closed_loop(2, 8, u64::MAX).expect("size 8 is accepted");
    assert_eq!(run.records[0].sent, build(8, u64::MAX).unwrap());
    assert_eq!(run.records[1].sent, build(8, 0).unwrap());
}

#[test]
fn open_loop_run_holds_two_tokens_after_every_send() {
    let run = run_open_loop(4, 8, 1).expect("size 8 is accepted");
    assert_eq!(run.latencies.len(), 4);
    assert_eq!(run.after_send, vec![2, 2, 2, 2]);
    assert_eq!(run.after_receive, vec![1, 1, 1, 1]);
}

#[test]
fn open_loop_run_rejects_narrow_payloads() {
    assert!(run_open_loop(1, 7, 0).is_none());
}

#[test]
fn end_to_end_eight_byte_exchange() {
    // Server bound to address A, port P; the client connects to the same
    // endpoint and sends an 8-byte payload stamped 123; the server's next
    // Send carries the identical bytes, and the client's subsequent
    // Receive yields those same bytes.
    let a = Ipv4Address { o0: 10, o1: 4, o2: 0, o3: 7 };
    let bound = Endpoint { host: a, port: 12345 };
    let target = Endpoint { host: a, port: 12345 };
    assert_eq!(bound, target);

    let conn = 1u64;
    let (server, _) =
        server_step(ServerState::AwaitingAccept, OperationOutcome::Accepted(conn), 0).unwrap();
    let client = ClosedLoopClient::new(8, 1, 123).unwrap();
    let (client, effect) = closed_step(client, conn, OperationOutcome::Connected, 1).unwrap();
    let sent = match effect.actions.into_iter().next() {
        Some(Action::IssueSend { payload, .. }) => payload,
        _ => panic!("the client must send after connecting"),
    };
    assert_eq!(sent, build(8, 123).unwrap());

    // The payload reaches the server; its next Send is byte-identical.
    let (server, effect) =
        server_step(server, OperationOutcome::Received(conn, sent.clone()), 2).unwrap();
    let echoed = match effect.actions.into_iter().next() {
        Some(Action::IssueSend { conn: c, payload }) => {
            assert_eq!(c, conn);
            payload
        }
        _ => panic!("the server must echo"),
    };
    assert_eq!(echoed, sent);

    // Completions drain: the client's Send, the server's echo Send, then
    // the client's Receive, which yields the same eight bytes.
    let (client, _) = closed_step(client, conn, OperationOutcome::Sent, 3).unwrap();
    let (_, _) = server_step(server, OperationOutcome::Sent, 4).unwrap();
    let received = echoed.clone();
    let (client, effect) =
        closed_step(client, conn, OperationOutcome::Received(conn, echoed), 5).unwrap();
    assert_eq!(received, sent);
    assert_eq!(client.phase, ClosedPhase::Done);
    assert_eq!(effect.report, Some(2));
}
