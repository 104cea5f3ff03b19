use echo_bench::outcome::{Action, LoopStage, OperationOutcome, OutcomeKind};
use echo_bench::packet::build;
use echo_bench::server::{server_step, ServerState};

#[test]
fn accept_starts_the_receive_chain() {
    let (next, effect) =
        server_step(ServerState::AwaitingAccept, OperationOutcome::Accepted(7), 0)
            .expect("an Accepted outcome is expected while awaiting accept");
    assert_eq!(next, ServerState::AwaitingReceive { conn: 7 });
    assert_eq!(effect.actions.len(), 1);
    assert!(matches!(effect.actions[0], Action::IssueReceive { conn: 7 }));
    assert!(effect.report.is_none());
}

#[test]
fn received_payload_is_echoed_verbatim() {
    let payload = build(8, 123).expect("size 8 is accepted");
    let (next, effect) = server_step(
        ServerState::AwaitingReceive { conn: 7 },
        OperationOutcome::Received(7, payload.clone()),
        42,
    )
    .expect("a Received outcome is expected while awaiting receive");
    assert_eq!(next, ServerState::AwaitingSend { conn: 7, echo_started: 42 });
    assert_eq!(effect.actions.len(), 1);
    match &effect.actions[0] {
        Action::IssueSend { conn, payload: echoed } => {
            assert_eq!(*conn, 7);
            assert_eq!(*echoed, payload);
        }
        _ => panic!("the server must answer a payload with a Send"),
    }
    assert!(effect.report.is_none());
}

#[test]
fn completed_echo_reports_its_duration_and_reissues_receive() {
    let (next, effect) = server_step(
        ServerState::AwaitingSend { conn: 7, echo_started: 40 },
        OperationOutcome::Sent,
        46,
    )
    .expect("a Sent outcome is expected while awaiting send");
    assert_eq!(next, ServerState::AwaitingReceive { conn: 7 });
    assert_eq!(effect.actions.len(), 1);
    assert!(matches!(effect.actions[0], Action::IssueReceive { conn: 7 }));
    assert_eq!(effect.report, Some(6));
}

#[test]
fn receive_outcome_while_expecting_accept_is_a_protocol_violation() {
    // The run terminates on the spot: the step yields no next state, no
    // action and no partial processing of the unexpected outcome.
    let r = server_step(
        ServerState::AwaitingAccept,
        OperationOutcome::Received(7, vec![0u8; 8]),
        0,
    );
    let v = r.err().expect("an unexpected outcome is fatal");
    assert_eq!(v.stage, LoopStage::ServerAwaitingAccept);
    assert_eq!(v.observed, OutcomeKind::Received);
}

#[test]
fn every_unexpected_outcome_is_fatal() {
    let v = server_step(ServerState::AwaitingReceive { conn: 1 }, OperationOutcome::Sent, 0)
        .err()
        .expect("Sent is not expected while awaiting receive");
    assert_eq!(v.stage, LoopStage::ServerAwaitingReceive);
    assert_eq!(v.observed, OutcomeKind::Sent);

    let v = server_step(
        ServerState::AwaitingSend { conn: 1, echo_started: 0 },
        OperationOutcome::Other,
        0,
    )
    .err()
    .expect("Other is never expected");
    assert_eq!(v.stage, LoopStage::ServerAwaitingSend);
    assert_eq!(v.observed, OutcomeKind::Other);
}
