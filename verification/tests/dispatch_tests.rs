use echo_bench::dispatch::{wait_any_select, wait_one_select, Completion};
use echo_bench::outcome::OperationOutcome;
use echo_bench::pending::PendingSet;

fn pending_of(tokens: &[u64]) -> PendingSet {
    let mut p = PendingSet::new();
    for &t in tokens {
        p.insert(t);
    }
    p
}

#[test]
fn send_completion_is_reported_before_a_receive() {
    // The Receive completion sits earlier in the ready list, yet the Send
    // completion is picked: priority, not arrival order.
    let pending = pending_of(&[1, 2]);
    let ready = vec![
        Completion { token: 1, conn: 9, outcome: OperationOutcome::Received(9, vec![5u8; 8]) },
        Completion { token: 2, conn: 9, outcome: OperationOutcome::Sent },
    ];
    let (pi, ri) = wait_any_select(&pending, &ready).expect("both are ready");
    assert_eq!(ri, 1);
    assert_eq!(pi, 1);
    assert!(matches!(ready[ri].outcome, OperationOutcome::Sent));
}

#[test]
fn earliest_ready_wins_when_no_send_is_ready() {
    let pending = pending_of(&[10, 11]);
    let ready = vec![
        Completion { token: 11, conn: 3, outcome: OperationOutcome::Received(3, vec![1u8; 8]) },
        Completion { token: 10, conn: 3, outcome: OperationOutcome::Received(3, vec![2u8; 8]) },
    ];
    let (pi, ri) = wait_any_select(&pending, &ready).expect("both are ready");
    assert_eq!(ri, 0);
    assert_eq!(pi, 1);
}

#[test]
fn completions_of_unknown_tokens_are_not_reported() {
    let pending = pending_of(&[1]);
    let ready = vec![
        Completion { token: 2, conn: 9, outcome: OperationOutcome::Sent },
        Completion { token: 3, conn: 9, outcome: OperationOutcome::Connected },
    ];
    assert!(wait_any_select(&pending, &ready).is_none());
}

#[test]
fn nothing_ready_means_the_wait_would_block() {
    let pending = pending_of(&[1, 2, 3]);
    let ready: Vec<Completion> = Vec::new();
    assert!(wait_any_select(&pending, &ready).is_none());
}

#[test]
fn wait_one_finds_the_first_completion_of_its_token() {
    let ready = vec![
        Completion { token: 5, conn: 1, outcome: OperationOutcome::Sent },
        Completion { token: 6, conn: 1, outcome: OperationOutcome::Connected },
    ];
    assert_eq!(wait_one_select(6, &ready), Some(1));
    assert_eq!(wait_one_select(5, &ready), Some(0));
    assert_eq!(wait_one_select(7, &ready), None);
}
