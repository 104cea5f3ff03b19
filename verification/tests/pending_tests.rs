use echo_bench::pending::PendingSet;

#[test]
fn tokens_enter_and_leave_exactly_once() {
    let mut p = PendingSet::new();
    assert_eq!(p.len(), 0);
    p.insert(10);
    p.insert(20);
    p.insert(30);
    assert_eq!(p.len(), 3);
    assert!(p.contains(10) && p.contains(20) && p.contains(30));
    assert!(!p.contains(40));

    let t = p.remove_at(0);
    assert_eq!(t, 10);
    assert_eq!(p.len(), 2);
    assert!(!p.contains(10));
    assert!(p.contains(20) && p.contains(30));
}

#[test]
fn removal_by_position_is_unordered() {
    // Removing from the middle keeps the rest of the set, in whatever
    // order: the set is unordered and promises nothing about positions.
    let mut p = PendingSet::new();
    p.insert(1);
    p.insert(2);
    p.insert(3);
    let t = p.remove_at(1);
    assert_eq!(t, 2);
    assert_eq!(p.len(), 2);
    assert!(p.contains(1) && p.contains(3) && !p.contains(2));
}

#[test]
fn token_at_reads_the_registered_tokens() {
    let mut p = PendingSet::new();
    p.insert(7);
    p.insert(8);
    assert_eq!(p.token_at(0), 7);
    assert_eq!(p.token_at(1), 8);
}
