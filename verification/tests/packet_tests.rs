use echo_bench::packet::{build, copy_payload, read_stamp, STAMP_WIDTH};

#[test]
fn build_stamps_the_head_and_fills_with_zero() {
    let p = build(16, 123).expect("size 16 is accepted");
    assert_eq!(p.len(), 16);
    assert_eq!(&p[..8], &123u64.to_le_bytes());
    assert_eq!(&p[8..], &[0u8; 8]);
}

#[test]
fn build_exact_stamp_width() {
    let p = build(STAMP_WIDTH, 0x0102_0304_0506_0708).expect("the stamp alone fits");
    assert_eq!(p.len(), 8);
    assert_eq!(p, 0x0102_0304_0506_0708u64.to_le_bytes().to_vec());
}

#[test]
fn build_rejects_sizes_below_the_stamp_width() {
    assert!(build(7, 1).is_none());
    assert!(build(0, 0).is_none());
}

#[test]
fn stamp_round_trips_through_a_payload() {
    for &v in &[0u64, 1, 123, u64::MAX, u64::MAX - 1, 0x8000_0000_0000_0000] {
        let p = build(32, v).expect("size 32 is accepted");
        assert_eq!(read_stamp(&p), v);
    }
}

#[test]
fn copy_payload_copies_every_byte() {
    let p = build(12, 77).expect("size 12 is accepted");
    let q = copy_payload(&p);
    assert_eq!(p, q);
}
