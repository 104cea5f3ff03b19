//! Packet builder: fixed-length payloads stamped with a sequence value.
//!
//! A payload built here is exactly `target_size` bytes long; its first
//! [`STAMP_WIDTH`] bytes carry the sequence stamp in least-significant-byte
//! first order (the native order of every target this benchmark runs on),
//! and the remaining bytes are zero filler. A target size below the stamp
//! width is a contract violation and is rejected explicitly.

use vstd::bytes::{
    lemma_auto_spec_u64_to_from_le_bytes, spec_u64_from_le_bytes, spec_u64_to_le_bytes,
    u64_from_le_bytes, u64_to_le_bytes,
};
use vstd::prelude::*;
use vstd::slice::slice_subrange;

verus! {

/// Width in bytes of the sequence stamp at the head of every payload.
pub const STAMP_WIDTH: usize = 8;

/// The bytes the stamp of `seq_value` occupies at the head of a payload.
pub open spec fn stamp_bytes(seq_value: u64) -> Seq<u8> {
    spec_u64_to_le_bytes(seq_value)
}

/// The sequence value a stamp of bytes decodes to.
pub open spec fn stamp_value(head: Seq<u8>) -> u64 {
    spec_u64_from_le_bytes(head)
}

/// The whole payload `build` produces for a given size and sequence value:
/// the stamp, then zero filler up to the size.
pub open spec fn payload_spec(target_size: int, seq_value: u64) -> Seq<u8> {
    stamp_bytes(seq_value) + Seq::new((target_size - STAMP_WIDTH) as nat, |i: int| 0u8)
}

/// Law: a stamp decodes back to the sequence value it was built from.
pub proof fn lemma_stamp_round_trip(seq_value: u64)
    ensures
        stamp_bytes(seq_value).len() == STAMP_WIDTH,
        stamp_value(stamp_bytes(seq_value)) == seq_value,
{
    lemma_auto_spec_u64_to_from_le_bytes();
}

/// Builds a payload of exactly `target_size` bytes whose head is the stamp
/// of `seq_value`; rejects a target size smaller than the stamp width.
pub fn build(target_size: usize, seq_value: u64) -> (r: Option<Vec<u8>>)
    ensures
        r is Some <==> target_size >= STAMP_WIDTH,
        r matches Some(p) ==> p@ == payload_spec(target_size as int, seq_value),
        r matches Some(p) ==> p@.len() == target_size && p@.subrange(
            0,
            STAMP_WIDTH as int,
        ) == stamp_bytes(seq_value),
{
    if target_size < STAMP_WIDTH {
        return None;
    }
    proof {
        lemma_auto_spec_u64_to_from_le_bytes();
    }
    let mut p = u64_to_le_bytes(seq_value);
    while p.len() < target_size
        invariant
            STAMP_WIDTH <= p@.len() <= target_size,
            p@.subrange(0, STAMP_WIDTH as int) == stamp_bytes(seq_value),
            forall|i: int| STAMP_WIDTH <= i < p@.len() ==> p@[i] == 0u8,
        decreases target_size - p@.len(),
    {
        let ghost before = p@;
        p.push(0u8);
        proof {
            assert(p@.subrange(0, STAMP_WIDTH as int) =~= before.subrange(0, STAMP_WIDTH as int));
        }
    }
    proof {
        assert(p@ =~= payload_spec(target_size as int, seq_value));
    }
    Some(p)
}

/// Reads the sequence stamp back out of the head of a payload.
pub fn read_stamp(payload: &Vec<u8>) -> (r: u64)
    requires
        payload@.len() >= STAMP_WIDTH,
    ensures
        r == stamp_value(payload@.subrange(0, STAMP_WIDTH as int)),
{
    let head = slice_subrange(payload.as_slice(), 0, STAMP_WIDTH);
    u64_from_le_bytes(head)
}

/// A fresh payload with the same bytes; used where a run records a payload
/// that is also handed onwards.
pub fn copy_payload(payload: &Vec<u8>) -> (r: Vec<u8>)
    ensures
        r@ == payload@,
{
    let mut r: Vec<u8> = Vec::new();
    let mut i: usize = 0;
    while i < payload.len()
        invariant
            i <= payload@.len(),
            r@ == payload@.subrange(0, i as int),
        decreases payload@.len() - i,
    {
        r.push(payload[i]);
        proof {
            assert(r@ =~= payload@.subrange(0, i + 1 as int));
        }
        i = i + 1;
    }
    proof {
        assert(payload@.subrange(0, payload@.len() as int) =~= payload@);
    }
    r
}

} // verus!
