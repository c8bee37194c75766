//! The response encoder: serializes a (descriptor, decision) pair into the
//! fixed-size acknowledgment record the kernel expects, little-endian: a
//! 32-bit descriptor followed by a 32-bit decision code.

use vstd::prelude::*;
use crate::decode::{i32_from_wire, le_u32_of};

verus! {

/// Decision code: allow the gated operation.
pub const FAN_ALLOW: u32 = 0x01;
/// Decision code: deny the gated operation; the blocked caller fails with
/// a permission error.
pub const FAN_DENY: u32 = 0x02;

/// The size in bytes of an encoded acknowledgment record.
pub const RESPONSE_LEN: usize = 8;

/// The verdict returned for one permission event.
#[derive(Clone, Copy, PartialEq, Eq, Structural, Debug)]
pub enum Decision {
    /// Resume the blocked operation.
    Allow,
    /// Fail the blocked operation with a permission error.
    Deny,
}

/// The wire code of a decision.
pub open spec fn spec_decision_code(d: Decision) -> u32 {
    match d {
        Decision::Allow => FAN_ALLOW,
        Decision::Deny => FAN_DENY,
    }
}

/// The wire code of a decision.
pub fn decision_code(d: Decision) -> (r: u32)
    ensures
        r == spec_decision_code(d),
{
    match d {
        Decision::Allow => FAN_ALLOW,
        Decision::Deny => FAN_DENY,
    }
}

/// The unsigned wire word that carries a signed 32-bit value, two's
/// complement: the inverse of [`i32_from_wire`].
pub open spec fn wire_of_i32(v: i32) -> u32 {
    if v >= 0 {
        v as u32
    } else {
        (v as int + 0x1_0000_0000) as u32
    }
}

/// The four little-endian bytes of a 32-bit word.
pub open spec fn u32_le_bytes(u: u32) -> Seq<u8> {
    seq![
        (u & 0xFF) as u8,
        ((u >> 8) & 0xFF) as u8,
        ((u >> 16) & 0xFF) as u8,
        ((u >> 24) & 0xFF) as u8,
    ]
}

/// The encoded acknowledgment record for a descriptor and a decision.
pub open spec fn response_bytes(fd: i32, d: Decision) -> Seq<u8> {
    u32_le_bytes(wire_of_i32(fd)) + u32_le_bytes(spec_decision_code(d))
}

/// Turns a signed descriptor into its unsigned wire word.
fn fd_wire(v: i32) -> (r: u32)
    ensures
        r == wire_of_i32(v),
{
    if v >= 0 {
        v as u32
    } else {
        let d: i32 = v - (-0x7FFF_FFFF - 1);
        (d as u32) + 0x8000_0000
    }
}

/// Appends the four little-endian bytes of `u`.
fn push_le_u32(out: &mut Vec<u8>, u: u32)
    ensures
        final(out)@ == old(out)@ + u32_le_bytes(u),
{
    proof {
        assert((u & 0xFF) < 0x100 && ((u >> 8) & 0xFF) < 0x100 && ((u >> 16) & 0xFF) < 0x100 && ((
        u >> 24) & 0xFF) < 0x100) by (bit_vector);
    }
    let ghost before = out@;
    out.push((u & 0xFF) as u8);
    out.push(((u >> 8) & 0xFF) as u8);
    out.push(((u >> 16) & 0xFF) as u8);
    out.push(((u >> 24) & 0xFF) as u8);
    proof {
        assert(out@ =~= before + u32_le_bytes(u));
    }
}

/// Encodes a (descriptor, decision) pair into the fixed-size record the
/// kernel expects. The record is built and written anew for each call:
/// one response acknowledges one delivered permission event.
pub fn encode_response(fd: i32, decision: Decision) -> (r: Vec<u8>)
    ensures
        r@ == response_bytes(fd, decision),
        r@.len() == RESPONSE_LEN,
{
    let w = fd_wire(fd);
    let c = decision_code(decision);
    let mut out: Vec<u8> = Vec::new();
    push_le_u32(&mut out, w);
    push_le_u32(&mut out, c);
    proof {
        assert(out@ =~= response_bytes(fd, decision));
    }
    out
}

/// Law: reassembling the four little-endian bytes of a word restores it.
pub proof fn lemma_le_u32_round_trip(u: u32)
    ensures
        le_u32_of(u32_le_bytes(u)[0], u32_le_bytes(u)[1], u32_le_bytes(u)[2], u32_le_bytes(u)[3])
            == u,
{
    assert((u & 0xFF) < 0x100 && ((u >> 8) & 0xFF) < 0x100 && ((u >> 16) & 0xFF) < 0x100 && ((u
        >> 24) & 0xFF) < 0x100) by (bit_vector);
    assert((u & 0xFF) + ((u >> 8) & 0xFF) * 0x100 + ((u >> 16) & 0xFF) * 0x10000 + ((u >> 24)
        & 0xFF) * 0x1000000 == u) by (bit_vector);
}

/// Law: the signed value carried by a wire word round-trips: decoding the
/// word an encoder produced restores the descriptor, and encoding a
/// decoded word restores the word.
pub proof fn lemma_wire_i32_round_trip(v: i32, u: u32)
    ensures
        i32_from_wire(wire_of_i32(v)) == v,
        wire_of_i32(i32_from_wire(u)) == u,
{
}

/// Law: the kernel, reading an encoded acknowledgment as two little-endian
/// words, sees exactly the descriptor and the decision that were encoded.
/// Together with the decoder this correlates a response with the event
/// whose descriptor it answers.
pub proof fn lemma_response_round_trip(fd: i32, d: Decision)
    ensures
        response_bytes(fd, d).len() == RESPONSE_LEN,
        i32_from_wire(
            le_u32_of(
                response_bytes(fd, d)[0],
                response_bytes(fd, d)[1],
                response_bytes(fd, d)[2],
                response_bytes(fd, d)[3],
            ),
        ) == fd,
        le_u32_of(
            response_bytes(fd, d)[4],
            response_bytes(fd, d)[5],
            response_bytes(fd, d)[6],
            response_bytes(fd, d)[7],
        ) == spec_decision_code(d),
{
    lemma_le_u32_round_trip(wire_of_i32(fd));
    lemma_le_u32_round_trip(spec_decision_code(d));
    lemma_wire_i32_round_trip(fd, 0);
}

} // verus!
