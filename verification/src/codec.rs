//! The fixed-width wire format of the echo service, and the per-request
//! computation of a listener.
//!
//! A request is a 4-byte field followed by an 8-byte field, both
//! little-endian, with no self-description and no version tag; a
//! response shares the same shape. Byte offset 0, length 4 of the
//! encoding is the steering key: the hash input that selects a
//! destination port once sharding is active.

use crate::ShardError;
use vstd::bytes::*;
use vstd::prelude::*;
use vstd::slice::slice_subrange;

verus! {

/// Offset in the encoded request of the byte range used as the steering key.
pub const KEY_OFFSET: usize = 0;

/// Length of the steering-key byte range: the request's first field.
pub const KEY_LENGTH: usize = 4;

/// Length in bytes of an encoded request or response.
pub const WIRE_LEN: usize = 12;

/// The logical content of a request: a 4-byte field and an 8-byte field.
/// The first field doubles as the steering-key material.
#[derive(Clone, Copy, Debug, PartialEq, Eq, Structural)]
pub struct PingRequest {
    pub work: u32,
    pub amount: u64,
}

/// The logical content of a response; it shares the request's shape.
#[derive(Clone, Copy, Debug, PartialEq, Eq, Structural)]
pub struct PingResponse {
    pub work: u32,
    pub amount: u64,
}

/// The 12-byte little-endian encoding of a (4-byte, 8-byte) field pair.
pub open spec fn spec_encode_pair(first: u32, second: u64) -> Seq<u8> {
    spec_u32_to_le_bytes(first) + spec_u64_to_le_bytes(second)
}

pub open spec fn spec_encode_request(r: PingRequest) -> Seq<u8> {
    spec_encode_pair(r.work, r.amount)
}

pub open spec fn spec_encode_response(r: PingResponse) -> Seq<u8> {
    spec_encode_pair(r.work, r.amount)
}

pub open spec fn spec_decode_request(b: Seq<u8>) -> PingRequest
    recommends
        b.len() == WIRE_LEN,
{
    PingRequest {
        work: spec_u32_from_le_bytes(b.subrange(0, 4)),
        amount: spec_u64_from_le_bytes(b.subrange(4, 12)),
    }
}

pub open spec fn spec_decode_response(b: Seq<u8>) -> PingResponse
    recommends
        b.len() == WIRE_LEN,
{
    PingResponse {
        work: spec_u32_from_le_bytes(b.subrange(0, 4)),
        amount: spec_u64_from_le_bytes(b.subrange(4, 12)),
    }
}

fn encode_pair(first: u32, second: u64) -> (b: Vec<u8>)
    ensures
        b@ == spec_encode_pair(first, second),
        b@.len() == WIRE_LEN,
{
    proof {
        lemma_auto_spec_u32_to_from_le_bytes();
        lemma_auto_spec_u64_to_from_le_bytes();
    }
    let mut b = u32_to_le_bytes(first);
    let mut tail = u64_to_le_bytes(second);
    b.append(&mut tail);
    b
}

/// Encodes a request into its 12-byte wire form.
pub fn encode_request(r: &PingRequest) -> (b: Vec<u8>)
    ensures
        b@ == spec_encode_request(*r),
        b@.len() == WIRE_LEN,
{
    encode_pair(r.work, r.amount)
}

/// Encodes a response into its 12-byte wire form.
pub fn encode_response(r: &PingResponse) -> (b: Vec<u8>)
    ensures
        b@ == spec_encode_response(*r),
        b@.len() == WIRE_LEN,
{
    encode_pair(r.work, r.amount)
}

/// Decodes a request from its wire form. Exactly the 12-byte payloads
/// decode; anything else is malformed.
pub fn decode_request(b: &[u8]) -> (r: Option<PingRequest>)
    ensures
        r is Some <==> b@.len() == WIRE_LEN,
        r matches Some(p) ==> p == spec_decode_request(b@),
{
    if b.len() != WIRE_LEN {
        return None;
    }
    let work = u32_from_le_bytes(slice_subrange(b, 0, 4));
    let amount = u64_from_le_bytes(slice_subrange(b, 4, 12));
    Some(PingRequest { work, amount })
}

/// Decodes a response from its wire form.
pub fn decode_response(b: &[u8]) -> (r: Option<PingResponse>)
    ensures
        r is Some <==> b@.len() == WIRE_LEN,
        r matches Some(p) ==> p == spec_decode_response(b@),
{
    if b.len() != WIRE_LEN {
        return None;
    }
    let work = u32_from_le_bytes(slice_subrange(b, 0, 4));
    let amount = u64_from_le_bytes(slice_subrange(b, 4, 12));
    Some(PingResponse { work, amount })
}

/// Law: decoding an encoded request gives back the very values that
/// were encoded, and the encoding always has wire length.
pub proof fn lemma_request_round_trip(r: PingRequest)
    ensures
        spec_encode_request(r).len() == WIRE_LEN,
        spec_decode_request(spec_encode_request(r)) == r,
{
    lemma_auto_spec_u32_to_from_le_bytes();
    lemma_auto_spec_u64_to_from_le_bytes();
    let enc = spec_encode_request(r);
    assert(enc.subrange(0, 4) =~= spec_u32_to_le_bytes(r.work));
    assert(enc.subrange(4, 12) =~= spec_u64_to_le_bytes(r.amount));
}

/// Law: decoding an encoded response gives back the very values that
/// were encoded.
pub proof fn lemma_response_round_trip(r: PingResponse)
    ensures
        spec_encode_response(r).len() == WIRE_LEN,
        spec_decode_response(spec_encode_response(r)) == r,
{
    lemma_auto_spec_u32_to_from_le_bytes();
    lemma_auto_spec_u64_to_from_le_bytes();
    let enc = spec_encode_response(r);
    assert(enc.subrange(0, 4) =~= spec_u32_to_le_bytes(r.work));
    assert(enc.subrange(4, 12) =~= spec_u64_to_le_bytes(r.amount));
}

/// Law: the steering-key byte range of an encoded request (offset 0,
/// length 4) is exactly the encoding of the request's first field.
pub proof fn lemma_shard_key_is_first_field(r: PingRequest)
    ensures
        spec_encode_request(r).subrange(
            KEY_OFFSET as int,
            KEY_OFFSET + KEY_LENGTH,
        ) == spec_u32_to_le_bytes(r.work),
{
    lemma_auto_spec_u32_to_from_le_bytes();
    lemma_auto_spec_u64_to_from_le_bytes();
    assert(spec_encode_request(r).subrange(0, 4) =~= spec_u32_to_le_bytes(r.work));
}

/// The response the echo service owes to a decoded request: the request's
/// own logical values, sent back.
pub open spec fn spec_echo_response(p: PingRequest) -> PingResponse {
    PingResponse { work: p.work, amount: p.amount }
}

/// The per-request computation of a listener: decode the payload, and
/// reply with the encoded echo response. A malformed payload is a
/// protocol error, fatal to that listener alone; the caller counts one
/// received request exactly when this returns `Ok`.
pub fn handle_request(msg: &[u8]) -> (res: Result<Vec<u8>, ShardError>)
    ensures
        res is Ok <==> msg@.len() == WIRE_LEN,
        res matches Ok(reply) ==> reply@ == spec_encode_response(
            spec_echo_response(spec_decode_request(msg@)),
        ),
        res matches Err(e) ==> e == ShardError::Protocol,
{
    match decode_request(msg) {
        Some(req) => {
            let resp = PingResponse { work: req.work, amount: req.amount };
            Ok(encode_response(&resp))
        },
        None => Err(ShardError::Protocol),
    }
}

} // verus!
