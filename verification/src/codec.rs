//! Wire codec for the fixed-size request and response records.
//!
//! Every record is a sequence of little-endian 64-bit fields. A request is
//! 16 bytes: a type code (0 = read, 1 = write) followed by the target logical
//! block address. A response is 16 bytes: a status code (always 0, the only
//! code the service produces) followed by a reserved field that is zero-filled.

use vstd::bytes::lemma_auto_spec_u64_to_from_le_bytes;
use vstd::bytes::spec_u64_from_le_bytes;
use vstd::bytes::spec_u64_to_le_bytes;
use vstd::bytes::u64_from_le_bytes;
use vstd::bytes::u64_to_le_bytes;
use vstd::prelude::*;
use vstd::slice::slice_subrange;

verus! {

/// Number of payload bytes in one block.
pub const BLOCK_LEN: usize = 4096;

/// Byte length of a request record on the wire.
pub const REQUEST_LEN: usize = 16;

/// Byte length of a response record on the wire.
pub const RESPONSE_LEN: usize = 16;

/// Request type code asking for the contents of a block.
pub const REQ_READ: u64 = 0;

/// Request type code storing the shared buffer's contents as a block.
pub const REQ_WRITE: u64 = 1;

/// The status code reported in every response: success.
pub const STATUS_OK: u64 = 0;

/// A decoded request record: the type code and the target logical block
/// address. Type codes other than read and write are representable; the
/// service treats them as no-ops.
#[derive(Clone, Copy, PartialEq, Eq, Structural, Debug)]
pub struct Request {
    pub req_type: u64,
    pub lba: u64,
}

/// Decoding failure: the record does not have the expected length.
#[derive(Clone, Copy, PartialEq, Eq, Structural, Debug)]
pub enum CodecError {
    MalformedRequest,
}

/// The request that a well-formed 16-byte record denotes: the type code in
/// bytes 0..8 and the logical block address in bytes 8..16, little-endian.
pub open spec fn spec_decode_request(bytes: Seq<u8>) -> Request
    recommends
        bytes.len() == REQUEST_LEN,
{
    Request {
        req_type: spec_u64_from_le_bytes(bytes.subrange(0, 8)),
        lba: spec_u64_from_le_bytes(bytes.subrange(8, 16)),
    }
}

/// The 16-byte record that encodes a request.
pub open spec fn spec_request_bytes(req: Request) -> Seq<u8> {
    spec_u64_to_le_bytes(req.req_type) + spec_u64_to_le_bytes(req.lba)
}

/// The 16-byte record that encodes a response: the status followed by the
/// zero-filled reserved field.
pub open spec fn spec_response_bytes(status: u64) -> Seq<u8> {
    spec_u64_to_le_bytes(status) + spec_u64_to_le_bytes(0)
}

/// Decodes a request record. Exactly the records of the expected length
/// decode; any other length is malformed.
pub fn decode_request(bytes: &[u8]) -> (r: Result<Request, CodecError>)
    ensures
        bytes@.len() == REQUEST_LEN ==> r == Ok::<Request, CodecError>(
            spec_decode_request(bytes@),
        ),
        bytes@.len() != REQUEST_LEN ==> r == Err::<Request, CodecError>(
            CodecError::MalformedRequest,
        ),
{
    if bytes.len() != REQUEST_LEN {
        return Err(CodecError::MalformedRequest);
    }
    let req_type = u64_from_le_bytes(slice_subrange(bytes, 0, 8));
    let lba = u64_from_le_bytes(slice_subrange(bytes, 8, 16));
    Ok(Request { req_type, lba })
}

/// Encodes a request as a 16-byte record.
pub fn encode_request(req: &Request) -> (r: Vec<u8>)
    ensures
        r@ == spec_request_bytes(*req),
        r@.len() == REQUEST_LEN,
{
    let mut r = u64_to_le_bytes(req.req_type);
    let mut tail = u64_to_le_bytes(req.lba);
    r.append(&mut tail);
    r
}

/// Encodes a response as a 16-byte record, the reserved field zero-filled.
/// The record's length never depends on the status.
pub fn encode_response(status: u64) -> (r: Vec<u8>)
    ensures
        r@ == spec_response_bytes(status),
        r@.len() == RESPONSE_LEN,
{
    let mut r = u64_to_le_bytes(status);
    let mut tail = u64_to_le_bytes(0);
    r.append(&mut tail);
    r
}

/// Law: decoding a well-formed request record and re-encoding the result
/// reproduces the record, byte for byte.
pub proof fn lemma_decode_then_encode(bytes: Seq<u8>)
    requires
        bytes.len() == REQUEST_LEN,
    ensures
        spec_request_bytes(spec_decode_request(bytes)) == bytes,
{
    lemma_auto_spec_u64_to_from_le_bytes();
    assert(spec_request_bytes(spec_decode_request(bytes)) =~= bytes);
}

/// Law: encoding a request and decoding the record reproduces the request,
/// field for field.
pub proof fn lemma_encode_then_decode(req: Request)
    ensures
        spec_decode_request(spec_request_bytes(req)) == req,
{
    lemma_auto_spec_u64_to_from_le_bytes();
    assert(spec_request_bytes(req).subrange(0, 8) =~= spec_u64_to_le_bytes(req.req_type));
    assert(spec_request_bytes(req).subrange(8, 16) =~= spec_u64_to_le_bytes(req.lba));
}

/// Law: a response record has the canonical length whatever the status.
pub proof fn lemma_response_len(status: u64)
    ensures
        spec_response_bytes(status).len() == RESPONSE_LEN,
{
    lemma_auto_spec_u64_to_from_le_bytes();
}

} // verus!
