//! The per-request service step.
//!
//! One call handles one decoded request against the block store, using the
//! shared payload buffer as the data-transfer surface: a read resolves the
//! target address and places the block (or zeros, if the address was never
//! written) into the buffer; a write stores the buffer's current contents as
//! the block for the target address; any other type code touches neither.
//! Every request is answered with the same fixed-size success response — the
//! wire protocol has no representable error status.

use vstd::prelude::*;

use crate::codec::BLOCK_LEN;
use crate::codec::CodecError;
use crate::codec::REQ_READ;
use crate::codec::REQ_WRITE;
use crate::codec::REQUEST_LEN;
use crate::codec::Request;
use crate::codec::STATUS_OK;
use crate::codec::decode_request;
use crate::codec::encode_response;
use crate::codec::spec_decode_request;
use crate::codec::spec_response_bytes;
use crate::store::BlockStore;
use vstd::slice::slice_to_vec;

verus! {

/// The all-zero payload that stands for a block never written.
pub open spec fn zero_block() -> Seq<u8> {
    Seq::new(BLOCK_LEN as nat, |i: int| 0u8)
}

/// The payload a read of `lba` yields from store contents `store`: the stored
/// block, or all zeros if the address was never written.
pub open spec fn read_payload(store: Map<u64, Seq<u8>>, lba: u64) -> Seq<u8> {
    if store.contains_key(lba) {
        store[lba]
    } else {
        zero_block()
    }
}

/// Store contents after one request is processed, given the shared buffer's
/// contents `payload` at the time of the request. Only a write changes the
/// store; a read or an unknown type code leaves it as it was.
pub open spec fn step_store(store: Map<u64, Seq<u8>>, req: Request, payload: Seq<u8>) -> Map<
    u64,
    Seq<u8>,
> {
    if req.req_type == REQ_WRITE {
        store.insert(req.lba, payload)
    } else {
        store
    }
}

/// Shared-buffer contents after one request is processed. Only a read changes
/// the buffer; a write or an unknown type code leaves it as it was.
pub open spec fn step_buffer(store: Map<u64, Seq<u8>>, req: Request, payload: Seq<u8>) -> Seq<
    u8,
> {
    if req.req_type == REQ_READ {
        read_payload(store, req.lba)
    } else {
        payload
    }
}

/// A full-size buffer holding only zero bytes.
fn zero_block_vec() -> (v: Vec<u8>)
    ensures
        v@ == zero_block(),
{
    let mut v: Vec<u8> = Vec::new();
    let mut i: usize = 0;
    while i < BLOCK_LEN
        invariant
            i <= BLOCK_LEN,
            v@.len() == i,
            forall|j: int| 0 <= j < i ==> v@[j] == 0u8,
        decreases BLOCK_LEN - i,
    {
        v.push(0u8);
        i = i + 1;
    }
    proof {
        assert(v@ =~= zero_block());
    }
    v
}

/// Processes one decoded request against the store, with the shared payload
/// buffer as the transfer surface, and returns the encoded response record.
///
/// After the call the store and the buffer hold exactly the step of the
/// protocol: for a read or a write, the buffer equals the store's current
/// payload for the requested address.
pub fn handle_request(store: &mut BlockStore, req: Request, buffer: &mut Vec<u8>) -> (resp: Vec<
    u8,
>)
    requires
        old(store).wf(),
        old(buffer)@.len() == BLOCK_LEN,
    ensures
        final(store).wf(),
        final(buffer)@.len() == BLOCK_LEN,
        final(store)@ == step_store(old(store)@, req, old(buffer)@),
        final(buffer)@ == step_buffer(old(store)@, req, old(buffer)@),
        resp@ == spec_response_bytes(STATUS_OK),
        req.req_type == REQ_READ || req.req_type == REQ_WRITE ==> final(buffer)@ == read_payload(
            final(store)@,
            req.lba,
        ),
{
    if req.req_type == REQ_READ {
        match store.get(req.lba) {
            Some(block) => {
                *buffer = slice_to_vec(block.as_slice());
            },
            None => {
                *buffer = zero_block_vec();
            },
        }
    } else if req.req_type == REQ_WRITE {
        let block = slice_to_vec(buffer.as_slice());
        store.put(req.lba, block);
    }
    encode_response(STATUS_OK)
}

/// Processes one raw request record: decodes it, performs the step, and
/// returns the encoded response. A record of the wrong length is rejected as
/// malformed and changes nothing — the caller treats that as fatal, since the
/// protocol has no way to resynchronize.
pub fn serve_request(store: &mut BlockStore, request_bytes: &[u8], buffer: &mut Vec<u8>) -> (r:
    Result<Vec<u8>, CodecError>)
    requires
        old(store).wf(),
        old(buffer)@.len() == BLOCK_LEN,
    ensures
        final(store).wf(),
        final(buffer)@.len() == BLOCK_LEN,
        request_bytes@.len() == REQUEST_LEN ==> {
            let req = spec_decode_request(request_bytes@);
            &&& r matches Ok(resp) && resp@ == spec_response_bytes(STATUS_OK)
            &&& final(store)@ == step_store(old(store)@, req, old(buffer)@)
            &&& final(buffer)@ == step_buffer(old(store)@, req, old(buffer)@)
        },
        request_bytes@.len() != REQUEST_LEN ==> {
            &&& r == Err::<Vec<u8>, CodecError>(CodecError::MalformedRequest)
            &&& final(store)@ == old(store)@
            &&& final(buffer)@ == old(buffer)@
        },
{
    let req = match decode_request(request_bytes) {
        Ok(req) => req,
        Err(e) => {
            return Err(e);
        },
    };
    Ok(handle_request(store, req, buffer))
}

/// Law: last write wins. A write of `payload` to an address followed by a
/// read of the same address yields `payload`, whatever the store held before
/// and whatever the buffer holds when the read arrives.
pub proof fn lemma_read_after_write(
    store: Map<u64, Seq<u8>>,
    wreq: Request,
    rreq: Request,
    payload: Seq<u8>,
    later: Seq<u8>,
)
    requires
        wreq.req_type == REQ_WRITE,
        rreq.req_type == REQ_READ,
        rreq.lba == wreq.lba,
    ensures
        step_buffer(step_store(store, wreq, payload), rreq, later) == payload,
{
}

/// Law: a read of an address that was never written yields one block of zero
/// bytes, whatever the buffer held before.
pub proof fn lemma_unwritten_read_is_zero(
    store: Map<u64, Seq<u8>>,
    rreq: Request,
    payload: Seq<u8>,
)
    requires
        rreq.req_type == REQ_READ,
        !store.contains_key(rreq.lba),
    ensures
        step_buffer(store, rreq, payload) == zero_block(),
        zero_block().len() == BLOCK_LEN,
        forall|i: int| 0 <= i < BLOCK_LEN ==> zero_block()[i] == 0u8,
{
}

} // verus!
