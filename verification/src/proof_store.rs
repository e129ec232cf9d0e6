use crate::constants::MAX_PROOF_BYTES;
use crate::errors::ErrorCode;
use crate::identity::{key_bytes, same_key};
use crate::state::{ProofAccount, ProofAccountView};
use anchor_lang::prelude::Pubkey;
use vstd::prelude::*;

verus! {

impl ProofAccountView {
    /// The buffer that a chunk is appended to: the order proof or the
    /// compliance proof.
    pub open spec fn buffer(self, is_order_proof: bool) -> Seq<u8> {
        if is_order_proof {
            self.order_proof
        } else {
            self.compliance_proof
        }
    }

    /// Neither buffer holds more than its capacity.
    pub open spec fn within_capacity(self) -> bool {
        &&& self.order_proof.len() <= MAX_PROOF_BYTES
        &&& self.compliance_proof.len() <= MAX_PROOF_BYTES
    }
}

/// The record that is created for `order_id` of `owner`: both buffers empty.
pub open spec fn created_record(owner: Pubkey, order_id: u64) -> ProofAccountView {
    ProofAccountView {
        owner,
        order_id,
        order_proof: Seq::empty(),
        compliance_proof: Seq::empty(),
    }
}

/// Why a chunk is refused, or `None` where it is appended.
pub open spec fn store_rejection(
    record: ProofAccountView,
    owner: Pubkey,
    chunk: Seq<u8>,
    is_order_proof: bool,
) -> Option<ErrorCode> {
    if key_bytes(owner) != key_bytes(record.owner) {
        Some(ErrorCode::Unauthorized)
    } else if record.buffer(is_order_proof).len() + chunk.len() > MAX_PROOF_BYTES {
        Some(ErrorCode::ProofCapacityExceeded)
    } else {
        None
    }
}

/// The record once a chunk has been appended to the chosen buffer.
pub open spec fn record_after_store(record: ProofAccountView, chunk: Seq<u8>, is_order_proof: bool)
    -> ProofAccountView {
    if is_order_proof {
        ProofAccountView { order_proof: record.order_proof + chunk, ..record }
    } else {
        ProofAccountView { compliance_proof: record.compliance_proof + chunk, ..record }
    }
}

/// Creates the empty proof record of `user` for `order_id`.
pub fn create_proof_account(user: Pubkey, order_id: u64) -> (record: ProofAccount)
    ensures
        record@ == created_record(user, order_id),
        record@.within_capacity(),
{
    ProofAccount { owner: user, order_id, order_proof: Vec::new(), compliance_proof: Vec::new() }
}

/// Appends one chunk of a streamed proof to the order proof or to the
/// compliance proof of a record, for its owner only and within the buffer's
/// capacity.
pub fn store_order_proof(
    proof_account: &mut ProofAccount,
    owner: Pubkey,
    chunk: Vec<u8>,
    is_order_proof: bool,
) -> (result: Result<(), ErrorCode>)
    ensures
        match result {
            Ok(()) => {
                &&& store_rejection(old(proof_account)@, owner, chunk@, is_order_proof) is None
                &&& final(proof_account)@ == record_after_store(
                    old(proof_account)@,
                    chunk@,
                    is_order_proof,
                )
            },
            Err(error) => {
                &&& store_rejection(old(proof_account)@, owner, chunk@, is_order_proof) == Some(
                    error,
                )
                &&& *final(proof_account) == *old(proof_account)
            },
        },
{
    if !same_key(&owner, &proof_account.owner) {
        return Err(ErrorCode::Unauthorized);
    }
    let held: usize = if is_order_proof {
        proof_account.order_proof.len()
    } else {
        proof_account.compliance_proof.len()
    };
    if held > MAX_PROOF_BYTES || chunk.len() > MAX_PROOF_BYTES - held {
        return Err(ErrorCode::ProofCapacityExceeded);
    }
    if is_order_proof {
        proof_account.order_proof.extend_from_slice(chunk.as_slice());
        assert(proof_account.order_proof@ =~= old(proof_account).order_proof@ + chunk@);
    } else {
        proof_account.compliance_proof.extend_from_slice(chunk.as_slice());
        assert(proof_account.compliance_proof@ =~= old(proof_account).compliance_proof@ + chunk@);
    }
    Ok(())
}

/// A record that is within capacity stays so through every accepted append.
pub proof fn store_keeps_capacity(
    record: ProofAccountView,
    owner: Pubkey,
    chunk: Seq<u8>,
    is_order_proof: bool,
)
    requires
        record.within_capacity(),
        store_rejection(record, owner, chunk, is_order_proof) is None,
    ensures
        record_after_store(record, chunk, is_order_proof).within_capacity(),
{
}

/// A record only grows, and only at the end of the chosen buffer: after an
/// accepted append each buffer starts with what it held before, the other
/// buffer, the owner and the order id are as they were.
pub proof fn store_only_appends(
    record: ProofAccountView,
    owner: Pubkey,
    chunk: Seq<u8>,
    is_order_proof: bool,
)
    requires
        store_rejection(record, owner, chunk, is_order_proof) is None,
    ensures
        ({
            let after = record_after_store(record, chunk, is_order_proof);
            &&& after.owner == record.owner
            &&& after.order_id == record.order_id
            &&& after.buffer(is_order_proof) == record.buffer(is_order_proof) + chunk
            &&& after.buffer(!is_order_proof) == record.buffer(!is_order_proof)
            &&& record.order_proof.is_prefix_of(after.order_proof)
            &&& record.compliance_proof.is_prefix_of(after.compliance_proof)
        }),
{
}

/// One request to append a chunk: by anyone, to either buffer.
pub struct StoreRequest {
    pub caller: Pubkey,
    pub chunk: Seq<u8>,
    pub is_order_proof: bool,
}

/// The record after one request, accepted or refused.
pub open spec fn after_store_request(record: ProofAccountView, request: StoreRequest)
    -> ProofAccountView {
    if store_rejection(record, request.caller, request.chunk, request.is_order_proof) is None {
        record_after_store(record, request.chunk, request.is_order_proof)
    } else {
        record
    }
}

/// The record after a run of requests, taken in order.
pub open spec fn after_store_requests(record: ProofAccountView, requests: Seq<StoreRequest>)
    -> ProofAccountView
    decreases requests.len(),
{
    if requests.len() == 0 {
        record
    } else {
        after_store_requests(
            after_store_request(record, requests.first()),
            requests.drop_first(),
        )
    }
}

/// For the whole life of a record, whatever is asked of it: it keeps its
/// owner and its order id, each buffer still starts with all it ever held,
/// and a record that was within capacity is still within it.
pub proof fn record_is_append_only(record: ProofAccountView, requests: Seq<StoreRequest>)
    ensures
        ({
            let last = after_store_requests(record, requests);
            &&& last.owner == record.owner
            &&& last.order_id == record.order_id
            &&& record.order_proof.is_prefix_of(last.order_proof)
            &&& record.compliance_proof.is_prefix_of(last.compliance_proof)
            &&& record.within_capacity() ==> last.within_capacity()
        }),
    decreases requests.len(),
{
    if requests.len() > 0 {
        record_is_append_only(
            after_store_request(record, requests.first()),
            requests.drop_first(),
        );
    }
}

/// Only the owner writes: a run in which no request comes from the owner's
/// address leaves the record as it was.
pub proof fn strangers_never_write(record: ProofAccountView, requests: Seq<StoreRequest>)
    requires
        forall|i: int|
            0 <= i < requests.len() ==> key_bytes(#[trigger] requests[i].caller) != key_bytes(
                record.owner,
            ),
    ensures
        after_store_requests(record, requests) == record,
    decreases requests.len(),
{
    if requests.len() > 0 {
        assert forall|i: int| 0 <= i < requests.drop_first().len() implies key_bytes(
            #[trigger] requests.drop_first()[i].caller,
        ) != key_bytes(record.owner) by {
            assert(requests.drop_first()[i] == requests[i + 1]);
        }
        strangers_never_write(record, requests.drop_first());
    }
}

} // verus!
