use crate::constants::INITIAL_BATCH_ID;
use crate::errors::ErrorCode;
use crate::identity::{key_bytes, same_key};
use crate::proof_store::{created_record, record_after_store, store_rejection};
use crate::state::{
    DarkPoolOrderBook, EncryptedOrder, EncryptedOrderView, ProofAccount, ProofAccountView,
};
use anchor_lang::prelude::Pubkey;
use vstd::prelude::*;

verus! {

/// Why an order is refused, or `None` where it is accepted.
pub open spec fn order_rejection(
    order_book: DarkPoolOrderBook,
    record: ProofAccountView,
    user: Pubkey,
    encrypted_data: Seq<u8>,
) -> Option<ErrorCode> {
    if encrypted_data.len() == 0 || record.order_proof.len() == 0 {
        Some(ErrorCode::InvalidProof)
    } else if key_bytes(user) != key_bytes(record.owner) {
        Some(ErrorCode::Unauthorized)
    } else if order_book.total_orders + 1 > u64::MAX {
        Some(ErrorCode::ArithmeticOverflow)
    } else {
        None
    }
}

/// The order book once one more order has been accepted.
pub open spec fn book_after_order(order_book: DarkPoolOrderBook) -> DarkPoolOrderBook {
    DarkPoolOrderBook { total_orders: (order_book.total_orders + 1) as u64, ..order_book }
}

/// Why a batch checkpoint is refused, or `None` where it is accepted.
pub open spec fn batch_rejection(order_book: DarkPoolOrderBook, authority: Pubkey, batch_id: u64)
    -> Option<ErrorCode> {
    if key_bytes(authority) != key_bytes(order_book.authority) {
        Some(ErrorCode::Unauthorized)
    } else if batch_id + 1 > u64::MAX {
        Some(ErrorCode::ArithmeticOverflow)
    } else {
        None
    }
}

/// The order book once batch `batch_id` has been checkpointed.
pub open spec fn book_after_batch(order_book: DarkPoolOrderBook, batch_id: u64)
    -> DarkPoolOrderBook {
    DarkPoolOrderBook { next_batch_id: (batch_id + 1) as u64, ..order_book }
}

/// Creates the order book, empty, under the authority that asked for it.
pub fn initialize_dark_pool(authority: Pubkey, bump: u8) -> (order_book: DarkPoolOrderBook)
    ensures
        order_book == (DarkPoolOrderBook {
            authority,
            total_orders: 0,
            next_batch_id: INITIAL_BATCH_ID,
            bump,
        }),
{
    DarkPoolOrderBook { authority, total_orders: 0, next_batch_id: INITIAL_BATCH_ID, bump }
}

/// Admits a confidential order of `user` whose proof record already holds an
/// order proof, and counts it. The payload and the proof are gated on for
/// presence only; neither is opened or checked.
pub fn submit_encrypted_order(
    order_book: &mut DarkPoolOrderBook,
    proof_account: &ProofAccount,
    proof_account_key: Pubkey,
    user: Pubkey,
    order_id: u64,
    encrypted_data: Vec<u8>,
    now: i64,
) -> (result: Result<EncryptedOrder, ErrorCode>)
    ensures
        match result {
            Ok(order) => {
                &&& order_rejection(*old(order_book), proof_account@, user, encrypted_data@)
                    is None
                &&& *final(order_book) == book_after_order(*old(order_book))
                &&& order@ == (EncryptedOrderView {
                    owner: user,
                    order_id,
                    encrypted_data: encrypted_data@,
                    proof_account: proof_account_key,
                    timestamp: now,
                    settled: false,
                    batch_id: 0,
                })
            },
            Err(error) => {
                &&& order_rejection(*old(order_book), proof_account@, user, encrypted_data@)
                    == Some(error)
                &&& *final(order_book) == *old(order_book)
            },
        },
{
    if encrypted_data.len() == 0 {
        return Err(ErrorCode::InvalidProof);
    }
    if proof_account.order_proof.len() == 0 {
        return Err(ErrorCode::InvalidProof);
    }
    if !same_key(&user, &proof_account.owner) {
        return Err(ErrorCode::Unauthorized);
    }
    let total_orders: u64 = match order_book.total_orders.checked_add(1) {
        Some(total) => total,
        None => {
            return Err(ErrorCode::ArithmeticOverflow);
        },
    };
    order_book.total_orders = total_orders;
    Ok(
        EncryptedOrder {
            owner: user,
            order_id,
            encrypted_data,
            proof_account: proof_account_key,
            timestamp: now,
            settled: false,
            batch_id: 0,
        },
    )
}

/// Checkpoints that batch `batch_id` was processed, for the order book's
/// authority only. Which orders matched, and the settlement price, are the
/// authority's word: nothing here derives or checks them.
pub fn batch_match_orders(
    order_book: &mut DarkPoolOrderBook,
    authority: Pubkey,
    batch_id: u64,
    settlement_price: u64,
) -> (result: Result<(), ErrorCode>)
    ensures
        match result {
            Ok(()) => {
                &&& batch_rejection(*old(order_book), authority, batch_id) is None
                &&& *final(order_book) == book_after_batch(*old(order_book), batch_id)
            },
            Err(error) => {
                &&& batch_rejection(*old(order_book), authority, batch_id) == Some(error)
                &&& *final(order_book) == *old(order_book)
            },
        },
{
    if !same_key(&authority, &order_book.authority) {
        return Err(ErrorCode::Unauthorized);
    }
    let next_batch_id: u64 = match batch_id.checked_add(1) {
        Some(next) => next,
        None => {
            return Err(ErrorCode::ArithmeticOverflow);
        },
    };
    order_book.next_batch_id = next_batch_id;
    Ok(())
}

/// An order against a record whose order proof is empty is always refused
/// for want of a proof. Against a record that holds one, an order of the
/// record's owner with a payload present is accepted and counted exactly
/// once, as long as the counter has room.
pub proof fn order_admitted_exactly_with_proof(
    order_book: DarkPoolOrderBook,
    record: ProofAccountView,
    user: Pubkey,
    encrypted_data: Seq<u8>,
)
    ensures
        record.order_proof.len() == 0 ==> order_rejection(order_book, record, user, encrypted_data)
            == Some(ErrorCode::InvalidProof),
        record.order_proof.len() > 0 && encrypted_data.len() > 0 && key_bytes(user) == key_bytes(
            record.owner,
        ) && order_book.total_orders < u64::MAX ==> {
            &&& order_rejection(order_book, record, user, encrypted_data) is None
            &&& book_after_order(order_book).total_orders == order_book.total_orders + 1
            &&& book_after_order(order_book).next_batch_id == order_book.next_batch_id
            &&& book_after_order(order_book).authority == order_book.authority
        },
{
}

/// Proof comes before order: a record as created admits no order, and once
/// its owner has stored a chunk that is not empty as order proof, it admits
/// one.
pub proof fn order_follows_stored_proof(
    order_book: DarkPoolOrderBook,
    owner: Pubkey,
    order_id: u64,
    chunk: Seq<u8>,
    encrypted_data: Seq<u8>,
)
    requires
        chunk.len() > 0,
        encrypted_data.len() > 0,
        order_book.total_orders < u64::MAX,
        store_rejection(created_record(owner, order_id), owner, chunk, true) is None,
    ensures
        order_rejection(order_book, created_record(owner, order_id), owner, encrypted_data)
            == Some(ErrorCode::InvalidProof),
        order_rejection(
            order_book,
            record_after_store(created_record(owner, order_id), chunk, true),
            owner,
            encrypted_data,
        ) is None,
{
}

/// Only the authority moves the batch counter: any other caller is refused as
/// unauthorized, and the authority's checkpoint of batch `batch_id` leaves the
/// counter at `batch_id + 1` wherever that number exists.
pub proof fn batch_counter_follows_authority(
    order_book: DarkPoolOrderBook,
    caller: Pubkey,
    batch_id: u64,
)
    ensures
        key_bytes(caller) != key_bytes(order_book.authority) ==> batch_rejection(
            order_book,
            caller,
            batch_id,
        ) == Some(ErrorCode::Unauthorized),
        key_bytes(caller) == key_bytes(order_book.authority) && batch_id < u64::MAX ==> {
            &&& batch_rejection(order_book, caller, batch_id) is None
            &&& book_after_batch(order_book, batch_id).next_batch_id == batch_id + 1
            &&& book_after_batch(order_book, batch_id).total_orders == order_book.total_orders
        },
        key_bytes(caller) == key_bytes(order_book.authority) && batch_id
            == order_book.next_batch_id && batch_id < u64::MAX ==> book_after_batch(
            order_book,
            batch_id,
        ).next_batch_id == order_book.next_batch_id + 1,
{
}

} // verus!
