use anchor_lang::prelude::Pubkey;
use obsidian_protocol::{
    batch_match_orders, create_proof_account, initialize_dark_pool, store_order_proof,
    submit_encrypted_order, ErrorCode, INITIAL_BATCH_ID, MAX_PROOF_BYTES,
};

fn address(tag: u8) -> Pubkey {
    Pubkey::new_from_array([tag; 32])
}

#[test]
fn order_book_starts_at_batch_one() {
    let book = initialize_dark_pool(address(9), 7);
    assert_eq!(book.authority, address(9));
    assert_eq!(book.total_orders, 0);
    assert_eq!(book.next_batch_id, 1);
    assert_eq!(INITIAL_BATCH_ID, 1);
    assert_eq!(book.bump, 7);
}

#[test]
fn proof_record_is_created_empty() {
    let record = create_proof_account(address(1), 42);
    assert_eq!(record.owner, address(1));
    assert_eq!(record.order_id, 42);
    assert!(record.order_proof.is_empty());
    assert!(record.compliance_proof.is_empty());
}

#[test]
fn chunks_are_appended_in_order_to_the_chosen_buffer() {
    let mut record = create_proof_account(address(1), 42);
    store_order_proof(&mut record, address(1), vec![1, 2, 3], true).unwrap();
    store_order_proof(&mut record, address(1), vec![9], false).unwrap();
    store_order_proof(&mut record, address(1), vec![4, 5], true).unwrap();
    store_order_proof(&mut record, address(1), vec![], true).unwrap();
    store_order_proof(&mut record, address(1), vec![8, 7], false).unwrap();
    assert_eq!(record.order_proof, vec![1, 2, 3, 4, 5]);
    assert_eq!(record.compliance_proof, vec![9, 8, 7]);
    assert_eq!(record.owner, address(1));
    assert_eq!(record.order_id, 42);
}

#[test]
fn only_the_owner_appends() {
    let mut record = create_proof_account(address(1), 42);
    store_order_proof(&mut record, address(1), vec![1], true).unwrap();
    let before = record.clone();
    assert_eq!(
        store_order_proof(&mut record, address(2), vec![2], true),
        Err(ErrorCode::Unauthorized)
    );
    assert_eq!(
        store_order_proof(&mut record, address(2), vec![2], false),
        Err(ErrorCode::Unauthorized)
    );
    assert_eq!(record, before);
}

#[test]
fn a_buffer_takes_exactly_its_capacity() {
    assert_eq!(MAX_PROOF_BYTES, 2048);
    let mut record = create_proof_account(address(1), 42);
    store_order_proof(&mut record, address(1), vec![7; 2000], true).unwrap();
    let before = record.clone();
    assert_eq!(
        store_order_proof(&mut record, address(1), vec![7; 49], true),
        Err(ErrorCode::ProofCapacityExceeded)
    );
    assert_eq!(record, before);
    store_order_proof(&mut record, address(1), vec![8; 48], true).unwrap();
    assert_eq!(record.order_proof.len(), 2048);
    assert_eq!(record.order_proof[1999], 7);
    assert_eq!(record.order_proof[2000], 8);
    assert_eq!(
        store_order_proof(&mut record, address(1), vec![1], true),
        Err(ErrorCode::ProofCapacityExceeded)
    );
    store_order_proof(&mut record, address(1), vec![], true).unwrap();
    assert_eq!(record.order_proof.len(), 2048);

    store_order_proof(&mut record, address(1), vec![3; 2048], false).unwrap();
    assert_eq!(
        store_order_proof(&mut record, address(1), vec![3], false),
        Err(ErrorCode::ProofCapacityExceeded)
    );
    assert_eq!(record.compliance_proof.len(), 2048);
}

#[test]
fn a_chunk_larger_than_the_buffer_is_refused() {
    let mut record = create_proof_account(address(1), 42);
    assert_eq!(
        store_order_proof(&mut record, address(1), vec![0; 2049], false),
        Err(ErrorCode::ProofCapacityExceeded)
    );
    assert!(record.compliance_proof.is_empty());
}

#[test]
fn order_needs_a_stored_order_proof() {
    let user = address(1);
    let mut book = initialize_dark_pool(address(9), 7);
    let mut record = create_proof_account(user, 42);

    assert_eq!(
        submit_encrypted_order(&mut book, &record, address(50), user, 42, vec![0xEE], 10),
        Err(ErrorCode::InvalidProof)
    );
    store_order_proof(&mut record, user, vec![5], false).unwrap();
    assert_eq!(
        submit_encrypted_order(&mut book, &record, address(50), user, 42, vec![0xEE], 10),
        Err(ErrorCode::InvalidProof)
    );
    assert_eq!(book.total_orders, 0);

    store_order_proof(&mut record, user, vec![6], true).unwrap();
    let order =
        submit_encrypted_order(&mut book, &record, address(50), user, 42, vec![0xEE, 0xFF], 10)
            .unwrap();
    assert_eq!(book.total_orders, 1);
    assert_eq!(book.next_batch_id, 1);
    assert_eq!(order.owner, user);
    assert_eq!(order.order_id, 42);
    assert_eq!(order.encrypted_data, vec![0xEE, 0xFF]);
    assert_eq!(order.proof_account, address(50));
    assert_eq!(order.timestamp, 10);
    assert!(!order.settled);
    assert_eq!(order.batch_id, 0);

    submit_encrypted_order(&mut book, &record, address(50), user, 43, vec![0x01], 11).unwrap();
    assert_eq!(book.total_orders, 2);
}

#[test]
fn order_needs_a_payload() {
    let user = address(1);
    let mut book = initialize_dark_pool(address(9), 7);
    let mut record = create_proof_account(user, 42);
    store_order_proof(&mut record, user, vec![6], true).unwrap();
    assert_eq!(
        submit_encrypted_order(&mut book, &record, address(50), user, 42, vec![], 10),
        Err(ErrorCode::InvalidProof)
    );
    assert_eq!(book.total_orders, 0);
}

#[test]
fn order_against_another_owners_record_is_unauthorized() {
    let mut book = initialize_dark_pool(address(9), 7);
    let mut record = create_proof_account(address(1), 42);
    store_order_proof(&mut record, address(1), vec![6], true).unwrap();
    assert_eq!(
        submit_encrypted_order(&mut book, &record, address(50), address(2), 42, vec![1], 10),
        Err(ErrorCode::Unauthorized)
    );
    assert_eq!(book.total_orders, 0);
}

#[test]
fn order_without_proof_is_an_invalid_proof_for_every_caller() {
    let mut book = initialize_dark_pool(address(9), 7);
    let record = create_proof_account(address(1), 42);
    assert_eq!(
        submit_encrypted_order(&mut book, &record, address(50), address(2), 42, vec![1], 10),
        Err(ErrorCode::InvalidProof)
    );
    assert_eq!(
        submit_encrypted_order(&mut book, &record, address(50), address(1), 42, vec![], 10),
        Err(ErrorCode::InvalidProof)
    );
    book.total_orders = u64::MAX;
    assert_eq!(
        submit_encrypted_order(&mut book, &record, address(50), address(1), 42, vec![1], 10),
        Err(ErrorCode::InvalidProof)
    );
    assert_eq!(book.total_orders, u64::MAX);
}

#[test]
fn order_count_does_not_wrap() {
    let user = address(1);
    let mut book = initialize_dark_pool(address(9), 7);
    book.total_orders = u64::MAX - 1;
    let mut record = create_proof_account(user, 42);
    store_order_proof(&mut record, user, vec![6], true).unwrap();
    submit_encrypted_order(&mut book, &record, address(50), user, 42, vec![1], 10).unwrap();
    assert_eq!(book.total_orders, u64::MAX);
    assert_eq!(
        submit_encrypted_order(&mut book, &record, address(50), user, 43, vec![1], 10),
        Err(ErrorCode::ArithmeticOverflow)
    );
    assert_eq!(book.total_orders, u64::MAX);
}

#[test]
fn batch_checkpoint_is_for_the_authority() {
    let mut book = initialize_dark_pool(address(9), 7);
    assert_eq!(batch_match_orders(&mut book, address(8), 1, 500), Err(ErrorCode::Unauthorized));
    assert_eq!(book.next_batch_id, 1);

    let mut near = [9u8; 32];
    near[31] = 8;
    assert_eq!(
        batch_match_orders(&mut book, Pubkey::new_from_array(near), 1, 500),
        Err(ErrorCode::Unauthorized)
    );
    assert_eq!(book.next_batch_id, 1);

    assert_eq!(batch_match_orders(&mut book, address(9), 1, 500), Ok(()));
    assert_eq!(book.next_batch_id, 2);
    assert_eq!(batch_match_orders(&mut book, address(9), 41, 0), Ok(()));
    assert_eq!(book.next_batch_id, 42);
    assert_eq!(batch_match_orders(&mut book, address(9), 0, 7), Ok(()));
    assert_eq!(book.next_batch_id, 1);
    assert_eq!(book.total_orders, 0);
    assert_eq!(book.authority, address(9));
}

#[test]
fn batch_counter_does_not_wrap() {
    let mut book = initialize_dark_pool(address(9), 7);
    assert_eq!(batch_match_orders(&mut book, address(9), u64::MAX - 1, 1), Ok(()));
    assert_eq!(book.next_batch_id, u64::MAX);
    assert_eq!(
        batch_match_orders(&mut book, address(9), u64::MAX, 1),
        Err(ErrorCode::ArithmeticOverflow)
    );
    assert_eq!(book.next_batch_id, u64::MAX);
    assert_eq!(
        batch_match_orders(&mut book, address(8), u64::MAX, 1),
        Err(ErrorCode::Unauthorized)
    );
}
