use anchor_lang::prelude::Pubkey;
use obsidian_protocol::{
    borrow, deposit, encrypt_proof, initialize_pool, liquidate, ErrorCode, Pool, TokenTransfer,
    TransferDirection, UserLoan,
};

fn key(tag: u8) -> Pubkey {
    Pubkey::new_from_array([tag; 32])
}

fn sealed(tag: u8, data: &[u8]) -> Vec<u8> {
    let mut bytes = vec![tag; 32];
    bytes.extend_from_slice(data);
    bytes
}

fn open_loan(pool: &mut Pool, user: Pubkey, amount: u64) -> UserLoan {
    match deposit(pool, user, amount, vec![0x01], 50) {
        Ok((loan, _)) => loan,
        Err(error) => panic!("deposit refused: {:?}", error),
    }
}

#[test]
fn pool_starts_empty_under_its_authority() {
    let pool = initialize_pool(key(9), 254);
    assert_eq!(pool.authority, key(9));
    assert_eq!(pool.bump, 254);
    assert_eq!(pool.total_deposits, 0);
    assert_eq!(pool.total_borrowed, 0);
}

#[test]
fn encrypt_proof_prefixes_the_owner_bytes() {
    let mut raw = [0u8; 32];
    for (i, byte) in raw.iter_mut().enumerate() {
        *byte = i as u8 + 1;
    }
    let owner = Pubkey::new_from_array(raw);
    let blob = encrypt_proof(&[0xAA, 0xBB], &owner);
    assert_eq!(blob.len(), 34);
    assert_eq!(&blob[..32], &raw[..]);
    assert_eq!(&blob[32..], &[0xAA, 0xBB]);
    assert_eq!(encrypt_proof(&[], &owner), raw.to_vec());
}

#[test]
fn deposit_borrow_liquidate_scenario() {
    let user = key(1);
    let liquidator = key(2);
    let mut pool = initialize_pool(key(9), 255);

    let (mut loan, moved) = deposit(&mut pool, user, 1000, vec![0x01], 77).unwrap();
    assert_eq!(pool.total_deposits, 1000);
    assert_eq!(pool.total_borrowed, 0);
    assert_eq!(loan.owner, user);
    assert_eq!(loan.collateral_amount, 1000);
    assert_eq!(loan.collateral_encrypted, sealed(1, &[0x01]));
    assert_eq!(loan.borrowed, 0);
    assert!(loan.ltv_proof.is_empty());
    assert!(loan.liquidation_proof.is_empty());
    assert!(!loan.liquidated);
    assert_eq!(loan.deposit_timestamp, 77);
    assert_eq!(
        moved,
        TokenTransfer { direction: TransferDirection::IntoPool, holder: user, amount: 1000 }
    );

    let lent = borrow(&mut pool, &mut loan, user, 400, vec![0x02]).unwrap();
    assert_eq!(loan.borrowed, 400);
    assert_eq!(loan.ltv_proof, sealed(1, &[0x02]));
    assert_eq!(pool.total_borrowed, 400);
    assert_eq!(pool.total_deposits, 1000);
    assert_eq!(
        lent,
        TokenTransfer { direction: TransferDirection::OutOfPool, holder: user, amount: 400 }
    );

    let taken = liquidate(&mut loan, liquidator, vec![0x03]).unwrap();
    assert!(loan.liquidated);
    assert_eq!(loan.liquidation_proof, sealed(2, &[0x03]));
    assert_eq!(
        taken,
        TokenTransfer { direction: TransferDirection::OutOfPool, holder: liquidator, amount: 1000 }
    );

    let before = loan.clone();
    assert_eq!(
        borrow(&mut pool, &mut loan, user, 1, vec![0x02]),
        Err(ErrorCode::PositionLiquidated)
    );
    assert_eq!(loan, before);
    assert_eq!(pool.total_borrowed, 400);
}

#[test]
fn deposits_add_up_in_the_pool() {
    let mut pool = initialize_pool(key(9), 255);
    open_loan(&mut pool, key(1), 1000);
    assert_eq!(pool.total_deposits, 1000);
    open_loan(&mut pool, key(2), 250);
    assert_eq!(pool.total_deposits, 1250);
    open_loan(&mut pool, key(3), 1);
    assert_eq!(pool.total_deposits, 1251);
    assert_eq!(pool.total_borrowed, 0);
}

#[test]
fn deposit_of_nothing_is_an_invalid_amount() {
    let mut pool = initialize_pool(key(9), 255);
    open_loan(&mut pool, key(1), 10);
    let before = pool;
    assert_eq!(deposit(&mut pool, key(2), 0, vec![0x01], 5), Err(ErrorCode::InvalidAmount));
    assert_eq!(pool, before);
    assert_eq!(deposit(&mut pool, key(2), 0, vec![], 5), Err(ErrorCode::InvalidAmount));
    assert_eq!(pool, before);
}

#[test]
fn deposit_without_proof_is_an_invalid_proof() {
    let mut pool = initialize_pool(key(9), 255);
    let before = pool;
    assert_eq!(deposit(&mut pool, key(2), 5, vec![], 5), Err(ErrorCode::InvalidProof));
    assert_eq!(pool, before);
}

#[test]
fn deposit_that_overflows_the_pool_is_refused() {
    let mut pool = initialize_pool(key(9), 255);
    open_loan(&mut pool, key(1), u64::MAX - 1);
    open_loan(&mut pool, key(2), 1);
    assert_eq!(pool.total_deposits, u64::MAX);
    let before = pool;
    assert_eq!(deposit(&mut pool, key(3), 1, vec![0x01], 5), Err(ErrorCode::ArithmeticOverflow));
    assert_eq!(pool, before);
}

#[test]
fn borrow_is_for_the_owner_only() {
    let mut pool = initialize_pool(key(9), 255);
    let mut loan = open_loan(&mut pool, key(1), 1000);
    let before = loan.clone();
    assert_eq!(
        borrow(&mut pool, &mut loan, key(2), 10, vec![0x02]),
        Err(ErrorCode::Unauthorized)
    );
    assert_eq!(loan, before);
    assert_eq!(pool.total_borrowed, 0);
    assert!(borrow(&mut pool, &mut loan, key(1), 10, vec![0x02]).is_ok());
}

#[test]
fn borrow_checks_amount_then_proof() {
    let mut pool = initialize_pool(key(9), 255);
    let mut loan = open_loan(&mut pool, key(1), 1000);
    assert_eq!(borrow(&mut pool, &mut loan, key(1), 0, vec![]), Err(ErrorCode::InvalidAmount));
    assert_eq!(borrow(&mut pool, &mut loan, key(1), 0, vec![2]), Err(ErrorCode::InvalidAmount));
    assert_eq!(borrow(&mut pool, &mut loan, key(1), 5, vec![]), Err(ErrorCode::InvalidProof));
    assert_eq!(loan.borrowed, 0);
    assert_eq!(pool.total_borrowed, 0);
}

#[test]
fn borrow_may_repeat_and_is_not_bounded_by_collateral() {
    let mut pool = initialize_pool(key(9), 255);
    let mut loan = open_loan(&mut pool, key(1), 100);
    borrow(&mut pool, &mut loan, key(1), 400, vec![0x02]).unwrap();
    borrow(&mut pool, &mut loan, key(1), 600, vec![0x04, 0x05]).unwrap();
    assert_eq!(loan.borrowed, 1000);
    assert_eq!(loan.ltv_proof, sealed(1, &[0x04, 0x05]));
    assert_eq!(loan.collateral_amount, 100);
    assert_eq!(pool.total_borrowed, 1000);
}

#[test]
fn borrow_that_overflows_is_refused_whole() {
    let mut pool = initialize_pool(key(9), 255);
    let mut first = open_loan(&mut pool, key(1), 100);
    let mut second = open_loan(&mut pool, key(2), 100);
    borrow(&mut pool, &mut first, key(1), u64::MAX - 5, vec![0x02]).unwrap();

    let before = first.clone();
    assert_eq!(
        borrow(&mut pool, &mut first, key(1), 6, vec![0x02]),
        Err(ErrorCode::ArithmeticOverflow)
    );
    assert_eq!(first, before);

    let untouched = second.clone();
    assert_eq!(
        borrow(&mut pool, &mut second, key(2), 6, vec![0x02]),
        Err(ErrorCode::ArithmeticOverflow)
    );
    assert_eq!(second, untouched);
    assert_eq!(pool.total_borrowed, u64::MAX - 5);

    borrow(&mut pool, &mut second, key(2), 5, vec![0x02]).unwrap();
    assert_eq!(pool.total_borrowed, u64::MAX);
    assert_eq!(second.borrowed, 5);
}

#[test]
fn liquidate_needs_a_proof() {
    let mut pool = initialize_pool(key(9), 255);
    let mut loan = open_loan(&mut pool, key(1), 100);
    let before = loan.clone();
    assert_eq!(liquidate(&mut loan, key(2), vec![]), Err(ErrorCode::InvalidProof));
    assert_eq!(loan, before);
}

#[test]
fn liquidated_loan_is_terminal() {
    let mut pool = initialize_pool(key(9), 255);
    let mut loan = open_loan(&mut pool, key(1), 100);
    borrow(&mut pool, &mut loan, key(1), 30, vec![0x02]).unwrap();
    liquidate(&mut loan, key(2), vec![0x03]).unwrap();
    let closed = loan.clone();
    let pool_before = pool;

    assert_eq!(liquidate(&mut loan, key(3), vec![0x04]), Err(ErrorCode::PositionLiquidated));
    assert_eq!(liquidate(&mut loan, key(2), vec![]), Err(ErrorCode::InvalidProof));
    assert_eq!(
        borrow(&mut pool, &mut loan, key(1), 1, vec![0x02]),
        Err(ErrorCode::PositionLiquidated)
    );
    assert_eq!(borrow(&mut pool, &mut loan, key(2), 1, vec![0x02]), Err(ErrorCode::Unauthorized));
    assert_eq!(loan, closed);
    assert!(loan.liquidated);
    assert_eq!(loan.borrowed, 30);
    assert_eq!(pool, pool_before);
}
