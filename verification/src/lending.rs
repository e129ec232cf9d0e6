use crate::errors::ErrorCode;
use crate::identity::{encrypt_proof, key_bytes, same_key};
use crate::state::{Pool, TokenTransfer, TransferDirection, UserLoan, UserLoanView};
use anchor_lang::prelude::Pubkey;
use vstd::prelude::*;

verus! {

/// Why a deposit is refused, or `None` where it is accepted.
pub open spec fn deposit_rejection(pool: Pool, amount: u64, proof_data: Seq<u8>) -> Option<
    ErrorCode,
> {
    if amount == 0 {
        Some(ErrorCode::InvalidAmount)
    } else if proof_data.len() == 0 {
        Some(ErrorCode::InvalidProof)
    } else if pool.total_deposits + amount > u64::MAX {
        Some(ErrorCode::ArithmeticOverflow)
    } else {
        None
    }
}

/// The pool once an accepted deposit of `amount` has been counted.
pub open spec fn pool_after_deposit(pool: Pool, amount: u64) -> Pool {
    Pool { total_deposits: (pool.total_deposits + amount) as u64, ..pool }
}

/// The loan that an accepted deposit opens: active, nothing borrowed, the
/// collateral proof stored under the depositor's address.
pub open spec fn opened_loan(user: Pubkey, amount: u64, proof_data: Seq<u8>, now: i64)
    -> UserLoanView {
    UserLoanView {
        owner: user,
        collateral_amount: amount,
        collateral_encrypted: key_bytes(user) + proof_data,
        borrowed: 0,
        ltv_proof: Seq::empty(),
        liquidation_proof: Seq::empty(),
        liquidated: false,
        deposit_timestamp: now,
    }
}

/// Why a borrow is refused, or `None` where it is accepted.
pub open spec fn borrow_rejection(
    pool: Pool,
    loan: UserLoanView,
    user: Pubkey,
    amount: u64,
    ltv_proof: Seq<u8>,
) -> Option<ErrorCode> {
    if key_bytes(user) != key_bytes(loan.owner) {
        Some(ErrorCode::Unauthorized)
    } else if amount == 0 {
        Some(ErrorCode::InvalidAmount)
    } else if ltv_proof.len() == 0 {
        Some(ErrorCode::InvalidProof)
    } else if loan.liquidated {
        Some(ErrorCode::PositionLiquidated)
    } else if loan.borrowed + amount > u64::MAX || pool.total_borrowed + amount > u64::MAX {
        Some(ErrorCode::ArithmeticOverflow)
    } else {
        None
    }
}

/// The pool once an accepted borrow of `amount` has been counted.
pub open spec fn pool_after_borrow(pool: Pool, amount: u64) -> Pool {
    Pool { total_borrowed: (pool.total_borrowed + amount) as u64, ..pool }
}

/// The loan once an accepted borrow has been recorded: the debt grows by
/// `amount` and the new loan-to-value proof replaces the one before.
pub open spec fn loan_after_borrow(
    loan: UserLoanView,
    user: Pubkey,
    amount: u64,
    ltv_proof: Seq<u8>,
) -> UserLoanView {
    UserLoanView {
        borrowed: (loan.borrowed + amount) as u64,
        ltv_proof: key_bytes(user) + ltv_proof,
        ..loan
    }
}

/// Why a liquidation is refused, or `None` where it is accepted.
pub open spec fn liquidate_rejection(loan: UserLoanView, liquidation_proof: Seq<u8>) -> Option<
    ErrorCode,
> {
    if liquidation_proof.len() == 0 {
        Some(ErrorCode::InvalidProof)
    } else if loan.liquidated {
        Some(ErrorCode::PositionLiquidated)
    } else {
        None
    }
}

/// The loan once an accepted liquidation has been recorded.
pub open spec fn loan_after_liquidation(
    loan: UserLoanView,
    liquidator: Pubkey,
    liquidation_proof: Seq<u8>,
) -> UserLoanView {
    UserLoanView {
        liquidation_proof: key_bytes(liquidator) + liquidation_proof,
        liquidated: true,
        ..loan
    }
}

/// Creates the pool, empty, under the authority that asked for it.
pub fn initialize_pool(authority: Pubkey, bump: u8) -> (pool: Pool)
    ensures
        pool == (Pool { authority, bump, total_deposits: 0, total_borrowed: 0 }),
{
    Pool { authority, bump, total_deposits: 0, total_borrowed: 0 }
}

/// Opens a loan for `user` against `amount` of collateral and counts the
/// amount into the pool. The returned transfer moves the collateral from the
/// user's custody into the pool's.
pub fn deposit(pool: &mut Pool, user: Pubkey, amount: u64, proof_data: Vec<u8>, now: i64) -> (result:
    Result<(UserLoan, TokenTransfer), ErrorCode>)
    ensures
        match result {
            Ok((loan, transfer)) => {
                &&& deposit_rejection(*old(pool), amount, proof_data@) is None
                &&& *final(pool) == pool_after_deposit(*old(pool), amount)
                &&& loan@ == opened_loan(user, amount, proof_data@, now)
                &&& transfer == (TokenTransfer {
                    direction: TransferDirection::IntoPool,
                    holder: user,
                    amount,
                })
            },
            Err(error) => {
                &&& deposit_rejection(*old(pool), amount, proof_data@) == Some(error)
                &&& *final(pool) == *old(pool)
            },
        },
        result is Ok ==> final(pool).total_deposits == old(pool).total_deposits + amount,
        amount == 0 ==> result is Err && result->Err_0 == ErrorCode::InvalidAmount,
{
    if amount == 0 {
        return Err(ErrorCode::InvalidAmount);
    }
    if proof_data.len() == 0 {
        return Err(ErrorCode::InvalidProof);
    }
    let total_deposits: u64 = match pool.total_deposits.checked_add(amount) {
        Some(total) => total,
        None => {
            return Err(ErrorCode::ArithmeticOverflow);
        },
    };
    let loan = UserLoan {
        owner: user,
        collateral_amount: amount,
        collateral_encrypted: encrypt_proof(proof_data.as_slice(), &user),
        borrowed: 0,
        ltv_proof: Vec::new(),
        liquidation_proof: Vec::new(),
        liquidated: false,
        deposit_timestamp: now,
    };
    pool.total_deposits = total_deposits;
    Ok((loan, TokenTransfer { direction: TransferDirection::IntoPool, holder: user, amount }))
}

/// Lends `borrow_amount` to the owner of an active loan. The returned
/// transfer moves the amount from the pool's custody into the user's.
///
/// The loan-to-value proof is stored, not evaluated: no ceiling ties the debt
/// to the collateral.
pub fn borrow(
    pool: &mut Pool,
    user_loan: &mut UserLoan,
    user: Pubkey,
    borrow_amount: u64,
    ltv_proof: Vec<u8>,
) -> (result: Result<TokenTransfer, ErrorCode>)
    ensures
        match result {
            Ok(transfer) => {
                &&& borrow_rejection(*old(pool), old(user_loan)@, user, borrow_amount, ltv_proof@)
                    is None
                &&& *final(pool) == pool_after_borrow(*old(pool), borrow_amount)
                &&& final(user_loan)@ == loan_after_borrow(
                    old(user_loan)@,
                    user,
                    borrow_amount,
                    ltv_proof@,
                )
                &&& transfer == (TokenTransfer {
                    direction: TransferDirection::OutOfPool,
                    holder: user,
                    amount: borrow_amount,
                })
            },
            Err(error) => {
                &&& borrow_rejection(*old(pool), old(user_loan)@, user, borrow_amount, ltv_proof@)
                    == Some(error)
                &&& *final(pool) == *old(pool)
                &&& *final(user_loan) == *old(user_loan)
            },
        },
        old(user_loan).liquidated ==> result is Err,
{
    if !same_key(&user, &user_loan.owner) {
        return Err(ErrorCode::Unauthorized);
    }
    if borrow_amount == 0 {
        return Err(ErrorCode::InvalidAmount);
    }
    if ltv_proof.len() == 0 {
        return Err(ErrorCode::InvalidProof);
    }
    if user_loan.liquidated {
        return Err(ErrorCode::PositionLiquidated);
    }
    let borrowed: u64 = match user_loan.borrowed.checked_add(borrow_amount) {
        Some(total) => total,
        None => {
            return Err(ErrorCode::ArithmeticOverflow);
        },
    };
    let total_borrowed: u64 = match pool.total_borrowed.checked_add(borrow_amount) {
        Some(total) => total,
        None => {
            return Err(ErrorCode::ArithmeticOverflow);
        },
    };
    user_loan.borrowed = borrowed;
    user_loan.ltv_proof = encrypt_proof(ltv_proof.as_slice(), &user);
    pool.total_borrowed = total_borrowed;
    Ok(TokenTransfer { direction: TransferDirection::OutOfPool, holder: user, amount: borrow_amount })
}

/// Liquidates an active loan on behalf of any liquidator. The proof and the
/// flag are recorded first; the returned transfer then moves the whole
/// collateral from the pool's custody into the liquidator's.
pub fn liquidate(user_loan: &mut UserLoan, liquidator: Pubkey, liquidation_proof: Vec<u8>) -> (result:
    Result<TokenTransfer, ErrorCode>)
    ensures
        match result {
            Ok(transfer) => {
                &&& liquidate_rejection(old(user_loan)@, liquidation_proof@) is None
                &&& final(user_loan)@ == loan_after_liquidation(
                    old(user_loan)@,
                    liquidator,
                    liquidation_proof@,
                )
                &&& transfer == (TokenTransfer {
                    direction: TransferDirection::OutOfPool,
                    holder: liquidator,
                    amount: old(user_loan).collateral_amount,
                })
            },
            Err(error) => {
                &&& liquidate_rejection(old(user_loan)@, liquidation_proof@) == Some(error)
                &&& *final(user_loan) == *old(user_loan)
            },
        },
        old(user_loan).liquidated ==> result is Err,
{
    if liquidation_proof.len() == 0 {
        return Err(ErrorCode::InvalidProof);
    }
    if user_loan.liquidated {
        return Err(ErrorCode::PositionLiquidated);
    }
    user_loan.liquidation_proof = encrypt_proof(liquidation_proof.as_slice(), &liquidator);
    user_loan.liquidated = true;
    Ok(
        TokenTransfer {
            direction: TransferDirection::OutOfPool,
            holder: liquidator,
            amount: user_loan.collateral_amount,
        },
    )
}

/// An accepted deposit is counted into the pool's deposits exactly once and
/// touches nothing else in the pool; a deposit of nothing is always refused
/// as an invalid amount.
pub proof fn deposit_counts_amount_once(pool: Pool, amount: u64, proof_data: Seq<u8>)
    ensures
        deposit_rejection(pool, amount, proof_data) is None ==> {
            &&& amount > 0
            &&& pool_after_deposit(pool, amount).total_deposits == pool.total_deposits + amount
            &&& pool_after_deposit(pool, amount).total_borrowed == pool.total_borrowed
            &&& pool_after_deposit(pool, amount).authority == pool.authority
            &&& pool_after_deposit(pool, amount).bump == pool.bump
        },
        amount == 0 ==> deposit_rejection(pool, amount, proof_data) == Some(
            ErrorCode::InvalidAmount,
        ),
{
}

/// An accepted borrow adds the amount to the loan's debt and to the pool's
/// lendings, and leaves the loan active with its collateral as it was.
pub proof fn borrow_counts_amount_once(
    pool: Pool,
    loan: UserLoanView,
    user: Pubkey,
    amount: u64,
    ltv_proof: Seq<u8>,
)
    requires
        borrow_rejection(pool, loan, user, amount, ltv_proof) is None,
    ensures
        amount > 0,
        loan_after_borrow(loan, user, amount, ltv_proof).borrowed == loan.borrowed + amount,
        loan_after_borrow(loan, user, amount, ltv_proof).collateral_amount
            == loan.collateral_amount,
        !loan_after_borrow(loan, user, amount, ltv_proof).liquidated,
        pool_after_borrow(pool, amount).total_borrowed == pool.total_borrowed + amount,
        pool_after_borrow(pool, amount).total_deposits == pool.total_deposits,
{
}

/// The pool's two totals never go down: not by an accepted deposit, not by
/// an accepted borrow.
pub proof fn pool_totals_never_decrease(
    pool: Pool,
    loan: UserLoanView,
    user: Pubkey,
    amount: u64,
    blob: Seq<u8>,
)
    ensures
        deposit_rejection(pool, amount, blob) is None ==> {
            &&& pool_after_deposit(pool, amount).total_deposits > pool.total_deposits
            &&& pool_after_deposit(pool, amount).total_borrowed == pool.total_borrowed
        },
        borrow_rejection(pool, loan, user, amount, blob) is None ==> {
            &&& pool_after_borrow(pool, amount).total_borrowed > pool.total_borrowed
            &&& pool_after_borrow(pool, amount).total_deposits == pool.total_deposits
        },
{
}

/// A liquidated loan is terminal: every borrow against it and every
/// liquidation of it is refused, and where nothing else is wrong with the
/// request the reason given is that the position is liquidated.
pub proof fn liquidated_loan_refuses_all(
    pool: Pool,
    loan: UserLoanView,
    user: Pubkey,
    amount: u64,
    ltv_proof: Seq<u8>,
    liquidation_proof: Seq<u8>,
)
    requires
        loan.liquidated,
    ensures
        borrow_rejection(pool, loan, user, amount, ltv_proof) is Some,
        liquidate_rejection(loan, liquidation_proof) is Some,
        key_bytes(user) == key_bytes(loan.owner) && amount > 0 && ltv_proof.len() > 0
            ==> borrow_rejection(pool, loan, user, amount, ltv_proof) == Some(
            ErrorCode::PositionLiquidated,
        ),
        liquidation_proof.len() > 0 ==> liquidate_rejection(loan, liquidation_proof) == Some(
            ErrorCode::PositionLiquidated,
        ),
{
}

/// An accepted liquidation leaves the loan liquidated, with its collateral
/// and its debt as they were; from then on every borrow and every
/// liquidation is refused.
pub proof fn liquidation_is_final(
    pool: Pool,
    loan: UserLoanView,
    liquidator: Pubkey,
    liquidation_proof: Seq<u8>,
    user: Pubkey,
    amount: u64,
    ltv_proof: Seq<u8>,
    next_proof: Seq<u8>,
)
    requires
        liquidate_rejection(loan, liquidation_proof) is None,
    ensures
        ({
            let closed = loan_after_liquidation(loan, liquidator, liquidation_proof);
            &&& closed.liquidated
            &&& closed.owner == loan.owner
            &&& closed.collateral_amount == loan.collateral_amount
            &&& closed.borrowed == loan.borrowed
            &&& borrow_rejection(pool, closed, user, amount, ltv_proof) is Some
            &&& liquidate_rejection(closed, next_proof) is Some
        }),
{
}

/// One request against a loan: a borrow or a liquidation, by anyone, with
/// any arguments.
pub enum LoanRequest {
    Borrow { user: Pubkey, amount: u64, ltv_proof: Seq<u8> },
    Liquidate { liquidator: Pubkey, liquidation_proof: Seq<u8> },
}

/// The pool and the loan after one request, accepted or refused.
pub open spec fn after_loan_request(pool: Pool, loan: UserLoanView, request: LoanRequest) -> (
    Pool,
    UserLoanView,
) {
    match request {
        LoanRequest::Borrow { user, amount, ltv_proof } => {
            if borrow_rejection(pool, loan, user, amount, ltv_proof) is None {
                (pool_after_borrow(pool, amount), loan_after_borrow(loan, user, amount, ltv_proof))
            } else {
                (pool, loan)
            }
        },
        LoanRequest::Liquidate { liquidator, liquidation_proof } => {
            if liquidate_rejection(loan, liquidation_proof) is None {
                (pool, loan_after_liquidation(loan, liquidator, liquidation_proof))
            } else {
                (pool, loan)
            }
        },
    }
}

/// The pool and the loan after a run of requests, taken in order.
pub open spec fn after_loan_requests(pool: Pool, loan: UserLoanView, requests: Seq<LoanRequest>)
    -> (Pool, UserLoanView)
    decreases requests.len(),
{
    if requests.len() == 0 {
        (pool, loan)
    } else {
        let (next_pool, next_loan) = after_loan_request(pool, loan, requests.first());
        after_loan_requests(next_pool, next_loan, requests.drop_first())
    }
}

/// Whatever is asked of a liquidated loan, and however often, neither the
/// loan nor the pool changes.
pub proof fn liquidated_loan_never_changes(
    pool: Pool,
    loan: UserLoanView,
    requests: Seq<LoanRequest>,
)
    requires
        loan.liquidated,
    ensures
        after_loan_requests(pool, loan, requests) == (pool, loan),
    decreases requests.len(),
{
    if requests.len() > 0 {
        liquidated_loan_never_changes(pool, loan, requests.drop_first());
    }
}

/// Through every run of requests the loan keeps its owner, its collateral
/// and its opening time, its debt and the pool's lendings never go down, the
/// pool's deposits stay as they are, and a loan that is liquidated stays so.
pub proof fn loan_run_only_moves_forward(
    pool: Pool,
    loan: UserLoanView,
    requests: Seq<LoanRequest>,
)
    ensures
        ({
            let (last_pool, last_loan) = after_loan_requests(pool, loan, requests);
            &&& last_loan.owner == loan.owner
            &&& last_loan.collateral_amount == loan.collateral_amount
            &&& last_loan.collateral_encrypted == loan.collateral_encrypted
            &&& last_loan.deposit_timestamp == loan.deposit_timestamp
            &&& last_loan.borrowed >= loan.borrowed
            &&& loan.liquidated ==> last_loan.liquidated
            &&& last_pool.total_borrowed >= pool.total_borrowed
            &&& last_pool.total_borrowed - pool.total_borrowed == last_loan.borrowed
                - loan.borrowed
            &&& last_pool.total_deposits == pool.total_deposits
            &&& last_pool.authority == pool.authority
        }),
    decreases requests.len(),
{
    if requests.len() > 0 {
        let (next_pool, next_loan) = after_loan_request(pool, loan, requests.first());
        loan_run_only_moves_forward(next_pool, next_loan, requests.drop_first());
    }
}

} // verus!
