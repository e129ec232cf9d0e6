use crate::errors::ErrorCode;
use crate::identity::{default_key, key_bytes, zero_key_bytes};
use crate::lending::{liquidate_rejection, loan_after_liquidation};
use crate::state::{
    EncryptedBid, EncryptedBidView, LiquidationAuction, TokenTransfer, TransferDirection, UserLoan,
    UserLoanView,
};
use anchor_lang::prelude::Pubkey;
use vstd::prelude::*;

verus! {

/// The first instant at which bids are no longer taken and settlement is
/// open: the start time plus the duration, as a mathematical integer.
pub open spec fn auction_end(auction: LiquidationAuction) -> int {
    auction.start_time + auction.duration
}

/// Whether `auction` is the auction that a start with these terms opens over
/// the position of `position_owner`: unsettled, with the all-zero address in
/// the winner's place.
pub open spec fn is_opened_auction(
    auction: LiquidationAuction,
    position_owner: Pubkey,
    auction_id: u64,
    collateral_amount: u64,
    minimum_bid: u64,
    duration: u64,
    bump: u8,
    now: i64,
) -> bool {
    &&& auction.position_owner == position_owner
    &&& auction.auction_id == auction_id
    &&& auction.collateral_amount == collateral_amount
    &&& auction.minimum_bid == minimum_bid
    &&& auction.start_time == now
    &&& auction.duration == duration
    &&& !auction.settled
    &&& key_bytes(auction.winning_bidder) == zero_key_bytes()
    &&& auction.winning_bid == 0
    &&& auction.bump == bump
}

/// Why the start of an auction is refused, or `None` where it is accepted.
pub open spec fn start_rejection(loan: UserLoanView) -> Option<ErrorCode> {
    if loan.liquidated {
        Some(ErrorCode::PositionLiquidated)
    } else {
        None
    }
}

/// Why a bid is refused, or `None` where it is accepted.
pub open spec fn bid_rejection(
    auction: LiquidationAuction,
    encrypted_bid: Seq<u8>,
    bid_proof: Seq<u8>,
    now: i64,
) -> Option<ErrorCode> {
    if encrypted_bid.len() == 0 || bid_proof.len() == 0 {
        Some(ErrorCode::InvalidProof)
    } else if auction.settled {
        Some(ErrorCode::AuctionSettled)
    } else if auction_end(auction) > i64::MAX {
        Some(ErrorCode::ArithmeticOverflow)
    } else if now >= auction_end(auction) {
        Some(ErrorCode::AuctionExpired)
    } else {
        None
    }
}

/// Why a settlement is refused, or `None` where it is accepted.
pub open spec fn settle_rejection(auction: LiquidationAuction, now: i64) -> Option<ErrorCode> {
    if auction.settled {
        Some(ErrorCode::AuctionSettled)
    } else if auction_end(auction) > i64::MAX {
        Some(ErrorCode::ArithmeticOverflow)
    } else if now < auction_end(auction) {
        Some(ErrorCode::AuctionNotExpired)
    } else {
        None
    }
}

/// The auction once an accepted settlement has been recorded.
pub open spec fn auction_after_settlement(
    auction: LiquidationAuction,
    winner: Pubkey,
    winning_bid_amount: u64,
) -> LiquidationAuction {
    LiquidationAuction {
        winning_bidder: winner,
        winning_bid: winning_bid_amount,
        settled: true,
        ..auction
    }
}

/// Opens an auction over the position of an active loan, starting at `now`.
pub fn start_liquidation_auction(
    user_loan: &UserLoan,
    auction_id: u64,
    collateral_amount: u64,
    minimum_bid: u64,
    duration: u64,
    bump: u8,
    now: i64,
) -> (result: Result<LiquidationAuction, ErrorCode>)
    ensures
        match result {
            Ok(auction) => {
                &&& start_rejection(user_loan@) is None
                &&& is_opened_auction(
                    auction,
                    user_loan.owner,
                    auction_id,
                    collateral_amount,
                    minimum_bid,
                    duration,
                    bump,
                    now,
                )
            },
            Err(error) => start_rejection(user_loan@) == Some(error),
        },
{
    if user_loan.liquidated {
        return Err(ErrorCode::PositionLiquidated);
    }
    Ok(
        LiquidationAuction {
            position_owner: user_loan.owner,
            auction_id,
            collateral_amount,
            minimum_bid,
            start_time: now,
            duration,
            settled: false,
            winning_bidder: default_key(),
            winning_bid: 0,
            bump,
        },
    )
}

/// Records a sealed bid while the auction is open. The bid is stored as it
/// came: bids are never opened, compared or ranked here.
pub fn submit_encrypted_bid(
    auction: &LiquidationAuction,
    bidder: Pubkey,
    auction_id: u64,
    encrypted_bid: Vec<u8>,
    bid_proof: Vec<u8>,
    now: i64,
) -> (result: Result<EncryptedBid, ErrorCode>)
    ensures
        match result {
            Ok(bid) => {
                &&& bid_rejection(*auction, encrypted_bid@, bid_proof@, now) is None
                &&& bid@ == (EncryptedBidView {
                    bidder,
                    auction_id,
                    encrypted_bid: encrypted_bid@,
                    bid_proof: bid_proof@,
                    timestamp: now,
                })
            },
            Err(error) => bid_rejection(*auction, encrypted_bid@, bid_proof@, now) == Some(error),
        },
{
    if encrypted_bid.len() == 0 {
        return Err(ErrorCode::InvalidProof);
    }
    if bid_proof.len() == 0 {
        return Err(ErrorCode::InvalidProof);
    }
    if auction.settled {
        return Err(ErrorCode::AuctionSettled);
    }
    let end: i64 = match auction.start_time.checked_add_unsigned(auction.duration) {
        Some(end) => end,
        None => {
            return Err(ErrorCode::ArithmeticOverflow);
        },
    };
    if now >= end {
        return Err(ErrorCode::AuctionExpired);
    }
    Ok(EncryptedBid { bidder, auction_id, encrypted_bid, bid_proof, timestamp: now })
}

/// Settles an expired auction in favour of `winner`. The winner and the
/// amount are taken on the caller's word: nothing ties them to a stored bid.
/// The returned transfer moves the collateral from the pool's custody into
/// the winner's.
pub fn settle_auction(
    auction: &mut LiquidationAuction,
    winner: Pubkey,
    winning_bid_amount: u64,
    now: i64,
) -> (result: Result<TokenTransfer, ErrorCode>)
    ensures
        match result {
            Ok(transfer) => {
                &&& settle_rejection(*old(auction), now) is None
                &&& *final(auction) == auction_after_settlement(
                    *old(auction),
                    winner,
                    winning_bid_amount,
                )
                &&& transfer == (TokenTransfer {
                    direction: TransferDirection::OutOfPool,
                    holder: winner,
                    amount: old(auction).collateral_amount,
                })
            },
            Err(error) => {
                &&& settle_rejection(*old(auction), now) == Some(error)
                &&& *final(auction) == *old(auction)
            },
        },
{
    if auction.settled {
        return Err(ErrorCode::AuctionSettled);
    }
    let end: i64 = match auction.start_time.checked_add_unsigned(auction.duration) {
        Some(end) => end,
        None => {
            return Err(ErrorCode::ArithmeticOverflow);
        },
    };
    if now < end {
        return Err(ErrorCode::AuctionNotExpired);
    }
    auction.winning_bidder = winner;
    auction.winning_bid = winning_bid_amount;
    auction.settled = true;
    Ok(
        TokenTransfer {
            direction: TransferDirection::OutOfPool,
            holder: winner,
            amount: auction.collateral_amount,
        },
    )
}

/// While an unsettled auction's end fits the clock, a bid with both blobs
/// present is accepted at every instant before the end and refused as
/// expired at the end and at every instant after it.
pub proof fn bids_taken_exactly_before_end(
    auction: LiquidationAuction,
    encrypted_bid: Seq<u8>,
    bid_proof: Seq<u8>,
    now: i64,
)
    requires
        encrypted_bid.len() > 0,
        bid_proof.len() > 0,
        !auction.settled,
        auction_end(auction) <= i64::MAX,
    ensures
        now < auction_end(auction) ==> bid_rejection(auction, encrypted_bid, bid_proof, now)
            is None,
        now >= auction_end(auction) ==> bid_rejection(auction, encrypted_bid, bid_proof, now)
            == Some(ErrorCode::AuctionExpired),
        now == auction_end(auction) - 1 ==> bid_rejection(auction, encrypted_bid, bid_proof, now)
            is None,
        now == auction_end(auction) ==> bid_rejection(auction, encrypted_bid, bid_proof, now)
            == Some(ErrorCode::AuctionExpired),
{
}

/// While an unsettled auction's end fits the clock, settlement is refused as
/// too early at every instant before the end, the last one included, and
/// accepted from the end on.
pub proof fn settlement_opens_exactly_at_end(auction: LiquidationAuction, now: i64)
    requires
        !auction.settled,
        auction_end(auction) <= i64::MAX,
    ensures
        now < auction_end(auction) ==> settle_rejection(auction, now) == Some(
            ErrorCode::AuctionNotExpired,
        ),
        now >= auction_end(auction) ==> settle_rejection(auction, now) is None,
        now == auction_end(auction) - 1 ==> settle_rejection(auction, now) == Some(
            ErrorCode::AuctionNotExpired,
        ),
        now == auction_end(auction) ==> settle_rejection(auction, now) is None,
{
}

/// Settlement happens once: after an accepted settlement the auction keeps
/// its terms, is settled for good, and refuses every further settlement as
/// already settled and every further bid.
pub proof fn settlement_is_final(
    auction: LiquidationAuction,
    winner: Pubkey,
    winning_bid_amount: u64,
    now: i64,
    encrypted_bid: Seq<u8>,
    bid_proof: Seq<u8>,
    later: i64,
)
    requires
        settle_rejection(auction, now) is None,
    ensures
        ({
            let settled = auction_after_settlement(auction, winner, winning_bid_amount);
            &&& settled.settled
            &&& settled.winning_bidder == winner
            &&& settled.winning_bid == winning_bid_amount
            &&& settled.collateral_amount == auction.collateral_amount
            &&& auction_end(settled) == auction_end(auction)
            &&& settle_rejection(settled, later) == Some(ErrorCode::AuctionSettled)
            &&& bid_rejection(settled, encrypted_bid, bid_proof, later) is Some
            &&& encrypted_bid.len() > 0 && bid_proof.len() > 0 ==> bid_rejection(
                settled,
                encrypted_bid,
                bid_proof,
                later,
            ) == Some(ErrorCode::AuctionSettled)
        }),
{
}

/// One attempt to settle an auction: by anyone, at any time, in favour of
/// any winner.
pub struct SettleAttempt {
    pub winner: Pubkey,
    pub winning_bid_amount: u64,
    pub now: i64,
}

/// The auction after one attempt to settle it, accepted or refused.
pub open spec fn after_settle_attempt(auction: LiquidationAuction, attempt: SettleAttempt)
    -> LiquidationAuction {
    if settle_rejection(auction, attempt.now) is None {
        auction_after_settlement(auction, attempt.winner, attempt.winning_bid_amount)
    } else {
        auction
    }
}

/// The auction after a run of attempts to settle it, taken in order.
pub open spec fn after_settle_attempts(auction: LiquidationAuction, attempts: Seq<SettleAttempt>)
    -> LiquidationAuction
    decreases attempts.len(),
{
    if attempts.len() == 0 {
        auction
    } else {
        after_settle_attempts(
            after_settle_attempt(auction, attempts.first()),
            attempts.drop_first(),
        )
    }
}

/// How many attempts of a run are accepted.
pub open spec fn accepted_settlements(auction: LiquidationAuction, attempts: Seq<SettleAttempt>)
    -> nat
    decreases attempts.len(),
{
    if attempts.len() == 0 {
        0
    } else {
        let accepted: nat = if settle_rejection(auction, attempts.first().now) is None {
            1
        } else {
            0
        };
        accepted + accepted_settlements(
            after_settle_attempt(auction, attempts.first()),
            attempts.drop_first(),
        )
    }
}

/// Whatever is attempted on a settled auction, and however often, nothing
/// is accepted and the auction does not change: the winner and the winning
/// bid stand.
pub proof fn settled_auction_never_changes(
    auction: LiquidationAuction,
    attempts: Seq<SettleAttempt>,
)
    requires
        auction.settled,
    ensures
        after_settle_attempts(auction, attempts) == auction,
        accepted_settlements(auction, attempts) == 0,
    decreases attempts.len(),
{
    if attempts.len() > 0 {
        settled_auction_never_changes(auction, attempts.drop_first());
    }
}

/// In every run of attempts at most one is accepted, the terms of the
/// auction stay as they were, and the auction ends up settled exactly when
/// it was settled before or one attempt was accepted.
pub proof fn at_most_one_settlement(auction: LiquidationAuction, attempts: Seq<SettleAttempt>)
    ensures
        accepted_settlements(auction, attempts) <= 1,
        ({
            let last = after_settle_attempts(auction, attempts);
            &&& last.settled == (auction.settled || accepted_settlements(auction, attempts) == 1)
            &&& last.position_owner == auction.position_owner
            &&& last.auction_id == auction.auction_id
            &&& last.collateral_amount == auction.collateral_amount
            &&& last.minimum_bid == auction.minimum_bid
            &&& last.start_time == auction.start_time
            &&& last.duration == auction.duration
        }),
    decreases attempts.len(),
{
    if attempts.len() > 0 {
        let next = after_settle_attempt(auction, attempts.first());
        if next.settled {
            settled_auction_never_changes(next, attempts.drop_first());
        } else {
            at_most_one_settlement(next, attempts.drop_first());
        }
    }
}

/// No auction is opened over a liquidated position: neither over a loan that
/// is liquidated, nor over one as an accepted liquidation leaves it.
pub proof fn no_auction_over_liquidated_loan(
    loan: UserLoanView,
    liquidator: Pubkey,
    liquidation_proof: Seq<u8>,
)
    ensures
        loan.liquidated ==> start_rejection(loan) == Some(ErrorCode::PositionLiquidated),
        liquidate_rejection(loan, liquidation_proof) is None ==> start_rejection(
            loan_after_liquidation(loan, liquidator, liquidation_proof),
        ) == Some(ErrorCode::PositionLiquidated),
{
}

} // verus!
