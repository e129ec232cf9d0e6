use vstd::prelude::*;

verus! {

/// Why an operation was refused. A refused operation changes no record.
#[derive(Clone, Copy, Debug, PartialEq, Eq, Structural)]
pub enum ErrorCode {
    /// An amount of zero was offered.
    InvalidAmount,
    /// A blob that must be present was empty.
    InvalidProof,
    /// The loan has been liquidated and accepts nothing further.
    PositionLiquidated,
    /// The caller is not the stored authority or owner of the record.
    Unauthorized,
    /// The auction has been settled and accepts nothing further.
    AuctionSettled,
    /// A bid arrived at or after the end of the bidding window.
    AuctionExpired,
    /// Settlement was asked for before the end of the bidding window.
    AuctionNotExpired,
    /// A counter or an end time does not fit its integer type.
    ArithmeticOverflow,
    /// A chunk does not fit in what is left of a proof buffer.
    ProofCapacityExceeded,
}

} // verus!
