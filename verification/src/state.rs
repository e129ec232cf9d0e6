use anchor_lang::prelude::Pubkey;
use vstd::prelude::*;

verus! {

/// Aggregate ledger of the shared lending pool.
#[derive(Clone, Copy, Debug, PartialEq, Eq)]
pub struct Pool {
    pub authority: Pubkey,
    pub bump: u8,
    pub total_deposits: u64,
    pub total_borrowed: u64,
}

/// One owner's collateralized position.
#[derive(Clone, Debug, PartialEq, Eq)]
pub struct UserLoan {
    pub owner: Pubkey,
    pub collateral_amount: u64,
    pub collateral_encrypted: Vec<u8>,
    pub borrowed: u64,
    pub ltv_proof: Vec<u8>,
    pub liquidation_proof: Vec<u8>,
    pub liquidated: bool,
    pub deposit_timestamp: i64,
}

/// A loan with its blobs as byte sequences.
pub struct UserLoanView {
    pub owner: Pubkey,
    pub collateral_amount: u64,
    pub collateral_encrypted: Seq<u8>,
    pub borrowed: u64,
    pub ltv_proof: Seq<u8>,
    pub liquidation_proof: Seq<u8>,
    pub liquidated: bool,
    pub deposit_timestamp: i64,
}

impl View for UserLoan {
    type V = UserLoanView;

    open spec fn view(&self) -> UserLoanView {
        UserLoanView {
            owner: self.owner,
            collateral_amount: self.collateral_amount,
            collateral_encrypted: self.collateral_encrypted@,
            borrowed: self.borrowed,
            ltv_proof: self.ltv_proof@,
            liquidation_proof: self.liquidation_proof@,
            liquidated: self.liquidated,
            deposit_timestamp: self.deposit_timestamp,
        }
    }
}

/// Registry of the dark pool: how many orders were accepted and which batch comes next.
#[derive(Clone, Copy, Debug, PartialEq, Eq)]
pub struct DarkPoolOrderBook {
    pub authority: Pubkey,
    pub total_orders: u64,
    pub next_batch_id: u64,
    pub bump: u8,
}

/// Append-only storage for the two proofs that belong to one order of one owner.
#[derive(Clone, Debug, PartialEq, Eq)]
pub struct ProofAccount {
    pub owner: Pubkey,
    pub order_id: u64,
    pub order_proof: Vec<u8>,
    pub compliance_proof: Vec<u8>,
}

/// A proof record with its buffers as byte sequences.
pub struct ProofAccountView {
    pub owner: Pubkey,
    pub order_id: u64,
    pub order_proof: Seq<u8>,
    pub compliance_proof: Seq<u8>,
}

impl View for ProofAccount {
    type V = ProofAccountView;

    open spec fn view(&self) -> ProofAccountView {
        ProofAccountView {
            owner: self.owner,
            order_id: self.order_id,
            order_proof: self.order_proof@,
            compliance_proof: self.compliance_proof@,
        }
    }
}

/// A confidential order, admitted because its proof record held an order proof.
#[derive(Clone, Debug, PartialEq, Eq)]
pub struct EncryptedOrder {
    pub owner: Pubkey,
    pub order_id: u64,
    pub encrypted_data: Vec<u8>,
    pub proof_account: Pubkey,
    pub timestamp: i64,
    pub settled: bool,
    pub batch_id: u64,
}

/// An order with its payload as a byte sequence.
pub struct EncryptedOrderView {
    pub owner: Pubkey,
    pub order_id: u64,
    pub encrypted_data: Seq<u8>,
    pub proof_account: Pubkey,
    pub timestamp: i64,
    pub settled: bool,
    pub batch_id: u64,
}

impl View for EncryptedOrder {
    type V = EncryptedOrderView;

    open spec fn view(&self) -> EncryptedOrderView {
        EncryptedOrderView {
            owner: self.owner,
            order_id: self.order_id,
            encrypted_data: self.encrypted_data@,
            proof_account: self.proof_account,
            timestamp: self.timestamp,
            settled: self.settled,
            batch_id: self.batch_id,
        }
    }
}

/// A sealed-bid auction over the collateral of one position.
#[derive(Clone, Copy, Debug, PartialEq, Eq)]
pub struct LiquidationAuction {
    pub position_owner: Pubkey,
    pub auction_id: u64,
    pub collateral_amount: u64,
    pub minimum_bid: u64,
    pub start_time: i64,
    pub duration: u64,
    pub settled: bool,
    pub winning_bidder: Pubkey,
    pub winning_bid: u64,
    pub bump: u8,
}

/// One bidder's sealed bid in one auction.
#[derive(Clone, Debug, PartialEq, Eq)]
pub struct EncryptedBid {
    pub bidder: Pubkey,
    pub auction_id: u64,
    pub encrypted_bid: Vec<u8>,
    pub bid_proof: Vec<u8>,
    pub timestamp: i64,
}

/// A bid with its blobs as byte sequences.
pub struct EncryptedBidView {
    pub bidder: Pubkey,
    pub auction_id: u64,
    pub encrypted_bid: Seq<u8>,
    pub bid_proof: Seq<u8>,
    pub timestamp: i64,
}

impl View for EncryptedBid {
    type V = EncryptedBidView;

    open spec fn view(&self) -> EncryptedBidView {
        EncryptedBidView {
            bidder: self.bidder,
            auction_id: self.auction_id,
            encrypted_bid: self.encrypted_bid@,
            bid_proof: self.bid_proof@,
            timestamp: self.timestamp,
        }
    }
}

/// Which way tokens move between the pool's custody and a holder's.
#[derive(Clone, Copy, Debug, PartialEq, Eq, Structural)]
pub enum TransferDirection {
    /// From the holder's custody into the pool's, authorized by the holder.
    IntoPool,
    /// From the pool's custody into the holder's, authorized by the pool.
    OutOfPool,
}

/// A movement of tokens that an accepted operation asks the custody ledger to make.
#[derive(Clone, Copy, Debug, PartialEq, Eq)]
pub struct TokenTransfer {
    pub direction: TransferDirection,
    pub holder: Pubkey,
    pub amount: u64,
}

} // verus!
