//! State machines of a lending pool, a dark pool for confidential orders and
//! a sealed-bid liquidation auction.
//!
//! Every operation is a function from the records it names, the caller's
//! address and the current time to the records as they are afterwards. An
//! operation that is refused changes nothing and says why; one that moves
//! tokens returns the transfer to request from the custody ledger. Proofs and
//! payloads are opaque blobs: they are stored and gated on, never opened.

pub mod auction;
pub mod constants;
pub mod dark_pool;
pub mod errors;
pub mod identity;
pub mod lending;
pub mod proof_store;
pub mod state;

pub use auction::{settle_auction, start_liquidation_auction, submit_encrypted_bid};
pub use constants::{INITIAL_BATCH_ID, MAX_PROOF_BYTES};
pub use dark_pool::{batch_match_orders, initialize_dark_pool, submit_encrypted_order};
pub use errors::ErrorCode;
pub use identity::encrypt_proof;
pub use lending::{borrow, deposit, initialize_pool, liquidate};
pub use proof_store::{create_proof_account, store_order_proof};
pub use state::{
    DarkPoolOrderBook, EncryptedBid, EncryptedOrder, LiquidationAuction, Pool, ProofAccount,
    TokenTransfer, TransferDirection, UserLoan,
};
