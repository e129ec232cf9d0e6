use vstd::prelude::*;

verus! {

/// The batch identifier with which a fresh order book starts.
pub const INITIAL_BATCH_ID: u64 = 1;

/// Capacity of each of the two buffers of a proof record, in bytes.
pub const MAX_PROOF_BYTES: usize = 2048;

} // verus!
