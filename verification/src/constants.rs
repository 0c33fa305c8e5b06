//! Consensus constants.
//!
//! These are compiled-in, network-wide values: any node-local deviation
//! would desynchronize the node from the rest of the network. The
//! signature-operation ceiling is always derived from the block-size
//! ceiling, never configured independently, so the two cannot drift apart.

use vstd::prelude::*;

verus! {

/// How far into the future a block timestamp may lie, in seconds (2 hours).
pub const BLOCK_MAX_FUTURE: i64 = 2 * 60 * 60;

/// Confirmations a coinbase output needs before it may be spent.
pub const COINBASE_MATURITY: u32 = 100;

/// Hard ceiling on a block's canonical serialized size, in bytes (2 MB).
pub const MAX_BLOCK_SIZE: usize = 2_000_000;

/// Ceiling on the summed signature operations of a block, derived from the
/// size ceiling by the fixed network ratio of one sigop per 50 bytes.
pub const MAX_BLOCK_SIGOPS: usize = MAX_BLOCK_SIZE / 50;

/// Smallest permitted coinbase script size, in bytes.
pub const MIN_COINBASE_SIZE: usize = 2;

/// Largest permitted coinbase script size, in bytes.
pub const MAX_COINBASE_SIZE: usize = 100;

/// Factor bounding a single difficulty retargeting step.
pub const RETARGETING_FACTOR: u32 = 4;

/// Target spacing between blocks, in seconds (10 minutes).
pub const TARGET_SPACING_SECONDS: u32 = 10 * 60;

/// Twice the target spacing, in seconds.
pub const DOUBLE_SPACING_SECONDS: u32 = 2 * TARGET_SPACING_SECONDS;

/// Target retargeting timespan, in seconds (2 weeks).
pub const TARGET_TIMESPAN_SECONDS: u32 = 2 * 7 * 24 * 60 * 60;

/// Lower bound for an observed retargeting timespan.
pub const MIN_TIMESPAN: u32 = TARGET_TIMESPAN_SECONDS / RETARGETING_FACTOR;

/// Upper bound for an observed retargeting timespan.
pub const MAX_TIMESPAN: u32 = TARGET_TIMESPAN_SECONDS * RETARGETING_FACTOR;

/// Number of blocks between difficulty retargetings (2016).
pub const RETARGETING_INTERVAL: u32 = TARGET_TIMESPAN_SECONDS / TARGET_SPACING_SECONDS;

/// The sigop ceiling is a pure function of the size ceiling: one signature
/// operation of budget per 50 bytes of block, giving 40000 for a 2 MB block.
pub proof fn lemma_sigops_derived_from_size()
    ensures
        MAX_BLOCK_SIGOPS == MAX_BLOCK_SIZE / 50,
        MAX_BLOCK_SIZE == 2_000_000usize,
        MAX_BLOCK_SIGOPS == 40_000usize,
{
}

} // verus!
