//! The closed taxonomy of block-level consensus violations.
//!
//! Every check reports exactly one of these outcomes; the aggregate verifier
//! surfaces the first failure unchanged. A violation is a rejection of the
//! block, never a fault of the process.

use vstd::prelude::*;

verus! {

/// A consensus violation scoped to a single transaction of the block.
#[derive(Clone, Copy, Debug, PartialEq, Eq, Structural)]
pub enum TransactionError {
    /// A coinbase transaction stands at a non-zero position.
    MisplacedCoinbase,
}

/// A block-level consensus violation, one variant per rule.
#[derive(Clone, Copy, Debug, PartialEq, Eq, Structural)]
pub enum Error {
    /// The block holds no transactions at all.
    Empty,
    /// The transaction at position 0 is missing or is not a coinbase.
    Coinbase,
    /// The canonical serialized size (carried value) exceeds the ceiling.
    Size(usize),
    /// A transaction-scoped violation at the carried 0-based index.
    Transaction(usize, TransactionError),
    /// Two transactions share the same identity hash.
    DuplicatedTransactions,
    /// The summed signature operations exceed the ceiling.
    MaximumSigops,
    /// The recomputed Merkle root differs from the header's claim.
    MerkleRoot,
}

} // verus!
