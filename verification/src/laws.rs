//! Proved consequences of the verifier's verdict.
//!
//! Each law is stated over `spec_check`, the function that
//! `BlockVerifier::check` is proved to compute. Where a law speaks of a
//! rule that runs late in the normative order, its premises include the
//! earlier rules passing: for a block that also breaks an earlier rule the
//! earlier error is the one surfaced, and that precedence is itself part
//! of the consensus contract.

use vstd::prelude::*;

use crate::chain::{spec_is_coinbase, spec_merkle_root, IndexedBlock, IndexedTransaction};
use crate::constants::{MAX_BLOCK_SIGOPS, MAX_BLOCK_SIZE};
use crate::error::{Error, TransactionError};
use crate::verify_block::{
    spec_check, spec_first_coinbase_from, spec_has_duplicate, spec_sigops_check, spec_size_check,
    spec_total_sigops,
};

verus! {

/// Scanning from `k`: when no position before `i` holds a coinbase and `i`
/// holds one, `i` is the first position found.
proof fn lemma_first_coinbase_found(txs: Seq<IndexedTransaction>, k: int, i: int)
    requires
        0 <= k <= i < txs.len(),
        spec_is_coinbase(txs[i].raw),
        forall|j: int| k <= j < i ==> !spec_is_coinbase(#[trigger] txs[j].raw),
    ensures
        spec_first_coinbase_from(txs, k) == Some(i),
    decreases i - k,
{
    if k < i {
        lemma_first_coinbase_found(txs, k + 1, i);
    }
}

/// Scanning from `k`: when no position at `k` or later holds a coinbase,
/// none is found.
proof fn lemma_no_coinbase_from(txs: Seq<IndexedTransaction>, k: int)
    requires
        forall|j: int| k <= j < txs.len() ==> !spec_is_coinbase(#[trigger] txs[j].raw),
    ensures
        spec_first_coinbase_from(txs, k) == None::<int>,
    decreases txs.len() - k,
{
    if k < txs.len() {
        lemma_no_coinbase_from(txs, k + 1);
    }
}

/// A block without transactions is rejected as `Empty`, before any other
/// rule is judged.
pub proof fn lemma_empty_block_rejected(b: IndexedBlock)
    requires
        b.transactions@.len() == 0,
    ensures
        spec_check(b) == Err::<(), Error>(Error::Empty),
{
}

/// A non-empty block whose first transaction is not a coinbase is rejected
/// as `Coinbase`.
pub proof fn lemma_missing_coinbase_rejected(b: IndexedBlock)
    requires
        b.transactions@.len() > 0,
        !spec_is_coinbase(b.transactions@[0].raw),
    ensures
        spec_check(b) == Err::<(), Error>(Error::Coinbase),
{
}

/// A block with a coinbase at a non-zero position `i` — the first such
/// position scanning left to right — is rejected as a misplaced coinbase
/// at `i`, provided the earlier rules pass: an oversized block with a
/// misplaced coinbase reports its size instead, by the normative order.
pub proof fn lemma_misplaced_coinbase_rejected(b: IndexedBlock, i: int)
    requires
        b.transactions@.len() > 0,
        spec_is_coinbase(b.transactions@[0].raw),
        b.serialized_size <= MAX_BLOCK_SIZE,
        0 < i < b.transactions@.len(),
        spec_is_coinbase(b.transactions@[i].raw),
        forall|j: int| 0 < j < i ==> !spec_is_coinbase(#[trigger] b.transactions@[j].raw),
    ensures
        spec_check(b) == Err::<(), Error>(
            Error::Transaction(i as usize, TransactionError::MisplacedCoinbase),
        ),
{
    lemma_first_coinbase_found(b.transactions@, 1, i);
}

/// A block whose serialized size exceeds the ceiling is rejected with the
/// observed size, provided the two structural rules before it pass.
pub proof fn lemma_oversized_rejected(b: IndexedBlock)
    requires
        b.transactions@.len() > 0,
        spec_is_coinbase(b.transactions@[0].raw),
        b.serialized_size > MAX_BLOCK_SIZE,
    ensures
        spec_check(b) == Err::<(), Error>(Error::Size(b.serialized_size)),
{
}

/// The size ceiling is inclusive: a block of exactly `MAX_BLOCK_SIZE`
/// bytes passes the size rule.
pub proof fn lemma_size_boundary_passes(b: IndexedBlock)
    requires
        b.serialized_size == MAX_BLOCK_SIZE,
    ensures
        spec_size_check(b, MAX_BLOCK_SIZE as int) == Ok::<(), Error>(()),
{
}

/// A block in which any two transactions share an identity hash —
/// whatever their positions — is rejected as duplicated transactions,
/// provided the earlier rules pass. (A duplicate of the coinbase itself is
/// also a misplaced coinbase and reports as that, by the normative order.)
pub proof fn lemma_duplicate_hashes_rejected(b: IndexedBlock, p: int, q: int)
    requires
        b.transactions@.len() > 0,
        spec_is_coinbase(b.transactions@[0].raw),
        b.serialized_size <= MAX_BLOCK_SIZE,
        forall|j: int|
            1 <= j < b.transactions@.len() ==> !spec_is_coinbase(#[trigger] b.transactions@[j].raw),
        0 <= p < q < b.transactions@.len(),
        b.transactions@[p].hash@ == b.transactions@[q].hash@,
    ensures
        spec_check(b) == Err::<(), Error>(Error::DuplicatedTransactions),
{
    lemma_no_coinbase_from(b.transactions@, 1);
    assert(b.transactions@[p].hash@ == b.transactions@[q].hash@);
    assert(spec_has_duplicate(b.transactions@));
}

/// A block whose summed signature operations exceed the budget is rejected
/// as over budget, provided the earlier rules pass.
pub proof fn lemma_sigops_over_budget_rejected(b: IndexedBlock)
    requires
        b.transactions@.len() > 0,
        spec_is_coinbase(b.transactions@[0].raw),
        b.serialized_size <= MAX_BLOCK_SIZE,
        forall|j: int|
            1 <= j < b.transactions@.len() ==> !spec_is_coinbase(#[trigger] b.transactions@[j].raw),
        !spec_has_duplicate(b.transactions@),
        spec_total_sigops(b.transactions@) > MAX_BLOCK_SIGOPS,
    ensures
        spec_check(b) == Err::<(), Error>(Error::MaximumSigops),
{
    lemma_no_coinbase_from(b.transactions@, 1);
}

/// The sigop budget is inclusive: a block at exactly the budget passes the
/// sigop rule.
pub proof fn lemma_sigops_boundary_passes(b: IndexedBlock)
    requires
        spec_total_sigops(b.transactions@) == MAX_BLOCK_SIGOPS,
    ensures
        spec_sigops_check(b, MAX_BLOCK_SIGOPS as int) == Ok::<(), Error>(()),
{
}

/// A block whose recomputed Merkle root differs from the header's claim is
/// rejected as a Merkle-root mismatch, provided every earlier rule passes.
pub proof fn lemma_merkle_mismatch_rejected(b: IndexedBlock)
    requires
        b.transactions@.len() > 0,
        spec_is_coinbase(b.transactions@[0].raw),
        b.serialized_size <= MAX_BLOCK_SIZE,
        forall|j: int|
            1 <= j < b.transactions@.len() ==> !spec_is_coinbase(#[trigger] b.transactions@[j].raw),
        !spec_has_duplicate(b.transactions@),
        spec_total_sigops(b.transactions@) <= MAX_BLOCK_SIGOPS,
        spec_merkle_root(b) != b.header.merkle_root_hash@,
    ensures
        spec_check(b) == Err::<(), Error>(Error::MerkleRoot),
{
    lemma_no_coinbase_from(b.transactions@, 1);
}

/// The verdict is success exactly when every rule passes. In particular,
/// restoring a tampered transaction restores the recomputed root, and with
/// it the success of an otherwise well-formed block.
pub proof fn lemma_valid_block_accepted(b: IndexedBlock)
    ensures
        spec_check(b) == Ok::<(), Error>(()) <==> (b.transactions@.len() > 0
            && spec_is_coinbase(b.transactions@[0].raw) && b.serialized_size <= MAX_BLOCK_SIZE
            && spec_first_coinbase_from(b.transactions@, 1) is None && !spec_has_duplicate(
            b.transactions@,
        ) && spec_total_sigops(b.transactions@) <= MAX_BLOCK_SIGOPS && spec_merkle_root(b)
            == b.header.merkle_root_hash@),
{
}

/// The verdict is a pure function of the block: two runs of `check` on the
/// same unmodified block return the same result.
pub proof fn lemma_check_deterministic(b: IndexedBlock, r1: Result<(), Error>, r2: Result<
    (),
    Error,
>)
    requires
        r1 == spec_check(b),
        r2 == spec_check(b),
    ensures
        r1 == r2,
{
}

} // verus!
