//! The ordered, fail-fast structural checks over one indexed block.
//!
//! Each check is a stateless predicate bound to a borrowed block; the
//! aggregate verifier runs them in a fixed order and surfaces the first
//! failure. The order is normative: it decides which single error a block
//! that breaks several rules reports.

use vstd::prelude::*;

use crate::bytes::bytes_eq;
use crate::chain::{spec_is_coinbase, spec_merkle_root, IndexedBlock, IndexedTransaction};
use crate::constants::{MAX_BLOCK_SIGOPS, MAX_BLOCK_SIZE};
use crate::error::{Error, TransactionError};

verus! {

/// Outcome of the non-emptiness rule: a block must hold at least the
/// coinbase transaction.
pub open spec fn spec_empty_check(b: IndexedBlock) -> Result<(), Error> {
    if b.transactions@.len() == 0 {
        Err(Error::Empty)
    } else {
        Ok(())
    }
}

/// Outcome of the coinbase-position rule: position 0 must exist and be a
/// coinbase.
pub open spec fn spec_coinbase_check(b: IndexedBlock) -> Result<(), Error> {
    if b.transactions@.len() > 0 && spec_is_coinbase(b.transactions@[0].raw) {
        Ok(())
    } else {
        Err(Error::Coinbase)
    }
}

/// Outcome of the serialized-size rule against `max_size`: the ceiling is
/// inclusive, so a block exactly at the ceiling passes.
pub open spec fn spec_size_check(b: IndexedBlock, max_size: int) -> Result<(), Error> {
    if b.serialized_size > max_size {
        Err(Error::Size(b.serialized_size))
    } else {
        Ok(())
    }
}

/// The position of the first coinbase at index `i` or later, if any.
pub open spec fn spec_first_coinbase_from(txs: Seq<IndexedTransaction>, i: int) -> Option<int>
    decreases txs.len() - i,
{
    if i >= txs.len() {
        None
    } else if spec_is_coinbase(txs[i].raw) {
        Some(i)
    } else {
        spec_first_coinbase_from(txs, i + 1)
    }
}

/// Outcome of the no-extra-coinbases rule: positions 1 and up must hold no
/// coinbase; the first offender's index is reported.
pub open spec fn spec_extra_coinbases_check(b: IndexedBlock) -> Result<(), Error> {
    match spec_first_coinbase_from(b.transactions@, 1) {
        Some(i) => Err(Error::Transaction(i as usize, TransactionError::MisplacedCoinbase)),
        None => Ok(()),
    }
}

/// Whether two transactions of the sequence share an identity hash.
pub open spec fn spec_has_duplicate(txs: Seq<IndexedTransaction>) -> bool {
    exists|p: int, q: int|
        #![trigger txs[p].hash, txs[q].hash]
        0 <= p < q < txs.len() && txs[p].hash@ == txs[q].hash@
}

/// Outcome of the hash-uniqueness rule, which guards against Merkle-tree
/// duplication ambiguity. Only the fact of duplication is reported.
pub open spec fn spec_uniqueness_check(b: IndexedBlock) -> Result<(), Error> {
    if spec_has_duplicate(b.transactions@) {
        Err(Error::DuplicatedTransactions)
    } else {
        Ok(())
    }
}

/// The exact integer sum of the per-transaction signature-operation
/// counts, free of any machine bound.
pub open spec fn spec_total_sigops(txs: Seq<IndexedTransaction>) -> int
    decreases txs.len(),
{
    if txs.len() == 0 {
        0
    } else {
        spec_total_sigops(txs.drop_last()) + txs.last().sigops
    }
}

/// Outcome of the sigop-budget rule against `max_sigops`: the ceiling is
/// inclusive.
pub open spec fn spec_sigops_check(b: IndexedBlock, max_sigops: int) -> Result<(), Error> {
    if spec_total_sigops(b.transactions@) > max_sigops {
        Err(Error::MaximumSigops)
    } else {
        Ok(())
    }
}

/// Outcome of the Merkle-root rule: the root recomputed from the current
/// transaction hashes must equal the header's claim byte for byte.
pub open spec fn spec_merkle_check(b: IndexedBlock) -> Result<(), Error> {
    if spec_merkle_root(b) == b.header.merkle_root_hash@ {
        Ok(())
    } else {
        Err(Error::MerkleRoot)
    }
}

/// The verdict of the whole verifier: the checks in their normative order,
/// stopping at the first failure.
pub open spec fn spec_check(b: IndexedBlock) -> Result<(), Error> {
    if spec_empty_check(b) is Err {
        spec_empty_check(b)
    } else if spec_coinbase_check(b) is Err {
        spec_coinbase_check(b)
    } else if spec_size_check(b, MAX_BLOCK_SIZE as int) is Err {
        spec_size_check(b, MAX_BLOCK_SIZE as int)
    } else if spec_extra_coinbases_check(b) is Err {
        spec_extra_coinbases_check(b)
    } else if spec_uniqueness_check(b) is Err {
        spec_uniqueness_check(b)
    } else if spec_sigops_check(b, MAX_BLOCK_SIGOPS as int) is Err {
        spec_sigops_check(b, MAX_BLOCK_SIGOPS as int)
    } else if spec_merkle_check(b) is Err {
        spec_merkle_check(b)
    } else {
        Ok(())
    }
}

/// Extending a prefix sum of sigop counts by one transaction.
proof fn lemma_total_sigops_take_step(txs: Seq<IndexedTransaction>, i: int)
    requires
        0 <= i < txs.len(),
    ensures
        spec_total_sigops(txs.take(i + 1)) == spec_total_sigops(txs.take(i)) + txs[i].sigops,
{
    assert(txs.take(i + 1).drop_last() =~= txs.take(i));
    assert(txs.take(i + 1).last() == txs[i]);
}

/// The non-emptiness check.
pub struct BlockEmpty<'a> {
    /// The block under examination.
    pub block: &'a IndexedBlock,
}

impl<'a> BlockEmpty<'a> {
    /// Binds the check to a block.
    pub fn new(block: &'a IndexedBlock) -> (r: Self)
        ensures
            r.block == block,
    {
        BlockEmpty { block }
    }

    /// Runs the check.
    pub fn check(&self) -> (r: Result<(), Error>)
        ensures
            r == spec_empty_check(*self.block),
    {
        if self.block.transactions.len() == 0 {
            Err(Error::Empty)
        } else {
            Ok(())
        }
    }
}

/// The serialized-size check, bound to an inclusive byte ceiling.
pub struct BlockSerializedSize<'a> {
    /// The block under examination.
    pub block: &'a IndexedBlock,
    /// The inclusive ceiling in bytes.
    pub max_size: usize,
}

impl<'a> BlockSerializedSize<'a> {
    /// Binds the check to a block and a ceiling.
    pub fn new(block: &'a IndexedBlock, max_size: usize) -> (r: Self)
        ensures
            r.block == block,
            r.max_size == max_size,
    {
        BlockSerializedSize { block, max_size }
    }

    /// Runs the check, reporting the observed size on failure.
    pub fn check(&self) -> (r: Result<(), Error>)
        ensures
            r == spec_size_check(*self.block, self.max_size as int),
    {
        let size = self.block.size();
        if size > self.max_size {
            Err(Error::Size(size))
        } else {
            Ok(())
        }
    }
}

/// The coinbase-position check.
pub struct BlockCoinbase<'a> {
    /// The block under examination.
    pub block: &'a IndexedBlock,
}

impl<'a> BlockCoinbase<'a> {
    /// Binds the check to a block.
    pub fn new(block: &'a IndexedBlock) -> (r: Self)
        ensures
            r.block == block,
    {
        BlockCoinbase { block }
    }

    /// Runs the check.
    pub fn check(&self) -> (r: Result<(), Error>)
        ensures
            r == spec_coinbase_check(*self.block),
    {
        if self.block.transactions.len() > 0 && self.block.transactions[0].raw.is_coinbase() {
            Ok(())
        } else {
            Err(Error::Coinbase)
        }
    }
}

/// The no-extra-coinbases check.
pub struct BlockExtraCoinbases<'a> {
    /// The block under examination.
    pub block: &'a IndexedBlock,
}

impl<'a> BlockExtraCoinbases<'a> {
    /// Binds the check to a block.
    pub fn new(block: &'a IndexedBlock) -> (r: Self)
        ensures
            r.block == block,
    {
        BlockExtraCoinbases { block }
    }

    /// Runs the check, scanning positions 1 and up left to right.
    pub fn check(&self) -> (r: Result<(), Error>)
        ensures
            r == spec_extra_coinbases_check(*self.block),
    {
        let txs = &self.block.transactions;
        let mut i: usize = 1;
        while i < txs.len()
            invariant
                txs@ == self.block.transactions@,
                1 <= i,
                i <= txs@.len() || i == 1,
                spec_first_coinbase_from(txs@, 1) == spec_first_coinbase_from(txs@, i as int),
            decreases txs@.len() - i,
        {
            if txs[i].raw.is_coinbase() {
                proof {
                    assert(spec_first_coinbase_from(txs@, i as int) == Some(i as int));
                }
                return Err(Error::Transaction(i, TransactionError::MisplacedCoinbase));
            }
            i += 1;
        }
        Ok(())
    }
}

/// The transaction-hash uniqueness check.
pub struct BlockTransactionsUniqueness<'a> {
    /// The block under examination.
    pub block: &'a IndexedBlock,
}

impl<'a> BlockTransactionsUniqueness<'a> {
    /// Binds the check to a block.
    pub fn new(block: &'a IndexedBlock) -> (r: Self)
        ensures
            r.block == block,
    {
        BlockTransactionsUniqueness { block }
    }

    /// Runs the check, comparing every pair of identity hashes.
    pub fn check(&self) -> (r: Result<(), Error>)
        ensures
            r == spec_uniqueness_check(*self.block),
    {
        let txs = &self.block.transactions;
        let n = txs.len();
        let mut i: usize = 0;
        while i < n
            invariant
                txs@ == self.block.transactions@,
                n == txs@.len(),
                i <= n,
                forall|p: int, q: int|
                    0 <= p < q < n && p < i ==> #[trigger] txs@[p].hash@ != #[trigger] txs@[q].hash@,
            decreases n - i,
        {
            let mut j: usize = i + 1;
            while j < n
                invariant
                    txs@ == self.block.transactions@,
                    n == txs@.len(),
                    i < n,
                    i + 1 <= j <= n,
                    forall|p: int, q: int|
                        0 <= p < q < n && p < i ==> #[trigger] txs@[p].hash@ != #[trigger] txs@[q].hash@,
                    forall|q: int| i < q < j ==> txs@[i as int].hash@ != #[trigger] txs@[q].hash@,
                decreases n - j,
            {
                if bytes_eq(&txs[i].hash, &txs[j].hash) {
                    proof {
                        let p: int = i as int;
                        let q: int = j as int;
                        assert(0 <= p < q < txs@.len());
                        assert(txs@[p].hash@ == txs@[q].hash@);
                        assert(spec_has_duplicate(txs@));
                    }
                    return Err(Error::DuplicatedTransactions);
                }
                j += 1;
            }
            i += 1;
        }
        Ok(())
    }
}

/// The signature-operation budget check, bound to an inclusive ceiling.
pub struct BlockSigops<'a> {
    /// The block under examination.
    pub block: &'a IndexedBlock,
    /// The inclusive ceiling on the summed counts.
    pub max_sigops: usize,
}

impl<'a> BlockSigops<'a> {
    /// Binds the check to a block and a ceiling.
    pub fn new(block: &'a IndexedBlock, max_sigops: usize) -> (r: Self)
        ensures
            r.block == block,
            r.max_sigops == max_sigops,
    {
        BlockSigops { block, max_sigops }
    }

    /// Runs the check. The verdict follows the exact integer sum: a running
    /// total that would pass the machine bound is noted instead of wrapped,
    /// and such a sum always exceeds the ceiling.
    pub fn check(&self) -> (r: Result<(), Error>)
        ensures
            r == spec_sigops_check(*self.block, self.max_sigops as int),
    {
        let txs = &self.block.transactions;
        let mut total: usize = 0;
        let mut beyond_machine: bool = false;
        let mut i: usize = 0;
        while i < txs.len()
            invariant
                i <= txs@.len(),
                !beyond_machine ==> total as int == spec_total_sigops(txs@.take(i as int)),
                beyond_machine ==> spec_total_sigops(txs@.take(i as int)) > usize::MAX as int,
            decreases txs@.len() - i,
        {
            let s = txs[i].sigops;
            proof {
                lemma_total_sigops_take_step(txs@, i as int);
            }
            if beyond_machine {
                // the exact sum only grows further past the bound
            } else if total > usize::MAX - s {
                beyond_machine = true;
            } else {
                total = total + s;
            }
            i += 1;
        }
        proof {
            assert(txs@.take(txs@.len() as int) =~= txs@);
        }
        if beyond_machine || total > self.max_sigops {
            Err(Error::MaximumSigops)
        } else {
            Ok(())
        }
    }
}

/// The Merkle-root integrity check.
pub struct BlockMerkleRoot<'a> {
    /// The block under examination.
    pub block: &'a IndexedBlock,
}

impl<'a> BlockMerkleRoot<'a> {
    /// Binds the check to a block.
    pub fn new(block: &'a IndexedBlock) -> (r: Self)
        ensures
            r.block == block,
    {
        BlockMerkleRoot { block }
    }

    /// Runs the check, recomputing the root from the transaction hashes.
    pub fn check(&self) -> (r: Result<(), Error>)
        ensures
            r == spec_merkle_check(*self.block),
    {
        let computed = self.block.merkle_root();
        if bytes_eq(&computed, &self.block.header.merkle_root_hash) {
            Ok(())
        } else {
            Err(Error::MerkleRoot)
        }
    }
}

/// The aggregate verifier: the seven checks bound to one block and to the
/// compiled-in consensus constants.
pub struct BlockVerifier<'a> {
    /// Non-emptiness.
    pub empty: BlockEmpty<'a>,
    /// Coinbase presence and position.
    pub coinbase: BlockCoinbase<'a>,
    /// Serialized size against `MAX_BLOCK_SIZE`.
    pub serialized_size: BlockSerializedSize<'a>,
    /// No coinbase outside position 0.
    pub extra_coinbases: BlockExtraCoinbases<'a>,
    /// Identity-hash uniqueness.
    pub transactions_uniqueness: BlockTransactionsUniqueness<'a>,
    /// Sigop budget against `MAX_BLOCK_SIGOPS`.
    pub sigops: BlockSigops<'a>,
    /// Merkle-root integrity.
    pub merkle_root: BlockMerkleRoot<'a>,
}

impl<'a> BlockVerifier<'a> {
    /// All constituent checks are bound to the same block, and the bounded
    /// ones to the network's compiled-in ceilings.
    pub open spec fn wf(self) -> bool {
        &&& self.coinbase.block == self.empty.block
        &&& self.serialized_size.block == self.empty.block
        &&& self.serialized_size.max_size == MAX_BLOCK_SIZE
        &&& self.extra_coinbases.block == self.empty.block
        &&& self.transactions_uniqueness.block == self.empty.block
        &&& self.sigops.block == self.empty.block
        &&& self.sigops.max_sigops == MAX_BLOCK_SIGOPS
        &&& self.merkle_root.block == self.empty.block
    }

    /// The one block every check examines.
    pub open spec fn spec_block(self) -> IndexedBlock {
        *self.empty.block
    }

    /// Binds every check to `block` and to the consensus constants.
    pub fn new(block: &'a IndexedBlock) -> (r: Self)
        ensures
            r.wf(),
            r.spec_block() == *block,
    {
        BlockVerifier {
            empty: BlockEmpty::new(block),
            coinbase: BlockCoinbase::new(block),
            serialized_size: BlockSerializedSize::new(block, MAX_BLOCK_SIZE),
            extra_coinbases: BlockExtraCoinbases::new(block),
            transactions_uniqueness: BlockTransactionsUniqueness::new(block),
            sigops: BlockSigops::new(block, MAX_BLOCK_SIGOPS),
            merkle_root: BlockMerkleRoot::new(block),
        }
    }

    /// Runs the checks in their normative order and returns the first
    /// failure, or success when the block obeys every structural rule.
    pub fn check(&self) -> (r: Result<(), Error>)
        requires
            self.wf(),
        ensures
            r == spec_check(self.spec_block()),
    {
        match self.empty.check() {
            Err(e) => {
                return Err(e);
            },
            Ok(_) => {},
        }
        match self.coinbase.check() {
            Err(e) => {
                return Err(e);
            },
            Ok(_) => {},
        }
        match self.serialized_size.check() {
            Err(e) => {
                return Err(e);
            },
            Ok(_) => {},
        }
        match self.extra_coinbases.check() {
            Err(e) => {
                return Err(e);
            },
            Ok(_) => {},
        }
        match self.transactions_uniqueness.check() {
            Err(e) => {
                return Err(e);
            },
            Ok(_) => {},
        }
        match self.sigops.check() {
            Err(e) => {
                return Err(e);
            },
            Ok(_) => {},
        }
        match self.merkle_root.check() {
            Err(e) => {
                return Err(e);
            },
            Ok(_) => {},
        }
        Ok(())
    }
}

} // verus!
