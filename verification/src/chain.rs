//! The verifier's view of a parsed, hash-indexed block.
//!
//! The surrounding node owns parsing, canonical serialization and identity
//! hashing; this model carries the plain values those stages produce and
//! that the consensus checks read: each transaction's precomputed identity
//! hash, the input structure that decides the coinbase predicate, the
//! externally counted signature operations, the block's canonical
//! serialized size, and the header's claimed Merkle root.

use vstd::prelude::*;

use crate::bytes::copy_bytes;
use crate::merkle;

verus! {

/// A reference to one output of an earlier transaction.
pub struct OutPoint {
    /// Identity hash of the referenced transaction, 32 bytes on the wire.
    pub hash: Vec<u8>,
    /// Index of the output within that transaction.
    pub index: u32,
}

/// The null reference: an all-zero 32-byte hash and the all-ones index.
/// Only a coinbase input carries it.
pub open spec fn spec_is_null(p: OutPoint) -> bool {
    &&& p.index == u32::MAX
    &&& p.hash@.len() == 32
    &&& forall|i: int| 0 <= i < 32 ==> p.hash@[i] == 0u8
}

impl OutPoint {
    /// The null reference itself.
    pub fn null() -> (r: OutPoint)
        ensures
            spec_is_null(r),
    {
        let mut hash: Vec<u8> = Vec::new();
        let mut i: usize = 0;
        while i < 32
            invariant
                i <= 32,
                hash@.len() == i,
                forall|j: int| 0 <= j < i ==> hash@[j] == 0u8,
            decreases 32 - i,
        {
            hash.push(0u8);
            i += 1;
        }
        OutPoint { hash, index: u32::MAX }
    }

    /// Whether this is the null reference.
    pub fn is_null(&self) -> (r: bool)
        ensures
            r == spec_is_null(*self),
    {
        if self.index != u32::MAX {
            return false;
        }
        if self.hash.len() != 32 {
            return false;
        }
        let mut i: usize = 0;
        while i < 32
            invariant
                self.hash@.len() == 32,
                i <= 32,
                forall|j: int| 0 <= j < i ==> self.hash@[j] == 0u8,
            decreases 32 - i,
        {
            if self.hash[i] != 0 {
                return false;
            }
            i += 1;
        }
        true
    }
}

/// One input of a transaction; only its previous-output reference matters
/// to the checks here.
pub struct TransactionInput {
    /// The output this input spends, null for a coinbase.
    pub previous_output: OutPoint,
}

/// The structural view of a raw transaction that the checks read.
pub struct Transaction {
    /// The inputs, in on-wire order.
    pub inputs: Vec<TransactionInput>,
}

/// A coinbase transaction: a single input referencing the null output.
pub open spec fn spec_is_coinbase(t: Transaction) -> bool {
    &&& t.inputs@.len() == 1
    &&& spec_is_null(t.inputs@[0].previous_output)
}

impl Transaction {
    /// Whether this transaction is a coinbase.
    pub fn is_coinbase(&self) -> (r: bool)
        ensures
            r == spec_is_coinbase(*self),
    {
        self.inputs.len() == 1 && self.inputs[0].previous_output.is_null()
    }
}

/// A transaction paired with values precomputed by earlier stages.
pub struct IndexedTransaction {
    /// The identity hash: the canonical double SHA-256 of the canonical
    /// serialization, computed when the block was indexed.
    pub hash: Vec<u8>,
    /// The raw structural view.
    pub raw: Transaction,
    /// The transaction's signature-operation count as the external counter
    /// reports it when no previous outputs are resolved and redeem-script
    /// counting is off — the only form available before UTXO lookup.
    pub sigops: usize,
}

/// The header fields the structural checks read.
pub struct BlockHeader {
    /// The Merkle root the header claims for the transaction set.
    pub merkle_root_hash: Vec<u8>,
}

/// The identity hashes of a transaction sequence, in order.
pub open spec fn spec_transaction_hashes(txs: Seq<IndexedTransaction>) -> Seq<Seq<u8>> {
    txs.map_values(|t: IndexedTransaction| t.hash@)
}

/// A parsed block with its index data.
pub struct IndexedBlock {
    /// The block header.
    pub header: BlockHeader,
    /// The transactions, in on-wire order.
    pub transactions: Vec<IndexedTransaction>,
    /// The canonical serialized size of the whole block in bytes, as the
    /// canonical serializer measured it.
    pub serialized_size: usize,
}

/// The Merkle root recomputed from a block's transaction hash sequence.
pub open spec fn spec_merkle_root(b: IndexedBlock) -> Seq<u8> {
    merkle::merkle_root_of(spec_transaction_hashes(b.transactions@))
}

impl IndexedBlock {
    /// The canonical serialized size of the block in bytes.
    pub fn size(&self) -> (r: usize)
        ensures
            r == self.serialized_size,
    {
        self.serialized_size
    }

    /// The Merkle root recomputed from the current transaction hashes.
    pub fn merkle_root(&self) -> (r: Vec<u8>)
        ensures
            r@ == spec_merkle_root(*self),
    {
        let mut hashes: Vec<Vec<u8>> = Vec::new();
        let mut i: usize = 0;
        while i < self.transactions.len()
            invariant
                i <= self.transactions@.len(),
                hashes@.len() == i,
                forall|j: int| 0 <= j < i ==> hashes@[j]@ == self.transactions@[j].hash@,
            decreases self.transactions@.len() - i,
        {
            hashes.push(copy_bytes(&self.transactions[i].hash));
            i += 1;
        }
        proof {
            assert(crate::bytes::views_of(hashes@) =~= spec_transaction_hashes(
                self.transactions@,
            ));
        }
        merkle::merkle_root(hashes)
    }
}

} // verus!
