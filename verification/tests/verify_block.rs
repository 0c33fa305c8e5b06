use sha2::{Digest, Sha256};
use verification::chain::{
    BlockHeader, IndexedBlock, IndexedTransaction, OutPoint, Transaction, TransactionInput,
};
use verification::error::{Error, TransactionError};
use verification::verify_block::BlockVerifier;

fn coinbase_input() -> TransactionInput {
    TransactionInput {
        previous_output: OutPoint::null(),
    }
}

fn spending_input(referenced: u8) -> TransactionInput {
    TransactionInput {
        previous_output: OutPoint {
            hash: vec![referenced; 32],
            index: 0,
        },
    }
}

fn coinbase_tx(hash_byte: u8, sigops: usize) -> IndexedTransaction {
    IndexedTransaction {
        hash: vec![hash_byte; 32],
        raw: Transaction {
            inputs: vec![coinbase_input()],
        },
        sigops,
    }
}

fn spend_tx(hash_byte: u8, sigops: usize) -> IndexedTransaction {
    IndexedTransaction {
        hash: vec![hash_byte; 32],
        raw: Transaction {
            inputs: vec![spending_input(hash_byte.wrapping_add(1))],
        },
        sigops,
    }
}

fn block_with(
    transactions: Vec<IndexedTransaction>,
    serialized_size: usize,
    merkle_root_hash: Vec<u8>,
) -> IndexedBlock {
    IndexedBlock {
        header: BlockHeader { merkle_root_hash },
        transactions,
        serialized_size,
    }
}

/// A block whose header claims the root recomputed from its own hashes.
fn with_consistent_root(mut b: IndexedBlock) -> IndexedBlock {
    b.header.merkle_root_hash = b.merkle_root();
    b
}

fn sha256d(data: &[u8]) -> Vec<u8> {
    let first = Sha256::digest(data);
    Sha256::digest(first).to_vec()
}

fn node(left: &[u8], right: &[u8]) -> Vec<u8> {
    let mut joined = left.to_vec();
    joined.extend_from_slice(right);
    sha256d(&joined)
}

#[test]
fn null_outpoint_is_null() {
    assert!(OutPoint::null().is_null());
    assert!(!spending_input(7).previous_output.is_null());
}

#[test]
fn coinbase_predicate() {
    assert!(coinbase_tx(1, 0).raw.is_coinbase());
    assert!(!spend_tx(2, 0).raw.is_coinbase());
    // Two inputs are never a coinbase, even if both reference null.
    let two_null = Transaction {
        inputs: vec![coinbase_input(), coinbase_input()],
    };
    assert!(!two_null.is_coinbase());
}

#[test]
fn empty_block_rejected_before_everything() {
    // Oversized and with a nonsense root, but emptiness is judged first.
    let b = block_with(vec![], 3_000_000, vec![9; 32]);
    assert_eq!(Err(Error::Empty), BlockVerifier::new(&b).check());
}

#[test]
fn missing_coinbase_rejected() {
    let b = block_with(vec![spend_tx(1, 0)], 100, vec![1; 32]);
    assert_eq!(Err(Error::Coinbase), BlockVerifier::new(&b).check());
}

#[test]
fn missing_coinbase_precedes_size() {
    let b = block_with(vec![spend_tx(1, 0)], 3_000_000, vec![1; 32]);
    assert_eq!(Err(Error::Coinbase), BlockVerifier::new(&b).check());
}

#[test]
fn misplaced_coinbase_rejected() {
    let b = block_with(
        vec![coinbase_tx(1, 0), spend_tx(2, 0), coinbase_tx(3, 0)],
        300,
        vec![9; 32],
    );
    assert_eq!(
        Err(Error::Transaction(2, TransactionError::MisplacedCoinbase)),
        BlockVerifier::new(&b).check()
    );
}

#[test]
fn first_misplaced_coinbase_reported() {
    let b = block_with(
        vec![
            coinbase_tx(1, 0),
            spend_tx(2, 0),
            coinbase_tx(3, 0),
            coinbase_tx(4, 0),
        ],
        400,
        vec![9; 32],
    );
    assert_eq!(
        Err(Error::Transaction(2, TransactionError::MisplacedCoinbase)),
        BlockVerifier::new(&b).check()
    );
}

#[test]
fn oversized_block_reports_size_and_stops() {
    // The sigop budget is also blown and the claimed root is nonsense, yet
    // only the size is reported: later checks are never evaluated.
    let b = block_with(
        vec![coinbase_tx(1, 0), spend_tx(2, 1_000_000)],
        2_000_001,
        vec![9; 32],
    );
    assert_eq!(Err(Error::Size(2_000_001)), BlockVerifier::new(&b).check());
}

#[test]
fn size_boundary_is_inclusive() {
    let b = with_consistent_root(block_with(
        vec![coinbase_tx(1, 0), spend_tx(2, 0)],
        2_000_000,
        vec![0; 32],
    ));
    assert_eq!(Ok(()), BlockVerifier::new(&b).check());
}

#[test]
fn duplicated_transactions_rejected() {
    // Two byte-identical non-coinbase transactions, not adjacent.
    let b = with_consistent_root(block_with(
        vec![coinbase_tx(1, 0), spend_tx(5, 0), spend_tx(6, 0), spend_tx(5, 0)],
        400,
        vec![0; 32],
    ));
    assert_eq!(
        Err(Error::DuplicatedTransactions),
        BlockVerifier::new(&b).check()
    );
}

#[test]
fn sigops_over_budget_rejected() {
    // 40001 in total; the claimed root is nonsense but sigops are judged
    // first.
    let b = block_with(
        vec![coinbase_tx(1, 1), spend_tx(2, 40_000)],
        300,
        vec![9; 32],
    );
    assert_eq!(Err(Error::MaximumSigops), BlockVerifier::new(&b).check());
}

#[test]
fn sigops_boundary_is_inclusive() {
    let b = with_consistent_root(block_with(
        vec![coinbase_tx(1, 39_999), spend_tx(2, 1)],
        300,
        vec![0; 32],
    ));
    assert_eq!(Ok(()), BlockVerifier::new(&b).check());
}

#[test]
fn merkle_mismatch_rejected_and_restored() {
    let good = with_consistent_root(block_with(
        vec![coinbase_tx(1, 0), spend_tx(2, 0)],
        200,
        vec![0; 32],
    ));
    // Flip one bit of a transaction hash: the recomputed root moves away
    // from the claimed one.
    let mut tampered = block_with(
        vec![coinbase_tx(1, 0), spend_tx(2, 0)],
        200,
        good.header.merkle_root_hash.clone(),
    );
    tampered.transactions[1].hash[0] ^= 0x01;
    assert_eq!(Err(Error::MerkleRoot), BlockVerifier::new(&tampered).check());
    // Restoring the transaction restores success.
    let restored = block_with(
        vec![coinbase_tx(1, 0), spend_tx(2, 0)],
        200,
        good.header.merkle_root_hash.clone(),
    );
    assert_eq!(Ok(()), BlockVerifier::new(&restored).check());
}

#[test]
fn single_coinbase_block_accepted() {
    // One coinbase as the sole transaction: the Merkle root of one leaf is
    // that leaf, so the header claims the transaction's own hash.
    let cb = coinbase_tx(50, 0);
    let root = cb.hash.clone();
    let b = block_with(vec![cb], 120, root);
    assert_eq!(Ok(()), BlockVerifier::new(&b).check());
}

#[test]
fn two_leaf_root_matches_independent_computation() {
    // The root of two leaves, computed here directly with sha2, must be
    // what the library recomputes for the header to be accepted.
    let cb = coinbase_tx(1, 0);
    let tx = spend_tx(2, 0);
    let expected_root = node(&cb.hash, &tx.hash);
    assert_eq!(32, expected_root.len());
    let b = block_with(vec![cb, tx], 200, expected_root);
    assert_eq!(Ok(()), BlockVerifier::new(&b).check());
    // Any other claim is a mismatch.
    let other = block_with(
        vec![coinbase_tx(1, 0), spend_tx(2, 0)],
        200,
        vec![0xAB; 32],
    );
    assert_eq!(Err(Error::MerkleRoot), BlockVerifier::new(&other).check());
}

#[test]
fn odd_level_duplicates_last_hash() {
    // Three leaves: the second level pairs the third leaf with itself.
    let txs = vec![coinbase_tx(1, 0), spend_tx(2, 0), spend_tx(3, 0)];
    let left = node(&txs[0].hash, &txs[1].hash);
    let right = node(&txs[2].hash, &txs[2].hash);
    let expected_root = node(&left, &right);
    let b = block_with(txs, 300, expected_root);
    assert_eq!(Ok(()), BlockVerifier::new(&b).check());
}

#[test]
fn check_is_idempotent() {
    let b = with_consistent_root(block_with(
        vec![coinbase_tx(1, 0), spend_tx(2, 3)],
        200,
        vec![0; 32],
    ));
    let verifier = BlockVerifier::new(&b);
    let first = verifier.check();
    let second = verifier.check();
    assert_eq!(first, second);
    assert_eq!(Ok(()), first);

    let bad = block_with(vec![spend_tx(1, 0)], 100, vec![1; 32]);
    let verifier = BlockVerifier::new(&bad);
    assert_eq!(verifier.check(), verifier.check());
}
