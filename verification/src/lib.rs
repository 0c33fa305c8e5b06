//! Context-free consensus checks for a single proof-of-work block.
//!
//! A parsed, hash-indexed block is examined in isolation: the verifier
//! confirms non-emptiness, coinbase placement, the serialized-size ceiling,
//! that no extra coinbase appears, transaction-hash uniqueness, the
//! signature-operation budget, and Merkle-root integrity. The first rule
//! that fails is reported; contextual checks (difficulty, timestamps, UTXO
//! lookups) belong to later validation stages and are out of scope here.

pub mod bytes;
pub mod chain;
pub mod constants;
pub mod error;
pub mod laws;
pub mod merkle;
pub mod verify_block;
