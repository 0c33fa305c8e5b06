//! The canonical Merkle root over a sequence of transaction hashes.
//!
//! Leaves are the transaction identity hashes in on-wire order. Each level
//! pairs neighbours left to right, duplicating the last entry of an
//! odd-length level, and hashes the concatenation of each pair with double
//! SHA-256; the single entry of the last level is the root. The root of a
//! one-leaf tree is that leaf itself, and the root of no leaves is the
//! empty byte string.

use vstd::prelude::*;

use crate::bytes::views_of;

verus! {

/// The SHA-256 digest of a byte string: a fixed function of the input bytes
/// alone, left unspecified here and computed by an outside crate.
pub uninterp spec fn sha256_of(data: Seq<u8>) -> Seq<u8>;

/// The double SHA-256 digest used throughout the chain format.
pub open spec fn sha256d_of(data: Seq<u8>) -> Seq<u8> {
    sha256_of(sha256_of(data))
}

/// An inner node of the tree: the double digest of the two children joined.
pub open spec fn merkle_node_of(left: Seq<u8>, right: Seq<u8>) -> Seq<u8> {
    sha256d_of(left + right)
}

/// Entry `i` of the level above `level`: the node over the pair at
/// `2 * i`, with the last entry standing in for a missing right neighbour.
pub open spec fn parent_of(level: Seq<Seq<u8>>, i: int) -> Seq<u8> {
    if 2 * i + 1 < level.len() {
        merkle_node_of(level[2 * i], level[2 * i + 1])
    } else {
        merkle_node_of(level[2 * i], level[2 * i])
    }
}

/// The whole level above `level`.
pub open spec fn parent_level_of(level: Seq<Seq<u8>>) -> Seq<Seq<u8>> {
    Seq::new(((level.len() + 1) / 2) as nat, |i: int| parent_of(level, i))
}

/// The Merkle root of a level, by repeated pairing.
pub open spec fn merkle_root_of(level: Seq<Seq<u8>>) -> Seq<u8>
    decreases level.len(),
{
    if level.len() == 0 {
        Seq::empty()
    } else if level.len() == 1 {
        level[0]
    } else {
        merkle_root_of(parent_level_of(level))
    }
}

/// Relies on sha2's `Sha256` through the `Digest::digest` convenience
/// method: the SHA-256 digest of the input bytes, a pure function of its
/// argument, 32 bytes long.
#[verifier::external_body]
fn sha256(data: &[u8]) -> (r: Vec<u8>)
    ensures
        r@ == sha256_of(data@),
{
    let digest = <sha2::Sha256 as sha2::Digest>::digest(data);
    digest.to_vec()
}

/// The double SHA-256 digest of a byte string.
fn sha256d(data: &Vec<u8>) -> (r: Vec<u8>)
    ensures
        r@ == sha256d_of(data@),
{
    let first = sha256(data.as_slice());
    sha256(first.as_slice())
}

/// The two children joined into one byte string.
fn concat_pair(left: &Vec<u8>, right: &Vec<u8>) -> (r: Vec<u8>)
    ensures
        r@ == left@ + right@,
{
    let mut r = crate::bytes::copy_bytes(left);
    let mut i: usize = 0;
    while i < right.len()
        invariant
            i <= right@.len(),
            r@ =~= left@ + right@.take(i as int),
        decreases right@.len() - i,
    {
        r.push(right[i]);
        i += 1;
    }
    proof {
        assert(r@ =~= left@ + right@);
    }
    r
}

/// An inner node computed from its two children.
fn merkle_node(left: &Vec<u8>, right: &Vec<u8>) -> (r: Vec<u8>)
    ensures
        r@ == merkle_node_of(left@, right@),
{
    let joined = concat_pair(left, right);
    sha256d(&joined)
}

/// The level above `level`, computed left to right.
fn parent_level(level: &Vec<Vec<u8>>) -> (next: Vec<Vec<u8>>)
    requires
        level@.len() >= 1,
    ensures
        views_of(next@) == parent_level_of(views_of(level@)),
        next@.len() == (level@.len() + 1) / 2,
{
    let n = level.len();
    let pairs: usize = n / 2;
    let mut next: Vec<Vec<u8>> = Vec::new();
    let mut k: usize = 0;
    while k < pairs
        invariant
            n == level@.len(),
            pairs == n / 2,
            k <= pairs,
            next@.len() == k,
            forall|j: int| 0 <= j < k ==> next@[j]@ == parent_of(views_of(level@), j),
        decreases pairs - k,
    {
        let node = merkle_node(&level[2 * k], &level[2 * k + 1]);
        next.push(node);
        k += 1;
    }
    if n % 2 == 1 {
        let node = merkle_node(&level[n - 1], &level[n - 1]);
        next.push(node);
        proof {
            assert(2 * (pairs as int) == n - 1);
            assert(next@[pairs as int]@ == parent_of(views_of(level@), pairs as int));
        }
    }
    proof {
        assert(next@.len() == (n + 1) as int / 2);
        assert(views_of(next@) =~= parent_level_of(views_of(level@)));
    }
    next
}

/// The Merkle root of the given hashes, in order.
pub fn merkle_root(hashes: Vec<Vec<u8>>) -> (r: Vec<u8>)
    ensures
        r@ == merkle_root_of(views_of(hashes@)),
{
    let ghost leaves: Seq<Seq<u8>> = views_of(hashes@);
    let mut level = hashes;
    if level.len() == 0 {
        return Vec::new();
    }
    while level.len() > 1
        invariant
            level@.len() >= 1,
            merkle_root_of(views_of(level@)) == merkle_root_of(leaves),
        decreases level@.len(),
    {
        let next = parent_level(&level);
        level = next;
    }
    let root = match level.pop() {
        Some(r) => r,
        None => Vec::new(),
    };
    root
}

} // verus!
