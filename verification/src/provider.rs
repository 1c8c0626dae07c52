//! Retrieval of blinded trie nodes, and the key of a trie path.
use crate::errors::SparseTrieError;
use crate::nibbles::{b256_from_slice, b256_view, nibbles_pack, nibbles_view, packed, packed_byte, padded_key, nibble_at};
use alloy_primitives::{Bytes, B256};
use alloy_trie::TrieMask;
use nybbles::Nibbles;
use vstd::prelude::*;

verus! {

#[verifier::external_type_specification]
#[verifier::external_body]
pub struct ExTrieMask(alloy_trie::TrieMask);

/// `Clone` of `TrieMask`: the type is `Copy` and its derived `clone` hands
/// back the same mask.
pub assume_specification[ <alloy_trie::TrieMask as Clone>::clone ](m: &alloy_trie::TrieMask) -> (res: alloy_trie::TrieMask)
    ensures
        res == *m,
;

/// A revealed blinded trie node: the encoded node and, for a branch node,
/// its masks.
#[derive(PartialEq, Eq, Clone, Debug)]
pub struct RevealedNode {
    /// Raw trie node (RLP encoded).
    pub node: Bytes,
    /// Branch node tree mask, if any.
    pub tree_mask: Option<TrieMask>,
    /// Branch node hash mask, if any.
    pub hash_mask: Option<TrieMask>,
}

/// Retrieves trie nodes by path.
pub trait TrieNodeProvider {
    /// Retrieves the trie node at `path`; `None` when it cannot be had.
    fn trie_node(&self, path: &Nibbles) -> Result<Option<RevealedNode>, SparseTrieError>;
}

impl<'a, P: TrieNodeProvider> TrieNodeProvider for &'a P {
    fn trie_node(&self, path: &Nibbles) -> (res: Result<Option<RevealedNode>, SparseTrieError>)
        ensures
            call_ensures(P::trie_node, (*self, path), res),
    {
        (**self).trie_node(path)
    }
}

/// Makes providers of blinded account and storage trie nodes.
pub trait TrieNodeProviderFactory {
    /// Provider of blinded account trie nodes.
    type AccountNodeProvider: TrieNodeProvider;
    /// Provider of blinded storage trie nodes.
    type StorageNodeProvider: TrieNodeProvider;

    /// Returns the account node provider.
    fn account_node_provider(&self) -> Self::AccountNodeProvider;

    /// Returns the storage node provider of the account with the given
    /// hashed address.
    fn storage_node_provider(&self, account: B256) -> Self::StorageNodeProvider;
}

impl<'a, F: TrieNodeProviderFactory> TrieNodeProviderFactory for &'a F {
    type AccountNodeProvider = F::AccountNodeProvider;
    type StorageNodeProvider = F::StorageNodeProvider;

    fn account_node_provider(&self) -> (res: Self::AccountNodeProvider)
        ensures
            call_ensures(F::account_node_provider, (*self,), res),
    {
        (**self).account_node_provider()
    }

    fn storage_node_provider(&self, account: B256) -> (res: Self::StorageNodeProvider)
        ensures
            call_ensures(F::storage_node_provider, (*self, account), res),
    {
        (**self).storage_node_provider(account)
    }
}

/// Factory of providers that never reveal a node.
#[derive(PartialEq, Eq, Clone, Default, Debug)]
pub struct DefaultTrieNodeProviderFactory;

impl TrieNodeProviderFactory for DefaultTrieNodeProviderFactory {
    type AccountNodeProvider = DefaultTrieNodeProvider;
    type StorageNodeProvider = DefaultTrieNodeProvider;

    fn account_node_provider(&self) -> (res: Self::AccountNodeProvider)
        ensures
            res == DefaultTrieNodeProvider,
    {
        DefaultTrieNodeProvider
    }

    fn storage_node_provider(&self, _account: B256) -> (res: Self::StorageNodeProvider)
        ensures
            res == DefaultTrieNodeProvider,
    {
        DefaultTrieNodeProvider
    }
}

/// Provider that always answers `Ok(None)`.
#[derive(PartialEq, Eq, Clone, Default, Debug)]
pub struct DefaultTrieNodeProvider;

impl TrieNodeProvider for DefaultTrieNodeProvider {
    fn trie_node(&self, _path: &Nibbles) -> (res: Result<Option<RevealedNode>, SparseTrieError>)
        ensures
            res matches Ok(None),
    {
        Ok(None)
    }
}

/// Provider that refuses to reveal any node, so that an update that needs a
/// blinded node fails instead of reading the database.
#[derive(PartialEq, Eq, Clone, Copy, Default, Debug)]
pub struct NoRevealProvider;

impl TrieNodeProvider for NoRevealProvider {
    fn trie_node(&self, _path: &Nibbles) -> (res: Result<Option<RevealedNode>, SparseTrieError>)
        ensures
            res matches Ok(None),
    {
        Ok(None)
    }
}

/// Pads a nibble path on the right with zero nibbles up to 64 nibbles and
/// packs it into a 32-byte key.
pub fn pad_path_to_key(path: &Nibbles) -> (key: B256)
    ensures
        b256_view(key) == padded_key(nibbles_view(*path)),
        b256_view(key).len() == 32,
        forall|i: int|
            0 <= i < 64 ==> #[trigger] nibble_at(b256_view(key), i) == padded_nibble(
                nibbles_view(*path),
                i,
            ),
{
    let mut padded = nibbles_pack(path);
    padded.resize(32, 0u8);
    assert(padded@ =~= padded_key(nibbles_view(*path)));
    proof {
        lemma_padded_key_keeps_path(nibbles_view(*path));
    }
    b256_from_slice(padded.as_slice())
}

proof fn lemma_split_byte(hi: u8, lo: u8)
    requires
        hi < 16,
        lo < 16,
    ensures
        ((hi * 16 + lo) as u8) / 16 == hi,
        ((hi * 16 + lo) as u8) % 16 == lo,
{
    assert(((hi * 16 + lo) as u8) / 16 == hi && ((hi * 16 + lo) as u8) % 16 == lo) by (bit_vector)
        requires
            hi < 16,
            lo < 16,
    ;
}

/// The nibble that position `i` of a key holds after padding the path `s`:
/// the path's nibble there, or zero past the path's end.
pub open spec fn padded_nibble(s: Seq<u8>, i: int) -> u8 {
    if i < s.len() {
        s[i] % 16
    } else {
        0u8
    }
}

/// Padding a path keeps the path: the key is 32 bytes, and read as 64
/// nibbles it holds the path's nibbles, in order, then zero nibbles.
pub proof fn lemma_padded_key_keeps_path(s: Seq<u8>)
    requires
        s.len() <= 64,
    ensures
        padded_key(s).len() == 32,
        forall|i: int| 0 <= i < 64 ==> #[trigger] nibble_at(padded_key(s), i) == padded_nibble(s, i),
{
    let k = padded_key(s);
    let p = packed(s);
    assert forall|i: int| 0 <= i < 64 implies #[trigger] nibble_at(k, i) == padded_nibble(s, i) by {
        let j = i / 2;
        if j < p.len() {
            assert(k[j] == packed_byte(s, j));
            let hi = s[2 * j] % 16;
            let lo: u8 = if 2 * j + 1 < s.len() { s[2 * j + 1] % 16 } else { 0 };
            lemma_split_byte(hi, lo);
            assert(packed_byte(s, j) == (hi * 16 + lo) as u8);
        } else {
            assert(k[j] == 0u8);
        }
    }
}


/// A byte sequence read as nibbles, high nibble of each byte first.
pub open spec fn unpacked(bytes: Seq<u8>) -> Seq<u8> {
    Seq::new(2 * bytes.len(), |i: int| nibble_at(bytes, i))
}

proof fn lemma_join_byte(x: u8)
    ensures
        (((x / 16) % 16) * 16 + (x % 16) % 16) as u8 == x,
{
    assert((((x / 16) % 16) * 16 + (x % 16) % 16) as u8 == x) by (bit_vector);
}

/// Unpacking a 32-byte key into its 64 nibbles and padding that path gives
/// the key back.
pub proof fn lemma_padded_key_of_unpacked(key: Seq<u8>)
    requires
        key.len() == 32,
    ensures
        padded_key(unpacked(key)) == key,
{
    let u = unpacked(key);
    assert forall|j: int| 0 <= j < 32 implies #[trigger] packed(u)[j] == key[j] by {
        assert(u[2 * j] == key[j] / 16);
        assert(u[2 * j + 1] == key[j] % 16);
        lemma_join_byte(key[j]);
    }
    assert(padded_key(u) =~= key);
}

} // verus!
