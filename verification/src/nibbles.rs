//! Nibble paths and 32-byte words, as this library sees them.
use alloy_primitives::B256;
use nybbles::Nibbles;
use vstd::prelude::*;

verus! {

#[verifier::external_type_specification]
#[verifier::external_body]
pub struct ExNibbles(nybbles::Nibbles);

#[verifier::external_type_specification]
#[verifier::external_body]
pub struct ExFixedBytes<const N: usize>(alloy_primitives::FixedBytes<N>);

/// The nibbles that a `Nibbles` value holds, first to last.
pub uninterp spec fn nibbles_view(n: Nibbles) -> Seq<u8>;

/// The bytes that a `B256` holds, first to last.
pub uninterp spec fn b256_view(b: B256) -> Seq<u8>;

/// The byte that packs the nibbles at `2 * i` and `2 * i + 1` (a missing
/// second nibble counts as zero).
pub open spec fn packed_byte(s: Seq<u8>, i: int) -> u8 {
    let hi = s[2 * i] % 16;
    let lo = if 2 * i + 1 < s.len() { s[2 * i + 1] % 16 } else { 0 };
    (hi * 16 + lo) as u8
}

/// Two nibbles per byte, high nibble first; an odd last nibble fills the high
/// half of the last byte.
pub open spec fn packed(s: Seq<u8>) -> Seq<u8> {
    Seq::new(((s.len() + 1) / 2) as nat, |i: int| packed_byte(s, i))
}

/// The packed nibbles, followed by zero bytes up to 32 bytes.
pub open spec fn padded_key(s: Seq<u8>) -> Seq<u8> {
    packed(s) + Seq::new((32 - packed(s).len()) as nat, |i: int| 0u8)
}

/// `Nibbles::pack`: the nibbles two to a byte, high nibble first, the last
/// nibble of an odd-length path in the high half of the last byte. A
/// `Nibbles` holds at most 64 nibbles, so at most 32 bytes come back.
#[verifier::external_body]
pub(crate) fn nibbles_pack(path: &Nibbles) -> (bytes: Vec<u8>)
    ensures
        bytes@ == packed(nibbles_view(*path)),
        bytes@.len() <= 32,
{
    path.pack().to_vec()
}

/// `B256::from_slice` on exactly 32 bytes: a `B256` holding those bytes.
#[verifier::external_body]
pub(crate) fn b256_from_slice(bytes: &[u8]) -> (key: B256)
    requires
        bytes@.len() == 32,
    ensures
        b256_view(key) == bytes@,
{
    B256::from_slice(bytes)
}

/// The nibble at position `i` of a byte sequence read as nibbles, high nibble
/// of each byte first.
pub open spec fn nibble_at(bytes: Seq<u8>, i: int) -> u8 {
    if i % 2 == 0 {
        bytes[i / 2] / 16
    } else {
        bytes[i / 2] % 16
    }
}

} // verus!
