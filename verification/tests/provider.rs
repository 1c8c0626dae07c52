use alloy_primitives::B256;
use nybbles::Nibbles;
use reth_core::provider::{
    pad_path_to_key, DefaultTrieNodeProvider, DefaultTrieNodeProviderFactory, NoRevealProvider,
    TrieNodeProvider, TrieNodeProviderFactory,
};

fn key_of(bytes: &[u8]) -> B256 {
    let mut out = [0u8; 32];
    out[..bytes.len()].copy_from_slice(bytes);
    B256::from(out)
}

#[test]
fn pad_empty_path_is_zero_key() {
    assert_eq!(pad_path_to_key(&Nibbles::new()), B256::ZERO);
}

#[test]
fn pad_odd_path_puts_last_nibble_high() {
    let path = Nibbles::from_nibbles([0x0A, 0x0B, 0x0C]);
    assert_eq!(pad_path_to_key(&path), key_of(&[0xAB, 0xC0]));
}

#[test]
fn pad_even_path() {
    let path = Nibbles::from_nibbles([0x01, 0x02, 0x0f, 0x00]);
    assert_eq!(pad_path_to_key(&path), key_of(&[0x12, 0xf0]));
}

#[test]
fn pad_full_path_is_the_packed_path() {
    let nibbles: Vec<u8> = (0..64u8).map(|i| i % 16).collect();
    let path = Nibbles::from_nibbles(&nibbles);
    let mut expected = [0u8; 32];
    for i in 0..32 {
        expected[i] = (nibbles[2 * i] << 4) | nibbles[2 * i + 1];
    }
    assert_eq!(pad_path_to_key(&path), B256::from(expected));
}

#[test]
fn pad_keeps_path_nibbles_and_pads_with_zero_nibbles() {
    let nibbles = [0x3u8, 0x7, 0xe, 0x1, 0x9];
    let key = pad_path_to_key(&Nibbles::from_nibbles(nibbles));
    let unpacked = Nibbles::unpack(key);
    assert_eq!(unpacked.len(), 64);
    for i in 0..64 {
        let expected = if i < nibbles.len() { nibbles[i] } else { 0 };
        assert_eq!(unpacked.get_unchecked(i), expected);
    }
}

#[test]
fn default_provider_reveals_nothing() {
    let provider = DefaultTrieNodeProvider;
    let path = Nibbles::from_nibbles([0x1, 0x2]);
    assert!(matches!(provider.trie_node(&path), Ok(None)));
    assert!(matches!((&provider).trie_node(&Nibbles::new()), Ok(None)));
}

#[test]
fn no_reveal_provider_reveals_nothing() {
    let provider = NoRevealProvider;
    assert!(matches!(provider.trie_node(&Nibbles::from_nibbles([0xf])), Ok(None)));
}

#[test]
fn default_factory_makes_default_providers() {
    let factory = DefaultTrieNodeProviderFactory;
    assert_eq!(factory.account_node_provider(), DefaultTrieNodeProvider);
    assert_eq!(factory.storage_node_provider(B256::repeat_byte(7)), DefaultTrieNodeProvider);
    let by_ref = &factory;
    assert!(matches!(by_ref.storage_node_provider(B256::ZERO).trie_node(&Nibbles::new()), Ok(None)));
}

#[test]
fn pad_of_unpacked_key_is_the_key() {
    let key = B256::from([0x5au8; 32]);
    assert_eq!(pad_path_to_key(&Nibbles::unpack(key)), key);
    let mut bytes = [0u8; 32];
    for (i, b) in bytes.iter_mut().enumerate() {
        *b = (i as u8).wrapping_mul(37);
    }
    let key = B256::from(bytes);
    assert_eq!(pad_path_to_key(&Nibbles::unpack(key)), key);
}
