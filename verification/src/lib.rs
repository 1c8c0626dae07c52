//! Verified core of trie paths, trie node providers, trie cursors and trie errors.
pub mod nibbles;
pub mod errors;
pub mod provider;
pub mod trie_cursor;
pub mod hashed_cursor;
pub mod node;
pub mod execute;
pub mod progress;
pub mod executor;
