use alloy_primitives::{B256, U256};
use reth_core::hashed_cursor::Account;
use reth_core::progress::{
    intermediate_state_from_checkpoint, IntermediateStateRootState, MerkleCheckpoint,
    StorageRootMerkleCheckpoint,
};

/// A hash builder state: a list of nodes.
#[derive(Clone, Debug, PartialEq)]
struct State(Vec<u8>);

/// A hash builder made from a state: the number of its nodes.
#[derive(Debug, PartialEq)]
struct Builder(usize);

impl From<State> for Builder {
    fn from(s: State) -> Self {
        Builder(s.0.len())
    }
}

/// A stored walker entry, and the cursor entry it becomes.
#[derive(Debug, PartialEq)]
struct Stored(u8);
#[derive(Debug, PartialEq)]
struct Cursor(u16);

impl From<Stored> for Cursor {
    fn from(s: Stored) -> Self {
        Cursor(s.0 as u16 * 2)
    }
}

#[test]
fn checkpoint_without_storage_part() {
    let checkpoint = MerkleCheckpoint {
        target_block: 9,
        last_account_key: B256::repeat_byte(1),
        walker_stack: vec![Stored(1), Stored(2)],
        state: State(vec![1, 2, 3]),
        storage_root_checkpoint: None,
    };
    let r: IntermediateStateRootState<Builder, Cursor> = intermediate_state_from_checkpoint(checkpoint);
    assert_eq!(r.account_root_state.hash_builder, Builder(3));
    assert_eq!(r.account_root_state.walker_stack, vec![Cursor(2), Cursor(4)]);
    assert_eq!(r.account_root_state.last_hashed_key, B256::repeat_byte(1));
    assert!(r.storage_root_state.is_none());
}

#[test]
fn checkpoint_with_storage_part() {
    let checkpoint = MerkleCheckpoint {
        target_block: 9,
        last_account_key: B256::repeat_byte(1),
        walker_stack: vec![],
        state: State(vec![]),
        storage_root_checkpoint: Some(StorageRootMerkleCheckpoint {
            last_storage_key: B256::repeat_byte(2),
            walker_stack: vec![Stored(5)],
            state: State(vec![9, 9]),
            account_nonce: 4,
            account_balance: U256::from(1000),
            account_bytecode_hash: B256::repeat_byte(3),
        }),
    };
    let r: IntermediateStateRootState<Builder, Cursor> = checkpoint.into();
    let s = r.storage_root_state.unwrap();
    assert_eq!(s.state.hash_builder, Builder(2));
    assert_eq!(s.state.walker_stack, vec![Cursor(10)]);
    assert_eq!(s.state.last_hashed_key, B256::repeat_byte(2));
    let Account { nonce, balance, bytecode_hash } = s.account;
    assert_eq!(nonce, 4);
    assert_eq!(balance, U256::from(1000));
    assert_eq!(bytecode_hash, Some(B256::repeat_byte(3)));
}
