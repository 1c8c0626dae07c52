use alloy_primitives::{B256, U256};
use reth_core::errors::DatabaseError;
use reth_core::hashed_cursor::{Account, HashedCursor, HashedStorageCursor};
use reth_core::node::{NodePrimitives, ReceiptTy, TxTy};

struct Slots {
    address: B256,
    entries: Vec<(B256, U256)>,
    position: usize,
}

impl HashedCursor for Slots {
    type Value = U256;

    fn seek(&mut self, key: B256) -> Result<Option<(B256, U256)>, DatabaseError> {
        self.position = self.entries.iter().position(|(k, _)| *k >= key).unwrap_or(self.entries.len());
        Ok(self.entries.get(self.position).copied())
    }

    fn next(&mut self) -> Result<Option<(B256, U256)>, DatabaseError> {
        self.position += 1;
        Ok(self.entries.get(self.position).copied())
    }

    fn reset(&mut self) {
        self.position = 0;
    }
}

impl HashedStorageCursor for Slots {
    fn is_storage_empty(&mut self) -> Result<bool, DatabaseError> {
        Ok(self.entries.is_empty())
    }

    fn set_hashed_address(&mut self, hashed_address: B256) {
        self.address = hashed_address;
    }
}

#[test]
fn storage_cursor_through_mut_ref() {
    let mut slots = Slots {
        address: B256::ZERO,
        entries: vec![(B256::repeat_byte(1), U256::from(10)), (B256::repeat_byte(2), U256::from(20))],
        position: 0,
    };
    let mut by_ref = &mut slots;
    HashedStorageCursor::set_hashed_address(&mut by_ref, B256::repeat_byte(9));
    assert_eq!(HashedStorageCursor::is_storage_empty(&mut by_ref).unwrap(), false);
    let first = HashedCursor::seek(&mut by_ref, B256::repeat_byte(2)).unwrap();
    assert_eq!(first, Some((B256::repeat_byte(2), U256::from(20))));
    assert_eq!(HashedCursor::next(&mut by_ref).unwrap(), None);
    assert_eq!(slots.address, B256::repeat_byte(9));
}

#[test]
fn account_is_plain_data() {
    let account = Account { nonce: 3, balance: U256::from(100), bytecode_hash: None };
    let copy = account;
    assert_eq!(copy.nonce, 3);
    assert_eq!(copy.balance, U256::from(100));
    assert!(copy.bytecode_hash.is_none());
}

#[derive(Clone, Default, Debug, PartialEq, Eq)]
struct Primitives;

impl NodePrimitives for Primitives {
    type Block = Vec<u8>;
    type BlockHeader = u64;
    type BlockBody = Vec<String>;
    type SignedTx = String;
    type Receipt = bool;
}

#[test]
fn node_primitive_aliases_name_the_types() {
    let tx: TxTy<Primitives> = "tx".to_string();
    let receipt: ReceiptTy<Primitives> = true;
    assert_eq!(tx, "tx");
    assert!(receipt);
}
