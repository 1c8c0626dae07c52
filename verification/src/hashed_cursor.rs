//! Cursors over hashed accounts and hashed storage slots.
use crate::errors::DatabaseError;
use alloy_primitives::{B256, U256};
use vstd::prelude::*;

verus! {

#[verifier::external_type_specification]
#[verifier::external_body]
pub struct ExUint<const BITS: usize, const LIMBS: usize>(alloy_primitives::ruint::Uint<BITS, LIMBS>);

/// An account as the state trie stores it.
#[derive(Clone, Copy, Debug)]
pub struct Account {
    /// Account nonce.
    pub nonce: u64,
    /// Account balance.
    pub balance: U256,
    /// Hash of the account's bytecode, if it has code.
    pub bytecode_hash: Option<B256>,
}

/// Makes cursors over hashed accounts and over the hashed storage of an
/// account.
pub trait HashedCursorFactory {
    /// Cursor over hashed accounts.
    type AccountCursor<'a>: HashedCursor<Value = Account> where Self: 'a;

    /// Cursor over hashed storage slots.
    type StorageCursor<'a>: HashedStorageCursor<Value = U256> where Self: 'a;

    /// Opens a cursor over all hashed accounts.
    fn hashed_account_cursor(&self) -> Result<Self::AccountCursor<'_>, DatabaseError>;

    /// Opens a cursor over the hashed storage of the account with the given
    /// hashed address.
    fn hashed_storage_cursor(&self, hashed_address: B256) -> Result<
        Self::StorageCursor<'_>,
        DatabaseError,
    >;
}

/// A cursor over hashed entries, in lexicographic order of their keys.
pub trait HashedCursor {
    /// The value of an entry.
    type Value: core::fmt::Debug;

    /// Moves to the first entry whose key is at least `key` and returns it.
    fn seek(&mut self, key: B256) -> Result<Option<(B256, Self::Value)>, DatabaseError>;

    /// Moves to the next entry and returns it.
    fn next(&mut self) -> Result<Option<(B256, Self::Value)>, DatabaseError>;

    /// Resets the cursor; a seek must come next.
    fn reset(&mut self);
}

/// A cursor over the hashed storage of one account.
pub trait HashedStorageCursor: HashedCursor {
    /// Whether the account has no storage.
    fn is_storage_empty(&mut self) -> Result<bool, DatabaseError>;

    /// Selects the account, by hashed address; a seek must come next.
    fn set_hashed_address(&mut self, hashed_address: B256);
}

impl<'c, C: HashedCursor> HashedCursor for &'c mut C {
    type Value = C::Value;

    fn seek(&mut self, key: B256) -> (res: Result<Option<(B256, Self::Value)>, DatabaseError>)
        ensures
            exists|r: &mut C|
                #![auto]
                mut_ref_current(r) == **old(self) && mut_ref_future(r) == **final(self)
                    && call_ensures(C::seek, (r, key), res),
    {
        (**self).seek(key)
    }

    fn next(&mut self) -> (res: Result<Option<(B256, Self::Value)>, DatabaseError>)
        ensures
            exists|r: &mut C|
                #![auto]
                mut_ref_current(r) == **old(self) && mut_ref_future(r) == **final(self)
                    && call_ensures(C::next, (r,), res),
    {
        (**self).next()
    }

    fn reset(&mut self)
        ensures
            exists|r: &mut C|
                #![auto]
                mut_ref_current(r) == **old(self) && mut_ref_future(r) == **final(self)
                    && call_ensures(C::reset, (r,), ()),
    {
        (**self).reset()
    }
}

impl<'c, C: HashedStorageCursor> HashedStorageCursor for &'c mut C {
    fn is_storage_empty(&mut self) -> (res: Result<bool, DatabaseError>)
        ensures
            exists|r: &mut C|
                #![auto]
                mut_ref_current(r) == **old(self) && mut_ref_future(r) == **final(self)
                    && call_ensures(C::is_storage_empty, (r,), res),
    {
        (**self).is_storage_empty()
    }

    fn set_hashed_address(&mut self, hashed_address: B256)
        ensures
            exists|r: &mut C|
                #![auto]
                mut_ref_current(r) == **old(self) && mut_ref_future(r) == **final(self)
                    && call_ensures(C::set_hashed_address, (r, hashed_address), ()),
    {
        (**self).set_hashed_address(hashed_address)
    }
}

} // verus!
