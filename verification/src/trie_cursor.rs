//! Cursors over the stored branch nodes of account and storage tries.
use crate::errors::DatabaseError;
use crate::nibbles::nibbles_view;
use alloy_primitives::B256;
use alloy_trie::BranchNodeCompact;
use nybbles::Nibbles;
use vstd::prelude::*;
use vstd::std_specs::convert::FromSpecImpl;

verus! {

#[verifier::external_type_specification]
#[verifier::external_body]
pub struct ExBranchNodeCompact(alloy_trie::BranchNodeCompact);

/// `Nibbles::default()`: the empty path.
#[verifier::external_body]
pub(crate) fn empty_nibbles() -> (path: Nibbles)
    ensures
        nibbles_view(path) == Seq::<u8>::empty(),
{
    Nibbles::default()
}

/// Makes cursors over the stored branch nodes of the account trie and of
/// the storage tries.
pub trait TrieCursorFactory {
    /// Account trie cursor.
    type AccountTrieCursor<'a>: TrieCursor where Self: 'a;

    /// Storage trie cursor.
    type StorageTrieCursor<'a>: TrieStorageCursor where Self: 'a;

    /// Opens a cursor over the account trie.
    fn account_trie_cursor(&self) -> Result<Self::AccountTrieCursor<'_>, DatabaseError>;

    /// Opens a cursor over the storage trie of the account with the given
    /// hashed address.
    fn storage_trie_cursor(&self, hashed_address: B256) -> Result<
        Self::StorageTrieCursor<'_>,
        DatabaseError,
    >;
}

/// A cursor over stored trie branch nodes, in lexicographic order of their
/// paths.
pub trait TrieCursor {
    /// Moves to `key` and returns its entry when it is there.
    fn seek_exact(&mut self, key: Nibbles) -> Result<Option<(Nibbles, BranchNodeCompact)>, DatabaseError>;

    /// Moves to the first entry whose path is at least `key` and returns it.
    fn seek(&mut self, key: Nibbles) -> Result<Option<(Nibbles, BranchNodeCompact)>, DatabaseError>;

    /// Moves to the next entry and returns it.
    fn next(&mut self) -> Result<Option<(Nibbles, BranchNodeCompact)>, DatabaseError>;

    /// Returns the path of the current entry.
    fn current(&mut self) -> Result<Option<Nibbles>, DatabaseError>;

    /// Resets the cursor; a seek must come next.
    fn reset(&mut self);
}

impl<'c, C: TrieCursor> TrieCursor for &'c mut C {
    fn seek_exact(&mut self, key: Nibbles) -> (res: Result<Option<(Nibbles, BranchNodeCompact)>, DatabaseError>)
        ensures
            exists|r: &mut C|
                #![auto]
                mut_ref_current(r) == **old(self) && mut_ref_future(r) == **final(self)
                    && call_ensures(C::seek_exact, (r, key), res),
    {
        (**self).seek_exact(key)
    }

    fn seek(&mut self, key: Nibbles) -> (res: Result<Option<(Nibbles, BranchNodeCompact)>, DatabaseError>)
        ensures
            exists|r: &mut C|
                #![auto]
                mut_ref_current(r) == **old(self) && mut_ref_future(r) == **final(self)
                    && call_ensures(C::seek, (r, key), res),
    {
        (**self).seek(key)
    }

    fn next(&mut self) -> (res: Result<Option<(Nibbles, BranchNodeCompact)>, DatabaseError>)
        ensures
            exists|r: &mut C|
                #![auto]
                mut_ref_current(r) == **old(self) && mut_ref_future(r) == **final(self)
                    && call_ensures(C::next, (r,), res),
    {
        (**self).next()
    }

    fn current(&mut self) -> (res: Result<Option<Nibbles>, DatabaseError>)
        ensures
            exists|r: &mut C|
                #![auto]
                mut_ref_current(r) == **old(self) && mut_ref_future(r) == **final(self)
                    && call_ensures(C::current, (r,), res),
    {
        (**self).current()
    }

    fn reset(&mut self)
        ensures
            exists|r: &mut C|
                #![auto]
                mut_ref_current(r) == **old(self) && mut_ref_future(r) == **final(self)
                    && call_ensures(C::reset, (r,), ()),
    {
        (**self).reset()
    }
}

/// A cursor over the stored branch nodes of one account's storage trie.
pub trait TrieStorageCursor: TrieCursor {
    /// Selects the account, by hashed address; a seek must come next.
    fn set_hashed_address(&mut self, hashed_address: B256);
}

impl<'c, C: TrieStorageCursor> TrieStorageCursor for &'c mut C {
    fn set_hashed_address(&mut self, hashed_address: B256)
        ensures
            exists|r: &mut C|
                #![auto]
                mut_ref_current(r) == **old(self) && mut_ref_future(r) == **final(self)
                    && call_ensures(C::set_hashed_address, (r, hashed_address), ()),
    {
        (**self).set_hashed_address(hashed_address)
    }
}

/// Turns the answer of a cursor move into the item an iterator yields:
/// an entry or a failure is an item, the end of the entries is none.
pub open spec fn as_item<T, E>(r: Result<Option<T>, E>) -> Option<Result<T, E>> {
    match r {
        Ok(Some(entry)) => Some(Ok(entry)),
        Ok(None) => None,
        Err(err) => Some(Err(err)),
    }
}

/// `Result::transpose` on the answer of a cursor move.
pub fn transpose<T, E>(r: Result<Option<T>, E>) -> (item: Option<Result<T, E>>)
    ensures
        item == as_item(r),
{
    match r {
        Ok(Some(entry)) => Some(Ok(entry)),
        Ok(None) => None,
        Err(err) => Some(Err(err)),
    }
}

/// Iterates a [`TrieCursor`] from the empty path: first the answer of the
/// initial seek, then the answers of `next`.
pub struct TrieCursorIter<'a, C> {
    cursor: &'a mut C,
    /// The answer of the initial seek while it has not been yielded.
    initial: Option<Result<(Nibbles, BranchNodeCompact), DatabaseError>>,
}

impl<'a, C> TrieCursorIter<'a, C> {
    /// The item that the next call of `next` yields without moving the
    /// cursor, if any.
    pub closed spec fn pending(&self) -> Option<Result<(Nibbles, BranchNodeCompact), DatabaseError>> {
        self.initial
    }

    /// The cursor the iterator holds, as it stands now.
    pub closed spec fn cursor_now(&self) -> C {
        *self.cursor
    }
}

impl<'a, C: TrieCursor> TrieCursorIter<'a, C> {
    /// Seeks the cursor to the empty path and starts iterating from there.
    pub fn new(cursor: &'a mut C) -> (iter: Self)
        ensures
            exists|r: &mut C, key: Nibbles, first: Result<Option<(Nibbles, BranchNodeCompact)>, DatabaseError>|
                #![auto]
                mut_ref_current(r) == *old(cursor) && nibbles_view(key) == Seq::<u8>::empty()
                    && call_ensures(C::seek, (r, key), first) && iter.pending() == as_item(first)
                    && iter.cursor_now() == mut_ref_future(r),
    {
        let start = empty_nibbles();
        let first = cursor.seek(start);
        Self::from_seek(cursor, first)
    }

    /// Starts iterating from `first`, the answer of seeking the cursor to
    /// the empty path.
    pub fn from_seek(
        cursor: &'a mut C,
        first: Result<Option<(Nibbles, BranchNodeCompact)>, DatabaseError>,
    ) -> (iter: Self)
        ensures
            iter.pending() == as_item(first),
            iter.cursor_now() == *old(cursor),
    {
        let initial = transpose(first);
        TrieCursorIter { cursor, initial }
    }

    /// Yields the pending seek answer if there is one, else moves the cursor
    /// to its next entry and yields that.
    pub fn next(&mut self) -> (item: Option<Result<(Nibbles, BranchNodeCompact), DatabaseError>>)
        ensures
            final(self).pending() is None,
            old(self).pending() is Some ==> item == old(self).pending() && final(self).cursor_now()
                == old(self).cursor_now(),
            old(self).pending() is None ==> exists|
                r: &mut C,
                res: Result<Option<(Nibbles, BranchNodeCompact)>, DatabaseError>,
            |
                #![auto]
                mut_ref_current(r) == old(self).cursor_now() && mut_ref_future(r)
                    == final(self).cursor_now() && call_ensures(C::next, (r,), res) && item
                    == as_item(res),
    {
        if let Some(initial) = self.initial.take() {
            return Some(initial);
        }
        let moved = self.cursor.next();
        transpose(moved)
    }
}

impl<'a, C: TrieCursor> From<&'a mut C> for TrieCursorIter<'a, C> {
    /// Seeks the cursor to the empty path and starts iterating from there,
    /// as `new` does.
    fn from(cursor: &'a mut C) -> (iter: Self)
        ensures
            exists|r: &mut C, key: Nibbles, first: Result<Option<(Nibbles, BranchNodeCompact)>, DatabaseError>|
                #![auto]
                mut_ref_current(r) == *old(cursor) && nibbles_view(key) == Seq::<u8>::empty()
                    && call_ensures(C::seek, (r, key), first) && iter.pending() == as_item(first)
                    && iter.cursor_now() == mut_ref_future(r),
    {
        Self::new(cursor)
    }
}

impl<'a, C: TrieCursor> FromSpecImpl<&'a mut C> for TrieCursorIter<'a, C> {
    /// The iterator depends on what the cursor's seek answers, not on the
    /// cursor alone, so `from` is not claimed to be a function of it.
    open spec fn obeys_from_spec() -> bool {
        false
    }

    open spec fn from_spec(cursor: &'a mut C) -> Self {
        arbitrary()
    }
}

} // verus!
