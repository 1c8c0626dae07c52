use alloy_primitives::B256;
use alloy_trie::{BranchNodeCompact, TrieMask};
use nybbles::Nibbles;
use reth_core::errors::DatabaseError;
use reth_core::trie_cursor::{transpose, TrieCursor, TrieCursorIter};

/// A cursor over a sorted list of entries.
struct ListCursor {
    entries: Vec<(Nibbles, BranchNodeCompact)>,
    position: usize,
    seeks: usize,
    fail_next: bool,
}

fn node(mask: u16) -> BranchNodeCompact {
    BranchNodeCompact::new(TrieMask::new(mask), TrieMask::new(0), TrieMask::new(0), vec![], None)
}

fn cursor(paths: &[&[u8]]) -> ListCursor {
    ListCursor {
        entries: paths.iter().enumerate().map(|(i, p)| (Nibbles::from_nibbles(p), node(1 << i))).collect(),
        position: 0,
        seeks: 0,
        fail_next: false,
    }
}

impl TrieCursor for ListCursor {
    fn seek_exact(&mut self, key: Nibbles) -> Result<Option<(Nibbles, BranchNodeCompact)>, DatabaseError> {
        Ok(self.seek(key)?.filter(|(k, _)| *k == key))
    }

    fn seek(&mut self, key: Nibbles) -> Result<Option<(Nibbles, BranchNodeCompact)>, DatabaseError> {
        self.seeks += 1;
        self.position = self.entries.iter().position(|(k, _)| *k >= key).unwrap_or(self.entries.len());
        Ok(self.entries.get(self.position).cloned())
    }

    fn next(&mut self) -> Result<Option<(Nibbles, BranchNodeCompact)>, DatabaseError> {
        if self.fail_next {
            return Err(DatabaseError::Decode);
        }
        self.position += 1;
        Ok(self.entries.get(self.position).cloned())
    }

    fn current(&mut self) -> Result<Option<Nibbles>, DatabaseError> {
        Ok(self.entries.get(self.position).map(|(k, _)| *k))
    }

    fn reset(&mut self) {
        self.position = 0;
    }
}

#[test]
fn iterates_all_entries_from_the_empty_path() {
    let mut c = cursor(&[&[0x1], &[0x1, 0x2], &[0x3]]);
    let mut iter = TrieCursorIter::new(&mut c);
    let mut seen = Vec::new();
    while let Some(item) = iter.next() {
        seen.push(item.unwrap().0);
    }
    assert_eq!(
        seen,
        vec![
            Nibbles::from_nibbles([0x1]),
            Nibbles::from_nibbles([0x1, 0x2]),
            Nibbles::from_nibbles([0x3])
        ]
    );
    assert_eq!(c.seeks, 1);
}

#[test]
fn empty_cursor_yields_nothing() {
    let mut c = cursor(&[]);
    let mut iter = TrieCursorIter::from(&mut c);
    assert!(iter.next().is_none());
    assert!(iter.next().is_none());
}

#[test]
fn seek_answer_is_yielded_first_and_once() {
    let mut c = cursor(&[&[0x4], &[0x5]]);
    let first = Ok(Some((Nibbles::from_nibbles([0x9]), node(0x8000))));
    let mut iter = TrieCursorIter::from_seek(&mut c, first);
    assert_eq!(iter.next().unwrap().unwrap().0, Nibbles::from_nibbles([0x9]));
    // the cursor was never seeked, so next moves from position 0 to 1
    assert_eq!(iter.next().unwrap().unwrap().0, Nibbles::from_nibbles([0x5]));
    assert!(iter.next().is_none());
}

#[test]
fn failures_are_items() {
    let mut c = cursor(&[&[0x1]]);
    c.fail_next = true;
    let mut iter = TrieCursorIter::new(&mut c);
    assert!(iter.next().unwrap().is_ok());
    assert!(matches!(iter.next(), Some(Err(DatabaseError::Decode))));
    let mut iter = TrieCursorIter::from_seek(&mut c, Err(DatabaseError::Decode));
    assert!(matches!(iter.next(), Some(Err(DatabaseError::Decode))));
}

#[test]
fn transpose_matches_result_transpose() {
    let a: Result<Option<u8>, DatabaseError> = Ok(Some(3));
    assert!(matches!(transpose(a), Some(Ok(3))));
    let b: Result<Option<u8>, DatabaseError> = Ok(None);
    assert!(transpose(b).is_none());
    let c: Result<Option<u8>, DatabaseError> = Err(DatabaseError::Decode);
    assert!(matches!(transpose(c), Some(Err(DatabaseError::Decode))));
}

#[test]
fn cursor_through_mut_ref() {
    let mut c = cursor(&[&[0x2]]);
    let mut r = &mut c;
    assert_eq!(TrieCursor::seek(&mut r, Nibbles::new()).unwrap().unwrap().0, Nibbles::from_nibbles([0x2]));
    assert_eq!(TrieCursor::current(&mut r).unwrap(), Some(Nibbles::from_nibbles([0x2])));
    let _ = B256::ZERO;
}

#[test]
fn pending_seek_answer_does_not_move_the_cursor() {
    let mut c = cursor(&[&[0x1], &[0x2], &[0x3]]);
    {
        let mut iter = TrieCursorIter::new(&mut c);
        assert_eq!(iter.next().unwrap().unwrap().0, Nibbles::from_nibbles([0x1]));
    }
    assert_eq!(c.position, 0);
    assert_eq!(c.seeks, 1);
}

#[test]
fn empty_seek_answer_moves_on_with_next() {
    // The seek finds nothing, so the first item comes from the cursor's next.
    let mut c = cursor(&[&[0x7]]);
    c.position = 0;
    let mut iter = TrieCursorIter::from_seek(&mut c, Ok(None));
    assert!(iter.next().is_none());
    assert_eq!(c.position, 1);
}
