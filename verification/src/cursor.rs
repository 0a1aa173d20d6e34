//! The navigation cursor: a single position over the record store, with
//! bounded single-step operations and current-record lookup.
//!
//! Navigation is strictly sequential: no wraparound, no arbitrary seek.
//! On a non-empty store the position always stays within bounds; on an
//! empty store it stays clamped to zero and lookup reports no record.
//! Once a store is loaded, cursor operations never fail: out-of-range
//! steps are clamped, not errored.

use vstd::prelude::*;

use crate::record::{Record, RecordStore};

verus! {

/// Whether a position is valid for a store of `len` records: clamped to
/// zero when the store is empty, strictly within bounds otherwise.
pub open spec fn valid_pos(pos: int, len: int) -> bool {
    if len == 0 {
        pos == 0
    } else {
        0 <= pos < len
    }
}

/// The position after one backward step: a no-op at position zero,
/// otherwise one less.
pub open spec fn spec_step_prev(pos: int) -> int {
    if pos == 0 {
        0
    } else {
        pos - 1
    }
}

/// The position after one forward step over `len` records: a no-op on an
/// empty store or at the last valid position, otherwise one more.
pub open spec fn spec_step_next(pos: int, len: int) -> int {
    if len == 0 || pos == len - 1 {
        pos
    } else {
        pos + 1
    }
}

/// The navigation pointer into a record store. Mutated only by the step
/// operations; it never jumps arbitrarily.
#[derive(Clone, Copy, PartialEq, Eq, Structural, Debug)]
pub struct Cursor {
    position: usize,
}

impl Cursor {
    /// The current position.
    pub closed spec fn pos(self) -> int {
        self.position as int
    }

    /// Whether the cursor is valid for `store`.
    pub open spec fn valid_for(self, store: RecordStore) -> bool {
        valid_pos(self.pos(), store@.len() as int)
    }

    /// A fresh cursor at position zero.
    pub fn new() -> (r: Cursor)
        ensures
            r.pos() == 0,
    {
        Cursor { position: 0 }
    }

    /// Whether the cursor is valid for `store`.
    pub fn is_valid_for(&self, store: &RecordStore) -> (r: bool)
        ensures
            r == self.valid_for(*store),
    {
        if store.is_empty() {
            self.position == 0
        } else {
            self.position < store.len()
        }
    }

    /// The record at the current position, or none if the store is
    /// empty.
    pub fn current<'a>(&self, store: &'a RecordStore) -> (r: Option<&'a Record>)
        requires
            self.valid_for(*store),
        ensures
            match r {
                None => store@.len() == 0,
                Some(rec) => store@.len() > 0 && *rec == store@[self.pos()],
            },
    {
        if store.is_empty() {
            None
        } else {
            Some(store.get(self.position))
        }
    }

    /// One backward step: a no-op at position zero, otherwise one less.
    pub fn step_previous(&mut self)
        ensures
            final(self).pos() == spec_step_prev(old(self).pos()),
    {
        if self.position > 0 {
            self.position = self.position - 1;
        }
    }

    /// One forward step: a no-op on an empty store or at the last valid
    /// position, otherwise one more.
    pub fn step_next(&mut self, store: &RecordStore)
        requires
            old(self).valid_for(*store),
        ensures
            final(self).pos() == spec_step_next(old(self).pos(), store@.len() as int),
            final(self).valid_for(*store),
    {
        let len = store.len();
        if len > 0 && self.position < len - 1 {
            self.position = self.position + 1;
        }
    }
}

/// Both step operations keep a valid cursor valid; in particular a
/// backward step never leaves the store's bounds and a forward step
/// never passes the last record.
pub proof fn lemma_steps_preserve_validity(pos: int, len: int)
    requires
        valid_pos(pos, len),
    ensures
        valid_pos(spec_step_prev(pos), len),
        valid_pos(spec_step_next(pos, len), len),
{
}

/// At the boundaries the step operations are no-ops, and repeating them
/// there changes nothing: a backward step at position zero and a forward
/// step at the last valid position are both idempotent.
pub proof fn lemma_boundary_steps_idempotent(pos: int, len: int)
    requires
        valid_pos(pos, len),
    ensures
        pos == 0 ==> spec_step_prev(pos) == pos && spec_step_prev(spec_step_prev(pos)) == pos,
        len > 0 && pos == len - 1 ==> spec_step_next(pos, len) == pos && spec_step_next(
            spec_step_next(pos, len),
            len,
        ) == pos,
{
}

/// On an empty store navigation is inert: any number of steps in either
/// direction leaves the position clamped to zero, so current-record
/// lookup reports none regardless of prior step calls.
pub proof fn lemma_empty_store_navigation_inert(pos: int)
    requires
        valid_pos(pos, 0),
    ensures
        pos == 0,
        spec_step_prev(pos) == 0,
        spec_step_next(pos, 0) == 0,
{
}

} // verus!
