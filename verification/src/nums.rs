//! List-navigation cursor state: a selected row index and a scroll
//! offset ("skip") for a vertically scrollable list.
//!
//! The type is a pure coordinate holder: it does not know the list's
//! length or the viewport height, so bound checking is the caller's
//! responsibility. Moving past a boundary (up from index 0, or
//! decrementing a zero skip) is a caller contract violation, excluded
//! here by `requires`.

use vstd::prelude::*;

verus! {

/// Cursor state for a scrollable list: `index` is the zero-based row of
/// the highlighted item, `skip` the number of leading rows scrolled out
/// of view above the visible window.
#[derive(Clone, Copy, Debug)]
pub struct Num {
    pub index: usize,
    pub skip: u16,
}

/// The state after `go_up`: the previous row, same scroll skip.
pub open spec fn up_spec(n: Num) -> Num {
    Num { index: (n.index - 1) as usize, skip: n.skip }
}

/// The state after `go_down`: the next row, same scroll skip.
pub open spec fn down_spec(n: Num) -> Num {
    Num { index: (n.index + 1) as usize, skip: n.skip }
}

/// The state after `inc_skip`: one more row scrolled out of view.
pub open spec fn inc_skip_spec(n: Num) -> Num {
    Num { index: n.index, skip: (n.skip + 1) as u16 }
}

/// The state after `dec_skip`: one row scrolled back into view.
pub open spec fn dec_skip_spec(n: Num) -> Num {
    Num { index: n.index, skip: (n.skip - 1) as u16 }
}

impl Num {
    /// A fresh cursor: top of the list, nothing scrolled out of view.
    pub fn new() -> (n: Self)
        ensures
            n.index == 0,
            n.skip == 0,
    {
        Num { index: 0, skip: 0 }
    }

    /// Move the selection one row up. The caller must have checked that
    /// the selection is not already on the first row.
    pub fn go_up(&mut self)
        requires
            old(self).index > 0,
        ensures
            *final(self) == up_spec(*old(self)),
    {
        self.index -= 1;
    }

    /// Move the selection one row down. The caller must know the list
    /// length and avoid exceeding it; in particular the index must not
    /// already be at the maximum representable value.
    pub fn go_down(&mut self)
        requires
            old(self).index < usize::MAX,
        ensures
            *final(self) == down_spec(*old(self)),
    {
        self.index += 1;
    }

    /// Jump the selection to an absolute row. No validation that the
    /// target is in range: the caller owns that policy.
    pub fn go_bottom(&mut self, pos: usize)
        ensures
            final(self).index == pos,
            final(self).skip == old(self).skip,
    {
        self.index = pos;
    }

    /// Return to the top with nothing scrolled out of view; used when
    /// the viewed list changes identity.
    pub fn reset(&mut self)
        ensures
            final(self).index == 0,
            final(self).skip == 0,
    {
        self.index = 0;
        self.skip = 0;
    }

    /// Scroll one more row out of view above the window.
    pub fn inc_skip(&mut self)
        requires
            old(self).skip < u16::MAX,
        ensures
            *final(self) == inc_skip_spec(*old(self)),
    {
        self.skip += 1;
    }

    /// Scroll one row back into view. The caller must have checked that
    /// some row is scrolled out of view.
    pub fn dec_skip(&mut self)
        requires
            old(self).skip > 0,
        ensures
            *final(self) == dec_skip_spec(*old(self)),
    {
        self.skip -= 1;
    }
}

impl Default for Num {
    fn default() -> (n: Self)
        ensures
            n.index == 0,
            n.skip == 0,
    {
        Num::new()
    }
}

/// Law: moving the selection one row down and then one row up returns
/// the cursor to its starting state, for any start whose index can
/// still grow.
pub proof fn lemma_down_up_round_trip(n: Num)
    requires
        n.index < usize::MAX,
    ensures
        up_spec(down_spec(n)) == n,
{
}

/// Law: scrolling one row out of view and then one row back returns
/// the cursor to its starting state, for any start whose skip can
/// still grow.
pub proof fn lemma_inc_dec_skip_round_trip(n: Num)
    requires
        n.skip > 0,
        n.skip < u16::MAX,
    ensures
        dec_skip_spec(inc_skip_spec(n)) == n,
{
}

/// The list moves a surrounding input loop can ask for.
pub enum Move {
    Up,
    Down,
    Jump,
    List,
}

/// Declares std::path::PathBuf so a snapshot can carry the directory
/// path it belongs to. The path is an opaque key here: nothing in the
/// model reads it.
#[verifier::external_type_specification]
#[verifier::external_body]
pub struct ExPathBuf(std::path::PathBuf);

/// A saved snapshot of a list view, keyed by the directory it belongs
/// to: the cursor state to restore, and the terminal row the cursor
/// glyph was on.
#[derive(Debug)]
pub struct StateMemo {
    pub path: std::path::PathBuf,
    pub num: Num,
    pub cursor_pos: u16,
}

} // verus!
