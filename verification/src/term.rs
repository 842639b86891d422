//! Width-aware command-line text cursor.
//!
//! An editable command line is a sequence of Unicode characters. The
//! cursor tracks a logical character position together with the
//! terminal column of that position, which is the sum of the display
//! widths of all characters before it. Left/right navigation moves by
//! the display width of the adjacent character, so that the rendered
//! cursor stays aligned even with double-width or zero-width
//! characters. A character with no defined display width (a control
//! character) is never crossed: the cursor refuses to move over it, in
//! both directions, so the column stays consistent.
//!
//! The functions here are pure state transitions: each returns the
//! number of columns the physical terminal cursor must be moved, and
//! the surrounding I/O layer issues the actual terminal instruction.

use vstd::prelude::*;

verus! {

/// Display width of a character in terminal columns, as the width table
/// reports it: `None` for a character with no defined width.
pub uninterp spec fn char_width(c: char) -> Option<usize>;

/// Relies on unicode_width::UnicodeWidthChar::width: the result depends
/// on the character alone.
#[verifier::external_body]
fn lookup_width(c: char) -> (r: Option<usize>)
    ensures
        r == char_width(c),
{
    unicode_width::UnicodeWidthChar::width(c)
}

/// Display width of the first `n` characters of `s`, counting a
/// character with no defined width as zero columns.
pub open spec fn col_sum(s: Seq<char>, n: int) -> int
    decreases n,
{
    if n <= 0 {
        0
    } else {
        col_sum(s, n - 1) + match char_width(s[n - 1]) {
            Some(w) => w as int,
            None => 0,
        }
    }
}

/// A right move at position `pos` crosses a character: there is one,
/// and its display width is defined.
pub open spec fn can_step_right(s: Seq<char>, pos: int) -> bool {
    &&& 0 <= pos < s.len()
    &&& char_width(s[pos]) is Some
}

/// A left move at position `pos` crosses the previous character: there
/// is one, and its display width is defined.
pub open spec fn can_step_left(s: Seq<char>, pos: int) -> bool {
    &&& 0 < pos <= s.len()
    &&& char_width(s[pos - 1]) is Some
}

/// A `LineCursor` right move additionally refuses to push the column
/// past what its 16-bit column counter can hold.
pub open spec fn can_move_right(s: Seq<char>, pos: int) -> bool {
    &&& can_step_right(s, pos)
    &&& col_sum(s, pos + 1) <= u16::MAX
}

/// The character position after one `LineCursor` right move.
pub open spec fn right_step(s: Seq<char>, pos: int) -> int {
    if can_move_right(s, pos) {
        pos + 1
    } else {
        pos
    }
}

/// The character position after one `LineCursor` left move.
pub open spec fn left_step(s: Seq<char>, pos: int) -> int {
    if can_step_left(s, pos) {
        pos - 1
    } else {
        pos
    }
}

/// Summed display widths are never negative.
pub proof fn lemma_col_sum_nonneg(s: Seq<char>, n: int)
    ensures
        col_sum(s, n) >= 0,
    decreases n,
{
    if n > 0 {
        lemma_col_sum_nonneg(s, n - 1);
    }
}

/// Summed display widths grow monotonically with the prefix length.
pub proof fn lemma_col_sum_mono(s: Seq<char>, m: int, n: int)
    requires
        m <= n,
    ensures
        col_sum(s, m) <= col_sum(s, n),
    decreases n - m,
{
    if m < n {
        lemma_col_sum_mono(s, m, n - 1);
    }
}

/// Retreat the command-line cursor by one character, if there is one
/// before it and its display width is defined. On a move, the logical
/// position retreats by one, the column by that character's width, and
/// the returned value is the number of columns the terminal cursor must
/// be moved left; otherwise nothing changes and `None` comes back.
///
/// The caller owns the bounds: the column must already account for the
/// character about to be crossed (it does whenever it equals the summed
/// widths before the position, as a `LineCursor` maintains).
pub fn move_left_command_line(
    input: &[char],
    current_char_pos: &mut usize,
    current_pos: &mut u16,
) -> (moved: Option<u16>)
    requires
        *old(current_char_pos) <= input@.len(),
        can_step_left(input@, *old(current_char_pos) as int) ==> char_width(
            input@[*old(current_char_pos) - 1],
        )->0 <= *old(current_pos),
    ensures
        can_step_left(input@, *old(current_char_pos) as int) ==> ({
            let w = char_width(input@[*old(current_char_pos) - 1])->0;
            &&& *final(current_char_pos) == *old(current_char_pos) - 1
            &&& *final(current_pos) == *old(current_pos) - w
            &&& moved == Some(w as u16)
        }),
        !can_step_left(input@, *old(current_char_pos) as int) ==> ({
            &&& *final(current_char_pos) == *old(current_char_pos)
            &&& *final(current_pos) == *old(current_pos)
            &&& moved is None
        }),
{
    if *current_char_pos == 0 {
        return None;
    }
    match lookup_width(*vstd::slice::slice_index_get(input, *current_char_pos - 1)) {
        Some(to_be_skipped) => {
            *current_char_pos -= 1;
            *current_pos -= to_be_skipped as u16;
            Some(to_be_skipped as u16)
        },
        None => None,
    }
}

/// Advance the command-line cursor by one character, if one is there
/// and its display width is defined. On a move, the logical position
/// advances by one, the column by that character's width, and the
/// returned value is the number of columns the terminal cursor must be
/// moved right; otherwise nothing changes and `None` comes back.
///
/// The caller owns the bounds: the column after the move must still fit
/// the 16-bit column counter.
pub fn move_right_command_line(
    input: &[char],
    current_char_pos: &mut usize,
    current_pos: &mut u16,
) -> (moved: Option<u16>)
    requires
        *old(current_char_pos) <= input@.len(),
        can_step_right(input@, *old(current_char_pos) as int) ==> *old(current_pos) + char_width(
            input@[*old(current_char_pos) as int],
        )->0 <= u16::MAX,
    ensures
        can_step_right(input@, *old(current_char_pos) as int) ==> ({
            let w = char_width(input@[*old(current_char_pos) as int])->0;
            &&& *final(current_char_pos) == *old(current_char_pos) + 1
            &&& *final(current_pos) == *old(current_pos) + w
            &&& moved == Some(w as u16)
        }),
        !can_step_right(input@, *old(current_char_pos) as int) ==> ({
            &&& *final(current_char_pos) == *old(current_char_pos)
            &&& *final(current_pos) == *old(current_pos)
            &&& moved is None
        }),
{
    if *current_char_pos == input.len() {
        return None;
    }
    match lookup_width(*vstd::slice::slice_index_get(input, *current_char_pos)) {
        Some(to_be_skipped) => {
            *current_char_pos += 1;
            *current_pos += to_be_skipped as u16;
            Some(to_be_skipped as u16)
        },
        None => None,
    }
}

/// Command-line text cursor over an editable character buffer.
///
/// The column position always equals the sum of the display widths of
/// the characters strictly before the logical position; every operation
/// preserves that, so the rendered cursor glyph stays aligned with the
/// logical edit position.
pub struct LineCursor {
    buffer: Vec<char>,
    char_pos: usize,
    column_pos: u16,
}

impl View for LineCursor {
    type V = Seq<char>;

    closed spec fn view(&self) -> Seq<char> {
        self.buffer@
    }
}

impl LineCursor {
    #[verifier::type_invariant]
    spec fn wf(self) -> bool {
        &&& self.char_pos <= self.buffer@.len()
        &&& self.column_pos == col_sum(self.buffer@, self.char_pos as int)
    }

    /// The logical character position, as an abstract value.
    pub closed spec fn spec_char_pos(self) -> int {
        self.char_pos as int
    }

    /// The rendered column position, as an abstract value.
    pub closed spec fn spec_column_pos(self) -> int {
        self.column_pos as int
    }

    /// A cursor over `buffer`, at the start of the line.
    pub fn new(buffer: Vec<char>) -> (cur: Self)
        ensures
            cur@ == buffer@,
            cur.spec_char_pos() == 0,
            cur.spec_column_pos() == 0,
    {
        LineCursor { buffer, char_pos: 0, column_pos: 0 }
    }

    /// The logical character position; never past the end of the
    /// buffer.
    pub fn char_pos(&self) -> (p: usize)
        ensures
            p == self.spec_char_pos(),
            p <= self@.len(),
    {
        proof {
            use_type_invariant(self);
        }
        self.char_pos
    }

    /// The rendered column position: always exactly the summed display
    /// widths of the characters before the logical position.
    pub fn column_pos(&self) -> (c: u16)
        ensures
            c == self.spec_column_pos(),
            c == col_sum(self@, self.spec_char_pos()),
    {
        proof {
            use_type_invariant(self);
        }
        self.column_pos
    }

    /// The character buffer under the cursor.
    pub fn buffer(&self) -> (b: &Vec<char>)
        ensures
            b@ == self@,
    {
        &self.buffer
    }

    /// Move one character left, as `move_left_command_line` does;
    /// returns the columns the terminal cursor must be moved left, or
    /// `None` when the cursor did not move.
    pub fn move_left(&mut self) -> (moved: Option<u16>)
        ensures
            final(self)@ == old(self)@,
            final(self).spec_char_pos() == left_step(old(self)@, old(self).spec_char_pos()),
            can_step_left(old(self)@, old(self).spec_char_pos()) ==> ({
                let w = char_width(old(self)@[old(self).spec_char_pos() - 1])->0;
                &&& final(self).spec_column_pos() == old(self).spec_column_pos() - w
                &&& moved == Some(w as u16)
            }),
            !can_step_left(old(self)@, old(self).spec_char_pos()) ==> ({
                &&& final(self).spec_column_pos() == old(self).spec_column_pos()
                &&& moved is None
            }),
    {
        proof {
            use_type_invariant(&*self);
        }
        let mut tmp = LineCursor { buffer: Vec::new(), char_pos: 0, column_pos: 0 };
        core::mem::swap(&mut tmp, self);
        let LineCursor { buffer, mut char_pos, mut column_pos } = tmp;
        proof {
            lemma_col_sum_nonneg(buffer@, char_pos - 1);
        }
        let moved = move_left_command_line(buffer.as_slice(), &mut char_pos, &mut column_pos);
        *self = LineCursor { buffer, char_pos, column_pos };
        moved
    }

    /// Move one character right, as `move_right_command_line` does, but
    /// refuse a move that would push the column past its 16-bit
    /// counter; returns the columns the terminal cursor must be moved
    /// right, or `None` when the cursor did not move.
    pub fn move_right(&mut self) -> (moved: Option<u16>)
        ensures
            final(self)@ == old(self)@,
            final(self).spec_char_pos() == right_step(old(self)@, old(self).spec_char_pos()),
            can_move_right(old(self)@, old(self).spec_char_pos()) ==> ({
                let w = char_width(old(self)@[old(self).spec_char_pos()])->0;
                &&& final(self).spec_column_pos() == old(self).spec_column_pos() + w
                &&& moved == Some(w as u16)
            }),
            !can_move_right(old(self)@, old(self).spec_char_pos()) ==> ({
                &&& final(self).spec_column_pos() == old(self).spec_column_pos()
                &&& moved is None
            }),
    {
        proof {
            use_type_invariant(&*self);
        }
        let mut tmp = LineCursor { buffer: Vec::new(), char_pos: 0, column_pos: 0 };
        core::mem::swap(&mut tmp, self);
        let LineCursor { buffer, mut char_pos, mut column_pos } = tmp;
        let fits: bool = if char_pos < buffer.len() {
            match lookup_width(buffer[char_pos]) {
                Some(w) => w <= (u16::MAX - column_pos) as usize,
                None => false,
            }
        } else {
            false
        };
        let moved: Option<u16> = if fits {
            move_right_command_line(buffer.as_slice(), &mut char_pos, &mut column_pos)
        } else {
            None
        };
        *self = LineCursor { buffer, char_pos, column_pos };
        moved
    }
}

/// The character position after `k` `LineCursor` right moves.
pub open spec fn rights(s: Seq<char>, pos: int, k: nat) -> int
    decreases k,
{
    if k == 0 {
        pos
    } else {
        rights(s, right_step(s, pos), (k - 1) as nat)
    }
}

/// The character position after `k` `LineCursor` left moves.
pub open spec fn lefts(s: Seq<char>, pos: int, k: nat) -> int
    decreases k,
{
    if k == 0 {
        pos
    } else {
        lefts(s, left_step(s, pos), (k - 1) as nat)
    }
}

proof fn lemma_rights_advance(s: Seq<char>, pos: int, k: nat)
    requires
        0 <= pos,
        pos + k <= s.len(),
        forall|i: int| pos <= i < pos + k ==> (#[trigger] char_width(s[i])) is Some,
        col_sum(s, pos + k) <= u16::MAX,
    ensures
        rights(s, pos, k) == pos + k,
    decreases k,
{
    if k > 0 {
        lemma_col_sum_mono(s, pos + 1, pos + k);
        lemma_rights_advance(s, pos + 1, (k - 1) as nat);
    }
}

proof fn lemma_lefts_retreat(s: Seq<char>, pos: int, k: nat)
    requires
        0 <= pos,
        pos + k <= s.len(),
        forall|i: int| pos <= i < pos + k ==> (#[trigger] char_width(s[i])) is Some,
    ensures
        lefts(s, pos + k, k) == pos,
    decreases k,
{
    if k > 0 {
        lemma_lefts_retreat(s, pos, (k - 1) as nat);
    }
}

/// Round trip: from any reachable position, `k` right moves that each
/// cross a defined-width character without overflowing the column
/// counter, followed by `k` left moves, return the cursor to its
/// starting character position, and with it to its starting column.
pub proof fn lemma_right_left_round_trip(s: Seq<char>, pos: int, k: nat)
    requires
        0 <= pos,
        pos + k <= s.len(),
        forall|i: int| pos <= i < pos + k ==> (#[trigger] char_width(s[i])) is Some,
        col_sum(s, pos + k) <= u16::MAX,
    ensures
        lefts(s, rights(s, pos, k), k) == pos,
        col_sum(s, lefts(s, rights(s, pos, k), k)) == col_sum(s, pos),
{
    lemma_rights_advance(s, pos, k);
    lemma_lefts_retreat(s, pos, k);
}

} // verus!
