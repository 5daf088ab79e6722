//! The keyboard matrix: eight rows of eight keys. A key that is held
//! down pulls its bit low, so a row with no key down reads `0xff`.

use vstd::prelude::*;
use crate::util::bit;

verus! {

/// The state of a row in which no key is down.
pub const ROW_RELEASED: u8 = 0xff;

/// The keys of a row that are down, one bit each.
pub open spec fn pressed_keys(row_state: u8) -> u8 {
    !row_state
}

/// The matrix, seen as the sequence of its eight row states.
pub struct Keyboard {
    matrix: [u8; 8],
}

impl View for Keyboard {
    type V = Seq<u8>;

    closed spec fn view(&self) -> Seq<u8> {
        self.matrix@
    }
}

impl Keyboard {
    /// A keyboard with no key down.
    pub fn new() -> (keyboard: Keyboard)
        ensures
            keyboard@ == Seq::new(8, |i: int| ROW_RELEASED),
    {
        let keyboard = Keyboard { matrix: [ROW_RELEASED; 8] };
        assert(keyboard@ =~= Seq::new(8, |i: int| ROW_RELEASED));
        keyboard
    }

    /// The matrix always has eight rows.
    pub proof fn lemma_len(&self)
        ensures
            self@.len() == 8,
    {
    }

    /// The state of row `row`.
    pub fn get_row(&self, row: u8) -> (r: u8)
        requires
            row < 8,
        ensures
            r == self@[row as int],
    {
        self.matrix[row as usize]
    }

    /// Replaces the state of row `row`.
    pub fn set_row(&mut self, row: u8, value: u8)
        requires
            row < 8,
        ensures
            final(self)@ == old(self)@.update(row as int, value),
    {
        self.matrix[row as usize] = value;
    }

    /// Presses or releases the key at `row` and `col`; no other key moves.
    pub fn set_key(&mut self, row: u8, col: u8, pressed: bool)
        requires
            row < 8,
            col < 8,
        ensures
            final(self)@ == old(self)@.update(
                row as int,
                bit::with_bit(old(self)@[row as int], col, !pressed),
            ),
    {
        let state = bit::set(self.matrix[row as usize], col, !pressed);
        self.matrix[row as usize] = state;
    }

    /// Whether the key at `row` and `col` is down.
    pub fn is_pressed(&self, row: u8, col: u8) -> (r: bool)
        requires
            row < 8,
            col < 8,
        ensures
            r == bit::is_set(pressed_keys(self@[row as int]), col),
    {
        bit::test(!self.matrix[row as usize], col)
    }

    /// Releases every key.
    pub fn reset(&mut self)
        ensures
            final(self)@ == Seq::new(8, |i: int| ROW_RELEASED),
    {
        self.matrix = [ROW_RELEASED; 8];
        assert(self@ =~= Seq::new(8, |i: int| ROW_RELEASED));
    }
}

} // verus!
