//! Digit cells: one displayed digit plus how it was judged.

use vstd::prelude::*;

verus! {

/// How one displayed digit was judged.
///
/// `Placeholder` marks an upcoming reference digit that the trainee has
/// not answered yet (used by the learn mode's look-ahead).
#[derive(Debug, Copy, Clone, PartialEq, Eq, Structural)]
pub enum PiDigitState {
    Right,
    Wrong,
    Placeholder,
}

/// One cell of the display window: a digit in `0 ..= 9`, how it was
/// judged, and the row width it is laid out under.
#[derive(Debug, Copy, Clone, PartialEq, Eq, Structural)]
pub struct PiDigitModel {
    pub digit: u8,
    pub state: PiDigitState,
    pub digits_per_row: u8,
}

impl PiDigitModel {
    /// Builds one cell.
    pub fn new(digit: u8, state: PiDigitState, digits_per_row: u8) -> (cell: PiDigitModel)
        ensures
            cell == (PiDigitModel { digit, state, digits_per_row }),
    {
        PiDigitModel { digit, state, digits_per_row }
    }

    /// Grid position `(column, row)` of the cell standing at `index`:
    /// cells fill each row left to right, `digits_per_row` to a row.
    pub fn position(&self, index: usize) -> (pos: (usize, usize))
        requires
            self.digits_per_row >= 1,
        ensures
            pos.0 == index as int % (self.digits_per_row as int),
            pos.1 == index as int / (self.digits_per_row as int),
            pos.0 < self.digits_per_row,
    {
        let width = self.digits_per_row as usize;
        (index % width, index / width)
    }
}

} // verus!
