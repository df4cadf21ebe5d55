//! The window of digit cells currently shown to the trainee.

use vstd::prelude::*;

use crate::cell::{PiDigitModel, PiDigitState};

verus! {

/// Ordered collection of the cells currently displayed: what the trainee
/// has answered plus, in learn mode, a look-ahead of upcoming
/// placeholders. Position `i` always holds the `i`-th cell created in
/// the session; no reordering ever occurs.
pub struct WindowBuffer {
    cells: Vec<PiDigitModel>,
}

/// The sequence `cells` with the cell at `index` re-judged in place:
/// digit and state replaced, row width kept. Out-of-range indices leave
/// the sequence unchanged.
pub open spec fn spec_update_at(
    cells: Seq<PiDigitModel>,
    index: int,
    digit: u8,
    state: PiDigitState,
) -> Seq<PiDigitModel> {
    if 0 <= index < cells.len() {
        cells.update(
            index,
            PiDigitModel { digit, state, digits_per_row: cells[index].digits_per_row },
        )
    } else {
        cells
    }
}

/// The sequence `cells` with every cell re-tagged to the row width
/// `digits_per_row`, digits and states untouched.
pub open spec fn spec_retag(cells: Seq<PiDigitModel>, digits_per_row: u8) -> Seq<PiDigitModel> {
    cells.map_values(
        |c: PiDigitModel| PiDigitModel { digit: c.digit, state: c.state, digits_per_row },
    )
}

impl View for WindowBuffer {
    type V = Seq<PiDigitModel>;

    closed spec fn view(&self) -> Seq<PiDigitModel> {
        self.cells@
    }
}

impl WindowBuffer {
    /// An empty window.
    pub fn new() -> (buffer: WindowBuffer)
        ensures
            buffer@ == Seq::<PiDigitModel>::empty(),
    {
        let buffer = WindowBuffer { cells: Vec::new() };
        proof {
            assert(buffer@ =~= Seq::<PiDigitModel>::empty());
        }
        buffer
    }

    /// Number of cells currently shown.
    pub fn len(&self) -> (n: usize)
        ensures
            n == self@.len(),
    {
        self.cells.len()
    }

    /// Appends a cell at the end of the window.
    pub fn push_back(&mut self, cell: PiDigitModel)
        ensures
            final(self)@ == old(self)@.push(cell),
    {
        self.cells.push(cell);
    }

    /// Removes and returns the last cell, if the window holds one.
    pub fn pop_back(&mut self) -> (popped: Option<PiDigitModel>)
        ensures
            old(self)@.len() == 0 ==> popped is None && final(self)@ == old(self)@,
            old(self)@.len() > 0 ==> popped == Some(old(self)@.last()) && final(self)@ == old(
                self,
            )@.drop_last(),
    {
        self.cells.pop()
    }

    /// The cell at `index`, if the window reaches that far.
    pub fn get(&self, index: usize) -> (cell: Option<PiDigitModel>)
        ensures
            index < self@.len() ==> cell == Some(self@[index as int]),
            index >= self@.len() ==> cell is None,
    {
        if index < self.cells.len() {
            Some(self.cells[index])
        } else {
            None
        }
    }

    /// Re-judges the cell at `index` in place: digit and state replaced,
    /// row width kept. Does nothing when `index` is out of bounds.
    pub fn update_at(&mut self, index: usize, digit: u8, state: PiDigitState)
        ensures
            final(self)@ == spec_update_at(old(self)@, index as int, digit, state),
    {
        if index < self.cells.len() {
            let width = self.cells[index].digits_per_row;
            self.cells[index] = PiDigitModel { digit, state, digits_per_row: width };
        }
    }

    /// Discards every cell.
    pub fn clear(&mut self)
        ensures
            final(self)@ == Seq::<PiDigitModel>::empty(),
    {
        self.cells.clear();
        proof {
            assert(self@ =~= Seq::<PiDigitModel>::empty());
        }
    }

    /// A copy of the cells in display order, for a render snapshot.
    pub fn to_vec(&self) -> (cells: Vec<PiDigitModel>)
        ensures
            cells@ == self@,
    {
        let mut cells: Vec<PiDigitModel> = Vec::new();
        let mut i: usize = 0;
        while i < self.cells.len()
            invariant
                i <= self.cells@.len(),
                cells@ == self.cells@.take(i as int),
            decreases self.cells@.len() - i,
        {
            cells.push(self.cells[i]);
            proof {
                assert(cells@ =~= self.cells@.take(i + 1));
            }
            i += 1;
        }
        proof {
            assert(cells@ =~= self.cells@);
        }
        cells
    }

    /// Re-tags every cell with a new row width, altering no digit, no
    /// state, and no order.
    pub fn set_row_width(&mut self, digits_per_row: u8)
        ensures
            final(self)@ == spec_retag(old(self)@, digits_per_row),
    {
        let ghost before = self.cells@;
        let mut i: usize = 0;
        while i < self.cells.len()
            invariant
                i <= self.cells@.len(),
                self.cells@.len() == before.len(),
                forall|j: int| 0 <= j < i ==> self.cells@[j] == #[trigger] spec_retag(
                    before,
                    digits_per_row,
                )[j],
                forall|j: int| i <= j < before.len() ==> self.cells@[j] == before[j],
            decreases self.cells@.len() - i,
        {
            let c = self.cells[i];
            self.cells[i] = PiDigitModel { digit: c.digit, state: c.state, digits_per_row };
            i += 1;
        }
        proof {
            assert(self.cells@ =~= spec_retag(before, digits_per_row));
        }
    }
}

} // verus!
