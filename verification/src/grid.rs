//! The mathematical model of the automaton: one generation of the grid, its
//! row-major layout, the wrapped neighbour count and the step from one
//! generation to the next.

use crate::cell::Cell;
use vstd::prelude::*;

verus! {

/// One generation of the automaton: the size of the grid, the number of
/// ticks that led to it, and the cells in row-major order.
pub struct Generation {
    pub height: nat,
    pub width: nat,
    pub iteration: nat,
    pub cells: Seq<Cell>,
}

/// The coordinate `x` brought back into a side of length `n`: what is left
/// of it after going round the side as often as it takes.
pub open spec fn wrap(x: int, n: int) -> int {
    x % n
}

/// The row-major place of `(row, col)` in a grid that is `width` wide.
pub open spec fn row_major(row: int, col: int, width: int) -> int {
    row * width + col
}

impl Generation {
    /// A generation is well formed when neither side of the grid is empty
    /// and there is exactly one cell for every position.
    pub open spec fn wf(self) -> bool {
        &&& self.height >= 1
        &&& self.width >= 1
        &&& self.cells.len() == self.height * self.width
    }

    /// Whether `(row, col)` names a position of the grid.
    pub open spec fn contains(self, row: int, col: int) -> bool {
        0 <= row < self.height && 0 <= col < self.width
    }

    /// The place of position `(row, col)` in the row-major cell sequence.
    pub open spec fn index(self, row: int, col: int) -> int {
        row_major(row, col, self.width as int)
    }

    /// The cell at position `(row, col)`.
    pub open spec fn cell(self, row: int, col: int) -> Cell {
        self.cells[self.index(row, col)]
    }

    /// What the neighbour reached from `(row, col)` by the offsets
    /// `(delta_row, delta_col)` adds to the count. Both coordinates wrap
    /// around the edges. The offset pair `(0, 0)` is the cell itself and adds
    /// nothing.
    pub open spec fn neighbor(self, row: int, col: int, delta_row: int, delta_col: int) -> nat {
        if delta_row == 0 && delta_col == 0 {
            0
        } else {
            self.cell(
                wrap(row + delta_row, self.height as int),
                wrap(col + delta_col, self.width as int),
            ).weight()
        }
    }

    /// The count over the three column offsets `width - 1`, `0` and `1`,
    /// for one row offset.
    pub open spec fn neighbors_in_row(self, row: int, col: int, delta_row: int) -> nat {
        self.neighbor(row, col, delta_row, self.width - 1)
            + self.neighbor(row, col, delta_row, 0)
            + self.neighbor(row, col, delta_row, 1)
    }

    /// The number of live cells around `(row, col)`: the count over the
    /// three row offsets `height - 1`, `0` and `1`. Going back by one is
    /// written as going forward by the size less one, so that a neighbour
    /// beyond an edge is found on the opposite edge.
    pub open spec fn live_neighbors(self, row: int, col: int) -> nat {
        self.neighbors_in_row(row, col, self.height - 1)
            + self.neighbors_in_row(row, col, 0)
            + self.neighbors_in_row(row, col, 1)
    }

    /// The next state of the cell with row-major index `i`, from its state
    /// and its neighbours in this generation.
    pub open spec fn successor_at(self, i: int) -> Cell {
        self.cells[i].successor(
            self.live_neighbors(i / (self.width as int), i % (self.width as int)),
        )
    }

    /// The next generation: every cell is replaced by its successor, all of
    /// them computed from this generation, and the tick count grows by one.
    pub open spec fn step(self) -> Generation {
        Generation {
            height: self.height,
            width: self.width,
            iteration: self.iteration + 1,
            cells: Seq::new(self.cells.len(), |i: int| self.successor_at(i)),
        }
    }

    /// The text of one row: the symbol of each of its cells, left to right.
    pub open spec fn row_text(self, row: int) -> Seq<char> {
        Seq::new(self.width, |col: int| self.cell(row, col).symbol())
    }

    /// The grid as text: one line for every row, top to bottom.
    pub open spec fn rendering(self) -> Seq<Seq<char>> {
        Seq::new(self.height, |row: int| self.row_text(row))
    }

    /// The generation reached by taking `ticks` steps from this one.
    pub open spec fn after(self, ticks: nat) -> Generation
        decreases ticks,
    {
        if ticks == 0 {
            self
        } else {
            self.after((ticks - 1) as nat).step()
        }
    }
}

/// A position of the grid has an index below the number of cells, and the
/// index gives the position back: dividing by the width yields the row, the
/// remainder is the column.
pub proof fn lemma_index(g: Generation, row: int, col: int)
    requires
        g.wf(),
        g.contains(row, col),
    ensures
        0 <= g.index(row, col) < g.cells.len(),
        g.index(row, col) / (g.width as int) == row,
        g.index(row, col) % (g.width as int) == col,
{
    let w = g.width as int;
    let h = g.height as int;
    assert(0 <= row * w && row * w + w <= h * w) by (nonlinear_arith)
        requires
            0 <= row < h,
            0 < w,
    ;
    vstd::arithmetic::div_mod::lemma_fundamental_div_mod_converse(row * w + col, w, row, col);
}

/// Every index below the number of cells belongs to exactly one position of
/// the grid.
pub proof fn lemma_position(g: Generation, i: int)
    requires
        g.wf(),
        0 <= i < g.cells.len(),
    ensures
        g.contains(i / (g.width as int), i % (g.width as int)),
        g.index(i / (g.width as int), i % (g.width as int)) == i,
{
    let w = g.width as int;
    let h = g.height as int;
    vstd::arithmetic::div_mod::lemma_fundamental_div_mod(i, w);
    assert(0 <= i / w < h && 0 <= i % w < w && (i / w) * w + i % w == i) by (nonlinear_arith)
        requires
            0 <= i < h * w,
            0 < w,
            i == w * (i / w) + i % w,
    ;
}

} // verus!
