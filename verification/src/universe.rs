//! The grid engine: it owns the cells and the tick count, counts live
//! neighbours with wraparound and moves the grid from one generation to the
//! next.

use crate::cell::Cell;
use crate::grid::{lemma_index, Generation};
use crate::laws::live_neighbors_at_most_eight;
use crate::random::coin_flips;
use vstd::prelude::*;

verus! {

/// A grid of cells of fixed size, together with the number of ticks it has
/// gone through. The cells are stored row by row.
pub struct Universe {
    height: u32,
    width: u32,
    iteration: u32,
    cells: Vec<Cell>,
}

/// The one way in which making a universe fails: the sides and the number
/// of cells that were given do not go together.
#[derive(Clone, Copy, Debug, PartialEq, Eq)]
pub struct SizeMismatch {
    pub height: u32,
    pub width: u32,
    pub cells: usize,
}

/// Whether a grid of the given sides can be made of `cells` cells: neither
/// side is empty and there is one cell for every position.
pub open spec fn fits(height: u32, width: u32, cells: nat) -> bool {
    height >= 1 && width >= 1 && cells == height * width
}

impl View for Universe {
    type V = Generation;

    closed spec fn view(&self) -> Generation {
        Generation {
            height: self.height as nat,
            width: self.width as nat,
            iteration: self.iteration as nat,
            cells: self.cells@,
        }
    }
}

/// The three offsets by which a neighbour lies along a side of length `n`:
/// one back, written as `n - 1` forward, then none, then one forward.
spec fn offsets(n: nat) -> Seq<u32> {
    seq![(n - 1) as u32, 0u32, 1u32]
}

/// The count over the first `k` column offsets, for one row offset.
spec fn row_prefix(g: Generation, row: int, col: int, delta_row: int, k: int) -> nat
    decreases k,
{
    if k <= 0 {
        0
    } else {
        row_prefix(g, row, col, delta_row, k - 1) + g.neighbor(
            row,
            col,
            delta_row,
            offsets(g.width)[k - 1] as int,
        )
    }
}

/// The count over the first `k` row offsets.
spec fn prefix(g: Generation, row: int, col: int, k: int) -> nat
    decreases k,
{
    if k <= 0 {
        0
    } else {
        prefix(g, row, col, k - 1) + g.neighbors_in_row(
            row,
            col,
            offsets(g.height)[k - 1] as int,
        )
    }
}

/// The offsets of a side, one by one.
proof fn lemma_offsets(n: nat)
    requires
        1 <= n <= u32::MAX,
    ensures
        offsets(n).len() == 3,
        offsets(n)[0] == n - 1,
        offsets(n)[1] == 0,
        offsets(n)[2] == 1,
{
}

/// Counting column by column ends at the count of the row, and on the way
/// no partial count exceeds the number of offsets it covers.
proof fn lemma_row_prefix(g: Generation, row: int, col: int, delta_row: int)
    requires
        1 <= g.width <= u32::MAX,
    ensures
        row_prefix(g, row, col, delta_row, 3) == g.neighbors_in_row(row, col, delta_row),
        forall|k: int| 0 <= k <= 3 ==> #[trigger] row_prefix(g, row, col, delta_row, k) <= k,
{
    lemma_offsets(g.width);
    reveal_with_fuel(row_prefix, 4);
    assert(row_prefix(g, row, col, delta_row, 0) == 0);
    assert(row_prefix(g, row, col, delta_row, 1) <= 1);
    assert(row_prefix(g, row, col, delta_row, 2) <= 2);
    assert(row_prefix(g, row, col, delta_row, 3) <= 3);
}

/// Counting row by row ends at the neighbour count, and on the way no
/// partial count exceeds the number of offset pairs it covers.
proof fn lemma_prefix(g: Generation, row: int, col: int)
    requires
        1 <= g.height <= u32::MAX,
        1 <= g.width <= u32::MAX,
    ensures
        prefix(g, row, col, 3) == g.live_neighbors(row, col),
        forall|k: int| 0 <= k <= 3 ==> #[trigger] prefix(g, row, col, k) <= 3 * k,
{
    lemma_offsets(g.height);
    lemma_row_prefix(g, row, col, g.height - 1);
    lemma_row_prefix(g, row, col, 0);
    lemma_row_prefix(g, row, col, 1);
    reveal_with_fuel(prefix, 4);
    assert(prefix(g, row, col, 0) == 0);
    assert(prefix(g, row, col, 1) <= 3);
    assert(prefix(g, row, col, 2) <= 6);
    assert(prefix(g, row, col, 3) <= 9);
}

/// The number of cells of a grid of the given size.
fn cell_count(height: u32, width: u32) -> (count: usize)
    requires
        height * width <= usize::MAX,
    ensures
        count == height * width,
{
    assert(0 <= height * width) by (nonlinear_arith);
    height as usize * width as usize
}

impl Universe {
    #[verifier::type_invariant]
    spec fn inv(self) -> bool {
        &&& self.height >= 1
        &&& self.width >= 1
        &&& self.cells@.len() == self.height * self.width
    }

    /// Makes a universe from its parts. There must be one cell for every
    /// position of the grid, row by row, and neither side may be empty.
    pub fn new(height: u32, width: u32, iteration: u32, cells: Vec<Cell>) -> (universe: Universe)
        requires
            height >= 1,
            width >= 1,
            cells@.len() == height * width,
        ensures
            universe@.height == height,
            universe@.width == width,
            universe@.iteration == iteration,
            universe@.cells == cells@,
    {
        Universe { height, width, iteration, cells }
    }

    /// Makes a universe from its parts if they go together, and says which
    /// sides and how many cells were given if they do not.
    pub fn try_new(height: u32, width: u32, iteration: u32, cells: Vec<Cell>) -> (made: Result<
        Universe,
        SizeMismatch,
    >)
        ensures
            made is Ok <==> fits(height, width, cells@.len()),
            made matches Ok(universe) ==> {
                &&& universe@.height == height
                &&& universe@.width == width
                &&& universe@.iteration == iteration
                &&& universe@.cells == cells@
            },
            made matches Err(error) ==> error == (SizeMismatch {
                height,
                width,
                cells: cells@.len() as usize,
            }),
    {
        assert(0 <= height * width <= u64::MAX) by (nonlinear_arith)
            requires
                height <= u32::MAX,
                width <= u32::MAX,
        ;
        if height >= 1 && width >= 1 && cells.len() as u64 == height as u64 * width as u64 {
            Ok(Universe::new(height, width, iteration, cells))
        } else {
            Err(SizeMismatch { height, width, cells: cells.len() })
        }
    }

    /// Makes a universe in which every cell is dead and no tick has passed.
    pub fn new_empty(height: u32, width: u32) -> (universe: Universe)
        requires
            height >= 1,
            width >= 1,
            height * width <= usize::MAX,
        ensures
            universe@.height == height,
            universe@.width == width,
            universe@.iteration == 0,
            universe@.cells == Seq::new((height * width) as nat, |i: int| Cell::Dead),
    {
        let count = cell_count(height, width);
        let mut cells: Vec<Cell> = Vec::new();
        let mut i: usize = 0;
        while i < count
            invariant
                i <= count,
                cells@.len() == i,
                forall|k: int| 0 <= k < i ==> cells@[k] == Cell::Dead,
            decreases count - i,
        {
            cells.push(Cell::Dead);
            i = i + 1;
        }
        assert(cells@ =~= Seq::new((height * width) as nat, |i: int| Cell::Dead));
        Universe { height, width, iteration: 0, cells }
    }

    /// Makes a universe from one coin flip for every cell, row by row: a
    /// cell is alive where its flip is `true`. No tick has passed.
    pub fn from_flips(height: u32, width: u32, flips: &Vec<bool>) -> (universe: Universe)
        requires
            height >= 1,
            width >= 1,
            flips@.len() == height * width,
        ensures
            universe@.height == height,
            universe@.width == width,
            universe@.iteration == 0,
            universe@.cells == flips@.map_values(|flip: bool| Cell::of_flip(flip)),
    {
        let mut cells: Vec<Cell> = Vec::new();
        let mut i: usize = 0;
        while i < flips.len()
            invariant
                i <= flips@.len(),
                cells@.len() == i,
                forall|k: int| 0 <= k < i ==> cells@[k] == Cell::of_flip(flips@[k]),
            decreases flips@.len() - i,
        {
            cells.push(Cell::from_flip(flips[i]));
            i = i + 1;
        }
        assert(cells@ =~= flips@.map_values(|flip: bool| Cell::of_flip(flip)));
        Universe { height, width, iteration: 0, cells }
    }

    /// Makes a universe in which every cell is alive or dead by the flip of
    /// a fair coin. No tick has passed. Which cells live is left to chance,
    /// so nothing is said of them here; `from_flips` says what each flip
    /// gives.
    pub fn new_random(height: u32, width: u32) -> (universe: Universe)
        requires
            height >= 1,
            width >= 1,
            height * width <= usize::MAX,
        ensures
            universe@.height == height,
            universe@.width == width,
            universe@.iteration == 0,
            universe@.cells.len() == height * width,
    {
        let flips = coin_flips(cell_count(height, width));
        Universe::from_flips(height, width, &flips)
    }

    /// The number of rows.
    pub fn height(&self) -> (height: u32)
        ensures
            height == self@.height,
            self@.wf(),
    {
        proof {
            use_type_invariant(self);
        }
        self.height
    }

    /// The number of columns.
    pub fn width(&self) -> (width: u32)
        ensures
            width == self@.width,
            self@.wf(),
    {
        proof {
            use_type_invariant(self);
        }
        self.width
    }

    /// The number of ticks this universe has gone through, counted from the
    /// number it was made with.
    pub fn iteration(&self) -> (iteration: u32)
        ensures
            iteration == self@.iteration,
    {
        self.iteration
    }

    /// The cells, row by row.
    pub fn cells(&self) -> (cells: &Vec<Cell>)
        ensures
            cells@ == self@.cells,
            self@.wf(),
    {
        proof {
            use_type_invariant(self);
        }
        &self.cells
    }

    /// The place of the cell at `(row, col)` in the row-major cell buffer.
    pub fn get_index(&self, row: u32, col: u32) -> (idx: usize)
        requires
            row < self@.height,
            col < self@.width,
        ensures
            idx == self@.index(row as int, col as int),
            idx == row * self@.width + col,
            idx < self@.cells.len(),
    {
        proof {
            use_type_invariant(self);
            lemma_index(self@, row as int, col as int);
            assert(0 <= row * self.width) by (nonlinear_arith);
            assert(self.cells@.len() == self.cells.len());
        }
        row as usize * self.width as usize + col as usize
    }

    /// The number of live cells among the eight neighbours of `(row, col)`,
    /// where a neighbour beyond an edge is the cell on the opposite edge.
    /// A position beyond the grid is taken round it in the same way.
    pub fn live_neighbor_count(&self, row: u32, col: u32) -> (count: u8)
        ensures
            count == self@.live_neighbors(row as int, col as int),
            count <= 8,
    {
        proof {
            use_type_invariant(self);
            live_neighbors_at_most_eight(self@, row as int, col as int);
        }
        let row_offsets: [u32; 3] = [self.height - 1, 0, 1];
        let col_offsets: [u32; 3] = [self.width - 1, 0, 1];
        assert(row_offsets@ =~= offsets(self@.height));
        assert(col_offsets@ =~= offsets(self@.width));
        let mut count: u8 = 0;
        let mut i: usize = 0;
        while i < 3
            invariant
                i <= 3,
                self.inv(),
                row_offsets@ == offsets(self@.height),
                col_offsets@ == offsets(self@.width),
                count == prefix(self@, row as int, col as int, i as int),
            decreases 3 - i,
        {
            let delta_row = row_offsets[i];
            let ghost above = count;
            let mut j: usize = 0;
            while j < 3
                invariant
                    j <= 3,
                    i < 3,
                    self.inv(),
                    delta_row == offsets(self@.height)[i as int],
                    col_offsets@ == offsets(self@.width),
                    above == prefix(self@, row as int, col as int, i as int),
                    count == above + row_prefix(
                        self@,
                        row as int,
                        col as int,
                        delta_row as int,
                        j as int,
                    ),
                decreases 3 - j,
            {
                let delta_col = col_offsets[j];
                proof {
                    lemma_prefix(self@, row as int, col as int);
                    lemma_row_prefix(self@, row as int, col as int, delta_row as int);
                    assert(row_prefix(self@, row as int, col as int, delta_row as int, j + 1) <= j
                        + 1);
                }
                if !(delta_row == 0 && delta_col == 0) {
                    let neighbor_row = ((row as u64 + delta_row as u64) % (self.height as u64)) as u32;
                    let neighbor_col = ((col as u64 + delta_col as u64) % (self.width as u64)) as u32;
                    let idx = self.get_index(neighbor_row, neighbor_col);
                    count = count + self.cells[idx].value();
                }
                j = j + 1;
            }
            proof {
                lemma_row_prefix(self@, row as int, col as int, delta_row as int);
            }
            i = i + 1;
        }
        proof {
            lemma_prefix(self@, row as int, col as int);
        }
        count
    }

    /// Moves the grid on by one generation. Every cell is replaced by its
    /// successor; all neighbour counts are taken from the grid as it was
    /// before the call. The tick count grows by one.
    pub fn tick(&mut self)
        requires
            old(self)@.iteration < u32::MAX,
        ensures
            final(self)@ == old(self)@.step(),
            final(self)@.wf(),
    {
        proof {
            use_type_invariant(&*self);
        }
        let ghost before = self@;
        self.iteration = self.iteration + 1;
        let mut next = self.cells.clone();
        let mut row: u32 = 0;
        while row < self.height
            invariant
                self.inv(),
                self@.height == before.height,
                self@.width == before.width,
                self@.cells == before.cells,
                self@.iteration == before.iteration + 1,
                row <= self.height,
                next@.len() == before.cells.len(),
                forall|i: int| 0 <= i < row * self.width ==> next@[i] == before.successor_at(i),
                forall|i: int| row * self.width <= i < next@.len() ==> next@[i] == before.cells[i],
            decreases self.height - row,
        {
            let mut col: u32 = 0;
            while col < self.width
                invariant
                    self.inv(),
                    self@.height == before.height,
                    self@.width == before.width,
                    self@.cells == before.cells,
                    self@.iteration == before.iteration + 1,
                    row < self.height,
                    col <= self.width,
                    next@.len() == before.cells.len(),
                    forall|i: int|
                        0 <= i < row * self.width + col ==> next@[i] == before.successor_at(i),
                    forall|i: int|
                        row * self.width + col <= i < next@.len() ==> next@[i] == before.cells[i],
                decreases self.width - col,
            {
                let idx = self.get_index(row, col);
                let live = self.live_neighbor_count(row, col);
                proof {
                    lemma_index(before, row as int, col as int);
                    assert(self@.live_neighbors(row as int, col as int) == before.live_neighbors(
                        row as int,
                        col as int,
                    ));
                }
                next[idx] = self.cells[idx].evolve(live);
                col = col + 1;
            }
            assert((row + 1) * self.width == row * self.width + self.width) by (nonlinear_arith);
            row = row + 1;
        }
        self.cells = next;
        assert(self@.cells =~= before.step().cells);
    }

    /// Renders the grid as text, one line for every row from top to bottom
    /// and one symbol for every cell from left to right.
    pub fn display(&self) -> (lines: Vec<String>)
        ensures
            lines@.len() == self@.height,
            forall|row: int| 0 <= row < lines@.len() ==> (#[trigger] lines@[row])@ == self@.row_text(row),
            lines.deep_view() == self@.rendering(),
    {
        proof {
            use_type_invariant(self);
        }
        let mut lines: Vec<String> = Vec::new();
        let mut row: u32 = 0;
        while row < self.height
            invariant
                self.inv(),
                row <= self.height,
                lines@.len() == row,
                forall|r: int| 0 <= r < row ==> (#[trigger] lines@[r])@ == self@.row_text(r),
            decreases self.height - row,
        {
            let mut line = String::new();
            let mut col: u32 = 0;
            while col < self.width
                invariant
                    self.inv(),
                    row < self.height,
                    col <= self.width,
                    line@.len() == col,
                    forall|c: int|
                        0 <= c < col ==> #[trigger] line@[c] == self@.cell(row as int, c).symbol(),
                decreases self.width - col,
            {
                let idx = self.get_index(row, col);
                line.append(self.cells[idx].glyph());
                col = col + 1;
            }
            assert(line@ =~= self@.row_text(row as int));
            lines.push(line);
            row = row + 1;
        }
        assert(lines.deep_view() =~= self@.rendering());
        lines
    }
}

} // verus!
