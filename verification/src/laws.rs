//! What holds of every grid: the range and the period of the neighbour
//! count, what a step keeps and what it changes, and the grids that a step
//! leaves as they are.

use crate::cell::Cell;
use crate::grid::{lemma_position, Generation};
use vstd::prelude::*;

verus! {

/// A cell never has more than eight live neighbours.
pub proof fn live_neighbors_at_most_eight(g: Generation, row: int, col: int)
    ensures
        g.live_neighbors(row, col) <= 8,
{
    if g.height - 1 == 0 {
        assert(g.neighbor(row, col, g.height - 1, 0) == 0);
    } else {
        assert(g.neighbor(row, col, 0, 0) == 0);
    }
}

/// The grid wraps around: a position one full height further down, or one
/// full width further right, has the same neighbours.
pub proof fn live_neighbors_wrap_around(g: Generation, row: int, col: int)
    requires
        g.wf(),
    ensures
        g.live_neighbors(row + g.height, col) == g.live_neighbors(row, col),
        g.live_neighbors(row, col + g.width) == g.live_neighbors(row, col),
{
    let h = g.height as int;
    let w = g.width as int;
    assert forall|d: int| (row + h + d) % h == #[trigger] ((row + d) % h) by {
        vstd::arithmetic::div_mod::lemma_mod_add_multiples_vanish(row + d, h);
    }
    assert forall|d: int| (col + w + d) % w == #[trigger] ((col + d) % w) by {
        vstd::arithmetic::div_mod::lemma_mod_add_multiples_vanish(col + d, w);
    }
}

/// A step keeps the size of the grid, and a well-formed grid stays well
/// formed.
pub proof fn step_keeps_shape(g: Generation)
    ensures
        g.step().height == g.height,
        g.step().width == g.width,
        g.step().cells.len() == g.cells.len(),
        g.wf() ==> g.step().wf(),
{
}

/// A step adds exactly one to the tick count, whatever the cells hold.
pub proof fn step_counts_one_tick(g: Generation)
    ensures
        g.step().iteration == g.iteration + 1,
{
}

/// After any number of steps the tick count has grown by that number, and
/// the grid still has its size.
pub proof fn ticks_add_up(g: Generation, ticks: nat)
    ensures
        g.after(ticks).iteration == g.iteration + ticks,
        g.after(ticks).height == g.height,
        g.after(ticks).width == g.width,
        g.after(ticks).cells.len() == g.cells.len(),
        g.wf() ==> g.after(ticks).wf(),
    decreases ticks,
{
    if ticks > 0 {
        ticks_add_up(g, (ticks - 1) as nat);
    }
}

/// A step depends on the cells and the size alone: two generations that
/// differ only in their tick count have the same cells after a step.
pub proof fn step_ignores_tick_count(g: Generation, iteration: nat)
    ensures
        (Generation { iteration, ..g }).step().cells == g.step().cells,
{
    let other = Generation { iteration, ..g };
    assert forall|i: int| 0 <= i < g.cells.len() implies other.successor_at(i) == g.successor_at(
        i,
    ) by {}
    assert(other.step().cells =~= g.step().cells);
}

/// A grid in which every cell has two or four live neighbours is a fixed
/// point: a step changes nothing but the tick count.
pub proof fn quiet_grid_is_fixed(g: Generation)
    requires
        g.wf(),
        forall|row: int, col: int|
            g.contains(row, col) ==> {
                let n = #[trigger] g.live_neighbors(row, col);
                n == 2 || n == 4
            },
    ensures
        g.step() == (Generation { iteration: g.iteration + 1, ..g }),
{
    assert forall|i: int| 0 <= i < g.cells.len() implies g.successor_at(i) == g.cells[i] by {
        lemma_position(g, i);
        let n = g.live_neighbors(i / (g.width as int), i % (g.width as int));
        assert(n == 2 || n == 4);
    }
    assert(g.step().cells =~= g.cells);
}

/// The two states have different symbols, so a rendering tells every cell's
/// state.
pub proof fn symbols_are_distinct()
    ensures
        forall|a: Cell, b: Cell| a.symbol() == b.symbol() ==> a == b,
{
}

/// A rendering gives back the cells it was made from, symbol for symbol
/// and row by row: it has one line for every row and one symbol for every
/// column, the symbol in line `row` at place `col` is that of the cell at
/// `(row, col)`, and the cell with row-major index `i` is shown in line
/// `i / width` at place `i % width`.
pub proof fn rendering_reproduces_cells(g: Generation)
    requires
        g.wf(),
    ensures
        g.rendering().len() == g.height,
        forall|row: int| 0 <= row < g.height ==> (#[trigger] g.rendering()[row]).len() == g.width,
        forall|row: int, col: int|
            g.contains(row, col) ==> g.rendering()[row][col] == (#[trigger] g.cell(
                row,
                col,
            )).symbol(),
        forall|i: int|
            0 <= i < g.cells.len() ==> g.rendering()[i / (g.width as int)][i % (g.width as int)]
                == (#[trigger] g.cells[i]).symbol(),
{
    assert forall|i: int| 0 <= i < g.cells.len() implies g.rendering()[i / (g.width as int)][i % (
    g.width as int)] == (#[trigger] g.cells[i]).symbol() by {
        lemma_position(g, i);
    }
}

/// The tick count does not show in a rendering: two generations that differ
/// only in their tick count are rendered alike.
pub proof fn rendering_ignores_tick_count(g: Generation, iteration: nat)
    ensures
        (Generation { iteration, ..g }).rendering() == g.rendering(),
{
    let other = Generation { iteration, ..g };
    assert forall|row: int| 0 <= row < g.height implies other.row_text(row) == g.row_text(row) by {
        assert(other.row_text(row) =~= g.row_text(row));
    }
    assert(other.rendering() =~= g.rendering());
}

} // verus!
