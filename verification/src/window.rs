//! What a window onto the universe shows and how the universe answers to
//! input: the size of the window in pixels, the square that is drawn for
//! each cell, and the presses that move the grid on by one generation.

use crate::cell::Cell;
use crate::grid::{lemma_index, Generation};
use crate::universe::Universe;
use vstd::prelude::*;

verus! {

/// The side of the square drawn for one cell, in pixels.
pub const SQUARE_SIZE: u32 = 10;

/// The gap between two squares, and between a square and the edge of the
/// window, in pixels.
pub const BORDER_DISTANCE: u32 = 1;

/// The distance in pixels from the edge of the window to the near edge of
/// the square with the given index along one axis: the squares before it,
/// and one gap before each of them and before itself. With the number of
/// squares as index it is the length of the window along that axis.
pub open spec fn pixel_offset(index: nat) -> nat {
    index * SQUARE_SIZE as nat + (index + 1) * BORDER_DISTANCE as nat
}

/// The square that is drawn for one cell: its top left corner, the length
/// of its side, and the state of the cell, which decides its colour.
#[derive(Clone, Copy, Debug, PartialEq, Eq)]
pub struct Square {
    pub x: u64,
    pub y: u64,
    pub side: u32,
    pub cell: Cell,
}

/// A press of a button, as far as the universe tells presses apart.
#[derive(Clone, Copy, Debug, PartialEq, Eq)]
pub enum Press {
    /// The space bar.
    Space,
    /// Any button of the mouse.
    Mouse,
    /// Any other key or button.
    Other,
}

impl Press {
    /// Whether the press moves the grid on: the space bar and the mouse
    /// buttons do, nothing else does.
    pub open spec fn advances(self) -> bool {
        self is Space || self is Mouse
    }
}

impl Generation {
    /// The square drawn for the cell with row-major index `i`.
    pub open spec fn square_at(self, i: int) -> Square {
        Square {
            x: pixel_offset((i % (self.width as int)) as nat) as u64,
            y: pixel_offset((i / (self.width as int)) as nat) as u64,
            side: SQUARE_SIZE,
            cell: self.cells[i],
        }
    }

    /// The squares of one frame, one for every cell in row-major order.
    pub open spec fn frame(self) -> Seq<Square> {
        Seq::new(self.cells.len(), |i: int| self.square_at(i))
    }

    /// The generation that follows a press: the next one if the press
    /// advances the grid, this one if it does not.
    pub open spec fn pressed(self, press: Press) -> Generation {
        if press.advances() {
            self.step()
        } else {
            self
        }
    }
}

/// Computes the pixel offset of the square with the given index.
pub fn square_offset(index: u32) -> (pixels: u64)
    ensures
        pixels == pixel_offset(index as nat),
{
    assert(index * SQUARE_SIZE + (index + 1) * BORDER_DISTANCE == 11 * index + 1) by (nonlinear_arith)
        requires
            SQUARE_SIZE == 10,
            BORDER_DISTANCE == 1,
    ;
    assert(0 <= index * SQUARE_SIZE && 0 <= (index + 1) * BORDER_DISTANCE) by (nonlinear_arith);
    index as u64 * SQUARE_SIZE as u64 + (index as u64 + 1) * BORDER_DISTANCE as u64
}

impl Universe {
    /// The width and the height, in this order, of a window that shows
    /// every cell with a gap around it.
    pub fn window_size(&self) -> (size: (u64, u64))
        ensures
            size.0 == pixel_offset(self@.width),
            size.1 == pixel_offset(self@.height),
    {
        (square_offset(self.width()), square_offset(self.height()))
    }

    /// The squares to draw for the grid as it is now, row by row.
    pub fn squares(&self) -> (squares: Vec<Square>)
        ensures
            squares@ == self@.frame(),
    {
        let height = self.height();
        let width = self.width();
        let cells = self.cells();
        let mut squares: Vec<Square> = Vec::new();
        let mut row: u32 = 0;
        while row < height
            invariant
                height == self@.height,
                width == self@.width,
                cells@ == self@.cells,
                self@.wf(),
                row <= height,
                squares@.len() == row * width,
                forall|i: int| 0 <= i < squares@.len() ==> squares@[i] == self@.square_at(i),
            decreases height - row,
        {
            let y = square_offset(row);
            let mut col: u32 = 0;
            while col < width
                invariant
                    height == self@.height,
                    width == self@.width,
                    cells@ == self@.cells,
                    self@.wf(),
                    row < height,
                    col <= width,
                    y == pixel_offset(row as nat),
                    squares@.len() == row * width + col,
                    forall|i: int| 0 <= i < squares@.len() ==> squares@[i] == self@.square_at(i),
                decreases width - col,
            {
                let idx = self.get_index(row, col);
                proof {
                    lemma_index(self@, row as int, col as int);
                }
                squares.push(Square { x: square_offset(col), y, side: SQUARE_SIZE, cell: cells[idx] });
                col = col + 1;
            }
            assert((row + 1) * width == row * width + width) by (nonlinear_arith);
            row = row + 1;
        }
        assert(squares@ =~= self@.frame());
        squares
    }

    /// Answers a press: the space bar and the mouse buttons move the grid
    /// on by one generation, any other press leaves it as it is.
    pub fn on_press(&mut self, press: Press)
        requires
            press.advances() ==> old(self)@.iteration < u32::MAX,
        ensures
            final(self)@ == old(self)@.pressed(press),
    {
        match press {
            Press::Space => self.tick(),
            Press::Mouse => self.tick(),
            Press::Other => {},
        }
    }
}

} // verus!
