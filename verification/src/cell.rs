//! The two states a cell can be in, and how one cell moves from one
//! generation to the next.

use vstd::prelude::*;

verus! {

/// The state of one cell of the grid.
#[derive(Clone, Copy, Debug, PartialEq, Eq, Structural)]
pub enum Cell {
    Dead,
    Alive,
}

impl Cell {
    /// What a cell adds to the neighbour count of the cells around it:
    /// one if it is alive, nothing if it is dead.
    pub open spec fn weight(self) -> nat {
        match self {
            Cell::Dead => 0,
            Cell::Alive => 1,
        }
    }

    /// The state of a cell in the next generation, given its state now and
    /// the number of live cells around it. The first line that applies wins:
    /// fewer than two neighbours kill, exactly three give life, more than
    /// four kill; with two or four neighbours the cell stays as it is.
    pub open spec fn successor(self, live_neighbors: nat) -> Cell {
        if live_neighbors < 2 {
            Cell::Dead
        } else if live_neighbors == 3 {
            Cell::Alive
        } else if live_neighbors > 4 {
            Cell::Dead
        } else {
            self
        }
    }

    /// The character that stands for the cell in a rendering of the grid:
    /// a hollow square for a dead cell, a filled square for a live one.
    pub open spec fn symbol(self) -> char {
        match self {
            Cell::Dead => '◻',
            Cell::Alive => '◼',
        }
    }

    /// The cell that a coin flip stands for: alive on `true`, dead on
    /// `false`.
    pub open spec fn of_flip(flip: bool) -> Cell {
        if flip {
            Cell::Alive
        } else {
            Cell::Dead
        }
    }

    /// Turns a coin flip into a cell.
    pub fn from_flip(flip: bool) -> (cell: Cell)
        ensures
            cell == Cell::of_flip(flip),
    {
        if flip {
            Cell::Alive
        } else {
            Cell::Dead
        }
    }

    /// The number this cell contributes to a neighbour count.
    pub fn value(self) -> (n: u8)
        ensures
            n == self.weight(),
    {
        match self {
            Cell::Dead => 0,
            Cell::Alive => 1,
        }
    }

    /// The cell's symbol, as a string of that one character.
    pub fn glyph(self) -> (text: &'static str)
        ensures
            text@ == seq![self.symbol()],
    {
        proof {
            reveal_strlit("◻");
            reveal_strlit("◼");
        }
        match self {
            Cell::Dead => {
                let text = "◻";
                assert(text@ =~= seq![self.symbol()]);
                text
            },
            Cell::Alive => {
                let text = "◼";
                assert(text@ =~= seq![self.symbol()]);
                text
            },
        }
    }

    /// Applies the transition rule to one cell.
    pub fn evolve(self, live_neighbors: u8) -> (next: Cell)
        ensures
            next == self.successor(live_neighbors as nat),
    {
        if live_neighbors < 2 {
            Cell::Dead
        } else if live_neighbors == 3 {
            Cell::Alive
        } else if live_neighbors > 4 {
            Cell::Dead
        } else {
            self
        }
    }
}

} // verus!
