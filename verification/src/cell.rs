//! The two-valued cell state.

use vstd::prelude::*;

verus! {

/// The state of one grid cell: `Dead` or `Alive`, with no identity
/// beyond its value.
#[derive(Clone, Copy, Debug, PartialEq, Eq, Structural)]
pub enum Cell {
    Dead,
    Alive,
}

/// The numeric weight a cell contributes to a live-neighbor count:
/// 0 for `Dead`, 1 for `Alive`.
pub open spec fn cell_value(c: Cell) -> nat {
    match c {
        Cell::Dead => 0nat,
        Cell::Alive => 1nat,
    }
}

impl Cell {
    /// The cell's numeric value, so cells can be summed directly while
    /// counting live neighbors.
    pub fn value(&self) -> (v: u8)
        ensures
            v as nat == cell_value(*self),
    {
        match self {
            Cell::Dead => 0,
            Cell::Alive => 1,
        }
    }
}

} // verus!
