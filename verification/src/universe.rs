//! The grid itself: construction, generation advance, and export.

use vstd::prelude::*;

use crate::cell::Cell;
use crate::model::{
    gun_alive, linear_index, neighbor_count, neighbor_value, next_cell, random_cells, render_text,
    row_glyphs, seed_cells, step,
};
use vstd::arithmetic::div_mod::lemma_fundamental_div_mod_converse;
use vstd::string::StringExecFns;

verus! {

/// The fixed grid width of a newly constructed universe.
pub const GRID_WIDTH: u32 = 64;

/// The fixed grid height of a newly constructed universe.
pub const GRID_HEIGHT: u32 = 64;

/// A toroidal Game of Life grid: fixed dimensions and a flat,
/// row-major cell array of exactly `width * height` cells.
pub struct Universe {
    pub width: u32,
    pub height: u32,
    pub cells: Vec<Cell>,
}

impl Universe {
    /// The grid invariant: positive dimensions and a cell array whose
    /// length is exactly `width * height`.
    pub open spec fn well_formed(&self) -> bool {
        &&& self.width >= 1
        &&& self.height >= 1
        &&& self.cells@.len() == self.width as int * self.height as int
    }

    /// Whether `(row, col)` is one of the canonical glider-gun seed
    /// coordinates.
    fn gun_seeded(row: u32, col: u32) -> (alive: bool)
        ensures
            alive == gun_alive(row as int, col as int),
    {
        (row == 6 && col == 1) || (row == 6 && col == 2)
            || (row == 7 && col == 1) || (row == 7 && col == 2)
            || (row == 6 && col == 11) || (row == 7 && col == 11)
            || (row == 8 && col == 11) || (row == 5 && col == 12)
            || (row == 9 && col == 12) || (row == 4 && col == 13)
            || (row == 10 && col == 13) || (row == 4 && col == 14)
            || (row == 10 && col == 14) || (row == 7 && col == 15)
            || (row == 5 && col == 16) || (row == 9 && col == 16)
            || (row == 6 && col == 17) || (row == 7 && col == 17)
            || (row == 8 && col == 17) || (row == 7 && col == 18)
            || (row == 4 && col == 21) || (row == 5 && col == 21)
            || (row == 6 && col == 21) || (row == 4 && col == 22)
            || (row == 5 && col == 22) || (row == 6 && col == 22)
            || (row == 3 && col == 23) || (row == 7 && col == 23)
            || (row == 2 && col == 25) || (row == 3 && col == 25)
            || (row == 7 && col == 25) || (row == 8 && col == 25)
            || (row == 4 && col == 35) || (row == 4 && col == 36)
            || (row == 5 && col == 35) || (row == 5 && col == 36)
    }

    /// Construct a universe of the fixed dimensions, seeded by the
    /// given deterministic mode: 0 yields the fixed glider-gun
    /// pattern, and any other deterministic mode (the random mode is
    /// built through `new_random` from externally supplied draws)
    /// falls through to the default parity pattern.
    pub fn new(init_state: u32) -> (u: Universe)
        requires
            init_state != 1,
        ensures
            u.well_formed(),
            u.width == GRID_WIDTH,
            u.height == GRID_HEIGHT,
            u.cells@ == seed_cells(init_state, GRID_WIDTH as int, GRID_HEIGHT as int),
    {
        let width: u32 = GRID_WIDTH;
        let height: u32 = GRID_HEIGHT;
        let n: u32 = width * height;
        let mut cells: Vec<Cell> = Vec::new();
        let mut i: u32 = 0;
        while i < n
            invariant
                width == GRID_WIDTH,
                height == GRID_HEIGHT,
                n == GRID_WIDTH as int * GRID_HEIGHT as int,
                i <= n,
                cells@.len() == i as int,
                forall|j: int|
                    0 <= j < i as int ==> cells@[j] == seed_cells(
                        init_state,
                        GRID_WIDTH as int,
                        GRID_HEIGHT as int,
                    )[j],
            decreases n - i,
        {
            let cell = if init_state == 0 {
                if Self::gun_seeded(i / width, i % width) {
                    Cell::Alive
                } else {
                    Cell::Dead
                }
            } else {
                if i % 2 == 0 || i % 7 == 0 {
                    Cell::Alive
                } else {
                    Cell::Dead
                }
            };
            cells.push(cell);
            i += 1;
        }
        proof {
            assert(cells@ =~= seed_cells(init_state, GRID_WIDTH as int, GRID_HEIGHT as int));
        }
        Universe { width, height, cells }
    }

    /// Construct a universe of the fixed dimensions from one Bernoulli
    /// draw per cell, as the random mode requires: the draws are
    /// supplied by the caller so that the uniform-random source stays
    /// injectable and mockable.
    pub fn new_random(draws: &Vec<bool>) -> (u: Universe)
        requires
            draws@.len() == GRID_WIDTH as int * GRID_HEIGHT as int,
        ensures
            u.well_formed(),
            u.width == GRID_WIDTH,
            u.height == GRID_HEIGHT,
            u.cells@ == random_cells(draws@),
    {
        let mut cells: Vec<Cell> = Vec::new();
        let mut i: usize = 0;
        while i < draws.len()
            invariant
                draws@.len() == GRID_WIDTH as int * GRID_HEIGHT as int,
                i <= draws@.len(),
                cells@.len() == i as int,
                forall|j: int| 0 <= j < i as int ==> cells@[j] == random_cells(draws@)[j],
            decreases draws@.len() - i,
        {
            let cell = if draws[i] {
                Cell::Alive
            } else {
                Cell::Dead
            };
            cells.push(cell);
            i += 1;
        }
        proof {
            assert(cells@ =~= random_cells(draws@));
        }
        Universe { width: GRID_WIDTH, height: GRID_HEIGHT, cells }
    }

    /// The fixed width of the grid.
    pub fn width(&self) -> (w: u32)
        ensures
            w == self.width,
    {
        self.width
    }

    /// The fixed height of the grid.
    pub fn height(&self) -> (h: u32)
        ensures
            h == self.height,
    {
        self.height
    }

    /// The linear position of `(row, column)` in the row-major cell
    /// array.
    fn get_index(&self, row: u32, column: u32) -> (idx: usize)
        requires
            self.well_formed(),
            row < self.height,
            column < self.width,
        ensures
            idx == linear_index(row as int, column as int, self.width as int),
            idx < self.cells@.len(),
    {
        proof {
            assert(self.cells.len() <= usize::MAX);
            assert((row as int) * (self.width as int) + (column as int) < (self.width as int)
                * (self.height as int)) by (nonlinear_arith)
                requires
                    row < self.height,
                    column < self.width,
            ;
        }
        let wide: u64 = row as u64 * self.width as u64 + column as u64;
        assert(wide < self.cells@.len());
        wide as usize
    }

    /// The value of the neighbor of `(row, column)` reached by the
    /// offsets `(dr, dc)`, with both coordinates wrapped modulo the
    /// grid dimensions.
    fn wrapped_value(&self, row: u32, column: u32, dr: u32, dc: u32) -> (v: u8)
        requires
            self.well_formed(),
        ensures
            v as nat == neighbor_value(
                self.cells@,
                self.width as int,
                self.height as int,
                row as int,
                column as int,
                dr as int,
                dc as int,
            ),
            v <= 1,
    {
        let nr: u32 = ((row as u64 + dr as u64) % (self.height as u64)) as u32;
        let nc: u32 = ((column as u64 + dc as u64) % (self.width as u64)) as u32;
        let idx = self.get_index(nr, nc);
        self.cells[idx].value()
    }

    /// The number of live cells among the 8 toroidal neighbors of
    /// `(row, column)`: one wrapped lookup per offset pair, with
    /// `height - 1` and `width - 1` standing for the -1 offsets.
    fn live_neighbor_count(&self, row: u32, column: u32) -> (count: u8)
        requires
            self.well_formed(),
        ensures
            count as nat == neighbor_count(
                self.cells@,
                self.width as int,
                self.height as int,
                row as int,
                column as int,
            ),
            count <= 8,
    {
        let up = self.height - 1;
        let left = self.width - 1;
        let mut count: u8 = self.wrapped_value(row, column, up, left);
        count += self.wrapped_value(row, column, up, 0);
        count += self.wrapped_value(row, column, up, 1);
        count += self.wrapped_value(row, column, 0, left);
        count += self.wrapped_value(row, column, 0, 1);
        count += self.wrapped_value(row, column, 1, left);
        count += self.wrapped_value(row, column, 1, 0);
        count += self.wrapped_value(row, column, 1, 1);
        count
    }

    /// The rule table applied to one cell and its live-neighbor count.
    fn step_cell(cell: Cell, live_neighbors: u8) -> (next: Cell)
        ensures
            next == next_cell(cell, live_neighbors as nat),
    {
        match cell {
            Cell::Alive => if live_neighbors < 2 {
                // underpopulation
                Cell::Dead
            } else if live_neighbors <= 3 {
                // stable
                Cell::Alive
            } else {
                // overpopulation
                Cell::Dead
            },
            Cell::Dead => if live_neighbors == 3 {
                // reproduction
                Cell::Alive
            } else {
                Cell::Dead
            },
        }
    }

    /// Advance the grid one generation: every cell of the new array is
    /// computed from the one snapshot of the old array, and the array
    /// is replaced whole, so no reader ever sees a mixed generation.
    pub fn tick(&mut self)
        requires
            old(self).well_formed(),
        ensures
            final(self).well_formed(),
            final(self).width == old(self).width,
            final(self).height == old(self).height,
            final(self).cells@ == step(
                old(self).cells@,
                old(self).width as int,
                old(self).height as int,
            ),
    {
        let width = self.width;
        let height = self.height;
        let mut next: Vec<Cell> = Vec::new();
        let mut row: u32 = 0;
        while row < height
            invariant
                *self == *old(self),
                self.well_formed(),
                width == self.width,
                height == self.height,
                row <= height,
                next@.len() == row as int * width as int,
                forall|i: int|
                    0 <= i < next@.len() ==> next@[i] == step(
                        self.cells@,
                        width as int,
                        height as int,
                    )[i],
            decreases height - row,
        {
            let mut col: u32 = 0;
            while col < width
                invariant
                    *self == *old(self),
                    self.well_formed(),
                    width == self.width,
                    height == self.height,
                    row < height,
                    col <= width,
                    next@.len() == row as int * width as int + col as int,
                    forall|i: int|
                        0 <= i < next@.len() ==> next@[i] == step(
                            self.cells@,
                            width as int,
                            height as int,
                        )[i],
                decreases width - col,
            {
                let idx = self.get_index(row, col);
                let cell = self.cells[idx];
                let live = self.live_neighbor_count(row, col);
                next.push(Self::step_cell(cell, live));
                proof {
                    lemma_fundamental_div_mod_converse(
                        idx as int,
                        width as int,
                        row as int,
                        col as int,
                    );
                }
                col += 1;
            }
            proof {
                assert((row as int + 1) * (width as int) == (row as int) * (width as int)
                    + (width as int)) by (nonlinear_arith);
            }
            row += 1;
        }
        proof {
            assert(next@.len() == width as int * height as int) by (nonlinear_arith)
                requires
                    next@.len() == height as int * width as int,
            ;
            assert(next@ =~= step(self.cells@, width as int, height as int));
        }
        self.cells = next;
    }

    /// The current generation as glyph text: one line per row, each
    /// cell as its glyph, one line break after every row and nothing
    /// else.
    pub fn render(&self) -> (text: String)
        requires
            self.well_formed(),
        ensures
            text@ == render_text(self.cells@, self.width as int, self.height as int),
    {
        let mut text = String::new();
        let mut row: u32 = 0;
        while row < self.height
            invariant
                self.well_formed(),
                row <= self.height,
                text@ == render_text(self.cells@, self.width as int, row as int),
            decreases self.height - row,
        {
            let mut col: u32 = 0;
            while col < self.width
                invariant
                    self.well_formed(),
                    row < self.height,
                    col <= self.width,
                    text@ == render_text(self.cells@, self.width as int, row as int) + row_glyphs(
                        self.cells@,
                        self.width as int,
                        row as int,
                    ).take(col as int),
                decreases self.width - col,
            {
                let idx = self.get_index(row, col);
                if self.cells[idx] == Cell::Dead {
                    text.append("\u{25fb}");
                } else {
                    text.append("\u{25fc}");
                }
                proof {
                    reveal_strlit("\u{25fb}");
                    reveal_strlit("\u{25fc}");
                    assert(text@ =~= render_text(self.cells@, self.width as int, row as int)
                        + row_glyphs(self.cells@, self.width as int, row as int).take(
                        col as int + 1,
                    ));
                }
                col += 1;
            }
            text.append("\n");
            proof {
                reveal_strlit("\n");
                assert(row_glyphs(self.cells@, self.width as int, row as int).take(
                    self.width as int,
                ) =~= row_glyphs(self.cells@, self.width as int, row as int));
                assert(text@ =~= render_text(self.cells@, self.width as int, row as int + 1));
            }
            row += 1;
        }
        text
    }

    /// A read-only view of the current cell array, in row-major order,
    /// for zero-copy external rendering. The borrow ends before the
    /// next `tick`, which replaces the array; a caller takes a fresh
    /// view after each generation.
    pub fn cells(&self) -> (cells: &Vec<Cell>)
        ensures
            cells@ == self.cells@,
    {
        &self.cells
    }
}

impl Default for Universe {
    /// The default universe is the fixed-pattern mode.
    fn default() -> (u: Universe)
        ensures
            u.well_formed(),
            u.width == GRID_WIDTH,
            u.height == GRID_HEIGHT,
            u.cells@ == seed_cells(0, GRID_WIDTH as int, GRID_HEIGHT as int),
    {
        Universe::new(0)
    }
}

} // verus!
