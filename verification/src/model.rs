//! The mathematical model of the simulation: index arithmetic, toroidal
//! neighbor counting, the transition rule table, whole-grid stepping,
//! the three seed patterns, and the text rendering, all as spec
//! functions, together with the laws proved about them.

use vstd::prelude::*;

use crate::cell::{cell_value, Cell};
use vstd::arithmetic::div_mod::lemma_fundamental_div_mod_converse_mod;

verus! {

/// The linear position of `(row, col)` in a row-major grid of the
/// given width.
pub open spec fn linear_index(row: int, col: int, width: int) -> int {
    row * width + col
}

/// The value of the toroidal neighbor of `(row, col)` reached by the
/// offsets `(dr, dc)`: both coordinates wrap modulo the dimensions.
pub open spec fn neighbor_value(
    cells: Seq<Cell>,
    width: int,
    height: int,
    row: int,
    col: int,
    dr: int,
    dc: int,
) -> nat {
    cell_value(cells[linear_index((row + dr) % height, (col + dc) % width, width)])
}

/// The number of live cells among the 8 toroidal neighbors of
/// `(row, col)`: the offsets range over {height-1, 0, 1} x
/// {width-1, 0, 1} with (0, 0) excluded, exactly as a -1/0/+1
/// neighborhood reduced modulo the dimensions.
pub open spec fn neighbor_count(
    cells: Seq<Cell>,
    width: int,
    height: int,
    row: int,
    col: int,
) -> nat {
    neighbor_value(cells, width, height, row, col, height - 1, width - 1)
        + neighbor_value(cells, width, height, row, col, height - 1, 0)
        + neighbor_value(cells, width, height, row, col, height - 1, 1)
        + neighbor_value(cells, width, height, row, col, 0, width - 1)
        + neighbor_value(cells, width, height, row, col, 0, 1)
        + neighbor_value(cells, width, height, row, col, 1, width - 1)
        + neighbor_value(cells, width, height, row, col, 1, 0)
        + neighbor_value(cells, width, height, row, col, 1, 1)
}

/// The rule table, first match wins: a live cell dies of
/// underpopulation (< 2) or overpopulation (> 3) and survives with 2
/// or 3 live neighbors; a dead cell becomes alive with exactly 3 live
/// neighbors and otherwise stays dead.
pub open spec fn next_cell(c: Cell, live: nat) -> Cell {
    match c {
        Cell::Alive => if live < 2 {
            Cell::Dead
        } else if live == 2 || live == 3 {
            Cell::Alive
        } else {
            Cell::Dead
        },
        Cell::Dead => if live == 3 {
            Cell::Alive
        } else {
            Cell::Dead
        },
    }
}

/// The canonical seed coordinates of the fixed starting pattern, a
/// Gosper glider gun: true exactly on the 36 hardcoded (row, col)
/// pairs.
pub open spec fn gun_alive(row: int, col: int) -> bool {
    ||| (row == 6 && col == 1)
    ||| (row == 6 && col == 2)
    ||| (row == 7 && col == 1)
    ||| (row == 7 && col == 2)
    ||| (row == 6 && col == 11)
    ||| (row == 7 && col == 11)
    ||| (row == 8 && col == 11)
    ||| (row == 5 && col == 12)
    ||| (row == 9 && col == 12)
    ||| (row == 4 && col == 13)
    ||| (row == 10 && col == 13)
    ||| (row == 4 && col == 14)
    ||| (row == 10 && col == 14)
    ||| (row == 7 && col == 15)
    ||| (row == 5 && col == 16)
    ||| (row == 9 && col == 16)
    ||| (row == 6 && col == 17)
    ||| (row == 7 && col == 17)
    ||| (row == 8 && col == 17)
    ||| (row == 7 && col == 18)
    ||| (row == 4 && col == 21)
    ||| (row == 5 && col == 21)
    ||| (row == 6 && col == 21)
    ||| (row == 4 && col == 22)
    ||| (row == 5 && col == 22)
    ||| (row == 6 && col == 22)
    ||| (row == 3 && col == 23)
    ||| (row == 7 && col == 23)
    ||| (row == 2 && col == 25)
    ||| (row == 3 && col == 25)
    ||| (row == 7 && col == 25)
    ||| (row == 8 && col == 25)
    ||| (row == 4 && col == 35)
    ||| (row == 4 && col == 36)
    ||| (row == 5 && col == 35)
    ||| (row == 5 && col == 36)
}

/// The fixed starting pattern: Alive exactly at the glider-gun seed
/// coordinates, Dead everywhere else.
pub open spec fn gun_cell(row: int, col: int) -> Cell {
    if gun_alive(row, col) {
        Cell::Alive
    } else {
        Cell::Dead
    }
}

/// The default parity pattern: the cell at linear index `i` is Alive
/// exactly when `i` is divisible by 2 or by 7.
pub open spec fn parity_cell(i: int) -> Cell {
    if i % 2 == 0 || i % 7 == 0 {
        Cell::Alive
    } else {
        Cell::Dead
    }
}

/// The grid a deterministic initialization mode seeds over a
/// width x height grid: mode 0 is the fixed glider-gun pattern, and
/// every other deterministic mode falls through to the parity pattern.
pub open spec fn seed_cells(mode: u32, width: int, height: int) -> Seq<Cell> {
    Seq::new(
        (width * height) as nat,
        |i: int| if mode == 0 {
            gun_cell(i / width, i % width)
        } else {
            parity_cell(i)
        },
    )
}

/// A grid built from one Bernoulli draw per cell: Alive exactly where
/// the draw came out true.
pub open spec fn random_cells(draws: Seq<bool>) -> Seq<Cell> {
    Seq::new(
        draws.len(),
        |i: int| if draws[i] {
            Cell::Alive
        } else {
            Cell::Dead
        },
    )
}

/// The glyph a cell renders as: a hollow square for `Dead`, a filled
/// square for `Alive`.
pub open spec fn glyph(c: Cell) -> char {
    match c {
        Cell::Dead => '\u{25fb}',
        Cell::Alive => '\u{25fc}',
    }
}

/// The glyphs of one rendered row, without its line break.
pub open spec fn row_glyphs(cells: Seq<Cell>, width: int, row: int) -> Seq<char> {
    Seq::new(width as nat, |c: int| glyph(cells[row * width + c]))
}

/// The rendered text of the first `rows` rows: each row's glyphs
/// followed by one line break, rows in order.
pub open spec fn render_text(cells: Seq<Cell>, width: int, rows: int) -> Seq<char>
    decreases rows,
{
    if rows <= 0 {
        Seq::empty()
    } else {
        render_text(cells, width, rows - 1) + row_glyphs(cells, width, rows - 1) + seq!['\n']
    }
}

/// One full generation: every cell of the new grid is the rule table
/// applied to the old cell and its live-neighbor count, all computed
/// from the one snapshot `cells`.
pub open spec fn step(cells: Seq<Cell>, width: int, height: int) -> Seq<Cell> {
    Seq::new(
        cells.len(),
        |i: int| next_cell(cells[i], neighbor_count(cells, width, height, i / width, i % width)),
    )
}

/// Advancing one generation never changes the number of cells, so the
/// grid invariant `len(cells) == width * height` is preserved by every
/// step and holds of every reachable grid.
pub proof fn lemma_step_preserves_len(cells: Seq<Cell>, width: int, height: int)
    ensures
        step(cells, width, height).len() == cells.len(),
{
}

/// The deterministic modes are reproducible: the seeded grid, and
/// hence its rendered text, is a function of the mode alone, so two
/// grids seeded with the same mode are identical and render to the
/// same text.
pub proof fn lemma_deterministic_seed(
    mode: u32,
    a: Seq<Cell>,
    b: Seq<Cell>,
    width: int,
    height: int,
)
    requires
        a == seed_cells(mode, width, height),
        b == seed_cells(mode, width, height),
    ensures
        a == b,
        render_text(a, width, height) == render_text(b, width, height),
{
}

/// Toroidal wraparound at the corner: the live-neighbor count of
/// (0, 0) sums exactly the cells of the eight wrapped positions, among
/// them (height-1, width-1), (height-1, 0) and (0, width-1) on the
/// opposite edges of the grid.
pub proof fn lemma_corner_wraparound(cells: Seq<Cell>, width: int, height: int)
    requires
        width >= 2,
        height >= 2,
    ensures
        neighbor_count(cells, width, height, 0, 0) == cell_value(
            cells[(height - 1) * width + (width - 1)],
        ) + cell_value(cells[(height - 1) * width]) + cell_value(cells[(height - 1) * width + 1])
            + cell_value(cells[width - 1]) + cell_value(cells[1]) + cell_value(
            cells[width + width - 1],
        ) + cell_value(cells[width]) + cell_value(cells[width + 1]),
{
    assert((0int + (height - 1)) % height == height - 1) by (nonlinear_arith)
        requires
            height >= 2,
    ;
    assert((0int + (width - 1)) % width == width - 1) by (nonlinear_arith)
        requires
            width >= 2,
    ;
    assert((0int + 0int) % height == 0) by (nonlinear_arith)
        requires
            height >= 2,
    ;
    assert((0int + 0int) % width == 0) by (nonlinear_arith)
        requires
            width >= 2,
    ;
    assert((0int + 1int) % height == 1) by (nonlinear_arith)
        requires
            height >= 2,
    ;
    assert((0int + 1int) % width == 1) by (nonlinear_arith)
        requires
            width >= 2,
    ;
}

/// Toroidal wraparound on every edge: the offset `height - 1` steps
/// up from row 0 onto the last row, the offset 1 steps down from the
/// last row onto row 0, and likewise for columns; away from the edges
/// the offsets move by exactly one. So the neighborhood of any edge or
/// corner position reaches the opposite edge of the grid.
pub proof fn lemma_edge_wraparound(row: int, col: int, width: int, height: int)
    requires
        0 <= row < height,
        0 <= col < width,
    ensures
        (row + (height - 1)) % height == if row == 0 {
            height - 1
        } else {
            row - 1
        },
        (row + 1) % height == if row == height - 1 {
            0
        } else {
            row + 1
        },
        (col + (width - 1)) % width == if col == 0 {
            width - 1
        } else {
            col - 1
        },
        (col + 1) % width == if col == width - 1 {
            0
        } else {
            col + 1
        },
{
    if row == 0 {
        lemma_fundamental_div_mod_converse_mod(row + (height - 1), height, 0, height - 1);
    } else {
        lemma_fundamental_div_mod_converse_mod(row + (height - 1), height, 1, row - 1);
    }
    if row == height - 1 {
        lemma_fundamental_div_mod_converse_mod(row + 1, height, 1, 0);
    } else {
        lemma_fundamental_div_mod_converse_mod(row + 1, height, 0, row + 1);
    }
    if col == 0 {
        lemma_fundamental_div_mod_converse_mod(col + (width - 1), width, 0, width - 1);
    } else {
        lemma_fundamental_div_mod_converse_mod(col + (width - 1), width, 1, col - 1);
    }
    if col == width - 1 {
        lemma_fundamental_div_mod_converse_mod(col + 1, width, 1, 0);
    } else {
        lemma_fundamental_div_mod_converse_mod(col + 1, width, 0, col + 1);
    }
}

/// The rule table, one clause per transition: underpopulation,
/// survival, overpopulation, reproduction, and stasis for a dead cell
/// with any other neighbor count.
pub proof fn lemma_rule_table(live: nat)
    ensures
        live < 2 ==> next_cell(Cell::Alive, live) == Cell::Dead,
        live == 2 || live == 3 ==> next_cell(Cell::Alive, live) == Cell::Alive,
        live > 3 ==> next_cell(Cell::Alive, live) == Cell::Dead,
        next_cell(Cell::Dead, 3) == Cell::Alive,
        live != 3 ==> next_cell(Cell::Dead, live) == Cell::Dead,
{
}

/// Still-life idempotence: a grid in which every cell already equals
/// the rule table applied to itself and its live-neighbor count is
/// left unchanged by one generation.
pub proof fn lemma_still_life(cells: Seq<Cell>, width: int, height: int)
    requires
        forall|i: int|
            0 <= i < cells.len() ==> cells[i] == #[trigger] next_cell(
                cells[i],
                neighbor_count(cells, width, height, i / width, i % width),
            ),
    ensures
        step(cells, width, height) == cells,
{
    assert forall|i: int| 0 <= i < cells.len() implies step(cells, width, height)[i]
        == cells[i] by {
        assert(cells[i] == next_cell(
            cells[i],
            neighbor_count(cells, width, height, i / width, i % width),
        ));
    }
    assert(step(cells, width, height) =~= cells);
}

} // verus!
