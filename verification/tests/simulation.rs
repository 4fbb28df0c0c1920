use game_of_life::{Cell, Universe};

const W: usize = 64;
const H: usize = 64;

/// One Bernoulli draw per cell: true exactly at the given (row, col)
/// coordinates.
fn draws_from_coords(coords: &[(usize, usize)]) -> Vec<bool> {
    let mut draws = vec![false; W * H];
    for &(row, col) in coords {
        draws[row * W + col] = true;
    }
    draws
}

/// A universe whose live cells are exactly the given coordinates.
fn universe_from_coords(coords: &[(usize, usize)]) -> Universe {
    Universe::new_random(&draws_from_coords(coords))
}

fn alive_at(u: &Universe, row: usize, col: usize) -> bool {
    u.cells()[row * W + col] == Cell::Alive
}

fn live_count(u: &Universe) -> usize {
    u.cells().iter().filter(|&&c| c == Cell::Alive).count()
}

fn gun_coords() -> Vec<(usize, usize)> {
    vec![
    (6, 1),
    (6, 2),
    (7, 1),
    (7, 2),
    (6, 11),
    (7, 11),
    (8, 11),
    (5, 12),
    (9, 12),
    (4, 13),
    (10, 13),
    (4, 14),
    (10, 14),
    (7, 15),
    (5, 16),
    (9, 16),
    (6, 17),
    (7, 17),
    (8, 17),
    (7, 18),
    (4, 21),
    (5, 21),
    (6, 21),
    (4, 22),
    (5, 22),
    (6, 22),
    (3, 23),
    (7, 23),
    (2, 25),
    (3, 25),
    (7, 25),
    (8, 25),
    (4, 35),
    (4, 36),
    (5, 35),
        (5, 36),
    ]
}

#[test]
fn dimensions_are_fixed() {
    let u = Universe::new(0);
    assert_eq!(u.width(), 64);
    assert_eq!(u.height(), 64);
    let v = Universe::new(7);
    assert_eq!(v.width(), 64);
    assert_eq!(v.height(), 64);
    assert_eq!(v.cells().len(), W * H);
}

#[test]
fn invariant_holds_across_generations() {
    let mut u = Universe::new(0);
    for _ in 0..8 {
        assert_eq!(u.cells().len(), (u.width() * u.height()) as usize);
        u.tick();
    }
    assert_eq!(u.cells().len(), (u.width() * u.height()) as usize);
}

#[test]
fn gun_mode_sets_exactly_the_seed_coordinates() {
    let u = Universe::new(0);
    for row in 0..H {
        for col in 0..W {
            let expected = gun_coords().contains(&(row, col));
            assert_eq!(alive_at(&u, row, col), expected, "at ({}, {})", row, col);
        }
    }
    assert_eq!(live_count(&u), 36);
}

#[test]
fn default_mode_is_the_parity_pattern() {
    // Every mode other than 0 and 1 falls through to the parity
    // pattern: alive exactly where the linear index divides by 2 or 7.
    for mode in [2u32, 3, 1000] {
        let u = Universe::new(mode);
        for i in 0..(W * H) {
            let expected = i % 2 == 0 || i % 7 == 0;
            assert_eq!(u.cells()[i] == Cell::Alive, expected, "mode {} index {}", mode, i);
        }
    }
}

#[test]
fn default_trait_is_gun_mode() {
    let d = Universe::default();
    let g = Universe::new(0);
    assert_eq!(d.cells(), g.cells());
}

#[test]
fn new_random_maps_each_draw_to_a_cell() {
    let mut draws = vec![false; W * H];
    for i in 0..(W * H) {
        draws[i] = i % 3 == 0;
    }
    let u = Universe::new_random(&draws);
    assert_eq!(u.width(), 64);
    assert_eq!(u.height(), 64);
    for i in 0..(W * H) {
        assert_eq!(u.cells()[i] == Cell::Alive, draws[i], "index {}", i);
    }
}

#[test]
fn render_is_deterministic_for_fixed_modes() {
    assert_eq!(Universe::new(0).render(), Universe::new(0).render());
    assert_eq!(Universe::new(2).render(), Universe::new(2).render());
    assert_ne!(Universe::new(0).render(), Universe::new(2).render());
}

#[test]
fn render_golden_fixture_for_default_mode() {
    let u = Universe::new(2);
    let mut expected = String::new();
    for row in 0..H {
        for col in 0..W {
            let i = row * W + col;
            expected.push(if i % 2 == 0 || i % 7 == 0 { '\u{25fc}' } else { '\u{25fb}' });
        }
        expected.push('\n');
    }
    assert_eq!(u.render(), expected);
    // The first line, written out: even indices plus 7, 21, 35, 49.
    let first = u.render().lines().next().unwrap().to_string();
    assert_eq!(
        first,
        "\u{25fc}\u{25fb}\u{25fc}\u{25fb}\u{25fc}\u{25fb}\u{25fc}\u{25fc}\u{25fc}\u{25fb}\
         \u{25fc}\u{25fb}\u{25fc}\u{25fb}\u{25fc}\u{25fb}\u{25fc}\u{25fb}\u{25fc}\u{25fb}\
         \u{25fc}\u{25fc}\u{25fc}\u{25fb}\u{25fc}\u{25fb}\u{25fc}\u{25fb}\u{25fc}\u{25fb}\
         \u{25fc}\u{25fb}\u{25fc}\u{25fb}\u{25fc}\u{25fc}\u{25fc}\u{25fb}\u{25fc}\u{25fb}\
         \u{25fc}\u{25fb}\u{25fc}\u{25fb}\u{25fc}\u{25fb}\u{25fc}\u{25fb}\u{25fc}\u{25fc}\
         \u{25fc}\u{25fb}\u{25fc}\u{25fb}\u{25fc}\u{25fb}\u{25fc}\u{25fb}\u{25fc}\u{25fb}\
         \u{25fc}\u{25fb}\u{25fc}\u{25fc}"
    );
}

#[test]
fn render_golden_fixture_for_gun_mode() {
    let u = Universe::new(0);
    let mut expected = String::new();
    for row in 0..H {
        for col in 0..W {
            let alive = gun_coords().contains(&(row, col));
            expected.push(if alive { '\u{25fc}' } else { '\u{25fb}' });
        }
        expected.push('\n');
    }
    assert_eq!(u.render(), expected);
}

#[test]
fn render_shape_one_line_per_row() {
    let u = Universe::new(0);
    let text = u.render();
    assert!(text.ends_with('\n'));
    let lines: Vec<&str> = text.lines().collect();
    assert_eq!(lines.len(), H);
    for line in lines {
        assert_eq!(line.chars().count(), W);
    }
}

#[test]
fn toroidal_wraparound_at_the_corner() {
    // Three live cells on the far edges are all neighbors of (0, 0)
    // on the torus, so the dead corner has exactly 3 live neighbors
    // and comes alive.
    let mut u = universe_from_coords(&[(H - 1, W - 1), (H - 1, 0), (0, W - 1)]);
    assert!(!alive_at(&u, 0, 0));
    u.tick();
    assert!(alive_at(&u, 0, 0));
}

#[test]
fn toroidal_wraparound_across_the_top_edge() {
    // A vertical blinker straddling the top edge: its cells are
    // neighbors through the wraparound, so it rotates into a
    // horizontal blinker on row 0 just as it would in mid-grid.
    let mut u = universe_from_coords(&[(H - 1, 10), (0, 10), (1, 10)]);
    u.tick();
    let horizontal = universe_from_coords(&[(0, 9), (0, 10), (0, 11)]);
    assert_eq!(u.cells(), horizontal.cells());
}

#[test]
fn alive_with_zero_neighbors_dies() {
    let mut u = universe_from_coords(&[(10, 10)]);
    u.tick();
    assert!(!alive_at(&u, 10, 10));
    assert_eq!(live_count(&u), 0);
}

#[test]
fn alive_with_one_neighbor_dies() {
    let mut u = universe_from_coords(&[(10, 10), (10, 11)]);
    u.tick();
    assert!(!alive_at(&u, 10, 10));
    assert!(!alive_at(&u, 10, 11));
    assert_eq!(live_count(&u), 0);
}

#[test]
fn alive_with_two_neighbors_survives() {
    // The center of a horizontal blinker has exactly 2 live neighbors.
    let mut u = universe_from_coords(&[(10, 9), (10, 10), (10, 11)]);
    u.tick();
    assert!(alive_at(&u, 10, 10));
}

#[test]
fn alive_with_three_neighbors_survives() {
    // Every cell of a 2x2 block has exactly 3 live neighbors.
    let mut u = universe_from_coords(&[(10, 10), (10, 11), (11, 10), (11, 11)]);
    u.tick();
    assert!(alive_at(&u, 10, 10));
    assert!(alive_at(&u, 10, 11));
    assert!(alive_at(&u, 11, 10));
    assert!(alive_at(&u, 11, 11));
}

#[test]
fn alive_with_four_neighbors_dies() {
    // The center of a plus shape has 4 live neighbors.
    let mut u = universe_from_coords(&[(10, 10), (9, 10), (11, 10), (10, 9), (10, 11)]);
    assert!(alive_at(&u, 10, 10));
    u.tick();
    assert!(!alive_at(&u, 10, 10));
}

#[test]
fn dead_with_three_neighbors_comes_alive() {
    // (11, 11) is dead with exactly 3 live neighbors.
    let mut u = universe_from_coords(&[(10, 10), (10, 11), (11, 10)]);
    assert!(!alive_at(&u, 11, 11));
    u.tick();
    assert!(alive_at(&u, 11, 11));
}

#[test]
fn dead_with_other_counts_stays_dead() {
    // (9, 9) has 2 live neighbors, (9, 8) has 1, (20, 20) has 0: all
    // stay dead.
    let mut u = universe_from_coords(&[(10, 9), (10, 10), (10, 11)]);
    assert!(!alive_at(&u, 9, 9));
    assert!(!alive_at(&u, 9, 8));
    assert!(!alive_at(&u, 20, 20));
    u.tick();
    assert!(!alive_at(&u, 9, 9));
    assert!(!alive_at(&u, 9, 8));
    assert!(!alive_at(&u, 20, 20));
}

#[test]
fn still_life_block_is_unchanged() {
    let mut u = universe_from_coords(&[(10, 10), (10, 11), (11, 10), (11, 11)]);
    let before = u.cells().clone();
    u.tick();
    assert_eq!(u.cells(), &before);
}

#[test]
fn blinker_oscillates_with_period_two() {
    let horizontal = universe_from_coords(&[(10, 9), (10, 10), (10, 11)]);
    let vertical = universe_from_coords(&[(9, 10), (10, 10), (11, 10)]);
    let mut u = universe_from_coords(&[(10, 9), (10, 10), (10, 11)]);
    u.tick();
    assert_eq!(u.cells(), vertical.cells());
    u.tick();
    assert_eq!(u.cells(), horizontal.cells());
}

#[test]
fn buffer_view_must_be_refreshed_after_tick() {
    let mut u = universe_from_coords(&[(10, 9), (10, 10), (10, 11)]);
    // A snapshot of the view taken before a tick shows the old
    // generation; only a fresh view taken after the tick shows the
    // updated cells.
    let before = u.cells().clone();
    u.tick();
    assert_ne!(u.cells(), &before);
    let vertical = universe_from_coords(&[(9, 10), (10, 10), (11, 10)]);
    assert_eq!(u.cells(), vertical.cells());
}
