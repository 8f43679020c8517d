//! Tests of the toroidal automaton: neighbor counting, the step rule, and
//! grid editing.

use life_matrix::game::Life;

#[test]
fn all_dead_grid_has_no_neighbors() {
    let g = Life::new();
    for y in 0..16 {
        for x in 0..16 {
            assert_eq!(g.count_neighbors(x, y), 0);
        }
    }
}

#[test]
fn neighbor_count_wraps_both_axes() {
    let mut g = Life::new();
    // Only cell (0, 0) alive: column 0 is bit 15 of row 0.
    g.cells[0] = 0x8000;
    // (15, 15) sees it across both edges.
    assert_eq!(g.count_neighbors(15, 15), 1);
    // So do the other toroidal neighbors of (0, 0).
    assert_eq!(g.count_neighbors(1, 1), 1);
    assert_eq!(g.count_neighbors(15, 1), 1);
    assert_eq!(g.count_neighbors(1, 15), 1);
    // The cell itself is not its own neighbor.
    assert_eq!(g.count_neighbors(0, 0), 0);
}

#[test]
fn block_is_still_life() {
    let mut g = Life::new();
    // A 2x2 block at columns 5-6, rows 5-6.
    g.cells[5] = 0x0600;
    g.cells[6] = 0x0600;
    g.live();
    assert_eq!(g.cells[5], 0x0600);
    assert_eq!(g.cells[6], 0x0600);
    for y in 0..16 {
        if y != 5 && y != 6 {
            assert_eq!(g.cells[y], 0);
        }
    }
}

#[test]
fn block_wrapping_all_four_corners_is_still_life() {
    let mut g = Life::new();
    // A 2x2 block at columns 15 and 0, rows 15 and 0: one cell per corner.
    g.cells[0] = 0x8001;
    g.cells[15] = 0x8001;
    g.live();
    assert_eq!(g.cells[0], 0x8001);
    assert_eq!(g.cells[15], 0x8001);
    for y in 1..15 {
        assert_eq!(g.cells[y], 0);
    }
}

#[test]
fn lone_cell_dies() {
    let mut g = Life::new();
    g.cells[7] = 0x0100;
    g.live();
    for y in 0..16 {
        assert_eq!(g.cells[y], 0);
    }
}

#[test]
fn blinker_oscillates() {
    let mut g = Life::new();
    // A vertical three-cell line in column 3, rows 4-6.
    g.cells[4] = 0x1000;
    g.cells[5] = 0x1000;
    g.cells[6] = 0x1000;
    g.live();
    // One step turns it horizontal: row 5, columns 2-4.
    assert_eq!(g.cells[4], 0);
    assert_eq!(g.cells[5], 0x3800);
    assert_eq!(g.cells[6], 0);
    g.live();
    // A second step restores the vertical line.
    assert_eq!(g.cells[4], 0x1000);
    assert_eq!(g.cells[5], 0x1000);
    assert_eq!(g.cells[6], 0x1000);
}

#[test]
fn glider_translates_by_one_after_four_steps() {
    let mut g = Life::new();
    g.draw_glider();
    assert_eq!(g.cells[0], 0x4000);
    assert_eq!(g.cells[1], 0x2000);
    assert_eq!(g.cells[2], 0xE000);
    for _ in 0..4 {
        g.live();
    }
    // The same shape, one row down and one column right.
    assert_eq!(g.cells[0], 0);
    assert_eq!(g.cells[1], 0x2000);
    assert_eq!(g.cells[2], 0x1000);
    assert_eq!(g.cells[3], 0x7000);
    for y in 4..16 {
        assert_eq!(g.cells[y], 0);
    }
}

#[test]
fn get_cell_reads_packed_bits() {
    let mut g = Life::new();
    g.cells[3] = 0x8001;
    assert_eq!(g.get_cell(0, 3), 1);
    assert_eq!(g.get_cell(15, 3), 1);
    assert_eq!(g.get_cell(1, 3), 0);
    assert_eq!(g.get_cell(0, 4), 0);
}

#[test]
fn toggle_cell_flips_one_bit() {
    let mut g = Life::new();
    g.toggle_cell(4, 9);
    assert_eq!(g.get_cell(4, 9), 1);
    assert_eq!(g.cells[9], 0x0800);
    for y in 0..16 {
        if y != 9 {
            assert_eq!(g.cells[y], 0);
        }
    }
    g.toggle_cell(4, 9);
    assert_eq!(g.get_cell(4, 9), 0);
    assert_eq!(g.cells[9], 0);
}

#[test]
fn seed_pattern_overwrites_a_row_block() {
    let mut g = Life::new();
    g.cells[0] = 0xFFFF;
    g.cells[5] = 0xFFFF;
    g.seed_pattern(1, &[0x1234, 0x5678, 0x9ABC]);
    assert_eq!(g.cells[0], 0xFFFF);
    assert_eq!(g.cells[1], 0x1234);
    assert_eq!(g.cells[2], 0x5678);
    assert_eq!(g.cells[3], 0x9ABC);
    assert_eq!(g.cells[4], 0);
    assert_eq!(g.cells[5], 0xFFFF);
}
