//! Tests of the panel-geometry renderer: the grid split across the four
//! panels, the crosshair overlay, and brightness broadcast.

use life_matrix::game::{Life, State};
use life_matrix::matrix::Matrix;

fn bit(v: u8, b: u32) -> bool {
    (v >> b) & 1 == 1
}

fn patterned_grid() -> Life {
    let mut g = Life::new();
    for y in 0..16 {
        g.cells[y] = 0xA5C3 ^ (y as u16).wrapping_mul(0x0F1D);
    }
    g
}

#[test]
fn new_matrix_is_blank() {
    let m = Matrix::new();
    for p in 0..4 {
        for i in 0..8 {
            assert_eq!(m.frame[p][i], 0);
        }
        assert_eq!(m.intensity[p], 0);
    }
}

#[test]
fn update_brightness_broadcasts_to_all_panels() {
    let mut m = Matrix::new();
    let g = patterned_grid();
    m.update_leds(&g);
    let before = m.frame;
    m.update_brightness(11);
    for p in 0..4 {
        assert_eq!(m.intensity[p], 11);
    }
    assert_eq!(m.frame, before);
}

#[test]
fn update_leds_splits_glider_across_panels() {
    let mut g = Life::new();
    g.draw_glider();
    let mut m = Matrix::new();
    m.update_leds(&g);
    assert_eq!(m.frame[0][0], 0x40);
    assert_eq!(m.frame[0][1], 0x20);
    assert_eq!(m.frame[0][2], 0xE0);
    for i in 3..8 {
        assert_eq!(m.frame[0][i], 0);
    }
    for p in 1..4 {
        for i in 0..8 {
            assert_eq!(m.frame[p][i], 0);
        }
    }
}

#[test]
fn render_round_trips_to_the_grid() {
    let g = patterned_grid();
    let mut m = Matrix::new();
    m.update_leds(&g);
    for y in 0..16 {
        let (ph, pl, i) = if y < 8 { (0, 1, y) } else { (2, 3, y - 8) };
        let decoded = ((m.frame[ph][i] as u16) << 8) | (m.frame[pl][i] as u16);
        assert_eq!(decoded, g.cells[y]);
    }
}

#[test]
fn set_row_writes_inverse_mask_bytes() {
    let mut m = Matrix::new();
    let g = patterned_grid();
    m.update_leds(&g);
    let before = m.frame;
    m.set_row(2, 3);
    assert_eq!(m.frame[0][2], 0xEF);
    assert_eq!(m.frame[1][2], 0xFF);
    for p in 0..4 {
        for i in 0..8 {
            if !((p == 0 || p == 1) && i == 2) {
                assert_eq!(m.frame[p][i], before[p][i]);
            }
        }
    }
    m.set_row(10, 12);
    assert_eq!(m.frame[2][2], 0xFF);
    assert_eq!(m.frame[3][2], 0xF7);
    // A skip value of 16 clears nothing.
    m.set_row(0, 16);
    assert_eq!(m.frame[0][0], 0xFF);
    assert_eq!(m.frame[1][0], 0xFF);
}

#[test]
fn set_column_forces_one_column_on_two_panels() {
    let g = Life::new();
    let mut m = Matrix::new();
    m.set_column(2, 16, &g);
    for i in 0..8 {
        assert_eq!(m.frame[0][i], 0x20);
        assert_eq!(m.frame[2][i], 0x20);
        assert_eq!(m.frame[1][i], 0);
        assert_eq!(m.frame[3][i], 0);
    }
    // A skip row leaves that one row's bit unforced.
    let mut m2 = Matrix::new();
    m2.set_column(2, 5, &g);
    for i in 0..8 {
        assert_eq!(m2.frame[0][i], if i == 5 { 0x00 } else { 0x20 });
        assert_eq!(m2.frame[2][i], 0x20);
    }
    // A right-half column lands on panels 1 and 3.
    let mut m3 = Matrix::new();
    m3.set_column(10, 16, &g);
    for i in 0..8 {
        assert_eq!(m3.frame[1][i], 0x20);
        assert_eq!(m3.frame[3][i], 0x20);
        assert_eq!(m3.frame[0][i], 0);
        assert_eq!(m3.frame[2][i], 0);
    }
}

#[test]
fn crosshair_differs_only_in_cursor_row_and_column() {
    let g = patterned_grid();
    let mut plain = Matrix::new();
    plain.update_leds(&g);
    let mut overlaid = Matrix::new();
    let mut st = State::new();
    st.xhair_row = 3;
    st.xhair_col = 10;
    overlaid.update_leds(&g);
    overlaid.draw_xhair(&g, &st);
    for p in 0..4 {
        for i in 0..8 {
            // The cursor row's register on panels 0 and 1 is the row pass's.
            if (p == 0 || p == 1) && i == 3 {
                continue;
            }
            for b in 0..8 {
                // The cursor column's bit on panels 1 and 3 is forced.
                if (p == 1 || p == 3) && b == 5 {
                    continue;
                }
                assert_eq!(
                    bit(overlaid.frame[p][i], b),
                    bit(plain.frame[p][i], b),
                    "panel {} register {} bit {}",
                    p,
                    i,
                    b
                );
            }
        }
    }
}

#[test]
fn crosshair_center_shows_live_cell() {
    let mut g = Life::new();
    // Cell (10, 3) alive: bit 5 of row 3.
    g.cells[3] = 0x0020;
    let mut st = State::new();
    st.xhair_row = 3;
    st.xhair_col = 10;
    let mut m = Matrix::new();
    m.update_leds(&g);
    m.draw_xhair(&g, &st);
    // The center stays lit, and the whole cursor row is lit.
    assert_eq!(m.frame[1][3], 0xFF);
    assert_eq!(m.frame[0][3], 0xFF);
}

#[test]
fn crosshair_center_stays_dark_over_dead_cell() {
    let g = Life::new();
    let mut st = State::new();
    st.xhair_row = 3;
    st.xhair_col = 10;
    let mut m = Matrix::new();
    m.update_leds(&g);
    m.draw_xhair(&g, &st);
    // The row pass lights everything but the center bit.
    assert!(!bit(m.frame[1][3], 5));
    assert_eq!(m.frame[1][3], 0xDF);
    assert_eq!(m.frame[0][3], 0xFF);
    // The column pass lights the cursor column on every other row.
    for i in 0..8 {
        if i != 3 {
            assert!(bit(m.frame[1][i], 5));
        }
        assert!(bit(m.frame[3][i], 5));
    }
}

#[test]
fn crosshair_over_running_grid_keeps_cell_state_visible() {
    // The column pass carries the underlying grid bytes with it: cells of
    // the redrawn panels that are alive stay visible off the crosshair.
    let mut g = Life::new();
    g.cells[12] = 0x0002;
    let mut st = State::new();
    st.xhair_row = 0;
    st.xhair_col = 15;
    let mut m = Matrix::new();
    m.update_leds(&g);
    m.draw_xhair(&g, &st);
    // Cell (14, 12) lives on panel 3, register 4, bit 1: the column pass
    // redrew that panel, yet the cell is still shown.
    assert!(bit(m.frame[3][4], 1));
    // And the forced cursor-column bit sits beside it.
    assert!(bit(m.frame[3][4], 0));
}
