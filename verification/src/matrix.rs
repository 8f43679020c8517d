//! The geometry layer: maps the 16x16 logical grid, plus the crosshair
//! cursor, onto the four 8x8 panel buffers of the physical display.
//!
//! Panels are numbered 0..4 in a 2x2 arrangement: panel 0 shows rows 0-7 of
//! columns 0-7, panel 1 rows 0-7 of columns 8-15, panel 2 rows 8-15 of
//! columns 0-7, and panel 3 rows 8-15 of columns 8-15. Each panel holds one
//! byte per row; bit 7 of a byte is the leftmost column of its half.

use vstd::prelude::*;

verus! {

use crate::game::{cell_at, Life, State, COLS, ROWS};

/// The number of 8x8 sub-panels, arranged into 4 quadrants.
pub const NUM_DISPLAYS: usize = 4;

/// Rows covered by one panel.
pub const HALF_ROWS: usize = 8;

/// Columns covered by one panel.
pub const HALF_COLS: usize = 8;

/// Whether panel `p` shows logical row `y`.
pub open spec fn panel_covers_row(p: int, y: int) -> bool {
    if y < 8 {
        p == 0 || p == 1
    } else {
        p == 2 || p == 3
    }
}

/// Whether panel `p` shows logical column `x`.
pub open spec fn panel_covers_col(p: int, x: int) -> bool {
    if x < 8 {
        p == 0 || p == 2
    } else {
        p == 1 || p == 3
    }
}

/// The register index (0-based) of logical row `y` within its panel.
pub open spec fn panel_reg(y: int) -> int {
    if y < 8 {
        y
    } else {
        y - 8
    }
}

/// The logical row shown by register `i` of panel `p`.
pub open spec fn panel_row(p: int, i: int) -> int {
    if p < 2 {
        i
    } else {
        i + 8
    }
}

/// The bit position, counted from the least significant end of a panel byte,
/// of logical column `x` within its half.
pub open spec fn panel_bit(x: int) -> int {
    if x < 8 {
        7 - x
    } else {
        15 - x
    }
}

/// The panel showing the cell at column `x`, row `y`.
pub open spec fn panel_of(x: int, y: int) -> int {
    (if y < 8 {
        0int
    } else {
        2int
    }) + (if x < 8 {
        0int
    } else {
        1int
    })
}

/// Whether bit `b` of the panel byte `v` is lit.
pub open spec fn byte_bit(v: u8, b: int) -> bool
    recommends
        0 <= b < 8,
{
    (v >> (b as u8)) & 1u8 == 1u8
}

/// The high (left half, columns 0-7) or low (right half, columns 8-15) byte
/// of a packed grid row.
pub open spec fn half_byte(r: u16, left: bool) -> u8 {
    if left {
        (r >> 8u16) as u8
    } else {
        (r & 0xFFu16) as u8
    }
}

/// The byte that rendering the bare grid places in register `i` of panel `p`.
pub open spec fn spec_grid_byte(g: Life, p: int, i: int) -> u8
    recommends
        0 <= p < 4,
        0 <= i < 8,
{
    half_byte(g.cells[panel_row(p, i)], p == 0 || p == 2)
}

/// Reassembles a packed grid row from its two panel bytes.
pub open spec fn spec_decode_row(hi: u8, lo: u8) -> u16 {
    ((hi as u16) << 8u16) | (lo as u16)
}

/// Grid row `y` with the crosshair column `col` forced on, except on the
/// skip row, which is left untouched.
pub open spec fn overlay_col_row(g: Life, col: int, skip_row: int, y: int) -> u16 {
    if y == skip_row {
        g.cells[y]
    } else {
        g.cells[y] | (1u16 << ((15 - col) as u16))
    }
}

/// The byte the column pass places in the register showing row `y`.
pub open spec fn spec_col_byte(g: Life, col: int, skip_row: int, y: int) -> u8 {
    half_byte(overlay_col_row(g, col, skip_row, y), col < 8)
}

/// The byte the row pass writes into the left-half panel of the cursor row:
/// fully lit, except that a skip column in 0..8 clears its one bit.
pub open spec fn spec_row_left_byte(skip_col: int) -> u8 {
    if 0 <= skip_col < 8 {
        !(1u8 << ((7 - skip_col) as u8))
    } else {
        0xFFu8
    }
}

/// The byte the row pass writes into the right-half panel of the cursor row:
/// fully lit, except that a skip column in 8..16 clears its one bit.
pub open spec fn spec_row_right_byte(skip_col: int) -> u8 {
    if 8 <= skip_col < 16 {
        !(1u8 << ((15 - skip_col) as u8))
    } else {
        0xFFu8
    }
}

/// The row the column pass must leave untouched: the cursor row when the
/// cell under the cursor is dead, else the out-of-range sentinel 16.
pub open spec fn spec_skip_row(g: Life, st: State) -> int {
    if g.spec_cell(st.xhair_col as int, st.xhair_row as int) {
        16
    } else {
        st.xhair_row as int
    }
}

/// The column whose bit the row pass must clear: the cursor column when the
/// cell under the cursor is dead, else the out-of-range sentinel 16.
pub open spec fn spec_skip_col(g: Life, st: State) -> int {
    if g.spec_cell(st.xhair_col as int, st.xhair_row as int) {
        16
    } else {
        st.xhair_col as int
    }
}

/// What the crosshair overlay leaves in register `i` of panel `p`, when that
/// register held `prev` before: the cursor row's registers take the row-pass
/// byte, the cursor column's two panels take the column-pass byte, and
/// everything else keeps its previous content. The row pass runs last, so it
/// wins on the one register both passes touch.
pub open spec fn spec_xhair_byte_over(g: Life, st: State, p: int, i: int, prev: u8) -> u8 {
    let r = st.xhair_row as int;
    let c = st.xhair_col as int;
    if panel_covers_row(p, r) && i == panel_reg(r) {
        if p == 0 || p == 2 {
            spec_row_left_byte(spec_skip_col(g, st))
        } else {
            spec_row_right_byte(spec_skip_col(g, st))
        }
    } else if panel_covers_col(p, c) {
        spec_col_byte(g, c, spec_skip_row(g, st), panel_row(p, i))
    } else {
        prev
    }
}

/// The full frame shown after rendering the grid and then the crosshair.
pub open spec fn spec_xhair_byte(g: Life, st: State, p: int, i: int) -> u8 {
    spec_xhair_byte_over(g, st, p, i, spec_grid_byte(g, p, i))
}

/// The renderer's image of the display: `frame[p]` holds the eight row bytes
/// last written to panel `p`, and `intensity[p]` its brightness register.
/// A display-driver collaborator mirrors these buffers out over the bus.
pub struct Matrix {
    pub frame: [[u8; 8]; 4],
    pub intensity: [u8; 4],
}

impl Matrix {
    /// A blank display: all panels dark at intensity 0.
    pub fn new() -> (m: Matrix)
        ensures
            forall|p: int, i: int|
                #![trigger m.frame[p][i]]
                0 <= p < 4 && 0 <= i < 8 ==> m.frame[p][i] == 0u8,
            forall|p: int| 0 <= p < 4 ==> m.intensity[p] == 0u8,
    {
        Matrix { frame: [[0u8; 8]; 4], intensity: [0u8; 4] }
    }

    /// Broadcasts one brightness level to all four panels.
    pub fn update_brightness(&mut self, brightness: u8)
        ensures
            final(self).frame == old(self).frame,
            forall|p: int| 0 <= p < 4 ==> final(self).intensity[p] == brightness,
    {
        let mut i: usize = 0;
        while i < NUM_DISPLAYS
            invariant
                i <= 4,
                self.frame == old(self).frame,
                forall|p: int| 0 <= p < i ==> self.intensity[p] == brightness,
            decreases 4 - i,
        {
            self.intensity[i] = brightness;
            i += 1;
        }
    }

    /// Renders the bare grid: every register of every panel takes its grid
    /// byte; no cursor overlay. This is the running rendering path used on
    /// every simulation tick.
    pub fn update_leds(&mut self, life: &Life)
        ensures
            forall|p: int, i: int|
                #![trigger final(self).frame[p][i]]
                0 <= p < 4 && 0 <= i < 8 ==> final(self).frame[p][i] == spec_grid_byte(
                    *life,
                    p,
                    i,
                ),
            final(self).intensity == old(self).intensity,
    {
        let mut q0: [u8; 8] = [0u8; 8];
        let mut q1: [u8; 8] = [0u8; 8];
        let mut q2: [u8; 8] = [0u8; 8];
        let mut q3: [u8; 8] = [0u8; 8];
        let mut i: usize = 0;
        while i < HALF_ROWS
            invariant
                i <= 8,
                forall|j: int| 0 <= j < i ==> q0[j] == spec_grid_byte(*life, 0, j),
                forall|j: int| 0 <= j < i ==> q1[j] == spec_grid_byte(*life, 1, j),
                forall|j: int| 0 <= j < i ==> q2[j] == spec_grid_byte(*life, 2, j),
                forall|j: int| 0 <= j < i ==> q3[j] == spec_grid_byte(*life, 3, j),
            decreases 8 - i,
        {
            q0[i] = (life.cells[i] >> 8u16) as u8;
            q1[i] = (life.cells[i] & 0xFFu16) as u8;
            q2[i] = (life.cells[i + 8] >> 8u16) as u8;
            q3[i] = (life.cells[i + 8] & 0xFFu16) as u8;
            i += 1;
        }
        self.frame = [q0, q1, q2, q3];
    }

    /// The crosshair's column pass: overwrites the two panels covering
    /// column `col` with the grid bytes of their half, with the bit of
    /// column `col` forced on in every row except `skip_row`. The other two
    /// panels are untouched.
    pub fn set_column(&mut self, col: usize, skip_row: usize, life: &Life)
        requires
            col < 16,
        ensures
            forall|p: int, i: int|
                #![trigger final(self).frame[p][i]]
                0 <= p < 4 && 0 <= i < 8 ==> final(self).frame[p][i] == (if panel_covers_col(
                    p,
                    col as int,
                ) {
                    spec_col_byte(*life, col as int, skip_row as int, panel_row(p, i))
                } else {
                    old(self).frame[p][i]
                }),
            final(self).intensity == old(self).intensity,
    {
        let mask: u16 = 1u16 << ((COLS - col - 1) as u16);
        proof {
            assert(mask == 1u16 << ((15 - col as int) as u16));
        }
        let left: bool = col < HALF_COLS;
        let mut top: [u8; 8] = [0u8; 8];
        let mut bot: [u8; 8] = [0u8; 8];
        let mut i: usize = 0;
        while i < HALF_ROWS
            invariant
                i <= 8,
                col < 16,
                mask == 1u16 << ((15 - col as int) as u16),
                left == (col < 8),
                forall|j: int|
                    0 <= j < i ==> top[j] == spec_col_byte(
                        *life,
                        col as int,
                        skip_row as int,
                        j,
                    ),
                forall|j: int|
                    0 <= j < i ==> bot[j] == spec_col_byte(
                        *life,
                        col as int,
                        skip_row as int,
                        j + 8,
                    ),
            decreases 8 - i,
        {
            let merged_top: u16 = if i != skip_row {
                life.cells[i] | mask
            } else {
                life.cells[i]
            };
            let merged_bot: u16 = if i + 8 != skip_row {
                life.cells[i + 8] | mask
            } else {
                life.cells[i + 8]
            };
            if left {
                top[i] = (merged_top >> 8u16) as u8;
                bot[i] = (merged_bot >> 8u16) as u8;
            } else {
                top[i] = (merged_top & 0xFFu16) as u8;
                bot[i] = (merged_bot & 0xFFu16) as u8;
            }
            i += 1;
        }
        if left {
            self.frame[0] = top;
            self.frame[2] = bot;
        } else {
            self.frame[1] = top;
            self.frame[3] = bot;
        }
    }

    /// The crosshair's row pass: writes one fully-lit byte into the register
    /// of row `row` on each of the two panels covering that row, clearing
    /// only the bit of `skip_col` (a value of 16 or more clears nothing).
    /// All other registers are untouched.
    pub fn set_row(&mut self, row: usize, skip_col: usize)
        requires
            row < 16,
        ensures
            forall|p: int, i: int|
                #![trigger final(self).frame[p][i]]
                0 <= p < 4 && 0 <= i < 8 ==> final(self).frame[p][i] == (if panel_covers_row(
                    p,
                    row as int,
                ) && i == panel_reg(row as int) {
                    if p == 0 || p == 2 {
                        spec_row_left_byte(skip_col as int)
                    } else {
                        spec_row_right_byte(skip_col as int)
                    }
                } else {
                    old(self).frame[p][i]
                }),
            final(self).intensity == old(self).intensity,
    {
        let byte1: u8 = if skip_col < HALF_COLS {
            !(1u8 << ((HALF_COLS - skip_col - 1) as u8))
        } else {
            0xFF
        };
        let byte2: u8 = if skip_col >= HALF_COLS && skip_col < COLS {
            !(1u8 << ((COLS - skip_col - 1) as u8))
        } else {
            0xFF
        };
        if row < HALF_ROWS {
            let mut t: [u8; 8] = self.frame[0];
            t[row] = byte1;
            self.frame[0] = t;
            let mut u: [u8; 8] = self.frame[1];
            u[row] = byte2;
            self.frame[1] = u;
        } else {
            let mut t: [u8; 8] = self.frame[2];
            t[row - 8] = byte1;
            self.frame[2] = t;
            let mut u: [u8; 8] = self.frame[3];
            u[row - 8] = byte2;
            self.frame[3] = u;
        }
    }

    /// Overlays the crosshair for the cursor in `state`: the column pass
    /// first, then the row pass — the order is load-bearing, since the row
    /// pass must overwrite the cursor row after the column pass has redrawn
    /// its two panels. When the cell under the cursor is dead, both passes
    /// skip the center so it stays dark.
    pub fn draw_xhair(&mut self, life: &Life, state: &State)
        requires
            state.wf(),
        ensures
            forall|p: int, i: int|
                #![trigger final(self).frame[p][i]]
                0 <= p < 4 && 0 <= i < 8 ==> final(self).frame[p][i] == spec_xhair_byte_over(
                    *life,
                    *state,
                    p,
                    i,
                    old(self).frame[p][i],
                ),
            final(self).intensity == old(self).intensity,
    {
        // The passes use a skip value of 16 to mean: skip nothing.
        let mut skip_row: usize = ROWS;
        let mut skip_col: usize = COLS;
        // The center of the crosshair reflects the state of the cell under it.
        if life.get_cell(state.xhair_col, state.xhair_row) == 0 {
            skip_row = state.xhair_row;
            skip_col = state.xhair_col;
        }
        self.set_column(state.xhair_col, skip_row, life);
        self.set_row(state.xhair_row, skip_col);
    }
}

/// Bit `c` of a half-row byte shows exactly the grid cell of column `c`.
proof fn lemma_half_byte_bit(r: u16, c: u16)
    by (bit_vector)
    requires
        c < 16,
    ensures
        byte_bit(half_byte(r, c < 8), panel_bit(c as int)) == cell_at(r, c as int),
{
}

/// Forcing the bit of column `c` on in a packed row sets that one bit of the
/// half-row byte and leaves every other bit as it was.
proof fn lemma_col_overlay_bit(r: u16, c: u16, b: u16)
    by (bit_vector)
    requires
        c < 16,
        b < 8,
    ensures
        byte_bit(half_byte(r | (1u16 << ((15 - c) as u16)), c < 8), b as int) == (b as int
            == panel_bit(c as int) || byte_bit(half_byte(r, c < 8), b as int)),
{
}

/// The left row-pass byte is fully lit except at the skip column's bit.
proof fn lemma_row_left_bit(sc: u16, b: u16)
    by (bit_vector)
    requires
        b < 8,
    ensures
        byte_bit(spec_row_left_byte(sc as int), b as int) == !(sc < 8 && b == 7 - sc),
{
}

/// The right row-pass byte is fully lit except at the skip column's bit.
proof fn lemma_row_right_bit(sc: u16, b: u16)
    by (bit_vector)
    requires
        b < 8,
    ensures
        byte_bit(spec_row_right_byte(sc as int), b as int) == !(8 <= sc && sc < 16 && b == 15
            - sc),
{
}

/// Splitting a packed row into its two panel bytes loses nothing.
proof fn lemma_decode_row(r: u16)
    by (bit_vector)
    ensures
        spec_decode_row(half_byte(r, true), half_byte(r, false)) == r,
{
}

/// Round trip of the grid rendering: reassembling the two panel bytes of any
/// logical row yields that row of the grid unchanged.
pub proof fn lemma_render_round_trip(g: Life, y: int)
    requires
        0 <= y < 16,
    ensures
        ({
            let p = if y < 8 {
                0int
            } else {
                2int
            };
            spec_decode_row(
                spec_grid_byte(g, p, panel_reg(y)),
                spec_grid_byte(g, p + 1, panel_reg(y)),
            ) == g.cells[y]
        }),
{
    lemma_decode_row(g.cells[y]);
}

/// Bit-level round trip: the panel bit where rendering places cell (`x`, `y`)
/// shows exactly that cell.
pub proof fn lemma_panel_bit_is_cell(g: Life, x: int, y: int)
    requires
        0 <= x < 16,
        0 <= y < 16,
    ensures
        byte_bit(spec_grid_byte(g, panel_of(x, y), panel_reg(y)), panel_bit(x)) == g.spec_cell(
            x,
            y,
        ),
{
    reveal(crate::game::Life::spec_cell);
    lemma_half_byte_bit(g.cells[y], x as u16);
}

/// Drawing the crosshair disturbs nothing outside the cursor's row and
/// column: at every panel bit that lies neither in the cursor row's register
/// nor on the cursor column's bit, the overlaid frame agrees with the plain
/// grid rendering.
pub proof fn lemma_xhair_non_destruction(g: Life, st: State, p: int, i: int, b: int)
    requires
        st.wf(),
        0 <= p < 4,
        0 <= i < 8,
        0 <= b < 8,
        !(panel_covers_row(p, st.xhair_row as int) && i == panel_reg(st.xhair_row as int)),
        !(panel_covers_col(p, st.xhair_col as int) && b == panel_bit(st.xhair_col as int)),
    ensures
        byte_bit(spec_xhair_byte(g, st, p, i), b) == byte_bit(spec_grid_byte(g, p, i), b),
{
    let c = st.xhair_col as int;
    if panel_covers_col(p, c) {
        let y = panel_row(p, i);
        let sr = spec_skip_row(g, st);
        if y != sr {
            lemma_col_overlay_bit(g.cells[y], c as u16, b as u16);
        }
    }
}

/// The crosshair's center is never forced: the panel bit under the cursor
/// shows the true state of the cell beneath it.
pub proof fn lemma_xhair_center(g: Life, st: State)
    requires
        st.wf(),
    ensures
        ({
            let r = st.xhair_row as int;
            let c = st.xhair_col as int;
            byte_bit(spec_xhair_byte(g, st, panel_of(c, r), panel_reg(r)), panel_bit(c))
                == g.spec_cell(c, r)
        }),
{
    let r = st.xhair_row as int;
    let c = st.xhair_col as int;
    let p = panel_of(c, r);
    let sc = spec_skip_col(g, st);
    if p == 0 || p == 2 {
        lemma_row_left_bit(sc as u16, panel_bit(c) as u16);
    } else {
        lemma_row_right_bit(sc as u16, panel_bit(c) as u16);
    }
}

/// Away from the cursor row, the whole cursor column is lit.
pub proof fn lemma_xhair_column_lit(g: Life, st: State, p: int, i: int)
    requires
        st.wf(),
        0 <= p < 4,
        0 <= i < 8,
        panel_covers_col(p, st.xhair_col as int),
        panel_row(p, i) != st.xhair_row as int,
    ensures
        byte_bit(spec_xhair_byte(g, st, p, i), panel_bit(st.xhair_col as int)),
{
    let c = st.xhair_col as int;
    let y = panel_row(p, i);
    assert(!(panel_covers_row(p, st.xhair_row as int) && i == panel_reg(st.xhair_row as int)));
    lemma_col_overlay_bit(g.cells[y], c as u16, panel_bit(c) as u16);
}

/// On the cursor row, every bit is lit except possibly the center.
pub proof fn lemma_xhair_row_lit(g: Life, st: State, p: int, b: int)
    requires
        st.wf(),
        0 <= p < 4,
        0 <= b < 8,
        panel_covers_row(p, st.xhair_row as int),
        !(panel_covers_col(p, st.xhair_col as int) && b == panel_bit(st.xhair_col as int)),
    ensures
        byte_bit(spec_xhair_byte(g, st, p, panel_reg(st.xhair_row as int)), b),
{
    let sc = spec_skip_col(g, st);
    if p == 0 || p == 2 {
        lemma_row_left_bit(sc as u16, b as u16);
    } else {
        lemma_row_right_bit(sc as u16, b as u16);
    }
}

} // verus!
