//! The toroidal Game-of-Life automaton on a fixed 16x16 bit-packed grid,
//! and the cursor state used while the simulation is paused.

use vstd::prelude::*;

verus! {

/// Number of rows in the logical grid.
pub const ROWS: usize = 16;
/// Number of columns in the logical grid.
pub const COLS: usize = 16;

/// Wraps a coordinate one step outside `[0, 16)` back onto the torus.
pub open spec fn wrap16(i: int) -> int {
    if i < 0 {
        i + 16
    } else if i >= 16 {
        i - 16
    } else {
        i
    }
}

/// Whether logical column `x` of the packed row `r` is alive.
/// Bit 15 of a row is column 0; bit 0 is column 15.
pub open spec fn cell_at(r: u16, x: int) -> bool
    recommends
        0 <= x < 16,
{
    (r >> ((15 - x) as u16)) & 1u16 == 1u16
}

/// Counts a cell as 1 when alive, 0 when dead.
pub open spec fn b2i(b: bool) -> int {
    if b {
        1
    } else {
        0
    }
}

/// No column of the packed row 0 is alive.
proof fn lemma_zero_row(i: u16)
    by (bit_vector)
    requires
        i < 16,
    ensures
        !cell_at(0u16, i as int),
{
}

/// Setting the bit of column `c` leaves every other column of the row as it
/// was and makes column `c` alive.
proof fn lemma_or_sets_col(r: u16, c: u16, i: u16)
    by (bit_vector)
    requires
        c < 16,
        i < 16,
    ensures
        cell_at(r | (1u16 << ((15 - c) as u16)), i as int) == (i == c || cell_at(r, i as int)),
{
}

/// Clearing the bit of column `c` leaves every other column of the row as it
/// was and makes column `c` dead.
proof fn lemma_and_clears_col(r: u16, c: u16, i: u16)
    by (bit_vector)
    requires
        c < 16,
        i < 16,
    ensures
        cell_at(r & !(1u16 << ((15 - c) as u16)), i as int) == (i != c && cell_at(r, i as int)),
{
}

/// The automaton's state: one 16-bit row per grid row, each bit a cell.
pub struct Life {
    pub cells: [u16; 16],
}

impl Life {
    /// Whether the cell at column `x`, row `y` is alive.
    #[verifier::opaque]
    pub open spec fn spec_cell(self, x: int, y: int) -> bool
        recommends
            0 <= x < 16,
            0 <= y < 16,
    {
        cell_at(self.cells[y], x)
    }

    /// An all-dead grid.
    pub fn new() -> (life: Life)
        ensures
            forall|y: int| 0 <= y < 16 ==> life.cells[y] == 0u16,
    {
        Life { cells: [0u16; 16] }
    }

    /// Reads one cell; returns 1 when alive, 0 when dead.
    pub fn get_cell(&self, x: usize, y: usize) -> (r: u8)
        requires
            x < 16,
            y < 16,
        ensures
            r == (if self.spec_cell(x as int, y as int) {
                1u8
            } else {
                0u8
            }),
    {
        let shift: u16 = (COLS - x - 1) as u16;
        let bit: u16 = (self.cells[y] >> shift) & 1;
        proof {
            reveal(Life::spec_cell);
            let c = self.cells[y as int];
            assert((c >> shift) & 1u16 == 1u16 || (c >> shift) & 1u16 == 0u16) by (bit_vector);
        }
        bit as u8
    }

    /// The number of live cells among the 8 toroidal neighbors of (`x`, `y`):
    /// coordinates wrap, so -1 means 15 and 16 means 0, on each axis
    /// independently.
    pub open spec fn spec_neighbors(self, x: int, y: int) -> int
        recommends
            0 <= x < 16,
            0 <= y < 16,
    {
        let xl = wrap16(x - 1);
        let xr = wrap16(x + 1);
        let yu = wrap16(y - 1);
        let yd = wrap16(y + 1);
        b2i(self.spec_cell(xl, yu)) + b2i(self.spec_cell(x, yu)) + b2i(self.spec_cell(xr, yu))
            + b2i(self.spec_cell(xl, y)) + b2i(self.spec_cell(xr, y)) + b2i(
            self.spec_cell(xl, yd),
        ) + b2i(self.spec_cell(x, yd)) + b2i(self.spec_cell(xr, yd))
    }

    /// Counts the live toroidal neighbors of (`x`, `y`); the cell itself is
    /// not counted.
    #[verifier::rlimit(50)]
    pub fn count_neighbors(&self, x: usize, y: usize) -> (n: u8)
        requires
            x < 16,
            y < 16,
        ensures
            n as int == self.spec_neighbors(x as int, y as int),
            n <= 8,
    {
        let xl: usize = if x == 0 {
            COLS - 1
        } else {
            x - 1
        };
        let xr: usize = if x == COLS - 1 {
            0
        } else {
            x + 1
        };
        let yu: usize = if y == 0 {
            ROWS - 1
        } else {
            y - 1
        };
        let yd: usize = if y == ROWS - 1 {
            0
        } else {
            y + 1
        };
        let ghost gx: int = x as int;
        let ghost gy: int = y as int;
        let ghost gxl: int = wrap16(gx - 1);
        let ghost gxr: int = wrap16(gx + 1);
        let ghost gyu: int = wrap16(gy - 1);
        let ghost gyd: int = wrap16(gy + 1);
        proof {
            assert(xl as int == gxl);
            assert(xr as int == gxr);
            assert(yu as int == gyu);
            assert(yd as int == gyd);
        }
        let c1: u8 = self.get_cell(xl, yu);
        let c2: u8 = self.get_cell(x, yu);
        let c3: u8 = self.get_cell(xr, yu);
        let c4: u8 = self.get_cell(xl, y);
        let c5: u8 = self.get_cell(xr, y);
        let c6: u8 = self.get_cell(xl, yd);
        let c7: u8 = self.get_cell(x, yd);
        let c8: u8 = self.get_cell(xr, yd);
        let total: u8 = c1 + c2 + c3 + c4 + c5 + c6 + c7 + c8;
        proof {
            assert(c1 as int == b2i(self.spec_cell(gxl, gyu)));
            assert(c2 as int == b2i(self.spec_cell(gx, gyu)));
            assert(c3 as int == b2i(self.spec_cell(gxr, gyu)));
            assert(c4 as int == b2i(self.spec_cell(gxl, gy)));
            assert(c5 as int == b2i(self.spec_cell(gxr, gy)));
            assert(c6 as int == b2i(self.spec_cell(gxl, gyd)));
            assert(c7 as int == b2i(self.spec_cell(gx, gyd)));
            assert(c8 as int == b2i(self.spec_cell(gxr, gyd)));
            assert(total as int == self.spec_neighbors(gx, gy));
        }
        total
    }

    /// Whether the cell at (`x`, `y`) is alive in the next generation: a live
    /// cell survives with 2 or 3 live neighbors, a dead cell is born with
    /// exactly 3, and every other cell is dead.
    pub open spec fn next_alive(self, x: int, y: int) -> bool
        recommends
            0 <= x < 16,
            0 <= y < 16,
    {
        let n = self.spec_neighbors(x, y);
        if self.spec_cell(x, y) {
            n == 2 || n == 3
        } else {
            n == 3
        }
    }

    /// Computes row `y` of the next generation from the current grid.
    fn next_row(&self, y: usize) -> (r: u16)
        requires
            y < 16,
        ensures
            forall|x: int| 0 <= x < 16 ==> #[trigger] cell_at(r, x) == self.next_alive(x, y as int),
    {
        let mut row: u16 = 0;
        proof {
            assert forall|j: int| 0 <= j < 16 implies !cell_at(0u16, j) by {
                lemma_zero_row(j as u16);
            }
        }
        let mut x: usize = 0;
        while x < 16
            invariant
                x <= 16,
                y < 16,
                forall|j: int|
                    0 <= j < x ==> #[trigger] cell_at(row, j) == self.next_alive(j, y as int),
                forall|j: int| x <= j < 16 ==> !(#[trigger] cell_at(row, j)),
            decreases 16 - x,
        {
            let n = self.count_neighbors(x, y);
            let alive = self.get_cell(x, y) == 1;
            if n == 3 || (alive && n == 2) {
                let shift: u16 = (COLS - x - 1) as u16;
                let updated: u16 = row | (1u16 << shift);
                proof {
                    assert forall|j: int|
                        0 <= j < 16 implies cell_at(updated, j) == (j == x as int || cell_at(
                        row,
                        j,
                    )) by {
                        lemma_or_sets_col(row, x as u16, j as u16);
                    }
                }
                row = updated;
            }
            x += 1;
        }
        row
    }

    /// Advances the grid by one generation. The next generation is computed
    /// entirely from the current one and replaces it in a single swap, so no
    /// cell's update can observe a partially-updated neighborhood.
    pub fn live(&mut self)
        ensures
            forall|x: int, y: int|
                0 <= x < 16 && 0 <= y < 16 ==> #[trigger] final(self).spec_cell(x, y) == old(
                    self,
                ).next_alive(x, y),
    {
        let mut next: [u16; 16] = [0u16; 16];
        let mut y: usize = 0;
        while y < 16
            invariant
                y <= 16,
                *self == *old(self),
                forall|x: int, yy: int|
                    0 <= x < 16 && 0 <= yy < y ==> #[trigger] cell_at(next[yy], x) == old(
                        self,
                    ).next_alive(x, yy),
            decreases 16 - y,
        {
            let row = self.next_row(y);
            next[y] = row;
            y += 1;
        }
        self.cells = next;
        proof {
            reveal(Life::spec_cell);
            assert forall|x: int, yy: int|
                0 <= x < 16 && 0 <= yy < 16 implies #[trigger] self.spec_cell(x, yy) == old(
                self,
            ).next_alive(x, yy) by {
                assert(cell_at(next[yy], x) == old(self).next_alive(x, yy));
            }
        }
    }

    /// Flips the alive/dead state of the one cell at (`x`, `y`), leaving
    /// every other cell and every other row untouched.
    pub fn toggle_cell(&mut self, x: usize, y: usize)
        requires
            x < 16,
            y < 16,
        ensures
            final(self).spec_cell(x as int, y as int) == !old(self).spec_cell(
                x as int,
                y as int,
            ),
            forall|xx: int, yy: int|
                0 <= xx < 16 && 0 <= yy < 16 && !(xx == x as int && yy == y as int)
                    ==> #[trigger] final(self).spec_cell(xx, yy) == old(self).spec_cell(xx, yy),
            forall|yy: int|
                0 <= yy < 16 && yy != y as int ==> final(self).cells[yy] == old(self).cells[yy],
    {
        let shift: u16 = (COLS - x - 1) as u16;
        let row: u16 = self.cells[y];
        if self.get_cell(x, y) == 1 {
            let updated: u16 = row & !(1u16 << shift);
            proof {
                assert forall|j: int|
                    0 <= j < 16 implies cell_at(updated, j) == (j != x as int && cell_at(
                    row,
                    j,
                )) by {
                    lemma_and_clears_col(row, x as u16, j as u16);
                }
            }
            self.cells[y] = updated;
        } else {
            let updated: u16 = row | (1u16 << shift);
            proof {
                assert forall|j: int|
                    0 <= j < 16 implies cell_at(updated, j) == (j == x as int || cell_at(
                    row,
                    j,
                )) by {
                    lemma_or_sets_col(row, x as u16, j as u16);
                }
            }
            self.cells[y] = updated;
        }
        proof {
            reveal(Life::spec_cell);
            assert forall|xx: int, yy: int|
                0 <= xx < 16 && 0 <= yy < 16 implies #[trigger] self.spec_cell(xx, yy) == (if xx
                == x as int && yy == y as int {
                !old(self).spec_cell(xx, yy)
            } else {
                old(self).spec_cell(xx, yy)
            }) by {}
        }
    }

    /// Overwrites the rows `start .. start + pattern.len()` with the given
    /// bit rows, leaving all other rows unchanged.
    pub fn seed_pattern(&mut self, start: usize, pattern: &[u16])
        requires
            start + pattern@.len() <= 16,
        ensures
            forall|y: int|
                start <= y < start + pattern@.len() ==> final(self).cells[y] == pattern@[y
                    - start],
            forall|y: int|
                0 <= y < 16 && !(start <= y < start + pattern@.len()) ==> final(self).cells[y]
                    == old(self).cells[y],
    {
        let mut i: usize = 0;
        while i < pattern.len()
            invariant
                i <= pattern@.len(),
                start + pattern@.len() <= 16,
                forall|y: int|
                    start <= y < start + i ==> #[trigger] self.cells[y] == pattern@[y - start],
                forall|y: int|
                    0 <= y < 16 && !(start <= y < start + i) ==> self.cells[y] == old(
                        self,
                    ).cells[y],
            decreases pattern@.len() - i,
        {
            self.cells[start + i] = pattern[i];
            i += 1;
        }
    }

    /// Loads the canonical glider seed into rows 0 through 2.
    pub fn draw_glider(&mut self)
        ensures
            final(self).cells[0] == 0x4000u16,
            final(self).cells[1] == 0x2000u16,
            final(self).cells[2] == 0xE000u16,
            forall|y: int| 3 <= y < 16 ==> final(self).cells[y] == old(self).cells[y],
    {
        self.cells[0] = 0x4000;
        self.cells[1] = 0x2000;
        self.cells[2] = 0xE000;
    }
}

/// One wraparound step toward lower indices: 0 wraps to 15.
pub open spec fn wrap_dec(i: int) -> int {
    if i == 0 {
        15
    } else {
        i - 1
    }
}

/// One wraparound step toward higher indices: 15 wraps to 0.
pub open spec fn wrap_inc(i: int) -> int {
    if i == 15 {
        0
    } else {
        i + 1
    }
}

/// The interaction state: whether the simulation is paused, whether the
/// display must be redrawn, and the crosshair cursor position.
pub struct State {
    pub paused: bool,
    pub xhair_moved: bool,
    pub xhair_row: usize,
    pub xhair_col: usize,
}

impl State {
    /// The cursor always stays on the 16x16 grid.
    pub open spec fn wf(self) -> bool {
        self.xhair_row < 16 && self.xhair_col < 16
    }

    /// The initial interaction state: paused, in need of a redraw, with the
    /// cursor at the grid center.
    pub fn new() -> (s: State)
        ensures
            s.wf(),
            s.paused,
            s.xhair_moved,
            s.xhair_row == 7,
            s.xhair_col == 7,
    {
        State { paused: true, xhair_moved: true, xhair_row: ROWS / 2 - 1, xhair_col: COLS / 2 - 1 }
    }

    /// Moves the cursor one row up; row 0 wraps to row 15.
    pub fn move_up(&mut self)
        requires
            old(self).wf(),
        ensures
            final(self).wf(),
            final(self).xhair_row as int == wrap_dec(old(self).xhair_row as int),
            final(self).xhair_col == old(self).xhair_col,
            final(self).paused == old(self).paused,
            final(self).xhair_moved == old(self).xhair_moved,
    {
        if self.xhair_row > 0 {
            self.xhair_row -= 1;
        } else {
            self.xhair_row = ROWS - 1;
        }
    }

    /// Moves the cursor one row down; row 15 wraps to row 0.
    pub fn move_down(&mut self)
        requires
            old(self).wf(),
        ensures
            final(self).wf(),
            final(self).xhair_row as int == wrap_inc(old(self).xhair_row as int),
            final(self).xhair_col == old(self).xhair_col,
            final(self).paused == old(self).paused,
            final(self).xhair_moved == old(self).xhair_moved,
    {
        if self.xhair_row < ROWS - 1 {
            self.xhair_row += 1;
        } else {
            self.xhair_row = 0;
        }
    }

    /// Moves the cursor one column left; column 0 wraps to column 15.
    pub fn move_left(&mut self)
        requires
            old(self).wf(),
        ensures
            final(self).wf(),
            final(self).xhair_col as int == wrap_dec(old(self).xhair_col as int),
            final(self).xhair_row == old(self).xhair_row,
            final(self).paused == old(self).paused,
            final(self).xhair_moved == old(self).xhair_moved,
    {
        if self.xhair_col > 0 {
            self.xhair_col -= 1;
        } else {
            self.xhair_col = COLS - 1;
        }
    }

    /// Moves the cursor one column right; column 15 wraps to column 0.
    pub fn move_right(&mut self)
        requires
            old(self).wf(),
        ensures
            final(self).wf(),
            final(self).xhair_col as int == wrap_inc(old(self).xhair_col as int),
            final(self).xhair_row == old(self).xhair_row,
            final(self).paused == old(self).paused,
            final(self).xhair_moved == old(self).xhair_moved,
    {
        if self.xhair_col < COLS - 1 {
            self.xhair_col += 1;
        } else {
            self.xhair_col = 0;
        }
    }
}

/// On an all-dead grid, every one of the 256 cells has zero live neighbors.
pub proof fn lemma_all_dead_no_neighbors(g: Life, x: int, y: int)
    requires
        forall|r: int| 0 <= r < 16 ==> g.cells[r] == 0u16,
        0 <= x < 16,
        0 <= y < 16,
    ensures
        g.spec_neighbors(x, y) == 0,
{
    assert forall|xx: int, yy: int| 0 <= xx < 16 && 0 <= yy < 16 implies !g.spec_cell(xx, yy) by {
        reveal(Life::spec_cell);
        lemma_zero_row(xx as u16);
    }
}

/// A grid whose live cells are exactly one 2x2 block with top-left corner at
/// column `a`, row `b`, wrapping around the torus edges if the block crosses
/// them.
pub open spec fn is_block_grid(g: Life, a: int, b: int) -> bool {
    &&& 0 <= a < 16
    &&& 0 <= b < 16
    &&& forall|x: int, y: int|
        0 <= x < 16 && 0 <= y < 16 ==> (#[trigger] g.spec_cell(x, y) <==> ((x == a || x == wrap16(
            a + 1,
        )) && (y == b || y == wrap16(b + 1))))
}

/// The 2x2 block is a still life: wherever the block stands, one generation
/// leaves every cell of the grid unchanged.
pub proof fn lemma_block_still_life(g: Life, a: int, b: int, x: int, y: int)
    requires
        is_block_grid(g, a, b),
        0 <= x < 16,
        0 <= y < 16,
    ensures
        g.next_alive(x, y) == g.spec_cell(x, y),
{
    let xl = wrap16(x - 1);
    let xr = wrap16(x + 1);
    let yu = wrap16(y - 1);
    let yd = wrap16(y + 1);
    assert(0 <= xl < 16 && 0 <= xr < 16 && 0 <= yu < 16 && 0 <= yd < 16);
}

} // verus!
