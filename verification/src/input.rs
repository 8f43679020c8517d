//! The edit-mode input rules: how one poll's worth of button samples moves
//! the crosshair cursor, toggles cells, and switches between paused and
//! running. Sampling the hardware lines is a collaborator's job; this module
//! takes the sampled levels as plain booleans.

use vstd::prelude::*;

verus! {

use crate::game::{Life, State, wrap_dec, wrap_inc};

/// Where the cursor row ends up after applying an up press, then a down
/// press, each a wraparound step.
pub open spec fn moved_row(r: int, up: bool, down: bool) -> int {
    let r1 = if up {
        wrap_dec(r)
    } else {
        r
    };
    if down {
        wrap_inc(r1)
    } else {
        r1
    }
}

/// Where the cursor column ends up after applying a left press, then a right
/// press, each a wraparound step.
pub open spec fn moved_col(c: int, left: bool, right: bool) -> int {
    let c1 = if left {
        wrap_dec(c)
    } else {
        c
    };
    if right {
        wrap_inc(c1)
    } else {
        c1
    }
}

/// The button handler's own state: `pressed` latches whether any button was
/// seen down, so the driving loop can debounce.
pub struct Buttons {
    pub pressed: bool,
}

impl Buttons {
    /// A handler that has seen no press yet.
    pub fn new() -> (b: Buttons)
        ensures
            !b.pressed,
    {
        Buttons { pressed: false }
    }

    /// Applies one poll of sampled button levels (`true` means pressed).
    /// While paused, the four direction presses each move the cursor one
    /// wraparound step (up before down, left before right), and a select
    /// press toggles the cell under the cursor at its position after those
    /// moves. A pause press switches between paused and running at any time.
    /// Any effective press latches `pressed` and marks the display for a
    /// redraw.
    pub fn handle(
        &mut self,
        life: &mut Life,
        state: &mut State,
        up: bool,
        down: bool,
        left: bool,
        right: bool,
        select: bool,
        pause: bool,
    )
        requires
            old(state).wf(),
        ensures
            final(state).wf(),
            final(state).paused == (if pause {
                !old(state).paused
            } else {
                old(state).paused
            }),
            final(state).xhair_row as int == (if old(state).paused {
                moved_row(old(state).xhair_row as int, up, down)
            } else {
                old(state).xhair_row as int
            }),
            final(state).xhair_col as int == (if old(state).paused {
                moved_col(old(state).xhair_col as int, left, right)
            } else {
                old(state).xhair_col as int
            }),
            final(self).pressed == (old(self).pressed || (old(state).paused && (up || down
                || left || right || select)) || pause),
            final(state).xhair_moved == (old(state).xhair_moved || (old(state).paused && (up
                || down || left || right || select)) || pause),
            old(state).paused && select ==> {
                let tr = moved_row(old(state).xhair_row as int, up, down);
                let tc = moved_col(old(state).xhair_col as int, left, right);
                &&& final(life).spec_cell(tc, tr) == !old(life).spec_cell(tc, tr)
                &&& forall|xx: int, yy: int|
                    0 <= xx < 16 && 0 <= yy < 16 && !(xx == tc && yy == tr)
                        ==> #[trigger] final(life).spec_cell(xx, yy) == old(life).spec_cell(
                        xx,
                        yy,
                    )
            },
            !(old(state).paused && select) ==> final(life).cells == old(life).cells,
    {
        if state.paused {
            if up {
                state.move_up();
            }
            if down {
                state.move_down();
            }
            if left {
                state.move_left();
            }
            if right {
                state.move_right();
            }
            if select {
                life.toggle_cell(state.xhair_col, state.xhair_row);
            }
            if up || down || left || right || select {
                self.pressed = true;
                state.xhair_moved = true;
            }
        }
        if pause {
            state.paused = !state.paused;
            self.pressed = true;
            state.xhair_moved = true;
        }
    }
}

} // verus!
