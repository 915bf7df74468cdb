//! The session controller: the one-way Editing -> Running mode switch and the
//! wall-clock gate that limits the simulation to one generation per interval.
//!
//! The controller consumes one bundle of plain input values per frame (button
//! and key states, pointer cell coordinate, clock reading) and decides which
//! grid operations run.  Polling those values and drawing the result stay
//! outside the library.

use vstd::prelude::*;

use crate::grid::{cleared, set_spec, step_spec, Grid};

verus! {

/// Minimum number of milliseconds between two generations while running
/// (10 generations per second).
pub const STEP_INTERVAL_MS: u64 = 100;

/// The session mode.  The transition Editing -> Running is one-way: there is
/// no path back to editing within a session.
#[derive(Clone, Copy, PartialEq, Eq, Structural, Debug)]
pub enum Mode {
    Editing,
    Running,
}

/// Everything the controller consumes in one frame, as plain values.
/// `pointer_row` / `pointer_col` are the pointer position already divided
/// down to cell coordinates; they may lie outside the grid.
#[derive(Clone, Copy)]
pub struct FrameInput {
    /// The "start" key was pressed this frame (edge, not hold).
    pub start_pressed: bool,
    /// The "clear" key was pressed this frame (edge, not hold).
    pub clear_pressed: bool,
    /// The primary pointer button is held this frame.
    pub primary_held: bool,
    /// The secondary pointer button is held this frame.
    pub secondary_held: bool,
    /// Pointer position in cell rows; may be out of bounds.
    pub pointer_row: i64,
    /// Pointer position in cell columns; may be out of bounds.
    pub pointer_col: i64,
    /// Monotonic clock reading for this frame, in milliseconds.
    pub now_ms: u64,
}

/// The mode in force for the rest of the frame: a start press switches to
/// Running before inputs are interpreted, and Running is never left.
pub open spec fn run_mode(mode: Mode, inp: FrameInput) -> Mode {
    if inp.start_pressed || mode == Mode::Running {
        Mode::Running
    } else {
        Mode::Editing
    }
}

/// What one editing frame does to the grid: paint at the pointer while the
/// primary button is held, erase there while the secondary button is held,
/// then clear everything on the clear key.
pub open spec fn edited_grid(g: Seq<Seq<bool>>, inp: FrameInput) -> Seq<Seq<bool>> {
    let painted = if inp.primary_held {
        set_spec(g, inp.pointer_row as int, inp.pointer_col as int, true)
    } else {
        g
    };
    let erased = if inp.secondary_held {
        set_spec(painted, inp.pointer_row as int, inp.pointer_col as int, false)
    } else {
        painted
    };
    if inp.clear_pressed {
        cleared()
    } else {
        erased
    }
}

/// A generation is due when a full interval has passed since the last step.
pub open spec fn step_due(last_ms: int, now_ms: int) -> bool {
    now_ms >= last_ms + STEP_INTERVAL_MS
}

/// The whole frame transition: (grid, mode, last-step time) before the frame
/// to the same triple after it.  In editing the grid takes the frame's edits
/// and the timer is untouched; in running the edits are ignored and at most
/// one generation fires, resetting the timer to the frame's clock.
pub open spec fn frame_spec(g: Seq<Seq<bool>>, mode: Mode, last_ms: int, inp: FrameInput) -> (
    Seq<Seq<bool>>,
    Mode,
    int,
) {
    if run_mode(mode, inp) == Mode::Editing {
        (edited_grid(g, inp), Mode::Editing, last_ms)
    } else if step_due(last_ms, inp.now_ms as int) {
        (step_spec(g), Mode::Running, inp.now_ms as int)
    } else {
        (g, Mode::Running, last_ms)
    }
}

/// A run of frames, folded through `frame_spec` in order.
pub open spec fn run_frames(
    g: Seq<Seq<bool>>,
    mode: Mode,
    last_ms: int,
    inputs: Seq<FrameInput>,
) -> (Seq<Seq<bool>>, Mode, int)
    decreases inputs.len(),
{
    if inputs.len() == 0 {
        (g, mode, last_ms)
    } else {
        let next = frame_spec(g, mode, last_ms, inputs[0]);
        run_frames(next.0, next.1, next.2, inputs.drop_first())
    }
}

/// Mode lock-out: once the session runs, pointer and clear inputs are dead.
/// A running frame's outcome depends only on the clock reading, and the grid
/// either stays as it is or advances by exactly one generation.
pub proof fn lemma_running_lockout(
    g: Seq<Seq<bool>>,
    last_ms: int,
    a: FrameInput,
    b: FrameInput,
)
    requires
        a.now_ms == b.now_ms,
    ensures
        frame_spec(g, Mode::Running, last_ms, a) == frame_spec(g, Mode::Running, last_ms, b),
        frame_spec(g, Mode::Running, last_ms, a).0 == g || frame_spec(
            g,
            Mode::Running,
            last_ms,
            a,
        ).0 == step_spec(g),
        frame_spec(g, Mode::Running, last_ms, a).1 == Mode::Running,
{
}

/// Timer gating, within the interval: however many frames run while the clock
/// has not yet reached a full interval past the last step, no generation
/// fires and the timer is untouched.
pub proof fn lemma_no_step_within_interval(
    g: Seq<Seq<bool>>,
    last_ms: int,
    inputs: Seq<FrameInput>,
)
    requires
        forall|i: int|
            0 <= i < inputs.len() ==> !step_due(last_ms, (#[trigger] inputs[i]).now_ms as int),
    ensures
        run_frames(g, Mode::Running, last_ms, inputs) == (g, Mode::Running, last_ms),
    decreases inputs.len(),
{
    if inputs.len() > 0 {
        assert(!step_due(last_ms, inputs[0].now_ms as int));
        lemma_no_step_within_interval(g, last_ms, inputs.drop_first());
    }
}

/// Timer gating, at the deadline: once the clock reaches a full interval past
/// the last step, the next frame fires exactly one generation and resets the
/// timer to that frame's clock, so every following frame still inside the new
/// interval fires none.
pub proof fn lemma_one_step_per_interval(
    g: Seq<Seq<bool>>,
    last_ms: int,
    first: FrameInput,
    rest: Seq<FrameInput>,
)
    requires
        step_due(last_ms, first.now_ms as int),
        forall|i: int|
            0 <= i < rest.len() ==> !step_due(
                first.now_ms as int,
                (#[trigger] rest[i]).now_ms as int,
            ),
    ensures
        frame_spec(g, Mode::Running, last_ms, first) == (
            step_spec(g),
            Mode::Running,
            first.now_ms as int,
        ),
        run_frames(g, Mode::Running, last_ms, seq![first] + rest) == (
            step_spec(g),
            Mode::Running,
            first.now_ms as int,
        ),
{
    let all = seq![first] + rest;
    assert(all[0] == first);
    assert(all.drop_first() =~= rest);
    lemma_no_step_within_interval(step_spec(g), first.now_ms as int, rest);
}

/// A session: one grid plus the mode and the time of the last generation.
pub struct Session {
    grid: Grid,
    mode: Mode,
    last_step_ms: u64,
}

impl Session {
    /// The grid's mathematical contents.
    pub closed spec fn grid_view(&self) -> Seq<Seq<bool>> {
        self.grid@
    }

    /// The current mode.
    pub closed spec fn mode_spec(&self) -> Mode {
        self.mode
    }

    /// The clock reading at which the last generation fired (or the session
    /// began), in milliseconds.
    pub closed spec fn last_step_spec(&self) -> int {
        self.last_step_ms as int
    }

    /// The session's grid is well-formed.
    pub closed spec fn wf(&self) -> bool {
        self.grid.wf()
    }

    /// A fresh session: an all-dead grid, editing mode, and the timer primed
    /// with the current clock reading.
    pub fn new(now_ms: u64) -> (s: Session)
        ensures
            s.wf(),
            s.grid_view() == cleared(),
            s.mode_spec() == Mode::Editing,
            s.last_step_spec() == now_ms as int,
    {
        Session { grid: Grid::new(), mode: Mode::Editing, last_step_ms: now_ms }
    }

    /// Read access to the grid, for rendering queries.
    pub fn grid(&self) -> (g: &Grid)
        ensures
            g@ == self.grid_view(),
            self.wf() ==> g.wf(),
    {
        &self.grid
    }

    /// The current mode.
    pub fn mode(&self) -> (m: Mode)
        ensures
            m == self.mode_spec(),
    {
        self.mode
    }

    /// Whether the simulation has started.
    pub fn is_running(&self) -> (b: bool)
        ensures
            b == (self.mode_spec() == Mode::Running),
    {
        self.mode == Mode::Running
    }

    /// Run one frame: exactly the transition `frame_spec` describes, on this
    /// session's state.
    pub fn frame(&mut self, input: &FrameInput)
        requires
            old(self).wf(),
        ensures
            final(self).wf(),
            (final(self).grid_view(), final(self).mode_spec(), final(self).last_step_spec())
                == frame_spec(
                old(self).grid_view(),
                old(self).mode_spec(),
                old(self).last_step_spec(),
                *input,
            ),
    {
        if input.start_pressed {
            self.mode = Mode::Running;
        }
        match self.mode {
            Mode::Editing => {
                if input.primary_held {
                    self.grid.set_cell(input.pointer_row, input.pointer_col, true);
                }
                if input.secondary_held {
                    self.grid.set_cell(input.pointer_row, input.pointer_col, false);
                }
                if input.clear_pressed {
                    self.grid.clear();
                }
            },
            Mode::Running => {
                if input.now_ms >= self.last_step_ms && input.now_ms - self.last_step_ms
                    >= STEP_INTERVAL_MS {
                    self.grid.step();
                    self.last_step_ms = input.now_ms;
                }
            },
        }
    }
}

} // verus!
