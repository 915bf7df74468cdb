//! The automaton grid: a fixed-size matrix of boolean cell states together
//! with the neighbor-counting and next-generation rules of Conway's Game of
//! Life, and proofs of the classic pattern laws (still life, oscillator).

use vstd::prelude::*;

verus! {

/// Number of cell columns in the grid.
pub const WIDTH: usize = 128;

/// Number of cell rows in the grid.
pub const HEIGHT: usize = 72;

/// Side length of one cell, in pixels, used to place draw commands.
pub const CELL_SIZE_PX: u32 = 20;

/// A coordinate pair lies on the grid.
pub open spec fn in_bounds(row: int, col: int) -> bool {
    0 <= row < HEIGHT && 0 <= col < WIDTH
}

/// A grid model has exactly HEIGHT rows of exactly WIDTH cells.
pub open spec fn grid_wf(g: Seq<Seq<bool>>) -> bool {
    g.len() == HEIGHT && forall|r: int| 0 <= r < HEIGHT ==> (#[trigger] g[r]).len() == WIDTH
}

/// The cell at (row, col) is inside the grid and alive.  Out-of-bounds
/// coordinates never count as live: the topology is clipped, not toroidal.
pub open spec fn live_at(g: Seq<Seq<bool>>, row: int, col: int) -> bool {
    in_bounds(row, col) && g[row][col]
}

/// One cell's contribution to a neighbor count.
pub open spec fn cell_count(b: bool) -> int {
    if b {
        1
    } else {
        0
    }
}

/// Number of live cells among the 8 Moore neighbors of (row, col); offsets
/// falling outside the grid contribute nothing.
pub open spec fn neighbor_count(g: Seq<Seq<bool>>, row: int, col: int) -> int {
    cell_count(live_at(g, row - 1, col - 1)) + cell_count(live_at(g, row - 1, col))
        + cell_count(live_at(g, row - 1, col + 1)) + cell_count(live_at(g, row, col - 1))
        + cell_count(live_at(g, row, col + 1)) + cell_count(live_at(g, row + 1, col - 1))
        + cell_count(live_at(g, row + 1, col)) + cell_count(live_at(g, row + 1, col + 1))
}

/// The standard rule: a live cell survives with 2 or 3 live neighbors, a dead
/// cell is born with exactly 3, every other cell is dead next generation.
pub open spec fn next_state(g: Seq<Seq<bool>>, row: int, col: int) -> bool {
    if live_at(g, row, col) {
        2 <= neighbor_count(g, row, col) <= 3
    } else {
        neighbor_count(g, row, col) == 3
    }
}

/// One whole generation, every cell decided from the same snapshot.
pub open spec fn step_spec(g: Seq<Seq<bool>>) -> Seq<Seq<bool>> {
    Seq::new(HEIGHT as nat, |row: int| Seq::new(WIDTH as nat, |col: int| next_state(g, row, col)))
}

/// Writing one cell: in bounds the cell is replaced, out of bounds the grid is
/// returned unchanged.
pub open spec fn set_spec(g: Seq<Seq<bool>>, row: int, col: int, alive: bool) -> Seq<Seq<bool>> {
    if in_bounds(row, col) {
        g.update(row, g[row].update(col, alive))
    } else {
        g
    }
}

/// The all-dead grid.
pub open spec fn cleared() -> Seq<Seq<bool>> {
    Seq::new(HEIGHT as nat, |row: int| Seq::new(WIDTH as nat, |col: int| false))
}

/// One rectangle to draw: the pixel position of a cell's top-left corner and
/// whether the cell is to be drawn filled (alive) or outlined (dead).
pub struct DrawCmd {
    pub x: u32,
    pub y: u32,
    pub filled: bool,
}

/// The automaton grid.  Cells are stored row-major in one vector; the view
/// presents them as a sequence of rows.
pub struct Grid {
    cells: Vec<bool>,
}

impl View for Grid {
    type V = Seq<Seq<bool>>;

    closed spec fn view(&self) -> Seq<Seq<bool>> {
        Seq::new(
            HEIGHT as nat,
            |row: int| Seq::new(WIDTH as nat, |col: int| self.cells@[row * WIDTH + col]),
        )
    }
}

impl Grid {
    /// The backing vector holds exactly one state per coordinate.
    pub closed spec fn wf(&self) -> bool {
        self.cells@.len() == HEIGHT * WIDTH
    }

    /// A fresh grid, fully dead.
    #[verifier::loop_isolation(false)]
    pub fn new() -> (g: Grid)
        ensures
            g.wf(),
            g@ == cleared(),
    {
        let mut cells: Vec<bool> = Vec::new();
        let mut i: usize = 0;
        while i < HEIGHT * WIDTH
            invariant
                i <= HEIGHT * WIDTH,
                cells@.len() == i,
                forall|k: int| 0 <= k < i ==> !(#[trigger] cells@[k]),
            decreases HEIGHT * WIDTH - i,
        {
            cells.push(false);
            i = i + 1;
        }
        let g = Grid { cells };
        proof {
            assert forall|r: int, c: int| in_bounds(r, c) implies g@[r][c] == cleared()[r][c] by {
                assert(!g.cells@[r * WIDTH + c]);
            }
            assert(g@ =~~= cleared());
        }
        g
    }

    /// Current state of one cell.
    pub fn cell_state(&self, row: usize, col: usize) -> (b: bool)
        requires
            self.wf(),
            row < HEIGHT,
            col < WIDTH,
        ensures
            b == self@[row as int][col as int],
    {
        self.cells[row * WIDTH + col]
    }

    /// Write one cell.  Out-of-bounds coordinates (negative, or at or past the
    /// grid's edge) are silently discarded and the grid is left untouched.
    pub fn set_cell(&mut self, row: i64, col: i64, alive: bool)
        requires
            old(self).wf(),
        ensures
            final(self).wf(),
            final(self)@ == set_spec(old(self)@, row as int, col as int, alive),
    {
        if 0 <= row && row < HEIGHT as i64 && 0 <= col && col < WIDTH as i64 {
            let idx: usize = (row as usize) * WIDTH + (col as usize);
            self.cells.set(idx, alive);
            proof {
                let g0 = old(self)@;
                let r0 = row as int;
                let c0 = col as int;
                assert forall|r: int, c: int| in_bounds(r, c) implies self@[r][c] == set_spec(
                    g0,
                    r0,
                    c0,
                    alive,
                )[r][c] by {
                    if r == r0 && c == c0 {
                        assert(self.cells@[r * WIDTH + c] == alive);
                    } else {
                        assert(r * WIDTH + c != r0 * WIDTH + c0);
                    }
                }
                assert(self@ =~~= set_spec(g0, r0, c0, alive));
            }
        }
    }

    /// Kill every cell.
    #[verifier::loop_isolation(false)]
    pub fn clear(&mut self)
        requires
            old(self).wf(),
        ensures
            final(self).wf(),
            final(self)@ == cleared(),
    {
        let mut i: usize = 0;
        while i < HEIGHT * WIDTH
            invariant
                self.wf(),
                i <= HEIGHT * WIDTH,
                forall|k: int| 0 <= k < i ==> !(#[trigger] self.cells@[k]),
            decreases HEIGHT * WIDTH - i,
        {
            self.cells.set(i, false);
            i = i + 1;
        }
        proof {
            assert forall|r: int, c: int| in_bounds(r, c) implies self@[r][c] == cleared()[r][c] by {
                assert(!self.cells@[r * WIDTH + c]);
            }
            assert(self@ =~~= cleared());
        }
    }

    /// Whether the cell one step of (dr, dc) away from (row, col) is inside
    /// the grid and alive.
    fn is_live_offset(&self, row: usize, col: usize, dr: i64, dc: i64) -> (b: bool)
        requires
            self.wf(),
            row < HEIGHT,
            col < WIDTH,
            -1 <= dr <= 1,
            -1 <= dc <= 1,
        ensures
            b == live_at(self@, row + dr, col + dc),
    {
        let r = row as i64 + dr;
        let c = col as i64 + dc;
        if 0 <= r && r < HEIGHT as i64 && 0 <= c && c < WIDTH as i64 {
            self.cells[(r as usize) * WIDTH + (c as usize)]
        } else {
            false
        }
    }

    /// Count the live cells among the 8 Moore neighbors of (row, col).
    /// Neighbors outside the grid are excluded; there is no wraparound.
    pub fn count_live_neighbors(&self, row: usize, col: usize) -> (n: usize)
        requires
            self.wf(),
            row < HEIGHT,
            col < WIDTH,
        ensures
            n == neighbor_count(self@, row as int, col as int),
            n <= 8,
    {
        let mut n: usize = 0;
        if self.is_live_offset(row, col, -1, -1) {
            n = n + 1;
        }
        if self.is_live_offset(row, col, -1, 0) {
            n = n + 1;
        }
        if self.is_live_offset(row, col, -1, 1) {
            n = n + 1;
        }
        if self.is_live_offset(row, col, 0, -1) {
            n = n + 1;
        }
        if self.is_live_offset(row, col, 0, 1) {
            n = n + 1;
        }
        if self.is_live_offset(row, col, 1, -1) {
            n = n + 1;
        }
        if self.is_live_offset(row, col, 1, 0) {
            n = n + 1;
        }
        if self.is_live_offset(row, col, 1, 1) {
            n = n + 1;
        }
        n
    }

    /// Advance one generation.  Every cell's next state is decided from the
    /// same snapshot of the current generation: the new states are built
    /// aside and swapped in whole, never written into the grid being read.
    #[verifier::loop_isolation(false)]
    pub fn step(&mut self)
        requires
            old(self).wf(),
        ensures
            final(self).wf(),
            final(self)@ == step_spec(old(self)@),
    {
        let ghost g0 = self@;
        let mut next: Vec<bool> = Vec::new();
        let mut r: usize = 0;
        while r < HEIGHT
            invariant
                self.wf(),
                self@ == g0,
                r <= HEIGHT,
                next@.len() == r * WIDTH,
                forall|rr: int, cc: int|
                    0 <= rr && 0 <= cc < WIDTH && rr * WIDTH + cc < next@.len() ==> #[trigger] next@[rr
                        * WIDTH + cc] == next_state(g0, rr, cc),
            decreases HEIGHT - r,
        {
            let mut c: usize = 0;
            while c < WIDTH
                invariant
                    self.wf(),
                    self@ == g0,
                    r < HEIGHT,
                    c <= WIDTH,
                    next@.len() == r * WIDTH + c,
                    forall|rr: int, cc: int|
                        0 <= rr && 0 <= cc < WIDTH && rr * WIDTH + cc < next@.len()
                            ==> #[trigger] next@[rr * WIDTH + cc] == next_state(g0, rr, cc),
                decreases WIDTH - c,
            {
                let alive = self.cell_state(r, c);
                let n = self.count_live_neighbors(r, c);
                let born_or_kept = if alive {
                    n == 2 || n == 3
                } else {
                    n == 3
                };
                next.push(born_or_kept);
                c = c + 1;
            }
            r = r + 1;
        }
        self.cells = next;
        proof {
            assert forall|rr: int, cc: int| in_bounds(rr, cc) implies self@[rr][cc] == step_spec(
                g0,
            )[rr][cc] by {
                assert(self.cells@[rr * WIDTH + cc] == next_state(g0, rr, cc));
            }
            assert(self@ =~~= step_spec(g0));
        }
    }

    /// One draw command per cell, row-major: the cell at (r, c) becomes the
    /// command at index r * WIDTH + c, placed at (c, r) cell sizes in pixels,
    /// filled exactly when the cell is alive.
    #[verifier::loop_isolation(false)]
    pub fn render_commands(&self) -> (cmds: Vec<DrawCmd>)
        requires
            self.wf(),
        ensures
            cmds@.len() == HEIGHT * WIDTH,
            forall|r: int, c: int|
                in_bounds(r, c) ==> (#[trigger] cmds@[r * WIDTH + c]).x == c * CELL_SIZE_PX
                    && cmds@[r * WIDTH + c].y == r * CELL_SIZE_PX && cmds@[r * WIDTH + c].filled
                    == self@[r][c],
    {
        let mut cmds: Vec<DrawCmd> = Vec::new();
        let mut r: usize = 0;
        while r < HEIGHT
            invariant
                r <= HEIGHT,
                cmds@.len() == r * WIDTH,
                forall|rr: int, cc: int|
                    0 <= rr && 0 <= cc < WIDTH && rr * WIDTH + cc < cmds@.len()
                        ==> (#[trigger] cmds@[rr * WIDTH + cc]).x == cc * CELL_SIZE_PX && cmds@[rr
                        * WIDTH + cc].y == rr * CELL_SIZE_PX && cmds@[rr * WIDTH + cc].filled
                        == self@[rr][cc],
            decreases HEIGHT - r,
        {
            let mut c: usize = 0;
            while c < WIDTH
                invariant
                    r < HEIGHT,
                    c <= WIDTH,
                    cmds@.len() == r * WIDTH + c,
                    forall|rr: int, cc: int|
                        0 <= rr && 0 <= cc < WIDTH && rr * WIDTH + cc < cmds@.len()
                            ==> (#[trigger] cmds@[rr * WIDTH + cc]).x == cc * CELL_SIZE_PX && cmds@[
                            rr * WIDTH + cc].y == rr * CELL_SIZE_PX && cmds@[rr * WIDTH + cc].filled
                            == self@[rr][cc],
                decreases WIDTH - c,
            {
                let cmd = DrawCmd {
                    x: (c as u32) * CELL_SIZE_PX,
                    y: (r as u32) * CELL_SIZE_PX,
                    filled: self.cell_state(r, c),
                };
                cmds.push(cmd);
                c = c + 1;
            }
            r = r + 1;
        }
        cmds
    }
}

} // verus!
