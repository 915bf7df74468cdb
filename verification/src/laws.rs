//! Proofs of the classic automaton laws: the birth and survival rules as
//! stated facts, neighbor counting around a lone live cell, edge clipping at
//! the corner, the block still life, and the blinker oscillator.

use vstd::prelude::*;

use crate::grid::{
    cleared, grid_wf, in_bounds, live_at, neighbor_count, next_state, set_spec, step_spec, HEIGHT,
    WIDTH,
};

verus! {

/// `n` generations applied in order.
pub open spec fn step_n(g: Seq<Seq<bool>>, n: nat) -> Seq<Seq<bool>>
    decreases n,
{
    if n == 0 {
        g
    } else {
        step_spec(step_n(g, (n - 1) as nat))
    }
}

/// Birth rule: a dead cell comes alive next generation exactly when it has
/// three live neighbors.
pub proof fn lemma_birth_rule(g: Seq<Seq<bool>>, row: int, col: int)
    requires
        in_bounds(row, col),
        !live_at(g, row, col),
    ensures
        next_state(g, row, col) <==> neighbor_count(g, row, col) == 3,
{
}

/// Survival rule: a live cell stays alive next generation exactly when it has
/// two or three live neighbors; fewer or more kill it.
pub proof fn lemma_survival_rule(g: Seq<Seq<bool>>, row: int, col: int)
    requires
        in_bounds(row, col),
        live_at(g, row, col),
    ensures
        next_state(g, row, col) <==> (2 <= neighbor_count(g, row, col) <= 3),
{
}

/// Bounds safety: writing at any out-of-bounds coordinate (negative, or at or
/// past the grid's edge) leaves the grid exactly as it was.
pub proof fn lemma_set_out_of_bounds(g: Seq<Seq<bool>>, row: int, col: int, alive: bool)
    requires
        !in_bounds(row, col),
    ensures
        set_spec(g, row, col, alive) == g,
{
}

/// Clearing always gives the all-dead grid, whatever stood there before, so
/// clearing twice is the same as clearing once.
pub proof fn lemma_clear_idempotent()
    ensures
        forall|r: int, c: int| in_bounds(r, c) ==> !cleared()[r][c],
{
}

/// Neighbor counting around a lone live cell: every cell at Moore distance 1
/// from it counts exactly 1 live neighbor, and every other cell (including
/// the live cell itself) counts 0.
pub proof fn lemma_single_live_cell_counts(g: Seq<Seq<bool>>, a: int, b: int)
    requires
        grid_wf(g),
        in_bounds(a, b),
        forall|r: int, c: int| in_bounds(r, c) ==> ((#[trigger] g[r][c]) <==> (r == a && c == b)),
    ensures
        forall|r: int, c: int|
            in_bounds(r, c) && !(r == a && c == b) && -1 <= r - a <= 1 && -1 <= c - b <= 1
                ==> #[trigger] neighbor_count(g, r, c) == 1,
        forall|r: int, c: int|
            in_bounds(r, c) && !(-1 <= r - a <= 1 && -1 <= c - b <= 1)
                ==> #[trigger] neighbor_count(g, r, c) == 0,
        neighbor_count(g, a, b) == 0,
{
}

/// Edge clipping: a lone live cell in the top-left corner contributes to
/// exactly the three neighbor counts inside the grid; no count anywhere else
/// is affected, and nothing wraps to the opposite edges.
pub proof fn lemma_corner_clipping(g: Seq<Seq<bool>>)
    requires
        grid_wf(g),
        forall|r: int, c: int| in_bounds(r, c) ==> ((#[trigger] g[r][c]) <==> (r == 0 && c == 0)),
    ensures
        neighbor_count(g, 0, 1) == 1,
        neighbor_count(g, 1, 0) == 1,
        neighbor_count(g, 1, 1) == 1,
        forall|r: int, c: int|
            in_bounds(r, c) && !((r == 0 && c == 1) || (r == 1 && c == 0) || (r == 1 && c == 1))
                ==> #[trigger] neighbor_count(g, r, c) == 0,
{
    lemma_single_live_cell_counts(g, 0, 0);
}

/// Still life: a lone 2-by-2 block of live cells is left exactly in place by
/// one generation.
pub proof fn lemma_block_still_life(g: Seq<Seq<bool>>, a: int, b: int)
    requires
        grid_wf(g),
        0 <= a,
        a + 1 < HEIGHT,
        0 <= b,
        b + 1 < WIDTH,
        forall|r: int, c: int|
            in_bounds(r, c) ==> ((#[trigger] g[r][c]) <==> (a <= r <= a + 1 && b <= c <= b + 1)),
    ensures
        step_spec(g) == g,
{
    assert forall|r: int, c: int| in_bounds(r, c) implies step_spec(g)[r][c] == g[r][c] by {
        assert(step_spec(g)[r][c] == next_state(g, r, c));
    }
    assert(step_spec(g) =~~= g);
}

/// A configuration that one generation leaves unchanged is unchanged by any
/// number of generations.
pub proof fn lemma_still_life_forever(g: Seq<Seq<bool>>, n: nat)
    requires
        step_spec(g) == g,
    ensures
        step_n(g, n) == g,
    decreases n,
{
    if n > 0 {
        lemma_still_life_forever(g, (n - 1) as nat);
    }
}

/// The horizontal blinker centered at (a, b): three live cells in row `a`.
pub open spec fn horizontal_blinker(a: int, b: int, r: int, c: int) -> bool {
    r == a && b - 1 <= c <= b + 1
}

/// The vertical blinker centered at (a, b): three live cells in column `b`.
pub open spec fn vertical_blinker(a: int, b: int, r: int, c: int) -> bool {
    a - 1 <= r <= a + 1 && c == b
}

/// The blinker's whole neighborhood fits the grid.
pub open spec fn blinker_interior(a: int, b: int) -> bool {
    1 <= a && a + 1 < HEIGHT && 1 <= b && b + 1 < WIDTH
}

/// One generation turns a lone horizontal blinker into the vertical blinker
/// with the same center.
pub proof fn lemma_blinker_horizontal_to_vertical(g: Seq<Seq<bool>>, a: int, b: int)
    requires
        grid_wf(g),
        blinker_interior(a, b),
        forall|r: int, c: int|
            in_bounds(r, c) ==> ((#[trigger] g[r][c]) <==> horizontal_blinker(a, b, r, c)),
    ensures
        forall|r: int, c: int|
            in_bounds(r, c) ==> ((#[trigger] step_spec(g)[r][c]) <==> vertical_blinker(a, b, r, c)),
{
    assert forall|r: int, c: int| in_bounds(r, c) implies ((#[trigger] step_spec(g)[r][c])
        <==> vertical_blinker(a, b, r, c)) by {
        assert(step_spec(g)[r][c] == next_state(g, r, c));
    }
}

/// One generation turns a lone vertical blinker into the horizontal blinker
/// with the same center.
pub proof fn lemma_blinker_vertical_to_horizontal(g: Seq<Seq<bool>>, a: int, b: int)
    requires
        grid_wf(g),
        blinker_interior(a, b),
        forall|r: int, c: int|
            in_bounds(r, c) ==> ((#[trigger] g[r][c]) <==> vertical_blinker(a, b, r, c)),
    ensures
        forall|r: int, c: int|
            in_bounds(r, c) ==> ((#[trigger] step_spec(g)[r][c]) <==> horizontal_blinker(
                a,
                b,
                r,
                c,
            )),
{
    assert forall|r: int, c: int| in_bounds(r, c) implies ((#[trigger] step_spec(g)[r][c])
        <==> horizontal_blinker(a, b, r, c)) by {
        assert(step_spec(g)[r][c] == next_state(g, r, c));
    }
}

/// Oscillator: a lone blinker alternates between its horizontal and vertical
/// orientation and is back in its original configuration after exactly two
/// generations.
pub proof fn lemma_blinker_period_two(g: Seq<Seq<bool>>, a: int, b: int)
    requires
        grid_wf(g),
        blinker_interior(a, b),
        forall|r: int, c: int|
            in_bounds(r, c) ==> ((#[trigger] g[r][c]) <==> horizontal_blinker(a, b, r, c)),
    ensures
        forall|r: int, c: int|
            in_bounds(r, c) ==> ((#[trigger] step_spec(g)[r][c]) <==> vertical_blinker(a, b, r, c)),
        step_n(g, 2) == g,
{
    lemma_blinker_horizontal_to_vertical(g, a, b);
    lemma_blinker_vertical_to_horizontal(step_spec(g), a, b);
    reveal_with_fuel(step_n, 3);
    assert(step_n(g, 2) == step_spec(step_spec(g)));
    assert forall|r: int, c: int| in_bounds(r, c) implies step_spec(step_spec(g))[r][c] == g[r][c]
        by {}
    assert(step_spec(step_spec(g)) =~~= g);
}

} // verus!
