use crate::game::{
    alive_in, flat_index, generations, grid_shape, in_grid, lemma_coords, lemma_flat_index,
    live_neighbors, next_generation, next_state, with_toggled,
};
use vstd::prelude::*;

verus! {

/// The grid of `w` by `h` cells whose living cells are those where `f` holds.
pub open spec fn pattern_grid(w: int, h: int, f: spec_fn(int, int) -> bool) -> Seq<bool> {
    Seq::new((w * h) as nat, |i: int| f(i % w, i / w))
}

/// Whether (x, y) belongs to the two-by-two square whose top-left corner is (px, py).
pub open spec fn in_block(px: int, py: int, x: int, y: int) -> bool {
    px <= x <= px + 1 && py <= y <= py + 1
}

/// Whether (x, y) belongs to the row of three cells centred on (cx, cy).
pub open spec fn in_row_of_three(cx: int, cy: int, x: int, y: int) -> bool {
    y == cy && cx - 1 <= x <= cx + 1
}

/// Whether (x, y) belongs to the column of three cells centred on (cx, cy).
pub open spec fn in_column_of_three(cx: int, cy: int, x: int, y: int) -> bool {
    x == cx && cy - 1 <= y <= cy + 1
}

/// A living cell always has its place inside the sequence.
proof fn lemma_alive_in_bounds(w: int, h: int, s: Seq<bool>)
    requires
        grid_shape(w, h, s),
    ensures
        forall|x: int, y: int|
            #[trigger] alive_in(w, h, s, x, y) ==> 0 <= flat_index(w, x, y) < s.len(),
{
    assert forall|x: int, y: int| #[trigger] alive_in(w, h, s, x, y) implies 0 <= flat_index(w, x, y) < s.len() by {
        lemma_flat_index(w, h, x, y);
    }
}

/// Two grids of one shape are equal when they agree on every cell.
proof fn lemma_same_cells(w: int, h: int, a: Seq<bool>, b: Seq<bool>)
    requires
        grid_shape(w, h, a),
        grid_shape(w, h, b),
        forall|x: int, y: int| in_grid(w, h, x, y) ==> #[trigger] alive_in(w, h, a, x, y) == alive_in(w, h, b, x, y),
    ensures
        a == b,
{
    assert forall|i: int| 0 <= i < a.len() implies a[i] == b[i] by {
        lemma_coords(w, h, i);
        assert(alive_in(w, h, a, i % w, i / w) == alive_in(w, h, b, i % w, i / w));
    }
    assert(a =~= b);
}

/// The cell (x, y) of the next generation follows the rule of life applied
/// to the cell and its neighbours in the current one.
pub proof fn lemma_next_cell(w: int, h: int, s: Seq<bool>, x: int, y: int)
    requires
        grid_shape(w, h, s),
        in_grid(w, h, x, y),
    ensures
        alive_in(w, h, next_generation(w, h, s), x, y) == next_state(
            alive_in(w, h, s, x, y),
            live_neighbors(w, h, s, x, y),
        ),
{
    lemma_flat_index(w, h, x, y);
}

/// A pattern grid holds a living cell exactly where the pattern holds on the grid.
proof fn lemma_pattern_cells(w: int, h: int, f: spec_fn(int, int) -> bool)
    requires
        w > 0,
        h > 0,
    ensures
        grid_shape(w, h, pattern_grid(w, h, f)),
        forall|x: int, y: int|
            #[trigger] alive_in(w, h, pattern_grid(w, h, f), x, y) == (in_grid(w, h, x, y) && f(x, y)),
{
    assert(w * h >= 0) by (nonlinear_arith)
        requires
            w > 0,
            h > 0,
    ;
    assert forall|x: int, y: int|
        #[trigger] alive_in(w, h, pattern_grid(w, h, f), x, y) == (in_grid(w, h, x, y) && f(x, y)) by {
        if in_grid(w, h, x, y) {
            lemma_flat_index(w, h, x, y);
        }
    }
}

/// A grid in which every cell is dead stays dead for any number of generations.
pub proof fn lemma_dead_grid_is_fixed(w: int, h: int, s: Seq<bool>, n: nat)
    requires
        grid_shape(w, h, s),
        forall|i: int| 0 <= i < s.len() ==> !#[trigger] s[i],
    ensures
        generations(w, h, s, n) == s,
    decreases n,
{
    if n > 0 {
        lemma_dead_grid_is_fixed(w, h, s, (n - 1) as nat);
        lemma_alive_in_bounds(w, h, s);
        let t = next_generation(w, h, s);
        assert forall|i: int| 0 <= i < s.len() implies t[i] == s[i] by {
            assert(live_neighbors(w, h, s, i % w, i / w) == 0);
        }
        assert(t =~= s);
    }
}

/// A living cell whose eight neighbours are all dead is dead one generation later.
pub proof fn lemma_isolated_cell_dies(w: int, h: int, s: Seq<bool>, x: int, y: int)
    requires
        grid_shape(w, h, s),
        alive_in(w, h, s, x, y),
        live_neighbors(w, h, s, x, y) == 0,
    ensures
        !alive_in(w, h, next_generation(w, h, s), x, y),
{
    lemma_next_cell(w, h, s, x, y);
}

/// Two by two living cells on an otherwise dead grid are unchanged by a generation.
pub proof fn lemma_block_is_still(w: int, h: int, px: int, py: int)
    requires
        w > 0,
        h > 0,
        in_grid(w, h, px, py),
        in_grid(w, h, px + 1, py + 1),
    ensures
        next_generation(w, h, pattern_grid(w, h, |x: int, y: int| in_block(px, py, x, y)))
            == pattern_grid(w, h, |x: int, y: int| in_block(px, py, x, y)),
{
    let f = |x: int, y: int| in_block(px, py, x, y);
    let s = pattern_grid(w, h, f);
    lemma_pattern_cells(w, h, f);
    let t = next_generation(w, h, s);
    assert forall|x: int, y: int| in_grid(w, h, x, y) implies #[trigger] alive_in(w, h, t, x, y) == alive_in(w, h, s, x, y) by {
        lemma_next_cell(w, h, s, x, y);
    }
    lemma_same_cells(w, h, t, s);
}

/// A row of three living cells on an otherwise dead grid turns into the
/// column of three centred on the same cell, and that column turns back into
/// the row: the pattern repeats every two generations.
pub proof fn lemma_blinker_oscillates(w: int, h: int, cx: int, cy: int)
    requires
        w > 0,
        h > 0,
        in_grid(w, h, cx - 1, cy - 1),
        in_grid(w, h, cx + 1, cy + 1),
    ensures
        next_generation(w, h, pattern_grid(w, h, |x: int, y: int| in_row_of_three(cx, cy, x, y)))
            == pattern_grid(w, h, |x: int, y: int| in_column_of_three(cx, cy, x, y)),
        next_generation(w, h, pattern_grid(w, h, |x: int, y: int| in_column_of_three(cx, cy, x, y)))
            == pattern_grid(w, h, |x: int, y: int| in_row_of_three(cx, cy, x, y)),
        generations(w, h, pattern_grid(w, h, |x: int, y: int| in_row_of_three(cx, cy, x, y)), 2)
            == pattern_grid(w, h, |x: int, y: int| in_row_of_three(cx, cy, x, y)),
{
    let f = |x: int, y: int| in_row_of_three(cx, cy, x, y);
    let g = |x: int, y: int| in_column_of_three(cx, cy, x, y);
    let row = pattern_grid(w, h, f);
    let col = pattern_grid(w, h, g);
    lemma_pattern_cells(w, h, f);
    lemma_pattern_cells(w, h, g);
    let t = next_generation(w, h, row);
    assert forall|x: int, y: int| in_grid(w, h, x, y) implies #[trigger] alive_in(w, h, t, x, y) == alive_in(w, h, col, x, y) by {
        lemma_next_cell(w, h, row, x, y);
    }
    lemma_same_cells(w, h, t, col);
    let u = next_generation(w, h, col);
    assert forall|x: int, y: int| in_grid(w, h, x, y) implies #[trigger] alive_in(w, h, u, x, y) == alive_in(w, h, row, x, y) by {
        lemma_next_cell(w, h, col, x, y);
    }
    lemma_same_cells(w, h, u, row);
    assert(generations(w, h, row, 0) == row);
    assert(generations(w, h, row, 1) == t);
    assert(generations(w, h, row, 2) == u);
}

/// Flipping the same cell twice gives the grid back.
pub proof fn lemma_toggle_twice(w: int, h: int, s: Seq<bool>, x: int, y: int)
    requires
        grid_shape(w, h, s),
    ensures
        with_toggled(w, h, with_toggled(w, h, s, x, y), x, y) == s,
{
    if in_grid(w, h, x, y) {
        lemma_flat_index(w, h, x, y);
        assert(with_toggled(w, h, with_toggled(w, h, s, x, y), x, y) =~= s);
    }
}

} // verus!
