//! Rule parameters and the per-generation transition of the
//! neighbor-count-threshold model, with toroidal (wrap-around) addressing
//! at the grid edges.

use vstd::prelude::*;
use vstd::arithmetic::div_mod::lemma_fundamental_div_mod_converse;

verus! {

use crate::cell_alive;

/// Thresholds of the fixed neighbor-count transition model: a live cell
/// survives iff its neighbor count lies in `[survival_min, survival_max]`;
/// a dead cell is born iff its neighbor count equals `birth_count`.
#[derive(Clone, Copy, PartialEq, Eq, Structural, Debug)]
pub struct GameRules {
    /// Minimum neighbors for a live cell to survive
    pub survival_min: u32,
    /// Maximum neighbors for a live cell to survive
    pub survival_max: u32,
    /// Number of neighbors for a dead cell to become alive
    pub birth_count: u32,
}

impl GameRules {
    /// All thresholds are neighbor counts, hence at most 8, and the
    /// survival range is non-empty.
    pub open spec fn valid(self) -> bool {
        &&& self.survival_min <= self.survival_max
        &&& self.survival_max <= 8
        &&& self.birth_count <= 8
    }

    /// Create a new rule set with custom parameters
    pub fn new(survival_min: u32, survival_max: u32, birth_count: u32) -> (r: Self)
        ensures
            r == (GameRules { survival_min, survival_max, birth_count }),
    {
        Self { survival_min, survival_max, birth_count }
    }

    /// Preset for the classic rules (B3/S23)
    pub fn conway() -> (r: Self)
        ensures
            r == (GameRules { survival_min: 2u32, survival_max: 3u32, birth_count: 3u32 }),
            r.valid(),
    {
        Self { survival_min: 2, survival_max: 3, birth_count: 3 }
    }

    /// HighLife variant: birth on 6 is the single count expressible here.
    /// The full B36 rule needs two birth counts and so a custom program swap;
    /// it is not expressible through these parameters.
    pub fn high_life() -> (r: Self)
        ensures
            r == (GameRules { survival_min: 2u32, survival_max: 3u32, birth_count: 6u32 }),
            r.valid(),
    {
        Self { survival_min: 2, survival_max: 3, birth_count: 6 }
    }

    /// Day & Night variant: the nearest fixed-threshold approximation of
    /// B3678/S34678; the full rule likewise needs a custom program swap.
    pub fn day_and_night() -> (r: Self)
        ensures
            r == (GameRules { survival_min: 3u32, survival_max: 8u32, birth_count: 3u32 }),
            r.valid(),
    {
        Self { survival_min: 3, survival_max: 8, birth_count: 3 }
    }
}

/// A flat row-major region of `width * height` cells is a well-formed grid.
pub open spec fn grid_wf(g: Seq<u32>, width: nat, height: nat) -> bool {
    &&& width >= 1
    &&& height >= 1
    &&& g.len() == width * height
}

/// The cell stored at column `x`, row `y` of a row-major region.
pub open spec fn cell_at(g: Seq<u32>, width: nat, x: nat, y: nat) -> u32 {
    g[y * width + x as int]
}

/// 1 if the cell at `(x, y)` is alive, else 0.
pub open spec fn alive_ind(g: Seq<u32>, width: nat, x: nat, y: nat) -> nat {
    if cell_alive(cell_at(g, width, x, y)) {
        1
    } else {
        0
    }
}

/// The toroidal predecessor of coordinate `i` on an axis of extent `n`.
pub open spec fn wrap_dec(i: nat, n: nat) -> nat {
    if i == 0 {
        (n - 1) as nat
    } else {
        (i - 1) as nat
    }
}

/// The toroidal successor of coordinate `i` on an axis of extent `n`.
pub open spec fn wrap_inc(i: nat, n: nat) -> nat {
    if i + 1 == n {
        0
    } else {
        i + 1
    }
}

/// How many of the 8 Moore-neighborhood cells of `(x, y)` are alive, with
/// toroidal wrap at the edges. On an axis of extent 1 a cell is its own
/// neighbor and is counted once per wrapped coordinate.
pub open spec fn neighbor_count_spec(g: Seq<u32>, w: nat, h: nat, x: nat, y: nat) -> nat {
    let xm = wrap_dec(x, w);
    let xp = wrap_inc(x, w);
    let ym = wrap_dec(y, h);
    let yp = wrap_inc(y, h);
    alive_ind(g, w, xm, ym) + alive_ind(g, w, x, ym) + alive_ind(g, w, xp, ym) + alive_ind(
        g,
        w,
        xm,
        y,
    ) + alive_ind(g, w, xp, y) + alive_ind(g, w, xm, yp) + alive_ind(g, w, x, yp) + alive_ind(
        g,
        w,
        xp,
        yp,
    )
}

/// The next value of one cell: a live cell keeps its value (and so its color
/// category) iff its neighbor count lies in the survival range; a dead cell
/// takes the current paint value iff its neighbor count equals the birth
/// count; every other cell becomes dead.
pub open spec fn step_value(rules: GameRules, cur: u32, n: nat, paint: u32) -> u32 {
    if cell_alive(cur) {
        if rules.survival_min <= n && n <= rules.survival_max {
            cur
        } else {
            0
        }
    } else {
        if n == rules.birth_count {
            paint
        } else {
            0
        }
    }
}

/// One whole generation: every cell of the region stepped at once.
pub open spec fn step_grid(g: Seq<u32>, w: nat, h: nat, rules: GameRules, paint: u32) -> Seq<
    u32,
> {
    Seq::new(
        w * h,
        |i: int|
            step_value(
                rules,
                g[i],
                neighbor_count_spec(g, w, h, (i % (w as int)) as nat, (i / (w as int)) as nat),
                paint,
            ),
    )
}

/// `n` generations in order, each consuming the previous one's result.
pub open spec fn run_steps(g: Seq<u32>, w: nat, h: nat, rules: GameRules, paint: u32, n: nat) -> Seq<u32>
    decreases n,
{
    if n == 0 {
        g
    } else {
        step_grid(run_steps(g, w, h, rules, paint, (n - 1) as nat), w, h, rules, paint)
    }
}

/// A row-major index built from in-range coordinates is in range.
pub proof fn lemma_row_major_index(w: int, h: int, x: int, y: int)
    by (nonlinear_arith)
    requires
        0 <= x < w,
        0 <= y < h,
    ensures
        0 <= y * w + x < w * h,
{
}

/// In-range coordinates are recovered from a row-major index by division
/// and remainder.
pub proof fn lemma_coords_in_range(w: int, h: int, i: int)
    by (nonlinear_arith)
    requires
        w >= 1,
        h >= 1,
        0 <= i < w * h,
    ensures
        0 <= i % w < w,
        0 <= i / w < h,
        i == (i / w) * w + (i % w),
{
}

/// Creates a helper function to get the index in a 1D array for a 2D grid position
pub fn get_index(x: u32, y: u32, width: u32) -> (r: usize)
    requires
        (y as nat) * (width as nat) + (x as nat) <= usize::MAX,
    ensures
        r == (y as nat) * (width as nat) + (x as nat),
{
    (y as usize) * (width as usize) + (x as usize)
}

fn cell_alive_at(grid: &Vec<u32>, width: u32, height: u32, x: u32, y: u32) -> (r: u32)
    requires
        grid_wf(grid@, width as nat, height as nat),
        x < width,
        y < height,
    ensures
        r == alive_ind(grid@, width as nat, x as nat, y as nat),
{
    let n_cells = grid.len();
    proof {
        lemma_row_major_index(width as int, height as int, x as int, y as int);
    }
    let idx = get_index(x, y, width);
    if grid[idx] > 0 {
        1
    } else {
        0
    }
}

/// Given a grid position, count the number of live neighbors using wrapping boundaries
pub fn count_neighbors(grid: &Vec<u32>, x: u32, y: u32, width: u32, height: u32) -> (n: u32)
    requires
        grid_wf(grid@, width as nat, height as nat),
        x < width,
        y < height,
    ensures
        n == neighbor_count_spec(grid@, width as nat, height as nat, x as nat, y as nat),
{
    let xm = if x == 0 { width - 1 } else { x - 1 };
    let xp = if x + 1 == width { 0 } else { x + 1 };
    let ym = if y == 0 { height - 1 } else { y - 1 };
    let yp = if y + 1 == height { 0 } else { y + 1 };
    let mut n: u32 = 0;
    n = n + cell_alive_at(grid, width, height, xm, ym);
    n = n + cell_alive_at(grid, width, height, x, ym);
    n = n + cell_alive_at(grid, width, height, xp, ym);
    n = n + cell_alive_at(grid, width, height, xm, y);
    n = n + cell_alive_at(grid, width, height, xp, y);
    n = n + cell_alive_at(grid, width, height, xm, yp);
    n = n + cell_alive_at(grid, width, height, x, yp);
    n = n + cell_alive_at(grid, width, height, xp, yp);
    n
}

/// Apply one generation of the rules to `input`, writing every cell of
/// `output`. Newly-born cells take the value `paint`.
pub fn apply_rules(
    input: &Vec<u32>,
    output: &mut Vec<u32>,
    width: u32,
    height: u32,
    rules: &GameRules,
    paint: u32,
)
    requires
        grid_wf(input@, width as nat, height as nat),
        old(output)@.len() == input@.len(),
    ensures
        final(output)@ == step_grid(input@, width as nat, height as nat, *rules, paint),
{
    let ghost sg = step_grid(input@, width as nat, height as nat, *rules, paint);
    let w = width as usize;
    let h = height as usize;
    let n_cells = input.len();
    let mut y: usize = 0;
    while y < h
        invariant
            y <= h,
            w == width as int,
            h == height as int,
            n_cells == input@.len(),
            grid_wf(input@, width as nat, height as nat),
            output@.len() == input@.len(),
            sg == step_grid(input@, width as nat, height as nat, *rules, paint),
            forall|i: int| 0 <= i < y * w ==> output@[i] == sg[i],
        decreases h - y,
    {
        let mut x: usize = 0;
        while x < w
            invariant
                x <= w,
                y < h,
                w == width as int,
                h == height as int,
                n_cells == input@.len(),
                grid_wf(input@, width as nat, height as nat),
                output@.len() == input@.len(),
                sg == step_grid(input@, width as nat, height as nat, *rules, paint),
                forall|i: int| 0 <= i < y * w + x ==> output@[i] == sg[i],
            decreases w - x,
        {
            proof {
                lemma_row_major_index(w as int, h as int, x as int, y as int);
            }
            let idx = y * w + x;
            let cur = input[idx];
            let n = count_neighbors(input, x as u32, y as u32, width, height);
            let val = if cur > 0 {
                if rules.survival_min <= n && n <= rules.survival_max {
                    cur
                } else {
                    0
                }
            } else {
                if n == rules.birth_count {
                    paint
                } else {
                    0
                }
            };
            output.set(idx, val);
            proof {
                lemma_fundamental_div_mod_converse(idx as int, w as int, y as int, x as int);
                assert(output@[idx as int] == sg[idx as int]);
            }
            x = x + 1;
        }
        proof {
            assert((y + 1) * w == y * w + w) by (nonlinear_arith);
        }
        y = y + 1;
    }
    proof {
        assert(h * w == w * h) by (nonlinear_arith);
        assert(output@ =~= sg);
    }
}

/// No spontaneous births: an all-dead grid under any rule whose birth count
/// is positive is still all-dead after one generation.
pub proof fn lemma_dead_grid_stays_dead(
    g: Seq<u32>,
    w: nat,
    h: nat,
    rules: GameRules,
    paint: u32,
)
    requires
        grid_wf(g, w, h),
        rules.birth_count >= 1,
        forall|i: int| 0 <= i < g.len() ==> !cell_alive(g[i]),
    ensures
        forall|i: int|
            0 <= i < step_grid(g, w, h, rules, paint).len() ==> !cell_alive(
                step_grid(g, w, h, rules, paint)[i],
            ),
{
    let sg = step_grid(g, w, h, rules, paint);
    assert forall|i: int| 0 <= i < sg.len() implies !cell_alive(sg[i]) by {
        lemma_coords_in_range(w as int, h as int, i);
        let x = (i % (w as int)) as nat;
        let y = (i / (w as int)) as nat;
        let xm = wrap_dec(x, w);
        let xp = wrap_inc(x, w);
        let ym = wrap_dec(y, h);
        let yp = wrap_inc(y, h);
        lemma_row_major_index(w as int, h as int, xm as int, ym as int);
        lemma_row_major_index(w as int, h as int, x as int, ym as int);
        lemma_row_major_index(w as int, h as int, xp as int, ym as int);
        lemma_row_major_index(w as int, h as int, xm as int, y as int);
        lemma_row_major_index(w as int, h as int, xp as int, y as int);
        lemma_row_major_index(w as int, h as int, xm as int, yp as int);
        lemma_row_major_index(w as int, h as int, x as int, yp as int);
        lemma_row_major_index(w as int, h as int, xp as int, yp as int);
        assert(neighbor_count_spec(g, w, h, x, y) == 0);
    }
}

/// A grid that is dead except for a vertical blinker of color `v`: the three
/// cells `(x, y-1)`, `(x, y)`, `(x, y+1)`.
pub open spec fn blinker_vertical(w: nat, h: nat, x: nat, y: nat, v: u32) -> Seq<u32> {
    Seq::new(
        w * h,
        |i: int|
            if i % (w as int) == x && y - 1 <= i / (w as int) <= y + 1 {
                v
            } else {
                0u32
            },
    )
}

/// A grid that is dead except for a horizontal blinker of color `v`: the
/// three cells `(x-1, y)`, `(x, y)`, `(x+1, y)`.
pub open spec fn blinker_horizontal(w: nat, h: nat, x: nat, y: nat, v: u32) -> Seq<u32> {
    Seq::new(
        w * h,
        |i: int|
            if i / (w as int) == y && x - 1 <= i % (w as int) <= x + 1 {
                v
            } else {
                0u32
            },
    )
}

/// What the two blinker grids hold at given coordinates.
proof fn lemma_blinker_cell(w: nat, h: nat, x: nat, y: nat, v: u32, a: int, b: int)
    requires
        1 <= w,
        1 <= h,
        0 <= a < w,
        0 <= b < h,
    ensures
        blinker_vertical(w, h, x, y, v)[b * w + a] == (if a == x && y - 1 <= b <= y + 1 {
            v
        } else {
            0u32
        }),
        blinker_horizontal(w, h, x, y, v)[b * w + a] == (if b == y && x - 1 <= a <= x + 1 {
            v
        } else {
            0u32
        }),
{
    lemma_row_major_index(w as int, h as int, a, b);
    lemma_fundamental_div_mod_converse(b * (w as int) + a, w as int, b, a);
}

/// A blinker oscillates with period 2 under the classic rules: one
/// generation turns the vertical phase into the horizontal one and the next
/// turns it back, so the grid returns to its original state after exactly
/// two generations, at every interior position and in every alive color,
/// provided the current paint value is that same color.
#[verifier::rlimit(100)]
pub proof fn lemma_blinker_period_two(w: nat, h: nat, x: nat, y: nat, v: u32)
    requires
        crate::cell_alive(v),
        3 <= x,
        x + 4 <= w,
        3 <= y,
        y + 4 <= h,
    ensures
        step_grid(blinker_vertical(w, h, x, y, v), w, h, GameRules { survival_min: 2u32, survival_max: 3u32, birth_count: 3u32 }, v)
            == blinker_horizontal(w, h, x, y, v),
        step_grid(blinker_horizontal(w, h, x, y, v), w, h, GameRules { survival_min: 2u32, survival_max: 3u32, birth_count: 3u32 }, v)
            == blinker_vertical(w, h, x, y, v),
{
    let rules = GameRules { survival_min: 2u32, survival_max: 3u32, birth_count: 3u32 };
    let vg = blinker_vertical(w, h, x, y, v);
    let hg = blinker_horizontal(w, h, x, y, v);
    let sv = step_grid(vg, w, h, rules, v);
    let sh = step_grid(hg, w, h, rules, v);
    assert forall|i: int| 0 <= i < sv.len() implies sv[i] == hg[i] by {
        lemma_coords_in_range(w as int, h as int, i);
        let a = i % (w as int);
        let b = i / (w as int);
        let am = wrap_dec(a as nat, w) as int;
        let ap = wrap_inc(a as nat, w) as int;
        let bm = wrap_dec(b as nat, h) as int;
        let bp = wrap_inc(b as nat, h) as int;
        lemma_blinker_cell(w, h, x, y, v, a, b);
        lemma_blinker_cell(w, h, x, y, v, am, bm);
        lemma_blinker_cell(w, h, x, y, v, a, bm);
        lemma_blinker_cell(w, h, x, y, v, ap, bm);
        lemma_blinker_cell(w, h, x, y, v, am, b);
        lemma_blinker_cell(w, h, x, y, v, ap, b);
        lemma_blinker_cell(w, h, x, y, v, am, bp);
        lemma_blinker_cell(w, h, x, y, v, a, bp);
        lemma_blinker_cell(w, h, x, y, v, ap, bp);
    }
    assert(sv =~= hg);
    assert forall|i: int| 0 <= i < sh.len() implies sh[i] == vg[i] by {
        lemma_coords_in_range(w as int, h as int, i);
        let a = i % (w as int);
        let b = i / (w as int);
        let am = wrap_dec(a as nat, w) as int;
        let ap = wrap_inc(a as nat, w) as int;
        let bm = wrap_dec(b as nat, h) as int;
        let bp = wrap_inc(b as nat, h) as int;
        lemma_blinker_cell(w, h, x, y, v, a, b);
        lemma_blinker_cell(w, h, x, y, v, am, bm);
        lemma_blinker_cell(w, h, x, y, v, a, bm);
        lemma_blinker_cell(w, h, x, y, v, ap, bm);
        lemma_blinker_cell(w, h, x, y, v, am, b);
        lemma_blinker_cell(w, h, x, y, v, ap, b);
        lemma_blinker_cell(w, h, x, y, v, am, bp);
        lemma_blinker_cell(w, h, x, y, v, a, bp);
        lemma_blinker_cell(w, h, x, y, v, ap, bp);
    }
    assert(sh =~= vg);
}

/// Whether `(a, b)` is one of the five cells of the canonical glider's
/// flight phase `k` (of four), anchored at `(x, y)`. Phase 0 is the glider
/// itself; phase 4 would be phase 0 anchored at `(x + 1, y + 1)`.
pub open spec fn glider_phase_cell(x: int, y: int, k: int, a: int, b: int) -> bool {
    if k == 0 {
        ||| (a == x && b == y + 1)
        ||| (a == x + 1 && b == y + 2)
        ||| (a == x + 2 && b == y)
        ||| (a == x + 2 && b == y + 1)
        ||| (a == x + 2 && b == y + 2)
    } else if k == 1 {
        ||| (a == x + 1 && b == y)
        ||| (a == x + 1 && b == y + 2)
        ||| (a == x + 2 && b == y + 1)
        ||| (a == x + 2 && b == y + 2)
        ||| (a == x + 3 && b == y + 1)
    } else if k == 2 {
        ||| (a == x + 1 && b == y + 2)
        ||| (a == x + 2 && b == y)
        ||| (a == x + 2 && b == y + 2)
        ||| (a == x + 3 && b == y + 1)
        ||| (a == x + 3 && b == y + 2)
    } else {
        ||| (a == x + 1 && b == y + 1)
        ||| (a == x + 2 && b == y + 2)
        ||| (a == x + 2 && b == y + 3)
        ||| (a == x + 3 && b == y + 1)
        ||| (a == x + 3 && b == y + 2)
    }
}

/// A grid that is dead except for flight phase `k` of a glider of color `v`.
pub open spec fn glider_grid(w: nat, h: nat, x: int, y: int, v: u32, k: int) -> Seq<u32> {
    Seq::new(
        w * h,
        |i: int|
            if glider_phase_cell(x, y, k, i % (w as int), i / (w as int)) {
                v
            } else {
                0u32
            },
    )
}

/// What a glider grid holds at given coordinates.
proof fn lemma_glider_cell(w: nat, h: nat, x: int, y: int, v: u32, k: int, a: int, b: int)
    requires
        1 <= w,
        1 <= h,
        0 <= a < w,
        0 <= b < h,
    ensures
        glider_grid(w, h, x, y, v, k)[b * w + a] == (if glider_phase_cell(x, y, k, a, b) {
            v
        } else {
            0u32
        }),
{
    lemma_row_major_index(w as int, h as int, a, b);
    lemma_fundamental_div_mod_converse(b * (w as int) + a, w as int, b, a);
}

/// One generation under the classic rules carries a glider from flight phase
/// `k` to phase `k + 1`, at every interior position and in every alive
/// color, provided the current paint value is that same color.
#[verifier::spinoff_prover]
#[verifier::rlimit(100)]
proof fn lemma_glider_step(w: nat, h: nat, x: int, y: int, v: u32, k: int)
    requires
        crate::cell_alive(v),
        0 <= k < 4,
        2 <= x,
        x + 6 <= w,
        2 <= y,
        y + 6 <= h,
    ensures
        step_grid(glider_grid(w, h, x, y, v, k), w, h, GameRules { survival_min: 2u32, survival_max: 3u32, birth_count: 3u32 }, v)
            == if k == 3 {
                glider_grid(w, h, x + 1, y + 1, v, 0)
            } else {
                glider_grid(w, h, x, y, v, k + 1)
            },
{
    let rules = GameRules { survival_min: 2u32, survival_max: 3u32, birth_count: 3u32 };
    let g = glider_grid(w, h, x, y, v, k);
    let sg = step_grid(g, w, h, rules, v);
    let next = if k == 3 {
        glider_grid(w, h, x + 1, y + 1, v, 0)
    } else {
        glider_grid(w, h, x, y, v, k + 1)
    };
    assert forall|i: int| 0 <= i < sg.len() implies sg[i] == next[i] by {
        lemma_coords_in_range(w as int, h as int, i);
        let a = i % (w as int);
        let b = i / (w as int);
        let am = wrap_dec(a as nat, w) as int;
        let ap = wrap_inc(a as nat, w) as int;
        let bm = wrap_dec(b as nat, h) as int;
        let bp = wrap_inc(b as nat, h) as int;
        lemma_glider_cell(w, h, x, y, v, k, a, b);
        lemma_glider_cell(w, h, x, y, v, k, am, bm);
        lemma_glider_cell(w, h, x, y, v, k, a, bm);
        lemma_glider_cell(w, h, x, y, v, k, ap, bm);
        lemma_glider_cell(w, h, x, y, v, k, am, b);
        lemma_glider_cell(w, h, x, y, v, k, ap, b);
        lemma_glider_cell(w, h, x, y, v, k, am, bp);
        lemma_glider_cell(w, h, x, y, v, k, a, bp);
        lemma_glider_cell(w, h, x, y, v, k, ap, bp);
        if k == 3 {
            lemma_glider_cell(w, h, x + 1, y + 1, v, 0, a, b);
        } else {
            lemma_glider_cell(w, h, x, y, v, k + 1, a, b);
        }
    }
    assert(sg =~= next);
}

/// The canonical glider, placed in open interior space under the classic
/// rules, reproduces its own shape translated by `(+1, +1)` after exactly
/// four generations — at every interior position and in every alive color,
/// provided the current paint value is that same color.
pub proof fn lemma_glider_translates(w: nat, h: nat, x: int, y: int, v: u32)
    requires
        crate::cell_alive(v),
        2 <= x,
        x + 6 <= w,
        2 <= y,
        y + 6 <= h,
    ensures
        run_steps(glider_grid(w, h, x, y, v, 0), w, h, GameRules { survival_min: 2u32, survival_max: 3u32, birth_count: 3u32 }, v, 4)
            == glider_grid(w, h, x + 1, y + 1, v, 0),
{
    let rules = GameRules { survival_min: 2u32, survival_max: 3u32, birth_count: 3u32 };
    let g0 = glider_grid(w, h, x, y, v, 0);
    lemma_glider_step(w, h, x, y, v, 0);
    lemma_glider_step(w, h, x, y, v, 1);
    lemma_glider_step(w, h, x, y, v, 2);
    lemma_glider_step(w, h, x, y, v, 3);
    assert(run_steps(g0, w, h, rules, v, 0) == g0);
    assert(run_steps(g0, w, h, rules, v, 1) == glider_grid(w, h, x, y, v, 1));
    assert(run_steps(g0, w, h, rules, v, 2) == glider_grid(w, h, x, y, v, 2));
    assert(run_steps(g0, w, h, rules, v, 3) == glider_grid(w, h, x, y, v, 3));
    assert(run_steps(g0, w, h, rules, v, 4) == glider_grid(w, h, x + 1, y + 1, v, 0));
}

impl Default for GameRules {
    /// The classic rules are the default.
    fn default() -> (r: Self)
        ensures
            r == (GameRules { survival_min: 2u32, survival_max: 3u32, birth_count: 3u32 }),
    {
        Self { survival_min: 2, survival_max: 3, birth_count: 3 }
    }
}

} // verus!
