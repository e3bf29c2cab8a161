//! The simulation core: grid store, rule engine and step scheduler, tied
//! together behind the plain operation surface the host loop consumes. It is
//! independent of any windowing context; pointer positions reach it already
//! converted to world (cell) coordinates.

use vstd::prelude::*;

verus! {

use crate::grid::{GridStore, seed_region, live_cells};
use crate::engine::{RuleEngine, CompileError};
use crate::rules::{GameRules, run_steps, lemma_coords_in_range};
use crate::scheduler::{StepScheduler, tick_steps, tick_rest, MAX_STEPS_PER_TICK,
    MIN_STEPS_PER_SECOND, MAX_STEPS_PER_SECOND};
use crate::interact::CellColor;
use crate::patterns::dead_region;

/// Largest world coordinate magnitude an edit operation accepts, in cells.
pub const WORLD_LIMIT: i64 = 1_000_000_000;

/// Largest brush or area radius an edit operation accepts, in cells.
pub const RADIUS_LIMIT: u32 = 10_000;

/// The default paint value: white.
pub const DEFAULT_PAINT_VALUE: u32 = 1;

/// The default brush radius, in cells.
pub const DEFAULT_BRUSH_RADIUS: u32 = 3;

/// The default simulation rate, in steps per second.
pub const DEFAULT_STEPS_PER_SECOND: u32 = 60;

/// The owned simulation state: double-buffered grid, rule engine, scheduler,
/// and the current edit settings.
pub struct SimulationCore {
    /// The double-buffered cell storage.
    pub grid: GridStore,
    /// The active rule program and its threshold parameters.
    pub engine: RuleEngine,
    /// Converts elapsed time into generations to run.
    pub scheduler: StepScheduler,
    /// The value newly painted or newly born cells take.
    pub paint_value: u32,
    /// The half-extent of the paint brush square, in cells.
    pub brush_radius: u32,
}

impl SimulationCore {
    /// The grid is well-formed and the scheduler rate in range.
    pub open spec fn wf(self) -> bool {
        &&& self.grid.wf()
        &&& self.scheduler.wf()
        &&& self.brush_radius <= RADIUS_LIMIT
    }

    /// A core over a freshly seeded grid, with the classic rules, an empty
    /// program slot, the default rate, paint color and brush.
    pub fn initialize(width: u32, height: u32) -> (r: Self)
        requires
            width >= 1,
            height >= 1,
            (width as nat) * (height as nat) <= usize::MAX,
        ensures
            r.wf(),
            r.grid.width == width,
            r.grid.height == height,
            r.grid.generation == 0,
            r.grid.input_region() == seed_region(width, height),
            r.grid.output_region() == dead_region((width as nat) * (height as nat)),
            r.engine.rules == (GameRules { survival_min: 2u32, survival_max: 3u32, birth_count: 3u32 }),
            r.engine.program.source@ == Seq::<char>::empty(),
            r.scheduler.steps_per_second == DEFAULT_STEPS_PER_SECOND,
            r.scheduler.accumulated_micros == 0,
            r.paint_value == DEFAULT_PAINT_VALUE,
            r.brush_radius == DEFAULT_BRUSH_RADIUS,
    {
        let grid = GridStore::initialize(width, height);
        let engine = RuleEngine::new(String::new(), GameRules::conway());
        let scheduler = StepScheduler::new(DEFAULT_STEPS_PER_SECOND);
        SimulationCore {
            grid,
            engine,
            scheduler,
            paint_value: DEFAULT_PAINT_VALUE,
            brush_radius: DEFAULT_BRUSH_RADIUS,
        }
    }

    /// A destructive reset: reallocate and reseed the grid at the new size
    /// and reset the generation counter. A zero dimension is rejected: the
    /// whole core keeps its prior state, nothing else changes either.
    pub fn resize(&mut self, width: u32, height: u32)
        requires
            old(self).wf(),
            (width as nat) * (height as nat) <= usize::MAX,
        ensures
            final(self).wf(),
            width == 0 || height == 0 ==> *final(self) == *old(self),
            width >= 1 && height >= 1 ==> {
                &&& final(self).grid.width == width
                &&& final(self).grid.height == height
                &&& final(self).grid.generation == 0
                &&& final(self).grid.input_region() == seed_region(width, height)
                &&& final(self).grid.output_region() == dead_region(
                    (width as nat) * (height as nat),
                )
                &&& final(self).engine == old(self).engine
                &&& final(self).scheduler == old(self).scheduler
                &&& final(self).paint_value == old(self).paint_value
                &&& final(self).brush_radius == old(self).brush_radius
            },
    {
        self.grid.resize(width, height);
    }

    /// Swap in a new rule program after its compilation outcome is known; on
    /// failure the active program is untouched and the diagnostic returned.
    pub fn load_rule_program(&mut self, source: String, compiled: bool, diagnostic: String) -> (r:
        Result<(), CompileError>)
        requires
            old(self).wf(),
        ensures
            final(self).wf(),
            final(self).grid == old(self).grid,
            final(self).scheduler == old(self).scheduler,
            compiled ==> {
                &&& r is Ok
                &&& final(self).engine.program.source@ == source@
                &&& final(self).engine.rules == old(self).engine.rules
            },
            !compiled ==> {
                &&& *final(self) == *old(self)
                &&& r matches Err(e) && e.message@ == diagnostic@
            },
    {
        self.engine.load_program(source, compiled, diagnostic)
    }

    /// Update the survival/birth thresholds used by the active program.
    pub fn set_rule_parameters(&mut self, rules: GameRules)
        requires
            old(self).wf(),
        ensures
            final(self).wf(),
            final(self).engine.rules == rules,
            final(self).engine.program.source@ == old(self).engine.program.source@,
            final(self).grid == old(self).grid,
            final(self).scheduler == old(self).scheduler,
            final(self).paint_value == old(self).paint_value,
            final(self).brush_radius == old(self).brush_radius,
    {
        self.engine.set_parameters(rules);
    }

    /// Change the target simulation rate.
    pub fn set_steps_per_second(&mut self, steps_per_second: u32)
        requires
            old(self).wf(),
            MIN_STEPS_PER_SECOND <= steps_per_second <= MAX_STEPS_PER_SECOND,
        ensures
            final(self).wf(),
            final(self).scheduler.steps_per_second == steps_per_second,
            final(self).scheduler.accumulated_micros == old(self).scheduler.accumulated_micros,
            final(self).grid == old(self).grid,
            final(self).engine == old(self).engine,
    {
        self.scheduler.set_rate(steps_per_second);
    }

    /// Choose the color newly placed cells take.
    pub fn set_paint_color(&mut self, color: CellColor)
        requires
            old(self).wf(),
        ensures
            final(self).wf(),
            final(self).paint_value == color.value_spec(),
            final(self).grid == old(self).grid,
            final(self).engine == old(self).engine,
            final(self).scheduler == old(self).scheduler,
            final(self).brush_radius == old(self).brush_radius,
    {
        self.paint_value = color.to_value();
    }

    /// Choose the brush half-extent.
    pub fn set_brush_radius(&mut self, radius: u32)
        requires
            old(self).wf(),
            radius <= RADIUS_LIMIT,
        ensures
            final(self).wf(),
            final(self).brush_radius == radius,
            final(self).grid == old(self).grid,
            final(self).engine == old(self).engine,
            final(self).scheduler == old(self).scheduler,
            final(self).paint_value == old(self).paint_value,
    {
        self.brush_radius = radius;
    }

    /// Absorb elapsed wall-clock time and run the generations now due, in
    /// strict order (each step's output is the next step's input), at most
    /// `MAX_STEPS_PER_TICK` of them. Returns how many ran.
    pub fn tick(&mut self, elapsed_micros: u64) -> (steps: u32)
        requires
            old(self).wf(),
            old(self).scheduler.accumulated_micros + elapsed_micros <= u64::MAX,
            old(self).grid.generation + MAX_STEPS_PER_TICK <= u64::MAX,
        ensures
            final(self).wf(),
            steps == tick_steps(
                old(self).scheduler.accumulated_micros as int,
                elapsed_micros as int,
                old(self).scheduler.interval_micros(),
            ),
            final(self).scheduler.accumulated_micros == tick_rest(
                old(self).scheduler.accumulated_micros as int,
                elapsed_micros as int,
                old(self).scheduler.interval_micros(),
            ),
            final(self).scheduler.steps_per_second == old(self).scheduler.steps_per_second,
            steps <= MAX_STEPS_PER_TICK,
            final(self).grid.generation == old(self).grid.generation + steps,
            final(self).grid.width == old(self).grid.width,
            final(self).grid.height == old(self).grid.height,
            final(self).grid.input_region() == run_steps(
                old(self).grid.input_region(),
                old(self).grid.width as nat,
                old(self).grid.height as nat,
                old(self).engine.rules,
                old(self).paint_value,
                steps as nat,
            ),
            final(self).engine == old(self).engine,
            final(self).paint_value == old(self).paint_value,
            final(self).brush_radius == old(self).brush_radius,
    {
        let steps = self.scheduler.tick(elapsed_micros);
        let ghost sched = self.scheduler;
        let ghost g0 = self.grid.input_region();
        let ghost w = self.grid.width as nat;
        let ghost h = self.grid.height as nat;
        let mut k: u32 = 0;
        while k < steps
            invariant
                k <= steps,
                steps <= MAX_STEPS_PER_TICK,
                self.grid.wf(),
                self.grid.width as nat == w,
                self.grid.height as nat == h,
                old(self).grid.generation + MAX_STEPS_PER_TICK <= u64::MAX,
                self.grid.generation == old(self).grid.generation + k,
                self.grid.input_region() == run_steps(
                    g0,
                    w,
                    h,
                    self.engine.rules,
                    self.paint_value,
                    k as nat,
                ),
                self.engine == old(self).engine,
                self.paint_value == old(self).paint_value,
                self.brush_radius == old(self).brush_radius,
                self.scheduler == sched,
            decreases steps - k,
        {
            self.engine.apply(&mut self.grid, self.paint_value);
            k = k + 1;
        }
        steps
    }

    /// How many cells of the most recently completed generation are alive;
    /// models the one blocking readback, so callers must throttle it.
    pub fn read_live_count(&self) -> (count: usize)
        ensures
            count == live_cells(self.grid.output_region()),
    {
        self.grid.read_live_count()
    }
}

/// Within the square brush box of half-extent `r` around `(gx, gy)`.
pub open spec fn in_box(x: int, y: int, gx: int, gy: int, r: int) -> bool {
    gx - r <= x <= gx + r && gy - r <= y <= gy + r
}

/// Within the circular area of radius `r` around `(gx, gy)`.
pub open spec fn in_disc(x: int, y: int, gx: int, gy: int, r: int) -> bool {
    (x - gx) * (x - gx) + (y - gy) * (y - gy) <= r * r
}

/// Whether the deterministic fill hash selects cell `(x, y)`: a wrapping
/// 32-bit mix of the coordinates and the seed, taken per mille against the
/// density.
pub open spec fn fill_hash_hits(x: int, y: int, seed: u32, density_permille: u32) -> bool {
    ((x * 17 + y * 31 + (seed as int) * 43) % 0x1_0000_0000) % 1000 < density_permille
}

/// Every cell of the region whose coordinates the mask selects replaced by
/// `v`; all others kept.
pub open spec fn masked_region(g: Seq<u32>, w: nat, mask: spec_fn(int, int) -> bool, v: u32) -> Seq<u32> {
    Seq::new(g.len(), |i: int| if mask(i % (w as int), i / (w as int)) { v } else { g[i] })
}

/// The masked write carried out in row-major order up to (but excluding)
/// column `col_lim` of row `row_lim`.
spec fn masked_region_upto(
    g: Seq<u32>,
    w: nat,
    mask: spec_fn(int, int) -> bool,
    v: u32,
    row_lim: int,
    col_lim: int,
) -> Seq<u32> {
    Seq::new(
        g.len(),
        |i: int|
            if mask(i % (w as int), i / (w as int)) && (i / (w as int) < row_lim || (i / (
            w as int) == row_lim && i % (w as int) < col_lim)) {
                v
            } else {
                g[i]
            },
    )
}

/// Before the first masked row begins, nothing is written yet.
proof fn lemma_upto_start(
    g: Seq<u32>,
    w: nat,
    mask: spec_fn(int, int) -> bool,
    v: u32,
    row_lim: int,
    col_lim: int,
)
    requires
        w >= 1,
        forall|x: int, y: int| #[trigger] mask(x, y) ==> y > row_lim || (y == row_lim && x
            >= col_lim),
    ensures
        masked_region_upto(g, w, mask, v, row_lim, col_lim) == g,
{
    let u = masked_region_upto(g, w, mask, v, row_lim, col_lim);
    assert forall|i: int| 0 <= i < g.len() implies u[i] == g[i] by {
        vstd::arithmetic::div_mod::lemma_mod_bound(i, w as int);
        vstd::arithmetic::div_mod::lemma_div_pos_is_pos(i, w as int);
    }
    assert(u =~= g);
}

/// After the last masked row ends, the write is complete.
proof fn lemma_upto_full(
    g: Seq<u32>,
    w: nat,
    mask: spec_fn(int, int) -> bool,
    v: u32,
    row_lim: int,
    col_lim: int,
)
    requires
        w >= 1,
        forall|x: int, y: int| #[trigger] mask(x, y) ==> y < row_lim || (y == row_lim && x
            < col_lim),
    ensures
        masked_region_upto(g, w, mask, v, row_lim, col_lim) == masked_region(g, w, mask, v),
{
    assert(masked_region_upto(g, w, mask, v, row_lim, col_lim) =~= masked_region(g, w, mask, v));
}

/// Finishing one row and starting past the mask's left edge of the next
/// describe the same partial write.
proof fn lemma_upto_row_step(
    g: Seq<u32>,
    w: nat,
    mask: spec_fn(int, int) -> bool,
    v: u32,
    row: int,
    col_min: int,
    col_max: int,
)
    requires
        w >= 1,
        forall|x: int, y: int| #[trigger] mask(x, y) ==> col_min <= x <= col_max,
    ensures
        masked_region_upto(g, w, mask, v, row, col_max + 1) == masked_region_upto(
            g,
            w,
            mask,
            v,
            row + 1,
            col_min,
        ),
{
    assert(masked_region_upto(g, w, mask, v, row, col_max + 1) =~= masked_region_upto(
        g,
        w,
        mask,
        v,
        row + 1,
        col_min,
    ));
}

/// Writing one masked, in-range cell advances the partial write by one
/// column.
proof fn lemma_upto_write(
    g: Seq<u32>,
    w: nat,
    h: nat,
    mask: spec_fn(int, int) -> bool,
    v: u32,
    row: int,
    col: int,
)
    requires
        w >= 1,
        h >= 1,
        g.len() == w * h,
        0 <= col < w,
        0 <= row < h,
        mask(col, row),
    ensures
        masked_region_upto(g, w, mask, v, row, col + 1) == masked_region_upto(
            g,
            w,
            mask,
            v,
            row,
            col,
        ).update(row * w + col, v),
{
    let lhs = masked_region_upto(g, w, mask, v, row, col + 1);
    let rhs = masked_region_upto(g, w, mask, v, row, col).update(row * w + col, v);
    crate::rules::lemma_row_major_index(w as int, h as int, col, row);
    assert forall|i: int| 0 <= i < g.len() implies lhs[i] == rhs[i] by {
        lemma_coords_in_range(w as int, h as int, i);
        if i == row * w + col {
            vstd::arithmetic::div_mod::lemma_fundamental_div_mod_converse(i, w as int, row, col);
        }
    }
    assert(lhs =~= rhs);
}

/// Passing a column that is off the grid or unmasked changes nothing.
proof fn lemma_upto_skip(
    g: Seq<u32>,
    w: nat,
    h: nat,
    mask: spec_fn(int, int) -> bool,
    v: u32,
    row: int,
    col: int,
)
    requires
        w >= 1,
        h >= 1,
        g.len() == w * h,
        col < 0 || col >= w || row < 0 || row >= h || !mask(col, row),
    ensures
        masked_region_upto(g, w, mask, v, row, col + 1) == masked_region_upto(
            g,
            w,
            mask,
            v,
            row,
            col,
        ),
{
    let lhs = masked_region_upto(g, w, mask, v, row, col + 1);
    let rhs = masked_region_upto(g, w, mask, v, row, col);
    assert forall|i: int| 0 <= i < g.len() implies lhs[i] == rhs[i] by {
        lemma_coords_in_range(w as int, h as int, i);
        if i % (w as int) == col && i / (w as int) == row {
            assert(!mask(col, row));
        }
    }
    assert(lhs =~= rhs);
}

/// The region after a square brush stroke: every cell of the box of
/// half-extent `r` around `(gx, gy)` takes the paint value `v`.
pub open spec fn painted_region(g: Seq<u32>, w: nat, gx: int, gy: int, r: int, v: u32) -> Seq<
    u32,
> {
    masked_region(g, w, (|x: int, y: int| in_box(x, y, gx, gy, r)), v)
}

/// The region after a circular clear: every cell within distance `r` of
/// `(gx, gy)` becomes dead.
pub open spec fn cleared_region(g: Seq<u32>, w: nat, gx: int, gy: int, r: int) -> Seq<u32> {
    masked_region(g, w, (|x: int, y: int| in_disc(x, y, gx, gy, r)), 0u32)
}

/// The region after a random fill: every cell within distance `r` of
/// `(gx, gy)` that the deterministic hash selects takes the paint value `v`.
pub open spec fn filled_region(
    g: Seq<u32>,
    w: nat,
    gx: int,
    gy: int,
    r: int,
    v: u32,
    seed: u32,
    density_permille: u32,
) -> Seq<u32> {
    masked_region(
        g,
        w,
        (|x: int, y: int| in_disc(x, y, gx, gy, r) && fill_hash_hits(x, y, seed, density_permille)),
        v,
    )
}

/// A point of the disc lies within the bounding box of the disc.
proof fn lemma_disc_bounds(x: int, y: int, gx: int, gy: int, r: int)
    by (nonlinear_arith)
    requires
        r >= 0,
        (x - gx) * (x - gx) + (y - gy) * (y - gy) <= r * r,
    ensures
        gx - r <= x <= gx + r,
        gy - r <= y <= gy + r,
{
}

impl SimulationCore {
    /// Paint a square brush of side `2 * brush_radius + 1` around the given
    /// world cell with the current paint value, into the region the next
    /// rule application consumes. A center outside the grid is ignored, and
    /// so is every brush cell that falls off the grid.
    pub fn paint_cell(&mut self, gx: i64, gy: i64)
        requires
            old(self).wf(),
            -WORLD_LIMIT <= gx <= WORLD_LIMIT,
            -WORLD_LIMIT <= gy <= WORLD_LIMIT,
        ensures
            final(self).wf(),
            !(0 <= gx < old(self).grid.width && 0 <= gy < old(self).grid.height) ==> *final(self)
                == *old(self),
            0 <= gx < old(self).grid.width && 0 <= gy < old(self).grid.height ==> {
                &&& final(self).grid.input_region() == painted_region(
                    old(self).grid.input_region(),
                    old(self).grid.width as nat,
                    gx as int,
                    gy as int,
                    old(self).brush_radius as int,
                    old(self).paint_value,
                )
                &&& final(self).grid.width == old(self).grid.width
                &&& final(self).grid.height == old(self).grid.height
                &&& final(self).grid.generation == old(self).grid.generation
                &&& final(self).grid.output_region() == old(self).grid.output_region()
                &&& final(self).engine == old(self).engine
                &&& final(self).scheduler == old(self).scheduler
                &&& final(self).paint_value == old(self).paint_value
                &&& final(self).brush_radius == old(self).brush_radius
            },
    {
        if gx < 0 || gy < 0 || gx >= self.grid.width as i64 || gy >= self.grid.height as i64 {
            return ;
        }
        let r = self.brush_radius as i64;
        let v = self.paint_value;
        let width = self.grid.width;
        let height = self.grid.height;
        let ghost mask = (|x: int, y: int| in_box(x, y, gx as int, gy as int, r as int));
        let ghost g0 = self.grid.input_region();
        let ghost w = self.grid.width as nat;
        let ghost h = self.grid.height as nat;
        proof {
            lemma_upto_start(g0, w, mask, v, gy - r, gx - r);
        }
        let mut cy: i64 = gy - r;
        while cy <= gy + r
            invariant
                gy - r <= cy <= gy + r + 1,
                -WORLD_LIMIT <= gx <= WORLD_LIMIT,
                -WORLD_LIMIT <= gy <= WORLD_LIMIT,
                0 <= r <= RADIUS_LIMIT,
                mask == (|x: int, y: int| in_box(x, y, gx as int, gy as int, r as int)),
                self.grid.wf(),
                self.grid.width == width,
                self.grid.height == height,
                w == width as nat,
                h == height as nat,
                g0.len() == w * h,
                self.grid.generation == old(self).grid.generation,
                self.grid.output_region() == old(self).grid.output_region(),
                self.grid.input_region() == masked_region_upto(g0, w, mask, v, cy as int, gx - r),
                self.engine == old(self).engine,
                self.scheduler == old(self).scheduler,
                self.paint_value == old(self).paint_value,
                self.brush_radius == old(self).brush_radius,
            decreases gy + r + 1 - cy,
        {
            let mut cx: i64 = gx - r;
            while cx <= gx + r
                invariant
                    gx - r <= cx <= gx + r + 1,
                    gy - r <= cy <= gy + r,
                    -WORLD_LIMIT <= gx <= WORLD_LIMIT,
                    -WORLD_LIMIT <= gy <= WORLD_LIMIT,
                    0 <= r <= RADIUS_LIMIT,
                    mask == (|x: int, y: int| in_box(x, y, gx as int, gy as int, r as int)),
                    self.grid.wf(),
                    self.grid.width == width,
                    self.grid.height == height,
                    w == width as nat,
                    h == height as nat,
                    g0.len() == w * h,
                    self.grid.generation == old(self).grid.generation,
                    self.grid.output_region() == old(self).grid.output_region(),
                    self.grid.input_region() == masked_region_upto(
                        g0,
                        w,
                        mask,
                        v,
                        cy as int,
                        cx as int,
                    ),
                    self.engine == old(self).engine,
                    self.scheduler == old(self).scheduler,
                    self.paint_value == old(self).paint_value,
                    self.brush_radius == old(self).brush_radius,
                decreases gx + r + 1 - cx,
            {
                if cx >= 0 && cy >= 0 && cx < width as i64 && cy < height as i64 {
                    self.grid.write_cell(cx as u32, cy as u32, v);
                    proof {
                        lemma_upto_write(g0, w, h, mask, v, cy as int, cx as int);
                    }
                } else {
                    proof {
                        lemma_upto_skip(g0, w, h, mask, v, cy as int, cx as int);
                    }
                }
                cx = cx + 1;
            }
            proof {
                lemma_upto_row_step(g0, w, mask, v, cy as int, gx - r, gx + r);
            }
            cy = cy + 1;
        }
        proof {
            lemma_upto_full(g0, w, mask, v, gy + r + 1, gx - r);
        }
    }

    /// Clear (make dead) every cell within `radius` of the given world cell,
    /// compared as squared distance, in the region the next rule application
    /// consumes. Cells off the grid are silently ignored.
    pub fn clear_area(&mut self, gx: i64, gy: i64, radius: u32)
        requires
            old(self).wf(),
            -WORLD_LIMIT <= gx <= WORLD_LIMIT,
            -WORLD_LIMIT <= gy <= WORLD_LIMIT,
            radius <= RADIUS_LIMIT,
        ensures
            final(self).wf(),
            final(self).grid.input_region() == cleared_region(
                old(self).grid.input_region(),
                old(self).grid.width as nat,
                gx as int,
                gy as int,
                radius as int,
            ),
            final(self).grid.width == old(self).grid.width,
            final(self).grid.height == old(self).grid.height,
            final(self).grid.generation == old(self).grid.generation,
            final(self).grid.output_region() == old(self).grid.output_region(),
            final(self).engine == old(self).engine,
            final(self).scheduler == old(self).scheduler,
            final(self).paint_value == old(self).paint_value,
            final(self).brush_radius == old(self).brush_radius,
    {
        let r = radius as i64;
        let width = self.grid.width;
        let height = self.grid.height;
        let ghost mask = (|x: int, y: int| in_disc(x, y, gx as int, gy as int, r as int));
        let ghost g0 = self.grid.input_region();
        let ghost w = self.grid.width as nat;
        let ghost h = self.grid.height as nat;
        proof {
            assert forall|x: int, y: int| #[trigger] mask(x, y) implies y > gy - r || (y == gy - r
                && x >= gx - r) by {
                lemma_disc_bounds(x, y, gx as int, gy as int, r as int);
            }
            lemma_upto_start(g0, w, mask, 0u32, gy - r, gx - r);
        }
        let mut cy: i64 = gy - r;
        while cy <= gy + r
            invariant
                gy - r <= cy <= gy + r + 1,
                -WORLD_LIMIT <= gx <= WORLD_LIMIT,
                -WORLD_LIMIT <= gy <= WORLD_LIMIT,
                0 <= r <= RADIUS_LIMIT,
                mask == (|x: int, y: int| in_disc(x, y, gx as int, gy as int, r as int)),
                self.grid.wf(),
                self.grid.width == width,
                self.grid.height == height,
                w == width as nat,
                h == height as nat,
                g0.len() == w * h,
                self.grid.generation == old(self).grid.generation,
                self.grid.output_region() == old(self).grid.output_region(),
                self.grid.input_region() == masked_region_upto(
                    g0,
                    w,
                    mask,
                    0u32,
                    cy as int,
                    gx - r,
                ),
                self.engine == old(self).engine,
                self.scheduler == old(self).scheduler,
                self.paint_value == old(self).paint_value,
                self.brush_radius == old(self).brush_radius,
            decreases gy + r + 1 - cy,
        {
            let mut cx: i64 = gx - r;
            while cx <= gx + r
                invariant
                    gx - r <= cx <= gx + r + 1,
                    gy - r <= cy <= gy + r,
                    -WORLD_LIMIT <= gx <= WORLD_LIMIT,
                    -WORLD_LIMIT <= gy <= WORLD_LIMIT,
                    0 <= r <= RADIUS_LIMIT,
                    mask == (|x: int, y: int| in_disc(x, y, gx as int, gy as int, r as int)),
                    self.grid.wf(),
                    self.grid.width == width,
                    self.grid.height == height,
                    w == width as nat,
                    h == height as nat,
                    g0.len() == w * h,
                    self.grid.generation == old(self).grid.generation,
                    self.grid.output_region() == old(self).grid.output_region(),
                    self.grid.input_region() == masked_region_upto(
                        g0,
                        w,
                        mask,
                        0u32,
                        cy as int,
                        cx as int,
                    ),
                    self.engine == old(self).engine,
                    self.scheduler == old(self).scheduler,
                    self.paint_value == old(self).paint_value,
                    self.brush_radius == old(self).brush_radius,
                decreases gx + r + 1 - cx,
            {
                let dx = cx - gx;
                let dy = cy - gy;
                proof {
                    assert(0 <= dx * dx <= 100_000_000 && 0 <= dy * dy <= 100_000_000 && 0 <= r
                        * r <= 100_000_000) by (nonlinear_arith)
                        requires
                            -10_000 <= dx <= 10_000,
                            -10_000 <= dy <= 10_000,
                            0 <= r <= 10_000,
                    ;
                }
                let hit = dx * dx + dy * dy <= r * r;
                if hit && cx >= 0 && cy >= 0 && cx < width as i64 && cy < height as i64 {
                    self.grid.write_cell(cx as u32, cy as u32, 0);
                    proof {
                        lemma_upto_write(g0, w, h, mask, 0u32, cy as int, cx as int);
                    }
                } else {
                    proof {
                        lemma_upto_skip(g0, w, h, mask, 0u32, cy as int, cx as int);
                    }
                }
                cx = cx + 1;
            }
            proof {
                assert forall|x: int, y: int| #[trigger] mask(x, y) implies gx - r <= x <= gx
                    + r by {
                    lemma_disc_bounds(x, y, gx as int, gy as int, r as int);
                }
                lemma_upto_row_step(g0, w, mask, 0u32, cy as int, gx - r, gx + r);
            }
            cy = cy + 1;
        }
        proof {
            assert forall|x: int, y: int| #[trigger] mask(x, y) implies y < gy + r + 1 || (y == gy
                + r + 1 && x < gx - r) by {
                lemma_disc_bounds(x, y, gx as int, gy as int, r as int);
            }
            lemma_upto_full(g0, w, mask, 0u32, gy + r + 1, gx - r);
        }
    }

    /// Fill cells within `radius` of the given world cell with the current
    /// paint value, selecting cells by a deterministic coordinate-and-seed
    /// hash against the density (in thousandths). Cells off the grid are
    /// silently ignored.
    pub fn random_fill(&mut self, gx: i64, gy: i64, radius: u32, density_permille: u32, seed: u32)
        requires
            old(self).wf(),
            -WORLD_LIMIT <= gx <= WORLD_LIMIT,
            -WORLD_LIMIT <= gy <= WORLD_LIMIT,
            radius <= RADIUS_LIMIT,
        ensures
            final(self).wf(),
            final(self).grid.input_region() == filled_region(
                old(self).grid.input_region(),
                old(self).grid.width as nat,
                gx as int,
                gy as int,
                radius as int,
                old(self).paint_value,
                seed,
                density_permille,
            ),
            final(self).grid.width == old(self).grid.width,
            final(self).grid.height == old(self).grid.height,
            final(self).grid.generation == old(self).grid.generation,
            final(self).grid.output_region() == old(self).grid.output_region(),
            final(self).engine == old(self).engine,
            final(self).scheduler == old(self).scheduler,
            final(self).paint_value == old(self).paint_value,
            final(self).brush_radius == old(self).brush_radius,
    {
        let r = radius as i64;
        let v = self.paint_value;
        let width = self.grid.width;
        let height = self.grid.height;
        let ghost mask = (|x: int, y: int|
            in_disc(x, y, gx as int, gy as int, r as int) && fill_hash_hits(
                x,
                y,
                seed,
                density_permille,
            ));
        let ghost g0 = self.grid.input_region();
        let ghost w = self.grid.width as nat;
        let ghost h = self.grid.height as nat;
        proof {
            assert forall|x: int, y: int| #[trigger] mask(x, y) implies y > gy - r || (y == gy - r
                && x >= gx - r) by {
                lemma_disc_bounds(x, y, gx as int, gy as int, r as int);
            }
            lemma_upto_start(g0, w, mask, v, gy - r, gx - r);
        }
        let mut cy: i64 = gy - r;
        while cy <= gy + r
            invariant
                gy - r <= cy <= gy + r + 1,
                -WORLD_LIMIT <= gx <= WORLD_LIMIT,
                -WORLD_LIMIT <= gy <= WORLD_LIMIT,
                0 <= r <= RADIUS_LIMIT,
                mask == (|x: int, y: int|
                    in_disc(x, y, gx as int, gy as int, r as int) && fill_hash_hits(
                        x,
                        y,
                        seed,
                        density_permille,
                    )),
                self.grid.wf(),
                self.grid.width == width,
                self.grid.height == height,
                w == width as nat,
                h == height as nat,
                g0.len() == w * h,
                self.grid.generation == old(self).grid.generation,
                self.grid.output_region() == old(self).grid.output_region(),
                self.grid.input_region() == masked_region_upto(g0, w, mask, v, cy as int, gx - r),
                self.engine == old(self).engine,
                self.scheduler == old(self).scheduler,
                self.paint_value == old(self).paint_value,
                self.brush_radius == old(self).brush_radius,
            decreases gy + r + 1 - cy,
        {
            let mut cx: i64 = gx - r;
            while cx <= gx + r
                invariant
                    gx - r <= cx <= gx + r + 1,
                    gy - r <= cy <= gy + r,
                    -WORLD_LIMIT <= gx <= WORLD_LIMIT,
                    -WORLD_LIMIT <= gy <= WORLD_LIMIT,
                    0 <= r <= RADIUS_LIMIT,
                    mask == (|x: int, y: int|
                        in_disc(x, y, gx as int, gy as int, r as int) && fill_hash_hits(
                            x,
                            y,
                            seed,
                            density_permille,
                        )),
                    self.grid.wf(),
                    self.grid.width == width,
                    self.grid.height == height,
                    w == width as nat,
                    h == height as nat,
                    g0.len() == w * h,
                    self.grid.generation == old(self).grid.generation,
                    self.grid.output_region() == old(self).grid.output_region(),
                    self.grid.input_region() == masked_region_upto(
                        g0,
                        w,
                        mask,
                        v,
                        cy as int,
                        cx as int,
                    ),
                    self.engine == old(self).engine,
                    self.scheduler == old(self).scheduler,
                    self.paint_value == old(self).paint_value,
                    self.brush_radius == old(self).brush_radius,
                decreases gx + r + 1 - cx,
            {
                if cx >= 0 && cy >= 0 && cx < width as i64 && cy < height as i64 {
                    let dx = cx - gx;
                    let dy = cy - gy;
                    proof {
                        assert(0 <= dx * dx <= 100_000_000 && 0 <= dy * dy <= 100_000_000 && 0
                            <= r * r <= 100_000_000) by (nonlinear_arith)
                            requires
                                -10_000 <= dx <= 10_000,
                                -10_000 <= dy <= 10_000,
                                0 <= r <= 10_000,
                        ;
                    }
                    if dx * dx + dy * dy <= r * r {
                        let mix = (cx as u64) * 17 + (cy as u64) * 31 + (seed as u64) * 43;
                        if (mix % 0x1_0000_0000) % 1000 < density_permille as u64 {
                            self.grid.write_cell(cx as u32, cy as u32, v);
                            proof {
                                lemma_upto_write(g0, w, h, mask, v, cy as int, cx as int);
                            }
                        } else {
                            proof {
                                lemma_upto_skip(g0, w, h, mask, v, cy as int, cx as int);
                            }
                        }
                    } else {
                        proof {
                            lemma_upto_skip(g0, w, h, mask, v, cy as int, cx as int);
                        }
                    }
                } else {
                    proof {
                        lemma_upto_skip(g0, w, h, mask, v, cy as int, cx as int);
                    }
                }
                cx = cx + 1;
            }
            proof {
                assert forall|x: int, y: int| #[trigger] mask(x, y) implies gx - r <= x <= gx
                    + r by {
                    lemma_disc_bounds(x, y, gx as int, gy as int, r as int);
                }
                lemma_upto_row_step(g0, w, mask, v, cy as int, gx - r, gx + r);
            }
            cy = cy + 1;
        }
        proof {
            assert forall|x: int, y: int| #[trigger] mask(x, y) implies y < gy + r + 1 || (y == gy
                + r + 1 && x < gx - r) by {
                lemma_disc_bounds(x, y, gx as int, gy as int, r as int);
            }
            lemma_upto_full(g0, w, mask, v, gy + r + 1, gx - r);
        }
    }
}

} // verus!
