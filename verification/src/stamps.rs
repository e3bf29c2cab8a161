//! Stamp placement of larger structures at a world position: each writes
//! its cells (with the current paint value) into the region the next rule
//! application consumes, silently skipping cells that fall off the grid.

use vstd::prelude::*;

verus! {

use crate::sim::{SimulationCore, WORLD_LIMIT};
use crate::interact::CursorMode;

/// One stamp cell written into a region: the anchored coordinate becomes the
/// paint value if it lies on the grid, else it is silently ignored.
pub open spec fn stamp_one(g: Seq<u32>, w: nat, h: nat, gx: int, gy: int, c: (i64, i64), v: u32) -> Seq<u32> {
    let x = gx + c.0;
    let y = gy + c.1;
    if 0 <= x < w && 0 <= y < h {
        g.update(y * w + x, v)
    } else {
        g
    }
}

/// All cells of a stamp written in listing order.
pub open spec fn stamp_cells(
    g: Seq<u32>,
    w: nat,
    h: nat,
    gx: int,
    gy: int,
    cs: Seq<(i64, i64)>,
    v: u32,
) -> Seq<u32>
    decreases cs.len(),
{
    if cs.len() == 0 {
        g
    } else {
        stamp_one(stamp_cells(g, w, h, gx, gy, cs.drop_last(), v), w, h, gx, gy, cs.last(), v)
    }
}

/// The glider pattern cells, relative to the anchor.
pub open spec fn glider_offsets() -> Seq<(i64, i64)> {
    seq![
        (0i64, 1i64),
        (1i64, 2i64),
        (2i64, 0i64),
        (2i64, 1i64),
        (2i64, 2i64),
    ]
}

/// The lightweight spaceship pattern cells, relative to the anchor.
pub open spec fn lwss_offsets() -> Seq<(i64, i64)> {
    seq![
        (0i64, 1i64),
        (0i64, 3i64),
        (1i64, 0i64),
        (2i64, 0i64),
        (3i64, 0i64),
        (3i64, 3i64),
        (4i64, 0i64),
        (4i64, 1i64),
        (4i64, 2i64),
    ]
}

/// The pulsar pattern cells, relative to the anchor.
pub open spec fn pulsar_offsets() -> Seq<(i64, i64)> {
    seq![
        (2i64, 0i64),
        (3i64, 0i64),
        (4i64, 0i64),
        (8i64, 0i64),
        (9i64, 0i64),
        (10i64, 0i64),
        (2i64, 5i64),
        (3i64, 5i64),
        (4i64, 5i64),
        (8i64, 5i64),
        (9i64, 5i64),
        (10i64, 5i64),
        (2i64, 7i64),
        (3i64, 7i64),
        (4i64, 7i64),
        (8i64, 7i64),
        (9i64, 7i64),
        (10i64, 7i64),
        (2i64, 12i64),
        (3i64, 12i64),
        (4i64, 12i64),
        (8i64, 12i64),
        (9i64, 12i64),
        (10i64, 12i64),
        (0i64, 2i64),
        (0i64, 3i64),
        (0i64, 4i64),
        (0i64, 8i64),
        (0i64, 9i64),
        (0i64, 10i64),
        (5i64, 2i64),
        (5i64, 3i64),
        (5i64, 4i64),
        (5i64, 8i64),
        (5i64, 9i64),
        (5i64, 10i64),
        (7i64, 2i64),
        (7i64, 3i64),
        (7i64, 4i64),
        (7i64, 8i64),
        (7i64, 9i64),
        (7i64, 10i64),
        (12i64, 2i64),
        (12i64, 3i64),
        (12i64, 4i64),
        (12i64, 8i64),
        (12i64, 9i64),
        (12i64, 10i64),
    ]
}

/// The Gosper glider gun pattern cells, relative to the anchor.
pub open spec fn gosper_gun_offsets() -> Seq<(i64, i64)> {
    seq![
        (1i64, 5i64),
        (1i64, 6i64),
        (2i64, 5i64),
        (2i64, 6i64),
        (11i64, 5i64),
        (11i64, 6i64),
        (11i64, 7i64),
        (12i64, 4i64),
        (12i64, 8i64),
        (13i64, 3i64),
        (13i64, 9i64),
        (14i64, 3i64),
        (14i64, 9i64),
        (15i64, 6i64),
        (16i64, 4i64),
        (16i64, 8i64),
        (17i64, 5i64),
        (17i64, 6i64),
        (17i64, 7i64),
        (18i64, 6i64),
        (21i64, 3i64),
        (21i64, 4i64),
        (21i64, 5i64),
        (22i64, 3i64),
        (22i64, 4i64),
        (22i64, 5i64),
        (23i64, 2i64),
        (23i64, 6i64),
        (25i64, 1i64),
        (25i64, 2i64),
        (25i64, 6i64),
        (25i64, 7i64),
        (35i64, 3i64),
        (35i64, 4i64),
        (36i64, 3i64),
        (36i64, 4i64),
    ]
}

/// The pentadecathlon pattern cells, relative to the anchor.
pub open spec fn pentadecathlon_offsets() -> Seq<(i64, i64)> {
    seq![
        (1i64, 0i64),
        (2i64, 0i64),
        (3i64, -1i64),
        (3i64, 1i64),
        (4i64, 0i64),
        (5i64, 0i64),
        (6i64, 0i64),
        (7i64, 0i64),
        (8i64, -1i64),
        (8i64, 1i64),
        (9i64, 0i64),
        (10i64, 0i64),
    ]
}

/// The Simkin glider gun pattern cells, relative to the anchor.
pub open spec fn simkin_gun_offsets() -> Seq<(i64, i64)> {
    seq![
        (0i64, 0i64),
        (0i64, 1i64),
        (1i64, 0i64),
        (1i64, 1i64),
        (4i64, 0i64),
        (4i64, 1i64),
        (5i64, 0i64),
        (5i64, 1i64),
        (10i64, 2i64),
        (10i64, 3i64),
        (11i64, 2i64),
        (11i64, 3i64),
        (12i64, 0i64),
        (13i64, 0i64),
        (12i64, 1i64),
        (13i64, 1i64),
        (14i64, 10i64),
        (14i64, 11i64),
        (15i64, 10i64),
        (15i64, 11i64),
        (16i64, 8i64),
        (16i64, 9i64),
        (17i64, 7i64),
        (18i64, 7i64),
        (17i64, 11i64),
        (18i64, 11i64),
        (19i64, 9i64),
        (19i64, 10i64),
        (20i64, 10i64),
        (21i64, 8i64),
        (22i64, 9i64),
        (22i64, 10i64),
        (22i64, 11i64),
        (24i64, 10i64),
        (24i64, 9i64),
        (24i64, 8i64),
        (24i64, 7i64),
        (25i64, 7i64),
        (26i64, 8i64),
        (26i64, 6i64),
        (27i64, 6i64),
        (27i64, 10i64),
        (28i64, 9i64),
    ]
}

/// The area cleared by one clear-tool action, in cells.
pub const CLEAR_AREA_RADIUS: u32 = 15;

/// The area covered by one random-fill action, in cells.
pub const RANDOM_FILL_RADIUS: u32 = 20;

/// The fill density of one random-fill action, in thousandths.
pub const RANDOM_FILL_DENSITY_PERMILLE: u32 = 400;

/// What one action of the given tool leaves in the input region: the paint
/// and stamp tools act only when their position lies on the grid, the clear
/// and random-fill tools act around any position; the random fill is seeded
/// by the generation counter.
pub open spec fn action_region(s: SimulationCore, mode: CursorMode, gx: int, gy: int) -> Seq<
    u32,
> {
    let g = s.grid.input_region();
    let w = s.grid.width as nat;
    let h = s.grid.height as nat;
    let in_grid = 0 <= gx < s.grid.width && 0 <= gy < s.grid.height;
    match mode {
        CursorMode::Paint => if in_grid {
            crate::sim::painted_region(g, w, gx, gy, s.brush_radius as int, s.paint_value)
        } else {
            g
        },
        CursorMode::PlaceGlider => if in_grid {
            stamp_cells(g, w, h, gx, gy, glider_offsets(), s.paint_value)
        } else {
            g
        },
        CursorMode::PlaceLWSS => if in_grid {
            stamp_cells(g, w, h, gx, gy, lwss_offsets(), s.paint_value)
        } else {
            g
        },
        CursorMode::PlacePulsar => if in_grid {
            stamp_cells(g, w, h, gx, gy, pulsar_offsets(), s.paint_value)
        } else {
            g
        },
        CursorMode::PlaceGosperGun => if in_grid {
            stamp_cells(g, w, h, gx, gy, gosper_gun_offsets(), s.paint_value)
        } else {
            g
        },
        CursorMode::PlacePentadecathlon => if in_grid {
            stamp_cells(g, w, h, gx, gy, pentadecathlon_offsets(), s.paint_value)
        } else {
            g
        },
        CursorMode::PlaceSimkinGun => if in_grid {
            stamp_cells(g, w, h, gx, gy, simkin_gun_offsets(), s.paint_value)
        } else {
            g
        },
        CursorMode::ClearArea => crate::sim::cleared_region(
            g,
            w,
            gx,
            gy,
            CLEAR_AREA_RADIUS as int,
        ),
        CursorMode::RandomFill => crate::sim::filled_region(
            g,
            w,
            gx,
            gy,
            RANDOM_FILL_RADIUS as int,
            s.paint_value,
            (s.grid.generation % 0x1_0000_0000) as u32,
            RANDOM_FILL_DENSITY_PERMILLE,
        ),
    }
}

impl SimulationCore {
    /// Write the paint value at every anchored offset that lies on the grid,
    /// into the region the next rule application consumes.
    fn stamp_offsets(&mut self, gx: i64, gy: i64, offs: &Vec<(i64, i64)>)
        requires
            old(self).wf(),
            -WORLD_LIMIT <= gx <= WORLD_LIMIT,
            -WORLD_LIMIT <= gy <= WORLD_LIMIT,
            forall|k: int|
                0 <= k < offs@.len() ==> -100 <= (#[trigger] offs@[k]).0 <= 100 && -100
                    <= offs@[k].1 <= 100,
        ensures
            final(self).wf(),
            final(self).grid.width == old(self).grid.width,
            final(self).grid.height == old(self).grid.height,
            final(self).grid.generation == old(self).grid.generation,
            final(self).grid.output_region() == old(self).grid.output_region(),
            final(self).grid.input_region() == stamp_cells(
                old(self).grid.input_region(),
                old(self).grid.width as nat,
                old(self).grid.height as nat,
                gx as int,
                gy as int,
                offs@,
                old(self).paint_value,
            ),
            final(self).engine == old(self).engine,
            final(self).scheduler == old(self).scheduler,
            final(self).paint_value == old(self).paint_value,
            final(self).brush_radius == old(self).brush_radius,
    {
        let v = self.paint_value;
        let width = self.grid.width;
        let height = self.grid.height;
        let ghost g0 = self.grid.input_region();
        let ghost w = self.grid.width as nat;
        let ghost h = self.grid.height as nat;
        let n = offs.len();
        let mut k: usize = 0;
        while k < n
            invariant
                k <= n,
                n == offs@.len(),
                -WORLD_LIMIT <= gx <= WORLD_LIMIT,
                -WORLD_LIMIT <= gy <= WORLD_LIMIT,
                forall|j: int|
                    0 <= j < offs@.len() ==> -100 <= (#[trigger] offs@[j]).0 <= 100 && -100
                        <= offs@[j].1 <= 100,
                self.grid.wf(),
                self.grid.width == width,
                self.grid.height == height,
                w == width as nat,
                h == height as nat,
                self.grid.generation == old(self).grid.generation,
                self.grid.output_region() == old(self).grid.output_region(),
                self.grid.input_region() == stamp_cells(
                    g0,
                    w,
                    h,
                    gx as int,
                    gy as int,
                    offs@.take(k as int),
                    v,
                ),
                self.engine == old(self).engine,
                self.scheduler == old(self).scheduler,
                self.paint_value == old(self).paint_value,
                self.brush_radius == old(self).brush_radius,
            decreases n - k,
        {
            let (dx, dy) = offs[k];
            let x = gx + dx;
            let y = gy + dy;
            if x >= 0 && y >= 0 && x < width as i64 && y < height as i64 {
                self.grid.write_cell(x as u32, y as u32, v);
            }
            proof {
                assert(offs@.take(k + 1).drop_last() =~= offs@.take(k as int));
                assert(offs@.take(k + 1).last() == offs@[k as int]);
            }
            k = k + 1;
        }
        proof {
            assert(offs@.take(n as int) =~= offs@);
        }
    }

    /// Place a standard glider at the given world position; a position outside the
    /// grid is ignored, and so is every pattern cell that falls off the grid.
    pub fn place_glider(&mut self, gx: i64, gy: i64)
        requires
            old(self).wf(),
            -WORLD_LIMIT <= gx <= WORLD_LIMIT,
            -WORLD_LIMIT <= gy <= WORLD_LIMIT,
        ensures
            final(self).wf(),
            !(0 <= gx < old(self).grid.width && 0 <= gy < old(self).grid.height) ==> *final(self)
                == *old(self),
            0 <= gx < old(self).grid.width && 0 <= gy < old(self).grid.height ==> {
                &&& final(self).grid.input_region() == stamp_cells(
                    old(self).grid.input_region(),
                    old(self).grid.width as nat,
                    old(self).grid.height as nat,
                    gx as int,
                    gy as int,
                    glider_offsets(),
                    old(self).paint_value,
                )
                &&& final(self).grid.width == old(self).grid.width
                &&& final(self).grid.height == old(self).grid.height
                &&& final(self).grid.generation == old(self).grid.generation
                &&& final(self).grid.output_region() == old(self).grid.output_region()
                &&& final(self).engine == old(self).engine
                &&& final(self).scheduler == old(self).scheduler
                &&& final(self).paint_value == old(self).paint_value
                &&& final(self).brush_radius == old(self).brush_radius
            },
    {
        if gx < 0 || gy < 0 || gx >= self.grid.width as i64 || gy >= self.grid.height as i64 {
            return ;
        }
        let mut offs: Vec<(i64, i64)> = Vec::new();
        offs.push((0, 1));
        offs.push((1, 2));
        offs.push((2, 0));
        offs.push((2, 1));
        offs.push((2, 2));
        proof {
            assert(offs@ =~= glider_offsets());
        }
        self.stamp_offsets(gx, gy, &offs);
    }

    /// Place a lightweight spaceship at the given world position; a position outside the
    /// grid is ignored, and so is every pattern cell that falls off the grid.
    pub fn place_lwss(&mut self, gx: i64, gy: i64)
        requires
            old(self).wf(),
            -WORLD_LIMIT <= gx <= WORLD_LIMIT,
            -WORLD_LIMIT <= gy <= WORLD_LIMIT,
        ensures
            final(self).wf(),
            !(0 <= gx < old(self).grid.width && 0 <= gy < old(self).grid.height) ==> *final(self)
                == *old(self),
            0 <= gx < old(self).grid.width && 0 <= gy < old(self).grid.height ==> {
                &&& final(self).grid.input_region() == stamp_cells(
                    old(self).grid.input_region(),
                    old(self).grid.width as nat,
                    old(self).grid.height as nat,
                    gx as int,
                    gy as int,
                    lwss_offsets(),
                    old(self).paint_value,
                )
                &&& final(self).grid.width == old(self).grid.width
                &&& final(self).grid.height == old(self).grid.height
                &&& final(self).grid.generation == old(self).grid.generation
                &&& final(self).grid.output_region() == old(self).grid.output_region()
                &&& final(self).engine == old(self).engine
                &&& final(self).scheduler == old(self).scheduler
                &&& final(self).paint_value == old(self).paint_value
                &&& final(self).brush_radius == old(self).brush_radius
            },
    {
        if gx < 0 || gy < 0 || gx >= self.grid.width as i64 || gy >= self.grid.height as i64 {
            return ;
        }
        let mut offs: Vec<(i64, i64)> = Vec::new();
        offs.push((0, 1));
        offs.push((0, 3));
        offs.push((1, 0));
        offs.push((2, 0));
        offs.push((3, 0));
        offs.push((3, 3));
        offs.push((4, 0));
        offs.push((4, 1));
        offs.push((4, 2));
        proof {
            assert(offs@ =~= lwss_offsets());
        }
        self.stamp_offsets(gx, gy, &offs);
    }

    /// Place a pulsar (period-3 oscillator) at the given world position; a position outside the
    /// grid is ignored, and so is every pattern cell that falls off the grid.
    #[verifier::rlimit(80)]
    pub fn place_pulsar(&mut self, gx: i64, gy: i64)
        requires
            old(self).wf(),
            -WORLD_LIMIT <= gx <= WORLD_LIMIT,
            -WORLD_LIMIT <= gy <= WORLD_LIMIT,
        ensures
            final(self).wf(),
            !(0 <= gx < old(self).grid.width && 0 <= gy < old(self).grid.height) ==> *final(self)
                == *old(self),
            0 <= gx < old(self).grid.width && 0 <= gy < old(self).grid.height ==> {
                &&& final(self).grid.input_region() == stamp_cells(
                    old(self).grid.input_region(),
                    old(self).grid.width as nat,
                    old(self).grid.height as nat,
                    gx as int,
                    gy as int,
                    pulsar_offsets(),
                    old(self).paint_value,
                )
                &&& final(self).grid.width == old(self).grid.width
                &&& final(self).grid.height == old(self).grid.height
                &&& final(self).grid.generation == old(self).grid.generation
                &&& final(self).grid.output_region() == old(self).grid.output_region()
                &&& final(self).engine == old(self).engine
                &&& final(self).scheduler == old(self).scheduler
                &&& final(self).paint_value == old(self).paint_value
                &&& final(self).brush_radius == old(self).brush_radius
            },
    {
        if gx < 0 || gy < 0 || gx >= self.grid.width as i64 || gy >= self.grid.height as i64 {
            return ;
        }
        let mut offs: Vec<(i64, i64)> = Vec::new();
        offs.push((2, 0));
        offs.push((3, 0));
        offs.push((4, 0));
        offs.push((8, 0));
        offs.push((9, 0));
        offs.push((10, 0));
        offs.push((2, 5));
        offs.push((3, 5));
        offs.push((4, 5));
        offs.push((8, 5));
        offs.push((9, 5));
        offs.push((10, 5));
        offs.push((2, 7));
        offs.push((3, 7));
        offs.push((4, 7));
        offs.push((8, 7));
        offs.push((9, 7));
        offs.push((10, 7));
        offs.push((2, 12));
        offs.push((3, 12));
        offs.push((4, 12));
        offs.push((8, 12));
        offs.push((9, 12));
        offs.push((10, 12));
        offs.push((0, 2));
        offs.push((0, 3));
        offs.push((0, 4));
        offs.push((0, 8));
        offs.push((0, 9));
        offs.push((0, 10));
        offs.push((5, 2));
        offs.push((5, 3));
        offs.push((5, 4));
        offs.push((5, 8));
        offs.push((5, 9));
        offs.push((5, 10));
        offs.push((7, 2));
        offs.push((7, 3));
        offs.push((7, 4));
        offs.push((7, 8));
        offs.push((7, 9));
        offs.push((7, 10));
        offs.push((12, 2));
        offs.push((12, 3));
        offs.push((12, 4));
        offs.push((12, 8));
        offs.push((12, 9));
        offs.push((12, 10));
        proof {
            assert(offs@ =~= pulsar_offsets());
        }
        self.stamp_offsets(gx, gy, &offs);
    }

    /// Place a Gosper glider gun at the given world position; a position outside the
    /// grid is ignored, and so is every pattern cell that falls off the grid.
    #[verifier::rlimit(80)]
    pub fn place_gosper_glider_gun(&mut self, gx: i64, gy: i64)
        requires
            old(self).wf(),
            -WORLD_LIMIT <= gx <= WORLD_LIMIT,
            -WORLD_LIMIT <= gy <= WORLD_LIMIT,
        ensures
            final(self).wf(),
            !(0 <= gx < old(self).grid.width && 0 <= gy < old(self).grid.height) ==> *final(self)
                == *old(self),
            0 <= gx < old(self).grid.width && 0 <= gy < old(self).grid.height ==> {
                &&& final(self).grid.input_region() == stamp_cells(
                    old(self).grid.input_region(),
                    old(self).grid.width as nat,
                    old(self).grid.height as nat,
                    gx as int,
                    gy as int,
                    gosper_gun_offsets(),
                    old(self).paint_value,
                )
                &&& final(self).grid.width == old(self).grid.width
                &&& final(self).grid.height == old(self).grid.height
                &&& final(self).grid.generation == old(self).grid.generation
                &&& final(self).grid.output_region() == old(self).grid.output_region()
                &&& final(self).engine == old(self).engine
                &&& final(self).scheduler == old(self).scheduler
                &&& final(self).paint_value == old(self).paint_value
                &&& final(self).brush_radius == old(self).brush_radius
            },
    {
        if gx < 0 || gy < 0 || gx >= self.grid.width as i64 || gy >= self.grid.height as i64 {
            return ;
        }
        let mut offs: Vec<(i64, i64)> = Vec::new();
        offs.push((1, 5));
        offs.push((1, 6));
        offs.push((2, 5));
        offs.push((2, 6));
        offs.push((11, 5));
        offs.push((11, 6));
        offs.push((11, 7));
        offs.push((12, 4));
        offs.push((12, 8));
        offs.push((13, 3));
        offs.push((13, 9));
        offs.push((14, 3));
        offs.push((14, 9));
        offs.push((15, 6));
        offs.push((16, 4));
        offs.push((16, 8));
        offs.push((17, 5));
        offs.push((17, 6));
        offs.push((17, 7));
        offs.push((18, 6));
        offs.push((21, 3));
        offs.push((21, 4));
        offs.push((21, 5));
        offs.push((22, 3));
        offs.push((22, 4));
        offs.push((22, 5));
        offs.push((23, 2));
        offs.push((23, 6));
        offs.push((25, 1));
        offs.push((25, 2));
        offs.push((25, 6));
        offs.push((25, 7));
        offs.push((35, 3));
        offs.push((35, 4));
        offs.push((36, 3));
        offs.push((36, 4));
        proof {
            assert(offs@ =~= gosper_gun_offsets());
        }
        self.stamp_offsets(gx, gy, &offs);
    }

    /// Place a pentadecathlon (period-15 oscillator) at the given world position; a position outside the
    /// grid is ignored, and so is every pattern cell that falls off the grid.
    pub fn place_pentadecathlon(&mut self, gx: i64, gy: i64)
        requires
            old(self).wf(),
            -WORLD_LIMIT <= gx <= WORLD_LIMIT,
            -WORLD_LIMIT <= gy <= WORLD_LIMIT,
        ensures
            final(self).wf(),
            !(0 <= gx < old(self).grid.width && 0 <= gy < old(self).grid.height) ==> *final(self)
                == *old(self),
            0 <= gx < old(self).grid.width && 0 <= gy < old(self).grid.height ==> {
                &&& final(self).grid.input_region() == stamp_cells(
                    old(self).grid.input_region(),
                    old(self).grid.width as nat,
                    old(self).grid.height as nat,
                    gx as int,
                    gy as int,
                    pentadecathlon_offsets(),
                    old(self).paint_value,
                )
                &&& final(self).grid.width == old(self).grid.width
                &&& final(self).grid.height == old(self).grid.height
                &&& final(self).grid.generation == old(self).grid.generation
                &&& final(self).grid.output_region() == old(self).grid.output_region()
                &&& final(self).engine == old(self).engine
                &&& final(self).scheduler == old(self).scheduler
                &&& final(self).paint_value == old(self).paint_value
                &&& final(self).brush_radius == old(self).brush_radius
            },
    {
        if gx < 0 || gy < 0 || gx >= self.grid.width as i64 || gy >= self.grid.height as i64 {
            return ;
        }
        let mut offs: Vec<(i64, i64)> = Vec::new();
        offs.push((1, 0));
        offs.push((2, 0));
        offs.push((3, -1));
        offs.push((3, 1));
        offs.push((4, 0));
        offs.push((5, 0));
        offs.push((6, 0));
        offs.push((7, 0));
        offs.push((8, -1));
        offs.push((8, 1));
        offs.push((9, 0));
        offs.push((10, 0));
        proof {
            assert(offs@ =~= pentadecathlon_offsets());
        }
        self.stamp_offsets(gx, gy, &offs);
    }

    /// Place a Simkin glider gun at the given world position; a position outside the
    /// grid is ignored, and so is every pattern cell that falls off the grid.
    #[verifier::rlimit(80)]
    pub fn place_simkin_glider_gun(&mut self, gx: i64, gy: i64)
        requires
            old(self).wf(),
            -WORLD_LIMIT <= gx <= WORLD_LIMIT,
            -WORLD_LIMIT <= gy <= WORLD_LIMIT,
        ensures
            final(self).wf(),
            !(0 <= gx < old(self).grid.width && 0 <= gy < old(self).grid.height) ==> *final(self)
                == *old(self),
            0 <= gx < old(self).grid.width && 0 <= gy < old(self).grid.height ==> {
                &&& final(self).grid.input_region() == stamp_cells(
                    old(self).grid.input_region(),
                    old(self).grid.width as nat,
                    old(self).grid.height as nat,
                    gx as int,
                    gy as int,
                    simkin_gun_offsets(),
                    old(self).paint_value,
                )
                &&& final(self).grid.width == old(self).grid.width
                &&& final(self).grid.height == old(self).grid.height
                &&& final(self).grid.generation == old(self).grid.generation
                &&& final(self).grid.output_region() == old(self).grid.output_region()
                &&& final(self).engine == old(self).engine
                &&& final(self).scheduler == old(self).scheduler
                &&& final(self).paint_value == old(self).paint_value
                &&& final(self).brush_radius == old(self).brush_radius
            },
    {
        if gx < 0 || gy < 0 || gx >= self.grid.width as i64 || gy >= self.grid.height as i64 {
            return ;
        }
        let mut offs: Vec<(i64, i64)> = Vec::new();
        offs.push((0, 0));
        offs.push((0, 1));
        offs.push((1, 0));
        offs.push((1, 1));
        offs.push((4, 0));
        offs.push((4, 1));
        offs.push((5, 0));
        offs.push((5, 1));
        offs.push((10, 2));
        offs.push((10, 3));
        offs.push((11, 2));
        offs.push((11, 3));
        offs.push((12, 0));
        offs.push((13, 0));
        offs.push((12, 1));
        offs.push((13, 1));
        offs.push((14, 10));
        offs.push((14, 11));
        offs.push((15, 10));
        offs.push((15, 11));
        offs.push((16, 8));
        offs.push((16, 9));
        offs.push((17, 7));
        offs.push((18, 7));
        offs.push((17, 11));
        offs.push((18, 11));
        offs.push((19, 9));
        offs.push((19, 10));
        offs.push((20, 10));
        offs.push((21, 8));
        offs.push((22, 9));
        offs.push((22, 10));
        offs.push((22, 11));
        offs.push((24, 10));
        offs.push((24, 9));
        offs.push((24, 8));
        offs.push((24, 7));
        offs.push((25, 7));
        offs.push((26, 8));
        offs.push((26, 6));
        offs.push((27, 6));
        offs.push((27, 10));
        offs.push((28, 9));
        proof {
            assert(offs@ =~= simkin_gun_offsets());
        }
        self.stamp_offsets(gx, gy, &offs);
    }


    /// Perform one action of the given tool at a world position: the action
    /// the pointer flow triggers once the throttle allows it.
    pub fn perform_action(&mut self, mode: CursorMode, gx: i64, gy: i64)
        requires
            old(self).wf(),
            -WORLD_LIMIT <= gx <= WORLD_LIMIT,
            -WORLD_LIMIT <= gy <= WORLD_LIMIT,
        ensures
            final(self).wf(),
            final(self).grid.input_region() == action_region(*old(self), mode, gx as int, gy as int),
            final(self).grid.width == old(self).grid.width,
            final(self).grid.height == old(self).grid.height,
            final(self).grid.generation == old(self).grid.generation,
            final(self).grid.output_region() == old(self).grid.output_region(),
            final(self).engine == old(self).engine,
            final(self).scheduler == old(self).scheduler,
            final(self).paint_value == old(self).paint_value,
            final(self).brush_radius == old(self).brush_radius,
    {
        match mode {
            CursorMode::Paint => self.paint_cell(gx, gy),
            CursorMode::PlaceGlider => self.place_glider(gx, gy),
            CursorMode::PlaceLWSS => self.place_lwss(gx, gy),
            CursorMode::PlacePulsar => self.place_pulsar(gx, gy),
            CursorMode::PlaceGosperGun => self.place_gosper_glider_gun(gx, gy),
            CursorMode::PlacePentadecathlon => self.place_pentadecathlon(gx, gy),
            CursorMode::PlaceSimkinGun => self.place_simkin_glider_gun(gx, gy),
            CursorMode::ClearArea => self.clear_area(gx, gy, CLEAR_AREA_RADIUS),
            CursorMode::RandomFill => {
                let seed = (self.grid.generation % 0x1_0000_0000) as u32;
                self.random_fill(gx, gy, RANDOM_FILL_RADIUS, RANDOM_FILL_DENSITY_PERMILLE, seed);
            },
        }
    }
}

} // verus!
