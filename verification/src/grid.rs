//! Double-buffered grid storage: two equally-sized cell regions and a
//! generation counter whose parity selects the current input and output.

use vstd::prelude::*;

verus! {

use crate::cell_alive;
use crate::patterns::{
    Pattern,
    dead_region,
    place_cells,
    place_pattern_on_grid,
    new_dead_region,
    lemma_place_cells_len,
};

/// The deterministic seed written into generation 0's input region: a glider
/// and a glider gun at fixed fractional offsets, on grids larger than 10 in
/// both dimensions; smaller grids start all dead.
pub open spec fn seed_region(width: u32, height: u32) -> Seq<u32> {
    let zeros = dead_region((width as nat) * (height as nat));
    if width > 10 && height > 10 {
        place_cells(
            place_cells(
                zeros,
                width as nat,
                height as nat,
                Pattern::Glider.cells_spec(width / 4, height / 4),
            ),
            width as nat,
            height as nat,
            Pattern::GosperGliderGun.cells_spec(width / 5, height / 2),
        )
    } else {
        zeros
    }
}

/// How many cells of a region are alive.
pub open spec fn live_cells(s: Seq<u32>) -> nat
    decreases s.len(),
{
    if s.len() == 0 {
        0
    } else {
        live_cells(s.drop_last()) + if cell_alive(s.last()) {
            1nat
        } else {
            0nat
        }
    }
}

/// Owns the two grid regions and the generation counter. Exactly one region
/// is the current input (about to be consumed by the next rule application),
/// the other the current output (the most recently completed generation),
/// selected by the counter's parity.
pub struct GridStore {
    /// Grid width in cells; at least 1.
    pub width: u32,
    /// Grid height in cells; at least 1.
    pub height: u32,
    /// Storage region of even parity.
    pub region_a: Vec<u32>,
    /// Storage region of odd parity.
    pub region_b: Vec<u32>,
    /// Completed generations since the last (re)allocation.
    pub generation: u64,
}

impl GridStore {
    /// Cells per region.
    pub open spec fn size(self) -> nat {
        (self.width as nat) * (self.height as nat)
    }

    /// Both regions always have exactly `width * height` cells.
    pub open spec fn wf(self) -> bool {
        &&& self.width >= 1
        &&& self.height >= 1
        &&& self.region_a@.len() == self.size()
        &&& self.region_b@.len() == self.size()
    }

    /// The region the next rule application reads, by generation parity.
    pub open spec fn input_region(self) -> Seq<u32> {
        if self.generation % 2 == 0 {
            self.region_a@
        } else {
            self.region_b@
        }
    }

    /// The region holding the most recently completed generation.
    pub open spec fn output_region(self) -> Seq<u32> {
        if self.generation % 2 == 0 {
            self.region_b@
        } else {
            self.region_a@
        }
    }

    /// Allocate both regions, write the deterministic seed pattern into
    /// generation 0's input region, and reset the generation counter.
    pub fn initialize(width: u32, height: u32) -> (g: Self)
        requires
            width >= 1,
            height >= 1,
            (width as nat) * (height as nat) <= usize::MAX,
        ensures
            g.wf(),
            g.width == width,
            g.height == height,
            g.generation == 0,
            g.input_region() == seed_region(width, height),
            g.output_region() == dead_region((width as nat) * (height as nat)),
    {
        let size = (width as usize) * (height as usize);
        let mut region_a = new_dead_region(size);
        let region_b = new_dead_region(size);
        if width > 10 && height > 10 {
            place_pattern_on_grid(&mut region_a, width, height, &Pattern::Glider, width / 4, height / 4);
            place_pattern_on_grid(
                &mut region_a,
                width,
                height,
                &Pattern::GosperGliderGun,
                width / 5,
                height / 2,
            );
            proof {
                lemma_place_cells_len(
                    dead_region((width as nat) * (height as nat)),
                    width as nat,
                    height as nat,
                    Pattern::Glider.cells_spec(width / 4, height / 4),
                );
                lemma_place_cells_len(
                    place_cells(
                        dead_region((width as nat) * (height as nat)),
                        width as nat,
                        height as nat,
                        Pattern::Glider.cells_spec(width / 4, height / 4),
                    ),
                    width as nat,
                    height as nat,
                    Pattern::GosperGliderGun.cells_spec(width / 5, height / 2),
                );
            }
        }
        GridStore { width, height, region_a, region_b, generation: 0 }
    }

    /// Tear down and reallocate both regions at the new size, reseed, and
    /// reset the generation counter. A zero dimension is rejected: the call
    /// is a no-op and the prior state is retained.
    pub fn resize(&mut self, width: u32, height: u32)
        requires
            (width as nat) * (height as nat) <= usize::MAX,
        ensures
            width == 0 || height == 0 ==> *final(self) == *old(self),
            width >= 1 && height >= 1 ==> {
                &&& final(self).wf()
                &&& final(self).width == width
                &&& final(self).height == height
                &&& final(self).generation == 0
                &&& final(self).input_region() == seed_region(width, height)
                &&& final(self).output_region() == dead_region((width as nat) * (height as nat))
            },
    {
        if width == 0 || height == 0 {
            return ;
        }
        *self = Self::initialize(width, height);
    }

    /// Write one cell of the current input region, so the edit is consumed
    /// by the very next rule application. Coordinates outside the grid are
    /// silently ignored.
    pub fn write_cell(&mut self, x: u32, y: u32, value: u32)
        requires
            old(self).wf(),
        ensures
            final(self).wf(),
            final(self).width == old(self).width,
            final(self).height == old(self).height,
            final(self).generation == old(self).generation,
            final(self).output_region() == old(self).output_region(),
            x < old(self).width && y < old(self).height ==> final(self).input_region() == old(
                self,
            ).input_region().update((y as nat) * (old(self).width as nat) + (x as nat) as int, value),
            !(x < old(self).width && y < old(self).height) ==> final(self).input_region() == old(
                self,
            ).input_region(),
    {
        if x < self.width && y < self.height {
            let n_cells = self.region_a.len();
            proof {
                crate::rules::lemma_row_major_index(
                    self.width as int,
                    self.height as int,
                    x as int,
                    y as int,
                );
            }
            let idx = (y as usize) * (self.width as usize) + (x as usize);
            if self.generation % 2 == 0 {
                self.region_a.set(idx, value);
            } else {
                self.region_b.set(idx, value);
            }
        }
    }

    /// Advance the generation counter after a rule application, swapping the
    /// roles of the two regions.
    pub fn advance_generation(&mut self)
        requires
            old(self).generation < u64::MAX,
        ensures
            final(self).generation == old(self).generation + 1,
            final(self).width == old(self).width,
            final(self).height == old(self).height,
            final(self).input_region() == old(self).output_region(),
            final(self).output_region() == old(self).input_region(),
            old(self).wf() ==> final(self).wf(),
    {
        self.generation = self.generation + 1;
    }

    /// The region the next rule application will read.
    pub fn current_input(&self) -> (r: &Vec<u32>)
        ensures
            r@ == self.input_region(),
    {
        if self.generation % 2 == 0 {
            &self.region_a
        } else {
            &self.region_b
        }
    }

    /// The region holding the most recently completed generation.
    pub fn current_output(&self) -> (r: &Vec<u32>)
        ensures
            r@ == self.output_region(),
    {
        if self.generation % 2 == 0 {
            &self.region_b
        } else {
            &self.region_a
        }
    }

    /// A full copy of the most recently completed generation. This models a
    /// blocking readback: callers must invoke it at a throttled cadence, not
    /// once per frame.
    pub fn read_snapshot(&self) -> (r: Vec<u32>)
        ensures
            r@ == self.output_region(),
    {
        let src = self.current_output();
        let n = src.len();
        let mut r: Vec<u32> = Vec::new();
        let mut k: usize = 0;
        while k < n
            invariant
                k <= n,
                n == src@.len(),
                r@ =~= src@.take(k as int),
            decreases n - k,
        {
            r.push(src[k]);
            k = k + 1;
        }
        proof {
            assert(src@.take(n as int) =~= src@);
        }
        r
    }

    /// How many cells of the most recently completed generation are alive.
    /// Models the blocking readback-and-count; callers must throttle it.
    pub fn read_live_count(&self) -> (count: usize)
        ensures
            count == live_cells(self.output_region()),
    {
        let src = self.current_output();
        let n = src.len();
        let mut count: usize = 0;
        let mut k: usize = 0;
        while k < n
            invariant
                k <= n,
                n == src@.len(),
                count == live_cells(src@.take(k as int)),
                count <= k,
            decreases n - k,
        {
            proof {
                assert(src@.take(k + 1).drop_last() =~= src@.take(k as int));
            }
            if src[k] > 0 {
                count = count + 1;
            }
            k = k + 1;
        }
        proof {
            assert(src@.take(n as int) =~= src@);
        }
        count
    }
}

} // verus!
