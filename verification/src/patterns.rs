//! Predefined seed patterns and their placement on a grid region.

use vstd::prelude::*;

verus! {

/// Predefined patterns for initializing the grid
pub enum Pattern {
    /// A small oscillator
    Blinker,
    /// A small oscillator
    Toad,
    /// A small stationary pattern
    Block,
    /// A diagonal spaceship
    Glider,
    /// A horizontal spaceship
    LightweightSpaceship,
    /// A pattern that grows indefinitely
    GosperGliderGun,
}

impl Pattern {
    /// Bounds on the anchor under which every cell coordinate of the pattern
    /// neither underflows nor overflows `u32`.
    pub open spec fn fits(self, x: u32, y: u32) -> bool {
        match self {
            Pattern::Blinker => y >= 1 && y + 1 <= u32::MAX,
            Pattern::Toad => x >= 2 && x + 1 <= u32::MAX && y + 1 <= u32::MAX,
            Pattern::Block => x + 1 <= u32::MAX && y + 1 <= u32::MAX,
            Pattern::Glider => x + 2 <= u32::MAX && y + 2 <= u32::MAX,
            Pattern::LightweightSpaceship => x + 4 <= u32::MAX && y + 3 <= u32::MAX,
            Pattern::GosperGliderGun => x + 36 <= u32::MAX && y + 9 <= u32::MAX,
        }
    }

    /// The cells of the pattern anchored at `(x, y)`, in listing order.
    pub open spec fn cells_spec(self, x: u32, y: u32) -> Seq<(u32, u32)> {
        match self {
            Pattern::Blinker => seq![
                (x, (y - 1) as u32),
                (x, y),
                (x, (y + 1) as u32),
            ],
            Pattern::Toad => seq![
                ((x - 1) as u32, y),
                (x, y),
                ((x + 1) as u32, y),
                ((x - 2) as u32, (y + 1) as u32),
                ((x - 1) as u32, (y + 1) as u32),
                (x, (y + 1) as u32),
            ],
            Pattern::Block => seq![
                (x, y),
                ((x + 1) as u32, y),
                (x, (y + 1) as u32),
                ((x + 1) as u32, (y + 1) as u32),
            ],
            Pattern::Glider => seq![
                (x, (y + 1) as u32),
                ((x + 1) as u32, (y + 2) as u32),
                ((x + 2) as u32, y),
                ((x + 2) as u32, (y + 1) as u32),
                ((x + 2) as u32, (y + 2) as u32),
            ],
            Pattern::LightweightSpaceship => seq![
                (x, (y + 1) as u32),
                (x, (y + 3) as u32),
                ((x + 1) as u32, y),
                ((x + 2) as u32, y),
                ((x + 3) as u32, y),
                ((x + 3) as u32, (y + 3) as u32),
                ((x + 4) as u32, y),
                ((x + 4) as u32, (y + 1) as u32),
                ((x + 4) as u32, (y + 2) as u32),
            ],
            Pattern::GosperGliderGun => seq![
                ((x + 1) as u32, (y + 5) as u32),
                ((x + 1) as u32, (y + 6) as u32),
                ((x + 2) as u32, (y + 5) as u32),
                ((x + 2) as u32, (y + 6) as u32),
                ((x + 11) as u32, (y + 5) as u32),
                ((x + 11) as u32, (y + 6) as u32),
                ((x + 11) as u32, (y + 7) as u32),
                ((x + 12) as u32, (y + 4) as u32),
                ((x + 12) as u32, (y + 8) as u32),
                ((x + 13) as u32, (y + 3) as u32),
                ((x + 13) as u32, (y + 9) as u32),
                ((x + 14) as u32, (y + 3) as u32),
                ((x + 14) as u32, (y + 9) as u32),
                ((x + 15) as u32, (y + 6) as u32),
                ((x + 16) as u32, (y + 4) as u32),
                ((x + 16) as u32, (y + 8) as u32),
                ((x + 17) as u32, (y + 5) as u32),
                ((x + 17) as u32, (y + 6) as u32),
                ((x + 17) as u32, (y + 7) as u32),
                ((x + 18) as u32, (y + 6) as u32),
                ((x + 21) as u32, (y + 3) as u32),
                ((x + 21) as u32, (y + 4) as u32),
                ((x + 21) as u32, (y + 5) as u32),
                ((x + 22) as u32, (y + 3) as u32),
                ((x + 22) as u32, (y + 4) as u32),
                ((x + 22) as u32, (y + 5) as u32),
                ((x + 23) as u32, (y + 2) as u32),
                ((x + 23) as u32, (y + 6) as u32),
                ((x + 25) as u32, (y + 1) as u32),
                ((x + 25) as u32, (y + 2) as u32),
                ((x + 25) as u32, (y + 6) as u32),
                ((x + 25) as u32, (y + 7) as u32),
                ((x + 35) as u32, (y + 3) as u32),
                ((x + 35) as u32, (y + 4) as u32),
                ((x + 36) as u32, (y + 3) as u32),
                ((x + 36) as u32, (y + 4) as u32),
            ],
        }
    }

    /// Get the cells for a pattern anchored at position (x, y)
    pub fn cells(&self, x: u32, y: u32) -> (r: Vec<(u32, u32)>)
        requires
            self.fits(x, y),
        ensures
            r@ == self.cells_spec(x, y),
    {
        let mut r: Vec<(u32, u32)> = Vec::new();
        match self {
            Pattern::Blinker => {
                r.push((x, y - 1));
                r.push((x, y));
                r.push((x, y + 1));
            },
            Pattern::Toad => {
                r.push((x - 1, y));
                r.push((x, y));
                r.push((x + 1, y));
                r.push((x - 2, y + 1));
                r.push((x - 1, y + 1));
                r.push((x, y + 1));
            },
            Pattern::Block => {
                r.push((x, y));
                r.push((x + 1, y));
                r.push((x, y + 1));
                r.push((x + 1, y + 1));
            },
            Pattern::Glider => {
                r.push((x, y + 1));
                r.push((x + 1, y + 2));
                r.push((x + 2, y));
                r.push((x + 2, y + 1));
                r.push((x + 2, y + 2));
            },
            Pattern::LightweightSpaceship => {
                r.push((x, y + 1));
                r.push((x, y + 3));
                r.push((x + 1, y));
                r.push((x + 2, y));
                r.push((x + 3, y));
                r.push((x + 3, y + 3));
                r.push((x + 4, y));
                r.push((x + 4, y + 1));
                r.push((x + 4, y + 2));
            },
            Pattern::GosperGliderGun => {
                r.push((x + 1, y + 5));
                r.push((x + 1, y + 6));
                r.push((x + 2, y + 5));
                r.push((x + 2, y + 6));
                r.push((x + 11, y + 5));
                r.push((x + 11, y + 6));
                r.push((x + 11, y + 7));
                r.push((x + 12, y + 4));
                r.push((x + 12, y + 8));
                r.push((x + 13, y + 3));
                r.push((x + 13, y + 9));
                r.push((x + 14, y + 3));
                r.push((x + 14, y + 9));
                r.push((x + 15, y + 6));
                r.push((x + 16, y + 4));
                r.push((x + 16, y + 8));
                r.push((x + 17, y + 5));
                r.push((x + 17, y + 6));
                r.push((x + 17, y + 7));
                r.push((x + 18, y + 6));
                r.push((x + 21, y + 3));
                r.push((x + 21, y + 4));
                r.push((x + 21, y + 5));
                r.push((x + 22, y + 3));
                r.push((x + 22, y + 4));
                r.push((x + 22, y + 5));
                r.push((x + 23, y + 2));
                r.push((x + 23, y + 6));
                r.push((x + 25, y + 1));
                r.push((x + 25, y + 2));
                r.push((x + 25, y + 6));
                r.push((x + 25, y + 7));
                r.push((x + 35, y + 3));
                r.push((x + 35, y + 4));
                r.push((x + 36, y + 3));
                r.push((x + 36, y + 4));
            },
        }
        proof {
            assert(r@ =~= self.cells_spec(x, y));
        }
        r
    }
}

/// One pattern cell written into a region: in-range cells become alive with
/// value 1; cells off the region are silently ignored.
pub open spec fn place_one(g: Seq<u32>, width: nat, height: nat, c: (u32, u32)) -> Seq<u32> {
    if c.0 < width && c.1 < height && (c.1 as nat) * width + (c.0 as nat) < g.len() {
        g.update(((c.1 as nat) * width + (c.0 as nat)) as int, 1u32)
    } else {
        g
    }
}

/// All cells of a pattern written in listing order.
pub open spec fn place_cells(g: Seq<u32>, width: nat, height: nat, cs: Seq<(u32, u32)>) -> Seq<
    u32,
>
    decreases cs.len(),
{
    if cs.len() == 0 {
        g
    } else {
        place_one(place_cells(g, width, height, cs.drop_last()), width, height, cs.last())
    }
}

/// Placing cells never changes the length of the region.
pub proof fn lemma_place_cells_len(g: Seq<u32>, width: nat, height: nat, cs: Seq<(u32, u32)>)
    ensures
        place_cells(g, width, height, cs).len() == g.len(),
    decreases cs.len(),
{
    if cs.len() > 0 {
        lemma_place_cells_len(g, width, height, cs.drop_last());
    }
}

/// Utility to place a pattern on a grid
pub fn place_pattern_on_grid(
    grid: &mut Vec<u32>,
    width: u32,
    height: u32,
    pattern: &Pattern,
    x: u32,
    y: u32,
)
    requires
        pattern.fits(x, y),
    ensures
        final(grid)@ == place_cells(
            old(grid)@,
            width as nat,
            height as nat,
            pattern.cells_spec(x, y),
        ),
{
    let cells = pattern.cells(x, y);
    let ghost cs = pattern.cells_spec(x, y);
    let n = cells.len();
    let mut k: usize = 0;
    while k < n
        invariant
            k <= n,
            n == cs.len(),
            cells@ == cs,
            grid@ == place_cells(old(grid)@, width as nat, height as nat, cs.take(k as int)),
        decreases n - k,
    {
        let (cell_x, cell_y) = cells[k];
        if cell_x < width && cell_y < height {
            let n_cells = grid.len();
            proof {
                vstd::arithmetic::mul::lemma_mul_upper_bound(
                    cell_y as int,
                    u32::MAX as int,
                    width as int,
                    u32::MAX as int,
                );
            }
            let idx = (cell_y as u64) * (width as u64) + (cell_x as u64);
            if idx < n_cells as u64 {
                grid.set(idx as usize, 1);
            }
        }
        proof {
            assert(cs.take(k + 1).drop_last() =~= cs.take(k as int));
            assert(cs.take(k + 1).last() == cs[k as int]);
        }
        k = k + 1;
    }
    proof {
        assert(cs.take(n as int) =~= cs);
    }
}

/// A region of `n` dead cells.
pub open spec fn dead_region(n: nat) -> Seq<u32> {
    Seq::new(n, |i: int| 0u32)
}

/// Allocate a region of `n` dead cells.
pub fn new_dead_region(n: usize) -> (r: Vec<u32>)
    ensures
        r@ == dead_region(n as nat),
{
    let mut r: Vec<u32> = Vec::new();
    let mut k: usize = 0;
    while k < n
        invariant
            k <= n,
            r@ =~= dead_region(k as nat),
        decreases n - k,
    {
        r.push(0);
        k = k + 1;
    }
    proof {
        assert(r@ =~= dead_region(n as nat));
    }
    r
}

/// Initialize a grid with a specific pattern at the center
pub fn initialize_grid_with_pattern(width: u32, height: u32, pattern: &Pattern) -> (r: Vec<u32>)
    requires
        (width as nat) * (height as nat) <= usize::MAX,
        pattern.fits(width / 2, height / 2),
    ensures
        r@ == place_cells(
            dead_region((width as nat) * (height as nat)),
            width as nat,
            height as nat,
            pattern.cells_spec(width / 2, height / 2),
        ),
{
    let size = (width as usize) * (height as usize);
    let mut grid = new_dead_region(size);
    let center_x = width / 2;
    let center_y = height / 2;
    place_pattern_on_grid(&mut grid, width, height, pattern, center_x, center_y);
    grid
}

} // verus!
