//! The rule engine: the active rule program, the small threshold parameter
//! set, the compile-then-swap hot-swap mechanism, and the application of one
//! generation to the grid store.

use vstd::prelude::*;

verus! {

use crate::grid::GridStore;
use crate::rules::{GameRules, step_grid, apply_rules};

/// The fixed edge length of one dispatch tile, in cells.
pub const WORKGROUP_SIZE: u32 = 8;

/// The grid dimensions handed to a rule program as a uniform.
#[derive(Clone, Copy, PartialEq, Eq, Structural, Debug)]
pub struct SimParams {
    pub width: u32,
    pub height: u32,
}

/// The threshold parameter set in the 16-byte-stride layout a rule program
/// reads as a uniform.
#[derive(Clone, Copy, PartialEq, Eq, Structural, Debug)]
pub struct ShaderGameRules {
    pub survival_min: u32,
    pub survival_max: u32,
    pub birth_count: u32,
    pub _padding: u32,
}

impl From<GameRules> for ShaderGameRules {
    fn from(rules: GameRules) -> (r: Self) {
        Self {
            survival_min: rules.survival_min,
            survival_max: rules.survival_max,
            birth_count: rules.birth_count,
            _padding: 0,
        }
    }
}

impl vstd::std_specs::convert::FromSpecImpl<GameRules> for ShaderGameRules {
    open spec fn obeys_from_spec() -> bool {
        true
    }

    open spec fn from_spec(rules: GameRules) -> Self {
        ShaderGameRules {
            survival_min: rules.survival_min,
            survival_max: rules.survival_max,
            birth_count: rules.birth_count,
            _padding: 0,
        }
    }
}

/// A diagnostic reported when a rule program fails to compile.
#[derive(Debug)]
pub struct CompileError {
    pub message: String,
}

impl CompileError {
    /// The diagnostic text.
    pub fn text(&self) -> (r: &str)
        ensures
            r@ == self.message@,
    {
        self.message.as_str()
    }
}

/// The compiled transition program, represented by the source text it was
/// built from. At most one is active at a time.
pub struct RuleProgram {
    pub source: String,
}

/// Holds the active rule program and the threshold parameters used by it.
pub struct RuleEngine {
    pub program: RuleProgram,
    pub rules: GameRules,
}

impl RuleEngine {
    /// An engine with the given initial program source and parameters.
    pub fn new(source: String, rules: GameRules) -> (r: Self)
        ensures
            r.program.source@ == source@,
            r.rules == rules,
    {
        RuleEngine { program: RuleProgram { source }, rules }
    }

    /// Swap in a new rule program, atomically from the caller's perspective:
    /// the collaborator that compiled `source` reports the outcome, and on
    /// failure the previously active program remains active and untouched
    /// while the diagnostic is returned.
    pub fn load_program(&mut self, source: String, compiled: bool, diagnostic: String) -> (r:
        Result<(), CompileError>)
        ensures
            compiled ==> {
                &&& r is Ok
                &&& final(self).program.source@ == source@
                &&& final(self).rules == old(self).rules
            },
            !compiled ==> {
                &&& *final(self) == *old(self)
                &&& r matches Err(e) && e.message@ == diagnostic@
            },
    {
        if compiled {
            self.program = RuleProgram { source };
            Ok(())
        } else {
            Err(CompileError { message: diagnostic })
        }
    }

    /// Update the survival/birth thresholds used by the currently active
    /// program without recompiling. Only the canonical fixed-threshold model
    /// is expressible this way; rules needing several birth counts require a
    /// full program swap instead.
    pub fn set_parameters(&mut self, rules: GameRules)
        ensures
            final(self).rules == rules,
            final(self).program.source@ == old(self).program.source@,
    {
        self.rules = rules;
    }

    /// Apply one generation to the grid store: the input region selected by
    /// generation parity is consumed, every cell of the other region is
    /// written, and the counter advances so the result becomes the next
    /// input. Newly-born cells take the value `paint`.
    pub fn apply(&self, grid: &mut GridStore, paint: u32)
        requires
            old(grid).wf(),
            old(grid).generation < u64::MAX,
        ensures
            final(grid).wf(),
            final(grid).width == old(grid).width,
            final(grid).height == old(grid).height,
            final(grid).generation == old(grid).generation + 1,
            final(grid).input_region() == step_grid(
                old(grid).input_region(),
                old(grid).width as nat,
                old(grid).height as nat,
                self.rules,
                paint,
            ),
            final(grid).output_region() == old(grid).input_region(),
    {
        if grid.generation % 2 == 0 {
            apply_rules(&grid.region_a, &mut grid.region_b, grid.width, grid.height, &self.rules, paint);
        } else {
            apply_rules(&grid.region_b, &mut grid.region_a, grid.width, grid.height, &self.rules, paint);
        }
        grid.advance_generation();
    }
}

/// How many work units tile the grid: `ceil(width / ws) x ceil(height / ws)`
/// tiles of `ws x ws` cells each.
pub fn dispatch_counts(width: u32, height: u32, ws: u32) -> (r: (u32, u32))
    requires
        ws >= 1,
        width + ws <= u32::MAX,
        height + ws <= u32::MAX,
    ensures
        r.0 == ((width + ws - 1) as int) / (ws as int),
        r.1 == ((height + ws - 1) as int) / (ws as int),
        (r.0 as int) * (ws as int) >= width,
        (r.1 as int) * (ws as int) >= height,
{
    let rx = (width + ws - 1) / ws;
    let ry = (height + ws - 1) / ws;
    proof {
        vstd::arithmetic::div_mod::lemma_fundamental_div_mod((width + ws - 1) as int, ws as int);
        vstd::arithmetic::div_mod::lemma_fundamental_div_mod((height + ws - 1) as int, ws as int);
    }
    (rx, ry)
}

} // verus!
