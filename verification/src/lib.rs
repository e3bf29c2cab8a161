//! A verified core for a configurable cellular automaton (Game-of-Life family)
//! on a 2-D grid: double-buffered grid storage, the rule-evaluation step and
//! its hot-swap mechanism, a variable-rate step scheduler, a pan/zoom viewport
//! transform, and a drag-speed-adaptive interaction throttle.
//!
//! The host loop (windowing, GPU dispatch, GUI panels) lives outside this
//! crate; it consumes the plain operations offered here and hands back only
//! viewport sizes and pointer/time events.

pub mod engine;
pub mod fps;
pub mod grid;
pub mod interact;
pub mod patterns;
pub mod rules;
pub mod scheduler;
pub mod sim;
pub mod stamps;
pub mod viewport;

use vstd::prelude::*;

verus! {

/// A cell value: zero is dead; any positive value is alive, the specific
/// value additionally encoding a display color category.
pub open spec fn cell_alive(v: u32) -> bool {
    v > 0
}

} // verus!
