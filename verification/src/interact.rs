//! The interaction throttle: decides, for continuous pointer drags, when a
//! tool action may fire, based on instantaneous drag speed. A press without
//! enough cumulative movement is a single discrete click and always fires
//! once, bypassing rate limiting. Each tool keeps its own last-trigger
//! timestamp, so switching tools mid-drag does not reset the others.
//!
//! Positions are carried in thousandths of a screen pixel and timestamps in
//! microseconds, as in the rest of the crate.

use vstd::prelude::*;

verus! {

/// Cursor modes for the different edit tools.
#[derive(Clone, Copy, PartialEq, Eq, Structural, Debug)]
pub enum CursorMode {
    /// Default - paint cells
    Paint,
    /// Place standard gliders
    PlaceGlider,
    /// Place lightweight spaceships
    PlaceLWSS,
    /// Place pulsar oscillators
    PlacePulsar,
    /// Place Gosper glider guns
    PlaceGosperGun,
    /// Place pentadecathlon oscillators
    PlacePentadecathlon,
    /// Place Simkin glider guns
    PlaceSimkinGun,
    /// Clear cells in an area
    ClearArea,
    /// Fill an area with random cells
    RandomFill,
}

impl Default for CursorMode {
    /// Painting is the default tool.
    fn default() -> (r: Self)
        ensures
            r == CursorMode::Paint,
    {
        CursorMode::Paint
    }
}

/// Color categories for placed cells, encoded in the cell value.
#[derive(Clone, Copy, PartialEq, Eq, Structural, Debug)]
pub enum CellColor {
    /// Default white (1)
    White,
    /// Red (3)
    Red,
    /// Green (4)
    Green,
    /// Blue (5)
    Blue,
    /// Yellow (6)
    Yellow,
    /// Purple (7)
    Purple,
}

impl Default for CellColor {
    /// White is the default color.
    fn default() -> (r: Self)
        ensures
            r == CellColor::White,
    {
        CellColor::White
    }
}

impl CellColor {
    /// The cell value encoding this color.
    pub open spec fn value_spec(self) -> u32 {
        match self {
            CellColor::White => 1u32,
            CellColor::Red => 3u32,
            CellColor::Green => 4u32,
            CellColor::Blue => 5u32,
            CellColor::Yellow => 6u32,
            CellColor::Purple => 7u32,
        }
    }

    /// Convert the enum to the cell value the grid stores for it.
    pub fn to_value(&self) -> (r: u32)
        ensures
            r == self.value_spec(),
            crate::cell_alive(r),
    {
        match self {
            CellColor::White => 1,
            CellColor::Red => 3,
            CellColor::Green => 4,
            CellColor::Blue => 5,
            CellColor::Yellow => 6,
            CellColor::Purple => 7,
        }
    }
}

/// Drag threshold squared: 3 pixels of movement (in thousandths of a pixel,
/// compared as squared distance) before a press counts as a drag.
pub const DRAG_THRESHOLD_MILLI_SQ: i64 = 9_000_000;

/// Below this drag speed (pixels per second) the delay stays at its maximum.
pub const SPEED_LOW: u64 = 10;

/// Above this drag speed (pixels per second) the delay stays at its minimum.
pub const SPEED_HIGH: u64 = 500;

/// The longest delay between drag actions: a fifth of a second (5 actions
/// per second), in microseconds.
pub const MAX_DELAY_MICROS: u64 = 200_000;

/// The shortest delay between drag actions: a thousandth of a second (1000
/// actions per second), in microseconds.
pub const MIN_DELAY_MICROS: u64 = 1_000;

/// Largest pointer coordinate magnitude the throttle stores, in thousandths
/// of a pixel.
pub const POINTER_LIMIT_MILLI: i64 = 1_000_000_000;

/// The delay between drag actions for a given drag speed: pinned at the two
/// endpoints and a linear interpolation of the delay (not of the rate)
/// between them.
pub open spec fn delay_spec(speed: int) -> int {
    if speed <= SPEED_LOW as int {
        MAX_DELAY_MICROS as int
    } else if speed >= SPEED_HIGH as int {
        MIN_DELAY_MICROS as int
    } else {
        MAX_DELAY_MICROS as int - (speed - SPEED_LOW as int) * (MAX_DELAY_MICROS as int
            - MIN_DELAY_MICROS as int) / (SPEED_HIGH as int - SPEED_LOW as int)
    }
}

/// Map a drag speed (pixels per second) to the delay (microseconds) that
/// must pass between two actions of one tool.
pub fn delay_micros_for_speed(speed: u64) -> (r: u64)
    ensures
        r == delay_spec(speed as int),
        MIN_DELAY_MICROS <= r <= MAX_DELAY_MICROS,
{
    if speed <= SPEED_LOW {
        MAX_DELAY_MICROS
    } else if speed >= SPEED_HIGH {
        MIN_DELAY_MICROS
    } else {
        let scaled = (speed - SPEED_LOW) * (MAX_DELAY_MICROS - MIN_DELAY_MICROS) / (SPEED_HIGH
            - SPEED_LOW);
        proof {
            assert((speed - SPEED_LOW) * (MAX_DELAY_MICROS - MIN_DELAY_MICROS)
                <= (SPEED_HIGH - SPEED_LOW) * (MAX_DELAY_MICROS - MIN_DELAY_MICROS))
                by (nonlinear_arith)
                requires
                    SPEED_LOW < speed < SPEED_HIGH,
            ;
            vstd::arithmetic::div_mod::lemma_div_is_ordered(
                (speed - SPEED_LOW) as int * (MAX_DELAY_MICROS - MIN_DELAY_MICROS) as int,
                (SPEED_HIGH - SPEED_LOW) as int * (MAX_DELAY_MICROS - MIN_DELAY_MICROS) as int,
                (SPEED_HIGH - SPEED_LOW) as int,
            );
            assert((SPEED_HIGH - SPEED_LOW) as int * (MAX_DELAY_MICROS - MIN_DELAY_MICROS) as int
                / (SPEED_HIGH - SPEED_LOW) as int == (MAX_DELAY_MICROS - MIN_DELAY_MICROS) as int)
                by (nonlinear_arith);
            vstd::arithmetic::div_mod::lemma_div_pos_is_pos(
                (speed - SPEED_LOW) as int * (MAX_DELAY_MICROS - MIN_DELAY_MICROS) as int,
                (SPEED_HIGH - SPEED_LOW) as int,
            );
            vstd::arithmetic::mul::lemma_mul_nonnegative(
                (speed - SPEED_LOW) as int,
                (MAX_DELAY_MICROS - MIN_DELAY_MICROS) as int,
            );
        }
        MAX_DELAY_MICROS - scaled
    }
}

/// The floor of the square root: the unique `r` with
/// `r * r <= n < (r + 1) * (r + 1)`.
pub open spec fn floor_sqrt(n: nat) -> nat {
    choose|r: nat| #[trigger] (r * r) <= n < (r + 1) * (r + 1)
}

/// The floor square root is unique.
pub proof fn lemma_floor_sqrt_unique(n: nat, a: nat, b: nat)
    by (nonlinear_arith)
    requires
        a * a <= n < (a + 1) * (a + 1),
        b * b <= n < (b + 1) * (b + 1),
    ensures
        a == b,
{
}

/// The integer square root, rounded down.
pub fn int_sqrt(n: u64) -> (r: u64)
    ensures
        r * r <= n < (r + 1) * (r + 1),
        r == floor_sqrt(n as nat),
{
    let mut lo: u64 = 0;
    let mut hi: u64 = 0x1_0000_0000;
    proof {
        assert((0x1_0000_0000int) * 0x1_0000_0000 > u64::MAX) by (nonlinear_arith);
    }
    while lo + 1 < hi
        invariant
            lo < hi <= 0x1_0000_0000,
            lo * lo <= n,
            n < hi * hi,
        decreases hi - lo,
    {
        let mid = lo + (hi - lo) / 2;
        proof {
            assert(mid * mid < 0x1_0000_0000int * 0x1_0000_0000) by (nonlinear_arith)
                requires
                    0 <= mid < 0x1_0000_0000int,
            ;
        }
        if mid * mid <= n {
            lo = mid;
        } else {
            hi = mid;
        }
    }
    proof {
        assert(lo * lo <= n < (lo + 1) * (lo + 1));
        lemma_floor_sqrt_unique(n as nat, lo as nat, floor_sqrt(n as nat));
    }
    lo
}

/// The squared distance between two points.
pub open spec fn dist2(ax: int, ay: int, bx: int, by: int) -> int {
    (ax - bx) * (ax - bx) + (ay - by) * (ay - by)
}

/// The instantaneous drag speed, in whole pixels per second: the distance
/// moved (in thousandths of a pixel, rounded down) times 1000, divided by
/// the elapsed microseconds; zero when no time has passed.
pub open spec fn speed_spec(dx: int, dy: int, elapsed_micros: int) -> int {
    if elapsed_micros <= 0 {
        0
    } else {
        floor_sqrt((dx * dx + dy * dy) as nat) as int * 1000 / elapsed_micros
    }
}

/// Compute the drag speed in pixels per second from a pointer delta (in
/// thousandths of a pixel) and the elapsed time (in microseconds).
pub fn drag_speed(dx_milli: i64, dy_milli: i64, elapsed_micros: u64) -> (speed: u64)
    requires
        -2 * POINTER_LIMIT_MILLI <= dx_milli <= 2 * POINTER_LIMIT_MILLI,
        -2 * POINTER_LIMIT_MILLI <= dy_milli <= 2 * POINTER_LIMIT_MILLI,
    ensures
        speed == speed_spec(dx_milli as int, dy_milli as int, elapsed_micros as int),
{
    if elapsed_micros == 0 {
        return 0;
    }
    proof {
        assert(dx_milli * dx_milli + dy_milli * dy_milli <= 8_000_000_000_000_000_000int
            && dx_milli * dx_milli >= 0 && dy_milli * dy_milli >= 0) by (nonlinear_arith)
            requires
                -2_000_000_000 <= dx_milli <= 2_000_000_000,
                -2_000_000_000 <= dy_milli <= 2_000_000_000,
        ;
    }
    let d2 = (dx_milli * dx_milli + dy_milli * dy_milli) as u64;
    let dist = int_sqrt(d2);
    proof {
        assert(dist * dist <= 8_000_000_000_000_000_000);
        assert(dist <= 3_000_000_000) by (nonlinear_arith)
            requires
                dist * dist <= 8_000_000_000_000_000_000,
                dist >= 0,
        ;
    }
    dist * 1000 / elapsed_micros
}

/// Rate-controls pointer-driven continuous edits: tracks the drag state of
/// the primary button and, per distinct tool, the timestamp of its last
/// triggered action.
#[verifier::ext_equal]
#[derive(Clone, Copy, PartialEq, Eq, Debug)]
pub struct InteractionThrottle {
    /// Whether the cumulative movement since the press has exceeded the drag
    /// threshold.
    pub is_dragging: bool,
    /// Where the primary button went down, while it is held.
    pub drag_start: Option<(i64, i64)>,
    /// The pointer position at the previous sample.
    pub last_pointer: Option<(i64, i64)>,
    /// When the previous drag sample was taken; the basis of the speed
    /// computation.
    pub last_action_micros: Option<u64>,
    /// Last trigger time of the paint tool.
    pub last_paint_micros: Option<u64>,
    /// Last trigger time of the glider stamp.
    pub last_glider_micros: Option<u64>,
    /// Last trigger time of the lightweight-spaceship stamp.
    pub last_lwss_micros: Option<u64>,
    /// Last trigger time of the pulsar stamp.
    pub last_pulsar_micros: Option<u64>,
    /// Last trigger time of the Gosper-gun stamp.
    pub last_gosper_gun_micros: Option<u64>,
    /// Last trigger time of the pentadecathlon stamp.
    pub last_pentadecathlon_micros: Option<u64>,
    /// Last trigger time of the Simkin-gun stamp.
    pub last_simkin_gun_micros: Option<u64>,
    /// Last trigger time of the clear tool.
    pub last_clear_micros: Option<u64>,
    /// Last trigger time of the random-fill tool.
    pub last_random_micros: Option<u64>,
}

impl InteractionThrottle {
    /// The last-trigger timestamp of one tool.
    pub open spec fn last_trigger(self, mode: CursorMode) -> Option<u64> {
        match mode {
            CursorMode::Paint => self.last_paint_micros,
            CursorMode::PlaceGlider => self.last_glider_micros,
            CursorMode::PlaceLWSS => self.last_lwss_micros,
            CursorMode::PlacePulsar => self.last_pulsar_micros,
            CursorMode::PlaceGosperGun => self.last_gosper_gun_micros,
            CursorMode::PlacePentadecathlon => self.last_pentadecathlon_micros,
            CursorMode::PlaceSimkinGun => self.last_simkin_gun_micros,
            CursorMode::ClearArea => self.last_clear_micros,
            CursorMode::RandomFill => self.last_random_micros,
        }
    }

    /// The throttle with one tool's last-trigger timestamp replaced and
    /// every other timer untouched.
    pub open spec fn with_trigger(self, mode: CursorMode, t: Option<u64>) -> Self {
        match mode {
            CursorMode::Paint => InteractionThrottle { last_paint_micros: t, ..self },
            CursorMode::PlaceGlider => InteractionThrottle { last_glider_micros: t, ..self },
            CursorMode::PlaceLWSS => InteractionThrottle { last_lwss_micros: t, ..self },
            CursorMode::PlacePulsar => InteractionThrottle { last_pulsar_micros: t, ..self },
            CursorMode::PlaceGosperGun => InteractionThrottle {
                last_gosper_gun_micros: t,
                ..self
            },
            CursorMode::PlacePentadecathlon => InteractionThrottle {
                last_pentadecathlon_micros: t,
                ..self
            },
            CursorMode::PlaceSimkinGun => InteractionThrottle {
                last_simkin_gun_micros: t,
                ..self
            },
            CursorMode::ClearArea => InteractionThrottle { last_clear_micros: t, ..self },
            CursorMode::RandomFill => InteractionThrottle { last_random_micros: t, ..self },
        }
    }

    /// Stored pointer positions stay within the supported coordinate range.
    pub open spec fn wf(self) -> bool {
        &&& match self.drag_start {
            Some(p) => -POINTER_LIMIT_MILLI <= p.0 <= POINTER_LIMIT_MILLI
                && -POINTER_LIMIT_MILLI <= p.1 <= POINTER_LIMIT_MILLI,
            None => true,
        }
        &&& match self.last_pointer {
            Some(p) => -POINTER_LIMIT_MILLI <= p.0 <= POINTER_LIMIT_MILLI
                && -POINTER_LIMIT_MILLI <= p.1 <= POINTER_LIMIT_MILLI,
            None => true,
        }
    }

    /// A throttle with no press, no drag, and no tool triggered yet.
    pub fn new() -> (r: Self)
        ensures
            r.wf(),
            !r.is_dragging,
            r.drag_start is None,
            r.last_pointer is None,
            r.last_action_micros is None,
            forall|m: CursorMode| r.last_trigger(m) is None,
    {
        InteractionThrottle {
            is_dragging: false,
            drag_start: None,
            last_pointer: None,
            last_action_micros: None,
            last_paint_micros: None,
            last_glider_micros: None,
            last_lwss_micros: None,
            last_pulsar_micros: None,
            last_gosper_gun_micros: None,
            last_pentadecathlon_micros: None,
            last_simkin_gun_micros: None,
            last_clear_micros: None,
            last_random_micros: None,
        }
    }

    /// A press: record the press position and the sample time, start outside
    /// drag mode, and fire the tool once immediately — a click always
    /// triggers exactly once, bypassing rate limiting, and touches no
    /// per-tool timer.
    pub fn on_press(&mut self, pos_x_milli: i64, pos_y_milli: i64, now_micros: u64) -> (fire:
        bool)
        requires
            old(self).wf(),
            -POINTER_LIMIT_MILLI <= pos_x_milli <= POINTER_LIMIT_MILLI,
            -POINTER_LIMIT_MILLI <= pos_y_milli <= POINTER_LIMIT_MILLI,
        ensures
            fire,
            final(self).wf(),
            *final(self) == (InteractionThrottle {
                is_dragging: false,
                drag_start: Some((pos_x_milli, pos_y_milli)),
                last_pointer: Some((pos_x_milli, pos_y_milli)),
                last_action_micros: Some(now_micros),
                ..*old(self)
            }),
    {
        self.drag_start = Some((pos_x_milli, pos_y_milli));
        self.last_pointer = Some((pos_x_milli, pos_y_milli));
        self.last_action_micros = Some(now_micros);
        self.is_dragging = false;
        true
    }

    /// A release: leave drag mode and forget the press; the per-tool timers
    /// and the last pointer position are kept.
    pub fn on_release(&mut self)
        requires
            old(self).wf(),
        ensures
            final(self).wf(),
            *final(self) == (InteractionThrottle {
                is_dragging: false,
                drag_start: None,
                last_action_micros: None,
                ..*old(self)
            }),
    {
        self.is_dragging = false;
        self.drag_start = None;
        self.last_action_micros = None;
    }

    /// The pointer left the window: forget the previous sample so a stale
    /// delta is not used when it re-enters; an ongoing drag is kept.
    pub fn on_pointer_leave(&mut self)
        requires
            old(self).wf(),
        ensures
            final(self).wf(),
            *final(self) == (InteractionThrottle { last_pointer: None, ..*old(self) }),
    {
        self.last_pointer = None;
    }
}

/// The secondary-button gesture: a press that ends without enough cumulative
/// movement is a click (it opens the context menu); one that moves past the
/// drag threshold becomes a pan, and every further move hands the host the
/// screen delta to pan the view by.
#[verifier::ext_equal]
#[derive(Clone, Copy, PartialEq, Eq, Debug)]
pub struct PanGesture {
    /// Whether the secondary button is down.
    pub pressed: bool,
    /// Where it went down, while it is held.
    pub start: Option<(i64, i64)>,
    /// Whether the movement since the press has exceeded the drag threshold.
    pub drag_started: bool,
    /// The pointer position at the previous sample.
    pub last_pointer: Option<(i64, i64)>,
}

/// What one pointer-move sample does to the pan gesture, and the screen
/// delta (if any) to pan by: with the button up the previous sample is
/// forgotten; held, movement past the threshold starts the drag, and while
/// dragging each move pans by the delta from the previous sample.
pub open spec fn pan_move_spec(s: PanGesture, px: i64, py: i64) -> (PanGesture, Option<
    (i64, i64),
>) {
    if !s.pressed {
        (PanGesture { last_pointer: None, ..s }, None)
    } else {
        let dragging = match s.start {
            Some(d) => s.drag_started || dist2(px as int, py as int, d.0 as int, d.1 as int)
                > DRAG_THRESHOLD_MILLI_SQ as int,
            None => s.drag_started,
        };
        let pan = if dragging {
            match s.last_pointer {
                Some(lp) => Some(((px - lp.0) as i64, (py - lp.1) as i64)),
                None => None,
            }
        } else {
            None
        };
        (PanGesture { drag_started: dragging, last_pointer: Some((px, py)), ..s }, pan)
    }
}

impl PanGesture {
    /// Stored pointer positions stay within the supported coordinate range.
    pub open spec fn wf(self) -> bool {
        &&& match self.start {
            Some(p) => -POINTER_LIMIT_MILLI <= p.0 <= POINTER_LIMIT_MILLI
                && -POINTER_LIMIT_MILLI <= p.1 <= POINTER_LIMIT_MILLI,
            None => true,
        }
        &&& match self.last_pointer {
            Some(p) => -POINTER_LIMIT_MILLI <= p.0 <= POINTER_LIMIT_MILLI
                && -POINTER_LIMIT_MILLI <= p.1 <= POINTER_LIMIT_MILLI,
            None => true,
        }
    }

    /// A gesture with the button up.
    pub fn new() -> (r: Self)
        ensures
            r.wf(),
            r == (PanGesture {
                pressed: false,
                start: None,
                drag_started: false,
                last_pointer: None,
            }),
    {
        PanGesture { pressed: false, start: None, drag_started: false, last_pointer: None }
    }

    /// The secondary button went down: remember where, outside drag mode.
    pub fn on_press(&mut self, pos_x_milli: i64, pos_y_milli: i64)
        requires
            old(self).wf(),
            -POINTER_LIMIT_MILLI <= pos_x_milli <= POINTER_LIMIT_MILLI,
            -POINTER_LIMIT_MILLI <= pos_y_milli <= POINTER_LIMIT_MILLI,
        ensures
            final(self).wf(),
            *final(self) == (PanGesture {
                pressed: true,
                start: Some((pos_x_milli, pos_y_milli)),
                drag_started: false,
                ..*old(self)
            }),
    {
        self.pressed = true;
        self.start = Some((pos_x_milli, pos_y_milli));
        self.drag_started = false;
    }

    /// The secondary button came up: a press that never became a drag, while
    /// the pointer is known, was a click — the context menu opens.
    pub fn on_release(&mut self, cursor_known: bool) -> (menu: bool)
        requires
            old(self).wf(),
        ensures
            final(self).wf(),
            menu == (old(self).pressed && !old(self).drag_started && cursor_known),
            *final(self) == (PanGesture { pressed: false, start: None, ..*old(self) }),
    {
        let menu = self.pressed && !self.drag_started && cursor_known;
        self.pressed = false;
        self.start = None;
        menu
    }

    /// A pointer move: decide whether (and by how much) the host should pan.
    pub fn on_move(&mut self, pos_x_milli: i64, pos_y_milli: i64) -> (pan: Option<(i64, i64)>)
        requires
            old(self).wf(),
            -POINTER_LIMIT_MILLI <= pos_x_milli <= POINTER_LIMIT_MILLI,
            -POINTER_LIMIT_MILLI <= pos_y_milli <= POINTER_LIMIT_MILLI,
        ensures
            final(self).wf(),
            (*final(self), pan) == pan_move_spec(*old(self), pos_x_milli, pos_y_milli),
    {
        if !self.pressed {
            self.last_pointer = None;
            return None;
        }
        if !self.drag_started {
            if let Some(d) = self.start {
                let dx = pos_x_milli - d.0;
                let dy = pos_y_milli - d.1;
                proof {
                    assert(dx * dx + dy * dy <= 8_000_000_000_000_000_000int && dx * dx >= 0
                        && dy * dy >= 0) by (nonlinear_arith)
                        requires
                            -2_000_000_000 <= dx <= 2_000_000_000,
                            -2_000_000_000 <= dy <= 2_000_000_000,
                    ;
                }
                if dx * dx + dy * dy > DRAG_THRESHOLD_MILLI_SQ {
                    self.drag_started = true;
                }
            }
        }
        let pan = if self.drag_started {
            match self.last_pointer {
                Some(lp) => Some((pos_x_milli - lp.0, pos_y_milli - lp.1)),
                None => None,
            }
        } else {
            None
        };
        self.last_pointer = Some((pos_x_milli, pos_y_milli));
        proof {
            assert((*self, pan) =~= pan_move_spec(*old(self), pos_x_milli, pos_y_milli));
        }
        pan
    }
}

/// What one pointer-move sample does to the throttle, and whether the tool
/// fires: movement past the threshold enters drag mode; while dragging, and
/// once a previous sample exists to measure speed against, the tool fires
/// iff its own last trigger is at least the speed-mapped delay ago (or it
/// never fired), and on firing its timer is set to now.
pub open spec fn throttle_move_spec(
    s: InteractionThrottle,
    px: i64,
    py: i64,
    now: u64,
    mode: CursorMode,
) -> (InteractionThrottle, bool) {
    let dragging = match s.drag_start {
        Some(d) => s.is_dragging || dist2(px as int, py as int, d.0 as int, d.1 as int)
            > DRAG_THRESHOLD_MILLI_SQ as int,
        None => s.is_dragging,
    };
    let active = s.drag_start is Some && dragging && s.last_pointer is Some;
    let speed = match (s.last_pointer, s.last_action_micros) {
        (Some(lp), Some(lt)) => speed_spec(
            px - lp.0,
            py - lp.1,
            if now >= lt {
                now - lt
            } else {
                0
            },
        ),
        _ => 0,
    };
    let fire = active && match s.last_trigger(mode) {
        None => true,
        Some(t) => now >= t && now - t >= delay_spec(speed),
    };
    let s1 = InteractionThrottle {
        is_dragging: dragging,
        last_pointer: Some((px, py)),
        last_action_micros: if active {
            Some(now)
        } else {
            s.last_action_micros
        },
        ..s
    };
    let s2 = if fire {
        s1.with_trigger(mode, Some(now))
    } else {
        s1
    };
    (s2, fire)
}

impl InteractionThrottle {
    /// The last-trigger timestamp of one tool, as the GUI reads it.
    pub fn get_last_trigger(&self, mode: CursorMode) -> (r: Option<u64>)
        ensures
            r == self.last_trigger(mode),
    {
        match mode {
            CursorMode::Paint => self.last_paint_micros,
            CursorMode::PlaceGlider => self.last_glider_micros,
            CursorMode::PlaceLWSS => self.last_lwss_micros,
            CursorMode::PlacePulsar => self.last_pulsar_micros,
            CursorMode::PlaceGosperGun => self.last_gosper_gun_micros,
            CursorMode::PlacePentadecathlon => self.last_pentadecathlon_micros,
            CursorMode::PlaceSimkinGun => self.last_simkin_gun_micros,
            CursorMode::ClearArea => self.last_clear_micros,
            CursorMode::RandomFill => self.last_random_micros,
        }
    }

    fn set_last_trigger(&mut self, mode: CursorMode, t: Option<u64>)
        ensures
            *final(self) == old(self).with_trigger(mode, t),
    {
        match mode {
            CursorMode::Paint => {
                self.last_paint_micros = t;
            },
            CursorMode::PlaceGlider => {
                self.last_glider_micros = t;
            },
            CursorMode::PlaceLWSS => {
                self.last_lwss_micros = t;
            },
            CursorMode::PlacePulsar => {
                self.last_pulsar_micros = t;
            },
            CursorMode::PlaceGosperGun => {
                self.last_gosper_gun_micros = t;
            },
            CursorMode::PlacePentadecathlon => {
                self.last_pentadecathlon_micros = t;
            },
            CursorMode::PlaceSimkinGun => {
                self.last_simkin_gun_micros = t;
            },
            CursorMode::ClearArea => {
                self.last_clear_micros = t;
            },
            CursorMode::RandomFill => {
                self.last_random_micros = t;
            },
        }
    }

    /// A pointer move while the primary button is held: decide whether the
    /// given tool fires now, and update the drag state and the tool's timer
    /// accordingly.
    pub fn on_move(&mut self, pos_x_milli: i64, pos_y_milli: i64, now_micros: u64, mode:
        CursorMode) -> (fire: bool)
        requires
            old(self).wf(),
            -POINTER_LIMIT_MILLI <= pos_x_milli <= POINTER_LIMIT_MILLI,
            -POINTER_LIMIT_MILLI <= pos_y_milli <= POINTER_LIMIT_MILLI,
        ensures
            final(self).wf(),
            (*final(self), fire) == throttle_move_spec(
                *old(self),
                pos_x_milli,
                pos_y_milli,
                now_micros,
                mode,
            ),
    {
        let has_start = match self.drag_start {
            Some(_) => true,
            None => false,
        };
        let has_sample = match self.last_pointer {
            Some(_) => true,
            None => false,
        };
        if !self.is_dragging {
            if let Some(d) = self.drag_start {
                let dx = pos_x_milli - d.0;
                let dy = pos_y_milli - d.1;
                proof {
                    assert(dx * dx + dy * dy <= 8_000_000_000_000_000_000int && dx * dx >= 0
                        && dy * dy >= 0) by (nonlinear_arith)
                        requires
                            -2_000_000_000 <= dx <= 2_000_000_000,
                            -2_000_000_000 <= dy <= 2_000_000_000,
                    ;
                }
                if dx * dx + dy * dy > DRAG_THRESHOLD_MILLI_SQ {
                    self.is_dragging = true;
                }
            }
        }
        let mut fire = false;
        if has_start && self.is_dragging && has_sample {
            let speed = match (self.last_pointer, self.last_action_micros) {
                (Some(lp), Some(lt)) => {
                    let elapsed = if now_micros >= lt {
                        now_micros - lt
                    } else {
                        0
                    };
                    drag_speed(pos_x_milli - lp.0, pos_y_milli - lp.1, elapsed)
                },
                _ => 0,
            };
            let should = match self.get_last_trigger(mode) {
                None => true,
                Some(t) => now_micros >= t && now_micros - t >= delay_micros_for_speed(speed),
            };
            if should {
                self.set_last_trigger(mode, Some(now_micros));
                fire = true;
            }
            self.last_action_micros = Some(now_micros);
        }
        self.last_pointer = Some((pos_x_milli, pos_y_milli));
        proof {
            assert((*self, fire) =~= throttle_move_spec(
                *old(self),
                pos_x_milli,
                pos_y_milli,
                now_micros,
                mode,
            ));
        }
        fire
    }
}

} // verus!
