//! The pan/zoom viewport transform between screen and world coordinates.
//!
//! Lengths are carried as integers at a fixed sub-pixel resolution: screen
//! positions, pan deltas and view offsets in thousandths of a screen pixel,
//! and the zoom factor in thousandths (so one cell spans `zoom_milli`
//! thousandths of a pixel on screen). The viewport can never show area
//! outside the grid: the offset is clamped to the grid extent on each axis.

use vstd::prelude::*;

verus! {

use vstd::arithmetic::div_mod::lemma_fundamental_div_mod;

/// Sub-pixel units per screen pixel (and zoom units per 1.0).
pub const MILLI: u32 = 1000;

/// Minimum zoom: one screen pixel per cell.
pub const MIN_ZOOM_MILLI: u32 = 1000;

/// Maximum zoom factor (16.0).
pub const MAX_ZOOM_MILLI: u32 = 16000;

/// How much each zoom step scales the zoom factor (1.2), in thousandths.
pub const ZOOM_STEP_NUM: u32 = 1200;

/// Largest supported grid or viewport extent, in cells or pixels.
pub const DIM_LIMIT: u32 = 1_000_000;

/// Largest screen coordinate or pan delta, in thousandths of a pixel.
pub const SCREEN_LIMIT_MILLI: i64 = 1_000_000_000_000;

/// `x` clamped into `[lo, hi]`.
pub open spec fn clamp_spec(x: int, lo: int, hi: int) -> int {
    if x < lo {
        lo
    } else if x > hi {
        hi
    } else {
        x
    }
}

/// The largest allowed offset on one axis: the grid extent at the given zoom
/// minus the viewport extent, but never negative (a grid smaller than the
/// viewport pins the offset to 0).
pub open spec fn max_offset_for(grid_dim: u32, zoom_milli: int, viewport_dim: u32) -> int {
    let m = grid_dim * zoom_milli - viewport_dim * (MILLI as int);
    if m > 0 {
        m
    } else {
        0
    }
}

/// One zoom-wheel step applied to a zoom factor: scale by 1.2 (in) or 1/1.2
/// (out), then clamp into the legal zoom range.
pub open spec fn zoom_step_spec(zoom_milli: int, zoom_in: bool) -> int {
    if zoom_in {
        clamp_spec(zoom_milli * (ZOOM_STEP_NUM as int) / (MILLI as int), MIN_ZOOM_MILLI as int, MAX_ZOOM_MILLI as int)
    } else {
        clamp_spec(zoom_milli * (MILLI as int) / (ZOOM_STEP_NUM as int), MIN_ZOOM_MILLI as int, MAX_ZOOM_MILLI as int)
    }
}

/// The offset that keeps the world point now under `anchor` under it after
/// the zoom changes from `z_old` to `z_new`: the anchor's world position
/// times the new zoom, minus the anchor.
pub open spec fn anchored_offset(off: int, anchor: int, z_old: int, z_new: int) -> int {
    (anchor + off) * z_new / z_old - anchor
}

/// The view after a pan by a screen delta: the content follows the drag
/// direction, and the offset is clamped back onto the grid.
pub open spec fn pan_view(v: ViewState, dx: int, dy: int) -> ViewState {
    ViewState {
        offset_x_milli: clamp_spec(v.offset_x_milli - dx, 0, v.max_offset_x()) as i64,
        offset_y_milli: clamp_spec(v.offset_y_milli - dy, 0, v.max_offset_y()) as i64,
        ..v
    }
}

/// The view after an anchor-preserving change of zoom to `nz`: the offset is
/// recomputed so the world point under the anchor stays under it, then
/// clamped back onto the grid.
pub open spec fn anchored_zoom_view(v: ViewState, nz: int, ax: int, ay: int) -> ViewState {
    ViewState {
        zoom_milli: nz as u32,
        offset_x_milli: clamp_spec(
            anchored_offset(v.offset_x_milli as int, ax, v.zoom_milli as int, nz),
            0,
            max_offset_for(v.grid_width, nz, v.viewport_width),
        ) as i64,
        offset_y_milli: clamp_spec(
            anchored_offset(v.offset_y_milli as int, ay, v.zoom_milli as int, nz),
            0,
            max_offset_for(v.grid_height, nz, v.viewport_height),
        ) as i64,
        ..v
    }
}

/// The view after one cursor-anchored zoom step: no-op when the clamped step
/// leaves the zoom unchanged.
pub open spec fn zoom_view(v: ViewState, zoom_in: bool, ax: int, ay: int) -> ViewState {
    let nz = zoom_step_spec(v.zoom_milli as int, zoom_in);
    if nz == v.zoom_milli as int {
        v
    } else {
        anchored_zoom_view(v, nz, ax, ay)
    }
}

/// The view after one zoom step without an anchor (pointer outside the
/// window): the offset is kept as it is, then clamped for the new zoom.
pub open spec fn zoom_view_free(v: ViewState, zoom_in: bool) -> ViewState {
    let nz = zoom_step_spec(v.zoom_milli as int, zoom_in);
    if nz == v.zoom_milli as int {
        v
    } else {
        ViewState {
            zoom_milli: nz as u32,
            offset_x_milli: clamp_spec(
                v.offset_x_milli as int,
                0,
                max_offset_for(v.grid_width, nz, v.viewport_width),
            ) as i64,
            offset_y_milli: clamp_spec(
                v.offset_y_milli as int,
                0,
                max_offset_for(v.grid_height, nz, v.viewport_height),
            ) as i64,
            ..v
        }
    }
}

/// Converts between screen and world coordinates under the current zoom and
/// offset, and enforces that the viewport never shows area outside the grid.
#[verifier::ext_equal]
#[derive(Clone, Copy, PartialEq, Eq, Structural, Debug)]
pub struct ViewState {
    /// Zoom factor in thousandths; within `[MIN_ZOOM_MILLI, MAX_ZOOM_MILLI]`.
    pub zoom_milli: u32,
    /// World-space translation of the viewport's top-left corner, in
    /// thousandths of a screen pixel; within `[0, max_offset_x]`.
    pub offset_x_milli: i64,
    /// The same for the vertical axis; within `[0, max_offset_y]`.
    pub offset_y_milli: i64,
    /// Viewport width in pixels.
    pub viewport_width: u32,
    /// Viewport height in pixels.
    pub viewport_height: u32,
    /// Grid width in cells.
    pub grid_width: u32,
    /// Grid height in cells.
    pub grid_height: u32,
}

impl ViewState {
    /// The largest allowed offset on the horizontal axis.
    pub open spec fn max_offset_x(self) -> int {
        max_offset_for(self.grid_width, self.zoom_milli as int, self.viewport_width)
    }

    /// The largest allowed offset on the vertical axis.
    pub open spec fn max_offset_y(self) -> int {
        max_offset_for(self.grid_height, self.zoom_milli as int, self.viewport_height)
    }

    /// Dimensions are positive and bounded, the zoom is in range, and the
    /// offset never lets the viewport leave the grid.
    pub open spec fn wf(self) -> bool {
        &&& 1 <= self.grid_width <= DIM_LIMIT
        &&& 1 <= self.grid_height <= DIM_LIMIT
        &&& 1 <= self.viewport_width <= DIM_LIMIT
        &&& 1 <= self.viewport_height <= DIM_LIMIT
        &&& MIN_ZOOM_MILLI <= self.zoom_milli <= MAX_ZOOM_MILLI
        &&& 0 <= self.offset_x_milli <= self.max_offset_x()
        &&& 0 <= self.offset_y_milli <= self.max_offset_y()
    }

    /// The initial view: minimum zoom, offset at the grid's top-left corner.
    pub fn new(grid_width: u32, grid_height: u32, viewport_width: u32, viewport_height: u32) -> (r:
        Self)
        requires
            1 <= grid_width <= DIM_LIMIT,
            1 <= grid_height <= DIM_LIMIT,
            1 <= viewport_width <= DIM_LIMIT,
            1 <= viewport_height <= DIM_LIMIT,
        ensures
            r.wf(),
            r == (ViewState {
                zoom_milli: MIN_ZOOM_MILLI,
                offset_x_milli: 0i64,
                offset_y_milli: 0i64,
                viewport_width,
                viewport_height,
                grid_width,
                grid_height,
            }),
    {
        ViewState {
            zoom_milli: MIN_ZOOM_MILLI,
            offset_x_milli: 0,
            offset_y_milli: 0,
            viewport_width,
            viewport_height,
            grid_width,
            grid_height,
        }
    }

    /// In a well-formed view the offsets are bounded by the largest grid
    /// extent the zoom range allows.
    pub proof fn lemma_offset_bounds(self)
        requires
            self.wf(),
        ensures
            0 <= self.offset_x_milli <= 16_000_000_000,
            0 <= self.offset_y_milli <= 16_000_000_000,
    {
        assert(self.grid_width * self.zoom_milli <= 16_000_000_000) by (nonlinear_arith)
            requires
                self.grid_width <= 1_000_000,
                self.zoom_milli <= 16_000,
        ;
        assert(self.grid_height * self.zoom_milli <= 16_000_000_000) by (nonlinear_arith)
            requires
                self.grid_height <= 1_000_000,
                self.zoom_milli <= 16_000,
        ;
    }

    /// The world cell under a screen position: `(p + offset) / zoom`,
    /// rounded down to whole cells.
    pub fn screen_to_world(&self, sx_milli: i64, sy_milli: i64) -> (r: (i64, i64))
        requires
            self.wf(),
            0 <= sx_milli <= SCREEN_LIMIT_MILLI,
            0 <= sy_milli <= SCREEN_LIMIT_MILLI,
        ensures
            r.0 == (sx_milli + self.offset_x_milli) / (self.zoom_milli as int),
            r.1 == (sy_milli + self.offset_y_milli) / (self.zoom_milli as int),
    {
        proof {
            self.lemma_offset_bounds();
        }
        let wx = ((sx_milli + self.offset_x_milli) as u64) / (self.zoom_milli as u64);
        let wy = ((sy_milli + self.offset_y_milli) as u64) / (self.zoom_milli as u64);
        (wx as i64, wy as i64)
    }

    /// The grid extent (at zoom `nz`) and the viewport extent, in sub-pixel
    /// units, both fit comfortably in 64 bits.
    proof fn lemma_extent_bounds(self, nz: int)
        requires
            self.wf(),
            MIN_ZOOM_MILLI <= nz <= MAX_ZOOM_MILLI,
        ensures
            0 <= self.grid_width * nz <= 16_000_000_000,
            0 <= self.grid_height * nz <= 16_000_000_000,
            0 <= max_offset_for(self.grid_width, nz, self.viewport_width) <= 16_000_000_000,
            0 <= max_offset_for(self.grid_height, nz, self.viewport_height) <= 16_000_000_000,
    {
        assert(self.grid_width * nz <= 16_000_000_000 && self.grid_width * nz >= 0)
            by (nonlinear_arith)
            requires
                self.grid_width <= 1_000_000,
                nz <= 16_000,
                nz >= 0,
        ;
        assert(self.grid_height * nz <= 16_000_000_000 && self.grid_height * nz >= 0)
            by (nonlinear_arith)
            requires
                self.grid_height <= 1_000_000,
                nz <= 16_000,
                nz >= 0,
        ;
    }

    /// Recompute the offset so the world point under `(ax, ay)` stays under
    /// it at zoom `nz`, clamp it onto the grid, and switch to `nz`.
    fn apply_anchored_zoom(&mut self, nz: u32, ax: i64, ay: i64)
        requires
            old(self).wf(),
            MIN_ZOOM_MILLI <= nz <= MAX_ZOOM_MILLI,
            0 <= ax <= SCREEN_LIMIT_MILLI,
            0 <= ay <= SCREEN_LIMIT_MILLI,
        ensures
            *final(self) == anchored_zoom_view(*old(self), nz as int, ax as int, ay as int),
            final(self).wf(),
    {
        proof {
            self.lemma_offset_bounds();
            self.lemma_extent_bounds(nz as int);
        }
        let oz = self.zoom_milli;
        proof {
            vstd::arithmetic::mul::lemma_mul_upper_bound(
                ax + self.offset_x_milli,
                SCREEN_LIMIT_MILLI + 16_000_000_000,
                nz as int,
                MAX_ZOOM_MILLI as int,
            );
            vstd::arithmetic::mul::lemma_mul_upper_bound(
                ay + self.offset_y_milli,
                SCREEN_LIMIT_MILLI + 16_000_000_000,
                nz as int,
                MAX_ZOOM_MILLI as int,
            );
            vstd::arithmetic::div_mod::lemma_div_nonincreasing(
                (ax + self.offset_x_milli) * (nz as int),
                oz as int,
            );
            vstd::arithmetic::div_mod::lemma_div_nonincreasing(
                (ay + self.offset_y_milli) * (nz as int),
                oz as int,
            );
            vstd::arithmetic::div_mod::lemma_div_pos_is_pos(
                (ax + self.offset_x_milli) * (nz as int),
                oz as int,
            );
            vstd::arithmetic::div_mod::lemma_div_pos_is_pos(
                (ay + self.offset_y_milli) * (nz as int),
                oz as int,
            );
            vstd::arithmetic::mul::lemma_mul_nonnegative(
                ax + self.offset_x_milli,
                nz as int,
            );
            vstd::arithmetic::mul::lemma_mul_nonnegative(
                ay + self.offset_y_milli,
                nz as int,
            );
        }
        let qx = ((ax + self.offset_x_milli) as u64) * (nz as u64) / (oz as u64);
        let qy = ((ay + self.offset_y_milli) as u64) * (nz as u64) / (oz as u64);
        let ox = qx as i64 - ax;
        let oy = qy as i64 - ay;
        let mx = {
            let m = (self.grid_width as i64) * (nz as i64) - (self.viewport_width as i64) * (
            MILLI as i64);
            if m > 0 {
                m
            } else {
                0
            }
        };
        let my = {
            let m = (self.grid_height as i64) * (nz as i64) - (self.viewport_height as i64) * (
            MILLI as i64);
            if m > 0 {
                m
            } else {
                0
            }
        };
        self.offset_x_milli = if ox < 0 {
            0
        } else if ox > mx {
            mx
        } else {
            ox
        };
        self.offset_y_milli = if oy < 0 {
            0
        } else if oy > my {
            my
        } else {
            oy
        };
        self.zoom_milli = nz;
    }

    /// One zoom-wheel step, anchored at the pointer: scale the zoom by 1.2
    /// (in) or 1/1.2 (out) and clamp it; if that leaves the zoom unchanged,
    /// do nothing; else keep the world point under the anchor fixed and
    /// clamp the offset onto the grid.
    pub fn zoom_by(&mut self, zoom_in: bool, anchor_x_milli: i64, anchor_y_milli: i64)
        requires
            old(self).wf(),
            0 <= anchor_x_milli <= SCREEN_LIMIT_MILLI,
            0 <= anchor_y_milli <= SCREEN_LIMIT_MILLI,
        ensures
            *final(self) == zoom_view(
                *old(self),
                zoom_in,
                anchor_x_milli as int,
                anchor_y_milli as int,
            ),
            final(self).wf(),
    {
        let oz = self.zoom_milli;
        let raw = if zoom_in {
            oz * ZOOM_STEP_NUM / MILLI
        } else {
            oz * MILLI / ZOOM_STEP_NUM
        };
        let nz = if raw < MIN_ZOOM_MILLI {
            MIN_ZOOM_MILLI
        } else if raw > MAX_ZOOM_MILLI {
            MAX_ZOOM_MILLI
        } else {
            raw
        };
        if nz == oz {
            return ;
        }
        self.apply_anchored_zoom(nz, anchor_x_milli, anchor_y_milli);
    }

    /// One zoom-wheel step with the pointer outside the window: the offset
    /// is kept and only clamped for the new zoom.
    pub fn zoom_by_free(&mut self, zoom_in: bool)
        requires
            old(self).wf(),
        ensures
            *final(self) == zoom_view_free(*old(self), zoom_in),
            final(self).wf(),
    {
        proof {
            self.lemma_offset_bounds();
        }
        let oz = self.zoom_milli;
        let raw = if zoom_in {
            oz * ZOOM_STEP_NUM / MILLI
        } else {
            oz * MILLI / ZOOM_STEP_NUM
        };
        let nz = if raw < MIN_ZOOM_MILLI {
            MIN_ZOOM_MILLI
        } else if raw > MAX_ZOOM_MILLI {
            MAX_ZOOM_MILLI
        } else {
            raw
        };
        if nz == oz {
            return ;
        }
        proof {
            self.lemma_extent_bounds(nz as int);
        }
        let mx = {
            let m = (self.grid_width as i64) * (nz as i64) - (self.viewport_width as i64) * (
            MILLI as i64);
            if m > 0 {
                m
            } else {
                0
            }
        };
        let my = {
            let m = (self.grid_height as i64) * (nz as i64) - (self.viewport_height as i64) * (
            MILLI as i64);
            if m > 0 {
                m
            } else {
                0
            }
        };
        if self.offset_x_milli > mx {
            self.offset_x_milli = mx;
        }
        if self.offset_y_milli > my {
            self.offset_y_milli = my;
        }
        self.zoom_milli = nz;
    }

    /// Set the zoom to an exact value (clamped into the legal range), with
    /// the same anchor-preserving logic as `zoom_by` but anchored at the
    /// viewport's geometric center.
    pub fn set_zoom_exact(&mut self, zoom_milli: u32)
        requires
            old(self).wf(),
        ensures
            ({
                let nz = clamp_spec(zoom_milli as int, MIN_ZOOM_MILLI as int, MAX_ZOOM_MILLI as int);
                if nz == old(self).zoom_milli as int {
                    *final(self) == *old(self)
                } else {
                    *final(self) == anchored_zoom_view(
                        *old(self),
                        nz,
                        old(self).viewport_width as int * MILLI as int / 2,
                        old(self).viewport_height as int * MILLI as int / 2,
                    )
                }
            }),
            final(self).wf(),
    {
        let nz = if zoom_milli < MIN_ZOOM_MILLI {
            MIN_ZOOM_MILLI
        } else if zoom_milli > MAX_ZOOM_MILLI {
            MAX_ZOOM_MILLI
        } else {
            zoom_milli
        };
        if nz == self.zoom_milli {
            return ;
        }
        let center_x = (self.viewport_width as i64) * (MILLI as i64) / 2;
        let center_y = (self.viewport_height as i64) * (MILLI as i64) / 2;
        self.apply_anchored_zoom(nz, center_x, center_y);
    }

    /// Pan by a screen delta: the offset moves against the delta so the
    /// content follows the drag, then is clamped onto the grid.
    pub fn pan_by(&mut self, dx_milli: i64, dy_milli: i64)
        requires
            old(self).wf(),
            -SCREEN_LIMIT_MILLI <= dx_milli <= SCREEN_LIMIT_MILLI,
            -SCREEN_LIMIT_MILLI <= dy_milli <= SCREEN_LIMIT_MILLI,
        ensures
            *final(self) == pan_view(*old(self), dx_milli as int, dy_milli as int),
            final(self).wf(),
    {
        proof {
            self.lemma_offset_bounds();
            self.lemma_extent_bounds(self.zoom_milli as int);
        }
        let mx = {
            let m = (self.grid_width as i64) * (self.zoom_milli as i64) - (self.viewport_width
                as i64) * (MILLI as i64);
            if m > 0 {
                m
            } else {
                0
            }
        };
        let my = {
            let m = (self.grid_height as i64) * (self.zoom_milli as i64) - (self.viewport_height
                as i64) * (MILLI as i64);
            if m > 0 {
                m
            } else {
                0
            }
        };
        let ox = self.offset_x_milli - dx_milli;
        let oy = self.offset_y_milli - dy_milli;
        self.offset_x_milli = if ox < 0 {
            0
        } else if ox > mx {
            mx
        } else {
            ox
        };
        self.offset_y_milli = if oy < 0 {
            0
        } else if oy > my {
            my
        } else {
            oy
        };
    }

    /// React to a window resize: a zero dimension is rejected and the view
    /// is left unchanged; otherwise the view is reset for the new grid and
    /// viewport extents, at minimum zoom with the offset at the origin.
    pub fn handle_resize(&mut self, grid_width: u32, grid_height: u32, viewport_width: u32, viewport_height: u32)
        requires
            grid_width <= DIM_LIMIT,
            grid_height <= DIM_LIMIT,
            viewport_width <= DIM_LIMIT,
            viewport_height <= DIM_LIMIT,
        ensures
            grid_width == 0 || grid_height == 0 || viewport_width == 0 || viewport_height == 0
                ==> *final(self) == *old(self),
            grid_width >= 1 && grid_height >= 1 && viewport_width >= 1 && viewport_height >= 1
                ==> {
                &&& *final(self) == (ViewState {
                    zoom_milli: MIN_ZOOM_MILLI,
                    offset_x_milli: 0i64,
                    offset_y_milli: 0i64,
                    viewport_width,
                    viewport_height,
                    grid_width,
                    grid_height,
                })
                &&& final(self).wf()
            },
    {
        if grid_width == 0 || grid_height == 0 || viewport_width == 0 || viewport_height == 0 {
            return ;
        }
        *self = Self::new(grid_width, grid_height, viewport_width, viewport_height);
    }

    /// The current zoom factor (in thousandths) and offset (in thousandths
    /// of a screen pixel).
    pub fn current_view(&self) -> (r: (u32, i64, i64))
        ensures
            r.0 == self.zoom_milli,
            r.1 == self.offset_x_milli,
            r.2 == self.offset_y_milli,
    {
        (self.zoom_milli, self.offset_x_milli, self.offset_y_milli)
    }
}

/// Panning by a delta and then by its negation restores the original view
/// whenever neither call engages the offset clamp.
pub proof fn lemma_pan_round_trip(v: ViewState, dx: int, dy: int)
    requires
        v.wf(),
        0 <= v.offset_x_milli - dx <= v.max_offset_x(),
        0 <= v.offset_y_milli - dy <= v.max_offset_y(),
    ensures
        pan_view(pan_view(v, dx, dy), -dx, -dy) == v,
{
    v.lemma_extent_bounds(v.zoom_milli as int);
    let w = pan_view(v, dx, dy);
    assert(w.offset_x_milli == v.offset_x_milli - dx);
    assert(w.offset_y_milli == v.offset_y_milli - dy);
    assert(pan_view(w, -dx, -dy) =~= v);
}

/// Cursor-anchored zoom invariant: whenever the recomputed offset needs no
/// clamping, the world point under the anchor is unchanged up to the
/// rounding of the new offset to a whole sub-pixel unit. In exact terms: the
/// anchor's world position before the call, `(ax + offset) / zoom` (a
/// rational number of cells), and after it, lie within `1 / new_zoom` of one
/// another, the after-position never past the before-position.
pub proof fn lemma_zoom_anchor_invariant(v: ViewState, zoom_in: bool, ax: int, ay: int)
    requires
        v.wf(),
        0 <= ax,
        0 <= ay,
        ({
            let nz = zoom_step_spec(v.zoom_milli as int, zoom_in);
            &&& 0 <= anchored_offset(v.offset_x_milli as int, ax, v.zoom_milli as int, nz)
                <= max_offset_for(v.grid_width, nz, v.viewport_width)
            &&& 0 <= anchored_offset(v.offset_y_milli as int, ay, v.zoom_milli as int, nz)
                <= max_offset_for(v.grid_height, nz, v.viewport_height)
        }),
    ensures
        ({
            let w = zoom_view(v, zoom_in, ax, ay);
            let zo = v.zoom_milli as int;
            let zn = w.zoom_milli as int;
            &&& (ax + w.offset_x_milli) * zo <= (ax + v.offset_x_milli) * zn < (ax
                + w.offset_x_milli) * zo + zo
            &&& (ay + w.offset_y_milli) * zo <= (ay + v.offset_y_milli) * zn < (ay
                + w.offset_y_milli) * zo + zo
        }),
{
    let zo = v.zoom_milli as int;
    let nz = zoom_step_spec(zo, zoom_in);
    v.lemma_offset_bounds();
    v.lemma_extent_bounds(nz);
    if nz == zo {
        let w = zoom_view(v, zoom_in, ax, ay);
        assert(w == v);
        assert((ax + v.offset_x_milli) * zo <= (ax + v.offset_x_milli) * zo);
        assert(zo >= 1);
    } else {
        let w = zoom_view(v, zoom_in, ax, ay);
        let ox = anchored_offset(v.offset_x_milli as int, ax, zo, nz);
        let oy = anchored_offset(v.offset_y_milli as int, ay, zo, nz);
        assert(w.offset_x_milli == ox);
        assert(w.offset_y_milli == oy);
        let numx = (ax + v.offset_x_milli) * nz;
        let numy = (ay + v.offset_y_milli) * nz;
        lemma_fundamental_div_mod(numx, zo);
        lemma_fundamental_div_mod(numy, zo);
        vstd::arithmetic::div_mod::lemma_mod_bound(numx, zo);
        vstd::arithmetic::div_mod::lemma_mod_bound(numy, zo);
        assert(numx == zo * (numx / zo) + numx % zo);
        assert(zo * (numx / zo) == (numx / zo) * zo) by (nonlinear_arith);
        assert(zo * (numy / zo) == (numy / zo) * zo) by (nonlinear_arith);
        assert(ax + w.offset_x_milli == numx / zo);
        assert(ay + w.offset_y_milli == numy / zo);
    }
}

} // verus!
