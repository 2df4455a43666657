//! The resolution policy: given the fixed virtual resolution and the
//! current window size, pick the integer zoom that keeps virtual pixels
//! square, and derive the display camera's orthographic scale from it.

use vstd::prelude::*;

verus! {

use crate::error::ConfigError;
use crate::milli::{lemma_rdiv_nonneg_le, rdiv};

/// The numerator of the fixed zoom-out factor applied to the display
/// camera: the scale is `4 / (5 * zoom)`, that is `0.8 / zoom`.  A smaller
/// scale value means a larger picture on screen.
pub const ZOOM_OUT_NUM: u64 = 4;

/// `5 * zoom` forms the denominator under `ZOOM_OUT_NUM`.
pub const ZOOM_OUT_DEN_PER_ZOOM: u64 = 5;

/// The fixed virtual resolution the scene is rendered at, in virtual
/// pixels, set once at startup.  Both sides are positive.
#[derive(Clone, Copy, Debug, PartialEq, Eq, Structural)]
pub struct FixedResolution {
    pub width: u32,
    pub height: u32,
}

impl FixedResolution {
    /// Both sides are positive.
    pub open spec fn wf(self) -> bool {
        self.width >= 1 && self.height >= 1
    }

    /// Builds a fixed resolution, rejecting a zero side.
    pub fn new(width: u32, height: u32) -> (r: Result<FixedResolution, ConfigError>)
        ensures
            width >= 1 && height >= 1 ==> r == Ok::<FixedResolution, ConfigError>(
                (FixedResolution { width, height }),
            ),
            width == 0 || height == 0 ==> r == Err::<FixedResolution, ConfigError>(
                ConfigError::ZeroResolution,
            ),
            r is Ok ==> r->Ok_0.wf(),
    {
        if width >= 1 && height >= 1 {
            Ok(FixedResolution { width, height })
        } else {
            Err(ConfigError::ZeroResolution)
        }
    }
}

/// The integer zoom for a window: the smaller of the two axis ratios
/// `window / fixed`, rounded to the nearest integer with halves up, and
/// clamped to at least one.  The clamp guards the degenerate case of a
/// window smaller than the fixed resolution on both axes, where rounding
/// alone would reach zero.
pub open spec fn zoom_spec(fw: int, fh: int, ww: int, wh: int) -> int
    recommends
        fw >= 1,
        fh >= 1,
        ww >= 1,
        wh >= 1,
{
    let r = if ww * fh <= wh * fw {
        rdiv(ww, fw)
    } else {
        rdiv(wh, fh)
    };
    if r < 1 {
        1
    } else {
        r
    }
}

/// The display camera's orthographic scale, as the exact rational
/// `num / den`.
#[derive(Clone, Copy, Debug, PartialEq, Eq, Structural)]
pub struct Scale {
    pub num: u64,
    pub den: u64,
}

impl Scale {
    /// A scale this library computes: `4 / (5 * zoom)` for a positive
    /// integer zoom, hence positive and finite.
    pub open spec fn wf(self) -> bool {
        self.num == ZOOM_OUT_NUM && self.den >= ZOOM_OUT_DEN_PER_ZOOM && self.den
            % ZOOM_OUT_DEN_PER_ZOOM == 0
    }
}

/// The scale for a window, as a value: `4 / (5 * zoom)`.
pub open spec fn scale_spec(fw: int, fh: int, ww: int, wh: int) -> Scale
    recommends
        1 <= fw <= u32::MAX,
        1 <= fh <= u32::MAX,
        1 <= ww <= u32::MAX,
        1 <= wh <= u32::MAX,
{
    Scale { num: ZOOM_OUT_NUM, den: (ZOOM_OUT_DEN_PER_ZOOM * zoom_spec(fw, fh, ww, wh)) as u64 }
}

/// The zoom of any in-range window stays within `[1, u32::MAX]`.
pub proof fn lemma_zoom_bounds(fw: int, fh: int, ww: int, wh: int)
    requires
        1 <= fw <= u32::MAX,
        1 <= fh <= u32::MAX,
        1 <= ww <= u32::MAX,
        1 <= wh <= u32::MAX,
    ensures
        1 <= zoom_spec(fw, fh, ww, wh) <= u32::MAX,
{
    assert(ww <= ww * fw) by (nonlinear_arith)
        requires
            ww >= 1 && fw >= 1,
    ;
    lemma_rdiv_nonneg_le(ww, fw, ww);
    assert(wh <= wh * fh) by (nonlinear_arith)
        requires
            wh >= 1 && fh >= 1,
    ;
    lemma_rdiv_nonneg_le(wh, fh, wh);
}

/// The scale is a positive finite rational: its numerator is fixed and its
/// denominator is five times the zoom, never zero.  This also pins the
/// degenerate small-window case to the zoom clamp of one, scale `4 / 5`.
pub proof fn lemma_scale_positive(fw: int, fh: int, ww: int, wh: int)
    requires
        1 <= fw <= u32::MAX,
        1 <= fh <= u32::MAX,
        1 <= ww <= u32::MAX,
        1 <= wh <= u32::MAX,
    ensures
        scale_spec(fw, fh, ww, wh).num == ZOOM_OUT_NUM,
        scale_spec(fw, fh, ww, wh).den == ZOOM_OUT_DEN_PER_ZOOM * zoom_spec(fw, fh, ww, wh),
        scale_spec(fw, fh, ww, wh).den >= ZOOM_OUT_DEN_PER_ZOOM,
        scale_spec(fw, fh, ww, wh).wf(),
{
    lemma_zoom_bounds(fw, fh, ww, wh);
}

/// The scale is a step function of the window size: two windows get the
/// same scale exactly when their rounded limiting ratios coincide.
pub proof fn lemma_scale_tracks_zoom(fw: int, fh: int, w1: int, h1: int, w2: int, h2: int)
    requires
        1 <= fw <= u32::MAX,
        1 <= fh <= u32::MAX,
        1 <= w1 <= u32::MAX,
        1 <= h1 <= u32::MAX,
        1 <= w2 <= u32::MAX,
        1 <= h2 <= u32::MAX,
    ensures
        scale_spec(fw, fh, w1, h1) == scale_spec(fw, fh, w2, h2) <==> zoom_spec(fw, fh, w1, h1)
            == zoom_spec(fw, fh, w2, h2),
{
    lemma_zoom_bounds(fw, fh, w1, h1);
    lemma_zoom_bounds(fw, fh, w2, h2);
}

/// The integer zoom for a window, executable form.
pub fn compute_zoom(res: &FixedResolution, win_width: u32, win_height: u32) -> (zoom: u64)
    requires
        res.wf(),
        win_width >= 1,
        win_height >= 1,
    ensures
        zoom == zoom_spec(res.width as int, res.height as int, win_width as int, win_height as int),
        1 <= zoom <= u32::MAX,
{
    proof {
        lemma_zoom_bounds(res.width as int, res.height as int, win_width as int, win_height as int);
    }
    let fw: u64 = res.width as u64;
    let fh: u64 = res.height as u64;
    let ww: u64 = win_width as u64;
    let wh: u64 = win_height as u64;
    proof {
        vstd::arithmetic::mul::lemma_mul_upper_bound(
            ww as int,
            u32::MAX as int,
            fh as int,
            u32::MAX as int,
        );
        vstd::arithmetic::mul::lemma_mul_upper_bound(
            wh as int,
            u32::MAX as int,
            fw as int,
            u32::MAX as int,
        );
    }
    let (num, den): (u64, u64) = if ww * fh <= wh * fw {
        (ww, fw)
    } else {
        (wh, fh)
    };
    let raw: u64 = (2 * num + den) / (2 * den);
    if raw < 1 {
        1
    } else {
        raw
    }
}

/// The display scale for a window: `computeScale` of the resolution
/// policy.  The limiting axis ratio is rounded to the nearest integer so
/// virtual pixels stay square, and the zoom-out factor `0.8` is applied as
/// the exact rational `4 / (5 * zoom)`.
pub fn compute_scale(res: &FixedResolution, win_width: u32, win_height: u32) -> (s: Scale)
    requires
        res.wf(),
        win_width >= 1,
        win_height >= 1,
    ensures
        s == scale_spec(res.width as int, res.height as int, win_width as int, win_height as int),
        s.wf(),
{
    proof {
        lemma_scale_positive(
            res.width as int,
            res.height as int,
            win_width as int,
            win_height as int,
        );
    }
    let zoom: u64 = compute_zoom(res, win_width, win_height);
    Scale { num: ZOOM_OUT_NUM, den: ZOOM_OUT_DEN_PER_ZOOM * zoom }
}

} // verus!
