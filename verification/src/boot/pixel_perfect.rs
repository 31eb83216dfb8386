//! Sizes of the pixel-perfect render pipeline: scenes draw into an
//! intermediate texture that is a whole multiple of the viewport, and the
//! final pass scales that texture to the window.
use vstd::prelude::*;

verus! {

/// Viewport, intermediate texture and window sizes, in pixels.
#[derive(Debug, Clone, Copy, PartialEq, Eq)]
pub struct PixelPerfectConfig {
    /// The project's logical resolution.
    pub viewport: (u32, u32),
    /// The viewport times the largest whole factor that fits the window
    /// (at least 1).
    pub intermediate: (u32, u32),
    /// The window size.
    pub window: (u32, u32),
}

/// The whole scale factor: `min(win_w / vp_w, win_h / vp_h)`, at least 1.
pub open spec fn integer_scale(viewport: (u32, u32), window: (u32, u32)) -> int {
    let sx = window.0 as int / viewport.0 as int;
    let sy = window.1 as int / viewport.1 as int;
    let s = if sx < sy { sx } else { sy };
    if s < 1 { 1 } else { s }
}

/// The intermediate texture is a whole multiple of the viewport that fits
/// the window whenever the viewport itself does, and no larger multiple
/// would fit.
pub proof fn lemma_integer_scale_fits(viewport: (u32, u32), window: (u32, u32))
    requires
        0 < viewport.0 <= window.0,
        0 < viewport.1 <= window.1,
    ensures
        viewport.0 * integer_scale(viewport, window) <= window.0,
        viewport.1 * integer_scale(viewport, window) <= window.1,
        viewport.0 * (integer_scale(viewport, window) + 1) > window.0 || viewport.1 * (integer_scale(viewport, window)
            + 1) > window.1,
{
    let s = integer_scale(viewport, window);
    let sx = window.0 as int / viewport.0 as int;
    let sy = window.1 as int / viewport.1 as int;
    assert(sx >= 1 && sy >= 1) by (nonlinear_arith)
        requires
            0 < viewport.0 <= window.0,
            0 < viewport.1 <= window.1,
            sx == window.0 as int / viewport.0 as int,
            sy == window.1 as int / viewport.1 as int,
    ;
    assert(viewport.0 * sx <= window.0 && viewport.0 * (sx + 1) > window.0) by (nonlinear_arith)
        requires
            viewport.0 > 0,
            sx == window.0 as int / viewport.0 as int,
    ;
    assert(viewport.1 * sy <= window.1 && viewport.1 * (sy + 1) > window.1) by (nonlinear_arith)
        requires
            viewport.1 > 0,
            sy == window.1 as int / viewport.1 as int,
    ;
    assert(viewport.0 * s <= viewport.0 * sx) by (nonlinear_arith)
        requires
            s <= sx,
            viewport.0 > 0,
    ;
    assert(viewport.1 * s <= viewport.1 * sy) by (nonlinear_arith)
        requires
            s <= sy,
            viewport.1 > 0,
    ;
}

impl PixelPerfectConfig {
    /// Picks the largest whole scale of the viewport that fits the window
    /// (at least 1) for the intermediate texture.
    pub fn from_viewport_and_window(viewport: (u32, u32), window: (u32, u32)) -> (r: Self)
        requires
            viewport.0 > 0,
            viewport.1 > 0,
        ensures
            r.viewport == viewport,
            r.window == window,
            r.intermediate.0 == viewport.0 * integer_scale(viewport, window),
            r.intermediate.1 == viewport.1 * integer_scale(viewport, window),
    {
        let (vw, vh) = viewport;
        let (ww, wh) = window;
        let sx = ww / vw;
        let sy = wh / vh;
        let m = if sx < sy { sx } else { sy };
        let scale = if m < 1 { 1 } else { m };
        assert(vw * scale <= u32::MAX && vh * scale <= u32::MAX) by (nonlinear_arith)
            requires
                vw > 0,
                vh > 0,
                sx == ww / vw,
                sy == wh / vh,
                scale == 1 || (scale <= sx && scale <= sy),
        {
            if scale != 1 {
                assert(vw * scale <= vw * sx);
                assert(vw * sx <= ww);
                assert(vh * scale <= vh * sy);
                assert(vh * sy <= wh);
            }
        }
        PixelPerfectConfig { viewport, intermediate: (vw * scale, vh * scale), window }
    }
}

} // verus!
