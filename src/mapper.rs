use crate::arith::lemma_floor_div_unique;
use crate::resolution::{Resolution, WindowSize};
use vstd::prelude::*;

verus! {

/// Sub-pixel steps per pixel, in window space and in simulation space alike.
pub const SUBPIXELS_PER_PIXEL: u32 = 256;

/// Half of `SUBPIXELS_PER_PIXEL`: the steps from a pixel's edge to its center.
pub const HALF_PIXEL: u32 = 128;

/// A cursor location in the window, in sub-pixel steps from the top-left
/// corner, with y growing downwards.
#[derive(Clone, Copy, Debug, PartialEq, Eq, Structural)]
pub struct CursorPos {
    pub x: u64,
    pub y: u64,
}

/// A point of the presentation camera's world, in window sub-pixel steps,
/// with the origin at the camera (the viewport center) and y growing upwards.
/// Points are taken relative to the camera: a translation of the camera
/// cancels when the point is projected back through it, and so does a zoom
/// once the point is divided by the viewport's half extents, so only the
/// viewport's size enters the mapping.
#[derive(Clone, Copy, Debug, PartialEq, Eq, Structural)]
pub struct WorldPoint {
    pub x: i64,
    pub y: i64,
}

/// Normalized device coordinates held as exact ratios: the point
/// `(x / half_width, y / half_height)`, each component in `[-1, 1]`.
#[derive(Clone, Copy, Debug, PartialEq, Eq, Structural)]
pub struct Ndc {
    pub x: i64,
    pub y: i64,
    pub half_width: u64,
    pub half_height: u64,
}

/// A point of simulation space, in sub-pixel steps of the fixed surface,
/// with the origin at the surface center and y growing upwards.
#[derive(Clone, Copy, Debug, PartialEq, Eq, Structural)]
pub struct SimPoint {
    pub x: i64,
    pub y: i64,
}

impl Ndc {
    /// Both extents are positive and the point lies in `[-1, 1]` on each axis.
    pub open spec fn wf(self) -> bool {
        &&& 0 < self.half_width <= u32::MAX * HALF_PIXEL
        &&& 0 < self.half_height <= u32::MAX * HALF_PIXEL
        &&& -self.half_width <= self.x <= self.half_width
        &&& -self.half_height <= self.y <= self.half_height
    }
}

/// Half the window's width, in sub-pixel steps.
pub open spec fn half_width_of(window: WindowSize) -> int {
    window.width * HALF_PIXEL
}

/// Half the window's height, in sub-pixel steps.
pub open spec fn half_height_of(window: WindowSize) -> int {
    window.height * HALF_PIXEL
}

/// The window has an area and the cursor lies inside it, edges included.
pub open spec fn in_viewport(window: WindowSize, cursor: CursorPos) -> bool {
    &&& window.width > 0
    &&& window.height > 0
    &&& cursor.x <= 2 * half_width_of(window)
    &&& cursor.y <= 2 * half_height_of(window)
}

/// The world point under a cursor: its offset from the window center, y up.
pub open spec fn spec_viewport_to_world(window: WindowSize, cursor: CursorPos) -> WorldPoint {
    WorldPoint {
        x: (cursor.x - half_width_of(window)) as i64,
        y: (half_height_of(window) - cursor.y) as i64,
    }
}

/// The world point relative to the half extents of the window.
pub open spec fn spec_world_to_ndc(window: WindowSize, p: WorldPoint) -> Ndc {
    Ndc {
        x: p.x,
        y: p.y,
        half_width: half_width_of(window) as u64,
        half_height: half_height_of(window) as u64,
    }
}

/// `floor(n / half * extent * HALF_PIXEL)`: a normalized coordinate times
/// half the surface's extent, in sub-pixel steps.
pub open spec fn scale_ndc(n: int, half: int, extent: int) -> int {
    (n * extent * HALF_PIXEL) / half
}

/// The simulation point for normalized device coordinates.
pub open spec fn spec_ndc_to_simulation(res: Resolution, ndc: Ndc) -> SimPoint {
    SimPoint {
        x: scale_ndc(ndc.x as int, ndc.half_width as int, res.width as int) as i64,
        y: scale_ndc(ndc.y as int, ndc.half_height as int, res.height as int) as i64,
    }
}

/// The whole mapping from an optional cursor position to simulation space:
/// `None` where the cursor is absent or outside the window.
pub open spec fn spec_map_cursor(
    res: Resolution,
    window: WindowSize,
    cursor: Option<CursorPos>,
) -> Option<SimPoint> {
    match cursor {
        Some(c) => if in_viewport(window, c) {
            Some(
                spec_ndc_to_simulation(
                    res,
                    spec_world_to_ndc(window, spec_viewport_to_world(window, c)),
                ),
            )
        } else {
            None
        },
        None => None,
    }
}

/// Half of a window extent, in sub-pixel steps.
fn half_extent(pixels: u32) -> (r: u64)
    ensures
        r == pixels * HALF_PIXEL,
        r <= u32::MAX * HALF_PIXEL,
{
    pixels as u64 * 128
}

/// Unprojects a cursor through the presentation camera, which sits at the
/// window center and spans the whole window. `None` where the window has no
/// area or the cursor lies outside it.
pub fn viewport_to_world(window: WindowSize, cursor: CursorPos) -> (r: Option<WorldPoint>)
    ensures
        r.is_some() <==> in_viewport(window, cursor),
        r matches Some(p) ==> p == spec_viewport_to_world(window, cursor),
        r matches Some(p) ==> -half_width_of(window) <= p.x <= half_width_of(window)
            && -half_height_of(window) <= p.y <= half_height_of(window),
{
    if window.width == 0 || window.height == 0 {
        return None;
    }
    let half_w = half_extent(window.width);
    let half_h = half_extent(window.height);
    if cursor.x > 2 * half_w || cursor.y > 2 * half_h {
        return None;
    }
    Some(
        WorldPoint {
            x: cursor.x as i64 - half_w as i64,
            y: half_h as i64 - cursor.y as i64,
        },
    )
}

/// Projects a world point back through the same camera into normalized
/// device coordinates. `None` where the window has no area.
pub fn world_to_ndc(window: WindowSize, p: WorldPoint) -> (r: Option<Ndc>)
    ensures
        r.is_some() <==> (window.width > 0 && window.height > 0),
        r matches Some(ndc) ==> ndc == spec_world_to_ndc(window, p),
{
    if window.width == 0 || window.height == 0 {
        return None;
    }
    let half_width = half_extent(window.width);
    let half_height = half_extent(window.height);
    Some(Ndc { x: p.x, y: p.y, half_width, half_height })
}

/// Floor of `n * extent * HALF_PIXEL / half`, for `|n| <= half`.
fn scale_component(n: i64, half: u64, extent: u32) -> (r: i64)
    requires
        0 < half <= u32::MAX * HALF_PIXEL,
        -half <= n <= half,
    ensures
        r == scale_ndc(n as int, half as int, extent as int),
        -(extent * HALF_PIXEL) <= r <= extent * HALF_PIXEL,
{
    let m: u128 = half_extent(extent) as u128;
    let d: u128 = half as u128;
    let a: u128 = if n >= 0 {
        n as u128
    } else {
        (-(n as i128)) as u128
    };
    proof {
        assert(a * m <= 549755813760u128 * 549755813760u128) by (nonlinear_arith)
            requires
                a <= d,
                d <= 549755813760u128,
                m <= 549755813760u128,
        ;
        assert(a * m <= d * m) by (nonlinear_arith)
            requires
                a <= d,
        ;
    }
    let p: u128 = a * m;
    let q: u128 = p / d;
    let rem: u128 = p % d;
    assert(rem < d);
    proof {
        assert(p == q * d + rem) by (nonlinear_arith)
            requires
                q == p / d,
                rem == p % d,
                d > 0,
        ;
        assert(q <= m) by (nonlinear_arith)
            requires
                p == q * d + rem,
                p <= d * m,
                rem >= 0,
                d > 0,
        ;
    }
    if n >= 0 {
        proof {
            assert(n * extent * HALF_PIXEL == p) by (nonlinear_arith)
                requires
                    a == n,
                    m == extent * HALF_PIXEL,
                    p == a * m,
            ;
            lemma_floor_div_unique(p as int, d as int, q as int);
        }
        q as i64
    } else if rem == 0 {
        proof {
            assert(n * extent * HALF_PIXEL == -p) by (nonlinear_arith)
                requires
                    a == -n,
                    m == extent * HALF_PIXEL,
                    p == a * m,
            ;
            assert((-q) * d == -p) by (nonlinear_arith)
                requires
                    p == q * d + rem,
                    rem == 0,
            ;
            lemma_floor_div_unique(-p, d as int, -q);
        }
        -(q as i64)
    } else {
        proof {
            assert(n * extent * HALF_PIXEL == -p) by (nonlinear_arith)
                requires
                    a == -n,
                    m == extent * HALF_PIXEL,
                    p == a * m,
            ;
            assert(q < m) by (nonlinear_arith)
                requires
                    p == q * d + rem,
                    p <= d * m,
                    rem > 0,
                    d > 0,
            ;
            assert((-q - 1) * d <= -p && -p < (-q - 1) * d + d) by (nonlinear_arith)
                requires
                    p == q * d + rem,
                    0 < rem < d,
            ;
            lemma_floor_div_unique(-p, d as int, -q - 1);
        }
        -(q as i64) - 1
    }
}

/// Scales normalized device coordinates by half the surface's size, giving
/// the point in simulation space; it lies on the surface.
pub fn ndc_to_simulation(res: Resolution, ndc: Ndc) -> (r: SimPoint)
    requires
        res.wf(),
        ndc.wf(),
    ensures
        r == spec_ndc_to_simulation(res, ndc),
        -(res.width * HALF_PIXEL) <= r.x <= res.width * HALF_PIXEL,
        -(res.height * HALF_PIXEL) <= r.y <= res.height * HALF_PIXEL,
{
    SimPoint {
        x: scale_component(ndc.x, ndc.half_width, res.width),
        y: scale_component(ndc.y, ndc.half_height, res.height),
    }
}

/// Maps a cursor position into simulation space: unproject through the
/// presentation camera, project back into normalized device coordinates,
/// then scale by the fixed resolution. `None` where the cursor is absent,
/// lies outside the window, or the window has no area.
pub fn map_cursor(res: Resolution, window: WindowSize, cursor: Option<CursorPos>) -> (r: Option<
    SimPoint,
>)
    requires
        res.wf(),
    ensures
        r == spec_map_cursor(res, window, cursor),
        r matches Some(p) ==> -(res.width * HALF_PIXEL) <= p.x <= res.width * HALF_PIXEL
            && -(res.height * HALF_PIXEL) <= p.y <= res.height * HALF_PIXEL,
{
    let c = match cursor {
        Some(c) => c,
        None => return None,
    };
    let world = match viewport_to_world(window, c) {
        Some(p) => p,
        None => return None,
    };
    let ndc = match world_to_ndc(window, world) {
        Some(n) => n,
        None => return None,
    };
    Some(ndc_to_simulation(res, ndc))
}

/// A cursor at the exact center of any window maps to the simulation origin.
pub proof fn lemma_center_maps_to_origin(res: Resolution, window: WindowSize)
    requires
        res.wf(),
        window.width > 0,
        window.height > 0,
    ensures
        spec_map_cursor(
            res,
            window,
            Some(
                CursorPos {
                    x: half_width_of(window) as u64,
                    y: half_height_of(window) as u64,
                },
            ),
        ) == Some(SimPoint { x: 0, y: 0 }),
{
    let c = CursorPos { x: half_width_of(window) as u64, y: half_height_of(window) as u64 };
    let ndc = spec_world_to_ndc(window, spec_viewport_to_world(window, c));
    assert(ndc.x == 0 && ndc.y == 0);
    assert(scale_ndc(0, ndc.half_width as int, res.width as int) == 0);
    assert(scale_ndc(0, ndc.half_height as int, res.height as int) == 0);
}

/// The cursor position in simulation space, kept from frame to frame.
#[derive(Clone, Copy, Debug, PartialEq, Eq, Structural)]
pub struct MouseWorldPosition {
    pub pos: SimPoint,
}

impl MouseWorldPosition {
    /// Starts at the simulation origin.
    pub fn new() -> (r: MouseWorldPosition)
        ensures
            r.pos == (SimPoint { x: 0, y: 0 }),
    {
        MouseWorldPosition { pos: SimPoint { x: 0, y: 0 } }
    }

    /// Once-per-frame update. Where the mapping fails the previous value is
    /// kept. Returns whether the position was updated.
    pub fn update(&mut self, res: Resolution, window: WindowSize, cursor: Option<CursorPos>) -> (r:
        bool)
        requires
            res.wf(),
        ensures
            r == spec_map_cursor(res, window, cursor).is_some(),
            spec_map_cursor(res, window, cursor) matches Some(p) ==> final(self).pos == p,
            spec_map_cursor(res, window, cursor) is None ==> *final(self) == *old(self),
    {
        match map_cursor(res, window, cursor) {
            Some(p) => {
                self.pos = p;
                true
            },
            None => false,
        }
    }
}

} // verus!
