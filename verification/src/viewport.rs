//! The viewport: an affine map from flow-space to screen-space, with
//! clamping to a translate extent, bounds fitting, and animated transitions.
//!
//! A viewport `{x, y, zoom}` maps a flow point `p` to the screen point
//! `p * zoom + (x, y)`.  The zoom carries the fixed scale `ZOOM_UNIT`, so the
//! identity viewport has `zoom == ZOOM_UNIT`.

use vstd::prelude::*;
use crate::geometry::{point_ok, Rect, XYPosition};
use crate::node::CoordinateExtent;
use crate::num::{
    clamp_spec, coord_ok, div_floor, mul_i64, size_ok, translate_ok, zoom_ok, MILLE, SIZE_MAX,
    ZOOM_UNIT,
};

verus! {

/// The view transformation: translation in screen units and zoom in
/// `ZOOM_UNIT` units.
#[derive(Clone, Copy, PartialEq, Eq, Structural, Debug)]
pub struct Viewport {
    pub x: i64,
    pub y: i64,
    pub zoom: i64,
}

/// A representable viewport: zoom positive and in range, translation in
/// range.
pub open spec fn viewport_wf(v: Viewport) -> bool {
    &&& zoom_ok(v.zoom as int)
    &&& translate_ok(v.x as int)
    &&& translate_ok(v.y as int)
}

impl Viewport {
    pub fn new(x: i64, y: i64, zoom: i64) -> (r: Self)
        ensures
            r == (Viewport { x, y, zoom }),
    {
        Viewport { x, y, zoom }
    }

    /// The identity transform: no pan, unit zoom.
    pub fn identity() -> (r: Self)
        ensures
            r == (Viewport { x: 0, y: 0, zoom: ZOOM_UNIT }),
            viewport_wf(r),
    {
        Viewport { x: 0, y: 0, zoom: ZOOM_UNIT }
    }

    pub fn to_transform(&self) -> (r: [i64; 3])
        ensures
            r@ =~= seq![self.x, self.y, self.zoom],
    {
        [self.x, self.y, self.zoom]
    }

    pub fn from_transform(transform: [i64; 3]) -> (r: Self)
        ensures
            r == (Viewport { x: transform[0], y: transform[1], zoom: transform[2] }),
    {
        Viewport { x: transform[0], y: transform[1], zoom: transform[2] }
    }
}

impl Default for Viewport {
    fn default() -> (r: Self)
        ensures
            r == (Viewport { x: 0, y: 0, zoom: ZOOM_UNIT }),
    {
        Viewport { x: 0, y: 0, zoom: ZOOM_UNIT }
    }
}

/// Screen coordinate of a flow coordinate: `p * zoom + t`.
pub open spec fn flow_to_screen_coord(p: int, zoom: int, t: int) -> int {
    p * zoom + t
}

/// Flow coordinate of a screen coordinate: `(s - t) / zoom`, rounded toward
/// negative infinity.
pub open spec fn screen_to_flow_coord(s: int, zoom: int, t: int) -> int {
    (s - t) / zoom
}

/// Map a flow point to its exact screen point.
pub fn flow_to_screen_position(position: XYPosition, viewport: &Viewport) -> (r: XYPosition)
    requires
        crate::num::span_ok(position.x as int),
        crate::num::span_ok(position.y as int),
        viewport_wf(*viewport),
    ensures
        r.x == flow_to_screen_coord(position.x as int, viewport.zoom as int, viewport.x as int),
        r.y == flow_to_screen_coord(position.y as int, viewport.zoom as int, viewport.y as int),
        crate::num::screen_ok(r.x as int),
        crate::num::screen_ok(r.y as int),
{
    proof {
        lemma_coord_zoom_product_bound(position.x as int, viewport.zoom as int);
        lemma_coord_zoom_product_bound(position.y as int, viewport.zoom as int);
    }
    XYPosition {
        x: mul_i64(position.x, viewport.zoom) + viewport.x,
        y: mul_i64(position.y, viewport.zoom) + viewport.y,
    }
}

/// Map a screen point to the flow point it shows, rounded toward negative
/// infinity in each coordinate.
pub fn screen_to_flow_position(position: XYPosition, viewport: &Viewport) -> (r: XYPosition)
    requires
        crate::num::screen_ok(position.x as int),
        crate::num::screen_ok(position.y as int),
        viewport_wf(*viewport),
    ensures
        r.x == screen_to_flow_coord(position.x as int, viewport.zoom as int, viewport.x as int),
        r.y == screen_to_flow_coord(position.y as int, viewport.zoom as int, viewport.y as int),
{
    XYPosition {
        x: div_floor(position.x - viewport.x, viewport.zoom),
        y: div_floor(position.y - viewport.y, viewport.zoom),
    }
}

/// Law: mapping a flow point to the screen and back returns it exactly, for
/// every in-range point and well-formed viewport.
pub proof fn lemma_screen_flow_round_trip(p: XYPosition, v: Viewport)
    requires
        point_ok(p),
        viewport_wf(v),
    ensures
        screen_to_flow_coord(
            flow_to_screen_coord(p.x as int, v.zoom as int, v.x as int),
            v.zoom as int,
            v.x as int,
        ) == p.x as int,
        screen_to_flow_coord(
            flow_to_screen_coord(p.y as int, v.zoom as int, v.y as int),
            v.zoom as int,
            v.y as int,
        ) == p.y as int,
{
    let z = v.zoom as int;
    assert(p.x * z + v.x - v.x == z * p.x) by (nonlinear_arith);
    assert(p.y * z + v.y - v.y == z * p.y) by (nonlinear_arith);
    vstd::arithmetic::div_mod::lemma_div_multiples_vanish(p.x as int, z);
    vstd::arithmetic::div_mod::lemma_div_multiples_vanish(p.y as int, z);
}

/// One clamp bound in flow units; coordinates of an extent must be in the
/// flow range.
pub open spec fn extent_ok(e: CoordinateExtent) -> bool {
    &&& (e.min_x is Some ==> coord_ok(e.min_x->0 as int))
    &&& (e.min_y is Some ==> coord_ok(e.min_y->0 as int))
    &&& (e.max_x is Some ==> coord_ok(e.max_x->0 as int))
    &&& (e.max_y is Some ==> coord_ok(e.max_y->0 as int))
}

/// An extent with min and max in order on each axis where both are finite;
/// a malformed pair is swapped rather than applied as given.
pub open spec fn normalize_extent_spec(e: CoordinateExtent) -> CoordinateExtent {
    let x_swapped = e.min_x is Some && e.max_x is Some && e.min_x->0 > e.max_x->0;
    let y_swapped = e.min_y is Some && e.max_y is Some && e.min_y->0 > e.max_y->0;
    CoordinateExtent {
        min_x: if x_swapped {
            e.max_x
        } else {
            e.min_x
        },
        max_x: if x_swapped {
            e.min_x
        } else {
            e.max_x
        },
        min_y: if y_swapped {
            e.max_y
        } else {
            e.min_y
        },
        max_y: if y_swapped {
            e.min_y
        } else {
            e.max_y
        },
    }
}

/// Swap any axis whose minimum exceeds its maximum.
pub fn normalize_extent(e: CoordinateExtent) -> (r: CoordinateExtent)
    ensures
        r == normalize_extent_spec(e),
{
    let mut r = e;
    if let (Some(lo), Some(hi)) = (e.min_x, e.max_x) {
        if lo > hi {
            r.min_x = Some(hi);
            r.max_x = Some(lo);
        }
    }
    if let (Some(lo), Some(hi)) = (e.min_y, e.max_y) {
        if lo > hi {
            r.min_y = Some(hi);
            r.max_y = Some(lo);
        }
    }
    r
}

/// One axis of the translate clamp.  The visible flow window on this axis is
/// `[(0 - pos) / zoom, (size - pos) / zoom]`; the pan is restricted so the
/// window stays within `[min, max]`.  Everything is computed in screen units,
/// where the bounds read `pos <= -min * zoom` and `pos >= size - max * zoom`.
/// With both bounds finite and the window wider than the extent, the extent
/// is centered in the window instead.
pub open spec fn clamp_axis_spec(
    min: Option<i64>,
    max: Option<i64>,
    pos: int,
    size: int,
    zoom: int,
) -> int {
    match (min, max) {
        (Some(lo), Some(hi)) => {
            let d0 = -pos - lo * zoom;
            let d1 = size - pos - hi * zoom;
            if d1 > d0 {
                pos + (d0 + d1) / 2
            } else if d0 < 0 {
                pos + d0
            } else if d1 > 0 {
                pos + d1
            } else {
                pos
            }
        },
        (Some(lo), None) => {
            let bound = 0 - lo * zoom;
            if pos > bound {
                bound
            } else {
                pos
            }
        },
        (None, Some(hi)) => {
            let bound = size - hi * zoom;
            if pos < bound {
                bound
            } else {
                pos
            }
        },
        (None, None) => pos,
    }
}

/// Clamp one axis; exact integer arithmetic in screen units, widened where
/// the intermediate differences exceed the word size.
fn clamp_axis(min: Option<i64>, max: Option<i64>, pos: i64, size: i64, zoom: i64) -> (r: i64)
    requires
        min is Some ==> coord_ok(min->0 as int),
        max is Some ==> coord_ok(max->0 as int),
        translate_ok(pos as int),
        size_ok(size as int),
        zoom_ok(zoom as int),
    ensures
        r == clamp_axis_spec(min, max, pos as int, size as int, zoom as int),
        translate_ok(r as int),
{
    proof {
        lemma_clamp_axis_in_translate_range(min, max, pos as int, size as int, zoom as int);
    }
    match (min, max) {
        (Some(lo), Some(hi)) => {
            proof {
                lemma_coord_zoom_product_bound(lo as int, zoom as int);
                lemma_coord_zoom_product_bound(hi as int, zoom as int);
            }
            let lo_z: i64 = mul_i64(lo, zoom);
            let hi_z: i64 = mul_i64(hi, zoom);
            let d0: i128 = -(pos as i128) - (lo_z as i128);
            let d1: i128 = (size as i128) - (pos as i128) - (hi_z as i128);
            let wide: i128 = if d1 > d0 {
                (pos as i128) + crate::num::div_floor_i128(d0 + d1, 2)
            } else if d0 < 0 {
                (pos as i128) + d0
            } else if d1 > 0 {
                (pos as i128) + d1
            } else {
                pos as i128
            };
            wide as i64
        },
        (Some(lo), None) => {
            proof {
                lemma_coord_zoom_product_bound(lo as int, zoom as int);
            }
            let bound: i64 = -mul_i64(lo, zoom);
            if pos > bound {
                bound
            } else {
                pos
            }
        },
        (None, Some(hi)) => {
            proof {
                lemma_coord_zoom_product_bound(hi as int, zoom as int);
            }
            let bound: i64 = size - mul_i64(hi, zoom);
            if pos < bound {
                bound
            } else {
                pos
            }
        },
        (None, None) => pos,
    }
}

/// The viewport after clamping to a translate extent; `None` or a degenerate
/// pane leaves the viewport unchanged.
pub open spec fn clamp_viewport_spec(
    v: Viewport,
    extent: Option<CoordinateExtent>,
    width: int,
    height: int,
) -> Viewport {
    match extent {
        None => v,
        Some(e) => {
            if width == 0 || height == 0 {
                v
            } else {
                let n = normalize_extent_spec(e);
                Viewport {
                    x: clamp_axis_spec(n.min_x, n.max_x, v.x as int, width, v.zoom as int) as i64,
                    y: clamp_axis_spec(n.min_y, n.max_y, v.y as int, height, v.zoom as int) as i64,
                    zoom: v.zoom,
                }
            }
        },
    }
}

/// Restrict the pan so the visible flow window stays within the extent; a
/// malformed extent is normalized first, and an unconstrained axis passes
/// through unchanged.
pub fn clamp_viewport(
    v: Viewport,
    extent: Option<CoordinateExtent>,
    width: i64,
    height: i64,
) -> (r: Viewport)
    requires
        viewport_wf(v),
        extent is Some ==> extent_ok(extent->0),
        size_ok(width as int),
        size_ok(height as int),
    ensures
        r == clamp_viewport_spec(v, extent, width as int, height as int),
        viewport_wf(r),
{
    match extent {
        None => v,
        Some(e) => {
            if width == 0 || height == 0 {
                v
            } else {
                let n = normalize_extent(e);
                let rx = clamp_axis(n.min_x, n.max_x, v.x, width, v.zoom);
                let ry = clamp_axis(n.min_y, n.max_y, v.y, height, v.zoom);
                Viewport { x: rx, y: ry, zoom: v.zoom }
            }
        },
    }
}

/// Law: clamping is idempotent — clamping a clamped viewport changes
/// nothing, for any extent, well-formed viewport, and pane size.
pub proof fn lemma_clamp_viewport_idempotent(
    v: Viewport,
    extent: Option<CoordinateExtent>,
    width: int,
    height: int,
)
    requires
        viewport_wf(v),
        extent is Some ==> extent_ok(extent->0),
        size_ok(width),
        size_ok(height),
    ensures
        clamp_viewport_spec(
            clamp_viewport_spec(v, extent, width, height),
            extent,
            width,
            height,
        ) == clamp_viewport_spec(v, extent, width, height),
{
    match extent {
        None => {},
        Some(e) => {
            if width == 0 || height == 0 {
            } else {
                let n = normalize_extent_spec(e);
                lemma_clamp_axis_idempotent(n.min_x, n.max_x, v.x as int, width, v.zoom as int);
                lemma_clamp_axis_idempotent(n.min_y, n.max_y, v.y as int, height, v.zoom as int);
                lemma_clamp_axis_in_translate_range(
                    n.min_x,
                    n.max_x,
                    v.x as int,
                    width,
                    v.zoom as int,
                );
                lemma_clamp_axis_in_translate_range(
                    n.min_y,
                    n.max_y,
                    v.y as int,
                    height,
                    v.zoom as int,
                );
            }
        },
    }
}

/// A clamped axis stays in the representable translate range.
proof fn lemma_clamp_axis_in_translate_range(
    min: Option<i64>,
    max: Option<i64>,
    pos: int,
    size: int,
    zoom: int,
)
    requires
        min is Some ==> coord_ok(min->0 as int),
        max is Some ==> coord_ok(max->0 as int),
        translate_ok(pos),
        size_ok(size),
        zoom_ok(zoom),
    ensures
        translate_ok(clamp_axis_spec(min, max, pos, size, zoom)),
{
    let r = clamp_axis_spec(min, max, pos, size, zoom);
    match (min, max) {
        (Some(lo), Some(hi)) => {
            let d0 = -pos - lo * zoom;
            let d1 = size - pos - hi * zoom;
            lemma_coord_zoom_product_bound(lo as int, zoom);
            lemma_coord_zoom_product_bound(hi as int, zoom);
            if d1 > d0 {
                let q = (d0 + d1) / 2;
                assert(r == pos + q);
                vstd::arithmetic::div_mod::lemma_fundamental_div_mod(d0 + d1, 2);
                assert(2 * q == d0 + d1 - (d0 + d1) % 2);
                assert(0 <= ((d0 + d1) % 2) < 2);
                assert(2 * (pos + q) == size - lo * zoom - hi * zoom - (d0 + d1) % 2);
                assert(translate_ok(pos + q));
            } else if d0 < 0 {
                assert(r == pos + d0);
                assert(pos + d0 == -(lo * zoom));
                assert(translate_ok(r));
            } else if d1 > 0 {
                assert(r == pos + d1);
                assert(pos + d1 == size - hi * zoom);
                assert(translate_ok(r));
            } else {
                assert(r == pos);
            }
        },
        (Some(lo), None) => {
            lemma_coord_zoom_product_bound(lo as int, zoom);
            assert(translate_ok(r));
        },
        (None, Some(hi)) => {
            lemma_coord_zoom_product_bound(hi as int, zoom);
            assert(translate_ok(r));
        },
        (None, None) => {
            assert(r == pos);
        },
    }
}

/// One clamped axis is a fixed point of the clamp.
proof fn lemma_clamp_axis_idempotent(
    min: Option<i64>,
    max: Option<i64>,
    pos: int,
    size: int,
    zoom: int,
)
    ensures
        clamp_axis_spec(min, max, clamp_axis_spec(min, max, pos, size, zoom), size, zoom)
            == clamp_axis_spec(min, max, pos, size, zoom),
{
    match (min, max) {
        (Some(lo), Some(hi)) => {
            let d0 = -pos - lo * zoom;
            let d1 = size - pos - hi * zoom;
            let r = clamp_axis_spec(min, max, pos, size, zoom);
            let e0 = -r - lo * zoom;
            let e1 = size - r - hi * zoom;
            if d1 > d0 {
                let s = d0 + d1;
                vstd::arithmetic::div_mod::lemma_fundamental_div_mod(s, 2);
                assert(r == pos + s / 2);
                assert(e0 == d0 - s / 2 && e1 == d1 - s / 2);
                assert(e1 > e0);
                assert(e0 + e1 == s - 2 * (s / 2));
                assert(0 <= e0 + e1 < 2);
                assert((e0 + e1) / 2 == 0);
            } else if d0 < 0 {
                assert(e0 == 0 && e1 == d1 - d0);
            } else if d1 > 0 {
                assert(e1 == 0 && e0 == d0 - d1);
            } else {
            }
        },
        _ => {},
    }
}

/// The fitted viewport for a flow rectangle: the largest zoom that shows the
/// whole rectangle in a `width` by `height` pane with the padding fraction
/// around it, clamped to the zoom range, and the translation that centers the
/// rectangle.  A degenerate rectangle or pane gives the identity.
pub open spec fn viewport_for_bounds_spec(
    bounds: Rect,
    width: int,
    height: int,
    min_zoom: int,
    max_zoom: int,
    padding: int,
) -> Viewport {
    if bounds.width <= 0 || bounds.height <= 0 || width <= 0 || height <= 0 {
        Viewport { x: 0, y: 0, zoom: ZOOM_UNIT }
    } else {
        let x_zoom = width * MILLE / (bounds.width * (MILLE + 2 * padding));
        let y_zoom = height * MILLE / (bounds.height * (MILLE + 2 * padding));
        let zoom = clamp_spec(if x_zoom <= y_zoom { x_zoom } else { y_zoom }, min_zoom, max_zoom);
        Viewport {
            x: ((width - bounds.width * zoom) / 2 - bounds.x * zoom) as i64,
            y: ((height - bounds.height * zoom) / 2 - bounds.y * zoom) as i64,
            zoom: zoom as i64,
        }
    }
}

/// Compute the fitted viewport for a flow rectangle.
pub fn get_viewport_for_bounds(
    bounds: Rect,
    width: i64,
    height: i64,
    min_zoom: i64,
    max_zoom: i64,
    padding: i64,
) -> (r: Viewport)
    requires
        crate::geometry::rect_span_ok(bounds),
        size_ok(width as int),
        size_ok(height as int),
        zoom_ok(min_zoom as int),
        zoom_ok(max_zoom as int),
        min_zoom <= max_zoom,
        0 <= padding <= MILLE,
    ensures
        r == viewport_for_bounds_spec(
            bounds,
            width as int,
            height as int,
            min_zoom as int,
            max_zoom as int,
            padding as int,
        ),
        viewport_wf(r),
{
    if bounds.width <= 0 || bounds.height <= 0 || width <= 0 || height <= 0 {
        return Viewport { x: 0, y: 0, zoom: ZOOM_UNIT };
    }
    proof {
        assert(width as int * (MILLE as int) <= 0x1000_0000_0000_0000 * 1000) by (nonlinear_arith)
            requires
                0 < width <= 0x1000_0000_0000_0000,
        {
        }
        assert(height as int * (MILLE as int) <= 0x1000_0000_0000_0000 * 1000)
            by (nonlinear_arith)
            requires
                0 < height <= 0x1000_0000_0000_0000,
        {
        }
        assert(
            0 < bounds.width as int * (MILLE as int + 2 * padding) <= 0x100_0000_0000 * 3000
        ) by (nonlinear_arith)
            requires
                0 < bounds.width <= 0x100_0000_0000,
                1000 <= MILLE as int + 2 * padding <= 3000,
        {
        }
        assert(
            0 < bounds.height as int * (MILLE as int + 2 * padding) <= 0x100_0000_0000 * 3000
        ) by (nonlinear_arith)
            requires
                0 < bounds.height <= 0x100_0000_0000,
                1000 <= MILLE as int + 2 * padding <= 3000,
        {
        }
    }
    let wide_w: u128 = (width as u128) * (MILLE as u128);
    let div_x: u128 = (bounds.width as u128) * ((MILLE + 2 * padding) as u128);
    let x_zoom_wide: u128 = wide_w / div_x;
    let wide_h: u128 = (height as u128) * (MILLE as u128);
    let div_y: u128 = (bounds.height as u128) * ((MILLE + 2 * padding) as u128);
    let y_zoom_wide: u128 = wide_h / div_y;
    let raw: u128 = if x_zoom_wide <= y_zoom_wide {
        x_zoom_wide
    } else {
        y_zoom_wide
    };
    proof {
        assert(div_x as int >= 1 && div_y as int >= 1) by (nonlinear_arith)
            requires
                div_x == bounds.width as int * (MILLE + 2 * padding),
                div_y == bounds.height as int * (MILLE + 2 * padding),
                bounds.width >= 1,
                bounds.height >= 1,
                MILLE + 2 * padding >= MILLE,
        {
        }
        vstd::arithmetic::div_mod::lemma_div_is_ordered_by_denominator(
            wide_w as int,
            1,
            div_x as int,
        );
        vstd::arithmetic::div_mod::lemma_div_is_ordered_by_denominator(
            wide_h as int,
            1,
            div_y as int,
        );
    }
    let zoom: i64 = crate::num::clamp_i64(
        if raw > ZOOM_UNIT as u128 * 0x10_0000 {
            ZOOM_UNIT * 0x10_0000
        } else {
            raw as i64
        },
        min_zoom,
        max_zoom,
    );
    let bw_zoom: i64 = mul_i64(bounds.width, zoom);
    let bh_zoom: i64 = mul_i64(bounds.height, zoom);
    let bx_zoom: i64 = mul_i64(bounds.x, zoom);
    let by_zoom: i64 = mul_i64(bounds.y, zoom);
    proof {
        lemma_coord_zoom_product_bound(bounds.width as int, zoom as int);
        lemma_coord_zoom_product_bound(bounds.height as int, zoom as int);
        lemma_coord_zoom_product_bound(bounds.x as int, zoom as int);
        lemma_coord_zoom_product_bound(bounds.y as int, zoom as int);
    }
    let x: i64 = div_floor(width - bw_zoom, 2) - bx_zoom;
    let y: i64 = div_floor(height - bh_zoom, 2) - by_zoom;
    Viewport { x, y, zoom }
}

/// A flow coordinate scaled by a zoom stays within one quarter of the
/// translate range.
pub proof fn lemma_coord_zoom_product_bound(c: int, zoom: int)
    requires
        crate::num::span_ok(c),
        zoom_ok(zoom),
    ensures
        -0x1000_0000_0000_0000 <= c * zoom <= 0x1000_0000_0000_0000,
{
    assert(-0x1000_0000_0000_0000 <= c * zoom <= 0x1000_0000_0000_0000) by (nonlinear_arith)
        requires
            crate::num::span_ok(c),
            zoom_ok(zoom),
    {
    }
}

/// Law: the fitted viewport shows the whole rectangle — both corners of the
/// bounds map into the pane `[0, width] x [0, height]` — whenever the zoom
/// range does not force a larger zoom than the fit computes.
pub proof fn lemma_fit_view_contains_bounds(
    bounds: Rect,
    width: int,
    height: int,
    min_zoom: int,
    max_zoom: int,
    padding: int,
)
    requires
        crate::geometry::rect_span_ok(bounds),
        bounds.width > 0,
        bounds.height > 0,
        width > 0,
        height > 0,
        size_ok(width),
        size_ok(height),
        zoom_ok(min_zoom),
        zoom_ok(max_zoom),
        min_zoom <= max_zoom,
        0 <= padding <= MILLE,
        ({
            let x_zoom = width * MILLE / (bounds.width * (MILLE + 2 * padding));
            let y_zoom = height * MILLE / (bounds.height * (MILLE + 2 * padding));
            (if x_zoom <= y_zoom {
                x_zoom
            } else {
                y_zoom
            }) >= min_zoom
        }),
    ensures
        ({
            let v = viewport_for_bounds_spec(bounds, width, height, min_zoom, max_zoom, padding);
            let z = v.zoom as int;
            &&& flow_to_screen_coord(bounds.x as int, z, v.x as int) >= 0
            &&& flow_to_screen_coord(bounds.x + bounds.width, z, v.x as int) <= width
            &&& flow_to_screen_coord(bounds.y as int, z, v.y as int) >= 0
            &&& flow_to_screen_coord(bounds.y + bounds.height, z, v.y as int) <= height
        }),
{
    let denom = MILLE + 2 * padding;
    let x_zoom = width * MILLE / (bounds.width * denom);
    let y_zoom = height * MILLE / (bounds.height * denom);
    let raw = if x_zoom <= y_zoom { x_zoom } else { y_zoom };
    let z = clamp_spec(raw, min_zoom, max_zoom);
    let v = viewport_for_bounds_spec(bounds, width, height, min_zoom, max_zoom, padding);
    assert(v.zoom == z && z >= 1 && z <= raw);
    lemma_fit_axis(bounds.x as int, bounds.width as int, width, z, x_zoom, denom);
    lemma_fit_axis(bounds.y as int, bounds.height as int, height, z, y_zoom, denom);
    lemma_coord_zoom_product_bound(bounds.x as int, z);
    lemma_coord_zoom_product_bound(bounds.y as int, z);
    lemma_coord_zoom_product_bound(bounds.width as int, z);
    lemma_coord_zoom_product_bound(bounds.height as int, z);
    let fx = (width - bounds.width * z) / 2 - bounds.x * z;
    let fy = (height - bounds.height * z) / 2 - bounds.y * z;
    vstd::arithmetic::div_mod::lemma_fundamental_div_mod(width - bounds.width * z, 2);
    vstd::arithmetic::div_mod::lemma_fundamental_div_mod(height - bounds.height * z, 2);
    assert(translate_ok(fx) && translate_ok(fy));
    assert(v.x == fx && v.y == fy);
}

/// One axis of the fit: with `z` at most the computed axis zoom, the scaled
/// extent fits in the pane and the centering translation keeps both edges
/// inside.
proof fn lemma_fit_axis(b0: int, bw: int, size: int, z: int, axis_zoom: int, denom: int)
    requires
        bw > 0,
        size > 0,
        denom >= MILLE,
        z >= 1,
        z <= axis_zoom,
        axis_zoom == size * MILLE / (bw * denom),
    ensures
        b0 * z + ((size - bw * z) / 2 - b0 * z) >= 0,
        (b0 + bw) * z + ((size - bw * z) / 2 - b0 * z) <= size,
{
    assert(bw * denom >= 1) by (nonlinear_arith)
        requires
            bw > 0,
            denom >= MILLE,
    {
    }
    vstd::arithmetic::div_mod::lemma_fundamental_div_mod(size * MILLE, bw * denom);
    assert(bw * z <= size) by (nonlinear_arith)
        requires
            bw > 0,
            denom >= MILLE,
            MILLE >= 1,
            z >= 1,
            z <= axis_zoom,
            size > 0,
            size * MILLE == (bw * denom) * axis_zoom + (size * MILLE) % (bw * denom),
            0 <= ((size * MILLE) % (bw * denom)),
    {
    }
    let d = size - bw * z;
    vstd::arithmetic::div_mod::lemma_fundamental_div_mod(d, 2);
    assert(0 <= d / 2 && d / 2 <= d);
    assert((b0 + bw) * z == b0 * z + bw * z) by (nonlinear_arith);
}

/// The cubic ease-in-out curve on per-mille inputs: accelerates to the
/// halfway point, then decelerates symmetrically.
pub open spec fn ease_spec(t: int) -> int {
    let m = MILLE as int;
    if t < 500 {
        4 * t * t * t / (m * m)
    } else {
        m - (2 * m - 2 * t) * (2 * m - 2 * t) * (2 * m - 2 * t) / (2 * m * m)
    }
}

/// Cubic ease-in-out on a per-mille progress value.
pub fn ease_in_out_cubic(t: i64) -> (r: i64)
    requires
        0 <= t <= MILLE,
    ensures
        r == ease_spec(t as int),
        0 <= r <= MILLE,
        t == 0 ==> r == 0,
        t == MILLE ==> r == MILLE,
{
    if t < 500 {
        proof {
            assert(0 <= t * t <= 500 * 500) by (nonlinear_arith)
                requires
                    0 <= t < 500,
            {
            }
            assert(0 <= t * t * t <= 500 * 500 * 500) by (nonlinear_arith)
                requires
                    0 <= t < 500,
            {
            }
        }
        let cube: i64 = 4 * (t * t * t);
        proof {
            assert(0 <= t * t * t <= 500 * 500 * 500) by (nonlinear_arith)
                requires
                    0 <= t < 500,
            {
            }
            vstd::arithmetic::div_mod::lemma_fundamental_div_mod(4 * t * t * t, 1_000_000);
            assert(0 <= 4 * (t as int) * t * t / 1_000_000 < MILLE) by (nonlinear_arith)
                requires
                    0 <= t * t * t <= 500 * 500 * 500,
                    4 * (t as int) * t * t == 1_000_000 * (4 * (t as int) * t * t / 1_000_000) + (
                    4 * (t as int) * t * t) % 1_000_000,
                    0 <= ((4 * (t as int) * t * t) % 1_000_000) < 1_000_000,
            {
            }
            assert(4 * ((t as int) * t * t) == 4 * (t as int) * t * t) by (nonlinear_arith);
            assert(MILLE * MILLE == 1_000_000);
        }
        cube / 1_000_000
    } else {
        let u: i64 = 2 * MILLE - 2 * t;
        proof {
            assert(0 <= u * u <= 1000 * 1000) by (nonlinear_arith)
                requires
                    0 <= u <= 1000,
            {
            }
            assert(0 <= u * u * u <= 1000 * 1000 * 1000) by (nonlinear_arith)
                requires
                    0 <= u <= 1000,
            {
            }
        }
        let cube: i64 = u * u * u;
        proof {
            assert(0 <= u <= MILLE);
            assert(0 <= (u as int) * u * u <= 1000 * 1000 * 1000) by (nonlinear_arith)
                requires
                    0 <= u <= 1000,
            {
            }
            vstd::arithmetic::div_mod::lemma_fundamental_div_mod((u as int) * u * u, 2_000_000);
            assert(0 <= (u as int) * u * u / 2_000_000 <= 500) by (nonlinear_arith)
                requires
                    0 <= (u as int) * u * u <= 1000 * 1000 * 1000,
                    (u as int) * u * u == 2_000_000 * ((u as int) * u * u / 2_000_000) + ((
                    u as int) * u * u) % 2_000_000,
                    0 <= (((u as int) * u * u) % 2_000_000) < 2_000_000,
            {
            }
            assert(2 * MILLE * MILLE == 2_000_000);
            if t == MILLE {
                assert(u == 0);
                assert((0int) / 2_000_000 == 0);
            }
        }
        MILLE - cube / 2_000_000
    }
}

/// Linear interpolation by a per-mille fraction, rounded toward negative
/// infinity; the result never leaves the interval between the endpoints.
pub open spec fn lerp_spec(a: int, b: int, e: int) -> int {
    a + (b - a) * e / (MILLE as int)
}

/// Interpolate between two in-range values by a per-mille fraction.
pub fn lerp(a: i64, b: i64, e: i64) -> (r: i64)
    requires
        translate_ok(a as int),
        translate_ok(b as int),
        0 <= e <= MILLE,
    ensures
        r == lerp_spec(a as int, b as int, e as int),
        a <= b ==> a <= r <= b,
        b <= a ==> b <= r <= a,
        e == 0 ==> r == a,
        e == MILLE ==> r == b,
{
    let diff: i64 = b - a;
    proof {
        assert(
            -0x8000_0000_0000_0000 * 1000 <= diff as int * e <= 0x8000_0000_0000_0000 * 1000
        ) by (nonlinear_arith)
            requires
                -0x8000_0000_0000_0000 <= diff as int <= 0x8000_0000_0000_0000,
                0 <= e <= 1000,
        {
        }
    }
    let prod: i128 = (diff as i128) * (e as i128);
    let q: i128 = crate::num::div_floor_i128(prod, MILLE as i128);
    proof {
        let d = diff as int;
        let m = MILLE as int;
        vstd::arithmetic::div_mod::lemma_fundamental_div_mod(d * e, m);
        if d >= 0 {
            assert(0 <= d * e <= d * m) by (nonlinear_arith)
                requires
                    d >= 0,
                    0 <= e <= m,
            {
            }
            assert(0 <= d * e / m <= d) by (nonlinear_arith)
                requires
                    0 <= d * e <= d * m,
                    m >= 1,
                    d * e == m * (d * e / m) + (d * e) % m,
                    0 <= ((d * e) % m) < m,
            {
            }
        } else {
            assert(d * m <= d * e <= 0) by (nonlinear_arith)
                requires
                    d < 0,
                    0 <= e <= m,
            {
            }
            assert(d <= d * e / m <= 0) by (nonlinear_arith)
                requires
                    d * m <= d * e <= 0,
                    m >= 1,
                    d * e == m * (d * e / m) + (d * e) % m,
                    0 <= ((d * e) % m) < m,
            {
            }
        }
        if e == MILLE {
            vstd::arithmetic::div_mod::lemma_div_multiples_vanish(d, m);
            assert(d * m == m * d) by (nonlinear_arith);
        }
    }
    a + (q as i64)
}

/// The viewport an animation shows after `elapsed` of `duration` time units:
/// each component interpolates independently along the eased curve.
pub open spec fn animation_sample_spec(
    start: Viewport,
    target: Viewport,
    elapsed: int,
    duration: int,
) -> Viewport {
    let t = if elapsed >= duration {
        MILLE as int
    } else {
        elapsed * (MILLE as int) / duration
    };
    let e = ease_spec(t);
    Viewport {
        x: lerp_spec(start.x as int, target.x as int, e) as i64,
        y: lerp_spec(start.y as int, target.y as int, e) as i64,
        zoom: lerp_spec(start.zoom as int, target.zoom as int, e) as i64,
    }
}

/// Sample an animated transition: the start viewport at time zero, the
/// target from `duration` on, eased in between.
pub fn viewport_animation_sample(
    start: &Viewport,
    target: &Viewport,
    elapsed: u64,
    duration: u64,
) -> (r: Viewport)
    requires
        viewport_wf(*start),
        viewport_wf(*target),
        duration >= 1,
    ensures
        r == animation_sample_spec(*start, *target, elapsed as int, duration as int),
        viewport_wf(r),
        elapsed == 0 ==> r == *start,
        elapsed >= duration ==> r == *target,
{
    let t: i64 = if elapsed >= duration {
        1000
    } else {
        let wide: u128 = (elapsed as u128) * 1000 / (duration as u128);
        proof {
            let q = elapsed as int * 1000 / duration as int;
            vstd::arithmetic::div_mod::lemma_fundamental_div_mod(
                elapsed as int * 1000,
                duration as int,
            );
            assert(0 <= q < 1000) by (nonlinear_arith)
                requires
                    0 <= (elapsed as int) < duration as int,
                    elapsed as int * 1000 == duration as int * q + (elapsed as int * 1000)
                        % duration as int,
                    0 <= ((elapsed as int * 1000) % duration as int) < duration as int,
            {
            }
            if elapsed == 0 {
                assert((0int) / duration as int == 0);
            }
        }
        wide as i64
    };
    let e = ease_in_out_cubic(t);
    Viewport {
        x: lerp(start.x, target.x, e),
        y: lerp(start.y, target.y, e),
        zoom: lerp(start.zoom, target.zoom, e),
    }
}

/// The viewport after zooming about a fixed screen point: the zoom moves to
/// `zoom * factor / MILLE` clamped into the zoom range, and the translation
/// is scaled so the flow point under `point` stays under it, forced into the
/// representable range if it would leave it.
pub open spec fn zoom_at_point_spec(
    v: Viewport,
    point: XYPosition,
    factor: int,
    min_zoom: int,
    max_zoom: int,
) -> Viewport {
    let next_zoom = clamp_spec(v.zoom * factor / (MILLE as int), min_zoom, max_zoom);
    if next_zoom == v.zoom {
        v
    } else {
        Viewport {
            x: crate::num::clamp_translate_spec(
                point.x - (point.x - v.x) * next_zoom / (v.zoom as int),
            ) as i64,
            y: crate::num::clamp_translate_spec(
                point.y - (point.y - v.y) * next_zoom / (v.zoom as int),
            ) as i64,
            zoom: next_zoom as i64,
        }
    }
}

/// Zoom about a fixed screen point.
pub fn zoom_at_point(
    v: &Viewport,
    point: XYPosition,
    factor: i64,
    min_zoom: i64,
    max_zoom: i64,
) -> (r: Viewport)
    requires
        viewport_wf(*v),
        crate::num::screen_ok(point.x as int),
        crate::num::screen_ok(point.y as int),
        1 <= factor <= 1_000_000,
        zoom_ok(min_zoom as int),
        zoom_ok(max_zoom as int),
        min_zoom <= max_zoom,
    ensures
        r == zoom_at_point_spec(*v, point, factor as int, min_zoom as int, max_zoom as int),
        viewport_wf(r),
{
    proof {
        assert(0 <= v.zoom as int * factor <= 0x10_0000 * 1_000_000) by (nonlinear_arith)
            requires
                1 <= v.zoom <= 0x10_0000,
                1 <= factor <= 1_000_000,
        {
        }
    }
    let scaled: i64 = div_floor(v.zoom * factor, MILLE);
    let next_zoom: i64 = crate::num::clamp_i64(scaled, min_zoom, max_zoom);
    if next_zoom == v.zoom {
        return *v;
    }
    let dx: i128 = (point.x as i128) - (v.x as i128);
    let dy: i128 = (point.y as i128) - (v.y as i128);
    proof {
        assert(
            -0x8000_0000_0000_0000 * 0x10_0000 <= dx as int * next_zoom
                <= 0x8000_0000_0000_0000 * 0x10_0000
        ) by (nonlinear_arith)
            requires
                -0x8000_0000_0000_0000 <= dx as int <= 0x8000_0000_0000_0000,
                1 <= next_zoom <= 0x10_0000,
        {
        }
        assert(
            -0x8000_0000_0000_0000 * 0x10_0000 <= dy as int * next_zoom
                <= 0x8000_0000_0000_0000 * 0x10_0000
        ) by (nonlinear_arith)
            requires
                -0x8000_0000_0000_0000 <= dy as int <= 0x8000_0000_0000_0000,
                1 <= next_zoom <= 0x10_0000,
        {
        }
    }
    let qx: i128 = crate::num::div_floor_i128(dx * (next_zoom as i128), v.zoom as i128);
    let qy: i128 = crate::num::div_floor_i128(dy * (next_zoom as i128), v.zoom as i128);
    let x: i64 = crate::num::clamp_translate((point.x as i128) - qx);
    let y: i64 = crate::num::clamp_translate((point.y as i128) - qy);
    Viewport { x, y, zoom: next_zoom }
}

} // verus!
