//! Edge path geometry: straight, bezier, simple-bezier, step and smooth-step
//! paths, each returned as structured drawing commands with a label anchor.

use vstd::prelude::*;
use crate::connection::ConnectionLineType;
use crate::edge::{Edge, EdgePathOptions, EdgePathResult, PathCommand};
use crate::geometry::{dist_sq_spec, Position, XYPosition};
use crate::num::{coord_ok, div_floor, sqrt_floor, COORD_MAX, MILLE};

verus! {

/// Default curvature of a bezier edge, in per-mille.
pub const DEFAULT_BEZIER_CURVATURE: i64 = 250;

/// Default corner radius of a smooth-step edge.
pub const DEFAULT_SMOOTH_STEP_RADIUS: i64 = 5;

/// Default gap between a handle and the first bend of a step edge.
pub const DEFAULT_SMOOTH_STEP_OFFSET: i64 = 20;

/// Default position of the middle segment of a step edge, in per-mille.
pub const DEFAULT_STEP_POSITION: i64 = 500;

pub open spec fn abs_int(x: int) -> int {
    if x >= 0 {
        x
    } else {
        -x
    }
}

pub open spec fn min_int(a: int, b: int) -> int {
    if a <= b {
        a
    } else {
        b
    }
}

pub open spec fn max_int(a: int, b: int) -> int {
    if a >= b {
        a
    } else {
        b
    }
}

/// A point from mathematical coordinates; exact for in-range values.
pub open spec fn pt(x: int, y: int) -> XYPosition {
    XYPosition { x: x as i64, y: y as i64 }
}

/// The midpoint of a segment, written as the original center computation is:
/// half the separation away from the target.
pub open spec fn edge_center_coord(s: int, t: int) -> int {
    let o = abs_int(t - s) / 2;
    if t < s {
        t + o
    } else {
        t - o
    }
}

/// The midpoint of a segment and the label offsets from the source.
pub fn get_edge_center(source_x: i64, source_y: i64, target_x: i64, target_y: i64) -> (r: (
    i64,
    i64,
    i64,
    i64,
))
    requires
        coord_ok(source_x as int),
        coord_ok(source_y as int),
        coord_ok(target_x as int),
        coord_ok(target_y as int),
    ensures
        r.0 == edge_center_coord(source_x as int, target_x as int),
        r.1 == edge_center_coord(source_y as int, target_y as int),
        r.2 == abs_int(target_x - source_x) / 2,
        r.3 == abs_int(target_y - source_y) / 2,
{
    let offset_x = div_floor(crate::num::abs_i64(target_x - source_x), 2);
    let center_x = if target_x < source_x {
        target_x + offset_x
    } else {
        target_x - offset_x
    };
    let offset_y = div_floor(crate::num::abs_i64(target_y - source_y), 2);
    let center_y = if target_y < source_y {
        target_y + offset_y
    } else {
        target_y - offset_y
    };
    (center_x, center_y, offset_x, offset_y)
}

/// The straight path: one segment, labelled at its midpoint.
pub open spec fn straight_path_spec(sx: int, sy: int, tx: int, ty: int) -> (
    Seq<PathCommand>,
    int,
    int,
    int,
    int,
) {
    (
        seq![
            PathCommand::MoveTo { x: sx as i64, y: sy as i64 },
            PathCommand::LineTo { x: tx as i64, y: ty as i64 },
        ],
        edge_center_coord(sx, tx),
        edge_center_coord(sy, ty),
        abs_int(tx - sx) / 2,
        abs_int(ty - sy) / 2,
    )
}

/// A straight edge: one segment, labelled at its midpoint.
pub fn get_straight_path(source_x: i64, source_y: i64, target_x: i64, target_y: i64) -> (r:
    EdgePathResult)
    requires
        coord_ok(source_x as int),
        coord_ok(source_y as int),
        coord_ok(target_x as int),
        coord_ok(target_y as int),
    ensures
        r@ == straight_path_spec(source_x as int, source_y as int, target_x as int, target_y as int),
{
    let (label_x, label_y, offset_x, offset_y) = get_edge_center(
        source_x,
        source_y,
        target_x,
        target_y,
    );
    let mut path: Vec<PathCommand> = Vec::new();
    path.push(PathCommand::MoveTo { x: source_x, y: source_y });
    path.push(PathCommand::LineTo { x: target_x, y: target_y });
    let r = EdgePathResult { path, label_x, label_y, offset_x, offset_y };
    proof {
        assert(r.path@ =~= straight_path_spec(
            source_x as int,
            source_y as int,
            target_x as int,
            target_y as int,
        ).0);
    }
    r
}

/// How far a bezier control point extends from its anchor: half the distance
/// toward the other anchor when it lies ahead, else a curvature-scaled
/// square root of the distance behind.
pub open spec fn control_offset_spec(distance: int, curvature: int) -> int {
    if distance >= 0 {
        distance / 2
    } else {
        curvature * 25 * sqrt_floor(-distance) / (MILLE as int)
    }
}

/// Compute the control offset for one axis.
fn calculate_control_offset(distance: i64, curvature: i64) -> (r: i64)
    requires
        -4 * COORD_MAX <= distance <= 4 * COORD_MAX,
        0 <= curvature <= MILLE,
    ensures
        r == control_offset_spec(distance as int, curvature as int),
        0 <= r <= 4 * COORD_MAX,
{
    if distance >= 0 {
        div_floor(distance, 2)
    } else {
        let s64: u64 = crate::num::isqrt_u64((-distance) as u64);
        proof {
            assert(s64 as int * s64 as int <= 4 * COORD_MAX);
            assert(s64 as int <= 0x10_0000) by (nonlinear_arith)
                requires
                    s64 as int * s64 as int <= 0x100_0000_0000,
                    s64 >= 0,
            {
            }
        }
        let s: i64 = s64 as i64;
        proof {
            assert(0 <= (curvature as int * 25) * s <= 25000 * 0x10_0000) by (nonlinear_arith)
                requires
                    0 <= curvature <= 1000,
                    0 <= s <= 0x10_0000,
            {
            }
        }
        let scaled: i64 = curvature * 25 * s;
        let r = div_floor(scaled, MILLE);
        proof {
            vstd::arithmetic::div_mod::lemma_fundamental_div_mod(scaled as int, MILLE as int);
            assert(0 <= scaled as int / (MILLE as int) <= scaled) by (nonlinear_arith)
                requires
                    scaled >= 0,
                    scaled as int == (MILLE as int) * (scaled as int / (MILLE as int)) + (
                    scaled as int) % (MILLE as int),
                    0 <= ((scaled as int) % (MILLE as int)) < (MILLE as int),
            {
            }
        }
        r
    }
}

/// The control point of a bezier anchor: it extends outward from the anchor
/// along the side its handle faces.
pub open spec fn control_point_spec(
    position: Position,
    x1: int,
    y1: int,
    x2: int,
    y2: int,
    curvature: int,
) -> (int, int) {
    match position {
        Position::Left => (x1 - control_offset_spec(x1 - x2, curvature), y1),
        Position::Right => (x1 + control_offset_spec(x2 - x1, curvature), y1),
        Position::Top => (x1, y1 - control_offset_spec(y1 - y2, curvature)),
        Position::Bottom => (x1, y1 + control_offset_spec(y2 - y1, curvature)),
    }
}

/// Compute a bezier control point.
fn get_control_with_curvature(position: Position, x1: i64, y1: i64, x2: i64, y2: i64, curvature:
    i64) -> (r: (i64, i64))
    requires
        coord_ok(x1 as int),
        coord_ok(y1 as int),
        coord_ok(x2 as int),
        coord_ok(y2 as int),
        0 <= curvature <= MILLE,
    ensures
        (r.0 as int, r.1 as int) == control_point_spec(
            position,
            x1 as int,
            y1 as int,
            x2 as int,
            y2 as int,
            curvature as int,
        ),
        -8 * COORD_MAX <= r.0 <= 8 * COORD_MAX,
        -8 * COORD_MAX <= r.1 <= 8 * COORD_MAX,
{
    match position {
        Position::Left => (x1 - calculate_control_offset(x1 - x2, curvature), y1),
        Position::Right => (x1 + calculate_control_offset(x2 - x1, curvature), y1),
        Position::Top => (x1, y1 - calculate_control_offset(y1 - y2, curvature)),
        Position::Bottom => (x1, y1 + calculate_control_offset(y2 - y1, curvature)),
    }
}

/// The label point of a cubic segment: the curve evaluated halfway, i.e. the
/// weighted sum `(s + 3 c1 + 3 c2 + t) / 8` per coordinate.
pub open spec fn bezier_center_coord(s: int, c1: int, c2: int, t: int) -> int {
    (s + 3 * c1 + 3 * c2 + t) / 8
}

/// The bezier path: one cubic segment through the two control points,
/// labelled at the curve's halfway point, with the label's distance from the
/// source.
pub open spec fn bezier_path_spec(sx: int, sy: int, tx: int, ty: int, sp: Position, tp: Position, curvature: int) -> (
    Seq<PathCommand>,
    int,
    int,
    int,
    int,
) {
    let sc = control_point_spec(sp, sx, sy, tx, ty, curvature);
    let tc = control_point_spec(tp, tx, ty, sx, sy, curvature);
    let lx = bezier_center_coord(sx, sc.0, tc.0, tx);
    let ly = bezier_center_coord(sy, sc.1, tc.1, ty);
    (
        seq![
            PathCommand::MoveTo { x: sx as i64, y: sy as i64 },
            PathCommand::CubicTo {
                c1x: sc.0 as i64,
                c1y: sc.1 as i64,
                c2x: tc.0 as i64,
                c2y: tc.1 as i64,
                x: tx as i64,
                y: ty as i64,
            },
        ],
        lx,
        ly,
        abs_int(lx - sx),
        abs_int(ly - sy),
    )
}

/// A bezier edge: one cubic segment with curvature-scaled control points.
pub fn get_bezier_path(
    source_x: i64,
    source_y: i64,
    target_x: i64,
    target_y: i64,
    source_position: Position,
    target_position: Position,
    curvature: Option<i64>,
) -> (r: EdgePathResult)
    requires
        coord_ok(source_x as int),
        coord_ok(source_y as int),
        coord_ok(target_x as int),
        coord_ok(target_y as int),
        curvature is Some ==> 0 <= curvature->0 <= MILLE,
    ensures
        r@ == bezier_path_spec(
            source_x as int,
            source_y as int,
            target_x as int,
            target_y as int,
            source_position,
            target_position,
            if curvature is Some {
                curvature->0 as int
            } else {
                DEFAULT_BEZIER_CURVATURE as int
            },
        ),
{
    let c: i64 = match curvature {
        Some(c) => c,
        None => DEFAULT_BEZIER_CURVATURE,
    };
    let (scx, scy) = get_control_with_curvature(
        source_position,
        source_x,
        source_y,
        target_x,
        target_y,
        c,
    );
    let (tcx, tcy) = get_control_with_curvature(
        target_position,
        target_x,
        target_y,
        source_x,
        source_y,
        c,
    );
    let label_x = div_floor(source_x + 3 * scx + 3 * tcx + target_x, 8);
    let label_y = div_floor(source_y + 3 * scy + 3 * tcy + target_y, 8);
    let offset_x = crate::num::abs_i64(label_x - source_x);
    let offset_y = crate::num::abs_i64(label_y - source_y);
    let mut path: Vec<PathCommand> = Vec::new();
    path.push(PathCommand::MoveTo { x: source_x, y: source_y });
    path.push(
        PathCommand::CubicTo { c1x: scx, c1y: scy, c2x: tcx, c2y: tcy, x: target_x, y: target_y },
    );
    let r = EdgePathResult { path, label_x, label_y, offset_x, offset_y };
    proof {
        assert(r.path@ =~= bezier_path_spec(
            source_x as int,
            source_y as int,
            target_x as int,
            target_y as int,
            source_position,
            target_position,
            c as int,
        ).0);
    }
    r
}

/// The control point of a simple bezier anchor: the axis-aligned midpoint
/// between the anchors.
pub open spec fn simple_control_spec(position: Position, x1: int, y1: int, x2: int, y2: int) -> (
    int,
    int,
) {
    if position == Position::Left || position == Position::Right {
        ((x1 + x2) / 2, y1)
    } else {
        (x1, (y1 + y2) / 2)
    }
}

/// The simple bezier path: control points at the axis-aligned midpoints.
pub open spec fn simple_bezier_path_spec(sx: int, sy: int, tx: int, ty: int, sp: Position, tp: Position) -> (
    Seq<PathCommand>,
    int,
    int,
    int,
    int,
) {
    let sc = simple_control_spec(sp, sx, sy, tx, ty);
    let tc = simple_control_spec(tp, tx, ty, sx, sy);
    let lx = bezier_center_coord(sx, sc.0, tc.0, tx);
    let ly = bezier_center_coord(sy, sc.1, tc.1, ty);
    (
        seq![
            PathCommand::MoveTo { x: sx as i64, y: sy as i64 },
            PathCommand::CubicTo {
                c1x: sc.0 as i64,
                c1y: sc.1 as i64,
                c2x: tc.0 as i64,
                c2y: tc.1 as i64,
                x: tx as i64,
                y: ty as i64,
            },
        ],
        lx,
        ly,
        abs_int(lx - sx),
        abs_int(ly - sy),
    )
}

/// A simple bezier edge: no curvature input, midpoint control points.
pub fn get_simple_bezier_path(
    source_x: i64,
    source_y: i64,
    target_x: i64,
    target_y: i64,
    source_position: Position,
    target_position: Position,
) -> (r: EdgePathResult)
    requires
        coord_ok(source_x as int),
        coord_ok(source_y as int),
        coord_ok(target_x as int),
        coord_ok(target_y as int),
    ensures
        r@ == simple_bezier_path_spec(
            source_x as int,
            source_y as int,
            target_x as int,
            target_y as int,
            source_position,
            target_position,
        ),
{
    let (scx, scy) = get_simple_control(source_position, source_x, source_y, target_x, target_y);
    let (tcx, tcy) = get_simple_control(target_position, target_x, target_y, source_x, source_y);
    let label_x = div_floor(source_x + 3 * scx + 3 * tcx + target_x, 8);
    let label_y = div_floor(source_y + 3 * scy + 3 * tcy + target_y, 8);
    let offset_x = crate::num::abs_i64(label_x - source_x);
    let offset_y = crate::num::abs_i64(label_y - source_y);
    let mut path: Vec<PathCommand> = Vec::new();
    path.push(PathCommand::MoveTo { x: source_x, y: source_y });
    path.push(
        PathCommand::CubicTo { c1x: scx, c1y: scy, c2x: tcx, c2y: tcy, x: target_x, y: target_y },
    );
    let r = EdgePathResult { path, label_x, label_y, offset_x, offset_y };
    proof {
        assert(r.path@ =~= simple_bezier_path_spec(
            source_x as int,
            source_y as int,
            target_x as int,
            target_y as int,
            source_position,
            target_position,
        ).0);
    }
    r
}

/// Compute a simple bezier control point.
fn get_simple_control(position: Position, x1: i64, y1: i64, x2: i64, y2: i64) -> (r: (i64, i64))
    requires
        coord_ok(x1 as int),
        coord_ok(y1 as int),
        coord_ok(x2 as int),
        coord_ok(y2 as int),
    ensures
        (r.0 as int, r.1 as int) == simple_control_spec(
            position,
            x1 as int,
            y1 as int,
            x2 as int,
            y2 as int,
        ),
        coord_ok(r.0 as int),
        coord_ok(r.1 as int),
{
    let horizontal = match position {
        Position::Left | Position::Right => true,
        _ => false,
    };
    if horizontal {
        (div_floor(x1 + x2, 2), y1)
    } else {
        (x1, div_floor(y1 + y2, 2))
    }
}

/// The gapped anchor: the anchor moved `offset` units outward along the side
/// its handle faces.
pub open spec fn gapped_spec(p: XYPosition, pos: Position, offset: int) -> (int, int) {
    match pos {
        Position::Left => (p.x - offset, p.y as int),
        Position::Right => (p.x + offset, p.y as int),
        Position::Top => (p.x as int, p.y - offset),
        Position::Bottom => (p.x as int, p.y + offset),
    }
}

/// The handle's facing direction along one axis: `-1`, `0` or `1`.
pub open spec fn axis_dir(pos: Position, horizontal: bool) -> int {
    if horizontal {
        match pos {
            Position::Left => -1,
            Position::Right => 1,
            _ => 0,
        }
    } else {
        match pos {
            Position::Top => -1,
            Position::Bottom => 1,
            _ => 0,
        }
    }
}

/// Every routed point stays within the flow span.
pub open spec fn points_span_ok(ps: Seq<XYPosition>) -> bool {
    forall|k: int|
        0 <= k < ps.len() ==> crate::num::span_ok(#[trigger] ps[k].x as int) && crate::num::span_ok(
            ps[k].y as int,
        )
}

/// The handles face each other along the source handle's axis.
pub open spec fn handles_opposing(sp: Position, tp: Position) -> bool {
    let acc_x = sp == Position::Left || sp == Position::Right;
    let sd = axis_dir(sp, acc_x);
    let td = axis_dir(tp, acc_x);
    sd == -td && td != 0
}

/// The routing of a step edge with opposing handles: out through both
/// gapped points, around a middle split whose position along the source
/// axis follows `step_position`, centred on the other axis.
pub open spec fn step_route_opposing(
    source: XYPosition,
    sp: Position,
    target: XYPosition,
    tp: Position,
    offset: int,
    step_position: int,
) -> (Seq<XYPosition>, int, int) {
    let sg = gapped_spec(source, sp, offset);
    let tg = gapped_spec(target, tp, offset);
    let acc_x = sp == Position::Left || sp == Position::Right;
    let curr_dir: int = if acc_x {
        if sg.0 < tg.0 {
            1
        } else {
            -1
        }
    } else {
        if sg.1 < tg.1 {
            1
        } else {
            -1
        }
    };
    let sd = axis_dir(sp, acc_x);
    let cx = if acc_x {
        sg.0 + (tg.0 - sg.0) * step_position / (MILLE as int)
    } else {
        (sg.0 + tg.0) / 2
    };
    let cy = if acc_x {
        (sg.1 + tg.1) / 2
    } else {
        sg.1 + (tg.1 - sg.1) * step_position / (MILLE as int)
    };
    let use_vertical = if sd == curr_dir {
        acc_x
    } else {
        !acc_x
    };
    let m1 = if use_vertical {
        pt(cx, sg.1)
    } else {
        pt(sg.0, cy)
    };
    let m2 = if use_vertical {
        pt(cx, tg.1)
    } else {
        pt(tg.0, cy)
    };
    (seq![source, pt(sg.0, sg.1), m1, m2, pt(tg.0, tg.1), target], cx, cy)
}

/// The routing of a step edge whose handles do not oppose: one bend, with a
/// symmetric gap adjustment when both handles face the same side and the
/// anchors are closer together than the gap, and a flip of the bend corner
/// for perpendicular handles that would otherwise cross their anchors.
pub open spec fn step_route_bend(
    source: XYPosition,
    sp: Position,
    target: XYPosition,
    tp: Position,
    offset: int,
) -> (Seq<XYPosition>, int, int) {
    let sg = gapped_spec(source, sp, offset);
    let tg = gapped_spec(target, tp, offset);
    let acc_x = sp == Position::Left || sp == Position::Right;
    let curr_dir: int = if acc_x {
        if sg.0 < tg.0 {
            1
        } else {
            -1
        }
    } else {
        if sg.1 < tg.1 {
            1
        } else {
            -1
        }
    };
    let sd = axis_dir(sp, acc_x);
    let diff = if acc_x {
        abs_int(source.x - target.x)
    } else {
        abs_int(source.y - target.y)
    };
    let adjust = sp == tp && diff <= offset;
    let g = min_int(offset - 1, offset - diff);
    let sgo: (int, int) = if adjust && sd == curr_dir {
        if acc_x {
            (
                if sg.0 > source.x {
                    -g
                } else {
                    g
                },
                0,
            )
        } else {
            (
                0,
                if sg.1 > source.y {
                    -g
                } else {
                    g
                },
            )
        }
    } else {
        (0, 0)
    };
    let tgo: (int, int) = if adjust && sd != curr_dir {
        if acc_x {
            (
                if tg.0 > target.x {
                    -g
                } else {
                    g
                },
                0,
            )
        } else {
            (
                0,
                if tg.1 > target.y {
                    -g
                } else {
                    g
                },
            )
        }
    } else {
        (0, 0)
    };
    let flip = if sp != tp {
        let td_opp = axis_dir(tp, !acc_x);
        let is_same_dir = sd == td_opp;
        let sg_opp = if acc_x {
            sg.1
        } else {
            sg.0
        };
        let tg_opp = if acc_x {
            tg.1
        } else {
            tg.0
        };
        if sd == 1 {
            (!is_same_dir && sg_opp > tg_opp) || (is_same_dir && sg_opp < tg_opp)
        } else {
            (!is_same_dir && sg_opp < tg_opp) || (is_same_dir && sg_opp > tg_opp)
        }
    } else {
        false
    };
    let base_is_target_source = if acc_x {
        sd == curr_dir
    } else {
        sd != curr_dir
    };
    let mid_is_target_source = if flip {
        !acc_x
    } else {
        base_is_target_source
    };
    let m = if mid_is_target_source {
        pt(tg.0, sg.1)
    } else {
        pt(sg.0, tg.1)
    };
    let sgp = (sg.0 + sgo.0, sg.1 + sgo.1);
    let tgp = (tg.0 + tgo.0, tg.1 + tgo.1);
    let mx = max_int(abs_int(sgp.0 - m.x), abs_int(tgp.0 - m.x));
    let my = max_int(abs_int(sgp.1 - m.y), abs_int(tgp.1 - m.y));
    let cx = if mx >= my {
        (sgp.0 + tgp.0) / 2
    } else {
        m.x as int
    };
    let cy = if mx >= my {
        m.y as int
    } else {
        (sgp.1 + tgp.1) / 2
    };
    (seq![source, pt(sgp.0, sgp.1), m, pt(tgp.0, tgp.1), target], cx, cy)
}

/// The routing of a step edge: the full point list from source to target,
/// the label point, and the default label offsets.
pub open spec fn smooth_step_points_spec(
    source: XYPosition,
    source_position: Position,
    target: XYPosition,
    target_position: Position,
    offset: int,
    step_position: int,
) -> (Seq<XYPosition>, int, int, int, int) {
    let dox = abs_int(target.x - source.x) / 2;
    let doy = abs_int(target.y - source.y) / 2;
    let route = if handles_opposing(source_position, target_position) {
        step_route_opposing(source, source_position, target, target_position, offset, step_position)
    } else {
        step_route_bend(source, source_position, target, target_position, offset)
    };
    (route.0, route.1, route.2, dox, doy)
}

/// Compute the opposing-handles routing.
#[verifier::rlimit(100)]
fn route_opposing(
    source: XYPosition,
    source_position: Position,
    target: XYPosition,
    target_position: Position,
    offset: i64,
    step_position: i64,
) -> (r: (Vec<XYPosition>, i64, i64))
    requires
        crate::geometry::point_ok(source),
        crate::geometry::point_ok(target),
        0 <= offset <= COORD_MAX,
        0 <= step_position <= MILLE,
        handles_opposing(source_position, target_position),
    ensures
        ({
            let s = step_route_opposing(
                source,
                source_position,
                target,
                target_position,
                offset as int,
                step_position as int,
            );
            &&& r.0@ =~= s.0
            &&& r.1 == s.1
            &&& r.2 == s.2
        }),
        points_span_ok(r.0@),
        r.0@.len() == 6,
{
    let (sgx, sgy) = gapped(source, source_position, offset);
    let (tgx, tgy) = gapped(target, target_position, offset);
    let acc_x = match source_position {
        Position::Left | Position::Right => true,
        _ => false,
    };
    let curr_dir: i64 = if acc_x {
        if sgx < tgx {
            1
        } else {
            -1
        }
    } else {
        if sgy < tgy {
            1
        } else {
            -1
        }
    };
    let sd: i64 = axis_dir_of(source_position, acc_x);
    let cx: i64 = if acc_x {
        sgx + div_floor(crate::num::mul_i64(tgx - sgx, step_position), MILLE)
    } else {
        div_floor(sgx + tgx, 2)
    };
    let cy: i64 = if acc_x {
        div_floor(sgy + tgy, 2)
    } else {
        sgy + div_floor(crate::num::mul_i64(tgy - sgy, step_position), MILLE)
    };
    proof {
        lemma_per_mille_interp(sgx as int, tgx as int, step_position as int);
        lemma_per_mille_interp(sgy as int, tgy as int, step_position as int);
        vstd::arithmetic::div_mod::lemma_fundamental_div_mod(sgx as int + tgx, 2);
        vstd::arithmetic::div_mod::lemma_fundamental_div_mod(sgy as int + tgy, 2);
    }
    let use_vertical = if sd == curr_dir {
        acc_x
    } else {
        !acc_x
    };
    let (m1, m2) = if use_vertical {
        (XYPosition { x: cx, y: sgy }, XYPosition { x: cx, y: tgy })
    } else {
        (XYPosition { x: sgx, y: cy }, XYPosition { x: tgx, y: cy })
    };
    let mut points: Vec<XYPosition> = Vec::new();
    points.push(source);
    points.push(XYPosition { x: sgx, y: sgy });
    points.push(m1);
    points.push(m2);
    points.push(XYPosition { x: tgx, y: tgy });
    points.push(target);
    (points, cx, cy)
}

/// Compute the single-bend routing.
#[verifier::rlimit(100)]
fn route_bend(
    source: XYPosition,
    source_position: Position,
    target: XYPosition,
    target_position: Position,
    offset: i64,
) -> (r: (Vec<XYPosition>, i64, i64))
    requires
        crate::geometry::point_ok(source),
        crate::geometry::point_ok(target),
        0 <= offset <= COORD_MAX,
    ensures
        ({
            let s = step_route_bend(
                source,
                source_position,
                target,
                target_position,
                offset as int,
            );
            &&& r.0@ =~= s.0
            &&& r.1 == s.1
            &&& r.2 == s.2
        }),
        points_span_ok(r.0@),
        r.0@.len() == 5,
{
    let (sgx, sgy) = gapped(source, source_position, offset);
    let (tgx, tgy) = gapped(target, target_position, offset);
    let acc_x = match source_position {
        Position::Left | Position::Right => true,
        _ => false,
    };
    let curr_dir: i64 = if acc_x {
        if sgx < tgx {
            1
        } else {
            -1
        }
    } else {
        if sgy < tgy {
            1
        } else {
            -1
        }
    };
    let sd: i64 = axis_dir_of(source_position, acc_x);
    let diff: i64 = if acc_x {
        crate::num::abs_i64(source.x - target.x)
    } else {
        crate::num::abs_i64(source.y - target.y)
    };
    let same_position = match (source_position, target_position) {
        (Position::Left, Position::Left)
        | (Position::Right, Position::Right)
        | (Position::Top, Position::Top)
        | (Position::Bottom, Position::Bottom) => true,
        _ => false,
    };
    let adjust = same_position && diff <= offset;
    let g: i64 = crate::num::min_i64(offset - 1, offset - diff);
    let mut sgox: i64 = 0;
    let mut sgoy: i64 = 0;
    let mut tgox: i64 = 0;
    let mut tgoy: i64 = 0;
    if adjust {
        if sd == curr_dir {
            if acc_x {
                sgox = if sgx > source.x {
                    -g
                } else {
                    g
                };
            } else {
                sgoy = if sgy > source.y {
                    -g
                } else {
                    g
                };
            }
        } else {
            if acc_x {
                tgox = if tgx > target.x {
                    -g
                } else {
                    g
                };
            } else {
                tgoy = if tgy > target.y {
                    -g
                } else {
                    g
                };
            }
        }
    }
    let flip = if !same_position {
        let td_opp: i64 = axis_dir_of(target_position, !acc_x);
        let is_same_dir = sd == td_opp;
        let sg_opp: i64 = if acc_x {
            sgy
        } else {
            sgx
        };
        let tg_opp: i64 = if acc_x {
            tgy
        } else {
            tgx
        };
        if sd == 1 {
            (!is_same_dir && sg_opp > tg_opp) || (is_same_dir && sg_opp < tg_opp)
        } else {
            (!is_same_dir && sg_opp < tg_opp) || (is_same_dir && sg_opp > tg_opp)
        }
    } else {
        false
    };
    let base_is_target_source = if acc_x {
        sd == curr_dir
    } else {
        sd != curr_dir
    };
    let mid_is_target_source = if flip {
        !acc_x
    } else {
        base_is_target_source
    };
    let m = if mid_is_target_source {
        XYPosition { x: tgx, y: sgy }
    } else {
        XYPosition { x: sgx, y: tgy }
    };
    let sgpx = sgx + sgox;
    let sgpy = sgy + sgoy;
    let tgpx = tgx + tgox;
    let tgpy = tgy + tgoy;
    let mx = crate::num::max_i64(crate::num::abs_i64(sgpx - m.x), crate::num::abs_i64(tgpx - m.x));
    let my = crate::num::max_i64(crate::num::abs_i64(sgpy - m.y), crate::num::abs_i64(tgpy - m.y));
    let (cx, cy) = if mx >= my {
        proof {
            vstd::arithmetic::div_mod::lemma_fundamental_div_mod(sgpx as int + tgpx, 2);
        }
        (div_floor(sgpx + tgpx, 2), m.y)
    } else {
        proof {
            vstd::arithmetic::div_mod::lemma_fundamental_div_mod(sgpy as int + tgpy, 2);
        }
        (m.x, div_floor(sgpy + tgpy, 2))
    };
    let mut points: Vec<XYPosition> = Vec::new();
    points.push(source);
    points.push(XYPosition { x: sgpx, y: sgpy });
    points.push(m);
    points.push(XYPosition { x: tgpx, y: tgpy });
    points.push(target);
    (points, cx, cy)
}

/// Compute the step routing: the point list, the label point, and the
/// default label offsets.
pub fn get_smooth_step_points(
    source: XYPosition,
    source_position: Position,
    target: XYPosition,
    target_position: Position,
    offset: i64,
    step_position: i64,
) -> (r: (Vec<XYPosition>, i64, i64, i64, i64))
    requires
        crate::geometry::point_ok(source),
        crate::geometry::point_ok(target),
        0 <= offset <= COORD_MAX,
        0 <= step_position <= MILLE,
    ensures
        ({
            let s = smooth_step_points_spec(
                source,
                source_position,
                target,
                target_position,
                offset as int,
                step_position as int,
            );
            &&& r.0@ == s.0
            &&& r.1 == s.1
            &&& r.2 == s.2
            &&& r.3 == s.3
            &&& r.4 == s.4
        }),
        points_span_ok(r.0@),
        r.0@.len() == 5 || r.0@.len() == 6,
{
    let (_, _, dox, doy) = get_edge_center(source.x, source.y, target.x, target.y);
    let acc_x = match source_position {
        Position::Left | Position::Right => true,
        _ => false,
    };
    let sd: i64 = axis_dir_of(source_position, acc_x);
    let td: i64 = axis_dir_of(target_position, acc_x);
    if sd == -td && td != 0 {
        let (points, cx, cy) = route_opposing(
            source,
            source_position,
            target,
            target_position,
            offset,
            step_position,
        );
        (points, cx, cy, dox, doy)
    } else {
        let (points, cx, cy) = route_bend(
            source,
            source_position,
            target,
            target_position,
            offset,
        );
        (points, cx, cy, dox, doy)
    }
}

/// The gapped anchor.
fn gapped(p: XYPosition, pos: Position, offset: i64) -> (r: (i64, i64))
    requires
        crate::geometry::point_ok(p),
        0 <= offset <= COORD_MAX,
    ensures
        (r.0 as int, r.1 as int) == gapped_spec(p, pos, offset as int),
        -2 * COORD_MAX <= r.0 <= 2 * COORD_MAX,
        -2 * COORD_MAX <= r.1 <= 2 * COORD_MAX,
{
    match pos {
        Position::Left => (p.x - offset, p.y),
        Position::Right => (p.x + offset, p.y),
        Position::Top => (p.x, p.y - offset),
        Position::Bottom => (p.x, p.y + offset),
    }
}

/// The handle's facing direction along one axis.
fn axis_dir_of(pos: Position, horizontal: bool) -> (r: i64)
    ensures
        r == axis_dir(pos, horizontal),
{
    if horizontal {
        match pos {
            Position::Left => -1,
            Position::Right => 1,
            _ => 0,
        }
    } else {
        match pos {
            Position::Top => -1,
            Position::Bottom => 1,
            _ => 0,
        }
    }
}

/// The per-mille interpolation between two in-range coordinates stays
/// between them.
proof fn lemma_per_mille_interp(a: int, b: int, e: int)
    requires
        -2 * COORD_MAX <= a <= 2 * COORD_MAX,
        -2 * COORD_MAX <= b <= 2 * COORD_MAX,
        0 <= e <= MILLE,
    ensures
        a <= b ==> a <= a + (b - a) * e / (MILLE as int) <= b,
        b <= a ==> b <= a + (b - a) * e / (MILLE as int) <= a,
{
    let d = b - a;
    let m = MILLE as int;
    vstd::arithmetic::div_mod::lemma_fundamental_div_mod(d * e, m);
    if d >= 0 {
        assert(0 <= d * e <= d * m) by (nonlinear_arith)
            requires
                d >= 0,
                0 <= e <= m,
        {
        }
        assert(0 <= d * e / m <= d) by (nonlinear_arith)
            requires
                0 <= d * e <= d * m,
                m >= 1,
                d * e == m * (d * e / m) + (d * e) % m,
                0 <= ((d * e) % m) < m,
        {
        }
    } else {
        assert(d * m <= d * e <= 0) by (nonlinear_arith)
            requires
                d < 0,
                0 <= e <= m,
        {
        }
        assert(d <= d * e / m <= 0) by (nonlinear_arith)
            requires
                d * m <= d * e <= 0,
                m >= 1,
                d * e == m * (d * e / m) + (d * e) % m,
                0 <= ((d * e) % m) < m,
        {
        }
    }
}

/// The rounded corner at an interior point: the corner radius is capped by
/// half of each adjacent segment and the configured size; a corner whose
/// three points are colinear is a plain segment.
pub open spec fn bend_size_spec(a: XYPosition, b: XYPosition, c: XYPosition, size: int) -> int {
    let d1 = sqrt_floor(dist_sq_spec(a, b)) / 2;
    let d2 = sqrt_floor(dist_sq_spec(b, c)) / 2;
    min_int(min_int(d1, d2), size)
}

/// The drawing commands of one interior corner.
pub open spec fn bend_commands_spec(a: XYPosition, b: XYPosition, c: XYPosition, size: int) -> Seq<
    PathCommand,
> {
    let bend = bend_size_spec(a, b, c, size);
    if (a.x == b.x && b.x == c.x) || (a.y == b.y && b.y == c.y) {
        seq![PathCommand::LineTo { x: b.x, y: b.y }]
    } else if a.y == b.y {
        let x1 = if a.x < c.x {
            b.x - bend
        } else {
            b.x + bend
        };
        let y2 = if a.y < c.y {
            b.y + bend
        } else {
            b.y - bend
        };
        seq![
            PathCommand::LineTo { x: x1 as i64, y: b.y },
            PathCommand::QuadTo { cx: b.x, cy: b.y, x: b.x, y: y2 as i64 },
        ]
    } else {
        let y1 = if a.y < c.y {
            b.y - bend
        } else {
            b.y + bend
        };
        let x2 = if a.x < c.x {
            b.x + bend
        } else {
            b.x - bend
        };
        seq![
            PathCommand::LineTo { x: b.x, y: y1 as i64 },
            PathCommand::QuadTo { cx: b.x, cy: b.y, x: x2 as i64, y: b.y },
        ]
    }
}

/// Compute the commands of one rounded corner.
fn get_bend(a: XYPosition, b: XYPosition, c: XYPosition, size: i64, out: &mut Vec<PathCommand>)
    requires
        crate::num::span_ok(a.x as int),
        crate::num::span_ok(a.y as int),
        crate::num::span_ok(b.x as int),
        crate::num::span_ok(b.y as int),
        crate::num::span_ok(c.x as int),
        crate::num::span_ok(c.y as int),
        0 <= size <= COORD_MAX,
    ensures
        final(out)@ =~= old(out)@ + bend_commands_spec(a, b, c, size as int),
{
    let dsq1: u128 = a.dist_sq(&b);
    let dsq2: u128 = b.dist_sq(&c);
    let s1: u128 = crate::num::isqrt_u128(dsq1);
    let s2: u128 = crate::num::isqrt_u128(dsq2);
    proof {
        assert(dsq1 <= 0x8_0000_0000_0000_0000_0000) by (nonlinear_arith)
            requires
                dsq1 == (a.x - b.x) * (a.x - b.x) + (a.y - b.y) * (a.y - b.y),
                -0x200_0000_0000 <= a.x as int - b.x <= 0x200_0000_0000,
                -0x200_0000_0000 <= a.y as int - b.y <= 0x200_0000_0000,
        {
        }
        assert(dsq2 <= 0x8_0000_0000_0000_0000_0000) by (nonlinear_arith)
            requires
                dsq2 == (b.x - c.x) * (b.x - c.x) + (b.y - c.y) * (b.y - c.y),
                -0x200_0000_0000 <= b.x as int - c.x <= 0x200_0000_0000,
                -0x200_0000_0000 <= b.y as int - c.y <= 0x200_0000_0000,
        {
        }
        assert(s1 <= 0x400_0000_0000) by (nonlinear_arith)
            requires
                s1 * s1 <= 0x8_0000_0000_0000_0000_0000,
        {
        }
        assert(s2 <= 0x400_0000_0000) by (nonlinear_arith)
            requires
                s2 * s2 <= 0x8_0000_0000_0000_0000_0000,
        {
        }
    }
    let d1: i64 = (s1 / 2) as i64;
    let d2: i64 = (s2 / 2) as i64;
    let bend: i64 = crate::num::min_i64(crate::num::min_i64(d1, d2), size);
    if (a.x == b.x && b.x == c.x) || (a.y == b.y && b.y == c.y) {
        out.push(PathCommand::LineTo { x: b.x, y: b.y });
    } else if a.y == b.y {
        let x1: i64 = if a.x < c.x {
            b.x - bend
        } else {
            b.x + bend
        };
        let y2: i64 = if a.y < c.y {
            b.y + bend
        } else {
            b.y - bend
        };
        out.push(PathCommand::LineTo { x: x1, y: b.y });
        out.push(PathCommand::QuadTo { cx: b.x, cy: b.y, x: b.x, y: y2 });
    } else {
        let y1: i64 = if a.y < c.y {
            b.y - bend
        } else {
            b.y + bend
        };
        let x2: i64 = if a.x < c.x {
            b.x + bend
        } else {
            b.x - bend
        };
        out.push(PathCommand::LineTo { x: b.x, y: y1 });
        out.push(PathCommand::QuadTo { cx: b.x, cy: b.y, x: x2, y: b.y });
    }
}

/// The commands of a step path from point `i` on: a move to the first
/// point, a rounded corner at each interior point, and a final segment.
pub open spec fn step_commands_from(points: Seq<XYPosition>, radius: int, i: int) -> Seq<
    PathCommand,
>
    decreases points.len() - i,
{
    if i < 0 || i >= points.len() {
        Seq::empty()
    } else {
        let head: Seq<PathCommand> = if i == 0 {
            seq![PathCommand::MoveTo { x: points[0].x, y: points[0].y }]
        } else if i < points.len() - 1 {
            bend_commands_spec(points[i - 1], points[i], points[i + 1], radius)
        } else {
            seq![PathCommand::LineTo { x: points[i].x, y: points[i].y }]
        };
        head + step_commands_from(points, radius, i + 1)
    }
}

/// Assemble the commands of a step path over its routed points.
fn assemble_step_commands(points: &Vec<XYPosition>, radius: i64) -> (r: Vec<PathCommand>)
    requires
        points_span_ok(points@),
        0 <= radius <= COORD_MAX,
        points@.len() >= 2,
    ensures
        r@ == step_commands_from(points@, radius as int, 0),
{
    let mut out: Vec<PathCommand> = Vec::new();
    let mut i: usize = 0;
    while i < points.len()
        invariant
            i <= points@.len(),
            points_span_ok(points@),
            0 <= radius <= COORD_MAX,
            points@.len() >= 2,
            step_commands_from(points@, radius as int, 0) == out@ + step_commands_from(
                points@,
                radius as int,
                i as int,
            ),
        decreases points@.len() - i,
    {
        let ghost before = out@;
        if i == 0 {
            out.push(PathCommand::MoveTo { x: points[0].x, y: points[0].y });
            proof {
                let head = seq![PathCommand::MoveTo { x: points@[0].x, y: points@[0].y }];
                let tail = step_commands_from(points@, radius as int, i as int + 1);
                assert(out@ =~= before + head);
                assert((before + head) + tail =~= before + (head + tail));
            }
        } else if i < points.len() - 1 {
            get_bend(points[i - 1], points[i], points[i + 1], radius, &mut out);
            proof {
                let head = bend_commands_spec(
                    points@[i as int - 1],
                    points@[i as int],
                    points@[i as int + 1],
                    radius as int,
                );
                let tail = step_commands_from(points@, radius as int, i as int + 1);
                assert(out@ =~= before + head);
                assert((before + head) + tail =~= before + (head + tail));
            }
        } else {
            out.push(PathCommand::LineTo { x: points[i].x, y: points[i].y });
            proof {
                let head = seq![
                    PathCommand::LineTo { x: points@[i as int].x, y: points@[i as int].y },
                ];
                let tail = step_commands_from(points@, radius as int, i as int + 1);
                assert(out@ =~= before + head);
                assert((before + head) + tail =~= before + (head + tail));
            }
        }
        i = i + 1;
    }
    proof {
        assert(step_commands_from(points@, radius as int, points@.len() as int) =~= Seq::<
            PathCommand,
        >::empty());
        assert(out@ + Seq::<PathCommand>::empty() =~= out@);
    }
    out
}

/// The full smooth-step result: the routed points turned into commands with
/// rounded corners, and the label point of the routing.
pub open spec fn smooth_step_path_spec(
    sx: int,
    sy: int,
    tx: int,
    ty: int,
    sp: Position,
    tp: Position,
    radius: int,
    offset: int,
    step_position: int,
) -> (Seq<PathCommand>, int, int, int, int) {
    let s = smooth_step_points_spec(pt(sx, sy), sp, pt(tx, ty), tp, offset, step_position);
    (step_commands_from(s.0, radius, 0), s.1, s.2, s.3, s.4)
}

/// A smooth-step edge, with the given or default corner radius, gap and
/// middle-segment position.
pub fn get_smooth_step_path(
    source_x: i64,
    source_y: i64,
    target_x: i64,
    target_y: i64,
    source_position: Position,
    target_position: Position,
    border_radius: Option<i64>,
    offset: Option<i64>,
    step_position: Option<i64>,
) -> (r: EdgePathResult)
    requires
        coord_ok(source_x as int),
        coord_ok(source_y as int),
        coord_ok(target_x as int),
        coord_ok(target_y as int),
        border_radius is Some ==> 0 <= border_radius->0 <= COORD_MAX,
        offset is Some ==> 0 <= offset->0 <= COORD_MAX,
        step_position is Some ==> 0 <= step_position->0 <= MILLE,
    ensures
        r@ == smooth_step_path_spec(
            source_x as int,
            source_y as int,
            target_x as int,
            target_y as int,
            source_position,
            target_position,
            if border_radius is Some {
                border_radius->0 as int
            } else {
                DEFAULT_SMOOTH_STEP_RADIUS as int
            },
            if offset is Some {
                offset->0 as int
            } else {
                DEFAULT_SMOOTH_STEP_OFFSET as int
            },
            if step_position is Some {
                step_position->0 as int
            } else {
                DEFAULT_STEP_POSITION as int
            },
        ),
{
    let radius: i64 = match border_radius {
        Some(v) => v,
        None => DEFAULT_SMOOTH_STEP_RADIUS,
    };
    let off: i64 = match offset {
        Some(v) => v,
        None => DEFAULT_SMOOTH_STEP_OFFSET,
    };
    let sp_mille: i64 = match step_position {
        Some(v) => v,
        None => DEFAULT_STEP_POSITION,
    };
    let source = XYPosition { x: source_x, y: source_y };
    let target = XYPosition { x: target_x, y: target_y };
    let (points, label_x, label_y, offset_x, offset_y) = get_smooth_step_points(
        source,
        source_position,
        target,
        target_position,
        off,
        sp_mille,
    );
    let path = assemble_step_commands(&points, radius);
    EdgePathResult { path, label_x, label_y, offset_x, offset_y }
}

/// A step edge: a smooth-step edge with square corners.
pub fn get_step_path(
    source_x: i64,
    source_y: i64,
    target_x: i64,
    target_y: i64,
    source_position: Position,
    target_position: Position,
    offset: Option<i64>,
) -> (r: EdgePathResult)
    requires
        coord_ok(source_x as int),
        coord_ok(source_y as int),
        coord_ok(target_x as int),
        coord_ok(target_y as int),
        offset is Some ==> 0 <= offset->0 <= COORD_MAX,
    ensures
        r@ == smooth_step_path_spec(
            source_x as int,
            source_y as int,
            target_x as int,
            target_y as int,
            source_position,
            target_position,
            0,
            if offset is Some {
                offset->0 as int
            } else {
                DEFAULT_SMOOTH_STEP_OFFSET as int
            },
            DEFAULT_STEP_POSITION as int,
        ),
{
    get_smooth_step_path(
        source_x,
        source_y,
        target_x,
        target_y,
        source_position,
        target_position,
        Some(0),
        offset,
        None,
    )
}

/// The path style named by an edge's type: unknown and absent types draw a
/// bezier.
pub open spec fn path_kind_spec(edge_type: Option<String>) -> ConnectionLineType {
    match edge_type {
        Some(t) => {
            if t@ == "straight"@ {
                ConnectionLineType::Straight
            } else if t@ == "step"@ {
                ConnectionLineType::Step
            } else if t@ == "smoothstep"@ {
                ConnectionLineType::SmoothStep
            } else if t@ == "simplebezier"@ {
                ConnectionLineType::SimpleBezier
            } else {
                ConnectionLineType::Bezier
            }
        },
        None => ConnectionLineType::Bezier,
    }
}

/// Map an edge's type name to its path style.
pub fn path_kind_of(edge_type: &Option<String>) -> (r: ConnectionLineType)
    ensures
        r == path_kind_spec(*edge_type),
{
    match edge_type {
        Some(t) => {
            if *t == "straight".to_owned() {
                ConnectionLineType::Straight
            } else if *t == "step".to_owned() {
                ConnectionLineType::Step
            } else if *t == "smoothstep".to_owned() {
                ConnectionLineType::SmoothStep
            } else if *t == "simplebezier".to_owned() {
                ConnectionLineType::SimpleBezier
            } else {
                ConnectionLineType::Bezier
            }
        },
        None => ConnectionLineType::Bezier,
    }
}

/// The path of an edge according to its declared type, with default path
/// options throughout.
pub fn edge_path_for_type<E>(
    edge: &Edge<E>,
    source_x: i64,
    source_y: i64,
    target_x: i64,
    target_y: i64,
    source_position: Position,
    target_position: Position,
) -> (r: EdgePathResult)
    requires
        coord_ok(source_x as int),
        coord_ok(source_y as int),
        coord_ok(target_x as int),
        coord_ok(target_y as int),
    ensures
        ({
            let sx = source_x as int;
            let sy = source_y as int;
            let tx = target_x as int;
            let ty = target_y as int;
            match path_kind_spec(edge.edge_type) {
                ConnectionLineType::Straight => r@ == straight_path_spec(sx, sy, tx, ty),
                ConnectionLineType::Step => r@ == smooth_step_path_spec(
                    sx,
                    sy,
                    tx,
                    ty,
                    source_position,
                    target_position,
                    0,
                    DEFAULT_SMOOTH_STEP_OFFSET as int,
                    DEFAULT_STEP_POSITION as int,
                ),
                ConnectionLineType::SmoothStep => r@ == smooth_step_path_spec(
                    sx,
                    sy,
                    tx,
                    ty,
                    source_position,
                    target_position,
                    DEFAULT_SMOOTH_STEP_RADIUS as int,
                    DEFAULT_SMOOTH_STEP_OFFSET as int,
                    DEFAULT_STEP_POSITION as int,
                ),
                ConnectionLineType::SimpleBezier => r@ == simple_bezier_path_spec(
                    sx,
                    sy,
                    tx,
                    ty,
                    source_position,
                    target_position,
                ),
                ConnectionLineType::Bezier => r@ == bezier_path_spec(
                    sx,
                    sy,
                    tx,
                    ty,
                    source_position,
                    target_position,
                    DEFAULT_BEZIER_CURVATURE as int,
                ),
            }
        }),
{
    let kind = path_kind_of(&edge.edge_type);
    match kind {
        ConnectionLineType::Straight => get_straight_path(source_x, source_y, target_x, target_y),
        ConnectionLineType::Step => get_step_path(
            source_x,
            source_y,
            target_x,
            target_y,
            source_position,
            target_position,
            None,
        ),
        ConnectionLineType::SmoothStep => get_smooth_step_path(
            source_x,
            source_y,
            target_x,
            target_y,
            source_position,
            target_position,
            None,
            None,
            None,
        ),
        ConnectionLineType::SimpleBezier => get_simple_bezier_path(
            source_x,
            source_y,
            target_x,
            target_y,
            source_position,
            target_position,
        ),
        ConnectionLineType::Bezier => get_bezier_path(
            source_x,
            source_y,
            target_x,
            target_y,
            source_position,
            target_position,
            None,
        ),
    }
}

} // verus!
