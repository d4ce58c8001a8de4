//! The sector path builder: classifies the angular span of a pie slice and
//! produces the closed polygon that clips a filled circle down to that
//! slice.
//!
//! Four mutually exclusive cases are decided from the signed span, by its
//! absolute value, before any normalization: a zero span renders nothing, a
//! span of a full turn or more renders the whole circle, a span of at most
//! half a turn is a minor sector, and anything between half a turn and a
//! full turn is a major sector.  Minor and major sectors are outlined by
//! intersecting tangent-direction lines around the circle and mapping the
//! resulting vertices to pixel space.

use vstd::math::abs;
use vstd::prelude::*;

use crate::frac::{
    lemma_rat_add_bounded, lemma_rat_mul_bounded, rat_add, rat_mul, rat_neg,
    rat_of_int, Frac, Rat,
};
use crate::line::{
    lemma_cross_point_bounded, lemma_expr_bounded_from_model, lemma_make_line_bounded,
    spec_cross_point, spec_make_line, spec_parallel, ExprKind, LineModel,
};
use crate::util::{
    calc_point, coord_bounded, lemma_calc_point_fits, rotate_perpendicular_positive,
    spec_calc_point, PixelPoint, UnitDirection,
};
use crate::ClipError;

verus! {

/// The four mutually exclusive geometric cases of a slice, decided from the
/// signed span's absolute value.
#[derive(Debug, Clone, Copy, PartialEq, Eq, Structural)]
pub enum SectorGeometryCase {
    /// The span is exactly zero: nothing is rendered.
    Degenerate,
    /// The span is at least a full turn: the whole circle is rendered,
    /// unclipped.
    FullCircle,
    /// The span is more than half a turn and less than a full turn.
    Major,
    /// The span is positive and at most half a turn.  A span of exactly
    /// half a turn (pi radians) is minor, not major.
    Minor,
}

/// Case selection on the signed span, in units of pi: zero is degenerate,
/// at least `2` in magnitude is a full circle, at most `1` in magnitude is
/// minor, anything else is major.
pub open spec fn spec_classify_span(s: Rat) -> SectorGeometryCase {
    if s.num == 0 {
        SectorGeometryCase::Degenerate
    } else if abs(s.num) >= 2 * s.den {
        SectorGeometryCase::FullCircle
    } else if abs(s.num) <= s.den {
        SectorGeometryCase::Minor
    } else {
        SectorGeometryCase::Major
    }
}

/// Decides which geometric case a signed span falls under.  Exactly one
/// case applies to any span.
pub fn classify_span(target_angle_range: Frac) -> (c: SectorGeometryCase)
    requires
        target_angle_range.wf(),
        target_angle_range.den <= i128::MAX / 2,
    ensures
        c == spec_classify_span(target_angle_range@),
        c is Degenerate <==> target_angle_range@.num == 0,
        c is FullCircle <==> abs(target_angle_range@.num) >= 2 * target_angle_range@.den,
        c is Minor <==> 0 < abs(target_angle_range@.num) <= target_angle_range@.den,
        c is Major <==> target_angle_range@.den < abs(target_angle_range@.num) < 2
            * target_angle_range@.den,
{
    if target_angle_range.num == 0 {
        return SectorGeometryCase::Degenerate;
    }
    if target_angle_range.num == i128::MIN {
        // The magnitude of the minimum numerator exceeds any representable
        // `2 * den`, so the span is at least a full turn.
        return SectorGeometryCase::FullCircle;
    }
    let magnitude: i128 = if target_angle_range.num < 0 {
        -target_angle_range.num
    } else {
        target_angle_range.num
    };
    if magnitude >= 2 * target_angle_range.den {
        SectorGeometryCase::FullCircle
    } else if magnitude <= target_angle_range.den {
        SectorGeometryCase::Minor
    } else {
        SectorGeometryCase::Major
    }
}

/// The drawable produced for one slice: nothing, the full unclipped circle,
/// or a closed polygon to be used as a clip region over the filled circle.
#[derive(Debug, PartialEq, Eq)]
pub enum SectorPath {
    /// A zero-span slice: render nothing.
    Empty,
    /// A slice of at least a full turn: render the circle unclipped.
    FullCircle,
    /// An ordered, closed vertex sequence outlining the sector; it starts
    /// and ends at the circle center.
    Polygon(Vec<PixelPoint>),
}

/// The tangent line at the anchor point `(ax, ay)` of the unit circle:
/// it passes through the anchor, perpendicular to the radius there.
pub open spec fn spec_tangent_line(ax: Rat, ay: Rat) -> LineModel {
    spec_make_line(rat_neg(ay), ax, ax, ay)
}

/// The line through the point `(px, py)` of the unit circle in the
/// direction of the anchor `(ax, ay)`.
pub open spec fn spec_edge_line(ax: Rat, ay: Rat, px: Rat, py: Rat) -> LineModel {
    spec_make_line(ax, ay, px, py)
}

/// The complete minor-sector polygon: six vertices, closed at the pixel
/// center, running center, start point, start crossing, end crossing, end
/// point, center, each vertex pinned to the tangent construction.
pub open spec fn spec_minor_path_correct(
    path: Seq<PixelPoint>,
    start_angle_coord: UnitDirection,
    end_angle_coord: UnitDirection,
    center_angle_coord: UnitDirection,
    cx: int,
    cy: int,
    rad: int,
) -> bool {
    let t = spec_tangent_line(center_angle_coord.x@, center_angle_coord.y@);
    let es = spec_edge_line(
        center_angle_coord.x@,
        center_angle_coord.y@,
        start_angle_coord.x@,
        start_angle_coord.y@,
    );
    let ee = spec_edge_line(
        center_angle_coord.x@,
        center_angle_coord.y@,
        end_angle_coord.x@,
        end_angle_coord.y@,
    );
    let ps = spec_cross_point(t, es);
    let pe = spec_cross_point(t, ee);
    &&& path.len() == 6
    &&& (forall|i: int| 0 <= i < path.len() ==> path[i].wf())
    &&& path[0].x@ == rat_of_int(cx) && path[0].y@ == rat_of_int(cy)
    &&& path[5] == path[0]
    &&& (path[1].x@, path[1].y@) == spec_calc_point(
        start_angle_coord.x@,
        start_angle_coord.y@,
        cx,
        cy,
        rad,
    )
    &&& !spec_parallel(t, es) && !spec_parallel(t, ee)
    &&& (path[2].x@, path[2].y@) == spec_calc_point(ps.0, ps.1, cx, cy, rad)
    &&& (path[3].x@, path[3].y@) == spec_calc_point(pe.0, pe.1, cx, cy, rad)
    &&& (path[4].x@, path[4].y@) == spec_calc_point(
        end_angle_coord.x@,
        end_angle_coord.y@,
        cx,
        cy,
        rad,
    )
}

/// The complete major-sector polygon: ten vertices, closed at the pixel
/// center, running center, start point, start crossing, extended-tangent
/// pair and cap pair, end crossing, end point, center, each vertex pinned
/// to the opposite-anchor tangent construction.
pub open spec fn spec_major_path_correct(
    path: Seq<PixelPoint>,
    start_angle_coord: UnitDirection,
    end_angle_coord: UnitDirection,
    center_angle_coord: UnitDirection,
    cx: int,
    cy: int,
    rad: int,
) -> bool {
    let tgx = rat_neg(center_angle_coord.x@);
    let tgy = rat_neg(center_angle_coord.y@);
    let t = spec_tangent_line(tgx, tgy);
    let es = spec_edge_line(tgx, tgy, start_angle_coord.x@, start_angle_coord.y@);
    let ee = spec_edge_line(tgx, tgy, end_angle_coord.x@, end_angle_coord.y@);
    let ps = spec_cross_point(t, es);
    let pe = spec_cross_point(t, ee);
    let tanx = rat_neg(tgy);
    let tany = tgx;
    let tssx = rat_add(tanx, tgx);
    let tssy = rat_add(tany, tgy);
    let tesx = rat_add(rat_neg(tanx), tgx);
    let tesy = rat_add(rat_neg(tany), tgy);
    let wx = rat_mul(center_angle_coord.x@, rat_of_int(2));
    let wy = rat_mul(center_angle_coord.y@, rat_of_int(2));
    let tfsx = rat_add(tssx, wx);
    let tfsy = rat_add(tssy, wy);
    let tfex = rat_add(tesx, wx);
    let tfey = rat_add(tesy, wy);
    &&& path.len() == 10
    &&& (forall|i: int| 0 <= i < path.len() ==> path[i].wf())
    &&& path[0].x@ == rat_of_int(cx) && path[0].y@ == rat_of_int(cy)
    &&& path[9] == path[0]
    &&& (path[1].x@, path[1].y@) == spec_calc_point(
        start_angle_coord.x@,
        start_angle_coord.y@,
        cx,
        cy,
        rad,
    )
    &&& !spec_parallel(t, es) && !spec_parallel(t, ee)
    &&& (path[2].x@, path[2].y@) == spec_calc_point(ps.0, ps.1, cx, cy, rad)
    &&& (path[3].x@, path[3].y@) == spec_calc_point(tssx, tssy, cx, cy, rad)
    &&& (path[4].x@, path[4].y@) == spec_calc_point(tfsx, tfsy, cx, cy, rad)
    &&& (path[5].x@, path[5].y@) == spec_calc_point(tfex, tfey, cx, cy, rad)
    &&& (path[6].x@, path[6].y@) == spec_calc_point(tesx, tesy, cx, cy, rad)
    &&& (path[7].x@, path[7].y@) == spec_calc_point(pe.0, pe.1, cx, cy, rad)
    &&& (path[8].x@, path[8].y@) == spec_calc_point(
        end_angle_coord.x@,
        end_angle_coord.y@,
        cx,
        cy,
        rad,
    )
}

/// Builds the clip polygon of a minor sector (span at most half a turn):
/// the tangent at the sector's bisector anchor is crossed with the
/// bisector-direction lines through the start and end points, and the
/// closed polygon runs center, start point, start crossing, end crossing,
/// end point, center.
pub fn create_data_for_minor_sector(
    circle_center: (u32, u32),
    circle_radius: u32,
    start_angle_coord: UnitDirection,
    end_angle_coord: UnitDirection,
    center_angle_coord: UnitDirection,
) -> (r: Result<Vec<PixelPoint>, ClipError>)
    requires
        start_angle_coord.wf(),
        end_angle_coord.wf(),
        center_angle_coord.wf(),
    ensures
        r matches Ok(path) ==> spec_minor_path_correct(
            path@,
            start_angle_coord,
            end_angle_coord,
            center_angle_coord,
            circle_center.0 as int,
            circle_center.1 as int,
            circle_radius as int,
        ),
        ({
            let t = spec_tangent_line(center_angle_coord.x@, center_angle_coord.y@);
            let es = spec_edge_line(
                center_angle_coord.x@,
                center_angle_coord.y@,
                start_angle_coord.x@,
                start_angle_coord.y@,
            );
            let ee = spec_edge_line(
                center_angle_coord.x@,
                center_angle_coord.y@,
                end_angle_coord.x@,
                end_angle_coord.y@,
            );
            &&& (r matches Err(e) && e == ClipError::ParallelVectorsDoNotCross ==> spec_parallel(
                t,
                es,
            ) || spec_parallel(t, ee))
            &&& (coord_bounded(start_angle_coord, 8) && coord_bounded(end_angle_coord, 8)
                && coord_bounded(center_angle_coord, 8) && !spec_parallel(t, es)
                && !spec_parallel(t, ee) ==> (r matches Ok(_)))
        }),
{
    let (circle_center_x, circle_center_y) = circle_center;

    let ghost small: bool = coord_bounded(start_angle_coord, 8) && coord_bounded(
        end_angle_coord,
        8,
    ) && coord_bounded(center_angle_coord, 8) && !spec_parallel(
        spec_tangent_line(center_angle_coord.x@, center_angle_coord.y@),
        spec_edge_line(
            center_angle_coord.x@,
            center_angle_coord.y@,
            start_angle_coord.x@,
            start_angle_coord.y@,
        ),
    ) && !spec_parallel(
        spec_tangent_line(center_angle_coord.x@, center_angle_coord.y@),
        spec_edge_line(
            center_angle_coord.x@,
            center_angle_coord.y@,
            end_angle_coord.x@,
            end_angle_coord.y@,
        ),
    );

    // The tangent at the point where the bisecting ray meets the circle.
    let tangent_angle_coord = match rotate_perpendicular_positive(center_angle_coord) {
        Some(v) => v,
        None => return Err(ClipError::NumericOverflow),
    };
    let tangent_angle_expr = match ExprKind::new(
        tangent_angle_coord.x,
        tangent_angle_coord.y,
        center_angle_coord.x,
        center_angle_coord.y,
    ) {
        Some(v) => v,
        None => return Err(ClipError::NumericOverflow),
    };

    // The line through the start point in the bisector direction.
    let start_tangent_angle_expr = match ExprKind::new(
        center_angle_coord.x,
        center_angle_coord.y,
        start_angle_coord.x,
        start_angle_coord.y,
    ) {
        Some(v) => v,
        None => return Err(ClipError::NumericOverflow),
    };
    proof {
        if small {
            lemma_make_line_bounded(
                rat_neg(center_angle_coord.y@),
                center_angle_coord.x@,
                center_angle_coord.x@,
                center_angle_coord.y@,
            );
            lemma_make_line_bounded(
                center_angle_coord.x@,
                center_angle_coord.y@,
                start_angle_coord.x@,
                start_angle_coord.y@,
            );
            lemma_expr_bounded_from_model(tangent_angle_expr, 8192, 524288);
            lemma_expr_bounded_from_model(start_tangent_angle_expr, 8192, 524288);
        }
    }
    let start_tangent_cross_angle = match tangent_angle_expr.cross_point(
        &start_tangent_angle_expr,
    ) {
        Ok(v) => v,
        Err(e) => return Err(e),
    };

    // The line through the end point in the bisector direction.
    let end_tangent_angle_expr = match ExprKind::new(
        center_angle_coord.x,
        center_angle_coord.y,
        end_angle_coord.x,
        end_angle_coord.y,
    ) {
        Some(v) => v,
        None => return Err(ClipError::NumericOverflow),
    };
    proof {
        if small {
            lemma_make_line_bounded(
                center_angle_coord.x@,
                center_angle_coord.y@,
                end_angle_coord.x@,
                end_angle_coord.y@,
            );
            lemma_expr_bounded_from_model(end_tangent_angle_expr, 8192, 524288);
        }
    }
    let end_tangent_cross_angle = match tangent_angle_expr.cross_point(&end_tangent_angle_expr) {
        Ok(v) => v,
        Err(e) => return Err(e),
    };

    proof {
        if small {
            lemma_cross_point_bounded(
                spec_tangent_line(center_angle_coord.x@, center_angle_coord.y@),
                spec_edge_line(
                    center_angle_coord.x@,
                    center_angle_coord.y@,
                    start_angle_coord.x@,
                    start_angle_coord.y@,
                ),
            );
            lemma_cross_point_bounded(
                spec_tangent_line(center_angle_coord.x@, center_angle_coord.y@),
                spec_edge_line(
                    center_angle_coord.x@,
                    center_angle_coord.y@,
                    end_angle_coord.x@,
                    end_angle_coord.y@,
                ),
            );
            lemma_calc_point_fits(
                start_angle_coord.x@,
                start_angle_coord.y@,
                circle_center_x as int,
                circle_center_y as int,
                circle_radius as int,
            );
            lemma_calc_point_fits(
                end_angle_coord.x@,
                end_angle_coord.y@,
                circle_center_x as int,
                circle_center_y as int,
                circle_radius as int,
            );
            lemma_calc_point_fits(
                start_tangent_cross_angle.0@,
                start_tangent_cross_angle.1@,
                circle_center_x as int,
                circle_center_y as int,
                circle_radius as int,
            );
            lemma_calc_point_fits(
                end_tangent_cross_angle.0@,
                end_tangent_cross_angle.1@,
                circle_center_x as int,
                circle_center_y as int,
                circle_radius as int,
            );
        }
    }
    // Map every vertex into pixel space.
    let center_point = PixelPoint {
        x: Frac::from_u32(circle_center_x),
        y: Frac::from_u32(circle_center_y),
    };
    let start_point = match calc_point(
        start_angle_coord,
        circle_center_x,
        circle_center_y,
        circle_radius,
    ) {
        Some(v) => v,
        None => return Err(ClipError::NumericOverflow),
    };
    let start_tangent_cross_point = match calc_point(
        UnitDirection { x: start_tangent_cross_angle.0, y: start_tangent_cross_angle.1 },
        circle_center_x,
        circle_center_y,
        circle_radius,
    ) {
        Some(v) => v,
        None => return Err(ClipError::NumericOverflow),
    };
    let end_tangent_cross_point = match calc_point(
        UnitDirection { x: end_tangent_cross_angle.0, y: end_tangent_cross_angle.1 },
        circle_center_x,
        circle_center_y,
        circle_radius,
    ) {
        Some(v) => v,
        None => return Err(ClipError::NumericOverflow),
    };
    let end_point = match calc_point(
        end_angle_coord,
        circle_center_x,
        circle_center_y,
        circle_radius,
    ) {
        Some(v) => v,
        None => return Err(ClipError::NumericOverflow),
    };

    let mut data: Vec<PixelPoint> = Vec::new();
    data.push(center_point);
    data.push(start_point);
    data.push(start_tangent_cross_point);
    data.push(end_tangent_cross_point);
    data.push(end_point);
    data.push(center_point);
    Ok(data)
}

/// Builds the clip polygon of a major sector (span over half a turn).  The
/// tangent anchor is the point diametrically opposite the bisector, so the
/// straight outer edge cuts across the sector's open side; two further cap
/// points, a full diameter out along the bisector, keep that edge entirely
/// outside the circle.  The closed polygon runs center, start point, start
/// crossing, near cap pair, far cap pair, end crossing, end point, center.
pub fn create_data_for_major_sector(
    circle_center: (u32, u32),
    circle_radius: u32,
    start_angle_coord: UnitDirection,
    end_angle_coord: UnitDirection,
    center_angle_coord: UnitDirection,
) -> (r: Result<Vec<PixelPoint>, ClipError>)
    requires
        start_angle_coord.wf(),
        end_angle_coord.wf(),
        center_angle_coord.wf(),
    ensures
        r matches Ok(path) ==> spec_major_path_correct(
            path@,
            start_angle_coord,
            end_angle_coord,
            center_angle_coord,
            circle_center.0 as int,
            circle_center.1 as int,
            circle_radius as int,
        ),
        ({
            let tgx = rat_neg(center_angle_coord.x@);
            let tgy = rat_neg(center_angle_coord.y@);
            let t = spec_tangent_line(tgx, tgy);
            let es = spec_edge_line(tgx, tgy, start_angle_coord.x@, start_angle_coord.y@);
            let ee = spec_edge_line(tgx, tgy, end_angle_coord.x@, end_angle_coord.y@);
            &&& (r matches Err(e) && e == ClipError::ParallelVectorsDoNotCross ==> spec_parallel(
                t,
                es,
            ) || spec_parallel(t, ee))
            &&& (coord_bounded(start_angle_coord, 8) && coord_bounded(end_angle_coord, 8)
                && coord_bounded(center_angle_coord, 8) && !spec_parallel(t, es)
                && !spec_parallel(t, ee) ==> (r matches Ok(_)))
        }),
{
    let (circle_center_x, circle_center_y) = circle_center;

    let ghost tgx: Rat = rat_neg(center_angle_coord.x@);
    let ghost tgy: Rat = rat_neg(center_angle_coord.y@);
    let ghost small: bool = coord_bounded(start_angle_coord, 8) && coord_bounded(
        end_angle_coord,
        8,
    ) && coord_bounded(center_angle_coord, 8) && !spec_parallel(
        spec_tangent_line(tgx, tgy),
        spec_edge_line(tgx, tgy, start_angle_coord.x@, start_angle_coord.y@),
    ) && !spec_parallel(
        spec_tangent_line(tgx, tgy),
        spec_edge_line(tgx, tgy, end_angle_coord.x@, end_angle_coord.y@),
    );

    // The anchor is the point diametrically opposite the bisector: the
    // middle of the sector's open side.
    let target_x = match center_angle_coord.x.neg() {
        Some(v) => v,
        None => return Err(ClipError::NumericOverflow),
    };
    let target_y = match center_angle_coord.y.neg() {
        Some(v) => v,
        None => return Err(ClipError::NumericOverflow),
    };
    let target_angle_coord = UnitDirection { x: target_x, y: target_y };

    // The tangent at the anchor point.
    let tangent_angle_coord = match rotate_perpendicular_positive(target_angle_coord) {
        Some(v) => v,
        None => return Err(ClipError::NumericOverflow),
    };
    let tangent_angle_expr = match ExprKind::new(
        tangent_angle_coord.x,
        tangent_angle_coord.y,
        target_angle_coord.x,
        target_angle_coord.y,
    ) {
        Some(v) => v,
        None => return Err(ClipError::NumericOverflow),
    };

    // The line through the start point toward the anchor.
    let start_tangent_angle_expr = match ExprKind::new(
        target_angle_coord.x,
        target_angle_coord.y,
        start_angle_coord.x,
        start_angle_coord.y,
    ) {
        Some(v) => v,
        None => return Err(ClipError::NumericOverflow),
    };
    proof {
        if small {
            lemma_make_line_bounded(rat_neg(tgy), tgx, tgx, tgy);
            lemma_make_line_bounded(tgx, tgy, start_angle_coord.x@, start_angle_coord.y@);
            lemma_expr_bounded_from_model(tangent_angle_expr, 8192, 524288);
            lemma_expr_bounded_from_model(start_tangent_angle_expr, 8192, 524288);
        }
    }
    let start_tangent_cross_angle = match tangent_angle_expr.cross_point(
        &start_tangent_angle_expr,
    ) {
        Ok(v) => v,
        Err(e) => return Err(e),
    };

    // The line through the end point toward the anchor.
    let end_tangent_angle_expr = match ExprKind::new(
        target_angle_coord.x,
        target_angle_coord.y,
        end_angle_coord.x,
        end_angle_coord.y,
    ) {
        Some(v) => v,
        None => return Err(ClipError::NumericOverflow),
    };
    proof {
        if small {
            lemma_make_line_bounded(tgx, tgy, end_angle_coord.x@, end_angle_coord.y@);
            lemma_expr_bounded_from_model(end_tangent_angle_expr, 8192, 524288);
        }
    }
    let end_tangent_cross_angle = match tangent_angle_expr.cross_point(&end_tangent_angle_expr) {
        Ok(v) => v,
        Err(e) => return Err(e),
    };

    // Extend the tangent by a radius toward the start side, and toward the
    // end side.
    proof {
        if small {
            lemma_rat_add_bounded(tangent_angle_coord.x@, target_angle_coord.x@, 8, 8);
            lemma_rat_add_bounded(tangent_angle_coord.y@, target_angle_coord.y@, 8, 8);
        }
    }
    let tangent_start_side_x = match tangent_angle_coord.x.add(target_angle_coord.x) {
        Some(v) => v,
        None => return Err(ClipError::NumericOverflow),
    };
    let tangent_start_side_y = match tangent_angle_coord.y.add(target_angle_coord.y) {
        Some(v) => v,
        None => return Err(ClipError::NumericOverflow),
    };
    let neg_tangent_x = match tangent_angle_coord.x.neg() {
        Some(v) => v,
        None => return Err(ClipError::NumericOverflow),
    };
    let neg_tangent_y = match tangent_angle_coord.y.neg() {
        Some(v) => v,
        None => return Err(ClipError::NumericOverflow),
    };
    proof {
        if small {
            lemma_rat_add_bounded(neg_tangent_x@, target_angle_coord.x@, 8, 8);
            lemma_rat_add_bounded(neg_tangent_y@, target_angle_coord.y@, 8, 8);
        }
    }
    let tangent_end_side_x = match neg_tangent_x.add(target_angle_coord.x) {
        Some(v) => v,
        None => return Err(ClipError::NumericOverflow),
    };
    let tangent_end_side_y = match neg_tangent_y.add(target_angle_coord.y) {
        Some(v) => v,
        None => return Err(ClipError::NumericOverflow),
    };

    // A cap perpendicular to the extended tangent: a full diameter along
    // the bisector direction.
    let two = Frac { num: 2, den: 1 };
    proof {
        if small {
            lemma_rat_mul_bounded(center_angle_coord.x@, two@, 8, 2);
            lemma_rat_mul_bounded(center_angle_coord.y@, two@, 8, 2);
        }
    }
    let width_tangent_x = match center_angle_coord.x.mul(two) {
        Some(v) => v,
        None => return Err(ClipError::NumericOverflow),
    };
    let width_tangent_y = match center_angle_coord.y.mul(two) {
        Some(v) => v,
        None => return Err(ClipError::NumericOverflow),
    };
    proof {
        if small {
            lemma_rat_add_bounded(tangent_start_side_x@, width_tangent_x@, 128, 16);
            lemma_rat_add_bounded(tangent_start_side_y@, width_tangent_y@, 128, 16);
            lemma_rat_add_bounded(tangent_end_side_x@, width_tangent_x@, 128, 16);
            lemma_rat_add_bounded(tangent_end_side_y@, width_tangent_y@, 128, 16);
        }
    }
    let tangent_from_start_x = match tangent_start_side_x.add(width_tangent_x) {
        Some(v) => v,
        None => return Err(ClipError::NumericOverflow),
    };
    let tangent_from_start_y = match tangent_start_side_y.add(width_tangent_y) {
        Some(v) => v,
        None => return Err(ClipError::NumericOverflow),
    };
    let tangent_from_end_x = match tangent_end_side_x.add(width_tangent_x) {
        Some(v) => v,
        None => return Err(ClipError::NumericOverflow),
    };
    let tangent_from_end_y = match tangent_end_side_y.add(width_tangent_y) {
        Some(v) => v,
        None => return Err(ClipError::NumericOverflow),
    };

    proof {
        if small {
            lemma_cross_point_bounded(
                spec_tangent_line(tgx, tgy),
                spec_edge_line(tgx, tgy, start_angle_coord.x@, start_angle_coord.y@),
            );
            lemma_cross_point_bounded(
                spec_tangent_line(tgx, tgy),
                spec_edge_line(tgx, tgy, end_angle_coord.x@, end_angle_coord.y@),
            );
            lemma_calc_point_fits(
                start_angle_coord.x@,
                start_angle_coord.y@,
                circle_center_x as int,
                circle_center_y as int,
                circle_radius as int,
            );
            lemma_calc_point_fits(
                end_angle_coord.x@,
                end_angle_coord.y@,
                circle_center_x as int,
                circle_center_y as int,
                circle_radius as int,
            );
            lemma_calc_point_fits(
                start_tangent_cross_angle.0@,
                start_tangent_cross_angle.1@,
                circle_center_x as int,
                circle_center_y as int,
                circle_radius as int,
            );
            lemma_calc_point_fits(
                end_tangent_cross_angle.0@,
                end_tangent_cross_angle.1@,
                circle_center_x as int,
                circle_center_y as int,
                circle_radius as int,
            );
            lemma_calc_point_fits(
                tangent_start_side_x@,
                tangent_start_side_y@,
                circle_center_x as int,
                circle_center_y as int,
                circle_radius as int,
            );
            lemma_calc_point_fits(
                tangent_end_side_x@,
                tangent_end_side_y@,
                circle_center_x as int,
                circle_center_y as int,
                circle_radius as int,
            );
            lemma_calc_point_fits(
                tangent_from_start_x@,
                tangent_from_start_y@,
                circle_center_x as int,
                circle_center_y as int,
                circle_radius as int,
            );
            lemma_calc_point_fits(
                tangent_from_end_x@,
                tangent_from_end_y@,
                circle_center_x as int,
                circle_center_y as int,
                circle_radius as int,
            );
        }
    }
    // Map every vertex into pixel space.
    let center_point = PixelPoint {
        x: Frac::from_u32(circle_center_x),
        y: Frac::from_u32(circle_center_y),
    };
    let start_point = match calc_point(
        start_angle_coord,
        circle_center_x,
        circle_center_y,
        circle_radius,
    ) {
        Some(v) => v,
        None => return Err(ClipError::NumericOverflow),
    };
    let start_tangent_cross_point = match calc_point(
        UnitDirection { x: start_tangent_cross_angle.0, y: start_tangent_cross_angle.1 },
        circle_center_x,
        circle_center_y,
        circle_radius,
    ) {
        Some(v) => v,
        None => return Err(ClipError::NumericOverflow),
    };
    let end_tangent_cross_point = match calc_point(
        UnitDirection { x: end_tangent_cross_angle.0, y: end_tangent_cross_angle.1 },
        circle_center_x,
        circle_center_y,
        circle_radius,
    ) {
        Some(v) => v,
        None => return Err(ClipError::NumericOverflow),
    };
    let end_point = match calc_point(
        end_angle_coord,
        circle_center_x,
        circle_center_y,
        circle_radius,
    ) {
        Some(v) => v,
        None => return Err(ClipError::NumericOverflow),
    };
    let tangent_start_side_point = match calc_point(
        UnitDirection { x: tangent_start_side_x, y: tangent_start_side_y },
        circle_center_x,
        circle_center_y,
        circle_radius,
    ) {
        Some(v) => v,
        None => return Err(ClipError::NumericOverflow),
    };
    let tangent_end_side_point = match calc_point(
        UnitDirection { x: tangent_end_side_x, y: tangent_end_side_y },
        circle_center_x,
        circle_center_y,
        circle_radius,
    ) {
        Some(v) => v,
        None => return Err(ClipError::NumericOverflow),
    };
    let tangent_from_start_point = match calc_point(
        UnitDirection { x: tangent_from_start_x, y: tangent_from_start_y },
        circle_center_x,
        circle_center_y,
        circle_radius,
    ) {
        Some(v) => v,
        None => return Err(ClipError::NumericOverflow),
    };
    let tangent_from_end_point = match calc_point(
        UnitDirection { x: tangent_from_end_x, y: tangent_from_end_y },
        circle_center_x,
        circle_center_y,
        circle_radius,
    ) {
        Some(v) => v,
        None => return Err(ClipError::NumericOverflow),
    };

    let mut data: Vec<PixelPoint> = Vec::new();
    data.push(center_point);
    data.push(start_point);
    data.push(start_tangent_cross_point);
    data.push(tangent_start_side_point);
    data.push(tangent_from_start_point);
    data.push(tangent_from_end_point);
    data.push(tangent_end_side_point);
    data.push(end_tangent_cross_point);
    data.push(end_point);
    data.push(center_point);
    Ok(data)
}

/// The tangent and the two edge lines of the construction that the case
/// selects (the bisector anchor for a minor sector, the opposite anchor
/// for a major one) are pairwise non-parallel, so both crossings exist.
pub open spec fn spec_sector_lines_cross(
    start_angle_coord: UnitDirection,
    end_angle_coord: UnitDirection,
    center_angle_coord: UnitDirection,
    major: bool,
) -> bool {
    let ax = if major {
        rat_neg(center_angle_coord.x@)
    } else {
        center_angle_coord.x@
    };
    let ay = if major {
        rat_neg(center_angle_coord.y@)
    } else {
        center_angle_coord.y@
    };
    let t = spec_tangent_line(ax, ay);
    let es = spec_edge_line(ax, ay, start_angle_coord.x@, start_angle_coord.y@);
    let ee = spec_edge_line(ax, ay, end_angle_coord.x@, end_angle_coord.y@);
    !spec_parallel(t, es) && !spec_parallel(t, ee)
}

/// Dispatches a non-degenerate, non-full-circle slice to the minor or
/// major construction, by the absolute value of the signed span.
pub fn create_data_for_clip(
    circle_center: (u32, u32),
    circle_radius: u32,
    start_angle_coord: UnitDirection,
    end_angle_coord: UnitDirection,
    center_angle_coord: UnitDirection,
    target_angle_range: Frac,
) -> (r: Result<Vec<PixelPoint>, ClipError>)
    requires
        start_angle_coord.wf(),
        end_angle_coord.wf(),
        center_angle_coord.wf(),
        target_angle_range.wf(),
        target_angle_range.den <= i128::MAX / 2,
    ensures
        ({
            let c = spec_classify_span(target_angle_range@);
            let cx = circle_center.0 as int;
            let cy = circle_center.1 as int;
            &&& (r matches Ok(path) ==> {
                &&& (c is Major ==> path@.len() == 10)
                &&& (!(c is Major) ==> path@.len() == 6)
                &&& forall|i: int| 0 <= i < path@.len() ==> path@[i].wf()
                &&& path@[0].x@ == rat_of_int(cx) && path@[0].y@ == rat_of_int(cy)
                &&& path@[path@.len() - 1] == path@[0]
                &&& (path@[1].x@, path@[1].y@) == spec_calc_point(
                    start_angle_coord.x@,
                    start_angle_coord.y@,
                    cx,
                    cy,
                    circle_radius as int,
                )
                &&& (path@[path@.len() - 2].x@, path@[path@.len() - 2].y@) == spec_calc_point(
                    end_angle_coord.x@,
                    end_angle_coord.y@,
                    cx,
                    cy,
                    circle_radius as int,
                )
            })
            &&& (r matches Ok(path) ==> (c is Major ==> spec_major_path_correct(
                path@,
                start_angle_coord,
                end_angle_coord,
                center_angle_coord,
                cx,
                cy,
                circle_radius as int,
            )))
            &&& (r matches Ok(path) ==> (!(c is Major) ==> spec_minor_path_correct(
                path@,
                start_angle_coord,
                end_angle_coord,
                center_angle_coord,
                cx,
                cy,
                circle_radius as int,
            )))
            &&& (coord_bounded(start_angle_coord, 8) && coord_bounded(end_angle_coord, 8)
                && coord_bounded(center_angle_coord, 8) && spec_sector_lines_cross(
                start_angle_coord,
                end_angle_coord,
                center_angle_coord,
                c is Major,
            ) ==> (r matches Ok(_)))
        }),
{
    let case = classify_span(target_angle_range);
    if case == SectorGeometryCase::Major {
        create_data_for_major_sector(
            circle_center,
            circle_radius,
            start_angle_coord,
            end_angle_coord,
            center_angle_coord,
        )
    } else {
        create_data_for_minor_sector(
            circle_center,
            circle_radius,
            start_angle_coord,
            end_angle_coord,
            center_angle_coord,
        )
    }
}

/// Produces the drawable of one slice: nothing for a zero span, the full
/// circle for a span of at least a full turn, and otherwise the closed
/// clip polygon of the minor or major sector.  The polygon starts and ends
/// at the circle center.
pub fn build_sector_path(
    circle_center: (u32, u32),
    circle_radius: u32,
    start_angle_coord: UnitDirection,
    end_angle_coord: UnitDirection,
    center_angle_coord: UnitDirection,
    target_angle_range: Frac,
) -> (r: Result<SectorPath, ClipError>)
    requires
        start_angle_coord.wf(),
        end_angle_coord.wf(),
        center_angle_coord.wf(),
        target_angle_range.wf(),
        target_angle_range.den <= i128::MAX / 2,
    ensures
        ({
            let c = spec_classify_span(target_angle_range@);
            let cx = circle_center.0 as int;
            let cy = circle_center.1 as int;
            &&& ((c is Degenerate) <==> (r matches Ok(p) && p == SectorPath::Empty))
            &&& ((c is FullCircle) <==> (r matches Ok(p) && p == SectorPath::FullCircle))
            &&& (r matches Ok(p) ==> p matches SectorPath::Polygon(path) ==> {
                &&& (c is Minor && path@.len() == 6) || (c is Major && path@.len() == 10)
                &&& forall|i: int| 0 <= i < path@.len() ==> path@[i].wf()
                &&& path@[0].x@ == rat_of_int(cx) && path@[0].y@ == rat_of_int(cy)
                &&& path@[path@.len() - 1] == path@[0]
                &&& (path@[1].x@, path@[1].y@) == spec_calc_point(
                    start_angle_coord.x@,
                    start_angle_coord.y@,
                    cx,
                    cy,
                    circle_radius as int,
                )
                &&& (path@[path@.len() - 2].x@, path@[path@.len() - 2].y@) == spec_calc_point(
                    end_angle_coord.x@,
                    end_angle_coord.y@,
                    cx,
                    cy,
                    circle_radius as int,
                )
            })
            &&& (r is Err ==> c is Minor || c is Major)
            &&& (r matches Ok(p) ==> p matches SectorPath::Polygon(path) ==> {
                &&& (c is Major ==> spec_major_path_correct(
                    path@,
                    start_angle_coord,
                    end_angle_coord,
                    center_angle_coord,
                    cx,
                    cy,
                    circle_radius as int,
                ))
                &&& (c is Minor ==> spec_minor_path_correct(
                    path@,
                    start_angle_coord,
                    end_angle_coord,
                    center_angle_coord,
                    cx,
                    cy,
                    circle_radius as int,
                ))
            })
            &&& (coord_bounded(start_angle_coord, 8) && coord_bounded(end_angle_coord, 8)
                && coord_bounded(center_angle_coord, 8) && spec_sector_lines_cross(
                start_angle_coord,
                end_angle_coord,
                center_angle_coord,
                c is Major,
            ) ==> (r matches Ok(_)))
        }),
{
    let case = classify_span(target_angle_range);

    // A slice with no angle renders nothing.
    if case == SectorGeometryCase::Degenerate {
        return Ok(SectorPath::Empty);
    }

    // A slice of a full turn or more renders the unclipped circle.
    if case == SectorGeometryCase::FullCircle {
        return Ok(SectorPath::FullCircle);
    }

    // An ordinary sector: clip the circle by the sector polygon.
    match create_data_for_clip(
        circle_center,
        circle_radius,
        start_angle_coord,
        end_angle_coord,
        center_angle_coord,
        target_angle_range,
    ) {
        Ok(data) => Ok(SectorPath::Polygon(data)),
        Err(e) => Err(e),
    }
}

} // verus!
