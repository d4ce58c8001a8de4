//! Sector classification, clip-polygon construction, chart planning, and
//! label layout.

use svg_pie_chart::chart::plan_slices;
use svg_pie_chart::frac::Frac;
use svg_pie_chart::label::{label_layout, label_outline_is_dark};
use svg_pie_chart::pie::{
    build_sector_path, classify_span, SectorGeometryCase, SectorPath,
};
use svg_pie_chart::util::{axis_angle_coord, PixelPoint, UnitDirection};

fn frac(num: i64, den: i64) -> Frac {
    Frac::new(num, den)
}

fn pixel(x: i64, y: i64) -> PixelPoint {
    PixelPoint { x: frac(x, 1), y: frac(y, 1) }
}

/// The exact quarter-turn direction where one exists, otherwise a rational
/// approximation of `(cos(a*pi), sin(a*pi))` with denominator 64.
fn approx_dir(angle: Frac) -> UnitDirection {
    if let Some(d) = axis_angle_coord(angle) {
        return d;
    }
    let radians = (angle.num as f64 / angle.den as f64) * std::f64::consts::PI;
    let x = (radians.cos() * 64.0).round() as i64;
    let y = (radians.sin() * 64.0).round() as i64;
    UnitDirection { x: Frac::new(x, 64), y: Frac::new(y, 64) }
}

/// Builds the path of a slice given its angles, all as multiples of pi.
fn build(
    center: (u32, u32),
    radius: u32,
    start: Frac,
    end: Frac,
    mid: Frac,
    span: Frac,
) -> Result<SectorPath, svg_pie_chart::ClipError> {
    build_sector_path(
        center,
        radius,
        approx_dir(start),
        approx_dir(end),
        approx_dir(mid),
        span,
    )
}

fn expect_polygon(r: Result<SectorPath, svg_pie_chart::ClipError>) -> Vec<PixelPoint> {
    match r.unwrap() {
        SectorPath::Polygon(path) => path,
        other => panic!("expected a polygon, got {:?}", other),
    }
}

/// Every polygon starts and ends at the circle center.
fn assert_closed(path: &Vec<PixelPoint>, center: (u32, u32)) {
    assert_eq!(path[0], pixel(center.0 as i64, center.1 as i64));
    assert_eq!(path[path.len() - 1], path[0]);
}

#[test]
fn success_when_major_sector_pi() {
    // A span of exactly pi is minor by convention: the boundary is
    // inclusive on the minor side.
    assert_eq!(classify_span(frac(1, 1)), SectorGeometryCase::Minor);
    let path = expect_polygon(build(
        (50, 50),
        40,
        frac(0, 1),
        frac(1, 1),
        frac(1, 2),
        frac(1, 1),
    ));
    assert_eq!(path.len(), 6);
    assert_closed(&path, (50, 50));
    // The top half circle clips to the square above the horizontal
    // diameter.
    assert_eq!(path[1], pixel(90, 50));
    assert_eq!(path[2], pixel(90, 10));
    assert_eq!(path[3], pixel(10, 10));
    assert_eq!(path[4], pixel(10, 50));
}

#[test]
fn success_when_major_sector_over_pi() {
    let span = frac(3, 2);
    assert_eq!(classify_span(span), SectorGeometryCase::Major);
    let path = expect_polygon(build(
        (50, 50),
        40,
        frac(0, 1),
        frac(3, 2),
        frac(3, 4),
        span,
    ));
    assert_eq!(path.len(), 10);
    assert_closed(&path, (50, 50));
    assert_eq!(path[1], pixel(90, 50));
    assert_eq!(path[8], pixel(50, 90));
}

#[test]
fn success_when_major_sector_pi_accross_0_angle_001() {
    // A half-turn slice whose angles straddle the zero angle.
    let path = expect_polygon(build(
        (50, 50),
        40,
        frac(3, 2),
        frac(5, 2),
        frac(0, 1),
        frac(1, 1),
    ));
    assert_eq!(path.len(), 6);
    assert_closed(&path, (50, 50));
    assert_eq!(path[1], pixel(50, 90));
    assert_eq!(path[4], pixel(50, 10));
}

#[test]
fn success_when_major_sector_pi_accross_0_angle_002() {
    let path = expect_polygon(build(
        (50, 50),
        40,
        frac(3, 2),
        frac(5, 2),
        frac(2, 1),
        frac(1, 1),
    ));
    assert_eq!(path.len(), 6);
    assert_closed(&path, (50, 50));
    assert_eq!(path[1], pixel(50, 90));
    assert_eq!(path[4], pixel(50, 10));
}

#[test]
fn success_when_major_sector_across_0_angle() {
    let span = frac(3, 2);
    assert_eq!(classify_span(span), SectorGeometryCase::Major);
    let path = expect_polygon(build(
        (50, 50),
        40,
        frac(5, 4),
        frac(3, 4),
        frac(0, 1),
        span,
    ));
    assert_eq!(path.len(), 10);
    assert_closed(&path, (50, 50));
}

#[test]
fn success_when_major_sector_approximate_pi() {
    // Just over a half turn: still major.
    let span = frac(32, 31);
    assert_eq!(classify_span(span), SectorGeometryCase::Major);
    let path = expect_polygon(build(
        (50, 50),
        40,
        frac(0, 1),
        frac(32, 31),
        frac(16, 31),
        span,
    ));
    assert_eq!(path.len(), 10);
    assert_closed(&path, (50, 50));
}

#[test]
fn success_when_minor_sector_approximate_pi() {
    // Just under a half turn: minor.
    let span = frac(30, 31);
    assert_eq!(classify_span(span), SectorGeometryCase::Minor);
    let path = expect_polygon(build(
        (50, 50),
        40,
        frac(0, 1),
        frac(30, 31),
        frac(15, 31),
        span,
    ));
    assert_eq!(path.len(), 6);
    assert_closed(&path, (50, 50));
}

#[test]
fn success_when_minor_sector_normal() {
    let path = expect_polygon(build(
        (50, 50),
        40,
        frac(0, 1),
        frac(1, 2),
        frac(1, 4),
        frac(1, 2),
    ));
    assert_eq!(path.len(), 6);
    assert_closed(&path, (50, 50));
    assert_eq!(path[1], pixel(90, 50));
    assert_eq!(path[4], pixel(50, 10));
}

#[test]
fn success_when_minor_across_0_angle() {
    let path = expect_polygon(build(
        (50, 50),
        40,
        frac(7, 4),
        frac(1, 4),
        frac(2, 1),
        frac(1, 2),
    ));
    assert_eq!(path.len(), 6);
    assert_closed(&path, (50, 50));
}

#[test]
fn case_boundaries() {
    // Zero span: degenerate, empty path, no error.
    assert_eq!(classify_span(frac(0, 1)), SectorGeometryCase::Degenerate);
    let r = build((50, 50), 40, frac(0, 1), frac(0, 1), frac(0, 1), frac(0, 1));
    assert_eq!(r.unwrap(), SectorPath::Empty);

    // A full turn or more, of either sign: the full-circle sentinel.
    for span in [frac(2, 1), frac(-2, 1), frac(5, 2), frac(201, 100)] {
        assert_eq!(classify_span(span), SectorGeometryCase::FullCircle);
        let r = build((50, 50), 40, frac(0, 1), frac(0, 1), frac(0, 1), span);
        assert_eq!(r.unwrap(), SectorPath::FullCircle);
    }

    // Up to a half turn in magnitude: minor; beyond it: major.
    assert_eq!(classify_span(frac(1, 2)), SectorGeometryCase::Minor);
    assert_eq!(classify_span(frac(1, 1)), SectorGeometryCase::Minor);
    assert_eq!(classify_span(frac(-1, 2)), SectorGeometryCase::Minor);
    assert_eq!(classify_span(frac(101, 100)), SectorGeometryCase::Major);
    assert_eq!(classify_span(frac(3, 2)), SectorGeometryCase::Major);
    assert_eq!(classify_span(frac(-3, 2)), SectorGeometryCase::Major);
    assert_eq!(classify_span(frac(199, 100)), SectorGeometryCase::Major);
}

#[test]
fn success_when_valid_data_001() {
    // Four ratios tile the circle; every slice builds a closed minor
    // polygon.
    let ratios = vec![frac(1, 2), frac(1, 10), frac(1, 4), frac(3, 20)];
    let slices = plan_slices(&ratios).unwrap();
    assert_eq!(slices.len(), 4);
    for s in &slices {
        let path = expect_polygon(build(
            (50, 50),
            40,
            s.start_angle,
            s.end_angle,
            s.center_angle,
            s.target_angle_range,
        ));
        assert_eq!(path.len(), 6);
        assert_closed(&path, (50, 50));
    }
}

#[test]
fn success_when_valid_data_002() {
    let ratios = vec![frac(1, 2)];
    let slices = plan_slices(&ratios).unwrap();
    assert_eq!(slices.len(), 1);
    let s = &slices[0];
    assert_eq!(s.start_angle, frac(1, 2));
    assert!(s.target_angle_range.same_value(frac(1, 1)).unwrap());
    let path = expect_polygon(build(
        (100, 100),
        40,
        s.start_angle,
        s.end_angle,
        s.center_angle,
        s.target_angle_range,
    ));
    assert_eq!(path.len(), 6);
    assert_closed(&path, (100, 100));
    assert_eq!(path[1], pixel(100, 60));
}

#[test]
fn end_to_end_scenario() {
    // Ratios [0.5, 0.10, 0.25, 0.15] starting at pi/2: spans of pi,
    // 0.2*pi, 0.5*pi and 0.3*pi, accumulating to exactly a full turn.
    let ratios = vec![frac(1, 2), frac(1, 10), frac(1, 4), frac(3, 20)];
    let slices = plan_slices(&ratios).unwrap();
    assert_eq!(slices.len(), 4);

    let expected_spans = [frac(1, 1), frac(1, 5), frac(1, 2), frac(3, 10)];
    let mut total = frac(0, 1);
    for (s, expected) in slices.iter().zip(expected_spans.iter()) {
        assert!(s.target_angle_range.same_value(*expected).unwrap());
        assert!(!s.target_angle_range.is_zero());
        total = total.add(s.target_angle_range).unwrap();
    }
    // The spans sum to the fraction 2, which is 2*pi radians.
    assert!(total.same_value(frac(2, 1)).unwrap());

    // The first slice starts at twelve o'clock and each further slice
    // starts where the previous one ended: the slices do not overlap.
    assert_eq!(slices[0].start_angle, frac(1, 2));
    assert!(slices[1].start_angle.same_value(frac(3, 2)).unwrap());
    assert!(slices[2].start_angle.same_value(frac(13, 10)).unwrap());
    assert!(slices[3].start_angle.same_value(frac(4, 5)).unwrap());

    // A span of exactly pi selects the minor case: the boundary is
    // inclusive on the minor side.
    assert_eq!(
        classify_span(slices[0].target_angle_range),
        SectorGeometryCase::Minor,
    );
}

#[test]
fn single_full_slice() {
    // One slice with ratio 1 spans the whole circle and renders as the
    // unclipped circle.
    let ratios = vec![frac(1, 1)];
    let slices = plan_slices(&ratios).unwrap();
    assert_eq!(slices.len(), 1);
    let s = &slices[0];
    assert!(s.target_angle_range.same_value(frac(2, 1)).unwrap());
    assert_eq!(
        classify_span(s.target_angle_range),
        SectorGeometryCase::FullCircle,
    );
    let r = build(
        (50, 50),
        40,
        s.start_angle,
        s.end_angle,
        s.center_angle,
        s.target_angle_range,
    );
    assert_eq!(r.unwrap(), SectorPath::FullCircle);
}

#[test]
fn when_top_of_circle_brack() {
    // A black label at the top of the circle gets a light outline.
    let north = approx_dir(frac(1, 2));
    let (anchor, dark) = label_layout((50, 50), (0, 0, 0), 40, north).unwrap();
    assert_eq!(anchor, pixel(50, 10));
    assert!(!dark);
}

#[test]
fn when_bottom_of_circle_white() {
    // A white label at the bottom of the circle gets a dark outline.
    let south = approx_dir(frac(-1, 2));
    let (anchor, dark) = label_layout((50, 50), (255, 255, 255), 40, south).unwrap();
    assert_eq!(anchor, pixel(50, 90));
    assert!(dark);
}

#[test]
fn label_outline_shade_boundary() {
    assert!(!label_outline_is_dark((127, 0, 0)));
    assert!(label_outline_is_dark((128, 0, 0)));
    assert!(!label_outline_is_dark((42, 42, 43)));
    assert!(label_outline_is_dark((42, 42, 44)));
}
