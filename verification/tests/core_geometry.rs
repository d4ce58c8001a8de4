//! Angle normalization, quarter-turn directions, pixel mapping, and the
//! line-intersection algebra, on exact rational values.

use svg_pie_chart::frac::Frac;
use svg_pie_chart::line::ExprKind;
use svg_pie_chart::util::{
    axis_angle_coord, calc_point, normalize_angle, rotate_perpendicular_positive, UnitDirection,
};
use svg_pie_chart::ClipError;

fn frac(num: i64, den: i64) -> Frac {
    Frac::new(num, den)
}

fn dir(x: Frac, y: Frac) -> UnitDirection {
    UnitDirection { x, y }
}

#[test]
fn util_checking_value() {
    // Angles are rational multiples of pi: -pi/4 normalizes to 7pi/4, and
    // a full turn above an angle normalizes back onto it.
    assert_eq!(normalize_angle(frac(-1, 4)), frac(7, 4));
    assert_eq!(normalize_angle(frac(9, 4)), frac(1, 4));
    assert_eq!(normalize_angle(frac(1, 4)), frac(1, 4));
    assert_eq!(normalize_angle(frac(2, 1)).num, 0);
    assert_eq!(normalize_angle(frac(4, 2)).num, 0);
}

#[test]
fn normalize_angle_idempotent_on_samples() {
    let samples = [
        frac(0, 1),
        frac(1, 2),
        frac(-1, 2),
        frac(7, 3),
        frac(-1234, 7),
        frac(987654321, 13),
        frac(2, 1),
        frac(-2, 1),
    ];
    for a in samples {
        let once = normalize_angle(a);
        let twice = normalize_angle(once);
        assert_eq!(twice, once);
        assert!(0 <= once.num && once.num < 2 * once.den);
    }
}

#[test]
fn calc_angle_coord_checking_value() {
    // The four quarter-turn directions are exact; the angle pi/4 is not a
    // quarter turn and has no exact direction.
    let east = axis_angle_coord(frac(0, 1)).unwrap();
    assert_eq!(east, dir(frac(1, 1), frac(0, 1)));

    let north = axis_angle_coord(frac(1, 2)).unwrap();
    assert_eq!(north, dir(frac(0, 1), frac(1, 1)));

    let west = axis_angle_coord(frac(1, 1)).unwrap();
    assert_eq!(west, dir(frac(-1, 1), frac(0, 1)));

    let south = axis_angle_coord(frac(3, 2)).unwrap();
    assert_eq!(south, dir(frac(0, 1), frac(-1, 1)));

    assert!(axis_angle_coord(frac(1, 4)).is_none());

    // A full turn wraps around to the east direction.
    let wrapped = axis_angle_coord(frac(5, 2)).unwrap();
    assert_eq!(wrapped, dir(frac(0, 1), frac(1, 1)));
}

#[test]
fn rotate_perpendicular_positive_checking_value() {
    let r = rotate_perpendicular_positive(dir(frac(1, 1), frac(0, 1))).unwrap();
    assert_eq!(r, dir(frac(0, 1), frac(1, 1)));
}

#[test]
fn calc_point_checking_value() {
    // Pixel space grows downward: the direction (0, 1) above a center
    // (3, 4) with radius 2 lands at (3, 2).
    let p = calc_point(dir(frac(0, 1), frac(1, 1)), 3, 4, 2).unwrap();
    assert_eq!((p.x, p.y), (frac(3, 1), frac(2, 1)));

    let p = calc_point(dir(frac(-1, 1), frac(0, 1)), 3, 4, 2).unwrap();
    assert_eq!((p.x, p.y), (frac(1, 1), frac(4, 1)));

    let p = calc_point(dir(frac(0, 1), frac(-1, 1)), 3, 4, 2).unwrap();
    assert_eq!((p.x, p.y), (frac(3, 1), frac(6, 1)));

    let p = calc_point(dir(frac(1, 1), frac(0, 1)), 3, 4, 2).unwrap();
    assert_eq!((p.x, p.y), (frac(5, 1), frac(4, 1)));
}

#[test]
fn pie_checking_value() {
    assert_eq!(
        ExprKind::new(frac(1, 1), frac(0, 1), frac(0, 1), frac(0, 1)),
        Some(ExprKind::Normal(frac(0, 1), frac(0, 1))),
    );
    assert_eq!(
        ExprKind::new(frac(0, 1), frac(1, 1), frac(1, 1), frac(0, 1)),
        Some(ExprKind::ConstantX(frac(1, 1))),
    );
    assert_eq!(
        ExprKind::new(frac(1, 1), frac(1, 1), frac(1, 1), frac(1, 1)),
        Some(ExprKind::Normal(frac(1, 1), frac(0, 1))),
    );
    assert_eq!(
        ExprKind::new(frac(1, 1), frac(1, 1), frac(0, 1), frac(1, 1)),
        Some(ExprKind::Normal(frac(1, 1), frac(1, 1))),
    );
}

#[test]
fn failed_when_both_constant_x() {
    // Two vertical lines never cross, whatever their anchors.
    let lhs = ExprKind::ConstantX(frac(1, 1));
    let rhs = ExprKind::ConstantX(frac(0, 1));
    assert!(lhs.cross_point(&rhs).is_err());
    assert_eq!(
        lhs.cross_point(&rhs),
        Err(ClipError::ParallelVectorsDoNotCross),
    );
    // The same vertical line twice fails the same way.
    assert_eq!(
        lhs.cross_point(&lhs),
        Err(ClipError::ParallelVectorsDoNotCross),
    );
}

#[test]
fn success_when_both_normal_and_crossing() {
    let lhs = ExprKind::Normal(frac(1, 1), frac(1, 1));
    let rhs = ExprKind::Normal(frac(0, 1), frac(1, 1));
    let result = lhs.cross_point(&rhs).unwrap();
    assert_eq!(result, (frac(0, 1), frac(1, 1)));
}

#[test]
fn failed_when_both_normal_and_not_crossing() {
    let lhs = ExprKind::Normal(frac(1, 1), frac(1, 1));
    let rhs = ExprKind::Normal(frac(1, 1), frac(0, 1));
    assert!(lhs.cross_point(&rhs).is_err());
    assert_eq!(
        lhs.cross_point(&rhs),
        Err(ClipError::ParallelVectorsDoNotCross),
    );
}

#[test]
fn success_when_normal_and_constant_x() {
    let lhs = ExprKind::Normal(frac(1, 1), frac(1, 1));
    let rhs = ExprKind::ConstantX(frac(1, 2));
    let result = lhs.cross_point(&rhs).unwrap();
    assert_eq!(result.0, frac(1, 2));
    assert!(result.1.same_value(frac(3, 2)).unwrap());
}

#[test]
fn cross_point_generic_slopes() {
    // y = 2x + 1 and y = -x + 4 cross at (1, 3).
    let lhs = ExprKind::Normal(frac(2, 1), frac(1, 1));
    let rhs = ExprKind::Normal(frac(-1, 1), frac(4, 1));
    let result = lhs.cross_point(&rhs).unwrap();
    assert!(result.0.same_value(frac(1, 1)).unwrap());
    assert!(result.1.same_value(frac(3, 1)).unwrap());
}

#[test]
fn equal_slope_values_are_parallel_even_when_unreduced() {
    // 1/2 and 2/4 are the same slope in different clothing.
    let lhs = ExprKind::Normal(frac(1, 2), frac(1, 1));
    let rhs = ExprKind::Normal(frac(2, 4), frac(0, 1));
    assert_eq!(
        lhs.cross_point(&rhs),
        Err(ClipError::ParallelVectorsDoNotCross),
    );
}

#[test]
fn frac_new_normalizes_sign() {
    let f = frac(1, -2);
    assert!(f.den > 0);
    assert!(f.same_value(frac(-1, 2)).unwrap());
    assert!(frac(1, 2).same_value(frac(2, 4)).unwrap());
    assert!(!frac(1, 2).same_value(frac(1, 3)).unwrap());
}
