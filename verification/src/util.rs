//! Angles, unit directions, and the mapping to pixel coordinates.
//!
//! An angle is a rational multiple of pi: the fraction `a` stands for the
//! angle `a * pi` radians.  A full turn is therefore the fraction `2`, a
//! quarter turn is `1/2`, and normalization brings any angle into `[0, 2)`,
//! which is the half-open range `[0, 2*pi)` of radians.  Because angles are
//! exact rationals, the boundaries of the sector case analysis (zero, pi,
//! 2*pi) are compared exactly, with no epsilon.

use vstd::arithmetic::div_mod::{
    lemma_fundamental_div_mod, lemma_fundamental_div_mod_converse, lemma_mod_bound,
    lemma_mod_twice,
};
use vstd::prelude::*;

use crate::frac::{
    fits_i128, lemma_mul_bound, rat_add, rat_bounded, rat_mul, rat_neg, rat_of_int, rat_wf, Frac,
    Rat,
};

verus! {

/// The normalized angle: the representative of `a` modulo one full turn
/// (the fraction `2`, standing for `2*pi` radians) whose value lies in
/// `[0, 2)`.  The denominator is kept, so the numerator is reduced modulo
/// `2 * a.den`.
pub open spec fn spec_normalize_angle(a: Rat) -> Rat {
    Rat { num: a.num % (2 * a.den), den: a.den }
}

/// Brings an angle into the canonical range `[0, 2*pi)`: the result is
/// congruent to `angle` modulo a full turn and its value lies in `[0, 2)`
/// (in units of pi).
pub fn normalize_angle(angle: Frac) -> (r: Frac)
    requires
        angle.wf(),
        angle.den <= i128::MAX / 2,
    ensures
        r.wf(),
        r.den == angle.den,
        r@ == spec_normalize_angle(angle@),
        0 <= r.num < 2 * angle.den,
{
    let m: u128 = 2 * (angle.den as u128);
    let ghost mi: int = 2 * (angle.den as int);
    if angle.num >= 0 {
        let rem: u128 = (angle.num as u128) % m;
        proof {
            lemma_mod_bound(angle.num as int, mi);
        }
        Frac { num: rem as i128, den: angle.den }
    } else {
        // The magnitude of a negative numerator, computed without
        // overflowing `i128` even for the minimum value.
        let mag: u128 = ((-1 - angle.num) as u128) + 1;
        let quot: u128 = mag / m;
        let rem: u128 = mag % m;
        proof {
            lemma_fundamental_div_mod(mag as int, mi);
            lemma_mod_bound(mag as int, mi);
        }
        if rem == 0 {
            proof {
                assert(angle.num as int == (-(quot as int)) * mi + 0) by (nonlinear_arith)
                    requires
                        mag as int == mi * (quot as int) + (rem as int),
                        rem as int == 0,
                        angle.num as int == -(mag as int),
                ;
                lemma_fundamental_div_mod_converse(angle.num as int, mi, -(quot as int), 0);
            }
            Frac { num: 0, den: angle.den }
        } else {
            let n: u128 = m - rem;
            proof {
                assert(angle.num as int == (-(quot as int) - 1) * mi + (mi - (rem as int)))
                    by (nonlinear_arith)
                    requires
                        mag as int == mi * (quot as int) + (rem as int),
                        angle.num as int == -(mag as int),
                ;
                lemma_fundamental_div_mod_converse(
                    angle.num as int,
                    mi,
                    -(quot as int) - 1,
                    mi - (rem as int),
                );
            }
            Frac { num: n as i128, den: angle.den }
        }
    }
}

/// Normalizing is idempotent, and the canonical numerator lies in
/// `[0, 2 * den)`: every angle has exactly one canonical value in `[0, 2*pi)`.
pub proof fn lemma_normalize_angle_idempotent(a: Rat)
    requires
        rat_wf(a),
    ensures
        spec_normalize_angle(spec_normalize_angle(a)) == spec_normalize_angle(a),
        0 <= spec_normalize_angle(a).num < 2 * a.den,
{
    lemma_mod_bound(a.num, 2 * a.den);
    lemma_mod_twice(a.num, 2 * a.den);
}

/// The canonical value is unique: any fraction over the same denominator
/// that is congruent to `a` modulo a full turn and lies in `[0, 2*pi)` is
/// the normalized angle.
pub proof fn lemma_normalize_angle_canonical(a: Rat, r: Rat)
    requires
        rat_wf(a),
        r.den == a.den,
        0 <= r.num < 2 * a.den,
        (a.num - r.num) % (2 * a.den) == 0,
    ensures
        r == spec_normalize_angle(a),
{
    let m = 2 * a.den;
    let k = (a.num - r.num) / m;
    lemma_fundamental_div_mod(a.num - r.num, m);
    assert(a.num == k * m + r.num) by (nonlinear_arith)
        requires
            a.num - r.num == m * k + ((a.num - r.num) % m),
            (a.num - r.num) % m == 0,
    ;
    lemma_fundamental_div_mod_converse(a.num, m, k, r.num);
}

/// A direction in the plane: the coordinates of a point of the unit circle,
/// or an exact rational approximation of one supplied by the caller.
#[derive(Debug, Clone, Copy, PartialEq, Eq, Structural)]
pub struct UnitDirection {
    /// Horizontal coordinate (the cosine of the angle).
    pub x: Frac,
    /// Vertical coordinate (the sine of the angle); grows upward on the
    /// unit circle and is inverted when projected to pixel space.
    pub y: Frac,
}

impl UnitDirection {
    /// Well-formedness of both coordinates.
    pub open spec fn wf(self) -> bool {
        self.x.wf() && self.y.wf()
    }
}

/// Both coordinates of a direction within `bound` in magnitude.  Unit
/// directions have coordinates within `1`, so any faithful rational
/// approximation of one satisfies a single-digit bound on the value; the
/// bound here is on the components, so it also caps the denominator and
/// with it the precision of the approximation.
pub open spec fn coord_bounded(d: UnitDirection, bound: int) -> bool {
    rat_bounded(d.x@, bound) && rat_bounded(d.y@, bound)
}

/// A point in the output pixel coordinate space; the vertical axis grows
/// downward.
#[derive(Debug, Clone, Copy, PartialEq, Eq, Structural)]
pub struct PixelPoint {
    /// Horizontal pixel coordinate.
    pub x: Frac,
    /// Vertical pixel coordinate.
    pub y: Frac,
}

impl PixelPoint {
    /// Well-formedness of both coordinates.
    pub open spec fn wf(self) -> bool {
        self.x.wf() && self.y.wf()
    }
}

/// The unit direction of an angle that is a multiple of a quarter turn,
/// on the normalized numerator `q`.  Directions of other angles are
/// irrational and have no exact representation.
pub open spec fn spec_axis_angle_coord(q: Rat) -> Option<UnitDirection> {
    if q.num == 0 {
        Some(
            UnitDirection {
                x: (Frac { num: 1, den: 1 }),
                y: (Frac { num: 0, den: 1 }),
            },
        )
    } else if 2 * q.num == q.den {
        Some(
            UnitDirection {
                x: (Frac { num: 0, den: 1 }),
                y: (Frac { num: 1, den: 1 }),
            },
        )
    } else if q.num == q.den {
        Some(
            UnitDirection {
                x: (Frac { num: -1i128, den: 1 }),
                y: (Frac { num: 0, den: 1 }),
            },
        )
    } else if 2 * q.num == 3 * q.den {
        Some(
            UnitDirection {
                x: (Frac { num: 0, den: 1 }),
                y: (Frac { num: -1i128, den: 1 }),
            },
        )
    } else {
        None
    }
}

/// The exact unit direction `(cos(angle * pi), sin(angle * pi))` for angles
/// that normalize to a multiple of pi/2, and `None` otherwise.  The caller
/// evaluates the trigonometry of the remaining angles and supplies its own
/// rational approximation.
pub fn axis_angle_coord(angle: Frac) -> (r: Option<UnitDirection>)
    requires
        angle.wf(),
        angle.den <= i128::MAX / 4,
    ensures
        r == spec_axis_angle_coord(spec_normalize_angle(angle@)),
        r matches Some(d) ==> d.wf(),
{
    let q = normalize_angle(angle);
    if q.num == 0 {
        Some(UnitDirection { x: Frac { num: 1, den: 1 }, y: Frac { num: 0, den: 1 } })
    } else if 2 * q.num == q.den {
        Some(UnitDirection { x: Frac { num: 0, den: 1 }, y: Frac { num: 1, den: 1 } })
    } else if q.num == q.den {
        Some(UnitDirection { x: Frac { num: -1, den: 1 }, y: Frac { num: 0, den: 1 } })
    } else if 2 * q.num == 3 * q.den {
        Some(UnitDirection { x: Frac { num: 0, den: 1 }, y: Frac { num: -1, den: 1 } })
    } else {
        None
    }
}

/// Rotates a direction a quarter turn counterclockwise: `(x, y)` becomes
/// `(-y, x)`.  The result is perpendicular to the input, on its positive
/// side.
pub fn rotate_perpendicular_positive(d: UnitDirection) -> (r: Option<UnitDirection>)
    requires
        d.wf(),
    ensures
        r matches Some(v) ==> {
            &&& v.wf()
            &&& v.x@ == rat_neg(d.y@)
            &&& v.y@ == d.x@
        },
        r is Some <==> d.y.num > i128::MIN,
{
    let nx = match d.y.neg() {
        Some(v) => v,
        None => return None,
    };
    Some(UnitDirection { x: nx, y: d.x })
}

/// The pixel of a direction: `center + radius * (x, -y)`.  The vertical
/// coordinate is negated because pixel space grows downward where the unit
/// circle grows upward.
pub open spec fn spec_calc_point(dx: Rat, dy: Rat, cx: int, cy: int, radius: int) -> (Rat, Rat) {
    let rel_x = rat_mul(dx, rat_of_int(radius));
    let rel_y = rat_mul(rat_neg(dy), rat_of_int(radius));
    (rat_add(rel_x, rat_of_int(cx)), rat_add(rel_y, rat_of_int(cy)))
}

/// The exact condition under which the pixel mapping of `(dx, dy)` stays
/// within the component width: every product and sum of the mapping fits.
pub open spec fn spec_calc_point_fits(dx: Rat, dy: Rat, cx: int, cy: int, radius: int) -> bool {
    &&& fits_i128(dx.num * radius)
    &&& dy.num > i128::MIN
    &&& fits_i128(-dy.num * radius)
    &&& fits_i128(cx * dx.den)
    &&& fits_i128(dx.num * radius + cx * dx.den)
    &&& fits_i128(cy * dy.den)
    &&& fits_i128(-dy.num * radius + cy * dy.den)
}

/// The pixel mapping of a direction whose components are within `2^81`
/// stays in range for every `u32` center and radius.
pub proof fn lemma_calc_point_fits(dx: Rat, dy: Rat, cx: int, cy: int, radius: int)
    requires
        rat_bounded(dx, 2417851639229258349412352),
        rat_bounded(dy, 2417851639229258349412352),
        0 <= cx <= 4294967295,
        0 <= cy <= 4294967295,
        0 <= radius <= 4294967295,
    ensures
        spec_calc_point_fits(dx, dy, cx, cy, radius),
{
    lemma_mul_bound(dx.num, radius, 2417851639229258349412352, 4294967295);
    lemma_mul_bound(-dy.num, radius, 2417851639229258349412352, 4294967295);
    lemma_mul_bound(cx, dx.den, 4294967295, 2417851639229258349412352);
    lemma_mul_bound(cy, dy.den, 4294967295, 2417851639229258349412352);
}

/// Maps a direction to the pixel `center + radius * (x, -y)`.  The mapping
/// succeeds exactly when its products stay within the component width,
/// which any direction with components within `2^81` does.
pub fn calc_point(
    dir: UnitDirection,
    circle_center_x: u32,
    circle_center_y: u32,
    circle_radius: u32,
) -> (r: Option<PixelPoint>)
    requires
        dir.wf(),
    ensures
        r matches Some(p) ==> {
            &&& p.wf()
            &&& p.x@ == spec_calc_point(
                dir.x@,
                dir.y@,
                circle_center_x as int,
                circle_center_y as int,
                circle_radius as int,
            ).0
            &&& p.y@ == spec_calc_point(
                dir.x@,
                dir.y@,
                circle_center_x as int,
                circle_center_y as int,
                circle_radius as int,
            ).1
        },
        r is Some <==> spec_calc_point_fits(
            dir.x@,
            dir.y@,
            circle_center_x as int,
            circle_center_y as int,
            circle_radius as int,
        ),
{
    let radius = Frac::from_u32(circle_radius);
    let rel_x = match dir.x.mul(radius) {
        Some(v) => v,
        None => return None,
    };
    let neg_y = match dir.y.neg() {
        Some(v) => v,
        None => return None,
    };
    let rel_y = match neg_y.mul(radius) {
        Some(v) => v,
        None => return None,
    };
    let abs_x = match rel_x.add(Frac::from_u32(circle_center_x)) {
        Some(v) => v,
        None => return None,
    };
    let abs_y = match rel_y.add(Frac::from_u32(circle_center_y)) {
        Some(v) => v,
        None => return None,
    };
    Some(PixelPoint { x: abs_x, y: abs_y })
}

} // verus!
