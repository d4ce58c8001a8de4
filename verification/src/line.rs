//! The line-intersection algebra: infinite lines as slope/intercept pairs or
//! vertical lines, and the crossing point of two such lines.
//!
//! A line is built from a direction vector and a point it passes through.
//! Intersection is total except when the two lines are parallel (both
//! vertical, or equal slopes), which is reported as
//! [`ClipError::ParallelVectorsDoNotCross`].

use vstd::prelude::*;

use crate::frac::{
    fits_i128, frac_bounded, lemma_mul_bound, lemma_rat_add_bounded, lemma_rat_cross_balance,
    lemma_rat_div_bounded, lemma_rat_div_mul_cancel, lemma_rat_move_addend, lemma_rat_mul_bounded,
    lemma_rat_sub_bounded, lemma_rat_zero_slope_term, rat_add, rat_bounded, rat_div, rat_eq,
    rat_mul, rat_sub, Frac, Rat,
};
use crate::ClipError;

verus! {

/// A specification-level line: `y = slope * x + intercept`, or a vertical
/// line `x = constant`.
pub enum LineModel {
    /// `y = slope * x + intercept`.
    Slope {
        /// The slope `k` of `y = k*x + c`.
        slope: Rat,
        /// The intercept `c` of `y = k*x + c`.
        intercept: Rat,
    },
    /// `x = constant`.
    Vertical {
        /// The constant horizontal coordinate.
        constant: Rat,
    },
}

/// The line through `(px, py)` with direction `(vx, vy)`: vertical when
/// `vx` is zero, otherwise `y = (vy/vx) * x + (py - px * (vy/vx))`.
pub open spec fn spec_make_line(vx: Rat, vy: Rat, px: Rat, py: Rat) -> LineModel {
    if vx.num == 0 {
        LineModel::Vertical { constant: px }
    } else {
        let slope = rat_div(vy, vx);
        LineModel::Slope { slope, intercept: rat_sub(py, rat_mul(px, slope)) }
    }
}

/// Two lines are parallel when both are vertical, or both have the same
/// slope value.
pub open spec fn spec_parallel(a: LineModel, b: LineModel) -> bool {
    match (a, b) {
        (LineModel::Vertical { .. }, LineModel::Vertical { .. }) => true,
        (
            LineModel::Slope { slope: ka, .. },
            LineModel::Slope { slope: kb, .. },
        ) => rat_eq(ka, kb),
        _ => false,
    }
}

/// The crossing point of two non-parallel lines.  For two sloped lines the
/// generic solution is `x = (rc - lc) / (lk - rk)`; when one slope is zero
/// the shared vertical coordinate is that line's intercept and the other
/// line is solved for `x`, avoiding the generic formula's division
/// artifacts for horizontal lines.  A vertical line fixes `x` directly.
pub open spec fn spec_cross_point(a: LineModel, b: LineModel) -> (Rat, Rat) {
    match (a, b) {
        (
            LineModel::Slope { slope: lk, intercept: lc },
            LineModel::Slope { slope: rk, intercept: rc },
        ) => {
            if lk.num == 0 || rk.num == 0 {
                if lk.num == 0 {
                    (rat_div(rat_sub(lc, rc), rk), lc)
                } else {
                    (rat_div(rat_sub(rc, lc), lk), rc)
                }
            } else {
                let x = rat_div(rat_sub(rc, lc), rat_sub(lk, rk));
                (x, rat_add(rat_mul(lk, x), lc))
            }
        },
        (LineModel::Slope { slope: lk, intercept: lc }, LineModel::Vertical { constant }) => (
            constant,
            rat_add(rat_mul(lk, constant), lc),
        ),
        (LineModel::Vertical { constant }, LineModel::Slope { slope: lk, intercept: lc }) => (
            constant,
            rat_add(rat_mul(lk, constant), lc),
        ),
        (LineModel::Vertical { constant }, LineModel::Vertical { .. }) => (
            constant,
            constant,
        ),
    }
}

/// The exact condition under which the crossing of a sloped line
/// `y = k*x + c` with the vertical line at `x0` stays within the
/// component width: the slope is applied to `x0` and the intercept added.
pub open spec fn spec_vertical_cross_fits(k: Rat, c: Rat, x0: Rat) -> bool {
    &&& fits_i128(k.num * x0.num)
    &&& fits_i128(k.den * x0.den)
    &&& fits_i128((k.num * x0.num) * c.den)
    &&& fits_i128(c.num * (k.den * x0.den))
    &&& fits_i128((k.num * x0.num) * c.den + c.num * (k.den * x0.den))
    &&& fits_i128((k.den * x0.den) * c.den)
}

/// Whether `(x, y)` lies on the line.
pub open spec fn spec_on_line(l: LineModel, x: Rat, y: Rat) -> bool {
    match l {
        LineModel::Slope { slope, intercept } => rat_eq(y, rat_add(rat_mul(slope, x), intercept)),
        LineModel::Vertical { constant } => rat_eq(x, constant),
    }
}

/// All components of the line within `bound` in magnitude.  The chain of
/// checked operations inside the intersection stays in range for lines
/// whose components are this small, so on them the intersection is total
/// except for the parallel failure.
pub open spec fn expr_bounded(l: ExprKind, bound: int) -> bool {
    match l {
        ExprKind::Normal(coefficient, constant) => frac_bounded(coefficient, bound)
            && frac_bounded(constant, bound),
        ExprKind::ConstantX(x) => frac_bounded(x, bound),
    }
}

/// Both components of a specification line within `bound`.
pub open spec fn model_bounded(l: LineModel, bound: int) -> bool {
    match l {
        LineModel::Slope { slope, intercept } => rat_bounded(slope, bound) && rat_bounded(
            intercept,
            bound,
        ),
        LineModel::Vertical { constant } => rat_bounded(constant, bound),
    }
}

/// A line built from components within `8` has model components within
/// `8192`: the slope stays within `64` and the intercept within
/// `2 * 8 * 512`.
pub proof fn lemma_make_line_bounded(vx: Rat, vy: Rat, px: Rat, py: Rat)
    requires
        rat_bounded(vx, 8),
        rat_bounded(vy, 8),
        rat_bounded(px, 8),
        rat_bounded(py, 8),
    ensures
        model_bounded(spec_make_line(vx, vy, px, py), 8192),
{
    if vx.num != 0 {
        lemma_rat_div_bounded(vy, vx, 8, 8);
        lemma_rat_mul_bounded(px, rat_div(vy, vx), 8, 64);
        lemma_rat_sub_bounded(py, rat_mul(px, rat_div(vy, vx)), 8, 512);
    }
}

/// A bound on the components of a line's model is a bound on the
/// components of the line itself.
pub proof fn lemma_expr_bounded_from_model(l: ExprKind, bound: int, wider: int)
    requires
        model_bounded(l.model(), bound),
        0 <= bound <= wider,
    ensures
        expr_bounded(l, wider),
{
    match l {
        ExprKind::Normal(coefficient, constant) => {},
        ExprKind::ConstantX(x) => {},
    }
}

/// The crossing point of two non-parallel lines with components within
/// `8192` has components within `2^81`.
pub proof fn lemma_cross_point_bounded(a: LineModel, b: LineModel)
    requires
        model_bounded(a, 8192),
        model_bounded(b, 8192),
        !spec_parallel(a, b),
    ensures
        rat_bounded(spec_cross_point(a, b).0, 2417851639229258349412352),
        rat_bounded(spec_cross_point(a, b).1, 2417851639229258349412352),
{
    match (a, b) {
        (
            LineModel::Slope { slope: lk, intercept: lc },
            LineModel::Slope { slope: rk, intercept: rc },
        ) => {
            if lk.num == 0 || rk.num == 0 {
                if lk.num == 0 {
                    // The other slope cannot also be zero: two zero slopes
                    // would be parallel.
                    if rk.num == 0 {
                        assert(lk.num * rk.den == rk.num * lk.den) by (nonlinear_arith)
                            requires
                                lk.num == 0,
                                rk.num == 0,
                        ;
                    }
                    lemma_rat_sub_bounded(lc, rc, 8192, 8192);
                    lemma_rat_div_bounded(rat_sub(lc, rc), rk, 134217728, 8192);
                } else {
                    lemma_rat_sub_bounded(rc, lc, 8192, 8192);
                    lemma_rat_div_bounded(rat_sub(rc, lc), lk, 134217728, 8192);
                }
            } else {
                let dc = rat_sub(rc, lc);
                let dk = rat_sub(lk, rk);
                lemma_rat_sub_bounded(rc, lc, 8192, 8192);
                lemma_rat_sub_bounded(lk, rk, 8192, 8192);
                let x = rat_div(dc, dk);
                lemma_rat_div_bounded(dc, dk, 134217728, 134217728);
                lemma_rat_mul_bounded(lk, x, 8192, 18014398509481984);
                lemma_rat_add_bounded(rat_mul(lk, x), lc, 147573952589676412928, 8192);
            }
        },
        (LineModel::Slope { slope: lk, intercept: lc }, LineModel::Vertical { constant }) => {
            lemma_rat_mul_bounded(lk, constant, 8192, 8192);
            lemma_rat_add_bounded(rat_mul(lk, constant), lc, 67108864, 8192);
        },
        (LineModel::Vertical { constant }, LineModel::Slope { slope: lk, intercept: lc }) => {
            lemma_rat_mul_bounded(lk, constant, 8192, 8192);
            lemma_rat_add_bounded(rat_mul(lk, constant), lc, 67108864, 8192);
        },
        (LineModel::Vertical { .. }, LineModel::Vertical { .. }) => {
            assert(false);
        },
    }
}

/// The crossing point of two non-parallel lines lies on both lines: the
/// intersection formulas solve both line equations exactly.
pub proof fn lemma_cross_point_on_lines(a: LineModel, b: LineModel)
    requires
        !spec_parallel(a, b),
    ensures
        spec_on_line(a, spec_cross_point(a, b).0, spec_cross_point(a, b).1),
        spec_on_line(b, spec_cross_point(a, b).0, spec_cross_point(a, b).1),
{
    match (a, b) {
        (
            LineModel::Slope { slope: lk, intercept: lc },
            LineModel::Slope { slope: rk, intercept: rc },
        ) => {
            if lk.num == 0 || rk.num == 0 {
                if lk.num == 0 {
                    // The other slope cannot also be zero: two zero slopes
                    // would be equal, hence parallel.
                    if rk.num == 0 {
                        assert(lk.num * rk.den == rk.num * lk.den) by (nonlinear_arith)
                            requires
                                lk.num == 0,
                                rk.num == 0,
                        ;
                    }
                    let x = rat_div(rat_sub(lc, rc), rk);
                    lemma_rat_zero_slope_term(lk, x, lc);
                    lemma_rat_div_mul_cancel(rat_sub(lc, rc), rk);
                    lemma_rat_move_addend(rat_mul(rk, x), lc, rc);
                } else {
                    let x = rat_div(rat_sub(rc, lc), lk);
                    lemma_rat_zero_slope_term(rk, x, rc);
                    lemma_rat_div_mul_cancel(rat_sub(rc, lc), lk);
                    lemma_rat_move_addend(rat_mul(lk, x), rc, lc);
                }
            } else {
                let x = rat_div(rat_sub(rc, lc), rat_sub(lk, rk));
                lemma_rat_div_mul_cancel(rat_sub(rc, lc), rat_sub(lk, rk));
                lemma_rat_cross_balance(lk, lc, rk, rc, x);
            }
        },
        (LineModel::Slope { .. }, LineModel::Vertical { .. }) => {},
        (LineModel::Vertical { .. }, LineModel::Slope { .. }) => {},
        (LineModel::Vertical { .. }, LineModel::Vertical { .. }) => {
            assert(false);
        },
    }
}

/// An infinite line: either the general linear equation
/// `Normal(coefficient, constant)` meaning `y = coefficient * x + constant`,
/// or a vertical line `ConstantX(x)`.
#[derive(Debug, Clone, Copy, PartialEq, Eq, Structural)]
pub enum ExprKind {
    /// `y = coefficient * x + constant`.
    Normal(Frac, Frac),
    /// The vertical line at the given horizontal coordinate.
    ConstantX(Frac),
}

impl ExprKind {
    /// Well-formedness of the components.
    pub open spec fn wf(self) -> bool {
        match self {
            ExprKind::Normal(coefficient, constant) => coefficient.wf() && constant.wf(),
            ExprKind::ConstantX(x) => x.wf(),
        }
    }

    /// The specification-level line this value represents.
    pub open spec fn model(self) -> LineModel {
        match self {
            ExprKind::Normal(coefficient, constant) => LineModel::Slope {
                slope: coefficient@,
                intercept: constant@,
            },
            ExprKind::ConstantX(x) => LineModel::Vertical { constant: x@ },
        }
    }

    /// Builds the line through `(coord_x, coord_y)` with direction
    /// `(vector_x, vector_y)`.  A zero horizontal direction gives a
    /// vertical line and never fails; otherwise an out-of-range
    /// intermediate is reported as `None`.
    pub fn new(vector_x: Frac, vector_y: Frac, coord_x: Frac, coord_y: Frac) -> (r: Option<
        ExprKind,
    >)
        requires
            vector_x.wf(),
            vector_y.wf(),
            coord_x.wf(),
            coord_y.wf(),
        ensures
            r matches Some(l) ==> l.wf() && l.model() == spec_make_line(
                vector_x@,
                vector_y@,
                coord_x@,
                coord_y@,
            ),
            vector_x.num == 0 ==> r == Some(ExprKind::ConstantX(coord_x)),
            frac_bounded(vector_x, 512) && frac_bounded(vector_y, 512) && frac_bounded(
                coord_x,
                512,
            ) && frac_bounded(coord_y, 512) ==> r is Some,
    {
        let ghost small: bool = frac_bounded(vector_x, 512) && frac_bounded(vector_y, 512)
            && frac_bounded(coord_x, 512) && frac_bounded(coord_y, 512);
        if vector_x.is_zero() {
            return Some(ExprKind::ConstantX(coord_x));
        }
        proof {
            if small {
                lemma_mul_bound(vector_y.num as int, vector_x.den as int, 512, 512);
                lemma_mul_bound(vector_y.den as int, vector_x.num as int, 512, 512);
            }
        }
        let coefficient = match vector_y.div(vector_x) {
            Some(v) => v,
            None => return None,
        };
        proof {
            if small {
                lemma_mul_bound(coord_x.num as int, coefficient.num as int, 512, 512int * 512);
                lemma_mul_bound(coord_x.den as int, coefficient.den as int, 512, 512int * 512);
            }
        }
        let scaled = match coord_x.mul(coefficient) {
            Some(v) => v,
            None => return None,
        };
        proof {
            if small {
                lemma_mul_bound(coord_y.num as int, scaled.den as int, 512, 512int * 512 * 512);
                lemma_mul_bound(scaled.num as int, coord_y.den as int, 512int * 512 * 512, 512);
                lemma_mul_bound(coord_y.den as int, scaled.den as int, 512, 512int * 512 * 512);
            }
        }
        let constant = match coord_y.sub(scaled) {
            Some(v) => v,
            None => return None,
        };
        Some(ExprKind::Normal(coefficient, constant))
    }

    /// The crossing point of this line and `other`.  Parallel lines have no
    /// unique crossing and yield
    /// [`ClipError::ParallelVectorsDoNotCross`]; an out-of-range
    /// intermediate yields [`ClipError::NumericOverflow`].
    pub fn cross_point(&self, other: &ExprKind) -> (r: Result<(Frac, Frac), ClipError>)
        requires
            self.wf(),
            other.wf(),
        ensures
            r matches Ok(p) ==> {
                &&& !spec_parallel(self.model(), other.model())
                &&& p.0.wf() && p.1.wf()
                &&& (p.0@, p.1@) == spec_cross_point(self.model(), other.model())
            },
            r matches Err(e) && e == ClipError::ParallelVectorsDoNotCross ==> spec_parallel(
                self.model(),
                other.model(),
            ),
            spec_parallel(self.model(), other.model()) ==> !(r matches Ok(_)),
            self.model() is Vertical && other.model() is Vertical ==> (r matches Err(e)
                && e == ClipError::ParallelVectorsDoNotCross),
            expr_bounded(*self, 524288) && expr_bounded(*other, 524288) && !spec_parallel(
                self.model(),
                other.model(),
            ) ==> (r matches Ok(_)),
            (match (self.model(), other.model()) {
                (
                    LineModel::Slope { slope: ka, .. },
                    LineModel::Slope { slope: kb, .. },
                ) => rat_eq(ka, kb) && fits_i128(ka.num * kb.den) && fits_i128(kb.num * ka.den)
                    ==> (r matches Err(e) && e == ClipError::ParallelVectorsDoNotCross),
                _ => true,
            }),
            (match (self.model(), other.model()) {
                (
                    LineModel::Slope { slope, intercept },
                    LineModel::Vertical { constant },
                ) => (r matches Ok(_)) <==> spec_vertical_cross_fits(slope, intercept, constant),
                (
                    LineModel::Vertical { constant },
                    LineModel::Slope { slope, intercept },
                ) => (r matches Ok(_)) <==> spec_vertical_cross_fits(slope, intercept, constant),
                _ => true,
            }),
    {
        match (self, other) {
            (ExprKind::ConstantX(_), ExprKind::ConstantX(_)) => Err(
                ClipError::ParallelVectorsDoNotCross,
            ),
            (ExprKind::Normal(lhs_coefficient, lhs_constant), ExprKind::Normal(
                rhs_coefficient,
                rhs_constant,
            )) => ExprKind::cross_point_between_both_normals(
                *lhs_coefficient,
                *lhs_constant,
                *rhs_coefficient,
                *rhs_constant,
            ),
            (ExprKind::Normal(lhs_coefficient, lhs_constant), ExprKind::ConstantX(x_constant))
            | (ExprKind::ConstantX(x_constant), ExprKind::Normal(
                lhs_coefficient,
                lhs_constant,
            )) => ExprKind::cross_point_between_normal_and_constant_x(
                *lhs_coefficient,
                *lhs_constant,
                *x_constant,
            ),
        }
    }

    /// Crossing of two sloped lines: fails exactly on equal slope values;
    /// one zero slope fixes the shared vertical coordinate directly.  On
    /// lines with small components (all within `524288`) the checked
    /// arithmetic stays in range, so the crossing of two such non-parallel
    /// lines always succeeds.
    fn cross_point_between_both_normals(
        lhs_coefficient: Frac,
        lhs_constant: Frac,
        rhs_coefficient: Frac,
        rhs_constant: Frac,
    ) -> (r: Result<(Frac, Frac), ClipError>)
        requires
            lhs_coefficient.wf(),
            lhs_constant.wf(),
            rhs_coefficient.wf(),
            rhs_constant.wf(),
        ensures
            ({
                let a = LineModel::Slope { slope: lhs_coefficient@, intercept: lhs_constant@ };
                let b = LineModel::Slope { slope: rhs_coefficient@, intercept: rhs_constant@ };
                &&& (r matches Ok(p) ==> {
                    &&& !spec_parallel(a, b)
                    &&& p.0.wf() && p.1.wf()
                    &&& (p.0@, p.1@) == spec_cross_point(a, b)
                })
                &&& (r matches Err(e) && e == ClipError::ParallelVectorsDoNotCross
                    ==> spec_parallel(a, b))
                &&& (spec_parallel(a, b) ==> !(r matches Ok(_)))
                &&& (frac_bounded(lhs_coefficient, 524288) && frac_bounded(lhs_constant, 524288)
                    && frac_bounded(rhs_coefficient, 524288) && frac_bounded(rhs_constant, 524288)
                    && !spec_parallel(a, b) ==> (r matches Ok(_)))
                &&& (rat_eq(lhs_coefficient@, rhs_coefficient@) && fits_i128(
                    lhs_coefficient@.num * rhs_coefficient@.den,
                ) && fits_i128(rhs_coefficient@.num * lhs_coefficient@.den) ==> (r matches Err(e)
                    && e == ClipError::ParallelVectorsDoNotCross))
            }),
    {
        let ghost small: bool = frac_bounded(lhs_coefficient, 524288) && frac_bounded(
            lhs_constant,
            524288,
        ) && frac_bounded(rhs_coefficient, 524288) && frac_bounded(rhs_constant, 524288);
        proof {
            if small {
                lemma_mul_bound(
                    lhs_coefficient.num as int,
                    rhs_coefficient.den as int,
                    524288,
                    524288,
                );
                lemma_mul_bound(
                    rhs_coefficient.num as int,
                    lhs_coefficient.den as int,
                    524288,
                    524288,
                );
            }
        }
        let equal_slopes = match lhs_coefficient.same_value(rhs_coefficient) {
            Some(b) => b,
            None => return Err(ClipError::NumericOverflow),
        };
        if equal_slopes {
            return Err(ClipError::ParallelVectorsDoNotCross);
        }
        if lhs_coefficient.is_zero() || rhs_coefficient.is_zero() {
            // One line is horizontal: its intercept is the shared vertical
            // coordinate, and the other line (whose slope is then nonzero)
            // is solved for the horizontal coordinate.
            let (y, other_coefficient, other_constant) = if lhs_coefficient.is_zero() {
                (lhs_constant, rhs_coefficient, rhs_constant)
            } else {
                (rhs_constant, lhs_coefficient, lhs_constant)
            };
            proof {
                // Two zero slopes would be equal slopes, which was ruled
                // out above, so the selected slope is nonzero.
                assert(lhs_coefficient.num == 0 && rhs_coefficient.num == 0 ==> rat_eq(
                    lhs_coefficient@,
                    rhs_coefficient@,
                )) by (nonlinear_arith);
                if small {
                    lemma_mul_bound(y.num as int, other_constant.den as int, 524288, 524288);
                    lemma_mul_bound(other_constant.num as int, y.den as int, 524288, 524288);
                    lemma_mul_bound(y.den as int, other_constant.den as int, 524288, 524288);
                }
            }
            let diff = match y.sub(other_constant) {
                Some(v) => v,
                None => return Err(ClipError::NumericOverflow),
            };
            proof {
                if small {
                    lemma_mul_bound(
                        diff.num as int,
                        other_coefficient.den as int,
                        2int * (524288 * 524288),
                        524288,
                    );
                    lemma_mul_bound(
                        diff.den as int,
                        other_coefficient.num as int,
                        524288int * 524288,
                        524288,
                    );
                }
            }
            let x = match diff.div(other_coefficient) {
                Some(v) => v,
                None => return Err(ClipError::NumericOverflow),
            };
            return Ok((x, y));
        }
        proof {
            if small {
                lemma_mul_bound(rhs_constant.num as int, lhs_constant.den as int, 524288, 524288);
                lemma_mul_bound(lhs_constant.num as int, rhs_constant.den as int, 524288, 524288);
                lemma_mul_bound(rhs_constant.den as int, lhs_constant.den as int, 524288, 524288);
                lemma_mul_bound(
                    lhs_coefficient.den as int,
                    rhs_coefficient.den as int,
                    524288,
                    524288,
                );
            }
        }
        let delta_constant = match rhs_constant.sub(lhs_constant) {
            Some(v) => v,
            None => return Err(ClipError::NumericOverflow),
        };
        let delta_coefficient = match lhs_coefficient.sub(rhs_coefficient) {
            Some(v) => v,
            None => return Err(ClipError::NumericOverflow),
        };
        proof {
            if small {
                lemma_mul_bound(
                    delta_constant.num as int,
                    delta_coefficient.den as int,
                    2int * (524288 * 524288),
                    524288int * 524288,
                );
                lemma_mul_bound(
                    delta_constant.den as int,
                    delta_coefficient.num as int,
                    524288int * 524288,
                    2int * (524288 * 524288),
                );
            }
        }
        let x = match delta_constant.div(delta_coefficient) {
            Some(v) => v,
            None => return Err(ClipError::NumericOverflow),
        };
        proof {
            if small {
                lemma_mul_bound(
                    lhs_coefficient.num as int,
                    x.num as int,
                    524288,
                    2int * (524288 * 524288) * (524288 * 524288),
                );
                lemma_mul_bound(
                    lhs_coefficient.den as int,
                    x.den as int,
                    524288,
                    2int * (524288 * 524288) * (524288 * 524288),
                );
            }
        }
        let scaled = match lhs_coefficient.mul(x) {
            Some(v) => v,
            None => return Err(ClipError::NumericOverflow),
        };
        proof {
            if small {
                lemma_mul_bound(
                    scaled.num as int,
                    lhs_constant.den as int,
                    2int * 524288 * (524288 * 524288) * (524288 * 524288),
                    524288,
                );
                lemma_mul_bound(
                    lhs_constant.num as int,
                    scaled.den as int,
                    524288,
                    2int * 524288 * (524288 * 524288) * (524288 * 524288),
                );
                lemma_mul_bound(
                    scaled.den as int,
                    lhs_constant.den as int,
                    2int * 524288 * (524288 * 524288) * (524288 * 524288),
                    524288,
                );
            }
        }
        let y = match scaled.add(lhs_constant) {
            Some(v) => v,
            None => return Err(ClipError::NumericOverflow),
        };
        Ok((x, y))
    }

    /// Crossing of a sloped line and a vertical line: the vertical line
    /// fixes the horizontal coordinate.  On small components the checked
    /// arithmetic stays in range and the crossing always succeeds.
    fn cross_point_between_normal_and_constant_x(
        lhs_coefficient: Frac,
        lhs_constant: Frac,
        x_constant: Frac,
    ) -> (r: Result<(Frac, Frac), ClipError>)
        requires
            lhs_coefficient.wf(),
            lhs_constant.wf(),
            x_constant.wf(),
        ensures
            r matches Ok(p) ==> {
                &&& p.0.wf() && p.1.wf()
                &&& p.0@ == x_constant@
                &&& p.1@ == rat_add(rat_mul(lhs_coefficient@, x_constant@), lhs_constant@)
            },
            r matches Err(e) ==> e == ClipError::NumericOverflow,
            frac_bounded(lhs_coefficient, 524288) && frac_bounded(lhs_constant, 524288)
                && frac_bounded(x_constant, 524288) ==> (r matches Ok(_)),
            (r matches Ok(_)) <==> spec_vertical_cross_fits(
                lhs_coefficient@,
                lhs_constant@,
                x_constant@,
            ),
    {
        let ghost small: bool = frac_bounded(lhs_coefficient, 524288) && frac_bounded(
            lhs_constant,
            524288,
        ) && frac_bounded(x_constant, 524288);
        let x = x_constant;
        proof {
            if small {
                lemma_mul_bound(lhs_coefficient.num as int, x.num as int, 524288, 524288);
                lemma_mul_bound(lhs_coefficient.den as int, x.den as int, 524288, 524288);
            }
        }
        let scaled = match lhs_coefficient.mul(x) {
            Some(v) => v,
            None => return Err(ClipError::NumericOverflow),
        };
        proof {
            if small {
                lemma_mul_bound(
                    scaled.num as int,
                    lhs_constant.den as int,
                    524288int * 524288,
                    524288,
                );
                lemma_mul_bound(
                    lhs_constant.num as int,
                    scaled.den as int,
                    524288,
                    524288int * 524288,
                );
                lemma_mul_bound(
                    scaled.den as int,
                    lhs_constant.den as int,
                    524288int * 524288,
                    524288,
                );
            }
        }
        let y = match scaled.add(lhs_constant) {
            Some(v) => v,
            None => return Err(ClipError::NumericOverflow),
        };
        Ok((x, y))
    }
}

} // verus!
