//! Planning a whole chart: each input ratio becomes one slice's angles.
//!
//! Slices tile the circle clockwise starting at twelve o'clock (the angle
//! `pi/2`): every ratio spans `2*pi*ratio` radians, the running base angle
//! decreases by each span in turn, and is normalized between slices.  In
//! the units of this crate (rational multiples of pi) the base starts at
//! `1/2` and a ratio `q` spans the fraction `2*q`.

use vstd::prelude::*;

use crate::frac::{
    frac_bounded, lemma_mul_bound, rat_mul, rat_of_int, rat_sub, Frac, Rat,
};
use crate::util::{normalize_angle, spec_normalize_angle};

verus! {

/// The angles of one slice: where it starts and ends, its bisector, and
/// its signed span, all as rational multiples of pi.
#[derive(Debug, Clone, Copy, PartialEq, Eq, Structural)]
pub struct SliceAngles {
    /// The angle at which the slice starts.
    pub start_angle: Frac,
    /// The angle at which the slice ends: the start minus the span.
    pub end_angle: Frac,
    /// The bisector: the start minus half the span.
    pub center_angle: Frac,
    /// The signed span of the slice: twice its ratio, in units of pi.
    pub target_angle_range: Frac,
}

impl SliceAngles {
    /// Well-formedness of all four angles.
    pub open spec fn wf(self) -> bool {
        &&& self.start_angle.wf()
        &&& self.end_angle.wf()
        &&& self.center_angle.wf()
        &&& self.target_angle_range.wf()
    }
}

/// An upper bound on the running base angle's denominator after `i`
/// slices whose ratio denominators are within `1024`: the starting
/// denominator `2`, multiplied by `1024` per slice.
pub open spec fn spec_den_cap(i: nat) -> int
    decreases i,
{
    if i == 0 {
        2
    } else {
        1024 * spec_den_cap((i - 1) as nat)
    }
}

/// The denominator cap is at least the starting denominator.
proof fn lemma_den_cap_positive(i: nat)
    ensures
        spec_den_cap(i) >= 2,
    decreases i,
{
    if i > 0 {
        lemma_den_cap_positive((i - 1) as nat);
    }
}

/// The denominator cap grows with the slice count.
proof fn lemma_den_cap_monotone(i: nat, j: nat)
    requires
        i <= j,
    ensures
        spec_den_cap(i) <= spec_den_cap(j),
    decreases j,
{
    if i < j {
        lemma_den_cap_monotone(i, (j - 1) as nat);
        lemma_den_cap_positive((j - 1) as nat);
    }
}

/// Eight slices keep the denominator cap far below the component width.
proof fn lemma_den_cap_limit()
    ensures
        spec_den_cap(8) == 2417851639229258349412352,
        spec_den_cap(8) <= i128::MAX / 2,
{
    assert(spec_den_cap(0) == 2);
    assert(spec_den_cap(1) == 2048);
    assert(spec_den_cap(2) == 2097152);
    assert(spec_den_cap(3) == 2147483648);
    assert(spec_den_cap(4) == 2199023255552);
    assert(spec_den_cap(5) == 2251799813685248);
    assert(spec_den_cap(6) == 2305843009213693952);
    assert(spec_den_cap(7) == 2361183241434822606848);
    assert(spec_den_cap(8) == 2417851639229258349412352);
}

/// Turns a list of ratios into the angles of the corresponding slices:
/// the first slice starts at `pi/2`, each spans `2*pi` times its ratio,
/// and each further slice starts where the previous one ended, normalized.
/// An out-of-range intermediate is reported as `None`; up to eight ratios
/// with components within `1024` always succeed.
pub fn plan_slices(ratios: &Vec<Frac>) -> (r: Option<Vec<SliceAngles>>)
    requires
        forall|i: int| 0 <= i < ratios@.len() ==> (#[trigger] ratios@[i]).wf(),
    ensures
        r matches Some(v) ==> {
            &&& v@.len() == ratios@.len()
            &&& forall|i: int| 0 <= i < v@.len() ==> (#[trigger] v@[i]).wf()
            &&& forall|i: int| 0 <= i < v@.len() ==> (#[trigger] v@[i]).target_angle_range@
                == rat_mul(rat_of_int(2), ratios@[i]@)
            &&& forall|i: int| 0 <= i < v@.len() ==> (#[trigger] v@[i]).end_angle@ == rat_sub(
                v@[i].start_angle@,
                v@[i].target_angle_range@,
            )
            &&& forall|i: int| 0 <= i < v@.len() ==> (#[trigger] v@[i]).center_angle@ == rat_sub(
                v@[i].start_angle@,
                rat_mul(v@[i].target_angle_range@, (Rat { num: 1, den: 2 })),
            )
            &&& (v@.len() > 0 ==> v@[0].start_angle@ == (Rat { num: 1, den: 2 }))
            &&& forall|i: int| 0 <= i < v@.len() - 1 ==> (#[trigger] v@[i + 1]).start_angle@
                == spec_normalize_angle(rat_sub(v@[i].start_angle@, v@[i].target_angle_range@))
        },
        ratios@.len() <= 8 && (forall|i: int| 0 <= i < ratios@.len() ==> frac_bounded(
            #[trigger] ratios@[i],
            1024,
        )) ==> r is Some,
{
    let two = Frac { num: 2, den: 1 };
    let half = Frac { num: 1, den: 2 };
    let ghost small: bool = ratios@.len() <= 8 && (forall|i: int|
        0 <= i < ratios@.len() ==> frac_bounded(#[trigger] ratios@[i], 1024));

    // Twelve o'clock, where the first slice starts.
    let mut base_angle = Frac { num: 1, den: 2 };
    let mut slices: Vec<SliceAngles> = Vec::new();
    let mut idx: usize = 0;
    while idx < ratios.len()
        invariant
            two == (Frac { num: 2, den: 1 }),
            half == (Frac { num: 1, den: 2 }),
            idx <= ratios@.len(),
            slices@.len() == idx,
            forall|i: int| 0 <= i < ratios@.len() ==> (#[trigger] ratios@[i]).wf(),
            base_angle.wf(),
            idx == 0 ==> base_angle == (Frac { num: 1, den: 2 }),
            small == (ratios@.len() <= 8 && (forall|i: int|
                0 <= i < ratios@.len() ==> frac_bounded(#[trigger] ratios@[i], 1024))),
            small ==> base_angle.den <= spec_den_cap(idx as nat),
            small ==> 0 <= base_angle.num < 2 * base_angle.den,
            forall|i: int| 0 <= i < idx ==> (#[trigger] slices@[i]).wf(),
            forall|i: int| 0 <= i < idx ==> (#[trigger] slices@[i]).target_angle_range@
                == rat_mul(rat_of_int(2), ratios@[i]@),
            forall|i: int| 0 <= i < idx ==> (#[trigger] slices@[i]).end_angle@ == rat_sub(
                slices@[i].start_angle@,
                slices@[i].target_angle_range@,
            ),
            forall|i: int| 0 <= i < idx ==> (#[trigger] slices@[i]).center_angle@ == rat_sub(
                slices@[i].start_angle@,
                rat_mul(slices@[i].target_angle_range@, (Rat { num: 1, den: 2 })),
            ),
            idx > 0 ==> slices@[0].start_angle@ == (Rat { num: 1, den: 2 }),
            forall|i: int| 0 <= i < idx - 1 ==> (#[trigger] slices@[i + 1]).start_angle@
                == spec_normalize_angle(
                rat_sub(slices@[i].start_angle@, slices@[i].target_angle_range@),
            ),
            idx > 0 ==> base_angle@ == spec_normalize_angle(
                rat_sub(
                    slices@[idx - 1].start_angle@,
                    slices@[idx - 1].target_angle_range@,
                ),
            ),
        decreases ratios@.len() - idx,
    {
        let ratio = ratios[idx];
        let target_angle_range = match two.mul(ratio) {
            Some(v) => v,
            None => return None,
        };
        let start_angle = base_angle;
        proof {
            if small {
                lemma_den_cap_monotone(idx as nat, 8);
                lemma_den_cap_positive(idx as nat);
                lemma_den_cap_limit();
                lemma_mul_bound(
                    base_angle.num as int,
                    target_angle_range.den as int,
                    2int * 2417851639229258349412352,
                    1024,
                );
                lemma_mul_bound(
                    target_angle_range.num as int,
                    base_angle.den as int,
                    2048,
                    2417851639229258349412352,
                );
                lemma_mul_bound(
                    base_angle.den as int,
                    target_angle_range.den as int,
                    spec_den_cap(idx as nat),
                    1024,
                );
            }
        }
        let end_angle = match base_angle.sub(target_angle_range) {
            Some(v) => v,
            None => return None,
        };
        let half_span = match target_angle_range.mul(half) {
            Some(v) => v,
            None => return None,
        };
        proof {
            if small {
                lemma_mul_bound(
                    base_angle.num as int,
                    half_span.den as int,
                    2int * 2417851639229258349412352,
                    2048,
                );
                lemma_mul_bound(
                    half_span.num as int,
                    base_angle.den as int,
                    2048,
                    2417851639229258349412352,
                );
                lemma_mul_bound(
                    base_angle.den as int,
                    half_span.den as int,
                    2417851639229258349412352,
                    2048,
                );
            }
        }
        let center_angle = match base_angle.sub(half_span) {
            Some(v) => v,
            None => return None,
        };
        slices.push(
            SliceAngles { start_angle, end_angle, center_angle, target_angle_range },
        );
        proof {
            if small {
                assert(spec_den_cap(idx as nat) * 1024 == 1024 * spec_den_cap(idx as nat))
                    by (nonlinear_arith);
                assert(spec_den_cap(idx as nat + 1) == 1024 * spec_den_cap(idx as nat));
                lemma_den_cap_monotone(idx as nat + 1, 8);
            }
        }
        if end_angle.den > i128::MAX / 2 {
            return None;
        }
        base_angle = normalize_angle(end_angle);
        idx = idx + 1;
    }
    Some(slices)
}

} // verus!
