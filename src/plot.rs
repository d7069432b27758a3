//! Sampling the formula along the free axis: the expected group size and
//! four bands at fixed multiples of it.
use vstd::prelude::*;

use crate::formula::{energy_of, kinetic_energy, lemma_input_bounds, lemma_mul_le, moa, moa_of};
use crate::inputs::BallisticInputs;
use crate::laws::lemma_samples_span_domain;
use crate::ratio::{frac_eq, frac_scale, Frac, Ratio};
use crate::variable::GraphVariable;

verus! {

/// Number of samples along the free axis, both ends included.
pub const NUM_POINTS: u128 = 200;

/// Upper and lower one-sigma band, in hundredths of the expected value.
pub const SD1_UPPER: u128 = 115;
pub const SD1_LOWER: u128 = 85;

/// Upper and lower two-sigma band, in hundredths of the expected value.
pub const SD2_UPPER: u128 = 130;
pub const SD2_LOWER: u128 = 70;

/// A point of the chart: (free variable, group size in MOA).
pub type PlotPoint = (Ratio, Ratio);

/// The five curves of the chart over one set of x values, with axis labels.
#[derive(Debug)]
pub struct PlotData {
    pub expected: Vec<PlotPoint>,
    pub sd1_upper: Vec<PlotPoint>,
    pub sd1_lower: Vec<PlotPoint>,
    pub sd2_upper: Vec<PlotPoint>,
    pub sd2_lower: Vec<PlotPoint>,
    pub x_label: &'static str,
    pub y_label: &'static str,
}

/// Range `(lo, hi)` of the free variable on the chart.
pub open spec fn domain_of(free: GraphVariable) -> (int, int) {
    match free {
        GraphVariable::RifleWeight => (5, 50),
        GraphVariable::Velocity => (500, 5000),
        GraphVariable::ProjectileWeight => (50, 500),
    }
}

/// Label of the x axis.
pub open spec fn x_label_of(free: GraphVariable) -> Seq<char> {
    match free {
        GraphVariable::RifleWeight => "Rifle Weight (lbs)"@,
        GraphVariable::Velocity => "Muzzle Velocity (fps)"@,
        GraphVariable::ProjectileWeight => "Projectile Weight (grains)"@,
    }
}

/// Label of the y axis.
pub open spec fn y_label_spec() -> Seq<char> {
    "5-Round Group Size (MOA)"@
}

/// The `i`-th of `NUM_POINTS` equally spaced values from `lo` to `hi`:
/// `lo + (hi - lo) * i / (NUM_POINTS - 1)`.
pub open spec fn sample_x(free: GraphVariable, i: int) -> Frac {
    let (lo, hi) = domain_of(free);
    (lo * (NUM_POINTS - 1) + (hi - lo) * i, NUM_POINTS - 1)
}

/// Expected group size with the free variable at `x` and the other two
/// inputs at their values in `inp`.
pub open spec fn expected_moa(inp: BallisticInputs, free: GraphVariable, x: Frac) -> Frac {
    let g = inp.projectile_weight@;
    let v = inp.muzzle_velocity@;
    let w = inp.rifle_weight@;
    match free {
        GraphVariable::RifleWeight => moa_of(energy_of(g, v), x),
        GraphVariable::Velocity => moa_of(energy_of(g, x), w),
        GraphVariable::ProjectileWeight => moa_of(energy_of(x, v), w),
    }
}

/// `pts` is the expected curve scaled by `k / 100`, over the same x values.
pub open spec fn is_band(pts: Seq<PlotPoint>, expected: Seq<PlotPoint>, k: int) -> bool {
    &&& pts.len() == expected.len()
    &&& forall|i: int|
        0 <= i < pts.len() ==> #[trigger] pts[i].0@ == expected[i].0@ && pts[i].1@ == frac_scale(
            expected[i].1@,
            k,
            100,
        )
}

/// The `i`-th point of the expected curve.
pub fn sample_point(inputs: &BallisticInputs, free: GraphVariable, i: u128) -> (r: PlotPoint)
    requires
        inputs.wf(),
        i < NUM_POINTS,
    ensures
        r.0@ == sample_x(free, i as int),
        r.1@ == expected_moa(*inputs, free, r.0@),
        r.0.wf(),
        r.1.wf(),
        r.1.num <= 1000000000000000000000000000000000,
        r.1.den <= 1000000000000000000000000000000000,
{
    proof {
        lemma_input_bounds(*inputs);
    }
    let g = inputs.projectile_weight;
    let v = inputs.muzzle_velocity;
    let w = inputs.rifle_weight;
    let steps = NUM_POINTS - 1;
    match free {
        GraphVariable::RifleWeight => {
            let x = Ratio { num: 5 * steps + 45 * i, den: steps };
            let ke = kinetic_energy(g, v);
            proof {
                lemma_mul_le((ke.den * 200) as int, x.num as int, 90087200000000000000000000, 9950);
                assert(ke.den * 200 * x.num > 0) by (nonlinear_arith)
                    requires ke.den > 0, x.num > 0;
            }
            (x, moa(ke, x))
        },
        GraphVariable::Velocity => {
            let x = Ratio { num: 500 * steps + 4500 * i, den: steps };
            proof {
                lemma_mul_le(g.num as int, x.num as int, 500000000, 995000);
                lemma_mul_le((g.num * x.num) as int, x.num as int, 497500000000000, 995000);
            }
            let ke = kinetic_energy(g, x);
            proof {
                lemma_mul_le(ke.num as int, w.den as int, 495012500000000000000, 1000000);
                lemma_mul_le((ke.den * 200) as int, w.num as int, 3567600000000000000, 50000000);
                assert(ke.den * 200 * w.num > 0) by (nonlinear_arith)
                    requires ke.den > 0, w.num > 0;
            }
            (x, moa(ke, w))
        },
        GraphVariable::ProjectileWeight => {
            let x = Ratio { num: 50 * steps + 450 * i, den: steps };
            proof {
                lemma_mul_le(x.num as int, v.num as int, 99500, 5000000000);
                lemma_mul_le((x.num * v.num) as int, v.num as int, 497500000000000, 5000000000);
                lemma_mul_le((x.den * v.den) as int, v.den as int, 199000000, 1000000);
            }
            let ke = kinetic_energy(x, v);
            proof {
                lemma_mul_le(ke.num as int, w.den as int, 2487500000000000000000000, 1000000);
                lemma_mul_le((ke.den * 200) as int, w.num as int, 17929354400000000000000, 50000000);
                assert(ke.den * 200 * w.num > 0) by (nonlinear_arith)
                    requires ke.den > 0, w.num > 0;
            }
            (x, moa(ke, w))
        },
    }
}

/// The expected curve sampled at `NUM_POINTS` equally spaced values of the
/// free variable across its range, the four bands at fixed multiples of it
/// (115%, 85%, 130% and 70%), and the axis labels.
pub fn generate_plot_data(inputs: &BallisticInputs, free: GraphVariable) -> (r: PlotData)
    requires
        inputs.wf(),
    ensures
        r.expected@.len() == NUM_POINTS,
        forall|i: int|
            0 <= i < NUM_POINTS ==> #[trigger] r.expected@[i].0@ == sample_x(free, i)
                && r.expected@[i].1@ == expected_moa(*inputs, free, sample_x(free, i)),
        is_band(r.sd1_upper@, r.expected@, SD1_UPPER as int),
        is_band(r.sd1_lower@, r.expected@, SD1_LOWER as int),
        is_band(r.sd2_upper@, r.expected@, SD2_UPPER as int),
        is_band(r.sd2_lower@, r.expected@, SD2_LOWER as int),
        frac_eq(r.expected@[0].0@, (domain_of(free).0, 1)),
        frac_eq(r.expected@[NUM_POINTS - 1].0@, (domain_of(free).1, 1)),
        r.x_label@ == x_label_of(free),
        r.y_label@ == y_label_spec(),
{
    let mut expected: Vec<PlotPoint> = Vec::new();
    let mut sd1_upper: Vec<PlotPoint> = Vec::new();
    let mut sd1_lower: Vec<PlotPoint> = Vec::new();
    let mut sd2_upper: Vec<PlotPoint> = Vec::new();
    let mut sd2_lower: Vec<PlotPoint> = Vec::new();
    let mut i: u128 = 0;
    while i < NUM_POINTS
        invariant
            inputs.wf(),
            i <= NUM_POINTS,
            expected@.len() == i,
            forall|j: int|
                0 <= j < i ==> #[trigger] expected@[j].0@ == sample_x(free, j)
                    && expected@[j].1@ == expected_moa(*inputs, free, sample_x(free, j)),
            is_band(sd1_upper@, expected@, SD1_UPPER as int),
            is_band(sd1_lower@, expected@, SD1_LOWER as int),
            is_band(sd2_upper@, expected@, SD2_UPPER as int),
            is_band(sd2_lower@, expected@, SD2_LOWER as int),
        decreases NUM_POINTS - i,
    {
        let (x, y) = sample_point(inputs, free, i);
        expected.push((x, y));
        sd1_upper.push((x, y.scale(SD1_UPPER, 100)));
        sd1_lower.push((x, y.scale(SD1_LOWER, 100)));
        sd2_upper.push((x, y.scale(SD2_UPPER, 100)));
        sd2_lower.push((x, y.scale(SD2_LOWER, 100)));
        i += 1;
    }
    proof {
        lemma_samples_span_domain(free);
    }
    let x_label = match free {
        GraphVariable::RifleWeight => "Rifle Weight (lbs)",
        GraphVariable::Velocity => "Muzzle Velocity (fps)",
        GraphVariable::ProjectileWeight => "Projectile Weight (grains)",
    };
    PlotData {
        expected,
        sd1_upper,
        sd1_lower,
        sd2_upper,
        sd2_lower,
        x_label,
        y_label: "5-Round Group Size (MOA)",
    }
}

/// `|a - x|` scaled by the product of the two denominators.
pub open spec fn scaled_distance(a: Frac, x: Frac) -> int {
    let d = a.0 * x.1 - x.0 * a.1;
    if d < 0 {
        -d
    } else {
        d
    }
}

/// `a` lies strictly closer to `x` than `b` does (positive denominators).
pub open spec fn closer(a: Frac, b: Frac, x: Frac) -> bool {
    scaled_distance(a, x) * b.1 < scaled_distance(b, x) * a.1
}

/// `p / q < r / s` and `r / s <= t / u` give `p / q < t / u`.
proof fn lemma_lt_le_trans(p: int, q: int, r: int, s: int, t: int, u: int)
    requires
        q > 0,
        s > 0,
        u > 0,
        p * s < r * q,
        r * u <= t * s,
    ensures
        p * u < t * q,
{
    assert(p * s * u < r * q * u) by (nonlinear_arith)
        requires p * s < r * q, u > 0;
    assert(r * u * q <= t * s * q) by (nonlinear_arith)
        requires r * u <= t * s, q > 0;
    assert(p * u * s < t * q * s) by (nonlinear_arith)
        requires p * s * u < r * q * u, r * u * q <= t * s * q;
    assert(p * u < t * q) by (nonlinear_arith)
        requires p * u * s < t * q * s, s > 0;
}

/// Coordinates small enough that distances compare without overflow.
pub open spec fn bounded_coord(a: Ratio) -> bool {
    0 < a.den <= 0xffff_ffff && a.num <= 0xffff_ffff
}

/// `|a - x|` scaled by both denominators.
fn distance(a: Ratio, x: Ratio) -> (r: u128)
    requires
        bounded_coord(a),
        bounded_coord(x),
    ensures
        r == scaled_distance(a@, x@),
        r <= 0xffff_ffff_ffff_ffff,
{
    proof {
        lemma_mul_le(a.num as int, x.den as int, 0xffff_ffff, 0xffff_ffff);
        lemma_mul_le(x.num as int, a.den as int, 0xffff_ffff, 0xffff_ffff);
    }
    let p = a.num * x.den;
    let q = x.num * a.den;
    if p < q {
        q - p
    } else {
        p - q
    }
}

/// Index of the point whose x coordinate is nearest to `x`; among equally
/// near points the first. `None` for no points.
pub fn nearest_point(points: &Vec<PlotPoint>, x: Ratio) -> (r: Option<usize>)
    requires
        bounded_coord(x),
        forall|j: int| 0 <= j < points@.len() ==> bounded_coord(#[trigger] points@[j].0),
    ensures
        points@.len() == 0 <==> r is None,
        r matches Some(i) ==> {
            &&& i < points@.len()
            &&& forall|j: int|
                0 <= j < points@.len() ==> !closer(#[trigger] points@[j].0@, points@[i as int].0@, x@)
            &&& forall|j: int| 0 <= j < i ==> closer(points@[i as int].0@, #[trigger] points@[j].0@, x@)
        },
{
    if points.len() == 0 {
        return None;
    }
    let mut best: usize = 0;
    let mut best_dist = distance(points[0].0, x);
    let mut i: usize = 1;
    while i < points.len()
        invariant
            bounded_coord(x),
            forall|j: int| 0 <= j < points@.len() ==> bounded_coord(#[trigger] points@[j].0),
            0 <= best < i <= points@.len(),
            best_dist == scaled_distance(points@[best as int].0@, x@),
            best_dist <= 0xffff_ffff_ffff_ffff,
            forall|j: int| 0 <= j < i ==> !closer(#[trigger] points@[j].0@, points@[best as int].0@, x@),
            forall|j: int| 0 <= j < best ==> closer(points@[best as int].0@, #[trigger] points@[j].0@, x@),
        decreases points@.len() - i,
    {
        let a = points[i].0;
        let d = distance(a, x);
        let b = points[best].0;
        proof {
            lemma_mul_le(d as int, b.den as int, 0xffff_ffff_ffff_ffff, 0xffff_ffff);
            lemma_mul_le(best_dist as int, a.den as int, 0xffff_ffff_ffff_ffff, 0xffff_ffff);
        }
        if d * b.den < best_dist * a.den {
            proof {
                let old_best = best as int;
                let ai = a@;
                let bi = b@;
                assert forall|j: int| 0 <= j < i + 1 implies !closer(#[trigger] points@[j].0@, ai, x@) by {
                    if j < i {
                        let c = points@[j].0@;
                        lemma_lt_le_trans(
                            scaled_distance(ai, x@), ai.1,
                            scaled_distance(bi, x@), bi.1,
                            scaled_distance(c, x@), c.1,
                        );
                    }
                }
                assert forall|j: int| 0 <= j < i implies closer(ai, #[trigger] points@[j].0@, x@) by {
                    let c = points@[j].0@;
                    if j != old_best {
                        lemma_lt_le_trans(
                            scaled_distance(ai, x@), ai.1,
                            scaled_distance(bi, x@), bi.1,
                            scaled_distance(c, x@), c.1,
                        );
                    }
                }
            }
            best = i;
            best_dist = d;
        }
        i += 1;
    }
    Some(best)
}

} // verus!
