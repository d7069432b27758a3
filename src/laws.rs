//! Properties that relate the formulas to each other and to the chart.
use vstd::prelude::*;

use crate::formula::{energy_of, is_one_moa_value, lemma_input_bounds, lemma_mul_le, moa_of, VELOCITY_SCALE};
use crate::inputs::BallisticInputs;
use crate::plot::{domain_of, sample_x, NUM_POINTS};
use crate::ratio::{frac_eq, frac_lt, Frac, Ratio};
use crate::selection::{toggled, valid_order};
use crate::variable::GraphVariable;

verus! {

/// For a fixed positive kinetic energy, a heavier rifle gives a strictly
/// smaller group: `moa(ke, heavy) < moa(ke, light)` whenever
/// `heavy > light > 0`.
pub proof fn lemma_heavier_rifle_smaller_group(ke: Frac, light: Frac, heavy: Frac)
    requires
        ke.0 > 0,
        ke.1 > 0,
        light.0 > 0,
        light.1 > 0,
        heavy.1 > 0,
        frac_lt(light, heavy),
    ensures
        frac_lt(moa_of(ke, heavy), moa_of(ke, light)),
{
    let c = ke.0 * ke.1 * 200;
    assert(c > 0) by (nonlinear_arith)
        requires ke.0 > 0, ke.1 > 0, c == ke.0 * ke.1 * 200;
    assert(c * (heavy.1 * light.0) < c * (light.1 * heavy.0)) by (nonlinear_arith)
        requires c > 0, light.0 * heavy.1 < heavy.0 * light.1;
    assert(ke.0 * heavy.1 * (ke.1 * 200 * light.0) == c * (heavy.1 * light.0)) by (nonlinear_arith)
        requires c == ke.0 * ke.1 * 200;
    assert(ke.0 * light.1 * (ke.1 * 200 * heavy.0) == c * (light.1 * heavy.0)) by (nonlinear_arith)
        requires c == ke.0 * ke.1 * 200;
}

/// For inputs in range, kinetic energy and group size are positive and
/// their numerators and denominators fit in a `u128`.
pub proof fn lemma_formula_positive_in_range(inp: BallisticInputs)
    requires
        inp.wf(),
    ensures
        0 < energy_of(inp.projectile_weight@, inp.muzzle_velocity@).0 <= u128::MAX,
        0 < energy_of(inp.projectile_weight@, inp.muzzle_velocity@).1 <= u128::MAX,
        0 < moa_of(energy_of(inp.projectile_weight@, inp.muzzle_velocity@), inp.rifle_weight@).0
            <= u128::MAX,
        0 < moa_of(energy_of(inp.projectile_weight@, inp.muzzle_velocity@), inp.rifle_weight@).1
            <= u128::MAX,
{
    lemma_input_bounds(inp);
    let g = inp.projectile_weight;
    let v = inp.muzzle_velocity;
    let w = inp.rifle_weight;
    let e = energy_of(g@, v@);
    assert(e.0 > 0 && e.1 > 0) by (nonlinear_arith)
        requires
            g.num > 0,
            v.num > 0,
            g.den > 0,
            v.den > 0,
            e == energy_of(g@, v@),
    ;
    lemma_mul_le(e.0, w.den as int, 12500000000000000000000000000, 1000000);
    lemma_mul_le(e.1 * 200, w.num as int, 90087200000000000000000000, 50000000);
    assert(e.0 * w.den > 0 && e.1 * 200 * w.num > 0) by (nonlinear_arith)
        requires e.0 > 0, e.1 > 0, w.den > 0, w.num > 0;
}

/// The chart's samples start at the lower end of the free variable's range
/// and end at its upper end.
pub proof fn lemma_samples_span_domain(free: GraphVariable)
    ensures
        frac_eq(sample_x(free, 0), (domain_of(free).0, 1)),
        frac_eq(sample_x(free, NUM_POINTS - 1), (domain_of(free).1, 1)),
        sample_x(free, 0).1 > 0,
{
    let (lo, hi) = domain_of(free);
    assert((hi - lo) * 199 == hi * 199 - lo * 199);
}

/// With two inputs enabled, enabling the third evicts the one enabled
/// longest ago: the order becomes the newer of the two, then the third.
pub proof fn lemma_enabling_third_evicts_oldest(s: Seq<GraphVariable>, v: GraphVariable)
    requires
        valid_order(s),
        s.len() == 2,
        !s.contains(v),
    ensures
        toggled(s, v) == seq![s[1], v],
        !toggled(s, v).contains(s[0]),
        valid_order(toggled(s, v)),
{
    assert(s[1] != v) by {
        if s[1] == v {
            assert(s.contains(v));
        }
    }
    assert(toggled(s, v) =~= seq![s[1], v]);
}

/// The velocity that yields a one-MOA group, fed back through the formula
/// with the other two inputs, gives a group of at most one MOA, and one step
/// of `1 / VELOCITY_SCALE` faster gives a group of more than one MOA.
pub proof fn lemma_one_moa_velocity_brackets(inp: BallisticInputs, r: Frac)
    requires
        inp.wf(),
        is_one_moa_value(inp, GraphVariable::Velocity, r),
    ensures
        moa_of(energy_of(inp.projectile_weight@, r), inp.rifle_weight@).0
            <= moa_of(energy_of(inp.projectile_weight@, r), inp.rifle_weight@).1,
        moa_of(energy_of(inp.projectile_weight@, (r.0 + 1, r.1)), inp.rifle_weight@).0
            > moa_of(energy_of(inp.projectile_weight@, (r.0 + 1, r.1)), inp.rifle_weight@).1,
{
    let g = inp.projectile_weight@;
    let w = inp.rifle_weight@;
    let n = r.0;
    let m = n + 1;
    let s = VELOCITY_SCALE as int;
    assert(r.1 == s);
    assert(n * n * (w.1 * g.0) <= 200 * w.0 * 450436 * g.1 * s * s);
    assert(200 * w.0 * 450436 * g.1 * s * s < m * m * (w.1 * g.0));
    assert(g.0 * n * n * w.1 <= g.1 * s * s * 450436 * 200 * w.0) by (nonlinear_arith)
        requires n * n * (w.1 * g.0) <= 200 * w.0 * 450436 * g.1 * s * s;
    assert(g.0 * m * m * w.1 > g.1 * s * s * 450436 * 200 * w.0) by (nonlinear_arith)
        requires 200 * w.0 * 450436 * g.1 * s * s < m * m * (w.1 * g.0);
}

/// For inputs in range, the velocity that yields a one-MOA group, fed back
/// through the formula, gives a group within `10^-9` MOA of one MOA.
pub proof fn lemma_one_moa_velocity_is_close(inp: BallisticInputs, r: Ratio)
    requires
        inp.wf(),
        is_one_moa_value(inp, GraphVariable::Velocity, r@),
    ensures
        moa_of(energy_of(inp.projectile_weight@, r@), inp.rifle_weight@).0 * 1000000000
            > moa_of(energy_of(inp.projectile_weight@, r@), inp.rifle_weight@).1 * 999999999,
{
    let g = inp.projectile_weight@;
    let w = inp.rifle_weight@;
    let n = r.num as int;
    let s = VELOCITY_SCALE as int;
    let a = g.0 * w.1;
    let b = g.1 * s * s * 450436 * 200 * w.0;
    lemma_input_bounds(inp);
    assert(r.den == s);
    assert(n * n * (w.1 * g.0) <= 200 * w.0 * 450436 * g.1 * s * s);
    assert(200 * w.0 * 450436 * g.1 * s * s < (n + 1) * (n + 1) * (w.1 * g.0));
    assert(n * n * a <= b && b < (n + 1) * (n + 1) * a) by (nonlinear_arith)
        requires
            n * n * (w.1 * g.0) <= 200 * w.0 * 450436 * g.1 * s * s,
            200 * w.0 * 450436 * g.1 * s * s < (n + 1) * (n + 1) * (w.1 * g.0),
            a == g.0 * w.1,
            b == g.1 * s * s * 450436 * 200 * w.0,
    ;
    // The light-projectile, heavy-rifle corner bounds the velocity below.
    assert(g.1 * w.0 * 100 >= a) by (nonlinear_arith)
        requires w.0 >= 5 * w.1, g.0 <= 500 * g.1, w.1 > 0, g.1 > 0, a == g.0 * w.1;
    assert(a > 0) by (nonlinear_arith)
        requires g.0 > 0, w.1 > 0, a == g.0 * w.1;
    assert(b == 900872000000000000000000 * (g.1 * w.0)) by (nonlinear_arith)
        requires b == g.1 * s * s * 450436 * 200 * w.0, s == 100000000;
    assert(b >= 9000000000000000000000 * a);
    assert((n + 1) * (n + 1) > 9000000000000000000000) by (nonlinear_arith)
        requires b < (n + 1) * (n + 1) * a, b >= 9000000000000000000000 * a, a > 0;
    if n < 2100000000 {
        assert((n + 1) * (n + 1) <= 2100000000 * 2100000000) by (nonlinear_arith)
            requires 0 <= n < 2100000000;
    }
    assert((2 * n + 1) * 1000000000 <= n * n) by (nonlinear_arith)
        requires n >= 2100000000;
    assert(n * n * a * 1000000000 > b * 999999999) by (nonlinear_arith)
        requires
            n * n * a <= b,
            b < (n + 1) * (n + 1) * a,
            (2 * n + 1) * 1000000000 <= n * n,
            a > 0,
    ;
    assert(g.0 * n * n * w.1 == n * n * a) by (nonlinear_arith)
        requires a == g.0 * w.1;
}

} // verus!
