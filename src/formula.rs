//! The precision formula: kinetic energy, group size, and the value of a
//! free variable that yields a one-MOA group.
use vstd::prelude::*;

use crate::inputs::BallisticInputs;
use crate::ratio::{frac_scale, Frac, Ratio};
use crate::variable::GraphVariable;

verus! {

/// Divisor that turns grains times feet-per-second squared into foot-pounds.
pub const ENERGY_DIVISOR: u128 = 450436;

/// Foot-pounds of kinetic energy per pound of rifle for a one-MOA group.
pub const ENERGY_PER_MOA_POUND: u128 = 200;

/// Resolution of the velocity that yields a one-MOA group: 10^-8 fps.
pub const VELOCITY_SCALE: u128 = 100000000;

/// Kinetic energy of projectile weight `g` at velocity `v`.
pub open spec fn energy_of(g: Frac, v: Frac) -> Frac {
    (g.0 * v.0 * v.0, g.1 * v.1 * v.1 * ENERGY_DIVISOR)
}

/// Group size in MOA for kinetic energy `ke` and rifle weight `w`.
pub open spec fn moa_of(ke: Frac, w: Frac) -> Frac {
    (ke.0 * w.1, ke.1 * ENERGY_PER_MOA_POUND * w.0)
}

/// `a * b <= x * y` for bounded non-negative factors.
pub proof fn lemma_mul_le(a: int, b: int, x: int, y: int)
    requires
        0 <= a <= x,
        0 <= b <= y,
    ensures
        a * b <= x * y,
        0 <= a * b,
{
    assert(a * b <= x * y && 0 <= a * b) by (nonlinear_arith)
        requires
            0 <= a <= x,
            0 <= b <= y,
    ;
}

/// Kinetic energy in foot-pounds: `grain_weight * velocity_fps^2 / 450436`.
pub fn kinetic_energy(grain_weight: Ratio, velocity_fps: Ratio) -> (r: Ratio)
    requires
        grain_weight.num * velocity_fps.num * velocity_fps.num <= u128::MAX,
        grain_weight.den * velocity_fps.den * velocity_fps.den * ENERGY_DIVISOR <= u128::MAX,
    ensures
        r@ == energy_of(grain_weight@, velocity_fps@),
        grain_weight.wf() && velocity_fps.wf() ==> r.wf(),
        grain_weight.num > 0 && velocity_fps.num > 0 ==> r.num > 0,
{
    let g = grain_weight;
    let v = velocity_fps;
    proof {
        // The partial products are no larger than the full ones.
        assert(g.num * v.num <= g.num * v.num * v.num || v.num == 0) by (nonlinear_arith);
        assert(g.den * v.den <= g.den * v.den * v.den || v.den == 0) by (nonlinear_arith);
        assert(g.den * v.den * v.den <= g.den * v.den * v.den * ENERGY_DIVISOR) by (nonlinear_arith);
        if g.num > 0 && v.num > 0 {
            assert(g.num * v.num * v.num > 0) by (nonlinear_arith)
                requires g.num > 0, v.num > 0;
        }
        if g.wf() && v.wf() {
            assert(g.den * v.den * v.den * ENERGY_DIVISOR > 0) by (nonlinear_arith)
                requires g.den > 0, v.den > 0;
        }
    }
    let num = g.num * v.num * v.num;
    let den = g.den * v.den * v.den * ENERGY_DIVISOR;
    Ratio { num, den }
}

/// Group size in MOA: `kinetic_energy / 200 / rifle_weight`.
pub fn moa(kinetic_energy: Ratio, rifle_weight: Ratio) -> (r: Ratio)
    requires
        rifle_weight.num > 0,
        kinetic_energy.num * rifle_weight.den <= u128::MAX,
        kinetic_energy.den * ENERGY_PER_MOA_POUND * rifle_weight.num <= u128::MAX,
    ensures
        r@ == moa_of(kinetic_energy@, rifle_weight@),
        kinetic_energy.wf() ==> r.wf(),
        kinetic_energy.num > 0 && rifle_weight.wf() ==> r.num > 0,
{
    proof {
        assert(kinetic_energy.den * ENERGY_PER_MOA_POUND <= kinetic_energy.den * ENERGY_PER_MOA_POUND * rifle_weight.num)
            by (nonlinear_arith) requires rifle_weight.num > 0;
        if kinetic_energy.num > 0 && rifle_weight.wf() {
            assert(kinetic_energy.num * rifle_weight.den > 0) by (nonlinear_arith)
                requires kinetic_energy.num > 0, rifle_weight.den > 0;
        }
        if kinetic_energy.wf() {
            assert(kinetic_energy.den * ENERGY_PER_MOA_POUND * rifle_weight.num > 0) by (nonlinear_arith)
                requires kinetic_energy.den > 0, rifle_weight.num > 0;
        }
    }
    let num = kinetic_energy.num * rifle_weight.den;
    let den = kinetic_energy.den * ENERGY_PER_MOA_POUND * rifle_weight.num;
    Ratio { num, den }
}

/// The integer square root: the largest `r` with `r * r <= n`.
pub fn isqrt(n: u128) -> (r: u128)
    ensures
        r * r <= n,
        n < (r + 1) * (r + 1),
{
    let mut lo: u128 = 0;
    let mut hi: u128 = 0x1_0000_0000_0000_0000;
    assert(n < hi * hi) by (nonlinear_arith) requires hi == 0x1_0000_0000_0000_0000u128, n <= u128::MAX;
    while hi - lo > 1
        invariant
            lo < hi <= 0x1_0000_0000_0000_0000u128,
            lo * lo <= n,
            n < hi * hi,
        decreases hi - lo,
    {
        let mid = lo + (hi - lo) / 2;
        assert(mid * mid < 0x1_0000_0000_0000_0000u128 * 0x1_0000_0000_0000_0000u128) by (nonlinear_arith)
            requires mid < 0x1_0000_0000_0000_0000u128;
        if mid * mid <= n {
            lo = mid;
        } else {
            hi = mid;
        }
    }
    assert(hi == lo + 1);
    lo
}

/// Velocity squared that yields a one-MOA group: `200 * w * 450436 / g`.
pub open spec fn velocity_sq_for_one_moa(g: Frac, w: Frac) -> Frac {
    (ENERGY_PER_MOA_POUND * w.0 * ENERGY_DIVISOR * g.1, w.1 * g.0)
}

/// Projectile weight that yields a one-MOA group: `200 * w * 450436 / v^2`.
pub open spec fn projectile_for_one_moa(v: Frac, w: Frac) -> Frac {
    (ENERGY_PER_MOA_POUND * w.0 * ENERGY_DIVISOR * v.1 * v.1, w.1 * v.0 * v.0)
}

/// `n / scale` is the square root of `x` rounded down to a multiple of `1 / scale`.
pub open spec fn is_floor_sqrt(n: int, x: Frac, scale: int) -> bool {
    &&& n * n * x.1 <= x.0 * scale * scale
    &&& x.0 * scale * scale < (n + 1) * (n + 1) * x.1
}

/// Unit of the value that yields a one-MOA group when `free` is the unknown.
pub open spec fn unit_of(free: GraphVariable) -> Seq<char> {
    match free {
        GraphVariable::RifleWeight => "lbs"@,
        GraphVariable::Velocity => "fps"@,
        GraphVariable::ProjectileWeight => "gr"@,
    }
}

/// `r` is the value of `free` that yields a one-MOA group, the other two
/// inputs held at their values in `inp`.
pub open spec fn is_one_moa_value(inp: BallisticInputs, free: GraphVariable, r: Frac) -> bool {
    let g = inp.projectile_weight@;
    let v = inp.muzzle_velocity@;
    let w = inp.rifle_weight@;
    match free {
        GraphVariable::RifleWeight => r == frac_scale(energy_of(g, v), 1, ENERGY_PER_MOA_POUND as int),
        GraphVariable::Velocity => r.1 == VELOCITY_SCALE && is_floor_sqrt(
            r.0,
            velocity_sq_for_one_moa(g, w),
            VELOCITY_SCALE as int,
        ),
        GraphVariable::ProjectileWeight => r == projectile_for_one_moa(v, w),
    }
}

/// Bounds on the numerators and denominators of inputs in range.
pub proof fn lemma_input_bounds(inp: BallisticInputs)
    requires
        inp.wf(),
    ensures
        0 < inp.projectile_weight.num <= 500000000,
        0 < inp.muzzle_velocity.num <= 5000000000,
        0 < inp.rifle_weight.num <= 50000000,
        0 < inp.projectile_weight.den <= 1000000,
        0 < inp.muzzle_velocity.den <= 1000000,
        0 < inp.rifle_weight.den <= 1000000,
        inp.projectile_weight.num * inp.muzzle_velocity.num * inp.muzzle_velocity.num
            <= 12500000000000000000000000000,
        inp.projectile_weight.den * inp.muzzle_velocity.den * inp.muzzle_velocity.den
            <= 1000000000000000000,
        inp.muzzle_velocity.num * inp.muzzle_velocity.num <= 25000000000000000000,
        inp.muzzle_velocity.den * inp.muzzle_velocity.den <= 1000000000000,
{
    let g = inp.projectile_weight;
    let v = inp.muzzle_velocity;
    lemma_mul_le(g.num as int, v.num as int, 500000000, 5000000000);
    lemma_mul_le((g.num * v.num) as int, v.num as int, 2500000000000000000, 5000000000);
    lemma_mul_le(g.den as int, v.den as int, 1000000, 1000000);
    lemma_mul_le((g.den * v.den) as int, v.den as int, 1000000000000, 1000000);
    lemma_mul_le(v.num as int, v.num as int, 5000000000, 5000000000);
    lemma_mul_le(v.den as int, v.den as int, 1000000, 1000000);
}

/// The value of the free variable that, with the other two inputs held,
/// yields a group of exactly one MOA, with its unit. The velocity, a square
/// root, is rounded down to a multiple of 10^-8 fps.
pub fn value_for_one_moa(inputs: &BallisticInputs, free: GraphVariable) -> (r: (Ratio, &'static str))
    requires
        inputs.wf(),
    ensures
        r.0.wf(),
        is_one_moa_value(*inputs, free, r.0@),
        r.1@ == unit_of(free),
{
    proof {
        lemma_input_bounds(*inputs);
    }
    let g = inputs.projectile_weight;
    let v = inputs.muzzle_velocity;
    let w = inputs.rifle_weight;
    match free {
        GraphVariable::RifleWeight => {
            let ke = kinetic_energy(g, v);
            (ke.scale(1, ENERGY_PER_MOA_POUND), "lbs")
        },
        GraphVariable::Velocity => {
            proof {
                lemma_mul_le(
                    (ENERGY_PER_MOA_POUND * w.num * ENERGY_DIVISOR) as int,
                    g.den as int,
                    ENERGY_PER_MOA_POUND * 50000000 * ENERGY_DIVISOR,
                    1000000,
                );
                lemma_mul_le(w.den as int, g.num as int, 1000000, 500000000);
                assert(w.den * g.num > 0) by (nonlinear_arith)
                    requires w.den > 0, g.num > 0;
            }
            let x_num = ENERGY_PER_MOA_POUND * w.num * ENERGY_DIVISOR * g.den * VELOCITY_SCALE
                * VELOCITY_SCALE;
            let x_den = w.den * g.num;
            let m = x_num / x_den;
            let n = isqrt(m);
            proof {
                vstd::arithmetic::div_mod::lemma_fundamental_div_mod(x_num as int, x_den as int);
                let q = x_num as int / x_den as int;
                let rm = x_num as int % x_den as int;
                assert(0 <= rm < x_den);
                assert(n * n * x_den <= x_num) by (nonlinear_arith)
                    requires n * n <= q, x_num == x_den * q + rm, 0 <= rm, x_den > 0;
                assert(x_num < (n + 1) * (n + 1) * x_den) by (nonlinear_arith)
                    requires q < (n + 1) * (n + 1), x_num == x_den * q + rm, rm < x_den, x_den > 0;
            }
            (Ratio { num: n, den: VELOCITY_SCALE }, "fps")
        },
        GraphVariable::ProjectileWeight => {
            proof {
                lemma_mul_le(
                    (ENERGY_PER_MOA_POUND * w.num * ENERGY_DIVISOR) as int,
                    (v.den * v.den) as int,
                    ENERGY_PER_MOA_POUND * 50000000 * ENERGY_DIVISOR,
                    1000000000000,
                );
                lemma_mul_le(w.den as int, (v.num * v.num) as int, 1000000, 25000000000000000000);
                lemma_mul_le(
                    (ENERGY_PER_MOA_POUND * w.num * ENERGY_DIVISOR) as int,
                    v.den as int,
                    ENERGY_PER_MOA_POUND * 50000000 * ENERGY_DIVISOR,
                    1000000,
                );
                lemma_mul_le(w.den as int, v.num as int, 1000000, 5000000000);
                assert(w.den * v.num <= w.den * v.num * v.num) by (nonlinear_arith)
                    requires v.num > 0;
                assert(ENERGY_PER_MOA_POUND * w.num * ENERGY_DIVISOR * v.den
                    <= ENERGY_PER_MOA_POUND * w.num * ENERGY_DIVISOR * v.den * v.den) by (nonlinear_arith)
                    requires v.den > 0;
                assert(w.den * v.num * v.num > 0) by (nonlinear_arith)
                    requires w.den > 0, v.num > 0;
                assert(ENERGY_PER_MOA_POUND * w.num * ENERGY_DIVISOR * v.den * v.den
                    == (ENERGY_PER_MOA_POUND * w.num * ENERGY_DIVISOR) * (v.den * v.den)) by (nonlinear_arith);
                assert(w.den * v.num * v.num == w.den * (v.num * v.num)) by (nonlinear_arith);
            }
            let num = ENERGY_PER_MOA_POUND * w.num * ENERGY_DIVISOR * v.den * v.den;
            let den = w.den * v.num * v.num;
            (Ratio { num, den }, "gr")
        },
    }
}

} // verus!
