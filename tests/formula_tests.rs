use top_gun::formula::{isqrt, kinetic_energy, moa, value_for_one_moa};
use top_gun::inputs::BallisticInputs;
use top_gun::ratio::Ratio;
use top_gun::variable::GraphVariable;

fn approx(r: Ratio) -> f64 {
    r.num as f64 / r.den as f64
}

fn whole(n: u128) -> Ratio {
    Ratio::whole(n)
}

#[test]
fn test_kinetic_energy_calculation() {
    let ke = kinetic_energy(whole(168), whole(2650));
    assert!((approx(ke) - 2619.96).abs() < 1.0);
}

#[test]
fn lib_test_kinetic_energy_calculation() {
    let ke = kinetic_energy(whole(168), whole(2650));
    assert!((approx(ke) - 2619.96).abs() < 1.0);
}

#[test]
fn test_kinetic_energy_known_values() {
    let ke = kinetic_energy(whole(150), whole(3000));
    assert!((approx(ke) - 2997.10).abs() < 1.0);

    let ke = kinetic_energy(whole(55), whole(3240));
    assert!((approx(ke) - 1281.75).abs() < 1.0);
}

#[test]
fn lib_test_kinetic_energy_known_values() {
    let ke = kinetic_energy(whole(150), whole(3000));
    assert!((approx(ke) - 2997.10).abs() < 1.0);

    let ke = kinetic_energy(whole(55), whole(3240));
    assert!((approx(ke) - 1281.75).abs() < 1.0);
}

#[test]
fn test_moa_calculation() {
    let m = moa(whole(2620), whole(12));
    assert!((approx(m) - 1.092).abs() < 0.01);
}

#[test]
fn lib_test_moa_calculation() {
    let m = moa(whole(2620), whole(12));
    assert!((approx(m) - 1.092).abs() < 0.01);
}

#[test]
fn test_moa_heavier_rifle() {
    let ke = whole(2620);
    let moa_light = moa(ke, whole(8));
    let moa_heavy = moa(ke, whole(16));
    assert!(approx(moa_heavy) < approx(moa_light));
}

#[test]
fn lib_test_moa_heavier_rifle() {
    let ke = whole(2620);
    let moa_light = moa(ke, whole(8));
    let moa_heavy = moa(ke, whole(16));
    assert!(approx(moa_heavy) < approx(moa_light));
}

#[test]
fn test_full_calculation_chain() {
    let ke = kinetic_energy(whole(168), whole(2650));
    let m = moa(ke, whole(12));
    assert!(approx(m) > 1.0 && approx(m) < 1.2);
}

#[test]
fn lib_test_full_calculation_chain() {
    let ke = kinetic_energy(whole(168), whole(2650));
    let m = moa(ke, whole(12));
    assert!(approx(m) > 1.0 && approx(m) < 1.2);
}

#[test]
fn test_edge_cases() {
    let ke_min = kinetic_energy(whole(50), whole(500));
    assert!(approx(ke_min) > 0.0);

    let moa_min = moa(ke_min, whole(5));
    assert!(approx(moa_min) > 0.0);

    let ke_max = kinetic_energy(whole(500), whole(5000));
    assert!(approx(ke_max) > 0.0);

    let moa_max = moa(ke_max, whole(50));
    assert!(approx(moa_max) > 0.0);
}

#[test]
fn lib_test_edge_cases() {
    let ke_min = kinetic_energy(whole(50), whole(500));
    assert!(approx(ke_min) > 0.0);

    let moa_min = moa(ke_min, whole(5));
    assert!(approx(moa_min) > 0.0);

    let ke_max = kinetic_energy(whole(500), whole(5000));
    assert!(approx(ke_max) > 0.0);

    let moa_max = moa(ke_max, whole(50));
    assert!(approx(moa_max) > 0.0);
}

#[test]
fn kinetic_energy_is_exact_fraction() {
    let ke = kinetic_energy(whole(168), whole(2650));
    assert_eq!(ke.num, 168 * 2650 * 2650);
    assert_eq!(ke.den, 450436);
}

#[test]
fn kinetic_energy_of_fractional_inputs() {
    // 16.8 gr at 265 fps is a thousandth of 168 gr at 2650 fps.
    let ke = kinetic_energy(Ratio::new(168, 10), Ratio::new(2650, 10));
    assert_eq!(ke.num, 168 * 2650 * 2650);
    assert_eq!(ke.den, 1000 * 450436);
}

#[test]
fn moa_is_exact_fraction() {
    let m = moa(whole(2620), whole(12));
    assert_eq!(m.num, 2620);
    assert_eq!(m.den, 2400);
}

#[test]
fn moa_composition_lies_between_one_and_one_point_two() {
    let m = moa(kinetic_energy(whole(168), whole(2650)), whole(12));
    // 1.0 < m < 1.2, exactly
    assert!(m.num > m.den);
    assert!(m.num * 10 < m.den * 12);
}

#[test]
fn moa_decreases_with_rifle_weight() {
    let ke = kinetic_energy(whole(168), whole(2650));
    let light = moa(ke, Ratio::new(95, 10));
    let heavy = moa(ke, Ratio::new(96, 10));
    assert!(heavy.num * light.den < light.num * heavy.den);
}

#[test]
fn isqrt_values() {
    assert_eq!(isqrt(0), 0);
    assert_eq!(isqrt(1), 1);
    assert_eq!(isqrt(15), 3);
    assert_eq!(isqrt(16), 4);
    assert_eq!(isqrt(17), 4);
    assert_eq!(isqrt(u128::MAX), u64::MAX as u128);
}

#[test]
fn one_moa_rifle_weight() {
    let inputs = BallisticInputs::new();
    let (value, unit) = value_for_one_moa(&inputs, GraphVariable::RifleWeight);
    assert_eq!(unit, "lbs");
    assert_eq!(value.num, 168 * 2650 * 2650);
    assert_eq!(value.den, 450436 * 200);
    assert!((approx(value) - 13.096).abs() < 0.001);
}

#[test]
fn one_moa_velocity() {
    let inputs = BallisticInputs::new();
    let (value, unit) = value_for_one_moa(&inputs, GraphVariable::Velocity);
    assert_eq!(unit, "fps");
    assert_eq!(value.den, 100_000_000);
    // sqrt(200 * 12 * 450436 / 168) = sqrt(6434800) = 2536.69075766...
    assert_eq!(value.num, 253669075766);
    let x: u128 = 200 * 12 * 450436 * 10_000_000_000_000_000 / 168;
    assert!(value.num * value.num <= x && x < (value.num + 1) * (value.num + 1));
}

#[test]
fn one_moa_velocity_gives_one_moa() {
    let inputs = BallisticInputs::new();
    let (value, _unit) = value_for_one_moa(&inputs, GraphVariable::Velocity);
    let group = moa(kinetic_energy(whole(168), value), whole(12));
    assert!(group.num <= group.den);
    assert!((approx(group) - 1.0).abs() < 1e-9);
    let next = moa(kinetic_energy(whole(168), Ratio::new(value.num + 1, value.den)), whole(12));
    assert!(next.num > next.den);
}

#[test]
fn one_moa_velocity_at_range_extremes() {
    for (g, w) in [(50u128, 5u128), (50, 50), (500, 5), (500, 50)] {
        let inputs = BallisticInputs {
            projectile_weight: whole(g),
            muzzle_velocity: whole(2650),
            rifle_weight: whole(w),
        };
        let (value, unit) = value_for_one_moa(&inputs, GraphVariable::Velocity);
        assert_eq!(unit, "fps");
        let group = moa(kinetic_energy(whole(g), value), whole(w));
        assert!((approx(group) - 1.0).abs() < 1e-9);
    }
}

#[test]
fn one_moa_projectile_weight() {
    let inputs = BallisticInputs::new();
    let (value, unit) = value_for_one_moa(&inputs, GraphVariable::ProjectileWeight);
    assert_eq!(unit, "gr");
    assert!((approx(value) - 1081046400.0 / 7022500.0).abs() < 1e-9);
}

#[test]
fn test_graph_variable_selection() {
    let inputs = BallisticInputs {
        projectile_weight: whole(168),
        muzzle_velocity: whole(2650),
        rifle_weight: whole(12),
    };
    let mut graph_variable = GraphVariable::RifleWeight;

    assert_eq!(graph_variable, GraphVariable::RifleWeight);
    let (_value, unit) = value_for_one_moa(&inputs, graph_variable);
    assert_eq!(unit, "lbs");

    graph_variable = GraphVariable::Velocity;
    let (_value, unit) = value_for_one_moa(&inputs, graph_variable);
    assert_eq!(unit, "fps");

    graph_variable = GraphVariable::ProjectileWeight;
    let (_value, unit) = value_for_one_moa(&inputs, graph_variable);
    assert_eq!(unit, "gr");
}

#[test]
fn test_graph_variable_labels() {
    assert_eq!(GraphVariable::RifleWeight.label(), "Rifle Weight");
    assert_eq!(GraphVariable::Velocity.label(), "Velocity");
    assert_eq!(GraphVariable::ProjectileWeight.label(), "Projectile Weight");
}
