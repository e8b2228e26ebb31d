use mekanism_ratio::error::SizingError;
use mekanism_ratio::fission::{optimal_fuel_assemblies, turbine_based_fission_reactor};
use mekanism_ratio::metric_prefix::convert_to_mega;
use mekanism_ratio::turbine::{
    calc_coils_needed, calc_max_vents, calc_pressure_dispersers, max_energy_prod,
    optimal_turbine_with_dimensions, remove_dominated, turbine_based_on_fission_reactor,
    turbine_factory, Turbine, BLADE_RATE_DIVISOR,
};

fn production_in_mega(turbine: &Turbine) -> f32 {
    convert_to_mega(turbine.max_production as u128, BLADE_RATE_DIVISOR as u128) as f32 / 100.0
}

#[test]
fn test_calc_coils_needed() {
    let blades = 10;
    let expected_coils = 3;
    assert_eq!(calc_coils_needed(blades), expected_coils);
}

#[test]
fn test_calc_pressure_dispersers() {
    let x_z = 5;
    let expected = 8;
    assert_eq!(calc_pressure_dispersers(x_z), expected);
}

#[test]
fn test_calc_max_vents() {
    let x_z = 5;
    let y = 5;
    let shaft_height = 1;
    let expected = 33;
    let actual = calc_max_vents(x_z, y, shaft_height);
    assert_eq!(actual, expected);
    let x_z = 7;
    let y = 13;
    let shaft_height = 6;
    let expected = 125;
    let actual = calc_max_vents(x_z, y, shaft_height);
    assert_eq!(actual, expected);
    let x_z = 9;
    let y = 11;
    let shaft_height = 5;
    let expected = 161;
    let actual = calc_max_vents(x_z, y, shaft_height);
    assert_eq!(actual, expected);
}

#[test]
fn test_max_energy_production() {
    // 5x5x9
    let actual = max_energy_prod(8, 2, 5, 4, 32);
    let hundredths = convert_to_mega(actual as u128, BLADE_RATE_DIVISOR as u128);
    assert_eq!(hundredths, 292);
    assert_eq!(hundredths as f32 / 100.0, 2.92);
    // 9x9x17
    let actual = max_energy_prod(16, 4, 9, 8, 245);
    let hundredths = convert_to_mega(actual as u128, BLADE_RATE_DIVISOR as u128);
    assert_eq!(hundredths, 4480);
    assert_eq!(hundredths as f32 / 100.0, 44.80);
    // 17x17x18
    let actual = max_energy_prod(20, 5, 17, 10, 585);
    let hundredths = convert_to_mega(actual as u128, BLADE_RATE_DIVISOR as u128);
    assert_eq!(hundredths, 13371);
    assert_eq!(hundredths as f32 / 100.0, 133.71);
}

#[test]
fn test_turbine_factory() {
    let actual = turbine_factory(9, 11, 48, 48, 105, 5, 10, 2);
    assert_eq!(actual.max_flow, 3360000);
    assert_eq!(actual.tank_volume, 405);
    assert_eq!(actual.dispersers, 48);
    assert_eq!(actual.vents, 105);
    assert_eq!(actual.coils, 2);
    assert_eq!(actual.max_water_output, 3072000);
}

#[test]
fn test_optimal_turbine_with_dimensions() {
    // 5x5x9 Turbine
    let actual = optimal_turbine_with_dimensions(5, 9).unwrap();
    assert_eq!((actual.x_z, actual.y), (5, 9));
    assert_eq!((actual.vents, actual.shaft_height, actual.blades, actual.coils), (32, 4, 8, 2));
    assert_eq!(production_in_mega(&actual), 2.92);
    // 9x9x17
    let actual = optimal_turbine_with_dimensions(9, 17).unwrap();
    assert_eq!((actual.x_z, actual.y), (9, 17));
    assert_eq!((actual.vents, actual.shaft_height, actual.blades, actual.coils), (245, 8, 16, 4));
    assert_eq!(production_in_mega(&actual), 44.80);
    // 17x17x18
    let actual = optimal_turbine_with_dimensions(17, 18).unwrap();
    assert_eq!((actual.x_z, actual.y), (17, 18));
    assert_eq!((actual.vents, actual.shaft_height, actual.blades, actual.coils), (585, 10, 20, 5));
    assert_eq!(production_in_mega(&actual), 133.71);
    // 5x5x5, 7x7x13, 11x11x18, 13x13x18, 15x15x18
    for (x_z, y) in [(5, 5), (7, 13), (11, 18), (13, 18), (15, 18)] {
        let actual = optimal_turbine_with_dimensions(x_z, y).unwrap();
        assert_eq!((actual.x_z, actual.y), (x_z, y));
        assert_eq!(actual.blades, actual.shaft_height * 2);
        assert_eq!(actual.coils, calc_coils_needed(actual.blades));
        assert_eq!(actual.dispersers, calc_pressure_dispersers(x_z));
    }
}

#[test]
fn test_turbine_based_on_fission_reactor() {
    // 5x5x5
    let expected = optimal_turbine_with_dimensions(5, 5).unwrap();
    let water_burn_rate = 240000;
    let actual = turbine_based_on_fission_reactor(water_burn_rate).unwrap();
    assert_eq!(actual.max_water_output, expected.max_water_output);
    for (x_z, y) in [(5, 5), (7, 13), (9, 17), (11, 18), (13, 18), (15, 18), (17, 18)] {
        let expected = optimal_turbine_with_dimensions(x_z, y).unwrap();
        let water_burn_rate = expected.max_flow.min(expected.max_water_output);
        let actual = turbine_based_on_fission_reactor(water_burn_rate).unwrap();
        assert_eq!(actual.max_water_output, expected.max_water_output);
    }
}

#[test]
fn dispersers_fill_the_layer_for_every_odd_footprint() {
    for x_z in (5..=17).step_by(2) {
        assert_eq!(calc_pressure_dispersers(x_z), (x_z - 2) * (x_z - 2) - 1);
    }
    assert_eq!(calc_pressure_dispersers(17), 224);
}

#[test]
fn coils_are_a_quarter_of_the_blades_and_at_least_two() {
    assert_eq!(calc_coils_needed(0), 2);
    assert_eq!(calc_coils_needed(1), 2);
    assert_eq!(calc_coils_needed(8), 2);
    assert_eq!(calc_coils_needed(9), 3);
    assert_eq!(calc_coils_needed(12), 3);
    assert_eq!(calc_coils_needed(13), 4);
    assert_eq!(calc_coils_needed(26), 7);
    assert_eq!(calc_coils_needed(i32::MAX), 536870912);
}

#[test]
fn even_footprint_is_rejected() {
    assert_eq!(
        optimal_turbine_with_dimensions(6, 10),
        Err(SizingError::EvenFootprintRejected)
    );
}

#[test]
fn dimensions_out_of_range_are_rejected() {
    assert_eq!(optimal_turbine_with_dimensions(4, 10), Err(SizingError::DimensionOutOfRange));
    assert_eq!(optimal_turbine_with_dimensions(19, 10), Err(SizingError::DimensionOutOfRange));
    assert_eq!(optimal_turbine_with_dimensions(5, 4), Err(SizingError::DimensionOutOfRange));
    assert_eq!(optimal_turbine_with_dimensions(5, 19), Err(SizingError::DimensionOutOfRange));
    // the range check comes before the parity check
    assert_eq!(optimal_turbine_with_dimensions(18, 10), Err(SizingError::DimensionOutOfRange));
}

#[test]
fn smallest_turbine_has_exact_fields() {
    let t = optimal_turbine_with_dimensions(5, 5).unwrap();
    assert_eq!((t.x_z, t.y, t.shaft_height, t.vents), (5, 5, 1, 8));
    assert_eq!((t.dispersers, t.condensers, t.blades, t.coils), (8, 4, 2, 2));
    assert_eq!((t.max_flow, t.max_water_output), (256000, 256000));
    assert_eq!((t.capacity, t.tank_volume), (1600000, 25));
    // 10 J/mB x 2/28 x 256000 mB/t, kept times 28
    assert_eq!(t.max_production, 5120000);
}

#[test]
fn flow_sizing_reports_no_feasible_turbine() {
    // no candidate with 96 vents keeps every vent that pays off
    assert_eq!(
        turbine_based_on_fission_reactor(3060000),
        Err(SizingError::NoFeasibleConfiguration)
    );
    assert_eq!(turbine_based_on_fission_reactor(0), Err(SizingError::NoFeasibleConfiguration));
}

#[test]
fn round_trip_through_a_reactor_keeps_water_and_flow() {
    let turbine = optimal_turbine_with_dimensions(5, 5).unwrap();
    let fuel_assemblies = optimal_fuel_assemblies(&turbine);
    assert_eq!(fuel_assemblies, 12);
    let reactor = turbine_based_fission_reactor(fuel_assemblies).unwrap();
    assert_eq!(reactor.water_burn_rate, 240000);
    let again = turbine_based_on_fission_reactor(reactor.water_burn_rate).unwrap();
    assert_eq!(again.max_water_output, turbine.max_water_output);
    assert_eq!(again.max_flow, turbine.max_flow);
    assert_eq!(again, turbine);
}

fn candidate(x_z: i32, max_production: u64) -> Turbine {
    let mut t = Turbine::default();
    t.x_z = x_z;
    t.max_production = max_production;
    t
}

#[test]
fn dominated_candidates_are_removed() {
    let candidates = vec![
        candidate(5, 100),
        candidate(7, 90),
        candidate(7, 100),
        candidate(9, 150),
        candidate(11, 120),
        candidate(11, 150),
    ];
    let kept = remove_dominated(&candidates);
    let kept: Vec<(i32, u64)> = kept.iter().map(|t| (t.x_z, t.max_production)).collect();
    assert_eq!(kept, vec![(5, 100), (7, 100), (9, 150), (11, 150)]);
    for a in kept.iter() {
        for b in kept.iter() {
            assert!(!(a.0 > b.0 && a.1 < b.1));
        }
    }
}

#[test]
fn equal_turbines_compare_by_whole_production() {
    let t = optimal_turbine_with_dimensions(5, 9).unwrap();
    let mut u = t;
    u.max_production = t.max_production + 1;
    assert_eq!(t, u);
    u.max_production = t.max_production + 28;
    assert_ne!(t, u);
    let mut v = t;
    v.vents = t.vents + 1;
    assert_ne!(t, v);
}

#[test]
fn turbine_summary_names_its_dimensions() {
    let t = optimal_turbine_with_dimensions(9, 17).unwrap();
    assert_eq!(t.summarize(), "A 9x9x17 Turbine");
}
