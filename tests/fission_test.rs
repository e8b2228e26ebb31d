use mekanism_ratio::boiler::{optimal_boiler_with_dimensions, Boiler};
use mekanism_ratio::error::SizingError;
use mekanism_ratio::fission::{
    area_inside_reactor, heat_capacity, optimal_fission_with_dimensions, optimal_fuel_assemblies,
    optimal_structure, turbine_based_fission_reactor, FissionReactor,
};
use mekanism_ratio::turbine::optimal_turbine_with_dimensions;

#[test]
fn test_optimal_structure() {
    let actual = (5, 6, 5);
    let expected = optimal_structure(12);
    assert_eq!(actual, expected);
}

#[test]
fn test_heat_capacity() {
    let actual = 114000;
    let expected = heat_capacity(5, 6, 5);
    assert_eq!(actual, expected);
}

#[test]
fn test_optimal_fission_with_dimensions() {
    let actual = turbine_based_fission_reactor(12).unwrap();
    let expected = optimal_fission_with_dimensions(actual.x, actual.z, actual.y).unwrap();
    assert_eq!(actual.fuel_assemblies, expected.fuel_assemblies);
    assert_eq!(actual.control_rods, expected.control_rods);
    assert_eq!((expected.fuel_assemblies, expected.control_rods), (12, 6));
}

#[test]
fn test_turbine_based_fission_reactor() {
    // 5x5x5 Turbine
    let turbine = optimal_turbine_with_dimensions(5, 5).unwrap();
    let fuel_assemblies = optimal_fuel_assemblies(&turbine);
    let actual_reactor = turbine_based_fission_reactor(fuel_assemblies).unwrap();
    assert_eq!((actual_reactor.x, actual_reactor.z, actual_reactor.y), (5, 6, 5));
    assert_eq!(actual_reactor.fuel_assemblies, 12);
    // 5x5x9 Turbine
    let turbine = optimal_turbine_with_dimensions(5, 9).unwrap();
    let fuel_assemblies = optimal_fuel_assemblies(&turbine);
    let actual_reactor = turbine_based_fission_reactor(fuel_assemblies).unwrap();
    assert_eq!((actual_reactor.x, actual_reactor.z, actual_reactor.y), (7, 7, 7));
    // 153 fuel assemblies
    let expected_reactor = FissionReactor {
        fuel_assemblies: 153,
        water_burn_rate: 3060000,
        ..Default::default()
    };
    let actual_reactor = turbine_based_fission_reactor(expected_reactor.fuel_assemblies).unwrap();
    assert_eq!(actual_reactor.fuel_assemblies, expected_reactor.fuel_assemblies);
    assert_eq!(actual_reactor.water_burn_rate, expected_reactor.water_burn_rate);
}

#[test]
fn reactor_for_153_assemblies_has_exact_fields() {
    let r = turbine_based_fission_reactor(153).unwrap();
    assert_eq!((r.x, r.z, r.y), (9, 10, 9));
    assert_eq!(r.control_rods, 28);
    assert_eq!(r.water_burn_rate, 3_060_000);
    assert_eq!(r.heat_capacity, 418000);
    // five levels over 28 rods touch 140 faces
    assert_eq!(r.fuel_surface_area, 153 * 6 - 140);
    assert_eq!(r.boil_efficiency_quarters, 4);
    assert_eq!(r.max_burn_rate, 153);
}

#[test]
fn single_assembly_reactor() {
    let r = turbine_based_fission_reactor(1).unwrap();
    assert_eq!((r.x, r.z, r.y), (3, 4, 4));
    assert_eq!(r.control_rods, 1);
    assert_eq!(r.fuel_surface_area, 6);
}

#[test]
fn reactor_sizing_guards_empty_and_oversized_loads() {
    assert_eq!(turbine_based_fission_reactor(0), Err(SizingError::NoFeasibleConfiguration));
    assert_eq!(turbine_based_fission_reactor(1582), Err(SizingError::NoFeasibleConfiguration));
    assert!(turbine_based_fission_reactor(1581).is_ok());
}

#[test]
fn larger_fuel_loads_never_get_smaller_cubes() {
    let mut last_side = 0;
    for fuel in 1..1582 {
        let r = turbine_based_fission_reactor(fuel).unwrap();
        assert!(r.z >= last_side);
        last_side = r.z;
    }
    assert_eq!(last_side, 17);
}

#[test]
fn reactor_by_dimensions() {
    let r = optimal_fission_with_dimensions(7, 7, 7).unwrap();
    // half of a 5x5 interior, rounded up, on four layers
    assert_eq!((r.fuel_assemblies, r.control_rods), (52, 13));
    assert_eq!(r.water_burn_rate, 52 * 20000);
    assert_eq!(
        optimal_fission_with_dimensions(2, 7, 7),
        Err(SizingError::DimensionOutOfRange)
    );
    assert_eq!(
        optimal_fission_with_dimensions(7, 7, 3),
        Err(SizingError::DimensionOutOfRange)
    );
    assert_eq!(
        optimal_fission_with_dimensions(7, 19, 7),
        Err(SizingError::DimensionOutOfRange)
    );
}

#[test]
fn reactors_compare_without_surface_area() {
    let a = turbine_based_fission_reactor(153).unwrap();
    let mut b = a;
    b.fuel_surface_area = 0;
    assert_eq!(a, b);
    b.heat_capacity = 0;
    assert_ne!(a, b);
}

#[test]
fn interior_and_structure() {
    assert_eq!(area_inside_reactor(5, 6, 5), 36);
    assert_eq!(optimal_structure(8), (4, 6, 5));
    assert_eq!(optimal_structure(36), (6, 11, 5));
}

#[test]
fn reactor_summary_names_its_dimensions() {
    let r = turbine_based_fission_reactor(12).unwrap();
    assert_eq!(r.summarize(), "A 5x6x5 Fission Reactor");
}

#[test]
fn boiler_dimensions_are_checked() {
    assert_eq!(optimal_boiler_with_dimensions(5, 5, 5), Ok(Boiler::default()));
    assert_eq!(optimal_boiler_with_dimensions(2, 5, 5), Err(SizingError::DimensionOutOfRange));
    let b = Boiler { x: 5, z: 7, y: 9, heating_element: 0, dispersers: 0 };
    assert_eq!(b.summarize(), "A 5x7x9 Boiler");
}
