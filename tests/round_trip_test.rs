use mekanism_ratio::fission::{
    optimal_fuel_assemblies, turbine_based_fission_reactor, FUEL_ASSEMBLY_FLUID_BURN_RATE,
};
use mekanism_ratio::turbine::{optimal_turbine_with_dimensions, turbine_based_on_fission_reactor};

#[test]
fn test_optimal_turbine_and_fission() {
    // 5x5x5 Turbine
    let expected_turbine = optimal_turbine_with_dimensions(5, 5).unwrap();
    let fuel_assemblies = optimal_fuel_assemblies(&expected_turbine);
    let actual_reactor = turbine_based_fission_reactor(fuel_assemblies).unwrap();
    let actual_turbine = turbine_based_on_fission_reactor(actual_reactor.water_burn_rate).unwrap();
    assert_eq!(actual_turbine, expected_turbine);
    // 9x9x17 Turbine
    let expected_turbine = optimal_turbine_with_dimensions(9, 17).unwrap();
    let fuel_assemblies = optimal_fuel_assemblies(&expected_turbine);
    let actual_reactor = turbine_based_fission_reactor(fuel_assemblies).unwrap();
    let actual_turbine = turbine_based_on_fission_reactor(actual_reactor.water_burn_rate).unwrap();
    assert_eq!(actual_turbine, expected_turbine);
}

#[test]
fn dimensional_turbine_compared_fuel_assembly() {
    // 5x5x5 Turbine
    let expected_turbine = optimal_turbine_with_dimensions(5, 5).unwrap();
    let fuel_assemblies = optimal_fuel_assemblies(&expected_turbine);
    let water_burn_rate = fuel_assemblies * FUEL_ASSEMBLY_FLUID_BURN_RATE;
    let actual_turbine = turbine_based_on_fission_reactor(water_burn_rate).unwrap();
    assert_eq!(actual_turbine, expected_turbine);
}
