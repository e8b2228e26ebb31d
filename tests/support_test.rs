use mekanism_ratio::boiler::Boiler;
use mekanism_ratio::fission::turbine_based_fission_reactor;
use mekanism_ratio::lookup_table::turbine_lookup_rows;
use mekanism_ratio::metric_prefix::{
    convert_to_kilo, convert_to_prefix, drop_decimals, drop_tenth_decimal, truncate_to_scale,
    MetricPrefix, Prefix,
};
use mekanism_ratio::recipe::turbine_recipe;
use mekanism_ratio::setups::{BinarySetup, Setup, SetupType, TrinarySetup};
use mekanism_ratio::text::push_decimal;
use mekanism_ratio::turbine::optimal_turbine_with_dimensions;

fn converted(n: u64, start: &Prefix, end: &Prefix) -> (u128, u128) {
    convert_to_prefix(n, 1, *start, *end)
}

#[test]
fn metric_prefix_test_convert_to_prefix() {
    // Sanity Base to Base
    let (num, den) = converted(123, &Prefix::Base, &Prefix::Base);
    assert_eq!(num, 123 * den);
    // Base to Kilo
    let (num, den) = converted(123000, &Prefix::Base, &Prefix::Kilo);
    assert_eq!(num, 123 * den);
    // Mega to Kilo
    let (num, den) = converted(123, &Prefix::Mega, &Prefix::Kilo);
    assert_eq!(num, 123000 * den);
}

#[test]
fn utils_test_convert_to_prefix() {
    let (num, den) = convert_to_prefix(123, 1, MetricPrefix::Base, MetricPrefix::Base);
    assert_eq!(drop_decimals(num, den), 123);
    let (num, den) = convert_to_prefix(123000, 1, MetricPrefix::Base, MetricPrefix::Kilo);
    assert_eq!(drop_decimals(num, den), 123);
    let (num, den) = convert_to_prefix(123, 1, MetricPrefix::Mega, MetricPrefix::Kilo);
    assert_eq!(drop_decimals(num, den), 123000);
}

#[test]
fn powers_of_the_prefixes() {
    assert_eq!(Prefix::Base.power(), 0);
    assert_eq!(Prefix::Kilo.power(), 3);
    assert_eq!(Prefix::Mega.power(), 6);
    assert_eq!(Prefix::Giga.power(), 9);
    assert_eq!(Prefix::Tera.power(), 12);
    assert_eq!(Prefix::Tera.scale(), 1_000_000_000_000);
    let (num, den) = convert_to_prefix(5, 1, Prefix::Tera, Prefix::Giga);
    assert_eq!(drop_decimals(num, den), 5000);
}

#[test]
fn truncation_drops_digits_without_rounding() {
    // 182957 J is 182.95 kJ when truncated
    assert_eq!(convert_to_kilo(182957, 1), 18295);
    assert_eq!(truncate_to_scale(182957, 1, Prefix::Kilo), 18295);
    assert_eq!(truncate_to_scale(1999, 1, Prefix::Base), 199900);
    assert_eq!(drop_tenth_decimal(199, 10), 199);
    assert_eq!(drop_tenth_decimal(2, 3), 6);
    assert_eq!(drop_decimals(5, 3), 1);
    assert_eq!(drop_decimals(29, 28), 1);
    assert_eq!(drop_decimals(27, 28), 0);
}

#[test]
fn recipe_for_the_smallest_turbine() {
    let t = optimal_turbine_with_dimensions(5, 5).unwrap();
    let r = turbine_recipe(&t);
    assert_eq!(r.saturating_condenser, 4);
    assert_eq!(r.turbine_vent, 4);
    assert_eq!(r.turbine_blade, 4);
    assert_eq!(r.structural_glass, 48);
    assert_eq!(r.turbine_casing, 18 + 80 - 4);
}

#[test]
fn setups_summarize_their_parts() {
    let reactor = turbine_based_fission_reactor(12).unwrap();
    let turbine = optimal_turbine_with_dimensions(5, 5).unwrap();
    let binary = BinarySetup { reactor, turbine };
    assert_eq!(binary.summarize(), " A 5x6x5 Fission Reactor / A 5x5x5 Turbine ");
    let setup = SetupType::BinarySetup(binary);
    assert_eq!(setup.summarize(), " A 5x6x5 Fission Reactor / A 5x5x5 Turbine ");
    let trinary = TrinarySetup::default();
    assert_eq!(trinary.boiler, Boiler::default());
    assert_eq!(trinary.summarize(), " A 0x0x0 Fission Reactor / A 0x0x0 Boiler / A 0x0x0 Turbine ");
}

#[test]
fn decimal_text_of_integers() {
    let mut text = String::new();
    push_decimal(&mut text, 0);
    push_decimal(&mut text, -7);
    push_decimal(&mut text, 1090);
    push_decimal(&mut text, i32::MIN);
    assert_eq!(text, "0-71090-2147483648");
}

#[test]
fn lookup_rows_cover_the_grid() {
    let rows = turbine_lookup_rows();
    assert_eq!(rows.len(), 78);
    assert_eq!(rows[0], optimal_turbine_with_dimensions(5, 5));
    assert_eq!(rows[13], optimal_turbine_with_dimensions(7, 5));
    assert_eq!(rows[77], optimal_turbine_with_dimensions(15, 17));
    assert!(rows.iter().all(|r| r.is_ok()));
}
