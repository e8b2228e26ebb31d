//! Fission reactor multiblocks: sizing from dimensions, sizing from a fuel
//! load, and the casing's heat capacity.

use crate::error::SizingError;
use crate::text::{decimal_text, push_decimal};
use crate::turbine::{ceil_div, min_int, Turbine};
use vstd::prelude::*;
use vstd::string::StringExecFns;

verus! {

/// Water one fuel assembly boils per tick (mB/t).
pub const FUEL_ASSEMBLY_FLUID_BURN_RATE: i32 = 20000;
/// Heat capacity of one casing block (J/K).
pub const CASING_HEAT_CAPACITY: i32 = 1000;
/// Average exposed surface per fuel assembly at which boiling is fully efficient.
pub const FISSION_SURFACE_AREA_TARGET: i32 = 4;

/// A fission reactor: its dimensions, assemblies, and derived quantities.
///
/// `boil_efficiency_quarters` is the boil efficiency in quarters, so 4 stands
/// for full efficiency.
#[derive(Debug, Clone, Copy)]
pub struct FissionReactor {
    pub x: i32,
    pub z: i32,
    pub y: i32,
    pub fuel_assemblies: i32,
    pub control_rods: i32,
    pub water_burn_rate: i32,
    pub heat_capacity: i32,
    pub fuel_surface_area: i32,
    pub boil_efficiency_quarters: i32,
    pub max_burn_rate: i32,
}

impl FissionReactor {
    /// The water burn rate is the fuel assemblies' burn rate, never set apart from them.
    pub open spec fn wf(&self) -> bool {
        self.water_burn_rate == self.fuel_assemblies * FUEL_ASSEMBLY_FLUID_BURN_RATE
    }
}

impl FissionReactor {
    /// The record with every count zero.
    pub open spec fn blank() -> FissionReactor {
        FissionReactor {
            x: 0,
            z: 0,
            y: 0,
            fuel_assemblies: 0,
            control_rods: 0,
            water_burn_rate: 0,
            heat_capacity: 0,
            fuel_surface_area: 0,
            boil_efficiency_quarters: 0,
            max_burn_rate: 0,
        }
    }
}

impl Default for FissionReactor {
    fn default() -> (r: FissionReactor)
        ensures
            r == FissionReactor::blank(),
    {
        FissionReactor {
            x: 0,
            z: 0,
            y: 0,
            fuel_assemblies: 0,
            control_rods: 0,
            water_burn_rate: 0,
            heat_capacity: 0,
            fuel_surface_area: 0,
            boil_efficiency_quarters: 0,
            max_burn_rate: 0,
        }
    }
}

/// Two reactors are equal when all but their fuel surface areas agree.
impl PartialEq for FissionReactor {
    fn eq(&self, other: &FissionReactor) -> (r: bool) {
        self.x == other.x && self.z == other.z && self.y == other.y && self.fuel_assemblies
            == other.fuel_assemblies && self.control_rods == other.control_rods
            && self.water_burn_rate == other.water_burn_rate && self.heat_capacity
            == other.heat_capacity && self.boil_efficiency_quarters
            == other.boil_efficiency_quarters && self.max_burn_rate == other.max_burn_rate
    }
}

impl vstd::std_specs::cmp::PartialEqSpecImpl for FissionReactor {
    open spec fn obeys_eq_spec() -> bool {
        true
    }

    open spec fn eq_spec(&self, other: &FissionReactor) -> bool {
        &&& self.x == other.x
        &&& self.z == other.z
        &&& self.y == other.y
        &&& self.fuel_assemblies == other.fuel_assemblies
        &&& self.control_rods == other.control_rods
        &&& self.water_burn_rate == other.water_burn_rate
        &&& self.heat_capacity == other.heat_capacity
        &&& self.boil_efficiency_quarters == other.boil_efficiency_quarters
        &&& self.max_burn_rate == other.max_burn_rate
    }
}

/// Reactor dimensions the formulas accept.
pub open spec fn reactor_dimension_bounded(n: int) -> bool {
    0 <= n <= 18
}

/// Heat capacity of the casing of an `x` by `z` by `y` reactor.
pub open spec fn casing_heat(x: int, z: int, y: int) -> int {
    (x * z * 2 + x * (y - 2) * 2 + (z - 2) * (y - 2) * 2) * CASING_HEAT_CAPACITY
}

/// Fuel assemblies per layer of an `x` by `z` reactor: half its interior, rounded up.
pub open spec fn assembly_slice(x: int, z: int) -> int {
    ceil_div((x - 2) * (z - 2), 2)
}

/// Control rods of a cube of side `i`: half of an interior layer, rounded up.
pub open spec fn cube_rods(i: int) -> int {
    ceil_div((i - 2) * (i - 2), 2)
}

/// Assembly room of a cube of side `i`: a column over each rod position,
/// through the interior height.
pub open spec fn cube_area(i: int) -> int {
    cube_rods(i) * (i - 2)
}

/// The first cube side from `i` up to 17 whose room exceeds the fuel and its rods.
pub open spec fn cube_side_from(fuel: int, i: int) -> Option<int>
    decreases 18 - i,
{
    if i >= 18 {
        None
    } else if cube_area(i) > fuel + cube_rods(i) {
        Some(i)
    } else {
        cube_side_from(fuel, i + 1)
    }
}

/// The side of the smallest cube, from 4 to 17, that holds `fuel` assemblies.
pub open spec fn cube_side(fuel: int) -> Option<int> {
    cube_side_from(fuel, 4)
}

/// Control rods of the cube of side `i` with its length cut by one.
pub open spec fn narrowed_rods(i: int) -> int {
    ((i - 3) * (i - 2)) / 2
}

/// The cube of side `i` with its length cut by one still holds the fuel.
pub open spec fn narrowing_fits(fuel: int, i: int) -> bool {
    ((i - 3) * (i - 2) * (i - 2)) / 2 >= fuel + narrowed_rods(i)
}

/// The reactor of length `x` and width `i` with its height cut to `i - 1`
/// still holds the fuel, counted against the rods of the narrowed cube.
pub open spec fn lowering_fits(fuel: int, i: int, x: int) -> bool {
    ((x - 2) * (i - 3) * (i - 2)) / 2 >= fuel + narrowed_rods(i)
}

/// Assembly faces that touch one another when `fuel` assemblies stand in
/// columns over `rods` control rods.
pub open spec fn touching_faces(fuel: int, rods: int) -> int {
    let levels = fuel / rods;
    if levels <= 1 {
        0
    } else if levels == 2 {
        rods * 2
    } else {
        rods * 2 + rods * (levels - 2)
    }
}

/// Exposed faces of `fuel` assemblies over `rods` control rods.
pub open spec fn exposed_surface(fuel: int, rods: int) -> int {
    fuel * 6 - touching_faces(fuel, rods)
}

/// The reactor that sizing for `fuel` fuel assemblies gives: the smallest cube
/// that holds them, cut by one in length and then in height where it still does.
pub open spec fn reactor_for_fuel(fuel: int) -> Result<FissionReactor, SizingError> {
    match cube_side(fuel) {
        None => Err(SizingError::NoFeasibleConfiguration),
        Some(i) => {
            let narrowed = narrowing_fits(fuel, i);
            let x = if narrowed { i - 1 } else { i };
            let rods = if narrowed { narrowed_rods(i) } else { cube_rods(i) };
            let y = if lowering_fits(fuel, i, x) { i - 1 } else { i };
            if fuel == 0 || rods == 0 {
                Err(SizingError::NoFeasibleConfiguration)
            } else {
                let surface = exposed_surface(fuel, rods);
                Ok(
                    FissionReactor {
                        x: x as i32,
                        z: i as i32,
                        y: y as i32,
                        fuel_assemblies: fuel as i32,
                        control_rods: rods as i32,
                        water_burn_rate: (fuel * FUEL_ASSEMBLY_FLUID_BURN_RATE) as i32,
                        heat_capacity: casing_heat(x, i, y) as i32,
                        fuel_surface_area: surface as i32,
                        boil_efficiency_quarters: min_int(
                            surface / fuel,
                            FISSION_SURFACE_AREA_TARGET as int,
                        ) as i32,
                        max_burn_rate: fuel as i32,
                    },
                )
            }
        },
    }
}

/// The reactor that sizing by dimensions gives: as many assembly layers as
/// the height leaves room for, each half the interior, rounded up.
pub open spec fn reactor_for_dimensions(x: int, z: int, y: int) -> Result<FissionReactor, SizingError> {
    if !(3 <= x <= 18 && 3 <= z <= 18 && 4 <= y <= 18) {
        Err(SizingError::DimensionOutOfRange)
    } else {
        let slice = assembly_slice(x, z);
        Ok(
            FissionReactor {
                x: x as i32,
                z: z as i32,
                y: y as i32,
                fuel_assemblies: (slice * (y - 3)) as i32,
                control_rods: slice as i32,
                water_burn_rate: (slice * (y - 3) * FUEL_ASSEMBLY_FLUID_BURN_RATE) as i32,
                heat_capacity: 0,
                fuel_surface_area: 0,
                boil_efficiency_quarters: 0,
                max_burn_rate: 0,
            },
        )
    }
}

/// `a / d` with the remainder dropped toward zero.
pub open spec fn quotient_toward_zero(a: int, d: int) -> int {
    if a >= 0 {
        a / d
    } else {
        -((-a) / d)
    }
}

/// The divisors of `n` from 2 up to `k`, exclusive, in increasing order.
pub open spec fn proper_divisors_below(n: int, k: int) -> Seq<int>
    decreases k,
{
    if k <= 2 {
        Seq::empty()
    } else {
        let smaller = proper_divisors_below(n, k - 1);
        if n % (k - 1) == 0 {
            smaller.push(k - 1)
        } else {
            smaller
        }
    }
}

/// The divisors of `n` other than 1 and `n` itself, in increasing order.
pub open spec fn proper_divisors(n: int) -> Seq<int> {
    proper_divisors_below(n, n)
}

/// The footprint and height that `optimal_structure` derives from the middle
/// pair of proper divisors.
pub open spec fn structure_of(n: int) -> (int, int, int) {
    let d = proper_divisors(n);
    let middle = d.len() / 2 - 1;
    (d[middle] + 2, d[d.len() - 1 - middle] + 2, 5)
}

proof fn lemma_proper_divisors_below(n: int, k: int)
    ensures
        forall|i: int|
            0 <= i < proper_divisors_below(n, k).len() ==> 2 <= #[trigger] proper_divisors_below(
                n,
                k,
            )[i] < k && n % proper_divisors_below(n, k)[i] == 0,
    decreases k,
{
    if k > 2 {
        lemma_proper_divisors_below(n, k - 1);
        let smaller = proper_divisors_below(n, k - 1);
        if n % (k - 1) == 0 {
            assert forall|i: int| 0 <= i < smaller.len() + 1 implies 2 <= #[trigger] smaller.push(
                k - 1,
            )[i] < k && n % smaller.push(k - 1)[i] == 0 by {
                if i < smaller.len() {
                    assert(smaller.push(k - 1)[i] == smaller[i]);
                }
            }
        }
    }
}

proof fn lemma_proper_divisor_at_most_half(n: int, d: int)
    requires
        2 <= d < n,
        n % d == 0,
    ensures
        2 * d <= n,
{
    vstd::arithmetic::div_mod::lemma_fundamental_div_mod(n, d);
    let q = n / d;
    assert(n == d * q);
    if q <= 1 {
        assert(d * q <= d) by (nonlinear_arith)
            requires
                q <= 1,
                d >= 2,
        ;
    } else {
        assert(d * q >= 2 * d) by (nonlinear_arith)
            requires
                q >= 2,
                d >= 2,
        ;
    }
}

/// Relies on `factor::factor::factor`: the divisors of `n` other than 1 and `n`, in
/// increasing order (none when `n` is below 4).
#[verifier::external_body]
fn proper_factors(n: i64) -> (r: Vec<i64>)
    ensures
        r@.len() == proper_divisors(n as int).len(),
        forall|i: int| 0 <= i < r@.len() ==> r@[i] == #[trigger] proper_divisors(n as int)[i],
{
    factor::factor::factor(n)
}

proof fn lemma_cube_side_range(fuel: int, i: int)
    ensures
        cube_side_from(fuel, i) matches Some(s) ==> i <= s <= 17 && cube_area(s) > fuel + cube_rods(
            s,
        ),
    decreases 18 - i,
{
    if i < 18 {
        lemma_cube_side_range(fuel, i + 1);
    }
}

proof fn lemma_cube_side_from_monotonic(a: int, b: int, i: int)
    requires
        a <= b,
    ensures
        cube_side_from(b, i) matches Some(sb) ==> (cube_side_from(a, i) matches Some(sa) && sa
            <= sb),
    decreases 18 - i,
{
    if i < 18 {
        lemma_cube_side_from_monotonic(a, b, i + 1);
        lemma_cube_side_range(a, i + 1);
        lemma_cube_side_range(b, i + 1);
    }
}

/// A larger fuel load never gets a smaller cube. The cube side chosen before
/// any cut, which the reactor keeps as its width `z`, does not decrease as
/// the fuel load grows, and a load that some cube holds is never followed by
/// a smaller load that none holds.
pub proof fn lemma_fuel_sizing_monotonic(a: int, b: int)
    requires
        0 <= a <= b,
    ensures
        cube_side(b) matches Some(sb) ==> (cube_side(a) matches Some(sa) && sa <= sb),
        reactor_for_fuel(a) is Ok && reactor_for_fuel(b) is Ok ==> reactor_for_fuel(a)->Ok_0.z
            <= reactor_for_fuel(b)->Ok_0.z,
{
    lemma_cube_side_from_monotonic(a, b, 4);
    lemma_cube_side_range(a, 4);
    lemma_cube_side_range(b, 4);
}

/// A reactor shape for `fuel_assemblies` assemblies: length and width two
/// more than the middle pair of its proper divisors, and height 5.
pub fn optimal_structure(fuel_assemblies: i32) -> (r: (i32, i32, i32))
    requires
        proper_divisors(fuel_assemblies as int).len() >= 2,
    ensures
        r.0 == structure_of(fuel_assemblies as int).0,
        r.1 == structure_of(fuel_assemblies as int).1,
        r.2 == structure_of(fuel_assemblies as int).2,
{
    let ghost n = fuel_assemblies as int;
    let factors = proper_factors(fuel_assemblies as i64);
    let factor_length = factors.len();
    let middle = factor_length / 2 - 1;
    let first_value = factors[middle];
    let second_value = factors[factor_length - 1 - middle];
    proof {
        lemma_proper_divisors_below(n, n);
        let d = proper_divisors(n);
        assert(d[middle as int] == first_value);
        assert(d[factor_length - 1 - middle] == second_value);
        lemma_proper_divisor_at_most_half(n, first_value as int);
        lemma_proper_divisor_at_most_half(n, second_value as int);
    }
    let difference: i32 = 2;
    let x = first_value as i32 + 2;
    let z = second_value as i32 + 2;
    let y = difference + 1 + 2;
    (x, z, y)
}

/// Heat capacity of the casing of an `x` by `z` by `y` reactor.
pub fn heat_capacity(x: i32, z: i32, y: i32) -> (r: i32)
    requires
        reactor_dimension_bounded(x as int),
        reactor_dimension_bounded(z as int),
        reactor_dimension_bounded(y as int),
    ensures
        r == casing_heat(x as int, z as int, y as int),
{
    assert(0 <= x * z * 2 <= 648) by (nonlinear_arith)
        requires
            0 <= x <= 18,
            0 <= z <= 18,
    ;
    assert(-72 <= x * (y - 2) * 2 <= 576) by (nonlinear_arith)
        requires
            0 <= x <= 18,
            -2 <= y - 2 <= 16,
    ;
    assert(-64 <= (z - 2) * (y - 2) * 2 <= 512) by (nonlinear_arith)
        requires
            -2 <= z - 2 <= 16,
            -2 <= y - 2 <= 16,
    ;
    let top_bottom = x * z * 2;
    let front_back = x * (y - 2) * 2;
    let left_right = (z - 2) * (y - 2) * 2;
    (top_bottom + front_back + left_right) * CASING_HEAT_CAPACITY
}

/// Blocks inside the casing of an `x` by `z` by `y` reactor.
pub fn area_inside_reactor(x: i32, z: i32, y: i32) -> (r: i32)
    requires
        reactor_dimension_bounded(x as int),
        reactor_dimension_bounded(z as int),
        reactor_dimension_bounded(y as int),
    ensures
        r == (x - 2) * (z - 2) * (y - 2),
{
    assert(-32 <= (x - 2) * (z - 2) <= 256) by (nonlinear_arith)
        requires
            -2 <= x - 2 <= 16,
            -2 <= z - 2 <= 16,
    ;
    let layer = (x - 2) * (z - 2);
    assert(-512 <= layer * (y - 2) <= 4096) by (nonlinear_arith)
        requires
            -32 <= layer <= 256,
            -2 <= y - 2 <= 16,
    ;
    layer * (y - 2)
}

/// The side of the smallest cube, from 4 to 17, that holds `fuel` assemblies.
fn smallest_cube(fuel: i32) -> (r: Option<i32>)
    requires
        0 <= fuel,
    ensures
        match cube_side(fuel as int) {
            None => r is None,
            Some(i) => r == Some(i as i32) && 4 <= i <= 17 && cube_area(i) > fuel + cube_rods(i)
                && cube_area(i) <= 1695,
        },
{
    let mut i: i32 = 4;
    while i < 18
        invariant
            4 <= i <= 18,
            0 <= fuel,
            cube_side_from(fuel as int, i as int) == cube_side(fuel as int),
        decreases 18 - i,
    {
        let edge = i - 2;
        assert(4 <= edge * edge <= 225) by (nonlinear_arith)
            requires
                2 <= edge <= 15,
        ;
        let rods = (edge * edge + 1) / 2;
        assert(4 <= rods * edge <= 1695) by (nonlinear_arith)
            requires
                2 <= rods <= 113,
                2 <= edge <= 15,
        ;
        let area = rods * edge;
        if area as i64 > fuel as i64 + rods as i64 {
            return Some(i);
        }
        i = i + 1;
    }
    None
}

/// The smallest reactor for `fuel_assemblies` fuel assemblies: the smallest
/// cube that holds them, then cut by one in length and in height where it
/// still holds them.
pub fn turbine_based_fission_reactor(fuel_assemblies: i32) -> (r: Result<FissionReactor, SizingError>)
    requires
        0 <= fuel_assemblies,
    ensures
        r == reactor_for_fuel(fuel_assemblies as int),
        r matches Ok(t) ==> t.wf() && t.max_burn_rate == fuel_assemblies,
{
    let fuel = fuel_assemblies;
    let side = match smallest_cube(fuel) {
        None => {
            return Err(SizingError::NoFeasibleConfiguration);
        },
        Some(i) => i,
    };
    let edge = side - 2;
    assert(4 <= edge * edge <= 225) by (nonlinear_arith)
        requires
            2 <= edge <= 15,
    ;
    let cube_rods = (edge * edge + 1) / 2;
    assert(0 <= (side - 3) * edge <= 210) by (nonlinear_arith)
        requires
            2 <= edge <= 15,
            side - 3 == edge - 1,
    ;
    let narrowed_rods = ((side - 3) * edge) / 2;
    assert(0 <= (side - 3) * edge * edge <= 3150) by (nonlinear_arith)
        requires
            2 <= edge <= 15,
            side - 3 == edge - 1,
    ;
    let narrowed = ((side - 3) * edge * edge) / 2 >= fuel + narrowed_rods;
    let x = if narrowed { side - 1 } else { side };
    let rods = if narrowed { narrowed_rods } else { cube_rods };
    assert(0 <= (x - 2) * (side - 3) <= 225 && 0 <= (x - 2) * (side - 3) * edge <= 3375) by (nonlinear_arith)
        requires
            2 <= edge <= 15,
            side - 3 == edge - 1,
            edge - 1 <= x - 2 <= edge,
    ;
    let lowered = ((x - 2) * (side - 3) * edge) / 2 >= fuel + narrowed_rods;
    let y = if lowered { side - 1 } else { side };
    if fuel == 0 || rods == 0 {
        return Err(SizingError::NoFeasibleConfiguration);
    }
    let levels = fuel / rods;
    assert(0 <= rods * levels <= fuel) by (nonlinear_arith)
        requires
            rods > 0,
            fuel >= 0,
            levels == fuel / rods,
    ;
    assert(levels > 2 ==> 0 <= rods * (levels - 2) <= fuel) by (nonlinear_arith)
        requires
            rods > 0,
            0 <= rods * levels <= fuel,
    ;
    let touching = if levels <= 1 {
        0
    } else if levels == 2 {
        rods * 2
    } else {
        rods * 2 + rods * (levels - 2)
    };
    assert(rods * 2 + rods * (levels - 2) == rods * levels) by (nonlinear_arith);
    let surface = fuel * 6 - touching;
    let average = surface / fuel;
    let quarters = if average < FISSION_SURFACE_AREA_TARGET {
        average
    } else {
        FISSION_SURFACE_AREA_TARGET
    };
    Ok(
        FissionReactor {
            x,
            z: side,
            y,
            fuel_assemblies: fuel,
            control_rods: rods,
            water_burn_rate: fuel * FUEL_ASSEMBLY_FLUID_BURN_RATE,
            heat_capacity: heat_capacity(x, side, y),
            fuel_surface_area: surface,
            boil_efficiency_quarters: quarters,
            max_burn_rate: fuel,
        },
    )
}

/// Fuel assemblies and control rods of an `x` by `z` by `y` reactor.
fn fuel_assemblies_dimensions(x: i32, z: i32, y: i32) -> (r: (i32, i32))
    requires
        3 <= x <= 18,
        3 <= z <= 18,
        4 <= y <= 18,
    ensures
        r.0 == assembly_slice(x as int, z as int) * (y - 3),
        r.1 == assembly_slice(x as int, z as int),
        0 <= r.0 <= 1920,
{
    assert(1 <= (x - 2) * (z - 2) <= 256) by (nonlinear_arith)
        requires
            1 <= x - 2 <= 16,
            1 <= z - 2 <= 16,
    ;
    let ideal_area_slice = ((x - 2) * (z - 2) + 1) / 2;
    assert(0 <= ideal_area_slice * (y - 3) <= 1920) by (nonlinear_arith)
        requires
            1 <= ideal_area_slice <= 128,
            1 <= y - 3 <= 15,
    ;
    (ideal_area_slice * (y - 3), ideal_area_slice)
}

/// The reactor of the given dimensions: fuel assemblies in every layer the
/// height leaves room for, and the water they boil.
pub fn optimal_fission_with_dimensions(x: i32, z: i32, y: i32) -> (r: Result<FissionReactor, SizingError>)
    ensures
        r == reactor_for_dimensions(x as int, z as int, y as int),
        r matches Ok(t) ==> t.wf(),
{
    if x < 3 || 18 < x || z < 3 || 18 < z || y < 4 || 18 < y {
        return Err(SizingError::DimensionOutOfRange);
    }
    let (fuel_assemblies, control_rods) = fuel_assemblies_dimensions(x, z, y);
    Ok(
        FissionReactor {
            x,
            z,
            y,
            fuel_assemblies,
            control_rods,
            water_burn_rate: fuel_assemblies * FUEL_ASSEMBLY_FLUID_BURN_RATE,
            heat_capacity: 0,
            fuel_surface_area: 0,
            boil_efficiency_quarters: 0,
            max_burn_rate: 0,
        },
    )
}

/// Fuel assemblies whose boiling a turbine can take: the smaller of its flow
/// and its water output, divided by one assembly's burn rate.
pub fn optimal_fuel_assemblies(turbine: &Turbine) -> (r: i32)
    ensures
        r == quotient_toward_zero(
            min_int(turbine.max_flow as int, turbine.max_water_output as int),
            FUEL_ASSEMBLY_FLUID_BURN_RATE as int,
        ),
{
    let flow = if turbine.max_flow < turbine.max_water_output {
        turbine.max_flow
    } else {
        turbine.max_water_output
    } as i64;
    let rate = FUEL_ASSEMBLY_FLUID_BURN_RATE as i64;
    if flow >= 0 {
        (flow / rate) as i32
    } else {
        -((-flow) / rate) as i32
    }
}

impl FissionReactor {
    /// The one-line summary: "A 5x6x5 Fission Reactor".
    pub open spec fn summary(&self) -> Seq<char> {
        "A "@ + decimal_text(self.x as int) + "x"@ + decimal_text(self.z as int) + "x"@
            + decimal_text(self.y as int) + " Fission Reactor"@
    }

    /// The one-line summary of this reactor's dimensions.
    pub fn summarize(&self) -> (r: String)
        ensures
            r@ == self.summary(),
    {
        let mut text = String::from_str("A ");
        push_decimal(&mut text, self.x);
        text.append("x");
        push_decimal(&mut text, self.z);
        text.append("x");
        push_decimal(&mut text, self.y);
        text.append(" Fission Reactor");
        text
    }
}

} // verus!
