//! Turbine multiblocks: the record, the flow and energy formulas, and the
//! search for the best shaft height and vent count of a fixed footprint.

use crate::error::SizingError;
use crate::metric_prefix::{convert_to_prefix, drop_decimals, scale_of, Prefix};
use crate::text::{decimal_text, push_decimal};
use vstd::prelude::*;
use vstd::string::StringExecFns;

verus! {

/// Steam flow of one pressure disperser per block of lower volume (mB/t).
pub const GENERAL_DISPERSER_GAS_FLOW: i32 = 1280;
/// Steam flow of one vent (mB/t).
pub const GENERAL_VENT_GAS_FLOW: i32 = 32000;
/// Water output of one saturating condenser (mB/t).
pub const GENERAL_CONDENSER_RATE: i32 = 64000;
/// Joules produced per mB of steam at full blade rate.
pub const MAX_ENERGY_PER_STEAM: i32 = 10;
/// Blades that one electromagnetic coil can serve.
pub const TURBINE_BLADES_PER_COIL: i32 = 4;
/// Steam that one block of lower volume stores (mB).
pub const GAS_PER_TANK: i32 = 64000;
/// Energy that one block of lower volume stores (J).
pub const ENERGY_PER_TANK: i32 = 16000;
/// Blade count at which the blade rate reaches one; production values are
/// kept multiplied by it so that they stay exact integers.
pub const BLADE_RATE_DIVISOR: i32 = 28;

/// `a / d` rounded up, for a positive divisor.
pub open spec fn ceil_div(a: int, d: int) -> int {
    (a + d - 1) / d
}

pub open spec fn min_int(a: int, b: int) -> int {
    if a <= b { a } else { b }
}

/// Footprints a turbine may have.
pub open spec fn footprint_in_range(f: int) -> bool {
    5 <= f <= 17
}

/// Shaft heights the formulas accept: at least one block, below the tallest casing.
pub open spec fn shaft_in_range(s: int) -> bool {
    1 <= s <= 18
}

/// Blade or coil counts the formulas accept: no more than two per shaft block.
pub open spec fn part_count_in_range(n: int) -> bool {
    0 <= n <= 36
}

/// Heights the formulas accept: a real height, or 0 for "no height fits".
pub open spec fn height_bounded(h: int) -> bool {
    0 <= h <= 18
}

/// Pressure dispersers that fill the layer above the lower tank.
pub open spec fn dispersers(f: int) -> int {
    (f - 2) * (f - 2) - 1
}

/// Coils needed to serve `blades` blades: a quarter, rounded up, and at least two.
pub open spec fn coils_needed(blades: int) -> int {
    let c = ceil_div(blades, TURBINE_BLADES_PER_COIL as int);
    if c < 2 { 2 } else { c }
}

/// Blocks of the lower tank: the footprint's area times the shaft height.
pub open spec fn lower_volume(f: int, s: int) -> int {
    f * f * s
}

/// Flow the dispersers let through the lower tank.
pub open spec fn tank_flow(f: int, s: int) -> int {
    dispersers(f) * GENERAL_DISPERSER_GAS_FLOW * lower_volume(f, s)
}

/// Flow that `v` vents let out.
pub open spec fn vent_flow(v: int) -> int {
    v * GENERAL_VENT_GAS_FLOW
}

/// Flow through the turbine: the smaller of tank and vent flow.
pub open spec fn max_flow_rate(f: int, s: int, v: int) -> int {
    min_int(tank_flow(f, s), vent_flow(v))
}

/// Vents that fit on the roof and on the walls above the shaft.
pub open spec fn max_vents(f: int, h: int, s: int) -> int {
    let remaining = h - 2 - s;
    if remaining <= 0 {
        0
    } else {
        (f - 2) * (f - 2) + remaining * (f - 2) * 4
    }
}

/// Interior blocks above the shaft left for condensers once `coils` coils are placed.
pub open spec fn interior_room(f: int, h: int, s: int, coils: int) -> int {
    (h - 3 - s) * ((f - 2) * (f - 2)) - coils
}

/// Condensers that carry `flow`, bounded by the room left for them.
pub open spec fn optimal_condensers(f: int, h: int, s: int, coils: int, flow: int) -> int {
    min_int(ceil_div(flow, GENERAL_CONDENSER_RATE as int), interior_room(f, h, s, coils))
}

/// The blade rate times `BLADE_RATE_DIVISOR`: blades, or what the coils serve if fewer.
pub open spec fn blade_rate_scaled(blades: int, coils: int) -> int {
    min_int(blades, coils * TURBINE_BLADES_PER_COIL)
}

/// Energy production per tick times `BLADE_RATE_DIVISOR`:
/// energy per steam times blade rate times flow.
pub open spec fn production(blades: int, coils: int, f: int, s: int, v: int) -> int {
    MAX_ENERGY_PER_STEAM * blade_rate_scaled(blades, coils) * max_flow_rate(f, s, v)
}

/// A scaled production value rounded to the nearest whole unit, halves up.
pub open spec fn rounded(p: int) -> int {
    (p + BLADE_RATE_DIVISOR / 2) / (BLADE_RATE_DIVISOR as int)
}

/// Pressure dispersers of a turbine of footprint `x_z`.
pub fn calc_pressure_dispersers(x_z: i32) -> (r: i32)
    requires
        footprint_in_range(x_z as int),
    ensures
        r == dispersers(x_z as int),
        r == (x_z - 2) * (x_z - 2) - 1,
{
    let side = x_z - 2;
    assert(9 <= side * side <= 225) by (nonlinear_arith)
        requires
            3 <= side <= 15,
    ;
    side * side - 1
}

/// Coils needed for `num_blades` blades.
pub fn calc_coils_needed(num_blades: i32) -> (r: i32)
    ensures
        r == coils_needed(num_blades as int),
        r == if ceil_div(num_blades as int, 4) < 2 { 2 } else { ceil_div(num_blades as int, 4) },
{
    if num_blades <= 8 {
        2
    } else {
        let q = num_blades / 4;
        if num_blades % 4 == 0 {
            q
        } else {
            q + 1
        }
    }
}


/// A turbine: its dimensions, block counts, and what it carries and produces.
///
/// `max_production` is the energy produced per tick at the scale
/// `energy_si_prefix`, multiplied by `BLADE_RATE_DIVISOR` so that it is exact.
#[derive(Debug, Clone, Copy)]
pub struct Turbine {
    pub x_z: i32,
    pub y: i32,
    pub vents: i32,
    pub dispersers: i32,
    pub condensers: i32,
    pub shaft_height: i32,
    pub blades: i32,
    pub coils: i32,
    pub capacity: i32,
    pub max_flow: i32,
    pub tank_volume: i32,
    pub max_production: u64,
    pub max_water_output: i32,
    pub energy_si_prefix: Prefix,
}

/// Whole energy units of a scaled production value measured at `from`, expressed at `to`.
pub open spec fn whole_production(p: u64, from: Prefix, to: Prefix) -> int {
    (p * scale_of(from)) / (BLADE_RATE_DIVISOR * scale_of(to))
}

impl Turbine {
    /// The block counts that depend on others agree with them, and the
    /// footprint is odd so that the shaft sits on the center.
    pub open spec fn wf(&self) -> bool {
        &&& footprint_in_range(self.x_z as int)
        &&& self.x_z % 2 == 1
        &&& self.blades == 2 * self.shaft_height
        &&& self.coils == coils_needed(self.blades as int)
        &&& self.dispersers == dispersers(self.x_z as int)
    }
}

impl Turbine {
    /// The record with every count zero.
    pub open spec fn blank() -> Turbine {
        Turbine {
            x_z: 0,
            y: 0,
            vents: 0,
            dispersers: 0,
            condensers: 0,
            shaft_height: 0,
            blades: 0,
            coils: 0,
            capacity: 0,
            max_flow: 0,
            tank_volume: 0,
            max_production: 0,
            max_water_output: 0,
            energy_si_prefix: Prefix::Base,
        }
    }
}

impl Default for Turbine {
    fn default() -> (r: Turbine)
        ensures
            r == Turbine::blank(),
    {
        Turbine {
            x_z: 0,
            y: 0,
            vents: 0,
            dispersers: 0,
            condensers: 0,
            shaft_height: 0,
            blades: 0,
            coils: 0,
            capacity: 0,
            max_flow: 0,
            tank_volume: 0,
            max_production: 0,
            max_water_output: 0,
            energy_si_prefix: Prefix::Base,
        }
    }
}

/// Two turbines are equal when every count and flow agrees and their energy
/// productions agree in whole units once brought to the same scale.
impl PartialEq for Turbine {
    fn eq(&self, other: &Turbine) -> (r: bool) {
        let (num, den) = convert_to_prefix(
            self.max_production,
            BLADE_RATE_DIVISOR as u64,
            self.energy_si_prefix,
            other.energy_si_prefix,
        );
        self.x_z == other.x_z && self.y == other.y && self.vents == other.vents
            && self.dispersers == other.dispersers && self.condensers == other.condensers
            && self.shaft_height == other.shaft_height && self.blades == other.blades
            && self.coils == other.coils && self.capacity == other.capacity
            && self.max_flow == other.max_flow && self.tank_volume == other.tank_volume
            && drop_decimals(num, den) == drop_decimals(
            other.max_production as u128,
            BLADE_RATE_DIVISOR as u128,
        ) && self.max_water_output == other.max_water_output
    }
}

impl vstd::std_specs::cmp::PartialEqSpecImpl for Turbine {
    open spec fn obeys_eq_spec() -> bool {
        true
    }

    open spec fn eq_spec(&self, other: &Turbine) -> bool {
        &&& self.x_z == other.x_z
        &&& self.y == other.y
        &&& self.vents == other.vents
        &&& self.dispersers == other.dispersers
        &&& self.condensers == other.condensers
        &&& self.shaft_height == other.shaft_height
        &&& self.blades == other.blades
        &&& self.coils == other.coils
        &&& self.capacity == other.capacity
        &&& self.max_flow == other.max_flow
        &&& self.tank_volume == other.tank_volume
        &&& whole_production(self.max_production, self.energy_si_prefix, other.energy_si_prefix)
            == (other.max_production as int) / (BLADE_RATE_DIVISOR as int)
        &&& self.max_water_output == other.max_water_output
    }
}

/// The turbine of footprint `f`, height `h`, shaft height `s` and `v` vents,
/// with every other count and quantity derived from those.
pub open spec fn assembled(f: int, h: int, s: int, v: int) -> Turbine {
    let coils = coils_needed(2 * s);
    let flow = max_flow_rate(f, s, v);
    let condensers = optimal_condensers(f, h, s, coils, flow);
    Turbine {
        x_z: f as i32,
        y: h as i32,
        vents: v as i32,
        dispersers: dispersers(f) as i32,
        condensers: condensers as i32,
        shaft_height: s as i32,
        blades: (2 * s) as i32,
        coils: coils as i32,
        capacity: (lower_volume(f, s) * GAS_PER_TANK) as i32,
        max_flow: flow as i32,
        tank_volume: lower_volume(f, s) as i32,
        max_production: production(2 * s, coils, f, s, v) as u64,
        max_water_output: (condensers * GENERAL_CONDENSER_RATE) as i32,
        energy_si_prefix: Prefix::Base,
    }
}

/// Among vent counts 1 to `n`, the first that gives the highest production
/// while its condensers still fit, with that production; (0, 0) when none
/// produces anything.
pub open spec fn best_vent_upto(f: int, h: int, s: int, blades: int, coils: int, n: int) -> (int, int)
    decreases n,
{
    if n <= 0 {
        (0, 0)
    } else {
        let prev = best_vent_upto(f, h, s, blades, coils, n - 1);
        if optimal_condensers(f, h, s, coils, max_flow_rate(f, s, n)) < 0 {
            prev
        } else if production(blades, coils, f, s, n) > prev.1 {
            (n, production(blades, coils, f, s, n))
        } else {
            prev
        }
    }
}

/// The best vent count of a turbine and its production, over every vent count that fits.
pub open spec fn best_vent(f: int, h: int, s: int, blades: int, coils: int) -> (int, int) {
    best_vent_upto(f, h, s, blades, coils, max_vents(f, h, s))
}

/// Height `y` leaves room above the shaft for the coils and condensers, and
/// wall and roof room for the vents.
pub open spec fn height_fits(s: int, coils: int, condensers: int, f: int, vents: int, y: int) -> bool {
    let upper = y - s - 2;
    &&& (upper - 1) * ((f - 2) * (f - 2)) >= coils + condensers
    &&& upper * (f - 2) * 4 + (f - 2) * (f - 2) >= vents
}

/// The first height from `y` up to 17 that fits, or 0 when none does.
pub open spec fn min_height_from(s: int, coils: int, condensers: int, f: int, vents: int, y: int) -> int
    decreases 18 - y,
{
    if y >= 18 {
        0
    } else if height_fits(s, coils, condensers, f, vents, y) {
        y
    } else {
        min_height_from(s, coils, condensers, f, vents, y + 1)
    }
}

/// The lowest height, from three above the shaft, that fits; 0 when none up to 17 does.
pub open spec fn lowest_height(s: int, coils: int, condensers: int, f: int, vents: int) -> int {
    min_height_from(s, coils, condensers, f, vents, s + 3)
}

/// Shaft heights of a turbine of height `h` run from 1 up to this bound, exclusive.
pub open spec fn shaft_limit(h: int) -> int {
    min_int(2 * h - 5, 14)
}

/// The best vent count, and its production, of the shaft height `s`.
pub open spec fn shaft_best_vent(f: int, h: int, s: int) -> (int, int) {
    best_vent(f, h, s, 2 * s, coils_needed(2 * s))
}

/// Whether the best configuration of shaft height `s` still has room for a
/// condenser, the room being reckoned with one coil per blade.
pub open spec fn shaft_kept(f: int, h: int, s: int) -> bool {
    optimal_condensers(f, h, s, 2 * s, max_flow_rate(f, s, shaft_best_vent(f, h, s).0)) > 0
}

/// Among the kept shaft heights 1 to `n`, the first whose production, rounded
/// to whole units, is highest.
pub open spec fn best_shaft_upto(f: int, h: int, n: int) -> Option<int>
    decreases n,
{
    if n < 1 {
        None
    } else {
        let prev = best_shaft_upto(f, h, n - 1);
        if !shaft_kept(f, h, n) {
            prev
        } else {
            match prev {
                None => Some(n),
                Some(b) => if rounded(shaft_best_vent(f, h, n).1) > rounded(shaft_best_vent(f, h, b).1) {
                    Some(n)
                } else {
                    prev
                },
            }
        }
    }
}

/// The best shaft height of a turbine of footprint `f` and height `h`.
pub open spec fn best_shaft(f: int, h: int) -> Option<int> {
    best_shaft_upto(f, h, shaft_limit(h) - 1)
}

/// The turbine that sizing by footprint `f` and height `h` gives.
pub open spec fn turbine_for_dimensions(f: int, h: int) -> Result<Turbine, SizingError> {
    if !(5 <= f <= 17 && 5 <= h <= 18) {
        Err(SizingError::DimensionOutOfRange)
    } else if f % 2 == 0 {
        Err(SizingError::EvenFootprintRejected)
    } else {
        match best_shaft(f, h) {
            None => Err(SizingError::NoFeasibleConfiguration),
            Some(s) => Ok(assembled(f, h, s, shaft_best_vent(f, h, s).0)),
        }
    }
}

/// Vents needed to let out a flow of `fr`.
pub open spec fn vent_target(fr: int) -> int {
    ceil_div(fr, GENERAL_VENT_GAS_FLOW as int)
}

/// Condensers needed to return a flow of `fr`.
pub open spec fn required_condensers(fr: int) -> int {
    ceil_div(fr, GENERAL_CONDENSER_RATE as int)
}

/// The candidate of footprint `f` and shaft height `s` for a flow of `fr`:
/// vents at the target count, and the lowest height that fits them.
pub open spec fn flow_candidate(f: int, s: int, fr: int) -> Turbine {
    let v = vent_target(fr);
    assembled(f, lowest_height(s, coils_needed(2 * s), 0, f, v), s, v)
}

/// The candidates of footprint `f`, by shaft height.
pub open spec fn footprint_candidates(f: int, fr: int) -> Seq<Turbine> {
    Seq::new((shaft_limit(f) - 1) as nat, |i: int| flow_candidate(f, i + 1, fr))
}

/// The candidates of the odd footprints from 5 up to `f`, exclusive, by
/// footprint and then by shaft height.
pub open spec fn candidates_below(f: int, fr: int) -> Seq<Turbine>
    decreases f,
{
    if f <= 5 {
        Seq::empty()
    } else {
        candidates_below(f - 2, fr) + footprint_candidates(f - 2, fr)
    }
}

/// Every candidate for a flow of `fr`, over the odd footprints 5 to 17.
pub open spec fn flow_candidates(fr: int) -> Seq<Turbine> {
    candidates_below(19, fr)
}

/// The candidate carries and returns the whole flow, has the condensers it
/// needs, and no more vents pay off than it has.
pub open spec fn serves_flow(t: Turbine, fr: int) -> bool {
    &&& min_int(t.max_flow as int, t.max_water_output as int) >= fr
    &&& t.condensers >= required_condensers(fr)
    &&& best_vent(t.x_z as int, t.y as int, t.shaft_height as int, t.blades as int, t.coils as int).0
        <= t.vents
}

/// Some turbine of `others` is smaller than `t` and produces strictly more.
pub open spec fn dominated(t: Turbine, others: Seq<Turbine>) -> bool {
    exists|j: int|
        0 <= j < others.len() && #[trigger] others[j].x_z < t.x_z && t.max_production
            < others[j].max_production
}

/// The turbines of `c` that no smaller turbine of `c` outproduces, in order.
pub open spec fn undominated(c: Seq<Turbine>) -> Seq<Turbine> {
    c.filter(|t: Turbine| !dominated(t, c))
}

/// Among the first `n` turbines of `c`, the index of the first whose
/// production, rounded to whole units, is highest.
pub open spec fn best_index_upto(c: Seq<Turbine>, n: int) -> Option<int>
    decreases n,
{
    if n <= 0 {
        None
    } else {
        let prev = best_index_upto(c, n - 1);
        match prev {
            None => Some(n - 1),
            Some(b) => if rounded(c[n - 1].max_production as int) > rounded(
                c[b].max_production as int,
            ) {
                Some(n - 1)
            } else {
                prev
            },
        }
    }
}

/// The first turbine of `c` whose rounded production is highest.
pub open spec fn first_best(c: Seq<Turbine>) -> Option<Turbine> {
    match best_index_upto(c, c.len() as int) {
        None => None,
        Some(i) => Some(c[i]),
    }
}

/// The turbine that sizing for a flow of `fr` gives: the best of the
/// candidates that serve the flow and that no smaller one outproduces.
pub open spec fn turbine_for_flow(fr: int) -> Result<Turbine, SizingError> {
    match first_best(undominated(flow_candidates(fr).filter(|t: Turbine| serves_flow(t, fr)))) {
        None => Err(SizingError::NoFeasibleConfiguration),
        Some(t) => Ok(t),
    }
}

/// The fields that the turbine formulas read lie in their ranges.
pub open spec fn formula_ranges(t: Turbine) -> bool {
    &&& footprint_in_range(t.x_z as int)
    &&& height_bounded(t.y as int)
    &&& shaft_in_range(t.shaft_height as int)
    &&& part_count_in_range(t.blades as int)
    &&& part_count_in_range(t.coils as int)
}

proof fn lemma_volume_bounds(f: int, s: int)
    requires
        footprint_in_range(f),
        shaft_in_range(s),
    ensures
        9 <= (f - 2) * (f - 2) <= 225,
        8 <= dispersers(f) <= 224,
        25 <= f * f <= 289,
        25 <= lower_volume(f, s) <= 5202,
        0 < tank_flow(f, s) <= 1_491_517_440,
{
    assert(9 <= (f - 2) * (f - 2) <= 225) by (nonlinear_arith)
        requires
            5 <= f <= 17,
    ;
    assert(25 <= f * f <= 289) by (nonlinear_arith)
        requires
            5 <= f <= 17,
    ;
    let ff = f * f;
    let d = dispersers(f);
    assert(25 <= ff * s <= 5202) by (nonlinear_arith)
        requires
            25 <= ff <= 289,
            1 <= s <= 18,
    ;
    let vol = ff * s;
    assert(0 < d * 1280 * vol <= 1_491_517_440) by (nonlinear_arith)
        requires
            8 <= d <= 224,
            25 <= vol <= 5202,
    ;
}

proof fn lemma_assembled_wf(f: int, h: int, s: int, v: int)
    requires
        footprint_in_range(f),
        f % 2 == 1,
        shaft_in_range(s),
    ensures
        assembled(f, h, s, v).wf(),
{
    lemma_volume_bounds(f, s);
}

proof fn lemma_assembled_ranges(f: int, h: int, s: int, v: int)
    requires
        footprint_in_range(f),
        height_bounded(h),
        shaft_in_range(s),
    ensures
        formula_ranges(assembled(f, h, s, v)),
        assembled(f, h, s, v).x_z == f,
        assembled(f, h, s, v).y == h,
        assembled(f, h, s, v).shaft_height == s,
        assembled(f, h, s, v).blades == 2 * s,
        assembled(f, h, s, v).coils == coils_needed(2 * s),
{
}

/// Blocks in the lower tank of a turbine.
pub fn calc_lower_volume(x_z: i32, shaft_height: i32) -> (r: i32)
    requires
        footprint_in_range(x_z as int),
        shaft_in_range(shaft_height as int),
    ensures
        r == lower_volume(x_z as int, shaft_height as int),
{
    proof {
        lemma_volume_bounds(x_z as int, shaft_height as int);
    }
    x_z * x_z * shaft_height
}

/// Flow that the dispersers let through the lower tank.
pub fn calc_tank_flow_rate(x_z: i32, shaft_height: i32) -> (r: i32)
    requires
        footprint_in_range(x_z as int),
        shaft_in_range(shaft_height as int),
    ensures
        r == tank_flow(x_z as int, shaft_height as int),
        r > 0,
{
    proof {
        lemma_volume_bounds(x_z as int, shaft_height as int);
    }
    calc_pressure_dispersers(x_z) * GENERAL_DISPERSER_GAS_FLOW * calc_lower_volume(x_z, shaft_height)
}

/// Flow that `vent_count` vents let out.
pub fn calc_vent_flow_rate(vent_count: i32) -> (r: i64)
    ensures
        r == vent_flow(vent_count as int),
{
    let per_vent = GENERAL_VENT_GAS_FLOW as i64;
    assert(-70_000_000_000_000 <= vent_count * per_vent <= 70_000_000_000_000) by (nonlinear_arith)
        requires
            i32::MIN <= vent_count <= i32::MAX,
            per_vent == 32000,
    ;
    vent_count as i64 * per_vent
}

/// Flow through a turbine: the smaller of what the tank and the vents carry.
pub fn calc_max_flow_rate(x_z: i32, shaft_height: i32, vent_count: i32) -> (r: i32)
    requires
        footprint_in_range(x_z as int),
        shaft_in_range(shaft_height as int),
        0 <= vent_count,
    ensures
        r == max_flow_rate(x_z as int, shaft_height as int, vent_count as int),
        0 <= r <= tank_flow(x_z as int, shaft_height as int),
{
    let tank_flow = calc_tank_flow_rate(x_z, shaft_height);
    let vent_flow = calc_vent_flow_rate(vent_count);
    if (tank_flow as i64) <= vent_flow {
        tank_flow
    } else {
        vent_flow as i32
    }
}

/// Vents that fit on the roof and on the walls above the shaft.
pub fn calc_max_vents(x_z: i32, y: i32, shaft_height: i32) -> (r: i32)
    requires
        footprint_in_range(x_z as int),
        height_bounded(y as int),
        shaft_in_range(shaft_height as int),
    ensures
        r == max_vents(x_z as int, y as int, shaft_height as int),
        0 <= r <= 14_625,
{
    let remaining_height = y - 2 - shaft_height;
    if remaining_height <= 0 {
        return 0;
    }
    let side = x_z - 2;
    proof {
        lemma_volume_bounds(x_z as int, shaft_height as int);
        assert(0 < remaining_height * side * 4 <= 14_400) by (nonlinear_arith)
            requires
                1 <= remaining_height <= 16,
                3 <= side <= 15,
        ;
    }
    let top_vents = side * side;
    let side_vents = remaining_height * side * 4;
    top_vents + side_vents
}

/// Energy a turbine stores: lower volume times the energy per block.
pub fn energy_capacity(x_z: i32, shaft_height: i32) -> (r: i32)
    requires
        footprint_in_range(x_z as int),
        shaft_in_range(shaft_height as int),
    ensures
        r == lower_volume(x_z as int, shaft_height as int) * ENERGY_PER_TANK,
{
    proof {
        lemma_volume_bounds(x_z as int, shaft_height as int);
    }
    calc_lower_volume(x_z, shaft_height) * ENERGY_PER_TANK
}

/// Steam a turbine stores: lower volume times the gas per block.
pub fn steam_capacity(x_z: i32, shaft_height: i32) -> (r: i32)
    requires
        footprint_in_range(x_z as int),
        shaft_in_range(shaft_height as int),
    ensures
        r == lower_volume(x_z as int, shaft_height as int) * GAS_PER_TANK,
{
    proof {
        lemma_volume_bounds(x_z as int, shaft_height as int);
    }
    calc_lower_volume(x_z, shaft_height) * GAS_PER_TANK
}

/// The blade rate times `BLADE_RATE_DIVISOR`.
pub fn blade_rate(blades: i32, coils: i32) -> (r: i32)
    requires
        part_count_in_range(blades as int),
        part_count_in_range(coils as int),
    ensures
        r == blade_rate_scaled(blades as int, coils as int),
        0 <= r <= 36,
{
    let served = coils * TURBINE_BLADES_PER_COIL;
    if blades < served {
        blades
    } else {
        served
    }
}

/// Energy production per tick of a turbine, times `BLADE_RATE_DIVISOR`.
pub fn max_energy_prod(blades: i32, coils: i32, x_z: i32, shaft_height: i32, vents: i32) -> (r: u64)
    requires
        part_count_in_range(blades as int),
        part_count_in_range(coils as int),
        footprint_in_range(x_z as int),
        shaft_in_range(shaft_height as int),
        0 <= vents,
    ensures
        r == production(blades as int, coils as int, x_z as int, shaft_height as int, vents as int),
{
    let rate = blade_rate(blades, coils) as u64;
    let flow = calc_max_flow_rate(x_z, shaft_height, vents) as u64;
    proof {
        lemma_volume_bounds(x_z as int, shaft_height as int);
        assert(rate * flow <= 36 * 1_491_517_440) by (nonlinear_arith)
            requires
                rate <= 36,
                flow <= 1_491_517_440,
        ;
        assert(MAX_ENERGY_PER_STEAM * (rate * flow) == MAX_ENERGY_PER_STEAM * rate * flow) by (nonlinear_arith);
    }
    MAX_ENERGY_PER_STEAM as u64 * (rate * flow)
}

/// Condensers that carry `max_flow`, bounded by the room left above the shaft.
pub fn calc_optimal_condensers(x_z: i32, y: i32, shaft_height: i32, coils: i32, max_flow: i32) -> (r: i32)
    requires
        footprint_in_range(x_z as int),
        height_bounded(y as int),
        shaft_in_range(shaft_height as int),
        part_count_in_range(coils as int),
        0 <= max_flow,
    ensures
        r == optimal_condensers(x_z as int, y as int, shaft_height as int, coils as int, max_flow as int),
        -4761 <= r <= 33_554,
{
    let remaining_y = (y - 3) - shaft_height;
    let side = x_z - 2;
    proof {
        lemma_volume_bounds(x_z as int, shaft_height as int);
        assert(-4725 <= remaining_y * (side * side) <= 3150) by (nonlinear_arith)
            requires
                -21 <= remaining_y <= 14,
                9 <= side * side <= 225,
        ;
    }
    let available_space = remaining_y * (side * side) - coils;
    let needed = max_flow / GENERAL_CONDENSER_RATE + if max_flow % GENERAL_CONDENSER_RATE == 0 { 0 } else { 1 };
    if needed <= available_space {
        needed
    } else {
        available_space
    }
}

/// Water that `condensers` condensers return per tick.
pub fn max_water_output(condensers: i32) -> (r: i32)
    requires
        i32::MIN <= condensers * GENERAL_CONDENSER_RATE <= i32::MAX,
    ensures
        r == condensers * GENERAL_CONDENSER_RATE,
{
    condensers * GENERAL_CONDENSER_RATE
}


impl Turbine {
    /// The turbine of footprint `x_z`, height `y`, the given shaft height and
    /// vent count, with every other field computed from those.
    pub fn assemble(x_z: i32, y: i32, shaft_height: i32, vents: i32) -> (r: Turbine)
        requires
            footprint_in_range(x_z as int),
            height_bounded(y as int),
            shaft_in_range(shaft_height as int),
            0 <= vents,
        ensures
            r == assembled(x_z as int, y as int, shaft_height as int, vents as int),
    {
        let blades = shaft_height * 2;
        let coils = calc_coils_needed(blades);
        let max_flow = calc_max_flow_rate(x_z, shaft_height, vents);
        let condensers = calc_optimal_condensers(x_z, y, shaft_height, coils, max_flow);
        Turbine {
            x_z,
            y,
            vents,
            dispersers: calc_pressure_dispersers(x_z),
            condensers,
            shaft_height,
            blades,
            coils,
            capacity: steam_capacity(x_z, shaft_height),
            max_flow,
            tank_volume: calc_lower_volume(x_z, shaft_height),
            max_production: max_energy_prod(blades, coils, x_z, shaft_height, vents),
            max_water_output: max_water_output(condensers),
            energy_si_prefix: Prefix::Base,
        }
    }
}

/// A scaled production value rounded to whole units, halves up.
pub fn round_production(p: u64) -> (r: u64)
    ensures
        r == rounded(p as int),
{
    let whole = p / 28;
    let rest = p % 28;
    if rest >= 14 {
        whole + 1
    } else {
        whole
    }
}

/// The first vent count that gives the highest production while its
/// condensers fit, and that production; (0, 0) when none produces anything.
pub fn best_vent_count(turbine: &Turbine) -> (r: (i32, u64))
    requires
        footprint_in_range(turbine.x_z as int),
        height_bounded(turbine.y as int),
        shaft_in_range(turbine.shaft_height as int),
        part_count_in_range(turbine.blades as int),
        part_count_in_range(turbine.coils as int),
    ensures
        r.0 == best_vent(
            turbine.x_z as int,
            turbine.y as int,
            turbine.shaft_height as int,
            turbine.blades as int,
            turbine.coils as int,
        ).0,
        r.1 == best_vent(
            turbine.x_z as int,
            turbine.y as int,
            turbine.shaft_height as int,
            turbine.blades as int,
            turbine.coils as int,
        ).1,
        0 <= r.0 <= max_vents(turbine.x_z as int, turbine.y as int, turbine.shaft_height as int),
{
    let x_z = turbine.x_z;
    let y = turbine.y;
    let shaft_height = turbine.shaft_height;
    let blades = turbine.blades;
    let coils = turbine.coils;
    let ghost f = x_z as int;
    let ghost h = y as int;
    let ghost s = shaft_height as int;
    let last = calc_max_vents(x_z, y, shaft_height);
    let mut best_vent_count: i32 = 0;
    let mut best_energy_production: u64 = 0;
    let mut vent_count: i32 = 1;
    while vent_count <= last
        invariant
            footprint_in_range(f),
            height_bounded(h),
            shaft_in_range(s),
            part_count_in_range(blades as int),
            part_count_in_range(coils as int),
            x_z == f,
            y == h,
            shaft_height == s,
            last == max_vents(f, h, s),
            0 <= last <= 14_625,
            1 <= vent_count <= last + 1,
            0 <= best_vent_count < vent_count,
            best_vent_count == best_vent_upto(f, h, s, blades as int, coils as int, vent_count - 1).0,
            best_energy_production == best_vent_upto(
                f,
                h,
                s,
                blades as int,
                coils as int,
                vent_count - 1,
            ).1,
        decreases last + 1 - vent_count,
    {
        let max_flow = calc_max_flow_rate(x_z, shaft_height, vent_count);
        let condensers = calc_optimal_condensers(x_z, y, shaft_height, coils, max_flow);
        if condensers >= 0 {
            let energy = max_energy_prod(blades, coils, x_z, shaft_height, vent_count);
            if energy > best_energy_production {
                best_energy_production = energy;
                best_vent_count = vent_count;
            }
        }
        vent_count = vent_count + 1;
    }
    (best_vent_count, best_energy_production)
}

/// The lowest height, from three above the shaft up to 17, with room for the
/// coils, the condensers and the vents; 0 when none has.
pub fn min_height(shaft_height: i32, coils: i32, condensers: i32, x_z: i32, vents: i32) -> (r: i32)
    requires
        footprint_in_range(x_z as int),
        shaft_in_range(shaft_height as int),
    ensures
        r == lowest_height(shaft_height as int, coils as int, condensers as int, x_z as int, vents as int),
        r == 0 || (shaft_height + 3 <= r <= 17),
{
    let ghost f = x_z as int;
    let ghost s = shaft_height as int;
    let side = x_z - 2;
    let needed = coils as i64 + condensers as i64;
    let mut y: i32 = shaft_height + 3;
    while y < 18
        invariant
            footprint_in_range(f),
            shaft_in_range(s),
            x_z == f,
            shaft_height == s,
            side == f - 2,
            needed == coils + condensers,
            s + 3 <= y <= 21,
            min_height_from(s, coils as int, condensers as int, f, vents as int, y as int) == lowest_height(
                s,
                coils as int,
                condensers as int,
                f,
                vents as int,
            ),
        decreases 18 - y,
    {
        let upper_y = y - shaft_height - 2;
        proof {
            lemma_volume_bounds(f, s);
            assert(-225 <= (upper_y - 1) * (side * side) <= 3150) by (nonlinear_arith)
                requires
                    0 <= upper_y <= 15,
                    9 <= side * side <= 225,
            ;
            assert(0 <= upper_y * side * 4 <= 900) by (nonlinear_arith)
                requires
                    0 <= upper_y <= 15,
                    3 <= side <= 15,
            ;
        }
        let internal_volume = (upper_y - 1) * (side * side);
        let side_area = upper_y * side * 4;
        let top_area = side * side;
        if internal_volume as i64 >= needed && side_area + top_area >= vents {
            return y;
        }
        y = y + 1;
    }
    0
}

/// The best turbine of footprint `x_z` and height `y`: the shaft height and
/// vent count that give the highest production.
pub fn optimal_turbine_with_dimensions(x_z: i32, y: i32) -> (r: Result<Turbine, SizingError>)
    ensures
        r == turbine_for_dimensions(x_z as int, y as int),
        r matches Ok(t) ==> t.wf(),
{
    if x_z < 5 || 17 < x_z || y < 5 || 18 < y {
        return Err(SizingError::DimensionOutOfRange);
    }
    if x_z % 2 == 0 {
        return Err(SizingError::EvenFootprintRejected);
    }
    let ghost f = x_z as int;
    let ghost h = y as int;
    let limit = if 2 * y - 5 < 14 { 2 * y - 5 } else { 14 };
    let mut best: Option<(i32, i32, u64)> = None;
    let mut shaft_height: i32 = 1;
    while shaft_height < limit
        invariant
            5 <= f <= 17,
            5 <= h <= 18,
            x_z == f,
            y == h,
            limit == shaft_limit(h),
            1 <= shaft_height <= limit,
            match best_shaft_upto(f, h, shaft_height - 1) {
                None => best is None,
                Some(b) => best == Some(
                    (b as i32, shaft_best_vent(f, h, b).0 as i32, shaft_best_vent(f, h, b).1 as u64),
                ) && 1 <= b < shaft_height && 0 <= shaft_best_vent(f, h, b).0
                    && shaft_best_vent(f, h, b).0 == (shaft_best_vent(f, h, b).0 as i32)
                    && shaft_best_vent(f, h, b).1 == (shaft_best_vent(f, h, b).1 as u64),
            },
        decreases limit - shaft_height,
    {
        let blades = shaft_height * 2;
        let coils = calc_coils_needed(blades);
        let probe = Turbine {
            x_z,
            y,
            vents: 0,
            dispersers: 0,
            condensers: 0,
            shaft_height,
            blades,
            coils,
            capacity: 0,
            max_flow: 0,
            tank_volume: 0,
            max_production: 0,
            max_water_output: 0,
            energy_si_prefix: Prefix::Base,
        };
        let (vents, energy) = best_vent_count(&probe);
        let max_flow = calc_max_flow_rate(x_z, shaft_height, vents);
        let condensers = calc_optimal_condensers(x_z, y, shaft_height, blades, max_flow);
        if condensers > 0 {
            match best {
                None => {
                    best = Some((shaft_height, vents, energy));
                },
                Some((_, _, best_energy)) => {
                    if round_production(energy) > round_production(best_energy) {
                        best = Some((shaft_height, vents, energy));
                    }
                },
            }
        }
        shaft_height = shaft_height + 1;
    }
    match best {
        None => Err(SizingError::NoFeasibleConfiguration),
        Some((shaft_height, vents, _)) => {
            proof {
                lemma_assembled_wf(f, h, shaft_height as int, vents as int);
            }
            Ok(Turbine::assemble(x_z, y, shaft_height, vents))
        },
    }
}

/// Every candidate for a flow of `water_burn_rate`: each odd footprint from 5
/// to 17 with each shaft height it allows.
fn flow_candidates_for(water_burn_rate: i32) -> (r: Vec<Turbine>)
    requires
        0 <= water_burn_rate,
    ensures
        r@ == flow_candidates(water_burn_rate as int),
        forall|i: int|
            0 <= i < r.len() ==> (#[trigger] r[i]).wf() && formula_ranges(r[i])
                && r[i].vents == vent_target(water_burn_rate as int),
{
    let ghost fr = water_burn_rate as int;
    let vents = water_burn_rate / GENERAL_VENT_GAS_FLOW + if water_burn_rate % GENERAL_VENT_GAS_FLOW
        == 0 {
        0
    } else {
        1
    };
    assert(vents == vent_target(fr));
    let mut all: Vec<Turbine> = Vec::new();
    let mut length: i32 = 5;
    while length <= 17
        invariant
            5 <= length <= 19,
            length % 2 == 1,
            0 <= vents,
            vents == vent_target(fr),
            all@ == candidates_below(length as int, fr),
            forall|i: int|
                0 <= i < all.len() ==> (#[trigger] all[i]).wf() && formula_ranges(all[i])
                    && all[i].vents == vents,
        decreases 19 - length,
    {
        let limit = if 2 * length - 5 < 14 { 2 * length - 5 } else { 14 };
        let ghost before = all@;
        let ghost these = footprint_candidates(length as int, fr);
        let mut shaft_height: i32 = 1;
        while shaft_height < limit
            invariant
                5 <= length <= 17,
                length % 2 == 1,
                0 <= vents,
                vents == vent_target(fr),
                limit == shaft_limit(length as int),
                1 <= shaft_height <= limit,
                these == footprint_candidates(length as int, fr),
                all@ == before + these.take(shaft_height - 1),
                forall|i: int|
                    0 <= i < all.len() ==> (#[trigger] all[i]).wf() && formula_ranges(all[i])
                        && all[i].vents == vents,
            decreases limit - shaft_height,
        {
            let coils = calc_coils_needed(shaft_height * 2);
            let y = min_height(shaft_height, coils, 0, length, vents);
            let candidate = Turbine::assemble(length, y, shaft_height, vents);
            proof {
                lemma_assembled_wf(length as int, y as int, shaft_height as int, vents as int);
                lemma_assembled_ranges(length as int, y as int, shaft_height as int, vents as int);
                assert(candidate == these[shaft_height - 1]);
                assert(before + these.take(shaft_height as int) =~= (before + these.take(
                    shaft_height - 1,
                )).push(candidate));
            }
            all.push(candidate);
            shaft_height = shaft_height + 1;
        }
        proof {
            assert(these.take(shaft_height - 1) =~= these);
            assert(candidates_below(length + 2, fr) == candidates_below(length as int, fr)
                + footprint_candidates(length as int, fr));
        }
        length = length + 2;
    }
    all
}

/// The candidates that carry and return a flow of `water_burn_rate`, have the
/// condensers for it, and have no fewer vents than pay off.
fn keep_serving(candidates: &Vec<Turbine>, water_burn_rate: i32) -> (r: Vec<Turbine>)
    requires
        0 <= water_burn_rate,
        forall|i: int| 0 <= i < candidates.len() ==> formula_ranges(#[trigger] candidates[i]),
    ensures
        r@ == candidates@.filter(|t: Turbine| serves_flow(t, water_burn_rate as int)),
{
    let ghost fr = water_burn_rate as int;
    let ghost pred = |t: Turbine| serves_flow(t, fr);
    let required = water_burn_rate / GENERAL_CONDENSER_RATE + if water_burn_rate
        % GENERAL_CONDENSER_RATE == 0 {
        0
    } else {
        1
    };
    assert(required == required_condensers(fr));
    let mut kept: Vec<Turbine> = Vec::new();
    let mut i: usize = 0;
    while i < candidates.len()
        invariant
            0 <= i <= candidates.len(),
            forall|k: int| 0 <= k < candidates.len() ==> formula_ranges(#[trigger] candidates[k]),
            required == required_condensers(fr),
            fr == water_burn_rate,
            pred == (|t: Turbine| serves_flow(t, fr)),
            kept@ == candidates@.take(i as int).filter(pred),
        decreases candidates.len() - i,
    {
        let t = candidates[i];
        let flow = if t.max_flow < t.max_water_output { t.max_flow } else { t.max_water_output };
        let serves = flow >= water_burn_rate && t.condensers >= required && best_vent_count(&t).0
            <= t.vents;
        proof {
            assert(serves == pred(t));
            assert(candidates@.take(i + 1) =~= candidates@.take(i as int).push(t));
            candidates@.take(i as int).lemma_filter_push(t, pred);
        }
        if serves {
            kept.push(t);
        }
        i = i + 1;
    }
    proof {
        assert(candidates@.take(i as int) =~= candidates@);
    }
    kept
}

/// The candidates that no smaller candidate outproduces, in their order.
/// Of what is left, no turbine is larger than another and produces less.
pub fn remove_dominated(candidates: &Vec<Turbine>) -> (r: Vec<Turbine>)
    ensures
        r@ == undominated(candidates@),
        forall|a: int, b: int|
            0 <= a < r.len() && 0 <= b < r.len() ==> !(r[a].x_z > r[b].x_z
                && r[a].max_production < r[b].max_production),
{
    let ghost c = candidates@;
    let ghost pred = |t: Turbine| !dominated(t, c);
    let mut kept: Vec<Turbine> = Vec::new();
    let mut i: usize = 0;
    while i < candidates.len()
        invariant
            0 <= i <= candidates.len(),
            c == candidates@,
            pred == (|t: Turbine| !dominated(t, c)),
            kept@ == c.take(i as int).filter(pred),
        decreases candidates.len() - i,
    {
        let t = candidates[i];
        let mut beaten = false;
        let mut j: usize = 0;
        while j < candidates.len()
            invariant
                0 <= j <= candidates.len(),
                i < candidates.len(),
                c == candidates@,
                t == c[i as int],
                beaten <==> exists|k: int|
                    0 <= k < j && #[trigger] c[k].x_z < t.x_z && t.max_production
                        < c[k].max_production,
            decreases candidates.len() - j,
        {
            let other = candidates[j];
            if other.x_z < t.x_z && t.max_production < other.max_production {
                beaten = true;
            }
            j = j + 1;
        }
        proof {
            assert(beaten == dominated(t, c));
            assert(c.take(i + 1) =~= c.take(i as int).push(t));
            c.take(i as int).lemma_filter_push(t, pred);
        }
        if !beaten {
            kept.push(t);
        }
        i = i + 1;
    }
    proof {
        assert(c.take(i as int) =~= c);
        assert forall|a: int, b: int|
            0 <= a < kept.len() && 0 <= b < kept.len() implies !(kept[a].x_z > kept[b].x_z
                && kept[a].max_production < kept[b].max_production) by {
            c.lemma_filter_pred(pred, a);
            assert(kept@.contains(kept[b]));
            c.lemma_filter_contains_rev(pred, kept[b]);
            let k = choose|k: int| 0 <= k < c.len() && c[k] == kept[b];
            if kept[a].x_z > kept[b].x_z && kept[a].max_production < kept[b].max_production {
                assert(c[k].x_z < kept[a].x_z);
                assert(dominated(kept[a], c));
            }
        }
    }
    kept
}

/// The first turbine of `candidates` whose production, rounded to whole
/// units, is highest; `None` when there is none.
fn first_best_turbine(candidates: &Vec<Turbine>) -> (r: Option<Turbine>)
    ensures
        r == first_best(candidates@),
{
    let mut best: Option<usize> = None;
    let mut best_rounded: u64 = 0;
    let mut i: usize = 0;
    while i < candidates.len()
        invariant
            0 <= i <= candidates.len(),
            match best_index_upto(candidates@, i as int) {
                None => best is None,
                Some(b) => best == Some(b as usize) && 0 <= b < i && best_rounded == rounded(
                    candidates[b].max_production as int,
                ),
            },
        decreases candidates.len() - i,
    {
        let current = round_production(candidates[i].max_production);
        match best {
            None => {
                best = Some(i);
                best_rounded = current;
            },
            Some(_) => {
                if current > best_rounded {
                    best = Some(i);
                    best_rounded = current;
                }
            },
        }
        i = i + 1;
    }
    match best {
        None => None,
        Some(b) => Some(candidates[b]),
    }
}

/// The best turbine for a flow of `water_burn_rate` (mB/t): among turbines
/// whose vents match the flow, those that serve it and that no smaller one
/// outproduces, the first with the highest rounded production.
pub fn turbine_based_on_fission_reactor(water_burn_rate: i32) -> (r: Result<Turbine, SizingError>)
    requires
        0 <= water_burn_rate,
    ensures
        r == turbine_for_flow(water_burn_rate as int),
        r matches Ok(t) ==> t.wf() && t.vents == vent_target(water_burn_rate as int) && serves_flow(
            t,
            water_burn_rate as int,
        ),
{
    let ghost fr = water_burn_rate as int;
    let ghost serving = |t: Turbine| serves_flow(t, fr);
    let all = flow_candidates_for(water_burn_rate);
    let feasible = keep_serving(&all, water_burn_rate);
    let survivors = remove_dominated(&feasible);
    let best = first_best_turbine(&survivors);
    proof {
        if let Some(t) = best {
            let i = best_index_upto(survivors@, survivors@.len() as int)->0;
            lemma_best_index_in_range(survivors@, survivors@.len() as int);
            assert(survivors@.contains(t));
            feasible@.lemma_filter_contains_rev(|t: Turbine| !dominated(t, feasible@), t);
            all@.lemma_filter_contains_rev(serving, t);
            let k = choose|k: int| 0 <= k < feasible@.len() && feasible@[k] == t;
            all@.lemma_filter_pred(serving, k);
        }
    }
    match best {
        None => Err(SizingError::NoFeasibleConfiguration),
        Some(t) => Ok(t),
    }
}

proof fn lemma_best_index_in_range(c: Seq<Turbine>, n: int)
    requires
        0 <= n <= c.len(),
    ensures
        best_index_upto(c, n) matches Some(b) ==> 0 <= b < n,
        n > 0 ==> best_index_upto(c, n) is Some,
    decreases n,
{
    if n > 0 {
        lemma_best_index_in_range(c, n - 1);
    }
}

impl Turbine {
    /// The one-line summary: "A 5x5x9 Turbine".
    pub open spec fn summary(&self) -> Seq<char> {
        "A "@ + decimal_text(self.x_z as int) + "x"@ + decimal_text(self.x_z as int) + "x"@
            + decimal_text(self.y as int) + " Turbine"@
    }

    /// The one-line summary of this turbine's dimensions.
    pub fn summarize(&self) -> (r: String)
        ensures
            r@ == self.summary(),
    {
        let mut text = String::from_str("A ");
        push_decimal(&mut text, self.x_z);
        text.append("x");
        push_decimal(&mut text, self.x_z);
        text.append("x");
        push_decimal(&mut text, self.y);
        text.append(" Turbine");
        text
    }
}

/// A turbine built from the given block counts, with capacity, flow, tank
/// volume and water output computed from them; its energy capacity is
/// reckoned from the full height `y`.
pub fn turbine_factory(
    x_z: i32,
    y: i32,
    condensers: i32,
    dispersers: i32,
    vents: i32,
    shaft_height: i32,
    blades: i32,
    coils: i32,
) -> (r: Turbine)
    requires
        footprint_in_range(x_z as int),
        5 <= y <= 18,
        shaft_in_range(shaft_height as int),
        0 <= vents,
        i32::MIN <= condensers * GENERAL_CONDENSER_RATE <= i32::MAX,
    ensures
        r == (Turbine {
            x_z,
            y,
            vents,
            dispersers,
            condensers,
            shaft_height,
            blades,
            coils,
            capacity: (lower_volume(x_z as int, y as int) * ENERGY_PER_TANK) as i32,
            max_flow: max_flow_rate(x_z as int, shaft_height as int, vents as int) as i32,
            tank_volume: lower_volume(x_z as int, shaft_height as int) as i32,
            max_production: 0,
            max_water_output: (condensers * GENERAL_CONDENSER_RATE) as i32,
            energy_si_prefix: Prefix::Base,
        }),
{
    Turbine {
        x_z,
        y,
        vents,
        dispersers,
        condensers,
        shaft_height,
        blades,
        coils,
        capacity: energy_capacity(x_z, y),
        max_flow: calc_max_flow_rate(x_z, shaft_height, vents),
        tank_volume: calc_lower_volume(x_z, shaft_height),
        max_production: 0,
        max_water_output: max_water_output(condensers),
        energy_si_prefix: Prefix::Base,
    }
}

} // verus!
