//! Metric scale tags and exact decimal truncation of energy values.

use vstd::prelude::*;

verus! {

/// A metric scale tag for energy values.
#[derive(Debug, Clone, Copy, PartialEq, Eq, Structural)]
pub enum Prefix {
    Base,
    Kilo,
    Mega,
    Giga,
    Tera,
}

/// The scale tag under the name the conversion helpers use.
pub type MetricPrefix = Prefix;

/// The power of ten that a tag stands for.
pub open spec fn power_of(p: Prefix) -> nat {
    match p {
        Prefix::Base => 0,
        Prefix::Kilo => 3,
        Prefix::Mega => 6,
        Prefix::Giga => 9,
        Prefix::Tera => 12,
    }
}

/// Ten to the power of the tag.
pub open spec fn scale_of(p: Prefix) -> int {
    match p {
        Prefix::Base => 1,
        Prefix::Kilo => 1_000,
        Prefix::Mega => 1_000_000,
        Prefix::Giga => 1_000_000_000,
        Prefix::Tera => 1_000_000_000_000,
    }
}

/// The scale of a tag is ten to the power of the tag.
pub proof fn lemma_scale_is_power(p: Prefix)
    ensures
        scale_of(p) == vstd::arithmetic::power::pow(10, power_of(p)),
{
    reveal_with_fuel(vstd::arithmetic::power::pow, 13);
}

impl Prefix {
    /// The power of ten of this tag: 0, 3, 6, 9 or 12.
    pub fn power(&self) -> (r: u32)
        ensures
            r == power_of(*self),
    {
        match self {
            Prefix::Base => 0,
            Prefix::Kilo => 3,
            Prefix::Mega => 6,
            Prefix::Giga => 9,
            Prefix::Tera => 12,
        }
    }

    /// Ten to the power of this tag.
    pub fn scale(&self) -> (r: u64)
        ensures
            r == scale_of(*self),
    {
        match self {
            Prefix::Base => 1,
            Prefix::Kilo => 1_000,
            Prefix::Mega => 1_000_000,
            Prefix::Giga => 1_000_000_000,
            Prefix::Tera => 1_000_000_000_000,
        }
    }
}

/// The value `num / den` measured at `start_prefix`, expressed at `end_prefix`;
/// the result is again a numerator and a denominator.
pub fn convert_to_prefix(num: u64, den: u64, start_prefix: Prefix, end_prefix: Prefix) -> (r: (
    u128,
    u128,
))
    ensures
        r.0 == num * scale_of(start_prefix),
        r.1 == den * scale_of(end_prefix),
        r.1 >= den,
{
    let start = start_prefix.scale() as u128;
    let end = end_prefix.scale() as u128;
    assert(num * start <= 0xffff_ffff_ffff_ffff * 1_000_000_000_000) by (nonlinear_arith)
        requires
            num <= 0xffff_ffff_ffff_ffff,
            start <= 1_000_000_000_000,
    ;
    assert(den <= den * end <= 0xffff_ffff_ffff_ffff * 1_000_000_000_000) by (nonlinear_arith)
        requires
            den <= 0xffff_ffff_ffff_ffff,
            1 <= end <= 1_000_000_000_000,
    ;
    (num as u128 * start, den as u128 * end)
}

/// The value `num / den` with its decimals dropped.
pub fn drop_decimals(num: u128, den: u128) -> (r: u128)
    requires
        den > 0,
    ensures
        r == num / den,
{
    num / den
}

/// The value `num / den` truncated to one decimal, counted in tenths.
pub fn drop_tenth_decimal(num: u128, den: u128) -> (r: u128)
    requires
        den > 0,
        num * 10 <= u128::MAX,
    ensures
        r == (num * 10) / (den as int),
{
    (num * 10) / den
}

/// The value `num / den` expressed at scale `tag` and truncated (not rounded)
/// to two decimals, counted in hundredths.
pub fn truncate_to_scale(num: u128, den: u128, tag: Prefix) -> (r: u128)
    requires
        den > 0,
        num * 100 <= u128::MAX,
        den * scale_of(tag) <= u128::MAX,
    ensures
        r == (num * 100) / (den * scale_of(tag)),
{
    let scale = tag.scale() as u128;
    assert(den * scale > 0) by (nonlinear_arith)
        requires
            den > 0,
            scale > 0,
    ;
    (num * 100) / (den * scale)
}

/// The value `num / den` in millions, truncated to two decimals, counted in hundredths.
pub fn convert_to_mega(num: u128, den: u128) -> (r: u128)
    requires
        den > 0,
        num * 100 <= u128::MAX,
        den * 1_000_000 <= u128::MAX,
    ensures
        r == (num * 100) / (den * 1_000_000),
{
    truncate_to_scale(num, den, Prefix::Mega)
}

/// The value `num / den` in thousands, truncated to two decimals, counted in hundredths.
pub fn convert_to_kilo(num: u128, den: u128) -> (r: u128)
    requires
        den > 0,
        num * 100 <= u128::MAX,
        den * 1_000 <= u128::MAX,
    ensures
        r == (num * 100) / (den * 1_000),
{
    truncate_to_scale(num, den, Prefix::Kilo)
}

} // verus!
