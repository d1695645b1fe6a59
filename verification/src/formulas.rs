//! The closed-form expressions that derive one physical quantity from
//! others.  Each is stated once, over `int`, and computed by an executable
//! function with the same result.

use vstd::prelude::*;

use crate::fixed_point::isqrt;
use crate::fixed_point::mul_div;
use crate::fixed_point::wide_product;
use crate::fixed_point::lemma_square_monotone;
use crate::fixed_point::sqrt_floor;
use crate::fixed_point::UNIT;
use crate::oracle::DISTANCE_LIMIT;
use crate::oracle::MAXIMUM_MASS;
use crate::oracle::MINIMUM_RADIUS;
use crate::oracle::RADIUS_LIMIT;

verus! {

/// No combined mass exceeds this, in millionths of a solar mass: 255 stars,
/// each below the upper end of the main sequence.
pub const COMBINED_MASS_LIMIT: u64 = 30_600_000_000;

/// No combined mass of a close binary exceeds this, in millionths of a solar
/// mass: two stars, each below the upper end of the main sequence.
pub const BINARY_MASS_LIMIT: u64 = 240_000_000;

/// No separation between the stars of a close binary exceeds this, in
/// millionths of an astronomical unit.
pub const SEPARATION_LIMIT: u64 = 1_000_000_000;

/// The years a star spends on the main sequence, in millionths of a billion
/// years: ten billion years times mass over luminosity.
pub open spec fn life_expectancy_of(mass: u64, luminosity: u64) -> int {
    mass * 10 * UNIT / (luminosity as int)
}

/// The mean density of a star, in millionths of the solar density: mass over
/// the cube of the radius.
pub open spec fn density_of(mass: u64, radius: u64) -> int {
    mass * UNIT * UNIT * UNIT / (radius * radius * radius)
}

/// The inner and outer edge of the habitable zone around a source of the
/// given luminosity, in millionths of an astronomical unit: the square roots
/// of the luminosity over 1.1 and over 0.53.
pub open spec fn habitable_zone_of(luminosity: u64) -> (int, int) {
    (sqrt_floor(luminosity * UNIT * 10 / 11), sqrt_floor(luminosity * UNIT * 100 / 53))
}

/// The frost line around a source of the given luminosity, in millionths of
/// an astronomical unit: 4.85 times the square root of the luminosity.
pub open spec fn frost_line_of(luminosity: u64) -> int {
    485 * sqrt_floor(luminosity * UNIT) / 100
}

/// The satellite zone around a combined mass, in millionths of an
/// astronomical unit: from a tenth of the mass to forty times the mass.
pub open spec fn satellite_zone_of(mass: u64) -> (int, int) {
    (mass as int / 10, 40 * mass)
}

/// The nearest point of an orbit to its focus.
pub open spec fn perihelion_of(semi_major_axis: u64, eccentricity: u64) -> int {
    (UNIT - eccentricity) * semi_major_axis / (UNIT as int)
}

/// The farthest point of an orbit from its focus.
pub open spec fn aphelion_of(semi_major_axis: u64, eccentricity: u64) -> int {
    (UNIT + eccentricity) * semi_major_axis / (UNIT as int)
}

/// The period of an orbit, in millionths of a year: the square root of the
/// cube of the semi-major axis.
pub open spec fn orbital_period_of(semi_major_axis: u64) -> int {
    sqrt_floor(semi_major_axis * semi_major_axis * semi_major_axis / (UNIT as int))
}

/// The fourth power.
pub open spec fn fourth_power(x: int) -> int {
    x * x * x * x
}

/// Four times the greatest distance between the two stars of a close binary
/// of the given separation and eccentricity, in millionths of a millionth of
/// an astronomical unit.  Nothing orbits both stars stably within it.
pub open spec fn forbidden_reach(separation: u64, eccentricity: u64) -> int {
    4 * separation * (UNIT + eccentricity)
}

/// The combined mass is enough to put the inner edge of the habitable zone of
/// a close binary beyond its forbidden reach: the fourth power of the mass is
/// at least 1.1 times the square of the reach.
pub open spec fn clears_forbidden_reach(mass: u64, separation: u64, eccentricity: u64) -> bool {
    let reach = forbidden_reach(separation, eccentricity);
    10 * fourth_power(mass as int) >= 11 * (reach * reach)
}

/// `mass` is the least combined mass that clears the forbidden reach.
pub open spec fn is_least_clearing_mass(mass: u64, separation: u64, eccentricity: u64) -> bool {
    &&& clears_forbidden_reach(mass, separation, eccentricity)
    &&& mass > 0 ==> !clears_forbidden_reach((mass - 1) as u64, separation, eccentricity)
}

/// The fourth power is monotone on the non-negative integers.
pub proof fn lemma_fourth_power_monotone(a: int, b: int)
    requires
        0 <= a <= b,
    ensures
        fourth_power(a) <= fourth_power(b),
        a < b ==> fourth_power(a) < fourth_power(b),
{
    if a < b {
        lemma_square_monotone(a, b);
        assert(a * a * (a * a) < b * b * (b * b)) by (nonlinear_arith)
            requires
                0 <= a * a < b * b,
        ;
        assert(a * a * a * a == a * a * (a * a)) by (nonlinear_arith);
        assert(b * b * b * b == b * b * (b * b)) by (nonlinear_arith);
    }
}

/// A heavier pair, a closer pair and a rounder orbit each keep the forbidden
/// reach cleared.
pub proof fn lemma_clearing_monotone(
    mass: u64,
    separation: u64,
    eccentricity: u64,
    heavier: u64,
    closer: u64,
)
    requires
        clears_forbidden_reach(mass, separation, eccentricity),
        mass <= heavier,
        closer <= separation,
    ensures
        clears_forbidden_reach(heavier, closer, eccentricity),
{
    lemma_fourth_power_monotone(mass as int, heavier as int);
    let wide = forbidden_reach(separation, eccentricity);
    let narrow = forbidden_reach(closer, eccentricity);
    assert(0 <= narrow <= wide) by (nonlinear_arith)
        requires
            0 <= closer <= separation,
            narrow == 4 * closer * (UNIT + eccentricity),
            wide == 4 * separation * (UNIT + eccentricity),
            0 <= eccentricity,
    ;
    assert(narrow * narrow <= wide * wide) by (nonlinear_arith)
        requires
            0 <= narrow <= wide,
    ;
}

/// The forbidden reach of a close binary.
pub fn reach(separation: u64, eccentricity: u64) -> (reach: u64)
    requires
        separation <= SEPARATION_LIMIT,
        eccentricity < UNIT,
    ensures
        reach == forbidden_reach(separation, eccentricity),
        reach <= 8_000_000_000_000_000,
{
    let widest: u64 = UNIT + eccentricity;
    let fourfold: u64 = 4 * separation;
    assert(fourfold * widest <= 8_000_000_000_000_000) by (nonlinear_arith)
        requires
            0 <= fourfold <= 4_000_000_000,
            0 <= widest <= 2_000_000,
    ;
    fourfold * widest
}

/// The least combined mass that clears the forbidden reach of a close binary
/// of the given separation and eccentricity.
pub fn least_clearing_mass(separation: u64, eccentricity: u64) -> (mass: u64)
    requires
        separation <= SEPARATION_LIMIT,
        eccentricity < UNIT,
    ensures
        is_least_clearing_mass(mass, separation, eccentricity),
        mass <= 100_000_000,
{
    let reach: u64 = self::reach(separation, eccentricity);
    assert(reach * reach <= 64_000_000_000_000_000_000_000_000_000_000) by (nonlinear_arith)
        requires
            0 <= reach <= 8_000_000_000_000_000,
    ;
    let square: u128 = (reach as u128) * (reach as u128);
    let target: u128 = (11 * square + 9) / 10;
    let root: u64 = isqrt(target);
    let mass: u64 = isqrt(root as u128);
    proof {
        let t = target as int;
        let s = root as int;
        let m = mass as int;
        assert(m * m * (m * m) <= s * s) by (nonlinear_arith)
            requires
                0 <= m * m <= s,
        ;
        assert((s + 1) * (s + 1) <= (m + 1) * (m + 1) * ((m + 1) * (m + 1))) by (nonlinear_arith)
            requires
                0 <= s + 1 <= (m + 1) * (m + 1),
        ;
        assert(fourth_power(m) == m * m * (m * m)) by (nonlinear_arith);
        assert(fourth_power(m + 1) == (m + 1) * (m + 1) * ((m + 1) * (m + 1))) by (nonlinear_arith);
        if m >= 100_000_000 {
            lemma_fourth_power_monotone(100_000_000, m);
        }
        if m > 0 {
            lemma_fourth_power_monotone(m - 1, m);
        }
    }
    let square_of_mass: u128 = (mass as u128) * (mass as u128);
    let fourth: u128 = square_of_mass * square_of_mass;
    if fourth >= target {
        mass
    } else {
        mass + 1
    }
}

/// Whether the combined mass clears the forbidden reach of a close binary of
/// the given separation and eccentricity.
pub fn clears_reach(mass: u64, separation: u64, eccentricity: u64) -> (clears: bool)
    requires
        mass <= BINARY_MASS_LIMIT,
        separation <= SEPARATION_LIMIT,
        eccentricity < UNIT,
    ensures
        clears == clears_forbidden_reach(mass, separation, eccentricity),
{
    let reach: u64 = self::reach(separation, eccentricity);
    assert(reach * reach <= 64_000_000_000_000_000_000_000_000_000_000) by (nonlinear_arith)
        requires
            0 <= reach <= 8_000_000_000_000_000,
    ;
    let square: u128 = (reach as u128) * (reach as u128);
    assert(mass * mass <= 57_600_000_000_000_000) by (nonlinear_arith)
        requires
            0 <= mass <= 240_000_000,
    ;
    let square_of_mass: u128 = (mass as u128) * (mass as u128);
    assert(square_of_mass * square_of_mass == fourth_power(mass as int)) by (nonlinear_arith)
        requires
            square_of_mass == mass * mass,
    ;
    assert(square_of_mass * square_of_mass <= 57_600_000_000_000_000 * 57_600_000_000_000_000)
        by (nonlinear_arith)
        requires
            0 <= square_of_mass <= 57_600_000_000_000_000,
    ;
    let fourth: u128 = square_of_mass * square_of_mass;
    10 * fourth >= 11 * square
}

/// There is one least clearing mass.
pub proof fn lemma_least_clearing_mass_unique(
    first: u64,
    second: u64,
    separation: u64,
    eccentricity: u64,
)
    requires
        is_least_clearing_mass(first, separation, eccentricity),
        is_least_clearing_mass(second, separation, eccentricity),
    ensures
        first == second,
{
    if first < second {
        lemma_clearing_monotone(first, separation, eccentricity, (second - 1) as u64, separation);
    } else if second < first {
        lemma_clearing_monotone(second, separation, eccentricity, (first - 1) as u64, separation);
    }
}

/// The life expectancy of a star of the given mass and luminosity.
pub fn life_expectancy(mass: u64, luminosity: u64) -> (years: u64)
    requires
        mass <= COMBINED_MASS_LIMIT,
        luminosity > 0,
    ensures
        years == life_expectancy_of(mass, luminosity),
        years <= mass * 10_000_000,
{
    let scaled: u64 = mass * 10 * UNIT;
    proof {
        vstd::arithmetic::div_mod::lemma_div_is_ordered_by_denominator(
            scaled as int,
            1,
            luminosity as int,
        );
    }
    scaled / luminosity
}

/// The mean density of a star of the given mass and radius.
pub fn density(mass: u64, radius: u64) -> (density: u64)
    requires
        mass <= MAXIMUM_MASS,
        MINIMUM_RADIUS <= radius <= RADIUS_LIMIT,
    ensures
        density == density_of(mass, radius),
{
    let scaled: u128 = (mass as u128) * 1_000_000_000_000_000_000;
    assert(1_000_000_000 <= radius * radius * radius <= 1_000_000_000_000_000_000_000_000_000)
        by (nonlinear_arith)
        requires
            1_000 <= radius <= 1_000_000_000,
    ;
    assert(radius * radius <= 1_000_000_000_000_000_000) by (nonlinear_arith)
        requires
            1_000 <= radius <= 1_000_000_000,
    ;
    let cube: u128 = (radius as u128) * (radius as u128) * (radius as u128);
    proof {
        vstd::arithmetic::div_mod::lemma_div_is_ordered_by_denominator(
            scaled as int,
            1_000_000_000,
            cube as int,
        );
    }
    (scaled / cube) as u64
}

/// The habitable zone around a source of the given luminosity.
pub fn habitable_zone(luminosity: u64) -> (zone: (u64, u64))
    ensures
        zone.0 == habitable_zone_of(luminosity).0,
        zone.1 == habitable_zone_of(luminosity).1,
{
    let scaled: u128 = wide_product(luminosity, UNIT);
    (isqrt(scaled * 10 / 11), isqrt(scaled * 100 / 53))
}

/// The frost line around a source of the given luminosity.
pub fn frost_line(luminosity: u64) -> (line: u64)
    ensures
        line == frost_line_of(luminosity),
{
    let scaled: u128 = wide_product(luminosity, UNIT);
    let root: u64 = isqrt(scaled);
    assert(root <= 10_000_000_000_000) by {
        if root > 10_000_000_000_000 {
            lemma_square_monotone(10_000_000_000_000, root as int);
        }
    }
    485 * root / 100
}

/// The satellite zone around a combined mass.
pub fn satellite_zone(mass: u64) -> (zone: (u64, u64))
    requires
        40 * mass <= u64::MAX,
    ensures
        zone.0 == satellite_zone_of(mass).0,
        zone.1 == satellite_zone_of(mass).1,
{
    (mass / 10, 40 * mass)
}

/// The nearest point of an orbit to its focus.
pub fn perihelion(semi_major_axis: u64, eccentricity: u64) -> (distance: u64)
    requires
        eccentricity < UNIT,
    ensures
        distance == perihelion_of(semi_major_axis, eccentricity),
        distance <= semi_major_axis,
{
    proof {
        let part = (UNIT - eccentricity) as int;
        assert(part * semi_major_axis <= UNIT * semi_major_axis) by (nonlinear_arith)
            requires
                0 <= part <= UNIT,
                0 <= semi_major_axis,
        ;
        vstd::arithmetic::div_mod::lemma_multiply_divide_le(
            part * semi_major_axis,
            UNIT as int,
            semi_major_axis as int,
        );
    }
    mul_div(UNIT - eccentricity, semi_major_axis, UNIT)
}

/// The farthest point of an orbit from its focus.
pub fn aphelion(semi_major_axis: u64, eccentricity: u64) -> (distance: u64)
    requires
        eccentricity < UNIT,
        semi_major_axis <= DISTANCE_LIMIT,
    ensures
        distance == aphelion_of(semi_major_axis, eccentricity),
        semi_major_axis <= distance <= 2 * semi_major_axis,
{
    proof {
        let part = (UNIT + eccentricity) as int;
        let twice = 2 * semi_major_axis;
        assert(UNIT * semi_major_axis <= part * semi_major_axis <= UNIT * twice) by (nonlinear_arith)
            requires
                UNIT <= part <= 2 * UNIT,
                0 <= semi_major_axis,
                twice == 2 * semi_major_axis,
        ;
        vstd::arithmetic::div_mod::lemma_multiply_divide_le(
            part * semi_major_axis,
            UNIT as int,
            twice,
        );
        vstd::arithmetic::div_mod::lemma_div_is_ordered(
            UNIT * semi_major_axis,
            part * semi_major_axis,
            UNIT as int,
        );
    }
    mul_div(UNIT + eccentricity, semi_major_axis, UNIT)
}

/// The period of an orbit of the given semi-major axis.
pub fn orbital_period(semi_major_axis: u64) -> (period: u64)
    requires
        semi_major_axis <= DISTANCE_LIMIT,
    ensures
        period == orbital_period_of(semi_major_axis),
{
    assert(semi_major_axis * semi_major_axis <= 1_000_000_000_000_000_000_000_000) by (nonlinear_arith)
        requires
            0 <= semi_major_axis <= 1_000_000_000_000,
    ;
    assert(semi_major_axis * semi_major_axis * semi_major_axis
        <= 1_000_000_000_000_000_000_000_000_000_000_000_000) by (nonlinear_arith)
        requires
            0 <= semi_major_axis <= 1_000_000_000_000,
    ;
    let cube: u128 = (semi_major_axis as u128) * (semi_major_axis as u128) * (
    semi_major_axis as u128);
    isqrt(cube / (UNIT as u128))
}

} // verus!
