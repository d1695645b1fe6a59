//! The formula oracle: what a main-sequence star of a given mass is like.
//!
//! The oracle is a table of reference stars, ordered by mass, between which
//! every property is interpolated linearly.  It answers for masses strictly
//! between [`MINIMUM_MASS`] and [`MAXIMUM_MASS`] and rejects all others.

use vstd::prelude::*;

use crate::error::AstronomicalError;
use crate::fixed_point::lemma_fraction_of_span;
use crate::fixed_point::mul_div;

verus! {

/// The lower end of the main sequence, in millionths of a solar mass.  A star
/// must be heavier than this.
pub const MINIMUM_MASS: u64 = 75_000;

/// The upper end of the main sequence, in millionths of a solar mass.  A star
/// must be lighter than this.
pub const MAXIMUM_MASS: u64 = 120_000_000;

/// Every temperature is below this, in millionths of a kelvin.
pub const TEMPERATURE_LIMIT: u64 = 95_000_000_000;

/// No luminosity exceeds this, in millionths of a solar luminosity.
pub const LUMINOSITY_LIMIT: u64 = 10_000_000_000_000;

/// No radius is below this, in millionths of a solar radius.
pub const MINIMUM_RADIUS: u64 = 1_000;

/// No radius exceeds this, in millionths of a solar radius.
pub const RADIUS_LIMIT: u64 = 1_000_000_000;

/// No distance exceeds this, in millionths of an astronomical unit.
pub const DISTANCE_LIMIT: u64 = 1_000_000_000_000;

/// What the oracle says of one mass.
#[derive(Clone, Copy, Debug, PartialEq, Eq)]
pub struct StellarProperties {
    /// Surface temperature, in millionths of a kelvin.
    pub temperature: u64,
    /// Luminosity, in millionths of a solar luminosity.
    pub luminosity: u64,
    /// Radius, in millionths of a solar radius.
    pub radius: u64,
    /// The nearest and the farthest orbit that a satellite can keep, in
    /// millionths of an astronomical unit.
    pub satellite_zone: (u64, u64),
    /// The colour of the star in sRGB.
    pub absolute_rgb: (u8, u8, u8),
}

impl StellarProperties {
    /// Every quantity is positive and within the limits that the formulas
    /// downstream rely on.
    pub open spec fn in_limits(self) -> bool {
        &&& 0 < self.temperature < TEMPERATURE_LIMIT
        &&& 0 < self.luminosity <= LUMINOSITY_LIMIT
        &&& MINIMUM_RADIUS <= self.radius <= RADIUS_LIMIT
        &&& 0 < self.satellite_zone.0 <= DISTANCE_LIMIT
        &&& 0 < self.satellite_zone.1 <= DISTANCE_LIMIT
    }

    /// Whether every quantity is within limits.
    pub fn check_limits(&self) -> (ok: bool)
        ensures
            ok == self.in_limits(),
    {
        0 < self.temperature && self.temperature < TEMPERATURE_LIMIT && 0 < self.luminosity
            && self.luminosity <= LUMINOSITY_LIMIT && MINIMUM_RADIUS <= self.radius && self.radius
            <= RADIUS_LIMIT && 0 < self.satellite_zone.0 && self.satellite_zone.0 <= DISTANCE_LIMIT
            && 0 < self.satellite_zone.1 && self.satellite_zone.1 <= DISTANCE_LIMIT
    }
}

/// One reference star of the table.
#[derive(Clone, Copy, Debug, PartialEq, Eq)]
pub struct OracleRow {
    /// Mass, in millionths of a solar mass.
    pub mass: u64,
    /// The properties of a star of that mass.
    pub properties: StellarProperties,
}

/// The value at `x` of the line through `(x0, y0)` and `(x1, y1)`, rounded
/// towards `y0`.
pub open spec fn interpolate(x0: int, y0: int, x1: int, y1: int, x: int) -> int {
    if y0 <= y1 {
        y0 + (y1 - y0) * (x - x0) / (x1 - x0)
    } else {
        y0 - (y0 - y1) * (x - x0) / (x1 - x0)
    }
}

/// An interpolated value lies between the two values it is taken from.
pub proof fn lemma_interpolate_between(x0: int, y0: int, x1: int, y1: int, x: int)
    requires
        x0 <= x < x1,
    ensures
        y0 <= y1 ==> y0 <= interpolate(x0, y0, x1, y1, x) <= y1,
        y1 <= y0 ==> y1 <= interpolate(x0, y0, x1, y1, x) <= y0,
        x == x0 ==> interpolate(x0, y0, x1, y1, x) == y0,
{
    if y0 <= y1 {
        lemma_fraction_of_span(y1 - y0, x - x0, x1 - x0);
    } else {
        lemma_fraction_of_span(y0 - y1, x - x0, x1 - x0);
    }
    if x == x0 {
        assert((y1 - y0) * (x - x0) == 0) by (nonlinear_arith)
            requires
                x - x0 == 0,
        ;
        assert((y0 - y1) * (x - x0) == 0) by (nonlinear_arith)
            requires
                x - x0 == 0,
        ;
    }
}

/// The value at `x` of the line through `(x0, y0)` and `(x1, y1)`.
pub fn interpolate_between(x0: u64, y0: u64, x1: u64, y1: u64, x: u64) -> (y: u64)
    requires
        x0 <= x < x1,
    ensures
        y == interpolate(x0 as int, y0 as int, x1 as int, y1 as int, x as int),
        y0 <= y1 ==> y0 <= y <= y1,
        y1 <= y0 ==> y1 <= y <= y0,
{
    if y0 <= y1 {
        proof {
            lemma_fraction_of_span(y1 - y0, x - x0, x1 - x0);
        }
        y0 + mul_div(y1 - y0, x - x0, x1 - x0)
    } else {
        proof {
            lemma_fraction_of_span(y0 - y1, x - x0, x1 - x0);
        }
        y0 - mul_div(y0 - y1, x - x0, x1 - x0)
    }
}

/// The properties on the line between two rows, at `mass`.
pub open spec fn properties_between(low: OracleRow, high: OracleRow, mass: u64) -> StellarProperties {
    let a = low.properties;
    let b = high.properties;
    let x0 = low.mass as int;
    let x1 = high.mass as int;
    let x = mass as int;
    StellarProperties {
        temperature: interpolate(x0, a.temperature as int, x1, b.temperature as int, x) as u64,
        luminosity: interpolate(x0, a.luminosity as int, x1, b.luminosity as int, x) as u64,
        radius: interpolate(x0, a.radius as int, x1, b.radius as int, x) as u64,
        satellite_zone: (
            interpolate(x0, a.satellite_zone.0 as int, x1, b.satellite_zone.0 as int, x) as u64,
            interpolate(x0, a.satellite_zone.1 as int, x1, b.satellite_zone.1 as int, x) as u64,
        ),
        absolute_rgb: (
            interpolate(x0, a.absolute_rgb.0 as int, x1, b.absolute_rgb.0 as int, x) as u8,
            interpolate(x0, a.absolute_rgb.1 as int, x1, b.absolute_rgb.1 as int, x) as u8,
            interpolate(x0, a.absolute_rgb.2 as int, x1, b.absolute_rgb.2 as int, x) as u8,
        ),
    }
}

/// Properties interpolated between two rows within limits are within limits.
pub proof fn lemma_properties_between_in_limits(low: OracleRow, high: OracleRow, mass: u64)
    requires
        low.properties.in_limits(),
        high.properties.in_limits(),
        low.mass <= mass < high.mass,
    ensures
        properties_between(low, high, mass).in_limits(),
{
    let a = low.properties;
    let b = high.properties;
    let x0 = low.mass as int;
    let x1 = high.mass as int;
    let x = mass as int;
    lemma_interpolate_between(x0, a.temperature as int, x1, b.temperature as int, x);
    lemma_interpolate_between(x0, a.luminosity as int, x1, b.luminosity as int, x);
    lemma_interpolate_between(x0, a.radius as int, x1, b.radius as int, x);
    lemma_interpolate_between(x0, a.satellite_zone.0 as int, x1, b.satellite_zone.0 as int, x);
    lemma_interpolate_between(x0, a.satellite_zone.1 as int, x1, b.satellite_zone.1 as int, x);
}

fn interpolate_channel(x0: u64, y0: u8, x1: u64, y1: u8, x: u64) -> (y: u8)
    requires
        x0 <= x < x1,
    ensures
        y == interpolate(x0 as int, y0 as int, x1 as int, y1 as int, x as int) as u8,
{
    let wide: u64 = interpolate_between(x0, y0 as u64, x1, y1 as u64, x);
    wide as u8
}

fn interpolate_rows(low: &OracleRow, high: &OracleRow, mass: u64) -> (properties: StellarProperties)
    requires
        low.mass <= mass < high.mass,
    ensures
        properties == properties_between(*low, *high, mass),
{
    let a = &low.properties;
    let b = &high.properties;
    StellarProperties {
        temperature: interpolate_between(low.mass, a.temperature, high.mass, b.temperature, mass),
        luminosity: interpolate_between(low.mass, a.luminosity, high.mass, b.luminosity, mass),
        radius: interpolate_between(low.mass, a.radius, high.mass, b.radius, mass),
        satellite_zone: (
            interpolate_between(low.mass, a.satellite_zone.0, high.mass, b.satellite_zone.0, mass),
            interpolate_between(low.mass, a.satellite_zone.1, high.mass, b.satellite_zone.1, mass),
        ),
        absolute_rgb: (
            interpolate_channel(low.mass, a.absolute_rgb.0, high.mass, b.absolute_rgb.0, mass),
            interpolate_channel(low.mass, a.absolute_rgb.1, high.mass, b.absolute_rgb.1, mass),
            interpolate_channel(low.mass, a.absolute_rgb.2, high.mass, b.absolute_rgb.2, mass),
        ),
    }
}

/// Rows that make a usable table: at least two, by strictly increasing mass,
/// each within limits, and together spanning the whole main sequence.
pub open spec fn table_usable(rows: Seq<OracleRow>) -> bool {
    &&& rows.len() >= 2
    &&& forall|i: int| 0 <= i < rows.len() ==> (#[trigger] rows[i]).properties.in_limits()
    &&& forall|i: int, j: int|
        0 <= i < j < rows.len() ==> (#[trigger] rows[i]).mass < (#[trigger] rows[j]).mass
    &&& rows[0].mass <= MINIMUM_MASS
    &&& MAXIMUM_MASS <= rows[rows.len() - 1].mass
}

/// `mass` lies in the segment of the table that starts at row `index`.
pub open spec fn in_segment(rows: Seq<OracleRow>, mass: u64, index: int) -> bool {
    0 <= index < rows.len() - 1 && rows[index].mass <= mass < rows[index + 1].mass
}

/// The segment of the table in which `mass` lies.
pub open spec fn segment_of(rows: Seq<OracleRow>, mass: u64) -> int {
    choose|index: int| in_segment(rows, mass, index)
}

/// A mass lies in at most one segment of a usable table, and `segment_of`
/// names it.
pub proof fn lemma_segment_is(rows: Seq<OracleRow>, mass: u64, index: int)
    requires
        table_usable(rows),
        in_segment(rows, mass, index),
    ensures
        segment_of(rows, mass) == index,
{
    let other = segment_of(rows, mass);
    assert(in_segment(rows, mass, other));
}

/// The formula oracle: a table of reference stars.
pub struct FormulaOracle {
    rows: Vec<OracleRow>,
}

impl FormulaOracle {
    #[verifier::type_invariant]
    spec fn well_formed(&self) -> bool {
        table_usable(self.rows@)
    }

    /// The rows of the table.
    pub closed spec fn table(&self) -> Seq<OracleRow> {
        self.rows@
    }

    /// The oracle accepts exactly the masses strictly inside the main
    /// sequence.
    pub open spec fn accepts(mass: u64) -> bool {
        MINIMUM_MASS < mass < MAXIMUM_MASS
    }

    /// What the oracle answers for `mass`.
    pub open spec fn answer(&self, mass: u64) -> Result<StellarProperties, AstronomicalError> {
        if mass <= MINIMUM_MASS {
            Err(AstronomicalError::StellarMassTooLowForMainSequence)
        } else if mass >= MAXIMUM_MASS {
            Err(AstronomicalError::StellarMassTooHighForMainSequence)
        } else {
            let index = segment_of(self.table(), mass);
            Ok(properties_between(self.table()[index], self.table()[index + 1], mass))
        }
    }

    /// An oracle over `rows`, or `None` when the rows do not make a usable
    /// table.
    pub fn new(rows: Vec<OracleRow>) -> (oracle: Option<FormulaOracle>)
        ensures
            oracle is Some <==> table_usable(rows@),
            oracle matches Some(o) ==> o.table() == rows@,
    {
        let count: usize = rows.len();
        if count < 2 {
            return None;
        }
        if !rows[0].properties.check_limits() {
            return None;
        }
        let mut index: usize = 1;
        while index < count
            invariant
                1 <= index <= count,
                count == rows.len(),
                forall|i: int| 0 <= i < index ==> (#[trigger] rows[i]).properties.in_limits(),
                forall|i: int, j: int|
                    0 <= i < j < index ==> (#[trigger] rows[i]).mass < (#[trigger] rows[j]).mass,
            decreases count - index,
        {
            if !rows[index].properties.check_limits() {
                return None;
            }
            if rows[index - 1].mass >= rows[index].mass {
                return None;
            }
            assert forall|i: int, j: int| 0 <= i < j < index + 1 implies (#[trigger] rows[i]).mass < (
            #[trigger] rows[j]).mass by {
                assert(rows[index - 1].mass < rows[index as int].mass);
            }
            index += 1;
        }
        if rows[0].mass > MINIMUM_MASS || rows[count - 1].mass < MAXIMUM_MASS {
            return None;
        }
        Some(FormulaOracle { rows })
    }

    /// Everything the oracle knows of a star of `mass`.
    pub fn properties(&self, mass: u64) -> (answer: Result<StellarProperties, AstronomicalError>)
        ensures
            answer == self.answer(mass),
            answer is Ok <==> Self::accepts(mass),
            answer matches Ok(p) ==> p.in_limits(),
    {
        proof {
            use_type_invariant(self);
        }
        if mass <= MINIMUM_MASS {
            return Err(AstronomicalError::StellarMassTooLowForMainSequence);
        }
        if mass >= MAXIMUM_MASS {
            return Err(AstronomicalError::StellarMassTooHighForMainSequence);
        }
        let mut low: usize = 0;
        let mut high: usize = self.rows.len() - 1;
        while high - low > 1
            invariant
                low < high < self.rows.len(),
                self.rows[low as int].mass <= mass < self.rows[high as int].mass,
            decreases high - low,
        {
            let middle: usize = low + (high - low) / 2;
            if self.rows[middle].mass <= mass {
                low = middle;
            } else {
                high = middle;
            }
        }
        proof {
            lemma_segment_is(self.rows@, mass, low as int);
            lemma_properties_between_in_limits(self.rows[low as int], self.rows[low + 1], mass);
        }
        Ok(interpolate_rows(&self.rows[low], &self.rows[low + 1], mass))
    }

    /// The surface temperature of a star of `mass`.
    pub fn star_mass_to_temperature(&self, mass: u64) -> (answer: Result<u64, AstronomicalError>)
        ensures
            answer is Ok <==> Self::accepts(mass),
            self.answer(mass) matches Ok(p) ==> p.in_limits(),
            self.answer(mass) matches Ok(p) ==> answer == Ok::<u64, AstronomicalError>(p.temperature),
            self.answer(mass) matches Err(e) ==> answer == Err::<u64, AstronomicalError>(e),
    {
        match self.properties(mass) {
            Ok(properties) => Ok(properties.temperature),
            Err(error) => Err(error),
        }
    }

    /// The luminosity of a star of `mass`.
    pub fn star_mass_to_luminosity(&self, mass: u64) -> (answer: Result<u64, AstronomicalError>)
        ensures
            answer is Ok <==> Self::accepts(mass),
            self.answer(mass) matches Ok(p) ==> p.in_limits(),
            self.answer(mass) matches Ok(p) ==> answer == Ok::<u64, AstronomicalError>(p.luminosity),
            self.answer(mass) matches Err(e) ==> answer == Err::<u64, AstronomicalError>(e),
    {
        match self.properties(mass) {
            Ok(properties) => Ok(properties.luminosity),
            Err(error) => Err(error),
        }
    }

    /// The radius of a star of `mass`.
    pub fn star_mass_to_radius(&self, mass: u64) -> (answer: Result<u64, AstronomicalError>)
        ensures
            answer is Ok <==> Self::accepts(mass),
            self.answer(mass) matches Ok(p) ==> p.in_limits(),
            self.answer(mass) matches Ok(p) ==> answer == Ok::<u64, AstronomicalError>(p.radius),
            self.answer(mass) matches Err(e) ==> answer == Err::<u64, AstronomicalError>(e),
    {
        match self.properties(mass) {
            Ok(properties) => Ok(properties.radius),
            Err(error) => Err(error),
        }
    }

    /// The colour of a star of `mass`.
    pub fn star_mass_to_rgb(&self, mass: u64) -> (answer: Result<(u8, u8, u8), AstronomicalError>)
        ensures
            answer is Ok <==> Self::accepts(mass),
            self.answer(mass) matches Ok(p) ==> p.in_limits(),
            self.answer(mass) matches Ok(p) ==> answer == Ok::<(u8, u8, u8), AstronomicalError>(
                p.absolute_rgb,
            ),
            self.answer(mass) matches Err(e) ==> answer == Err::<(u8, u8, u8), AstronomicalError>(e),
    {
        match self.properties(mass) {
            Ok(properties) => Ok(properties.absolute_rgb),
            Err(error) => Err(error),
        }
    }

    /// The satellite zone of a star of `mass`.
    pub fn star_mass_to_satellite_zone(&self, mass: u64) -> (answer: Result<
        (u64, u64),
        AstronomicalError,
    >)
        ensures
            answer is Ok <==> Self::accepts(mass),
            self.answer(mass) matches Ok(p) ==> p.in_limits(),
            self.answer(mass) matches Ok(p) ==> answer == Ok::<(u64, u64), AstronomicalError>(
                p.satellite_zone,
            ),
            self.answer(mass) matches Err(e) ==> answer == Err::<(u64, u64), AstronomicalError>(e),
    {
        match self.properties(mass) {
            Ok(properties) => Ok(properties.satellite_zone),
            Err(error) => Err(error),
        }
    }
}

} // verus!
