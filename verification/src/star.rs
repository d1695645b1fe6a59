//! Main-sequence stars: the value, the constraints that bound its
//! generation, and the generator.

use vstd::prelude::*;

use crate::error::AstronomicalError;
use crate::fixed_point::lemma_sqrt_floor_is;
use crate::fixed_point::lemma_sqrt_floor_monotone;
use crate::fixed_point::UNIT;
use crate::formulas::density;
use crate::formulas::density_of;
use crate::formulas::frost_line;
use crate::formulas::frost_line_of;
use crate::formulas::habitable_zone;
use crate::formulas::habitable_zone_of;
use crate::formulas::life_expectancy;
use crate::formulas::life_expectancy_of;
use crate::oracle::FormulaOracle;
use crate::oracle::StellarProperties;
use crate::oracle::MAXIMUM_MASS;
use crate::oracle::MINIMUM_MASS;
use crate::random::uniform_draw;
use crate::random::weighted_draw;
use crate::random::Draw;
use crate::random::RandomStream;
use crate::spectral_class::SpectralClassType;

verus! {

/// The least mass of a star that can support life, in millionths of a solar
/// mass.
pub const MINIMUM_HABITABLE_MASS: u64 = 550_000;

/// The greatest mass of a star that can support life, in millionths of a
/// solar mass.
pub const MAXIMUM_HABITABLE_MASS: u64 = 1_250_000;

/// The least age of a star that can support life, in millionths of a billion
/// years.
pub const MINIMUM_HABITABLE_AGE: u64 = 4_000_000;

/// How many names a star can be given.
pub const STAR_NAME_COUNT: u64 = 12;

/// The name with the given number; the numbers from the count on all have
/// the last name.
pub open spec fn star_name_at(index: int) -> Seq<char> {
    if index == 0 {
        "Achird"@
    } else if index == 1 {
        "Bellatrix"@
    } else if index == 2 {
        "Castula"@
    } else if index == 3 {
        "Denebola"@
    } else if index == 4 {
        "Elnath"@
    } else if index == 5 {
        "Fafnir"@
    } else if index == 6 {
        "Gienah"@
    } else if index == 7 {
        "Hamal"@
    } else if index == 8 {
        "Izar"@
    } else if index == 9 {
        "Jabbah"@
    } else if index == 10 {
        "Kochab"@
    } else {
        "Lesath"@
    }
}

/// The text is one of the names that a star can be given.
pub open spec fn is_star_name(name: Seq<char>) -> bool {
    exists|index: int| 0 <= index < STAR_NAME_COUNT && name == star_name_at(index)
}

/// The name with the given number.
pub fn star_name(index: u64) -> (name: String)
    ensures
        name@ == star_name_at(index as int),
{
    let text: &str = match index {
        0 => "Achird",
        1 => "Bellatrix",
        2 => "Castula",
        3 => "Denebola",
        4 => "Elnath",
        5 => "Fafnir",
        6 => "Gienah",
        7 => "Hamal",
        8 => "Izar",
        9 => "Jabbah",
        10 => "Kochab",
        _ => "Lesath",
    };
    text.to_owned()
}

/// One number was drawn from those of the names, and `name` is the name of
/// that number.
pub open spec fn drew_name(before: Seq<Draw>, after: Seq<Draw>, index: u64, name: Seq<char>) -> bool {
    &&& after == before.push(uniform_draw(0, STAR_NAME_COUNT, index))
    &&& index < STAR_NAME_COUNT
    &&& name == star_name_at(index as int)
}

/// A name for a star.  One number is drawn from the stream, and the name is
/// the one with that number.
pub fn generate_star_name<R: RandomStream>(rng: &mut R) -> (name: String)
    ensures
        old(rng).drawn().is_prefix_of(final(rng).drawn()),
        final(rng).origin() == old(rng).origin(),
        is_star_name(name@),
        exists|index: u64| #[trigger] drew_name(old(rng).drawn(), final(rng).drawn(), index, name@),
{
    let index: u64 = rng.uniform(0, STAR_NAME_COUNT);
    let name: String = star_name(index);
    assert(drew_name(old(rng).drawn(), rng.drawn(), index, name@));
    name
}

/// A main-sequence star.
#[derive(Debug, PartialEq, Eq)]
pub struct Star {
    /// Spectral class.
    pub class: SpectralClassType,
    /// Mass, in millionths of a solar mass.
    pub mass: u64,
    /// Surface temperature, in millionths of a kelvin.
    pub temperature: u64,
    /// Radius, in millionths of a solar radius.
    pub radius: u64,
    /// Luminosity, in millionths of a solar luminosity.
    pub luminosity: u64,
    /// Time on the main sequence, in millionths of a billion years.
    pub life_expectancy: u64,
    /// Age, in millionths of a billion years.
    pub current_age: u64,
    /// Mean density, in millionths of the solar density.
    pub density: u64,
    /// Inner and outer edge of the habitable zone, in millionths of an
    /// astronomical unit.
    pub habitable_zone: (u64, u64),
    /// The nearest and the farthest orbit that a satellite can keep, in
    /// millionths of an astronomical unit.
    pub satellite_zone: (u64, u64),
    /// The frost line, in millionths of an astronomical unit.
    pub frost_line: u64,
    /// The colour of the star in sRGB.
    pub absolute_rgb: (u8, u8, u8),
    /// The name of the star.
    pub name: String,
}

impl Clone for Star {
    fn clone(&self) -> (copy: Star)
        ensures
            copy == *self,
    {
        Star {
            class: self.class,
            mass: self.mass,
            temperature: self.temperature,
            radius: self.radius,
            luminosity: self.luminosity,
            life_expectancy: self.life_expectancy,
            current_age: self.current_age,
            density: self.density,
            habitable_zone: self.habitable_zone,
            satellite_zone: self.satellite_zone,
            frost_line: self.frost_line,
            absolute_rgb: self.absolute_rgb,
            name: self.name.clone(),
        }
    }
}

impl Star {
    /// The star of the given mass, properties, age and name: every other
    /// field follows from these.
    pub open spec fn assembled(
        mass: u64,
        properties: StellarProperties,
        current_age: u64,
        name: String,
    ) -> Star {
        Star {
            class: SpectralClassType::class_of_temperature(properties.temperature),
            mass,
            temperature: properties.temperature,
            radius: properties.radius,
            luminosity: properties.luminosity,
            life_expectancy: life_expectancy_of(mass, properties.luminosity) as u64,
            current_age,
            density: density_of(mass, properties.radius) as u64,
            habitable_zone: (
                habitable_zone_of(properties.luminosity).0 as u64,
                habitable_zone_of(properties.luminosity).1 as u64,
            ),
            satellite_zone: properties.satellite_zone,
            frost_line: frost_line_of(properties.luminosity) as u64,
            absolute_rgb: properties.absolute_rgb,
            name,
        }
    }

    /// What the oracle must have said of this star.
    pub open spec fn properties(&self) -> StellarProperties {
        StellarProperties {
            temperature: self.temperature,
            luminosity: self.luminosity,
            radius: self.radius,
            satellite_zone: self.satellite_zone,
            absolute_rgb: self.absolute_rgb,
        }
    }

    /// The star is on the main sequence, its properties are within limits,
    /// its derived fields follow from its mass and properties, and its age
    /// lies strictly between zero and its life expectancy.
    pub open spec fn wf(&self) -> bool {
        &&& FormulaOracle::accepts(self.mass)
        &&& self.properties().in_limits()
        &&& self.derived_exactly()
        &&& 0 < self.current_age < self.life_expectancy
    }

    /// Each derived field holds the value of its formula, none of them cut
    /// short by the width of the field.
    pub open spec fn derived_exactly(&self) -> bool {
        &&& self.class == SpectralClassType::class_of_temperature(self.temperature)
        &&& self.life_expectancy == life_expectancy_of(self.mass, self.luminosity)
        &&& self.density == density_of(self.mass, self.radius)
        &&& self.habitable_zone.0 == habitable_zone_of(self.luminosity).0
        &&& self.habitable_zone.1 == habitable_zone_of(self.luminosity).1
        &&& self.frost_line == frost_line_of(self.luminosity)
        &&& self.life_expectancy <= self.mass * 10_000_000
    }

    /// In a well-formed star the mass, the luminosity, the radius, the
    /// temperature, the life expectancy and every distance are positive, and
    /// the habitable zone does not end before it begins.
    pub proof fn lemma_quantities_positive(&self)
        requires
            self.wf(),
        ensures
            0 < self.mass,
            0 < self.luminosity,
            0 < self.radius,
            0 < self.temperature,
            0 < self.life_expectancy,
            0 < self.habitable_zone.0 <= self.habitable_zone.1,
            0 < self.frost_line,
            0 < self.satellite_zone.0,
            0 < self.satellite_zone.1,
    {
        let scaled = self.luminosity * UNIT;
        let inner = (scaled * 10 / 11) as nat;
        let outer = (scaled * 100 / 53) as nat;
        lemma_sqrt_floor_monotone(1, inner);
        lemma_sqrt_floor_monotone(inner, outer);
        lemma_sqrt_floor_monotone(1, scaled as nat);
        lemma_sqrt_floor_is(1, 1);
    }

    /// The youngest that a star of the given life expectancy is drawn: a
    /// tenth of it, and never zero.
    pub open spec fn youngest(life_expectancy: u64) -> u64 {
        if life_expectancy < 10 {
            1
        } else {
            life_expectancy / 10
        }
    }

    /// The age below which a star of the given life expectancy is drawn: nine
    /// tenths of it.
    pub open spec fn oldest(life_expectancy: u64) -> int {
        life_expectancy * 9 / 10
    }

    /// The star of the given mass, properties, age and name.
    pub fn assemble(mass: u64, properties: StellarProperties, current_age: u64, name: String) -> (star:
        Star)
        requires
            mass <= MAXIMUM_MASS,
            properties.in_limits(),
        ensures
            star == Star::assembled(mass, properties, current_age, name),
            star.properties() == properties,
            star.derived_exactly(),
    {
        Star {
            class: SpectralClassType::from_temperature(properties.temperature),
            mass,
            temperature: properties.temperature,
            radius: properties.radius,
            luminosity: properties.luminosity,
            life_expectancy: life_expectancy(mass, properties.luminosity),
            current_age,
            density: density(mass, properties.radius),
            habitable_zone: habitable_zone(properties.luminosity),
            satellite_zone: properties.satellite_zone,
            frost_line: frost_line(properties.luminosity),
            absolute_rgb: properties.absolute_rgb,
            name,
        }
    }

    /// Whether this star is well formed.  A star that a generator returned
    /// always is; one put together by hand may not be.
    pub fn is_well_formed(&self) -> (ok: bool)
        ensures
            ok == self.wf(),
    {
        let properties = StellarProperties {
            temperature: self.temperature,
            luminosity: self.luminosity,
            radius: self.radius,
            satellite_zone: self.satellite_zone,
            absolute_rgb: self.absolute_rgb,
        };
        if self.mass <= MINIMUM_MASS || self.mass >= MAXIMUM_MASS || !properties.check_limits() {
            return false;
        }
        let zone: (u64, u64) = habitable_zone(self.luminosity);
        self.class == SpectralClassType::from_temperature(self.temperature) && self.life_expectancy
            == life_expectancy(self.mass, self.luminosity) && self.density == density(
            self.mass,
            self.radius,
        ) && self.habitable_zone.0 == zone.0 && self.habitable_zone.1 == zone.1 && self.frost_line
            == frost_line(self.luminosity) && 0 < self.current_age && self.current_age
            < self.life_expectancy
    }

    /// Why no star of `mass` can be made, if none can: the oracle rejects the
    /// mass, or the star would live so briefly that there is no age between a
    /// tenth and nine tenths of its life, which is a constraint that cannot be
    /// met.
    pub open spec fn rejection_of(oracle: &FormulaOracle, mass: u64) -> Option<AstronomicalError> {
        match oracle.answer(mass) {
            Err(error) => Some(error),
            Ok(properties) => {
                let life_expectancy = life_expectancy_of(mass, properties.luminosity) as u64;
                if Star::youngest(life_expectancy) >= Star::oldest(life_expectancy) {
                    Some(AstronomicalError::ConstraintUnsatisfiable)
                } else {
                    None
                }
            },
        }
    }

    /// What `from_mass` drew and returned where the star can be made: an age
    /// was drawn from a tenth to nine tenths of the life expectancy, then the
    /// number of a name, and the star is the one assembled from the oracle's
    /// answer with that age and that name.
    pub open spec fn drew_star(
        oracle: &FormulaOracle,
        mass: u64,
        before: Seq<Draw>,
        after: Seq<Draw>,
        outcome: Result<Star, AstronomicalError>,
        age: u64,
        index: u64,
    ) -> bool {
        &&& oracle.answer(mass) matches Ok(properties)
        &&& outcome matches Ok(star)
        &&& {
            let life_expectancy = life_expectancy_of(mass, properties.luminosity) as u64;
            &&& Star::youngest(life_expectancy) <= age < Star::oldest(life_expectancy)
            &&& after == before.push(
                uniform_draw(
                    Star::youngest(life_expectancy),
                    Star::oldest(life_expectancy) as u64,
                    age,
                ),
            ).push(uniform_draw(0, STAR_NAME_COUNT, index))
        }
        &&& index < STAR_NAME_COUNT
        &&& star == Star::assembled(mass, properties, age, star.name)
        &&& star.name@ == star_name_at(index as int)
        &&& star.wf()
    }

    /// What `from_mass` does and returns for `mass`.  Where no star can be
    /// made it fails with the reason, the oracle's failure unchanged, and
    /// draws nothing.  Otherwise it draws an age and a name and returns the
    /// star of these.
    pub open spec fn from_mass_ran(
        oracle: &FormulaOracle,
        mass: u64,
        before: Seq<Draw>,
        after: Seq<Draw>,
        outcome: Result<Star, AstronomicalError>,
    ) -> bool {
        match Star::rejection_of(oracle, mass) {
            Some(error) => outcome == Err::<Star, AstronomicalError>(error) && after == before,
            None => exists|age: u64, index: u64| #[trigger]
                Star::drew_star(oracle, mass, before, after, outcome, age, index),
        }
    }

    /// A main-sequence star of the given mass.
    pub fn from_mass<R: RandomStream>(rng: &mut R, oracle: &FormulaOracle, mass: u64) -> (outcome:
        Result<Star, AstronomicalError>)
        ensures
            old(rng).drawn().is_prefix_of(final(rng).drawn()),
            final(rng).origin() == old(rng).origin(),
            Star::from_mass_ran(oracle, mass, old(rng).drawn(), final(rng).drawn(), outcome),
            outcome matches Ok(star) ==> star.wf() && star.mass == mass,
            outcome is Err ==> final(rng).drawn() == old(rng).drawn(),
    {
        let temperature: u64 = oracle.star_mass_to_temperature(mass)?;
        let luminosity: u64 = oracle.star_mass_to_luminosity(mass)?;
        let radius: u64 = oracle.star_mass_to_radius(mass)?;
        let satellite_zone: (u64, u64) = oracle.star_mass_to_satellite_zone(mass)?;
        let absolute_rgb: (u8, u8, u8) = oracle.star_mass_to_rgb(mass)?;
        let properties = StellarProperties {
            temperature,
            luminosity,
            radius,
            satellite_zone,
            absolute_rgb,
        };
        let life_expectancy: u64 = life_expectancy(mass, luminosity);
        let lower_bound_age: u64 = if life_expectancy < 10 {
            1
        } else {
            life_expectancy / 10
        };
        let upper_bound_age: u64 = life_expectancy * 9 / 10;
        if lower_bound_age >= upper_bound_age {
            return Err(AstronomicalError::ConstraintUnsatisfiable);
        }
        let current_age: u64 = rng.uniform(lower_bound_age, upper_bound_age);
        let index: u64 = rng.uniform(0, STAR_NAME_COUNT);
        let name: String = star_name(index);
        let star = Star::assemble(mass, properties, current_age, name);
        assert(Star::drew_star(
            oracle,
            mass,
            old(rng).drawn(),
            rng.drawn(),
            Ok(star),
            current_age,
            index,
        ));
        Ok(star)
    }

    /// A star depends on nothing but the mass, the oracle and what was drawn
    /// for it.  Two runs of `from_mass` for one mass by one oracle that left
    /// the same record behind fail alike or return stars that agree in every
    /// field, the age among them; their names are the same text.
    pub proof fn lemma_from_mass_determined(
        oracle: &FormulaOracle,
        mass: u64,
        before: Seq<Draw>,
        after: Seq<Draw>,
        first: Result<Star, AstronomicalError>,
        second: Result<Star, AstronomicalError>,
    )
        requires
            Star::from_mass_ran(oracle, mass, before, after, first),
            Star::from_mass_ran(oracle, mass, before, after, second),
        ensures
            first is Ok <==> second is Ok,
            first is Ok <==> Star::rejection_of(oracle, mass) is None,
            first is Err ==> first == second,
            first matches Ok(a) ==> (second matches Ok(b) ==> {
                &&& a.class == b.class
                &&& a.mass == b.mass
                &&& a.temperature == b.temperature
                &&& a.luminosity == b.luminosity
                &&& a.radius == b.radius
                &&& a.life_expectancy == b.life_expectancy
                &&& a.current_age == b.current_age
                &&& a.density == b.density
                &&& a.habitable_zone == b.habitable_zone
                &&& a.satellite_zone == b.satellite_zone
                &&& a.frost_line == b.frost_line
                &&& a.absolute_rgb == b.absolute_rgb
                &&& a.name@ == b.name@
            }),
    {
        if Star::rejection_of(oracle, mass) is None {
            let (age_a, index_a) = choose|age: u64, index: u64| #[trigger]
                Star::drew_star(oracle, mass, before, after, first, age, index);
            let (age_b, index_b) = choose|age: u64, index: u64| #[trigger]
                Star::drew_star(oracle, mass, before, after, second, age, index);
            let properties = oracle.answer(mass)->Ok_0;
            let life_expectancy = life_expectancy_of(mass, properties.luminosity) as u64;
            let low = Star::youngest(life_expectancy);
            let high = Star::oldest(life_expectancy) as u64;
            let one = before.push(uniform_draw(low, high, age_a));
            let other = before.push(uniform_draw(low, high, age_b));
            assert(one.push(uniform_draw(0, STAR_NAME_COUNT, index_a)).last() == other.push(
                uniform_draw(0, STAR_NAME_COUNT, index_b),
            ).last());
            assert(other.push(uniform_draw(0, STAR_NAME_COUNT, index_b)).drop_last() =~= other);
            assert(one.last() == other.last());
        }
    }

    /// Why this star cannot support life, if it cannot: its mass is below or
    /// above the habitable masses, or it is younger than life needs.
    pub open spec fn habitability(&self) -> Result<(), AstronomicalError> {
        if self.mass < MINIMUM_HABITABLE_MASS {
            Err(AstronomicalError::MassTooLowToSupportLife)
        } else if self.mass > MAXIMUM_HABITABLE_MASS {
            Err(AstronomicalError::MassTooHighToSupportLife)
        } else if self.current_age < MINIMUM_HABITABLE_AGE {
            Err(AstronomicalError::TooYoungToSupportLife)
        } else {
            Ok(())
        }
    }

    /// Checks that this star can support life.
    pub fn check_habitable(&self) -> (verdict: Result<(), AstronomicalError>)
        ensures
            verdict == self.habitability(),
    {
        if self.mass < MINIMUM_HABITABLE_MASS {
            return Err(AstronomicalError::MassTooLowToSupportLife);
        }
        if self.mass > MAXIMUM_HABITABLE_MASS {
            return Err(AstronomicalError::MassTooHighToSupportLife);
        }
        if self.current_age < MINIMUM_HABITABLE_AGE {
            return Err(AstronomicalError::TooYoungToSupportLife);
        }
        Ok(())
    }

    /// Whether this star can support life.
    pub fn is_habitable(&self) -> (habitable: bool)
        ensures
            habitable == self.habitability().is_ok(),
    {
        match self.check_habitable() {
            Ok(()) => true,
            Err(_) => false,
        }
    }
}

/// Constraints on the generation of a main-sequence star.
#[derive(Clone, Copy, Debug, PartialEq, Eq)]
pub struct Constraints {
    /// The least mass, in millionths of a solar mass.
    pub minimum_mass: Option<u64>,
    /// The mass that the star must stay below, in millionths of a solar mass.
    pub maximum_mass: Option<u64>,
    /// Whether the star must be able to support life.
    pub make_habitable: bool,
}

impl Default for Constraints {
    /// No constraint at all.
    fn default() -> (constraints: Constraints)
        ensures
            constraints == Constraints::unconstrained(),
    {
        Constraints { minimum_mass: None, maximum_mass: None, make_habitable: false }
    }
}

impl Constraints {
    /// The record with every bound unset and no flag raised.
    pub open spec fn unconstrained() -> Constraints {
        Constraints { minimum_mass: None, maximum_mass: None, make_habitable: false }
    }

    /// The record that `habitable` builds.
    pub open spec fn habitable_preset() -> Constraints {
        Constraints {
            minimum_mass: Some(MINIMUM_HABITABLE_MASS),
            maximum_mass: Some(MAXIMUM_HABITABLE_MASS),
            make_habitable: true,
        }
    }

    /// Constraints for a star that can support life: the habitable masses and
    /// the habitability flag.
    pub fn habitable() -> (constraints: Constraints)
        ensures
            constraints == Constraints::habitable_preset(),
    {
        Constraints {
            minimum_mass: Some(MINIMUM_HABITABLE_MASS),
            maximum_mass: Some(MAXIMUM_HABITABLE_MASS),
            make_habitable: true,
        }
    }

    /// The least mass: the one set, or the lower end of the main sequence.
    pub open spec fn resolved_minimum_mass(&self) -> u64 {
        match self.minimum_mass {
            Some(mass) => mass,
            None => MINIMUM_MASS,
        }
    }

    /// The mass to stay below: the one set, or the upper end of the main
    /// sequence.
    pub open spec fn resolved_maximum_mass(&self) -> u64 {
        match self.maximum_mass {
            Some(mass) => mass,
            None => MAXIMUM_MASS,
        }
    }

    /// The masses from which a star of the drawn class is drawn: the masses
    /// of the class, or its habitable masses under the habitability flag,
    /// narrowed by the resolved bounds.  A class without such masses, or an
    /// empty range, is a constraint that cannot be met.
    pub open spec fn mass_range_of(&self, class: SpectralClassType) -> Result<
        (u64, u64),
        AstronomicalError,
    > {
        let base = if self.make_habitable {
            class.habitable_mass_range_of()
        } else {
            class.mass_range_of()
        };
        match base {
            None => Err(AstronomicalError::ConstraintUnsatisfiable),
            Some((class_low, class_high)) => {
                let low = if class_low < self.resolved_minimum_mass() {
                    self.resolved_minimum_mass()
                } else {
                    class_low
                };
                let high = if self.resolved_maximum_mass() < class_high {
                    self.resolved_maximum_mass()
                } else {
                    class_high
                };
                if low < high {
                    Ok((low, high))
                } else {
                    Err(AstronomicalError::ConstraintUnsatisfiable)
                }
            },
        }
    }

    /// The masses from which a star of the drawn class is drawn.
    pub fn mass_range(&self, class: SpectralClassType) -> (range: Result<
        (u64, u64),
        AstronomicalError,
    >)
        ensures
            range == self.mass_range_of(class),
    {
        let minimum_mass: u64 = match self.minimum_mass {
            Some(mass) => mass,
            None => MINIMUM_MASS,
        };
        let maximum_mass: u64 = match self.maximum_mass {
            Some(mass) => mass,
            None => MAXIMUM_MASS,
        };
        let base: Option<(u64, u64)> = if self.make_habitable {
            class.spectral_class_to_habitable_mass_range()
        } else {
            class.spectral_class_to_mass_range()
        };
        match base {
            None => Err(AstronomicalError::ConstraintUnsatisfiable),
            Some((class_low, class_high)) => {
                let low: u64 = if class_low < minimum_mass {
                    minimum_mass
                } else {
                    class_low
                };
                let high: u64 = if maximum_mass < class_high {
                    maximum_mass
                } else {
                    class_high
                };
                if low < high {
                    Ok((low, high))
                } else {
                    Err(AstronomicalError::ConstraintUnsatisfiable)
                }
            },
        }
    }

    /// The ages from which the age of a star of the given life expectancy is
    /// drawn: from a tenth of the life expectancy, or under the habitability
    /// flag from the least habitable age, to nine tenths of the life
    /// expectancy.  An empty range is a constraint that cannot be met.
    pub open spec fn age_range_of(&self, life_expectancy: u64) -> Result<
        (u64, u64),
        AstronomicalError,
    > {
        let low = if self.make_habitable {
            MINIMUM_HABITABLE_AGE
        } else {
            Star::youngest(life_expectancy)
        };
        let high = Star::oldest(life_expectancy);
        if low < high {
            Ok((low, high as u64))
        } else {
            Err(AstronomicalError::ConstraintUnsatisfiable)
        }
    }

    /// The ages from which the age of a star of the given life expectancy is
    /// drawn.
    pub fn age_range(&self, life_expectancy: u64) -> (range: Result<(u64, u64), AstronomicalError>)
        requires
            life_expectancy * 9 <= u64::MAX,
        ensures
            range == self.age_range_of(life_expectancy),
    {
        let low: u64 = if self.make_habitable {
            MINIMUM_HABITABLE_AGE
        } else if life_expectancy < 10 {
            1
        } else {
            life_expectancy / 10
        };
        let high: u64 = life_expectancy * 9 / 10;
        if low < high {
            Ok((low, high))
        } else {
            Err(AstronomicalError::ConstraintUnsatisfiable)
        }
    }

    /// The star with its age drawn anew: `age` was drawn from the age range
    /// of these constraints, and the outcome is the star at that age.
    pub open spec fn drew_age(
        &self,
        star: Star,
        before: Seq<Draw>,
        after: Seq<Draw>,
        outcome: Result<Star, AstronomicalError>,
        age: u64,
    ) -> bool {
        &&& self.age_range_of(star.life_expectancy) matches Ok((youngest, oldest))
        &&& youngest <= age < oldest
        &&& after == before.push(uniform_draw(youngest, oldest, age))
        &&& outcome matches Ok(aged)
        &&& aged == (Star { current_age: age, ..star })
    }

    /// What generation does once the mass is known, with `first` what
    /// `Star::from_mass` returned and `between` the record it left: a failure
    /// of `from_mass` is handed on; so is an empty age range, with nothing
    /// more drawn; otherwise the age is drawn anew.
    pub open spec fn made_of_mass(
        &self,
        oracle: &FormulaOracle,
        mass: u64,
        before: Seq<Draw>,
        after: Seq<Draw>,
        outcome: Result<Star, AstronomicalError>,
        between: Seq<Draw>,
        first: Result<Star, AstronomicalError>,
    ) -> bool {
        &&& Star::from_mass_ran(oracle, mass, before, between, first)
        &&& match first {
            Err(error) => outcome == Err::<Star, AstronomicalError>(error) && after == between,
            Ok(star) => match self.age_range_of(star.life_expectancy) {
                Err(error) => outcome == Err::<Star, AstronomicalError>(error) && after
                    == between,
                Ok(_) => exists|age: u64| #[trigger]
                    self.drew_age(star, between, after, outcome, age),
            },
        }
    }

    /// What generation does and returns once the mass is known.
    pub open spec fn generate_of_mass_ran(
        &self,
        oracle: &FormulaOracle,
        mass: u64,
        before: Seq<Draw>,
        after: Seq<Draw>,
        outcome: Result<Star, AstronomicalError>,
    ) -> bool {
        exists|between: Seq<Draw>, first: Result<Star, AstronomicalError>| #[trigger]
            self.made_of_mass(oracle, mass, before, after, outcome, between, first)
    }

    /// `mass` was drawn from the masses of the class, and generation went on
    /// from there.
    pub open spec fn drew_mass(
        &self,
        oracle: &FormulaOracle,
        class: SpectralClassType,
        before: Seq<Draw>,
        after: Seq<Draw>,
        outcome: Result<Star, AstronomicalError>,
        mass: u64,
    ) -> bool {
        &&& self.mass_range_of(class) matches Ok((low, high))
        &&& low <= mass < high
        &&& self.generate_of_mass_ran(
            oracle,
            mass,
            before.push(uniform_draw(low, high, mass)),
            after,
            outcome,
        )
    }

    /// What generation does and returns once the class is known: an empty
    /// range of masses is a constraint that cannot be met, with nothing
    /// drawn; otherwise a mass is drawn from the range.
    pub open spec fn generate_of_class_ran(
        &self,
        oracle: &FormulaOracle,
        class: SpectralClassType,
        before: Seq<Draw>,
        after: Seq<Draw>,
        outcome: Result<Star, AstronomicalError>,
    ) -> bool {
        match self.mass_range_of(class) {
            Err(error) => outcome == Err::<Star, AstronomicalError>(error) && after == before,
            Ok(_) => exists|mass: u64| #[trigger]
                self.drew_mass(oracle, class, before, after, outcome, mass),
        }
    }

    /// The classes that generation draws from: those of a habitable star
    /// under the habitability flag, else those of any main-sequence star.
    pub open spec fn draws_class(&self, class: SpectralClassType) -> bool {
        if self.make_habitable {
            class.is_habitable_draw()
        } else {
            class.is_main_sequence_draw()
        }
    }

    /// The index of `class` was drawn by the weights of the classes that
    /// generation draws from, and generation went on from there.
    pub open spec fn drew_class(
        &self,
        oracle: &FormulaOracle,
        before: Seq<Draw>,
        after: Seq<Draw>,
        outcome: Result<Star, AstronomicalError>,
        index: usize,
        class: SpectralClassType,
    ) -> bool {
        let between = before.push(
            weighted_draw(
                if self.make_habitable {
                    SpectralClassType::habitable_weights()
                } else {
                    SpectralClassType::main_sequence_weights()
                },
                index,
            ),
        );
        &&& if self.make_habitable {
            SpectralClassType::habitable_choice_at(index) == Some(class)
        } else {
            SpectralClassType::main_sequence_choice_at(index) == Some(class)
        }
        &&& self.generate_of_class_ran(oracle, class, between, after, outcome)
    }

    /// What generation does and returns: it draws a class by weight, then a
    /// mass from the masses of the class within the resolved bounds, then
    /// makes the star of that mass, and draws its age anew from the age
    /// range.
    pub open spec fn generate_ran(
        &self,
        oracle: &FormulaOracle,
        before: Seq<Draw>,
        after: Seq<Draw>,
        outcome: Result<Star, AstronomicalError>,
    ) -> bool {
        exists|index: usize, class: SpectralClassType| #[trigger]
            self.drew_class(oracle, before, after, outcome, index, class)
    }

    /// The only failure that generation reports: a range of masses or of
    /// ages is empty.  The oracle never rejects a mass drawn from the masses
    /// of a class.
    pub open spec fn is_generation_failure(error: AstronomicalError) -> bool {
        error == AstronomicalError::ConstraintUnsatisfiable
    }

    /// A star of the given mass, with its age drawn from the age range of
    /// these constraints.
    pub fn generate_of_mass<R: RandomStream>(
        &self,
        rng: &mut R,
        oracle: &FormulaOracle,
        mass: u64,
    ) -> (outcome: Result<Star, AstronomicalError>)
        ensures
            old(rng).drawn().is_prefix_of(final(rng).drawn()),
            final(rng).origin() == old(rng).origin(),
            self.generate_of_mass_ran(oracle, mass, old(rng).drawn(), final(rng).drawn(), outcome),
            outcome matches Ok(star) ==> {
                &&& star.wf()
                &&& star.mass == mass
                &&& self.make_habitable ==> star.current_age >= MINIMUM_HABITABLE_AGE
            },
            outcome matches Err(error) ==> error == AstronomicalError::ConstraintUnsatisfiable
                || Star::rejection_of(oracle, mass) == Some(error),
    {
        let first = Star::from_mass(rng, oracle, mass);
        let ghost between = rng.drawn();
        let mut star: Star = match first {
            Ok(star) => star,
            Err(error) => {
                assert(self.made_of_mass(
                    oracle,
                    mass,
                    old(rng).drawn(),
                    rng.drawn(),
                    Err(error),
                    between,
                    first,
                ));
                return Err(error);
            },
        };
        let ghost made = star;
        let (minimum_age, maximum_age) = match self.age_range(star.life_expectancy) {
            Ok(range) => range,
            Err(error) => {
                assert(self.made_of_mass(
                    oracle,
                    mass,
                    old(rng).drawn(),
                    rng.drawn(),
                    Err(error),
                    between,
                    first,
                ));
                return Err(error);
            },
        };
        star.current_age = rng.uniform(minimum_age, maximum_age);
        proof {
            assert(self.drew_age(made, between, rng.drawn(), Ok(star), star.current_age));
            assert(self.made_of_mass(
                oracle,
                mass,
                old(rng).drawn(),
                rng.drawn(),
                Ok(star),
                between,
                first,
            ));
        }
        Ok(star)
    }

    /// A star of the given class, with its mass drawn from the mass range of
    /// these constraints for that class.
    pub fn generate_of_class<R: RandomStream>(
        &self,
        rng: &mut R,
        oracle: &FormulaOracle,
        class: SpectralClassType,
    ) -> (outcome: Result<Star, AstronomicalError>)
        ensures
            old(rng).drawn().is_prefix_of(final(rng).drawn()),
            final(rng).origin() == old(rng).origin(),
            self.generate_of_class_ran(
                oracle,
                class,
                old(rng).drawn(),
                final(rng).drawn(),
                outcome,
            ),
            outcome matches Ok(star) ==> {
                &&& star.wf()
                &&& self.mass_range_of(class) matches Ok((low, high)) && low <= star.mass < high
                &&& self.make_habitable ==> star.current_age >= MINIMUM_HABITABLE_AGE
            },
            outcome matches Err(error) ==> error == AstronomicalError::ConstraintUnsatisfiable
                || (exists|mass: u64| #[trigger] Star::rejection_of(oracle, mass) == Some(error)),
    {
        let (lower_bound_mass, upper_bound_mass) = match self.mass_range(class) {
            Ok(range) => range,
            Err(error) => {
                return Err(error);
            },
        };
        let mass: u64 = rng.uniform(lower_bound_mass, upper_bound_mass);
        let outcome = self.generate_of_mass(rng, oracle, mass);
        assert(self.drew_mass(oracle, class, old(rng).drawn(), rng.drawn(), outcome, mass));
        outcome
    }

    /// A main-sequence star within these constraints: a class is drawn by
    /// abundance, a mass from the masses of the class within the resolved
    /// bounds, every property from the oracle, and an age from the age range.
    /// A star that is returned is well formed, its mass lies within the
    /// resolved bounds, and under the habitability flag it can support life.
    pub fn generate<R: RandomStream>(&self, rng: &mut R, oracle: &FormulaOracle) -> (outcome: Result<
        Star,
        AstronomicalError,
    >)
        ensures
            old(rng).drawn().is_prefix_of(final(rng).drawn()),
            final(rng).origin() == old(rng).origin(),
            self.generate_ran(oracle, old(rng).drawn(), final(rng).drawn(), outcome),
            outcome matches Ok(star) ==> {
                &&& star.wf()
                &&& self.resolved_minimum_mass() <= star.mass < self.resolved_maximum_mass()
                &&& self.make_habitable ==> star.habitability().is_ok()
            },
            outcome matches Err(error) ==> Constraints::is_generation_failure(error),
    {
        let ghost before = rng.drawn();
        let random_spectral_class: SpectralClassType = if self.make_habitable {
            SpectralClassType::get_random_habitable(rng)
        } else {
            SpectralClassType::get_random_main_sequence(rng)
        };
        let ghost between = rng.drawn();
        let outcome = self.generate_of_class(rng, oracle, random_spectral_class);
        proof {
            if self.make_habitable {
                let index = choose|index: usize| #[trigger]
                    SpectralClassType::drew_habitable_class(
                        before,
                        between,
                        index,
                        random_spectral_class,
                    );
                assert(self.drew_class(
                    oracle,
                    before,
                    rng.drawn(),
                    outcome,
                    index,
                    random_spectral_class,
                ));
            } else {
                let index = choose|index: usize| #[trigger]
                    SpectralClassType::drew_main_sequence_class(
                        before,
                        between,
                        index,
                        random_spectral_class,
                    );
                assert(self.drew_class(
                    oracle,
                    before,
                    rng.drawn(),
                    outcome,
                    index,
                    random_spectral_class,
                ));
            }
        }
        outcome
    }
}

} // verus!
