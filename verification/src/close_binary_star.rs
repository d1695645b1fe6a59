//! Close binary stars: two stars bound closely enough to host planets as
//! one.

use vstd::prelude::*;

use crate::constraint::resolve;
use crate::constraint::value_or;
use crate::error::AstronomicalError;
use crate::fixed_point::UNIT;
use crate::formulas::clears_forbidden_reach;
use crate::formulas::clears_reach;
use crate::formulas::frost_line;
use crate::formulas::frost_line_of;
use crate::formulas::habitable_zone;
use crate::formulas::habitable_zone_of;
use crate::formulas::is_least_clearing_mass;
use crate::formulas::least_clearing_mass;
use crate::formulas::lemma_clearing_monotone;
use crate::formulas::satellite_zone;
use crate::formulas::satellite_zone_of;
use crate::formulas::SEPARATION_LIMIT;
use crate::oracle::FormulaOracle;
use crate::oracle::StellarProperties;
use crate::oracle::MAXIMUM_MASS;
use crate::oracle::MINIMUM_MASS;
use crate::random::uniform_draw;
use crate::random::Draw;
use crate::random::RandomStream;
use crate::star::Star;
use crate::star::MAXIMUM_HABITABLE_MASS;
use crate::star::MINIMUM_HABITABLE_MASS;

verus! {

/// The least average separation of the two stars, in millionths of an
/// astronomical unit.
pub const MINIMUM_AVERAGE_SEPARATION: u64 = 40_000;

/// The average separation that the two stars stay below, in millionths of an
/// astronomical unit.
pub const MAXIMUM_AVERAGE_SEPARATION: u64 = 400_000;

/// The least combined mass, in millionths of a solar mass.
pub const MINIMUM_COMBINED_MASS: u64 = 200_000;

/// The combined mass that the two stars stay below, in millionths of a solar
/// mass.
pub const MAXIMUM_COMBINED_MASS: u64 = MAXIMUM_MASS;

/// The least mass of either star, in millionths of a solar mass.
pub const MINIMUM_INDIVIDUAL_MASS: u64 = MINIMUM_MASS;

/// The mass that either star stays below, in millionths of a solar mass.
pub const MAXIMUM_INDIVIDUAL_MASS: u64 = MAXIMUM_MASS;

/// The least orbital eccentricity, in millionths.
pub const MINIMUM_ORBITAL_ECCENTRICITY: u64 = 100_000;

/// The orbital eccentricity that the pair stays below, in millionths.
pub const MAXIMUM_ORBITAL_ECCENTRICITY: u64 = 700_000;

/// The least combined mass of a pair that can support life, in millionths of
/// a solar mass.
pub const MINIMUM_HABITABLE_COMBINED_MASS: u64 = 1_100_000;

/// The greatest combined mass of a pair that can support life, in millionths
/// of a solar mass.
pub const MAXIMUM_HABITABLE_COMBINED_MASS: u64 = 2_500_000;

/// The least mass of either star of a pair that can support life, in
/// millionths of a solar mass.
pub const MINIMUM_HABITABLE_INDIVIDUAL_MASS: u64 = MINIMUM_HABITABLE_MASS;

/// The greatest mass of either star of a pair that can support life, in
/// millionths of a solar mass.
pub const MAXIMUM_HABITABLE_INDIVIDUAL_MASS: u64 = MAXIMUM_HABITABLE_MASS;

/// The average separation that a pair that can support life stays below, in
/// millionths of an astronomical unit.
pub const MAXIMUM_HABITABLE_SEPARATION: u64 = 100_000;

/// The least age of a pair that can support life, in millionths of a billion
/// years.
pub const MINIMUM_HABITABLE_AGE: u64 = 4_000_000;

/// The mass that the lighter star must exceed, in millionths of a solar mass.
pub const MINIMUM_MAIN_SEQUENCE_STAR_MASS: u64 = MINIMUM_MASS;

/// A close binary star.
#[derive(Debug, PartialEq, Eq)]
pub struct CloseBinaryStar {
    /// The heavier star.
    pub primary: Star,
    /// The lighter star.
    pub secondary: Star,
    /// Average separation of the two, in millionths of an astronomical unit.
    pub average_separation: u64,
    /// Orbital eccentricity, in millionths.
    pub orbital_eccentricity: u64,
    /// The mass of both stars, in millionths of a solar mass.
    pub combined_mass: u64,
    /// The luminosity of both stars, in millionths of a solar luminosity.
    pub combined_luminosity: u64,
    /// Inner and outer edge of the habitable zone around both stars, in
    /// millionths of an astronomical unit.
    pub habitable_zone: (u64, u64),
    /// The nearest and the farthest orbit that a satellite of both stars can
    /// keep, in millionths of an astronomical unit.
    pub satellite_zone: (u64, u64),
    /// The frost line around both stars, in millionths of an astronomical
    /// unit.
    pub frost_line: u64,
}

impl Clone for CloseBinaryStar {
    fn clone(&self) -> (copy: CloseBinaryStar)
        ensures
            copy == *self,
    {
        CloseBinaryStar {
            primary: self.primary.clone(),
            secondary: self.secondary.clone(),
            average_separation: self.average_separation,
            orbital_eccentricity: self.orbital_eccentricity,
            combined_mass: self.combined_mass,
            combined_luminosity: self.combined_luminosity,
            habitable_zone: self.habitable_zone,
            satellite_zone: self.satellite_zone,
            frost_line: self.frost_line,
        }
    }
}

impl CloseBinaryStar {
    /// The pair of the given stars, separation and eccentricity: the combined
    /// mass and luminosity are the sums, and the zones are those of a single
    /// source of the combined luminosity and mass.
    pub open spec fn composed(
        primary: Star,
        secondary: Star,
        average_separation: u64,
        orbital_eccentricity: u64,
    ) -> CloseBinaryStar {
        let combined_mass = (primary.mass + secondary.mass) as u64;
        let combined_luminosity = (primary.luminosity + secondary.luminosity) as u64;
        CloseBinaryStar {
            primary,
            secondary,
            average_separation,
            orbital_eccentricity,
            combined_mass,
            combined_luminosity,
            habitable_zone: (
                habitable_zone_of(combined_luminosity).0 as u64,
                habitable_zone_of(combined_luminosity).1 as u64,
            ),
            satellite_zone: (
                satellite_zone_of(combined_mass).0 as u64,
                satellite_zone_of(combined_mass).1 as u64,
            ),
            frost_line: frost_line_of(combined_luminosity) as u64,
        }
    }

    /// Both stars are well formed, the eccentricity is below one, the
    /// separation is within its limit, and every combined field holds the
    /// value of its formula.
    pub open spec fn wf(&self) -> bool {
        &&& self.primary.wf()
        &&& self.secondary.wf()
        &&& self.orbital_eccentricity < UNIT
        &&& self.average_separation <= SEPARATION_LIMIT
        &&& self.combined_mass == self.primary.mass + self.secondary.mass
        &&& self.combined_luminosity == self.primary.luminosity + self.secondary.luminosity
        &&& self.habitable_zone.0 == habitable_zone_of(self.combined_luminosity).0
        &&& self.habitable_zone.1 == habitable_zone_of(self.combined_luminosity).1
        &&& self.satellite_zone.0 == satellite_zone_of(self.combined_mass).0
        &&& self.satellite_zone.1 == satellite_zone_of(self.combined_mass).1
        &&& self.frost_line == frost_line_of(self.combined_luminosity)
    }

    /// Whether this pair is well formed.  A pair that a generator returned
    /// always is; one put together by hand may not be.
    pub fn is_well_formed(&self) -> (ok: bool)
        ensures
            ok == self.wf(),
    {
        if !self.primary.is_well_formed() || !self.secondary.is_well_formed() {
            return false;
        }
        if self.orbital_eccentricity >= UNIT || self.average_separation > SEPARATION_LIMIT {
            return false;
        }
        let combined_mass: u64 = self.primary.mass + self.secondary.mass;
        let combined_luminosity: u64 = self.primary.luminosity + self.secondary.luminosity;
        let habitable: (u64, u64) = habitable_zone(combined_luminosity);
        let satellites: (u64, u64) = satellite_zone(combined_mass);
        self.combined_mass == combined_mass && self.combined_luminosity == combined_luminosity
            && self.habitable_zone.0 == habitable.0 && self.habitable_zone.1 == habitable.1
            && self.satellite_zone.0 == satellites.0 && self.satellite_zone.1 == satellites.1
            && self.frost_line == frost_line(combined_luminosity)
    }

    /// What `from_stars` returns: a quantity out of range where the
    /// eccentricity is one or more or the separation beyond its limit, and
    /// the composed pair otherwise.
    pub open spec fn from_stars_result(
        primary: Star,
        secondary: Star,
        average_separation: u64,
        orbital_eccentricity: u64,
    ) -> Result<CloseBinaryStar, AstronomicalError> {
        if orbital_eccentricity >= UNIT || average_separation > SEPARATION_LIMIT {
            Err(AstronomicalError::QuantityOutOfRange)
        } else {
            Ok(Self::composed(primary, secondary, average_separation, orbital_eccentricity))
        }
    }

    /// The close binary of two stars at the given separation and
    /// eccentricity.
    pub fn from_stars(
        primary: Star,
        secondary: Star,
        average_separation: u64,
        orbital_eccentricity: u64,
    ) -> (outcome: Result<CloseBinaryStar, AstronomicalError>)
        requires
            primary.wf(),
            secondary.wf(),
        ensures
            outcome == Self::from_stars_result(
                primary,
                secondary,
                average_separation,
                orbital_eccentricity,
            ),
            outcome matches Ok(binary) ==> binary.wf(),
    {
        if orbital_eccentricity >= UNIT || average_separation > SEPARATION_LIMIT {
            return Err(AstronomicalError::QuantityOutOfRange);
        }
        let combined_mass: u64 = primary.mass + secondary.mass;
        let combined_luminosity: u64 = primary.luminosity + secondary.luminosity;
        Ok(
            CloseBinaryStar {
                primary,
                secondary,
                average_separation,
                orbital_eccentricity,
                combined_mass,
                combined_luminosity,
                habitable_zone: habitable_zone(combined_luminosity),
                satellite_zone: satellite_zone(combined_mass),
                frost_line: frost_line(combined_luminosity),
            },
        )
    }

    /// Why this pair cannot support life, if it cannot: its combined mass is
    /// above the habitable combined masses, or too low to put the habitable
    /// zone beyond the reach within which no orbit around both stars is
    /// stable.
    pub open spec fn habitability(&self) -> Result<(), AstronomicalError> {
        if self.combined_mass > MAXIMUM_HABITABLE_COMBINED_MASS {
            Err(AstronomicalError::MassTooHighToSupportLife)
        } else if !clears_forbidden_reach(
            self.combined_mass,
            self.average_separation,
            self.orbital_eccentricity,
        ) {
            Err(AstronomicalError::MassTooLowToSupportLife)
        } else {
            Ok(())
        }
    }

    /// Checks that this pair can support life.
    pub fn check_habitable(&self) -> (verdict: Result<(), AstronomicalError>)
        requires
            self.wf(),
        ensures
            verdict == self.habitability(),
    {
        if self.combined_mass > MAXIMUM_HABITABLE_COMBINED_MASS {
            return Err(AstronomicalError::MassTooHighToSupportLife);
        }
        if !clears_reach(self.combined_mass, self.average_separation, self.orbital_eccentricity) {
            return Err(AstronomicalError::MassTooLowToSupportLife);
        }
        Ok(())
    }

    /// Whether this pair can support life.
    pub fn is_habitable(&self) -> (habitable: bool)
        requires
            self.wf(),
        ensures
            habitable == self.habitability().is_ok(),
    {
        match self.check_habitable() {
            Ok(()) => true,
            Err(_) => false,
        }
    }
}

/// Constraints on the generation of a close binary star.
#[derive(Clone, Copy, Debug, PartialEq, Eq)]
pub struct Constraints {
    /// The least combined mass, in millionths of a solar mass.
    pub minimum_combined_mass: Option<u64>,
    /// The combined mass to stay below, in millionths of a solar mass.
    pub maximum_combined_mass: Option<u64>,
    /// The least mass of either star, in millionths of a solar mass.
    pub minimum_individual_mass: Option<u64>,
    /// The mass for either star to stay below, in millionths of a solar
    /// mass.
    pub maximum_individual_mass: Option<u64>,
    /// The least average separation, in millionths of an astronomical unit.
    pub minimum_average_separation: Option<u64>,
    /// The average separation to stay below, in millionths of an
    /// astronomical unit.
    pub maximum_average_separation: Option<u64>,
    /// The least orbital eccentricity, in millionths.
    pub minimum_orbital_eccentricity: Option<u64>,
    /// The orbital eccentricity to stay below, in millionths.
    pub maximum_orbital_eccentricity: Option<u64>,
    /// The least age of the stars, in millionths of a billion years.  It is
    /// carried for the caller; no age is drawn from it.
    pub minimum_age: Option<u64>,
    /// The age for the stars to stay below, in millionths of a billion
    /// years.  It is carried for the caller; no age is drawn from it.
    pub maximum_age: Option<u64>,
    /// Whether the pair must be able to support life.
    pub enforce_habitability: bool,
}

/// The bounds that generation works with, each resolved to the value set or
/// to its default.
#[derive(Clone, Copy, Debug, PartialEq, Eq, Structural)]
pub struct Bounds {
    /// The least combined mass.
    pub minimum_combined_mass: u64,
    /// The combined mass to stay below.
    pub maximum_combined_mass: u64,
    /// The least mass of either star.
    pub minimum_individual_mass: u64,
    /// The mass for either star to stay below.
    pub maximum_individual_mass: u64,
    /// The least average separation.
    pub minimum_average_separation: u64,
    /// The average separation to stay below.
    pub maximum_average_separation: u64,
    /// The least orbital eccentricity.
    pub minimum_orbital_eccentricity: u64,
    /// The orbital eccentricity to stay below.
    pub maximum_orbital_eccentricity: u64,
    /// Whether the pair must be able to support life.
    pub enforce_habitability: bool,
}

impl Default for Constraints {
    /// The defaults, written out: the default masses and eccentricities set,
    /// the rest unset.
    fn default() -> (constraints: Constraints)
        ensures
            constraints == Constraints::default_record(),
    {
        Constraints {
            minimum_combined_mass: Some(MINIMUM_COMBINED_MASS),
            maximum_combined_mass: Some(MAXIMUM_COMBINED_MASS),
            minimum_individual_mass: Some(MINIMUM_INDIVIDUAL_MASS),
            maximum_individual_mass: Some(MAXIMUM_INDIVIDUAL_MASS),
            minimum_average_separation: None,
            maximum_average_separation: None,
            minimum_orbital_eccentricity: Some(MINIMUM_ORBITAL_ECCENTRICITY),
            maximum_orbital_eccentricity: Some(MAXIMUM_ORBITAL_ECCENTRICITY),
            minimum_age: None,
            maximum_age: None,
            enforce_habitability: false,
        }
    }
}

impl Constraints {
    /// The record with every bound unset and no flag raised.
    pub open spec fn unconstrained() -> Constraints {
        Constraints {
            minimum_combined_mass: None,
            maximum_combined_mass: None,
            minimum_individual_mass: None,
            maximum_individual_mass: None,
            minimum_average_separation: None,
            maximum_average_separation: None,
            minimum_orbital_eccentricity: None,
            maximum_orbital_eccentricity: None,
            minimum_age: None,
            maximum_age: None,
            enforce_habitability: false,
        }
    }

    /// The record that `default` builds.
    pub open spec fn default_record() -> Constraints {
        Constraints {
            minimum_combined_mass: Some(MINIMUM_COMBINED_MASS),
            maximum_combined_mass: Some(MAXIMUM_COMBINED_MASS),
            minimum_individual_mass: Some(MINIMUM_INDIVIDUAL_MASS),
            maximum_individual_mass: Some(MAXIMUM_INDIVIDUAL_MASS),
            minimum_average_separation: None,
            maximum_average_separation: None,
            minimum_orbital_eccentricity: Some(MINIMUM_ORBITAL_ECCENTRICITY),
            maximum_orbital_eccentricity: Some(MAXIMUM_ORBITAL_ECCENTRICITY),
            minimum_age: None,
            maximum_age: None,
            enforce_habitability: false,
        }
    }

    /// The record that `habitable` builds: the default record with the
    /// habitable masses, the habitable separation, the habitable age and the
    /// habitability flag.
    pub open spec fn habitable_preset() -> Constraints {
        Constraints {
            minimum_combined_mass: Some(MINIMUM_HABITABLE_COMBINED_MASS),
            maximum_combined_mass: Some(MAXIMUM_HABITABLE_COMBINED_MASS),
            minimum_individual_mass: Some(MINIMUM_HABITABLE_INDIVIDUAL_MASS),
            maximum_individual_mass: Some(MAXIMUM_HABITABLE_INDIVIDUAL_MASS),
            minimum_average_separation: None,
            maximum_average_separation: Some(MAXIMUM_HABITABLE_SEPARATION),
            minimum_orbital_eccentricity: Some(MINIMUM_ORBITAL_ECCENTRICITY),
            maximum_orbital_eccentricity: Some(MAXIMUM_ORBITAL_ECCENTRICITY),
            minimum_age: Some(MINIMUM_HABITABLE_AGE),
            maximum_age: None,
            enforce_habitability: true,
        }
    }

    /// Constraints for a pair that can support life.
    pub fn habitable() -> (constraints: Constraints)
        ensures
            constraints == Constraints::habitable_preset(),
    {
        Constraints {
            minimum_combined_mass: Some(MINIMUM_HABITABLE_COMBINED_MASS),
            maximum_combined_mass: Some(MAXIMUM_HABITABLE_COMBINED_MASS),
            minimum_individual_mass: Some(MINIMUM_HABITABLE_INDIVIDUAL_MASS),
            maximum_individual_mass: Some(MAXIMUM_HABITABLE_INDIVIDUAL_MASS),
            maximum_average_separation: Some(MAXIMUM_HABITABLE_SEPARATION),
            minimum_age: Some(MINIMUM_HABITABLE_AGE),
            enforce_habitability: true,
            ..Constraints::default()
        }
    }

    /// Every bound resolved: the value set, or the named default.
    pub open spec fn resolved(&self) -> Bounds {
        Bounds {
            minimum_combined_mass: value_or(self.minimum_combined_mass, MINIMUM_COMBINED_MASS),
            maximum_combined_mass: value_or(self.maximum_combined_mass, MAXIMUM_COMBINED_MASS),
            minimum_individual_mass: value_or(self.minimum_individual_mass, MINIMUM_INDIVIDUAL_MASS),
            maximum_individual_mass: value_or(self.maximum_individual_mass, MAXIMUM_INDIVIDUAL_MASS),
            minimum_average_separation: value_or(
                self.minimum_average_separation,
                MINIMUM_AVERAGE_SEPARATION,
            ),
            maximum_average_separation: value_or(
                self.maximum_average_separation,
                MAXIMUM_AVERAGE_SEPARATION,
            ),
            minimum_orbital_eccentricity: value_or(
                self.minimum_orbital_eccentricity,
                MINIMUM_ORBITAL_ECCENTRICITY,
            ),
            maximum_orbital_eccentricity: value_or(
                self.maximum_orbital_eccentricity,
                MAXIMUM_ORBITAL_ECCENTRICITY,
            ),
            enforce_habitability: self.enforce_habitability,
        }
    }

    /// Every bound resolved; the record itself is left as it is.
    pub fn resolve_bounds(&self) -> (bounds: Bounds)
        ensures
            bounds == self.resolved(),
    {
        Bounds {
            minimum_combined_mass: resolve(self.minimum_combined_mass, MINIMUM_COMBINED_MASS),
            maximum_combined_mass: resolve(self.maximum_combined_mass, MAXIMUM_COMBINED_MASS),
            minimum_individual_mass: resolve(self.minimum_individual_mass, MINIMUM_INDIVIDUAL_MASS),
            maximum_individual_mass: resolve(self.maximum_individual_mass, MAXIMUM_INDIVIDUAL_MASS),
            minimum_average_separation: resolve(
                self.minimum_average_separation,
                MINIMUM_AVERAGE_SEPARATION,
            ),
            maximum_average_separation: resolve(
                self.maximum_average_separation,
                MAXIMUM_AVERAGE_SEPARATION,
            ),
            minimum_orbital_eccentricity: resolve(
                self.minimum_orbital_eccentricity,
                MINIMUM_ORBITAL_ECCENTRICITY,
            ),
            maximum_orbital_eccentricity: resolve(
                self.maximum_orbital_eccentricity,
                MAXIMUM_ORBITAL_ECCENTRICITY,
            ),
            enforce_habitability: self.enforce_habitability,
        }
    }

    /// The record that `default` builds resolves to the same bounds as the
    /// record with every field unset: generation, which reads the record only
    /// through its resolved bounds, cannot tell the two apart.
    pub proof fn lemma_default_resolves_as_unset()
        ensures
            Constraints::default_record().resolved() == Constraints::unconstrained().resolved(),
    {
    }

    /// The habitable constraints raise the habitability flag and keep the
    /// combined mass habitable, so that every pair they generate can support
    /// life.
    pub proof fn lemma_habitable_preset_generates_habitable(binary: CloseBinaryStar)
        requires
            Constraints::habitable_preset().resolved().holds(binary),
        ensures
            binary.wf(),
            binary.habitability().is_ok(),
    {
    }

    /// A close binary star within these constraints.  Generation reads the
    /// record through its resolved bounds alone.
    pub fn generate<R: RandomStream>(&self, rng: &mut R, oracle: &FormulaOracle) -> (outcome: Result<
        CloseBinaryStar,
        AstronomicalError,
    >)
        ensures
            old(rng).drawn().is_prefix_of(final(rng).drawn()),
            final(rng).origin() == old(rng).origin(),
            self.resolved().generate_ran(oracle, old(rng).drawn(), final(rng).drawn(), outcome),
            outcome matches Ok(binary) ==> self.resolved().holds(binary),
            outcome matches Err(error) ==> Bounds::is_generation_failure(error),
    {
        self.resolve_bounds().generate(rng, oracle)
    }
}

impl Bounds {
    /// Why nothing can be drawn from these bounds, if nothing can: the range
    /// of eccentricities or of separations is empty, which is a constraint
    /// that cannot be met, or it reaches beyond what an orbit can have, which
    /// is a quantity out of range.
    pub open spec fn rejection(&self) -> Option<AstronomicalError> {
        if self.minimum_orbital_eccentricity >= self.maximum_orbital_eccentricity {
            Some(AstronomicalError::ConstraintUnsatisfiable)
        } else if self.maximum_orbital_eccentricity > UNIT {
            Some(AstronomicalError::QuantityOutOfRange)
        } else if self.minimum_average_separation >= self.maximum_average_separation {
            Some(AstronomicalError::ConstraintUnsatisfiable)
        } else if self.maximum_average_separation > SEPARATION_LIMIT {
            Some(AstronomicalError::QuantityOutOfRange)
        } else {
            None
        }
    }

    /// Why nothing can be drawn from these bounds, if nothing can.
    pub fn check(&self) -> (rejection: Option<AstronomicalError>)
        ensures
            rejection == self.rejection(),
    {
        if self.minimum_orbital_eccentricity >= self.maximum_orbital_eccentricity {
            Some(AstronomicalError::ConstraintUnsatisfiable)
        } else if self.maximum_orbital_eccentricity > UNIT {
            Some(AstronomicalError::QuantityOutOfRange)
        } else if self.minimum_average_separation >= self.maximum_average_separation {
            Some(AstronomicalError::ConstraintUnsatisfiable)
        } else if self.maximum_average_separation > SEPARATION_LIMIT {
            Some(AstronomicalError::QuantityOutOfRange)
        } else {
            None
        }
    }

    /// `floor` is the least combined mass that is drawn once the eccentricity
    /// is known: the resolved minimum, or under the habitability flag the
    /// least mass that clears the forbidden reach of the widest separation
    /// allowed at that eccentricity.
    pub open spec fn is_mass_floor(&self, orbital_eccentricity: u64, floor: u64) -> bool {
        if self.enforce_habitability {
            is_least_clearing_mass(floor, self.maximum_average_separation, orbital_eccentricity)
        } else {
            floor == self.minimum_combined_mass
        }
    }

    /// The least combined mass that is drawn once the eccentricity is known.
    pub fn mass_floor(&self, orbital_eccentricity: u64) -> (floor: u64)
        requires
            self.rejection() is None,
            orbital_eccentricity < UNIT,
        ensures
            self.is_mass_floor(orbital_eccentricity, floor),
    {
        if self.enforce_habitability {
            least_clearing_mass(self.maximum_average_separation, orbital_eccentricity)
        } else {
            self.minimum_combined_mass
        }
    }

    /// The combined masses that can be drawn once the floor is known: from
    /// the floor, and from twice the least mass of either star, up to the
    /// resolved maximum and to what two stars below the greatest mass of
    /// either can weigh.  An empty range is a constraint that cannot be met.
    pub open spec fn combined_range_of(&self, floor: u64) -> Result<(u64, u64), AstronomicalError> {
        let low = if floor >= 2 * self.minimum_individual_mass {
            floor as int
        } else {
            2 * self.minimum_individual_mass
        };
        let high = if self.maximum_combined_mass <= 2 * self.maximum_individual_mass - 1 {
            self.maximum_combined_mass as int
        } else {
            2 * self.maximum_individual_mass - 1
        };
        if low < high {
            Ok((low as u64, high as u64))
        } else {
            Err(AstronomicalError::ConstraintUnsatisfiable)
        }
    }

    /// The combined masses that can be drawn once the floor is known.
    pub fn combined_range(&self, floor: u64) -> (range: Result<(u64, u64), AstronomicalError>)
        ensures
            range == self.combined_range_of(floor),
    {
        let twice_minimum: u128 = 2 * (self.minimum_individual_mass as u128);
        let low: u128 = if (floor as u128) >= twice_minimum {
            floor as u128
        } else {
            twice_minimum
        };
        if self.maximum_individual_mass == 0 {
            return Err(AstronomicalError::ConstraintUnsatisfiable);
        }
        let twice_maximum: u128 = 2 * (self.maximum_individual_mass as u128) - 1;
        let high: u128 = if (self.maximum_combined_mass as u128) <= twice_maximum {
            self.maximum_combined_mass as u128
        } else {
            twice_maximum
        };
        if low < high {
            Ok((low as u64, high as u64))
        } else {
            Err(AstronomicalError::ConstraintUnsatisfiable)
        }
    }

    /// Half the combined mass, rounded up: the least that the primary gets.
    pub open spec fn larger_half(combined_mass: u64) -> int {
        combined_mass - combined_mass / 2
    }

    /// The masses that the primary can be given once the combined mass is
    /// known: from half the combined mass, up to what leaves the secondary
    /// more than the mass of the lightest star and no less than the least
    /// mass of either star, and below the greatest mass of either star.  An
    /// empty range is a constraint that cannot be met.
    pub open spec fn split_range_of(&self, combined_mass: u64) -> Result<
        (u64, u64),
        AstronomicalError,
    > {
        let low = Self::larger_half(combined_mass);
        let room = combined_mass - MINIMUM_MAIN_SEQUENCE_STAR_MASS;
        let share = combined_mass - self.minimum_individual_mass + 1;
        let below = if room <= share {
            room
        } else {
            share
        };
        let high = if below <= self.maximum_individual_mass {
            below
        } else {
            self.maximum_individual_mass as int
        };
        if low < high {
            Ok((low as u64, high as u64))
        } else {
            Err(AstronomicalError::ConstraintUnsatisfiable)
        }
    }

    /// The masses that the primary can be given once the combined mass is
    /// known.
    pub fn split_range(&self, combined_mass: u64) -> (range: Result<(u64, u64), AstronomicalError>)
        ensures
            range == self.split_range_of(combined_mass),
    {
        if combined_mass <= MINIMUM_MAIN_SEQUENCE_STAR_MASS || combined_mass
            < self.minimum_individual_mass {
            return Err(AstronomicalError::ConstraintUnsatisfiable);
        }
        let low: u64 = combined_mass - combined_mass / 2;
        let room: u64 = combined_mass - MINIMUM_MAIN_SEQUENCE_STAR_MASS;
        let share: u128 = (combined_mass - self.minimum_individual_mass) as u128 + 1;
        let below: u128 = if (room as u128) <= share {
            room as u128
        } else {
            share
        };
        let high: u128 = if below <= self.maximum_individual_mass as u128 {
            below
        } else {
            self.maximum_individual_mass as u128
        };
        if (low as u128) < high {
            Ok((low, high as u64))
        } else {
            Err(AstronomicalError::ConstraintUnsatisfiable)
        }
    }

    /// What generation does once the primary has been attempted, with
    /// `second` what `Star::from_mass` returned for the secondary: its
    /// failure is handed on unchanged; otherwise the outcome is the pair of
    /// the two stars.
    pub open spec fn made_secondary(
        oracle: &FormulaOracle,
        secondary_mass: u64,
        average_separation: u64,
        orbital_eccentricity: u64,
        before: Seq<Draw>,
        after: Seq<Draw>,
        outcome: Result<CloseBinaryStar, AstronomicalError>,
        primary: Star,
        second: Result<Star, AstronomicalError>,
    ) -> bool {
        &&& Star::from_mass_ran(oracle, secondary_mass, before, after, second)
        &&& match second {
            Err(error) => outcome == Err::<CloseBinaryStar, AstronomicalError>(error),
            Ok(secondary) => outcome == CloseBinaryStar::from_stars_result(
                primary,
                secondary,
                average_separation,
                orbital_eccentricity,
            ),
        }
    }

    /// What generation does once both masses are known, with `first` what
    /// `Star::from_mass` returned for the primary and `between` the record it
    /// left: its failure is handed on unchanged, with nothing more drawn;
    /// otherwise the secondary is made.
    pub open spec fn made_primary(
        oracle: &FormulaOracle,
        primary_mass: u64,
        secondary_mass: u64,
        average_separation: u64,
        orbital_eccentricity: u64,
        before: Seq<Draw>,
        after: Seq<Draw>,
        outcome: Result<CloseBinaryStar, AstronomicalError>,
        between: Seq<Draw>,
        first: Result<Star, AstronomicalError>,
    ) -> bool {
        &&& Star::from_mass_ran(oracle, primary_mass, before, between, first)
        &&& match first {
            Err(error) => outcome == Err::<CloseBinaryStar, AstronomicalError>(error) && after
                == between,
            Ok(primary) => exists|second: Result<Star, AstronomicalError>| #[trigger]
                Self::made_secondary(
                    oracle,
                    secondary_mass,
                    average_separation,
                    orbital_eccentricity,
                    between,
                    after,
                    outcome,
                    primary,
                    second,
                ),
        }
    }

    /// What generation does and returns once both masses are known: the
    /// primary is made, then the secondary, each by `Star::from_mass`, and
    /// the outcome is the failure of the first that failed or the pair of
    /// the two.
    pub open spec fn generate_of_masses_ran(
        oracle: &FormulaOracle,
        primary_mass: u64,
        secondary_mass: u64,
        average_separation: u64,
        orbital_eccentricity: u64,
        before: Seq<Draw>,
        after: Seq<Draw>,
        outcome: Result<CloseBinaryStar, AstronomicalError>,
    ) -> bool {
        exists|between: Seq<Draw>, first: Result<Star, AstronomicalError>| #[trigger]
            Self::made_primary(
                oracle,
                primary_mass,
                secondary_mass,
                average_separation,
                orbital_eccentricity,
                before,
                after,
                outcome,
                between,
                first,
            )
    }

    /// The mass of the primary was drawn from the masses that it can be
    /// given, the secondary has the rest, and generation went on from there.
    pub open spec fn drew_primary(
        &self,
        oracle: &FormulaOracle,
        combined_mass: u64,
        average_separation: u64,
        orbital_eccentricity: u64,
        before: Seq<Draw>,
        after: Seq<Draw>,
        outcome: Result<CloseBinaryStar, AstronomicalError>,
        primary_mass: u64,
    ) -> bool {
        &&& self.split_range_of(combined_mass) matches Ok((low, high))
        &&& low <= primary_mass < high
        &&& Self::generate_of_masses_ran(
            oracle,
            primary_mass,
            (combined_mass - primary_mass) as u64,
            average_separation,
            orbital_eccentricity,
            before.push(uniform_draw(low, high, primary_mass)),
            after,
            outcome,
        )
    }

    /// What generation does and returns once the combined mass is known:
    /// where the primary can be given no mass the constraint cannot be met
    /// and nothing is drawn; otherwise the mass of the primary is drawn.
    pub open spec fn generate_of_combined_mass_ran(
        &self,
        oracle: &FormulaOracle,
        combined_mass: u64,
        average_separation: u64,
        orbital_eccentricity: u64,
        before: Seq<Draw>,
        after: Seq<Draw>,
        outcome: Result<CloseBinaryStar, AstronomicalError>,
    ) -> bool {
        match self.split_range_of(combined_mass) {
            Err(error) => outcome == Err::<CloseBinaryStar, AstronomicalError>(error) && after
                == before,
            Ok(_) => exists|primary_mass: u64| #[trigger]
                self.drew_primary(
                    oracle,
                    combined_mass,
                    average_separation,
                    orbital_eccentricity,
                    before,
                    after,
                    outcome,
                    primary_mass,
                ),
        }
    }

    /// The combined mass was drawn from the masses that can be drawn above
    /// the floor, and generation went on from there.
    pub open spec fn drew_combined_mass(
        &self,
        oracle: &FormulaOracle,
        average_separation: u64,
        orbital_eccentricity: u64,
        floor: u64,
        before: Seq<Draw>,
        after: Seq<Draw>,
        outcome: Result<CloseBinaryStar, AstronomicalError>,
        combined_mass: u64,
    ) -> bool {
        &&& self.combined_range_of(floor) matches Ok((low, high))
        &&& low <= combined_mass < high
        &&& self.generate_of_combined_mass_ran(
            oracle,
            combined_mass,
            average_separation,
            orbital_eccentricity,
            before.push(uniform_draw(low, high, combined_mass)),
            after,
            outcome,
        )
    }

    /// The eccentricity was drawn from its resolved range, then the
    /// separation from its, `floor` is the mass floor for the eccentricity,
    /// and either no combined mass can be drawn, which is a constraint that
    /// cannot be met, with nothing more drawn, or the combined mass is drawn.
    pub open spec fn drew_orbit(
        &self,
        oracle: &FormulaOracle,
        before: Seq<Draw>,
        after: Seq<Draw>,
        outcome: Result<CloseBinaryStar, AstronomicalError>,
        orbital_eccentricity: u64,
        average_separation: u64,
        floor: u64,
    ) -> bool {
        let between = before.push(
            uniform_draw(
                self.minimum_orbital_eccentricity,
                self.maximum_orbital_eccentricity,
                orbital_eccentricity,
            ),
        ).push(
            uniform_draw(
                self.minimum_average_separation,
                self.maximum_average_separation,
                average_separation,
            ),
        );
        &&& self.minimum_orbital_eccentricity <= orbital_eccentricity
            < self.maximum_orbital_eccentricity
        &&& self.minimum_average_separation <= average_separation < self.maximum_average_separation
        &&& self.is_mass_floor(orbital_eccentricity, floor)
        &&& match self.combined_range_of(floor) {
            Err(error) => outcome == Err::<CloseBinaryStar, AstronomicalError>(error) && after
                == between,
            Ok(_) => exists|combined_mass: u64| #[trigger]
                self.drew_combined_mass(
                    oracle,
                    average_separation,
                    orbital_eccentricity,
                    floor,
                    between,
                    after,
                    outcome,
                    combined_mass,
                ),
        }
    }

    /// What generation does and returns: the rejection of the bounds, with
    /// nothing drawn; or the eccentricity, the separation, the combined mass
    /// and the mass of the primary are drawn in that order, each from the
    /// range that the bounds and the earlier draws leave, and the two stars
    /// are made.
    pub open spec fn generate_ran(
        &self,
        oracle: &FormulaOracle,
        before: Seq<Draw>,
        after: Seq<Draw>,
        outcome: Result<CloseBinaryStar, AstronomicalError>,
    ) -> bool {
        match self.rejection() {
            Some(error) => outcome == Err::<CloseBinaryStar, AstronomicalError>(error) && after
                == before,
            None => exists|orbital_eccentricity: u64, average_separation: u64, floor: u64| #[trigger]
                self.drew_orbit(
                    oracle,
                    before,
                    after,
                    outcome,
                    orbital_eccentricity,
                    average_separation,
                    floor,
                ),
        }
    }

    /// The pair lies within these bounds: it is well formed; its
    /// eccentricity, separation and combined mass lie in the ranges they were
    /// drawn from; both stars have a mass from the least to below the
    /// greatest mass of either star; the primary is no lighter than the
    /// secondary and the secondary heavier than the lightest star; and under
    /// the habitability flag, with a maximum combined mass that is habitable,
    /// the pair can support life.
    pub open spec fn holds(&self, binary: CloseBinaryStar) -> bool {
        &&& binary.wf()
        &&& self.minimum_orbital_eccentricity <= binary.orbital_eccentricity
            < self.maximum_orbital_eccentricity
        &&& self.minimum_average_separation <= binary.average_separation
            < self.maximum_average_separation
        &&& binary.combined_mass < self.maximum_combined_mass
        &&& !self.enforce_habitability ==> self.minimum_combined_mass <= binary.combined_mass
        &&& self.enforce_habitability ==> clears_forbidden_reach(
            binary.combined_mass,
            self.maximum_average_separation,
            binary.orbital_eccentricity,
        )
        &&& self.minimum_individual_mass <= binary.secondary.mass
        &&& binary.secondary.mass <= binary.primary.mass
        &&& binary.primary.mass < self.maximum_individual_mass
        &&& binary.secondary.mass > MINIMUM_MAIN_SEQUENCE_STAR_MASS
        &&& self.enforce_habitability && self.maximum_combined_mass
            <= MAXIMUM_HABITABLE_COMBINED_MASS ==> binary.habitability().is_ok()
    }

    /// The failures that generation can report: a range is empty, a quantity
    /// is out of range, or a star is too heavy for the main sequence.  No
    /// star is too light, for each gets more than the mass of the lightest.
    pub open spec fn is_generation_failure(error: AstronomicalError) -> bool {
        error == AstronomicalError::ConstraintUnsatisfiable || error
            == AstronomicalError::QuantityOutOfRange || error
            == AstronomicalError::StellarMassTooHighForMainSequence
    }

    /// The pair of a star of each mass.
    pub fn generate_of_masses<R: RandomStream>(
        rng: &mut R,
        oracle: &FormulaOracle,
        primary_mass: u64,
        secondary_mass: u64,
        average_separation: u64,
        orbital_eccentricity: u64,
    ) -> (outcome: Result<CloseBinaryStar, AstronomicalError>)
        ensures
            old(rng).drawn().is_prefix_of(final(rng).drawn()),
            final(rng).origin() == old(rng).origin(),
            Self::generate_of_masses_ran(
                oracle,
                primary_mass,
                secondary_mass,
                average_separation,
                orbital_eccentricity,
                old(rng).drawn(),
                final(rng).drawn(),
                outcome,
            ),
            outcome matches Ok(binary) ==> binary.wf() && binary.primary.mass == primary_mass
                && binary.secondary.mass == secondary_mass && binary.average_separation
                == average_separation && binary.orbital_eccentricity == orbital_eccentricity,
            outcome matches Err(error) ==> error == AstronomicalError::ConstraintUnsatisfiable
                || error == AstronomicalError::QuantityOutOfRange || (oracle.answer(primary_mass)
                == Err::<StellarProperties, AstronomicalError>(error)) || (oracle.answer(
                secondary_mass,
            ) == Err::<StellarProperties, AstronomicalError>(error)),
    {
        let first = Star::from_mass(rng, oracle, primary_mass);
        let ghost between = rng.drawn();
        let primary: Star = match first {
            Ok(star) => star,
            Err(error) => {
                assert(Self::made_primary(
                    oracle,
                    primary_mass,
                    secondary_mass,
                    average_separation,
                    orbital_eccentricity,
                    old(rng).drawn(),
                    rng.drawn(),
                    Err(error),
                    between,
                    first,
                ));
                return Err(error);
            },
        };
        let second = Star::from_mass(rng, oracle, secondary_mass);
        let secondary: Star = match second {
            Ok(star) => star,
            Err(error) => {
                assert(Self::made_secondary(
                    oracle,
                    secondary_mass,
                    average_separation,
                    orbital_eccentricity,
                    between,
                    rng.drawn(),
                    Err(error),
                    primary,
                    second,
                ));
                assert(Self::made_primary(
                    oracle,
                    primary_mass,
                    secondary_mass,
                    average_separation,
                    orbital_eccentricity,
                    old(rng).drawn(),
                    rng.drawn(),
                    Err(error),
                    between,
                    first,
                ));
                return Err(error);
            },
        };
        let outcome = CloseBinaryStar::from_stars(
            primary,
            secondary,
            average_separation,
            orbital_eccentricity,
        );
        proof {
            assert(Self::made_secondary(
                oracle,
                secondary_mass,
                average_separation,
                orbital_eccentricity,
                between,
                rng.drawn(),
                outcome,
                primary,
                second,
            ));
            assert(Self::made_primary(
                oracle,
                primary_mass,
                secondary_mass,
                average_separation,
                orbital_eccentricity,
                old(rng).drawn(),
                rng.drawn(),
                outcome,
                between,
                first,
            ));
        }
        outcome
    }

    /// The pair of the given combined mass: the mass of the primary is drawn
    /// from the masses that it can be given, and the secondary has the rest.
    pub fn generate_of_combined_mass<R: RandomStream>(
        &self,
        rng: &mut R,
        oracle: &FormulaOracle,
        combined_mass: u64,
        average_separation: u64,
        orbital_eccentricity: u64,
    ) -> (outcome: Result<CloseBinaryStar, AstronomicalError>)
        ensures
            old(rng).drawn().is_prefix_of(final(rng).drawn()),
            final(rng).origin() == old(rng).origin(),
            self.generate_of_combined_mass_ran(
                oracle,
                combined_mass,
                average_separation,
                orbital_eccentricity,
                old(rng).drawn(),
                final(rng).drawn(),
                outcome,
            ),
            outcome matches Ok(binary) ==> {
                &&& binary.wf()
                &&& binary.combined_mass == combined_mass
                &&& binary.average_separation == average_separation
                &&& binary.orbital_eccentricity == orbital_eccentricity
                &&& self.minimum_individual_mass <= binary.secondary.mass
                &&& binary.secondary.mass <= binary.primary.mass
                &&& binary.primary.mass < self.maximum_individual_mass
                &&& binary.secondary.mass > MINIMUM_MAIN_SEQUENCE_STAR_MASS
            },
            outcome matches Err(error) ==> Self::is_generation_failure(error),
    {
        let (half, top) = match self.split_range(combined_mass) {
            Ok(range) => range,
            Err(error) => {
                return Err(error);
            },
        };
        let primary_mass: u64 = rng.uniform(half, top);
        let secondary_mass: u64 = combined_mass - primary_mass;
        let outcome = Self::generate_of_masses(
            rng,
            oracle,
            primary_mass,
            secondary_mass,
            average_separation,
            orbital_eccentricity,
        );
        assert(self.drew_primary(
            oracle,
            combined_mass,
            average_separation,
            orbital_eccentricity,
            old(rng).drawn(),
            rng.drawn(),
            outcome,
            primary_mass,
        ));
        outcome
    }

    /// A close binary star within these bounds.  The eccentricity and the
    /// separation are drawn first; under the habitability flag the least
    /// combined mass is then computed anew from the greatest separation
    /// allowed and the eccentricity drawn, and the combined mass is drawn
    /// from there.
    pub fn generate<R: RandomStream>(&self, rng: &mut R, oracle: &FormulaOracle) -> (outcome: Result<
        CloseBinaryStar,
        AstronomicalError,
    >)
        ensures
            old(rng).drawn().is_prefix_of(final(rng).drawn()),
            final(rng).origin() == old(rng).origin(),
            self.generate_ran(oracle, old(rng).drawn(), final(rng).drawn(), outcome),
            outcome matches Ok(binary) ==> self.holds(binary),
            outcome matches Err(error) ==> Self::is_generation_failure(error),
    {
        match self.check() {
            Some(error) => {
                return Err(error);
            },
            None => {},
        }
        let orbital_eccentricity: u64 = rng.uniform(
            self.minimum_orbital_eccentricity,
            self.maximum_orbital_eccentricity,
        );
        let average_separation: u64 = rng.uniform(
            self.minimum_average_separation,
            self.maximum_average_separation,
        );
        let ghost between = rng.drawn();
        let minimum_combined_mass: u64 = self.mass_floor(orbital_eccentricity);
        let (lowest, highest) = match self.combined_range(minimum_combined_mass) {
            Ok(range) => range,
            Err(error) => {
                assert(self.drew_orbit(
                    oracle,
                    old(rng).drawn(),
                    rng.drawn(),
                    Err(error),
                    orbital_eccentricity,
                    average_separation,
                    minimum_combined_mass,
                ));
                return Err(error);
            },
        };
        let combined_mass: u64 = rng.uniform(lowest, highest);
        let outcome = self.generate_of_combined_mass(
            rng,
            oracle,
            combined_mass,
            average_separation,
            orbital_eccentricity,
        );
        proof {
            assert(self.drew_combined_mass(
                oracle,
                average_separation,
                orbital_eccentricity,
                minimum_combined_mass,
                between,
                rng.drawn(),
                outcome,
                combined_mass,
            ));
            assert(self.drew_orbit(
                oracle,
                old(rng).drawn(),
                rng.drawn(),
                outcome,
                orbital_eccentricity,
                average_separation,
                minimum_combined_mass,
            ));
            if self.enforce_habitability {
                lemma_clearing_monotone(
                    minimum_combined_mass,
                    self.maximum_average_separation,
                    orbital_eccentricity,
                    combined_mass,
                    self.maximum_average_separation,
                );
                lemma_clearing_monotone(
                    combined_mass,
                    self.maximum_average_separation,
                    orbital_eccentricity,
                    combined_mass,
                    average_separation,
                );
            }
        }
        outcome
    }
}

} // verus!
