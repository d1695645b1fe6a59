//! Terrestrial planets: rocky worlds inside the frost line.

use vstd::prelude::*;

use crate::constraint::resolve;
use crate::constraint::sample;
use crate::constraint::value_or;
use crate::error::AstronomicalError;
use crate::fixed_point::UNIT;
use crate::formulas::aphelion;
use crate::formulas::aphelion_of;
use crate::formulas::orbital_period;
use crate::formulas::orbital_period_of;
use crate::formulas::perihelion;
use crate::formulas::perihelion_of;
use crate::host_star::HostStar;
use crate::oracle::DISTANCE_LIMIT;
use crate::random::uniform_draw;
use crate::random::Draw;
use crate::random::RandomStream;

verus! {

/// The least mass of a terrestrial planet, in millionths of an Earth mass.
pub const MINIMUM_MASS: u64 = 10_000;

/// The mass that a terrestrial planet stays below, in millionths of an Earth
/// mass.
pub const MAXIMUM_MASS: u64 = 10_000_000;

/// The least mass of a terrestrial planet that can support life, in
/// millionths of an Earth mass.
pub const MINIMUM_HABITABLE_MASS: u64 = 100_000;

/// The greatest mass of a terrestrial planet that can support life, in
/// millionths of an Earth mass.
pub const MAXIMUM_HABITABLE_MASS: u64 = 3_500_000;

/// The least orbital eccentricity, in millionths.
pub const MINIMUM_ORBITAL_ECCENTRICITY: u64 = 0;

/// The orbital eccentricity that a terrestrial planet stays below, in
/// millionths.
pub const MAXIMUM_ORBITAL_ECCENTRICITY: u64 = 100_000;

/// A terrestrial planet.
#[derive(Clone, Copy, Debug, PartialEq, Eq, Structural)]
pub struct TerrestrialPlanet {
    /// Mass, in millionths of an Earth mass.
    pub mass: u64,
    /// Semi-major axis, in millionths of an astronomical unit.
    pub semi_major_axis: u64,
    /// Orbital eccentricity, in millionths.
    pub orbital_eccentricity: u64,
    /// Nearest distance to the host, in millionths of an astronomical unit.
    pub perihelion: u64,
    /// Farthest distance from the host, in millionths of an astronomical
    /// unit.
    pub aphelion: u64,
    /// Orbital period, in millionths of a year.
    pub orbital_period: u64,
}

impl TerrestrialPlanet {
    /// The planet of the given mass on the given orbit: the perihelion, the
    /// aphelion and the period follow from the semi-major axis and the
    /// eccentricity.
    pub open spec fn on_orbit(
        mass: u64,
        semi_major_axis: u64,
        orbital_eccentricity: u64,
    ) -> TerrestrialPlanet {
        TerrestrialPlanet {
            mass,
            semi_major_axis,
            orbital_eccentricity,
            perihelion: perihelion_of(semi_major_axis, orbital_eccentricity) as u64,
            aphelion: aphelion_of(semi_major_axis, orbital_eccentricity) as u64,
            orbital_period: orbital_period_of(semi_major_axis) as u64,
        }
    }

    /// The eccentricity is below one, the orbit within the distance limit,
    /// and every orbital element holds the value of its formula.
    pub open spec fn wf(&self) -> bool {
        &&& self.orbital_eccentricity < UNIT
        &&& 0 < self.semi_major_axis <= DISTANCE_LIMIT
        &&& self.perihelion == perihelion_of(self.semi_major_axis, self.orbital_eccentricity)
        &&& self.aphelion == aphelion_of(self.semi_major_axis, self.orbital_eccentricity)
        &&& self.orbital_period == orbital_period_of(self.semi_major_axis)
        &&& self.perihelion <= self.semi_major_axis <= self.aphelion
    }

    /// Why this planet cannot support life, if it cannot: it is too light to
    /// hold an atmosphere, or too heavy to stay rocky.
    pub open spec fn habitability(&self) -> Result<(), AstronomicalError> {
        if self.mass < MINIMUM_HABITABLE_MASS {
            Err(AstronomicalError::MassTooLowToSupportLife)
        } else if self.mass > MAXIMUM_HABITABLE_MASS {
            Err(AstronomicalError::MassTooHighToSupportLife)
        } else {
            Ok(())
        }
    }

    /// Checks that this planet can support life.
    pub fn check_habitable(&self) -> (verdict: Result<(), AstronomicalError>)
        ensures
            verdict == self.habitability(),
    {
        if self.mass < MINIMUM_HABITABLE_MASS {
            return Err(AstronomicalError::MassTooLowToSupportLife);
        }
        if self.mass > MAXIMUM_HABITABLE_MASS {
            return Err(AstronomicalError::MassTooHighToSupportLife);
        }
        Ok(())
    }

    /// Whether this planet can support life.
    pub fn is_habitable(&self) -> (habitable: bool)
        ensures
            habitable == self.habitability().is_ok(),
    {
        match self.check_habitable() {
            Ok(()) => true,
            Err(_) => false,
        }
    }
}

/// Constraints on the generation of a terrestrial planet.
#[derive(Clone, Copy, Debug, PartialEq, Eq)]
pub struct Constraints {
    /// The least mass.
    pub minimum_mass: Option<u64>,
    /// The mass to stay below.
    pub maximum_mass: Option<u64>,
    /// The least orbital eccentricity.
    pub minimum_orbital_eccentricity: Option<u64>,
    /// The orbital eccentricity to stay below.
    pub maximum_orbital_eccentricity: Option<u64>,
}

impl Default for Constraints {
    /// No constraint at all.
    fn default() -> (constraints: Constraints)
        ensures
            constraints == Constraints::unconstrained(),
    {
        Constraints {
            minimum_mass: None,
            maximum_mass: None,
            minimum_orbital_eccentricity: None,
            maximum_orbital_eccentricity: None,
        }
    }
}

impl Constraints {
    /// The record with every bound unset.
    pub open spec fn unconstrained() -> Constraints {
        Constraints {
            minimum_mass: None,
            maximum_mass: None,
            minimum_orbital_eccentricity: None,
            maximum_orbital_eccentricity: None,
        }
    }

    /// The record that `habitable` builds: the masses from the least
    /// habitable one up to, but not including, the one just above the
    /// greatest habitable one.
    pub open spec fn habitable_preset() -> Constraints {
        Constraints {
            minimum_mass: Some(MINIMUM_HABITABLE_MASS),
            maximum_mass: Some((MAXIMUM_HABITABLE_MASS + 1) as u64),
            minimum_orbital_eccentricity: None,
            maximum_orbital_eccentricity: None,
        }
    }

    /// Constraints for a planet that can support life.
    pub fn habitable() -> (constraints: Constraints)
        ensures
            constraints == Constraints::habitable_preset(),
    {
        Constraints {
            minimum_mass: Some(MINIMUM_HABITABLE_MASS),
            maximum_mass: Some(MAXIMUM_HABITABLE_MASS + 1),
            ..Constraints::default()
        }
    }

    /// The least mass: the one set, or the default.
    pub open spec fn resolved_minimum_mass(&self) -> u64 {
        value_or(self.minimum_mass, MINIMUM_MASS)
    }

    /// The mass to stay below: the one set, or the default.
    pub open spec fn resolved_maximum_mass(&self) -> u64 {
        value_or(self.maximum_mass, MAXIMUM_MASS)
    }

    /// The least eccentricity: the one set, or the default.
    pub open spec fn resolved_minimum_eccentricity(&self) -> u64 {
        value_or(self.minimum_orbital_eccentricity, MINIMUM_ORBITAL_ECCENTRICITY)
    }

    /// The eccentricity to stay below: the one set, or the default.
    pub open spec fn resolved_maximum_eccentricity(&self) -> u64 {
        value_or(self.maximum_orbital_eccentricity, MAXIMUM_ORBITAL_ECCENTRICITY)
    }

    /// Why no planet can be drawn at `distance`, if none can: the distance is
    /// zero or beyond the limit, a range is empty, or the eccentricities
    /// reach beyond what a closed orbit can have.
    pub open spec fn rejection(&self, distance: u64) -> Option<AstronomicalError> {
        if distance == 0 || distance > DISTANCE_LIMIT {
            Some(AstronomicalError::QuantityOutOfRange)
        } else if self.resolved_minimum_mass() >= self.resolved_maximum_mass() {
            Some(AstronomicalError::ConstraintUnsatisfiable)
        } else if self.resolved_minimum_eccentricity() >= self.resolved_maximum_eccentricity() {
            Some(AstronomicalError::ConstraintUnsatisfiable)
        } else if self.resolved_maximum_eccentricity() > UNIT {
            Some(AstronomicalError::QuantityOutOfRange)
        } else {
            None
        }
    }

    /// The planet was drawn: first its mass from the resolved range of
    /// masses, then its eccentricity from the resolved range of
    /// eccentricities; its orbit follows from the distance and the
    /// eccentricity.
    pub open spec fn drew_planet(
        &self,
        distance: u64,
        before: Seq<Draw>,
        after: Seq<Draw>,
        planet: TerrestrialPlanet,
    ) -> bool {
        &&& planet == TerrestrialPlanet::on_orbit(planet.mass, distance, planet.orbital_eccentricity)
        &&& self.resolved_minimum_mass() <= planet.mass < self.resolved_maximum_mass()
        &&& self.resolved_minimum_eccentricity() <= planet.orbital_eccentricity
            < self.resolved_maximum_eccentricity()
        &&& after == before.push(
            uniform_draw(self.resolved_minimum_mass(), self.resolved_maximum_mass(), planet.mass),
        ).push(
            uniform_draw(
                self.resolved_minimum_eccentricity(),
                self.resolved_maximum_eccentricity(),
                planet.orbital_eccentricity,
            ),
        )
        &&& planet.wf()
    }

    /// What generation does and returns for `distance`: the rejection, with
    /// nothing drawn, or the planet of the two values drawn.
    pub open spec fn generate_ran(
        &self,
        distance: u64,
        before: Seq<Draw>,
        after: Seq<Draw>,
        outcome: Result<TerrestrialPlanet, AstronomicalError>,
    ) -> bool {
        match self.rejection(distance) {
            Some(error) => outcome == Err::<TerrestrialPlanet, AstronomicalError>(error) && after
                == before,
            None => outcome matches Ok(planet) && self.drew_planet(distance, before, after, planet),
        }
    }

    /// A terrestrial planet at `distance` from its host: its mass and its
    /// eccentricity are drawn from their resolved ranges, the mass first, and
    /// its orbit follows from the distance and the eccentricity.
    pub fn generate<R: RandomStream>(&self, rng: &mut R, _host_star: &HostStar, distance: u64) -> (outcome:
        Result<TerrestrialPlanet, AstronomicalError>)
        ensures
            old(rng).drawn().is_prefix_of(final(rng).drawn()),
            final(rng).origin() == old(rng).origin(),
            self.generate_ran(distance, old(rng).drawn(), final(rng).drawn(), outcome),
    {
        let minimum_mass: u64 = resolve(self.minimum_mass, MINIMUM_MASS);
        let maximum_mass: u64 = resolve(self.maximum_mass, MAXIMUM_MASS);
        let minimum_eccentricity: u64 = resolve(
            self.minimum_orbital_eccentricity,
            MINIMUM_ORBITAL_ECCENTRICITY,
        );
        let maximum_eccentricity: u64 = resolve(
            self.maximum_orbital_eccentricity,
            MAXIMUM_ORBITAL_ECCENTRICITY,
        );
        if distance == 0 || distance > DISTANCE_LIMIT {
            return Err(AstronomicalError::QuantityOutOfRange);
        }
        if minimum_mass >= maximum_mass || minimum_eccentricity >= maximum_eccentricity {
            return Err(AstronomicalError::ConstraintUnsatisfiable);
        }
        if maximum_eccentricity > UNIT {
            return Err(AstronomicalError::QuantityOutOfRange);
        }
        let mass: u64 = match sample(rng, minimum_mass, maximum_mass) {
            Ok(mass) => mass,
            Err(error) => {
                return Err(error);
            },
        };
        let orbital_eccentricity: u64 = match sample(rng, minimum_eccentricity, maximum_eccentricity) {
            Ok(eccentricity) => eccentricity,
            Err(error) => {
                return Err(error);
            },
        };
        Ok(
            TerrestrialPlanet {
                mass,
                semi_major_axis: distance,
                orbital_eccentricity,
                perihelion: perihelion(distance, orbital_eccentricity),
                aphelion: aphelion(distance, orbital_eccentricity),
                orbital_period: orbital_period(distance),
            },
        )
    }
}

} // verus!
