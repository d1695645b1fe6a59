//! Gas giant planets: worlds at and beyond the frost line.

use vstd::prelude::*;

use crate::constraint::resolve;
use crate::constraint::value_or;
use crate::error::AstronomicalError;
use crate::fixed_point::UNIT;
use crate::formulas::aphelion;
use crate::formulas::aphelion_of;
use crate::formulas::orbital_period;
use crate::formulas::orbital_period_of;
use crate::formulas::perihelion;
use crate::formulas::perihelion_of;
use crate::host_star::HostStar;
use crate::oracle::DISTANCE_LIMIT;

verus! {

/// The least mass of a gas giant, in millionths of a Jupiter mass.
pub const MINIMUM_MASS: u64 = 10_000;

/// The mass that a gas giant stays below, in millionths of a Jupiter mass.
pub const MAXIMUM_MASS: u64 = 13_000_000;

/// The orbital eccentricity of every gas giant, in millionths.
pub const ORBITAL_ECCENTRICITY: u64 = 16_700;

/// A gas giant planet.
#[derive(Clone, Copy, Debug, PartialEq, Eq, Structural)]
pub struct GasGiantPlanet {
    /// Mass, in millionths of a Jupiter mass.
    pub mass: u64,
    /// Semi-major axis, in millionths of an astronomical unit.
    pub semi_major_axis: u64,
    /// Orbital eccentricity, in millionths.
    pub orbital_eccentricity: u64,
    /// Nearest distance to the host, in millionths of an astronomical unit.
    pub perihelion: u64,
    /// Farthest distance from the host, in millionths of an astronomical
    /// unit.
    pub aphelion: u64,
    /// Orbital period, in millionths of a year.
    pub orbital_period: u64,
}

impl GasGiantPlanet {
    /// The gas giant of the given mass, not yet on any orbit.
    pub open spec fn of_mass(mass: u64) -> GasGiantPlanet {
        GasGiantPlanet {
            mass,
            semi_major_axis: 0,
            orbital_eccentricity: 0,
            perihelion: 0,
            aphelion: 0,
            orbital_period: 0,
        }
    }

    /// The gas giant of the given mass on the orbit of the given semi-major
    /// axis, at the eccentricity that every gas giant has.
    pub open spec fn on_orbit(mass: u64, semi_major_axis: u64) -> GasGiantPlanet {
        GasGiantPlanet {
            mass,
            semi_major_axis,
            orbital_eccentricity: ORBITAL_ECCENTRICITY,
            perihelion: perihelion_of(semi_major_axis, ORBITAL_ECCENTRICITY) as u64,
            aphelion: aphelion_of(semi_major_axis, ORBITAL_ECCENTRICITY) as u64,
            orbital_period: orbital_period_of(semi_major_axis) as u64,
        }
    }

    /// The eccentricity is below one, the orbit within the distance limit,
    /// and every orbital element holds the value of its formula.
    pub open spec fn wf(&self) -> bool {
        &&& self.orbital_eccentricity < UNIT
        &&& 0 < self.semi_major_axis <= DISTANCE_LIMIT
        &&& self.perihelion == perihelion_of(self.semi_major_axis, self.orbital_eccentricity)
        &&& self.aphelion == aphelion_of(self.semi_major_axis, self.orbital_eccentricity)
        &&& self.orbital_period == orbital_period_of(self.semi_major_axis)
        &&& self.perihelion <= self.semi_major_axis <= self.aphelion
    }

    /// What `from_mass` returns: the gas giant of that mass, or a quantity
    /// out of range where the mass is not that of a gas giant.
    pub open spec fn from_mass_result(mass: u64) -> Result<GasGiantPlanet, AstronomicalError> {
        if MINIMUM_MASS <= mass < MAXIMUM_MASS {
            Ok(Self::of_mass(mass))
        } else {
            Err(AstronomicalError::QuantityOutOfRange)
        }
    }

    /// The gas giant of the given mass, not yet on any orbit.
    pub fn from_mass(mass: u64) -> (outcome: Result<GasGiantPlanet, AstronomicalError>)
        ensures
            outcome == Self::from_mass_result(mass),
    {
        if mass < MINIMUM_MASS || mass >= MAXIMUM_MASS {
            return Err(AstronomicalError::QuantityOutOfRange);
        }
        Ok(
            GasGiantPlanet {
                mass,
                semi_major_axis: 0,
                orbital_eccentricity: 0,
                perihelion: 0,
                aphelion: 0,
                orbital_period: 0,
            },
        )
    }
}

/// Constraints on the generation of a gas giant planet.
#[derive(Clone, Copy, Debug, PartialEq, Eq)]
pub struct Constraints {
    /// The least mass.
    pub minimum_mass: Option<u64>,
    /// The mass to stay below.
    pub maximum_mass: Option<u64>,
}

impl Default for Constraints {
    /// No constraint at all.
    fn default() -> (constraints: Constraints)
        ensures
            constraints == Constraints::unconstrained(),
    {
        Constraints { minimum_mass: None, maximum_mass: None }
    }
}

impl Constraints {
    /// The record with every bound unset.
    pub open spec fn unconstrained() -> Constraints {
        Constraints { minimum_mass: None, maximum_mass: None }
    }

    /// The least mass: the one set, or the default.
    pub open spec fn resolved_minimum_mass(&self) -> u64 {
        value_or(self.minimum_mass, MINIMUM_MASS)
    }

    /// The mass to stay below: the one set, or the default.
    pub open spec fn resolved_maximum_mass(&self) -> u64 {
        value_or(self.maximum_mass, MAXIMUM_MASS)
    }

    /// What generation returns for a drawn mass and a distance: a quantity
    /// out of range where the distance is zero or beyond the limit, a
    /// constraint that cannot be met where the resolved range is empty, a
    /// quantity out of range where the mass lies outside the resolved range
    /// or is not that of a gas giant, and otherwise the gas giant of that
    /// mass on the orbit of that semi-major axis.
    pub open spec fn generate_result(&self, mass: u64, distance: u64) -> Result<
        GasGiantPlanet,
        AstronomicalError,
    > {
        if distance == 0 || distance > DISTANCE_LIMIT {
            Err(AstronomicalError::QuantityOutOfRange)
        } else if self.resolved_minimum_mass() >= self.resolved_maximum_mass() {
            Err(AstronomicalError::ConstraintUnsatisfiable)
        } else if mass < self.resolved_minimum_mass() || mass >= self.resolved_maximum_mass() {
            Err(AstronomicalError::QuantityOutOfRange)
        } else {
            match GasGiantPlanet::from_mass_result(mass) {
                Ok(_) => Ok(GasGiantPlanet::on_orbit(mass, distance)),
                Err(error) => Err(error),
            }
        }
    }

    /// A gas giant at `distance` from its host.  Its mass is a log-normal
    /// variate, which the caller draws and hands over in millionths of a
    /// Jupiter mass; a mass outside the resolved range is refused.
    pub fn generate(&self, mass: u64, _host_star: &HostStar, distance: u64) -> (outcome: Result<
        GasGiantPlanet,
        AstronomicalError,
    >)
        ensures
            outcome == self.generate_result(mass, distance),
            outcome matches Ok(planet) ==> planet.wf() && self.resolved_minimum_mass() <= planet.mass
                < self.resolved_maximum_mass(),
    {
        let minimum_mass: u64 = resolve(self.minimum_mass, MINIMUM_MASS);
        let maximum_mass: u64 = resolve(self.maximum_mass, MAXIMUM_MASS);
        if distance == 0 || distance > DISTANCE_LIMIT {
            return Err(AstronomicalError::QuantityOutOfRange);
        }
        if minimum_mass >= maximum_mass {
            return Err(AstronomicalError::ConstraintUnsatisfiable);
        }
        if mass < minimum_mass || mass >= maximum_mass {
            return Err(AstronomicalError::QuantityOutOfRange);
        }
        let mut result: GasGiantPlanet = match GasGiantPlanet::from_mass(mass) {
            Ok(planet) => planet,
            Err(error) => {
                return Err(error);
            },
        };
        result.semi_major_axis = distance;
        result.orbital_eccentricity = ORBITAL_ECCENTRICITY;
        result.perihelion = perihelion(distance, ORBITAL_ECCENTRICITY);
        result.aphelion = aphelion(distance, ORBITAL_ECCENTRICITY);
        result.orbital_period = orbital_period(distance);
        Ok(result)
    }
}

} // verus!
