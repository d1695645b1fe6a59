//! Moons.

use vstd::prelude::*;

use crate::constraint::resolve;
use crate::constraint::sample;
use crate::constraint::value_or;
use crate::error::AstronomicalError;
use crate::random::uniform_draw;
use crate::random::Draw;
use crate::random::RandomStream;

verus! {

/// The least mass of a moon, in millionths of a lunar mass.
pub const MINIMUM_MASS: u64 = 10_000;

/// The mass that a moon stays below, in millionths of a lunar mass.
pub const MAXIMUM_MASS: u64 = 10_000_000;

/// The least albedo of a moon, in millionths.
pub const MINIMUM_ALBEDO: u64 = 50_000;

/// The albedo that a moon stays below, in millionths.
pub const MAXIMUM_ALBEDO: u64 = 950_000;

/// A moon.
#[derive(Clone, Copy, Debug, PartialEq, Eq, Structural)]
pub struct Moon {
    /// Mass, in millionths of a lunar mass.
    pub mass: u64,
    /// The share of light that the surface reflects, in millionths.
    pub albedo: u64,
}

/// Constraints on the generation of a moon.
#[derive(Clone, Copy, Debug, PartialEq, Eq)]
pub struct Constraints {
    /// The least mass.
    pub minimum_mass: Option<u64>,
    /// The mass to stay below.
    pub maximum_mass: Option<u64>,
    /// The least albedo.
    pub minimum_albedo: Option<u64>,
    /// The albedo to stay below.
    pub maximum_albedo: Option<u64>,
}

impl Default for Constraints {
    /// No constraint at all.
    fn default() -> (constraints: Constraints)
        ensures
            constraints == Constraints::unconstrained(),
    {
        Constraints {
            minimum_mass: None,
            maximum_mass: None,
            minimum_albedo: None,
            maximum_albedo: None,
        }
    }
}

impl Constraints {
    /// The record with every bound unset.
    pub open spec fn unconstrained() -> Constraints {
        Constraints {
            minimum_mass: None,
            maximum_mass: None,
            minimum_albedo: None,
            maximum_albedo: None,
        }
    }

    /// The least mass: the one set, or the default.
    pub open spec fn resolved_minimum_mass(&self) -> u64 {
        value_or(self.minimum_mass, MINIMUM_MASS)
    }

    /// The mass to stay below: the one set, or the default.
    pub open spec fn resolved_maximum_mass(&self) -> u64 {
        value_or(self.maximum_mass, MAXIMUM_MASS)
    }

    /// The least albedo: the one set, or the default.
    pub open spec fn resolved_minimum_albedo(&self) -> u64 {
        value_or(self.minimum_albedo, MINIMUM_ALBEDO)
    }

    /// The albedo to stay below: the one set, or the default.
    pub open spec fn resolved_maximum_albedo(&self) -> u64 {
        value_or(self.maximum_albedo, MAXIMUM_ALBEDO)
    }

    /// Why no moon can be drawn, if none can: a range is empty.
    pub open spec fn rejection(&self) -> Option<AstronomicalError> {
        if self.resolved_minimum_mass() >= self.resolved_maximum_mass() {
            Some(AstronomicalError::ConstraintUnsatisfiable)
        } else if self.resolved_minimum_albedo() >= self.resolved_maximum_albedo() {
            Some(AstronomicalError::ConstraintUnsatisfiable)
        } else {
            None
        }
    }

    /// The moon was drawn: first its mass from the resolved range of masses,
    /// then its albedo from the resolved range of albedos.
    pub open spec fn drew_moon(&self, before: Seq<Draw>, after: Seq<Draw>, moon: Moon) -> bool {
        &&& self.resolved_minimum_mass() <= moon.mass < self.resolved_maximum_mass()
        &&& self.resolved_minimum_albedo() <= moon.albedo < self.resolved_maximum_albedo()
        &&& after == before.push(
            uniform_draw(self.resolved_minimum_mass(), self.resolved_maximum_mass(), moon.mass),
        ).push(
            uniform_draw(
                self.resolved_minimum_albedo(),
                self.resolved_maximum_albedo(),
                moon.albedo,
            ),
        )
    }

    /// What generation does and returns: where a range is empty the
    /// constraint cannot be met and nothing is drawn; otherwise the moon is
    /// the one of the two values drawn.
    pub open spec fn generate_ran(
        &self,
        before: Seq<Draw>,
        after: Seq<Draw>,
        outcome: Result<Moon, AstronomicalError>,
    ) -> bool {
        match self.rejection() {
            Some(error) => outcome == Err::<Moon, AstronomicalError>(error) && after == before,
            None => outcome matches Ok(moon) && self.drew_moon(before, after, moon),
        }
    }

    /// A moon within these constraints: its mass and its albedo are drawn
    /// from their resolved ranges, the mass first.  It fails exactly when a
    /// range is empty.  The record of constraints is read, never changed.
    pub fn generate<R: RandomStream>(&self, rng: &mut R) -> (outcome: Result<Moon, AstronomicalError>)
        ensures
            old(rng).drawn().is_prefix_of(final(rng).drawn()),
            final(rng).origin() == old(rng).origin(),
            self.generate_ran(old(rng).drawn(), final(rng).drawn(), outcome),
    {
        let minimum_mass: u64 = resolve(self.minimum_mass, MINIMUM_MASS);
        let maximum_mass: u64 = resolve(self.maximum_mass, MAXIMUM_MASS);
        let minimum_albedo: u64 = resolve(self.minimum_albedo, MINIMUM_ALBEDO);
        let maximum_albedo: u64 = resolve(self.maximum_albedo, MAXIMUM_ALBEDO);
        if minimum_mass >= maximum_mass || minimum_albedo >= maximum_albedo {
            return Err(AstronomicalError::ConstraintUnsatisfiable);
        }
        let mass: u64 = match sample(rng, minimum_mass, maximum_mass) {
            Ok(mass) => mass,
            Err(error) => {
                return Err(error);
            },
        };
        let albedo: u64 = match sample(rng, minimum_albedo, maximum_albedo) {
            Ok(albedo) => albedo,
            Err(error) => {
                return Err(error);
            },
        };
        Ok(Moon { mass, albedo })
    }
}

} // verus!
