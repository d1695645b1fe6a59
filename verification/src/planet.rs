//! Planets: terrestrial inside the frost line of their host, gas giants at
//! and beyond it.

use vstd::prelude::*;

use crate::error::AstronomicalError;
use crate::gas_giant_planet::Constraints as GasGiantPlanetConstraints;
use crate::gas_giant_planet::GasGiantPlanet;
use crate::host_star::HostStar;
use crate::random::Draw;
use crate::random::RandomStream;
use crate::terrestrial_planet::Constraints as TerrestrialPlanetConstraints;
use crate::terrestrial_planet::TerrestrialPlanet;
use crate::terrestrial_planet::MAXIMUM_HABITABLE_MASS;
use crate::terrestrial_planet::MINIMUM_HABITABLE_MASS;

verus! {

/// A planet.
#[derive(Clone, Copy, Debug, PartialEq, Eq, Structural)]
pub enum Planet {
    /// A gas giant planet.
    GasGiantPlanet(GasGiantPlanet),
    /// A terrestrial planet.
    TerrestrialPlanet(TerrestrialPlanet),
}

impl Planet {
    /// The planet of either kind is well formed.
    pub open spec fn wf(&self) -> bool {
        match self {
            Planet::GasGiantPlanet(planet) => planet.wf(),
            Planet::TerrestrialPlanet(planet) => planet.wf(),
        }
    }

    /// Why this planet cannot support life, if it cannot: a terrestrial
    /// planet as it has it itself, a gas giant for being one.
    pub open spec fn habitability(&self) -> Result<(), AstronomicalError> {
        match self {
            Planet::GasGiantPlanet(_) => Err(AstronomicalError::GasGiantCannotSupportLife),
            Planet::TerrestrialPlanet(planet) => planet.habitability(),
        }
    }

    /// Checks that this planet can support life.
    pub fn check_habitable(&self) -> (verdict: Result<(), AstronomicalError>)
        ensures
            verdict == self.habitability(),
    {
        match self {
            Planet::GasGiantPlanet(_) => Err(AstronomicalError::GasGiantCannotSupportLife),
            Planet::TerrestrialPlanet(terrestrial_planet) => terrestrial_planet.check_habitable(),
        }
    }

    /// Whether this planet can support life.
    pub fn is_habitable(&self) -> (habitable: bool)
        ensures
            habitable == self.habitability().is_ok(),
    {
        match self.check_habitable() {
            Ok(()) => true,
            Err(_) => false,
        }
    }
}

/// Constraints on the generation of a planet.
#[derive(Clone, Copy, Debug, PartialEq, Eq)]
pub struct Constraints {
    /// Constraints on a gas giant planet.
    pub gas_giant_planet_constraints: Option<GasGiantPlanetConstraints>,
    /// Constraints on a terrestrial planet.
    pub terrestrial_planet_constraints: Option<TerrestrialPlanetConstraints>,
}

impl Default for Constraints {
    /// No constraint at all.
    fn default() -> (constraints: Constraints)
        ensures
            constraints == Constraints::unconstrained(),
    {
        Constraints { gas_giant_planet_constraints: None, terrestrial_planet_constraints: None }
    }
}

impl Constraints {
    /// The record with both fields unset.
    pub open spec fn unconstrained() -> Constraints {
        Constraints { gas_giant_planet_constraints: None, terrestrial_planet_constraints: None }
    }

    /// The record that `habitable` builds.
    pub open spec fn habitable_preset() -> Constraints {
        Constraints {
            gas_giant_planet_constraints: None,
            terrestrial_planet_constraints: Some(TerrestrialPlanetConstraints::habitable_preset()),
        }
    }

    /// Constraints that aim for a planet that can support life: a terrestrial
    /// planet of a habitable mass, where the planet is terrestrial.
    pub fn habitable() -> (constraints: Constraints)
        ensures
            constraints == Constraints::habitable_preset(),
    {
        Constraints {
            terrestrial_planet_constraints: Some(TerrestrialPlanetConstraints::habitable()),
            ..Constraints::default()
        }
    }

    /// The constraints on a gas giant: those set, or none at all.
    pub open spec fn resolved_gas_giant_constraints(&self) -> GasGiantPlanetConstraints {
        match self.gas_giant_planet_constraints {
            Some(constraints) => constraints,
            None => GasGiantPlanetConstraints::unconstrained(),
        }
    }

    /// The constraints on a terrestrial planet: those set, or none at all.
    pub open spec fn resolved_terrestrial_constraints(&self) -> TerrestrialPlanetConstraints {
        match self.terrestrial_planet_constraints {
            Some(constraints) => constraints,
            None => TerrestrialPlanetConstraints::unconstrained(),
        }
    }

    /// What generation does and returns: at or beyond the frost line of the
    /// host the gas giant of the mass handed in, as its constraints make it,
    /// with nothing drawn; inside the frost line a terrestrial planet, as its
    /// constraints generate it.
    pub open spec fn generate_ran(
        &self,
        host_star: &HostStar,
        distance: u64,
        gas_giant_mass: u64,
        before: Seq<Draw>,
        after: Seq<Draw>,
        outcome: Result<Planet, AstronomicalError>,
    ) -> bool {
        if distance >= host_star.frost_line() {
            &&& after == before
            &&& match self.resolved_gas_giant_constraints().generate_result(
                gas_giant_mass,
                distance,
            ) {
                Ok(planet) => outcome == Ok::<Planet, AstronomicalError>(
                    Planet::GasGiantPlanet(planet),
                ),
                Err(error) => outcome == Err::<Planet, AstronomicalError>(error),
            }
        } else {
            match outcome {
                Ok(Planet::TerrestrialPlanet(planet)) => {
                    self.resolved_terrestrial_constraints().generate_ran(
                        distance,
                        before,
                        after,
                        Ok::<TerrestrialPlanet, AstronomicalError>(planet),
                    )
                },
                Ok(Planet::GasGiantPlanet(_)) => false,
                Err(error) => self.resolved_terrestrial_constraints().generate_ran(
                    distance,
                    before,
                    after,
                    Err::<TerrestrialPlanet, AstronomicalError>(error),
                ),
            }
        }
    }

    /// The terrestrial constraints keep the mass among the habitable masses.
    pub open spec fn keeps_mass_habitable(&self) -> bool {
        &&& MINIMUM_HABITABLE_MASS <= self.resolved_terrestrial_constraints().resolved_minimum_mass()
        &&& self.resolved_terrestrial_constraints().resolved_maximum_mass() <= MAXIMUM_HABITABLE_MASS
            + 1
    }

    /// A planet at `distance` from its host: a gas giant at or beyond the
    /// frost line of the host, a terrestrial planet inside it.  The mass of a
    /// gas giant is a log-normal variate, which the caller draws and hands
    /// over as `gas_giant_mass`; it is not read for a terrestrial planet.  A
    /// planet that is returned is well formed, and a terrestrial planet can
    /// support life where the constraints keep its mass habitable.
    pub fn generate<R: RandomStream>(
        &self,
        rng: &mut R,
        host_star: &HostStar,
        distance: u64,
        gas_giant_mass: u64,
    ) -> (outcome: Result<Planet, AstronomicalError>)
        ensures
            old(rng).drawn().is_prefix_of(final(rng).drawn()),
            final(rng).origin() == old(rng).origin(),
            self.generate_ran(
                host_star,
                distance,
                gas_giant_mass,
                old(rng).drawn(),
                final(rng).drawn(),
                outcome,
            ),
            outcome matches Ok(planet) ==> planet.wf(),
            outcome matches Ok(planet) ==> (self.keeps_mass_habitable() && distance
                < host_star.frost_line() ==> planet.habitability().is_ok()),
            outcome matches Err(error) ==> error == AstronomicalError::ConstraintUnsatisfiable
                || error == AstronomicalError::QuantityOutOfRange,
    {
        if distance >= host_star.get_frost_line() {
            let constraints: GasGiantPlanetConstraints = match self.gas_giant_planet_constraints {
                Some(constraints) => constraints,
                None => GasGiantPlanetConstraints::default(),
            };
            match constraints.generate(gas_giant_mass, host_star, distance) {
                Ok(planet) => Ok(Planet::GasGiantPlanet(planet)),
                Err(error) => Err(error),
            }
        } else {
            let constraints: TerrestrialPlanetConstraints = match self.terrestrial_planet_constraints {
                Some(constraints) => constraints,
                None => TerrestrialPlanetConstraints::default(),
            };
            match constraints.generate(rng, host_star, distance) {
                Ok(planet) => Ok(Planet::TerrestrialPlanet(planet)),
                Err(error) => Err(error),
            }
        }
    }
}

} // verus!
