//! Galaxies: for now, one stellar neighbourhood.

use vstd::prelude::*;

use crate::error::AstronomicalError;
use crate::oracle::FormulaOracle;
use crate::random::Draw;
use crate::random::RandomStream;
use crate::stellar_neighborhood::Constraints as StellarNeighborhoodConstraints;
use crate::stellar_neighborhood::StellarNeighbor;

verus! {

/// A galaxy.
#[derive(Debug, PartialEq, Eq)]
pub struct Galaxy {
    /// The stellar neighbourhood.
    pub stellar_neighborhood: StellarNeighbor,
}

impl Clone for Galaxy {
    fn clone(&self) -> (copy: Galaxy)
        ensures
            copy == *self,
    {
        Galaxy { stellar_neighborhood: self.stellar_neighborhood.clone() }
    }
}

/// Constraints on the generation of a galaxy.
#[derive(Clone, Copy, Debug, PartialEq, Eq)]
pub struct Constraints {
    /// Constraints on the stellar neighbourhood.
    pub stellar_neighborhood_constraints: Option<StellarNeighborhoodConstraints>,
}

impl Default for Constraints {
    /// The defaults, written out: the neighbourhood constraints set to their
    /// own defaults.
    fn default() -> (constraints: Constraints)
        ensures
            constraints == Constraints::default_record(),
    {
        Constraints {
            stellar_neighborhood_constraints: Some(StellarNeighborhoodConstraints::default()),
        }
    }
}

impl Constraints {
    /// The record with its field unset.
    pub open spec fn unconstrained() -> Constraints {
        Constraints { stellar_neighborhood_constraints: None }
    }

    /// The record that `default` builds.
    pub open spec fn default_record() -> Constraints {
        Constraints {
            stellar_neighborhood_constraints: Some(StellarNeighborhoodConstraints::unconstrained()),
        }
    }

    /// The record that `habitable` builds.
    pub open spec fn habitable_preset() -> Constraints {
        Constraints {
            stellar_neighborhood_constraints: Some(
                StellarNeighborhoodConstraints::habitable_preset(),
            ),
        }
    }

    /// Constraints for a galaxy whose neighbourhood can support life.
    pub fn habitable() -> (constraints: Constraints)
        ensures
            constraints == Constraints::habitable_preset(),
    {
        Constraints {
            stellar_neighborhood_constraints: Some(StellarNeighborhoodConstraints::habitable()),
        }
    }

    /// The constraints on the neighbourhood: those set, or none at all.
    pub open spec fn resolved_neighborhood_constraints(&self) -> StellarNeighborhoodConstraints {
        match self.stellar_neighborhood_constraints {
            Some(constraints) => constraints,
            None => StellarNeighborhoodConstraints::unconstrained(),
        }
    }

    /// The record that `default` builds resolves as the record with its field
    /// unset does: generation, which reads the record only through what it
    /// resolves to, cannot tell the two apart.
    pub proof fn lemma_default_resolves_as_unset()
        ensures
            Constraints::default_record().resolved_neighborhood_constraints()
                == Constraints::unconstrained().resolved_neighborhood_constraints(),
    {
    }

    /// What generation does and returns: the neighbourhood is generated by
    /// the resolved neighbourhood constraints, and its failure is handed on
    /// as it is.
    pub open spec fn generate_ran(
        &self,
        oracle: &FormulaOracle,
        before: Seq<Draw>,
        after: Seq<Draw>,
        outcome: Result<Galaxy, AstronomicalError>,
    ) -> bool {
        match outcome {
            Ok(galaxy) => StellarNeighbor::generate_ran(
                oracle,
                &self.resolved_neighborhood_constraints(),
                before,
                after,
                Ok::<StellarNeighbor, AstronomicalError>(galaxy.stellar_neighborhood),
            ),
            Err(error) => StellarNeighbor::generate_ran(
                oracle,
                &self.resolved_neighborhood_constraints(),
                before,
                after,
                Err::<StellarNeighbor, AstronomicalError>(error),
            ),
        }
    }

    /// A galaxy within these constraints.  A failure of the neighbourhood is
    /// handed on as it is.
    pub fn generate<R: RandomStream>(&self, rng: &mut R, oracle: &FormulaOracle) -> (outcome: Result<
        Galaxy,
        AstronomicalError,
    >)
        ensures
            old(rng).drawn().is_prefix_of(final(rng).drawn()),
            final(rng).origin() == old(rng).origin(),
            self.generate_ran(oracle, old(rng).drawn(), final(rng).drawn(), outcome),
            outcome matches Err(error) ==> error == AstronomicalError::QuantityOutOfRange || error
                == AstronomicalError::NoSuitableSubsystemsCouldBeGenerated,
    {
        let stellar_neighborhood_constraints: StellarNeighborhoodConstraints =
            match self.stellar_neighborhood_constraints {
            Some(constraints) => constraints,
            None => StellarNeighborhoodConstraints::default(),
        };
        match stellar_neighborhood_constraints.generate(rng, oracle) {
            Ok(stellar_neighborhood) => Ok(Galaxy { stellar_neighborhood }),
            Err(error) => Err(error),
        }
    }
}

} // verus!
