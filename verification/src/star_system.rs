//! Star systems: a subsystem of stars under a name.  Assembling one is the
//! only place where a failed generation is tried again.

use vstd::prelude::*;

use crate::error::AstronomicalError;
use crate::oracle::FormulaOracle;
use crate::random::lemma_prefix_transitive;
use crate::random::Draw;
use crate::random::RandomStream;
use crate::star_subsystem::total_mass;
use crate::star_subsystem::Constraints as SubsystemConstraints;
use crate::star_subsystem::StarSubsystemType;

verus! {

/// How often a failed generation of the subsystem is tried again where the
/// constraints do not say.
pub const DEFAULT_RETRIES: u8 = 10;

/// A star system.
#[derive(Debug, PartialEq, Eq)]
pub struct StarSystem {
    /// The stars of the system.
    pub subsystem: StarSubsystemType,
    /// The name of the system.
    pub name: String,
}

impl Clone for StarSystem {
    fn clone(&self) -> (copy: StarSystem)
        ensures
            copy == *self,
    {
        StarSystem { subsystem: self.subsystem.clone(), name: self.name.clone() }
    }
}

/// Constraints on the generation of a star system.
#[derive(Clone, Copy, Debug, PartialEq, Eq)]
pub struct Constraints {
    /// Constraints on the subsystem.
    pub subsystem_constraints: Option<SubsystemConstraints>,
    /// How often a failed generation of the subsystem is tried again.
    pub retries: Option<u8>,
}

impl Default for Constraints {
    /// No constraint at all.
    fn default() -> (constraints: Constraints)
        ensures
            constraints == Constraints::unconstrained(),
    {
        Constraints { subsystem_constraints: None, retries: None }
    }
}

impl Constraints {
    /// The record with both fields unset.
    pub open spec fn unconstrained() -> Constraints {
        Constraints { subsystem_constraints: None, retries: None }
    }

    /// The record that `habitable` builds.
    pub open spec fn habitable_preset() -> Constraints {
        Constraints {
            subsystem_constraints: Some(SubsystemConstraints::habitable_preset()),
            retries: None,
        }
    }

    /// Constraints for a star system that can support life.
    pub fn habitable() -> (constraints: Constraints)
        ensures
            constraints == Constraints::habitable_preset(),
    {
        Constraints {
            subsystem_constraints: Some(SubsystemConstraints::habitable()),
            ..Constraints::default()
        }
    }

    /// The constraints on the subsystem: those set, or none at all.
    pub open spec fn resolved_subsystem_constraints(&self) -> SubsystemConstraints {
        match self.subsystem_constraints {
            Some(constraints) => constraints,
            None => SubsystemConstraints::unconstrained(),
        }
    }

    /// The number of retries: the one set, or the default.
    pub open spec fn resolved_retries(&self) -> u8 {
        match self.retries {
            Some(retries) => retries,
            None => DEFAULT_RETRIES,
        }
    }
}

/// How many attempts a number of retries allows: as many as there are
/// retries, and one where there are none.
pub open spec fn attempts_allowed(retries: u8) -> nat {
    if retries == 0 {
        1
    } else {
        retries as nat
    }
}

/// What to do after one attempt at a subsystem.
#[derive(Debug, PartialEq, Eq)]
pub enum RetryStep {
    /// The attempt succeeded: take its subsystem.
    Accept(StarSubsystemType),
    /// The attempt failed: try again, with this many attempts left.
    Retry(u8),
    /// The attempt failed and it was the last one allowed: give up.
    Exhausted,
}

impl RetryStep {
    /// The step that follows an attempt with the given result when
    /// `attempts_left` attempts were left, this one among them: a success is
    /// accepted; a failure, whichever it is, costs the attempt, and ends the
    /// attempts where it was the last.
    pub open spec fn after(
        candidate: Result<StarSubsystemType, AstronomicalError>,
        attempts_left: u8,
    ) -> RetryStep {
        match candidate {
            Ok(subsystem) => RetryStep::Accept(subsystem),
            Err(_) => if attempts_left <= 1 {
                RetryStep::Exhausted
            } else {
                RetryStep::Retry((attempts_left - 1) as u8)
            },
        }
    }

    /// The step that follows an attempt with the given result when
    /// `attempts_left` attempts were left, this one among them.
    pub fn decide(candidate: Result<StarSubsystemType, AstronomicalError>, attempts_left: u8) -> (step:
        RetryStep)
        ensures
            step == Self::after(candidate, attempts_left),
    {
        match candidate {
            Ok(subsystem) => RetryStep::Accept(subsystem),
            Err(_) => if attempts_left <= 1 {
                RetryStep::Exhausted
            } else {
                RetryStep::Retry(attempts_left - 1)
            },
        }
    }

    /// Without retries one attempt is allowed, and it is never followed by
    /// another: it is accepted, or the attempts end.
    pub proof fn lemma_no_retry_without_retries(
        candidate: Result<StarSubsystemType, AstronomicalError>,
    )
        ensures
            attempts_allowed(0) == 1,
            !(Self::after(candidate, 1) is Retry),
            candidate is Ok ==> Self::after(candidate, 1) is Accept,
            candidate is Err ==> Self::after(candidate, 1) is Exhausted,
    {
    }
}

impl StarSystem {
    /// The subsystem is well formed.
    pub open spec fn wf(&self) -> bool {
        self.subsystem.wf()
    }

    /// Whether this star system is well formed.
    pub fn is_well_formed(&self) -> (ok: bool)
        ensures
            ok == self.wf(),
    {
        self.subsystem.is_well_formed()
    }

    /// What one attempt decides, with `candidate` what it returned and
    /// `between` the record it left: a success is the outcome, and so is the
    /// exhaustion of the attempts where a failed attempt was the last one
    /// allowed; in both cases nothing more is drawn.
    pub open spec fn attempt_decides(
        candidate: Result<StarSubsystemType, AstronomicalError>,
        between: Seq<Draw>,
        after: Seq<Draw>,
        budget: nat,
        outcome: Result<StarSubsystemType, AstronomicalError>,
    ) -> bool {
        match candidate {
            Ok(subsystem) => outcome == Ok::<StarSubsystemType, AstronomicalError>(subsystem)
                && after == between,
            Err(_) => budget <= 1 ==> outcome == Err::<StarSubsystemType, AstronomicalError>(
                AstronomicalError::NoSuitableSubsystemsCouldBeGenerated,
            ) && after == between,
        }
    }

    /// What the attempts at a subsystem do and return with `budget` attempts
    /// allowed.  An attempt is one generation of a subsystem by the
    /// constraints.  The first success is the outcome.  A failed attempt is
    /// followed by another as long as one is allowed; when the last one
    /// allowed has failed, the outcome is that no suitable subsystem could be
    /// generated, whatever the attempts failed with.
    pub open spec fn attempts_ran(
        oracle: &FormulaOracle,
        subsystem_constraints: &SubsystemConstraints,
        budget: nat,
        before: Seq<Draw>,
        after: Seq<Draw>,
        outcome: Result<StarSubsystemType, AstronomicalError>,
    ) -> bool
        decreases budget,
    {
        budget > 0 && exists|
            between: Seq<Draw>,
            candidate: Result<StarSubsystemType, AstronomicalError>,
        |
            {
                &&& #[trigger] Self::attempt_decides(candidate, between, after, budget, outcome)
                &&& StarSubsystemType::generate_ran(
                    oracle,
                    subsystem_constraints,
                    before,
                    between,
                    candidate,
                )
                &&& candidate is Err && budget > 1 ==> Self::attempts_ran(
                    oracle,
                    subsystem_constraints,
                    (budget - 1) as nat,
                    between,
                    after,
                    outcome,
                )
            }
    }

    /// Attempts to generate a subsystem until an attempt succeeds or the
    /// attempts that the retries allow are used up, and says how many
    /// attempts were made.  Without retries there is exactly one attempt.
    pub fn generate_subsystem<R: RandomStream>(
        rng: &mut R,
        oracle: &FormulaOracle,
        subsystem_constraints: &SubsystemConstraints,
        retries: u8,
    ) -> (result: (Result<StarSubsystemType, AstronomicalError>, u16))
        ensures
            old(rng).drawn().is_prefix_of(final(rng).drawn()),
            final(rng).origin() == old(rng).origin(),
            Self::attempts_ran(
                oracle,
                subsystem_constraints,
                attempts_allowed(retries),
                old(rng).drawn(),
                final(rng).drawn(),
                result.0,
            ),
            1 <= result.1 <= attempts_allowed(retries),
            result.0 matches Ok(subsystem) ==> {
                &&& subsystem.wf()
                &&& subsystem_constraints.resolved_star_constraints().make_habitable
                    ==> subsystem.habitability().is_ok()
            },
            result.0 matches Err(error) ==> {
                &&& result.1 == attempts_allowed(retries)
                &&& error == AstronomicalError::NoSuitableSubsystemsCouldBeGenerated
            },
    {
        let budget: u8 = if retries == 0 {
            1
        } else {
            retries
        };
        let ghost before = rng.drawn();
        let mut attempts_left: u8 = budget;
        let mut attempts: u16 = 0;
        loop
            invariant
                1 <= attempts_left <= budget,
                attempts + attempts_left == budget,
                budget == attempts_allowed(retries),
                before == old(rng).drawn(),
                before.is_prefix_of(rng.drawn()),
                rng.origin() == old(rng).origin(),
                forall|after: Seq<Draw>, outcome: Result<StarSubsystemType, AstronomicalError>|
                    #[trigger] Self::attempts_ran(
                        oracle,
                        subsystem_constraints,
                        attempts_left as nat,
                        rng.drawn(),
                        after,
                        outcome,
                    ) ==> Self::attempts_ran(
                        oracle,
                        subsystem_constraints,
                        budget as nat,
                        before,
                        after,
                        outcome,
                    ),
            decreases attempts_left,
        {
            let ghost started = rng.drawn();
            let candidate_result = subsystem_constraints.generate(rng, oracle);
            let ghost candidate = candidate_result;
            let ghost between = rng.drawn();
            proof {
                lemma_prefix_transitive(before, started, between);
            }
            attempts = attempts + 1;
            match RetryStep::decide(candidate_result, attempts_left) {
                RetryStep::Accept(subsystem) => {
                    proof {
                        let outcome = Ok::<StarSubsystemType, AstronomicalError>(subsystem);
                        assert(Self::attempt_decides(
                            candidate,
                            between,
                            between,
                            attempts_left as nat,
                            outcome,
                        ));
                        assert(Self::attempts_ran(
                            oracle,
                            subsystem_constraints,
                            attempts_left as nat,
                            started,
                            between,
                            outcome,
                        ));
                    }
                    return (Ok(subsystem), attempts);
                },
                RetryStep::Exhausted => {
                    proof {
                        let outcome = Err::<StarSubsystemType, AstronomicalError>(
                            AstronomicalError::NoSuitableSubsystemsCouldBeGenerated,
                        );
                        assert(Self::attempt_decides(
                            candidate,
                            between,
                            between,
                            attempts_left as nat,
                            outcome,
                        ));
                        assert(Self::attempts_ran(
                            oracle,
                            subsystem_constraints,
                            attempts_left as nat,
                            started,
                            between,
                            outcome,
                        ));
                    }
                    return (
                        Err(AstronomicalError::NoSuitableSubsystemsCouldBeGenerated),
                        attempts,
                    );
                },
                RetryStep::Retry(left) => {
                    proof {
                        assert forall|
                            after: Seq<Draw>,
                            outcome: Result<StarSubsystemType, AstronomicalError>,
                        | #[trigger]
                            Self::attempts_ran(
                                oracle,
                                subsystem_constraints,
                                left as nat,
                                between,
                                after,
                                outcome,
                            ) implies Self::attempts_ran(
                            oracle,
                            subsystem_constraints,
                            budget as nat,
                            before,
                            after,
                            outcome,
                        ) by {
                            assert(Self::attempt_decides(
                                candidate,
                                between,
                                after,
                                attempts_left as nat,
                                outcome,
                            ));
                            assert(Self::attempts_ran(
                                oracle,
                                subsystem_constraints,
                                attempts_left as nat,
                                started,
                                after,
                                outcome,
                            ));
                        }
                    }
                    attempts_left = left;
                },
            }
        }
    }

    /// What `from_constraints` does and returns: the attempts at a subsystem
    /// that the resolved retries allow are made by the resolved subsystem
    /// constraints; a subsystem is returned under the name Steve, and the
    /// exhaustion of the attempts as it is.  Unset retries are ten; unset
    /// subsystem constraints are those with every field unset.
    pub open spec fn from_constraints_ran(
        oracle: &FormulaOracle,
        constraints: &Constraints,
        before: Seq<Draw>,
        after: Seq<Draw>,
        outcome: Result<StarSystem, AstronomicalError>,
    ) -> bool {
        match outcome {
            Ok(system) => {
                &&& system.name@ == "Steve"@
                &&& Self::attempts_ran(
                    oracle,
                    &constraints.resolved_subsystem_constraints(),
                    attempts_allowed(constraints.resolved_retries()),
                    before,
                    after,
                    Ok::<StarSubsystemType, AstronomicalError>(system.subsystem),
                )
            },
            Err(error) => Self::attempts_ran(
                oracle,
                &constraints.resolved_subsystem_constraints(),
                attempts_allowed(constraints.resolved_retries()),
                before,
                after,
                Err::<StarSubsystemType, AstronomicalError>(error),
            ),
        }
    }

    /// A star system within the given constraints.  The subsystem is
    /// attempted as often as the retries allow, and at least once, until an
    /// attempt succeeds; when all have failed, the failure is that no
    /// suitable subsystem could be generated, whatever the attempts failed
    /// with.
    pub fn from_constraints<R: RandomStream>(
        rng: &mut R,
        oracle: &FormulaOracle,
        constraints: &Constraints,
    ) -> (outcome: Result<StarSystem, AstronomicalError>)
        ensures
            old(rng).drawn().is_prefix_of(final(rng).drawn()),
            final(rng).origin() == old(rng).origin(),
            Self::from_constraints_ran(
                oracle,
                constraints,
                old(rng).drawn(),
                final(rng).drawn(),
                outcome,
            ),
            outcome matches Ok(system) ==> {
                &&& system.wf()
                &&& constraints.resolved_subsystem_constraints().resolved_star_constraints().make_habitable
                    ==> system.habitability().is_ok()
            },
            outcome matches Err(error) ==> error
                == AstronomicalError::NoSuitableSubsystemsCouldBeGenerated,
    {
        let subsystem_constraints: SubsystemConstraints = match constraints.subsystem_constraints {
            Some(subsystem_constraints) => subsystem_constraints,
            None => SubsystemConstraints::default(),
        };
        let retries: u8 = match constraints.retries {
            Some(retries) => retries,
            None => DEFAULT_RETRIES,
        };
        let (attempt, _attempts) = Self::generate_subsystem(
            rng,
            oracle,
            &subsystem_constraints,
            retries,
        );
        match attempt {
            Ok(subsystem) => {
                let name: String = "Steve".to_owned();
                Ok(StarSystem { subsystem, name })
            },
            Err(error) => Err(error),
        }
    }

    /// The mass of all the stars of the system, in millionths of a solar
    /// mass, which must fit 64 bits.
    pub fn get_stellar_mass(&self) -> (mass: u64)
        requires
            self.subsystem.mass_of() <= u64::MAX,
        ensures
            mass == self.subsystem.mass_of(),
            mass == total_mass(self.subsystem.leaves()),
    {
        self.subsystem.get_mass()
    }

    /// The number of stars in the system, which must fit 8 bits.
    pub fn get_stellar_count(&self) -> (count: u8)
        requires
            self.subsystem.count_of() <= u8::MAX,
        ensures
            count == self.subsystem.count_of(),
            count == self.subsystem.leaves().len(),
    {
        self.subsystem.get_count()
    }

    /// Why this system cannot support life, if it cannot: as its subsystem
    /// has it.
    pub open spec fn habitability(&self) -> Result<(), AstronomicalError> {
        self.subsystem.habitability()
    }

    /// Checks that this system can support life.
    pub fn check_habitable(&self) -> (verdict: Result<(), AstronomicalError>)
        ensures
            verdict == self.habitability(),
    {
        self.subsystem.check_habitable()
    }

    /// Whether this system can support life.
    pub fn is_habitable(&self) -> (habitable: bool)
        ensures
            habitable == self.habitability().is_ok(),
    {
        match self.check_habitable() {
            Ok(()) => true,
            Err(_) => false,
        }
    }
}

} // verus!
