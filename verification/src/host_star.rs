//! Host stars: what planets orbit, a single star or a close binary.

use vstd::prelude::*;

use crate::close_binary_star::Bounds;
use crate::close_binary_star::CloseBinaryStar;
use crate::close_binary_star::Constraints as CloseBinaryStarConstraints;
use crate::close_binary_star::MAXIMUM_HABITABLE_COMBINED_MASS;
use crate::error::AstronomicalError;
use crate::fixed_point::UNIT;
use crate::oracle::FormulaOracle;
use crate::random::uniform_draw;
use crate::random::Draw;
use crate::random::RandomStream;
use crate::star::Constraints as StarConstraints;
use crate::star::Star;

verus! {

/// The probability, in millionths, that a host star is a close binary.
pub const BINARY_STAR_PROBABILITY: u64 = 250_000;

/// A host star.
#[derive(Debug, PartialEq, Eq)]
pub enum HostStar {
    /// A single star.
    Star(Star),
    /// A close binary star.
    CloseBinaryStar(CloseBinaryStar),
}

impl Clone for HostStar {
    fn clone(&self) -> (copy: HostStar)
        ensures
            copy == *self,
    {
        match self {
            HostStar::Star(star) => HostStar::Star(star.clone()),
            HostStar::CloseBinaryStar(binary) => HostStar::CloseBinaryStar(binary.clone()),
        }
    }
}

impl HostStar {
    /// The star, or the pair, is well formed.
    pub open spec fn wf(&self) -> bool {
        match self {
            HostStar::Star(star) => star.wf(),
            HostStar::CloseBinaryStar(binary) => binary.wf(),
        }
    }

    /// Whether this host is well formed.
    pub fn is_well_formed(&self) -> (ok: bool)
        ensures
            ok == self.wf(),
    {
        match self {
            HostStar::Star(star) => star.is_well_formed(),
            HostStar::CloseBinaryStar(binary) => binary.is_well_formed(),
        }
    }

    /// The frost line of the star, or of the pair.
    pub open spec fn frost_line(&self) -> u64 {
        match self {
            HostStar::Star(star) => star.frost_line,
            HostStar::CloseBinaryStar(binary) => binary.frost_line,
        }
    }

    /// The frost line of the host, in millionths of an astronomical unit.
    pub fn get_frost_line(&self) -> (line: u64)
        ensures
            line == self.frost_line(),
    {
        match self {
            HostStar::Star(star) => star.frost_line,
            HostStar::CloseBinaryStar(binary) => binary.frost_line,
        }
    }

    /// The habitable zone of the star, or of the pair.
    pub open spec fn habitable_zone(&self) -> (u64, u64) {
        match self {
            HostStar::Star(star) => star.habitable_zone,
            HostStar::CloseBinaryStar(binary) => binary.habitable_zone,
        }
    }

    /// The habitable zone of the host, in millionths of an astronomical unit.
    pub fn get_habitable_zone(&self) -> (zone: (u64, u64))
        ensures
            zone == self.habitable_zone(),
    {
        match self {
            HostStar::Star(star) => star.habitable_zone,
            HostStar::CloseBinaryStar(binary) => binary.habitable_zone,
        }
    }

    /// Why this host cannot support life, if it cannot: as the star, or the
    /// pair, has it.
    pub open spec fn habitability(&self) -> Result<(), AstronomicalError> {
        match self {
            HostStar::Star(star) => star.habitability(),
            HostStar::CloseBinaryStar(binary) => binary.habitability(),
        }
    }

    /// Checks that this host can support life.
    pub fn check_habitable(&self) -> (verdict: Result<(), AstronomicalError>)
        requires
            self.wf(),
        ensures
            verdict == self.habitability(),
    {
        match self {
            HostStar::Star(star) => star.check_habitable(),
            HostStar::CloseBinaryStar(binary) => binary.check_habitable(),
        }
    }

    /// Whether this host can support life.
    pub fn is_habitable(&self) -> (habitable: bool)
        requires
            self.wf(),
        ensures
            habitable == self.habitability().is_ok(),
    {
        match self.check_habitable() {
            Ok(()) => true,
            Err(_) => false,
        }
    }
}

/// Constraints on the generation of a host star.
#[derive(Clone, Copy, Debug, PartialEq, Eq)]
pub struct Constraints {
    /// Constraints on a single star.
    pub star_constraints: Option<StarConstraints>,
    /// Constraints on a close binary star.
    pub close_binary_star_constraints: Option<CloseBinaryStarConstraints>,
}

impl Default for Constraints {
    /// No constraint at all.
    fn default() -> (constraints: Constraints)
        ensures
            constraints == Constraints::unconstrained(),
    {
        Constraints { star_constraints: None, close_binary_star_constraints: None }
    }
}

impl Constraints {
    /// The record with both fields unset.
    pub open spec fn unconstrained() -> Constraints {
        Constraints { star_constraints: None, close_binary_star_constraints: None }
    }

    /// The record that `habitable` builds.
    pub open spec fn habitable_preset() -> Constraints {
        Constraints {
            star_constraints: Some(StarConstraints::habitable_preset()),
            close_binary_star_constraints: Some(CloseBinaryStarConstraints::habitable_preset()),
        }
    }

    /// Constraints for a host that can support life.
    pub fn habitable() -> (constraints: Constraints)
        ensures
            constraints == Constraints::habitable_preset(),
    {
        Constraints {
            star_constraints: Some(StarConstraints::habitable()),
            close_binary_star_constraints: Some(CloseBinaryStarConstraints::habitable()),
        }
    }

    /// The constraints on a single star: those set, or none at all.
    pub open spec fn resolved_star_constraints(&self) -> StarConstraints {
        match self.star_constraints {
            Some(constraints) => constraints,
            None => StarConstraints::unconstrained(),
        }
    }

    /// The bounds on a close binary star: those of the constraints set, or
    /// of the default record.
    pub open spec fn resolved_binary_bounds(&self) -> Bounds {
        match self.close_binary_star_constraints {
            Some(constraints) => constraints.resolved(),
            None => CloseBinaryStarConstraints::default_record().resolved(),
        }
    }

    /// The draw decides for a single star: it exceeds the probability of a
    /// close binary.
    pub open spec fn is_solitary(draw: u64) -> bool {
        draw > BINARY_STAR_PROBABILITY
    }

    /// Whether the draw decides for a single star.
    pub fn decides_for_single_star(draw: u64) -> (solitary: bool)
        ensures
            solitary == Self::is_solitary(draw),
    {
        draw > BINARY_STAR_PROBABILITY
    }

    /// What generation does and returns once the kind of host has been
    /// drawn: a single star as the star constraints generate it, or a close
    /// binary as the binary bounds generate it; a failure of either is
    /// handed on unchanged, and the other kind is not tried.
    pub open spec fn made_of_draw(
        &self,
        oracle: &FormulaOracle,
        draw: u64,
        before: Seq<Draw>,
        after: Seq<Draw>,
        outcome: Result<HostStar, AstronomicalError>,
    ) -> bool {
        if Self::is_solitary(draw) {
            match outcome {
                Ok(HostStar::Star(star)) => self.resolved_star_constraints().generate_ran(
                    oracle,
                    before,
                    after,
                    Ok::<Star, AstronomicalError>(star),
                ),
                Ok(HostStar::CloseBinaryStar(_)) => false,
                Err(error) => self.resolved_star_constraints().generate_ran(
                    oracle,
                    before,
                    after,
                    Err::<Star, AstronomicalError>(error),
                ),
            }
        } else {
            match outcome {
                Ok(HostStar::Star(_)) => false,
                Ok(HostStar::CloseBinaryStar(binary)) => self.resolved_binary_bounds().generate_ran(
                    oracle,
                    before,
                    after,
                    Ok::<CloseBinaryStar, AstronomicalError>(binary),
                ),
                Err(error) => self.resolved_binary_bounds().generate_ran(
                    oracle,
                    before,
                    after,
                    Err::<CloseBinaryStar, AstronomicalError>(error),
                ),
            }
        }
    }

    /// `draw` was drawn from zero to one, both ends included, and the host
    /// was made as the draw decides.
    pub open spec fn drew_kind(
        &self,
        oracle: &FormulaOracle,
        before: Seq<Draw>,
        after: Seq<Draw>,
        outcome: Result<HostStar, AstronomicalError>,
        draw: u64,
    ) -> bool {
        &&& draw <= UNIT
        &&& self.made_of_draw(
            oracle,
            draw,
            before.push(uniform_draw(0, (UNIT + 1) as u64, draw)),
            after,
            outcome,
        )
    }

    /// The first draw that generation added to the record decided the kind
    /// of host: the draw was one from zero to one, both ends included; where
    /// it decided for a single star the outcome is no close binary, and where
    /// it decided for a close binary the outcome is no single star.
    pub open spec fn first_draw_decided(
        before: Seq<Draw>,
        after: Seq<Draw>,
        draw: u64,
        outcome: Result<HostStar, AstronomicalError>,
    ) -> bool {
        &&& before.len() < after.len()
        &&& after[before.len() as int] == uniform_draw(0, (UNIT + 1) as u64, draw)
        &&& draw <= UNIT
        &&& if Self::is_solitary(draw) {
            !(outcome matches Ok(HostStar::CloseBinaryStar(_)))
        } else {
            !(outcome matches Ok(HostStar::Star(_)))
        }
    }

    /// What generation does and returns: the first draw decides the kind of
    /// host, and the constraints of that kind generate it.
    pub open spec fn generate_ran(
        &self,
        oracle: &FormulaOracle,
        before: Seq<Draw>,
        after: Seq<Draw>,
        outcome: Result<HostStar, AstronomicalError>,
    ) -> bool {
        exists|draw: u64| #[trigger] self.drew_kind(oracle, before, after, outcome, draw)
    }

    /// Both kinds of host must be able to support life: the star constraints
    /// carry the habitability flag, and the binary bounds carry it with a
    /// habitable maximum combined mass.
    pub open spec fn enforces_habitability(&self) -> bool {
        &&& self.resolved_star_constraints().make_habitable
        &&& self.resolved_binary_bounds().enforce_habitability
        &&& self.resolved_binary_bounds().maximum_combined_mass <= MAXIMUM_HABITABLE_COMBINED_MASS
    }

    /// The habitable constraints make both kinds of host able to support
    /// life.
    pub proof fn lemma_habitable_preset_enforces_habitability()
        ensures
            Constraints::habitable_preset().enforces_habitability(),
    {
    }

    /// A host star within these constraints: one draw from zero to one, both
    /// ends included, decides between a single star and a close binary, and
    /// the constraints of that kind generate it.  A host that is returned is
    /// well formed, and it can support life where both kinds must.
    pub fn generate<R: RandomStream>(&self, rng: &mut R, oracle: &FormulaOracle) -> (outcome: Result<
        HostStar,
        AstronomicalError,
    >)
        ensures
            old(rng).drawn().is_prefix_of(final(rng).drawn()),
            final(rng).origin() == old(rng).origin(),
            self.generate_ran(oracle, old(rng).drawn(), final(rng).drawn(), outcome),
            outcome matches Ok(host) ==> host.wf(),
            outcome matches Ok(host) ==> (self.enforces_habitability()
                ==> host.habitability().is_ok()),
            outcome matches Err(error) ==> Bounds::is_generation_failure(error),
            exists|draw: u64| #[trigger]
                Self::first_draw_decided(old(rng).drawn(), final(rng).drawn(), draw, outcome),
    {
        let draw: u64 = rng.uniform(0, UNIT + 1);
        let is_solitary: bool = Self::decides_for_single_star(draw);
        if is_solitary {
            let constraints: StarConstraints = match self.star_constraints {
                Some(constraints) => constraints,
                None => StarConstraints::default(),
            };
            match constraints.generate(rng, oracle) {
                Ok(star) => {
                    let outcome = Ok(HostStar::Star(star));
                    assert(self.drew_kind(oracle, old(rng).drawn(), rng.drawn(), outcome, draw));
                    assert(Self::first_draw_decided(old(rng).drawn(), rng.drawn(), draw, outcome));
                    outcome
                },
                Err(error) => {
                    assert(self.drew_kind(
                        oracle,
                        old(rng).drawn(),
                        rng.drawn(),
                        Err::<HostStar, AstronomicalError>(error),
                        draw,
                    ));
                    assert(Self::first_draw_decided(
                        old(rng).drawn(),
                        rng.drawn(),
                        draw,
                        Err::<HostStar, AstronomicalError>(error),
                    ));
                    Err(error)
                },
            }
        } else {
            let constraints: CloseBinaryStarConstraints = match self.close_binary_star_constraints {
                Some(constraints) => constraints,
                None => CloseBinaryStarConstraints::default(),
            };
            match constraints.generate(rng, oracle) {
                Ok(binary) => {
                    let outcome = Ok(HostStar::CloseBinaryStar(binary));
                    assert(self.drew_kind(oracle, old(rng).drawn(), rng.drawn(), outcome, draw));
                    assert(Self::first_draw_decided(old(rng).drawn(), rng.drawn(), draw, outcome));
                    outcome
                },
                Err(error) => {
                    assert(self.drew_kind(
                        oracle,
                        old(rng).drawn(),
                        rng.drawn(),
                        Err::<HostStar, AstronomicalError>(error),
                        draw,
                    ));
                    assert(Self::first_draw_decided(
                        old(rng).drawn(),
                        rng.drawn(),
                        draw,
                        Err::<HostStar, AstronomicalError>(error),
                    ));
                    Err(error)
                },
            }
        }
    }
}

} // verus!
