//! Subsystems: the tree of stars at the heart of a star system.  A subsystem
//! is a single star or a pair of subsystems, the heavier one first.

use vstd::prelude::*;

use crate::error::AstronomicalError;
use crate::error::ErrorKind;
use crate::fixed_point::UNIT;
use crate::formulas::frost_line;
use crate::formulas::frost_line_of;
use crate::formulas::habitable_zone;
use crate::formulas::habitable_zone_of;
use crate::formulas::satellite_zone;
use crate::formulas::satellite_zone_of;
use crate::oracle::FormulaOracle;
use crate::oracle::LUMINOSITY_LIMIT;
use crate::oracle::MAXIMUM_MASS;
use crate::random::lemma_prefix_transitive;
use crate::random::uniform_draw;
use crate::random::Draw;
use crate::random::RandomStream;
use crate::star::Constraints as StarConstraints;
use crate::star::Star;

verus! {

/// The probability, in millionths, that a subsystem is a pair.
pub const PROBABILITY_OF_BINARY_STARS: u64 = 110_000;

/// How many levels of pairs a subsystem may have where its constraints set no
/// depth.
pub const DEFAULT_MAXIMUM_DEPTH: u8 = 4;

/// The greatest depth that constraints may set: a tree of this depth has at
/// most 128 stars, which the count of stars can hold.
pub const DEPTH_LIMIT: u8 = 7;

/// The greatest number of stars in a subsystem.
pub const STAR_LIMIT: u8 = 255;

/// A subsystem: one star, or two subsystems.
#[derive(Debug, PartialEq, Eq)]
pub enum StarSubsystemType {
    /// A single star.  Every subsystem comes down to these.
    Single(Star),
    /// Two subsystems, the heavier one first.
    Double(Box<StarSubsystemType>, Box<StarSubsystemType>),
}

impl Clone for StarSubsystemType {
    fn clone(&self) -> (copy: StarSubsystemType)
        ensures
            copy == *self,
        decreases self,
    {
        match self {
            StarSubsystemType::Single(star) => StarSubsystemType::Single(star.clone()),
            StarSubsystemType::Double(left, right) => {
                let left_copy: StarSubsystemType = (**left).clone();
                let right_copy: StarSubsystemType = (**right).clone();
                StarSubsystemType::Double(Box::new(left_copy), Box::new(right_copy))
            },
        }
    }
}

/// The sum of the masses of a sequence of stars.
pub open spec fn total_mass(stars: Seq<Star>) -> nat
    decreases stars.len(),
{
    if stars.len() == 0 {
        0
    } else {
        total_mass(stars.drop_last()) + stars.last().mass as nat
    }
}

/// The sum of the luminosities of a sequence of stars.
pub open spec fn total_luminosity(stars: Seq<Star>) -> nat
    decreases stars.len(),
{
    if stars.len() == 0 {
        0
    } else {
        total_luminosity(stars.drop_last()) + stars.last().luminosity as nat
    }
}

/// The mass of two sequences of stars is the sum of their masses, and so is
/// their luminosity.
pub proof fn lemma_totals_of_concatenation(first: Seq<Star>, second: Seq<Star>)
    ensures
        total_mass(first + second) == total_mass(first) + total_mass(second),
        total_luminosity(first + second) == total_luminosity(first) + total_luminosity(second),
    decreases second.len(),
{
    if second.len() > 0 {
        lemma_totals_of_concatenation(first, second.drop_last());
        assert((first + second).drop_last() =~= first + second.drop_last());
    }
}

/// How many stars a tree of the given depth can hold: twice as many with
/// each level.
pub open spec fn leaf_capacity(depth: nat) -> nat
    decreases depth,
{
    if depth == 0 {
        1
    } else {
        2 * leaf_capacity((depth - 1) as nat)
    }
}

/// A deeper tree can hold more stars, and one at the depth limit holds at
/// most 128.
pub proof fn lemma_leaf_capacity(depth: nat)
    requires
        depth <= DEPTH_LIMIT,
    ensures
        1 <= leaf_capacity(depth) <= 128,
        depth < DEPTH_LIMIT ==> 2 * leaf_capacity(depth) <= 128,
    decreases DEPTH_LIMIT - depth,
{
    reveal_with_fuel(leaf_capacity, 8);
}

impl StarSubsystemType {
    /// The stars of the subsystem, from left to right.
    pub open spec fn leaves(&self) -> Seq<Star>
        decreases self,
    {
        match self {
            StarSubsystemType::Single(star) => seq![*star],
            StarSubsystemType::Double(left, right) => left.leaves() + right.leaves(),
        }
    }

    /// The number of stars in the subsystem.
    pub open spec fn count_of(&self) -> nat
        decreases self,
    {
        match self {
            StarSubsystemType::Single(_) => 1,
            StarSubsystemType::Double(left, right) => left.count_of() + right.count_of(),
        }
    }

    /// The mass of all the stars of the subsystem.
    pub open spec fn mass_of(&self) -> nat
        decreases self,
    {
        match self {
            StarSubsystemType::Single(star) => star.mass as nat,
            StarSubsystemType::Double(left, right) => left.mass_of() + right.mass_of(),
        }
    }

    /// The luminosity of all the stars of the subsystem.
    pub open spec fn luminosity_of(&self) -> nat
        decreases self,
    {
        match self {
            StarSubsystemType::Single(star) => star.luminosity as nat,
            StarSubsystemType::Double(left, right) => left.luminosity_of() + right.luminosity_of(),
        }
    }

    /// The number of levels of pairs in the subsystem.
    pub open spec fn depth_of(&self) -> nat
        decreases self,
    {
        match self {
            StarSubsystemType::Single(_) => 0,
            StarSubsystemType::Double(left, right) => 1 + if left.depth_of() >= right.depth_of() {
                left.depth_of()
            } else {
                right.depth_of()
            },
        }
    }

    /// Every star is well formed, every pair has its heavier half first, and
    /// no pair has more stars than the count can hold.
    pub open spec fn wf(&self) -> bool
        decreases self,
    {
        match self {
            StarSubsystemType::Single(star) => star.wf(),
            StarSubsystemType::Double(left, right) => {
                &&& left.wf()
                &&& right.wf()
                &&& left.mass_of() >= right.mass_of()
                &&& left.count_of() + right.count_of() <= STAR_LIMIT
            },
        }
    }

    /// `node` is this subsystem or one of the subsystems within it.
    pub open spec fn contains(&self, node: StarSubsystemType) -> bool
        decreases self,
    {
        *self == node || match self {
            StarSubsystemType::Single(_) => false,
            StarSubsystemType::Double(left, right) => left.contains(node) || right.contains(node),
        }
    }

    /// In a well-formed subsystem, every pair at every level has its heavier
    /// half first.
    pub proof fn lemma_every_pair_ordered(&self, node: StarSubsystemType)
        requires
            self.wf(),
            self.contains(node),
        ensures
            node.wf(),
            node matches StarSubsystemType::Double(left, right) ==> left.mass_of()
                >= right.mass_of(),
        decreases self,
    {
        if *self != node {
            match self {
                StarSubsystemType::Single(_) => {},
                StarSubsystemType::Double(left, right) => {
                    if left.contains(node) {
                        left.lemma_every_pair_ordered(node);
                    } else {
                        right.lemma_every_pair_ordered(node);
                    }
                },
            }
        }
    }

    /// The count of a subsystem is the number of its single stars, its mass
    /// is the sum of their masses, and its luminosity the sum of their
    /// luminosities.
    pub proof fn lemma_aggregates_over_leaves(&self)
        ensures
            self.count_of() == self.leaves().len(),
            self.mass_of() == total_mass(self.leaves()),
            self.luminosity_of() == total_luminosity(self.leaves()),
        decreases self,
    {
        match self {
            StarSubsystemType::Single(star) => {
                let only = seq![*star];
                assert(total_mass(only.drop_last()) == 0);
                assert(total_luminosity(only.drop_last()) == 0);
            },
            StarSubsystemType::Double(left, right) => {
                left.lemma_aggregates_over_leaves();
                right.lemma_aggregates_over_leaves();
                lemma_totals_of_concatenation(left.leaves(), right.leaves());
            },
        }
    }

    /// A well-formed subsystem has at least one star, and its mass and its
    /// luminosity stay within what its count of stars allows.
    pub proof fn lemma_aggregates_bounded(&self)
        requires
            self.wf(),
        ensures
            1 <= self.count_of(),
            self.mass_of() <= self.count_of() * MAXIMUM_MASS,
            self.luminosity_of() <= self.count_of() * LUMINOSITY_LIMIT,
            0 < self.luminosity_of(),
        decreases self,
    {
        match self {
            StarSubsystemType::Single(_) => {},
            StarSubsystemType::Double(left, right) => {
                left.lemma_aggregates_bounded();
                right.lemma_aggregates_bounded();
            },
        }
    }

    /// A subsystem has no more stars than a tree of its depth can hold.
    pub proof fn lemma_count_within_capacity(&self, depth: nat)
        requires
            self.depth_of() <= depth,
        ensures
            self.count_of() <= leaf_capacity(depth),
        decreases self,
    {
        match self {
            StarSubsystemType::Single(_) => {
                Self::lemma_capacity_positive(depth);
            },
            StarSubsystemType::Double(left, right) => {
                left.lemma_count_within_capacity((depth - 1) as nat);
                right.lemma_count_within_capacity((depth - 1) as nat);
            },
        }
    }

    /// A tree of any depth can hold a star.
    pub proof fn lemma_capacity_positive(depth: nat)
        ensures
            1 <= leaf_capacity(depth),
        decreases depth,
    {
        if depth > 0 {
            Self::lemma_capacity_positive((depth - 1) as nat);
        }
    }

    /// Whether this subsystem is well formed.  A subsystem that a generator
    /// returned always is; one put together by hand may not be.
    pub fn is_well_formed(&self) -> (ok: bool)
        ensures
            ok == self.wf(),
        decreases self,
    {
        match self {
            StarSubsystemType::Single(star) => star.is_well_formed(),
            StarSubsystemType::Double(left, right) => {
                if !left.is_well_formed() || !right.is_well_formed() {
                    return false;
                }
                proof {
                    left.lemma_aggregates_bounded();
                    right.lemma_aggregates_bounded();
                }
                let stars: u16 = left.get_count() as u16 + right.get_count() as u16;
                left.get_mass() >= right.get_mass() && stars <= STAR_LIMIT as u16
            },
        }
    }

    /// The pair of two subsystems, the heavier one first; of two of the same
    /// mass, the second one first.
    pub open spec fn joined(first: StarSubsystemType, second: StarSubsystemType) -> StarSubsystemType {
        if first.mass_of() > second.mass_of() {
            StarSubsystemType::Double(Box::new(first), Box::new(second))
        } else {
            StarSubsystemType::Double(Box::new(second), Box::new(first))
        }
    }

    /// The pair of two subsystems, the heavier one first.  The mass of each
    /// must fit 64 bits.  The pair is well formed where both halves are and
    /// together they have no more stars than the count can hold.
    pub fn join(first: StarSubsystemType, second: StarSubsystemType) -> (pair: StarSubsystemType)
        requires
            first.mass_of() <= u64::MAX,
            second.mass_of() <= u64::MAX,
        ensures
            pair == Self::joined(first, second),
            pair matches StarSubsystemType::Double(left, right) && left.mass_of() >= right.mass_of(),
            first.wf() && second.wf() && first.count_of() + second.count_of() <= STAR_LIMIT
                ==> pair.wf(),
    {
        let first_mass: u64 = first.get_mass();
        let second_mass: u64 = second.get_mass();
        if first_mass > second_mass {
            StarSubsystemType::Double(Box::new(first), Box::new(second))
        } else {
            StarSubsystemType::Double(Box::new(second), Box::new(first))
        }
    }

    /// The mass of all the stars of the subsystem, in millionths of a solar
    /// mass: the sum of the masses of its single stars, which must fit 64
    /// bits.
    pub fn get_mass(&self) -> (mass: u64)
        requires
            self.mass_of() <= u64::MAX,
        ensures
            mass == self.mass_of(),
            mass == total_mass(self.leaves()),
        decreases self,
    {
        proof {
            self.lemma_aggregates_over_leaves();
        }
        match self {
            StarSubsystemType::Single(star) => star.mass,
            StarSubsystemType::Double(left, right) => left.get_mass() + right.get_mass(),
        }
    }

    /// The number of stars in the subsystem: the number of its single stars,
    /// which must fit 8 bits.
    pub fn get_count(&self) -> (count: u8)
        requires
            self.count_of() <= u8::MAX,
        ensures
            count == self.count_of(),
            count == self.leaves().len(),
        decreases self,
    {
        proof {
            self.lemma_aggregates_over_leaves();
        }
        match self {
            StarSubsystemType::Single(_) => 1,
            StarSubsystemType::Double(left, right) => left.get_count() + right.get_count(),
        }
    }

    /// The luminosity of all the stars of the subsystem, in millionths of a
    /// solar luminosity: the sum of the luminosities of its single stars,
    /// which must fit 64 bits.
    pub fn get_luminosity(&self) -> (luminosity: u64)
        requires
            self.luminosity_of() <= u64::MAX,
        ensures
            luminosity == self.luminosity_of(),
            luminosity == total_luminosity(self.leaves()),
        decreases self,
    {
        proof {
            self.lemma_aggregates_over_leaves();
        }
        match self {
            StarSubsystemType::Single(star) => star.luminosity,
            StarSubsystemType::Double(left, right) => left.get_luminosity()
                + right.get_luminosity(),
        }
    }

    /// The habitable zone of the subsystem: that of its star, or for a pair
    /// that of a single source of the combined luminosity.
    pub open spec fn habitable_zone_spec(&self) -> (int, int) {
        match self {
            StarSubsystemType::Single(star) => (
                star.habitable_zone.0 as int,
                star.habitable_zone.1 as int,
            ),
            StarSubsystemType::Double(_, _) => habitable_zone_of(self.luminosity_of() as u64),
        }
    }

    /// The habitable zone of the subsystem, in millionths of an astronomical
    /// unit.  For a pair it follows from the combined luminosity, which must
    /// fit 64 bits, by the formula of a single star; the zones of the halves
    /// are not added up.
    pub fn get_habitable_zone(&self) -> (zone: (u64, u64))
        requires
            self.luminosity_of() <= u64::MAX,
        ensures
            zone.0 == self.habitable_zone_spec().0,
            zone.1 == self.habitable_zone_spec().1,
    {
        match self {
            StarSubsystemType::Single(star) => star.habitable_zone,
            StarSubsystemType::Double(_, _) => habitable_zone(self.get_luminosity()),
        }
    }

    /// The satellite zone of the subsystem: that of its star, or for a pair
    /// that of the combined mass.
    pub open spec fn satellite_bounds_spec(&self) -> (int, int) {
        match self {
            StarSubsystemType::Single(star) => (
                star.satellite_zone.0 as int,
                star.satellite_zone.1 as int,
            ),
            StarSubsystemType::Double(_, _) => satellite_zone_of(self.mass_of() as u64),
        }
    }

    /// The satellite zone of the subsystem, in millionths of an astronomical
    /// unit.  For a pair it follows from the combined mass, forty times
    /// which must fit 64 bits.
    pub fn get_satellite_bounds(&self) -> (zone: (u64, u64))
        requires
            self is Double ==> 40 * self.mass_of() <= u64::MAX,
        ensures
            zone.0 == self.satellite_bounds_spec().0,
            zone.1 == self.satellite_bounds_spec().1,
    {
        match self {
            StarSubsystemType::Single(star) => star.satellite_zone,
            StarSubsystemType::Double(_, _) => satellite_zone(self.get_mass()),
        }
    }

    /// The frost line of the subsystem: that of its star, or for a pair that
    /// of a single source of the combined luminosity.
    pub open spec fn frost_line_spec(&self) -> int {
        match self {
            StarSubsystemType::Single(star) => star.frost_line as int,
            StarSubsystemType::Double(_, _) => frost_line_of(self.luminosity_of() as u64),
        }
    }

    /// The frost line of the subsystem, in millionths of an astronomical
    /// unit.  For a pair it follows from the combined luminosity, which must
    /// fit 64 bits, by the formula of a single star.
    pub fn get_frost_line(&self) -> (line: u64)
        requires
            self.luminosity_of() <= u64::MAX,
        ensures
            line == self.frost_line_spec(),
    {
        match self {
            StarSubsystemType::Single(star) => star.frost_line,
            StarSubsystemType::Double(_, _) => frost_line(self.get_luminosity()),
        }
    }

    /// Why this subsystem cannot support life, if it cannot: a single star as
    /// it has it itself; a pair when neither half can, so that one habitable
    /// half is enough.
    pub open spec fn habitability(&self) -> Result<(), AstronomicalError>
        decreases self,
    {
        match self {
            StarSubsystemType::Single(star) => star.habitability(),
            StarSubsystemType::Double(left, right) => if left.habitability().is_err()
                && right.habitability().is_err() {
                Err(AstronomicalError::NoHabitableZoneFoundInSubsystem)
            } else {
                Ok(())
            },
        }
    }

    /// Checks that this subsystem can support life.
    pub fn check_habitable(&self) -> (verdict: Result<(), AstronomicalError>)
        ensures
            verdict == self.habitability(),
        decreases self, 1nat,
    {
        match self {
            StarSubsystemType::Single(star) => star.check_habitable(),
            StarSubsystemType::Double(left, right) => {
                if !left.is_habitable() && !right.is_habitable() {
                    return Err(AstronomicalError::NoHabitableZoneFoundInSubsystem);
                }
                Ok(())
            },
        }
    }

    /// Whether this subsystem can support life.
    pub fn is_habitable(&self) -> (habitable: bool)
        ensures
            habitable == self.habitability().is_ok(),
        decreases self, 2nat,
    {
        match self.check_habitable() {
            Ok(()) => true,
            Err(_) => false,
        }
    }
}

/// Constraints on the generation of a subsystem.
#[derive(Clone, Copy, Debug, PartialEq, Eq)]
pub struct Constraints {
    /// The probability, in millionths, that a subsystem is a pair.
    pub binary_probability: Option<u64>,
    /// Constraints on each single star.
    pub star_constraints: Option<StarConstraints>,
    /// How many levels of pairs the subsystem may have, at most
    /// [`DEPTH_LIMIT`].
    pub maximum_depth: Option<u8>,
}

impl Default for Constraints {
    /// No constraint at all.
    fn default() -> (constraints: Constraints)
        ensures
            constraints == Constraints::unconstrained(),
    {
        Constraints { binary_probability: None, star_constraints: None, maximum_depth: None }
    }
}

impl Constraints {
    /// The record with every field unset.
    pub open spec fn unconstrained() -> Constraints {
        Constraints { binary_probability: None, star_constraints: None, maximum_depth: None }
    }

    /// The record that `habitable` builds.
    pub open spec fn habitable_preset() -> Constraints {
        Constraints {
            binary_probability: None,
            star_constraints: Some(StarConstraints::habitable_preset()),
            maximum_depth: None,
        }
    }

    /// Constraints for a subsystem that can support life: every single star
    /// must.
    pub fn habitable() -> (constraints: Constraints)
        ensures
            constraints == Constraints::habitable_preset(),
    {
        Constraints { star_constraints: Some(StarConstraints::habitable()), ..Constraints::default() }
    }

    /// The probability of a pair: the one set, or the default.
    pub open spec fn resolved_binary_probability(&self) -> u64 {
        match self.binary_probability {
            Some(probability) => probability,
            None => PROBABILITY_OF_BINARY_STARS,
        }
    }

    /// The constraints on each single star: those set, or none at all.
    pub open spec fn resolved_star_constraints(&self) -> StarConstraints {
        match self.star_constraints {
            Some(constraints) => constraints,
            None => StarConstraints::unconstrained(),
        }
    }

    /// The greatest depth: the one set, or the default.
    pub open spec fn resolved_maximum_depth(&self) -> u8 {
        match self.maximum_depth {
            Some(depth) => depth,
            None => DEFAULT_MAXIMUM_DEPTH,
        }
    }

    /// A subsystem within these constraints.
    pub fn generate<R: RandomStream>(&self, rng: &mut R, oracle: &FormulaOracle) -> (outcome: Result<
        StarSubsystemType,
        AstronomicalError,
    >)
        ensures
            old(rng).drawn().is_prefix_of(final(rng).drawn()),
            final(rng).origin() == old(rng).origin(),
            StarSubsystemType::generate_ran(
                oracle,
                self,
                old(rng).drawn(),
                final(rng).drawn(),
                outcome,
            ),
            outcome matches Ok(subsystem) ==> {
                &&& subsystem.wf()
                &&& subsystem.depth_of() <= self.resolved_maximum_depth()
                &&& self.resolved_star_constraints().make_habitable
                    ==> subsystem.habitability().is_ok()
            },
            outcome matches Err(error) ==> StarSubsystemType::is_generation_failure(error)
                || error == AstronomicalError::QuantityOutOfRange,
    {
        StarSubsystemType::get_random_constrained(rng, oracle, self)
    }
}

/// What the first draw of the generation of a subsystem decides.
#[derive(Clone, Copy, Debug, PartialEq, Eq, Structural)]
pub enum Shape {
    /// A single star.
    Single,
    /// A pair of subsystems, each one level further down.
    Pair,
    /// A pair where no level is left: a failure.
    TooDeep,
}

impl StarSubsystemType {
    /// The draw decides for a pair: it does not exceed the probability of
    /// one.
    pub open spec fn is_binary(draw: u64, binary_probability: u64) -> bool {
        draw <= binary_probability
    }

    /// What a draw decides with `depth` levels left: a single star where it
    /// exceeds the probability of a pair; else a pair, which is a failure
    /// where no level is left.
    pub open spec fn shape_of(draw: u64, binary_probability: u64, depth: nat) -> Shape {
        if !Self::is_binary(draw, binary_probability) {
            Shape::Single
        } else if depth == 0 {
            Shape::TooDeep
        } else {
            Shape::Pair
        }
    }

    /// What a draw decides with `depth` levels left.
    pub fn shape_of_draw(draw: u64, binary_probability: u64, depth: u8) -> (shape: Shape)
        ensures
            shape == Self::shape_of(draw, binary_probability, depth as nat),
    {
        if draw > binary_probability {
            Shape::Single
        } else if depth == 0 {
            Shape::TooDeep
        } else {
            Shape::Pair
        }
    }

    /// The failures that the generation of a subsystem can report: that of
    /// the generation of a star, and a pair drawn where no level is left.
    pub open spec fn is_generation_failure(error: AstronomicalError) -> bool {
        StarConstraints::is_generation_failure(error) || error
            == AstronomicalError::SubsystemDepthExceeded
    }

    /// A failure of generation is never a failed habitability check, nor the
    /// exhaustion of retries.
    pub proof fn lemma_generation_failure_kinds(error: AstronomicalError)
        requires
            Self::is_generation_failure(error),
        ensures
            error.kind_of() == ErrorKind::OutOfRange || error.kind_of()
                == ErrorKind::ConstraintUnsatisfiable,
    {
    }

    /// What generation does and returns once a single star has been drawn:
    /// the star constraints generate the star, and their failure is handed on
    /// unchanged.
    pub open spec fn made_single(
        oracle: &FormulaOracle,
        star_constraints: StarConstraints,
        before: Seq<Draw>,
        after: Seq<Draw>,
        outcome: Result<StarSubsystemType, AstronomicalError>,
    ) -> bool {
        match outcome {
            Ok(StarSubsystemType::Single(star)) => star_constraints.generate_ran(
                oracle,
                before,
                after,
                Ok::<Star, AstronomicalError>(star),
            ),
            Ok(StarSubsystemType::Double(_, _)) => false,
            Err(error) => star_constraints.generate_ran(
                oracle,
                before,
                after,
                Err::<Star, AstronomicalError>(error),
            ),
        }
    }

    /// What the outcome of a pair is once both halves have been attempted:
    /// the failure of the second half, or the pair of the two halves, the
    /// heavier one first.
    pub open spec fn pair_outcome(
        first_half: StarSubsystemType,
        second: Result<StarSubsystemType, AstronomicalError>,
    ) -> Result<StarSubsystemType, AstronomicalError> {
        match second {
            Err(error) => Err(error),
            Ok(second_half) => Ok(Self::joined(first_half, second_half)),
        }
    }

    /// The first draw that generation added to the record decided the shape:
    /// the draw was one from zero to below one; where it decided for a pair
    /// with no level left, the outcome is the failure for want of depth and
    /// nothing more was drawn; where it decided for a pair, the outcome is no
    /// single star; where it decided for a single star, the outcome is no
    /// pair, and a failure is one of the generation of a star.
    pub open spec fn first_draw_decided(
        before: Seq<Draw>,
        after: Seq<Draw>,
        draw: u64,
        binary_probability: u64,
        depth: nat,
        outcome: Result<StarSubsystemType, AstronomicalError>,
    ) -> bool {
        &&& before.len() < after.len()
        &&& after[before.len() as int] == uniform_draw(0, UNIT, draw)
        &&& draw < UNIT
        &&& match Self::shape_of(draw, binary_probability, depth) {
            Shape::TooDeep => outcome == Err::<StarSubsystemType, AstronomicalError>(
                AstronomicalError::SubsystemDepthExceeded,
            ) && after.len() == before.len() + 1,
            Shape::Pair => !(outcome matches Ok(StarSubsystemType::Single(_))),
            Shape::Single => {
                &&& !(outcome matches Ok(StarSubsystemType::Double(_, _)))
                &&& outcome matches Err(error) ==> StarConstraints::is_generation_failure(error)
            },
        }
    }

    /// A failure of the first half of a pair is the failure of the pair, and
    /// nothing is drawn after it: the second half is not attempted.
    pub open spec fn first_half_decides(
        first: Result<StarSubsystemType, AstronomicalError>,
        mid: Seq<Draw>,
        after: Seq<Draw>,
        outcome: Result<StarSubsystemType, AstronomicalError>,
    ) -> bool {
        first matches Err(error) ==> outcome == Err::<StarSubsystemType, AstronomicalError>(error)
            && after == mid
    }

    /// What the generation of a subsystem within `depth` levels does and
    /// returns.  One draw from zero to below one decides the shape.  A pair
    /// where no level is left is a failure, with nothing more drawn.  A
    /// single star is generated by the star constraints.  A pair generates
    /// its first half one level further down, and hands its failure on
    /// unchanged without attempting the second half; otherwise it generates
    /// the second half likewise, and the outcome is the failure of that or
    /// the pair of the two, the heavier one first.
    pub open spec fn within_ran(
        oracle: &FormulaOracle,
        star_constraints: StarConstraints,
        binary_probability: u64,
        depth: nat,
        before: Seq<Draw>,
        after: Seq<Draw>,
        outcome: Result<StarSubsystemType, AstronomicalError>,
    ) -> bool
        decreases depth,
    {
        exists|draw: u64|
            {
                let between = before.push(#[trigger] uniform_draw(0, UNIT, draw));
                &&& draw < UNIT
                &&& match Self::shape_of(draw, binary_probability, depth) {
                    Shape::TooDeep => outcome == Err::<StarSubsystemType, AstronomicalError>(
                        AstronomicalError::SubsystemDepthExceeded,
                    ) && after == between,
                    Shape::Single => Self::made_single(
                        oracle,
                        star_constraints,
                        between,
                        after,
                        outcome,
                    ),
                    Shape::Pair => depth > 0 && exists|
                        mid: Seq<Draw>,
                        first: Result<StarSubsystemType, AstronomicalError>,
                    |
                        {
                            &&& #[trigger] Self::first_half_decides(first, mid, after, outcome)
                            &&& Self::within_ran(
                                oracle,
                                star_constraints,
                                binary_probability,
                                (depth - 1) as nat,
                                before.push(uniform_draw(0, UNIT, draw)),
                                mid,
                                first,
                            )
                            &&& first matches Ok(first_half) ==> exists|
                                second: Result<StarSubsystemType, AstronomicalError>,
                            |
                                {
                                    &&& outcome == #[trigger] Self::pair_outcome(
                                        first_half,
                                        second,
                                    )
                                    &&& Self::within_ran(
                                        oracle,
                                        star_constraints,
                                        binary_probability,
                                        (depth - 1) as nat,
                                        mid,
                                        after,
                                        second,
                                    )
                                }
                        },
                }
            }
    }

    /// What the generation of a subsystem does and returns: a quantity out
    /// of range where the resolved depth is beyond the depth limit, with
    /// nothing drawn, and otherwise what generation within the resolved depth
    /// does.
    pub open spec fn generate_ran(
        oracle: &FormulaOracle,
        constraints: &Constraints,
        before: Seq<Draw>,
        after: Seq<Draw>,
        outcome: Result<StarSubsystemType, AstronomicalError>,
    ) -> bool {
        if constraints.resolved_maximum_depth() > DEPTH_LIMIT {
            &&& outcome == Err::<StarSubsystemType, AstronomicalError>(
                AstronomicalError::QuantityOutOfRange,
            )
            &&& after == before
        } else {
            Self::within_ran(
                oracle,
                constraints.resolved_star_constraints(),
                constraints.resolved_binary_probability(),
                constraints.resolved_maximum_depth() as nat,
                before,
                after,
                outcome,
            )
        }
    }

    /// A subsystem of at most `depth` levels of pairs.  One draw decides
    /// between a pair and a single star.  A pair generates its two halves one
    /// after the other, each by this same function with the same probability
    /// and the same star constraints, one level further down, and puts the
    /// heavier half first; where no level is left, a pair is a failure.  A
    /// single star is generated by the star constraints.
    pub fn generate_within<R: RandomStream>(
        rng: &mut R,
        oracle: &FormulaOracle,
        binary_probability: u64,
        star_constraints: &StarConstraints,
        depth: u8,
    ) -> (outcome: Result<StarSubsystemType, AstronomicalError>)
        requires
            depth <= DEPTH_LIMIT,
        ensures
            old(rng).drawn().is_prefix_of(final(rng).drawn()),
            final(rng).origin() == old(rng).origin(),
            Self::within_ran(
                oracle,
                *star_constraints,
                binary_probability,
                depth as nat,
                old(rng).drawn(),
                final(rng).drawn(),
                outcome,
            ),
            outcome matches Ok(subsystem) ==> {
                &&& subsystem.wf()
                &&& subsystem.depth_of() <= depth
                &&& star_constraints.make_habitable ==> subsystem.habitability().is_ok()
            },
            outcome matches Err(error) ==> Self::is_generation_failure(error),
            binary_probability >= UNIT - 1 ==> outcome == Err::<
                StarSubsystemType,
                AstronomicalError,
            >(AstronomicalError::SubsystemDepthExceeded),
            exists|draw: u64| #[trigger]
                Self::first_draw_decided(
                    old(rng).drawn(),
                    final(rng).drawn(),
                    draw,
                    binary_probability,
                    depth as nat,
                    outcome,
                ),
        decreases depth,
    {
        let draw: u64 = rng.uniform(0, UNIT);
        let ghost drew = rng.drawn();
        match Self::shape_of_draw(draw, binary_probability, depth) {
            Shape::TooDeep => {
                assert(Self::first_draw_decided(
                    old(rng).drawn(),
                    rng.drawn(),
                    draw,
                    binary_probability,
                    depth as nat,
                    Err(AstronomicalError::SubsystemDepthExceeded),
                ));
                Err(AstronomicalError::SubsystemDepthExceeded)
            },
            Shape::Single => {
                let outcome = match star_constraints.generate(rng, oracle) {
                    Ok(star) => Ok(StarSubsystemType::Single(star)),
                    Err(error) => Err(error),
                };
                assert(Self::first_draw_decided(
                    old(rng).drawn(),
                    rng.drawn(),
                    draw,
                    binary_probability,
                    depth as nat,
                    outcome,
                ));
                outcome
            },
            Shape::Pair => {
                let first = Self::generate_within(
                    rng,
                    oracle,
                    binary_probability,
                    star_constraints,
                    depth - 1,
                );
                let ghost mid = rng.drawn();
                proof {
                    lemma_prefix_transitive(old(rng).drawn(), drew, mid);
                }
                let sub_a: StarSubsystemType = match first {
                    Ok(subsystem) => subsystem,
                    Err(error) => {
                        assert(Self::first_half_decides(first, mid, rng.drawn(), Err(error)));
                        assert(Self::first_draw_decided(
                            old(rng).drawn(),
                            rng.drawn(),
                            draw,
                            binary_probability,
                            depth as nat,
                            Err(error),
                        ));
                        return Err(error);
                    },
                };
                let second = Self::generate_within(
                    rng,
                    oracle,
                    binary_probability,
                    star_constraints,
                    depth - 1,
                );
                proof {
                    lemma_prefix_transitive(old(rng).drawn(), mid, rng.drawn());
                }
                let sub_b: StarSubsystemType = match second {
                    Ok(subsystem) => subsystem,
                    Err(error) => {
                        assert(Self::first_half_decides(first, mid, rng.drawn(), Err(error)));
                        assert(Self::pair_outcome(sub_a, second) == Err::<
                            StarSubsystemType,
                            AstronomicalError,
                        >(error));
                        assert(Self::first_draw_decided(
                            old(rng).drawn(),
                            rng.drawn(),
                            draw,
                            binary_probability,
                            depth as nat,
                            Err(error),
                        ));
                        return Err(error);
                    },
                };
                proof {
                    sub_a.lemma_count_within_capacity((depth - 1) as nat);
                    sub_b.lemma_count_within_capacity((depth - 1) as nat);
                    lemma_leaf_capacity((depth - 1) as nat);
                    sub_a.lemma_aggregates_bounded();
                    sub_b.lemma_aggregates_bounded();
                }
                let pair = Self::join(sub_a, sub_b);
                assert(Self::first_half_decides(first, mid, rng.drawn(), Ok(pair)));
                assert(Self::pair_outcome(sub_a, second) == Ok::<
                    StarSubsystemType,
                    AstronomicalError,
                >(pair));
                assert(Self::first_draw_decided(
                    old(rng).drawn(),
                    rng.drawn(),
                    draw,
                    binary_probability,
                    depth as nat,
                    Ok(pair),
                ));
                Ok(pair)
            },
        }
    }

    /// A subsystem within the given constraints.  It may or may not be able
    /// to support life, as the constraints have it.
    pub fn get_random_constrained<R: RandomStream>(
        rng: &mut R,
        oracle: &FormulaOracle,
        constraints: &Constraints,
    ) -> (outcome: Result<StarSubsystemType, AstronomicalError>)
        ensures
            old(rng).drawn().is_prefix_of(final(rng).drawn()),
            final(rng).origin() == old(rng).origin(),
            Self::generate_ran(oracle, constraints, old(rng).drawn(), final(rng).drawn(), outcome),
            outcome matches Ok(subsystem) ==> {
                &&& subsystem.wf()
                &&& subsystem.depth_of() <= constraints.resolved_maximum_depth()
                &&& constraints.resolved_star_constraints().make_habitable
                    ==> subsystem.habitability().is_ok()
            },
            outcome matches Err(error) ==> Self::is_generation_failure(error) || error
                == AstronomicalError::QuantityOutOfRange,
    {
        let binary_probability: u64 = match constraints.binary_probability {
            Some(probability) => probability,
            None => PROBABILITY_OF_BINARY_STARS,
        };
        let star_constraints: StarConstraints = match constraints.star_constraints {
            Some(star_constraints) => star_constraints,
            None => StarConstraints::default(),
        };
        let maximum_depth: u8 = match constraints.maximum_depth {
            Some(depth) => depth,
            None => DEFAULT_MAXIMUM_DEPTH,
        };
        if maximum_depth > DEPTH_LIMIT {
            return Err(AstronomicalError::QuantityOutOfRange);
        }
        Self::generate_within(rng, oracle, binary_probability, &star_constraints, maximum_depth)
    }
}

} // verus!
