//! Stellar neighbours: a star system at a place in space.

use vstd::prelude::*;

use crate::error::AstronomicalError;
use crate::fixed_point::mul_div;
use crate::fixed_point::UNIT;
use crate::oracle::FormulaOracle;
use crate::random::Draw;
use crate::random::RandomStream;
use crate::star_system::Constraints as StarSystemConstraints;
use crate::star_system::StarSystem;

verus! {

/// The radius of the stellar neighbourhood, in millionths of a light year.
pub const RADIUS_OF_STELLAR_NEIGHBORHOOD: u64 = 10_000_000;

/// No neighbourhood has a radius beyond this, in millionths of a light year.
pub const NEIGHBORHOOD_RADIUS_LIMIT: u64 = 1_000_000_000_000_000;

/// How many points are drawn from the cube around the unit sphere before the
/// search for one inside the sphere is given up.
pub const POINT_ATTEMPTS: u8 = 64;

/// The point lies in the sphere of radius one around the origin; its
/// coordinates are in millionths.
pub open spec fn in_unit_sphere(point: (i64, i64, i64)) -> bool {
    point.0 * point.0 + point.1 * point.1 + point.2 * point.2 <= UNIT * UNIT
}

/// The point lies in the sphere of the given radius around the origin.
pub open spec fn within_radius(point: (i64, i64, i64), radius: u64) -> bool {
    point.0 * point.0 + point.1 * point.1 + point.2 * point.2 <= radius * radius
}

/// The point of the cube around the unit sphere that three draws from zero to
/// two name, if it lies in the sphere.
pub open spec fn point_of(x: u64, y: u64, z: u64) -> Option<(i64, i64, i64)> {
    let point = ((x - UNIT) as i64, (y - UNIT) as i64, (z - UNIT) as i64);
    if in_unit_sphere(point) {
        Some(point)
    } else {
        None
    }
}

/// The point of the cube around the unit sphere that three draws from zero to
/// two name, if it lies in the sphere.
pub fn point_of_draws(x: u64, y: u64, z: u64) -> (point: Option<(i64, i64, i64)>)
    requires
        x <= 2 * UNIT,
        y <= 2 * UNIT,
        z <= 2 * UNIT,
    ensures
        point == point_of(x, y, z),
        point matches Some(p) ==> in_unit_sphere(p) && -UNIT <= p.0 <= UNIT && -UNIT <= p.1 <= UNIT
            && -UNIT <= p.2 <= UNIT,
{
    let a: i64 = x as i64 - UNIT as i64;
    let b: i64 = y as i64 - UNIT as i64;
    let c: i64 = z as i64 - UNIT as i64;
    assert(0 <= a * a <= 1_000_000_000_000) by (nonlinear_arith)
        requires
            -1_000_000 <= a <= 1_000_000,
    ;
    assert(0 <= b * b <= 1_000_000_000_000) by (nonlinear_arith)
        requires
            -1_000_000 <= b <= 1_000_000,
    ;
    assert(0 <= c * c <= 1_000_000_000_000) by (nonlinear_arith)
        requires
            -1_000_000 <= c <= 1_000_000,
    ;
    if a * a + b * b + c * c <= 1_000_000_000_000 {
        Some((a, b, c))
    } else {
        None
    }
}

/// The draw asks for one coordinate of the cube around the unit sphere: a
/// value from zero to two, both included.
pub open spec fn is_coordinate_draw(draw: Draw) -> bool {
    draw matches Draw::Uniform { low, high, value } && low == 0 && high == 2 * UNIT + 1
}

/// What a draw of a coordinate got.
pub open spec fn coordinate_of(draw: Draw) -> u64 {
    match draw {
        Draw::Uniform { value, .. } => value,
        Draw::Weighted { .. } => 0,
    }
}

/// Where in the record the draws of an attempt begin: each attempt makes
/// three draws, and the first attempt begins at `start`.
pub open spec fn attempt_at(start: int, attempt: int) -> int {
    start + 3 * attempt
}

/// The three draws of the record from `at` on ask for the coordinates of a
/// point of the cube.
pub open spec fn is_point_draw(drawn: Seq<Draw>, at: int) -> bool {
    &&& 0 <= at
    &&& at + 3 <= drawn.len()
    &&& is_coordinate_draw(drawn[at])
    &&& is_coordinate_draw(drawn[at + 1])
    &&& is_coordinate_draw(drawn[at + 2])
}

/// The point that the three draws of the record from `at` on name, if it
/// lies in the unit sphere.
pub open spec fn point_drawn(drawn: Seq<Draw>, at: int) -> Option<(i64, i64, i64)> {
    point_of(coordinate_of(drawn[at]), coordinate_of(drawn[at + 1]), coordinate_of(drawn[at + 2]))
}

/// What the search for a point of the unit sphere did and returned.  It made
/// `attempts` attempts, at least one and at most [`POINT_ATTEMPTS`], and
/// added three draws of a coordinate to the record for each.  Every attempt
/// but the last drew a point outside the sphere.  The search returns the
/// point of the last attempt where that lies in the sphere; where it does
/// not, every attempt allowed was made and the search failed with a quantity
/// out of range.
pub open spec fn searched(
    before: Seq<Draw>,
    after: Seq<Draw>,
    attempts: int,
    outcome: Result<(i64, i64, i64), AstronomicalError>,
) -> bool {
    let start = before.len() as int;
    &&& 1 <= attempts <= POINT_ATTEMPTS
    &&& after.len() == start + 3 * attempts
    &&& after.subrange(0, start) == before
    &&& forall|attempt: int|
        0 <= attempt < attempts ==> is_point_draw(after, #[trigger] attempt_at(start, attempt))
    &&& forall|attempt: int|
        0 <= attempt < attempts - 1 ==> point_drawn(after, #[trigger] attempt_at(start, attempt))
            is None
    &&& match outcome {
        Ok(point) => point_drawn(after, attempt_at(start, attempts - 1)) == Some(point),
        Err(error) => {
            &&& attempts == POINT_ATTEMPTS
            &&& point_drawn(after, attempt_at(start, attempts - 1)) is None
            &&& error == AstronomicalError::QuantityOutOfRange
        },
    }
}

/// A point of the unit sphere, drawn from the cube around it until one lies
/// in the sphere.  After [`POINT_ATTEMPTS`] points outside the sphere the
/// search ends with a quantity out of range.
pub fn get_random_point_in_sphere<R: RandomStream>(rng: &mut R) -> (outcome: Result<
    (i64, i64, i64),
    AstronomicalError,
>)
    ensures
        old(rng).drawn().is_prefix_of(final(rng).drawn()),
        final(rng).origin() == old(rng).origin(),
        outcome matches Ok(p) ==> in_unit_sphere(p) && -UNIT <= p.0 <= UNIT && -UNIT <= p.1 <= UNIT
            && -UNIT <= p.2 <= UNIT,
        outcome matches Err(error) ==> error == AstronomicalError::QuantityOutOfRange,
        exists|attempts: int| searched(old(rng).drawn(), final(rng).drawn(), attempts, outcome),
{
    let ghost before = rng.drawn();
    let ghost start = before.len() as int;
    let mut attempts_left: u8 = POINT_ATTEMPTS;
    while attempts_left > 0
        invariant
            attempts_left <= POINT_ATTEMPTS,
            before == old(rng).drawn(),
            rng.origin() == old(rng).origin(),
            start == before.len(),
            rng.drawn().len() == start + 3 * (POINT_ATTEMPTS - attempts_left),
            rng.drawn().subrange(0, start) == before,
            forall|attempt: int|
                0 <= attempt < POINT_ATTEMPTS - attempts_left ==> is_point_draw(
                    rng.drawn(),
                    #[trigger] attempt_at(start, attempt),
                ),
            forall|attempt: int|
                0 <= attempt < POINT_ATTEMPTS - attempts_left ==> point_drawn(
                    rng.drawn(),
                    #[trigger] attempt_at(start, attempt),
                ) is None,
        decreases attempts_left,
    {
        let ghost made = (POINT_ATTEMPTS - attempts_left) as int;
        let x: u64 = rng.uniform(0, 2 * UNIT + 1);
        let y: u64 = rng.uniform(0, 2 * UNIT + 1);
        let z: u64 = rng.uniform(0, 2 * UNIT + 1);
        let found: Option<(i64, i64, i64)> = point_of_draws(x, y, z);
        assert(rng.drawn().subrange(0, start) =~= before);
        match found {
            Some(point) => {
                assert(searched(before, rng.drawn(), made + 1, Ok(point)));
                return Ok(point);
            },
            None => {},
        }
        attempts_left = attempts_left - 1;
    }
    assert(searched(
        before,
        rng.drawn(),
        POINT_ATTEMPTS as int,
        Err(AstronomicalError::QuantityOutOfRange),
    ));
    Err(AstronomicalError::QuantityOutOfRange)
}

/// A coordinate of the unit sphere scaled to the radius, rounded towards
/// zero.
pub open spec fn scaled_coordinate(raw: i64, radius: u64) -> int {
    if raw >= 0 {
        raw * radius / (UNIT as int)
    } else {
        -((-raw) * radius / (UNIT as int))
    }
}

/// A scaled coordinate is no farther from zero than the unscaled one is from
/// zero in units of the radius.
pub proof fn lemma_scaled_coordinate(raw: i64, radius: u64)
    requires
        -UNIT <= raw <= UNIT,
    ensures
        scaled_coordinate(raw, radius) * scaled_coordinate(raw, radius) * (UNIT * UNIT) <= raw
            * raw * (radius * radius),
        -radius <= scaled_coordinate(raw, radius) <= radius,
{
    let size: int = if raw >= 0 {
        raw as int
    } else {
        -raw
    };
    let product = size * radius;
    let quotient = product / (UNIT as int);
    assert(0 <= product <= UNIT * radius) by (nonlinear_arith)
        requires
            0 <= size <= UNIT,
            0 <= radius,
            product == size * radius,
    ;
    assert(quotient * quotient * (UNIT * UNIT) <= size * size * (radius * radius))
        by (nonlinear_arith)
        requires
            0 <= quotient * UNIT <= product,
            product == size * radius,
    ;
    assert(size * size == raw * raw) by (nonlinear_arith)
        requires
            size == raw || size == -raw,
    ;
    let scaled = scaled_coordinate(raw, radius);
    assert(scaled * scaled == quotient * quotient) by (nonlinear_arith)
        requires
            scaled == quotient || scaled == -quotient,
    ;
}

/// A point of the unit sphere, scaled to the radius, lies in the sphere of
/// that radius.
pub proof fn lemma_scaled_point_within_radius(point: (i64, i64, i64), radius: u64)
    requires
        in_unit_sphere(point),
        -UNIT <= point.0 <= UNIT,
        -UNIT <= point.1 <= UNIT,
        -UNIT <= point.2 <= UNIT,
    ensures
        scaled_coordinate(point.0, radius) * scaled_coordinate(point.0, radius) + scaled_coordinate(
            point.1,
            radius,
        ) * scaled_coordinate(point.1, radius) + scaled_coordinate(point.2, radius)
            * scaled_coordinate(point.2, radius) <= radius * radius,
{
    lemma_scaled_coordinate(point.0, radius);
    lemma_scaled_coordinate(point.1, radius);
    lemma_scaled_coordinate(point.2, radius);
    let a = scaled_coordinate(point.0, radius);
    let b = scaled_coordinate(point.1, radius);
    let c = scaled_coordinate(point.2, radius);
    let whole = UNIT * UNIT;
    let reach = radius * radius;
    let x = point.0 * point.0;
    let y = point.1 * point.1;
    let z = point.2 * point.2;
    assert((a * a + b * b + c * c) * whole <= reach * whole) by (nonlinear_arith)
        requires
            a * a * whole <= x * reach,
            b * b * whole <= y * reach,
            c * c * whole <= z * reach,
            x + y + z <= whole,
            0 <= reach,
    ;
}

/// A coordinate of the unit sphere scaled to the radius.
pub fn scale_coordinate(raw: i64, radius: u64) -> (coordinate: i64)
    requires
        -UNIT <= raw <= UNIT,
        radius <= NEIGHBORHOOD_RADIUS_LIMIT,
    ensures
        coordinate == scaled_coordinate(raw, radius),
{
    proof {
        lemma_scaled_coordinate(raw, radius);
    }
    if raw >= 0 {
        mul_div(raw as u64, radius, UNIT) as i64
    } else {
        let size: u64 = (-raw) as u64;
        -(mul_div(size, radius, UNIT) as i64)
    }
}

/// A star system and where it lies.
#[derive(Debug, PartialEq, Eq)]
pub struct StellarNeighbor {
    /// The distance from the origin along each axis, in millionths of a
    /// light year.
    pub coordinates: (i64, i64, i64),
    /// The star system.
    pub star_system: StarSystem,
}

impl Clone for StellarNeighbor {
    fn clone(&self) -> (copy: StellarNeighbor)
        ensures
            copy == *self,
    {
        StellarNeighbor { coordinates: self.coordinates, star_system: self.star_system.clone() }
    }
}

/// Constraints on the generation of a stellar neighbour.
#[derive(Clone, Copy, Debug, PartialEq, Eq)]
pub struct Constraints {
    /// The radius of the neighbourhood, in millionths of a light year.
    pub radius: Option<u64>,
    /// Constraints on the star system.
    pub star_system_constraints: Option<StarSystemConstraints>,
}

impl Default for Constraints {
    /// No constraint at all.
    fn default() -> (constraints: Constraints)
        ensures
            constraints == Constraints::unconstrained(),
    {
        Constraints { radius: None, star_system_constraints: None }
    }
}

impl Constraints {
    /// The record with both fields unset.
    pub open spec fn unconstrained() -> Constraints {
        Constraints { radius: None, star_system_constraints: None }
    }

    /// The record that `habitable` builds.
    pub open spec fn habitable_preset() -> Constraints {
        Constraints {
            radius: None,
            star_system_constraints: Some(StarSystemConstraints::habitable_preset()),
        }
    }

    /// Constraints for a neighbour whose star system can support life.
    pub fn habitable() -> (constraints: Constraints)
        ensures
            constraints == Constraints::habitable_preset(),
    {
        Constraints {
            star_system_constraints: Some(StarSystemConstraints::habitable()),
            ..Constraints::default()
        }
    }

    /// The radius: the one set, or that of the stellar neighbourhood.
    pub open spec fn resolved_radius(&self) -> u64 {
        match self.radius {
            Some(radius) => radius,
            None => RADIUS_OF_STELLAR_NEIGHBORHOOD,
        }
    }

    /// The constraints on the star system: those set, or none at all.
    pub open spec fn resolved_star_system_constraints(&self) -> StarSystemConstraints {
        match self.star_system_constraints {
            Some(constraints) => constraints,
            None => StarSystemConstraints::unconstrained(),
        }
    }

    /// A stellar neighbour within these constraints.
    pub fn generate<R: RandomStream>(&self, rng: &mut R, oracle: &FormulaOracle) -> (outcome: Result<
        StellarNeighbor,
        AstronomicalError,
    >)
        ensures
            old(rng).drawn().is_prefix_of(final(rng).drawn()),
            final(rng).origin() == old(rng).origin(),
            StellarNeighbor::generate_ran(
                oracle,
                self,
                old(rng).drawn(),
                final(rng).drawn(),
                outcome,
            ),
            outcome matches Ok(neighbor) ==> within_radius(
                neighbor.coordinates,
                self.resolved_radius(),
            ) && neighbor.star_system.wf(),
            outcome matches Err(error) ==> error == AstronomicalError::QuantityOutOfRange || error
                == AstronomicalError::NoSuitableSubsystemsCouldBeGenerated,
    {
        StellarNeighbor::get_random_constrained(rng, oracle, self)
    }
}

/// A point of the unit sphere scaled to the radius, each coordinate rounded
/// towards zero.
pub open spec fn scaled_point(point: (i64, i64, i64), radius: u64) -> (i64, i64, i64) {
    (
        scaled_coordinate(point.0, radius) as i64,
        scaled_coordinate(point.1, radius) as i64,
        scaled_coordinate(point.2, radius) as i64,
    )
}

impl StellarNeighbor {
    /// What generation does once the point is known, with `system` what the
    /// generation of the star system returned: its failure is handed on
    /// unchanged, and nothing is tried again; otherwise the neighbour is the
    /// star system at the point scaled to the resolved radius.
    pub open spec fn made_system(
        oracle: &FormulaOracle,
        constraints: &Constraints,
        point: (i64, i64, i64),
        before: Seq<Draw>,
        after: Seq<Draw>,
        outcome: Result<StellarNeighbor, AstronomicalError>,
        system: Result<StarSystem, AstronomicalError>,
    ) -> bool {
        &&& StarSystem::from_constraints_ran(
            oracle,
            &constraints.resolved_star_system_constraints(),
            before,
            after,
            system,
        )
        &&& match system {
            Err(error) => outcome == Err::<StellarNeighbor, AstronomicalError>(error),
            Ok(star_system) => outcome matches Ok(neighbor) && neighbor.coordinates
                == scaled_point(point, constraints.resolved_radius()) && neighbor.star_system
                == star_system,
        }
    }

    /// The search for a point of the unit sphere made `attempts` attempts,
    /// left the record `between` and returned `point`: its failure is handed
    /// on unchanged, with nothing more drawn; otherwise the star system is
    /// generated.
    pub open spec fn drew_point(
        oracle: &FormulaOracle,
        constraints: &Constraints,
        before: Seq<Draw>,
        after: Seq<Draw>,
        outcome: Result<StellarNeighbor, AstronomicalError>,
        attempts: int,
        between: Seq<Draw>,
        point: Result<(i64, i64, i64), AstronomicalError>,
    ) -> bool {
        &&& searched(before, between, attempts, point)
        &&& match point {
            Err(error) => outcome == Err::<StellarNeighbor, AstronomicalError>(error) && after
                == between,
            Ok(found) => exists|system: Result<StarSystem, AstronomicalError>| #[trigger]
                Self::made_system(oracle, constraints, found, between, after, outcome, system),
        }
    }

    /// What generation does and returns: a quantity out of range where the
    /// resolved radius is beyond its limit, with nothing drawn; otherwise a
    /// point of the unit sphere is searched, and the neighbour is a star
    /// system, as the resolved star system constraints generate it, at that
    /// point scaled to the resolved radius.
    pub open spec fn generate_ran(
        oracle: &FormulaOracle,
        constraints: &Constraints,
        before: Seq<Draw>,
        after: Seq<Draw>,
        outcome: Result<StellarNeighbor, AstronomicalError>,
    ) -> bool {
        if constraints.resolved_radius() > NEIGHBORHOOD_RADIUS_LIMIT {
            &&& outcome == Err::<StellarNeighbor, AstronomicalError>(
                AstronomicalError::QuantityOutOfRange,
            )
            &&& after == before
        } else {
            exists|
                attempts: int,
                between: Seq<Draw>,
                point: Result<(i64, i64, i64), AstronomicalError>,
            | #[trigger]
                Self::drew_point(
                    oracle,
                    constraints,
                    before,
                    after,
                    outcome,
                    attempts,
                    between,
                    point,
                )
        }
    }

    /// A stellar neighbour within the given constraints: a point of the
    /// sphere of the resolved radius, and a star system.  A failure of the
    /// star system is handed on as it is, and nothing is tried again.
    pub fn get_random_constrained<R: RandomStream>(
        rng: &mut R,
        oracle: &FormulaOracle,
        constraints: &Constraints,
    ) -> (outcome: Result<StellarNeighbor, AstronomicalError>)
        ensures
            old(rng).drawn().is_prefix_of(final(rng).drawn()),
            final(rng).origin() == old(rng).origin(),
            Self::generate_ran(oracle, constraints, old(rng).drawn(), final(rng).drawn(), outcome),
            outcome matches Ok(neighbor) ==> within_radius(
                neighbor.coordinates,
                constraints.resolved_radius(),
            ) && neighbor.star_system.wf(),
            outcome matches Err(error) ==> error == AstronomicalError::QuantityOutOfRange || error
                == AstronomicalError::NoSuitableSubsystemsCouldBeGenerated,
    {
        let radius: u64 = match constraints.radius {
            Some(radius) => radius,
            None => RADIUS_OF_STELLAR_NEIGHBORHOOD,
        };
        let star_system_constraints: StarSystemConstraints = match constraints.star_system_constraints {
            Some(star_system_constraints) => star_system_constraints,
            None => StarSystemConstraints::default(),
        };
        if radius > NEIGHBORHOOD_RADIUS_LIMIT {
            return Err(AstronomicalError::QuantityOutOfRange);
        }
        let ghost before = rng.drawn();
        let point = get_random_point_in_sphere(rng);
        let ghost between = rng.drawn();
        let ghost attempts = choose|attempts: int| searched(before, between, attempts, point);
        let raw_coordinates: (i64, i64, i64) = match point {
            Ok(found) => found,
            Err(error) => {
                assert(Self::drew_point(
                    oracle,
                    constraints,
                    before,
                    rng.drawn(),
                    Err(error),
                    attempts,
                    between,
                    point,
                ));
                return Err(error);
            },
        };
        proof {
            lemma_scaled_point_within_radius(raw_coordinates, radius);
            lemma_scaled_coordinate(raw_coordinates.0, radius);
            lemma_scaled_coordinate(raw_coordinates.1, radius);
            lemma_scaled_coordinate(raw_coordinates.2, radius);
        }
        let x: i64 = scale_coordinate(raw_coordinates.0, radius);
        let y: i64 = scale_coordinate(raw_coordinates.1, radius);
        let z: i64 = scale_coordinate(raw_coordinates.2, radius);
        let coordinates: (i64, i64, i64) = (x, y, z);
        let system = StarSystem::from_constraints(rng, oracle, &star_system_constraints);
        let star_system: StarSystem = match system {
            Ok(star_system) => star_system,
            Err(error) => {
                proof {
                    assert(Self::made_system(
                        oracle,
                        constraints,
                        raw_coordinates,
                        between,
                        rng.drawn(),
                        Err(error),
                        system,
                    ));
                    assert(Self::drew_point(
                        oracle,
                        constraints,
                        before,
                        rng.drawn(),
                        Err(error),
                        attempts,
                        between,
                        point,
                    ));
                }
                return Err(error);
            },
        };
        let neighbor = StellarNeighbor { coordinates, star_system };
        proof {
            assert(Self::made_system(
                oracle,
                constraints,
                raw_coordinates,
                between,
                rng.drawn(),
                Ok(neighbor),
                system,
            ));
            assert(Self::drew_point(
                oracle,
                constraints,
                before,
                rng.drawn(),
                Ok(neighbor),
                attempts,
                between,
                point,
            ));
        }
        Ok(neighbor)
    }
}

} // verus!
