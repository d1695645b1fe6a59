//! What every constraint record shares: how an optional bound resolves
//! against its default, and how a value is drawn from a resolved range.

use vstd::prelude::*;

use crate::error::AstronomicalError;
use crate::random::uniform_draw;
use crate::random::Draw;
use crate::random::RandomStream;

verus! {

/// The value set, or the default.
pub open spec fn value_or(field: Option<u64>, default_value: u64) -> u64 {
    match field {
        Some(value) => value,
        None => default_value,
    }
}

/// The value set, or the default.  The field is read, never changed.
pub fn resolve(field: Option<u64>, default_value: u64) -> (value: u64)
    ensures
        value == value_or(field, default_value),
{
    match field {
        Some(value) => value,
        None => default_value,
    }
}

/// What a draw from the resolved range `[minimum, maximum)` does and
/// returns.  Where the minimum lies below the maximum, one value of the range
/// is asked of the stream, recorded, and returned.  Where it does not, the
/// constraint cannot be met, and nothing is drawn.
pub open spec fn sampled_from(
    minimum: u64,
    maximum: u64,
    before: Seq<Draw>,
    after: Seq<Draw>,
    outcome: Result<u64, AstronomicalError>,
) -> bool {
    if minimum < maximum {
        &&& outcome matches Ok(value)
        &&& minimum <= value < maximum
        &&& after == before.push(uniform_draw(minimum, maximum, value))
    } else {
        &&& outcome == Err::<u64, AstronomicalError>(AstronomicalError::ConstraintUnsatisfiable)
        &&& after == before
    }
}

/// A draw from the resolved range `[minimum, maximum)`.
pub fn sample<R: RandomStream>(rng: &mut R, minimum: u64, maximum: u64) -> (outcome: Result<
    u64,
    AstronomicalError,
>)
    ensures
        old(rng).drawn().is_prefix_of(final(rng).drawn()),
        final(rng).origin() == old(rng).origin(),
        sampled_from(minimum, maximum, old(rng).drawn(), final(rng).drawn(), outcome),
{
    if minimum < maximum {
        Ok(rng.uniform(minimum, maximum))
    } else {
        Err(AstronomicalError::ConstraintUnsatisfiable)
    }
}

} // verus!
