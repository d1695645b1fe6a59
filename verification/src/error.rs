//! The failures that generation and habitability checks report.

use vstd::prelude::*;

verus! {

/// The four classes that every failure belongs to.
#[derive(Clone, Copy, Debug, PartialEq, Eq, Structural)]
pub enum ErrorKind {
    /// A physical quantity lies outside the domain of a formula.
    OutOfRange,
    /// A resolved minimum does not lie below its resolved maximum.
    ConstraintUnsatisfiable,
    /// The bounded retry loop ran out of attempts.
    RetryExhausted,
    /// An entity failed a habitability check.
    NotHabitable,
}

/// A failure of a generator or of a habitability check.
#[derive(Clone, Copy, Debug, PartialEq, Eq, Structural)]
pub enum AstronomicalError {
    /// The mass is at or below the lower end of the main sequence.
    StellarMassTooLowForMainSequence,
    /// The mass is at or above the upper end of the main sequence.
    StellarMassTooHighForMainSequence,
    /// A quantity is too small or too large for the formula that needs it.
    QuantityOutOfRange,
    /// A resolved range is empty.
    ConstraintUnsatisfiable,
    /// A subsystem tree would grow deeper than its constraints allow.
    SubsystemDepthExceeded,
    /// Every attempt to generate a subsystem failed.
    NoSuitableSubsystemsCouldBeGenerated,
    /// The mass is too low to support life.
    MassTooLowToSupportLife,
    /// The mass is too high to support life.
    MassTooHighToSupportLife,
    /// The body is too young to support life.
    TooYoungToSupportLife,
    /// Neither half of a double subsystem is habitable.
    NoHabitableZoneFoundInSubsystem,
    /// A gas giant has no surface to live on.
    GasGiantCannotSupportLife,
}

impl AstronomicalError {
    /// The class of this failure.
    pub open spec fn kind_of(self) -> ErrorKind {
        match self {
            AstronomicalError::StellarMassTooLowForMainSequence => ErrorKind::OutOfRange,
            AstronomicalError::StellarMassTooHighForMainSequence => ErrorKind::OutOfRange,
            AstronomicalError::QuantityOutOfRange => ErrorKind::OutOfRange,
            AstronomicalError::ConstraintUnsatisfiable => ErrorKind::ConstraintUnsatisfiable,
            AstronomicalError::SubsystemDepthExceeded => ErrorKind::ConstraintUnsatisfiable,
            AstronomicalError::NoSuitableSubsystemsCouldBeGenerated => ErrorKind::RetryExhausted,
            AstronomicalError::MassTooLowToSupportLife => ErrorKind::NotHabitable,
            AstronomicalError::MassTooHighToSupportLife => ErrorKind::NotHabitable,
            AstronomicalError::TooYoungToSupportLife => ErrorKind::NotHabitable,
            AstronomicalError::NoHabitableZoneFoundInSubsystem => ErrorKind::NotHabitable,
            AstronomicalError::GasGiantCannotSupportLife => ErrorKind::NotHabitable,
        }
    }

    /// The class of this failure.
    pub fn kind(&self) -> (kind: ErrorKind)
        ensures
            kind == self.kind_of(),
    {
        match self {
            AstronomicalError::StellarMassTooLowForMainSequence => ErrorKind::OutOfRange,
            AstronomicalError::StellarMassTooHighForMainSequence => ErrorKind::OutOfRange,
            AstronomicalError::QuantityOutOfRange => ErrorKind::OutOfRange,
            AstronomicalError::ConstraintUnsatisfiable => ErrorKind::ConstraintUnsatisfiable,
            AstronomicalError::SubsystemDepthExceeded => ErrorKind::ConstraintUnsatisfiable,
            AstronomicalError::NoSuitableSubsystemsCouldBeGenerated => ErrorKind::RetryExhausted,
            AstronomicalError::MassTooLowToSupportLife => ErrorKind::NotHabitable,
            AstronomicalError::MassTooHighToSupportLife => ErrorKind::NotHabitable,
            AstronomicalError::TooYoungToSupportLife => ErrorKind::NotHabitable,
            AstronomicalError::NoHabitableZoneFoundInSubsystem => ErrorKind::NotHabitable,
            AstronomicalError::GasGiantCannotSupportLife => ErrorKind::NotHabitable,
        }
    }
}

} // verus!
