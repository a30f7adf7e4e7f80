//! The failures that resolving a configuration can end in.

use vstd::prelude::*;

verus! {

/// One of the two axes of a geographic position.
#[derive(Debug, Clone, Copy, PartialEq, Eq, Structural)]
pub enum Axis {
    Latitude,
    Longitude,
}

/// What is wrong with a coordinate string.
#[derive(Debug, Clone, Copy, PartialEq, Eq, Structural)]
pub enum CoordinateFault {
    /// The string does not end in a direction letter of its axis.
    Direction,
    /// What stands before the direction letter is not a decimal number.
    Magnitude,
    /// The number is larger than its axis allows.
    Range,
}

/// The kinds of invalid configuration.
#[derive(Debug, Clone, Copy, PartialEq, Eq, Structural)]
pub enum ConfigErrorKind {
    /// A latitude or longitude string was refused.
    InvalidCoordinate(Axis, CoordinateFault),
    /// A date string does not follow its format.
    InvalidDate,
    /// An offset string is not a clock reading `[-]HH:MM[:SS]`.
    InvalidOffset,
    /// An event name is not one of the known names.
    InvalidEvent,
    /// The configuration file is there, but its content cannot be used.
    InvalidConfigFile,
}

/// Any failure this library reports.
#[derive(Debug, Clone, Copy, PartialEq, Eq, Structural)]
pub enum HeliocronError {
    Config(ConfigErrorKind),
}

impl Axis {
    /// The largest magnitude, in whole degrees, that the axis allows.
    pub open spec fn limit(self) -> nat {
        match self {
            Axis::Latitude => 90,
            Axis::Longitude => 180,
        }
    }
}

/// The error for a coordinate string of `axis` that was refused for `fault`.
pub open spec fn invalid_coordinate(axis: Axis, fault: CoordinateFault) -> HeliocronError {
    HeliocronError::Config(ConfigErrorKind::InvalidCoordinate(axis, fault))
}

} // verus!
