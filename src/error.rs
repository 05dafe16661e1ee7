//! Why an identifier could not be made.
use vstd::prelude::*;

verus! {

/// The ways construction or minting can fail.
#[derive(Debug, Clone, Copy, PartialEq, Eq, Structural)]
pub enum SnowflakeError {
    /// The worker id does not fit in its 10-bit field.
    Configuration,
    /// The clock read earlier than the timestamp of the last identifier.
    ClockRegression,
    /// The clock read past the largest timestamp the 42-bit field holds.
    TimestampOverflow,
    /// The clock did not move past an exhausted millisecond while it was
    /// polled.
    ClockStalled,
}

} // verus!
