//! Error values reported by the driver core.
//!
//! Configuration-order violations are prevented by contract where a caller
//! can be verified, and reported as values where it cannot be: every
//! operation that can be invoked in a wrong state returns one of these
//! instead of touching its state.

use vstd::prelude::*;

verus! {

/// Why a configuration or control operation was refused.
#[derive(Clone, Copy, Debug, PartialEq, Eq, Structural)]
pub enum ConfigError {
    /// The operation is not allowed in the component's current state.
    WrongState,
    /// The requested update frequency cannot be derived from the clock.
    InvalidFrequency,
    /// The compare-channel index is outside the timer's channel range.
    InvalidChannel,
    /// A duty fraction was not in the closed range from zero to one.
    InvalidDuty,
    /// The timer's burst request was armed before the DMA channel was enabled.
    OrderingViolation,
    /// The staged table does not fit the DMA channel's transfer counter.
    TableTooLarge,
    /// An empty table cannot be streamed.
    EmptyTable,
    /// The request-routing line is not a documented event of the peripheral.
    InvalidRequestLine,
    /// The burst window does not fit the peripheral's burst control word.
    InvalidBurstWindow,
    /// The staged table is not a whole number of bursts.
    BurstMismatch,
}

} // verus!
