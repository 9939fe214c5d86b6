//! System abstractions shared across transports.

use vstd::prelude::*;

use crate::data::Timestamp;

verus! {

/// A source of "now", supplied by the platform layer. Transports use it
/// to stamp messages when the transport itself carries no timestamp.
/// Nothing can be promised of a wall clock, so the trait states nothing
/// of the value.
pub trait TimeSource {
    /// The current time in milliseconds since the Unix epoch.
    fn now_millis() -> Timestamp;
}

} // verus!
