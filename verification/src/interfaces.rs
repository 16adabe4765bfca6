//! The contracts between the control loop and its external collaborators.
//!
//! Each peripheral is reduced to a small non-blocking interface: the control
//! loop never owns or blocks on a raw device handle. Sensor methods return
//! "no fix" as a first-class value rather than an error, and nothing here
//! promises anything about the values a device hands back — the decision
//! logic is verified for every value a collaborator may produce.

use vstd::prelude::*;
use crate::geo::Location;
use crate::motors::Motion;

verus! {

/// An angular window of the ranging sensors, looking out from the vehicle.
#[derive(Clone, Copy, PartialEq, Eq, Structural, Debug)]
pub enum Zone {
    Front,
    FrontLeft,
    FrontRight,
}

/// Yields the latest known position, or `None` while there is no fix.
pub trait PositionSource {
    fn try_get(&mut self) -> Option<Location>;
}

/// Yields the latest known compass heading in microdegrees, or `None` while
/// there is no fix.
pub trait HeadingSource {
    fn try_get(&mut self) -> Option<i64>;
}

/// Yields the distance, in the ranging sensor's own length unit, to the
/// nearest obstacle inside a zone.
pub trait RangeSource {
    fn min_distance(&mut self, zone: Zone) -> u32;
}

/// Accepts a per-side motion command; fire-and-forget, safe to call every
/// tick.
pub trait Actuator {
    fn apply(&mut self, left: Motion, right: Motion);
}

/// Yields the debounced state of the operator's run/stop switch: `Some(true)`
/// to run, `Some(false)` to stop, `None` while unknown.
pub trait KillSwitch {
    fn try_get(&mut self) -> Option<bool>;
}

/// Computes the compass bearing, in microdegrees, from one location to
/// another. The rhumb-line formula needs floating-point trigonometry, which
/// this crate's verified code cannot hold, so the embedding program supplies
/// it behind this interface.
pub trait BearingSource {
    fn bearing_to(&mut self, from: &Location, to: &Location) -> i64;
}

/// Suspends the control task, yielding the processor between ticks and
/// during the emergency-brake dwell.
pub trait Pacer {
    fn pause(&mut self, millis: u64);
}

} // verus!
