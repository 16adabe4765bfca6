//! The position receiver: a background reader owned by the embedding
//! program parses the receiver's sentences and publishes each fix into a
//! latest-value cell; the control loop polls the cell without blocking.

use vstd::prelude::*;
use vstd::rwlock::{RwLock, RwLockPredicate};
use crate::geo::Location;
use crate::interfaces::PositionSource;

verus! {

/// The invariant of the position cell: whatever is stored is a fix on the
/// globe.
pub struct PositionPred {}

impl RwLockPredicate<Option<Location>> for PositionPred {
    open spec fn inv(self, v: Option<Location>) -> bool {
        v matches Some(l) ==> l.valid()
    }
}

/// The position receiver's latest fix.
pub struct GPS {
    /// The serial device path the background reader opens.
    pub filename: &'static str,
    location: RwLock<Option<Location>, PositionPred>,
}

impl GPS {
    /// A receiver on the given device, with no fix yet.
    pub fn new(f: &'static str) -> GPS {
        GPS { filename: f, location: RwLock::new(None, Ghost(PositionPred {})) }
    }

    /// The last known position, or `None` while there is no fix. A fix read
    /// back from the cell always lies on the globe.
    pub fn get(&self) -> (r: Option<Location>)
        ensures
            r matches Some(l) ==> l.valid(),
    {
        let handle = self.location.acquire_read();
        let v = *handle.borrow();
        handle.release_read();
        v
    }

    /// Publish a fresh fix; the background reader calls this for each valid
    /// sentence.
    pub fn store(&self, loc: Location)
        requires
            loc.valid(),
    {
        let (_, handle) = self.location.acquire_write();
        handle.release_write(Some(loc));
    }
}

impl PositionSource for GPS {
    fn try_get(&mut self) -> Option<Location> {
        GPS::get(self)
    }
}

/// A `&GPS` is enough to poll, so the cell can sit behind a shared handle
/// while a reader thread feeds it.
impl PositionSource for &GPS {
    fn try_get(&mut self) -> Option<Location> {
        GPS::get(self)
    }
}

} // verus!
