//! The heading sensor: a background reader owned by the embedding program
//! converts the magnetometer's field vector to a compass heading in
//! microdegrees and publishes it into a latest-value cell.

use vstd::prelude::*;
use vstd::rwlock::{RwLock, RwLockPredicate};
use crate::interfaces::HeadingSource;

verus! {

/// The invariant of the heading cell: whatever is stored is a compass
/// heading in `[0, 360)` degrees.
pub struct HeadingPred {}

impl RwLockPredicate<Option<i64>> for HeadingPred {
    open spec fn inv(self, v: Option<i64>) -> bool {
        v matches Some(h) ==> 0 <= h < 360_000_000
    }
}

/// The compass's latest heading.
pub struct Compass {
    /// The bus device path the background reader opens.
    pub device: &'static str,
    heading: RwLock<Option<i64>, HeadingPred>,
}

impl Compass {
    /// A compass on the given bus device, with no heading yet.
    pub fn new(f: &'static str) -> Compass {
        Compass { device: f, heading: RwLock::new(None, Ghost(HeadingPred {})) }
    }

    /// The last known heading, or `None` while there is no fix. A heading
    /// read back from the cell is always in `[0, 360)` degrees.
    pub fn get(&self) -> (r: Option<i64>)
        ensures
            r matches Some(h) ==> 0 <= h < 360_000_000,
    {
        let handle = self.heading.acquire_read();
        let v = *handle.borrow();
        handle.release_read();
        v
    }

    /// Publish a fresh heading in microdegrees.
    pub fn store(&self, heading: i64)
        requires
            0 <= heading < 360_000_000,
    {
        let (_, handle) = self.heading.acquire_write();
        handle.release_write(Some(heading));
    }
}

impl HeadingSource for Compass {
    fn try_get(&mut self) -> Option<i64> {
        Compass::get(self)
    }
}

/// A `&Compass` is enough to poll, so the cell can sit behind a shared
/// handle while a reader thread feeds it.
impl HeadingSource for &Compass {
    fn try_get(&mut self) -> Option<i64> {
        Compass::get(self)
    }
}

} // verus!
