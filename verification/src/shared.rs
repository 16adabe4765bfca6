//! The single-slot shared snapshot: a reader-writer lock around the latest
//! [`State`], overwritten wholesale each tick and copied wholesale out by
//! observers. It is a broadcast cell, not a queue: a slow consumer only ever
//! sees the freshest value.
//!
//! Writing [`Action::Aborted`] into the slot is itself the cancellation
//! mechanism: the control loop checks for it on every publish and stands
//! down within one tick.

use vstd::prelude::*;
use vstd::rwlock::{RwLock, RwLockPredicate};
use crate::state::{Action, State};

verus! {

/// The lock invariant of the snapshot slot: any [`State`] value may be
/// stored.
pub struct SnapshotPred {}

impl RwLockPredicate<State> for SnapshotPred {
    open spec fn inv(self, v: State) -> bool {
        true
    }
}

/// The trivial lock invariant of a latest-value cell: any value may be
/// stored.
pub struct AnyValue {}

impl<V> RwLockPredicate<V> for AnyValue {
    open spec fn inv(self, v: V) -> bool {
        true
    }
}

/// A single-slot cell holding the latest reading of one sensor, or `None`
/// while it has not reported yet. A background reader owns the `store` side;
/// the control loop polls `get` without ever blocking on the device.
pub struct Latest<T> {
    slot: RwLock<Option<T>, AnyValue>,
}

impl<T: Copy> Latest<T> {
    /// An empty cell: no reading yet.
    pub fn new() -> Latest<T> {
        Latest { slot: RwLock::new(None, Ghost(AnyValue {})) }
    }

    /// The latest stored reading, if any.
    pub fn get(&self) -> Option<T> {
        let handle = self.slot.acquire_read();
        let v = *handle.borrow();
        handle.release_read();
        v
    }

    /// Publish a fresh reading.
    pub fn store(&self, v: T) {
        let (_, handle) = self.slot.acquire_write();
        handle.release_write(Some(v));
    }
}

/// A mutex-guarded holder of the latest [`State`]. Writers and readers hold
/// the lock only long enough to copy the whole structure in or out; no
/// device access happens under the lock.
pub struct SharedState {
    slot: RwLock<State, SnapshotPred>,
}

impl SharedState {
    /// A fresh slot holding the all-unknown initial state.
    pub fn new() -> SharedState {
        SharedState { slot: RwLock::new(State::new(), Ghost(SnapshotPred {})) }
    }

    /// Copy the latest published state out.
    pub fn read(&self) -> State {
        let handle = self.slot.acquire_read();
        let s = *handle.borrow();
        handle.release_read();
        s
    }

    /// Overwrite the current behaviour, leaving the other published fields
    /// alone. Any task may use this; writing [`Action::Aborted`] cancels the
    /// run.
    pub fn set_action(&self, a: Action) {
        let (mut s, handle) = self.slot.acquire_write();
        s.action = a;
        handle.release_write(s);
    }

    /// Publish a new snapshot, unless an external writer has already set
    /// [`Action::Aborted`]: then the slot is left untouched and `false`
    /// comes back, telling the control loop to stand down.
    pub fn publish_unless_aborted(&self, s: &State) -> bool {
        let (cur, handle) = self.slot.acquire_write();
        if cur.action == Action::Aborted {
            handle.release_write(cur);
            false
        } else {
            handle.release_write(*s);
            true
        }
    }
}

} // verus!
