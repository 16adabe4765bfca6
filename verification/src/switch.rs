//! The operator's run/stop kill switch: a debounced background reader
//! publishes the stable state into a latest-value cell, and the control loop
//! polls it without blocking.

use vstd::prelude::*;
use crate::interfaces::KillSwitch;
use crate::shared::Latest;

verus! {

/// A debounced two-state switch on a general-purpose input pin. The pin is
/// sampled by a background reader owned by the embedding program, which
/// publishes each stable state through [`Switch::store`].
pub struct Switch {
    /// The input pin number the switch is wired to.
    pub pin: u64,
    state: Latest<bool>,
}

impl Switch {
    /// A switch on the given pin, with no stable reading yet.
    pub fn new(pin: u64) -> Switch {
        Switch { pin, state: Latest::new() }
    }

    /// The last debounced state: `Some(true)` to run, `Some(false)` to
    /// stop, `None` while none has been observed.
    pub fn get(&self) -> Option<bool> {
        self.state.get()
    }

    /// Publish a debounced state; the reader calls this only after the raw
    /// pin level has stayed put through its debounce window.
    pub fn store(&self, on: bool) {
        self.state.store(on)
    }
}

impl KillSwitch for Switch {
    fn try_get(&mut self) -> Option<bool> {
        Switch::get(self)
    }
}

/// A `&Switch` is enough to poll, so the cell can sit behind a shared
/// handle while a reader thread feeds it.
impl KillSwitch for &Switch {
    fn try_get(&mut self) -> Option<bool> {
        Switch::get(self)
    }
}

} // verus!
