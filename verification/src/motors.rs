//! Per-wheel motion commands and the dual-motor actuator built on the
//! serial motor controller.

use vstd::prelude::*;
use crate::interfaces::Actuator;
use crate::qik::{Motor, Qik};

verus! {

/// A command for one wheel: freewheel, brake with an intensity, or drive at
/// a signed speed.
#[derive(Debug, Copy, Clone, PartialEq, Eq, Structural)]
pub enum Motion {
    /// Let the wheel spin freely.
    Coast,
    /// Brake with the given intensity; intensities above 127 are clamped by
    /// the controller command.
    Brake(u8),
    /// Drive forward (positive) or in reverse (negative).
    Speed(i8),
}

/// The vehicle's two drive wheels, on the two channels of one controller.
/// The actuator is fire-and-forget: a transport failure is dropped, and the
/// control loop repeats its command on the next tick anyway.
pub struct Motors {
    qik: Qik,
    /// When false, every command is swallowed: a dry-run mode for bench
    /// work.
    pub enabled: bool,
}

impl Motors {
    /// Take ownership of the controller.
    pub fn new(qik: Qik, enabled: bool) -> Motors {
        Motors { qik, enabled }
    }

    /// Command the left (channel M0) and right (channel M1) wheels.
    pub fn set(&mut self, left: Motion, right: Motion) {
        self._set(Motor::M0, left);
        self._set(Motor::M1, right);
    }

    /// Command one wheel.
    fn _set(&mut self, m: Motor, n: Motion) {
        if self.enabled {
            let _ = match n {
                Motion::Coast => self.qik.set_coast(m),
                Motion::Brake(b) => self.qik.set_brake(m, b),
                Motion::Speed(s) => self.qik.set_speed(m, s),
            };
        }
    }
}

impl Actuator for Motors {
    fn apply(&mut self, left: Motion, right: Motion) {
        self.set(left, right);
    }
}

} // verus!
