//! The vehicle's published navigation state: what the control loop knows at
//! the end of a tick, copied wholesale into the shared snapshot.

use vstd::prelude::*;
use crate::geo::Location;
use crate::motors::Motion;

verus! {

/// The behaviour the vehicle is currently performing. Exactly one is active
/// at a time.
#[derive(Debug, Clone, Copy, PartialEq, Eq, Structural)]
pub enum Action {
    WaitingForStartCommand,
    Navigating { waypoint: usize },
    ReachedWaypoint { waypoint: usize },
    WaitingForGps,
    WaitingForCompass,
    AvoidingObstacleToLeft,
    AvoidingObstacleToRight,
    EmergencyStop,
    Aborted,
    Finished,
}

impl Action {
    /// The two ways a run can end.
    pub open spec fn is_terminal(self) -> bool {
        self == Action::Aborted || self == Action::Finished
    }

    /// The two obstacle-avoidance behaviours.
    pub open spec fn is_avoiding(self) -> bool {
        self == Action::AvoidingObstacleToLeft || self == Action::AvoidingObstacleToRight
    }
}

/// Instrumentation data published each tick for observers such as a video
/// overlay. Every optional field is `None` exactly while the corresponding
/// sensor has not reported a fix.
#[derive(Debug, Clone, Copy, PartialEq)]
pub struct State {
    /// Last known position, if any.
    pub loc: Option<Location>,
    /// Last known compass heading in microdegrees, normalized to `[0, 360)`
    /// degrees.
    pub bearing: Option<i64>,
    /// Number and target position of the waypoint being sought.
    pub next_waypoint: Option<(usize, Location)>,
    /// Compass bearing from the last known position to the waypoint, in
    /// microdegrees.
    pub waypoint_bearing: Option<i64>,
    /// Signed turn error in microdegrees: negative turns left, positive
    /// turns right.
    pub turn: Option<i64>,
    /// Current behaviour.
    pub action: Action,
    /// Last commanded (left, right) wheel motion.
    pub speed: (Motion, Motion),
    /// Latest minimum obstacle distance straight ahead.
    pub distance_front: u32,
    /// Latest minimum obstacle distance ahead and to the left.
    pub distance_front_left: u32,
    /// Latest minimum obstacle distance ahead and to the right.
    pub distance_front_right: u32,
}

impl State {
    /// The all-unknown state a run starts from.
    pub fn new() -> (r: State)
        ensures
            r == State::initial(),
    {
        State {
            loc: None,
            bearing: None,
            next_waypoint: None,
            waypoint_bearing: None,
            turn: None,
            action: Action::WaitingForStartCommand,
            speed: (Motion::Speed(0), Motion::Speed(0)),
            distance_front: 0,
            distance_front_left: 0,
            distance_front_right: 0,
        }
    }

    /// The value [`State::new`] returns.
    pub open spec fn initial() -> State {
        State {
            loc: None,
            bearing: None,
            next_waypoint: None,
            waypoint_bearing: None,
            turn: None,
            action: Action::WaitingForStartCommand,
            speed: (Motion::Speed(0), Motion::Speed(0)),
            distance_front: 0,
            distance_front_left: 0,
            distance_front_right: 0,
        }
    }

    /// Change the current behaviour, leaving every other field alone.
    pub fn set_action(&mut self, a: Action)
        ensures
            *final(self) == (State { action: a, ..*old(self) }),
    {
        self.action = a;
    }
}

} // verus!
