//! The per-waypoint control loop and course runner.
//!
//! Each tick runs, in strict priority order: the abort check, the snapshot
//! publish, the obstacle decision, and only then waypoint-seeking. The
//! obstacle decision and the steering arithmetic are pure functions with
//! exact contracts; the loop composes them with the peripheral interfaces.

use vstd::prelude::*;
use vstd::arithmetic::div_mod::{lemma_div_is_ordered, lemma_div_multiples_vanish};
use crate::Config;
use crate::geo::{Location, normalize_compass, norm_compass_spec, norm_signed_spec, calc_bearing_diff, HALF_TURN};
use crate::motors::Motion;
use crate::state::{Action, State};
use crate::shared::SharedState;
use crate::interfaces::{PositionSource, HeadingSource, RangeSource, Actuator, KillSwitch, BearingSource, Pacer, Zone};

verus! {

/// Milliseconds the control loop yields between ticks.
pub const TICK_MILLIS: u64 = 10;

/// Milliseconds an emergency-stop brake command is held before the loop
/// re-evaluates, so the brake takes mechanical effect.
pub const BRAKE_DWELL_MILLIS: u64 = 100;

/// Tuning for a run, immutable for its duration.
pub struct Settings {
    /// Magnitude of the fastest wheel command issued while navigating.
    pub max_speed: i8,
    /// Turn-sharpness gain: how strongly a degree of turn error slows the
    /// inner wheel.
    pub differential_drive_coefficient: u32,
    /// Acceptance tolerance around a waypoint, microdegrees of (latitude,
    /// longitude).
    pub waypoint_accuracy: (i64, i64),
    /// The ordered course.
    pub waypoints: Vec<Location>,
    /// Readings below this distance count as a blocking obstacle.
    pub obstacle_avoidance_distance: u32,
    /// How many raw ultrasonic samples are averaged per reading.
    pub usonic_sample_count: usize,
}

impl Settings {
    /// Well-formed settings: magnitudes are non-negative and every waypoint
    /// lies on the globe.
    pub open spec fn wf(&self) -> bool {
        &&& 0 <= self.max_speed
        &&& 0 <= self.waypoint_accuracy.0
        &&& 0 <= self.waypoint_accuracy.1
        &&& forall|i: int|
            0 <= i < self.waypoints@.len() ==> (#[trigger] self.waypoints@[i]).valid()
    }
}

/// How one call of the control loop for one waypoint ends.
#[derive(Debug, Clone, Copy, PartialEq, Eq, Structural)]
pub enum Outcome {
    /// The waypoint was accepted by the arrival test.
    Reached,
    /// The kill switch, an external abort, or tick-budget exhaustion ended
    /// the run.
    Aborted,
}

/// What one tick decided beyond its state update.
#[derive(Debug, Clone, Copy, PartialEq, Eq, Structural)]
pub enum Step {
    /// The waypoint was accepted; stop ticking.
    Arrived,
    /// Keep ticking; the new state carries the motion command to issue.
    Continue,
}

/// One tick's sensor samples, gathered before the decision runs.
#[derive(Debug, Clone, Copy, PartialEq)]
pub struct SensorFrame {
    /// Latest position fix, if any.
    pub position: Option<Location>,
    /// Latest compass heading in microdegrees, if any.
    pub heading: Option<i64>,
    /// Minimum obstacle distance straight ahead.
    pub front: u32,
    /// Minimum obstacle distance ahead left.
    pub front_left: u32,
    /// Minimum obstacle distance ahead right.
    pub front_right: u32,
    /// Compass bearing from the position fix to the target, in
    /// microdegrees; meaningful only when `position` is `Some`.
    pub bearing_to_target: i64,
}

/// The peripherals a control loop drives, grouped to pass around together.
pub struct Io<G, C, R, M, B> {
    pub gps: G,
    pub imu: C,
    pub ranges: R,
    pub motors: M,
    pub bearings: B,
}

/// The obstacle decision table. `Some(action)` when an obstacle rule fires;
/// `None` lets the tick fall through to waypoint-seeking.
///
/// Rules, in priority order, where "blocked" is a reading below `min_d`,
/// and an avoidance names the side the obstacle is on while its hard turn
/// goes the other way: front, left and right all blocked is an emergency
/// stop; while the front stays blocked, a prior avoidance keeps its
/// direction even if the side readings flip (hysteresis against
/// oscillation); otherwise a blocked front with one blocked side names that
/// side, turning toward the clear one, and with both sides clear it steers
/// away from the planned turn, defaulting to
/// [`Action::AvoidingObstacleToLeft`] when no turn is known (a named,
/// overridable policy); a blocked side alone names that side.
pub open spec fn avoid_decision_spec(
    front: u32,
    left: u32,
    right: u32,
    min_d: u32,
    prior: Action,
    turn: Option<i64>,
) -> Option<Action> {
    if front < min_d {
        if left < min_d && right < min_d {
            Some(Action::EmergencyStop)
        } else if prior.is_avoiding() {
            Some(prior)
        } else if left < min_d {
            Some(Action::AvoidingObstacleToLeft)
        } else if right < min_d {
            Some(Action::AvoidingObstacleToRight)
        } else {
            match turn {
                Some(t) => if t > 0 {
                    Some(Action::AvoidingObstacleToRight)
                } else {
                    Some(Action::AvoidingObstacleToLeft)
                },
                None => Some(Action::AvoidingObstacleToLeft),
            }
        }
    } else if left < min_d {
        Some(Action::AvoidingObstacleToLeft)
    } else if right < min_d {
        Some(Action::AvoidingObstacleToRight)
    } else {
        None
    }
}

/// The decision table is total and closed: every combination of readings and
/// prior behaviour yields exactly one decision, which is either no action or
/// one of the three avoidance behaviours, and it is no action exactly when
/// nothing is blocked.
pub proof fn lemma_decision_total(
    front: u32,
    left: u32,
    right: u32,
    min_d: u32,
    prior: Action,
    turn: Option<i64>,
)
    ensures
        ({
            let d = avoid_decision_spec(front, left, right, min_d, prior, turn);
            ||| d is None
            ||| d == Some(Action::EmergencyStop)
            ||| d == Some(Action::AvoidingObstacleToLeft)
            ||| d == Some(Action::AvoidingObstacleToRight)
        }),
        (avoid_decision_spec(front, left, right, min_d, prior, turn) is None) <==> (front >= min_d
            && left >= min_d && right >= min_d),
{
}

/// An emergency stop is decided exactly when the front and both sides are
/// all blocked.
pub proof fn lemma_emergency_stop_iff(
    front: u32,
    left: u32,
    right: u32,
    min_d: u32,
    prior: Action,
    turn: Option<i64>,
)
    ensures
        (avoid_decision_spec(front, left, right, min_d, prior, turn) == Some(
            Action::EmergencyStop,
        )) <==> (front < min_d && left < min_d && right < min_d),
{
}

/// Hysteresis, one tick: while an avoidance is active, the front stays
/// blocked, and the sides are not both blocked, the decision repeats the
/// active direction whatever the side readings do.
pub proof fn lemma_hysteresis(
    front: u32,
    left: u32,
    right: u32,
    min_d: u32,
    prior: Action,
    turn: Option<i64>,
)
    requires
        prior.is_avoiding(),
        front < min_d,
        !(left < min_d && right < min_d),
    ensures
        avoid_decision_spec(front, left, right, min_d, prior, turn) == Some(prior),
{
}

/// The behaviour after a stretch of ticks in which an obstacle rule fires on
/// every reading: each tick's decision becomes the next tick's prior
/// behaviour, as the control loop applies it.
pub open spec fn mode_after(
    readings: Seq<(u32, u32, u32)>,
    min_d: u32,
    mode: Action,
    turn: Option<i64>,
) -> Action
    decreases readings.len(),
{
    if readings.len() == 0 {
        mode
    } else {
        let rd = readings[0];
        match avoid_decision_spec(rd.0, rd.1, rd.2, min_d, mode, turn) {
            Some(a) => mode_after(readings.skip(1), min_d, a, None),
            None => mode,
        }
    }
}

/// Hysteresis, over a whole stretch: once an avoidance is active, it keeps
/// its direction across every subsequent tick whose front reading stays
/// blocked and whose sides are not both blocked, however the side readings
/// flip.
pub proof fn lemma_hysteresis_held(
    readings: Seq<(u32, u32, u32)>,
    min_d: u32,
    prior: Action,
    turn: Option<i64>,
)
    requires
        prior.is_avoiding(),
        forall|i: int|
            0 <= i < readings.len() ==> (#[trigger] readings[i]).0 < min_d && !(readings[i].1
                < min_d && readings[i].2 < min_d),
    ensures
        mode_after(readings, min_d, prior, turn) == prior,
    decreases readings.len(),
{
    if readings.len() > 0 {
        let rd = readings[0];
        lemma_hysteresis(rd.0, rd.1, rd.2, min_d, prior, turn);
        assert(forall|i: int|
            0 <= i < readings.skip(1).len() ==> #[trigger] readings.skip(1)[i] == readings[i + 1]);
        lemma_hysteresis_held(readings.skip(1), min_d, prior, None);
    }
}

/// The hard-turn or brake command an avoidance behaviour maps to: the wheel
/// on the obstacle's side runs at full speed, the other coasts at zero, so
/// the vehicle turns away; an emergency stop brakes both wheels fully.
pub open spec fn avoidance_command_spec(a: Action, max_speed: i8) -> (Motion, Motion) {
    match a {
        Action::AvoidingObstacleToLeft => (Motion::Speed(max_speed), Motion::Speed(0)),
        Action::AvoidingObstacleToRight => (Motion::Speed(0), Motion::Speed(max_speed)),
        _ => (Motion::Brake(127), Motion::Brake(127)),
    }
}

/// Exec mirror of [`avoidance_command_spec`].
pub fn avoidance_command(a: Action, max_speed: i8) -> (r: (Motion, Motion))
    ensures
        r == avoidance_command_spec(a, max_speed),
{
    match a {
        Action::AvoidingObstacleToLeft => (Motion::Speed(max_speed), Motion::Speed(0)),
        Action::AvoidingObstacleToRight => (Motion::Speed(0), Motion::Speed(max_speed)),
        _ => (Motion::Brake(127), Motion::Brake(127)),
    }
}

/// The inner-wheel speed for a turn error of magnitude `angle` microdegrees:
/// full speed at zero error, scaled linearly down to zero at or beyond a
/// half turn divided by the gain.
pub open spec fn motor_speed_spec(max_speed: i8, gain: u32, angle: int) -> int {
    let t = if angle * gain > 180_000_000 {
        180_000_000int
    } else {
        angle * gain
    };
    max_speed * (180_000_000 - t) / 180_000_000
}

/// At or beyond a full-lock turn error (`angle * gain` at least a half
/// turn), the inner wheel is commanded exactly zero.
pub proof fn lemma_full_lock_turn(max_speed: i8, gain: u32, angle: int)
    requires
        angle * gain >= 180_000_000,
    ensures
        motor_speed_spec(max_speed, gain, angle) == 0,
{
    let t = if angle * gain > 180_000_000 {
        180_000_000int
    } else {
        angle * gain
    };
    assert(t == 180_000_000);
    assert(max_speed * (180_000_000 - t) == 0) by (nonlinear_arith)
        requires
            t == 180_000_000,
    ;
    assert(0int / 180_000_000int == 0);
}

/// With no turn error, the inner wheel too is commanded exactly `max_speed`,
/// so both wheels run at full speed.
pub proof fn lemma_zero_turn_full_speed(max_speed: i8, gain: u32)
    ensures
        motor_speed_spec(max_speed, gain, 0) == max_speed,
{
    lemma_div_multiples_vanish(max_speed as int, 180_000_000);
    assert(max_speed * 180_000_000 / 180_000_000 == max_speed);
}

/// Calculate the inner-wheel speed for a turn of `angle` microdegrees.
pub fn calculate_motor_speed(settings: &Settings, angle: i64) -> (r: i8)
    requires
        settings.wf(),
        0 <= angle <= HALF_TURN,
    ensures
        r as int == motor_speed_spec(
            settings.max_speed,
            settings.differential_drive_coefficient,
            angle as int,
        ),
        0 <= r <= settings.max_speed,
{
    let gain: i64 = settings.differential_drive_coefficient as i64;
    proof {
        assert(0 <= angle * gain <= 180_000_000int * 4294967295int) by (nonlinear_arith)
            requires
                0 <= angle <= 180_000_000,
                0 <= gain <= 4294967295,
        ;
    }
    let mut t: i64 = angle * gain;
    if t > HALF_TURN {
        t = HALF_TURN;
    }
    let max: i64 = settings.max_speed as i64;
    proof {
        assert(0 <= max * (180_000_000 - t) <= max * 180_000_000) by (nonlinear_arith)
            requires
                0 <= max,
                0 <= t <= 180_000_000,
        ;
        assert(max * 180_000_000 <= 127 * 180_000_000) by (nonlinear_arith)
            requires
                max <= 127,
        ;
    }
    let num: i64 = max * (HALF_TURN - t);
    let speed: i64 = num / HALF_TURN;
    proof {
        lemma_div_is_ordered(0, num as int, 180_000_000);
        lemma_div_is_ordered(num as int, max * 180_000_000, 180_000_000);
        lemma_div_multiples_vanish(max as int, 180_000_000);
    }
    speed as i8
}

/// The per-axis arrival box test: within tolerance on latitude and on
/// longitude independently. Deliberately not a geodesic radius.
pub open spec fn close_enough_spec(a: Location, b: Location, tol: (i64, i64)) -> bool {
    &&& -tol.0 < a.lat - b.lat < tol.0
    &&& -tol.1 < a.lon - b.lon < tol.1
}

/// A position fix is trusted only when it lies on the globe; a wild value
/// from the receiver is treated as no fix at all.
pub open spec fn position_fix_spec(p: Option<Location>) -> Option<Location> {
    match p {
        Some(loc) => if loc.valid() {
            Some(loc)
        } else {
            None
        },
        None => None,
    }
}

/// What one tick does to the state, and whether it arrived: the exact
/// semantics of [`AVC::tick_decide`].
///
/// The range readings and the sought waypoint are always recorded. If an
/// obstacle rule fires, its behaviour and command are adopted, the stored
/// turn error is cleared, and waypoint-seeking is skipped, leaving the
/// position and heading fields as they were. Otherwise: no position fix
/// waits for one at a safe stop; a fix inside the arrival box accepts the
/// waypoint; no heading fix waits at a safe stop; and with both fixes the
/// tick navigates, steering by the signed turn error from heading to
/// bearing, slowing the inner wheel.
pub open spec fn tick_spec(
    s: Settings,
    st: State,
    wp_num: usize,
    wp: Location,
    f: SensorFrame,
) -> (State, Step) {
    let st1 = State {
        distance_front: f.front,
        distance_front_left: f.front_left,
        distance_front_right: f.front_right,
        next_waypoint: Some((wp_num, wp)),
        ..st
    };
    match avoid_decision_spec(
        f.front,
        f.front_left,
        f.front_right,
        s.obstacle_avoidance_distance,
        st.action,
        st.turn,
    ) {
        Some(a) => (
            State {
                action: a,
                turn: None,
                speed: avoidance_command_spec(a, s.max_speed),
                ..st1
            },
            Step::Continue,
        ),
        None => match position_fix_spec(f.position) {
            None => (
                State {
                    loc: None,
                    action: Action::WaitingForGps,
                    speed: (Motion::Speed(0), Motion::Speed(0)),
                    ..st1
                },
                Step::Continue,
            ),
            Some(p) => if close_enough_spec(p, wp, s.waypoint_accuracy) {
                (
                    State {
                        loc: Some(p),
                        action: Action::ReachedWaypoint { waypoint: wp_num },
                        ..st1
                    },
                    Step::Arrived,
                )
            } else {
                match f.heading {
                    None => (
                        State {
                            loc: Some(p),
                            bearing: None,
                            action: Action::WaitingForCompass,
                            speed: (Motion::Speed(0), Motion::Speed(0)),
                            ..st1
                        },
                        Step::Continue,
                    ),
                    Some(h) => {
                        let hb = norm_compass_spec(h as int);
                        let wb = norm_compass_spec(f.bearing_to_target as int);
                        let turn = norm_signed_spec(wb - hb);
                        let inner = motor_speed_spec(
                            s.max_speed,
                            s.differential_drive_coefficient,
                            if turn < 0 {
                                -turn
                            } else {
                                turn
                            },
                        ) as i8;
                        let speed = if turn < 0 {
                            (Motion::Speed(inner), Motion::Speed(s.max_speed))
                        } else {
                            (Motion::Speed(s.max_speed), Motion::Speed(inner))
                        };
                        (
                            State {
                                loc: Some(p),
                                bearing: Some(hb as i64),
                                waypoint_bearing: Some(wb as i64),
                                turn: Some(turn as i64),
                                action: Action::Navigating { waypoint: wp_num },
                                speed: speed,
                                ..st1
                            },
                            Step::Continue,
                        )
                    },
                }
            },
        },
    }
}

/// With a position fix short of the waypoint, a heading fix, a clear path,
/// and no turn error, one tick commands both wheels at full speed.
pub proof fn lemma_zero_turn_drives_straight(
    s: Settings,
    st: State,
    wp_num: usize,
    wp: Location,
    f: SensorFrame,
)
    requires
        avoid_decision_spec(
            f.front,
            f.front_left,
            f.front_right,
            s.obstacle_avoidance_distance,
            st.action,
            st.turn,
        ) is None,
        position_fix_spec(f.position) matches Some(p) && !close_enough_spec(
            p,
            wp,
            s.waypoint_accuracy,
        ),
        f.heading is Some,
        norm_signed_spec(
            norm_compass_spec(f.bearing_to_target as int) - norm_compass_spec(
                f.heading->Some_0 as int,
            ),
        ) == 0,
    ensures
        tick_spec(s, st, wp_num, wp, f).0.speed == (
            Motion::Speed(s.max_speed),
            Motion::Speed(s.max_speed),
        ),
{
    lemma_zero_turn_full_speed(s.max_speed, s.differential_drive_coefficient);
}

/// With the same fixes and clear path, a turn error at or beyond full lock
/// (its magnitude times the gain reaching a half turn) commands the inner
/// wheel exactly zero while the outer wheel runs at full speed.
pub proof fn lemma_full_lock_stops_inner_wheel(
    s: Settings,
    st: State,
    wp_num: usize,
    wp: Location,
    f: SensorFrame,
)
    requires
        avoid_decision_spec(
            f.front,
            f.front_left,
            f.front_right,
            s.obstacle_avoidance_distance,
            st.action,
            st.turn,
        ) is None,
        position_fix_spec(f.position) matches Some(p) && !close_enough_spec(
            p,
            wp,
            s.waypoint_accuracy,
        ),
        f.heading is Some,
        ({
            let turn = norm_signed_spec(
                norm_compass_spec(f.bearing_to_target as int) - norm_compass_spec(
                    f.heading->Some_0 as int,
                ),
            );
            (if turn < 0 {
                -turn
            } else {
                turn
            }) * s.differential_drive_coefficient >= 180_000_000
        }),
    ensures
        ({
            let turn = norm_signed_spec(
                norm_compass_spec(f.bearing_to_target as int) - norm_compass_spec(
                    f.heading->Some_0 as int,
                ),
            );
            tick_spec(s, st, wp_num, wp, f).0.speed == if turn < 0 {
                (Motion::Speed(0i8), Motion::Speed(s.max_speed))
            } else {
                (Motion::Speed(s.max_speed), Motion::Speed(0i8))
            }
        }),
{
    let turn = norm_signed_spec(
        norm_compass_spec(f.bearing_to_target as int) - norm_compass_spec(
            f.heading->Some_0 as int,
        ),
    );
    let angle = if turn < 0 {
        -turn
    } else {
        turn
    };
    lemma_full_lock_turn(s.max_speed, s.differential_drive_coefficient, angle);
}

/// How a whole course run ends.
#[derive(Debug, Clone, Copy, PartialEq, Eq, Structural)]
pub struct RunOutcome {
    /// The final published behaviour: always `Finished` or `Aborted`.
    pub terminal: Action,
    /// How many waypoints of the course were reached, in order, before the
    /// run ended.
    pub waypoints_completed: usize,
}

/// The course runner: owns the settings and the shared snapshot, and drives
/// the control loop over the course.
pub struct AVC {
    pub conf: Config,
    pub settings: Settings,
    pub shared_state: SharedState,
}

impl AVC {
    /// Set up a runner with a fresh all-unknown snapshot.
    pub fn new(conf: Config, settings: Settings) -> (r: AVC)
        ensures
            r.settings == settings,
            r.conf == conf,
    {
        AVC { conf, settings, shared_state: SharedState::new() }
    }

    /// The shared snapshot slot, for observers and external abort writers.
    pub fn shared(&self) -> (r: &SharedState)
        ensures
            r == &self.shared_state,
    {
        &self.shared_state
    }

    /// The arrival test for this run's tolerance: a per-axis box, not a
    /// radius.
    pub fn close_enough(&self, a: &Location, b: &Location) -> (r: bool)
        requires
            self.settings.wf(),
            a.valid(),
            b.valid(),
        ensures
            r == close_enough_spec(*a, *b, self.settings.waypoint_accuracy),
    {
        let dlat = a.lat - b.lat;
        let dlon = a.lon - b.lon;
        -self.settings.waypoint_accuracy.0 < dlat && dlat < self.settings.waypoint_accuracy.0
            && -self.settings.waypoint_accuracy.1 < dlon && dlon
            < self.settings.waypoint_accuracy.1
    }

    /// Evaluate the obstacle decision table against the readings stored in
    /// `state`.
    pub fn check_obstacles(&self, state: &State) -> (r: Option<Action>)
        ensures
            r == avoid_decision_spec(
                state.distance_front,
                state.distance_front_left,
                state.distance_front_right,
                self.settings.obstacle_avoidance_distance,
                state.action,
                state.turn,
            ),
    {
        let min_d = self.settings.obstacle_avoidance_distance;
        let ff = state.distance_front;
        let left = state.distance_front_left;
        let right = state.distance_front_right;
        if ff < min_d {
            if left < min_d && right < min_d {
                Some(Action::EmergencyStop)
            } else if matches!(
                state.action,
                Action::AvoidingObstacleToLeft | Action::AvoidingObstacleToRight,
            ) {
                Some(state.action)
            } else if left < min_d {
                Some(Action::AvoidingObstacleToLeft)
            } else if right < min_d {
                Some(Action::AvoidingObstacleToRight)
            } else {
                match state.turn {
                    Some(t) => if t > 0 {
                        Some(Action::AvoidingObstacleToRight)
                    } else {
                        Some(Action::AvoidingObstacleToLeft)
                    },
                    None => Some(Action::AvoidingObstacleToLeft),
                }
            }
        } else if left < min_d {
            Some(Action::AvoidingObstacleToLeft)
        } else if right < min_d {
            Some(Action::AvoidingObstacleToRight)
        } else {
            None
        }
    }

    /// Run one tick's decision against a frame of sensor samples, updating
    /// the working state exactly as [`tick_spec`] says.
    pub fn tick_decide(&self, state: &mut State, wp_num: usize, wp: &Location, frame: &SensorFrame)
        -> (r: Step)
        requires
            self.settings.wf(),
            wp.valid(),
        ensures
            (*final(state), r) == tick_spec(self.settings, *old(state), wp_num, *wp, *frame),
    {
        state.distance_front = frame.front;
        state.distance_front_left = frame.front_left;
        state.distance_front_right = frame.front_right;
        state.next_waypoint = Some((wp_num, *wp));
        match self.check_obstacles(state) {
            Some(a) => {
                state.action = a;
                state.turn = None;
                state.speed = avoidance_command(a, self.settings.max_speed);
                Step::Continue
            },
            None => {
                let pos_fix: Option<Location> = match frame.position {
                    Some(p) => if p.is_valid() {
                        Some(p)
                    } else {
                        None
                    },
                    None => None,
                };
                match pos_fix {
                    None => {
                        state.loc = None;
                        state.action = Action::WaitingForGps;
                        state.speed = (Motion::Speed(0), Motion::Speed(0));
                        Step::Continue
                    },
                    Some(p) => {
                        state.loc = Some(p);
                        if self.close_enough(&p, wp) {
                            state.action = Action::ReachedWaypoint { waypoint: wp_num };
                            Step::Arrived
                        } else {
                            match frame.heading {
                                None => {
                                    state.bearing = None;
                                    state.action = Action::WaitingForCompass;
                                    state.speed = (Motion::Speed(0), Motion::Speed(0));
                                    Step::Continue
                                },
                                Some(h) => {
                                    let hb = normalize_compass(h);
                                    let wb = normalize_compass(frame.bearing_to_target);
                                    let turn = calc_bearing_diff(hb, wb);
                                    let mut left_speed = self.settings.max_speed;
                                    let mut right_speed = self.settings.max_speed;
                                    if turn < 0 {
                                        left_speed = calculate_motor_speed(&self.settings, -turn);
                                    } else {
                                        right_speed = calculate_motor_speed(&self.settings, turn);
                                    }
                                    state.bearing = Some(hb);
                                    state.waypoint_bearing = Some(wb);
                                    state.turn = Some(turn);
                                    state.action = Action::Navigating { waypoint: wp_num };
                                    state.speed = (
                                        Motion::Speed(left_speed),
                                        Motion::Speed(right_speed),
                                    );
                                    Step::Continue
                                },
                            }
                        }
                    },
                }
            },
        }
    }

    /// Drive toward one waypoint until it is reached or the run is aborted.
    ///
    /// Each tick: the kill switch and the shared snapshot's externally set
    /// abort are checked first, and end the loop before any sensor or
    /// actuator work; the working state is published; the tick decision runs
    /// on fresh sensor samples; its motion command is issued, and an
    /// emergency stop holds its brake for a dwell before re-evaluating.
    ///
    /// The tick budget is astronomically large (centuries of ticks) but
    /// finite, so the loop provably terminates; exhausting it counts as an
    /// abort.
    pub fn navigate_to_waypoint<
        G: PositionSource,
        C: HeadingSource,
        R: RangeSource,
        M: Actuator,
        B: BearingSource,
        K: KillSwitch,
        P: Pacer,
    >(
        &self,
        wp_num: usize,
        wp: &Location,
        io: &mut Io<G, C, R, M, B>,
        state: &mut State,
        switch: &mut K,
        pacer: &mut P,
    ) -> (r: Outcome)
        requires
            self.settings.wf(),
            wp.valid(),
        ensures
            r == Outcome::Reached ==> {
                &&& final(state).action == (Action::ReachedWaypoint { waypoint: wp_num })
                &&& final(state).next_waypoint == Some((wp_num, *wp))
                &&& final(state).loc matches Some(p) && close_enough_spec(
                    p,
                    *wp,
                    self.settings.waypoint_accuracy,
                )
            },
    {
        let mut fuel: u64 = u64::MAX;
        while fuel > 0
            invariant
                self.settings.wf(),
                wp.valid(),
            decreases fuel,
        {
            fuel = fuel - 1;
            match switch.try_get() {
                Some(false) => {
                    return Outcome::Aborted;
                },
                _ => {},
            }
            if !self.shared_state.publish_unless_aborted(state) {
                return Outcome::Aborted;
            }
            pacer.pause(TICK_MILLIS);
            let position = io.gps.try_get();
            let heading = io.imu.try_get();
            let front = io.ranges.min_distance(Zone::Front);
            let front_left = io.ranges.min_distance(Zone::FrontLeft);
            let front_right = io.ranges.min_distance(Zone::FrontRight);
            let bearing_to_target: i64 = match &position {
                Some(p) => io.bearings.bearing_to(p, wp),
                None => 0,
            };
            let frame = SensorFrame {
                position,
                heading,
                front,
                front_left,
                front_right,
                bearing_to_target,
            };
            let step = self.tick_decide(state, wp_num, wp, &frame);
            match step {
                Step::Arrived => {
                    return Outcome::Reached;
                },
                Step::Continue => {
                    io.motors.apply(state.speed.0, state.speed.1);
                    if state.action == Action::EmergencyStop {
                        pacer.pause(BRAKE_DWELL_MILLIS);
                    }
                },
            }
        }
        Outcome::Aborted
    }

    /// Run the whole course: wait for the kill switch to first report "run",
    /// seek each waypoint in order, stop at the first abort, publish the
    /// terminal behaviour, and brake both wheels as the unconditional final
    /// actuator action. The embedding program then waits for its observers
    /// to see the terminal behaviour before tearing the run down.
    pub fn run<
        G: PositionSource,
        C: HeadingSource,
        R: RangeSource,
        M: Actuator,
        B: BearingSource,
        K: KillSwitch,
        P: Pacer,
    >(&self, io: &mut Io<G, C, R, M, B>, switch: &mut K, pacer: &mut P) -> (r: RunOutcome)
        requires
            self.settings.wf(),
        ensures
            r.terminal == Action::Finished || r.terminal == Action::Aborted,
            r.waypoints_completed <= self.settings.waypoints@.len(),
            r.terminal == Action::Finished ==> r.waypoints_completed
                == self.settings.waypoints@.len(),
            self.settings.waypoints@.len() > 0 ==> ((r.terminal == Action::Finished) <==> (
            r.waypoints_completed == self.settings.waypoints@.len())),
    {
        let mut state = State::new();

        // Hold at the start: publish the waiting state until the switch first
        // reports "run"; an external abort while waiting ends the run.
        let mut started = false;
        let mut wait_fuel: u64 = u64::MAX;
        while wait_fuel > 0 && !started
            invariant
                true,
            decreases wait_fuel,
        {
            wait_fuel = wait_fuel - 1;
            match switch.try_get() {
                Some(true) => {
                    started = true;
                },
                _ => {
                    if !self.shared_state.publish_unless_aborted(&state) {
                        io.motors.apply(Motion::Brake(127), Motion::Brake(127));
                        return RunOutcome { terminal: Action::Aborted, waypoints_completed: 0 };
                    }
                    pacer.pause(TICK_MILLIS);
                },
            }
        }
        if !started {
            self.shared_state.set_action(Action::Aborted);
            io.motors.apply(Motion::Brake(127), Motion::Brake(127));
            return RunOutcome { terminal: Action::Aborted, waypoints_completed: 0 };
        }

        let n = self.settings.waypoints.len();
        let mut completed: usize = 0;
        let mut aborted = false;
        let mut i: usize = 0;
        while i < n
            invariant_except_break
                self.settings.wf(),
                n == self.settings.waypoints@.len(),
                i <= n,
                completed == i,
                !aborted,
            ensures
                completed <= n,
                !aborted ==> completed == n,
                aborted ==> completed < n,
            decreases n - i,
        {
            let wp = self.settings.waypoints[i];
            assert(wp.valid());
            let outcome = self.navigate_to_waypoint(i + 1, &wp, io, &mut state, switch, pacer);
            if matches!(outcome, Outcome::Aborted) {
                aborted = true;
                break;
            }
            completed = completed + 1;
            i = i + 1;
        }

        let terminal = if aborted {
            Action::Aborted
        } else {
            Action::Finished
        };
        self.shared_state.set_action(terminal);
        io.motors.apply(Motion::Brake(127), Motion::Brake(127));
        RunOutcome { terminal, waypoints_completed: completed }
    }
}

} // verus!
