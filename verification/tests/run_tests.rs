use gforce::avc::{Io, Outcome, Settings, AVC};
use gforce::geo::Location;
use gforce::interfaces::{
    Actuator, BearingSource, HeadingSource, KillSwitch, Pacer, PositionSource, RangeSource, Zone,
};
use gforce::motors::Motion;
use gforce::state::{Action, State};
use gforce::Config;

/// Replays a scripted list of fixes, repeating the last one forever.
struct ScriptedGps {
    fixes: Vec<Option<Location>>,
    at: usize,
    reads: usize,
}

impl ScriptedGps {
    fn new(fixes: Vec<Option<Location>>) -> ScriptedGps {
        ScriptedGps { fixes, at: 0, reads: 0 }
    }
}

impl PositionSource for ScriptedGps {
    fn try_get(&mut self) -> Option<Location> {
        self.reads += 1;
        let i = if self.at < self.fixes.len() { self.at } else { self.fixes.len() - 1 };
        self.at += 1;
        self.fixes[i]
    }
}

/// Always reports the same heading.
struct FixedCompass {
    heading: Option<i64>,
}

impl HeadingSource for FixedCompass {
    fn try_get(&mut self) -> Option<i64> {
        self.heading
    }
}

/// Reports one constant distance per zone.
struct FixedRanges {
    front: u32,
    left: u32,
    right: u32,
}

impl FixedRanges {
    fn all_clear() -> FixedRanges {
        FixedRanges { front: 200, left: 200, right: 200 }
    }
}

impl RangeSource for FixedRanges {
    fn min_distance(&mut self, zone: Zone) -> u32 {
        match zone {
            Zone::Front => self.front,
            Zone::FrontLeft => self.left,
            Zone::FrontRight => self.right,
        }
    }
}

/// Records every command it is given.
struct LoggingMotors {
    log: Vec<(Motion, Motion)>,
}

impl Actuator for LoggingMotors {
    fn apply(&mut self, left: Motion, right: Motion) {
        self.log.push((left, right));
    }
}

/// Replays a scripted list of switch states, repeating the last one forever.
struct ScriptedSwitch {
    states: Vec<Option<bool>>,
    at: usize,
}

impl KillSwitch for ScriptedSwitch {
    fn try_get(&mut self) -> Option<bool> {
        let i = if self.at < self.states.len() { self.at } else { self.states.len() - 1 };
        self.at += 1;
        self.states[i]
    }
}

/// Always points straight north.
struct NorthBearings {}

impl BearingSource for NorthBearings {
    fn bearing_to(&mut self, _from: &Location, _to: &Location) -> i64 {
        0
    }
}

/// Counts pauses instead of sleeping.
struct CountingPacer {
    pauses: usize,
}

impl Pacer for CountingPacer {
    fn pause(&mut self, _millis: u64) {
        self.pauses += 1;
    }
}

fn course() -> Vec<Location> {
    vec![
        Location::new(40_090_696, -105_185_844),
        Location::new(40_090_831, -105_185_734),
        Location::new(40_091_006, -105_185_515),
    ]
}

fn settings_for(waypoints: Vec<Location>) -> Settings {
    Settings {
        max_speed: 127,
        differential_drive_coefficient: 2,
        waypoint_accuracy: (25, 25),
        waypoints,
        obstacle_avoidance_distance: 50,
        usonic_sample_count: 4,
    }
}

fn conf() -> Config {
    Config { gps_device: "/dev/gps", imu_device: "/dev/i2c-1", qik_device: "/dev/qik" }
}

fn is_brake_pair(cmd: &(Motion, Motion)) -> bool {
    matches!(cmd, (Motion::Brake(_), Motion::Brake(_)))
}

/// A three-waypoint course with fixes always available and obstacle sensors
/// that never trigger: every waypoint is reached in order, the run finishes,
/// and the wheels are braked exactly once, at the very end.
#[test]
fn full_course_reaches_every_waypoint_and_finishes() {
    let wps = course();
    // The receiver wanders near each waypoint in turn, landing on it after
    // one off-target fix.
    let off = Location::new(40_000_000, -105_000_000);
    let fixes = vec![
        Some(off),
        Some(wps[0]),
        Some(off),
        Some(wps[1]),
        Some(off),
        Some(wps[2]),
    ];
    let avc = AVC::new(conf(), settings_for(wps.clone()));
    let mut io = Io {
        gps: ScriptedGps::new(fixes),
        imu: FixedCompass { heading: Some(90_000_000) },
        ranges: FixedRanges::all_clear(),
        motors: LoggingMotors { log: vec![] },
        bearings: NorthBearings {},
    };
    let mut switch = ScriptedSwitch { states: vec![Some(true)], at: 0 };
    let mut pacer = CountingPacer { pauses: 0 };

    let outcome = avc.run(&mut io, &mut switch, &mut pacer);

    assert_eq!(outcome.terminal, Action::Finished);
    assert_eq!(outcome.waypoints_completed, 3);
    assert_eq!(avc.shared().read().action, Action::Finished);
    // The brake is commanded exactly once, as the final actuator action.
    let brakes: Vec<usize> =
        io.motors.log.iter().enumerate().filter(|(_, c)| is_brake_pair(c)).map(|(i, _)| i).collect();
    assert_eq!(brakes.len(), 1);
    assert_eq!(brakes[0], io.motors.log.len() - 1);
    // Everything before it was an ordinary drive command.
    for cmd in &io.motors.log[..io.motors.log.len() - 1] {
        assert!(matches!(cmd, (Motion::Speed(_), Motion::Speed(_))));
    }
}

/// The same course, but the switch reports "stop" right after the start
/// hold is released: the very next tick aborts, and no waypoint is attempted.
#[test]
fn kill_switch_aborts_before_the_first_waypoint() {
    let wps = course();
    let fixes = vec![Some(Location::new(40_000_000, -105_000_000))];
    let avc = AVC::new(conf(), settings_for(wps));
    let mut io = Io {
        gps: ScriptedGps::new(fixes),
        imu: FixedCompass { heading: Some(0) },
        ranges: FixedRanges::all_clear(),
        motors: LoggingMotors { log: vec![] },
        bearings: NorthBearings {},
    };
    let mut switch = ScriptedSwitch { states: vec![Some(true), Some(false)], at: 0 };
    let mut pacer = CountingPacer { pauses: 0 };

    let outcome = avc.run(&mut io, &mut switch, &mut pacer);

    assert_eq!(outcome.terminal, Action::Aborted);
    assert_eq!(outcome.waypoints_completed, 0);
    assert_eq!(avc.shared().read().action, Action::Aborted);
    // No drive command was ever issued: only the final brake.
    assert_eq!(io.motors.log.len(), 1);
    assert!(is_brake_pair(&io.motors.log[0]));
    // The stop was seen on the first tick: no position was ever sampled.
    assert_eq!(io.gps.reads, 0);
}

/// An abort written into the shared snapshot stops the control loop on its
/// next tick, before any sensor or actuator work.
#[test]
fn external_abort_is_seen_within_one_tick() {
    let wps = course();
    let avc = AVC::new(conf(), settings_for(wps.clone()));
    avc.shared().set_action(Action::Aborted);
    let mut io = Io {
        gps: ScriptedGps::new(vec![Some(wps[0])]),
        imu: FixedCompass { heading: Some(0) },
        ranges: FixedRanges::all_clear(),
        motors: LoggingMotors { log: vec![] },
        bearings: NorthBearings {},
    };
    let mut switch = ScriptedSwitch { states: vec![Some(true)], at: 0 };
    let mut pacer = CountingPacer { pauses: 0 };
    let mut state = State::new();

    let outcome = avc.navigate_to_waypoint(
        1,
        &wps[0].clone(),
        &mut io,
        &mut state,
        &mut switch,
        &mut pacer,
    );

    assert!(matches!(outcome, Outcome::Aborted));
    // The abort was discovered at the publish step: no sensor was read and
    // no actuator command was issued afterwards.
    assert_eq!(io.gps.reads, 0);
    assert!(io.motors.log.is_empty());
}

/// An obstacle dead ahead swerves the vehicle instead of driving through;
/// the avoidance direction then holds while the front stays blocked.
#[test]
fn obstacle_overrides_waypoint_seeking() {
    let wps = vec![Location::new(40_090_696, -105_185_844)];
    let avc = AVC::new(conf(), settings_for(wps.clone()));
    let off = Location::new(40_000_000, -105_000_000);
    let mut io = Io {
        gps: ScriptedGps::new(vec![Some(off)]),
        imu: FixedCompass { heading: Some(0) },
        // Front blocked, both sides clear, forever: the loop keeps avoiding,
        // so run it for a bounded number of ticks via a stopping switch.
        ranges: FixedRanges { front: 10, left: 200, right: 200 },
        motors: LoggingMotors { log: vec![] },
        bearings: NorthBearings {},
    };
    let mut switch = ScriptedSwitch {
        states: vec![Some(true), Some(true), Some(true), Some(true), Some(false)],
        at: 0,
    };
    let mut pacer = CountingPacer { pauses: 0 };
    let mut state = State::new();

    let outcome = avc.navigate_to_waypoint(
        1,
        &wps[0].clone(),
        &mut io,
        &mut state,
        &mut switch,
        &mut pacer,
    );

    assert!(matches!(outcome, Outcome::Aborted));
    assert!(!io.motors.log.is_empty());
    // Every command issued was the default avoid-left hard turn: left wheel
    // full ahead, right wheel stopped.
    for cmd in &io.motors.log {
        assert_eq!(*cmd, (Motion::Speed(127), Motion::Speed(0)));
    }
    assert_eq!(state.action, Action::AvoidingObstacleToLeft);
    assert_eq!(state.turn, None);
}

/// Steering wiring: heading 90 with the waypoint due north gives a turn
/// error of -90 degrees, which at gain 2 is a full-lock left turn — the left
/// wheel is slowed to zero while the right runs at full speed.
#[test]
fn full_lock_turn_stops_the_inner_wheel() {
    let wps = vec![Location::new(40_090_696, -105_185_844)];
    let avc = AVC::new(conf(), settings_for(wps.clone()));
    let off = Location::new(40_000_000, -105_000_000);
    let mut io = Io {
        gps: ScriptedGps::new(vec![Some(off)]),
        imu: FixedCompass { heading: Some(90_000_000) },
        ranges: FixedRanges::all_clear(),
        motors: LoggingMotors { log: vec![] },
        bearings: NorthBearings {},
    };
    let mut switch = ScriptedSwitch { states: vec![Some(true), Some(true), Some(false)], at: 0 };
    let mut pacer = CountingPacer { pauses: 0 };
    let mut state = State::new();

    let outcome = avc.navigate_to_waypoint(
        1,
        &wps[0].clone(),
        &mut io,
        &mut state,
        &mut switch,
        &mut pacer,
    );

    assert!(matches!(outcome, Outcome::Aborted));
    assert!(!io.motors.log.is_empty());
    assert_eq!(io.motors.log[0], (Motion::Speed(0), Motion::Speed(127)));
    assert_eq!(state.turn, Some(-90_000_000));
    assert_eq!(state.bearing, Some(90_000_000));
    assert_eq!(state.waypoint_bearing, Some(0));
    assert_eq!(state.action, Action::Navigating { waypoint: 1 });
}

/// An empty course has nothing to reach: the run finishes at once, braking
/// as its one actuator action.
#[test]
fn empty_course_finishes_immediately() {
    let avc = AVC::new(conf(), settings_for(vec![]));
    let mut io = Io {
        gps: ScriptedGps::new(vec![None]),
        imu: FixedCompass { heading: None },
        ranges: FixedRanges::all_clear(),
        motors: LoggingMotors { log: vec![] },
        bearings: NorthBearings {},
    };
    let mut switch = ScriptedSwitch { states: vec![Some(true)], at: 0 };
    let mut pacer = CountingPacer { pauses: 0 };

    let outcome = avc.run(&mut io, &mut switch, &mut pacer);

    assert_eq!(outcome.terminal, Action::Finished);
    assert_eq!(outcome.waypoints_completed, 0);
    assert_eq!(io.motors.log.len(), 1);
    assert!(is_brake_pair(&io.motors.log[0]));
}

/// The shared snapshot is a last-value broadcast cell guarded against
/// overwriting an external abort.
#[test]
fn shared_snapshot_publish_and_abort_guard() {
    let avc = AVC::new(conf(), settings_for(course()));
    let shared = avc.shared();
    assert_eq!(shared.read().action, Action::WaitingForStartCommand);

    let mut s = State::new();
    s.action = Action::Navigating { waypoint: 2 };
    s.distance_front = 77;
    assert!(shared.publish_unless_aborted(&s));
    let seen = shared.read();
    assert_eq!(seen.action, Action::Navigating { waypoint: 2 });
    assert_eq!(seen.distance_front, 77);

    // Once something writes Aborted, a publish refuses and leaves it alone.
    shared.set_action(Action::Aborted);
    assert!(!shared.publish_unless_aborted(&s));
    assert_eq!(shared.read().action, Action::Aborted);
}
