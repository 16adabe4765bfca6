use gforce::avc::{calculate_motor_speed, Settings, AVC};
use gforce::geo::Location;
use gforce::state::{Action, State};
use gforce::Config;

fn test_settings() -> Settings {
    Settings {
        max_speed: 127,
        differential_drive_coefficient: 2,
        waypoint_accuracy: (25, 25),
        waypoints: vec![],
        obstacle_avoidance_distance: 50,
        usonic_sample_count: 4,
    }
}

fn test_avc() -> AVC {
    let conf = Config { gps_device: "/dev/gps", imu_device: "/dev/i2c-1", qik_device: "/dev/qik" };
    AVC::new(conf, test_settings())
}

fn state_with(front: u32, left: u32, right: u32, action: Action, turn: Option<i64>) -> State {
    let mut s = State::new();
    s.distance_front = front;
    s.distance_front_left = left;
    s.distance_front_right = right;
    s.action = action;
    s.turn = turn;
    s
}

#[test]
fn decision_table_is_total_and_emergency_only_when_all_blocked() {
    let avc = test_avc();
    let b = 10u32; // blocked: below the 50 threshold
    let c = 200u32; // clear
    for &front in &[b, c] {
        for &left in &[b, c] {
            for &right in &[b, c] {
                let s = state_with(front, left, right, Action::WaitingForGps, None);
                let d = avc.check_obstacles(&s);
                // Total: always exactly one decision, possibly "no action".
                match d {
                    None => assert!(front == c && left == c && right == c),
                    Some(Action::EmergencyStop) => {
                        assert!(front == b && left == b && right == b)
                    }
                    Some(Action::AvoidingObstacleToLeft)
                    | Some(Action::AvoidingObstacleToRight) => {
                        assert!(front == b || left == b || right == b);
                        assert!(!(front == b && left == b && right == b));
                    }
                    Some(other) => panic!("impossible decision {:?}", other),
                }
            }
        }
    }
}

#[test]
fn decision_table_matches_each_row() {
    let avc = test_avc();
    let b = 10u32;
    let c = 200u32;
    let idle = Action::WaitingForGps;
    // Front and both sides blocked: emergency stop.
    assert_eq!(
        avc.check_obstacles(&state_with(b, b, b, idle, None)),
        Some(Action::EmergencyStop)
    );
    // Front and left blocked, right clear: the obstacle is to the left, so
    // the hard turn goes right.
    assert_eq!(
        avc.check_obstacles(&state_with(b, b, c, idle, None)),
        Some(Action::AvoidingObstacleToLeft)
    );
    // Front and right blocked, left clear: the obstacle is to the right, so
    // the hard turn goes left.
    assert_eq!(
        avc.check_obstacles(&state_with(b, c, b, idle, None)),
        Some(Action::AvoidingObstacleToRight)
    );
    // Front only, planned turn right (+): steer away to the left.
    assert_eq!(
        avc.check_obstacles(&state_with(b, c, c, idle, Some(40_000_000))),
        Some(Action::AvoidingObstacleToRight)
    );
    // Front only, planned turn left (-): steer away to the right.
    assert_eq!(
        avc.check_obstacles(&state_with(b, c, c, idle, Some(-40_000_000))),
        Some(Action::AvoidingObstacleToLeft)
    );
    // Front only, no turn known: the default policy avoids to the left.
    assert_eq!(
        avc.check_obstacles(&state_with(b, c, c, idle, None)),
        Some(Action::AvoidingObstacleToLeft)
    );
    // Left blocked only.
    assert_eq!(
        avc.check_obstacles(&state_with(c, b, c, idle, None)),
        Some(Action::AvoidingObstacleToLeft)
    );
    // Right blocked only.
    assert_eq!(
        avc.check_obstacles(&state_with(c, c, b, idle, None)),
        Some(Action::AvoidingObstacleToRight)
    );
    // All clear: no action.
    assert_eq!(avc.check_obstacles(&state_with(c, c, c, idle, None)), None);
}

#[test]
fn hysteresis_keeps_direction_while_front_blocked() {
    let avc = test_avc();
    let b = 10u32;
    let c = 200u32;
    // Avoiding-left active, front still blocked: the side readings flip
    // back and forth, the decision does not.
    for (left, right) in [(c, c), (b, c), (c, b), (b, c), (c, c)] {
        assert_eq!(
            avc.check_obstacles(&state_with(b, left, right, Action::AvoidingObstacleToLeft, None)),
            Some(Action::AvoidingObstacleToLeft)
        );
        assert_eq!(
            avc.check_obstacles(&state_with(
                b,
                left,
                right,
                Action::AvoidingObstacleToRight,
                None
            )),
            Some(Action::AvoidingObstacleToRight)
        );
    }
    // Front clears: hysteresis ends, a blocked side decides again.
    assert_eq!(
        avc.check_obstacles(&state_with(c, b, c, Action::AvoidingObstacleToRight, None)),
        Some(Action::AvoidingObstacleToLeft)
    );
    // Everything clears: no action.
    assert_eq!(
        avc.check_obstacles(&state_with(c, c, c, Action::AvoidingObstacleToLeft, None)),
        None
    );
}

#[test]
fn arrival_is_a_per_axis_box_test() {
    let avc = test_avc();
    let wp = Location::new(39_861_700, -104_673_100);
    // 0.000010 degrees off on each axis, inside the 0.000025 tolerance.
    let near = Location::new(39_861_710, -104_673_090);
    assert!(avc.close_enough(&near, &wp));
    // 0.000100 degrees off on latitude: outside, however close in longitude.
    let far = Location::new(39_861_800, -104_673_090);
    assert!(!avc.close_enough(&far, &wp));
    // Exactly on the tolerance edge is not accepted: strict inequality.
    let edge = Location::new(39_861_725, -104_673_100);
    assert!(!avc.close_enough(&edge, &wp));
}

#[test]
fn motor_speed_scales_from_full_to_zero() {
    let s = test_settings();
    // No turn error: the inner wheel too runs at full speed.
    assert_eq!(calculate_motor_speed(&s, 0), 127);
    // At or past 90 degrees with gain 2, the inner wheel is exactly zero.
    assert_eq!(calculate_motor_speed(&s, 90_000_000), 0);
    assert_eq!(calculate_motor_speed(&s, 180_000_000), 0);
    // Half way: 45 degrees * gain 2 = 90 of 180, so half speed, truncated.
    assert_eq!(calculate_motor_speed(&s, 45_000_000), 63);
}
