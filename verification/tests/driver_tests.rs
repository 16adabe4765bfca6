use gforce::compass::Compass;
use gforce::gps::GPS;
use gforce::lidar::{min_in_window, Lidar};
use gforce::octasonic::update_and_average;
use gforce::qik::{
    get_cmd_byte, get_config_param_byte, speed_command_bytes, Command, ConfigParam, Motor,
};
use gforce::geo::Location;
use gforce::state::State;
use gforce::switch::Switch;
use gforce::video::{Color, Video};

#[test]
fn command_bytes_match_the_wire_protocol() {
    assert_eq!(get_cmd_byte(Command::GET_FIRMWARE_VERSION), 0x81);
    assert_eq!(get_cmd_byte(Command::GET_ERROR_BYTE), 0x82);
    assert_eq!(get_cmd_byte(Command::GET_CONFIGURATION_PARAMETER), 0x83);
    assert_eq!(get_cmd_byte(Command::SET_CONFIGURATION_PARAMETER), 0x84);
    assert_eq!(get_cmd_byte(Command::MOTOR_M0_FORWARD_8_BIT), 0x89);
    assert_eq!(get_cmd_byte(Command::MOTOR_M0_REVERSE_8_BIT), 0x8B);
    assert_eq!(get_cmd_byte(Command::MOTOR_M1_FORWARD_8_BIT), 0x8D);
    assert_eq!(get_cmd_byte(Command::MOTOR_M1_REVERSE_8_BIT), 0x8F);
    assert_eq!(get_cmd_byte(Command::MOTOR_M0_BRAKE), 0x86);
    assert_eq!(get_cmd_byte(Command::MOTOR_M1_BRAKE), 0x87);
    assert_eq!(get_cmd_byte(Command::GET_MOTOR_M0_SPEED), 0x92);
    assert_eq!(get_cmd_byte(Command::GET_MOTOR_M1_SPEED), 0x93);
}

#[test]
fn config_param_bytes_are_sequential() {
    assert_eq!(get_config_param_byte(ConfigParam::DEVICE_ID), 0);
    assert_eq!(get_config_param_byte(ConfigParam::PWM_PARAMETER), 1);
    assert_eq!(get_config_param_byte(ConfigParam::SERIAL_TIMEOUT), 3);
    assert_eq!(get_config_param_byte(ConfigParam::MOTOR_M0_ACCELERATION), 4);
    assert_eq!(get_config_param_byte(ConfigParam::MOTOR_M1_CURRENT_LIMIT_RESPONSE), 11);
}

#[test]
fn speed_commands_encode_direction_and_magnitude() {
    assert_eq!(speed_command_bytes(Motor::M0, 100), (0x89, 100));
    assert_eq!(speed_command_bytes(Motor::M1, 0), (0x8D, 0));
    assert_eq!(speed_command_bytes(Motor::M0, -100), (0x8B, 100));
    assert_eq!(speed_command_bytes(Motor::M1, -1), (0x8F, 1));
    // The full reverse value clamps to the controller's 127 maximum.
    assert_eq!(speed_command_bytes(Motor::M0, -128), (0x8B, 127));
}

#[test]
fn averaging_slides_the_window() {
    let mut h = vec![200u8, 200, 200, 200];
    // A fresh reading of 0 replaces the oldest 200.
    assert_eq!(update_and_average(&mut h, 0), 150);
    assert_eq!(h, vec![200, 200, 200, 0]);
    assert_eq!(update_and_average(&mut h, 0), 100);
    assert_eq!(update_and_average(&mut h, 0), 50);
    assert_eq!(update_and_average(&mut h, 0), 0);
    assert_eq!(h, vec![0, 0, 0, 0]);
    // Truncated mean: (0 + 0 + 0 + 1) / 4 = 0.
    assert_eq!(update_and_average(&mut h, 1), 0);
}

#[test]
fn window_minimum_handles_plain_and_wrapped_ranges() {
    let mut pts = [1000u32; 360];
    pts[0] = 40;
    pts[44] = 30;
    pts[90] = 20;
    pts[315] = 50;
    pts[359] = 10;
    // Plain range.
    assert_eq!(min_in_window(&pts, 45, 135), 20);
    // The end bound is exclusive: degree 90 just outside.
    assert_eq!(min_in_window(&pts, 45, 90), 1000);
    // Wrapped range across north: sees 315, 359, 0 and 44.
    assert_eq!(min_in_window(&pts, 315, 45), 10);
    // Wrapped with end 0: sees 315..359 only.
    pts[359] = 1000;
    assert_eq!(min_in_window(&pts, 315, 0), 50);
}

#[test]
fn lidar_cell_round_trip() {
    let lidar = Lidar::new();
    // A fresh sweep holder reads zero everywhere.
    assert_eq!(lidar.min(315, 45), 0);
    let mut scan = [1000u32; 360];
    scan[300] = 33;
    lidar.store(scan);
    assert_eq!(lidar.scan()[300], 33);
    assert_eq!(lidar.min(225, 315), 33);
    assert_eq!(lidar.min(0, 90), 1000);
}

#[test]
fn sensor_cells_hold_the_latest_value() {
    let switch = Switch::new(17);
    assert_eq!(switch.get(), None);
    switch.store(true);
    assert_eq!(switch.get(), Some(true));
    switch.store(false);
    assert_eq!(switch.get(), Some(false));

    let gps = GPS::new("/dev/gps");
    assert_eq!(gps.get(), None);
    gps.store(Location::new(40_090_696, -105_185_844));
    assert_eq!(gps.get(), Some(Location::new(40_090_696, -105_185_844)));

    let compass = Compass::new("/dev/i2c-1");
    assert_eq!(compass.get(), None);
    compass.store(271_500_000);
    assert_eq!(compass.get(), Some(271_500_000));
}

#[test]
fn octasonic_reports_a_bus_error_without_a_device() {
    // There is no SPI device node on a build machine, so opening it fails
    // and the error is surfaced instead of a panic.
    assert!(gforce::octasonic::Octasonic::new(5, 4).is_err());
}

#[test]
fn fresh_state_knows_nothing() {
    let s = State::new();
    assert!(s.loc.is_none());
    assert!(s.bearing.is_none());
    assert!(s.next_waypoint.is_none());
    assert!(s.waypoint_bearing.is_none());
    assert!(s.turn.is_none());
    assert_eq!(s.distance_front, 0);
}

#[test]
fn video_plain_data() {
    let c = Color::new(200, 200, 200, 24);
    assert_eq!((c.r, c.g, c.b, c.a), (200, 200, 200, 24));
    let v = Video::new(0);
    assert_eq!(v.camera, 0);
}
