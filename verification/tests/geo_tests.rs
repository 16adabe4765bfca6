use gforce::geo::{calc_bearing_diff, normalize_compass, normalize_signed, Location, DMS};

#[test]
fn normalize_signed_stays_in_half_open_range() {
    // 270 degrees reduces to -90 degrees.
    assert_eq!(normalize_signed(270_000_000), -90_000_000);
    // Exactly -180 degrees maps to +180: the interval is (-180, 180].
    assert_eq!(normalize_signed(-180_000_000), 180_000_000);
    assert_eq!(normalize_signed(180_000_000), 180_000_000);
    assert_eq!(normalize_signed(0), 0);
    assert_eq!(normalize_signed(360_000_000), 0);
    assert_eq!(normalize_signed(-360_000_000), 0);
    assert_eq!(normalize_signed(720_000_000 + 10_000_000), 10_000_000);
    assert_eq!(normalize_signed(-900_000_000), 180_000_000);
}

#[test]
fn normalize_signed_is_idempotent() {
    for x in [
        0i64,
        1,
        -1,
        179_999_999,
        180_000_000,
        -180_000_000,
        359_000_000,
        -359_000_000,
        1_234_567_890,
        -987_654_321,
    ] {
        let once = normalize_signed(x);
        assert_eq!(normalize_signed(once), once);
    }
}

#[test]
fn normalize_compass_wraps_into_full_circle() {
    assert_eq!(normalize_compass(-90_000_000), 270_000_000);
    assert_eq!(normalize_compass(360_000_000), 0);
    assert_eq!(normalize_compass(725_000_000), 5_000_000);
    assert_eq!(normalize_compass(359_999_999), 359_999_999);
}

#[test]
fn bearing_diff_picks_the_short_way_round() {
    // Heading 350, target bearing 10: turn +20 right, not 340 left.
    assert_eq!(calc_bearing_diff(350_000_000, 10_000_000), 20_000_000);
    // Heading 10, target bearing 350: turn -20 left.
    assert_eq!(calc_bearing_diff(10_000_000, 350_000_000), -20_000_000);
    // Dead ahead.
    assert_eq!(calc_bearing_diff(123_000_000, 123_000_000), 0);
    // Dead astern is +180 by convention.
    assert_eq!(calc_bearing_diff(0, 180_000_000), 180_000_000);
}

#[test]
fn dms_converts_to_microdegrees_truncated() {
    // 39 degrees 51 minutes 42 seconds north.
    assert_eq!(DMS { d: 39, m: 51, s: 42 }.to_microdegrees(), 39_861_666);
    // 104 degrees 40 minutes 22 seconds west.
    assert_eq!(DMS { d: -104, m: 40, s: 22 }.to_microdegrees(), -104_672_777);
    assert_eq!(DMS { d: 0, m: 0, s: 0 }.to_microdegrees(), 0);
    assert_eq!(DMS { d: 1, m: 30, s: 0 }.to_microdegrees(), 1_500_000);
}

#[test]
fn location_set_and_validity() {
    let mut l = Location::new(39_861_700, -104_673_100);
    assert!(l.is_valid());
    l.set(91_000_000, 0);
    assert!(!l.is_valid());
    l.set(-90_000_000, 180_000_000);
    assert!(l.is_valid());
}
