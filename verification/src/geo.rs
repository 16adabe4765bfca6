//! Geographic primitives on integer microdegrees.
//!
//! A degree is split into 1_000_000 microdegrees, so the coordinates and
//! angles this crate works with are exact integers: latitude and longitude
//! of a [`Location`], compass bearings in `[0, 360)` degrees of arc, and
//! signed turn errors in `(-180, 180]` degrees of arc.

use vstd::prelude::*;

verus! {

/// Microdegrees in a full turn of 360 degrees.
pub const FULL_TURN: i64 = 360_000_000;

/// Microdegrees in a half turn of 180 degrees.
pub const HALF_TURN: i64 = 180_000_000;

/// A position in decimal degrees, held as integer microdegrees.
#[derive(Clone, Copy, PartialEq, Eq, Structural, Debug)]
pub struct Location {
    /// Latitude in microdegrees, positive north.
    pub lat: i64,
    /// Longitude in microdegrees, positive east.
    pub lon: i64,
}

impl Location {
    /// A location is valid when it lies on the globe.
    pub open spec fn valid(self) -> bool {
        &&& -90_000_000 <= self.lat <= 90_000_000
        &&& -180_000_000 <= self.lon <= 180_000_000
    }

    /// Runtime check of [`Location::valid`].
    pub fn is_valid(&self) -> (r: bool)
        ensures
            r == self.valid(),
    {
        -90_000_000 <= self.lat && self.lat <= 90_000_000 && -180_000_000 <= self.lon && self.lon
            <= 180_000_000
    }

    /// Construct a location from microdegree coordinates.
    pub fn new(lat: i64, lon: i64) -> (r: Location)
        ensures
            r.lat == lat,
            r.lon == lon,
    {
        Location { lat, lon }
    }

    /// Overwrite both coordinates.
    pub fn set(&mut self, lat: i64, lon: i64)
        ensures
            final(self).lat == lat,
            final(self).lon == lon,
    {
        self.lat = lat;
        self.lon = lon;
    }
}

/// Decreases measure for the angle-normalization recursions: how far the
/// angle is from the target interval.
pub open spec fn norm_distance(x: int) -> int {
    if x > 180_000_000 {
        x
    } else if x <= -180_000_000 {
        180_000_001 - x
    } else {
        0
    }
}

/// The representative of `x` in `(-180, 180]` degrees, congruent to `x`
/// modulo a full turn: the value of a signed turn error.
pub open spec fn norm_signed_spec(x: int) -> int
    decreases norm_distance(x),
{
    if x > 180_000_000 {
        norm_signed_spec(x - 360_000_000)
    } else if x <= -180_000_000 {
        norm_signed_spec(x + 360_000_000)
    } else {
        x
    }
}

/// The representative of `x` in `[0, 360)` degrees, congruent to `x` modulo
/// a full turn: the value of a compass bearing or heading.
pub open spec fn norm_compass_spec(x: int) -> int
    decreases (if x < 0 { 360_000_000 - x } else { x }),
{
    if x < 0 {
        norm_compass_spec(x + 360_000_000)
    } else if x >= 360_000_000 {
        norm_compass_spec(x - 360_000_000)
    } else {
        x
    }
}

/// A normalized signed angle lies strictly above -180 degrees and at most
/// at 180 degrees.
pub proof fn lemma_norm_signed_range(x: int)
    ensures
        -180_000_000 < norm_signed_spec(x) <= 180_000_000,
    decreases norm_distance(x),
{
    if x > 180_000_000 {
        lemma_norm_signed_range(x - 360_000_000);
    } else if x <= -180_000_000 {
        lemma_norm_signed_range(x + 360_000_000);
    }
}

/// Normalizing a signed angle twice gives the same value as normalizing it
/// once.
pub proof fn lemma_norm_signed_idempotent(x: int)
    ensures
        norm_signed_spec(norm_signed_spec(x)) == norm_signed_spec(x),
{
    lemma_norm_signed_range(x);
}

/// For every heading `h` and bearing `b`, the turn error
/// `norm_signed_spec(b - h)` lies in `(-180, 180]` degrees.
pub proof fn lemma_turn_error_range(h: int, b: int)
    ensures
        -180_000_000 < norm_signed_spec(b - h) <= 180_000_000,
{
    lemma_norm_signed_range(b - h);
}

/// Reduce any angle to its signed representative in `(-180, 180]` degrees.
pub fn normalize_signed(x: i64) -> (r: i64)
    ensures
        r == norm_signed_spec(x as int),
        -HALF_TURN < r <= HALF_TURN,
{
    let mut r = x;
    while r > HALF_TURN
        invariant
            norm_signed_spec(r as int) == norm_signed_spec(x as int),
            r > -HALF_TURN || r == x,
        decreases r + HALF_TURN,
    {
        r = r - FULL_TURN;
    }
    while r <= -HALF_TURN
        invariant
            norm_signed_spec(r as int) == norm_signed_spec(x as int),
            r <= HALF_TURN,
        decreases HALF_TURN - r,
    {
        r = r + FULL_TURN;
    }
    r
}

/// Reduce any angle to its compass representative in `[0, 360)` degrees.
pub fn normalize_compass(x: i64) -> (r: i64)
    ensures
        r == norm_compass_spec(x as int),
        0 <= r < FULL_TURN,
{
    let mut r = x;
    while r < 0
        invariant
            norm_compass_spec(r as int) == norm_compass_spec(x as int),
            r < FULL_TURN || r == x,
        decreases FULL_TURN - r,
    {
        r = r + FULL_TURN;
    }
    while r >= FULL_TURN
        invariant
            norm_compass_spec(r as int) == norm_compass_spec(x as int),
            r >= 0,
        decreases r,
    {
        r = r - FULL_TURN;
    }
    r
}

/// The signed turn error from a current compass bearing to a desired one,
/// in `(-180, 180]` degrees: negative means turn left, positive turn right.
pub fn calc_bearing_diff(current_bearing: i64, wp_bearing: i64) -> (r: i64)
    requires
        0 <= current_bearing < FULL_TURN,
        0 <= wp_bearing < FULL_TURN,
    ensures
        r == norm_signed_spec(wp_bearing - current_bearing),
        -HALF_TURN < r <= HALF_TURN,
{
    normalize_signed(wp_bearing - current_bearing)
}

/// Degrees, minutes, seconds of arc, with the sign carried by the degrees.
#[derive(Clone, Copy, PartialEq, Eq, Structural, Debug)]
pub struct DMS {
    pub d: i32,
    pub m: i32,
    pub s: i32,
}

/// The microdegree value of a degree-minute-second reading, rounded toward
/// zero.
pub open spec fn dms_to_microdegrees_spec(d: int, m: int, s: int) -> int {
    let magnitude = ((if d < 0 { -d } else { d }) * 3600 + m * 60 + s) * 1_000_000 / 3600;
    if d < 0 {
        -magnitude
    } else {
        magnitude
    }
}

impl DMS {
    /// A reading is meaningful when the parts are in their conventional
    /// ranges; this also keeps the conversion inside machine bounds.
    pub open spec fn valid(self) -> bool {
        &&& -180 <= self.d <= 180
        &&& 0 <= self.m < 60
        &&& 0 <= self.s < 60
    }

    /// Convert to decimal microdegrees.
    pub fn to_microdegrees(&self) -> (r: i64)
        requires
            self.valid(),
        ensures
            r == dms_to_microdegrees_spec(self.d as int, self.m as int, self.s as int),
    {
        let d = self.d as i64;
        let neg = d < 0;
        let abs_d: i64 = if neg { -d } else { d };
        let total_seconds: i64 = abs_d * 3600 + (self.m as i64) * 60 + (self.s as i64);
        let magnitude: i64 = total_seconds * 1_000_000 / 3600;
        if neg {
            -magnitude
        } else {
            magnitude
        }
    }
}

} // verus!
