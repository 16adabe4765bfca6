//! The scanning rangefinder's latest sweep: one distance per whole degree,
//! filled by a background reader owned by the embedding program, with a
//! verified minimum-over-window query used to derive the obstacle zones.

use vstd::prelude::*;
use crate::interfaces::{RangeSource, Zone};
use crate::shared::AnyValue;
use vstd::rwlock::RwLock;

verus! {

/// The smaller of two readings.
pub open spec fn min2(a: u32, b: u32) -> u32 {
    if a < b {
        a
    } else {
        b
    }
}

/// The minimum of `s[lo..hi)`, for `0 <= lo < hi <= s.len()`.
pub open spec fn seq_min_range(s: Seq<u32>, lo: int, hi: int) -> u32
    decreases hi - lo,
{
    if hi - lo <= 1 {
        s[lo]
    } else {
        min2(seq_min_range(s, lo, hi - 1), s[hi - 1])
    }
}

/// The minimum over the circular window of whole degrees from `start`
/// (inclusive) to `end` (exclusive), wrapping past north when
/// `start >= end`.
pub open spec fn window_min_spec(s: Seq<u32>, start: int, end: int) -> u32 {
    if start < end {
        seq_min_range(s, start, end)
    } else if end == 0 {
        seq_min_range(s, start, 360)
    } else {
        min2(seq_min_range(s, start, 360), seq_min_range(s, 0, end))
    }
}

/// The minimum reading inside a circular window of a 360-degree sweep.
pub fn min_in_window(points: &[u32; 360], start: usize, end: usize) -> (r: u32)
    requires
        start < 360,
        end <= 360,
    ensures
        r == window_min_spec(points@, start as int, end as int),
{
    let mut m: u32 = points[start];
    if start < end {
        let mut i: usize = start + 1;
        while i < end
            invariant
                start + 1 <= i <= end <= 360,
                m == seq_min_range(points@, start as int, i as int),
            decreases end - i,
        {
            if points[i] < m {
                m = points[i];
            }
            i = i + 1;
        }
        m
    } else {
        let mut i: usize = start + 1;
        while i < 360
            invariant
                start + 1 <= i <= 360,
                m == seq_min_range(points@, start as int, i as int),
            decreases 360 - i,
        {
            if points[i] < m {
                m = points[i];
            }
            i = i + 1;
        }
        let mut j: usize = 0;
        while j < end
            invariant
                j <= end <= 360,
                j == 0 ==> m == seq_min_range(points@, start as int, 360),
                j > 0 ==> m == min2(
                    seq_min_range(points@, start as int, 360),
                    seq_min_range(points@, 0, j as int),
                ),
            decreases end - j,
        {
            if points[j] < m {
                m = points[j];
            }
            j = j + 1;
        }
        m
    }
}

/// The latest full sweep of the scanning rangefinder, one reading per whole
/// degree of azimuth.
pub struct Lidar {
    points: RwLock<[u32; 360], AnyValue>,
}

impl Lidar {
    /// A sweep holder with every reading still at zero.
    pub fn new() -> Lidar {
        Lidar { points: RwLock::new([0u32; 360], Ghost(AnyValue {})) }
    }

    /// Publish a fresh sweep; the background reader calls this per scan.
    pub fn store(&self, scan: [u32; 360]) {
        let (_, handle) = self.points.acquire_write();
        handle.release_write(scan);
    }

    /// Copy the latest sweep out, for observers such as a video overlay.
    pub fn scan(&self) -> [u32; 360] {
        let handle = self.points.acquire_read();
        let pts = *handle.borrow();
        handle.release_read();
        pts
    }

    /// The minimum reading in the circular window from `start` to `end`
    /// degrees (exclusive), wrapping past north when `start >= end`.
    pub fn min(&self, start: usize, end: usize) -> u32
        requires
            start < 360,
            end <= 360,
    {
        let pts = self.scan();
        min_in_window(&pts, start, end)
    }
}

impl RangeSource for Lidar {
    fn min_distance(&mut self, zone: Zone) -> u32 {
        match zone {
            Zone::Front => Lidar::min(self, 315, 45),
            Zone::FrontLeft => Lidar::min(self, 225, 315),
            Zone::FrontRight => Lidar::min(self, 45, 135),
        }
    }
}

/// A `&Lidar` is enough to query, so the sweep can sit behind a shared
/// handle while a reader thread feeds it.
impl RangeSource for &Lidar {
    fn min_distance(&mut self, zone: Zone) -> u32 {
        match zone {
            Zone::Front => Lidar::min(self, 315, 45),
            Zone::FrontLeft => Lidar::min(self, 225, 315),
            Zone::FrontRight => Lidar::min(self, 45, 135),
        }
    }
}

} // verus!
