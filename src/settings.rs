use vstd::prelude::*;
use core::ops::Range;
use crate::vector::UNIT;

verus! {

/// A quarter turn, `π / 2`, in nanoradians (rounded to the nearest).
pub const HALF_PI_NANORAD: i64 = 1_570_796_327;

/// Largest pitch magnitude of the default range: a quarter turn less a tenth
/// of a radian, which keeps the camera away from the poles.
pub const DEFAULT_PITCH_LIMIT: i64 = HALF_PI_NANORAD - 100_000_000;

/// How the orbit camera answers to the pointer, fixed once at start.
pub struct CameraSettings {
    /// Distance from the orbit target to the camera, in `1 / UNIT` world units.
    pub orbit_distance: i32,
    /// Pitch change per pixel of vertical pointer motion, in microradians.
    pub pitch_speed: i32,
    /// Pitch is kept within `start ..= end`, in nanoradians.
    pub pitch_range: Range<i64>,
    /// Roll change per second for each unit of roll input, in milliradians.
    pub roll_speed: i32,
    /// Yaw change per pixel of horizontal pointer motion, in microradians.
    pub yaw_speed: i32,
}

impl CameraSettings {
    /// The distance is positive and the pitch range is ordered and lies
    /// strictly inside the open interval `(-π/2, π/2)`.
    pub open spec fn wf(&self) -> bool {
        &&& 0 < self.orbit_distance
        &&& -HALF_PI_NANORAD < self.pitch_range.start
        &&& self.pitch_range.start < self.pitch_range.end
        &&& self.pitch_range.end < HALF_PI_NANORAD
    }

    /// Whether these settings are well formed.
    pub fn is_valid(&self) -> (r: bool)
        ensures
            r == self.wf(),
    {
        0 < self.orbit_distance && -HALF_PI_NANORAD < self.pitch_range.start
            && self.pitch_range.start < self.pitch_range.end
            && self.pitch_range.end < HALF_PI_NANORAD
    }
}

impl Default for CameraSettings {
    /// Twenty units from the target; 0.003 rad of pitch and 0.004 rad of yaw
    /// per pixel; 1 rad/s of roll; pitch from a tenth of a radian short of the
    /// upper pole down to -0.01 rad, so that the camera stays above the ground.
    fn default() -> (r: Self)
        ensures
            r.wf(),
            r.orbit_distance == 20 * UNIT,
            r.pitch_speed == 3_000,
            r.pitch_range.start == -DEFAULT_PITCH_LIMIT,
            r.pitch_range.end == -10_000_000,
            r.roll_speed == 1_000,
            r.yaw_speed == 4_000,
    {
        CameraSettings {
            orbit_distance: 20 * UNIT,
            pitch_speed: 3_000,
            pitch_range: Range { start: -DEFAULT_PITCH_LIMIT, end: -10_000_000 },
            roll_speed: 1_000,
            yaw_speed: 4_000,
        }
    }
}

} // verus!
