//! Orbit camera control and cursor ground probing for a small sandbox game,
//! written over fixed-point values so that every step is exact.
//!
//! Lengths are counted in micro-units of the world (`UNIT` per world unit),
//! angles in nanoradians, pointer motion in thousandths of a pixel and frame
//! time in microseconds.

pub mod vector;
pub mod settings;
pub mod orbit;
pub mod cursor;

pub use vector::{Vec3, UNIT};
pub use settings::{CameraSettings, HALF_PI_NANORAD};
pub use orbit::{EulerAngles, OrbitInput, frame_fits, orbit, orbit_position};
pub use cursor::{Ray3, Distance, GroundPlane, CircleDraw, intersect_plane, get_point, draw_cursor, MARKER_RADIUS};
