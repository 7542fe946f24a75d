use vstd::prelude::*;
use crate::settings::CameraSettings;
use crate::vector::{Vec3, UNIT};

verus! {

/// A camera orientation as yaw about the world's up axis, then pitch about
/// the local right axis, then roll about the local forward axis, each in
/// nanoradians.
#[derive(Clone, Copy, Debug, PartialEq, Eq, Structural)]
pub struct EulerAngles {
    pub yaw: i64,
    pub pitch: i64,
    pub roll: i64,
}

/// What the orbit controller reads in one frame.
#[derive(Clone, Copy, Debug, PartialEq, Eq, Structural)]
pub struct OrbitInput {
    /// Whether the secondary pointer button is held.
    pub secondary_held: bool,
    /// Horizontal pointer motion since the last frame, in thousandths of a pixel.
    pub motion_x: i32,
    /// Vertical pointer motion since the last frame, in thousandths of a pixel.
    pub motion_y: i32,
    /// Roll rate asked for, in units of the configured roll speed.
    pub roll_input: i32,
    /// Time since the last frame, in microseconds.
    pub elapsed_micros: u32,
}

/// `v` brought into `lo ..= hi`.
pub open spec fn clamp(v: int, lo: int, hi: int) -> int {
    if v < lo {
        lo
    } else if v > hi {
        hi
    } else {
        v
    }
}

/// Pitch change of one frame: pointer motion is a displacement already, so
/// it is not scaled by time.
pub open spec fn delta_pitch(s: CameraSettings, i: OrbitInput) -> int {
    i.motion_y * s.pitch_speed
}

/// Yaw change of one frame.
pub open spec fn delta_yaw(s: CameraSettings, i: OrbitInput) -> int {
    i.motion_x * s.yaw_speed
}

/// Roll change of one frame: a rate, so it is scaled by the frame time.
pub open spec fn delta_roll(s: CameraSettings, i: OrbitInput) -> int {
    i.roll_input * s.roll_speed * i.elapsed_micros
}

/// The pitch that a frame aims at before clamping.
pub open spec fn pitch_target(a: EulerAngles, s: CameraSettings, i: OrbitInput) -> int {
    a.pitch + delta_pitch(s, i)
}

/// The new yaw and roll of a frame are representable.
pub open spec fn angle_sums_fit(a: EulerAngles, s: CameraSettings, i: OrbitInput) -> bool {
    &&& i64::MIN <= a.yaw + delta_yaw(s, i) <= i64::MAX
    &&& i64::MIN <= a.roll + delta_roll(s, i) <= i64::MAX
}

/// Orientation after one frame with the secondary button held.
pub open spec fn next_angles(a: EulerAngles, s: CameraSettings, i: OrbitInput) -> EulerAngles {
    EulerAngles {
        yaw: (a.yaw + delta_yaw(s, i)) as i64,
        pitch: clamp(pitch_target(a, s, i), s.pitch_range.start as int, s.pitch_range.end as int) as i64,
        roll: (a.roll + delta_roll(s, i)) as i64,
    }
}

/// Camera position that keeps `distance` from the orbit target, the world
/// origin, along `forward`: `target - forward * distance`, each coordinate
/// rounded down to the fixed-point grid.
pub open spec fn orbit_point(forward: Vec3, distance: i32) -> Vec3 {
    Vec3 {
        x: (0 - (forward.x * distance) / (UNIT as int)) as i32,
        y: (0 - (forward.y * distance) / (UNIT as int)) as i32,
        z: (0 - (forward.z * distance) / (UNIT as int)) as i32,
    }
}

/// Whether the new yaw and roll of a frame with `input` held are
/// representable, which `orbit` asks of its caller.
pub fn frame_fits(angles: &EulerAngles, settings: &CameraSettings, input: &OrbitInput) -> (r: bool)
    ensures
        r == angle_sums_fit(*angles, *settings, *input),
{
    proof {
        lemma_i32_product(input.motion_x as int, settings.yaw_speed as int);
        lemma_i32_product(input.roll_input as int, settings.roll_speed as int);
    }
    let d_yaw: i64 = input.motion_x as i64 * settings.yaw_speed as i64;
    let rate: i64 = input.roll_input as i64 * settings.roll_speed as i64;
    proof {
        lemma_rate_times_time(rate as int, input.elapsed_micros as int);
    }
    let d_roll: i128 = rate as i128 * input.elapsed_micros as i128;
    proof {
        assert(d_roll == delta_roll(*settings, *input)) by (nonlinear_arith)
            requires
                rate == input.roll_input * settings.roll_speed,
                d_roll == rate * input.elapsed_micros,
        ;
    }
    let yaw: i128 = angles.yaw as i128 + d_yaw as i128;
    let roll: i128 = angles.roll as i128 + d_roll;
    i64::MIN as i128 <= yaw && yaw <= i64::MAX as i128 && i64::MIN as i128 <= roll && roll
        <= i64::MAX as i128
}

/// One frame of the orbit controller. `None` when the secondary button is
/// not held: the camera keeps its orientation and position. Otherwise the
/// new orientation, with the pitch clamped into the configured range; the
/// caller then places the camera with `orbit_position`.
pub fn orbit(angles: &EulerAngles, settings: &CameraSettings, input: &OrbitInput) -> (r: Option<EulerAngles>)
    requires
        settings.wf(),
        input.secondary_held ==> angle_sums_fit(*angles, *settings, *input),
    ensures
        r == (if input.secondary_held {
            Some(next_angles(*angles, *settings, *input))
        } else {
            None
        }),
        !input.secondary_held ==> r is None,
        r matches Some(n) ==> settings.pitch_range.start <= n.pitch <= settings.pitch_range.end,
        r matches Some(n) ==> (pitch_target(*angles, *settings, *input) < settings.pitch_range.start
            ==> n.pitch == settings.pitch_range.start),
        r matches Some(n) ==> (pitch_target(*angles, *settings, *input) > settings.pitch_range.end
            ==> n.pitch == settings.pitch_range.end),
        r matches Some(n) ==> n.yaw == angles.yaw + input.motion_x * settings.yaw_speed,
{
    if !input.secondary_held {
        return None;
    }
    proof {
        lemma_i32_product(input.motion_y as int, settings.pitch_speed as int);
        lemma_i32_product(input.motion_x as int, settings.yaw_speed as int);
        lemma_i32_product(input.roll_input as int, settings.roll_speed as int);
    }
    let d_pitch: i64 = input.motion_y as i64 * settings.pitch_speed as i64;
    let d_yaw: i64 = input.motion_x as i64 * settings.yaw_speed as i64;
    let rate: i64 = input.roll_input as i64 * settings.roll_speed as i64;
    proof {
        lemma_rate_times_time(rate as int, input.elapsed_micros as int);
    }
    let d_roll: i128 = rate as i128 * input.elapsed_micros as i128;

    let target: i128 = angles.pitch as i128 + d_pitch as i128;
    let pitch: i64 = if target < settings.pitch_range.start as i128 {
        settings.pitch_range.start
    } else if target > settings.pitch_range.end as i128 {
        settings.pitch_range.end
    } else {
        target as i64
    };
    let yaw: i64 = (angles.yaw as i128 + d_yaw as i128) as i64;
    let roll: i64 = (angles.roll as i128 + d_roll) as i64;
    proof {
        assert(d_roll == delta_roll(*settings, *input)) by (nonlinear_arith)
            requires
                rate == input.roll_input * settings.roll_speed,
                d_roll == rate * input.elapsed_micros,
        ;
    }
    Some(EulerAngles { yaw, pitch, roll })
}

/// Where the camera stands once oriented so that it looks along `forward`
/// (a unit vector in fixed point): `orbit_distance` away from the orbit
/// target, the world origin, behind the direction of view.
pub fn orbit_position(forward: &Vec3, settings: &CameraSettings) -> (r: Vec3)
    requires
        settings.wf(),
        forward.is_direction(),
    ensures
        r == orbit_point(*forward, settings.orbit_distance),
{
    let d = settings.orbit_distance;
    Vec3 {
        x: back_off(forward.x, d),
        y: back_off(forward.y, d),
        z: back_off(forward.z, d),
    }
}

/// `-(f * d / UNIT)`, rounded down before negation.
fn back_off(f: i32, d: i32) -> (r: i32)
    requires
        -UNIT <= f <= UNIT,
        0 < d,
    ensures
        r == 0 - (f * d) / (UNIT as int),
{
    proof {
        lemma_i32_product(f as int, d as int);
        lemma_scaled_within(f as int, d as int);
    }
    let p: i64 = f as i64 * d as i64;
    let q = p.checked_div_euclid(UNIT as i64);
    match q {
        Some(v) => (0 - v) as i32,
        None => 0,
    }
}

/// The orientation after `n` frames that all read the input `i` with the
/// secondary button held.
pub open spec fn orbit_frames(a: EulerAngles, s: CameraSettings, i: OrbitInput, n: nat) -> EulerAngles
    decreases n,
{
    if n == 0 {
        a
    } else {
        next_angles(orbit_frames(a, s, i, (n - 1) as nat), s, i)
    }
}

/// Yaw accumulates without bound and adds up across frames: `n` frames of
/// the same horizontal motion turn the camera exactly as far as one frame of
/// `n` times that motion, as long as the total turn is representable.
pub proof fn lemma_yaw_accumulates(a: EulerAngles, s: CameraSettings, i: OrbitInput, n: nat, m: OrbitInput)
    requires
        m.motion_x == n * i.motion_x,
        i64::MIN <= a.yaw + n * delta_yaw(s, i) <= i64::MAX,
    ensures
        orbit_frames(a, s, i, n).yaw == a.yaw + n * delta_yaw(s, i),
        orbit_frames(a, s, i, n).yaw == next_angles(a, s, m).yaw,
    decreases n,
{
    let dy = delta_yaw(s, i);
    assert(m.motion_x * s.yaw_speed == n * dy) by (nonlinear_arith)
        requires
            m.motion_x == n * i.motion_x,
            dy == i.motion_x * s.yaw_speed,
    ;
    if n > 0 {
        let k = (n - 1) as nat;
        assert(i64::MIN <= a.yaw + k * dy <= i64::MAX) by (nonlinear_arith)
            requires
                i64::MIN <= a.yaw <= i64::MAX,
                i64::MIN <= a.yaw + n * dy <= i64::MAX,
                k + 1 == n,
                k >= 0,
        ;
        assert(i32::MIN <= k * i.motion_x <= i32::MAX) by (nonlinear_arith)
            requires
                i32::MIN <= n * i.motion_x <= i32::MAX,
                i32::MIN <= i.motion_x <= i32::MAX,
                k + 1 == n,
                k >= 0,
        ;
        let mk = OrbitInput { motion_x: (k * i.motion_x) as i32, ..m };
        lemma_yaw_accumulates(a, s, i, k, mk);
        assert(a.yaw + k * dy + dy == a.yaw + n * dy) by (nonlinear_arith)
            requires
                k + 1 == n,
        ;
        let prev = orbit_frames(a, s, i, k);
        assert(orbit_frames(a, s, i, n) == next_angles(prev, s, i));
    } else {
        assert(n * dy == 0) by (nonlinear_arith)
            requires
                n == 0,
        ;
    }
}

proof fn lemma_i32_product(a: int, b: int)
    requires
        i32::MIN <= a <= i32::MAX,
        i32::MIN <= b <= i32::MAX,
    ensures
        -0x4000_0000_0000_0000 <= a * b <= 0x4000_0000_0000_0000,
{
    assert(-0x4000_0000_0000_0000 <= a * b <= 0x4000_0000_0000_0000) by (nonlinear_arith)
        requires
            -0x8000_0000 <= a <= 0x8000_0000,
            -0x8000_0000 <= b <= 0x8000_0000,
    ;
}

proof fn lemma_rate_times_time(r: int, t: int)
    requires
        -0x4000_0000_0000_0000 <= r <= 0x4000_0000_0000_0000,
        0 <= t <= u32::MAX,
    ensures
        -0x4000_0000_0000_0000_0000_0000 <= r * t <= 0x4000_0000_0000_0000_0000_0000,
{
    assert(-0x4000_0000_0000_0000_0000_0000 <= r * t <= 0x4000_0000_0000_0000_0000_0000) by (nonlinear_arith)
        requires
            -0x4000_0000_0000_0000 <= r <= 0x4000_0000_0000_0000,
            0 <= t <= 0x1_0000_0000,
    ;
}

/// With `|f| <= UNIT` the scaled offset `f * d / UNIT` stays within `[-d, d]`.
proof fn lemma_scaled_within(f: int, d: int)
    requires
        -UNIT <= f <= UNIT,
        0 < d <= i32::MAX,
    ensures
        -d <= (f * d) / (UNIT as int) <= d,
{
    let u = UNIT as int;
    assert(-u * d <= f * d <= u * d) by (nonlinear_arith)
        requires
            -u <= f <= u,
            0 < d,
    ;
    assert((f * d) / u <= d) by (nonlinear_arith)
        requires
            f * d <= u * d,
            u > 0,
    ;
    assert((f * d) / u >= -d) by (nonlinear_arith)
        requires
            f * d >= -u * d,
            u > 0,
    ;
}

} // verus!
