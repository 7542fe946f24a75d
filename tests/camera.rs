use sandcastle::{
    draw_cursor, get_point, intersect_plane, orbit, orbit_position, CameraSettings, CircleDraw,
    Distance, EulerAngles, GroundPlane, OrbitInput, Ray3, Vec3, HALF_PI_NANORAD, MARKER_RADIUS,
    UNIT,
};

fn held(motion_x: i32, motion_y: i32) -> OrbitInput {
    OrbitInput {
        secondary_held: true,
        motion_x,
        motion_y,
        roll_input: 0,
        elapsed_micros: 16_000,
    }
}

fn level() -> EulerAngles {
    EulerAngles { yaw: 0, pitch: 0, roll: 0 }
}

fn wide_settings() -> CameraSettings {
    let mut s = CameraSettings::default();
    s.pitch_range = -1_400_000_000..1_400_000_000;
    s
}

fn vec3(x: i32, y: i32, z: i32) -> Vec3 {
    Vec3 { x, y, z }
}

fn flat_ground() -> GroundPlane {
    GroundPlane { origin: vec3(0, 0, 0), up: vec3(0, UNIT, 0) }
}

#[test]
fn default_settings_values() {
    let s = CameraSettings::default();
    assert_eq!(s.orbit_distance, 20_000_000);
    assert_eq!(s.pitch_speed, 3_000);
    assert_eq!(s.yaw_speed, 4_000);
    assert_eq!(s.roll_speed, 1_000);
    assert_eq!(s.pitch_range.start, -(HALF_PI_NANORAD - 100_000_000));
    assert_eq!(s.pitch_range.start, -1_470_796_327);
    assert_eq!(s.pitch_range.end, -10_000_000);
}

#[test]
fn pitch_step_in_range() {
    // 0.003 rad per pixel, 100 pixels down, from level: 0.3 rad.
    let r = orbit(&level(), &wide_settings(), &held(0, 100_000)).unwrap();
    assert_eq!(r.pitch, 300_000_000);
    assert_eq!(r.yaw, 0);
    assert_eq!(r.roll, 0);
}

#[test]
fn pitch_step_out_of_range_clamps_to_upper() {
    // With the default range, 0.3 rad is above -0.01 rad: the upper end is kept.
    let r = orbit(&level(), &CameraSettings::default(), &held(0, 100_000)).unwrap();
    assert_eq!(r.pitch, -10_000_000);
}

#[test]
fn pitch_clamps_to_lower_bound() {
    let s = CameraSettings::default();
    let a = EulerAngles { yaw: 5, pitch: -1_400_000_000, roll: 0 };
    let r = orbit(&a, &s, &held(0, -1_000_000)).unwrap();
    assert_eq!(r.pitch, s.pitch_range.start);
    assert_eq!(r.yaw, 5);
}

#[test]
fn pitch_on_the_bound_is_kept() {
    let s = CameraSettings::default();
    let a = EulerAngles { yaw: 0, pitch: -10_000_000, roll: 0 };
    let r = orbit(&a, &s, &held(0, 0)).unwrap();
    assert_eq!(r.pitch, -10_000_000);
}

#[test]
fn released_button_leaves_camera() {
    let s = CameraSettings::default();
    let a = EulerAngles { yaw: 123, pitch: -20_000_000, roll: 7 };
    let mut i = held(i32::MAX, i32::MIN);
    i.secondary_held = false;
    assert_eq!(orbit(&a, &s, &i), None);
}

#[test]
fn yaw_step() {
    // 0.004 rad per pixel, 250 pixels right: one radian.
    let r = orbit(&level(), &wide_settings(), &held(250_000, 0)).unwrap();
    assert_eq!(r.yaw, 1_000_000_000);
}

#[test]
fn yaw_adds_up_over_frames() {
    let s = wide_settings();
    let mut a = level();
    for _ in 0..1000 {
        a = orbit(&a, &s, &held(1_000, 0)).unwrap();
    }
    let once = orbit(&level(), &s, &held(1_000_000, 0)).unwrap();
    assert_eq!(a.yaw, once.yaw);
    assert_eq!(a.yaw, 4_000_000_000);
}

#[test]
fn yaw_is_not_wrapped() {
    let s = wide_settings();
    let a = EulerAngles { yaw: 3_000_000_000, pitch: 0, roll: 0 };
    let r = orbit(&a, &s, &held(1_000_000, 0)).unwrap();
    assert_eq!(r.yaw, 7_000_000_000);
}

#[test]
fn roll_is_scaled_by_frame_time() {
    let s = wide_settings();
    let mut i = held(0, 0);
    i.roll_input = 1;
    let r = orbit(&level(), &s, &i).unwrap();
    // 1 rad/s for 16 ms.
    assert_eq!(r.roll, 16_000_000);
}

#[test]
fn roll_without_input_stays() {
    let s = wide_settings();
    let a = EulerAngles { yaw: 0, pitch: 0, roll: 42 };
    let r = orbit(&a, &s, &held(10, 10)).unwrap();
    assert_eq!(r.roll, 42);
}

#[test]
fn position_behind_forward() {
    let s = CameraSettings::default();
    assert_eq!(orbit_position(&vec3(0, 0, -UNIT), &s), vec3(0, 0, 20_000_000));
    assert_eq!(
        orbit_position(&vec3(600_000, 0, -800_000), &s),
        vec3(-12_000_000, 0, 16_000_000)
    );
}

#[test]
fn position_rounds_down() {
    let mut s = CameraSettings::default();
    s.orbit_distance = 1_500_000;
    assert_eq!(orbit_position(&vec3(1, -1, 0), &s), vec3(-1, 2, 0));
}

#[test]
fn ray_straight_down_hits_origin() {
    let ray = Ray3 { origin: vec3(0, 5 * UNIT, 0), direction: vec3(0, -UNIT, 0) };
    let g = flat_ground();
    let t = intersect_plane(&ray, &g.origin, &g.up).unwrap();
    assert_eq!(t, Distance { num: 5_000_000_000_000, den: 1_000_000_000_000 });
    assert_eq!(get_point(&ray, &t), Some(vec3(0, 0, 0)));
    let d = draw_cursor(Some(ray), &g).unwrap();
    assert_eq!(
        d,
        CircleDraw { center: vec3(0, 10_000, 0), normal: vec3(0, UNIT, 0), radius: MARKER_RADIUS }
    );
    assert_eq!(d.radius, 200_000);
}

#[test]
fn slanted_ray_hits_ground() {
    let ray = Ray3 { origin: vec3(0, 4 * UNIT, 0), direction: vec3(600_000, -800_000, 0) };
    let g = flat_ground();
    let d = draw_cursor(Some(ray), &g).unwrap();
    assert_eq!(d.center, vec3(3 * UNIT, 10_000, 0));
}

#[test]
fn parallel_ray_misses() {
    let ray = Ray3 { origin: vec3(0, 5 * UNIT, 0), direction: vec3(UNIT, 0, 0) };
    let g = flat_ground();
    assert_eq!(intersect_plane(&ray, &g.origin, &g.up), None);
    assert_eq!(draw_cursor(Some(ray), &g), None);
}

#[test]
fn ray_pointing_away_misses() {
    let ray = Ray3 { origin: vec3(0, 5 * UNIT, 0), direction: vec3(0, UNIT, 0) };
    let g = flat_ground();
    assert_eq!(intersect_plane(&ray, &g.origin, &g.up), None);
    assert_eq!(draw_cursor(Some(ray), &g), None);
}

#[test]
fn ray_from_below_hits() {
    let ray = Ray3 { origin: vec3(0, -2 * UNIT, 0), direction: vec3(0, UNIT, 0) };
    let g = flat_ground();
    let t = intersect_plane(&ray, &g.origin, &g.up).unwrap();
    assert_eq!(t, Distance { num: 2_000_000_000_000, den: 1_000_000_000_000 });
}

#[test]
fn ray_on_plane_misses() {
    let ray = Ray3 { origin: vec3(0, 0, 0), direction: vec3(0, -UNIT, 0) };
    let g = flat_ground();
    assert_eq!(draw_cursor(Some(ray), &g), None);
}

#[test]
fn no_pointer_no_marker() {
    assert_eq!(draw_cursor(None, &flat_ground()), None);
}

#[test]
fn far_hit_off_grid_is_dropped() {
    let ray = Ray3 { origin: vec3(0, 2_000_000_000, 0), direction: vec3(2_000_000_000, -1, 0) };
    assert_eq!(draw_cursor(Some(ray), &flat_ground()), None);
}

#[test]
fn raised_tilted_ground() {
    let g = GroundPlane { origin: vec3(0, UNIT, 0), up: vec3(0, 0, -UNIT) };
    let ray = Ray3 { origin: vec3(0, 0, -3 * UNIT), direction: vec3(0, 0, UNIT) };
    let d = draw_cursor(Some(ray), &g).unwrap();
    assert_eq!(d.center, vec3(0, 0, -10_000));
    assert_eq!(d.normal, vec3(0, 0, -UNIT));
}
