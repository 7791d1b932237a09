use snog::camera::{rotate_camera_system, ORBIT_HEIGHT_MILLI, ORBIT_RADIUS_MILLI};
use snog::player::{player_move_system, KeyState, PlaneVelocity, MOVE_SPEED_MILLI};
use snog::scene::{setup, SceneEntity};
use snog::spawner::{
    pick_tree_kind, spawn_trees, TreeKind, FULL_TURN_MILLIRAD, TREE_RADIUS_MAX_MILLI,
    TREE_RADIUS_MIN_MILLI,
};
use snog::timer::{snog_spawner_system, SnogSpawnerTimer, SNOG_TIMER_PERIOD_MS};

fn no_keys() -> KeyState {
    KeyState { left: false, right: false, up: false, down: false }
}

#[test]
fn decay_damps_both_axes_at_one_second() {
    let mut v = PlaneVelocity { x_milli: 3000, z_milli: -3000 };
    player_move_system(no_keys(), &mut v, 1000);
    assert_eq!(v.x_milli, 1500);
    assert_eq!(v.z_milli, -1500);
}

#[test]
fn decay_never_increases_magnitude_over_many_frames() {
    let mut v = PlaneVelocity { x_milli: 3000, z_milli: -2999 };
    let mut last_x = v.x_milli;
    let mut last_z = v.z_milli;
    for delta in [0u64, 1, 16, 17, 333, 1999, 2000] {
        player_move_system(no_keys(), &mut v, delta);
        assert!(v.x_milli.abs() <= last_x.abs());
        assert!(v.z_milli.abs() <= last_z.abs());
        assert!(v.x_milli >= 0);
        assert!(v.z_milli <= 0);
        last_x = v.x_milli;
        last_z = v.z_milli;
    }
}

#[test]
fn decay_at_zero_delta_stops_immediately() {
    let mut v = PlaneVelocity { x_milli: 777, z_milli: -777 };
    player_move_system(no_keys(), &mut v, 0);
    assert_eq!(v.x_milli, 0);
    assert_eq!(v.z_milli, 0);
}

#[test]
fn held_keys_drive_each_axis_to_full_speed_in_one_frame() {
    let mut v = PlaneVelocity { x_milli: 123, z_milli: -456 };
    let keys = KeyState { left: true, right: false, up: false, down: true };
    player_move_system(keys, &mut v, 16);
    assert_eq!(v.x_milli, -MOVE_SPEED_MILLI);
    assert_eq!(v.z_milli, MOVE_SPEED_MILLI);

    let keys = KeyState { left: false, right: true, up: true, down: false };
    player_move_system(keys, &mut v, 16);
    assert_eq!(v.x_milli, MOVE_SPEED_MILLI);
    assert_eq!(v.z_milli, -MOVE_SPEED_MILLI);
}

#[test]
fn left_and_up_win_over_their_opposites() {
    let mut v = PlaneVelocity { x_milli: 0, z_milli: 0 };
    let keys = KeyState { left: true, right: true, up: true, down: true };
    player_move_system(keys, &mut v, 16);
    assert_eq!(v.x_milli, -MOVE_SPEED_MILLI);
    assert_eq!(v.z_milli, -MOVE_SPEED_MILLI);
}

#[test]
fn spawner_places_exactly_eighty_trees_inside_the_ring() {
    let trees = spawn_trees();
    assert_eq!(trees.len(), 80);
    for t in &trees {
        assert!(t.radius_milli >= TREE_RADIUS_MIN_MILLI);
        assert!(t.radius_milli < TREE_RADIUS_MAX_MILLI);
        assert!(t.angle_millirad < FULL_TURN_MILLIRAD);
    }
}

#[test]
fn spawner_distance_from_origin_is_the_sampled_radius() {
    // The polar placement converts to Cartesian exactly as the driver does;
    // the distance of the converted point from the origin must stay in the
    // [4, 15) ring the radius was sampled from.
    let trees = spawn_trees();
    for t in &trees {
        let r = t.radius_milli as f64 / 1000.0;
        let a = t.angle_millirad as f64 / 1000.0;
        let x = r * a.cos();
        let z = r * a.sin();
        let dist = (x * x + z * z).sqrt();
        assert!(dist >= 3.999, "distance {dist} fell below the ring");
        assert!(dist < 15.0, "distance {dist} left the ring");
    }
}

#[test]
fn tree_kind_draws_match_the_weighting() {
    assert_eq!(pick_tree_kind(9, 0), TreeKind::Plateau);
    assert_eq!(pick_tree_kind(9, 9), TreeKind::Plateau);
    assert_eq!(pick_tree_kind(0, 9), TreeKind::Thin);
    assert_eq!(pick_tree_kind(8, 8), TreeKind::Tall);
    assert_eq!(pick_tree_kind(0, 0), TreeKind::Tall);
}

#[test]
fn timer_fires_once_per_accumulated_second() {
    let mut t = SnogSpawnerTimer::new();
    assert_eq!(t.period_ms, SNOG_TIMER_PERIOD_MS);
    assert!(!snog_spawner_system(&mut t, 999));
    assert!(snog_spawner_system(&mut t, 1));
    assert_eq!(t.elapsed_ms, 0);
    assert!(!snog_spawner_system(&mut t, 0));
}

#[test]
fn timer_keeps_fractional_remainders() {
    let mut t = SnogSpawnerTimer::new();
    let fires = t.tick(1500);
    assert_eq!(fires, 1);
    assert_eq!(t.elapsed_ms, 500);
    let fires = t.tick(500);
    assert_eq!(fires, 1);
    assert_eq!(t.elapsed_ms, 0);
}

#[test]
fn timer_fire_count_ignores_frame_granularity() {
    let mut fine = SnogSpawnerTimer::new();
    let mut coarse = SnogSpawnerTimer::new();
    let mut fine_fires = 0u64;
    for _ in 0..45 {
        fine_fires += fine.tick(70);
    }
    let coarse_fires = coarse.tick(45 * 70);
    assert_eq!(fine_fires, coarse_fires);
    assert_eq!(fine.elapsed_ms, coarse.elapsed_ms);
    assert_eq!(fine_fires, 3);
    assert_eq!(fine.elapsed_ms, 150);
}

#[test]
fn timer_counts_several_periods_in_one_frame() {
    let mut t = SnogSpawnerTimer::new();
    let fires = t.tick(3250);
    assert_eq!(fires, 3);
    assert_eq!(t.elapsed_ms, 250);
}

fn orbit_position(elapsed_ms: u64) -> (f64, f64, f64) {
    // The same conversion the driver applies to an orbit pose.
    let pose = rotate_camera_system(elapsed_ms);
    let angle = pose.angle_millirad as f64 / 1000.0;
    let radius = pose.radius_milli as f64 / 1000.0;
    let height = pose.height_milli as f64 / 1000.0;
    (radius * angle.sin(), height, radius * angle.cos())
}

#[test]
fn camera_starts_behind_the_origin() {
    let (x, y, z) = orbit_position(0);
    assert_eq!(x, 0.0);
    assert_eq!(y, 3.0);
    assert_eq!(z, 10.0);
    let pose = rotate_camera_system(0);
    assert_eq!(pose.angle_millirad, 0);
    assert_eq!(pose.radius_milli, ORBIT_RADIUS_MILLI);
    assert_eq!(pose.height_milli, ORBIT_HEIGHT_MILLI);
}

#[test]
fn camera_orbit_returns_after_a_full_turn() {
    // A full turn of the orbit takes 2π / 0.4 seconds; in whole milliseconds
    // that is 15708 ms, at which the camera must stand where it started,
    // within the rounding of the millisecond clock.
    let (x0, y0, z0) = orbit_position(0);
    let (x1, y1, z1) = orbit_position(15708);
    assert!((x1 - x0).abs() < 0.02);
    assert!((y1 - y0).abs() < 0.02);
    assert!((z1 - z0).abs() < 0.02);
}

#[test]
fn camera_angle_grows_with_the_clock() {
    let pose = rotate_camera_system(2500);
    assert_eq!(pose.angle_millirad, 1000);
}

#[test]
fn fresh_scene_has_one_entity_of_each_kind() {
    let scene = setup();
    assert_eq!(scene.len(), 4);
    let grounds = scene.iter().filter(|e| matches!(e, SceneEntity::Ground { .. })).count();
    let players = scene.iter().filter(|e| matches!(e, SceneEntity::PlayerBody { .. })).count();
    let lights = scene.iter().filter(|e| matches!(e, SceneEntity::Light { .. })).count();
    let cameras = scene.iter().filter(|e| matches!(e, SceneEntity::Camera { .. })).count();
    assert_eq!(grounds, 1);
    assert_eq!(players, 1);
    assert_eq!(lights, 1);
    assert_eq!(cameras, 1);
}

#[test]
fn player_body_spawns_at_rest_with_rotation_locked() {
    let scene = setup();
    let player = scene
        .iter()
        .find(|e| matches!(e, SceneEntity::PlayerBody { .. }))
        .expect("the scene holds a player");
    match player {
        SceneEntity::PlayerBody { position, velocity, rotation_locked, .. } => {
            assert_eq!(position.y, 5000);
            assert_eq!(velocity.x_milli, 0);
            assert_eq!(velocity.z_milli, 0);
            assert!(rotation_locked);
        }
        _ => unreachable!(),
    }
}
