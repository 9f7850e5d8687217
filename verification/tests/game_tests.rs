use tower_defense::bullet::{bullet_despawn, bullet_lifetime, BULLET_LIFETIME_NANOS};
use tower_defense::camera::{camera_controls, CameraKeys, CameraMove};
use tower_defense::common::Health;
use tower_defense::target::{spawn_target, target_death, target_health, target_spawn_timer, TARGET_HEALTH};
use tower_defense::timer::TimerMode;
use tower_defense::tower::{closest_target, distance_rank, tower_shooting, tower_shooting_timer};

const SECOND: u64 = 1_000_000_000;

#[test]
fn bullet_lives_a_thousand_seconds_and_a_half() {
    let lf = bullet_lifetime();
    assert_eq!(BULLET_LIFETIME_NANOS, 1_000_500_000_000);
    assert_eq!(lf.timer.duration_nanos(), 1_000_500_000_000);
    assert_eq!(lf.timer.mode(), TimerMode::Once);
    assert_eq!(lf.timer.elapsed_nanos(), 0);
}

#[test]
fn bullet_despawned_once_after_its_lifetime() {
    let mut lf = bullet_lifetime();
    assert!(!bullet_despawn(&mut lf, 1000 * SECOND));
    assert!(!bullet_despawn(&mut lf, SECOND / 4));
    assert!(bullet_despawn(&mut lf, SECOND / 4));
    assert!(!bullet_despawn(&mut lf, SECOND));
    assert!(!bullet_despawn(&mut lf, 5000 * SECOND));
}

#[test]
fn health_defaults_to_zero() {
    assert_eq!(Health::default().value, 0);
}

#[test]
fn target_starts_with_three_health() {
    assert_eq!(target_health().value, 3);
    assert_eq!(TARGET_HEALTH, 3);
}

#[test]
fn dead_targets_are_those_at_or_below_zero() {
    let hs = vec![
        Health { value: 3 },
        Health { value: 0 },
        Health { value: -2 },
        Health { value: 1 },
        Health { value: i32::MIN },
    ];
    assert_eq!(target_death(&hs), vec![1, 2, 4]);
    assert_eq!(target_death(&Vec::new()), Vec::<usize>::new());
    assert_eq!(target_death(&vec![Health { value: 1 }]), Vec::<usize>::new());
}

#[test]
fn spawner_spawns_every_two_seconds() {
    let mut t = target_spawn_timer();
    assert_eq!(t.duration_nanos(), 2 * SECOND);
    assert_eq!(t.mode(), TimerMode::Repeating);
    let mut spawns = 0;
    for _ in 0..10 {
        if spawn_target(&mut t, SECOND / 2) {
            spawns += 1;
        }
    }
    assert_eq!(spawns, 2);
    // 5 s have run: 1 s is left over on the spawner.
    assert!(!spawn_target(&mut t, SECOND / 2));
    assert!(spawn_target(&mut t, SECOND / 2));
}

#[test]
fn distance_ranks_follow_float_order() {
    let r = |x: f32| distance_rank(x.to_bits());
    assert_eq!(r(0.0), r(-0.0));
    assert_eq!(r(0.0), 0x8000_0000);
    assert_eq!(r(f32::NAN), 0);
    assert!(r(f32::NAN) < r(f32::NEG_INFINITY));
    assert!(r(f32::NEG_INFINITY) < r(-1.0));
    assert!(r(-2.0) < r(-1.0));
    assert!(r(-1.0) < r(0.0));
    assert!(r(0.0) < r(f32::MIN_POSITIVE));
    assert!(r(0.5) < r(1.0));
    assert!(r(1.0) < r(1.5));
    assert!(r(1.5) < r(f32::MAX));
    assert!(r(f32::MAX) < r(f32::INFINITY));
    assert_eq!(r(-f32::NAN), 0);
}

#[test]
fn closest_target_is_first_smallest() {
    assert_eq!(closest_target(&vec![]), None);
    assert_eq!(closest_target(&vec![7]), Some(0));
    assert_eq!(closest_target(&vec![5, 3, 9, 3, 4]), Some(1));
    assert_eq!(closest_target(&vec![5, 5, 5]), Some(0));
    assert_eq!(closest_target(&vec![9, 8, 7, 1]), Some(3));
}

#[test]
fn tower_shoots_once_a_second_at_closest() {
    let mut t = tower_shooting_timer();
    assert_eq!(t.duration_nanos(), SECOND);
    assert_eq!(t.mode(), TimerMode::Repeating);
    let ranks = vec![distance_rank(3.0f32.to_bits()), distance_rank(1.25f32.to_bits()), distance_rank(2.0f32.to_bits())];
    assert_eq!(tower_shooting(&mut t, SECOND / 2, &ranks), None);
    assert_eq!(tower_shooting(&mut t, SECOND / 2, &ranks), Some(1));
    assert_eq!(tower_shooting(&mut t, SECOND / 2, &ranks), None);
    assert_eq!(tower_shooting(&mut t, SECOND / 2, &vec![]), None);
    assert_eq!(tower_shooting(&mut t, 3 * SECOND, &ranks), Some(1));
}

#[test]
fn camera_moves_follow_keys_in_order() {
    let none = CameraKeys { forward: false, back: false, left: false, right: false, turn_left: false, turn_right: false };
    assert_eq!(camera_controls(&none), vec![]);
    let all = CameraKeys { forward: true, back: true, left: true, right: true, turn_left: true, turn_right: true };
    assert_eq!(
        camera_controls(&all),
        vec![
            CameraMove::Forward,
            CameraMove::Back,
            CameraMove::Left,
            CameraMove::Right,
            CameraMove::TurnLeft,
            CameraMove::TurnRight
        ]
    );
    let some = CameraKeys { forward: false, back: true, left: false, right: true, turn_left: false, turn_right: true };
    assert_eq!(camera_controls(&some), vec![CameraMove::Back, CameraMove::Right, CameraMove::TurnRight]);
}

#[test]
fn long_frame_spawns_once_though_periods_pass() {
    // One 5 s frame passes two spawn periods but spawns in one frame only.
    let mut t = target_spawn_timer();
    assert!(spawn_target(&mut t, 5 * SECOND));
    assert_eq!(t.times_finished_this_tick(), 2);
    assert_eq!(t.elapsed_nanos(), SECOND);
    assert!(!spawn_target(&mut t, SECOND / 2));
}

#[test]
fn tower_ready_once_per_second_on_short_frames() {
    let mut t = tower_shooting_timer();
    let ranks = vec![distance_rank(1.0f32.to_bits())];
    let mut shots = 0;
    for _ in 0..35 {
        if tower_shooting(&mut t, SECOND / 10, &ranks).is_some() {
            shots += 1;
        }
    }
    assert_eq!(shots, 3);
}
