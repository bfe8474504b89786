use cube_rain::offset::OFFSET_SCALE;
use cube_rain::spawner::{SpawnState, SPAWN_INTERVAL_MICROS, SPAWN_SPAN};

#[test]
fn fresh_state_is_empty() {
    let s = SpawnState::new();
    assert_eq!(s.pending_micros, 0);
    assert_eq!(s.count, 0);
}

#[test]
fn short_frames_only_accumulate() {
    let mut s = SpawnState::new();
    assert!(s.step(50_000).is_none());
    assert_eq!(s.pending_micros, 50_000);
    assert_eq!(s.count, 0);
    assert!(s.step(49_999).is_none());
    assert_eq!(s.pending_micros, 99_999);
    assert_eq!(s.count, 0);
}

#[test]
fn a_full_interval_spawns_one_cube() {
    let mut s = SpawnState::new();
    assert!(s.step(50_000).is_none());
    let cmd = s.step(60_000).expect("the interval elapsed");
    assert_eq!(s.pending_micros, 10_000);
    assert_eq!(s.count, 1);
    assert_eq!(cmd.count, 1);
    assert_eq!(cmd.label, b"Cubes: 1".to_vec());
    let edge = (SPAWN_SPAN as i64) * (OFFSET_SCALE / 2);
    assert!(-edge <= cmd.x && cmd.x < edge);
    assert!(-edge <= cmd.z && cmd.z < edge);
}

#[test]
fn the_boundary_frame_spawns() {
    let mut s = SpawnState::new();
    let cmd = s.step(SPAWN_INTERVAL_MICROS).expect("exactly one interval");
    assert_eq!(s.pending_micros, 0);
    assert_eq!(cmd.count, 1);
}

#[test]
fn at_most_one_cube_per_frame() {
    // A long frame consumes one interval only; the rest stays pending.
    let mut s = SpawnState::new();
    let cmd = s.step(250_000).expect("two and a half intervals");
    assert_eq!(cmd.count, 1);
    assert_eq!(s.pending_micros, 150_000);
    let cmd = s.step(0).expect("a second interval is still pending");
    assert_eq!(cmd.count, 2);
    assert_eq!(s.pending_micros, 50_000);
    assert!(s.step(0).is_none());
    assert_eq!(s.pending_micros, 50_000);
    assert_eq!(s.count, 2);
}

#[test]
fn labels_follow_the_count() {
    let mut s = SpawnState::new();
    for expected in 1u32..=5 {
        let cmd = s.step(SPAWN_INTERVAL_MICROS).expect("one interval per frame");
        assert_eq!(cmd.count, expected);
        assert_eq!(cmd.label, format!("Cubes: {}", expected).into_bytes());
    }
}
