use starry_engine::input::{intent_of_keys, MoveIntent, MoveKey};

#[test]
fn opposing_keys_do_not_move() {
    let i = intent_of_keys(&vec![MoveKey::Forward, MoveKey::Backward]);
    assert_eq!(i.forward, 0);
    assert!(!i.moves());
    assert_eq!(i.move_len_sq(), 0);
    let i = intent_of_keys(&vec![MoveKey::StrafeLeft, MoveKey::Rise, MoveKey::StrafeRight, MoveKey::Sink]);
    assert!(!i.moves());
    let i = intent_of_keys(&vec![MoveKey::LookLeft, MoveKey::LookRight]);
    assert!(!i.turns());
}

#[test]
fn diagonal_has_squared_length_two() {
    let i = intent_of_keys(&vec![MoveKey::Forward, MoveKey::StrafeRight]);
    assert_eq!(i, MoveIntent { yaw: 0, pitch: 0, forward: 1, right: 1, up: 0 });
    assert_eq!(i.move_len_sq(), 2);
    assert!(i.moves());
    let step = 5.0f32 * 0.1 / (i.move_len_sq() as f32).sqrt();
    let dist = (2.0f32 * step * step).sqrt();
    assert!((dist - 0.5).abs() < 1e-6);
}

#[test]
fn single_keys_map_to_axes() {
    let i = intent_of_keys(&vec![MoveKey::LookLeft]);
    assert_eq!(i, MoveIntent { yaw: -1, pitch: 0, forward: 0, right: 0, up: 0 });
    assert_eq!(i.turn_len_sq(), 1);
    assert!(i.turns());
    assert!(!i.moves());
    let i = intent_of_keys(&vec![MoveKey::LookUp, MoveKey::Backward, MoveKey::Sink, MoveKey::StrafeLeft]);
    assert_eq!(i, MoveIntent { yaw: 0, pitch: 1, forward: -1, right: -1, up: -1 });
    assert_eq!(i.move_len_sq(), 3);
    let i = intent_of_keys(&vec![MoveKey::LookDown, MoveKey::LookRight, MoveKey::Rise]);
    assert_eq!(i, MoveIntent { yaw: 1, pitch: -1, forward: 0, right: 0, up: 1 });
    assert_eq!(i.turn_len_sq(), 2);
}

#[test]
fn repeated_key_counts_once() {
    let i = intent_of_keys(&vec![MoveKey::Forward, MoveKey::Forward, MoveKey::Forward]);
    assert_eq!(i.forward, 1);
    assert_eq!(i.move_len_sq(), 1);
    let i = intent_of_keys(&vec![]);
    assert_eq!(i, MoveIntent { yaw: 0, pitch: 0, forward: 0, right: 0, up: 0 });
}
