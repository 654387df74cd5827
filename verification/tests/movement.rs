use bevy_flycam::capture::CaptureState;
use bevy_flycam::keys::{
    Key, KeyBindings, KEY_A, KEY_D, KEY_ESCAPE, KEY_S, KEY_SHIFT_LEFT, KEY_SPACE, KEY_W,
};
use bevy_flycam::movement::{player_move, Heading};

fn captured(keys: &[Key]) -> Heading {
    player_move(keys, &KeyBindings::default(), CaptureState::Captured)
}

fn heading(forward: i8, right: i8, up: i8) -> Heading {
    Heading { forward, right, up }
}

/// What a host does with a heading over an upright camera that looks down
/// the negative z axis: unit length, then speed and time.
fn displacement(h: Heading, speed: [f64; 3], seconds: f64) -> [f64; 3] {
    let raw = [f64::from(h.right), f64::from(h.up), -f64::from(h.forward)];
    let len = (raw[0] * raw[0] + raw[1] * raw[1] + raw[2] * raw[2]).sqrt();
    if h.stands_still() {
        return [0.0, 0.0, 0.0];
    }
    [
        raw[0] / len * speed[0] * seconds,
        raw[1] / len * speed[1] * seconds,
        raw[2] / len * speed[2] * seconds,
    ]
}

fn magnitude(v: [f64; 3]) -> f64 {
    (v[0] * v[0] + v[1] * v[1] + v[2] * v[2]).sqrt()
}

#[test]
fn each_key_pushes_along_its_axis() {
    assert_eq!(captured(&[KEY_W]), heading(1, 0, 0));
    assert_eq!(captured(&[KEY_S]), heading(-1, 0, 0));
    assert_eq!(captured(&[KEY_D]), heading(0, 1, 0));
    assert_eq!(captured(&[KEY_A]), heading(0, -1, 0));
    assert_eq!(captured(&[KEY_SPACE]), heading(0, 0, 1));
    assert_eq!(captured(&[KEY_SHIFT_LEFT]), heading(0, 0, -1));
}

#[test]
fn keys_on_different_axes_add_up() {
    assert_eq!(captured(&[KEY_W, KEY_D]), heading(1, 1, 0));
    assert_eq!(captured(&[KEY_S, KEY_A, KEY_SPACE]), heading(-1, -1, 1));
    assert_eq!(captured(&[KEY_SHIFT_LEFT, KEY_W, KEY_A]), heading(1, -1, -1));
}

#[test]
fn no_key_means_no_motion() {
    assert_eq!(captured(&[]), heading(0, 0, 0));
    assert!(captured(&[]).stands_still());
}

#[test]
fn unbound_keys_mean_no_motion() {
    assert_eq!(captured(&[KEY_ESCAPE, 0x05, 0x3A, u32::MAX]), heading(0, 0, 0));
    assert_eq!(captured(&[0x05, KEY_W, 0x3A]), heading(1, 0, 0));
}

#[test]
fn opposite_keys_cancel() {
    assert!(captured(&[KEY_W, KEY_S]).stands_still());
    assert!(captured(&[KEY_A, KEY_D]).stands_still());
    assert!(captured(&[KEY_SPACE, KEY_SHIFT_LEFT]).stands_still());
    assert!(captured(&[KEY_W, KEY_S, KEY_A, KEY_D, KEY_SPACE, KEY_SHIFT_LEFT]).stands_still());
    assert_eq!(captured(&[KEY_W, KEY_S, KEY_D]), heading(0, 1, 0));
}

#[test]
fn zero_heading_gives_zero_displacement_for_any_time() {
    for seconds in [0.0, 0.016, 0.5, 1000.0] {
        for keys in [&[][..], &[KEY_W, KEY_S][..], &[KEY_ESCAPE][..]] {
            let d = displacement(captured(keys), [12.0, 12.0, 12.0], seconds);
            assert_eq!(d, [0.0, 0.0, 0.0]);
            assert!(d.iter().all(|c| !c.is_nan()));
        }
    }
}

#[test]
fn order_and_repetition_of_keys_do_not_matter() {
    assert_eq!(captured(&[KEY_W, KEY_D]), captured(&[KEY_D, KEY_W]));
    assert_eq!(captured(&[KEY_W, KEY_W, KEY_W]), heading(1, 0, 0));
    assert_eq!(captured(&[KEY_W, KEY_S, KEY_W]), heading(0, 0, 0));
    assert_eq!(captured(&[KEY_A, KEY_SPACE, KEY_A, KEY_SPACE]), heading(0, -1, 1));
}

#[test]
fn free_cursor_means_no_motion_whatever_is_held() {
    let b = KeyBindings::default();
    for keys in [
        &[][..],
        &[KEY_W][..],
        &[KEY_W, KEY_D, KEY_SPACE][..],
        &[KEY_S, KEY_A, KEY_SHIFT_LEFT, KEY_ESCAPE][..],
    ] {
        assert_eq!(player_move(keys, &b, CaptureState::Free), heading(0, 0, 0));
    }
}

#[test]
fn a_key_bound_to_both_directions_pushes_the_first_way() {
    let b = KeyBindings { move_backward: KEY_W, ..KeyBindings::default() };
    assert_eq!(player_move(&[KEY_W], &b, CaptureState::Captured), heading(1, 0, 0));
    assert_eq!(player_move(&[KEY_S], &b, CaptureState::Captured), heading(0, 0, 0));
    let b = KeyBindings { move_right: KEY_W, ..KeyBindings::default() };
    assert_eq!(player_move(&[KEY_W], &b, CaptureState::Captured), heading(1, 0, 0));
    assert_eq!(player_move(&[KEY_W, KEY_A], &b, CaptureState::Captured), heading(1, -1, 0));
    let b = KeyBindings { move_descend: KEY_SPACE, ..KeyBindings::default() };
    assert_eq!(player_move(&[KEY_SPACE], &b, CaptureState::Captured), heading(0, 0, 1));
}

#[test]
fn rebound_keys_are_honoured() {
    let b = KeyBindings { move_ascend: 0x08, move_descend: 0x14, ..KeyBindings::default() };
    assert_eq!(player_move(&[0x08], &b, CaptureState::Captured), heading(0, 0, 1));
    assert_eq!(player_move(&[0x14], &b, CaptureState::Captured), heading(0, 0, -1));
    assert_eq!(player_move(&[KEY_SPACE], &b, CaptureState::Captured), heading(0, 0, 0));
}

#[test]
fn toggle_key_does_not_move_unless_bound_to_move() {
    assert_eq!(captured(&[KEY_ESCAPE]), heading(0, 0, 0));
    let b = KeyBindings { toggle_grab_cursor: KEY_W, ..KeyBindings::default() };
    assert_eq!(player_move(&[KEY_W], &b, CaptureState::Captured), heading(1, 0, 0));
}

#[test]
fn components_stay_within_one() {
    let all = [KEY_W, KEY_S, KEY_A, KEY_D, KEY_SPACE, KEY_SHIFT_LEFT];
    for mask in 0u32..64 {
        let keys: Vec<Key> =
            all.iter().enumerate().filter(|(i, _)| mask & (1 << i) != 0).map(|(_, k)| *k).collect();
        let h = captured(&keys);
        assert!((-1..=1).contains(&h.forward));
        assert!((-1..=1).contains(&h.right));
        assert!((-1..=1).contains(&h.up));
        let w = i8::from(mask & 1 != 0) - i8::from(mask & 2 != 0);
        let d = i8::from(mask & 8 != 0) - i8::from(mask & 4 != 0);
        let u = i8::from(mask & 16 != 0) - i8::from(mask & 32 != 0);
        assert_eq!(h, heading(w, d, u));
    }
}

#[test]
fn forward_for_half_a_second_at_speed_twelve_moves_six_units() {
    let h = captured(&[KEY_W]);
    assert_eq!(h, heading(1, 0, 0));
    let d = displacement(h, [12.0, 12.0, 12.0], 0.5);
    assert_eq!(d, [0.0, 0.0, -6.0]);
    assert_eq!(magnitude(d), 6.0);
}

#[test]
fn two_keys_move_no_faster_than_one() {
    let one = displacement(captured(&[KEY_W]), [12.0, 12.0, 12.0], 0.5);
    let two = displacement(captured(&[KEY_W, KEY_D]), [12.0, 12.0, 12.0], 0.5);
    let three = displacement(captured(&[KEY_W, KEY_D, KEY_SPACE]), [12.0, 12.0, 12.0], 0.5);
    assert!((magnitude(one) - 6.0).abs() < 1e-12);
    assert!((magnitude(two) - 6.0).abs() < 1e-12);
    assert!((magnitude(three) - 6.0).abs() < 1e-12);
}
