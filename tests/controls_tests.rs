use rpg_core::controls::{axis, player_motion, Motion, MovementKeys};

fn keys(forward: bool, backward: bool, turn_left: bool, turn_right: bool, dash: bool) -> MovementKeys {
    MovementKeys { forward, backward, turn_left, turn_right, dash }
}

#[test]
fn axis_reads_opposing_keys() {
    assert_eq!(axis(false, false), 0);
    assert_eq!(axis(true, false), 1);
    assert_eq!(axis(false, true), -1);
    assert_eq!(axis(true, true), 1);
}

#[test]
fn idle_player_stands_still() {
    assert_eq!(
        player_motion(keys(false, false, false, false, false), true),
        Motion::Walk { movement_factor: 0, rotation_factor: 0 }
    );
}

#[test]
fn walking_and_turning() {
    assert_eq!(
        player_motion(keys(true, false, false, true, false), true),
        Motion::Walk { movement_factor: 1, rotation_factor: -1 }
    );
    assert_eq!(
        player_motion(keys(false, true, true, false, false), false),
        Motion::Walk { movement_factor: -1, rotation_factor: 1 }
    );
}

#[test]
fn forward_and_left_win_over_their_opposites() {
    assert_eq!(
        player_motion(keys(true, true, true, true, false), true),
        Motion::Walk { movement_factor: 1, rotation_factor: 1 }
    );
}

#[test]
fn dash_when_affordable() {
    assert_eq!(player_motion(keys(false, false, false, false, true), true), Motion::Dash);
    assert_eq!(player_motion(keys(true, true, true, false, true), true), Motion::Dash);
}

#[test]
fn dash_without_stamina_walks() {
    assert_eq!(
        player_motion(keys(true, false, true, false, true), false),
        Motion::Walk { movement_factor: 1, rotation_factor: 1 }
    );
}
