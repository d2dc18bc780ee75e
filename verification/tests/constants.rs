use game_core::protocol::{AnimationConfig, PlayerState, PlayerStateEnum};
use game_core::shared::constants::{
    get_player_anim_config, shared_animation_behaviour, shared_settings, PressedInputs,
    PLAYER_MAX_HEALTH, SERVER_PORT,
};

fn pressed(up: bool, down: bool, left: bool, right: bool) -> PressedInputs {
    PressedInputs { up, down, left, right }
}

fn step(current: PlayerStateEnum, a: PressedInputs) -> PlayerState {
    let mut s = PlayerState { current_state: current, prev_state: PlayerStateEnum::IdleFront };
    shared_animation_behaviour(&mut s, &a);
    s
}

#[test]
fn settings_and_constants() {
    let s = shared_settings();
    assert_eq!(s.protocol_id, 1997);
    assert_eq!(s.private_key, [0u8; 32]);
    assert_eq!(SERVER_PORT, 5888);
    assert_eq!(PLAYER_MAX_HEALTH, 100);
}

#[test]
fn pressing_a_direction_walks_that_way() {
    let none = PlayerStateEnum::IdleLeft;
    assert_eq!(step(none, pressed(true, false, false, false)).current_state, PlayerStateEnum::WalkingBack);
    assert_eq!(step(none, pressed(false, true, false, false)).current_state, PlayerStateEnum::WalkingFront);
    assert_eq!(step(none, pressed(false, false, true, false)).current_state, PlayerStateEnum::WalkingLeft);
    assert_eq!(step(none, pressed(false, false, false, true)).current_state, PlayerStateEnum::WalkingRight);
}

#[test]
fn later_directions_take_precedence() {
    let s = PlayerStateEnum::IdleFront;
    assert_eq!(step(s, pressed(true, true, false, false)).current_state, PlayerStateEnum::WalkingFront);
    assert_eq!(step(s, pressed(true, true, true, false)).current_state, PlayerStateEnum::WalkingLeft);
    assert_eq!(step(s, pressed(true, true, true, true)).current_state, PlayerStateEnum::WalkingRight);
}

#[test]
fn releasing_stops_in_the_same_direction() {
    let r = step(PlayerStateEnum::WalkingRight, pressed(false, false, false, false));
    assert_eq!(r.current_state, PlayerStateEnum::IdleRight);
    assert_eq!(r.prev_state, PlayerStateEnum::WalkingRight);
    let again = step(r.current_state, pressed(false, false, false, false));
    assert_eq!(again.current_state, PlayerStateEnum::IdleRight);
    assert_eq!(again.prev_state, PlayerStateEnum::IdleRight);
}

#[test]
fn default_player_animations() {
    let a = get_player_anim_config();
    let c = |f: usize, l: usize| AnimationConfig { first_sprite_index: f, last_sprite_index: l };
    assert_eq!(a.current_animation, c(0, 1));
    assert_eq!(a.idle_front, c(0, 1));
    assert_eq!(a.idle_back, c(4, 5));
    assert_eq!(a.idle_left, c(8, 9));
    assert_eq!(a.idle_right, c(12, 13));
    assert_eq!(a.move_front, c(2, 3));
    assert_eq!(a.move_back, c(6, 7));
    assert_eq!(a.move_left, c(10, 11));
    assert_eq!(a.move_right, c(14, 15));
}

#[test]
fn held_direction_ignores_previous_state() {
    let a = pressed(false, true, false, false);
    for s in [
        PlayerStateEnum::IdleFront,
        PlayerStateEnum::WalkingBack,
        PlayerStateEnum::IdleRight,
        PlayerStateEnum::WalkingLeft,
    ] {
        let r = step(s, a);
        assert_eq!(r.current_state, PlayerStateEnum::WalkingFront);
        assert_eq!(r.prev_state, s);
    }
}
