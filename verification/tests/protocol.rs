use game_core::protocol::{
    AnimationConfig, ControlKind, Inputs, PlayerAnimations, PlayerStateEnum,
};

const ALL_STATES: [PlayerStateEnum; 8] = [
    PlayerStateEnum::IdleFront,
    PlayerStateEnum::IdleBack,
    PlayerStateEnum::IdleLeft,
    PlayerStateEnum::IdleRight,
    PlayerStateEnum::WalkingFront,
    PlayerStateEnum::WalkingBack,
    PlayerStateEnum::WalkingLeft,
    PlayerStateEnum::WalkingRight,
];

#[test]
fn idle_and_walking_states() {
    assert!(PlayerStateEnum::IdleFront.is_idle());
    assert!(PlayerStateEnum::IdleRight.is_idle());
    assert!(!PlayerStateEnum::WalkingBack.is_idle());
    assert!(PlayerStateEnum::WalkingLeft.is_walking());
    assert!(!PlayerStateEnum::IdleLeft.is_walking());
    for s in ALL_STATES {
        assert_eq!(s.is_walking(), !s.is_idle());
    }
}

#[test]
fn opposite_state_switches_idle_and_walking() {
    assert_eq!(PlayerStateEnum::IdleFront.get_opposite_state(), PlayerStateEnum::WalkingFront);
    assert_eq!(PlayerStateEnum::IdleBack.get_opposite_state(), PlayerStateEnum::WalkingBack);
    assert_eq!(PlayerStateEnum::WalkingLeft.get_opposite_state(), PlayerStateEnum::IdleLeft);
    assert_eq!(PlayerStateEnum::WalkingRight.get_opposite_state(), PlayerStateEnum::IdleRight);
    for s in ALL_STATES {
        assert_eq!(s.get_opposite_state().get_opposite_state(), s);
        assert_ne!(s.get_opposite_state().is_idle(), s.is_idle());
    }
}

#[test]
fn control_kinds() {
    assert_eq!(Inputs::Mouse.input_control_kind(), ControlKind::DualAxis);
    for i in [Inputs::Up, Inputs::Down, Inputs::Left, Inputs::Right, Inputs::Shoot] {
        assert_eq!(i.input_control_kind(), ControlKind::Button);
    }
}

fn cfg(a: usize, b: usize) -> AnimationConfig {
    AnimationConfig { first_sprite_index: a, last_sprite_index: b }
}

#[test]
fn animations_new_and_get_anim() {
    let a = PlayerAnimations::new(
        cfg(1, 2),
        cfg(3, 4),
        cfg(5, 6),
        cfg(7, 8),
        cfg(9, 10),
        cfg(11, 12),
        cfg(13, 14),
        cfg(15, 16),
    );
    assert_eq!(a.current_animation, cfg(1, 2));
    assert_eq!(a.get_anim(&PlayerStateEnum::IdleFront), cfg(1, 2));
    assert_eq!(a.get_anim(&PlayerStateEnum::IdleBack), cfg(3, 4));
    assert_eq!(a.get_anim(&PlayerStateEnum::IdleLeft), cfg(5, 6));
    assert_eq!(a.get_anim(&PlayerStateEnum::IdleRight), cfg(7, 8));
    assert_eq!(a.get_anim(&PlayerStateEnum::WalkingFront), cfg(9, 10));
    assert_eq!(a.get_anim(&PlayerStateEnum::WalkingBack), cfg(11, 12));
    assert_eq!(a.get_anim(&PlayerStateEnum::WalkingLeft), cfg(13, 14));
    assert_eq!(a.get_anim(&PlayerStateEnum::WalkingRight), cfg(15, 16));
}
