//! Replicated game state: player animation states, animation tables, the world
//! configuration, scores, health and the input actions.
use vstd::prelude::*;

verus! {

/// The actions a player can trigger.
#[derive(Clone, Copy, Debug, PartialEq, Eq, Structural)]
pub enum Inputs {
    Up,
    Down,
    Left,
    Right,
    Mouse,
    Shoot,
}

/// How an input action is read from the hardware.
#[derive(Clone, Copy, Debug, PartialEq, Eq, Structural)]
pub enum ControlKind {
    /// A button that is either pressed or not.
    Button,
    /// A pair of axes (the cursor position).
    DualAxis,
}

impl Inputs {
    /// The cursor action is a dual-axis control; every other action is a button.
    pub fn input_control_kind(&self) -> (r: ControlKind)
        ensures
            r == (if *self is Mouse {
                ControlKind::DualAxis
            } else {
                ControlKind::Button
            }),
    {
        match self {
            Inputs::Mouse => ControlKind::DualAxis,
            _ => ControlKind::Button,
        }
    }
}

/// Direction a player sprite faces.
#[derive(Clone, Copy, Debug, PartialEq, Eq, Structural)]
pub enum Facing {
    Front,
    Back,
    Left,
    Right,
}

/// Animation state of a player: standing or walking, in one of four directions.
#[derive(Clone, Copy, Debug, PartialEq, Eq, Structural)]
pub enum PlayerStateEnum {
    IdleFront,
    IdleBack,
    IdleLeft,
    IdleRight,
    WalkingFront,
    WalkingBack,
    WalkingLeft,
    WalkingRight,
}

/// The standing state that faces `f`.
pub open spec fn idle_state(f: Facing) -> PlayerStateEnum {
    match f {
        Facing::Front => PlayerStateEnum::IdleFront,
        Facing::Back => PlayerStateEnum::IdleBack,
        Facing::Left => PlayerStateEnum::IdleLeft,
        Facing::Right => PlayerStateEnum::IdleRight,
    }
}

/// The walking state that faces `f`.
pub open spec fn walking_state(f: Facing) -> PlayerStateEnum {
    match f {
        Facing::Front => PlayerStateEnum::WalkingFront,
        Facing::Back => PlayerStateEnum::WalkingBack,
        Facing::Left => PlayerStateEnum::WalkingLeft,
        Facing::Right => PlayerStateEnum::WalkingRight,
    }
}

impl PlayerStateEnum {
    /// Whether the state is one of the four standing states.
    pub open spec fn idle(self) -> bool {
        ||| self is IdleFront
        ||| self is IdleBack
        ||| self is IdleLeft
        ||| self is IdleRight
    }

    /// The direction the state faces.
    pub open spec fn facing(self) -> Facing {
        match self {
            PlayerStateEnum::IdleFront | PlayerStateEnum::WalkingFront => Facing::Front,
            PlayerStateEnum::IdleBack | PlayerStateEnum::WalkingBack => Facing::Back,
            PlayerStateEnum::IdleLeft | PlayerStateEnum::WalkingLeft => Facing::Left,
            PlayerStateEnum::IdleRight | PlayerStateEnum::WalkingRight => Facing::Right,
        }
    }

    /// The state with the same facing and the other of standing and walking.
    pub open spec fn opposite(self) -> PlayerStateEnum {
        if self.idle() {
            walking_state(self.facing())
        } else {
            idle_state(self.facing())
        }
    }

    pub fn is_idle(&self) -> (r: bool)
        ensures
            r == self.idle(),
    {
        match self {
            PlayerStateEnum::IdleFront => true,
            PlayerStateEnum::IdleBack => true,
            PlayerStateEnum::IdleLeft => true,
            PlayerStateEnum::IdleRight => true,
            _ => false,
        }
    }

    pub fn is_walking(&self) -> (r: bool)
        ensures
            r == !self.idle(),
    {
        !self.is_idle()
    }

    /// The state with the same facing and the other of standing and walking.
    pub fn get_opposite_state(&self) -> (r: Self)
        ensures
            r == self.opposite(),
            r.facing() == self.facing(),
            r.idle() == !self.idle(),
    {
        match self {
            PlayerStateEnum::IdleFront => PlayerStateEnum::WalkingFront,
            PlayerStateEnum::IdleBack => PlayerStateEnum::WalkingBack,
            PlayerStateEnum::IdleLeft => PlayerStateEnum::WalkingLeft,
            PlayerStateEnum::IdleRight => PlayerStateEnum::WalkingRight,
            PlayerStateEnum::WalkingFront => PlayerStateEnum::IdleFront,
            PlayerStateEnum::WalkingBack => PlayerStateEnum::IdleBack,
            PlayerStateEnum::WalkingLeft => PlayerStateEnum::IdleLeft,
            PlayerStateEnum::WalkingRight => PlayerStateEnum::IdleRight,
        }
    }
}

/// A state is determined by its facing and whether it is a standing state.
pub proof fn lemma_state_determined_by_facing_and_idle(a: PlayerStateEnum, b: PlayerStateEnum)
    requires
        a.facing() == b.facing(),
        a.idle() == b.idle(),
    ensures
        a == b,
{
}

/// Switching between standing and walking twice gives back the original state.
pub proof fn lemma_opposite_involution(s: PlayerStateEnum)
    ensures
        s.opposite().opposite() == s,
{
}

/// The state of a player in the current and in the previous simulation tick.
#[derive(Clone, Copy, Debug, PartialEq, Eq, Structural)]
pub struct PlayerState {
    pub current_state: PlayerStateEnum,
    pub prev_state: PlayerStateEnum,
}

/// A run of sprites in the sprite sheet, from the first to the last index.
#[derive(Clone, Copy, Debug, PartialEq, Eq, Structural)]
pub struct AnimationConfig {
    pub first_sprite_index: usize,
    pub last_sprite_index: usize,
}

/// The animation of each player state, and the one currently shown.
#[derive(Clone, Copy, Debug, PartialEq, Eq, Structural)]
pub struct PlayerAnimations {
    pub current_animation: AnimationConfig,
    pub idle_front: AnimationConfig,
    pub idle_back: AnimationConfig,
    pub idle_left: AnimationConfig,
    pub idle_right: AnimationConfig,
    pub move_front: AnimationConfig,
    pub move_back: AnimationConfig,
    pub move_left: AnimationConfig,
    pub move_right: AnimationConfig,
}

impl PlayerAnimations {
    /// The animation that belongs to state `s`.
    pub open spec fn anim_for(self, s: PlayerStateEnum) -> AnimationConfig {
        match s {
            PlayerStateEnum::IdleFront => self.idle_front,
            PlayerStateEnum::IdleBack => self.idle_back,
            PlayerStateEnum::IdleLeft => self.idle_left,
            PlayerStateEnum::IdleRight => self.idle_right,
            PlayerStateEnum::WalkingFront => self.move_front,
            PlayerStateEnum::WalkingBack => self.move_back,
            PlayerStateEnum::WalkingLeft => self.move_left,
            PlayerStateEnum::WalkingRight => self.move_right,
        }
    }

    /// A table whose shown animation starts as the front-facing idle one.
    pub fn new(
        idle_front: AnimationConfig,
        idle_back: AnimationConfig,
        idle_left: AnimationConfig,
        idle_right: AnimationConfig,
        move_front: AnimationConfig,
        move_back: AnimationConfig,
        move_left: AnimationConfig,
        move_right: AnimationConfig,
    ) -> (r: Self)
        ensures
            r == (PlayerAnimations {
                current_animation: idle_front,
                idle_front,
                idle_back,
                idle_left,
                idle_right,
                move_front,
                move_back,
                move_left,
                move_right,
            }),
    {
        PlayerAnimations {
            current_animation: idle_front,
            idle_front,
            idle_back,
            idle_left,
            idle_right,
            move_front,
            move_back,
            move_left,
            move_right,
        }
    }

    pub fn get_anim(&self, player_state: &PlayerStateEnum) -> (r: AnimationConfig)
        ensures
            r == self.anim_for(*player_state),
    {
        match player_state {
            PlayerStateEnum::IdleFront => self.idle_front,
            PlayerStateEnum::IdleBack => self.idle_back,
            PlayerStateEnum::IdleLeft => self.idle_left,
            PlayerStateEnum::IdleRight => self.idle_right,
            PlayerStateEnum::WalkingFront => self.move_front,
            PlayerStateEnum::WalkingBack => self.move_back,
            PlayerStateEnum::WalkingLeft => self.move_left,
            PlayerStateEnum::WalkingRight => self.move_right,
        }
    }
}

/// Seed and side length of the generated square world.
#[derive(Clone, Copy, Debug, PartialEq, Eq, Structural)]
pub struct WorldConfig {
    pub seed: u32,
    pub world_size: u64,
}

/// Points a player has collected.
#[derive(Clone, Copy, Debug, PartialEq, Eq, Structural)]
pub struct Score(pub usize);

/// Remaining and maximal health of an entity.
#[derive(Clone, Copy, Debug, PartialEq, Eq, Structural)]
pub struct HealthComponent {
    pub current_health: u16,
    pub max_health: u16,
}

} // verus!
