//! Network settings, health values, and the player animation rules shared by
//! the client and the server.
use vstd::prelude::*;

use crate::protocol::{
    AnimationConfig, Facing, PlayerAnimations, PlayerState, PlayerStateEnum, idle_state,
};

verus! {

/// Port the server listens on.
pub const SERVER_PORT: u16 = 5888;

/// Port the client binds to; 0 lets the operating system choose one.
pub const CLIENT_PORT: u16 = 0;

/// Health of a bot.
pub const BOT_MAX_HEALTH: u16 = 255;

/// Health of a freshly spawned player.
pub const PLAYER_MAX_HEALTH: u16 = 100;

/// Damage of one bullet.
pub const BULLET_BASE_DAMAGE: u16 = 22;

/// Health of a wall.
pub const WALL_MAX_HEALTH: u16 = 1000;

/// Settings that client and server must agree on.
#[derive(Clone, Copy, Debug)]
pub struct SharedSettings {
    /// An id to identify the protocol version.
    pub protocol_id: u64,
    /// A 32-byte key to authenticate via the Netcode.io protocol.
    pub private_key: [u8; 32],
}

/// The settings of this game: protocol 1997 and an all-zero key.
pub fn shared_settings() -> (r: SharedSettings)
    ensures
        r.protocol_id == 1997,
        r.private_key@ == Seq::new(32, |i: int| 0u8),
{
    let r = SharedSettings { protocol_id: 1997, private_key: [0u8; 32] };
    assert(r.private_key@ =~= Seq::new(32, |i: int| 0u8));
    r
}

/// The movement buttons held during a tick.
#[derive(Clone, Copy, Debug, PartialEq, Eq, Structural)]
pub struct PressedInputs {
    pub up: bool,
    pub down: bool,
    pub left: bool,
    pub right: bool,
}

impl PressedInputs {
    /// Whether any movement button is held.
    pub open spec fn any(self) -> bool {
        self.up || self.down || self.left || self.right
    }
}

/// The state after a tick: walking towards the held direction (right over
/// left over down over up; up walks away from the viewer, down towards it),
/// or, with nothing held, standing in the direction faced before.
pub open spec fn next_player_state(current: PlayerStateEnum, a: PressedInputs) -> PlayerStateEnum {
    if a.right {
        PlayerStateEnum::WalkingRight
    } else if a.left {
        PlayerStateEnum::WalkingLeft
    } else if a.down {
        PlayerStateEnum::WalkingFront
    } else if a.up {
        PlayerStateEnum::WalkingBack
    } else {
        idle_state(current.facing())
    }
}

/// Advances the animation state of a player by one tick of input.
pub fn shared_animation_behaviour(player_state: &mut PlayerState, action: &PressedInputs)
    ensures
        final(player_state).prev_state == old(player_state).current_state,
        final(player_state).current_state == next_player_state(
            old(player_state).current_state,
            *action,
        ),
        action.right ==> final(player_state).current_state == PlayerStateEnum::WalkingRight,
        !action.right && action.left ==> final(player_state).current_state
            == PlayerStateEnum::WalkingLeft,
        !action.right && !action.left && action.down ==> final(player_state).current_state
            == PlayerStateEnum::WalkingFront,
        !action.right && !action.left && !action.down && action.up ==> final(player_state).current_state == PlayerStateEnum::WalkingBack,
        !action.any() ==> final(player_state).current_state.idle() && final(player_state).current_state.facing() == old(player_state).current_state.facing(),
{
    let mut is_none = true;
    if action.up || action.down || action.left || action.right {
        is_none = false;
    }
    player_state.prev_state = player_state.current_state;
    if is_none {
        if player_state.current_state.is_walking() {
            let inverse_state = player_state.current_state.get_opposite_state();
            player_state.current_state = inverse_state;
        }
        return;
    }
    if action.up {
        player_state.current_state = PlayerStateEnum::WalkingBack;
    }
    if action.down {
        player_state.current_state = PlayerStateEnum::WalkingFront;
    }
    if action.left {
        player_state.current_state = PlayerStateEnum::WalkingLeft;
    }
    if action.right {
        player_state.current_state = PlayerStateEnum::WalkingRight;
    }
}

/// With buttons held, the player walks towards the held direction that
/// comes last in the order up, down, left, right: right wins over everything,
/// left over down and up, down over up (up walks away from the viewer,
/// down towards it).
pub proof fn lemma_held_direction_priority(s: PlayerStateEnum, a: PressedInputs)
    ensures
        a.right ==> next_player_state(s, a) == PlayerStateEnum::WalkingRight,
        !a.right && a.left ==> next_player_state(s, a) == PlayerStateEnum::WalkingLeft,
        !a.right && !a.left && a.down ==> next_player_state(s, a) == PlayerStateEnum::WalkingFront,
        !a.right && !a.left && !a.down && a.up ==> next_player_state(s, a)
            == PlayerStateEnum::WalkingBack,
{
}

/// Holding a direction of higher priority as well replaces the direction
/// walked; holding one of lower priority as well changes nothing.
pub proof fn lemma_extra_button(s: PlayerStateEnum, a: PressedInputs)
    requires
        a.any(),
    ensures
        next_player_state(s, PressedInputs { up: a.up, down: a.down, left: a.left, right: true }) == PlayerStateEnum::WalkingRight,
        next_player_state(s, PressedInputs { up: true, down: a.down, left: a.left, right: a.right }) == next_player_state(s, a),
        a.left || a.right ==> next_player_state(s, PressedInputs { up: a.up, down: true, left: a.left, right: a.right })
            == next_player_state(s, a),
        a.right ==> next_player_state(s, PressedInputs { up: a.up, down: a.down, left: true, right: a.right }) == next_player_state(
            s,
            a,
        ),
{
}

/// A player walks exactly while some movement button is held.
pub proof fn lemma_walking_iff_pressed(s: PlayerStateEnum, a: PressedInputs)
    ensures
        next_player_state(s, a).idle() <==> !a.any(),
{
}

/// Releasing every button keeps the direction the player faces.
pub proof fn lemma_release_keeps_facing(s: PlayerStateEnum, a: PressedInputs)
    requires
        !a.any(),
    ensures
        next_player_state(s, a).facing() == s.facing(),
        next_player_state(s, a).idle(),
{
}

/// Once the buttons are released, further ticks without input change nothing.
pub proof fn lemma_release_is_stable(s: PlayerStateEnum, a: PressedInputs, b: PressedInputs)
    requires
        !a.any(),
        !b.any(),
    ensures
        next_player_state(next_player_state(s, a), b) == next_player_state(s, a),
{
}

/// The state reached depends only on the buttons held, unless none is held.
pub proof fn lemma_pressed_state_ignores_history(
    s: PlayerStateEnum,
    t: PlayerStateEnum,
    a: PressedInputs,
)
    requires
        a.any(),
    ensures
        next_player_state(s, a) == next_player_state(t, a),
{
}

/// The run of sprites from `first` to `last`.
pub open spec fn run(first: usize, last: usize) -> AnimationConfig {
    AnimationConfig { first_sprite_index: first, last_sprite_index: last }
}

/// The player animations of the 4x4 character sheet: each state shows two
/// sprites of the row of its facing, idle on the left, walking on the right.
pub fn get_player_anim_config() -> (r: PlayerAnimations)
    ensures
        r == (PlayerAnimations {
            current_animation: run(0, 1),
            idle_front: run(0, 1),
            idle_back: run(4, 5),
            idle_left: run(8, 9),
            idle_right: run(12, 13),
            move_front: run(2, 3),
            move_back: run(6, 7),
            move_left: run(10, 11),
            move_right: run(14, 15),
        }),
{
    PlayerAnimations::new(
        AnimationConfig { first_sprite_index: 0, last_sprite_index: 1 },
        AnimationConfig { first_sprite_index: 4, last_sprite_index: 5 },
        AnimationConfig { first_sprite_index: 8, last_sprite_index: 9 },
        AnimationConfig { first_sprite_index: 12, last_sprite_index: 13 },
        AnimationConfig { first_sprite_index: 2, last_sprite_index: 3 },
        AnimationConfig { first_sprite_index: 6, last_sprite_index: 7 },
        AnimationConfig { first_sprite_index: 10, last_sprite_index: 11 },
        AnimationConfig { first_sprite_index: 14, last_sprite_index: 15 },
    )
}

/// The row of the character sheet used for a facing.
pub open spec fn sheet_row(f: Facing) -> int {
    match f {
        Facing::Front => 0,
        Facing::Back => 1,
        Facing::Left => 2,
        Facing::Right => 3,
    }
}

/// In the player animations, every state plays two neighbouring sprites of
/// the 16-sprite sheet: those of the row of its facing, the first half of
/// the row for standing and the second half for walking. So different
/// states never share a sprite.
pub proof fn lemma_player_animations_layout(s: PlayerStateEnum)
    ensures
        ({
            let a = PlayerAnimations {
                current_animation: run(0, 1),
                idle_front: run(0, 1),
                idle_back: run(4, 5),
                idle_left: run(8, 9),
                idle_right: run(12, 13),
                move_front: run(2, 3),
                move_back: run(6, 7),
                move_left: run(10, 11),
                move_right: run(14, 15),
            }.anim_for(s);
            &&& a.first_sprite_index == 4 * sheet_row(s.facing()) + (if s.idle() {
                0int
            } else {
                2int
            })
            &&& a.last_sprite_index == a.first_sprite_index + 1
            &&& a.last_sprite_index < 16
        }),
{
}

} // verus!
