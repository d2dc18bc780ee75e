use game_core::protocol::{PlayerState, PlayerStateEnum, Score};
use game_core::render::{display_score, play_animation, AnimationStep};
use game_core::shared::constants::get_player_anim_config;

fn same(s: PlayerStateEnum) -> PlayerState {
    PlayerState { current_state: s, prev_state: s }
}

#[test]
fn state_change_restarts_animation() {
    let mut a = get_player_anim_config();
    let st = PlayerState {
        current_state: PlayerStateEnum::WalkingLeft,
        prev_state: PlayerStateEnum::IdleLeft,
    };
    let r = play_animation(&st, &mut a, 9, false);
    assert_eq!(r, AnimationStep { atlas_index: 10, finish_timer: true });
    assert_eq!(a.current_animation, a.move_left);
}

#[test]
fn finished_timer_advances_and_wraps() {
    let mut a = get_player_anim_config();
    let st = same(PlayerStateEnum::WalkingRight);
    assert_eq!(play_animation(&st, &mut a, 14, true).atlas_index, 15);
    assert_eq!(play_animation(&st, &mut a, 15, true).atlas_index, 14);
    assert_eq!(play_animation(&st, &mut a, 3, true).atlas_index, 14);
    assert_eq!(play_animation(&st, &mut a, 14, false), AnimationStep { atlas_index: 14, finish_timer: false });
    assert_eq!(a.current_animation, a.move_right);
}

#[test]
fn score_display_text() {
    assert_eq!(display_score(&Score(0)), "Score: 0");
    assert_eq!(display_score(&Score(7)), "Score: 7");
    assert_eq!(display_score(&Score(1234)), "Score: 1234");
    assert_eq!(display_score(&Score(usize::MAX)), format!("Score: {}", usize::MAX));
}

#[test]
fn sprites_cycle_through_the_run() {
    let mut a = get_player_anim_config();
    let st = same(PlayerStateEnum::IdleRight);
    let first = a.idle_right.first_sprite_index;
    let len = a.idle_right.last_sprite_index - first + 1;
    let mut index = first;
    for k in 1..=len {
        index = play_animation(&st, &mut a, index, true).atlas_index;
        if k < len {
            assert_eq!(index, first + k);
        } else {
            assert_eq!(index, first);
        }
    }
}
