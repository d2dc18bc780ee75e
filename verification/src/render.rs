//! Per-frame sprite animation of players.
use vstd::prelude::*;

use crate::protocol::{AnimationConfig, PlayerAnimations, PlayerState, Score};
use crate::shared::world_generator::{decimal_text, digit_str, digit_text};

verus! {

/// What a frame does to a player sprite: the sprite shown next, and whether
/// the frame timer is to be set to finished.
#[derive(Clone, Copy, Debug, PartialEq, Eq, Structural)]
pub struct AnimationStep {
    pub atlas_index: usize,
    pub finish_timer: bool,
}

/// The sprite after one frame: the first sprite of the animation when the
/// state just changed; when the frame timer just finished, the next sprite,
/// wrapping to the first after the last (or from outside the run); otherwise
/// the same sprite.
pub open spec fn next_atlas_index(
    state: PlayerState,
    anim: AnimationConfig,
    index: usize,
    timer_just_finished: bool,
) -> usize {
    if state.prev_state != state.current_state {
        anim.first_sprite_index
    } else if timer_just_finished {
        if index >= anim.last_sprite_index || index < anim.first_sprite_index {
            anim.first_sprite_index
        } else {
            (index + 1) as usize
        }
    } else {
        index
    }
}

/// Selects the animation of the player's current state and advances its sprite.
pub fn play_animation(
    state: &PlayerState,
    animations: &mut PlayerAnimations,
    atlas_index: usize,
    timer_just_finished: bool,
) -> (r: AnimationStep)
    ensures
        final(animations).current_animation == old(animations).anim_for(state.current_state),
        final(animations).idle_front == old(animations).idle_front,
        final(animations).idle_back == old(animations).idle_back,
        final(animations).idle_left == old(animations).idle_left,
        final(animations).idle_right == old(animations).idle_right,
        final(animations).move_front == old(animations).move_front,
        final(animations).move_back == old(animations).move_back,
        final(animations).move_left == old(animations).move_left,
        final(animations).move_right == old(animations).move_right,
        r.atlas_index == next_atlas_index(
            *state,
            old(animations).anim_for(state.current_state),
            atlas_index,
            timer_just_finished,
        ),
        r.finish_timer == (state.prev_state != state.current_state),
        state.prev_state != state.current_state ==> r.atlas_index == old(animations).anim_for(
            state.current_state,
        ).first_sprite_index,
        state.prev_state == state.current_state && !timer_just_finished ==> r.atlas_index
            == atlas_index,
        state.prev_state == state.current_state && timer_just_finished && old(animations).anim_for(
            state.current_state,
        ).first_sprite_index <= atlas_index < old(animations).anim_for(
            state.current_state,
        ).last_sprite_index ==> r.atlas_index == atlas_index + 1,
        state.prev_state == state.current_state && timer_just_finished && !(old(animations).anim_for(state.current_state).first_sprite_index <= atlas_index < old(animations).anim_for(state.current_state).last_sprite_index) ==> r.atlas_index == old(animations).anim_for(state.current_state).first_sprite_index,
{
    animations.current_animation = animations.get_anim(&state.current_state);
    let anim = animations.current_animation;
    if state.prev_state != state.current_state {
        AnimationStep { atlas_index: anim.first_sprite_index, finish_timer: true }
    } else if timer_just_finished {
        if atlas_index >= anim.last_sprite_index || atlas_index < anim.first_sprite_index {
            AnimationStep { atlas_index: anim.first_sprite_index, finish_timer: false }
        } else {
            AnimationStep { atlas_index: atlas_index + 1, finish_timer: false }
        }
    } else {
        AnimationStep { atlas_index, finish_timer: false }
    }
}

/// A change of state restarts the animation at its first sprite, whether or
/// not the frame timer finished; with the same state, a finished timer moves
/// one sprite on inside the run and back to the first sprite from the last
/// one (or from outside the run), and an unfinished timer keeps the sprite.
pub proof fn lemma_sprite_step(
    state: PlayerState,
    anim: AnimationConfig,
    index: usize,
    timer_just_finished: bool,
)
    ensures
        state.prev_state != state.current_state ==> next_atlas_index(
            state,
            anim,
            index,
            timer_just_finished,
        ) == anim.first_sprite_index,
        state.prev_state == state.current_state && timer_just_finished && anim.first_sprite_index
            <= index < anim.last_sprite_index ==> next_atlas_index(state, anim, index, true) == index
            + 1,
        state.prev_state == state.current_state && timer_just_finished && (index
            >= anim.last_sprite_index || index < anim.first_sprite_index) ==> next_atlas_index(
            state,
            anim,
            index,
            true,
        ) == anim.first_sprite_index,
        state.prev_state == state.current_state && !timer_just_finished ==> next_atlas_index(
            state,
            anim,
            index,
            false,
        ) == index,
{
}

/// Whenever the sprite changes in a frame, it lands inside the run of the
/// animation; when neither the state changed nor the timer finished, it stays.
pub proof fn lemma_sprite_stays_in_run(
    state: PlayerState,
    anim: AnimationConfig,
    index: usize,
    timer_just_finished: bool,
)
    requires
        anim.first_sprite_index <= anim.last_sprite_index,
    ensures
        (state.prev_state != state.current_state || timer_just_finished) ==> anim.first_sprite_index
            <= next_atlas_index(state, anim, index, timer_just_finished)
            <= anim.last_sprite_index,
        (state.prev_state == state.current_state && !timer_just_finished) ==> next_atlas_index(
            state,
            anim,
            index,
            timer_just_finished,
        ) == index,
{
}

/// The sprite after `n` frames of an unchanged state in which the timer finished each time.
pub open spec fn sprite_after(state: PlayerState, anim: AnimationConfig, index: usize, n: nat) -> usize
    decreases n,
{
    if n == 0 {
        index
    } else {
        next_atlas_index(state, anim, sprite_after(state, anim, index, (n - 1) as nat), true)
    }
}

/// While the state stays the same, the sprites cycle through the run: after
/// `k` finished frames from the first sprite (`k` within the run's length)
/// the sprite is the `k`-th of the run, and after a full run's length it is
/// the first sprite again.
pub proof fn lemma_animation_cycles(state: PlayerState, anim: AnimationConfig, k: nat)
    requires
        state.prev_state == state.current_state,
        anim.first_sprite_index <= anim.last_sprite_index,
        k <= anim.last_sprite_index - anim.first_sprite_index + 1,
    ensures
        k <= anim.last_sprite_index - anim.first_sprite_index ==> sprite_after(
            state,
            anim,
            anim.first_sprite_index,
            k,
        ) == anim.first_sprite_index + k,
        k == anim.last_sprite_index - anim.first_sprite_index + 1 ==> sprite_after(
            state,
            anim,
            anim.first_sprite_index,
            k,
        ) == anim.first_sprite_index,
    decreases k,
{
    if k > 0 {
        lemma_animation_cycles(state, anim, (k - 1) as nat);
    }
}

/// The text of the score display.
pub open spec fn score_text(score: Score) -> Seq<char> {
    "Score: "@ + decimal_text(score.0 as nat)
}

/// The digits `ds` (least significant first) written most significant first.
pub open spec fn digits_text(ds: Seq<u8>) -> Seq<char>
    decreases ds.len(),
{
    if ds.len() == 0 {
        Seq::empty()
    } else {
        digit_text(ds.last() as int) + digits_text(ds.drop_last())
    }
}

/// The decimal representation of `n`.
fn decimal_string(n: usize) -> (r: String)
    ensures
        r@ == decimal_text(n as nat),
{
    let mut digits: Vec<u8> = Vec::new();
    let mut m: usize = n;
    while m >= 10
        invariant
            decimal_text(n as nat) == decimal_text(m as nat) + digits_text(digits@),
            forall|k: int| 0 <= k < digits@.len() ==> #[trigger] digits@[k] < 10,
        decreases m,
    {
        let ghost before = digits@;
        let d: u8 = (m % 10) as u8;
        digits.push(d);
        assert(digits@.drop_last() =~= before);
        assert(decimal_text(m as nat) == decimal_text((m / 10) as nat) + digit_text(d as int));
        assert(decimal_text(n as nat) == decimal_text((m / 10) as nat) + digits_text(digits@));
        m = m / 10;
    }
    let ghost before = digits@;
    digits.push(m as u8);
    assert(digits@.drop_last() =~= before);
    assert(decimal_text(n as nat) == digits_text(digits@));
    let mut out = String::new();
    let mut i: usize = digits.len();
    assert(digits@.take(i as int) =~= digits@);
    while i > 0
        invariant
            i <= digits@.len(),
            forall|k: int| 0 <= k < digits@.len() ==> #[trigger] digits@[k] < 10,
            out@ + digits_text(digits@.take(i as int)) == decimal_text(n as nat),
        decreases i,
    {
        assert(digits@.take(i as int).drop_last() =~= digits@.take(i - 1));
        i = i - 1;
        out.append(digit_str(digits[i]));
    }
    assert(digits@.take(0) =~= Seq::<u8>::empty());
    out
}

/// The text shown in the score display of the client.
pub fn display_score(score: &Score) -> (r: String)
    ensures
        r@ == score_text(*score),
{
    let mut text = String::new();
    text.append("Score: ");
    let digits = decimal_string(score.0);
    text.append(digits.as_str());
    text
}

} // verus!
