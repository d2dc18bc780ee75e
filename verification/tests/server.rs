use game_core::protocol::{HealthComponent, Score};
use game_core::server::{
    credit_predicted_hit, generate_seed, pickup_item, resolve_bullet_hit, HitOutcome, HitTarget,
    PlayerScore,
};

#[test]
fn server_world_config() {
    let c = generate_seed();
    assert_eq!(c.seed, 10);
    assert_eq!(c.world_size, 64);
}

fn hp(c: u16) -> HealthComponent {
    HealthComponent { current_health: c, max_health: 100 }
}

#[test]
fn hit_on_other_player_damages_and_scores() {
    let r = resolve_bullet_hit(1, HitTarget::Hitbox { root: 2 }, Some(hp(100)), Some(Score(4)));
    assert_eq!(
        r,
        HitOutcome { despawn_bullet: true, target_health: Some(hp(90)), shooter_score: Some(Score(5)) }
    );
    let r = resolve_bullet_hit(1, HitTarget::Hitbox { root: 2 }, Some(hp(10)), None);
    assert_eq!(r.target_health, Some(hp(0)));
    assert_eq!(r.shooter_score, None);
}

#[test]
fn hit_on_own_hitbox_is_ignored() {
    let r = resolve_bullet_hit(3, HitTarget::Hitbox { root: 3 }, Some(hp(50)), Some(Score(1)));
    assert_eq!(
        r,
        HitOutcome { despawn_bullet: false, target_health: Some(hp(50)), shooter_score: Some(Score(1)) }
    );
}

#[test]
fn hit_on_wall_only_scores() {
    let r = resolve_bullet_hit(3, HitTarget::Other, None, Some(Score(0)));
    assert_eq!(r, HitOutcome { despawn_bullet: true, target_health: None, shooter_score: Some(Score(1)) });
}

#[test]
fn pickup_scores_only_item_then_box() {
    assert_eq!(pickup_item(true, Some(Score(2))), Some(Score(3)));
    assert_eq!(pickup_item(false, Some(Score(2))), None);
    assert_eq!(pickup_item(true, None), None);
}

#[test]
fn predicted_hit_credits_first_matching_player() {
    let mut players = vec![
        PlayerScore { score: Score(1), id: 5 },
        PlayerScore { score: Score(2), id: 7 },
        PlayerScore { score: Score(3), id: 7 },
    ];
    credit_predicted_hit(&mut players, 7);
    assert_eq!(players[0].score, Score(1));
    assert_eq!(players[1].score, Score(3));
    assert_eq!(players[2].score, Score(3));
    credit_predicted_hit(&mut players, 9);
    assert_eq!(players[1].score, Score(3));
    assert_eq!(players.len(), 3);
}
