//! Server-side game rules: the world configuration, bullet hits and item pickups.
use vstd::prelude::*;

use crate::protocol::{HealthComponent, Score, WorldConfig};

verus! {

/// The world the server generates: seed 10, 64 by 64 tiles.
pub fn generate_seed() -> (r: WorldConfig)
    ensures
        r.seed == 10,
        r.world_size == 64,
{
    let seed: u32 = 10;
    WorldConfig { seed, world_size: 64 }
}

/// The server's world is small enough for the world generator: its number
/// of tiles fits the generator's index arithmetic.
pub proof fn lemma_server_world_generable(c: WorldConfig)
    requires
        c.seed == 10,
        c.world_size == 64,
    ensures
        c.world_size * c.world_size <= i32::MAX,
{
}

/// Health a player loses to a lag-compensated bullet hit.
pub const HIT_DAMAGE: u16 = 10;

/// What a bullet's ray hit this tick.
#[derive(Clone, Copy, Debug, PartialEq, Eq, Structural)]
pub enum HitTarget {
    /// The hitbox of the player with entity id `root`.
    Hitbox { root: u64 },
    /// Anything else (a wall, a bot).
    Other,
}

/// The effect of a bullet hit: whether the bullet disappears, the new health
/// of the player that was hit, and the new score of the shooter.
#[derive(Clone, Copy, Debug, PartialEq, Eq, Structural)]
pub struct HitOutcome {
    pub despawn_bullet: bool,
    pub target_health: Option<HealthComponent>,
    pub shooter_score: Option<Score>,
}

/// Whether the bullet of `shooter` hit the shooter's own hitbox.
pub open spec fn is_self_hit(shooter: u64, hit: HitTarget) -> bool {
    hit matches HitTarget::Hitbox { root } && root == shooter
}

/// Resolves a bullet of player `shooter` whose ray hit `hit`. A hit on the
/// shooter's own hitbox is ignored. Otherwise the bullet disappears, a hit
/// player (whose health is `target_health`, if it has one) loses
/// `HIT_DAMAGE`, and the shooter (whose score is `shooter_score`, if it has
/// one) scores a point.
pub fn resolve_bullet_hit(
    shooter: u64,
    hit: HitTarget,
    target_health: Option<HealthComponent>,
    shooter_score: Option<Score>,
) -> (r: HitOutcome)
    requires
        !is_self_hit(shooter, hit) && hit is Hitbox && target_health is Some
            ==> target_health.unwrap().current_health >= HIT_DAMAGE,
        !is_self_hit(shooter, hit) && shooter_score is Some ==> shooter_score.unwrap().0 < usize::MAX,
    ensures
        is_self_hit(shooter, hit) ==> r == (HitOutcome {
            despawn_bullet: false,
            target_health,
            shooter_score,
        }),
        !is_self_hit(shooter, hit) ==> {
            &&& r.despawn_bullet
            &&& r.target_health == (match target_health {
                Some(h) => if hit is Hitbox {
                    Some(
                        HealthComponent {
                            current_health: (h.current_health - HIT_DAMAGE) as u16,
                            max_health: h.max_health,
                        },
                    )
                } else {
                    Some(h)
                },
                None => None,
            })
            &&& r.shooter_score == (match shooter_score {
                Some(s) => Some(Score((s.0 + 1) as usize)),
                None => None,
            })
        },
{
    let mut new_health = target_health;
    match hit {
        HitTarget::Hitbox { root } => {
            if root == shooter {
                return HitOutcome { despawn_bullet: false, target_health, shooter_score };
            }
            match target_health {
                Some(h) => {
                    new_health = Some(
                        HealthComponent {
                            current_health: h.current_health - HIT_DAMAGE,
                            max_health: h.max_health,
                        },
                    );
                },
                None => {},
            }
        },
        HitTarget::Other => {},
    }
    let new_score = match shooter_score {
        Some(s) => Some(Score(s.0 + 1)),
        None => None,
    };
    HitOutcome { despawn_bullet: true, target_health: new_health, shooter_score: new_score }
}

/// Resolves a collision between `collider1` and `collider2`: when
/// `collider1` is an item and `collider2` is the pickup box of a player
/// whose score is `owner_score`, the item is picked up and the player
/// scores a point (the new score is returned); otherwise nothing happens.
pub fn pickup_item(collider1_is_item: bool, owner_score: Option<Score>) -> (r: Option<Score>)
    requires
        collider1_is_item && owner_score is Some ==> owner_score.unwrap().0 < usize::MAX,
    ensures
        r == (if collider1_is_item && owner_score is Some {
            Some(Score((owner_score.unwrap().0 + 1) as usize))
        } else {
            None
        }),
{
    if collider1_is_item {
        match owner_score {
            Some(s) => Some(Score(s.0 + 1)),
            None => None,
        }
    } else {
        None
    }
}

/// A player's score together with the player's id.
#[derive(Clone, Copy, Debug, PartialEq, Eq, Structural)]
pub struct PlayerScore {
    pub score: Score,
    pub id: u64,
}

/// Whether `j` is the first position of `players` with id `id`.
pub open spec fn is_first_match(players: Seq<PlayerScore>, id: u64, j: int) -> bool {
    &&& 0 <= j < players.len()
    &&& players[j].id == id
    &&& forall|i: int| 0 <= i < j ==> players[i].id != id
}

/// Credits a predicted hit: the first player whose id is `shooter` scores a
/// point; every other entry stays as it was.
pub fn credit_predicted_hit(players: &mut Vec<PlayerScore>, shooter: u64)
    requires
        forall|j: int|
            is_first_match(old(players)@, shooter, j) ==> old(players)@[j].score.0 < usize::MAX,
    ensures
        final(players)@.len() == old(players)@.len(),
        forall|j: int|
            0 <= j < old(players)@.len() ==> #[trigger] final(players)@[j] == (if is_first_match(
                old(players)@,
                shooter,
                j,
            ) {
                PlayerScore {
                    score: Score((old(players)@[j].score.0 + 1) as usize),
                    id: shooter,
                }
            } else {
                old(players)@[j]
            }),
{
    let mut i: usize = 0;
    while i < players.len()
        invariant
            players@ == old(players)@,
            i <= players@.len(),
            forall|k: int| 0 <= k < i ==> players@[k].id != shooter,
            forall|j: int|
                is_first_match(old(players)@, shooter, j) ==> old(players)@[j].score.0
                    < usize::MAX,
        decreases players@.len() - i,
    {
        if players[i].id == shooter {
            let p = players[i];
            assert(is_first_match(old(players)@, shooter, i as int));
            players.set(i, PlayerScore { score: Score(p.score.0 + 1), id: p.id });
            return;
        }
        i = i + 1;
    }
}

} // verus!
