use vstd::prelude::*;
use crate::movement::Point;

verus! {

/// Speed of the player, in milli-units per second.
pub const PLAYER_SPEED: u32 = 10_000;
/// Starting and maximum health of the player.
pub const PLAYER_MAX_HEALTH: u32 = 100;
/// Experience needed for the first level.
pub const PLAYER_FIRST_LEVEL_EXP: u32 = 100;
/// Speed of an enemy, in milli-units per second.
pub const ENEMY_SPEED: u32 = 5_000;
/// Starting health of an enemy.
pub const ENEMY_HEALTH: u32 = 5;
/// How many enemies the startup batch holds.
pub const ENEMY_COUNT: usize = 10;
/// Base position of the enemy batch, in micro-units.
pub const ENEMY_BASE_X: i64 = 1_000_000;
pub const ENEMY_BASE_Y: i64 = 1_000_000;
/// Stagger between two neighbouring enemies along x (0.1 world units).
pub const ENEMY_STAGGER: i64 = 100_000;

/// The player's record: speed, health and experience.
#[derive(Clone, Copy, Debug, PartialEq, Eq, Structural)]
pub struct Player {
    pub speed: u32,
    pub health: u32,
    pub max_health: u32,
    pub exp: u32,
    pub next_level_exp: u32,
}

impl Player {
    /// Health stays within `0..=max_health`; both bars have a nonzero divisor.
    pub open spec fn wf(&self) -> bool {
        &&& self.health <= self.max_health
        &&& self.max_health > 0
        &&& self.next_level_exp > 0
    }
}

/// An enemy's record.
#[derive(Clone, Copy, Debug, PartialEq, Eq, Structural)]
pub struct Enemy {
    pub speed: u32,
    pub health: u32,
}

/// An enemy together with where it stands.
#[derive(Clone, Copy, Debug, PartialEq, Eq, Structural)]
pub struct EnemyEntity {
    pub enemy: Enemy,
    pub position: Point,
}

/// Everything that startup puts in the world: one player and a batch of enemies.
#[derive(Debug)]
pub struct Spawned {
    pub player: Player,
    pub player_position: Point,
    pub enemies: Vec<EnemyEntity>,
}

/// Where the enemy with index `i` of the batch starts.
pub open spec fn enemy_start(i: int) -> Point {
    Point { x: (ENEMY_BASE_X + ENEMY_STAGGER * i) as i64, y: ENEMY_BASE_Y }
}

pub open spec fn fresh_player() -> Player {
    Player {
        speed: PLAYER_SPEED,
        health: PLAYER_MAX_HEALTH,
        max_health: PLAYER_MAX_HEALTH,
        exp: 0,
        next_level_exp: PLAYER_FIRST_LEVEL_EXP,
    }
}

/// What startup spawns: the player at the origin with full health, and
/// `ENEMY_COUNT` enemies, the one with index `i` at `ENEMY_BASE_X + 0.1 * i`.
pub fn spawn_player() -> (r: Spawned)
    ensures
        r.player == fresh_player(),
        r.player.wf(),
        r.player_position == (Point { x: 0, y: 0 }),
        r.enemies@.len() == ENEMY_COUNT,
        forall|i: int|
            0 <= i < r.enemies@.len() ==> (#[trigger] r.enemies@[i]).position == enemy_start(i)
                && r.enemies@[i].enemy == (Enemy { speed: ENEMY_SPEED, health: ENEMY_HEALTH }),
        forall|i: int, j: int|
            0 <= i < j < r.enemies@.len() ==> (#[trigger] r.enemies@[i]).position.x != (#[trigger] r.enemies@[j]).position.x,
{
    let player = Player {
        speed: PLAYER_SPEED,
        health: PLAYER_MAX_HEALTH,
        max_health: PLAYER_MAX_HEALTH,
        exp: 0,
        next_level_exp: PLAYER_FIRST_LEVEL_EXP,
    };
    let mut enemies: Vec<EnemyEntity> = Vec::new();
    let mut i: usize = 0;
    while i < ENEMY_COUNT
        invariant
            i <= ENEMY_COUNT,
            enemies@.len() == i,
            forall|j: int|
                0 <= j < i ==> (#[trigger] enemies@[j]).position == enemy_start(j)
                    && enemies@[j].enemy == (Enemy { speed: ENEMY_SPEED, health: ENEMY_HEALTH }),
        decreases ENEMY_COUNT - i,
    {
        let x: i64 = ENEMY_BASE_X + ENEMY_STAGGER * (i as i64);
        enemies.push(EnemyEntity {
            enemy: Enemy { speed: ENEMY_SPEED, health: ENEMY_HEALTH },
            position: Point { x, y: ENEMY_BASE_Y },
        });
        i = i + 1;
    }
    assert forall|a: int, b: int|
        0 <= a < b < enemies@.len() implies (#[trigger] enemies@[a]).position.x != (#[trigger] enemies@[b]).position.x by {
        assert(enemies@[a].position == enemy_start(a));
        assert(enemies@[b].position == enemy_start(b));
    }
    Spawned { player, player_position: Point { x: 0, y: 0 }, enemies }
}

} // verus!
