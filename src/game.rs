use vstd::prelude::*;
use crate::actors::{ENEMY_COUNT, EnemyEntity, Player, enemy_start, fresh_player, spawn_player};
use crate::bars::{Percent, percent_of, player_exp_ui_sync, player_health_ui_sync};
use crate::movement::{Keys, Point, fits, moved, player_movement};

verus! {

/// The simulated world of one frame: the player, the enemies, and the
/// widths of the health and experience bars.
#[derive(Debug)]
pub struct Game {
    pub player: Player,
    pub player_position: Point,
    pub enemies: Vec<EnemyEntity>,
    pub health_bar: Percent,
    pub exp_bar: Percent,
}

impl Game {
    /// The player's health lies within `0..=max_health`, and each bar shows
    /// exactly its share of the player's state.
    pub open spec fn wf(&self) -> bool {
        &&& self.player.wf()
        &&& self.health_bar == percent_of(self.player.health as int, self.player.max_health as int)
        &&& self.exp_bar == percent_of(self.player.exp as int, self.player.next_level_exp as int)
    }

    /// The world right after startup: the one player at the origin, the
    /// batch of enemies, and bars that match the player.
    pub fn startup() -> (r: Game)
        ensures
            r.wf(),
            r.player == fresh_player(),
            r.player_position == (Point { x: 0, y: 0 }),
            r.enemies@.len() == ENEMY_COUNT,
            forall|i: int| 0 <= i < r.enemies@.len() ==> (#[trigger] r.enemies@[i]).position == enemy_start(i),
    {
        let spawned = spawn_player();
        let health_bar = player_health_ui_sync(&spawned.player);
        let exp_bar = player_exp_ui_sync(&spawned.player);
        Game {
            player: spawned.player,
            player_position: spawned.player_position,
            enemies: spawned.enemies,
            health_bar,
            exp_bar,
        }
    }

    /// One frame of `dt_ms` milliseconds with `keys` held: the player moves by
    /// its speed along each pressed axis (it stays put where that would leave
    /// the coordinate range), then both bars are brought up to date.
    pub fn frame(&mut self, keys: Keys, dt_ms: u32)
        requires
            old(self).wf(),
        ensures
            final(self).wf(),
            final(self).player == old(self).player,
            final(self).enemies@ == old(self).enemies@,
            fits(moved(old(self).player_position, keys, old(self).player.speed as int, dt_ms as int))
                ==> final(self).player_position.x == moved(old(self).player_position, keys, old(self).player.speed as int, dt_ms as int).0
                && final(self).player_position.y == moved(old(self).player_position, keys, old(self).player.speed as int, dt_ms as int).1,
            !fits(moved(old(self).player_position, keys, old(self).player.speed as int, dt_ms as int))
                ==> final(self).player_position == old(self).player_position,
    {
        let next = player_movement(self.player_position, keys, self.player.speed, dt_ms);
        match next {
            Some(p) => {
                self.player_position = p;
            },
            None => {},
        }
        self.health_bar = player_health_ui_sync(&self.player);
        self.exp_bar = player_exp_ui_sync(&self.player);
    }
}

} // verus!
