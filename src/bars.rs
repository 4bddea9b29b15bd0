use vstd::prelude::*;
use crate::actors::Player;

verus! {

/// A bar's width as an exact fraction of its parent: `num / den` percent.
#[derive(Clone, Copy, Debug, PartialEq, Eq, Structural)]
pub struct Percent {
    pub num: u64,
    pub den: u64,
}

/// `current / max * 100` percent, kept as an unreduced fraction.
pub open spec fn percent_of(current: int, max: int) -> Percent {
    Percent { num: (current * 100) as u64, den: max as u64 }
}

fn fraction(current: u32, max: u32) -> (r: Percent)
    ensures
        r == percent_of(current as int, max as int),
        r.num == current * 100,
        r.den == max,
{
    Percent { num: (current as u64) * 100, den: max as u64 }
}

/// Width of the health bar: `health / max_health * 100` percent.
pub fn player_health_ui_sync(player: &Player) -> (r: Percent)
    ensures
        r == percent_of(player.health as int, player.max_health as int),
{
    fraction(player.health, player.max_health)
}

/// Width of the experience bar: `exp / next_level_exp * 100` percent.
pub fn player_exp_ui_sync(player: &Player) -> (r: Percent)
    ensures
        r == percent_of(player.exp as int, player.next_level_exp as int),
{
    fraction(player.exp, player.next_level_exp)
}

} // verus!
