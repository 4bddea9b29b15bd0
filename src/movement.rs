use vstd::prelude::*;

verus! {

/// A world position in micro-units (one world unit is 1_000_000).
#[derive(Clone, Copy, Debug, PartialEq, Eq, Structural)]
pub struct Point {
    pub x: i64,
    pub y: i64,
}

/// The four direction keys held during a frame.
#[derive(Clone, Copy, Debug, PartialEq, Eq, Structural)]
pub struct Keys {
    pub up: bool,
    pub down: bool,
    pub left: bool,
    pub right: bool,
}

/// Displacement along one axis: `speed` milli-units per second over `dt_ms`
/// milliseconds gives exactly `speed * dt_ms` micro-units.
pub open spec fn axis_step(plus: bool, minus: bool, speed: int, dt_ms: int) -> int {
    (if plus { speed * dt_ms } else { 0 }) - (if minus { speed * dt_ms } else { 0 })
}

pub open spec fn moved(p: Point, keys: Keys, speed: int, dt_ms: int) -> (int, int) {
    (
        p.x + axis_step(keys.right, keys.left, speed, dt_ms),
        p.y + axis_step(keys.up, keys.down, speed, dt_ms),
    )
}

/// Both coordinates fit a position.
pub open spec fn fits(v: (int, int)) -> bool {
    i64::MIN <= v.0 <= i64::MAX && i64::MIN <= v.1 <= i64::MAX
}

/// New player position after one frame with the given keys held.
pub fn player_movement(p: Point, keys: Keys, speed: u32, dt_ms: u32) -> (r: Option<Point>)
    ensures
        r.is_some() <==> fits(moved(p, keys, speed as int, dt_ms as int)),
        r.is_some() ==> r.unwrap().x == moved(p, keys, speed as int, dt_ms as int).0
            && r.unwrap().y == moved(p, keys, speed as int, dt_ms as int).1,
{
    proof {
        assert(0 <= (speed as int) * (dt_ms as int) <= 0xffff_ffff * 0xffff_ffff) by (nonlinear_arith)
            requires
                0 <= speed <= 0xffff_ffff,
                0 <= dt_ms <= 0xffff_ffff,
        ;
    }
    let step: i128 = (speed as i128) * (dt_ms as i128);
    let mut x: i128 = p.x as i128;
    let mut y: i128 = p.y as i128;
    if keys.up {
        y = y + step;
    }
    if keys.down {
        y = y - step;
    }
    if keys.left {
        x = x - step;
    }
    if keys.right {
        x = x + step;
    }
    if x < i64::MIN as i128 || x > i64::MAX as i128 || y < i64::MIN as i128 || y > i64::MAX as i128 {
        None
    } else {
        Some(Point { x: x as i64, y: y as i64 })
    }
}

} // verus!
