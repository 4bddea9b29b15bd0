use vstd::prelude::*;
use crate::movement::Point;

verus! {

/// The two cameras that matter to screen-anchored UI.
///
/// The scene camera looks at `center` and shows `view_height` micro-units of
/// the world vertically, rendered into an off-screen target of
/// `target_w` x `target_h` pixels. The presentation camera shows that target in
/// a window whose logical viewport is `present_w` x `present_h` pixels.
#[derive(Clone, Copy, Debug, PartialEq, Eq, Structural)]
pub struct Cameras {
    pub center: Point,
    pub view_height: u32,
    pub target_w: u32,
    pub target_h: u32,
    pub present_w: u32,
    pub present_h: u32,
}

/// A position in the presentation camera's logical viewport, in
/// milli-pixels, measured from the left and from the top.
#[derive(Clone, Copy, Debug, PartialEq, Eq, Structural)]
pub struct ScreenPos {
    pub left: u64,
    pub top: u64,
}

impl Cameras {
    /// Both cameras have a nonempty extent.
    pub open spec fn wf(&self) -> bool {
        &&& self.view_height > 0
        &&& self.target_w > 0
        &&& self.target_h > 0
        &&& self.present_w > 0
        &&& self.present_h > 0
    }
}

/// Horizontal viewport coordinate, scaled by `view_height`: zero at the
/// left edge of the off-screen target, `target_w * 1000 * view_height` at its right edge.
pub open spec fn scaled_x(cam: Cameras, x: int) -> int {
    (x - cam.center.x) * cam.target_h * 1000 + cam.target_w * 500 * cam.view_height
}

/// Vertical viewport coordinate, scaled by `view_height`, from the bottom edge up.
pub open spec fn scaled_y(cam: Cameras, y: int) -> int {
    (y - cam.center.y) * cam.target_h * 1000 + cam.target_h * 500 * cam.view_height
}

/// Whether a world point falls inside what the scene camera shows.
pub open spec fn visible(cam: Cameras, x: int, y: int) -> bool {
    &&& 0 <= scaled_x(cam, x) <= cam.target_w * 1000 * cam.view_height
    &&& 0 <= scaled_y(cam, y) <= cam.target_h * 1000 * cam.view_height
}

/// The world point in off-screen target milli-pixels, y measured from the bottom.
pub open spec fn viewport_of(cam: Cameras, x: int, y: int) -> (int, int) {
    (scaled_x(cam, x) / (cam.view_height as int), scaled_y(cam, y) / (cam.view_height as int))
}

/// A target milli-pixel rescaled into the presentation viewport, y flipped
/// to be measured from the top.
pub open spec fn present_of(cam: Cameras, v: (int, int)) -> ScreenPos {
    ScreenPos {
        left: (v.0 * cam.present_w / (cam.target_w as int)) as u64,
        top: (cam.present_h * 1000 - v.1 * cam.present_h / (cam.target_h as int)) as u64,
    }
}

/// Where a world point shows on screen, if the scene camera sees it.
#[verifier::opaque]
pub open spec fn screen_of(cam: Cameras, x: int, y: int) -> Option<ScreenPos> {
    if visible(cam, x, y) {
        Some(present_of(cam, viewport_of(cam, x, y)))
    } else {
        None
    }
}

/// The largest coordinate magnitude `world_to_screen` takes.
pub open spec fn coord_limit() -> int {
    0x1_0000_0000_0000_0000
}

proof fn lemma_scaled_bounds(c: int, p: int, h: int, w: int, vh: int)
    requires
        -0x8000_0000_0000_0000 <= c < 0x8000_0000_0000_0000,
        -coord_limit() <= p <= coord_limit(),
        0 <= h <= 0xffff_ffff,
        0 <= w <= 0xffff_ffff,
        0 <= vh <= 0xffff_ffff,
    ensures
        -0x1_0000_0000_0000_0000_0000_0000_0000 <= (p - c) * h * 1000 <= 0x1_0000_0000_0000_0000_0000_0000_0000,
        0 <= w * 500 * vh <= 0x1_0000_0000_0000_0000_0000,
        0 <= w * 1000 * vh <= 0x1_0000_0000_0000_0000_0000,
{
    let d = p - c;
    assert(-0x1_8000_0000_0000_0000 <= d <= 0x1_8000_0000_0000_0000);
    assert(-0x1_0000_0000_0000_0000_0000_0000_0000 <= d * h * 1000 <= 0x1_0000_0000_0000_0000_0000_0000_0000)
        by (nonlinear_arith)
        requires
            -0x1_8000_0000_0000_0000 <= d <= 0x1_8000_0000_0000_0000,
            0 <= h <= 0xffff_ffff,
    ;
    assert(0 <= w * 500 * vh <= 0x1_0000_0000_0000_0000_0000) by (nonlinear_arith)
        requires
            0 <= w <= 0xffff_ffff,
            0 <= vh <= 0xffff_ffff,
    ;
    assert(0 <= w * 1000 * vh <= 0x1_0000_0000_0000_0000_0000) by (nonlinear_arith)
        requires
            0 <= w <= 0xffff_ffff,
            0 <= vh <= 0xffff_ffff,
    ;
}

/// `v * p / t` stays within `p * 1000` when `v` stays within `t * 1000`.
proof fn lemma_rescale(v: int, p: int, t: int)
    requires
        0 <= v <= t * 1000,
        0 <= p,
        0 < t,
    ensures
        0 <= v * p / t <= p * 1000,
{
    assert(0 <= v * p <= t * (p * 1000)) by (nonlinear_arith)
        requires
            0 <= v <= t * 1000,
            0 <= p,
    ;
    vstd::arithmetic::div_mod::lemma_div_is_ordered(v * p, t * (p * 1000), t);
    vstd::arithmetic::div_mod::lemma_div_multiples_vanish(p * 1000, t);
    vstd::arithmetic::div_mod::lemma_div_pos_is_pos(v * p, t);
}

/// Projects a world point through the scene camera and rescales it into the
/// presentation viewport; `None` when the scene camera does not see it.
pub fn world_to_screen(cam: &Cameras, x: i128, y: i128) -> (r: Option<ScreenPos>)
    requires
        cam.wf(),
        -coord_limit() <= x <= coord_limit(),
        -coord_limit() <= y <= coord_limit(),
    ensures
        r == screen_of(*cam, x as int, y as int),
{
    proof {
        lemma_scaled_bounds(cam.center.x as int, x as int, cam.target_h as int, cam.target_w as int, cam.view_height as int);
        lemma_scaled_bounds(cam.center.y as int, y as int, cam.target_h as int, cam.target_h as int, cam.view_height as int);
    }
    let vh: i128 = cam.view_height as i128;
    let tw: i128 = cam.target_w as i128;
    let th: i128 = cam.target_h as i128;
    let nx: i128 = (x - cam.center.x as i128) * th * 1000 + tw * 500 * vh;
    let ny: i128 = (y - cam.center.y as i128) * th * 1000 + th * 500 * vh;
    if nx < 0 || nx > tw * 1000 * vh || ny < 0 || ny > th * 1000 * vh {
        proof {
            reveal(screen_of);
        }
        return None;
    }
    let vx: u128 = (nx as u128) / (vh as u128);
    let vy: u128 = (ny as u128) / (vh as u128);
    let pw: u128 = cam.present_w as u128;
    let ph: u128 = cam.present_h as u128;
    proof {
        vstd::arithmetic::div_mod::lemma_div_is_ordered(nx as int, (tw * 1000) * vh, vh as int);
        vstd::arithmetic::div_mod::lemma_div_multiples_vanish(tw * 1000, vh as int);
        vstd::arithmetic::div_mod::lemma_div_is_ordered(ny as int, (th * 1000) * vh, vh as int);
        vstd::arithmetic::div_mod::lemma_div_multiples_vanish(th * 1000, vh as int);
        vstd::arithmetic::div_mod::lemma_div_pos_is_pos(nx as int, vh as int);
        vstd::arithmetic::div_mod::lemma_div_pos_is_pos(ny as int, vh as int);
        lemma_rescale(vx as int, pw as int, tw as int);
        lemma_rescale(vy as int, ph as int, th as int);
        assert(vx * pw <= 0xffff_ffff_ffff * 0xffff_ffff) by (nonlinear_arith)
            requires
                vx <= 0xffff_ffff_ffff,
                pw <= 0xffff_ffff,
        ;
        assert(vy * ph <= 0xffff_ffff_ffff * 0xffff_ffff) by (nonlinear_arith)
            requires
                vy <= 0xffff_ffff_ffff,
                ph <= 0xffff_ffff,
        ;
    }
    let left: u128 = vx * pw / (tw as u128);
    let top: u128 = ph * 1000 - vy * ph / (th as u128);
    proof {
        reveal(screen_of);
    }
    Some(ScreenPos { left: left as u64, top: top as u64 })
}

} // verus!
