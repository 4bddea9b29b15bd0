use vstd::prelude::*;
use crate::movement::Point;
use crate::projection::{Cameras, ScreenPos, coord_limit, screen_of, world_to_screen};

verus! {

/// How long a floating text lives, in milliseconds.
pub const TEXT_LIFETIME_MS: u64 = 500;
/// Drift of a floating text, in milli-units per second.
pub const TEXT_DRIFT_X: i64 = 150;
pub const TEXT_DRIFT_Y: i64 = 1000;
/// Offset from the requested spot, in micro-units, so that the text, which
/// is anchored at its top-left corner, looks centred there.
pub const TEXT_ANCHOR_X: i64 = -200_000;
pub const TEXT_ANCHOR_Y: i64 = 700_000;

/// A floating text widget: a countdown, a drifting world position, and the
/// screen position it was last shown at.
#[derive(Debug)]
pub struct WorldTextUI {
    pub id: u64,
    pub text: String,
    pub spawned_at: u64,
    pub elapsed_ms: u64,
    pub origin: Point,
    pub x: i128,
    pub y: i128,
    pub screen: Option<ScreenPos>,
}

/// All floating texts, with the clock that drives them and the next free id.
#[derive(Debug)]
pub struct WorldTexts {
    pub now: u64,
    pub next_id: u64,
    pub items: Vec<WorldTextUI>,
}

/// A live text: its countdown has not run out, it was spawned `elapsed_ms`
/// ago, and it has drifted for exactly that long.
pub open spec fn text_wf(r: WorldTextUI, now: int) -> bool {
    &&& r.elapsed_ms < TEXT_LIFETIME_MS
    &&& r.spawned_at + r.elapsed_ms == now
    &&& r.x == r.origin.x + TEXT_ANCHOR_X + TEXT_DRIFT_X * r.elapsed_ms
    &&& r.y == r.origin.y + TEXT_ANCHOR_Y + TEXT_DRIFT_Y * r.elapsed_ms
}

pub open spec fn ids_increasing(s: Seq<WorldTextUI>) -> bool {
    forall|i: int, j: int| 0 <= i < j < s.len() ==> (#[trigger] s[i]).id < (#[trigger] s[j]).id
}

/// Whether a text with this id is in the store.
pub open spec fn has_text(s: Seq<WorldTextUI>, id: u64) -> bool {
    exists|i: int| 0 <= i < s.len() && (#[trigger] s[i]).id == id
}

impl WorldTexts {
    /// Every text is live, ids are below `next_id` and never repeat.
    pub open spec fn wf(&self) -> bool {
        &&& ids_increasing(self.items@)
        &&& forall|i: int|
            0 <= i < self.items@.len() ==> text_wf(#[trigger] self.items@[i], self.now as int)
                && self.items@[i].id < self.next_id
    }

    /// An empty store whose clock reads `now`.
    pub fn new(now: u64) -> (r: WorldTexts)
        ensures
            r.wf(),
            r.now == now,
            r.next_id == 0,
            r.items@.len() == 0,
    {
        WorldTexts { now, next_id: 0, items: Vec::new() }
    }
}

/// The text that `spawn_world_text` adds.
pub open spec fn is_spawned_text(r: WorldTextUI, id: u64, text: Seq<char>, now: u64, position: Point) -> bool {
    &&& r.id == id
    &&& r.text@ == text
    &&& r.spawned_at == now
    &&& r.elapsed_ms == 0
    &&& r.origin == position
    &&& r.x == position.x + TEXT_ANCHOR_X
    &&& r.y == position.y + TEXT_ANCHOR_Y
    &&& r.screen.is_none()
}

/// Adds a floating text at `position` (nudged by the anchor offset), with a
/// fresh id, which it returns.
pub fn spawn_world_text(texts: &mut WorldTexts, position: Point, text: &str) -> (id: u64)
    requires
        old(texts).wf(),
        old(texts).next_id < u64::MAX,
    ensures
        final(texts).wf(),
        id == old(texts).next_id,
        final(texts).next_id == old(texts).next_id + 1,
        final(texts).now == old(texts).now,
        final(texts).items@.len() == old(texts).items@.len() + 1,
        final(texts).items@.drop_last() == old(texts).items@,
        is_spawned_text(final(texts).items@.last(), id, text@, old(texts).now, position),
{
    let id = texts.next_id;
    let record = WorldTextUI {
        id,
        text: text.to_string(),
        spawned_at: texts.now,
        elapsed_ms: 0,
        origin: position,
        x: position.x as i128 + TEXT_ANCHOR_X as i128,
        y: position.y as i128 + TEXT_ANCHOR_Y as i128,
        screen: None,
    };
    texts.items.push(record);
    texts.next_id = id + 1;
    proof {
        assert(texts.items@.drop_last() =~= old(texts).items@);
    }
    id
}

/// Whether a text outlives a frame of `dt` milliseconds.
pub open spec fn survives(r: WorldTextUI, dt: int) -> bool {
    r.elapsed_ms + dt < TEXT_LIFETIME_MS
}

/// A text after a frame of `dt` milliseconds that it outlives: older, moved
/// by its drift, and shown where the cameras put it, or where it last was
/// if the scene camera does not see it.
#[verifier::opaque]
pub open spec fn advanced(r: WorldTextUI, cam: Cameras, dt: int) -> WorldTextUI {
    let x = r.x + TEXT_DRIFT_X * dt;
    let y = r.y + TEXT_DRIFT_Y * dt;
    let shown = screen_of(cam, x, y);
    WorldTextUI {
        elapsed_ms: (r.elapsed_ms + dt) as u64,
        x: x as i128,
        y: y as i128,
        screen: if shown.is_some() { shown } else { r.screen },
        ..r
    }
}

/// The texts after a frame: those that expire are gone, the others advanced,
/// in their order.
pub open spec fn after_frame(s: Seq<WorldTextUI>, cam: Cameras, dt: int) -> Seq<WorldTextUI>
    decreases s.len(),
{
    if s.len() == 0 {
        Seq::empty()
    } else {
        let rest = after_frame(s.drop_last(), cam, dt);
        if survives(s.last(), dt) {
            rest.push(advanced(s.last(), cam, dt))
        } else {
            rest
        }
    }
}


/// Every text left after a frame is an advanced text that was there before.
proof fn lemma_after_frame_from(s: Seq<WorldTextUI>, cam: Cameras, dt: int)
    ensures
        forall|k: int|
            0 <= k < after_frame(s, cam, dt).len() ==> exists|j: int|
                0 <= j < s.len() && survives(s[j], dt) && #[trigger] after_frame(s, cam, dt)[k]
                    == advanced(#[trigger] s[j], cam, dt),
    decreases s.len(),
{
    if s.len() > 0 {
        let init = s.drop_last();
        lemma_after_frame_from(init, cam, dt);
        let rest = after_frame(init, cam, dt);
        let out = after_frame(s, cam, dt);
        assert forall|k: int|
            0 <= k < out.len() implies exists|j: int|
                0 <= j < s.len() && survives(s[j], dt) && #[trigger] out[k] == advanced(#[trigger] s[j], cam, dt) by {
            if k < rest.len() {
                assert(out[k] == rest[k]);
                let j = choose|j: int| 0 <= j < init.len() && survives(init[j], dt) && rest[k] == advanced(init[j], cam, dt);
                assert(init[j] == s[j]);
            } else {
                assert(out[k] == advanced(s[s.len() - 1], cam, dt));
            }
        }
    }
}

/// Every text that outlives a frame is still there after it, advanced.
proof fn lemma_after_frame_to(s: Seq<WorldTextUI>, cam: Cameras, dt: int)
    ensures
        forall|j: int|
            0 <= j < s.len() && survives(#[trigger] s[j], dt) ==> exists|k: int|
                0 <= k < after_frame(s, cam, dt).len() && #[trigger] after_frame(s, cam, dt)[k]
                    == advanced(s[j], cam, dt),
    decreases s.len(),
{
    if s.len() > 0 {
        let init = s.drop_last();
        lemma_after_frame_to(init, cam, dt);
        let rest = after_frame(init, cam, dt);
        let out = after_frame(s, cam, dt);
        assert forall|j: int|
            0 <= j < s.len() && survives(#[trigger] s[j], dt) implies exists|k: int|
                0 <= k < out.len() && #[trigger] out[k] == advanced(s[j], cam, dt) by {
            if j < init.len() {
                assert(init[j] == s[j]);
                let k = choose|k: int| 0 <= k < rest.len() && rest[k] == advanced(init[j], cam, dt);
                assert(out[k] == rest[k]);
            } else {
                assert(out[rest.len() as int] == advanced(s[j], cam, dt));
            }
        }
    }
}

proof fn lemma_advanced_id(r: WorldTextUI, cam: Cameras, dt: int)
    ensures
        advanced(r, cam, dt).id == r.id,
        advanced(r, cam, dt).spawned_at == r.spawned_at,
{
    reveal(advanced);
}

/// A frame keeps the ids in increasing order.
proof fn lemma_after_frame_ids(s: Seq<WorldTextUI>, cam: Cameras, dt: int)
    requires
        ids_increasing(s),
    ensures
        ids_increasing(after_frame(s, cam, dt)),
    decreases s.len(),
{
    if s.len() > 0 {
        let init = s.drop_last();
        assert(ids_increasing(init)) by {
            assert forall|i: int, j: int| 0 <= i < j < init.len() implies (#[trigger] init[i]).id < (#[trigger] init[j]).id by {
                assert(init[i] == s[i] && init[j] == s[j]);
            }
        }
        lemma_after_frame_ids(init, cam, dt);
        lemma_after_frame_from(init, cam, dt);
        let rest = after_frame(init, cam, dt);
        let out = after_frame(s, cam, dt);
        if survives(s.last(), dt) {
            lemma_advanced_id(s.last(), cam, dt);
            assert forall|k: int| 0 <= k < rest.len() implies (#[trigger] rest[k]).id < s.last().id by {
                let j = choose|j: int| 0 <= j < init.len() && survives(init[j], dt) && rest[k] == advanced(init[j], cam, dt);
                assert(init[j] == s[j]);
                lemma_advanced_id(init[j], cam, dt);
            }
            assert forall|a: int, b: int| 0 <= a < b < out.len() implies (#[trigger] out[a]).id < (#[trigger] out[b]).id by {
                assert(out[a] == rest[a]);
                if b < rest.len() {
                    assert(out[b] == rest[b]);
                }
            }
        }
    }
}

/// One frame of `dt` milliseconds for every floating text: its countdown
/// advances; if that runs it out, the text is removed and nothing else is done
/// for it; otherwise it drifts and is placed where the cameras show it.
pub fn update_world_text(texts: &mut WorldTexts, cam: &Cameras, dt_ms: u64)
    requires
        old(texts).wf(),
        cam.wf(),
        old(texts).now + dt_ms <= u64::MAX,
    ensures
        final(texts).wf(),
        final(texts).now == old(texts).now + dt_ms,
        final(texts).next_id == old(texts).next_id,
        final(texts).items@ == after_frame(old(texts).items@, *cam, dt_ms as int),
{
    let ghost before = texts.items@;
    let ghost now = texts.now;
    let mut out: Vec<WorldTextUI> = Vec::new();
    let mut i: usize = 0;
    while i < texts.items.len()
        invariant
            *texts == *old(texts),
            before == texts.items@,
            now == texts.now,
            texts.wf(),
            cam.wf(),
            now + dt_ms <= u64::MAX,
            i <= before.len(),
            out@ == after_frame(before.subrange(0, i as int), *cam, dt_ms as int),
        decreases before.len() - i,
    {
        let r = &texts.items[i];
        assert(text_wf(before[i as int], now as int));
        assert(*r == before[i as int]);
        if r.elapsed_ms + dt_ms < TEXT_LIFETIME_MS {
            assert(0 <= 1000 * (dt_ms as int) <= 500_000 && 0 <= 150 * (dt_ms as int) <= 75_000) by (nonlinear_arith)
                requires
                    0 <= dt_ms < 500,
            ;
            assert(-0x8000_0000_0000_0000 - 0x100_0000 <= r.y <= 0x8000_0000_0000_0000 + 0x100_0000);
            assert(-0x8000_0000_0000_0000 - 0x100_0000 <= r.x <= 0x8000_0000_0000_0000 + 0x100_0000);
            let x: i128 = r.x + (TEXT_DRIFT_X as i128) * (dt_ms as i128);
            let y: i128 = r.y + (TEXT_DRIFT_Y as i128) * (dt_ms as i128);
            let shown = world_to_screen(cam, x, y);
            let screen = if shown.is_some() { shown } else { r.screen };
            out.push(WorldTextUI {
                id: r.id,
                text: r.text.clone(),
                spawned_at: r.spawned_at,
                elapsed_ms: r.elapsed_ms + dt_ms,
                origin: r.origin,
                x,
                y,
                screen,
            });
            proof {
                reveal(advanced);
            }
        }
        proof {
            assert(before.subrange(0, i as int + 1).drop_last() =~= before.subrange(0, i as int));
        }
        i = i + 1;
    }
    proof {
        assert(before.subrange(0, before.len() as int) =~= before);
        lemma_after_frame_from(before, *cam, dt_ms as int);
        lemma_after_frame_ids(before, *cam, dt_ms as int);
        let out_s = out@;
        assert forall|k: int| 0 <= k < out_s.len() implies text_wf(#[trigger] out_s[k], now + dt_ms)
            && out_s[k].id < texts.next_id by {
            let j = choose|j: int| 0 <= j < before.len() && survives(before[j], dt_ms as int)
                && out_s[k] == advanced(before[j], *cam, dt_ms as int);
            assert(text_wf(before[j], now as int));
            reveal(advanced);
        }
    }
    texts.items = out;
    texts.now = texts.now + dt_ms;
}

/// Lifecycle of floating texts over one frame: a text is in the store after
/// the frame exactly when it was there before and the clock reads less than
/// its spawn time plus its lifetime; no id is there twice; and every text
/// still there was spawned less than a lifetime ago.
pub proof fn lemma_world_text_lifecycle(before: WorldTexts, cam: Cameras, dt: u64, after: WorldTexts, id: u64)
    requires
        before.wf(),
        cam.wf(),
        after.now == before.now + dt,
        after.items@ == after_frame(before.items@, cam, dt as int),
    ensures
        has_text(after.items@, id) <==> exists|j: int|
            0 <= j < before.items@.len() && (#[trigger] before.items@[j]).id == id
                && after.now < before.items@[j].spawned_at + TEXT_LIFETIME_MS,
        ids_increasing(after.items@),
        forall|k: int|
            0 <= k < after.items@.len() ==> after.now < (#[trigger] after.items@[k]).spawned_at
                + TEXT_LIFETIME_MS,
{
    let s = before.items@;
    let out = after.items@;
    let d = dt as int;
    lemma_after_frame_ids(s, cam, d);
    assert forall|k: int| 0 <= k < out.len() implies after.now < (#[trigger] out[k]).spawned_at
        + TEXT_LIFETIME_MS by {
        lemma_after_frame_from(s, cam, d);
        let j = choose|j: int| 0 <= j < s.len() && survives(s[j], d) && out[k] == advanced(s[j], cam, d);
        assert(text_wf(s[j], before.now as int));
        lemma_advanced_id(s[j], cam, d);
    }
    assert(has_text(out, id) ==> exists|j: int|
        0 <= j < s.len() && (#[trigger] s[j]).id == id && after.now < s[j].spawned_at + TEXT_LIFETIME_MS) by {
        if has_text(out, id) {
            lemma_after_frame_from(s, cam, d);
            let k = choose|k: int| 0 <= k < out.len() && out[k].id == id;
            let j = choose|j: int| 0 <= j < s.len() && survives(s[j], d) && out[k] == advanced(s[j], cam, d);
            assert(text_wf(s[j], before.now as int));
            lemma_advanced_id(s[j], cam, d);
            assert(s[j].id == id);
        }
    }
    assert((exists|j: int|
        0 <= j < s.len() && (#[trigger] s[j]).id == id && after.now < s[j].spawned_at + TEXT_LIFETIME_MS) ==> has_text(out, id)) by {
        if exists|j: int| 0 <= j < s.len() && (#[trigger] s[j]).id == id && after.now < s[j].spawned_at + TEXT_LIFETIME_MS {
            let j = choose|j: int| 0 <= j < s.len() && (#[trigger] s[j]).id == id && after.now < s[j].spawned_at + TEXT_LIFETIME_MS;
            assert(text_wf(s[j], before.now as int));
            assert(survives(s[j], d));
            lemma_after_frame_to(s, cam, d);
            let k = choose|k: int| 0 <= k < out.len() && out[k] == advanced(s[j], cam, d);
            lemma_advanced_id(s[j], cam, d);
            assert(out[k].id == id);
        }
    }
}

} // verus!
