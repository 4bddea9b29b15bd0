use vstd::prelude::*;
use crate::level_up::{Interaction, LevelUpMenu, MENU_ENTITIES, UpgradeSelected, applied, pressed};
use crate::projection::Cameras;
use crate::world_text::{WorldTexts, after_frame, update_world_text};

verus! {

/// The UI layer: floating texts and the level-up state machine.
#[derive(Debug)]
pub struct GameUiPlugin {
    pub texts: WorldTexts,
    pub menu: LevelUpMenu,
}

impl GameUiPlugin {
    pub open spec fn wf(&self) -> bool {
        &&& self.texts.wf()
        &&& self.menu.wf()
    }

    /// The UI at startup, its clock reading `now`: no floating text, in
    /// `Gameplay` with no menu.
    pub fn build(now: u64) -> (r: GameUiPlugin)
        ensures
            r.wf(),
            r.texts.now == now,
            r.texts.next_id == 0,
            r.texts.items@.len() == 0,
            r.menu == LevelUpMenu::new_spec(),
    {
        GameUiPlugin { texts: WorldTexts::new(now), menu: LevelUpMenu::new() }
    }

    /// One frame of the UI, `dt_ms` long: the menu's buttons react to
    /// `interactions`, the requested change of state is carried out, and the
    /// floating texts advance. Returns the messages the buttons sent.
    pub fn update(&mut self, cam: &Cameras, dt_ms: u64, interactions: &Vec<Interaction>) -> (r: Vec<UpgradeSelected>)
        requires
            old(self).wf(),
            cam.wf(),
            old(self).texts.now + dt_ms <= u64::MAX,
            old(self).menu.next_id + MENU_ENTITIES <= u64::MAX,
            old(self).menu.ui.is_some() ==> interactions@.len() == old(self).menu.ui.unwrap().buttons@.len(),
        ensures
            final(self).wf(),
            exists|mid: LevelUpMenu| pressed(old(self).menu, interactions@, mid, r@) && applied(mid, final(self).menu),
            final(self).texts.now == old(self).texts.now + dt_ms,
            final(self).texts.next_id == old(self).texts.next_id,
            final(self).texts.items@ == after_frame(old(self).texts.items@, *cam, dt_ms as int),
    {
        let events = self.menu.press(interactions);
        let ghost mid = self.menu;
        self.menu.apply_transition();
        update_world_text(&mut self.texts, cam, dt_ms);
        assert(pressed(old(self).menu, interactions@, mid, events@) && applied(mid, self.menu));
        events
    }
}

} // verus!
