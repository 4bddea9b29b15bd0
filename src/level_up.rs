use vstd::prelude::*;

verus! {

/// The two modes of play.
#[derive(Clone, Copy, Debug, PartialEq, Eq, Structural)]
pub enum GameState {
    Gameplay,
    LevelUp,
}

/// The upgrades a level-up offers.
#[derive(Clone, Copy, Debug, PartialEq, Eq, Structural)]
pub enum WeaponUpgrade {
    CloseShot,
    AreaShot,
    Whip,
}

/// The one-shot message that a pressed upgrade button sends.
#[derive(Clone, Copy, Debug, PartialEq, Eq, Structural)]
pub struct UpgradeSelected(pub WeaponUpgrade);

/// What the pointer does to a button during a frame.
#[derive(Clone, Copy, Debug, PartialEq, Eq, Structural)]
pub enum Interaction {
    Clicked,
    Hovered,
    Idle,
}

/// Background colours of an upgrade button.
#[derive(Clone, Copy, Debug, PartialEq, Eq, Structural)]
pub enum ButtonColor {
    /// Freshly spawned.
    Crimson,
    /// Not touched by the pointer.
    DarkGreen,
    /// Under the pointer.
    Green,
    /// Pressed.
    Red,
}

pub open spec fn weapon_name(w: WeaponUpgrade) -> Seq<char> {
    match w {
        WeaponUpgrade::CloseShot => "Close Shot"@,
        WeaponUpgrade::AreaShot => "Area Shot"@,
        WeaponUpgrade::Whip => "Whip"@,
    }
}

impl WeaponUpgrade {
    /// The name shown on the upgrade's button.
    pub fn name(&self) -> (r: &'static str)
        ensures
            r@ == weapon_name(*self),
    {
        match self {
            WeaponUpgrade::CloseShot => "Close Shot",
            WeaponUpgrade::AreaShot => "Area Shot",
            WeaponUpgrade::Whip => "Whip",
        }
    }
}

/// The upgrade offered by the button at `k` of the menu.
pub open spec fn weapon_at(k: int) -> WeaponUpgrade {
    if k == 0 {
        WeaponUpgrade::CloseShot
    } else if k == 1 {
        WeaponUpgrade::AreaShot
    } else {
        WeaponUpgrade::Whip
    }
}

/// An upgrade button: its entity, the entity of its text, what it offers
/// and its colour.
#[derive(Clone, Copy, Debug, PartialEq, Eq, Structural)]
pub struct UpgradeButton {
    pub id: u64,
    pub label_id: u64,
    pub weapon: WeaponUpgrade,
    pub color: ButtonColor,
}

/// The level-up menu: a full-screen root, a popup inside it, and the
/// upgrade buttons inside the popup.
#[derive(Debug)]
pub struct LevelUpUI {
    pub root: u64,
    pub popup: u64,
    pub buttons: Vec<UpgradeButton>,
}

/// How many entities one menu takes.
pub const MENU_ENTITIES: u64 = 8;

/// The button that `spawn_button` makes from entity id `n`.
pub open spec fn button_at(n: int, weapon: WeaponUpgrade) -> UpgradeButton {
    UpgradeButton { id: n as u64, label_id: (n + 1) as u64, weapon, color: ButtonColor::Crimson }
}

/// A menu freshly made from entity ids `n` to `n + MENU_ENTITIES`: one
/// button for each upgrade, in order.
pub open spec fn is_fresh_menu(ui: LevelUpUI, n: int) -> bool {
    &&& ui.root == n
    &&& ui.popup == n + 1
    &&& ui.buttons@.len() == 3
    &&& forall|k: int| 0 <= k < 3 ==> #[trigger] ui.buttons@[k] == button_at(n + 2 + 2 * k, weapon_at(k))
}

/// A menu made from entity ids `n` to `n + MENU_ENTITIES`, its buttons in
/// any colour.
pub open spec fn is_menu_from(ui: LevelUpUI, n: int) -> bool {
    &&& ui.root == n
    &&& ui.popup == n + 1
    &&& ui.buttons@.len() == 3
    &&& forall|k: int| 0 <= k < 3 ==> {
        &&& (#[trigger] ui.buttons@[k]).id == n + 2 + 2 * k
        &&& ui.buttons@[k].label_id == n + 3 + 2 * k
        &&& ui.buttons@[k].weapon == weapon_at(k)
    }
}

/// Makes an upgrade button and its text from fresh entity ids.
pub fn spawn_button(next_id: &mut u64, weapon: WeaponUpgrade) -> (r: UpgradeButton)
    requires
        *old(next_id) + 2 <= u64::MAX,
    ensures
        r == button_at(*old(next_id) as int, weapon),
        *final(next_id) == *old(next_id) + 2,
{
    let id = *next_id;
    *next_id = id + 2;
    UpgradeButton { id, label_id: id + 1, weapon, color: ButtonColor::Crimson }
}

/// Makes the level-up menu from fresh entity ids: a root, a popup, and a
/// button for each upgrade.
pub fn spawn_level_up_ui(next_id: &mut u64) -> (r: LevelUpUI)
    requires
        *old(next_id) + MENU_ENTITIES <= u64::MAX,
    ensures
        is_fresh_menu(r, *old(next_id) as int),
        *final(next_id) == *old(next_id) + MENU_ENTITIES,
{
    let root = *next_id;
    let popup = root + 1;
    *next_id = root + 2;
    let mut buttons: Vec<UpgradeButton> = Vec::new();
    buttons.push(spawn_button(next_id, WeaponUpgrade::CloseShot));
    buttons.push(spawn_button(next_id, WeaponUpgrade::AreaShot));
    buttons.push(spawn_button(next_id, WeaponUpgrade::Whip));
    let r = LevelUpUI { root, popup, buttons };
    assert(r.buttons@[0] == button_at(root + 2, weapon_at(0)));
    assert(r.buttons@[1] == button_at(root + 2 + 2 * 1, weapon_at(1)));
    assert(r.buttons@[2] == button_at(root + 2 + 2 * 2, weapon_at(2)));
    r
}

/// Removes the level-up menu with everything inside it.
pub fn despawn_level_up_ui(ui: &mut Option<LevelUpUI>)
    ensures
        final(ui).is_none(),
{
    *ui = None;
}

pub open spec fn color_for(i: Interaction) -> ButtonColor {
    match i {
        Interaction::Clicked => ButtonColor::Red,
        Interaction::Hovered => ButtonColor::Green,
        Interaction::Idle => ButtonColor::DarkGreen,
    }
}

/// The upgrades of the clicked buttons, in button order.
pub open spec fn selected(buttons: Seq<UpgradeButton>, inter: Seq<Interaction>) -> Seq<WeaponUpgrade>
    decreases buttons.len(),
{
    if buttons.len() == 0 {
        Seq::empty()
    } else {
        let rest = selected(buttons.drop_last(), inter.subrange(0, buttons.len() - 1));
        if inter[buttons.len() - 1] == Interaction::Clicked {
            rest.push(buttons.last().weapon)
        } else {
            rest
        }
    }
}

pub open spec fn any_clicked(inter: Seq<Interaction>) -> bool {
    exists|k: int| 0 <= k < inter.len() && inter[k] == Interaction::Clicked
}

/// Reacts to the pointer: each button takes the colour of its interaction;
/// each clicked one sends its upgrade, and asks to go back to `Gameplay`.
/// `interactions[k]` is what happened to button `k`.
pub fn button_system(ui: &mut LevelUpUI, interactions: &Vec<Interaction>) -> (r: (Vec<UpgradeSelected>, Option<GameState>))
    requires
        interactions@.len() == old(ui).buttons@.len(),
    ensures
        final(ui).root == old(ui).root,
        final(ui).popup == old(ui).popup,
        final(ui).buttons@.len() == old(ui).buttons@.len(),
        forall|k: int|
            0 <= k < old(ui).buttons@.len() ==> #[trigger] final(ui).buttons@[k] == (UpgradeButton {
                color: color_for(interactions@[k]),
                ..old(ui).buttons@[k]
            }),
        r.0@.len() == selected(old(ui).buttons@, interactions@).len(),
        forall|k: int| 0 <= k < r.0@.len() ==> (#[trigger] r.0@[k]).0 == selected(old(ui).buttons@, interactions@)[k],
        r.1 == (if any_clicked(interactions@) { Some(GameState::Gameplay) } else { None::<GameState> }),
{
    let ghost start = ui.buttons@;
    let mut events: Vec<UpgradeSelected> = Vec::new();
    let mut next: Option<GameState> = None;
    let mut k: usize = 0;
    while k < ui.buttons.len()
        invariant
            ui.root == old(ui).root,
            ui.popup == old(ui).popup,
            start == old(ui).buttons@,
            ui.buttons@.len() == start.len(),
            interactions@.len() == start.len(),
            k <= start.len(),
            forall|j: int| 0 <= j < k ==> #[trigger] ui.buttons@[j] == (UpgradeButton {
                color: color_for(interactions@[j]),
                ..start[j]
            }),
            forall|j: int| k <= j < start.len() ==> #[trigger] ui.buttons@[j] == start[j],
            events@.len() == selected(start.subrange(0, k as int), interactions@.subrange(0, k as int)).len(),
            forall|j: int| 0 <= j < events@.len() ==> (#[trigger] events@[j]).0
                == selected(start.subrange(0, k as int), interactions@.subrange(0, k as int))[j],
            next == (if any_clicked(interactions@.subrange(0, k as int)) { Some(GameState::Gameplay) } else { None::<GameState> }),
        decreases start.len() - k,
    {
        let mut b = ui.buttons[k];
        let inter = interactions[k];
        match inter {
            Interaction::Clicked => {
                b.color = ButtonColor::Red;
                next = Some(GameState::Gameplay);
                events.push(UpgradeSelected(b.weapon));
            },
            Interaction::Hovered => {
                b.color = ButtonColor::Green;
            },
            Interaction::Idle => {
                b.color = ButtonColor::DarkGreen;
            },
        }
        ui.buttons.set(k, b);
        proof {
            let s1 = start.subrange(0, k as int + 1);
            let i1 = interactions@.subrange(0, k as int + 1);
            assert(s1.drop_last() =~= start.subrange(0, k as int));
            assert(i1.subrange(0, k as int) =~= interactions@.subrange(0, k as int));
            assert(i1[k as int] == inter);
            if any_clicked(interactions@.subrange(0, k as int)) {
                let j = choose|j: int| 0 <= j < k && interactions@.subrange(0, k as int)[j] == Interaction::Clicked;
                assert(i1[j] == Interaction::Clicked);
            }
            if any_clicked(i1) && inter != Interaction::Clicked {
                let j = choose|j: int| 0 <= j < k + 1 && i1[j] == Interaction::Clicked;
                assert(interactions@.subrange(0, k as int)[j] == Interaction::Clicked);
            }
        }
        k = k + 1;
    }
    proof {
        assert(start.subrange(0, start.len() as int) =~= start);
        assert(interactions@.subrange(0, start.len() as int) =~= interactions@);
    }
    (events, next)
}

/// The level-up state machine: the current state, a requested next state,
/// the menu that exists while levelling up, and the next free entity id.
#[derive(Debug)]
pub struct LevelUpMenu {
    pub state: GameState,
    pub next_state: Option<GameState>,
    pub ui: Option<LevelUpUI>,
    pub next_id: u64,
}

/// All ids of a menu, one per entity.
pub open spec fn menu_ids(ui: LevelUpUI) -> Set<u64> {
    Set::new(|id: u64| id == ui.root || id == ui.popup
        || exists|k: int| 0 <= k < ui.buttons@.len() && (#[trigger] ui.buttons@[k].id == id || ui.buttons@[k].label_id == id))
}

impl LevelUpMenu {
    /// The menu exists exactly while levelling up, was made fresh, and all its
    /// ids lie below `next_id`.
    pub open spec fn wf(&self) -> bool {
        &&& (self.state == GameState::LevelUp) == self.ui.is_some()
        &&& self.ui.is_some() ==> exists|n: int|
            0 <= n && n + MENU_ENTITIES <= self.next_id && #[trigger] is_menu_from(self.ui.unwrap(), n)
    }

    pub open spec fn new_spec() -> LevelUpMenu {
        LevelUpMenu { state: GameState::Gameplay, next_state: None, ui: None, next_id: 0 }
    }

    /// Starts in `Gameplay`, with no menu and no request.
    pub fn new() -> (r: LevelUpMenu)
        ensures
            r.wf(),
            r == LevelUpMenu::new_spec(),
    {
        LevelUpMenu { state: GameState::Gameplay, next_state: None, ui: None, next_id: 0 }
    }

    /// Asks for a change of state, carried out by the next `apply_transition`.
    pub fn request(&mut self, s: GameState)
        ensures
            *final(self) == (LevelUpMenu { next_state: Some(s), ..*old(self) }),
    {
        self.next_state = Some(s);
    }

    /// Carries out a requested change of state: leaving `LevelUp` removes the
    /// whole menu, entering it spawns a fresh one.
    pub fn apply_transition(&mut self)
        requires
            old(self).wf(),
            old(self).next_id + MENU_ENTITIES <= u64::MAX,
        ensures
            final(self).wf(),
            applied(*old(self), *final(self)),
    {
        match self.next_state {
            Some(s) => {
                self.next_state = None;
                if s != self.state {
                    if self.state == GameState::LevelUp {
                        despawn_level_up_ui(&mut self.ui);
                    }
                    self.state = s;
                    if s == GameState::LevelUp {
                        let ghost n = self.next_id as int;
                        let ui = spawn_level_up_ui(&mut self.next_id);
                        assert(is_menu_from(ui, n)) by {
                            assert forall|k: int| 0 <= k < 3 implies (#[trigger] ui.buttons@[k]).id == n + 2 + 2 * k
                                && ui.buttons@[k].label_id == n + 3 + 2 * k && ui.buttons@[k].weapon == weapon_at(k) by {
                                assert(ui.buttons@[k] == button_at(n + 2 + 2 * k, weapon_at(k)));
                            }
                        }
                        self.ui = Some(ui);
                        assert(is_menu_from(self.ui.unwrap(), n));
                    }
                }
            },
            None => {},
        }
    }

    /// Runs the buttons of the menu, if there is one, for a frame; a click
    /// requests `Gameplay`. Returns the messages sent.
    pub fn press(&mut self, interactions: &Vec<Interaction>) -> (r: Vec<UpgradeSelected>)
        requires
            old(self).ui.is_some() ==> interactions@.len() == old(self).ui.unwrap().buttons@.len(),
        ensures
            pressed(*old(self), interactions@, *final(self), r@),
            old(self).wf() ==> final(self).wf(),
    {
        match self.ui.take() {
            Some(mut ui) => {
                let (events, next) = button_system(&mut ui, interactions);
                self.ui = Some(ui);
                if next.is_some() {
                    self.next_state = next;
                }
                proof {
                    if old(self).wf() {
                        let n = choose|n: int| 0 <= n && n + MENU_ENTITIES <= old(self).next_id
                            && #[trigger] is_menu_from(old(self).ui.unwrap(), n);
                        let before = old(self).ui.unwrap();
                        let after = self.ui.unwrap();
                        assert forall|k: int| 0 <= k < 3 implies (#[trigger] after.buttons@[k]).id == n + 2 + 2 * k
                            && after.buttons@[k].label_id == n + 3 + 2 * k && after.buttons@[k].weapon == weapon_at(k) by {
                            assert(before.buttons@[k].id == n + 2 + 2 * k);
                        }
                        assert(is_menu_from(after, n));
                    }
                }
                events
            },
            None => Vec::new(),
        }
    }
}

/// What `apply_transition` does.
pub open spec fn applied(m: LevelUpMenu, r: LevelUpMenu) -> bool {
    &&& r.next_state.is_none()
    &&& if m.next_state == Some(GameState::LevelUp) && m.state == GameState::Gameplay {
        &&& r.state == GameState::LevelUp
        &&& r.ui.is_some()
        &&& is_fresh_menu(r.ui.unwrap(), m.next_id as int)
        &&& r.next_id == m.next_id + MENU_ENTITIES
    } else if m.next_state == Some(GameState::Gameplay) && m.state == GameState::LevelUp {
        &&& r.state == GameState::Gameplay
        &&& r.ui.is_none()
        &&& r.next_id == m.next_id
    } else {
        &&& r.state == m.state
        &&& r.ui == m.ui
        &&& r.next_id == m.next_id
    }
}

/// What `press` does.
pub open spec fn pressed(m: LevelUpMenu, inter: Seq<Interaction>, r: LevelUpMenu, events: Seq<UpgradeSelected>) -> bool {
    &&& r.state == m.state
    &&& r.next_id == m.next_id
    &&& if m.ui.is_some() {
        let old_ui = m.ui.unwrap();
        let new_ui = r.ui.unwrap();
        &&& r.ui.is_some()
        &&& new_ui.root == old_ui.root
        &&& new_ui.popup == old_ui.popup
        &&& new_ui.buttons@.len() == old_ui.buttons@.len()
        &&& forall|k: int| 0 <= k < old_ui.buttons@.len() ==> #[trigger] new_ui.buttons@[k] == (UpgradeButton {
            color: color_for(inter[k]),
            ..old_ui.buttons@[k]
        })
        &&& events.len() == selected(old_ui.buttons@, inter).len()
        &&& forall|k: int| 0 <= k < events.len() ==> (#[trigger] events[k]).0 == selected(old_ui.buttons@, inter)[k]
        &&& r.next_state == (if any_clicked(inter) { Some(GameState::Gameplay) } else { m.next_state })
    } else {
        &&& r.ui.is_none()
        &&& events.len() == 0
        &&& r.next_state == m.next_state
    }
}

/// Some button of the menu offers `w`.
pub open spec fn offers(ui: LevelUpUI, w: WeaponUpgrade) -> bool {
    exists|j: int| 0 <= j < ui.buttons@.len() && (#[trigger] ui.buttons@[j]).weapon == w
}

/// With only the button at `k` clicked, the clicks among the first `n`
/// buttons select that button's upgrade if `k < n`, and nothing otherwise.
proof fn lemma_selected_single(b: Seq<UpgradeButton>, inter: Seq<Interaction>, k: int, n: int)
    requires
        0 <= n <= b.len(),
        inter.len() == b.len(),
        0 <= k < b.len(),
        inter[k] == Interaction::Clicked,
        forall|j: int| 0 <= j < inter.len() && j != k ==> inter[j] != Interaction::Clicked,
    ensures
        selected(b.subrange(0, n), inter.subrange(0, n)) == (if k < n { seq![b[k].weapon] } else { Seq::<WeaponUpgrade>::empty() }),
    decreases n,
{
    if n > 0 {
        lemma_selected_single(b, inter, k, n - 1);
        let bs = b.subrange(0, n);
        let is = inter.subrange(0, n);
        assert(bs.drop_last() =~= b.subrange(0, n - 1));
        assert(is.subrange(0, n - 1) =~= inter.subrange(0, n - 1));
        assert(is[n - 1] == inter[n - 1]);
        assert(bs.last() == b[n - 1]);
        if k == n - 1 {
            assert(Seq::<WeaponUpgrade>::empty().push(b[k].weapon) =~= seq![b[k].weapon]);
        }
    }
}

/// Every id of a menu made from `n` lies in `n .. n + MENU_ENTITIES`.
proof fn lemma_menu_ids_range(ui: LevelUpUI, n: int)
    requires
        is_menu_from(ui, n),
    ensures
        forall|id: u64| #[trigger] menu_ids(ui).contains(id) ==> n <= id < n + MENU_ENTITIES,
{
    assert forall|id: u64| #[trigger] menu_ids(ui).contains(id) implies n <= id < n + MENU_ENTITIES by {
        if id != ui.root && id != ui.popup {
            let k = choose|k: int| 0 <= k < ui.buttons@.len() && (#[trigger] ui.buttons@[k].id == id || ui.buttons@[k].label_id == id);
            assert(ui.buttons@[k].id == n + 2 + 2 * k);
        }
    }
}

/// A round of levelling up: entering `LevelUp` makes exactly one button per
/// upgrade; a frame in which only the button at `k` is clicked sends exactly
/// one message, carrying that button's upgrade, and requests `Gameplay`; the
/// transition that follows leaves no menu entity.
pub proof fn lemma_level_up_round(
    m0: LevelUpMenu,
    m1: LevelUpMenu,
    inter: Seq<Interaction>,
    k: int,
    m2: LevelUpMenu,
    events: Seq<UpgradeSelected>,
    m3: LevelUpMenu,
)
    requires
        m0.wf(),
        m0.state == GameState::Gameplay,
        m0.next_state == Some(GameState::LevelUp),
        applied(m0, m1),
        inter.len() == 3,
        0 <= k < 3,
        inter[k] == Interaction::Clicked,
        forall|j: int| 0 <= j < 3 && j != k ==> inter[j] != Interaction::Clicked,
        pressed(m1, inter, m2, events),
        applied(m2, m3),
    ensures
        m1.state == GameState::LevelUp,
        m1.ui.is_some(),
        m1.ui.unwrap().buttons@.len() == 3,
        forall|w: WeaponUpgrade| #[trigger] offers(m1.ui.unwrap(), w),
        forall|a: int, b: int|
            0 <= a < b < 3 ==> (#[trigger] m1.ui.unwrap().buttons@[a]).weapon != (#[trigger] m1.ui.unwrap().buttons@[b]).weapon,
        events.len() == 1,
        events[0].0 == m1.ui.unwrap().buttons@[k].weapon,
        m2.next_state == Some(GameState::Gameplay),
        m3.state == GameState::Gameplay,
        m3.ui.is_none(),
{
    let ui = m1.ui.unwrap();
    let n = m0.next_id as int;
    assert(ui.buttons@[0] == button_at(n + 2, weapon_at(0)));
    assert(ui.buttons@[1] == button_at(n + 2 + 2 * 1, weapon_at(1)));
    assert(ui.buttons@[2] == button_at(n + 2 + 2 * 2, weapon_at(2)));
    assert forall|w: WeaponUpgrade| #[trigger] offers(ui, w) by {
        match w {
            WeaponUpgrade::CloseShot => assert(ui.buttons@[0].weapon == w),
            WeaponUpgrade::AreaShot => assert(ui.buttons@[1].weapon == w),
            WeaponUpgrade::Whip => assert(ui.buttons@[2].weapon == w),
        }
    }
    lemma_selected_single(ui.buttons@, inter, k, 3);
    assert(ui.buttons@.subrange(0, 3) =~= ui.buttons@);
    assert(inter.subrange(0, 3) =~= inter);
    assert(any_clicked(inter));
}

/// Re-entering `LevelUp` after leaving it makes a fresh menu again: one new
/// button per upgrade, none of its entities shared with the earlier menu.
pub proof fn lemma_level_up_reentry(m0: LevelUpMenu, m1: LevelUpMenu, m2: LevelUpMenu, m3: LevelUpMenu)
    requires
        m0.wf(),
        m0.state == GameState::LevelUp,
        m0.next_state == Some(GameState::Gameplay),
        applied(m0, m1),
        m2 == (LevelUpMenu { next_state: Some(GameState::LevelUp), ..m1 }),
        applied(m2, m3),
    ensures
        m1.ui.is_none(),
        m3.state == GameState::LevelUp,
        m3.ui.is_some(),
        m3.ui.unwrap().buttons@.len() == 3,
        forall|k: int| 0 <= k < 3 ==> (#[trigger] m3.ui.unwrap().buttons@[k]).weapon == weapon_at(k)
            && m3.ui.unwrap().buttons@[k].color == ButtonColor::Crimson,
        menu_ids(m0.ui.unwrap()).disjoint(menu_ids(m3.ui.unwrap())),
{
    let old_ui = m0.ui.unwrap();
    let new_ui = m3.ui.unwrap();
    let n0 = choose|n: int| 0 <= n && n + MENU_ENTITIES <= m0.next_id && #[trigger] is_menu_from(old_ui, n);
    lemma_menu_ids_range(old_ui, n0);
    let n = m2.next_id as int;
    assert forall|k: int| 0 <= k < 3 implies (#[trigger] new_ui.buttons@[k]).id == n + 2 + 2 * k
        && new_ui.buttons@[k].label_id == n + 3 + 2 * k && new_ui.buttons@[k].weapon == weapon_at(k)
        && new_ui.buttons@[k].color == ButtonColor::Crimson by {
        assert(new_ui.buttons@[k] == button_at(n + 2 + 2 * k, weapon_at(k)));
    }
    lemma_menu_ids_range(new_ui, n);
    assert forall|id: u64| !(menu_ids(old_ui).contains(id) && menu_ids(new_ui).contains(id)) by {
        if menu_ids(old_ui).contains(id) {
            assert(id < m0.next_id);
        }
    }
}

} // verus!
