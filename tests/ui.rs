use pizza_survivor::{
    ButtonColor, Cameras, GameState, GameUiPlugin, Interaction, LevelUpMenu, LevelUpUI, Point,
    ScreenPos, UpgradeSelected, WeaponUpgrade, WorldTexts, button_system, despawn_level_up_ui,
    spawn_button, spawn_level_up_ui, spawn_world_text, update_world_text, world_to_screen,
};

fn cameras() -> Cameras {
    Cameras {
        center: Point { x: 0, y: 0 },
        view_height: 20_000_000,
        target_w: 1920,
        target_h: 1080,
        present_w: 857,
        present_h: 480,
    }
}

#[test]
fn camera_centre_projects_to_window_centre() {
    let r = world_to_screen(&cameras(), 0, 0);
    assert_eq!(r, Some(ScreenPos { left: 428_500, top: 240_000 }));
}

#[test]
fn projection_flips_the_vertical_axis() {
    // Five units up is a quarter of the view height above the centre.
    let r = world_to_screen(&cameras(), 0, 5_000_000).unwrap();
    assert_eq!(r, ScreenPos { left: 428_500, top: 120_000 });
}

#[test]
fn points_outside_the_view_are_not_projected() {
    assert_eq!(world_to_screen(&cameras(), 100_000_000, 0), None);
    assert_eq!(world_to_screen(&cameras(), 0, -10_000_001), None);
    assert!(world_to_screen(&cameras(), 0, -10_000_000).is_some());
}

#[test]
fn spawned_text_carries_offset_text_and_fresh_id() {
    let mut t = WorldTexts::new(1_000);
    let a = spawn_world_text(&mut t, Point { x: 1_000_000, y: 2_000_000 }, "12");
    let b = spawn_world_text(&mut t, Point { x: 0, y: 0 }, "crit");
    assert_eq!((a, b), (0, 1));
    assert_eq!(t.items.len(), 2);
    assert_eq!(t.items[0].text, "12");
    assert_eq!(t.items[0].x, 800_000);
    assert_eq!(t.items[0].y, 2_700_000);
    assert_eq!(t.items[0].spawned_at, 1_000);
    assert_eq!(t.items[0].screen, None);
    assert_eq!(t.items[1].text, "crit");
}

#[test]
fn text_drifts_and_is_placed_on_screen() {
    let mut t = WorldTexts::new(0);
    spawn_world_text(&mut t, Point { x: 200_000, y: -700_000 }, "5");
    update_world_text(&mut t, &cameras(), 10);
    assert_eq!(t.items.len(), 1);
    assert_eq!(t.items[0].x, 1_500);
    assert_eq!(t.items[0].y, 10_000);
    assert_eq!(t.items[0].elapsed_ms, 10);
    assert_eq!(t.items[0].screen, Some(ScreenPos { left: 428_536, top: 239_760 }));
}

#[test]
fn text_out_of_view_keeps_its_last_screen_position() {
    let mut t = WorldTexts::new(0);
    spawn_world_text(&mut t, Point { x: 200_000, y: -700_000 }, "5");
    update_world_text(&mut t, &cameras(), 0);
    let shown = t.items[0].screen;
    assert!(shown.is_some());
    let mut far = cameras();
    far.center = Point { x: 1_000_000_000, y: 0 };
    update_world_text(&mut t, &far, 10);
    assert_eq!(t.items[0].screen, shown);
    assert_eq!(t.items[0].x, 1_500);
}

#[test]
fn text_lives_exactly_half_a_second() {
    let mut t = WorldTexts::new(2_000);
    let id = spawn_world_text(&mut t, Point { x: 0, y: 0 }, "hit");
    update_world_text(&mut t, &cameras(), 250);
    assert_eq!(t.items.len(), 1);
    update_world_text(&mut t, &cameras(), 249);
    assert_eq!(t.items.len(), 1);
    assert_eq!(t.items[0].id, id);
    assert_eq!(t.now, 2_499);
    update_world_text(&mut t, &cameras(), 1);
    assert_eq!(t.items.len(), 0);
    assert_eq!(t.now, 2_500);
    update_world_text(&mut t, &cameras(), 100);
    assert_eq!(t.items.len(), 0);
}

#[test]
fn long_frame_removes_text_without_moving_it() {
    let mut t = WorldTexts::new(0);
    spawn_world_text(&mut t, Point { x: 0, y: 0 }, "a");
    update_world_text(&mut t, &cameras(), 100);
    spawn_world_text(&mut t, Point { x: 0, y: 0 }, "b");
    update_world_text(&mut t, &cameras(), 400);
    assert_eq!(t.items.len(), 1);
    assert_eq!(t.items[0].text, "b");
    assert_eq!(t.items[0].id, 1);
    update_world_text(&mut t, &cameras(), 10_000);
    assert_eq!(t.items.len(), 0);
}

#[test]
fn weapon_names() {
    assert_eq!(WeaponUpgrade::CloseShot.name(), "Close Shot");
    assert_eq!(WeaponUpgrade::AreaShot.name(), "Area Shot");
    assert_eq!(WeaponUpgrade::Whip.name(), "Whip");
}

#[test]
fn spawned_button_uses_two_fresh_ids() {
    let mut n: u64 = 7;
    let b = spawn_button(&mut n, WeaponUpgrade::Whip);
    assert_eq!(n, 9);
    assert_eq!((b.id, b.label_id), (7, 8));
    assert_eq!(b.weapon, WeaponUpgrade::Whip);
    assert_eq!(b.color, ButtonColor::Crimson);
}

#[test]
fn menu_has_one_button_per_upgrade() {
    let mut n: u64 = 10;
    let ui = spawn_level_up_ui(&mut n);
    assert_eq!(n, 18);
    assert_eq!((ui.root, ui.popup), (10, 11));
    let weapons: Vec<WeaponUpgrade> = ui.buttons.iter().map(|b| b.weapon).collect();
    assert_eq!(weapons, vec![WeaponUpgrade::CloseShot, WeaponUpgrade::AreaShot, WeaponUpgrade::Whip]);
    let ids: Vec<u64> = ui.buttons.iter().map(|b| b.id).collect();
    assert_eq!(ids, vec![12, 14, 16]);
}

#[test]
fn despawn_removes_the_menu() {
    let mut n: u64 = 0;
    let mut ui: Option<LevelUpUI> = Some(spawn_level_up_ui(&mut n));
    despawn_level_up_ui(&mut ui);
    assert!(ui.is_none());
}

#[test]
fn buttons_take_the_colour_of_their_interaction() {
    let mut n: u64 = 0;
    let mut ui = spawn_level_up_ui(&mut n);
    let (events, next) =
        button_system(&mut ui, &vec![Interaction::Hovered, Interaction::Idle, Interaction::Hovered]);
    assert!(events.is_empty());
    assert_eq!(next, None);
    let colors: Vec<ButtonColor> = ui.buttons.iter().map(|b| b.color).collect();
    assert_eq!(colors, vec![ButtonColor::Green, ButtonColor::DarkGreen, ButtonColor::Green]);
}

#[test]
fn each_click_sends_its_own_message() {
    let mut n: u64 = 0;
    let mut ui = spawn_level_up_ui(&mut n);
    let (events, next) =
        button_system(&mut ui, &vec![Interaction::Clicked, Interaction::Idle, Interaction::Clicked]);
    assert_eq!(events, vec![UpgradeSelected(WeaponUpgrade::CloseShot), UpgradeSelected(WeaponUpgrade::Whip)]);
    assert_eq!(next, Some(GameState::Gameplay));
    assert_eq!(ui.buttons[0].color, ButtonColor::Red);
    assert_eq!(ui.buttons[1].color, ButtonColor::DarkGreen);
}

#[test]
fn level_up_round_trip() {
    let mut m = LevelUpMenu::new();
    assert_eq!(m.state, GameState::Gameplay);
    m.request(GameState::LevelUp);
    m.apply_transition();
    assert_eq!(m.state, GameState::LevelUp);
    assert_eq!(m.ui.as_ref().unwrap().buttons.len(), 3);
    let events = m.press(&vec![Interaction::Idle, Interaction::Clicked, Interaction::Hovered]);
    assert_eq!(events, vec![UpgradeSelected(WeaponUpgrade::AreaShot)]);
    assert_eq!(m.next_state, Some(GameState::Gameplay));
    m.apply_transition();
    assert_eq!(m.state, GameState::Gameplay);
    assert!(m.ui.is_none());
    assert_eq!(m.next_state, None);
}

#[test]
fn reentering_level_up_makes_fresh_buttons() {
    let mut m = LevelUpMenu::new();
    m.request(GameState::LevelUp);
    m.apply_transition();
    let first: Vec<u64> = m.ui.as_ref().unwrap().buttons.iter().map(|b| b.id).collect();
    m.request(GameState::Gameplay);
    m.apply_transition();
    assert!(m.ui.is_none());
    m.request(GameState::LevelUp);
    m.apply_transition();
    let ui = m.ui.as_ref().unwrap();
    assert_eq!(ui.buttons.len(), 3);
    for b in &ui.buttons {
        assert!(!first.contains(&b.id));
        assert_eq!(b.color, ButtonColor::Crimson);
    }
    assert_eq!(ui.root, 8);
}

#[test]
fn requests_for_the_current_state_change_nothing() {
    let mut m = LevelUpMenu::new();
    m.request(GameState::Gameplay);
    m.apply_transition();
    assert_eq!(m.state, GameState::Gameplay);
    assert!(m.ui.is_none());
    assert_eq!(m.next_id, 0);
    assert!(m.press(&vec![]).is_empty());
}

#[test]
fn ui_frame_presses_then_transitions_then_moves_texts() {
    let mut ui = GameUiPlugin::build(0);
    spawn_world_text(&mut ui.texts, Point { x: 0, y: 0 }, "x");
    ui.menu.request(GameState::LevelUp);
    let none = ui.update(&cameras(), 100, &vec![]);
    assert!(none.is_empty());
    assert_eq!(ui.menu.state, GameState::LevelUp);
    let ev = ui.update(&cameras(), 100, &vec![Interaction::Idle, Interaction::Idle, Interaction::Clicked]);
    assert_eq!(ev, vec![UpgradeSelected(WeaponUpgrade::Whip)]);
    assert_eq!(ui.menu.state, GameState::Gameplay);
    assert!(ui.menu.ui.is_none());
    assert_eq!(ui.texts.items.len(), 1);
    assert_eq!(ui.texts.now, 200);
}
