use pizza_survivor::{
    NodeColor, spawn_header_ui, spawn_player_ui,
    ENEMY_BASE_X, ENEMY_BASE_Y, ENEMY_COUNT, Game, Keys, PLAYER_SPEED, Player, Point,
    player_exp_ui_sync, player_health_ui_sync, player_movement, spawn_player,
};

fn keys(up: bool, down: bool, left: bool, right: bool) -> Keys {
    Keys { up, down, left, right }
}

#[test]
fn startup_spawns_one_player_and_ten_staggered_enemies() {
    let s = spawn_player();
    assert_eq!(s.player.health, 100);
    assert_eq!(s.player.max_health, 100);
    assert_eq!(s.player.speed, PLAYER_SPEED);
    assert_eq!(s.player_position, Point { x: 0, y: 0 });
    assert_eq!(s.enemies.len(), 10);
    assert_eq!(ENEMY_COUNT, 10);
    for (i, e) in s.enemies.iter().enumerate() {
        assert_eq!(e.position.x, ENEMY_BASE_X + 100_000 * i as i64);
        assert_eq!(e.position.y, ENEMY_BASE_Y);
        assert_eq!(e.enemy.speed, 5_000);
        assert_eq!(e.enemy.health, 5);
    }
    for i in 0..10 {
        for j in (i + 1)..10 {
            assert_ne!(s.enemies[i].position.x, s.enemies[j].position.x);
        }
    }
}

#[test]
fn right_key_moves_by_speed_times_dt() {
    let p = Point { x: 5, y: -7 };
    let r = player_movement(p, keys(false, false, false, true), 10_000, 16).unwrap();
    assert_eq!(r, Point { x: 5 + 160_000, y: -7 });
}

#[test]
fn right_and_up_move_both_axes_independently() {
    let r = player_movement(Point { x: 0, y: 0 }, keys(true, false, false, true), 10_000, 250).unwrap();
    assert_eq!(r, Point { x: 2_500_000, y: 2_500_000 });
}

#[test]
fn opposite_keys_cancel_and_no_keys_stay() {
    let p = Point { x: 3, y: 4 };
    assert_eq!(player_movement(p, keys(true, true, true, true), 10_000, 100), Some(p));
    assert_eq!(player_movement(p, keys(false, false, false, false), 10_000, 100), Some(p));
    let r = player_movement(p, keys(false, true, true, false), 2, 3).unwrap();
    assert_eq!(r, Point { x: -3, y: -2 });
}

#[test]
fn movement_past_the_coordinate_range_is_refused() {
    let p = Point { x: i64::MAX - 5, y: 0 };
    assert_eq!(player_movement(p, keys(false, false, false, true), 10, 1), None);
    let q = Point { x: 0, y: i64::MIN + 5 };
    assert_eq!(player_movement(q, keys(false, true, false, false), 10, 1), None);
}

#[test]
fn health_bar_is_health_over_max_in_percent() {
    let p = Player { speed: 1, health: 37, max_health: 50, exp: 3, next_level_exp: 40 };
    let h = player_health_ui_sync(&p);
    assert_eq!((h.num, h.den), (3_700, 50));
    let e = player_exp_ui_sync(&p);
    assert_eq!((e.num, e.den), (300, 40));
}

#[test]
fn bars_match_player_at_startup_and_after_frames() {
    let mut g = Game::startup();
    assert_eq!((g.health_bar.num, g.health_bar.den), (10_000, 100));
    assert_eq!((g.exp_bar.num, g.exp_bar.den), (0, 100));
    g.player.health = 40;
    g.player.exp = 25;
    g.frame(keys(false, false, false, true), 100);
    assert_eq!((g.health_bar.num, g.health_bar.den), (4_000, 100));
    assert_eq!((g.exp_bar.num, g.exp_bar.den), (2_500, 100));
    assert_eq!(g.player_position, Point { x: 1_000_000, y: 0 });
    assert_eq!(g.enemies.len(), 10);
}

#[test]
fn frame_at_the_edge_leaves_the_player_in_place() {
    let mut g = Game::startup();
    g.player_position = Point { x: i64::MAX, y: 0 };
    g.frame(keys(false, false, false, true), 1);
    assert_eq!(g.player_position, Point { x: i64::MAX, y: 0 });
}

#[test]
fn header_and_player_bars_start_empty() {
    let mut n: u64 = 3;
    let header = spawn_header_ui(&mut n);
    let player = spawn_player_ui(&mut n);
    assert_eq!(n, 7);
    assert_eq!((header.frame_id, header.bar_id), (3, 4));
    assert_eq!((player.frame_id, player.bar_id), (5, 6));
    assert_eq!((header.frame.width, header.frame.height), (1000, 100));
    assert_eq!(header.bar.width, 0);
    assert_eq!(header.bar_color, NodeColor::Blue);
    assert_eq!(player.frame.left, Some(475));
    assert_eq!(player.frame.top, Some(550));
    assert_eq!(player.bar.width, 0);
    assert_eq!(player.bar_color, NodeColor::Red);
}
