//! Core logic of a small top-down survival game: player and enemy spawning,
//! movement, health and experience bars, floating world text and the
//! level-up menu, all in exact fixed-point integer units.

pub mod actors;
pub mod bars;
pub mod game;
pub mod hud;
pub mod level_up;
pub mod movement;
pub mod projection;
pub mod ui;
pub mod world_text;

pub use actors::{
    ENEMY_BASE_X, ENEMY_BASE_Y, ENEMY_COUNT, ENEMY_HEALTH, ENEMY_SPEED, ENEMY_STAGGER, Enemy,
    EnemyEntity, PLAYER_FIRST_LEVEL_EXP, PLAYER_MAX_HEALTH, PLAYER_SPEED, Player, Spawned,
    spawn_player,
};
pub use bars::{Percent, player_exp_ui_sync, player_health_ui_sync};
pub use game::Game;
pub use hud::{BarWidget, NodeColor, NodeLayout, spawn_header_ui, spawn_player_ui};
pub use level_up::{
    ButtonColor, GameState, Interaction, LevelUpMenu, LevelUpUI, MENU_ENTITIES, UpgradeButton,
    UpgradeSelected, WeaponUpgrade, button_system, despawn_level_up_ui, lemma_level_up_reentry,
    lemma_level_up_round, spawn_button, spawn_level_up_ui,
};
pub use movement::{Keys, Point, player_movement};
pub use projection::{Cameras, ScreenPos, world_to_screen};
pub use ui::GameUiPlugin;
pub use world_text::{
    WorldTextUI, WorldTexts, lemma_world_text_lifecycle, spawn_world_text, update_world_text,
};
