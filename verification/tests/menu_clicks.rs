use icraft::inventory::GameMode;
use icraft::menu::{Difficulty, MenuScreen, MultiplayerMode, MultiplayerRole, TextField};
use icraft::menu_click::{clamp_focus, focus_count, menu_click, multiplayer_role, MenuEffect, MenuState, MenuWidget};
use icraft::worlds::WorldType;

fn state(screen: MenuScreen) -> MenuState {
    MenuState {
        screen,
        multiplayer_mode: MultiplayerMode::Host,
        active_field: None,
        focus_index: 0,
        recent_server_count: 2,
        resource_pack_count: 4,
        world_count: 7,
        world_scroll: 3,
        selected_world: None,
        create_mode: GameMode::Creative,
        create_difficulty: Difficulty::Easy,
        create_world_type: WorldType::Superflat,
        create_generate_structures: false,
        create_bonus_chest: true,
        create_cheats: true,
        create_hardcore: false,
        settings_difficulty: Difficulty::Normal,
    }
}

#[test]
fn main_screen_buttons_lead_on() {
    let (s, e) = menu_click(&state(MenuScreen::Main), MenuWidget::MainSingleplayer);
    assert_eq!(s.screen, MenuScreen::Worlds);
    assert_eq!(e, MenuEffect::RefreshWorlds);
    let (s, e) = menu_click(&state(MenuScreen::Main), MenuWidget::MainQuit);
    assert_eq!(s.screen, MenuScreen::Main);
    assert_eq!(e, MenuEffect::Quit);
}

#[test]
fn join_fields_only_while_joining() {
    let (s, _) = menu_click(&state(MenuScreen::Multiplayer), MenuWidget::UsernameField);
    assert_eq!(s.active_field, None);
    let mut joining = state(MenuScreen::Multiplayer);
    joining.multiplayer_mode = MultiplayerMode::Join;
    let (s, e) = menu_click(&joining, MenuWidget::UsernameField);
    assert_eq!(s.active_field, Some(TextField::Username));
    assert_eq!(s.focus_index, 4);
    assert_eq!(e, MenuEffect::Stay);
}

#[test]
fn world_rows_select_below_the_scroll() {
    let (s, _) = menu_click(&state(MenuScreen::Worlds), MenuWidget::WorldRow(2));
    assert_eq!(s.selected_world, Some(5));
    let (s, _) = menu_click(&state(MenuScreen::Worlds), MenuWidget::WorldRow(4));
    assert_eq!(s.selected_world, None);
    let (_, e) = menu_click(&state(MenuScreen::Worlds), MenuWidget::WorldsPlay);
    assert_eq!(e, MenuEffect::Stay);
}

#[test]
fn create_screen_starts_from_defaults() {
    let (s, _) = menu_click(&state(MenuScreen::Worlds), MenuWidget::WorldsCreate);
    assert_eq!(s.screen, MenuScreen::CreateWorld);
    assert_eq!(s.create_mode, GameMode::Survival);
    assert_eq!(s.create_difficulty, Difficulty::Normal);
    assert_eq!(s.create_world_type, WorldType::Default);
    assert!(s.create_generate_structures);
    assert!(!s.create_bonus_chest);
    assert!(!s.create_cheats);
    assert!(!s.create_hardcore);
}

#[test]
fn hardcore_forces_survival_on_hard() {
    let (s, _) = menu_click(&state(MenuScreen::CreateWorld), MenuWidget::CreateHardcore);
    assert!(s.create_hardcore);
    assert_eq!(s.create_mode, GameMode::Survival);
    assert_eq!(s.create_difficulty, Difficulty::Hard);
    let (t, _) = menu_click(&s, MenuWidget::CreateHardcore);
    assert!(!t.create_hardcore);
    assert_eq!(t.create_difficulty, Difficulty::Hard);
}

#[test]
fn create_buttons_cycle() {
    let (s, _) = menu_click(&state(MenuScreen::CreateWorld), MenuWidget::CreateGameMode);
    assert_eq!(s.create_mode, GameMode::Adventure);
    let (s, _) = menu_click(&s, MenuWidget::CreateDifficulty(false));
    assert_eq!(s.create_difficulty, Difficulty::Peaceful);
    let (s, _) = menu_click(&s, MenuWidget::CreateDifficulty(false));
    assert_eq!(s.create_difficulty, Difficulty::Hard);
    let (s, _) = menu_click(&s, MenuWidget::CreateWorldType);
    assert_eq!(s.create_world_type, WorldType::Default);
    let (s, e) = menu_click(&s, MenuWidget::CreateCancel);
    assert_eq!(s.screen, MenuScreen::Worlds);
    assert_eq!(e, MenuEffect::Stay);
}

#[test]
fn delete_confirmation_returns_to_the_list() {
    let (s, e) = menu_click(&state(MenuScreen::ConfirmDelete), MenuWidget::DeleteConfirm);
    assert_eq!(s.screen, MenuScreen::Worlds);
    assert_eq!(e, MenuEffect::DeleteSelected);
    let (_, e) = menu_click(&state(MenuScreen::Options), MenuWidget::MainQuit);
    assert_eq!(e, MenuEffect::ScreenHandler);
}

#[test]
fn focus_is_held_to_the_new_screen() {
    let mut s = state(MenuScreen::Worlds);
    s.focus_index = 10;
    let (after, _) = menu_click(&s, MenuWidget::WorldsBack);
    assert_eq!(after.screen, MenuScreen::Main);
    assert_eq!(after.focus_index, 3);
    assert_eq!(focus_count(&s), 13);
    let mut joining = state(MenuScreen::Multiplayer);
    joining.multiplayer_mode = MultiplayerMode::Join;
    joining.focus_index = 50;
    assert_eq!(focus_count(&joining), 10);
    assert_eq!(clamp_focus(&joining).focus_index, 9);
}

#[test]
fn multiplayer_form_check() {
    assert_eq!(multiplayer_role(MultiplayerMode::Host, "25565", "", "", ""), Some(MultiplayerRole::Host { port: 25565 }));
    assert_eq!(multiplayer_role(MultiplayerMode::Host, "0", "", "", ""), None);
    assert_eq!(multiplayer_role(MultiplayerMode::Host, "70000", "", "", ""), None);
    assert_eq!(
        multiplayer_role(MultiplayerMode::Join, "", "  example.org ", "25565", " Steve "),
        Some(MultiplayerRole::Client { server_addr: "example.org".to_string(), port: 25565, username: "Steve".to_string() })
    );
    assert_eq!(multiplayer_role(MultiplayerMode::Join, "", "   ", "25565", "Steve"), None);
    assert_eq!(multiplayer_role(MultiplayerMode::Join, "", "host", "25565", ""), None);
    assert_eq!(multiplayer_role(MultiplayerMode::Join, "", "host", "x", "Steve"), None);
}
