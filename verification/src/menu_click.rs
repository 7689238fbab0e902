//! What a click in the menus does: the next screen state, and the work (finding worlds on disk,
//! launching, copying, deleting, saving) that the caller then carries out.

use vstd::prelude::*;
use crate::inventory::GameMode;
use crate::menu::{multiplayer_focus_count, Difficulty, MenuScreen, MultiplayerMode, MultiplayerRole, TextField};
use crate::text::{chars_of, parse_unsigned, parse_unsigned_chars, string_from_chars, trim, trimmed_chars};
use crate::worlds::WorldType;

verus! {

/// The part of the menu a click reads and changes.
#[derive(Debug, Clone, Copy)]
pub struct MenuState {
    pub screen: MenuScreen,
    pub multiplayer_mode: MultiplayerMode,
    pub active_field: Option<TextField>,
    pub focus_index: usize,
    /// Number of recent servers in the address book and of resource packs on offer.
    pub recent_server_count: usize,
    pub resource_pack_count: usize,
    /// Number of worlds listed, the first one shown, and the one selected.
    pub world_count: usize,
    pub world_scroll: usize,
    pub selected_world: Option<usize>,
    /// The world being set up on the create screen.
    pub create_mode: GameMode,
    pub create_difficulty: Difficulty,
    pub create_world_type: WorldType,
    pub create_generate_structures: bool,
    pub create_bonus_chest: bool,
    pub create_cheats: bool,
    pub create_hardcore: bool,
    /// Difficulty of the game settings, which a new world starts from.
    pub settings_difficulty: Difficulty,
}

/// The control a click landed on.
#[derive(Debug, Clone, Copy, PartialEq, Eq)]
pub enum MenuWidget {
    MainSingleplayer,
    MainMultiplayer,
    MainOptions,
    MainQuit,
    HostMode,
    JoinMode,
    HostPortField,
    ServerAddressField,
    JoinPortField,
    UsernameField,
    RecentServer,
    PingButton,
    MultiplayerContinue,
    MultiplayerBack,
    /// The row shown at this position of the world list.
    WorldRow(usize),
    WorldsPlay,
    WorldsCreate,
    WorldsDelete,
    WorldsCopy,
    WorldsBackup,
    WorldsBack,
    WorldNameField,
    SeedField,
    CreateGameMode,
    /// The difficulty button, clicked on its left half (`false`) or right half (`true`).
    CreateDifficulty(bool),
    CreateWorldType,
    CreateStructures,
    CreateHardcore,
    CreateBonusChest,
    CreateCheats,
    CreateConfirm,
    CreateCancel,
    DeleteConfirm,
    DeleteCancel,
    /// Anything else: empty space, or a control of a screen with its own click handling.
    Elsewhere,
}

/// The work a click leaves for the caller.
#[derive(Debug, Clone, Copy, PartialEq, Eq)]
pub enum MenuEffect {
    /// Nothing more to do.
    Stay,
    Quit,
    /// Find the worlds on disk again, select the first and show the list from the top.
    RefreshWorlds,
    /// Select the recent server under the pointer.
    SelectRecentServer,
    /// Ping the selected server.
    PingServer,
    /// Check the multiplayer form, save it, and join or host.
    StartMultiplayer,
    /// Save the multiplayer form.
    SaveMultiplayer,
    /// Launch, copy, back up or delete the selected world.
    LaunchSelected,
    CopySelected,
    BackupSelected,
    DeleteSelected,
    /// Create the world set up on the create screen.
    CreateWorld,
    /// Hand the click to the screen's own handler.
    ScreenHandler,
}

/// Focus position of a text field.
pub open spec fn field_focus(field: TextField) -> usize {
    match field {
        TextField::WorldName => 0,
        TextField::Seed => 1,
        TextField::HostPort | TextField::ServerAddress => 2,
        TextField::JoinPort => 3,
        TextField::Username => 4,
    }
}

/// The game mode after `mode` on the create screen's button.
pub open spec fn next_game_mode(mode: GameMode) -> GameMode {
    match mode {
        GameMode::Survival => GameMode::Creative,
        GameMode::Creative => GameMode::Adventure,
        GameMode::Adventure => GameMode::Spectator,
        GameMode::Spectator => GameMode::Survival,
    }
}

/// `s` with text field `field` active and focused.
pub open spec fn with_field(s: MenuState, field: TextField) -> MenuState {
    MenuState { active_field: Some(field), focus_index: field_focus(field), ..s }
}

/// `s` showing `screen`.
pub open spec fn on_screen(s: MenuState, screen: MenuScreen) -> MenuState {
    MenuState { screen, ..s }
}

/// Rows of the controls screen shown at once.
pub const CONTROLS_VISIBLE_ROWS: usize = 8;

/// Number of controls that keyboard focus moves through on the screen `s` shows.
pub open spec fn spec_focus_count(s: MenuState) -> int {
    match s.screen {
        MenuScreen::Main => 4int,
        MenuScreen::Options => 15int,
        MenuScreen::Controls => 2 + CONTROLS_VISIBLE_ROWS as int,
        MenuScreen::Accessibility => 11int,
        MenuScreen::ResourcePacks => s.resource_pack_count as int + 3,
        MenuScreen::Multiplayer => if s.multiplayer_mode == MultiplayerMode::Join {
            8int + (if s.recent_server_count < 3 { s.recent_server_count as int } else { 3int })
        } else {
            5int
        },
        MenuScreen::Worlds => s.world_count as int + 6,
        MenuScreen::CreateWorld => 11int,
        MenuScreen::ConfirmDelete => 2int,
    }
}

/// `s` with its focus held to the last control of its screen (0 when the screen has none).
pub open spec fn spec_clamp_focus(s: MenuState) -> MenuState {
    let last = if spec_focus_count(s) > 0 { spec_focus_count(s) - 1 } else { 0 };
    MenuState { focus_index: if s.focus_index > last { last as usize } else { s.focus_index }, ..s }
}

/// Number of controls that keyboard focus moves through on the screen `s` shows (at most the
/// largest `usize`).
pub fn focus_count(s: &MenuState) -> (r: usize)
    ensures
        r == if spec_focus_count(*s) > usize::MAX { usize::MAX as int } else { spec_focus_count(*s) },
{
    match s.screen {
        MenuScreen::Main => 4,
        MenuScreen::Options => 15,
        MenuScreen::Controls => 1 + CONTROLS_VISIBLE_ROWS + 1,
        MenuScreen::Accessibility => 11,
        MenuScreen::ResourcePacks => if s.resource_pack_count <= usize::MAX - 3 {
            s.resource_pack_count + 3
        } else {
            usize::MAX
        },
        MenuScreen::Multiplayer => multiplayer_focus_count(s.multiplayer_mode, s.recent_server_count),
        MenuScreen::Worlds => if s.world_count <= usize::MAX - 6 {
            s.world_count + 6
        } else {
            usize::MAX
        },
        MenuScreen::CreateWorld => 11,
        MenuScreen::ConfirmDelete => 2,
    }
}

/// Position of the last control that keyboard focus reaches on the screen `s` shows (0 when
/// there is none), at most the largest `usize`.
fn focus_last(s: &MenuState) -> (r: usize)
    ensures
        r == {
            let last = if spec_focus_count(*s) > 0 { spec_focus_count(*s) - 1 } else { 0 };
            if last > usize::MAX { usize::MAX as int } else { last }
        },
{
    match s.screen {
        MenuScreen::Main => 3,
        MenuScreen::Options => 14,
        MenuScreen::Controls => CONTROLS_VISIBLE_ROWS + 1,
        MenuScreen::Accessibility => 10,
        MenuScreen::ResourcePacks => if s.resource_pack_count <= usize::MAX - 2 {
            s.resource_pack_count + 2
        } else {
            usize::MAX
        },
        MenuScreen::Multiplayer => multiplayer_focus_count(s.multiplayer_mode, s.recent_server_count) - 1,
        MenuScreen::Worlds => if s.world_count <= usize::MAX - 5 {
            s.world_count + 5
        } else {
            usize::MAX
        },
        MenuScreen::CreateWorld => 10,
        MenuScreen::ConfirmDelete => 1,
    }
}

/// Hold the focus to the last control of the screen shown; callers use it again after carrying
/// out an effect that changes the world list or after a screen's own click handling.
pub fn clamp_focus(s: &MenuState) -> (r: MenuState)
    ensures
        r == spec_clamp_focus(*s),
{
    let last = focus_last(s);
    if s.focus_index > last {
        MenuState { focus_index: last, ..*s }
    } else {
        *s
    }
}

/// What a click on widget `w` does in state `s`, then the focus held to the new screen.
pub open spec fn spec_menu_click(s: MenuState, w: MenuWidget) -> (MenuState, MenuEffect) {
    let (s2, e) = spec_menu_step(s, w);
    (spec_clamp_focus(s2), e)
}

/// What a click on widget `w` does in state `s`, before the focus is held to the screen.
pub open spec fn spec_menu_step(s: MenuState, w: MenuWidget) -> (MenuState, MenuEffect) {
    match s.screen {
        MenuScreen::Main => match w {
            MenuWidget::MainSingleplayer => (on_screen(s, MenuScreen::Worlds), MenuEffect::RefreshWorlds),
            MenuWidget::MainMultiplayer => (MenuState { screen: MenuScreen::Multiplayer, active_field: None, ..s }, MenuEffect::Stay),
            MenuWidget::MainOptions => (on_screen(s, MenuScreen::Options), MenuEffect::Stay),
            MenuWidget::MainQuit => (s, MenuEffect::Quit),
            _ => (s, MenuEffect::Stay),
        },
        MenuScreen::Multiplayer => match w {
            MenuWidget::HostMode => (MenuState { multiplayer_mode: MultiplayerMode::Host, active_field: None, ..s }, MenuEffect::Stay),
            MenuWidget::JoinMode => (MenuState { multiplayer_mode: MultiplayerMode::Join, active_field: None, ..s }, MenuEffect::Stay),
            MenuWidget::HostPortField if s.multiplayer_mode == MultiplayerMode::Host => (with_field(s, TextField::HostPort), MenuEffect::Stay),
            MenuWidget::ServerAddressField if s.multiplayer_mode == MultiplayerMode::Join => (
                with_field(s, TextField::ServerAddress),
                MenuEffect::Stay,
            ),
            MenuWidget::JoinPortField if s.multiplayer_mode == MultiplayerMode::Join => (with_field(s, TextField::JoinPort), MenuEffect::Stay),
            MenuWidget::UsernameField if s.multiplayer_mode == MultiplayerMode::Join => (with_field(s, TextField::Username), MenuEffect::Stay),
            MenuWidget::RecentServer if s.multiplayer_mode == MultiplayerMode::Join => (
                MenuState { active_field: None, ..s },
                MenuEffect::SelectRecentServer,
            ),
            MenuWidget::PingButton if s.multiplayer_mode == MultiplayerMode::Join => (s, MenuEffect::PingServer),
            MenuWidget::MultiplayerContinue => (s, MenuEffect::StartMultiplayer),
            MenuWidget::MultiplayerBack => (MenuState { screen: MenuScreen::Main, active_field: None, ..s }, MenuEffect::SaveMultiplayer),
            _ => (s, MenuEffect::Stay),
        },
        MenuScreen::Worlds => match w {
            MenuWidget::WorldRow(v) => if (s.world_scroll as int) <= (s.world_count as int) && (v as int) < 5 && (v as int) < s.world_count
                - s.world_scroll {
                (MenuState { selected_world: Some((s.world_scroll + v) as usize), ..s }, MenuEffect::Stay)
            } else {
                (s, MenuEffect::Stay)
            },
            MenuWidget::WorldsPlay => if s.selected_world is Some {
                (s, MenuEffect::LaunchSelected)
            } else {
                (s, MenuEffect::Stay)
            },
            MenuWidget::WorldsCreate => (
                MenuState {
                    screen: MenuScreen::CreateWorld,
                    create_mode: GameMode::Survival,
                    create_difficulty: s.settings_difficulty,
                    create_world_type: WorldType::Default,
                    create_generate_structures: true,
                    create_bonus_chest: false,
                    create_cheats: false,
                    create_hardcore: false,
                    ..s
                },
                MenuEffect::Stay,
            ),
            MenuWidget::WorldsDelete => if s.selected_world is Some {
                (on_screen(s, MenuScreen::ConfirmDelete), MenuEffect::Stay)
            } else {
                (s, MenuEffect::Stay)
            },
            MenuWidget::WorldsCopy => if s.selected_world is Some {
                (s, MenuEffect::CopySelected)
            } else {
                (s, MenuEffect::Stay)
            },
            MenuWidget::WorldsBackup => if s.selected_world is Some {
                (s, MenuEffect::BackupSelected)
            } else {
                (s, MenuEffect::Stay)
            },
            MenuWidget::WorldsBack => (on_screen(s, MenuScreen::Main), MenuEffect::Stay),
            _ => (s, MenuEffect::Stay),
        },
        MenuScreen::CreateWorld => match w {
            MenuWidget::WorldNameField => (with_field(s, TextField::WorldName), MenuEffect::Stay),
            MenuWidget::SeedField => (with_field(s, TextField::Seed), MenuEffect::Stay),
            MenuWidget::CreateGameMode => (MenuState { create_mode: next_game_mode(s.create_mode), ..s }, MenuEffect::Stay),
            MenuWidget::CreateDifficulty(right) => (
                MenuState {
                    create_difficulty: Difficulty::from_index((s.create_difficulty.spec_index() + if right { 1int } else { -1int }) % 4),
                    ..s
                },
                MenuEffect::Stay,
            ),
            MenuWidget::CreateWorldType => (
                MenuState {
                    create_world_type: match s.create_world_type {
                        WorldType::Default => WorldType::Superflat,
                        WorldType::Superflat => WorldType::Default,
                    },
                    ..s
                },
                MenuEffect::Stay,
            ),
            MenuWidget::CreateStructures => (MenuState { create_generate_structures: !s.create_generate_structures, ..s }, MenuEffect::Stay),
            MenuWidget::CreateHardcore => if !s.create_hardcore {
                (
                    MenuState { create_hardcore: true, create_mode: GameMode::Survival, create_difficulty: Difficulty::Hard, ..s },
                    MenuEffect::Stay,
                )
            } else {
                (MenuState { create_hardcore: false, ..s }, MenuEffect::Stay)
            },
            MenuWidget::CreateBonusChest => (MenuState { create_bonus_chest: !s.create_bonus_chest, ..s }, MenuEffect::Stay),
            MenuWidget::CreateCheats => (MenuState { create_cheats: !s.create_cheats, ..s }, MenuEffect::Stay),
            MenuWidget::CreateConfirm => (s, MenuEffect::CreateWorld),
            MenuWidget::CreateCancel => (MenuState { screen: MenuScreen::Worlds, active_field: None, ..s }, MenuEffect::Stay),
            _ => (s, MenuEffect::Stay),
        },
        MenuScreen::ConfirmDelete => match w {
            MenuWidget::DeleteConfirm => (on_screen(s, MenuScreen::Worlds), MenuEffect::DeleteSelected),
            MenuWidget::DeleteCancel => (on_screen(s, MenuScreen::Worlds), MenuEffect::Stay),
            _ => (s, MenuEffect::Stay),
        },
        MenuScreen::Options | MenuScreen::Controls | MenuScreen::Accessibility | MenuScreen::ResourcePacks => (s, MenuEffect::ScreenHandler),
    }
}

/// Text field `field` made active and focused.
fn activate(s: MenuState, field: TextField) -> (r: MenuState)
    ensures
        r == with_field(s, field),
{
    let focus: usize = match field {
        TextField::WorldName => 0,
        TextField::Seed => 1,
        TextField::HostPort | TextField::ServerAddress => 2,
        TextField::JoinPort => 3,
        TextField::Username => 4,
    };
    MenuState { active_field: Some(field), focus_index: focus, ..s }
}

/// What a click on `widget` does in `state`: the state after it, with the focus held to the
/// screen then shown, and the work left for the caller.
pub fn menu_click(state: &MenuState, widget: MenuWidget) -> (r: (MenuState, MenuEffect))
    ensures
        r == spec_menu_click(*state, widget),
{
    let (s2, e) = menu_step(state, widget);
    (clamp_focus(&s2), e)
}

fn menu_step(state: &MenuState, widget: MenuWidget) -> (r: (MenuState, MenuEffect))
    ensures
        r == spec_menu_step(*state, widget),
{
    let s = *state;
    match s.screen {
        MenuScreen::Main => match widget {
            MenuWidget::MainSingleplayer => (MenuState { screen: MenuScreen::Worlds, ..s }, MenuEffect::RefreshWorlds),
            MenuWidget::MainMultiplayer => (MenuState { screen: MenuScreen::Multiplayer, active_field: None, ..s }, MenuEffect::Stay),
            MenuWidget::MainOptions => (MenuState { screen: MenuScreen::Options, ..s }, MenuEffect::Stay),
            MenuWidget::MainQuit => (s, MenuEffect::Quit),
            _ => (s, MenuEffect::Stay),
        },
        MenuScreen::Multiplayer => {
            let hosting = match s.multiplayer_mode {
                MultiplayerMode::Host => true,
                MultiplayerMode::Join => false,
            };
            match widget {
                MenuWidget::HostMode => (MenuState { multiplayer_mode: MultiplayerMode::Host, active_field: None, ..s }, MenuEffect::Stay),
                MenuWidget::JoinMode => (MenuState { multiplayer_mode: MultiplayerMode::Join, active_field: None, ..s }, MenuEffect::Stay),
                MenuWidget::HostPortField if hosting => (activate(s, TextField::HostPort), MenuEffect::Stay),
                MenuWidget::ServerAddressField if !hosting => (activate(s, TextField::ServerAddress), MenuEffect::Stay),
                MenuWidget::JoinPortField if !hosting => (activate(s, TextField::JoinPort), MenuEffect::Stay),
                MenuWidget::UsernameField if !hosting => (activate(s, TextField::Username), MenuEffect::Stay),
                MenuWidget::RecentServer if !hosting => (MenuState { active_field: None, ..s }, MenuEffect::SelectRecentServer),
                MenuWidget::PingButton if !hosting => (s, MenuEffect::PingServer),
                MenuWidget::MultiplayerContinue => (s, MenuEffect::StartMultiplayer),
                MenuWidget::MultiplayerBack => (MenuState { screen: MenuScreen::Main, active_field: None, ..s }, MenuEffect::SaveMultiplayer),
                _ => (s, MenuEffect::Stay),
            }
        },
        MenuScreen::Worlds => {
            let selected = s.selected_world.is_some();
            match widget {
                MenuWidget::WorldRow(v) => {
                    if s.world_scroll <= s.world_count && v < 5 && v < s.world_count - s.world_scroll {
                        (MenuState { selected_world: Some(s.world_scroll + v), ..s }, MenuEffect::Stay)
                    } else {
                        (s, MenuEffect::Stay)
                    }
                },
                MenuWidget::WorldsPlay => if selected {
                    (s, MenuEffect::LaunchSelected)
                } else {
                    (s, MenuEffect::Stay)
                },
                MenuWidget::WorldsCreate => (
                    MenuState {
                        screen: MenuScreen::CreateWorld,
                        create_mode: GameMode::Survival,
                        create_difficulty: s.settings_difficulty,
                        create_world_type: WorldType::Default,
                        create_generate_structures: true,
                        create_bonus_chest: false,
                        create_cheats: false,
                        create_hardcore: false,
                        ..s
                    },
                    MenuEffect::Stay,
                ),
                MenuWidget::WorldsDelete => if selected {
                    (MenuState { screen: MenuScreen::ConfirmDelete, ..s }, MenuEffect::Stay)
                } else {
                    (s, MenuEffect::Stay)
                },
                MenuWidget::WorldsCopy => if selected {
                    (s, MenuEffect::CopySelected)
                } else {
                    (s, MenuEffect::Stay)
                },
                MenuWidget::WorldsBackup => if selected {
                    (s, MenuEffect::BackupSelected)
                } else {
                    (s, MenuEffect::Stay)
                },
                MenuWidget::WorldsBack => (MenuState { screen: MenuScreen::Main, ..s }, MenuEffect::Stay),
                _ => (s, MenuEffect::Stay),
            }
        },
        MenuScreen::CreateWorld => match widget {
            MenuWidget::WorldNameField => (activate(s, TextField::WorldName), MenuEffect::Stay),
            MenuWidget::SeedField => (activate(s, TextField::Seed), MenuEffect::Stay),
            MenuWidget::CreateGameMode => {
                let mode = match s.create_mode {
                    GameMode::Survival => GameMode::Creative,
                    GameMode::Creative => GameMode::Adventure,
                    GameMode::Adventure => GameMode::Spectator,
                    GameMode::Spectator => GameMode::Survival,
                };
                (MenuState { create_mode: mode, ..s }, MenuEffect::Stay)
            },
            MenuWidget::CreateDifficulty(right) => {
                let delta: i32 = if right { 1 } else { -1 };
                (MenuState { create_difficulty: s.create_difficulty.step(delta), ..s }, MenuEffect::Stay)
            },
            MenuWidget::CreateWorldType => {
                let t = match s.create_world_type {
                    WorldType::Default => WorldType::Superflat,
                    WorldType::Superflat => WorldType::Default,
                };
                (MenuState { create_world_type: t, ..s }, MenuEffect::Stay)
            },
            MenuWidget::CreateStructures => (MenuState { create_generate_structures: !s.create_generate_structures, ..s }, MenuEffect::Stay),
            MenuWidget::CreateHardcore => if !s.create_hardcore {
                (
                    MenuState { create_hardcore: true, create_mode: GameMode::Survival, create_difficulty: Difficulty::Hard, ..s },
                    MenuEffect::Stay,
                )
            } else {
                (MenuState { create_hardcore: false, ..s }, MenuEffect::Stay)
            },
            MenuWidget::CreateBonusChest => (MenuState { create_bonus_chest: !s.create_bonus_chest, ..s }, MenuEffect::Stay),
            MenuWidget::CreateCheats => (MenuState { create_cheats: !s.create_cheats, ..s }, MenuEffect::Stay),
            MenuWidget::CreateConfirm => (s, MenuEffect::CreateWorld),
            MenuWidget::CreateCancel => (MenuState { screen: MenuScreen::Worlds, active_field: None, ..s }, MenuEffect::Stay),
            _ => (s, MenuEffect::Stay),
        },
        MenuScreen::ConfirmDelete => match widget {
            MenuWidget::DeleteConfirm => (MenuState { screen: MenuScreen::Worlds, ..s }, MenuEffect::DeleteSelected),
            MenuWidget::DeleteCancel => (MenuState { screen: MenuScreen::Worlds, ..s }, MenuEffect::Stay),
            _ => (s, MenuEffect::Stay),
        },
        MenuScreen::Options | MenuScreen::Controls | MenuScreen::Accessibility | MenuScreen::ResourcePacks => (s, MenuEffect::ScreenHandler),
    }
}

/// Whether the multiplayer form can start a game, and as whom: hosting needs a port from 1 to
/// 65535; joining needs such a port and a server address and name that are not blank (they are
/// taken trimmed).
pub fn multiplayer_role(mode: MultiplayerMode, host_port: &str, server_address: &str, join_port: &str, username: &str) -> (r: Option<
    MultiplayerRole,
>)
    ensures
        mode == MultiplayerMode::Host ==> match parse_unsigned(host_port@, 65535) {
            Some(p) => if p > 0 {
                r == Some(MultiplayerRole::Host { port: p as u16 })
            } else {
                r is None
            },
            None => r is None,
        },
        mode == MultiplayerMode::Join ==> match parse_unsigned(join_port@, 65535) {
            Some(p) => if p > 0 && trim(server_address@).len() > 0 && trim(username@).len() > 0 {
                r matches Some(MultiplayerRole::Client { server_addr, port, username: name }) && server_addr@ == trim(server_address@)
                    && port == p && name@ == trim(username@)
            } else {
                r is None
            },
            None => r is None,
        },
{
    match mode {
        MultiplayerMode::Host => {
            let digits = chars_of(host_port);
            match parse_unsigned_chars(&digits, 65535) {
                Some(p) => if p > 0 {
                    Some(MultiplayerRole::Host { port: p as u16 })
                } else {
                    None
                },
                None => None,
            }
        },
        MultiplayerMode::Join => {
            let address = trimmed_chars(server_address);
            let name = trimmed_chars(username);
            let digits = chars_of(join_port);
            match parse_unsigned_chars(&digits, 65535) {
                Some(p) => if p > 0 && address.len() > 0 && name.len() > 0 {
                    Some(
                        MultiplayerRole::Client {
                            server_addr: string_from_chars(&address),
                            port: p as u16,
                            username: string_from_chars(&name),
                        },
                    )
                } else {
                    None
                },
                None => None,
            }
        },
    }
}

/// A world is deleted only by confirming on the delete screen: a click asks for the selected
/// world's deletion exactly when it is the confirm button of that screen, and any other click
/// there, cancelling included, leaves the world list for the caller untouched. Likewise the game
/// quits only from the main screen's quit button.
pub proof fn lemma_only_confirm_deletes(s: MenuState, w: MenuWidget)
    ensures
        (spec_menu_click(s, w).1 == MenuEffect::DeleteSelected) <==> (s.screen == MenuScreen::ConfirmDelete && w
            == MenuWidget::DeleteConfirm),
        s.screen == MenuScreen::ConfirmDelete && w != MenuWidget::DeleteConfirm ==> spec_menu_click(s, w).1 == MenuEffect::Stay,
        (spec_menu_click(s, w).1 == MenuEffect::Quit) <==> (s.screen == MenuScreen::Main && w == MenuWidget::MainQuit),
{
}

} // verus!
