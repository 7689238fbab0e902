use icraft::inventory::GameMode;
use icraft::keys::{key_name, parse_key, Key};
use icraft::menu::{
    back_transition, cycle_fps_cap, fps_cap_label, glyph, join_target, on_off, split_host_port, ControlAction, Difficulty, MenuScreen,
    MultiplayerRole, ServerAddressBook, ServerPingResult, TextField, WorldLaunch,
};
use icraft::localization::Language;
use icraft::settings::{parse_resource_packs, settings_entries, ControlBindings, GeneralSettings};
use icraft::worlds::{
    sanitize_name, slugify, world_index_by_directory, WorldEntry, WorldMetadata, WorldType,
    CURRENT_WORLD_FORMAT_VERSION,
};

fn ping(address: &str, motd: &str, online: u16) -> ServerPingResult {
    ServerPingResult {
        address: address.into(),
        version: "0.1.0".into(),
        motd: motd.into(),
        online_players: online,
        max_players: 20,
        error: None,
    }
}

fn address_book_scenario() {
    let mut book = ServerAddressBook::new(2);
    book.remember("127.0.0.1:25565");
    book.record_ping(ping("example.test:25565", "Welcome", 2));
    book.record_ping(ping("127.0.0.1:25565", "Local", 1));
    assert_eq!(book.addresses().len(), 2);
    assert_eq!(book.addresses()[0], "127.0.0.1:25565");
    assert_eq!(book.recent_results()[0].motd, "Local");
}

#[test]
fn menu_server_address_book_keeps_recent_ping_results() {
    address_book_scenario();
}

#[test]
fn tests_server_address_book_keeps_recent_ping_results() {
    address_book_scenario();
}

#[test]
fn menu_sanitizes_world_names_and_generates_stable_slugs() {
    assert_eq!(sanitize_name("  My <World>!  "), "My World");
    assert_eq!(slugify("My World"), "my_world");
}

#[test]
fn tests_sanitizes_world_names_and_generates_stable_slugs() {
    assert_eq!(sanitize_name("  My <World>!  "), "My World");
    assert_eq!(slugify("My World"), "my_world");
}

fn metadata(name: &str, last_played: u64) -> WorldMetadata {
    WorldMetadata {
        name: name.to_string(),
        seed: 1,
        game_mode: GameMode::Creative,
        difficulty: Difficulty::Normal,
        last_played,
        world_type: WorldType::Default,
        generate_structures: true,
        bonus_chest: false,
        cheats_enabled: false,
        hardcore: false,
        version: CURRENT_WORLD_FORMAT_VERSION,
        needs_upgrade: false,
    }
}

fn reordering_scenario() {
    let first_dir = "C:/saves/first".to_string();
    let second_dir = "C:/saves/second".to_string();
    let mut worlds = vec![
        WorldEntry { directory: first_dir, metadata: metadata("SAME NAME", 2) },
        WorldEntry { directory: second_dir.clone(), metadata: metadata("SAME NAME", 1) },
    ];
    worlds.reverse();
    let index = world_index_by_directory(&worlds, &second_dir).unwrap();
    assert_eq!(worlds[index].directory, second_dir);
}

#[test]
fn menu_selected_world_directory_survives_list_reordering() {
    reordering_scenario();
}

#[test]
fn tests_selected_world_directory_survives_list_reordering() {
    reordering_scenario();
}

fn key_names_scenario() {
    for code in [Key::KeyW, Key::Space, Key::ControlLeft, Key::ArrowUp] {
        assert_eq!(parse_key(key_name(code)), Some(code));
    }
}

#[test]
fn menu_settings_key_names_round_trip() {
    key_names_scenario();
}

#[test]
fn tests_settings_key_names_round_trip() {
    key_names_scenario();
}

#[test]
fn menu_difficulty_steps_both_directions() {
    assert_eq!(Difficulty::Peaceful.step(-1), Difficulty::Hard);
    assert_eq!(Difficulty::Normal.step(1), Difficulty::Hard);
}

#[test]
fn tests_difficulty_steps_both_directions() {
    assert_eq!(Difficulty::Peaceful.step(-1), Difficulty::Hard);
    assert_eq!(Difficulty::Normal.step(1), Difficulty::Hard);
}

fn leaving_controls_scenario() {
    let (screen, active_field, rebinding) =
        back_transition(MenuScreen::Controls, Some(TextField::WorldName), Some(ControlAction::Forward));
    assert_eq!(screen, MenuScreen::Options);
    assert_eq!(active_field, None);
    assert_eq!(rebinding, None);
}

#[test]
fn menu_leaving_controls_clears_pending_rebind() {
    leaving_controls_scenario();
}

#[test]
fn tests_leaving_controls_clears_pending_rebind() {
    leaving_controls_scenario();
}

fn fps_cap_scenario() {
    assert_eq!(cycle_fps_cap(0, 1), 30);
    assert_eq!(cycle_fps_cap(30, 1), 60);
    assert_eq!(cycle_fps_cap(60, 1), 144);
    assert_eq!(cycle_fps_cap(144, 1), 0);
    assert_eq!(fps_cap_label(0), "UNCAPPED");
}

#[test]
fn menu_fps_cap_cycles_through_uncapped_and_standard_rates() {
    fps_cap_scenario();
}

#[test]
fn tests_fps_cap_cycles_through_uncapped_and_standard_rates() {
    fps_cap_scenario();
}

#[test]
fn saved_server_addresses_split_for_join_form() {
    assert_eq!(split_host_port("example.test:25565"), Some(("example.test".into(), "25565".into())));
    assert_eq!(split_host_port("[::1]:25565"), Some(("::1".into(), "25565".into())));
    assert!(split_host_port("not-an-address").is_none());
}

fn controls_config_scenario() {
    let mut controls = ControlBindings::default();
    let config_text = r#"
# Custom Controls Config Test
key_forward = UP
key_backward = DOWN
key_left = LEFT
key_right = RIGHT
key_jump = SPACE
key_sprint = LCTRL
key_sneak = LSHIFT
key_inventory = E
key_chat = Y
key_advancements = K
key_debug = F1
key_perspective = F2
key_gamemode = M
key_pause = ESC
"#;
    for (key, value) in settings_entries(config_text) {
        controls.apply_setting(&key, &value);
    }
    assert_eq!(controls.forward, Key::ArrowUp);
    assert_eq!(controls.backward, Key::ArrowDown);
    assert_eq!(controls.left, Key::ArrowLeft);
    assert_eq!(controls.right, Key::ArrowRight);
    assert_eq!(controls.chat, Key::KeyY);
    assert_eq!(controls.advancements, Key::KeyK);
    assert_eq!(controls.debug, Key::F1);
    assert_eq!(controls.perspective, Key::F2);
    assert_eq!(controls.gamemode, Key::KeyM);
    assert_eq!(controls.pause, Key::Escape);

    let exported = controls.controls_file_text();
    assert!(exported.contains("key_forward = UP"));
    assert!(exported.contains("key_backward = DOWN"));
    assert!(exported.contains("key_chat = Y"));
    assert!(exported.contains("key_advancements = K"));
    assert!(exported.contains("key_debug = F1"));
}

#[test]
fn menu_controls_config_parse_and_round_trip() {
    controls_config_scenario();
}

#[test]
fn tests_controls_config_parse_and_round_trip() {
    controls_config_scenario();
}

#[test]
fn split_host_port_rejects_bad_ports_and_hosts() {
    assert_eq!(split_host_port("  host:80  "), Some(("host".into(), "80".into())));
    assert_eq!(split_host_port("host:+80"), Some(("host".into(), "+80".into())));
    assert!(split_host_port("host:0").is_none());
    assert!(split_host_port("host:65536").is_none());
    assert!(split_host_port("host:").is_none());
    assert!(split_host_port(":25565").is_none());
    assert!(split_host_port("a:b:25565").is_none());
    assert!(split_host_port("[]:25565").is_none());
    assert!(split_host_port("[::1]25565").is_none());
    assert!(split_host_port("[a]:b]:7").is_none());
    assert_eq!(split_host_port("[a]:7"), Some(("a".into(), "7".into())));
}

#[test]
fn key_names_and_aliases() {
    assert_eq!(parse_key("  w "), Some(Key::KeyW));
    assert_eq!(parse_key("escape"), Some(Key::Escape));
    assert_eq!(parse_key("Return"), Some(Key::Enter));
    assert_eq!(parse_key("f12"), Some(Key::F12));
    assert_eq!(parse_key("7"), Some(Key::Digit7));
    assert_eq!(parse_key("KEY"), None);
    assert_eq!(parse_key("+"), None);
    assert_eq!(parse_key(""), None);
    assert_eq!(key_name(Key::Other), "KEY");
    assert_eq!(key_name(Key::ControlRight), "RCTRL");
}

#[test]
fn control_settings_ignore_unknown_keys_and_names() {
    let mut controls = ControlBindings::default();
    controls.apply_setting("key_jump", "nonsense");
    controls.apply_setting("key_flying", "F");
    controls.apply_setting("key_hotbar_9", "0");
    assert_eq!(controls.jump, Key::Space);
    assert_eq!(controls.hotbar_9, Key::Digit0);
    assert_eq!(controls.forward, Key::KeyW);
}

#[test]
fn settings_lines_skip_comments_and_pick_the_delimiter() {
    let entries = settings_entries("# c\n// d\n\nfov:70\r\nkey = a:b\nnothing here\n  x :  y  ");
    assert_eq!(
        entries,
        vec![
            ("fov".to_string(), "70".to_string()),
            ("key".to_string(), "a:b".to_string()),
            ("x".to_string(), "y".to_string()),
        ]
    );
}

#[test]
fn resource_pack_lists_drop_empty_entries_and_cap_the_count() {
    assert_eq!(parse_resource_packs(" demo.base, ,demo.hud,"), vec!["demo.base".to_string(), "demo.hud".to_string()]);
    let many: Vec<String> = (0..40).map(|i| format!("p{i}")).collect();
    let parsed = parse_resource_packs(&many.join(","));
    assert_eq!(parsed.len(), 32);
    assert_eq!(parsed[31], "p31");
}

#[test]
fn menu_font_has_letters_and_a_blank_fallback() {
    assert_eq!(glyph('A'), [14, 17, 17, 31, 17, 17, 17]);
    assert_eq!(glyph('?'), [14, 17, 1, 2, 4, 0, 4]);
    assert_eq!(glyph('a'), [0; 7]);
}

#[test]
fn world_launch_carries_the_role() {
    let launch = WorldLaunch {
        world_dir: "saves/w".to_string(),
        seed: 9,
        game_mode: GameMode::Survival,
        difficulty: Difficulty::Easy,
        role: MultiplayerRole::Host { port: 25565 },
    };
    assert_eq!(launch.role, MultiplayerRole::Host { port: 25565 });
    assert_eq!(launch.seed, 9);
}

#[test]
fn controls_file_reads_back_every_binding() {
    let mut written = ControlBindings::default();
    written.forward = Key::ArrowUp;
    written.hotbar_9 = Key::F12;
    written.pause = Key::Backspace;
    let text = written.controls_file_text();
    let mut read = ControlBindings::default();
    read.jump = Key::KeyZ;
    for (key, value) in settings_entries(&text) {
        read.apply_setting(&key, &value);
    }
    assert_eq!(read, written);
    assert!(text.starts_with("# ===="));
    assert!(text.contains("key_hotbar_9 = F12\n"));
}

fn general_from(contents: &str) -> GeneralSettings {
    let mut settings = GeneralSettings::new();
    for (key, value) in settings_entries(contents) {
        settings.apply_setting(&key, &value);
    }
    settings.sanitize();
    settings
}

fn multiplayer_defaults_scenario() {
    let mut settings = GeneralSettings::new();
    assert_eq!(settings.mp_host_port, "25565");
    assert_eq!(settings.mp_server_address, "127.0.0.1");
    assert_eq!(settings.mp_join_port, "25565");
    assert_eq!(settings.mp_username, "PLAYER");
    settings.mp_host_port = "25570".to_string();
    settings.mp_server_address = "192.168.1.100".to_string();
    settings.mp_join_port = "25571".to_string();
    settings.mp_username = "TEST_USER".to_string();
    assert_eq!(settings.mp_host_port, "25570");
    assert_eq!(settings.mp_server_address, "192.168.1.100");
    assert_eq!(settings.mp_join_port, "25571");
    assert_eq!(settings.mp_username, "TEST_USER");
}

#[test]
fn menu_multiplayer_settings_defaults_and_mutation() {
    multiplayer_defaults_scenario();
}

#[test]
fn tests_multiplayer_settings_defaults_and_mutation() {
    multiplayer_defaults_scenario();
}

fn fps_cap_settings_scenario() {
    assert_eq!(general_from("fps_cap:144").fps_cap, 144);
    assert_eq!(general_from("fps_cap:0").fps_cap, 0);
    assert_eq!(general_from("fps_cap:999").fps_cap, 240);
    assert_eq!(general_from("fps_cap:-1").fps_cap, 0);
    let mut settings = GeneralSettings::new();
    settings.fps_cap = 60;
    assert!(settings.file_lines().join("\n").contains("fps_cap:60"));
}

#[test]
fn menu_fps_cap_round_trip_and_sanitization() {
    fps_cap_settings_scenario();
}

#[test]
fn tests_fps_cap_round_trip_and_sanitization() {
    fps_cap_settings_scenario();
}

#[test]
fn general_settings_read_every_kind_of_line() {
    let mut settings = GeneralSettings::new();
    assert!(settings.apply_setting("render_distance", "40"));
    assert!(settings.apply_setting("fullscreen", "ON"));
    assert!(settings.apply_setting("vsync", "0"));
    assert!(settings.apply_setting("difficulty", "hard"));
    assert!(settings.apply_setting("language", "de_de"));
    assert!(settings.apply_setting("resource_packs", "a, b"));
    assert!(settings.apply_setting("key_jump", "J"));
    assert!(!settings.apply_setting("fov", "90"));
    assert!(!settings.apply_setting("key_fly", "J"));
    assert!(settings.apply_setting("render_distance", "far"));
    settings.sanitize();
    assert_eq!(settings.render_distance, 16);
    assert!(settings.fullscreen);
    assert!(!settings.vsync);
    assert_eq!(settings.difficulty, Difficulty::Hard);
    assert_eq!(settings.language, Language::German);
    assert_eq!(settings.resource_packs, vec!["a".to_string(), "b".to_string()]);
    assert_eq!(settings.controls.jump, Key::KeyJ);
    assert_eq!(general_from("render_distance:-5").render_distance, 2);
}

#[test]
fn switches_read_on_and_off() {
    assert_eq!(on_off(true), "ON");
    assert_eq!(on_off(false), "OFF");
}

#[test]
fn join_targets_bracket_ipv6_and_split_back() {
    assert_eq!(join_target(" ::1 ", "25565"), Some("[::1]:25565".to_string()));
    assert_eq!(join_target("example.test", " 25565 "), Some("example.test:25565".to_string()));
    assert_eq!(join_target("[::1]", "25565"), Some("[::1]:25565".to_string()));
    assert_eq!(join_target("a:b", "7"), Some("a:b:7".to_string()));
    assert_eq!(join_target("x", "+080"), Some("x:80".to_string()));
    assert_eq!(join_target("   ", "1"), None);
    assert_eq!(join_target("x", "0"), None);
    assert_eq!(join_target("x", "70000"), None);
    let target = join_target("fe80::1", "25570").unwrap();
    assert_eq!(split_host_port(&target), Some(("fe80::1".to_string(), "25570".to_string())));
    let target = join_target("example.test", "25565").unwrap();
    assert_eq!(split_host_port(&target), Some(("example.test".to_string(), "25565".to_string())));
}

#[test]
fn general_settings_file_lines_in_order() {
    let mut settings = GeneralSettings::new();
    settings.render_distance = -3;
    settings.fps_cap = 500;
    settings.resource_packs = vec!["a".to_string(), "b".to_string()];
    let lines = settings.file_lines();
    assert_eq!(lines.len(), 33);
    assert_eq!(lines[0], "render_distance:-3");
    assert_eq!(lines[1], "fullscreen:false");
    assert_eq!(lines[2], "vsync:true");
    assert_eq!(lines[3], "fps_cap:240");
    assert_eq!(lines[4], "difficulty:NORMAL");
    assert!(lines[6].starts_with("key_forward:"));
    assert_eq!(lines[20], "mp_host_port:25565");
    assert_eq!(lines[23], "mp_username:PLAYER");
    assert_eq!(lines[24], "dynamic_resolution:false");
    assert_eq!(lines[30], "camera_bobbing:true");
    assert_eq!(lines[32], "resource_packs:a,b");
}

#[test]
fn toggle_settings_read_back_from_their_lines() {
    let mut settings = GeneralSettings::new();
    settings.toggles.subtitles = true;
    settings.toggles.high_contrast = true;
    settings.toggles.reduce_flashing = true;
    settings.toggles.toggle_sprint = true;
    settings.toggles.toggle_sneak = true;
    settings.toggles.camera_bobbing = false;
    settings.toggles.damage_tilt = false;
    settings.toggles.dynamic_resolution = true;
    let text = settings.file_lines().join("\n");
    let loaded = general_from(&text);
    assert!(loaded.toggles.subtitles && loaded.toggles.high_contrast && loaded.toggles.reduce_flashing);
    assert!(loaded.toggles.toggle_sprint && loaded.toggles.toggle_sneak && loaded.toggles.dynamic_resolution);
    assert!(!loaded.toggles.camera_bobbing && !loaded.toggles.damage_tilt);
    assert!(GeneralSettings::new().apply_setting("subtitles", "on"));
}
