use icraft::inventory::GameMode;
use icraft::menu::Difficulty;
use icraft::mobs::{pack_tex_cols, resolve_cols, resolve_row, AmbientSpawnRule, PartScale, PivotMode, TexMode};
use icraft::navigation::{MapData, MapManager, MAP_SIZE};
use icraft::world::Dimension;
use icraft::worlds::{
    backup_base, backup_dir_name, creation_seed, hash_seed, load_world_creation_options, metadata_text,
    new_world_metadata, parse_world_metadata, relative_time_at, sanitize_name, slugify, suffixed_name,
    legacy_metadata, sort_by_recent, update_world_metadata, WorldCreationOptions, WorldEntry, WorldMetadata, WorldType,
    CURRENT_WORLD_FORMAT_VERSION,
};

fn sample_metadata() -> WorldMetadata {
    WorldMetadata {
        name: "CREATIVE WORLD".to_string(),
        seed: 42,
        game_mode: GameMode::Creative,
        difficulty: Difficulty::Hard,
        last_played: 1_700_000_000,
        world_type: WorldType::Superflat,
        generate_structures: false,
        bonus_chest: true,
        cheats_enabled: true,
        hardcore: false,
        version: CURRENT_WORLD_FORMAT_VERSION,
        needs_upgrade: false,
    }
}

fn same(a: &WorldMetadata, b: &WorldMetadata) -> bool {
    a.name == b.name
        && a.seed == b.seed
        && a.game_mode == b.game_mode
        && a.difficulty == b.difficulty
        && a.last_played == b.last_played
        && a.world_type == b.world_type
        && a.generate_structures == b.generate_structures
        && a.bonus_chest == b.bonus_chest
        && a.cheats_enabled == b.cheats_enabled
        && a.hardcore == b.hardcore
        && a.version == b.version
        && a.needs_upgrade == b.needs_upgrade
}

#[test]
fn metadata_text_reads_back() {
    let m = sample_metadata();
    let text = metadata_text(&m);
    assert!(text.starts_with("name:CREATIVE WORLD\nseed:42\ngame_mode:CREATIVE\ndifficulty:HARD\n"));
    assert!(text.ends_with("version:3\nneeds_upgrade:false\n"));
    let back = parse_world_metadata(&text).unwrap();
    assert!(same(&back, &m));
}

#[test]
fn load_world_creation_options_reads_game_mode_and_cheats() {
    let text = metadata_text(&sample_metadata());
    let options = load_world_creation_options(Some(&text));
    assert_eq!(
        options,
        WorldCreationOptions {
            world_type: WorldType::Superflat,
            generate_structures: false,
            bonus_chest: true,
            cheats_enabled: true,
            hardcore: false,
        }
    );
    assert_eq!(load_world_creation_options(None), WorldCreationOptions::default());
    assert_eq!(load_world_creation_options(Some("seed:5\n")), WorldCreationOptions::default());
}

#[test]
fn metadata_lines_accept_crlf_aliases_and_bad_numbers() {
    let text = "name: Old World \r\nseed:abc\r\ncheats:on\nformat_version:2\nlast_played:x\nbogus line\n";
    let m = parse_world_metadata(text).unwrap();
    assert_eq!(m.name, "Old World");
    assert_eq!(m.seed, 12345);
    assert!(m.cheats_enabled);
    assert_eq!(m.version, 2);
    assert!(m.needs_upgrade);
    assert_eq!(m.last_played, 0);
    assert_eq!(m.game_mode, GameMode::Survival);
    assert_eq!(m.difficulty, Difficulty::Normal);
    assert!(parse_world_metadata("seed:1\n").is_none());
    assert!(parse_world_metadata("").is_none());
}

#[test]
fn opening_an_old_world_asks_for_a_backup() {
    let mut old = sample_metadata();
    old.version = 2;
    old.needs_upgrade = true;
    let (updated, backup) = update_world_metadata(Some(old), None, Some("my_world"), 7, GameMode::Survival, Difficulty::Easy, 99);
    assert!(backup);
    assert_eq!(updated.name, "CREATIVE WORLD");
    assert_eq!(updated.seed, 7);
    assert_eq!(updated.game_mode, GameMode::Survival);
    assert_eq!(updated.difficulty, Difficulty::Easy);
    assert_eq!(updated.last_played, 99);
    assert_eq!(updated.version, CURRENT_WORLD_FORMAT_VERSION);
    assert!(!updated.needs_upgrade);
    assert_eq!(updated.world_type, WorldType::Superflat);

    let (fresh, backup) = update_world_metadata(None, None, Some("my_world"), 3, GameMode::Creative, Difficulty::Hard, 5);
    assert!(!backup);
    assert_eq!(fresh.name, "MY WORLD");
    let (unnamed, _) = update_world_metadata(None, None, None, 3, GameMode::Creative, Difficulty::Hard, 5);
    assert_eq!(unnamed.name, "WORLD");
}

#[test]
fn backup_and_duplicate_directory_names() {
    assert_eq!(backup_base(Some("My World!")), "my_world");
    assert_eq!(backup_base(None), "world");
    assert_eq!(backup_dir_name("my_world", 1700, None), "my_world_backup_1700");
    assert_eq!(backup_dir_name("my_world", 1700, Some(2)), "my_world_backup_1700_2");
    assert_eq!(suffixed_name("my_world", 3), "my_world_3");
}

#[test]
fn slugs_and_names_at_the_edges() {
    assert_eq!(slugify("!!!"), "new_world");
    assert_eq!(slugify(""), "new_world");
    assert_eq!(slugify("__A  B__"), "a_b");
    assert_eq!(slugify("Ünïcode 42"), "n_code_42");
    assert_eq!(sanitize_name("abcdefghijklmnopqrstuvwxyz"), "abcdefghijklmnopqrstuvwx");
    assert_eq!(sanitize_name("  _x-y_  "), "_x-y_");
    assert_eq!(sanitize_name("<>"), "");
}

#[test]
fn seeds_from_text_and_clock() {
    assert_eq!(hash_seed(""), 2_166_136_261);
    assert_eq!(hash_seed("a"), 0xe40c_292c);
    assert_eq!(hash_seed("abc"), 0x1a47_e90b);
    assert_eq!(creation_seed(" 42 ", 0), 42);
    assert_eq!(creation_seed("-1", 0), u32::MAX);
    assert_eq!(creation_seed("4294967298", 0), 2);
    assert_eq!(creation_seed("abc", 0), hash_seed("abc"));
    assert_eq!(creation_seed(" x ", 0), hash_seed(" x "));
    assert_eq!(creation_seed("   ", 10), 10u32.wrapping_mul(747_796_405).wrapping_add(2_891_336_453));
}

#[test]
fn new_worlds_need_a_name() {
    let options = WorldCreationOptions::default();
    assert!(new_world_metadata("<>", "1", 5, options, GameMode::Survival, Difficulty::Normal).is_none());
    let m = new_world_metadata("  Home ", "12", 5, options, GameMode::Creative, Difficulty::Peaceful).unwrap();
    assert_eq!(m.name, "Home");
    assert_eq!(m.seed, 12);
    assert_eq!(m.last_played, 5);
    assert_eq!(m.version, CURRENT_WORLD_FORMAT_VERSION);
    assert!(!m.needs_upgrade);
}

#[test]
fn relative_time_labels() {
    assert_eq!(relative_time_at(100, 200), "PLAYED TODAY");
    assert_eq!(relative_time_at(86_400 * 2 - 1, 0), "PLAYED YESTERDAY");
    assert_eq!(relative_time_at(86_400 * 12, 0), "PLAYED 12 DAYS AGO");
}

#[test]
fn world_types_read_in_any_case() {
    assert_eq!(WorldType::parse(" SuperFlat "), WorldType::Superflat);
    assert_eq!(WorldType::parse("flat"), WorldType::Default);
    assert_eq!(WorldType::Superflat.as_str(), "SUPERFLAT");
}

#[test]
fn map_manager_numbers_maps_in_order() {
    let mut maps = MapManager::new();
    assert!(maps.get_map(0).is_none());
    let a = maps.create_map(Dimension::Overworld, 0, 0);
    let b = maps.create_map(Dimension::Nether, 64, -64);
    assert_eq!((a, b), (0, 1));
    let second = maps.get_map(b).unwrap();
    assert_eq!(second.center_x, 64);
    assert_eq!(second.dimension, Dimension::Nether);
    assert_eq!(second.colors.len(), MAP_SIZE * MAP_SIZE);
    assert!(second.colors.iter().all(|c| *c == 0));
    maps.get_map_mut(a).unwrap().colors[64 * MAP_SIZE + 64] = 12;
    assert_eq!(maps.get_map(a).unwrap().colors[64 * MAP_SIZE + 64], 12);
    assert!(maps.get_map_mut(2).is_none());
    let blank = MapData::new(7, Dimension::End, 1, 2, 3);
    assert_eq!((blank.id, blank.scale), (7, 3));
}

#[test]
fn texture_columns_pack_four_bits_each() {
    assert_eq!(pack_tex_cols([1, 2, 3, 4, 5, 6]), 0x0065_4321);
    assert_eq!(pack_tex_cols([0x1f, 0, 0, 0, 0, 0xff]), 0x00f0_000f);
    let rule = AmbientSpawnRule::Hostile { sky_light_level: 15 };
    assert!(matches!(rule, AmbientSpawnRule::Hostile { sky_light_level: 15 }));
    assert_ne!(PartScale::NoScale, PartScale::Baby);
    assert_ne!(PivotMode::Local, PivotMode::World);
    assert_ne!(TexMode::Fixed, TexMode::PlayerArm);
}

#[test]
fn test_map_creation_and_update() {
    let mut mm = MapManager::new();
    let map_id = mm.create_map(Dimension::Overworld, 0, 0);
    let map = mm.get_map_mut(map_id).unwrap();
    let updated = map.update_explored_pixels(0, 0, Dimension::Overworld, |_x, _z| 12, 2000);
    assert!(updated > 0);
    assert_eq!(map.colors[64 * MAP_SIZE + 64], 12);
}

#[test]
fn exploring_respects_dimension_and_budget() {
    let mut map = MapData::new(0, Dimension::Overworld, 0, 0, 0);
    assert_eq!(map.update_explored_pixels(0, 0, Dimension::Nether, |_x, _z| 5, 100), 0);
    assert!(map.colors.iter().all(|c| *c == 0));
    assert_eq!(map.update_explored_pixels(0, 0, Dimension::Overworld, |_x, _z| 5, 10), 10);
    assert_eq!(map.colors.iter().filter(|c| **c == 5).count(), 10);
    assert_eq!(map.update_explored_pixels(0, 0, Dimension::Overworld, |_x, _z| 0, 0), 0);
    let full = map.update_explored_pixels(0, 0, Dimension::Overworld, |_x, _z| 5, usize::MAX);
    assert_eq!(full, 33 * 33 - 10);
    assert_eq!(map.pixel_of(0, 0), Some(64 * MAP_SIZE + 64));
    assert_eq!(map.pixel_of(-65, 0), None);
    assert_eq!(map.pixel_of(-64, -64), Some(0));
}

#[test]
fn worlds_sort_most_recent_first_and_keep_ties_in_order() {
    let entry = |dir: &str, last: u64| WorldEntry { directory: dir.to_string(), metadata: {
        let mut m = sample_metadata();
        m.last_played = last;
        m
    } };
    let sorted = sort_by_recent(vec![entry("a", 1), entry("b", 5), entry("c", 1), entry("d", 9)]);
    let order: Vec<&str> = sorted.iter().map(|w| w.directory.as_str()).collect();
    assert_eq!(order, vec!["d", "b", "a", "c"]);
}

#[test]
fn texture_modes_pick_their_columns_and_rows() {
    let own = [1, 2, 3, 4, 5, 6];
    assert_eq!(resolve_cols(TexMode::Fixed, own, true), own);
    assert_eq!(resolve_cols(TexMode::SheepBody, own, true), [5; 6]);
    assert_eq!(resolve_cols(TexMode::SheepBody, own, false), [6; 6]);
    assert_eq!(resolve_cols(TexMode::PlayerHead, own, false), [15, 13, 13, 13, 13, 13]);
    assert_eq!(resolve_row(TexMode::PlayerArm, 3), 9);
    assert_eq!(resolve_row(TexMode::HuskHead, 3), 3);
}

#[test]
fn slugs_are_stable() {
    for name in ["My World", "__A  B__", "!!!", "Ünïcode 42", "x_y", "Über_Welt 2"] {
        let once = slugify(name);
        assert_eq!(slugify(&once), once);
        assert!(!once.starts_with('_') && !once.ends_with('_') && !once.contains("__"));
    }
}

#[test]
fn a_world_with_only_legacy_files_opens_from_them() {
    let legacy = legacy_metadata(Some("old_world"), 42, 2, GameMode::Creative, 1234);
    assert_eq!(legacy.name, "OLD WORLD");
    assert_eq!(legacy.seed, 42);
    assert_eq!(legacy.difficulty, Difficulty::Normal);
    assert_eq!(legacy.last_played, 1234);
    assert!(legacy.needs_upgrade);
    let (updated, backup) =
        update_world_metadata(None, Some(legacy), Some("old_world"), 42, GameMode::Survival, Difficulty::Hard, 99);
    assert!(backup);
    assert_eq!(updated.name, "OLD WORLD");
    assert_eq!(updated.game_mode, GameMode::Survival);
    assert_eq!(updated.last_played, 99);
    assert_eq!(updated.version, CURRENT_WORLD_FORMAT_VERSION);
    assert!(!updated.needs_upgrade);
    let current = legacy_metadata(None, 1, CURRENT_WORLD_FORMAT_VERSION, GameMode::Survival, 0);
    assert!(!current.needs_upgrade);
    let (kept, backup) = update_world_metadata(Some(current), Some(legacy_metadata(None, 9, 1, GameMode::Creative, 0)), None, 1, GameMode::Survival, Difficulty::Easy, 5);
    assert!(!backup);
    assert_eq!(kept.seed, 1);
}
