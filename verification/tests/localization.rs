use icraft::block::BlockType;
use icraft::entity::EntityType;
use icraft::inventory::Item;
use icraft::localization::{key_component, translate, Language, TranslationCatalog};

#[test]
fn immutable_format_and_language_switch_use_catalog_values() {
    let english = TranslationCatalog::builtin(Language::English);
    let german = TranslationCatalog::builtin(Language::German);
    assert_ne!(english.lookup("menu.multiplayer"), german.lookup("menu.multiplayer"));
    assert_eq!(english.format_lookup("hud.fov", &[("value", "90")]), "FOV < 90 >");
    assert_eq!(german.format_lookup("hud.fov", &[("value", "90")]), "SICHTFELD < 90 >");
    assert_eq!(english.format_lookup("menu.game_mode", &[("value", "SURVIVAL")]), "GAME MODE: < SURVIVAL >");
    assert_eq!(german.format_lookup("menu.world_type", &[("value", "DEFAULT")]), "WELTTYP: < DEFAULT >");
    assert_eq!(
        english.format_lookup("station.cost_lapis", &[("enchantment", "SHARPNESS I"), ("cost", "3"), ("lapis", "2")],),
        "SHARPNESS I  COST 3 + 2 LAPIS"
    );
    assert_eq!(english.format_lookup("hud.master_volume", &[("value", "80")]), "MASTER VOLUME < 80% >");
    assert_eq!(german.format_lookup("station.brewing_progress", &[("value", "50")]), "BRAUEN 50 PROZENT");
}

#[test]
fn missing_key_falls_back_without_english_fragments() {
    let mut catalog = TranslationCatalog::from_json(Language::German, r#"{"hello":"Hello {name}"}"#, r#"{}"#);
    assert_eq!(catalog.format("hello", &[("name", "Alex")]), "Hello Alex");
    assert_eq!(catalog.translate("missing.key"), "missing.key");
    assert_eq!(catalog.missing_keys(), ["hello", "missing.key"]);
}

#[test]
fn parameter_and_plural_messages_are_structured() {
    let mut catalog = TranslationCatalog::from_json(
        Language::English,
        r#"{"item.one":"{count} item","item.other":"{count} items"}"#,
        r#"{"item.one":"{count} item","item.other":"{count} items"}"#,
    );
    assert_eq!(catalog.plural("item", 1), "1 item");
    assert_eq!(catalog.plural("item", 2), "2 items");
}

#[test]
fn selected_pack_can_override_item_block_and_entity_names() {
    let catalog = TranslationCatalog::from_json(
        Language::German,
        r#"{
            "item.diamond":"Diamond (built-in)",
            "block.stone":"Stone (built-in)",
            "entity.zombie":"Zombie (built-in)"
        }"#,
        r#"{
            "item.diamond":"Diamant",
            "block.stone":"Stein",
            "entity.zombie":"Zombie",
            "entity.ender_dragon":"Enderdrache"
        }"#,
    );
    assert_eq!(catalog.item_name(Item::Diamond), "Diamant");
    assert_eq!(catalog.block_name(BlockType::Stone), "Stein");
    assert_eq!(catalog.entity_name(EntityType::Zombie), "Zombie");
    assert_eq!(catalog.entity_name(EntityType::EnderDragon), "Enderdrache");
}

#[test]
fn missing_named_keys_use_builtin_display_names() {
    let catalog = TranslationCatalog::from_json(Language::English, "{}", "{}");
    assert_eq!(catalog.item_name(Item::Diamond), "Diamond");
    assert_eq!(catalog.block_name(BlockType::Stone), "Stone");
    assert_eq!(catalog.entity_name(EntityType::Zombie), "Zombie");
}

#[test]
fn top_level_translate_and_format_and_key_component() {
    assert_eq!(translate(Language::English, "menu.singleplayer"), "SINGLEPLAYER");
    assert_eq!(translate(Language::German, "menu.singleplayer"), "EINZELSPIELER");
    assert_eq!(icraft::localization::format(Language::English, "hud.fov", &[("value", "90")]), "FOV < 90 >");
    assert_eq!(icraft::localization::format(Language::German, "hud.fov", &[("value", "90")]), "SICHTFELD < 90 >");
    assert_eq!(key_component("Diamond"), "diamond");
    assert_eq!(key_component("Oak Planks"), "oak_planks");
    assert_eq!(key_component("EnderDragon"), "ender_dragon");
    assert_eq!(key_component("  Multiple   Spaces  "), "multiple_spaces");
}

#[test]
fn builtin_catalogs_cover_every_visible_key() {
    let english = TranslationCatalog::builtin(Language::English);
    let german = TranslationCatalog::builtin(Language::German);
    assert!(english.validate_visible_keys().is_empty());
    assert!(german.validate_visible_keys().is_empty());
    let empty = TranslationCatalog::from_json(Language::English, "{}", "{}");
    let missing = empty.validate_visible_keys();
    assert_eq!(missing.len(), icraft::localization::VISIBLE_REQUIRED_KEY_COUNT);
    assert_eq!(missing[0], "menu.singleplayer");
}

#[test]
fn language_parsing_is_trimmed_and_case_insensitive() {
    assert_eq!(Language::parse("  Deutsch "), Language::German);
    assert_eq!(Language::parse("GERMAN"), Language::German);
    assert_eq!(Language::parse("de_DE"), Language::German);
    assert_eq!(Language::parse("deutsch!"), Language::English);
    assert_eq!(Language::parse(""), Language::English);
    assert_eq!(Language::English.toggle(), Language::German);
    assert_eq!(Language::German.toggle().toggle(), Language::German);
    assert_eq!(Language::German.code(), "de_de");
    assert_eq!(Language::English.as_str(), "ENGLISH");
}

#[test]
fn malformed_json_counts_as_empty_and_missing_keys_are_sorted_once() {
    let mut catalog = TranslationCatalog::from_json(Language::German, "not json", r#"{"a":1}"#);
    assert_eq!(catalog.lookup("a"), "a");
    assert_eq!(catalog.translate("zeta"), "zeta");
    assert_eq!(catalog.translate("alpha"), "alpha");
    assert_eq!(catalog.translate("zeta"), "zeta");
    assert_eq!(catalog.missing_keys(), ["alpha", "zeta"]);
    assert_eq!(catalog.language(), Language::German);
    // An empty English catalog shows English for English.
    let english = TranslationCatalog::from_json(Language::English, r#"{"k":"v"}"#, "{}");
    assert_eq!(english.lookup("k"), "v");
}

#[test]
fn plural_falls_back_to_plain_key_and_counts_in_decimal() {
    let mut catalog = TranslationCatalog::from_json(Language::English, r#"{"apples":"{count} apples, {count} total"}"#, "{}");
    assert_eq!(catalog.plural("apples", 1234567), "1234567 apples, 1234567 total");
    assert_eq!(catalog.plural("apples", 0), "0 apples, 0 total");
}

#[test]
fn resource_pack_layers_override_in_priority_order() {
    let high = br#"{"menu.done":"FINISHED"}"#.to_vec();
    let low = br#"{"menu.done":"OK","menu.back":"RETURN"}"#.to_vec();
    let broken = vec![0xff, 0xfe, 0x00];
    let not_json = b"menu.done = nope".to_vec();
    let catalog = TranslationCatalog::from_resource_packs(
        &[high, broken, not_json, low],
        &[],
        Language::English,
    );
    assert_eq!(catalog.lookup("menu.done"), "FINISHED");
    assert_eq!(catalog.lookup("menu.back"), "RETURN");
    assert_eq!(catalog.lookup("menu.options"), "menu.options");

    let german = TranslationCatalog::from_resource_packs(&[], &[], Language::German);
    assert_eq!(german.lookup("menu.done"), "FERTIG");
    let english = TranslationCatalog::from_resource_packs(&[], &[], Language::English);
    assert_eq!(english.lookup("menu.done"), "DONE");
}
