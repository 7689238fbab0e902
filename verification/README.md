# icraft

The game-logic core of a block-building game, written in Verus: every function in `src/`
carries a contract, and Verus proves it, except for three small trusted wrappers around calls
into std and serde_json (`text::push_char`, `localization::json_to_string_map` and
`localization::utf8_text`), whose contracts are taken as given.

- `src/inventory/`: the item catalog, item stacks, inventories, containers and stack clicks.
- `src/lighting/`: sky and block light spreading, removal and per-column lighting over the
  loaded chunk columns (`src/world.rs`, `src/block.rs`).
- `src/localization.rs`: translation catalogs built from JSON text and resource-pack layers.
- `src/loot.rs`: the loot tables and their seeded rolls.
- `src/menu.rs`, `src/keys.rs`, `src/settings.rs`, `src/worlds.rs`: menu rules, key names,
  settings and controls files, world metadata files, world names, slugs and seeds.
- `src/menu_click.rs`: what a click on a menu control does to the menu state (keyboard focus
  included), the work (finding, launching, copying or deleting worlds, saving) it leaves to the
  program, and the multiplayer form check.
- `src/navigation.rs`, `src/mobs.rs`: explorer maps and mob model tables.
- `src/text.rs`: character-level text operations the rest is stated over.

Laws that span several functions are public proof functions named `lemma_…`, next to the
functions they speak of (for example `worlds::lemma_metadata_round_trip` and
`settings::lemma_controls_file_reads_back`).

`tests/` exercises the library; `app/` is the desktop program around it: files on disk, the
clock, and the settings and needle angles that are floating-point numbers.
