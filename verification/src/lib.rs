//! Game-logic core of a block-building game: item catalog and inventories,
//! voxel light propagation, localization, loot tables and menu helpers.

pub mod block;
pub mod inventory;
pub mod brewing;
pub mod enchantment;
pub mod world;
pub mod lighting;
pub mod text;
pub mod entity;
pub mod localization;
pub mod loot;
pub mod menu;
pub mod menu_click;
pub mod keys;
pub mod worlds;
pub mod navigation;
pub mod mobs;
pub mod settings;
