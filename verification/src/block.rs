//! Block kinds and the per-kind properties that lighting, items and names read.

use vstd::prelude::*;

verus! {

/// A kind of block. The numeric id of a kind is its position in this list.
#[derive(Debug, Clone, Copy, PartialEq, Eq, Hash, Structural)]
pub enum BlockType {
    Air,
    Grass,
    Dirt,
    Stone,
    Sand,
    Gravel,
    OakLog,
    OakPlanks,
    OakLeaves,
    Cobblestone,
    Bedrock,
    Water,
    CoalOre,
    IronOre,
    GoldOre,
    DiamondOre,
    RedstoneOre,
    Glass,
    Brick,
    StoneBrick,
    Snow,
    Ice,
    Clay,
    Sandstone,
    Obsidian,
    CraftingTable,
    Furnace,
    Chest,
    TNT,
    Bookshelf,
    Torch,
    Lava,
    Bed,
    BirchLog,
    BirchPlanks,
    BirchLeaves,
    SpruceLog,
    SprucePlanks,
    SpruceLeaves,
    TallGrass,
    Dandelion,
    Poppy,
    Cactus,
    SugarCane,
    Pumpkin,
    Melon,
    EnchantingTable,
    BrewingStand,
    Anvil,
    RedstoneWire,
    RedstoneTorch,
    Repeater,
    Comparator,
    StoneButton,
    Lever,
    PressurePlate,
    Piston,
    StickyPiston,
    RedstoneLamp,
    OakDoor,
    OakTrapdoor,
    Dispenser,
    Dropper,
    NoteBlock,
    Netherrack,
    SoulSand,
    Glowstone,
    EndStone,
    EndPortalFrame,
    Purpur,
    DragonEgg,
    WitherSkeletonSkull,
    NetherBrick,
    OakSlab,
    CobblestoneSlab,
    OakStair,
    CobblestoneStair,
    OakFence,
    OakFenceGate,
    CobblestoneWall,
    GlassPane,
    OakLadder,
    OakSign,
    Rail,
    PoweredRail,
    DetectorRail,
    ActivatorRail,
    LilyPad,
    Hopper,
    Observer,
    WheatCrop,
    SnowLayer,
    Farmland,
    MossyCobblestone,
    DirtPath,
    NetherWartCrop,
    EndStoneBrick,
    RespawnAnchor,
    Fire,
    NetherPortal,
    EndPortal,
    EndCityChest,
    OakSapling,
    BirchSapling,
    SpruceSapling,
    Spawner,
    EndGateway,
}

/// Number of block kinds; ids run from 0 to this value minus one.
pub const BLOCK_TYPE_COUNT: usize = 107;

/// How a block kind is drawn; only `Opaque` blocks stop light.
#[derive(Debug, Clone, Copy, PartialEq, Eq, Structural)]
pub enum RenderType {
    Opaque,
    Transparent,
    Cross,
}

impl BlockType {
    pub open spec fn spec_id(self) -> u8 {
        match self {
            BlockType::Air => 0,
            BlockType::Grass => 1,
            BlockType::Dirt => 2,
            BlockType::Stone => 3,
            BlockType::Sand => 4,
            BlockType::Gravel => 5,
            BlockType::OakLog => 6,
            BlockType::OakPlanks => 7,
            BlockType::OakLeaves => 8,
            BlockType::Cobblestone => 9,
            BlockType::Bedrock => 10,
            BlockType::Water => 11,
            BlockType::CoalOre => 12,
            BlockType::IronOre => 13,
            BlockType::GoldOre => 14,
            BlockType::DiamondOre => 15,
            BlockType::RedstoneOre => 16,
            BlockType::Glass => 17,
            BlockType::Brick => 18,
            BlockType::StoneBrick => 19,
            BlockType::Snow => 20,
            BlockType::Ice => 21,
            BlockType::Clay => 22,
            BlockType::Sandstone => 23,
            BlockType::Obsidian => 24,
            BlockType::CraftingTable => 25,
            BlockType::Furnace => 26,
            BlockType::Chest => 27,
            BlockType::TNT => 28,
            BlockType::Bookshelf => 29,
            BlockType::Torch => 30,
            BlockType::Lava => 31,
            BlockType::Bed => 32,
            BlockType::BirchLog => 33,
            BlockType::BirchPlanks => 34,
            BlockType::BirchLeaves => 35,
            BlockType::SpruceLog => 36,
            BlockType::SprucePlanks => 37,
            BlockType::SpruceLeaves => 38,
            BlockType::TallGrass => 39,
            BlockType::Dandelion => 40,
            BlockType::Poppy => 41,
            BlockType::Cactus => 42,
            BlockType::SugarCane => 43,
            BlockType::Pumpkin => 44,
            BlockType::Melon => 45,
            BlockType::EnchantingTable => 46,
            BlockType::BrewingStand => 47,
            BlockType::Anvil => 48,
            BlockType::RedstoneWire => 49,
            BlockType::RedstoneTorch => 50,
            BlockType::Repeater => 51,
            BlockType::Comparator => 52,
            BlockType::StoneButton => 53,
            BlockType::Lever => 54,
            BlockType::PressurePlate => 55,
            BlockType::Piston => 56,
            BlockType::StickyPiston => 57,
            BlockType::RedstoneLamp => 58,
            BlockType::OakDoor => 59,
            BlockType::OakTrapdoor => 60,
            BlockType::Dispenser => 61,
            BlockType::Dropper => 62,
            BlockType::NoteBlock => 63,
            BlockType::Netherrack => 64,
            BlockType::SoulSand => 65,
            BlockType::Glowstone => 66,
            BlockType::EndStone => 67,
            BlockType::EndPortalFrame => 68,
            BlockType::Purpur => 69,
            BlockType::DragonEgg => 70,
            BlockType::WitherSkeletonSkull => 71,
            BlockType::NetherBrick => 72,
            BlockType::OakSlab => 73,
            BlockType::CobblestoneSlab => 74,
            BlockType::OakStair => 75,
            BlockType::CobblestoneStair => 76,
            BlockType::OakFence => 77,
            BlockType::OakFenceGate => 78,
            BlockType::CobblestoneWall => 79,
            BlockType::GlassPane => 80,
            BlockType::OakLadder => 81,
            BlockType::OakSign => 82,
            BlockType::Rail => 83,
            BlockType::PoweredRail => 84,
            BlockType::DetectorRail => 85,
            BlockType::ActivatorRail => 86,
            BlockType::LilyPad => 87,
            BlockType::Hopper => 88,
            BlockType::Observer => 89,
            BlockType::WheatCrop => 90,
            BlockType::SnowLayer => 91,
            BlockType::Farmland => 92,
            BlockType::MossyCobblestone => 93,
            BlockType::DirtPath => 94,
            BlockType::NetherWartCrop => 95,
            BlockType::EndStoneBrick => 96,
            BlockType::RespawnAnchor => 97,
            BlockType::Fire => 98,
            BlockType::NetherPortal => 99,
            BlockType::EndPortal => 100,
            BlockType::EndCityChest => 101,
            BlockType::OakSapling => 102,
            BlockType::BirchSapling => 103,
            BlockType::SpruceSapling => 104,
            BlockType::Spawner => 105,
            BlockType::EndGateway => 106,
        }
    }

    /// The numeric id of this kind.
    #[verifier::when_used_as_spec(spec_id)]
    pub fn id(self) -> (r: u8)
        ensures
            r == self.spec_id(),
    {
        match self {
            BlockType::Air => 0,
            BlockType::Grass => 1,
            BlockType::Dirt => 2,
            BlockType::Stone => 3,
            BlockType::Sand => 4,
            BlockType::Gravel => 5,
            BlockType::OakLog => 6,
            BlockType::OakPlanks => 7,
            BlockType::OakLeaves => 8,
            BlockType::Cobblestone => 9,
            BlockType::Bedrock => 10,
            BlockType::Water => 11,
            BlockType::CoalOre => 12,
            BlockType::IronOre => 13,
            BlockType::GoldOre => 14,
            BlockType::DiamondOre => 15,
            BlockType::RedstoneOre => 16,
            BlockType::Glass => 17,
            BlockType::Brick => 18,
            BlockType::StoneBrick => 19,
            BlockType::Snow => 20,
            BlockType::Ice => 21,
            BlockType::Clay => 22,
            BlockType::Sandstone => 23,
            BlockType::Obsidian => 24,
            BlockType::CraftingTable => 25,
            BlockType::Furnace => 26,
            BlockType::Chest => 27,
            BlockType::TNT => 28,
            BlockType::Bookshelf => 29,
            BlockType::Torch => 30,
            BlockType::Lava => 31,
            BlockType::Bed => 32,
            BlockType::BirchLog => 33,
            BlockType::BirchPlanks => 34,
            BlockType::BirchLeaves => 35,
            BlockType::SpruceLog => 36,
            BlockType::SprucePlanks => 37,
            BlockType::SpruceLeaves => 38,
            BlockType::TallGrass => 39,
            BlockType::Dandelion => 40,
            BlockType::Poppy => 41,
            BlockType::Cactus => 42,
            BlockType::SugarCane => 43,
            BlockType::Pumpkin => 44,
            BlockType::Melon => 45,
            BlockType::EnchantingTable => 46,
            BlockType::BrewingStand => 47,
            BlockType::Anvil => 48,
            BlockType::RedstoneWire => 49,
            BlockType::RedstoneTorch => 50,
            BlockType::Repeater => 51,
            BlockType::Comparator => 52,
            BlockType::StoneButton => 53,
            BlockType::Lever => 54,
            BlockType::PressurePlate => 55,
            BlockType::Piston => 56,
            BlockType::StickyPiston => 57,
            BlockType::RedstoneLamp => 58,
            BlockType::OakDoor => 59,
            BlockType::OakTrapdoor => 60,
            BlockType::Dispenser => 61,
            BlockType::Dropper => 62,
            BlockType::NoteBlock => 63,
            BlockType::Netherrack => 64,
            BlockType::SoulSand => 65,
            BlockType::Glowstone => 66,
            BlockType::EndStone => 67,
            BlockType::EndPortalFrame => 68,
            BlockType::Purpur => 69,
            BlockType::DragonEgg => 70,
            BlockType::WitherSkeletonSkull => 71,
            BlockType::NetherBrick => 72,
            BlockType::OakSlab => 73,
            BlockType::CobblestoneSlab => 74,
            BlockType::OakStair => 75,
            BlockType::CobblestoneStair => 76,
            BlockType::OakFence => 77,
            BlockType::OakFenceGate => 78,
            BlockType::CobblestoneWall => 79,
            BlockType::GlassPane => 80,
            BlockType::OakLadder => 81,
            BlockType::OakSign => 82,
            BlockType::Rail => 83,
            BlockType::PoweredRail => 84,
            BlockType::DetectorRail => 85,
            BlockType::ActivatorRail => 86,
            BlockType::LilyPad => 87,
            BlockType::Hopper => 88,
            BlockType::Observer => 89,
            BlockType::WheatCrop => 90,
            BlockType::SnowLayer => 91,
            BlockType::Farmland => 92,
            BlockType::MossyCobblestone => 93,
            BlockType::DirtPath => 94,
            BlockType::NetherWartCrop => 95,
            BlockType::EndStoneBrick => 96,
            BlockType::RespawnAnchor => 97,
            BlockType::Fire => 98,
            BlockType::NetherPortal => 99,
            BlockType::EndPortal => 100,
            BlockType::EndCityChest => 101,
            BlockType::OakSapling => 102,
            BlockType::BirchSapling => 103,
            BlockType::SpruceSapling => 104,
            BlockType::Spawner => 105,
            BlockType::EndGateway => 106,
        }
    }

    pub open spec fn spec_render_type(self) -> RenderType {
        match self {
            BlockType::Air => RenderType::Transparent,
            BlockType::Grass => RenderType::Opaque,
            BlockType::Dirt => RenderType::Opaque,
            BlockType::Stone => RenderType::Opaque,
            BlockType::Sand => RenderType::Opaque,
            BlockType::Gravel => RenderType::Opaque,
            BlockType::OakLog => RenderType::Opaque,
            BlockType::OakPlanks => RenderType::Opaque,
            BlockType::OakLeaves => RenderType::Transparent,
            BlockType::Cobblestone => RenderType::Opaque,
            BlockType::Bedrock => RenderType::Opaque,
            BlockType::Water => RenderType::Transparent,
            BlockType::CoalOre => RenderType::Opaque,
            BlockType::IronOre => RenderType::Opaque,
            BlockType::GoldOre => RenderType::Opaque,
            BlockType::DiamondOre => RenderType::Opaque,
            BlockType::RedstoneOre => RenderType::Opaque,
            BlockType::Glass => RenderType::Transparent,
            BlockType::Brick => RenderType::Opaque,
            BlockType::StoneBrick => RenderType::Opaque,
            BlockType::Snow => RenderType::Opaque,
            BlockType::Ice => RenderType::Transparent,
            BlockType::Clay => RenderType::Opaque,
            BlockType::Sandstone => RenderType::Opaque,
            BlockType::Obsidian => RenderType::Opaque,
            BlockType::CraftingTable => RenderType::Opaque,
            BlockType::Furnace => RenderType::Opaque,
            BlockType::Chest => RenderType::Transparent,
            BlockType::TNT => RenderType::Opaque,
            BlockType::Bookshelf => RenderType::Opaque,
            BlockType::Torch => RenderType::Transparent,
            BlockType::Lava => RenderType::Transparent,
            BlockType::Bed => RenderType::Transparent,
            BlockType::BirchLog => RenderType::Opaque,
            BlockType::BirchPlanks => RenderType::Opaque,
            BlockType::BirchLeaves => RenderType::Transparent,
            BlockType::SpruceLog => RenderType::Opaque,
            BlockType::SprucePlanks => RenderType::Opaque,
            BlockType::SpruceLeaves => RenderType::Transparent,
            BlockType::TallGrass => RenderType::Cross,
            BlockType::Dandelion => RenderType::Cross,
            BlockType::Poppy => RenderType::Cross,
            BlockType::Cactus => RenderType::Transparent,
            BlockType::SugarCane => RenderType::Cross,
            BlockType::Pumpkin => RenderType::Opaque,
            BlockType::Melon => RenderType::Opaque,
            BlockType::EnchantingTable => RenderType::Transparent,
            BlockType::BrewingStand => RenderType::Transparent,
            BlockType::Anvil => RenderType::Transparent,
            BlockType::RedstoneWire => RenderType::Transparent,
            BlockType::RedstoneTorch => RenderType::Transparent,
            BlockType::Repeater => RenderType::Transparent,
            BlockType::Comparator => RenderType::Transparent,
            BlockType::StoneButton => RenderType::Transparent,
            BlockType::Lever => RenderType::Transparent,
            BlockType::PressurePlate => RenderType::Transparent,
            BlockType::Piston => RenderType::Opaque,
            BlockType::StickyPiston => RenderType::Opaque,
            BlockType::RedstoneLamp => RenderType::Opaque,
            BlockType::OakDoor => RenderType::Transparent,
            BlockType::OakTrapdoor => RenderType::Transparent,
            BlockType::Dispenser => RenderType::Opaque,
            BlockType::Dropper => RenderType::Opaque,
            BlockType::NoteBlock => RenderType::Opaque,
            BlockType::Netherrack => RenderType::Opaque,
            BlockType::SoulSand => RenderType::Opaque,
            BlockType::Glowstone => RenderType::Opaque,
            BlockType::EndStone => RenderType::Opaque,
            BlockType::EndPortalFrame => RenderType::Opaque,
            BlockType::Purpur => RenderType::Opaque,
            BlockType::DragonEgg => RenderType::Transparent,
            BlockType::WitherSkeletonSkull => RenderType::Transparent,
            BlockType::NetherBrick => RenderType::Opaque,
            BlockType::OakSlab => RenderType::Transparent,
            BlockType::CobblestoneSlab => RenderType::Transparent,
            BlockType::OakStair => RenderType::Transparent,
            BlockType::CobblestoneStair => RenderType::Transparent,
            BlockType::OakFence => RenderType::Transparent,
            BlockType::OakFenceGate => RenderType::Transparent,
            BlockType::CobblestoneWall => RenderType::Transparent,
            BlockType::GlassPane => RenderType::Transparent,
            BlockType::OakLadder => RenderType::Transparent,
            BlockType::OakSign => RenderType::Transparent,
            BlockType::Rail => RenderType::Transparent,
            BlockType::PoweredRail => RenderType::Transparent,
            BlockType::DetectorRail => RenderType::Transparent,
            BlockType::ActivatorRail => RenderType::Transparent,
            BlockType::LilyPad => RenderType::Transparent,
            BlockType::Hopper => RenderType::Transparent,
            BlockType::Observer => RenderType::Opaque,
            BlockType::WheatCrop => RenderType::Cross,
            BlockType::SnowLayer => RenderType::Transparent,
            BlockType::Farmland => RenderType::Opaque,
            BlockType::MossyCobblestone => RenderType::Opaque,
            BlockType::DirtPath => RenderType::Opaque,
            BlockType::NetherWartCrop => RenderType::Cross,
            BlockType::EndStoneBrick => RenderType::Opaque,
            BlockType::RespawnAnchor => RenderType::Opaque,
            BlockType::Fire => RenderType::Transparent,
            BlockType::NetherPortal => RenderType::Transparent,
            BlockType::EndPortal => RenderType::Transparent,
            BlockType::EndCityChest => RenderType::Transparent,
            BlockType::OakSapling => RenderType::Cross,
            BlockType::BirchSapling => RenderType::Cross,
            BlockType::SpruceSapling => RenderType::Cross,
            BlockType::Spawner => RenderType::Transparent,
            BlockType::EndGateway => RenderType::Transparent,
        }
    }

    /// How this kind is drawn.
    #[verifier::when_used_as_spec(spec_render_type)]
    pub fn render_type(self) -> (r: RenderType)
        ensures
            r == self.spec_render_type(),
    {
        match self {
            BlockType::Air => RenderType::Transparent,
            BlockType::Grass => RenderType::Opaque,
            BlockType::Dirt => RenderType::Opaque,
            BlockType::Stone => RenderType::Opaque,
            BlockType::Sand => RenderType::Opaque,
            BlockType::Gravel => RenderType::Opaque,
            BlockType::OakLog => RenderType::Opaque,
            BlockType::OakPlanks => RenderType::Opaque,
            BlockType::OakLeaves => RenderType::Transparent,
            BlockType::Cobblestone => RenderType::Opaque,
            BlockType::Bedrock => RenderType::Opaque,
            BlockType::Water => RenderType::Transparent,
            BlockType::CoalOre => RenderType::Opaque,
            BlockType::IronOre => RenderType::Opaque,
            BlockType::GoldOre => RenderType::Opaque,
            BlockType::DiamondOre => RenderType::Opaque,
            BlockType::RedstoneOre => RenderType::Opaque,
            BlockType::Glass => RenderType::Transparent,
            BlockType::Brick => RenderType::Opaque,
            BlockType::StoneBrick => RenderType::Opaque,
            BlockType::Snow => RenderType::Opaque,
            BlockType::Ice => RenderType::Transparent,
            BlockType::Clay => RenderType::Opaque,
            BlockType::Sandstone => RenderType::Opaque,
            BlockType::Obsidian => RenderType::Opaque,
            BlockType::CraftingTable => RenderType::Opaque,
            BlockType::Furnace => RenderType::Opaque,
            BlockType::Chest => RenderType::Transparent,
            BlockType::TNT => RenderType::Opaque,
            BlockType::Bookshelf => RenderType::Opaque,
            BlockType::Torch => RenderType::Transparent,
            BlockType::Lava => RenderType::Transparent,
            BlockType::Bed => RenderType::Transparent,
            BlockType::BirchLog => RenderType::Opaque,
            BlockType::BirchPlanks => RenderType::Opaque,
            BlockType::BirchLeaves => RenderType::Transparent,
            BlockType::SpruceLog => RenderType::Opaque,
            BlockType::SprucePlanks => RenderType::Opaque,
            BlockType::SpruceLeaves => RenderType::Transparent,
            BlockType::TallGrass => RenderType::Cross,
            BlockType::Dandelion => RenderType::Cross,
            BlockType::Poppy => RenderType::Cross,
            BlockType::Cactus => RenderType::Transparent,
            BlockType::SugarCane => RenderType::Cross,
            BlockType::Pumpkin => RenderType::Opaque,
            BlockType::Melon => RenderType::Opaque,
            BlockType::EnchantingTable => RenderType::Transparent,
            BlockType::BrewingStand => RenderType::Transparent,
            BlockType::Anvil => RenderType::Transparent,
            BlockType::RedstoneWire => RenderType::Transparent,
            BlockType::RedstoneTorch => RenderType::Transparent,
            BlockType::Repeater => RenderType::Transparent,
            BlockType::Comparator => RenderType::Transparent,
            BlockType::StoneButton => RenderType::Transparent,
            BlockType::Lever => RenderType::Transparent,
            BlockType::PressurePlate => RenderType::Transparent,
            BlockType::Piston => RenderType::Opaque,
            BlockType::StickyPiston => RenderType::Opaque,
            BlockType::RedstoneLamp => RenderType::Opaque,
            BlockType::OakDoor => RenderType::Transparent,
            BlockType::OakTrapdoor => RenderType::Transparent,
            BlockType::Dispenser => RenderType::Opaque,
            BlockType::Dropper => RenderType::Opaque,
            BlockType::NoteBlock => RenderType::Opaque,
            BlockType::Netherrack => RenderType::Opaque,
            BlockType::SoulSand => RenderType::Opaque,
            BlockType::Glowstone => RenderType::Opaque,
            BlockType::EndStone => RenderType::Opaque,
            BlockType::EndPortalFrame => RenderType::Opaque,
            BlockType::Purpur => RenderType::Opaque,
            BlockType::DragonEgg => RenderType::Transparent,
            BlockType::WitherSkeletonSkull => RenderType::Transparent,
            BlockType::NetherBrick => RenderType::Opaque,
            BlockType::OakSlab => RenderType::Transparent,
            BlockType::CobblestoneSlab => RenderType::Transparent,
            BlockType::OakStair => RenderType::Transparent,
            BlockType::CobblestoneStair => RenderType::Transparent,
            BlockType::OakFence => RenderType::Transparent,
            BlockType::OakFenceGate => RenderType::Transparent,
            BlockType::CobblestoneWall => RenderType::Transparent,
            BlockType::GlassPane => RenderType::Transparent,
            BlockType::OakLadder => RenderType::Transparent,
            BlockType::OakSign => RenderType::Transparent,
            BlockType::Rail => RenderType::Transparent,
            BlockType::PoweredRail => RenderType::Transparent,
            BlockType::DetectorRail => RenderType::Transparent,
            BlockType::ActivatorRail => RenderType::Transparent,
            BlockType::LilyPad => RenderType::Transparent,
            BlockType::Hopper => RenderType::Transparent,
            BlockType::Observer => RenderType::Opaque,
            BlockType::WheatCrop => RenderType::Cross,
            BlockType::SnowLayer => RenderType::Transparent,
            BlockType::Farmland => RenderType::Opaque,
            BlockType::MossyCobblestone => RenderType::Opaque,
            BlockType::DirtPath => RenderType::Opaque,
            BlockType::NetherWartCrop => RenderType::Cross,
            BlockType::EndStoneBrick => RenderType::Opaque,
            BlockType::RespawnAnchor => RenderType::Opaque,
            BlockType::Fire => RenderType::Transparent,
            BlockType::NetherPortal => RenderType::Transparent,
            BlockType::EndPortal => RenderType::Transparent,
            BlockType::EndCityChest => RenderType::Transparent,
            BlockType::OakSapling => RenderType::Cross,
            BlockType::BirchSapling => RenderType::Cross,
            BlockType::SpruceSapling => RenderType::Cross,
            BlockType::Spawner => RenderType::Transparent,
            BlockType::EndGateway => RenderType::Transparent,
        }
    }

    pub open spec fn spec_light_emission(self) -> u8 {
        match self {
            BlockType::Air => 0,
            BlockType::Grass => 0,
            BlockType::Dirt => 0,
            BlockType::Stone => 0,
            BlockType::Sand => 0,
            BlockType::Gravel => 0,
            BlockType::OakLog => 0,
            BlockType::OakPlanks => 0,
            BlockType::OakLeaves => 0,
            BlockType::Cobblestone => 0,
            BlockType::Bedrock => 0,
            BlockType::Water => 0,
            BlockType::CoalOre => 0,
            BlockType::IronOre => 0,
            BlockType::GoldOre => 0,
            BlockType::DiamondOre => 0,
            BlockType::RedstoneOre => 0,
            BlockType::Glass => 0,
            BlockType::Brick => 0,
            BlockType::StoneBrick => 0,
            BlockType::Snow => 0,
            BlockType::Ice => 0,
            BlockType::Clay => 0,
            BlockType::Sandstone => 0,
            BlockType::Obsidian => 0,
            BlockType::CraftingTable => 0,
            BlockType::Furnace => 0,
            BlockType::Chest => 0,
            BlockType::TNT => 0,
            BlockType::Bookshelf => 0,
            BlockType::Torch => 14,
            BlockType::Lava => 15,
            BlockType::Bed => 0,
            BlockType::BirchLog => 0,
            BlockType::BirchPlanks => 0,
            BlockType::BirchLeaves => 0,
            BlockType::SpruceLog => 0,
            BlockType::SprucePlanks => 0,
            BlockType::SpruceLeaves => 0,
            BlockType::TallGrass => 0,
            BlockType::Dandelion => 0,
            BlockType::Poppy => 0,
            BlockType::Cactus => 0,
            BlockType::SugarCane => 0,
            BlockType::Pumpkin => 0,
            BlockType::Melon => 0,
            BlockType::EnchantingTable => 0,
            BlockType::BrewingStand => 1,
            BlockType::Anvil => 0,
            BlockType::RedstoneWire => 0,
            BlockType::RedstoneTorch => 7,
            BlockType::Repeater => 0,
            BlockType::Comparator => 0,
            BlockType::StoneButton => 0,
            BlockType::Lever => 0,
            BlockType::PressurePlate => 0,
            BlockType::Piston => 0,
            BlockType::StickyPiston => 0,
            BlockType::RedstoneLamp => 0,
            BlockType::OakDoor => 0,
            BlockType::OakTrapdoor => 0,
            BlockType::Dispenser => 0,
            BlockType::Dropper => 0,
            BlockType::NoteBlock => 0,
            BlockType::Netherrack => 0,
            BlockType::SoulSand => 0,
            BlockType::Glowstone => 15,
            BlockType::EndStone => 0,
            BlockType::EndPortalFrame => 1,
            BlockType::Purpur => 0,
            BlockType::DragonEgg => 1,
            BlockType::WitherSkeletonSkull => 0,
            BlockType::NetherBrick => 0,
            BlockType::OakSlab => 0,
            BlockType::CobblestoneSlab => 0,
            BlockType::OakStair => 0,
            BlockType::CobblestoneStair => 0,
            BlockType::OakFence => 0,
            BlockType::OakFenceGate => 0,
            BlockType::CobblestoneWall => 0,
            BlockType::GlassPane => 0,
            BlockType::OakLadder => 0,
            BlockType::OakSign => 0,
            BlockType::Rail => 0,
            BlockType::PoweredRail => 0,
            BlockType::DetectorRail => 0,
            BlockType::ActivatorRail => 0,
            BlockType::LilyPad => 0,
            BlockType::Hopper => 0,
            BlockType::Observer => 0,
            BlockType::WheatCrop => 0,
            BlockType::SnowLayer => 0,
            BlockType::Farmland => 0,
            BlockType::MossyCobblestone => 0,
            BlockType::DirtPath => 0,
            BlockType::NetherWartCrop => 0,
            BlockType::EndStoneBrick => 0,
            BlockType::RespawnAnchor => 15,
            BlockType::Fire => 15,
            BlockType::NetherPortal => 11,
            BlockType::EndPortal => 15,
            BlockType::EndCityChest => 0,
            BlockType::OakSapling => 0,
            BlockType::BirchSapling => 0,
            BlockType::SpruceSapling => 0,
            BlockType::Spawner => 0,
            BlockType::EndGateway => 15,
        }
    }

    /// Block light this kind emits (0 to 15).
    #[verifier::when_used_as_spec(spec_light_emission)]
    pub fn light_emission(self) -> (r: u8)
        ensures
            r == self.spec_light_emission(),
    {
        match self {
            BlockType::Air => 0,
            BlockType::Grass => 0,
            BlockType::Dirt => 0,
            BlockType::Stone => 0,
            BlockType::Sand => 0,
            BlockType::Gravel => 0,
            BlockType::OakLog => 0,
            BlockType::OakPlanks => 0,
            BlockType::OakLeaves => 0,
            BlockType::Cobblestone => 0,
            BlockType::Bedrock => 0,
            BlockType::Water => 0,
            BlockType::CoalOre => 0,
            BlockType::IronOre => 0,
            BlockType::GoldOre => 0,
            BlockType::DiamondOre => 0,
            BlockType::RedstoneOre => 0,
            BlockType::Glass => 0,
            BlockType::Brick => 0,
            BlockType::StoneBrick => 0,
            BlockType::Snow => 0,
            BlockType::Ice => 0,
            BlockType::Clay => 0,
            BlockType::Sandstone => 0,
            BlockType::Obsidian => 0,
            BlockType::CraftingTable => 0,
            BlockType::Furnace => 0,
            BlockType::Chest => 0,
            BlockType::TNT => 0,
            BlockType::Bookshelf => 0,
            BlockType::Torch => 14,
            BlockType::Lava => 15,
            BlockType::Bed => 0,
            BlockType::BirchLog => 0,
            BlockType::BirchPlanks => 0,
            BlockType::BirchLeaves => 0,
            BlockType::SpruceLog => 0,
            BlockType::SprucePlanks => 0,
            BlockType::SpruceLeaves => 0,
            BlockType::TallGrass => 0,
            BlockType::Dandelion => 0,
            BlockType::Poppy => 0,
            BlockType::Cactus => 0,
            BlockType::SugarCane => 0,
            BlockType::Pumpkin => 0,
            BlockType::Melon => 0,
            BlockType::EnchantingTable => 0,
            BlockType::BrewingStand => 1,
            BlockType::Anvil => 0,
            BlockType::RedstoneWire => 0,
            BlockType::RedstoneTorch => 7,
            BlockType::Repeater => 0,
            BlockType::Comparator => 0,
            BlockType::StoneButton => 0,
            BlockType::Lever => 0,
            BlockType::PressurePlate => 0,
            BlockType::Piston => 0,
            BlockType::StickyPiston => 0,
            BlockType::RedstoneLamp => 0,
            BlockType::OakDoor => 0,
            BlockType::OakTrapdoor => 0,
            BlockType::Dispenser => 0,
            BlockType::Dropper => 0,
            BlockType::NoteBlock => 0,
            BlockType::Netherrack => 0,
            BlockType::SoulSand => 0,
            BlockType::Glowstone => 15,
            BlockType::EndStone => 0,
            BlockType::EndPortalFrame => 1,
            BlockType::Purpur => 0,
            BlockType::DragonEgg => 1,
            BlockType::WitherSkeletonSkull => 0,
            BlockType::NetherBrick => 0,
            BlockType::OakSlab => 0,
            BlockType::CobblestoneSlab => 0,
            BlockType::OakStair => 0,
            BlockType::CobblestoneStair => 0,
            BlockType::OakFence => 0,
            BlockType::OakFenceGate => 0,
            BlockType::CobblestoneWall => 0,
            BlockType::GlassPane => 0,
            BlockType::OakLadder => 0,
            BlockType::OakSign => 0,
            BlockType::Rail => 0,
            BlockType::PoweredRail => 0,
            BlockType::DetectorRail => 0,
            BlockType::ActivatorRail => 0,
            BlockType::LilyPad => 0,
            BlockType::Hopper => 0,
            BlockType::Observer => 0,
            BlockType::WheatCrop => 0,
            BlockType::SnowLayer => 0,
            BlockType::Farmland => 0,
            BlockType::MossyCobblestone => 0,
            BlockType::DirtPath => 0,
            BlockType::NetherWartCrop => 0,
            BlockType::EndStoneBrick => 0,
            BlockType::RespawnAnchor => 15,
            BlockType::Fire => 15,
            BlockType::NetherPortal => 11,
            BlockType::EndPortal => 15,
            BlockType::EndCityChest => 0,
            BlockType::OakSapling => 0,
            BlockType::BirchSapling => 0,
            BlockType::SpruceSapling => 0,
            BlockType::Spawner => 0,
            BlockType::EndGateway => 15,
        }
    }

    pub open spec fn spec_name(self) -> Seq<char> {
        match self {
            BlockType::Air => "Air"@,
            BlockType::Grass => "Grass Block"@,
            BlockType::Dirt => "Dirt"@,
            BlockType::Stone => "Stone"@,
            BlockType::Sand => "Sand"@,
            BlockType::Gravel => "Gravel"@,
            BlockType::OakLog => "Oak Log"@,
            BlockType::OakPlanks => "Oak Planks"@,
            BlockType::OakLeaves => "Oak Leaves"@,
            BlockType::Cobblestone => "Cobblestone"@,
            BlockType::Bedrock => "Bedrock"@,
            BlockType::Water => "Water"@,
            BlockType::CoalOre => "Coal Ore"@,
            BlockType::IronOre => "Iron Ore"@,
            BlockType::GoldOre => "Gold Ore"@,
            BlockType::DiamondOre => "Diamond Ore"@,
            BlockType::RedstoneOre => "Redstone Ore"@,
            BlockType::Glass => "Glass"@,
            BlockType::Brick => "Brick"@,
            BlockType::StoneBrick => "Stone Brick"@,
            BlockType::Snow => "Snow"@,
            BlockType::Ice => "Ice"@,
            BlockType::Clay => "Clay"@,
            BlockType::Sandstone => "Sandstone"@,
            BlockType::Obsidian => "Obsidian"@,
            BlockType::CraftingTable => "Crafting Table"@,
            BlockType::Furnace => "Furnace"@,
            BlockType::Chest => "Chest"@,
            BlockType::TNT => "TNT"@,
            BlockType::Bookshelf => "Bookshelf"@,
            BlockType::Torch => "Torch"@,
            BlockType::Lava => "Lava"@,
            BlockType::Bed => "Bed"@,
            BlockType::BirchLog => "Birch Log"@,
            BlockType::BirchPlanks => "Birch Planks"@,
            BlockType::BirchLeaves => "Birch Leaves"@,
            BlockType::SpruceLog => "Spruce Log"@,
            BlockType::SprucePlanks => "Spruce Planks"@,
            BlockType::SpruceLeaves => "Spruce Leaves"@,
            BlockType::TallGrass => "Tall Grass"@,
            BlockType::Dandelion => "Dandelion"@,
            BlockType::Poppy => "Poppy"@,
            BlockType::Cactus => "Cactus"@,
            BlockType::SugarCane => "Sugar Cane"@,
            BlockType::Pumpkin => "Pumpkin"@,
            BlockType::Melon => "Melon"@,
            BlockType::EnchantingTable => "Enchanting Table"@,
            BlockType::BrewingStand => "Brewing Stand"@,
            BlockType::Anvil => "Anvil"@,
            BlockType::RedstoneWire => "Redstone Wire"@,
            BlockType::RedstoneTorch => "Redstone Torch"@,
            BlockType::Repeater => "Repeater"@,
            BlockType::Comparator => "Comparator"@,
            BlockType::StoneButton => "Stone Button"@,
            BlockType::Lever => "Lever"@,
            BlockType::PressurePlate => "Pressure Plate"@,
            BlockType::Piston => "Piston"@,
            BlockType::StickyPiston => "Sticky Piston"@,
            BlockType::RedstoneLamp => "Redstone Lamp"@,
            BlockType::OakDoor => "Oak Door"@,
            BlockType::OakTrapdoor => "Oak Trapdoor"@,
            BlockType::Dispenser => "Dispenser"@,
            BlockType::Dropper => "Dropper"@,
            BlockType::NoteBlock => "Note Block"@,
            BlockType::Netherrack => "Netherrack"@,
            BlockType::SoulSand => "Soul Sand"@,
            BlockType::Glowstone => "Glowstone"@,
            BlockType::EndStone => "End Stone"@,
            BlockType::EndPortalFrame => "End Portal Frame"@,
            BlockType::Purpur => "Purpur"@,
            BlockType::DragonEgg => "Dragon Egg"@,
            BlockType::WitherSkeletonSkull => "Wither Skeleton Skull"@,
            BlockType::NetherBrick => "Nether Brick"@,
            BlockType::OakSlab => "Oak Slab"@,
            BlockType::CobblestoneSlab => "Cobblestone Slab"@,
            BlockType::OakStair => "Oak Stair"@,
            BlockType::CobblestoneStair => "Cobblestone Stair"@,
            BlockType::OakFence => "Oak Fence"@,
            BlockType::OakFenceGate => "Oak Fence Gate"@,
            BlockType::CobblestoneWall => "Cobblestone Wall"@,
            BlockType::GlassPane => "Glass Pane"@,
            BlockType::OakLadder => "Oak Ladder"@,
            BlockType::OakSign => "Oak Sign"@,
            BlockType::Rail => "Rail"@,
            BlockType::PoweredRail => "Powered Rail"@,
            BlockType::DetectorRail => "Detector Rail"@,
            BlockType::ActivatorRail => "Activator Rail"@,
            BlockType::LilyPad => "Lily Pad"@,
            BlockType::Hopper => "Hopper"@,
            BlockType::Observer => "Observer"@,
            BlockType::WheatCrop => "Wheat Crop"@,
            BlockType::SnowLayer => "Snow Layer"@,
            BlockType::Farmland => "Farmland"@,
            BlockType::MossyCobblestone => "Mossy Cobblestone"@,
            BlockType::DirtPath => "Dirt Path"@,
            BlockType::NetherWartCrop => "Nether Wart Crop"@,
            BlockType::EndStoneBrick => "End Stone Brick"@,
            BlockType::RespawnAnchor => "Respawn Anchor"@,
            BlockType::Fire => "Fire"@,
            BlockType::NetherPortal => "Nether Portal"@,
            BlockType::EndPortal => "End Portal"@,
            BlockType::EndCityChest => "End City Chest"@,
            BlockType::OakSapling => "Oak Sapling"@,
            BlockType::BirchSapling => "Birch Sapling"@,
            BlockType::SpruceSapling => "Spruce Sapling"@,
            BlockType::Spawner => "Spawner"@,
            BlockType::EndGateway => "End Gateway"@,
        }
    }

    /// Display name of this kind.
    pub fn name(self) -> (r: &'static str)
        ensures
            r@ == self.spec_name(),
    {
        match self {
            BlockType::Air => "Air",
            BlockType::Grass => "Grass Block",
            BlockType::Dirt => "Dirt",
            BlockType::Stone => "Stone",
            BlockType::Sand => "Sand",
            BlockType::Gravel => "Gravel",
            BlockType::OakLog => "Oak Log",
            BlockType::OakPlanks => "Oak Planks",
            BlockType::OakLeaves => "Oak Leaves",
            BlockType::Cobblestone => "Cobblestone",
            BlockType::Bedrock => "Bedrock",
            BlockType::Water => "Water",
            BlockType::CoalOre => "Coal Ore",
            BlockType::IronOre => "Iron Ore",
            BlockType::GoldOre => "Gold Ore",
            BlockType::DiamondOre => "Diamond Ore",
            BlockType::RedstoneOre => "Redstone Ore",
            BlockType::Glass => "Glass",
            BlockType::Brick => "Brick",
            BlockType::StoneBrick => "Stone Brick",
            BlockType::Snow => "Snow",
            BlockType::Ice => "Ice",
            BlockType::Clay => "Clay",
            BlockType::Sandstone => "Sandstone",
            BlockType::Obsidian => "Obsidian",
            BlockType::CraftingTable => "Crafting Table",
            BlockType::Furnace => "Furnace",
            BlockType::Chest => "Chest",
            BlockType::TNT => "TNT",
            BlockType::Bookshelf => "Bookshelf",
            BlockType::Torch => "Torch",
            BlockType::Lava => "Lava",
            BlockType::Bed => "Bed",
            BlockType::BirchLog => "Birch Log",
            BlockType::BirchPlanks => "Birch Planks",
            BlockType::BirchLeaves => "Birch Leaves",
            BlockType::SpruceLog => "Spruce Log",
            BlockType::SprucePlanks => "Spruce Planks",
            BlockType::SpruceLeaves => "Spruce Leaves",
            BlockType::TallGrass => "Tall Grass",
            BlockType::Dandelion => "Dandelion",
            BlockType::Poppy => "Poppy",
            BlockType::Cactus => "Cactus",
            BlockType::SugarCane => "Sugar Cane",
            BlockType::Pumpkin => "Pumpkin",
            BlockType::Melon => "Melon",
            BlockType::EnchantingTable => "Enchanting Table",
            BlockType::BrewingStand => "Brewing Stand",
            BlockType::Anvil => "Anvil",
            BlockType::RedstoneWire => "Redstone Wire",
            BlockType::RedstoneTorch => "Redstone Torch",
            BlockType::Repeater => "Repeater",
            BlockType::Comparator => "Comparator",
            BlockType::StoneButton => "Stone Button",
            BlockType::Lever => "Lever",
            BlockType::PressurePlate => "Pressure Plate",
            BlockType::Piston => "Piston",
            BlockType::StickyPiston => "Sticky Piston",
            BlockType::RedstoneLamp => "Redstone Lamp",
            BlockType::OakDoor => "Oak Door",
            BlockType::OakTrapdoor => "Oak Trapdoor",
            BlockType::Dispenser => "Dispenser",
            BlockType::Dropper => "Dropper",
            BlockType::NoteBlock => "Note Block",
            BlockType::Netherrack => "Netherrack",
            BlockType::SoulSand => "Soul Sand",
            BlockType::Glowstone => "Glowstone",
            BlockType::EndStone => "End Stone",
            BlockType::EndPortalFrame => "End Portal Frame",
            BlockType::Purpur => "Purpur",
            BlockType::DragonEgg => "Dragon Egg",
            BlockType::WitherSkeletonSkull => "Wither Skeleton Skull",
            BlockType::NetherBrick => "Nether Brick",
            BlockType::OakSlab => "Oak Slab",
            BlockType::CobblestoneSlab => "Cobblestone Slab",
            BlockType::OakStair => "Oak Stair",
            BlockType::CobblestoneStair => "Cobblestone Stair",
            BlockType::OakFence => "Oak Fence",
            BlockType::OakFenceGate => "Oak Fence Gate",
            BlockType::CobblestoneWall => "Cobblestone Wall",
            BlockType::GlassPane => "Glass Pane",
            BlockType::OakLadder => "Oak Ladder",
            BlockType::OakSign => "Oak Sign",
            BlockType::Rail => "Rail",
            BlockType::PoweredRail => "Powered Rail",
            BlockType::DetectorRail => "Detector Rail",
            BlockType::ActivatorRail => "Activator Rail",
            BlockType::LilyPad => "Lily Pad",
            BlockType::Hopper => "Hopper",
            BlockType::Observer => "Observer",
            BlockType::WheatCrop => "Wheat Crop",
            BlockType::SnowLayer => "Snow Layer",
            BlockType::Farmland => "Farmland",
            BlockType::MossyCobblestone => "Mossy Cobblestone",
            BlockType::DirtPath => "Dirt Path",
            BlockType::NetherWartCrop => "Nether Wart Crop",
            BlockType::EndStoneBrick => "End Stone Brick",
            BlockType::RespawnAnchor => "Respawn Anchor",
            BlockType::Fire => "Fire",
            BlockType::NetherPortal => "Nether Portal",
            BlockType::EndPortal => "End Portal",
            BlockType::EndCityChest => "End City Chest",
            BlockType::OakSapling => "Oak Sapling",
            BlockType::BirchSapling => "Birch Sapling",
            BlockType::SpruceSapling => "Spruce Sapling",
            BlockType::Spawner => "Spawner",
            BlockType::EndGateway => "End Gateway",
        }
    }

    /// True for plant-like kinds drawn as two crossed quads.
    pub open spec fn spec_is_cross_model(self) -> bool {
        self.spec_render_type() == RenderType::Cross
    }

    #[verifier::when_used_as_spec(spec_is_cross_model)]
    pub fn is_cross_model(self) -> (r: bool)
        ensures
            r == self.spec_is_cross_model(),
    {
        match self.render_type() {
            RenderType::Cross => true,
            _ => false,
        }
    }

    /// True when this kind stops light.
    pub open spec fn spec_is_opaque(self) -> bool {
        self.spec_render_type() == RenderType::Opaque
    }

    #[verifier::when_used_as_spec(spec_is_opaque)]
    pub fn is_opaque(self) -> (r: bool)
        ensures
            r == self.spec_is_opaque(),
    {
        match self.render_type() {
            RenderType::Opaque => true,
            _ => false,
        }
    }

    pub open spec fn spec_from_u8(id: u8) -> Option<BlockType> {
        match id {
            0u8 => Some(BlockType::Air),
            1u8 => Some(BlockType::Grass),
            2u8 => Some(BlockType::Dirt),
            3u8 => Some(BlockType::Stone),
            4u8 => Some(BlockType::Sand),
            5u8 => Some(BlockType::Gravel),
            6u8 => Some(BlockType::OakLog),
            7u8 => Some(BlockType::OakPlanks),
            8u8 => Some(BlockType::OakLeaves),
            9u8 => Some(BlockType::Cobblestone),
            10u8 => Some(BlockType::Bedrock),
            11u8 => Some(BlockType::Water),
            12u8 => Some(BlockType::CoalOre),
            13u8 => Some(BlockType::IronOre),
            14u8 => Some(BlockType::GoldOre),
            15u8 => Some(BlockType::DiamondOre),
            16u8 => Some(BlockType::RedstoneOre),
            17u8 => Some(BlockType::Glass),
            18u8 => Some(BlockType::Brick),
            19u8 => Some(BlockType::StoneBrick),
            20u8 => Some(BlockType::Snow),
            21u8 => Some(BlockType::Ice),
            22u8 => Some(BlockType::Clay),
            23u8 => Some(BlockType::Sandstone),
            24u8 => Some(BlockType::Obsidian),
            25u8 => Some(BlockType::CraftingTable),
            26u8 => Some(BlockType::Furnace),
            27u8 => Some(BlockType::Chest),
            28u8 => Some(BlockType::TNT),
            29u8 => Some(BlockType::Bookshelf),
            30u8 => Some(BlockType::Torch),
            31u8 => Some(BlockType::Lava),
            32u8 => Some(BlockType::Bed),
            33u8 => Some(BlockType::BirchLog),
            34u8 => Some(BlockType::BirchPlanks),
            35u8 => Some(BlockType::BirchLeaves),
            36u8 => Some(BlockType::SpruceLog),
            37u8 => Some(BlockType::SprucePlanks),
            38u8 => Some(BlockType::SpruceLeaves),
            39u8 => Some(BlockType::TallGrass),
            40u8 => Some(BlockType::Dandelion),
            41u8 => Some(BlockType::Poppy),
            42u8 => Some(BlockType::Cactus),
            43u8 => Some(BlockType::SugarCane),
            44u8 => Some(BlockType::Pumpkin),
            45u8 => Some(BlockType::Melon),
            46u8 => Some(BlockType::EnchantingTable),
            47u8 => Some(BlockType::BrewingStand),
            48u8 => Some(BlockType::Anvil),
            49u8 => Some(BlockType::RedstoneWire),
            50u8 => Some(BlockType::RedstoneTorch),
            51u8 => Some(BlockType::Repeater),
            52u8 => Some(BlockType::Comparator),
            53u8 => Some(BlockType::StoneButton),
            54u8 => Some(BlockType::Lever),
            55u8 => Some(BlockType::PressurePlate),
            56u8 => Some(BlockType::Piston),
            57u8 => Some(BlockType::StickyPiston),
            58u8 => Some(BlockType::RedstoneLamp),
            59u8 => Some(BlockType::OakDoor),
            60u8 => Some(BlockType::OakTrapdoor),
            61u8 => Some(BlockType::Dispenser),
            62u8 => Some(BlockType::Dropper),
            63u8 => Some(BlockType::NoteBlock),
            64u8 => Some(BlockType::Netherrack),
            65u8 => Some(BlockType::SoulSand),
            66u8 => Some(BlockType::Glowstone),
            67u8 => Some(BlockType::EndStone),
            68u8 => Some(BlockType::EndPortalFrame),
            69u8 => Some(BlockType::Purpur),
            70u8 => Some(BlockType::DragonEgg),
            71u8 => Some(BlockType::WitherSkeletonSkull),
            72u8 => Some(BlockType::NetherBrick),
            73u8 => Some(BlockType::OakSlab),
            74u8 => Some(BlockType::CobblestoneSlab),
            75u8 => Some(BlockType::OakStair),
            76u8 => Some(BlockType::CobblestoneStair),
            77u8 => Some(BlockType::OakFence),
            78u8 => Some(BlockType::OakFenceGate),
            79u8 => Some(BlockType::CobblestoneWall),
            80u8 => Some(BlockType::GlassPane),
            81u8 => Some(BlockType::OakLadder),
            82u8 => Some(BlockType::OakSign),
            83u8 => Some(BlockType::Rail),
            84u8 => Some(BlockType::PoweredRail),
            85u8 => Some(BlockType::DetectorRail),
            86u8 => Some(BlockType::ActivatorRail),
            87u8 => Some(BlockType::LilyPad),
            88u8 => Some(BlockType::Hopper),
            89u8 => Some(BlockType::Observer),
            90u8 => Some(BlockType::WheatCrop),
            91u8 => Some(BlockType::SnowLayer),
            92u8 => Some(BlockType::Farmland),
            93u8 => Some(BlockType::MossyCobblestone),
            94u8 => Some(BlockType::DirtPath),
            95u8 => Some(BlockType::NetherWartCrop),
            96u8 => Some(BlockType::EndStoneBrick),
            97u8 => Some(BlockType::RespawnAnchor),
            98u8 => Some(BlockType::Fire),
            99u8 => Some(BlockType::NetherPortal),
            100u8 => Some(BlockType::EndPortal),
            101u8 => Some(BlockType::EndCityChest),
            102u8 => Some(BlockType::OakSapling),
            103u8 => Some(BlockType::BirchSapling),
            104u8 => Some(BlockType::SpruceSapling),
            105u8 => Some(BlockType::Spawner),
            106u8 => Some(BlockType::EndGateway),
            _ => None,
        }
    }

    /// The kind with the given id, if there is one.
    pub fn from_u8(id: u8) -> (r: Option<BlockType>)
        ensures
            r == Self::spec_from_u8(id),
    {
        match id {
            0u8 => Some(BlockType::Air),
            1u8 => Some(BlockType::Grass),
            2u8 => Some(BlockType::Dirt),
            3u8 => Some(BlockType::Stone),
            4u8 => Some(BlockType::Sand),
            5u8 => Some(BlockType::Gravel),
            6u8 => Some(BlockType::OakLog),
            7u8 => Some(BlockType::OakPlanks),
            8u8 => Some(BlockType::OakLeaves),
            9u8 => Some(BlockType::Cobblestone),
            10u8 => Some(BlockType::Bedrock),
            11u8 => Some(BlockType::Water),
            12u8 => Some(BlockType::CoalOre),
            13u8 => Some(BlockType::IronOre),
            14u8 => Some(BlockType::GoldOre),
            15u8 => Some(BlockType::DiamondOre),
            16u8 => Some(BlockType::RedstoneOre),
            17u8 => Some(BlockType::Glass),
            18u8 => Some(BlockType::Brick),
            19u8 => Some(BlockType::StoneBrick),
            20u8 => Some(BlockType::Snow),
            21u8 => Some(BlockType::Ice),
            22u8 => Some(BlockType::Clay),
            23u8 => Some(BlockType::Sandstone),
            24u8 => Some(BlockType::Obsidian),
            25u8 => Some(BlockType::CraftingTable),
            26u8 => Some(BlockType::Furnace),
            27u8 => Some(BlockType::Chest),
            28u8 => Some(BlockType::TNT),
            29u8 => Some(BlockType::Bookshelf),
            30u8 => Some(BlockType::Torch),
            31u8 => Some(BlockType::Lava),
            32u8 => Some(BlockType::Bed),
            33u8 => Some(BlockType::BirchLog),
            34u8 => Some(BlockType::BirchPlanks),
            35u8 => Some(BlockType::BirchLeaves),
            36u8 => Some(BlockType::SpruceLog),
            37u8 => Some(BlockType::SprucePlanks),
            38u8 => Some(BlockType::SpruceLeaves),
            39u8 => Some(BlockType::TallGrass),
            40u8 => Some(BlockType::Dandelion),
            41u8 => Some(BlockType::Poppy),
            42u8 => Some(BlockType::Cactus),
            43u8 => Some(BlockType::SugarCane),
            44u8 => Some(BlockType::Pumpkin),
            45u8 => Some(BlockType::Melon),
            46u8 => Some(BlockType::EnchantingTable),
            47u8 => Some(BlockType::BrewingStand),
            48u8 => Some(BlockType::Anvil),
            49u8 => Some(BlockType::RedstoneWire),
            50u8 => Some(BlockType::RedstoneTorch),
            51u8 => Some(BlockType::Repeater),
            52u8 => Some(BlockType::Comparator),
            53u8 => Some(BlockType::StoneButton),
            54u8 => Some(BlockType::Lever),
            55u8 => Some(BlockType::PressurePlate),
            56u8 => Some(BlockType::Piston),
            57u8 => Some(BlockType::StickyPiston),
            58u8 => Some(BlockType::RedstoneLamp),
            59u8 => Some(BlockType::OakDoor),
            60u8 => Some(BlockType::OakTrapdoor),
            61u8 => Some(BlockType::Dispenser),
            62u8 => Some(BlockType::Dropper),
            63u8 => Some(BlockType::NoteBlock),
            64u8 => Some(BlockType::Netherrack),
            65u8 => Some(BlockType::SoulSand),
            66u8 => Some(BlockType::Glowstone),
            67u8 => Some(BlockType::EndStone),
            68u8 => Some(BlockType::EndPortalFrame),
            69u8 => Some(BlockType::Purpur),
            70u8 => Some(BlockType::DragonEgg),
            71u8 => Some(BlockType::WitherSkeletonSkull),
            72u8 => Some(BlockType::NetherBrick),
            73u8 => Some(BlockType::OakSlab),
            74u8 => Some(BlockType::CobblestoneSlab),
            75u8 => Some(BlockType::OakStair),
            76u8 => Some(BlockType::CobblestoneStair),
            77u8 => Some(BlockType::OakFence),
            78u8 => Some(BlockType::OakFenceGate),
            79u8 => Some(BlockType::CobblestoneWall),
            80u8 => Some(BlockType::GlassPane),
            81u8 => Some(BlockType::OakLadder),
            82u8 => Some(BlockType::OakSign),
            83u8 => Some(BlockType::Rail),
            84u8 => Some(BlockType::PoweredRail),
            85u8 => Some(BlockType::DetectorRail),
            86u8 => Some(BlockType::ActivatorRail),
            87u8 => Some(BlockType::LilyPad),
            88u8 => Some(BlockType::Hopper),
            89u8 => Some(BlockType::Observer),
            90u8 => Some(BlockType::WheatCrop),
            91u8 => Some(BlockType::SnowLayer),
            92u8 => Some(BlockType::Farmland),
            93u8 => Some(BlockType::MossyCobblestone),
            94u8 => Some(BlockType::DirtPath),
            95u8 => Some(BlockType::NetherWartCrop),
            96u8 => Some(BlockType::EndStoneBrick),
            97u8 => Some(BlockType::RespawnAnchor),
            98u8 => Some(BlockType::Fire),
            99u8 => Some(BlockType::NetherPortal),
            100u8 => Some(BlockType::EndPortal),
            101u8 => Some(BlockType::EndCityChest),
            102u8 => Some(BlockType::OakSapling),
            103u8 => Some(BlockType::BirchSapling),
            104u8 => Some(BlockType::SpruceSapling),
            105u8 => Some(BlockType::Spawner),
            106u8 => Some(BlockType::EndGateway),
            _ => None,
        }
    }
}

/// Every kind's id is below the kind count, and reading the id back gives the kind.
pub proof fn lemma_block_id_round_trip(b: BlockType)
    ensures
        b.spec_id() < BLOCK_TYPE_COUNT,
        BlockType::spec_from_u8(b.spec_id()) == Some(b),
{
}

/// An id names a kind exactly when it is below the kind count, and that kind has the id.
pub proof fn lemma_block_from_u8(id: u8)
    ensures
        BlockType::spec_from_u8(id) is Some <==> id < BLOCK_TYPE_COUNT,
        BlockType::spec_from_u8(id) matches Some(b) ==> b.spec_id() == id,
{
}

} // verus!
