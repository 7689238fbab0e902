//! The item catalog: every item kind, its numeric id, and its static properties.

use vstd::prelude::*;
use crate::block::{BlockType, BLOCK_TYPE_COUNT};

verus! {

/// An item kind. Its numeric id (used on the wire and in saves) is its position in this list.
#[derive(Debug, Clone, Copy, PartialEq, Eq, Hash, Structural)]
pub enum Item {
    Air,
    Grass,
    Dirt,
    Stone,
    Sand,
    Gravel,
    OakLog,
    OakPlanks,
    OakLeaves,
    Cobblestone,
    Bedrock,
    Water,
    CoalOre,
    IronOre,
    GoldOre,
    DiamondOre,
    RedstoneOre,
    Glass,
    Brick,
    StoneBrick,
    Snow,
    Ice,
    Clay,
    Sandstone,
    Obsidian,
    CraftingTable,
    Furnace,
    Chest,
    TNT,
    Bookshelf,
    Torch,
    Lava,
    Bed,
    StoneSword,
    StonePickaxe,
    StoneAxe,
    StoneShovel,
    IronSword,
    IronPickaxe,
    IronAxe,
    IronShovel,
    DiamondSword,
    DiamondPickaxe,
    DiamondAxe,
    DiamondShovel,
    WoodenHoe,
    StoneHoe,
    IronHoe,
    GoldenHoe,
    DiamondHoe,
    Stick,
    Coal,
    IronIngot,
    GoldIngot,
    Diamond,
    Redstone,
    BoneMeal,
    Apple,
    Bread,
    Potato,
    BakedPotato,
    PoisonousPotato,
    GoldenApple,
    RottenFlesh,
    Bone,
    Bow,
    Gunpowder,
    Wheat,
    Seeds,
    Carrot,
    Shears,
    Bucket,
    MilkBucket,
    RawPorkchop,
    CookedPorkchop,
    RawBeef,
    CookedBeef,
    RawMutton,
    CookedMutton,
    RawChicken,
    CookedChicken,
    Wool,
    Leather,
    Feather,
    Egg,
    RedDye,
    BlueDye,
    GreenDye,
    BirchLog,
    BirchPlanks,
    BirchLeaves,
    SpruceLog,
    SprucePlanks,
    SpruceLeaves,
    TallGrass,
    Dandelion,
    Poppy,
    Cactus,
    SugarCane,
    Pumpkin,
    Melon,
    EnchantingTable,
    BrewingStand,
    Anvil,
    LapisLazuli,
    IronHelmet,
    IronChestplate,
    IronLeggings,
    IronBoots,
    GlassBottle,
    Potion,
    SplashPotion,
    NetherWart,
    Sugar,
    BlazePowder,
    GlisteringMelon,
    GhastTear,
    GoldenCarrot,
    FermentedSpiderEye,
    MagmaCream,
    Pufferfish,
    SpiderEye,
    GlowstoneDust,
    RedstoneDust,
    Arrow,
    RedstoneWire,
    RedstoneTorch,
    Repeater,
    Comparator,
    StoneButton,
    Lever,
    PressurePlate,
    Piston,
    StickyPiston,
    RedstoneLamp,
    OakDoor,
    OakTrapdoor,
    Dispenser,
    Dropper,
    NoteBlock,
    Netherrack,
    SoulSand,
    Glowstone,
    EndStone,
    EndPortalFrame,
    Purpur,
    DragonEgg,
    WitherSkeletonSkull,
    NetherBrick,
    FlintAndSteel,
    EyeOfEnder,
    Elytra,
    NetherStar,
    EndCrystal,
    BlazeRod,
    ShulkerShell,
    OakSlab,
    CobblestoneSlab,
    OakStair,
    CobblestoneStair,
    OakFence,
    OakFenceGate,
    CobblestoneWall,
    GlassPane,
    OakLadder,
    OakSign,
    WoodenSword,
    WoodenPickaxe,
    WoodenAxe,
    WoodenShovel,
    GoldenSword,
    GoldenPickaxe,
    GoldenAxe,
    GoldenShovel,
    LeatherHelmet,
    LeatherChestplate,
    LeatherLeggings,
    LeatherBoots,
    GoldenHelmet,
    GoldenChestplate,
    GoldenLeggings,
    GoldenBoots,
    DiamondHelmet,
    DiamondChestplate,
    DiamondLeggings,
    DiamondBoots,
    Shield,
    Saddle,
    Emerald,
    Book,
    Paper,
    EnchantedBook,
    Compass,
    String,
    Slimeball,
    RawCod,
    RawSalmon,
    InkSac,
    OakBoat,
    Minecart,
    Rail,
    PoweredRail,
    DetectorRail,
    ActivatorRail,
    Clock,
    MapItem,
    FishingRod,
    RawFish,
    TropicalFish,
    LilyPad,
    WaterBucket,
    LavaBucket,
    Hopper,
    Observer,
}

/// Number of item kinds; ids run from 0 to this value minus one.
pub const ITEM_COUNT: usize = 214;

/// Every item kind, in id order.
pub const ALL_ITEMS: [Item; 214] = [
    Item::Air,
    Item::Grass,
    Item::Dirt,
    Item::Stone,
    Item::Sand,
    Item::Gravel,
    Item::OakLog,
    Item::OakPlanks,
    Item::OakLeaves,
    Item::Cobblestone,
    Item::Bedrock,
    Item::Water,
    Item::CoalOre,
    Item::IronOre,
    Item::GoldOre,
    Item::DiamondOre,
    Item::RedstoneOre,
    Item::Glass,
    Item::Brick,
    Item::StoneBrick,
    Item::Snow,
    Item::Ice,
    Item::Clay,
    Item::Sandstone,
    Item::Obsidian,
    Item::CraftingTable,
    Item::Furnace,
    Item::Chest,
    Item::TNT,
    Item::Bookshelf,
    Item::Torch,
    Item::Lava,
    Item::Bed,
    Item::StoneSword,
    Item::StonePickaxe,
    Item::StoneAxe,
    Item::StoneShovel,
    Item::IronSword,
    Item::IronPickaxe,
    Item::IronAxe,
    Item::IronShovel,
    Item::DiamondSword,
    Item::DiamondPickaxe,
    Item::DiamondAxe,
    Item::DiamondShovel,
    Item::WoodenHoe,
    Item::StoneHoe,
    Item::IronHoe,
    Item::GoldenHoe,
    Item::DiamondHoe,
    Item::Stick,
    Item::Coal,
    Item::IronIngot,
    Item::GoldIngot,
    Item::Diamond,
    Item::Redstone,
    Item::BoneMeal,
    Item::Apple,
    Item::Bread,
    Item::Potato,
    Item::BakedPotato,
    Item::PoisonousPotato,
    Item::GoldenApple,
    Item::RottenFlesh,
    Item::Bone,
    Item::Bow,
    Item::Gunpowder,
    Item::Wheat,
    Item::Seeds,
    Item::Carrot,
    Item::Shears,
    Item::Bucket,
    Item::MilkBucket,
    Item::RawPorkchop,
    Item::CookedPorkchop,
    Item::RawBeef,
    Item::CookedBeef,
    Item::RawMutton,
    Item::CookedMutton,
    Item::RawChicken,
    Item::CookedChicken,
    Item::Wool,
    Item::Leather,
    Item::Feather,
    Item::Egg,
    Item::RedDye,
    Item::BlueDye,
    Item::GreenDye,
    Item::BirchLog,
    Item::BirchPlanks,
    Item::BirchLeaves,
    Item::SpruceLog,
    Item::SprucePlanks,
    Item::SpruceLeaves,
    Item::TallGrass,
    Item::Dandelion,
    Item::Poppy,
    Item::Cactus,
    Item::SugarCane,
    Item::Pumpkin,
    Item::Melon,
    Item::EnchantingTable,
    Item::BrewingStand,
    Item::Anvil,
    Item::LapisLazuli,
    Item::IronHelmet,
    Item::IronChestplate,
    Item::IronLeggings,
    Item::IronBoots,
    Item::GlassBottle,
    Item::Potion,
    Item::SplashPotion,
    Item::NetherWart,
    Item::Sugar,
    Item::BlazePowder,
    Item::GlisteringMelon,
    Item::GhastTear,
    Item::GoldenCarrot,
    Item::FermentedSpiderEye,
    Item::MagmaCream,
    Item::Pufferfish,
    Item::SpiderEye,
    Item::GlowstoneDust,
    Item::RedstoneDust,
    Item::Arrow,
    Item::RedstoneWire,
    Item::RedstoneTorch,
    Item::Repeater,
    Item::Comparator,
    Item::StoneButton,
    Item::Lever,
    Item::PressurePlate,
    Item::Piston,
    Item::StickyPiston,
    Item::RedstoneLamp,
    Item::OakDoor,
    Item::OakTrapdoor,
    Item::Dispenser,
    Item::Dropper,
    Item::NoteBlock,
    Item::Netherrack,
    Item::SoulSand,
    Item::Glowstone,
    Item::EndStone,
    Item::EndPortalFrame,
    Item::Purpur,
    Item::DragonEgg,
    Item::WitherSkeletonSkull,
    Item::NetherBrick,
    Item::FlintAndSteel,
    Item::EyeOfEnder,
    Item::Elytra,
    Item::NetherStar,
    Item::EndCrystal,
    Item::BlazeRod,
    Item::ShulkerShell,
    Item::OakSlab,
    Item::CobblestoneSlab,
    Item::OakStair,
    Item::CobblestoneStair,
    Item::OakFence,
    Item::OakFenceGate,
    Item::CobblestoneWall,
    Item::GlassPane,
    Item::OakLadder,
    Item::OakSign,
    Item::WoodenSword,
    Item::WoodenPickaxe,
    Item::WoodenAxe,
    Item::WoodenShovel,
    Item::GoldenSword,
    Item::GoldenPickaxe,
    Item::GoldenAxe,
    Item::GoldenShovel,
    Item::LeatherHelmet,
    Item::LeatherChestplate,
    Item::LeatherLeggings,
    Item::LeatherBoots,
    Item::GoldenHelmet,
    Item::GoldenChestplate,
    Item::GoldenLeggings,
    Item::GoldenBoots,
    Item::DiamondHelmet,
    Item::DiamondChestplate,
    Item::DiamondLeggings,
    Item::DiamondBoots,
    Item::Shield,
    Item::Saddle,
    Item::Emerald,
    Item::Book,
    Item::Paper,
    Item::EnchantedBook,
    Item::Compass,
    Item::String,
    Item::Slimeball,
    Item::RawCod,
    Item::RawSalmon,
    Item::InkSac,
    Item::OakBoat,
    Item::Minecart,
    Item::Rail,
    Item::PoweredRail,
    Item::DetectorRail,
    Item::ActivatorRail,
    Item::Clock,
    Item::MapItem,
    Item::FishingRod,
    Item::RawFish,
    Item::TropicalFish,
    Item::LilyPad,
    Item::WaterBucket,
    Item::LavaBucket,
    Item::Hopper,
    Item::Observer,
];

pub const CREATIVE_COLUMNS: usize = 9;
pub const CREATIVE_ROWS: usize = 5;
pub const CREATIVE_VISIBLE_SLOTS: usize = 45;

/// The creative catalog, in display order.
pub const CREATIVE_ITEMS: [Item; 154] = [
    Item::Grass,
    Item::Dirt,
    Item::Stone,
    Item::Sand,
    Item::Gravel,
    Item::OakLog,
    Item::OakPlanks,
    Item::OakLeaves,
    Item::Cobblestone,
    Item::Bedrock,
    Item::Water,
    Item::CoalOre,
    Item::IronOre,
    Item::GoldOre,
    Item::DiamondOre,
    Item::RedstoneOre,
    Item::Glass,
    Item::Brick,
    Item::StoneBrick,
    Item::Snow,
    Item::Ice,
    Item::Clay,
    Item::Sandstone,
    Item::Obsidian,
    Item::CraftingTable,
    Item::Furnace,
    Item::Chest,
    Item::TNT,
    Item::Bookshelf,
    Item::Torch,
    Item::Lava,
    Item::StoneSword,
    Item::StonePickaxe,
    Item::StoneAxe,
    Item::StoneShovel,
    Item::IronSword,
    Item::IronPickaxe,
    Item::IronAxe,
    Item::IronShovel,
    Item::DiamondSword,
    Item::DiamondPickaxe,
    Item::DiamondAxe,
    Item::DiamondShovel,
    Item::Stick,
    Item::Coal,
    Item::IronIngot,
    Item::GoldIngot,
    Item::Diamond,
    Item::Redstone,
    Item::Apple,
    Item::Bread,
    Item::RottenFlesh,
    Item::Bone,
    Item::Bow,
    Item::Gunpowder,
    Item::Wheat,
    Item::Seeds,
    Item::Carrot,
    Item::Shears,
    Item::Bucket,
    Item::MilkBucket,
    Item::RawPorkchop,
    Item::CookedPorkchop,
    Item::RawBeef,
    Item::CookedBeef,
    Item::RawMutton,
    Item::CookedMutton,
    Item::RawChicken,
    Item::CookedChicken,
    Item::Wool,
    Item::Leather,
    Item::Feather,
    Item::Egg,
    Item::RedDye,
    Item::BlueDye,
    Item::GreenDye,
    Item::BirchLog,
    Item::BirchPlanks,
    Item::BirchLeaves,
    Item::SpruceLog,
    Item::SprucePlanks,
    Item::SpruceLeaves,
    Item::TallGrass,
    Item::Dandelion,
    Item::Poppy,
    Item::Cactus,
    Item::SugarCane,
    Item::Pumpkin,
    Item::Melon,
    Item::EnchantingTable,
    Item::BrewingStand,
    Item::Anvil,
    Item::LapisLazuli,
    Item::IronHelmet,
    Item::IronChestplate,
    Item::IronLeggings,
    Item::IronBoots,
    Item::GlassBottle,
    Item::Potion,
    Item::SplashPotion,
    Item::NetherWart,
    Item::Sugar,
    Item::BlazePowder,
    Item::GlisteringMelon,
    Item::GhastTear,
    Item::GoldenCarrot,
    Item::FermentedSpiderEye,
    Item::MagmaCream,
    Item::Pufferfish,
    Item::SpiderEye,
    Item::GlowstoneDust,
    Item::RedstoneDust,
    Item::Arrow,
    Item::RedstoneWire,
    Item::RedstoneTorch,
    Item::Repeater,
    Item::Comparator,
    Item::StoneButton,
    Item::Lever,
    Item::PressurePlate,
    Item::Piston,
    Item::StickyPiston,
    Item::RedstoneLamp,
    Item::OakDoor,
    Item::OakTrapdoor,
    Item::Dispenser,
    Item::Dropper,
    Item::NoteBlock,
    Item::Netherrack,
    Item::SoulSand,
    Item::Glowstone,
    Item::EndStone,
    Item::EndPortalFrame,
    Item::Purpur,
    Item::DragonEgg,
    Item::WitherSkeletonSkull,
    Item::NetherBrick,
    Item::FlintAndSteel,
    Item::EyeOfEnder,
    Item::Elytra,
    Item::NetherStar,
    Item::EndCrystal,
    Item::BlazeRod,
    Item::ShulkerShell,
    Item::OakSlab,
    Item::CobblestoneSlab,
    Item::OakStair,
    Item::CobblestoneStair,
    Item::OakFence,
    Item::OakFenceGate,
    Item::CobblestoneWall,
    Item::GlassPane,
    Item::OakLadder,
    Item::OakSign,
];

/// A tab of the creative catalog.
#[derive(Debug, Clone, Copy, PartialEq, Eq, Hash, Structural)]
pub enum CreativeTab {
    All,
    Blocks,
    Tools,
    Combat,
    FoodAndBrewing,
    Redstone,
    Misc,
}

impl CreativeTab {
    pub const TABS: [CreativeTab; 7] = [
        CreativeTab::All,
        CreativeTab::Blocks,
        CreativeTab::Tools,
        CreativeTab::Combat,
        CreativeTab::FoodAndBrewing,
        CreativeTab::Redstone,
        CreativeTab::Misc,
    ];

    pub open spec fn spec_label(self) -> Seq<char> {
        match self {
            CreativeTab::All => "ALL"@,
            CreativeTab::Blocks => "BLOCKS"@,
            CreativeTab::Tools => "TOOLS"@,
            CreativeTab::Combat => "COMBAT"@,
            CreativeTab::FoodAndBrewing => "FOOD+BREW"@,
            CreativeTab::Redstone => "REDSTONE"@,
            CreativeTab::Misc => "MISC"@,
        }
    }

    /// Caption shown on the tab.
    pub fn label(self) -> (r: &'static str)
        ensures
            r@ == self.spec_label(),
    {
        match self {
            CreativeTab::All => "ALL",
            CreativeTab::Blocks => "BLOCKS",
            CreativeTab::Tools => "TOOLS",
            CreativeTab::Combat => "COMBAT",
            CreativeTab::FoodAndBrewing => "FOOD+BREW",
            CreativeTab::Redstone => "REDSTONE",
            CreativeTab::Misc => "MISC",
        }
    }
}

#[derive(Debug, Clone, Copy, PartialEq, Eq, Structural)]
pub enum ToolType {
    NoTool,
    Pickaxe,
    Axe,
    Shovel,
    Sword,
    Hoe,
}

#[derive(Debug, Clone, Copy, PartialEq, Eq, PartialOrd, Ord, Structural)]
pub enum ToolMaterial {
    Wood,
    Stone,
    Iron,
    Gold,
    Diamond,
}

#[derive(Debug, Clone, Copy, PartialEq, Eq, Hash, Structural)]
pub enum ArmorSlot {
    Helmet,
    Chestplate,
    Leggings,
    Boots,
}

/// The integer part of a tool's properties.
#[derive(Debug, Clone, Copy, PartialEq, Eq, Structural)]
pub struct ToolInfo {
    pub tool_type: ToolType,
    pub material: ToolMaterial,
    pub durability: u32,
}

/// The integer part of an armor piece's properties.
#[derive(Debug, Clone, Copy, PartialEq, Eq, Structural)]
pub struct ArmorInfo {
    pub slot: ArmorSlot,
    pub durability: u32,
}

/// One row of the item table.
#[derive(Debug, Clone, Copy, PartialEq, Eq)]
pub struct ItemDef {
    pub max_stack: u32,
    pub is_block: bool,
    pub block_type: Option<BlockType>,
    pub tex_coords: (u32, u32),
    pub creative_tab: Option<CreativeTab>,
    pub tool: Option<ToolInfo>,
    pub armor: Option<ArmorInfo>,
}

/// The properties of an item kind that the inventory and renderer read.
#[derive(Debug, Clone, Copy)]
pub struct ItemProperties {
    pub name: &'static str,
    pub max_stack: u32,
    pub is_block: bool,
    pub block_type: Option<BlockType>,
    /// (column, row) in the texture atlas.
    pub tex_coords: (u32, u32),
}

impl Item {
    pub open spec fn spec_to_u32(self) -> u32 {
        match self {
            Item::Air => 0,
            Item::Grass => 1,
            Item::Dirt => 2,
            Item::Stone => 3,
            Item::Sand => 4,
            Item::Gravel => 5,
            Item::OakLog => 6,
            Item::OakPlanks => 7,
            Item::OakLeaves => 8,
            Item::Cobblestone => 9,
            Item::Bedrock => 10,
            Item::Water => 11,
            Item::CoalOre => 12,
            Item::IronOre => 13,
            Item::GoldOre => 14,
            Item::DiamondOre => 15,
            Item::RedstoneOre => 16,
            Item::Glass => 17,
            Item::Brick => 18,
            Item::StoneBrick => 19,
            Item::Snow => 20,
            Item::Ice => 21,
            Item::Clay => 22,
            Item::Sandstone => 23,
            Item::Obsidian => 24,
            Item::CraftingTable => 25,
            Item::Furnace => 26,
            Item::Chest => 27,
            Item::TNT => 28,
            Item::Bookshelf => 29,
            Item::Torch => 30,
            Item::Lava => 31,
            Item::Bed => 32,
            Item::StoneSword => 33,
            Item::StonePickaxe => 34,
            Item::StoneAxe => 35,
            Item::StoneShovel => 36,
            Item::IronSword => 37,
            Item::IronPickaxe => 38,
            Item::IronAxe => 39,
            Item::IronShovel => 40,
            Item::DiamondSword => 41,
            Item::DiamondPickaxe => 42,
            Item::DiamondAxe => 43,
            Item::DiamondShovel => 44,
            Item::WoodenHoe => 45,
            Item::StoneHoe => 46,
            Item::IronHoe => 47,
            Item::GoldenHoe => 48,
            Item::DiamondHoe => 49,
            Item::Stick => 50,
            Item::Coal => 51,
            Item::IronIngot => 52,
            Item::GoldIngot => 53,
            Item::Diamond => 54,
            Item::Redstone => 55,
            Item::BoneMeal => 56,
            Item::Apple => 57,
            Item::Bread => 58,
            Item::Potato => 59,
            Item::BakedPotato => 60,
            Item::PoisonousPotato => 61,
            Item::GoldenApple => 62,
            Item::RottenFlesh => 63,
            Item::Bone => 64,
            Item::Bow => 65,
            Item::Gunpowder => 66,
            Item::Wheat => 67,
            Item::Seeds => 68,
            Item::Carrot => 69,
            Item::Shears => 70,
            Item::Bucket => 71,
            Item::MilkBucket => 72,
            Item::RawPorkchop => 73,
            Item::CookedPorkchop => 74,
            Item::RawBeef => 75,
            Item::CookedBeef => 76,
            Item::RawMutton => 77,
            Item::CookedMutton => 78,
            Item::RawChicken => 79,
            Item::CookedChicken => 80,
            Item::Wool => 81,
            Item::Leather => 82,
            Item::Feather => 83,
            Item::Egg => 84,
            Item::RedDye => 85,
            Item::BlueDye => 86,
            Item::GreenDye => 87,
            Item::BirchLog => 88,
            Item::BirchPlanks => 89,
            Item::BirchLeaves => 90,
            Item::SpruceLog => 91,
            Item::SprucePlanks => 92,
            Item::SpruceLeaves => 93,
            Item::TallGrass => 94,
            Item::Dandelion => 95,
            Item::Poppy => 96,
            Item::Cactus => 97,
            Item::SugarCane => 98,
            Item::Pumpkin => 99,
            Item::Melon => 100,
            Item::EnchantingTable => 101,
            Item::BrewingStand => 102,
            Item::Anvil => 103,
            Item::LapisLazuli => 104,
            Item::IronHelmet => 105,
            Item::IronChestplate => 106,
            Item::IronLeggings => 107,
            Item::IronBoots => 108,
            Item::GlassBottle => 109,
            Item::Potion => 110,
            Item::SplashPotion => 111,
            Item::NetherWart => 112,
            Item::Sugar => 113,
            Item::BlazePowder => 114,
            Item::GlisteringMelon => 115,
            Item::GhastTear => 116,
            Item::GoldenCarrot => 117,
            Item::FermentedSpiderEye => 118,
            Item::MagmaCream => 119,
            Item::Pufferfish => 120,
            Item::SpiderEye => 121,
            Item::GlowstoneDust => 122,
            Item::RedstoneDust => 123,
            Item::Arrow => 124,
            Item::RedstoneWire => 125,
            Item::RedstoneTorch => 126,
            Item::Repeater => 127,
            Item::Comparator => 128,
            Item::StoneButton => 129,
            Item::Lever => 130,
            Item::PressurePlate => 131,
            Item::Piston => 132,
            Item::StickyPiston => 133,
            Item::RedstoneLamp => 134,
            Item::OakDoor => 135,
            Item::OakTrapdoor => 136,
            Item::Dispenser => 137,
            Item::Dropper => 138,
            Item::NoteBlock => 139,
            Item::Netherrack => 140,
            Item::SoulSand => 141,
            Item::Glowstone => 142,
            Item::EndStone => 143,
            Item::EndPortalFrame => 144,
            Item::Purpur => 145,
            Item::DragonEgg => 146,
            Item::WitherSkeletonSkull => 147,
            Item::NetherBrick => 148,
            Item::FlintAndSteel => 149,
            Item::EyeOfEnder => 150,
            Item::Elytra => 151,
            Item::NetherStar => 152,
            Item::EndCrystal => 153,
            Item::BlazeRod => 154,
            Item::ShulkerShell => 155,
            Item::OakSlab => 156,
            Item::CobblestoneSlab => 157,
            Item::OakStair => 158,
            Item::CobblestoneStair => 159,
            Item::OakFence => 160,
            Item::OakFenceGate => 161,
            Item::CobblestoneWall => 162,
            Item::GlassPane => 163,
            Item::OakLadder => 164,
            Item::OakSign => 165,
            Item::WoodenSword => 166,
            Item::WoodenPickaxe => 167,
            Item::WoodenAxe => 168,
            Item::WoodenShovel => 169,
            Item::GoldenSword => 170,
            Item::GoldenPickaxe => 171,
            Item::GoldenAxe => 172,
            Item::GoldenShovel => 173,
            Item::LeatherHelmet => 174,
            Item::LeatherChestplate => 175,
            Item::LeatherLeggings => 176,
            Item::LeatherBoots => 177,
            Item::GoldenHelmet => 178,
            Item::GoldenChestplate => 179,
            Item::GoldenLeggings => 180,
            Item::GoldenBoots => 181,
            Item::DiamondHelmet => 182,
            Item::DiamondChestplate => 183,
            Item::DiamondLeggings => 184,
            Item::DiamondBoots => 185,
            Item::Shield => 186,
            Item::Saddle => 187,
            Item::Emerald => 188,
            Item::Book => 189,
            Item::Paper => 190,
            Item::EnchantedBook => 191,
            Item::Compass => 192,
            Item::String => 193,
            Item::Slimeball => 194,
            Item::RawCod => 195,
            Item::RawSalmon => 196,
            Item::InkSac => 197,
            Item::OakBoat => 198,
            Item::Minecart => 199,
            Item::Rail => 200,
            Item::PoweredRail => 201,
            Item::DetectorRail => 202,
            Item::ActivatorRail => 203,
            Item::Clock => 204,
            Item::MapItem => 205,
            Item::FishingRod => 206,
            Item::RawFish => 207,
            Item::TropicalFish => 208,
            Item::LilyPad => 209,
            Item::WaterBucket => 210,
            Item::LavaBucket => 211,
            Item::Hopper => 212,
            Item::Observer => 213,
        }
    }

    /// The numeric id of this kind.
    #[verifier::when_used_as_spec(spec_to_u32)]
    pub fn to_u32(self) -> (r: u32)
        ensures
            r == self.spec_to_u32(),
    {
        match self {
            Item::Air => 0,
            Item::Grass => 1,
            Item::Dirt => 2,
            Item::Stone => 3,
            Item::Sand => 4,
            Item::Gravel => 5,
            Item::OakLog => 6,
            Item::OakPlanks => 7,
            Item::OakLeaves => 8,
            Item::Cobblestone => 9,
            Item::Bedrock => 10,
            Item::Water => 11,
            Item::CoalOre => 12,
            Item::IronOre => 13,
            Item::GoldOre => 14,
            Item::DiamondOre => 15,
            Item::RedstoneOre => 16,
            Item::Glass => 17,
            Item::Brick => 18,
            Item::StoneBrick => 19,
            Item::Snow => 20,
            Item::Ice => 21,
            Item::Clay => 22,
            Item::Sandstone => 23,
            Item::Obsidian => 24,
            Item::CraftingTable => 25,
            Item::Furnace => 26,
            Item::Chest => 27,
            Item::TNT => 28,
            Item::Bookshelf => 29,
            Item::Torch => 30,
            Item::Lava => 31,
            Item::Bed => 32,
            Item::StoneSword => 33,
            Item::StonePickaxe => 34,
            Item::StoneAxe => 35,
            Item::StoneShovel => 36,
            Item::IronSword => 37,
            Item::IronPickaxe => 38,
            Item::IronAxe => 39,
            Item::IronShovel => 40,
            Item::DiamondSword => 41,
            Item::DiamondPickaxe => 42,
            Item::DiamondAxe => 43,
            Item::DiamondShovel => 44,
            Item::WoodenHoe => 45,
            Item::StoneHoe => 46,
            Item::IronHoe => 47,
            Item::GoldenHoe => 48,
            Item::DiamondHoe => 49,
            Item::Stick => 50,
            Item::Coal => 51,
            Item::IronIngot => 52,
            Item::GoldIngot => 53,
            Item::Diamond => 54,
            Item::Redstone => 55,
            Item::BoneMeal => 56,
            Item::Apple => 57,
            Item::Bread => 58,
            Item::Potato => 59,
            Item::BakedPotato => 60,
            Item::PoisonousPotato => 61,
            Item::GoldenApple => 62,
            Item::RottenFlesh => 63,
            Item::Bone => 64,
            Item::Bow => 65,
            Item::Gunpowder => 66,
            Item::Wheat => 67,
            Item::Seeds => 68,
            Item::Carrot => 69,
            Item::Shears => 70,
            Item::Bucket => 71,
            Item::MilkBucket => 72,
            Item::RawPorkchop => 73,
            Item::CookedPorkchop => 74,
            Item::RawBeef => 75,
            Item::CookedBeef => 76,
            Item::RawMutton => 77,
            Item::CookedMutton => 78,
            Item::RawChicken => 79,
            Item::CookedChicken => 80,
            Item::Wool => 81,
            Item::Leather => 82,
            Item::Feather => 83,
            Item::Egg => 84,
            Item::RedDye => 85,
            Item::BlueDye => 86,
            Item::GreenDye => 87,
            Item::BirchLog => 88,
            Item::BirchPlanks => 89,
            Item::BirchLeaves => 90,
            Item::SpruceLog => 91,
            Item::SprucePlanks => 92,
            Item::SpruceLeaves => 93,
            Item::TallGrass => 94,
            Item::Dandelion => 95,
            Item::Poppy => 96,
            Item::Cactus => 97,
            Item::SugarCane => 98,
            Item::Pumpkin => 99,
            Item::Melon => 100,
            Item::EnchantingTable => 101,
            Item::BrewingStand => 102,
            Item::Anvil => 103,
            Item::LapisLazuli => 104,
            Item::IronHelmet => 105,
            Item::IronChestplate => 106,
            Item::IronLeggings => 107,
            Item::IronBoots => 108,
            Item::GlassBottle => 109,
            Item::Potion => 110,
            Item::SplashPotion => 111,
            Item::NetherWart => 112,
            Item::Sugar => 113,
            Item::BlazePowder => 114,
            Item::GlisteringMelon => 115,
            Item::GhastTear => 116,
            Item::GoldenCarrot => 117,
            Item::FermentedSpiderEye => 118,
            Item::MagmaCream => 119,
            Item::Pufferfish => 120,
            Item::SpiderEye => 121,
            Item::GlowstoneDust => 122,
            Item::RedstoneDust => 123,
            Item::Arrow => 124,
            Item::RedstoneWire => 125,
            Item::RedstoneTorch => 126,
            Item::Repeater => 127,
            Item::Comparator => 128,
            Item::StoneButton => 129,
            Item::Lever => 130,
            Item::PressurePlate => 131,
            Item::Piston => 132,
            Item::StickyPiston => 133,
            Item::RedstoneLamp => 134,
            Item::OakDoor => 135,
            Item::OakTrapdoor => 136,
            Item::Dispenser => 137,
            Item::Dropper => 138,
            Item::NoteBlock => 139,
            Item::Netherrack => 140,
            Item::SoulSand => 141,
            Item::Glowstone => 142,
            Item::EndStone => 143,
            Item::EndPortalFrame => 144,
            Item::Purpur => 145,
            Item::DragonEgg => 146,
            Item::WitherSkeletonSkull => 147,
            Item::NetherBrick => 148,
            Item::FlintAndSteel => 149,
            Item::EyeOfEnder => 150,
            Item::Elytra => 151,
            Item::NetherStar => 152,
            Item::EndCrystal => 153,
            Item::BlazeRod => 154,
            Item::ShulkerShell => 155,
            Item::OakSlab => 156,
            Item::CobblestoneSlab => 157,
            Item::OakStair => 158,
            Item::CobblestoneStair => 159,
            Item::OakFence => 160,
            Item::OakFenceGate => 161,
            Item::CobblestoneWall => 162,
            Item::GlassPane => 163,
            Item::OakLadder => 164,
            Item::OakSign => 165,
            Item::WoodenSword => 166,
            Item::WoodenPickaxe => 167,
            Item::WoodenAxe => 168,
            Item::WoodenShovel => 169,
            Item::GoldenSword => 170,
            Item::GoldenPickaxe => 171,
            Item::GoldenAxe => 172,
            Item::GoldenShovel => 173,
            Item::LeatherHelmet => 174,
            Item::LeatherChestplate => 175,
            Item::LeatherLeggings => 176,
            Item::LeatherBoots => 177,
            Item::GoldenHelmet => 178,
            Item::GoldenChestplate => 179,
            Item::GoldenLeggings => 180,
            Item::GoldenBoots => 181,
            Item::DiamondHelmet => 182,
            Item::DiamondChestplate => 183,
            Item::DiamondLeggings => 184,
            Item::DiamondBoots => 185,
            Item::Shield => 186,
            Item::Saddle => 187,
            Item::Emerald => 188,
            Item::Book => 189,
            Item::Paper => 190,
            Item::EnchantedBook => 191,
            Item::Compass => 192,
            Item::String => 193,
            Item::Slimeball => 194,
            Item::RawCod => 195,
            Item::RawSalmon => 196,
            Item::InkSac => 197,
            Item::OakBoat => 198,
            Item::Minecart => 199,
            Item::Rail => 200,
            Item::PoweredRail => 201,
            Item::DetectorRail => 202,
            Item::ActivatorRail => 203,
            Item::Clock => 204,
            Item::MapItem => 205,
            Item::FishingRod => 206,
            Item::RawFish => 207,
            Item::TropicalFish => 208,
            Item::LilyPad => 209,
            Item::WaterBucket => 210,
            Item::LavaBucket => 211,
            Item::Hopper => 212,
            Item::Observer => 213,
        }
    }

    pub open spec fn spec_from_u32(val: u32) -> Option<Item> {
        match val {
            0u32 => Some(Item::Air),
            1u32 => Some(Item::Grass),
            2u32 => Some(Item::Dirt),
            3u32 => Some(Item::Stone),
            4u32 => Some(Item::Sand),
            5u32 => Some(Item::Gravel),
            6u32 => Some(Item::OakLog),
            7u32 => Some(Item::OakPlanks),
            8u32 => Some(Item::OakLeaves),
            9u32 => Some(Item::Cobblestone),
            10u32 => Some(Item::Bedrock),
            11u32 => Some(Item::Water),
            12u32 => Some(Item::CoalOre),
            13u32 => Some(Item::IronOre),
            14u32 => Some(Item::GoldOre),
            15u32 => Some(Item::DiamondOre),
            16u32 => Some(Item::RedstoneOre),
            17u32 => Some(Item::Glass),
            18u32 => Some(Item::Brick),
            19u32 => Some(Item::StoneBrick),
            20u32 => Some(Item::Snow),
            21u32 => Some(Item::Ice),
            22u32 => Some(Item::Clay),
            23u32 => Some(Item::Sandstone),
            24u32 => Some(Item::Obsidian),
            25u32 => Some(Item::CraftingTable),
            26u32 => Some(Item::Furnace),
            27u32 => Some(Item::Chest),
            28u32 => Some(Item::TNT),
            29u32 => Some(Item::Bookshelf),
            30u32 => Some(Item::Torch),
            31u32 => Some(Item::Lava),
            32u32 => Some(Item::Bed),
            33u32 => Some(Item::StoneSword),
            34u32 => Some(Item::StonePickaxe),
            35u32 => Some(Item::StoneAxe),
            36u32 => Some(Item::StoneShovel),
            37u32 => Some(Item::IronSword),
            38u32 => Some(Item::IronPickaxe),
            39u32 => Some(Item::IronAxe),
            40u32 => Some(Item::IronShovel),
            41u32 => Some(Item::DiamondSword),
            42u32 => Some(Item::DiamondPickaxe),
            43u32 => Some(Item::DiamondAxe),
            44u32 => Some(Item::DiamondShovel),
            45u32 => Some(Item::WoodenHoe),
            46u32 => Some(Item::StoneHoe),
            47u32 => Some(Item::IronHoe),
            48u32 => Some(Item::GoldenHoe),
            49u32 => Some(Item::DiamondHoe),
            50u32 => Some(Item::Stick),
            51u32 => Some(Item::Coal),
            52u32 => Some(Item::IronIngot),
            53u32 => Some(Item::GoldIngot),
            54u32 => Some(Item::Diamond),
            55u32 => Some(Item::Redstone),
            56u32 => Some(Item::BoneMeal),
            57u32 => Some(Item::Apple),
            58u32 => Some(Item::Bread),
            59u32 => Some(Item::Potato),
            60u32 => Some(Item::BakedPotato),
            61u32 => Some(Item::PoisonousPotato),
            62u32 => Some(Item::GoldenApple),
            63u32 => Some(Item::RottenFlesh),
            64u32 => Some(Item::Bone),
            65u32 => Some(Item::Bow),
            66u32 => Some(Item::Gunpowder),
            67u32 => Some(Item::Wheat),
            68u32 => Some(Item::Seeds),
            69u32 => Some(Item::Carrot),
            70u32 => Some(Item::Shears),
            71u32 => Some(Item::Bucket),
            72u32 => Some(Item::MilkBucket),
            73u32 => Some(Item::RawPorkchop),
            74u32 => Some(Item::CookedPorkchop),
            75u32 => Some(Item::RawBeef),
            76u32 => Some(Item::CookedBeef),
            77u32 => Some(Item::RawMutton),
            78u32 => Some(Item::CookedMutton),
            79u32 => Some(Item::RawChicken),
            80u32 => Some(Item::CookedChicken),
            81u32 => Some(Item::Wool),
            82u32 => Some(Item::Leather),
            83u32 => Some(Item::Feather),
            84u32 => Some(Item::Egg),
            85u32 => Some(Item::RedDye),
            86u32 => Some(Item::BlueDye),
            87u32 => Some(Item::GreenDye),
            88u32 => Some(Item::BirchLog),
            89u32 => Some(Item::BirchPlanks),
            90u32 => Some(Item::BirchLeaves),
            91u32 => Some(Item::SpruceLog),
            92u32 => Some(Item::SprucePlanks),
            93u32 => Some(Item::SpruceLeaves),
            94u32 => Some(Item::TallGrass),
            95u32 => Some(Item::Dandelion),
            96u32 => Some(Item::Poppy),
            97u32 => Some(Item::Cactus),
            98u32 => Some(Item::SugarCane),
            99u32 => Some(Item::Pumpkin),
            100u32 => Some(Item::Melon),
            101u32 => Some(Item::EnchantingTable),
            102u32 => Some(Item::BrewingStand),
            103u32 => Some(Item::Anvil),
            104u32 => Some(Item::LapisLazuli),
            105u32 => Some(Item::IronHelmet),
            106u32 => Some(Item::IronChestplate),
            107u32 => Some(Item::IronLeggings),
            108u32 => Some(Item::IronBoots),
            109u32 => Some(Item::GlassBottle),
            110u32 => Some(Item::Potion),
            111u32 => Some(Item::SplashPotion),
            112u32 => Some(Item::NetherWart),
            113u32 => Some(Item::Sugar),
            114u32 => Some(Item::BlazePowder),
            115u32 => Some(Item::GlisteringMelon),
            116u32 => Some(Item::GhastTear),
            117u32 => Some(Item::GoldenCarrot),
            118u32 => Some(Item::FermentedSpiderEye),
            119u32 => Some(Item::MagmaCream),
            120u32 => Some(Item::Pufferfish),
            121u32 => Some(Item::SpiderEye),
            122u32 => Some(Item::GlowstoneDust),
            123u32 => Some(Item::RedstoneDust),
            124u32 => Some(Item::Arrow),
            125u32 => Some(Item::RedstoneWire),
            126u32 => Some(Item::RedstoneTorch),
            127u32 => Some(Item::Repeater),
            128u32 => Some(Item::Comparator),
            129u32 => Some(Item::StoneButton),
            130u32 => Some(Item::Lever),
            131u32 => Some(Item::PressurePlate),
            132u32 => Some(Item::Piston),
            133u32 => Some(Item::StickyPiston),
            134u32 => Some(Item::RedstoneLamp),
            135u32 => Some(Item::OakDoor),
            136u32 => Some(Item::OakTrapdoor),
            137u32 => Some(Item::Dispenser),
            138u32 => Some(Item::Dropper),
            139u32 => Some(Item::NoteBlock),
            140u32 => Some(Item::Netherrack),
            141u32 => Some(Item::SoulSand),
            142u32 => Some(Item::Glowstone),
            143u32 => Some(Item::EndStone),
            144u32 => Some(Item::EndPortalFrame),
            145u32 => Some(Item::Purpur),
            146u32 => Some(Item::DragonEgg),
            147u32 => Some(Item::WitherSkeletonSkull),
            148u32 => Some(Item::NetherBrick),
            149u32 => Some(Item::FlintAndSteel),
            150u32 => Some(Item::EyeOfEnder),
            151u32 => Some(Item::Elytra),
            152u32 => Some(Item::NetherStar),
            153u32 => Some(Item::EndCrystal),
            154u32 => Some(Item::BlazeRod),
            155u32 => Some(Item::ShulkerShell),
            156u32 => Some(Item::OakSlab),
            157u32 => Some(Item::CobblestoneSlab),
            158u32 => Some(Item::OakStair),
            159u32 => Some(Item::CobblestoneStair),
            160u32 => Some(Item::OakFence),
            161u32 => Some(Item::OakFenceGate),
            162u32 => Some(Item::CobblestoneWall),
            163u32 => Some(Item::GlassPane),
            164u32 => Some(Item::OakLadder),
            165u32 => Some(Item::OakSign),
            166u32 => Some(Item::WoodenSword),
            167u32 => Some(Item::WoodenPickaxe),
            168u32 => Some(Item::WoodenAxe),
            169u32 => Some(Item::WoodenShovel),
            170u32 => Some(Item::GoldenSword),
            171u32 => Some(Item::GoldenPickaxe),
            172u32 => Some(Item::GoldenAxe),
            173u32 => Some(Item::GoldenShovel),
            174u32 => Some(Item::LeatherHelmet),
            175u32 => Some(Item::LeatherChestplate),
            176u32 => Some(Item::LeatherLeggings),
            177u32 => Some(Item::LeatherBoots),
            178u32 => Some(Item::GoldenHelmet),
            179u32 => Some(Item::GoldenChestplate),
            180u32 => Some(Item::GoldenLeggings),
            181u32 => Some(Item::GoldenBoots),
            182u32 => Some(Item::DiamondHelmet),
            183u32 => Some(Item::DiamondChestplate),
            184u32 => Some(Item::DiamondLeggings),
            185u32 => Some(Item::DiamondBoots),
            186u32 => Some(Item::Shield),
            187u32 => Some(Item::Saddle),
            188u32 => Some(Item::Emerald),
            189u32 => Some(Item::Book),
            190u32 => Some(Item::Paper),
            191u32 => Some(Item::EnchantedBook),
            192u32 => Some(Item::Compass),
            193u32 => Some(Item::String),
            194u32 => Some(Item::Slimeball),
            195u32 => Some(Item::RawCod),
            196u32 => Some(Item::RawSalmon),
            197u32 => Some(Item::InkSac),
            198u32 => Some(Item::OakBoat),
            199u32 => Some(Item::Minecart),
            200u32 => Some(Item::Rail),
            201u32 => Some(Item::PoweredRail),
            202u32 => Some(Item::DetectorRail),
            203u32 => Some(Item::ActivatorRail),
            204u32 => Some(Item::Clock),
            205u32 => Some(Item::MapItem),
            206u32 => Some(Item::FishingRod),
            207u32 => Some(Item::RawFish),
            208u32 => Some(Item::TropicalFish),
            209u32 => Some(Item::LilyPad),
            210u32 => Some(Item::WaterBucket),
            211u32 => Some(Item::LavaBucket),
            212u32 => Some(Item::Hopper),
            213u32 => Some(Item::Observer),
            _ => None,
        }
    }

    /// The kind with the given id, if there is one.
    pub fn from_u32(val: u32) -> (r: Option<Item>)
        ensures
            r == Self::spec_from_u32(val),
    {
        match val {
            0u32 => Some(Item::Air),
            1u32 => Some(Item::Grass),
            2u32 => Some(Item::Dirt),
            3u32 => Some(Item::Stone),
            4u32 => Some(Item::Sand),
            5u32 => Some(Item::Gravel),
            6u32 => Some(Item::OakLog),
            7u32 => Some(Item::OakPlanks),
            8u32 => Some(Item::OakLeaves),
            9u32 => Some(Item::Cobblestone),
            10u32 => Some(Item::Bedrock),
            11u32 => Some(Item::Water),
            12u32 => Some(Item::CoalOre),
            13u32 => Some(Item::IronOre),
            14u32 => Some(Item::GoldOre),
            15u32 => Some(Item::DiamondOre),
            16u32 => Some(Item::RedstoneOre),
            17u32 => Some(Item::Glass),
            18u32 => Some(Item::Brick),
            19u32 => Some(Item::StoneBrick),
            20u32 => Some(Item::Snow),
            21u32 => Some(Item::Ice),
            22u32 => Some(Item::Clay),
            23u32 => Some(Item::Sandstone),
            24u32 => Some(Item::Obsidian),
            25u32 => Some(Item::CraftingTable),
            26u32 => Some(Item::Furnace),
            27u32 => Some(Item::Chest),
            28u32 => Some(Item::TNT),
            29u32 => Some(Item::Bookshelf),
            30u32 => Some(Item::Torch),
            31u32 => Some(Item::Lava),
            32u32 => Some(Item::Bed),
            33u32 => Some(Item::StoneSword),
            34u32 => Some(Item::StonePickaxe),
            35u32 => Some(Item::StoneAxe),
            36u32 => Some(Item::StoneShovel),
            37u32 => Some(Item::IronSword),
            38u32 => Some(Item::IronPickaxe),
            39u32 => Some(Item::IronAxe),
            40u32 => Some(Item::IronShovel),
            41u32 => Some(Item::DiamondSword),
            42u32 => Some(Item::DiamondPickaxe),
            43u32 => Some(Item::DiamondAxe),
            44u32 => Some(Item::DiamondShovel),
            45u32 => Some(Item::WoodenHoe),
            46u32 => Some(Item::StoneHoe),
            47u32 => Some(Item::IronHoe),
            48u32 => Some(Item::GoldenHoe),
            49u32 => Some(Item::DiamondHoe),
            50u32 => Some(Item::Stick),
            51u32 => Some(Item::Coal),
            52u32 => Some(Item::IronIngot),
            53u32 => Some(Item::GoldIngot),
            54u32 => Some(Item::Diamond),
            55u32 => Some(Item::Redstone),
            56u32 => Some(Item::BoneMeal),
            57u32 => Some(Item::Apple),
            58u32 => Some(Item::Bread),
            59u32 => Some(Item::Potato),
            60u32 => Some(Item::BakedPotato),
            61u32 => Some(Item::PoisonousPotato),
            62u32 => Some(Item::GoldenApple),
            63u32 => Some(Item::RottenFlesh),
            64u32 => Some(Item::Bone),
            65u32 => Some(Item::Bow),
            66u32 => Some(Item::Gunpowder),
            67u32 => Some(Item::Wheat),
            68u32 => Some(Item::Seeds),
            69u32 => Some(Item::Carrot),
            70u32 => Some(Item::Shears),
            71u32 => Some(Item::Bucket),
            72u32 => Some(Item::MilkBucket),
            73u32 => Some(Item::RawPorkchop),
            74u32 => Some(Item::CookedPorkchop),
            75u32 => Some(Item::RawBeef),
            76u32 => Some(Item::CookedBeef),
            77u32 => Some(Item::RawMutton),
            78u32 => Some(Item::CookedMutton),
            79u32 => Some(Item::RawChicken),
            80u32 => Some(Item::CookedChicken),
            81u32 => Some(Item::Wool),
            82u32 => Some(Item::Leather),
            83u32 => Some(Item::Feather),
            84u32 => Some(Item::Egg),
            85u32 => Some(Item::RedDye),
            86u32 => Some(Item::BlueDye),
            87u32 => Some(Item::GreenDye),
            88u32 => Some(Item::BirchLog),
            89u32 => Some(Item::BirchPlanks),
            90u32 => Some(Item::BirchLeaves),
            91u32 => Some(Item::SpruceLog),
            92u32 => Some(Item::SprucePlanks),
            93u32 => Some(Item::SpruceLeaves),
            94u32 => Some(Item::TallGrass),
            95u32 => Some(Item::Dandelion),
            96u32 => Some(Item::Poppy),
            97u32 => Some(Item::Cactus),
            98u32 => Some(Item::SugarCane),
            99u32 => Some(Item::Pumpkin),
            100u32 => Some(Item::Melon),
            101u32 => Some(Item::EnchantingTable),
            102u32 => Some(Item::BrewingStand),
            103u32 => Some(Item::Anvil),
            104u32 => Some(Item::LapisLazuli),
            105u32 => Some(Item::IronHelmet),
            106u32 => Some(Item::IronChestplate),
            107u32 => Some(Item::IronLeggings),
            108u32 => Some(Item::IronBoots),
            109u32 => Some(Item::GlassBottle),
            110u32 => Some(Item::Potion),
            111u32 => Some(Item::SplashPotion),
            112u32 => Some(Item::NetherWart),
            113u32 => Some(Item::Sugar),
            114u32 => Some(Item::BlazePowder),
            115u32 => Some(Item::GlisteringMelon),
            116u32 => Some(Item::GhastTear),
            117u32 => Some(Item::GoldenCarrot),
            118u32 => Some(Item::FermentedSpiderEye),
            119u32 => Some(Item::MagmaCream),
            120u32 => Some(Item::Pufferfish),
            121u32 => Some(Item::SpiderEye),
            122u32 => Some(Item::GlowstoneDust),
            123u32 => Some(Item::RedstoneDust),
            124u32 => Some(Item::Arrow),
            125u32 => Some(Item::RedstoneWire),
            126u32 => Some(Item::RedstoneTorch),
            127u32 => Some(Item::Repeater),
            128u32 => Some(Item::Comparator),
            129u32 => Some(Item::StoneButton),
            130u32 => Some(Item::Lever),
            131u32 => Some(Item::PressurePlate),
            132u32 => Some(Item::Piston),
            133u32 => Some(Item::StickyPiston),
            134u32 => Some(Item::RedstoneLamp),
            135u32 => Some(Item::OakDoor),
            136u32 => Some(Item::OakTrapdoor),
            137u32 => Some(Item::Dispenser),
            138u32 => Some(Item::Dropper),
            139u32 => Some(Item::NoteBlock),
            140u32 => Some(Item::Netherrack),
            141u32 => Some(Item::SoulSand),
            142u32 => Some(Item::Glowstone),
            143u32 => Some(Item::EndStone),
            144u32 => Some(Item::EndPortalFrame),
            145u32 => Some(Item::Purpur),
            146u32 => Some(Item::DragonEgg),
            147u32 => Some(Item::WitherSkeletonSkull),
            148u32 => Some(Item::NetherBrick),
            149u32 => Some(Item::FlintAndSteel),
            150u32 => Some(Item::EyeOfEnder),
            151u32 => Some(Item::Elytra),
            152u32 => Some(Item::NetherStar),
            153u32 => Some(Item::EndCrystal),
            154u32 => Some(Item::BlazeRod),
            155u32 => Some(Item::ShulkerShell),
            156u32 => Some(Item::OakSlab),
            157u32 => Some(Item::CobblestoneSlab),
            158u32 => Some(Item::OakStair),
            159u32 => Some(Item::CobblestoneStair),
            160u32 => Some(Item::OakFence),
            161u32 => Some(Item::OakFenceGate),
            162u32 => Some(Item::CobblestoneWall),
            163u32 => Some(Item::GlassPane),
            164u32 => Some(Item::OakLadder),
            165u32 => Some(Item::OakSign),
            166u32 => Some(Item::WoodenSword),
            167u32 => Some(Item::WoodenPickaxe),
            168u32 => Some(Item::WoodenAxe),
            169u32 => Some(Item::WoodenShovel),
            170u32 => Some(Item::GoldenSword),
            171u32 => Some(Item::GoldenPickaxe),
            172u32 => Some(Item::GoldenAxe),
            173u32 => Some(Item::GoldenShovel),
            174u32 => Some(Item::LeatherHelmet),
            175u32 => Some(Item::LeatherChestplate),
            176u32 => Some(Item::LeatherLeggings),
            177u32 => Some(Item::LeatherBoots),
            178u32 => Some(Item::GoldenHelmet),
            179u32 => Some(Item::GoldenChestplate),
            180u32 => Some(Item::GoldenLeggings),
            181u32 => Some(Item::GoldenBoots),
            182u32 => Some(Item::DiamondHelmet),
            183u32 => Some(Item::DiamondChestplate),
            184u32 => Some(Item::DiamondLeggings),
            185u32 => Some(Item::DiamondBoots),
            186u32 => Some(Item::Shield),
            187u32 => Some(Item::Saddle),
            188u32 => Some(Item::Emerald),
            189u32 => Some(Item::Book),
            190u32 => Some(Item::Paper),
            191u32 => Some(Item::EnchantedBook),
            192u32 => Some(Item::Compass),
            193u32 => Some(Item::String),
            194u32 => Some(Item::Slimeball),
            195u32 => Some(Item::RawCod),
            196u32 => Some(Item::RawSalmon),
            197u32 => Some(Item::InkSac),
            198u32 => Some(Item::OakBoat),
            199u32 => Some(Item::Minecart),
            200u32 => Some(Item::Rail),
            201u32 => Some(Item::PoweredRail),
            202u32 => Some(Item::DetectorRail),
            203u32 => Some(Item::ActivatorRail),
            204u32 => Some(Item::Clock),
            205u32 => Some(Item::MapItem),
            206u32 => Some(Item::FishingRod),
            207u32 => Some(Item::RawFish),
            208u32 => Some(Item::TropicalFish),
            209u32 => Some(Item::LilyPad),
            210u32 => Some(Item::WaterBucket),
            211u32 => Some(Item::LavaBucket),
            212u32 => Some(Item::Hopper),
            213u32 => Some(Item::Observer),
            _ => None,
        }
    }

    pub open spec fn spec_def(self) -> ItemDef {
        match self {
            Item::Air => ItemDef { max_stack: 64, is_block: false, block_type: None, tex_coords: (0, 0), creative_tab: None, tool: None, armor: None },
            Item::Grass => ItemDef { max_stack: 64, is_block: true, block_type: Some(BlockType::Grass), tex_coords: (1, 0), creative_tab: Some(CreativeTab::Blocks), tool: None, armor: None },
            Item::Dirt => ItemDef { max_stack: 64, is_block: true, block_type: Some(BlockType::Dirt), tex_coords: (2, 0), creative_tab: Some(CreativeTab::Blocks), tool: None, armor: None },
            Item::Stone => ItemDef { max_stack: 64, is_block: true, block_type: Some(BlockType::Stone), tex_coords: (3, 0), creative_tab: Some(CreativeTab::Blocks), tool: None, armor: None },
            Item::Sand => ItemDef { max_stack: 64, is_block: true, block_type: Some(BlockType::Sand), tex_coords: (4, 0), creative_tab: Some(CreativeTab::Blocks), tool: None, armor: None },
            Item::Gravel => ItemDef { max_stack: 64, is_block: true, block_type: Some(BlockType::Gravel), tex_coords: (5, 0), creative_tab: Some(CreativeTab::Blocks), tool: None, armor: None },
            Item::OakLog => ItemDef { max_stack: 64, is_block: true, block_type: Some(BlockType::OakLog), tex_coords: (6, 0), creative_tab: Some(CreativeTab::Blocks), tool: None, armor: None },
            Item::OakPlanks => ItemDef { max_stack: 64, is_block: true, block_type: Some(BlockType::OakPlanks), tex_coords: (7, 0), creative_tab: Some(CreativeTab::Blocks), tool: None, armor: None },
            Item::OakLeaves => ItemDef { max_stack: 64, is_block: true, block_type: Some(BlockType::OakLeaves), tex_coords: (8, 0), creative_tab: Some(CreativeTab::Blocks), tool: None, armor: None },
            Item::Cobblestone => ItemDef { max_stack: 64, is_block: true, block_type: Some(BlockType::Cobblestone), tex_coords: (9, 0), creative_tab: Some(CreativeTab::Blocks), tool: None, armor: None },
            Item::Bedrock => ItemDef { max_stack: 64, is_block: true, block_type: Some(BlockType::Bedrock), tex_coords: (10, 0), creative_tab: Some(CreativeTab::Blocks), tool: None, armor: None },
            Item::Water => ItemDef { max_stack: 64, is_block: true, block_type: Some(BlockType::Water), tex_coords: (11, 0), creative_tab: Some(CreativeTab::Blocks), tool: None, armor: None },
            Item::CoalOre => ItemDef { max_stack: 64, is_block: true, block_type: Some(BlockType::CoalOre), tex_coords: (12, 0), creative_tab: Some(CreativeTab::Blocks), tool: None, armor: None },
            Item::IronOre => ItemDef { max_stack: 64, is_block: true, block_type: Some(BlockType::IronOre), tex_coords: (13, 0), creative_tab: Some(CreativeTab::Blocks), tool: None, armor: None },
            Item::GoldOre => ItemDef { max_stack: 64, is_block: true, block_type: Some(BlockType::GoldOre), tex_coords: (14, 0), creative_tab: Some(CreativeTab::Blocks), tool: None, armor: None },
            Item::DiamondOre => ItemDef { max_stack: 64, is_block: true, block_type: Some(BlockType::DiamondOre), tex_coords: (15, 0), creative_tab: Some(CreativeTab::Blocks), tool: None, armor: None },
            Item::RedstoneOre => ItemDef { max_stack: 64, is_block: true, block_type: Some(BlockType::RedstoneOre), tex_coords: (0, 1), creative_tab: Some(CreativeTab::Blocks), tool: None, armor: None },
            Item::Glass => ItemDef { max_stack: 64, is_block: true, block_type: Some(BlockType::Glass), tex_coords: (1, 1), creative_tab: Some(CreativeTab::Blocks), tool: None, armor: None },
            Item::Brick => ItemDef { max_stack: 64, is_block: true, block_type: Some(BlockType::Brick), tex_coords: (2, 1), creative_tab: Some(CreativeTab::Blocks), tool: None, armor: None },
            Item::StoneBrick => ItemDef { max_stack: 64, is_block: true, block_type: Some(BlockType::StoneBrick), tex_coords: (3, 1), creative_tab: Some(CreativeTab::Blocks), tool: None, armor: None },
            Item::Snow => ItemDef { max_stack: 64, is_block: true, block_type: Some(BlockType::Snow), tex_coords: (4, 1), creative_tab: Some(CreativeTab::Blocks), tool: None, armor: None },
            Item::Ice => ItemDef { max_stack: 64, is_block: true, block_type: Some(BlockType::Ice), tex_coords: (5, 1), creative_tab: Some(CreativeTab::Blocks), tool: None, armor: None },
            Item::Clay => ItemDef { max_stack: 64, is_block: true, block_type: Some(BlockType::Clay), tex_coords: (6, 1), creative_tab: Some(CreativeTab::Blocks), tool: None, armor: None },
            Item::Sandstone => ItemDef { max_stack: 64, is_block: true, block_type: Some(BlockType::Sandstone), tex_coords: (7, 1), creative_tab: Some(CreativeTab::Blocks), tool: None, armor: None },
            Item::Obsidian => ItemDef { max_stack: 64, is_block: true, block_type: Some(BlockType::Obsidian), tex_coords: (8, 1), creative_tab: Some(CreativeTab::Blocks), tool: None, armor: None },
            Item::CraftingTable => ItemDef { max_stack: 64, is_block: true, block_type: Some(BlockType::CraftingTable), tex_coords: (9, 1), creative_tab: Some(CreativeTab::Blocks), tool: None, armor: None },
            Item::Furnace => ItemDef { max_stack: 64, is_block: true, block_type: Some(BlockType::Furnace), tex_coords: (10, 1), creative_tab: Some(CreativeTab::Blocks), tool: None, armor: None },
            Item::Chest => ItemDef { max_stack: 64, is_block: true, block_type: Some(BlockType::Chest), tex_coords: (11, 1), creative_tab: Some(CreativeTab::Blocks), tool: None, armor: None },
            Item::TNT => ItemDef { max_stack: 64, is_block: true, block_type: Some(BlockType::TNT), tex_coords: (12, 1), creative_tab: Some(CreativeTab::Redstone), tool: None, armor: None },
            Item::Bookshelf => ItemDef { max_stack: 64, is_block: true, block_type: Some(BlockType::Bookshelf), tex_coords: (13, 1), creative_tab: Some(CreativeTab::Blocks), tool: None, armor: None },
            Item::Torch => ItemDef { max_stack: 64, is_block: true, block_type: Some(BlockType::Torch), tex_coords: (14, 1), creative_tab: Some(CreativeTab::Blocks), tool: None, armor: None },
            Item::Lava => ItemDef { max_stack: 64, is_block: true, block_type: Some(BlockType::Lava), tex_coords: (15, 1), creative_tab: Some(CreativeTab::Blocks), tool: None, armor: None },
            Item::Bed => ItemDef { max_stack: 1, is_block: true, block_type: Some(BlockType::Bed), tex_coords: (0, 2), creative_tab: None, tool: None, armor: None },
            Item::StoneSword => ItemDef { max_stack: 1, is_block: false, block_type: None, tex_coords: (1, 2), creative_tab: Some(CreativeTab::Combat), tool: Some(ToolInfo { tool_type: ToolType::Sword, material: ToolMaterial::Stone, durability: 131 }), armor: None },
            Item::StonePickaxe => ItemDef { max_stack: 1, is_block: false, block_type: None, tex_coords: (2, 2), creative_tab: Some(CreativeTab::Tools), tool: Some(ToolInfo { tool_type: ToolType::Pickaxe, material: ToolMaterial::Stone, durability: 131 }), armor: None },
            Item::StoneAxe => ItemDef { max_stack: 1, is_block: false, block_type: None, tex_coords: (3, 2), creative_tab: Some(CreativeTab::Tools), tool: Some(ToolInfo { tool_type: ToolType::Axe, material: ToolMaterial::Stone, durability: 131 }), armor: None },
            Item::StoneShovel => ItemDef { max_stack: 1, is_block: false, block_type: None, tex_coords: (4, 2), creative_tab: Some(CreativeTab::Tools), tool: Some(ToolInfo { tool_type: ToolType::Shovel, material: ToolMaterial::Stone, durability: 131 }), armor: None },
            Item::IronSword => ItemDef { max_stack: 1, is_block: false, block_type: None, tex_coords: (5, 2), creative_tab: Some(CreativeTab::Combat), tool: Some(ToolInfo { tool_type: ToolType::Sword, material: ToolMaterial::Iron, durability: 250 }), armor: None },
            Item::IronPickaxe => ItemDef { max_stack: 1, is_block: false, block_type: None, tex_coords: (6, 2), creative_tab: Some(CreativeTab::Tools), tool: Some(ToolInfo { tool_type: ToolType::Pickaxe, material: ToolMaterial::Iron, durability: 250 }), armor: None },
            Item::IronAxe => ItemDef { max_stack: 1, is_block: false, block_type: None, tex_coords: (7, 2), creative_tab: Some(CreativeTab::Tools), tool: Some(ToolInfo { tool_type: ToolType::Axe, material: ToolMaterial::Iron, durability: 250 }), armor: None },
            Item::IronShovel => ItemDef { max_stack: 1, is_block: false, block_type: None, tex_coords: (8, 2), creative_tab: Some(CreativeTab::Tools), tool: Some(ToolInfo { tool_type: ToolType::Shovel, material: ToolMaterial::Iron, durability: 250 }), armor: None },
            Item::DiamondSword => ItemDef { max_stack: 1, is_block: false, block_type: None, tex_coords: (9, 2), creative_tab: Some(CreativeTab::Combat), tool: Some(ToolInfo { tool_type: ToolType::Sword, material: ToolMaterial::Diamond, durability: 1561 }), armor: None },
            Item::DiamondPickaxe => ItemDef { max_stack: 1, is_block: false, block_type: None, tex_coords: (10, 2), creative_tab: Some(CreativeTab::Tools), tool: Some(ToolInfo { tool_type: ToolType::Pickaxe, material: ToolMaterial::Diamond, durability: 1561 }), armor: None },
            Item::DiamondAxe => ItemDef { max_stack: 1, is_block: false, block_type: None, tex_coords: (11, 2), creative_tab: Some(CreativeTab::Tools), tool: Some(ToolInfo { tool_type: ToolType::Axe, material: ToolMaterial::Diamond, durability: 1561 }), armor: None },
            Item::DiamondShovel => ItemDef { max_stack: 1, is_block: false, block_type: None, tex_coords: (12, 2), creative_tab: Some(CreativeTab::Tools), tool: Some(ToolInfo { tool_type: ToolType::Shovel, material: ToolMaterial::Diamond, durability: 1561 }), armor: None },
            Item::WoodenHoe => ItemDef { max_stack: 1, is_block: false, block_type: None, tex_coords: (13, 2), creative_tab: None, tool: Some(ToolInfo { tool_type: ToolType::Hoe, material: ToolMaterial::Wood, durability: 59 }), armor: None },
            Item::StoneHoe => ItemDef { max_stack: 1, is_block: false, block_type: None, tex_coords: (14, 2), creative_tab: None, tool: Some(ToolInfo { tool_type: ToolType::Hoe, material: ToolMaterial::Stone, durability: 131 }), armor: None },
            Item::IronHoe => ItemDef { max_stack: 1, is_block: false, block_type: None, tex_coords: (15, 2), creative_tab: None, tool: Some(ToolInfo { tool_type: ToolType::Hoe, material: ToolMaterial::Iron, durability: 250 }), armor: None },
            Item::GoldenHoe => ItemDef { max_stack: 1, is_block: false, block_type: None, tex_coords: (0, 3), creative_tab: None, tool: Some(ToolInfo { tool_type: ToolType::Hoe, material: ToolMaterial::Gold, durability: 32 }), armor: None },
            Item::DiamondHoe => ItemDef { max_stack: 1, is_block: false, block_type: None, tex_coords: (1, 3), creative_tab: None, tool: Some(ToolInfo { tool_type: ToolType::Hoe, material: ToolMaterial::Diamond, durability: 1561 }), armor: None },
            Item::Stick => ItemDef { max_stack: 64, is_block: false, block_type: None, tex_coords: (2, 3), creative_tab: Some(CreativeTab::Misc), tool: None, armor: None },
            Item::Coal => ItemDef { max_stack: 64, is_block: false, block_type: None, tex_coords: (3, 3), creative_tab: Some(CreativeTab::Misc), tool: None, armor: None },
            Item::IronIngot => ItemDef { max_stack: 64, is_block: false, block_type: None, tex_coords: (4, 3), creative_tab: Some(CreativeTab::Misc), tool: None, armor: None },
            Item::GoldIngot => ItemDef { max_stack: 64, is_block: false, block_type: None, tex_coords: (5, 3), creative_tab: Some(CreativeTab::Misc), tool: None, armor: None },
            Item::Diamond => ItemDef { max_stack: 64, is_block: false, block_type: None, tex_coords: (6, 3), creative_tab: Some(CreativeTab::Misc), tool: None, armor: None },
            Item::Redstone => ItemDef { max_stack: 64, is_block: false, block_type: None, tex_coords: (7, 3), creative_tab: Some(CreativeTab::Redstone), tool: None, armor: None },
            Item::BoneMeal => ItemDef { max_stack: 64, is_block: false, block_type: None, tex_coords: (8, 3), creative_tab: None, tool: None, armor: None },
            Item::Apple => ItemDef { max_stack: 64, is_block: false, block_type: None, tex_coords: (9, 3), creative_tab: Some(CreativeTab::FoodAndBrewing), tool: None, armor: None },
            Item::Bread => ItemDef { max_stack: 64, is_block: false, block_type: None, tex_coords: (10, 3), creative_tab: Some(CreativeTab::FoodAndBrewing), tool: None, armor: None },
            Item::Potato => ItemDef { max_stack: 64, is_block: false, block_type: None, tex_coords: (11, 3), creative_tab: None, tool: None, armor: None },
            Item::BakedPotato => ItemDef { max_stack: 64, is_block: false, block_type: None, tex_coords: (12, 3), creative_tab: None, tool: None, armor: None },
            Item::PoisonousPotato => ItemDef { max_stack: 64, is_block: false, block_type: None, tex_coords: (13, 3), creative_tab: None, tool: None, armor: None },
            Item::GoldenApple => ItemDef { max_stack: 64, is_block: false, block_type: None, tex_coords: (14, 3), creative_tab: None, tool: None, armor: None },
            Item::RottenFlesh => ItemDef { max_stack: 64, is_block: false, block_type: None, tex_coords: (8, 3), creative_tab: Some(CreativeTab::FoodAndBrewing), tool: None, armor: None },
            Item::Bone => ItemDef { max_stack: 64, is_block: false, block_type: None, tex_coords: (0, 4), creative_tab: Some(CreativeTab::Misc), tool: None, armor: None },
            Item::Bow => ItemDef { max_stack: 1, is_block: false, block_type: None, tex_coords: (1, 4), creative_tab: Some(CreativeTab::Combat), tool: None, armor: None },
            Item::Gunpowder => ItemDef { max_stack: 64, is_block: false, block_type: None, tex_coords: (2, 4), creative_tab: Some(CreativeTab::Misc), tool: None, armor: None },
            Item::Wheat => ItemDef { max_stack: 64, is_block: false, block_type: None, tex_coords: (3, 4), creative_tab: Some(CreativeTab::Misc), tool: None, armor: None },
            Item::Seeds => ItemDef { max_stack: 64, is_block: false, block_type: Some(BlockType::WheatCrop), tex_coords: (4, 4), creative_tab: Some(CreativeTab::Misc), tool: None, armor: None },
            Item::Carrot => ItemDef { max_stack: 64, is_block: false, block_type: None, tex_coords: (5, 4), creative_tab: Some(CreativeTab::FoodAndBrewing), tool: None, armor: None },
            Item::Shears => ItemDef { max_stack: 1, is_block: false, block_type: None, tex_coords: (6, 4), creative_tab: Some(CreativeTab::Tools), tool: None, armor: None },
            Item::Bucket => ItemDef { max_stack: 16, is_block: false, block_type: None, tex_coords: (7, 4), creative_tab: Some(CreativeTab::Tools), tool: None, armor: None },
            Item::MilkBucket => ItemDef { max_stack: 1, is_block: false, block_type: None, tex_coords: (8, 4), creative_tab: Some(CreativeTab::Tools), tool: None, armor: None },
            Item::RawPorkchop => ItemDef { max_stack: 64, is_block: false, block_type: None, tex_coords: (9, 4), creative_tab: Some(CreativeTab::FoodAndBrewing), tool: None, armor: None },
            Item::CookedPorkchop => ItemDef { max_stack: 64, is_block: false, block_type: None, tex_coords: (10, 4), creative_tab: Some(CreativeTab::FoodAndBrewing), tool: None, armor: None },
            Item::RawBeef => ItemDef { max_stack: 64, is_block: false, block_type: None, tex_coords: (11, 4), creative_tab: Some(CreativeTab::FoodAndBrewing), tool: None, armor: None },
            Item::CookedBeef => ItemDef { max_stack: 64, is_block: false, block_type: None, tex_coords: (12, 4), creative_tab: Some(CreativeTab::FoodAndBrewing), tool: None, armor: None },
            Item::RawMutton => ItemDef { max_stack: 64, is_block: false, block_type: None, tex_coords: (13, 4), creative_tab: Some(CreativeTab::FoodAndBrewing), tool: None, armor: None },
            Item::CookedMutton => ItemDef { max_stack: 64, is_block: false, block_type: None, tex_coords: (14, 4), creative_tab: Some(CreativeTab::FoodAndBrewing), tool: None, armor: None },
            Item::RawChicken => ItemDef { max_stack: 64, is_block: false, block_type: None, tex_coords: (15, 4), creative_tab: Some(CreativeTab::FoodAndBrewing), tool: None, armor: None },
            Item::CookedChicken => ItemDef { max_stack: 64, is_block: false, block_type: None, tex_coords: (0, 5), creative_tab: Some(CreativeTab::FoodAndBrewing), tool: None, armor: None },
            Item::Wool => ItemDef { max_stack: 64, is_block: true, block_type: Some(BlockType::Snow), tex_coords: (1, 5), creative_tab: Some(CreativeTab::Blocks), tool: None, armor: None },
            Item::Leather => ItemDef { max_stack: 64, is_block: false, block_type: None, tex_coords: (2, 5), creative_tab: Some(CreativeTab::Misc), tool: None, armor: None },
            Item::Feather => ItemDef { max_stack: 64, is_block: false, block_type: None, tex_coords: (3, 5), creative_tab: Some(CreativeTab::Misc), tool: None, armor: None },
            Item::Egg => ItemDef { max_stack: 16, is_block: false, block_type: None, tex_coords: (4, 5), creative_tab: Some(CreativeTab::FoodAndBrewing), tool: None, armor: None },
            Item::RedDye => ItemDef { max_stack: 64, is_block: false, block_type: None, tex_coords: (5, 5), creative_tab: Some(CreativeTab::Misc), tool: None, armor: None },
            Item::BlueDye => ItemDef { max_stack: 64, is_block: false, block_type: None, tex_coords: (6, 5), creative_tab: Some(CreativeTab::Misc), tool: None, armor: None },
            Item::GreenDye => ItemDef { max_stack: 64, is_block: false, block_type: None, tex_coords: (7, 5), creative_tab: Some(CreativeTab::Misc), tool: None, armor: None },
            Item::BirchLog => ItemDef { max_stack: 64, is_block: true, block_type: Some(BlockType::BirchLog), tex_coords: (8, 5), creative_tab: Some(CreativeTab::Blocks), tool: None, armor: None },
            Item::BirchPlanks => ItemDef { max_stack: 64, is_block: true, block_type: Some(BlockType::BirchPlanks), tex_coords: (9, 5), creative_tab: Some(CreativeTab::Blocks), tool: None, armor: None },
            Item::BirchLeaves => ItemDef { max_stack: 64, is_block: true, block_type: Some(BlockType::BirchLeaves), tex_coords: (10, 5), creative_tab: Some(CreativeTab::Blocks), tool: None, armor: None },
            Item::SpruceLog => ItemDef { max_stack: 64, is_block: true, block_type: Some(BlockType::SpruceLog), tex_coords: (11, 5), creative_tab: Some(CreativeTab::Blocks), tool: None, armor: None },
            Item::SprucePlanks => ItemDef { max_stack: 64, is_block: true, block_type: Some(BlockType::SprucePlanks), tex_coords: (12, 5), creative_tab: Some(CreativeTab::Blocks), tool: None, armor: None },
            Item::SpruceLeaves => ItemDef { max_stack: 64, is_block: true, block_type: Some(BlockType::SpruceLeaves), tex_coords: (13, 5), creative_tab: Some(CreativeTab::Blocks), tool: None, armor: None },
            Item::TallGrass => ItemDef { max_stack: 64, is_block: true, block_type: Some(BlockType::TallGrass), tex_coords: (14, 5), creative_tab: Some(CreativeTab::Blocks), tool: None, armor: None },
            Item::Dandelion => ItemDef { max_stack: 64, is_block: true, block_type: Some(BlockType::Dandelion), tex_coords: (15, 5), creative_tab: Some(CreativeTab::Blocks), tool: None, armor: None },
            Item::Poppy => ItemDef { max_stack: 64, is_block: true, block_type: Some(BlockType::Poppy), tex_coords: (0, 6), creative_tab: Some(CreativeTab::Blocks), tool: None, armor: None },
            Item::Cactus => ItemDef { max_stack: 64, is_block: true, block_type: Some(BlockType::Cactus), tex_coords: (1, 6), creative_tab: Some(CreativeTab::Blocks), tool: None, armor: None },
            Item::SugarCane => ItemDef { max_stack: 64, is_block: true, block_type: Some(BlockType::SugarCane), tex_coords: (2, 6), creative_tab: Some(CreativeTab::Blocks), tool: None, armor: None },
            Item::Pumpkin => ItemDef { max_stack: 64, is_block: true, block_type: Some(BlockType::Pumpkin), tex_coords: (3, 6), creative_tab: Some(CreativeTab::Blocks), tool: None, armor: None },
            Item::Melon => ItemDef { max_stack: 64, is_block: true, block_type: Some(BlockType::Melon), tex_coords: (4, 6), creative_tab: Some(CreativeTab::FoodAndBrewing), tool: None, armor: None },
            Item::EnchantingTable => ItemDef { max_stack: 64, is_block: true, block_type: Some(BlockType::EnchantingTable), tex_coords: (5, 6), creative_tab: Some(CreativeTab::Blocks), tool: None, armor: None },
            Item::BrewingStand => ItemDef { max_stack: 64, is_block: true, block_type: Some(BlockType::BrewingStand), tex_coords: (6, 6), creative_tab: Some(CreativeTab::Blocks), tool: None, armor: None },
            Item::Anvil => ItemDef { max_stack: 64, is_block: true, block_type: Some(BlockType::Anvil), tex_coords: (7, 6), creative_tab: Some(CreativeTab::Blocks), tool: None, armor: None },
            Item::LapisLazuli => ItemDef { max_stack: 64, is_block: false, block_type: None, tex_coords: (8, 6), creative_tab: Some(CreativeTab::Misc), tool: None, armor: None },
            Item::IronHelmet => ItemDef { max_stack: 1, is_block: false, block_type: None, tex_coords: (9, 6), creative_tab: Some(CreativeTab::Combat), tool: None, armor: Some(ArmorInfo { slot: ArmorSlot::Helmet, durability: 165 }) },
            Item::IronChestplate => ItemDef { max_stack: 1, is_block: false, block_type: None, tex_coords: (10, 6), creative_tab: Some(CreativeTab::Combat), tool: None, armor: Some(ArmorInfo { slot: ArmorSlot::Chestplate, durability: 240 }) },
            Item::IronLeggings => ItemDef { max_stack: 1, is_block: false, block_type: None, tex_coords: (11, 6), creative_tab: Some(CreativeTab::Combat), tool: None, armor: Some(ArmorInfo { slot: ArmorSlot::Leggings, durability: 225 }) },
            Item::IronBoots => ItemDef { max_stack: 1, is_block: false, block_type: None, tex_coords: (12, 6), creative_tab: Some(CreativeTab::Combat), tool: None, armor: Some(ArmorInfo { slot: ArmorSlot::Boots, durability: 195 }) },
            Item::GlassBottle => ItemDef { max_stack: 64, is_block: false, block_type: None, tex_coords: (13, 6), creative_tab: Some(CreativeTab::FoodAndBrewing), tool: None, armor: None },
            Item::Potion => ItemDef { max_stack: 1, is_block: false, block_type: None, tex_coords: (14, 6), creative_tab: Some(CreativeTab::FoodAndBrewing), tool: None, armor: None },
            Item::SplashPotion => ItemDef { max_stack: 1, is_block: false, block_type: None, tex_coords: (15, 6), creative_tab: Some(CreativeTab::FoodAndBrewing), tool: None, armor: None },
            Item::NetherWart => ItemDef { max_stack: 64, is_block: false, block_type: Some(BlockType::NetherWartCrop), tex_coords: (0, 7), creative_tab: Some(CreativeTab::FoodAndBrewing), tool: None, armor: None },
            Item::Sugar => ItemDef { max_stack: 64, is_block: false, block_type: None, tex_coords: (1, 7), creative_tab: Some(CreativeTab::FoodAndBrewing), tool: None, armor: None },
            Item::BlazePowder => ItemDef { max_stack: 64, is_block: false, block_type: None, tex_coords: (2, 7), creative_tab: Some(CreativeTab::FoodAndBrewing), tool: None, armor: None },
            Item::GlisteringMelon => ItemDef { max_stack: 64, is_block: false, block_type: None, tex_coords: (3, 7), creative_tab: Some(CreativeTab::FoodAndBrewing), tool: None, armor: None },
            Item::GhastTear => ItemDef { max_stack: 64, is_block: false, block_type: None, tex_coords: (4, 7), creative_tab: Some(CreativeTab::FoodAndBrewing), tool: None, armor: None },
            Item::GoldenCarrot => ItemDef { max_stack: 64, is_block: false, block_type: None, tex_coords: (5, 7), creative_tab: Some(CreativeTab::FoodAndBrewing), tool: None, armor: None },
            Item::FermentedSpiderEye => ItemDef { max_stack: 64, is_block: false, block_type: None, tex_coords: (6, 7), creative_tab: Some(CreativeTab::FoodAndBrewing), tool: None, armor: None },
            Item::MagmaCream => ItemDef { max_stack: 64, is_block: false, block_type: None, tex_coords: (7, 7), creative_tab: Some(CreativeTab::FoodAndBrewing), tool: None, armor: None },
            Item::Pufferfish => ItemDef { max_stack: 64, is_block: false, block_type: None, tex_coords: (8, 7), creative_tab: Some(CreativeTab::FoodAndBrewing), tool: None, armor: None },
            Item::SpiderEye => ItemDef { max_stack: 64, is_block: false, block_type: None, tex_coords: (9, 7), creative_tab: Some(CreativeTab::FoodAndBrewing), tool: None, armor: None },
            Item::GlowstoneDust => ItemDef { max_stack: 64, is_block: false, block_type: None, tex_coords: (10, 7), creative_tab: Some(CreativeTab::Misc), tool: None, armor: None },
            Item::RedstoneDust => ItemDef { max_stack: 64, is_block: false, block_type: None, tex_coords: (11, 7), creative_tab: Some(CreativeTab::Redstone), tool: None, armor: None },
            Item::Arrow => ItemDef { max_stack: 64, is_block: false, block_type: None, tex_coords: (12, 7), creative_tab: Some(CreativeTab::Combat), tool: None, armor: None },
            Item::RedstoneWire => ItemDef { max_stack: 64, is_block: true, block_type: Some(BlockType::RedstoneWire), tex_coords: (13, 7), creative_tab: Some(CreativeTab::Redstone), tool: None, armor: None },
            Item::RedstoneTorch => ItemDef { max_stack: 64, is_block: true, block_type: Some(BlockType::RedstoneTorch), tex_coords: (14, 7), creative_tab: Some(CreativeTab::Redstone), tool: None, armor: None },
            Item::Repeater => ItemDef { max_stack: 64, is_block: true, block_type: Some(BlockType::Repeater), tex_coords: (15, 7), creative_tab: Some(CreativeTab::Redstone), tool: None, armor: None },
            Item::Comparator => ItemDef { max_stack: 64, is_block: true, block_type: Some(BlockType::Comparator), tex_coords: (0, 8), creative_tab: Some(CreativeTab::Redstone), tool: None, armor: None },
            Item::StoneButton => ItemDef { max_stack: 64, is_block: true, block_type: Some(BlockType::StoneButton), tex_coords: (1, 8), creative_tab: Some(CreativeTab::Redstone), tool: None, armor: None },
            Item::Lever => ItemDef { max_stack: 64, is_block: true, block_type: Some(BlockType::Lever), tex_coords: (2, 8), creative_tab: Some(CreativeTab::Redstone), tool: None, armor: None },
            Item::PressurePlate => ItemDef { max_stack: 64, is_block: true, block_type: Some(BlockType::PressurePlate), tex_coords: (3, 8), creative_tab: Some(CreativeTab::Redstone), tool: None, armor: None },
            Item::Piston => ItemDef { max_stack: 64, is_block: true, block_type: Some(BlockType::Piston), tex_coords: (4, 8), creative_tab: Some(CreativeTab::Redstone), tool: None, armor: None },
            Item::StickyPiston => ItemDef { max_stack: 64, is_block: true, block_type: Some(BlockType::StickyPiston), tex_coords: (5, 8), creative_tab: Some(CreativeTab::Redstone), tool: None, armor: None },
            Item::RedstoneLamp => ItemDef { max_stack: 64, is_block: true, block_type: Some(BlockType::RedstoneLamp), tex_coords: (6, 8), creative_tab: Some(CreativeTab::Redstone), tool: None, armor: None },
            Item::OakDoor => ItemDef { max_stack: 64, is_block: true, block_type: Some(BlockType::OakDoor), tex_coords: (7, 8), creative_tab: Some(CreativeTab::Redstone), tool: None, armor: None },
            Item::OakTrapdoor => ItemDef { max_stack: 64, is_block: true, block_type: Some(BlockType::OakTrapdoor), tex_coords: (8, 8), creative_tab: Some(CreativeTab::Redstone), tool: None, armor: None },
            Item::Dispenser => ItemDef { max_stack: 64, is_block: true, block_type: Some(BlockType::Dispenser), tex_coords: (9, 8), creative_tab: Some(CreativeTab::Redstone), tool: None, armor: None },
            Item::Dropper => ItemDef { max_stack: 64, is_block: true, block_type: Some(BlockType::Dropper), tex_coords: (10, 8), creative_tab: Some(CreativeTab::Redstone), tool: None, armor: None },
            Item::NoteBlock => ItemDef { max_stack: 64, is_block: true, block_type: Some(BlockType::NoteBlock), tex_coords: (11, 8), creative_tab: Some(CreativeTab::Redstone), tool: None, armor: None },
            Item::Netherrack => ItemDef { max_stack: 64, is_block: true, block_type: Some(BlockType::Netherrack), tex_coords: (12, 8), creative_tab: Some(CreativeTab::Blocks), tool: None, armor: None },
            Item::SoulSand => ItemDef { max_stack: 64, is_block: true, block_type: Some(BlockType::SoulSand), tex_coords: (13, 8), creative_tab: Some(CreativeTab::Blocks), tool: None, armor: None },
            Item::Glowstone => ItemDef { max_stack: 64, is_block: true, block_type: Some(BlockType::Glowstone), tex_coords: (14, 8), creative_tab: Some(CreativeTab::Blocks), tool: None, armor: None },
            Item::EndStone => ItemDef { max_stack: 64, is_block: true, block_type: Some(BlockType::EndStone), tex_coords: (15, 8), creative_tab: Some(CreativeTab::Blocks), tool: None, armor: None },
            Item::EndPortalFrame => ItemDef { max_stack: 64, is_block: true, block_type: Some(BlockType::EndPortalFrame), tex_coords: (0, 9), creative_tab: Some(CreativeTab::Blocks), tool: None, armor: None },
            Item::Purpur => ItemDef { max_stack: 64, is_block: true, block_type: Some(BlockType::Purpur), tex_coords: (1, 9), creative_tab: Some(CreativeTab::Blocks), tool: None, armor: None },
            Item::DragonEgg => ItemDef { max_stack: 64, is_block: true, block_type: Some(BlockType::DragonEgg), tex_coords: (2, 9), creative_tab: Some(CreativeTab::Misc), tool: None, armor: None },
            Item::WitherSkeletonSkull => ItemDef { max_stack: 64, is_block: true, block_type: Some(BlockType::WitherSkeletonSkull), tex_coords: (3, 9), creative_tab: Some(CreativeTab::Misc), tool: None, armor: None },
            Item::NetherBrick => ItemDef { max_stack: 64, is_block: true, block_type: Some(BlockType::NetherBrick), tex_coords: (4, 9), creative_tab: Some(CreativeTab::Blocks), tool: None, armor: None },
            Item::FlintAndSteel => ItemDef { max_stack: 1, is_block: false, block_type: None, tex_coords: (5, 9), creative_tab: Some(CreativeTab::Tools), tool: None, armor: None },
            Item::EyeOfEnder => ItemDef { max_stack: 64, is_block: false, block_type: None, tex_coords: (6, 9), creative_tab: Some(CreativeTab::Tools), tool: None, armor: None },
            Item::Elytra => ItemDef { max_stack: 1, is_block: false, block_type: None, tex_coords: (7, 9), creative_tab: Some(CreativeTab::Combat), tool: None, armor: None },
            Item::NetherStar => ItemDef { max_stack: 64, is_block: false, block_type: None, tex_coords: (8, 9), creative_tab: Some(CreativeTab::Misc), tool: None, armor: None },
            Item::EndCrystal => ItemDef { max_stack: 64, is_block: false, block_type: None, tex_coords: (9, 9), creative_tab: Some(CreativeTab::Combat), tool: None, armor: None },
            Item::BlazeRod => ItemDef { max_stack: 64, is_block: false, block_type: None, tex_coords: (10, 9), creative_tab: Some(CreativeTab::Misc), tool: None, armor: None },
            Item::ShulkerShell => ItemDef { max_stack: 64, is_block: false, block_type: None, tex_coords: (11, 9), creative_tab: Some(CreativeTab::Misc), tool: None, armor: None },
            Item::OakSlab => ItemDef { max_stack: 64, is_block: true, block_type: Some(BlockType::OakSlab), tex_coords: (12, 9), creative_tab: Some(CreativeTab::Blocks), tool: None, armor: None },
            Item::CobblestoneSlab => ItemDef { max_stack: 64, is_block: true, block_type: Some(BlockType::CobblestoneSlab), tex_coords: (13, 9), creative_tab: Some(CreativeTab::Blocks), tool: None, armor: None },
            Item::OakStair => ItemDef { max_stack: 64, is_block: true, block_type: Some(BlockType::OakStair), tex_coords: (14, 9), creative_tab: Some(CreativeTab::Blocks), tool: None, armor: None },
            Item::CobblestoneStair => ItemDef { max_stack: 64, is_block: true, block_type: Some(BlockType::CobblestoneStair), tex_coords: (15, 9), creative_tab: Some(CreativeTab::Blocks), tool: None, armor: None },
            Item::OakFence => ItemDef { max_stack: 64, is_block: true, block_type: Some(BlockType::OakFence), tex_coords: (0, 10), creative_tab: Some(CreativeTab::Blocks), tool: None, armor: None },
            Item::OakFenceGate => ItemDef { max_stack: 64, is_block: true, block_type: Some(BlockType::OakFenceGate), tex_coords: (1, 10), creative_tab: Some(CreativeTab::Blocks), tool: None, armor: None },
            Item::CobblestoneWall => ItemDef { max_stack: 64, is_block: true, block_type: Some(BlockType::CobblestoneWall), tex_coords: (2, 10), creative_tab: Some(CreativeTab::Blocks), tool: None, armor: None },
            Item::GlassPane => ItemDef { max_stack: 64, is_block: true, block_type: Some(BlockType::GlassPane), tex_coords: (3, 10), creative_tab: Some(CreativeTab::Blocks), tool: None, armor: None },
            Item::OakLadder => ItemDef { max_stack: 64, is_block: true, block_type: Some(BlockType::OakLadder), tex_coords: (4, 10), creative_tab: Some(CreativeTab::Blocks), tool: None, armor: None },
            Item::OakSign => ItemDef { max_stack: 16, is_block: true, block_type: Some(BlockType::OakSign), tex_coords: (5, 10), creative_tab: Some(CreativeTab::Blocks), tool: None, armor: None },
            Item::WoodenSword => ItemDef { max_stack: 1, is_block: false, block_type: None, tex_coords: (6, 10), creative_tab: None, tool: Some(ToolInfo { tool_type: ToolType::Sword, material: ToolMaterial::Wood, durability: 59 }), armor: None },
            Item::WoodenPickaxe => ItemDef { max_stack: 1, is_block: false, block_type: None, tex_coords: (7, 10), creative_tab: None, tool: Some(ToolInfo { tool_type: ToolType::Pickaxe, material: ToolMaterial::Wood, durability: 59 }), armor: None },
            Item::WoodenAxe => ItemDef { max_stack: 1, is_block: false, block_type: None, tex_coords: (8, 10), creative_tab: None, tool: Some(ToolInfo { tool_type: ToolType::Axe, material: ToolMaterial::Wood, durability: 59 }), armor: None },
            Item::WoodenShovel => ItemDef { max_stack: 1, is_block: false, block_type: None, tex_coords: (9, 10), creative_tab: None, tool: Some(ToolInfo { tool_type: ToolType::Shovel, material: ToolMaterial::Wood, durability: 59 }), armor: None },
            Item::GoldenSword => ItemDef { max_stack: 1, is_block: false, block_type: None, tex_coords: (10, 10), creative_tab: None, tool: Some(ToolInfo { tool_type: ToolType::Sword, material: ToolMaterial::Gold, durability: 32 }), armor: None },
            Item::GoldenPickaxe => ItemDef { max_stack: 1, is_block: false, block_type: None, tex_coords: (11, 10), creative_tab: None, tool: Some(ToolInfo { tool_type: ToolType::Pickaxe, material: ToolMaterial::Gold, durability: 32 }), armor: None },
            Item::GoldenAxe => ItemDef { max_stack: 1, is_block: false, block_type: None, tex_coords: (12, 10), creative_tab: None, tool: Some(ToolInfo { tool_type: ToolType::Axe, material: ToolMaterial::Gold, durability: 32 }), armor: None },
            Item::GoldenShovel => ItemDef { max_stack: 1, is_block: false, block_type: None, tex_coords: (13, 10), creative_tab: None, tool: Some(ToolInfo { tool_type: ToolType::Shovel, material: ToolMaterial::Gold, durability: 32 }), armor: None },
            Item::LeatherHelmet => ItemDef { max_stack: 1, is_block: false, block_type: None, tex_coords: (14, 10), creative_tab: None, tool: None, armor: Some(ArmorInfo { slot: ArmorSlot::Helmet, durability: 55 }) },
            Item::LeatherChestplate => ItemDef { max_stack: 1, is_block: false, block_type: None, tex_coords: (15, 10), creative_tab: None, tool: None, armor: Some(ArmorInfo { slot: ArmorSlot::Chestplate, durability: 80 }) },
            Item::LeatherLeggings => ItemDef { max_stack: 1, is_block: false, block_type: None, tex_coords: (0, 11), creative_tab: None, tool: None, armor: Some(ArmorInfo { slot: ArmorSlot::Leggings, durability: 75 }) },
            Item::LeatherBoots => ItemDef { max_stack: 1, is_block: false, block_type: None, tex_coords: (1, 11), creative_tab: None, tool: None, armor: Some(ArmorInfo { slot: ArmorSlot::Boots, durability: 65 }) },
            Item::GoldenHelmet => ItemDef { max_stack: 1, is_block: false, block_type: None, tex_coords: (2, 11), creative_tab: None, tool: None, armor: Some(ArmorInfo { slot: ArmorSlot::Helmet, durability: 77 }) },
            Item::GoldenChestplate => ItemDef { max_stack: 1, is_block: false, block_type: None, tex_coords: (3, 11), creative_tab: None, tool: None, armor: Some(ArmorInfo { slot: ArmorSlot::Chestplate, durability: 112 }) },
            Item::GoldenLeggings => ItemDef { max_stack: 1, is_block: false, block_type: None, tex_coords: (4, 11), creative_tab: None, tool: None, armor: Some(ArmorInfo { slot: ArmorSlot::Leggings, durability: 105 }) },
            Item::GoldenBoots => ItemDef { max_stack: 1, is_block: false, block_type: None, tex_coords: (5, 11), creative_tab: None, tool: None, armor: Some(ArmorInfo { slot: ArmorSlot::Boots, durability: 91 }) },
            Item::DiamondHelmet => ItemDef { max_stack: 1, is_block: false, block_type: None, tex_coords: (6, 11), creative_tab: None, tool: None, armor: Some(ArmorInfo { slot: ArmorSlot::Helmet, durability: 363 }) },
            Item::DiamondChestplate => ItemDef { max_stack: 1, is_block: false, block_type: None, tex_coords: (7, 11), creative_tab: None, tool: None, armor: Some(ArmorInfo { slot: ArmorSlot::Chestplate, durability: 528 }) },
            Item::DiamondLeggings => ItemDef { max_stack: 1, is_block: false, block_type: None, tex_coords: (8, 11), creative_tab: None, tool: None, armor: Some(ArmorInfo { slot: ArmorSlot::Leggings, durability: 495 }) },
            Item::DiamondBoots => ItemDef { max_stack: 1, is_block: false, block_type: None, tex_coords: (9, 11), creative_tab: None, tool: None, armor: Some(ArmorInfo { slot: ArmorSlot::Boots, durability: 429 }) },
            Item::Shield => ItemDef { max_stack: 1, is_block: false, block_type: None, tex_coords: (10, 11), creative_tab: None, tool: None, armor: None },
            Item::Saddle => ItemDef { max_stack: 1, is_block: false, block_type: None, tex_coords: (11, 11), creative_tab: None, tool: None, armor: None },
            Item::Emerald => ItemDef { max_stack: 64, is_block: false, block_type: None, tex_coords: (12, 11), creative_tab: None, tool: None, armor: None },
            Item::Book => ItemDef { max_stack: 64, is_block: false, block_type: None, tex_coords: (13, 11), creative_tab: None, tool: None, armor: None },
            Item::Paper => ItemDef { max_stack: 64, is_block: false, block_type: None, tex_coords: (14, 11), creative_tab: None, tool: None, armor: None },
            Item::EnchantedBook => ItemDef { max_stack: 1, is_block: false, block_type: None, tex_coords: (15, 11), creative_tab: None, tool: None, armor: None },
            Item::Compass => ItemDef { max_stack: 64, is_block: false, block_type: None, tex_coords: (0, 12), creative_tab: None, tool: None, armor: None },
            Item::String => ItemDef { max_stack: 64, is_block: false, block_type: None, tex_coords: (1, 12), creative_tab: None, tool: None, armor: None },
            Item::Slimeball => ItemDef { max_stack: 64, is_block: false, block_type: None, tex_coords: (2, 12), creative_tab: None, tool: None, armor: None },
            Item::RawCod => ItemDef { max_stack: 64, is_block: false, block_type: None, tex_coords: (3, 12), creative_tab: None, tool: None, armor: None },
            Item::RawSalmon => ItemDef { max_stack: 64, is_block: false, block_type: None, tex_coords: (4, 12), creative_tab: None, tool: None, armor: None },
            Item::InkSac => ItemDef { max_stack: 64, is_block: false, block_type: None, tex_coords: (5, 12), creative_tab: None, tool: None, armor: None },
            Item::OakBoat => ItemDef { max_stack: 1, is_block: false, block_type: None, tex_coords: (6, 12), creative_tab: None, tool: None, armor: None },
            Item::Minecart => ItemDef { max_stack: 1, is_block: false, block_type: None, tex_coords: (7, 12), creative_tab: None, tool: None, armor: None },
            Item::Rail => ItemDef { max_stack: 64, is_block: true, block_type: Some(BlockType::Rail), tex_coords: (8, 12), creative_tab: None, tool: None, armor: None },
            Item::PoweredRail => ItemDef { max_stack: 64, is_block: true, block_type: Some(BlockType::PoweredRail), tex_coords: (9, 12), creative_tab: None, tool: None, armor: None },
            Item::DetectorRail => ItemDef { max_stack: 64, is_block: true, block_type: Some(BlockType::DetectorRail), tex_coords: (10, 12), creative_tab: None, tool: None, armor: None },
            Item::ActivatorRail => ItemDef { max_stack: 64, is_block: true, block_type: Some(BlockType::ActivatorRail), tex_coords: (11, 12), creative_tab: None, tool: None, armor: None },
            Item::Clock => ItemDef { max_stack: 64, is_block: false, block_type: None, tex_coords: (12, 12), creative_tab: None, tool: None, armor: None },
            Item::MapItem => ItemDef { max_stack: 64, is_block: false, block_type: None, tex_coords: (13, 12), creative_tab: None, tool: None, armor: None },
            Item::FishingRod => ItemDef { max_stack: 1, is_block: false, block_type: None, tex_coords: (14, 12), creative_tab: None, tool: None, armor: None },
            Item::RawFish => ItemDef { max_stack: 64, is_block: false, block_type: None, tex_coords: (15, 12), creative_tab: None, tool: None, armor: None },
            Item::TropicalFish => ItemDef { max_stack: 64, is_block: false, block_type: None, tex_coords: (0, 13), creative_tab: None, tool: None, armor: None },
            Item::LilyPad => ItemDef { max_stack: 64, is_block: true, block_type: Some(BlockType::LilyPad), tex_coords: (1, 13), creative_tab: None, tool: None, armor: None },
            Item::WaterBucket => ItemDef { max_stack: 1, is_block: false, block_type: None, tex_coords: (2, 13), creative_tab: None, tool: None, armor: None },
            Item::LavaBucket => ItemDef { max_stack: 1, is_block: false, block_type: None, tex_coords: (3, 13), creative_tab: None, tool: None, armor: None },
            Item::Hopper => ItemDef { max_stack: 64, is_block: true, block_type: Some(BlockType::Hopper), tex_coords: (4, 13), creative_tab: None, tool: None, armor: None },
            Item::Observer => ItemDef { max_stack: 64, is_block: true, block_type: Some(BlockType::Observer), tex_coords: (5, 13), creative_tab: None, tool: None, armor: None },
        }
    }

    /// This kind's row of the item table.
    pub fn def(self) -> (r: ItemDef)
        ensures
            r == self.spec_def(),
    {
        match self {
            Item::Air => ItemDef { max_stack: 64, is_block: false, block_type: None, tex_coords: (0, 0), creative_tab: None, tool: None, armor: None },
            Item::Grass => ItemDef { max_stack: 64, is_block: true, block_type: Some(BlockType::Grass), tex_coords: (1, 0), creative_tab: Some(CreativeTab::Blocks), tool: None, armor: None },
            Item::Dirt => ItemDef { max_stack: 64, is_block: true, block_type: Some(BlockType::Dirt), tex_coords: (2, 0), creative_tab: Some(CreativeTab::Blocks), tool: None, armor: None },
            Item::Stone => ItemDef { max_stack: 64, is_block: true, block_type: Some(BlockType::Stone), tex_coords: (3, 0), creative_tab: Some(CreativeTab::Blocks), tool: None, armor: None },
            Item::Sand => ItemDef { max_stack: 64, is_block: true, block_type: Some(BlockType::Sand), tex_coords: (4, 0), creative_tab: Some(CreativeTab::Blocks), tool: None, armor: None },
            Item::Gravel => ItemDef { max_stack: 64, is_block: true, block_type: Some(BlockType::Gravel), tex_coords: (5, 0), creative_tab: Some(CreativeTab::Blocks), tool: None, armor: None },
            Item::OakLog => ItemDef { max_stack: 64, is_block: true, block_type: Some(BlockType::OakLog), tex_coords: (6, 0), creative_tab: Some(CreativeTab::Blocks), tool: None, armor: None },
            Item::OakPlanks => ItemDef { max_stack: 64, is_block: true, block_type: Some(BlockType::OakPlanks), tex_coords: (7, 0), creative_tab: Some(CreativeTab::Blocks), tool: None, armor: None },
            Item::OakLeaves => ItemDef { max_stack: 64, is_block: true, block_type: Some(BlockType::OakLeaves), tex_coords: (8, 0), creative_tab: Some(CreativeTab::Blocks), tool: None, armor: None },
            Item::Cobblestone => ItemDef { max_stack: 64, is_block: true, block_type: Some(BlockType::Cobblestone), tex_coords: (9, 0), creative_tab: Some(CreativeTab::Blocks), tool: None, armor: None },
            Item::Bedrock => ItemDef { max_stack: 64, is_block: true, block_type: Some(BlockType::Bedrock), tex_coords: (10, 0), creative_tab: Some(CreativeTab::Blocks), tool: None, armor: None },
            Item::Water => ItemDef { max_stack: 64, is_block: true, block_type: Some(BlockType::Water), tex_coords: (11, 0), creative_tab: Some(CreativeTab::Blocks), tool: None, armor: None },
            Item::CoalOre => ItemDef { max_stack: 64, is_block: true, block_type: Some(BlockType::CoalOre), tex_coords: (12, 0), creative_tab: Some(CreativeTab::Blocks), tool: None, armor: None },
            Item::IronOre => ItemDef { max_stack: 64, is_block: true, block_type: Some(BlockType::IronOre), tex_coords: (13, 0), creative_tab: Some(CreativeTab::Blocks), tool: None, armor: None },
            Item::GoldOre => ItemDef { max_stack: 64, is_block: true, block_type: Some(BlockType::GoldOre), tex_coords: (14, 0), creative_tab: Some(CreativeTab::Blocks), tool: None, armor: None },
            Item::DiamondOre => ItemDef { max_stack: 64, is_block: true, block_type: Some(BlockType::DiamondOre), tex_coords: (15, 0), creative_tab: Some(CreativeTab::Blocks), tool: None, armor: None },
            Item::RedstoneOre => ItemDef { max_stack: 64, is_block: true, block_type: Some(BlockType::RedstoneOre), tex_coords: (0, 1), creative_tab: Some(CreativeTab::Blocks), tool: None, armor: None },
            Item::Glass => ItemDef { max_stack: 64, is_block: true, block_type: Some(BlockType::Glass), tex_coords: (1, 1), creative_tab: Some(CreativeTab::Blocks), tool: None, armor: None },
            Item::Brick => ItemDef { max_stack: 64, is_block: true, block_type: Some(BlockType::Brick), tex_coords: (2, 1), creative_tab: Some(CreativeTab::Blocks), tool: None, armor: None },
            Item::StoneBrick => ItemDef { max_stack: 64, is_block: true, block_type: Some(BlockType::StoneBrick), tex_coords: (3, 1), creative_tab: Some(CreativeTab::Blocks), tool: None, armor: None },
            Item::Snow => ItemDef { max_stack: 64, is_block: true, block_type: Some(BlockType::Snow), tex_coords: (4, 1), creative_tab: Some(CreativeTab::Blocks), tool: None, armor: None },
            Item::Ice => ItemDef { max_stack: 64, is_block: true, block_type: Some(BlockType::Ice), tex_coords: (5, 1), creative_tab: Some(CreativeTab::Blocks), tool: None, armor: None },
            Item::Clay => ItemDef { max_stack: 64, is_block: true, block_type: Some(BlockType::Clay), tex_coords: (6, 1), creative_tab: Some(CreativeTab::Blocks), tool: None, armor: None },
            Item::Sandstone => ItemDef { max_stack: 64, is_block: true, block_type: Some(BlockType::Sandstone), tex_coords: (7, 1), creative_tab: Some(CreativeTab::Blocks), tool: None, armor: None },
            Item::Obsidian => ItemDef { max_stack: 64, is_block: true, block_type: Some(BlockType::Obsidian), tex_coords: (8, 1), creative_tab: Some(CreativeTab::Blocks), tool: None, armor: None },
            Item::CraftingTable => ItemDef { max_stack: 64, is_block: true, block_type: Some(BlockType::CraftingTable), tex_coords: (9, 1), creative_tab: Some(CreativeTab::Blocks), tool: None, armor: None },
            Item::Furnace => ItemDef { max_stack: 64, is_block: true, block_type: Some(BlockType::Furnace), tex_coords: (10, 1), creative_tab: Some(CreativeTab::Blocks), tool: None, armor: None },
            Item::Chest => ItemDef { max_stack: 64, is_block: true, block_type: Some(BlockType::Chest), tex_coords: (11, 1), creative_tab: Some(CreativeTab::Blocks), tool: None, armor: None },
            Item::TNT => ItemDef { max_stack: 64, is_block: true, block_type: Some(BlockType::TNT), tex_coords: (12, 1), creative_tab: Some(CreativeTab::Redstone), tool: None, armor: None },
            Item::Bookshelf => ItemDef { max_stack: 64, is_block: true, block_type: Some(BlockType::Bookshelf), tex_coords: (13, 1), creative_tab: Some(CreativeTab::Blocks), tool: None, armor: None },
            Item::Torch => ItemDef { max_stack: 64, is_block: true, block_type: Some(BlockType::Torch), tex_coords: (14, 1), creative_tab: Some(CreativeTab::Blocks), tool: None, armor: None },
            Item::Lava => ItemDef { max_stack: 64, is_block: true, block_type: Some(BlockType::Lava), tex_coords: (15, 1), creative_tab: Some(CreativeTab::Blocks), tool: None, armor: None },
            Item::Bed => ItemDef { max_stack: 1, is_block: true, block_type: Some(BlockType::Bed), tex_coords: (0, 2), creative_tab: None, tool: None, armor: None },
            Item::StoneSword => ItemDef { max_stack: 1, is_block: false, block_type: None, tex_coords: (1, 2), creative_tab: Some(CreativeTab::Combat), tool: Some(ToolInfo { tool_type: ToolType::Sword, material: ToolMaterial::Stone, durability: 131 }), armor: None },
            Item::StonePickaxe => ItemDef { max_stack: 1, is_block: false, block_type: None, tex_coords: (2, 2), creative_tab: Some(CreativeTab::Tools), tool: Some(ToolInfo { tool_type: ToolType::Pickaxe, material: ToolMaterial::Stone, durability: 131 }), armor: None },
            Item::StoneAxe => ItemDef { max_stack: 1, is_block: false, block_type: None, tex_coords: (3, 2), creative_tab: Some(CreativeTab::Tools), tool: Some(ToolInfo { tool_type: ToolType::Axe, material: ToolMaterial::Stone, durability: 131 }), armor: None },
            Item::StoneShovel => ItemDef { max_stack: 1, is_block: false, block_type: None, tex_coords: (4, 2), creative_tab: Some(CreativeTab::Tools), tool: Some(ToolInfo { tool_type: ToolType::Shovel, material: ToolMaterial::Stone, durability: 131 }), armor: None },
            Item::IronSword => ItemDef { max_stack: 1, is_block: false, block_type: None, tex_coords: (5, 2), creative_tab: Some(CreativeTab::Combat), tool: Some(ToolInfo { tool_type: ToolType::Sword, material: ToolMaterial::Iron, durability: 250 }), armor: None },
            Item::IronPickaxe => ItemDef { max_stack: 1, is_block: false, block_type: None, tex_coords: (6, 2), creative_tab: Some(CreativeTab::Tools), tool: Some(ToolInfo { tool_type: ToolType::Pickaxe, material: ToolMaterial::Iron, durability: 250 }), armor: None },
            Item::IronAxe => ItemDef { max_stack: 1, is_block: false, block_type: None, tex_coords: (7, 2), creative_tab: Some(CreativeTab::Tools), tool: Some(ToolInfo { tool_type: ToolType::Axe, material: ToolMaterial::Iron, durability: 250 }), armor: None },
            Item::IronShovel => ItemDef { max_stack: 1, is_block: false, block_type: None, tex_coords: (8, 2), creative_tab: Some(CreativeTab::Tools), tool: Some(ToolInfo { tool_type: ToolType::Shovel, material: ToolMaterial::Iron, durability: 250 }), armor: None },
            Item::DiamondSword => ItemDef { max_stack: 1, is_block: false, block_type: None, tex_coords: (9, 2), creative_tab: Some(CreativeTab::Combat), tool: Some(ToolInfo { tool_type: ToolType::Sword, material: ToolMaterial::Diamond, durability: 1561 }), armor: None },
            Item::DiamondPickaxe => ItemDef { max_stack: 1, is_block: false, block_type: None, tex_coords: (10, 2), creative_tab: Some(CreativeTab::Tools), tool: Some(ToolInfo { tool_type: ToolType::Pickaxe, material: ToolMaterial::Diamond, durability: 1561 }), armor: None },
            Item::DiamondAxe => ItemDef { max_stack: 1, is_block: false, block_type: None, tex_coords: (11, 2), creative_tab: Some(CreativeTab::Tools), tool: Some(ToolInfo { tool_type: ToolType::Axe, material: ToolMaterial::Diamond, durability: 1561 }), armor: None },
            Item::DiamondShovel => ItemDef { max_stack: 1, is_block: false, block_type: None, tex_coords: (12, 2), creative_tab: Some(CreativeTab::Tools), tool: Some(ToolInfo { tool_type: ToolType::Shovel, material: ToolMaterial::Diamond, durability: 1561 }), armor: None },
            Item::WoodenHoe => ItemDef { max_stack: 1, is_block: false, block_type: None, tex_coords: (13, 2), creative_tab: None, tool: Some(ToolInfo { tool_type: ToolType::Hoe, material: ToolMaterial::Wood, durability: 59 }), armor: None },
            Item::StoneHoe => ItemDef { max_stack: 1, is_block: false, block_type: None, tex_coords: (14, 2), creative_tab: None, tool: Some(ToolInfo { tool_type: ToolType::Hoe, material: ToolMaterial::Stone, durability: 131 }), armor: None },
            Item::IronHoe => ItemDef { max_stack: 1, is_block: false, block_type: None, tex_coords: (15, 2), creative_tab: None, tool: Some(ToolInfo { tool_type: ToolType::Hoe, material: ToolMaterial::Iron, durability: 250 }), armor: None },
            Item::GoldenHoe => ItemDef { max_stack: 1, is_block: false, block_type: None, tex_coords: (0, 3), creative_tab: None, tool: Some(ToolInfo { tool_type: ToolType::Hoe, material: ToolMaterial::Gold, durability: 32 }), armor: None },
            Item::DiamondHoe => ItemDef { max_stack: 1, is_block: false, block_type: None, tex_coords: (1, 3), creative_tab: None, tool: Some(ToolInfo { tool_type: ToolType::Hoe, material: ToolMaterial::Diamond, durability: 1561 }), armor: None },
            Item::Stick => ItemDef { max_stack: 64, is_block: false, block_type: None, tex_coords: (2, 3), creative_tab: Some(CreativeTab::Misc), tool: None, armor: None },
            Item::Coal => ItemDef { max_stack: 64, is_block: false, block_type: None, tex_coords: (3, 3), creative_tab: Some(CreativeTab::Misc), tool: None, armor: None },
            Item::IronIngot => ItemDef { max_stack: 64, is_block: false, block_type: None, tex_coords: (4, 3), creative_tab: Some(CreativeTab::Misc), tool: None, armor: None },
            Item::GoldIngot => ItemDef { max_stack: 64, is_block: false, block_type: None, tex_coords: (5, 3), creative_tab: Some(CreativeTab::Misc), tool: None, armor: None },
            Item::Diamond => ItemDef { max_stack: 64, is_block: false, block_type: None, tex_coords: (6, 3), creative_tab: Some(CreativeTab::Misc), tool: None, armor: None },
            Item::Redstone => ItemDef { max_stack: 64, is_block: false, block_type: None, tex_coords: (7, 3), creative_tab: Some(CreativeTab::Redstone), tool: None, armor: None },
            Item::BoneMeal => ItemDef { max_stack: 64, is_block: false, block_type: None, tex_coords: (8, 3), creative_tab: None, tool: None, armor: None },
            Item::Apple => ItemDef { max_stack: 64, is_block: false, block_type: None, tex_coords: (9, 3), creative_tab: Some(CreativeTab::FoodAndBrewing), tool: None, armor: None },
            Item::Bread => ItemDef { max_stack: 64, is_block: false, block_type: None, tex_coords: (10, 3), creative_tab: Some(CreativeTab::FoodAndBrewing), tool: None, armor: None },
            Item::Potato => ItemDef { max_stack: 64, is_block: false, block_type: None, tex_coords: (11, 3), creative_tab: None, tool: None, armor: None },
            Item::BakedPotato => ItemDef { max_stack: 64, is_block: false, block_type: None, tex_coords: (12, 3), creative_tab: None, tool: None, armor: None },
            Item::PoisonousPotato => ItemDef { max_stack: 64, is_block: false, block_type: None, tex_coords: (13, 3), creative_tab: None, tool: None, armor: None },
            Item::GoldenApple => ItemDef { max_stack: 64, is_block: false, block_type: None, tex_coords: (14, 3), creative_tab: None, tool: None, armor: None },
            Item::RottenFlesh => ItemDef { max_stack: 64, is_block: false, block_type: None, tex_coords: (8, 3), creative_tab: Some(CreativeTab::FoodAndBrewing), tool: None, armor: None },
            Item::Bone => ItemDef { max_stack: 64, is_block: false, block_type: None, tex_coords: (0, 4), creative_tab: Some(CreativeTab::Misc), tool: None, armor: None },
            Item::Bow => ItemDef { max_stack: 1, is_block: false, block_type: None, tex_coords: (1, 4), creative_tab: Some(CreativeTab::Combat), tool: None, armor: None },
            Item::Gunpowder => ItemDef { max_stack: 64, is_block: false, block_type: None, tex_coords: (2, 4), creative_tab: Some(CreativeTab::Misc), tool: None, armor: None },
            Item::Wheat => ItemDef { max_stack: 64, is_block: false, block_type: None, tex_coords: (3, 4), creative_tab: Some(CreativeTab::Misc), tool: None, armor: None },
            Item::Seeds => ItemDef { max_stack: 64, is_block: false, block_type: Some(BlockType::WheatCrop), tex_coords: (4, 4), creative_tab: Some(CreativeTab::Misc), tool: None, armor: None },
            Item::Carrot => ItemDef { max_stack: 64, is_block: false, block_type: None, tex_coords: (5, 4), creative_tab: Some(CreativeTab::FoodAndBrewing), tool: None, armor: None },
            Item::Shears => ItemDef { max_stack: 1, is_block: false, block_type: None, tex_coords: (6, 4), creative_tab: Some(CreativeTab::Tools), tool: None, armor: None },
            Item::Bucket => ItemDef { max_stack: 16, is_block: false, block_type: None, tex_coords: (7, 4), creative_tab: Some(CreativeTab::Tools), tool: None, armor: None },
            Item::MilkBucket => ItemDef { max_stack: 1, is_block: false, block_type: None, tex_coords: (8, 4), creative_tab: Some(CreativeTab::Tools), tool: None, armor: None },
            Item::RawPorkchop => ItemDef { max_stack: 64, is_block: false, block_type: None, tex_coords: (9, 4), creative_tab: Some(CreativeTab::FoodAndBrewing), tool: None, armor: None },
            Item::CookedPorkchop => ItemDef { max_stack: 64, is_block: false, block_type: None, tex_coords: (10, 4), creative_tab: Some(CreativeTab::FoodAndBrewing), tool: None, armor: None },
            Item::RawBeef => ItemDef { max_stack: 64, is_block: false, block_type: None, tex_coords: (11, 4), creative_tab: Some(CreativeTab::FoodAndBrewing), tool: None, armor: None },
            Item::CookedBeef => ItemDef { max_stack: 64, is_block: false, block_type: None, tex_coords: (12, 4), creative_tab: Some(CreativeTab::FoodAndBrewing), tool: None, armor: None },
            Item::RawMutton => ItemDef { max_stack: 64, is_block: false, block_type: None, tex_coords: (13, 4), creative_tab: Some(CreativeTab::FoodAndBrewing), tool: None, armor: None },
            Item::CookedMutton => ItemDef { max_stack: 64, is_block: false, block_type: None, tex_coords: (14, 4), creative_tab: Some(CreativeTab::FoodAndBrewing), tool: None, armor: None },
            Item::RawChicken => ItemDef { max_stack: 64, is_block: false, block_type: None, tex_coords: (15, 4), creative_tab: Some(CreativeTab::FoodAndBrewing), tool: None, armor: None },
            Item::CookedChicken => ItemDef { max_stack: 64, is_block: false, block_type: None, tex_coords: (0, 5), creative_tab: Some(CreativeTab::FoodAndBrewing), tool: None, armor: None },
            Item::Wool => ItemDef { max_stack: 64, is_block: true, block_type: Some(BlockType::Snow), tex_coords: (1, 5), creative_tab: Some(CreativeTab::Blocks), tool: None, armor: None },
            Item::Leather => ItemDef { max_stack: 64, is_block: false, block_type: None, tex_coords: (2, 5), creative_tab: Some(CreativeTab::Misc), tool: None, armor: None },
            Item::Feather => ItemDef { max_stack: 64, is_block: false, block_type: None, tex_coords: (3, 5), creative_tab: Some(CreativeTab::Misc), tool: None, armor: None },
            Item::Egg => ItemDef { max_stack: 16, is_block: false, block_type: None, tex_coords: (4, 5), creative_tab: Some(CreativeTab::FoodAndBrewing), tool: None, armor: None },
            Item::RedDye => ItemDef { max_stack: 64, is_block: false, block_type: None, tex_coords: (5, 5), creative_tab: Some(CreativeTab::Misc), tool: None, armor: None },
            Item::BlueDye => ItemDef { max_stack: 64, is_block: false, block_type: None, tex_coords: (6, 5), creative_tab: Some(CreativeTab::Misc), tool: None, armor: None },
            Item::GreenDye => ItemDef { max_stack: 64, is_block: false, block_type: None, tex_coords: (7, 5), creative_tab: Some(CreativeTab::Misc), tool: None, armor: None },
            Item::BirchLog => ItemDef { max_stack: 64, is_block: true, block_type: Some(BlockType::BirchLog), tex_coords: (8, 5), creative_tab: Some(CreativeTab::Blocks), tool: None, armor: None },
            Item::BirchPlanks => ItemDef { max_stack: 64, is_block: true, block_type: Some(BlockType::BirchPlanks), tex_coords: (9, 5), creative_tab: Some(CreativeTab::Blocks), tool: None, armor: None },
            Item::BirchLeaves => ItemDef { max_stack: 64, is_block: true, block_type: Some(BlockType::BirchLeaves), tex_coords: (10, 5), creative_tab: Some(CreativeTab::Blocks), tool: None, armor: None },
            Item::SpruceLog => ItemDef { max_stack: 64, is_block: true, block_type: Some(BlockType::SpruceLog), tex_coords: (11, 5), creative_tab: Some(CreativeTab::Blocks), tool: None, armor: None },
            Item::SprucePlanks => ItemDef { max_stack: 64, is_block: true, block_type: Some(BlockType::SprucePlanks), tex_coords: (12, 5), creative_tab: Some(CreativeTab::Blocks), tool: None, armor: None },
            Item::SpruceLeaves => ItemDef { max_stack: 64, is_block: true, block_type: Some(BlockType::SpruceLeaves), tex_coords: (13, 5), creative_tab: Some(CreativeTab::Blocks), tool: None, armor: None },
            Item::TallGrass => ItemDef { max_stack: 64, is_block: true, block_type: Some(BlockType::TallGrass), tex_coords: (14, 5), creative_tab: Some(CreativeTab::Blocks), tool: None, armor: None },
            Item::Dandelion => ItemDef { max_stack: 64, is_block: true, block_type: Some(BlockType::Dandelion), tex_coords: (15, 5), creative_tab: Some(CreativeTab::Blocks), tool: None, armor: None },
            Item::Poppy => ItemDef { max_stack: 64, is_block: true, block_type: Some(BlockType::Poppy), tex_coords: (0, 6), creative_tab: Some(CreativeTab::Blocks), tool: None, armor: None },
            Item::Cactus => ItemDef { max_stack: 64, is_block: true, block_type: Some(BlockType::Cactus), tex_coords: (1, 6), creative_tab: Some(CreativeTab::Blocks), tool: None, armor: None },
            Item::SugarCane => ItemDef { max_stack: 64, is_block: true, block_type: Some(BlockType::SugarCane), tex_coords: (2, 6), creative_tab: Some(CreativeTab::Blocks), tool: None, armor: None },
            Item::Pumpkin => ItemDef { max_stack: 64, is_block: true, block_type: Some(BlockType::Pumpkin), tex_coords: (3, 6), creative_tab: Some(CreativeTab::Blocks), tool: None, armor: None },
            Item::Melon => ItemDef { max_stack: 64, is_block: true, block_type: Some(BlockType::Melon), tex_coords: (4, 6), creative_tab: Some(CreativeTab::FoodAndBrewing), tool: None, armor: None },
            Item::EnchantingTable => ItemDef { max_stack: 64, is_block: true, block_type: Some(BlockType::EnchantingTable), tex_coords: (5, 6), creative_tab: Some(CreativeTab::Blocks), tool: None, armor: None },
            Item::BrewingStand => ItemDef { max_stack: 64, is_block: true, block_type: Some(BlockType::BrewingStand), tex_coords: (6, 6), creative_tab: Some(CreativeTab::Blocks), tool: None, armor: None },
            Item::Anvil => ItemDef { max_stack: 64, is_block: true, block_type: Some(BlockType::Anvil), tex_coords: (7, 6), creative_tab: Some(CreativeTab::Blocks), tool: None, armor: None },
            Item::LapisLazuli => ItemDef { max_stack: 64, is_block: false, block_type: None, tex_coords: (8, 6), creative_tab: Some(CreativeTab::Misc), tool: None, armor: None },
            Item::IronHelmet => ItemDef { max_stack: 1, is_block: false, block_type: None, tex_coords: (9, 6), creative_tab: Some(CreativeTab::Combat), tool: None, armor: Some(ArmorInfo { slot: ArmorSlot::Helmet, durability: 165 }) },
            Item::IronChestplate => ItemDef { max_stack: 1, is_block: false, block_type: None, tex_coords: (10, 6), creative_tab: Some(CreativeTab::Combat), tool: None, armor: Some(ArmorInfo { slot: ArmorSlot::Chestplate, durability: 240 }) },
            Item::IronLeggings => ItemDef { max_stack: 1, is_block: false, block_type: None, tex_coords: (11, 6), creative_tab: Some(CreativeTab::Combat), tool: None, armor: Some(ArmorInfo { slot: ArmorSlot::Leggings, durability: 225 }) },
            Item::IronBoots => ItemDef { max_stack: 1, is_block: false, block_type: None, tex_coords: (12, 6), creative_tab: Some(CreativeTab::Combat), tool: None, armor: Some(ArmorInfo { slot: ArmorSlot::Boots, durability: 195 }) },
            Item::GlassBottle => ItemDef { max_stack: 64, is_block: false, block_type: None, tex_coords: (13, 6), creative_tab: Some(CreativeTab::FoodAndBrewing), tool: None, armor: None },
            Item::Potion => ItemDef { max_stack: 1, is_block: false, block_type: None, tex_coords: (14, 6), creative_tab: Some(CreativeTab::FoodAndBrewing), tool: None, armor: None },
            Item::SplashPotion => ItemDef { max_stack: 1, is_block: false, block_type: None, tex_coords: (15, 6), creative_tab: Some(CreativeTab::FoodAndBrewing), tool: None, armor: None },
            Item::NetherWart => ItemDef { max_stack: 64, is_block: false, block_type: Some(BlockType::NetherWartCrop), tex_coords: (0, 7), creative_tab: Some(CreativeTab::FoodAndBrewing), tool: None, armor: None },
            Item::Sugar => ItemDef { max_stack: 64, is_block: false, block_type: None, tex_coords: (1, 7), creative_tab: Some(CreativeTab::FoodAndBrewing), tool: None, armor: None },
            Item::BlazePowder => ItemDef { max_stack: 64, is_block: false, block_type: None, tex_coords: (2, 7), creative_tab: Some(CreativeTab::FoodAndBrewing), tool: None, armor: None },
            Item::GlisteringMelon => ItemDef { max_stack: 64, is_block: false, block_type: None, tex_coords: (3, 7), creative_tab: Some(CreativeTab::FoodAndBrewing), tool: None, armor: None },
            Item::GhastTear => ItemDef { max_stack: 64, is_block: false, block_type: None, tex_coords: (4, 7), creative_tab: Some(CreativeTab::FoodAndBrewing), tool: None, armor: None },
            Item::GoldenCarrot => ItemDef { max_stack: 64, is_block: false, block_type: None, tex_coords: (5, 7), creative_tab: Some(CreativeTab::FoodAndBrewing), tool: None, armor: None },
            Item::FermentedSpiderEye => ItemDef { max_stack: 64, is_block: false, block_type: None, tex_coords: (6, 7), creative_tab: Some(CreativeTab::FoodAndBrewing), tool: None, armor: None },
            Item::MagmaCream => ItemDef { max_stack: 64, is_block: false, block_type: None, tex_coords: (7, 7), creative_tab: Some(CreativeTab::FoodAndBrewing), tool: None, armor: None },
            Item::Pufferfish => ItemDef { max_stack: 64, is_block: false, block_type: None, tex_coords: (8, 7), creative_tab: Some(CreativeTab::FoodAndBrewing), tool: None, armor: None },
            Item::SpiderEye => ItemDef { max_stack: 64, is_block: false, block_type: None, tex_coords: (9, 7), creative_tab: Some(CreativeTab::FoodAndBrewing), tool: None, armor: None },
            Item::GlowstoneDust => ItemDef { max_stack: 64, is_block: false, block_type: None, tex_coords: (10, 7), creative_tab: Some(CreativeTab::Misc), tool: None, armor: None },
            Item::RedstoneDust => ItemDef { max_stack: 64, is_block: false, block_type: None, tex_coords: (11, 7), creative_tab: Some(CreativeTab::Redstone), tool: None, armor: None },
            Item::Arrow => ItemDef { max_stack: 64, is_block: false, block_type: None, tex_coords: (12, 7), creative_tab: Some(CreativeTab::Combat), tool: None, armor: None },
            Item::RedstoneWire => ItemDef { max_stack: 64, is_block: true, block_type: Some(BlockType::RedstoneWire), tex_coords: (13, 7), creative_tab: Some(CreativeTab::Redstone), tool: None, armor: None },
            Item::RedstoneTorch => ItemDef { max_stack: 64, is_block: true, block_type: Some(BlockType::RedstoneTorch), tex_coords: (14, 7), creative_tab: Some(CreativeTab::Redstone), tool: None, armor: None },
            Item::Repeater => ItemDef { max_stack: 64, is_block: true, block_type: Some(BlockType::Repeater), tex_coords: (15, 7), creative_tab: Some(CreativeTab::Redstone), tool: None, armor: None },
            Item::Comparator => ItemDef { max_stack: 64, is_block: true, block_type: Some(BlockType::Comparator), tex_coords: (0, 8), creative_tab: Some(CreativeTab::Redstone), tool: None, armor: None },
            Item::StoneButton => ItemDef { max_stack: 64, is_block: true, block_type: Some(BlockType::StoneButton), tex_coords: (1, 8), creative_tab: Some(CreativeTab::Redstone), tool: None, armor: None },
            Item::Lever => ItemDef { max_stack: 64, is_block: true, block_type: Some(BlockType::Lever), tex_coords: (2, 8), creative_tab: Some(CreativeTab::Redstone), tool: None, armor: None },
            Item::PressurePlate => ItemDef { max_stack: 64, is_block: true, block_type: Some(BlockType::PressurePlate), tex_coords: (3, 8), creative_tab: Some(CreativeTab::Redstone), tool: None, armor: None },
            Item::Piston => ItemDef { max_stack: 64, is_block: true, block_type: Some(BlockType::Piston), tex_coords: (4, 8), creative_tab: Some(CreativeTab::Redstone), tool: None, armor: None },
            Item::StickyPiston => ItemDef { max_stack: 64, is_block: true, block_type: Some(BlockType::StickyPiston), tex_coords: (5, 8), creative_tab: Some(CreativeTab::Redstone), tool: None, armor: None },
            Item::RedstoneLamp => ItemDef { max_stack: 64, is_block: true, block_type: Some(BlockType::RedstoneLamp), tex_coords: (6, 8), creative_tab: Some(CreativeTab::Redstone), tool: None, armor: None },
            Item::OakDoor => ItemDef { max_stack: 64, is_block: true, block_type: Some(BlockType::OakDoor), tex_coords: (7, 8), creative_tab: Some(CreativeTab::Redstone), tool: None, armor: None },
            Item::OakTrapdoor => ItemDef { max_stack: 64, is_block: true, block_type: Some(BlockType::OakTrapdoor), tex_coords: (8, 8), creative_tab: Some(CreativeTab::Redstone), tool: None, armor: None },
            Item::Dispenser => ItemDef { max_stack: 64, is_block: true, block_type: Some(BlockType::Dispenser), tex_coords: (9, 8), creative_tab: Some(CreativeTab::Redstone), tool: None, armor: None },
            Item::Dropper => ItemDef { max_stack: 64, is_block: true, block_type: Some(BlockType::Dropper), tex_coords: (10, 8), creative_tab: Some(CreativeTab::Redstone), tool: None, armor: None },
            Item::NoteBlock => ItemDef { max_stack: 64, is_block: true, block_type: Some(BlockType::NoteBlock), tex_coords: (11, 8), creative_tab: Some(CreativeTab::Redstone), tool: None, armor: None },
            Item::Netherrack => ItemDef { max_stack: 64, is_block: true, block_type: Some(BlockType::Netherrack), tex_coords: (12, 8), creative_tab: Some(CreativeTab::Blocks), tool: None, armor: None },
            Item::SoulSand => ItemDef { max_stack: 64, is_block: true, block_type: Some(BlockType::SoulSand), tex_coords: (13, 8), creative_tab: Some(CreativeTab::Blocks), tool: None, armor: None },
            Item::Glowstone => ItemDef { max_stack: 64, is_block: true, block_type: Some(BlockType::Glowstone), tex_coords: (14, 8), creative_tab: Some(CreativeTab::Blocks), tool: None, armor: None },
            Item::EndStone => ItemDef { max_stack: 64, is_block: true, block_type: Some(BlockType::EndStone), tex_coords: (15, 8), creative_tab: Some(CreativeTab::Blocks), tool: None, armor: None },
            Item::EndPortalFrame => ItemDef { max_stack: 64, is_block: true, block_type: Some(BlockType::EndPortalFrame), tex_coords: (0, 9), creative_tab: Some(CreativeTab::Blocks), tool: None, armor: None },
            Item::Purpur => ItemDef { max_stack: 64, is_block: true, block_type: Some(BlockType::Purpur), tex_coords: (1, 9), creative_tab: Some(CreativeTab::Blocks), tool: None, armor: None },
            Item::DragonEgg => ItemDef { max_stack: 64, is_block: true, block_type: Some(BlockType::DragonEgg), tex_coords: (2, 9), creative_tab: Some(CreativeTab::Misc), tool: None, armor: None },
            Item::WitherSkeletonSkull => ItemDef { max_stack: 64, is_block: true, block_type: Some(BlockType::WitherSkeletonSkull), tex_coords: (3, 9), creative_tab: Some(CreativeTab::Misc), tool: None, armor: None },
            Item::NetherBrick => ItemDef { max_stack: 64, is_block: true, block_type: Some(BlockType::NetherBrick), tex_coords: (4, 9), creative_tab: Some(CreativeTab::Blocks), tool: None, armor: None },
            Item::FlintAndSteel => ItemDef { max_stack: 1, is_block: false, block_type: None, tex_coords: (5, 9), creative_tab: Some(CreativeTab::Tools), tool: None, armor: None },
            Item::EyeOfEnder => ItemDef { max_stack: 64, is_block: false, block_type: None, tex_coords: (6, 9), creative_tab: Some(CreativeTab::Tools), tool: None, armor: None },
            Item::Elytra => ItemDef { max_stack: 1, is_block: false, block_type: None, tex_coords: (7, 9), creative_tab: Some(CreativeTab::Combat), tool: None, armor: None },
            Item::NetherStar => ItemDef { max_stack: 64, is_block: false, block_type: None, tex_coords: (8, 9), creative_tab: Some(CreativeTab::Misc), tool: None, armor: None },
            Item::EndCrystal => ItemDef { max_stack: 64, is_block: false, block_type: None, tex_coords: (9, 9), creative_tab: Some(CreativeTab::Combat), tool: None, armor: None },
            Item::BlazeRod => ItemDef { max_stack: 64, is_block: false, block_type: None, tex_coords: (10, 9), creative_tab: Some(CreativeTab::Misc), tool: None, armor: None },
            Item::ShulkerShell => ItemDef { max_stack: 64, is_block: false, block_type: None, tex_coords: (11, 9), creative_tab: Some(CreativeTab::Misc), tool: None, armor: None },
            Item::OakSlab => ItemDef { max_stack: 64, is_block: true, block_type: Some(BlockType::OakSlab), tex_coords: (12, 9), creative_tab: Some(CreativeTab::Blocks), tool: None, armor: None },
            Item::CobblestoneSlab => ItemDef { max_stack: 64, is_block: true, block_type: Some(BlockType::CobblestoneSlab), tex_coords: (13, 9), creative_tab: Some(CreativeTab::Blocks), tool: None, armor: None },
            Item::OakStair => ItemDef { max_stack: 64, is_block: true, block_type: Some(BlockType::OakStair), tex_coords: (14, 9), creative_tab: Some(CreativeTab::Blocks), tool: None, armor: None },
            Item::CobblestoneStair => ItemDef { max_stack: 64, is_block: true, block_type: Some(BlockType::CobblestoneStair), tex_coords: (15, 9), creative_tab: Some(CreativeTab::Blocks), tool: None, armor: None },
            Item::OakFence => ItemDef { max_stack: 64, is_block: true, block_type: Some(BlockType::OakFence), tex_coords: (0, 10), creative_tab: Some(CreativeTab::Blocks), tool: None, armor: None },
            Item::OakFenceGate => ItemDef { max_stack: 64, is_block: true, block_type: Some(BlockType::OakFenceGate), tex_coords: (1, 10), creative_tab: Some(CreativeTab::Blocks), tool: None, armor: None },
            Item::CobblestoneWall => ItemDef { max_stack: 64, is_block: true, block_type: Some(BlockType::CobblestoneWall), tex_coords: (2, 10), creative_tab: Some(CreativeTab::Blocks), tool: None, armor: None },
            Item::GlassPane => ItemDef { max_stack: 64, is_block: true, block_type: Some(BlockType::GlassPane), tex_coords: (3, 10), creative_tab: Some(CreativeTab::Blocks), tool: None, armor: None },
            Item::OakLadder => ItemDef { max_stack: 64, is_block: true, block_type: Some(BlockType::OakLadder), tex_coords: (4, 10), creative_tab: Some(CreativeTab::Blocks), tool: None, armor: None },
            Item::OakSign => ItemDef { max_stack: 16, is_block: true, block_type: Some(BlockType::OakSign), tex_coords: (5, 10), creative_tab: Some(CreativeTab::Blocks), tool: None, armor: None },
            Item::WoodenSword => ItemDef { max_stack: 1, is_block: false, block_type: None, tex_coords: (6, 10), creative_tab: None, tool: Some(ToolInfo { tool_type: ToolType::Sword, material: ToolMaterial::Wood, durability: 59 }), armor: None },
            Item::WoodenPickaxe => ItemDef { max_stack: 1, is_block: false, block_type: None, tex_coords: (7, 10), creative_tab: None, tool: Some(ToolInfo { tool_type: ToolType::Pickaxe, material: ToolMaterial::Wood, durability: 59 }), armor: None },
            Item::WoodenAxe => ItemDef { max_stack: 1, is_block: false, block_type: None, tex_coords: (8, 10), creative_tab: None, tool: Some(ToolInfo { tool_type: ToolType::Axe, material: ToolMaterial::Wood, durability: 59 }), armor: None },
            Item::WoodenShovel => ItemDef { max_stack: 1, is_block: false, block_type: None, tex_coords: (9, 10), creative_tab: None, tool: Some(ToolInfo { tool_type: ToolType::Shovel, material: ToolMaterial::Wood, durability: 59 }), armor: None },
            Item::GoldenSword => ItemDef { max_stack: 1, is_block: false, block_type: None, tex_coords: (10, 10), creative_tab: None, tool: Some(ToolInfo { tool_type: ToolType::Sword, material: ToolMaterial::Gold, durability: 32 }), armor: None },
            Item::GoldenPickaxe => ItemDef { max_stack: 1, is_block: false, block_type: None, tex_coords: (11, 10), creative_tab: None, tool: Some(ToolInfo { tool_type: ToolType::Pickaxe, material: ToolMaterial::Gold, durability: 32 }), armor: None },
            Item::GoldenAxe => ItemDef { max_stack: 1, is_block: false, block_type: None, tex_coords: (12, 10), creative_tab: None, tool: Some(ToolInfo { tool_type: ToolType::Axe, material: ToolMaterial::Gold, durability: 32 }), armor: None },
            Item::GoldenShovel => ItemDef { max_stack: 1, is_block: false, block_type: None, tex_coords: (13, 10), creative_tab: None, tool: Some(ToolInfo { tool_type: ToolType::Shovel, material: ToolMaterial::Gold, durability: 32 }), armor: None },
            Item::LeatherHelmet => ItemDef { max_stack: 1, is_block: false, block_type: None, tex_coords: (14, 10), creative_tab: None, tool: None, armor: Some(ArmorInfo { slot: ArmorSlot::Helmet, durability: 55 }) },
            Item::LeatherChestplate => ItemDef { max_stack: 1, is_block: false, block_type: None, tex_coords: (15, 10), creative_tab: None, tool: None, armor: Some(ArmorInfo { slot: ArmorSlot::Chestplate, durability: 80 }) },
            Item::LeatherLeggings => ItemDef { max_stack: 1, is_block: false, block_type: None, tex_coords: (0, 11), creative_tab: None, tool: None, armor: Some(ArmorInfo { slot: ArmorSlot::Leggings, durability: 75 }) },
            Item::LeatherBoots => ItemDef { max_stack: 1, is_block: false, block_type: None, tex_coords: (1, 11), creative_tab: None, tool: None, armor: Some(ArmorInfo { slot: ArmorSlot::Boots, durability: 65 }) },
            Item::GoldenHelmet => ItemDef { max_stack: 1, is_block: false, block_type: None, tex_coords: (2, 11), creative_tab: None, tool: None, armor: Some(ArmorInfo { slot: ArmorSlot::Helmet, durability: 77 }) },
            Item::GoldenChestplate => ItemDef { max_stack: 1, is_block: false, block_type: None, tex_coords: (3, 11), creative_tab: None, tool: None, armor: Some(ArmorInfo { slot: ArmorSlot::Chestplate, durability: 112 }) },
            Item::GoldenLeggings => ItemDef { max_stack: 1, is_block: false, block_type: None, tex_coords: (4, 11), creative_tab: None, tool: None, armor: Some(ArmorInfo { slot: ArmorSlot::Leggings, durability: 105 }) },
            Item::GoldenBoots => ItemDef { max_stack: 1, is_block: false, block_type: None, tex_coords: (5, 11), creative_tab: None, tool: None, armor: Some(ArmorInfo { slot: ArmorSlot::Boots, durability: 91 }) },
            Item::DiamondHelmet => ItemDef { max_stack: 1, is_block: false, block_type: None, tex_coords: (6, 11), creative_tab: None, tool: None, armor: Some(ArmorInfo { slot: ArmorSlot::Helmet, durability: 363 }) },
            Item::DiamondChestplate => ItemDef { max_stack: 1, is_block: false, block_type: None, tex_coords: (7, 11), creative_tab: None, tool: None, armor: Some(ArmorInfo { slot: ArmorSlot::Chestplate, durability: 528 }) },
            Item::DiamondLeggings => ItemDef { max_stack: 1, is_block: false, block_type: None, tex_coords: (8, 11), creative_tab: None, tool: None, armor: Some(ArmorInfo { slot: ArmorSlot::Leggings, durability: 495 }) },
            Item::DiamondBoots => ItemDef { max_stack: 1, is_block: false, block_type: None, tex_coords: (9, 11), creative_tab: None, tool: None, armor: Some(ArmorInfo { slot: ArmorSlot::Boots, durability: 429 }) },
            Item::Shield => ItemDef { max_stack: 1, is_block: false, block_type: None, tex_coords: (10, 11), creative_tab: None, tool: None, armor: None },
            Item::Saddle => ItemDef { max_stack: 1, is_block: false, block_type: None, tex_coords: (11, 11), creative_tab: None, tool: None, armor: None },
            Item::Emerald => ItemDef { max_stack: 64, is_block: false, block_type: None, tex_coords: (12, 11), creative_tab: None, tool: None, armor: None },
            Item::Book => ItemDef { max_stack: 64, is_block: false, block_type: None, tex_coords: (13, 11), creative_tab: None, tool: None, armor: None },
            Item::Paper => ItemDef { max_stack: 64, is_block: false, block_type: None, tex_coords: (14, 11), creative_tab: None, tool: None, armor: None },
            Item::EnchantedBook => ItemDef { max_stack: 1, is_block: false, block_type: None, tex_coords: (15, 11), creative_tab: None, tool: None, armor: None },
            Item::Compass => ItemDef { max_stack: 64, is_block: false, block_type: None, tex_coords: (0, 12), creative_tab: None, tool: None, armor: None },
            Item::String => ItemDef { max_stack: 64, is_block: false, block_type: None, tex_coords: (1, 12), creative_tab: None, tool: None, armor: None },
            Item::Slimeball => ItemDef { max_stack: 64, is_block: false, block_type: None, tex_coords: (2, 12), creative_tab: None, tool: None, armor: None },
            Item::RawCod => ItemDef { max_stack: 64, is_block: false, block_type: None, tex_coords: (3, 12), creative_tab: None, tool: None, armor: None },
            Item::RawSalmon => ItemDef { max_stack: 64, is_block: false, block_type: None, tex_coords: (4, 12), creative_tab: None, tool: None, armor: None },
            Item::InkSac => ItemDef { max_stack: 64, is_block: false, block_type: None, tex_coords: (5, 12), creative_tab: None, tool: None, armor: None },
            Item::OakBoat => ItemDef { max_stack: 1, is_block: false, block_type: None, tex_coords: (6, 12), creative_tab: None, tool: None, armor: None },
            Item::Minecart => ItemDef { max_stack: 1, is_block: false, block_type: None, tex_coords: (7, 12), creative_tab: None, tool: None, armor: None },
            Item::Rail => ItemDef { max_stack: 64, is_block: true, block_type: Some(BlockType::Rail), tex_coords: (8, 12), creative_tab: None, tool: None, armor: None },
            Item::PoweredRail => ItemDef { max_stack: 64, is_block: true, block_type: Some(BlockType::PoweredRail), tex_coords: (9, 12), creative_tab: None, tool: None, armor: None },
            Item::DetectorRail => ItemDef { max_stack: 64, is_block: true, block_type: Some(BlockType::DetectorRail), tex_coords: (10, 12), creative_tab: None, tool: None, armor: None },
            Item::ActivatorRail => ItemDef { max_stack: 64, is_block: true, block_type: Some(BlockType::ActivatorRail), tex_coords: (11, 12), creative_tab: None, tool: None, armor: None },
            Item::Clock => ItemDef { max_stack: 64, is_block: false, block_type: None, tex_coords: (12, 12), creative_tab: None, tool: None, armor: None },
            Item::MapItem => ItemDef { max_stack: 64, is_block: false, block_type: None, tex_coords: (13, 12), creative_tab: None, tool: None, armor: None },
            Item::FishingRod => ItemDef { max_stack: 1, is_block: false, block_type: None, tex_coords: (14, 12), creative_tab: None, tool: None, armor: None },
            Item::RawFish => ItemDef { max_stack: 64, is_block: false, block_type: None, tex_coords: (15, 12), creative_tab: None, tool: None, armor: None },
            Item::TropicalFish => ItemDef { max_stack: 64, is_block: false, block_type: None, tex_coords: (0, 13), creative_tab: None, tool: None, armor: None },
            Item::LilyPad => ItemDef { max_stack: 64, is_block: true, block_type: Some(BlockType::LilyPad), tex_coords: (1, 13), creative_tab: None, tool: None, armor: None },
            Item::WaterBucket => ItemDef { max_stack: 1, is_block: false, block_type: None, tex_coords: (2, 13), creative_tab: None, tool: None, armor: None },
            Item::LavaBucket => ItemDef { max_stack: 1, is_block: false, block_type: None, tex_coords: (3, 13), creative_tab: None, tool: None, armor: None },
            Item::Hopper => ItemDef { max_stack: 64, is_block: true, block_type: Some(BlockType::Hopper), tex_coords: (4, 13), creative_tab: None, tool: None, armor: None },
            Item::Observer => ItemDef { max_stack: 64, is_block: true, block_type: Some(BlockType::Observer), tex_coords: (5, 13), creative_tab: None, tool: None, armor: None },
        }
    }

    pub open spec fn spec_name(self) -> Seq<char> {
        match self {
            Item::Air => "Air"@,
            Item::Grass => "Grass Block"@,
            Item::Dirt => "Dirt"@,
            Item::Stone => "Stone"@,
            Item::Sand => "Sand"@,
            Item::Gravel => "Gravel"@,
            Item::OakLog => "Oak Log"@,
            Item::OakPlanks => "Oak Planks"@,
            Item::OakLeaves => "Oak Leaves"@,
            Item::Cobblestone => "Cobblestone"@,
            Item::Bedrock => "Bedrock"@,
            Item::Water => "Water"@,
            Item::CoalOre => "Coal Ore"@,
            Item::IronOre => "Iron Ore"@,
            Item::GoldOre => "Gold Ore"@,
            Item::DiamondOre => "Diamond Ore"@,
            Item::RedstoneOre => "Redstone Ore"@,
            Item::Glass => "Glass"@,
            Item::Brick => "Brick"@,
            Item::StoneBrick => "Stone Brick"@,
            Item::Snow => "Snow"@,
            Item::Ice => "Ice"@,
            Item::Clay => "Clay"@,
            Item::Sandstone => "Sandstone"@,
            Item::Obsidian => "Obsidian"@,
            Item::CraftingTable => "Crafting Table"@,
            Item::Furnace => "Furnace"@,
            Item::Chest => "Chest"@,
            Item::TNT => "TNT"@,
            Item::Bookshelf => "Bookshelf"@,
            Item::Torch => "Torch"@,
            Item::Lava => "Lava"@,
            Item::Bed => "Bed"@,
            Item::StoneSword => "Stone Sword"@,
            Item::StonePickaxe => "Stone Pickaxe"@,
            Item::StoneAxe => "Stone Axe"@,
            Item::StoneShovel => "Stone Shovel"@,
            Item::IronSword => "Iron Sword"@,
            Item::IronPickaxe => "Iron Pickaxe"@,
            Item::IronAxe => "Iron Axe"@,
            Item::IronShovel => "Iron Shovel"@,
            Item::DiamondSword => "Diamond Sword"@,
            Item::DiamondPickaxe => "Diamond Pickaxe"@,
            Item::DiamondAxe => "Diamond Axe"@,
            Item::DiamondShovel => "Diamond Shovel"@,
            Item::WoodenHoe => "Wooden Hoe"@,
            Item::StoneHoe => "Stone Hoe"@,
            Item::IronHoe => "Iron Hoe"@,
            Item::GoldenHoe => "Golden Hoe"@,
            Item::DiamondHoe => "Diamond Hoe"@,
            Item::Stick => "Stick"@,
            Item::Coal => "Coal"@,
            Item::IronIngot => "Iron Ingot"@,
            Item::GoldIngot => "Gold Ingot"@,
            Item::Diamond => "Diamond"@,
            Item::Redstone => "Redstone"@,
            Item::BoneMeal => "Bone Meal"@,
            Item::Apple => "Apple"@,
            Item::Bread => "Bread"@,
            Item::Potato => "Potato"@,
            Item::BakedPotato => "Baked Potato"@,
            Item::PoisonousPotato => "Poisonous Potato"@,
            Item::GoldenApple => "Golden Apple"@,
            Item::RottenFlesh => "Rotten Flesh"@,
            Item::Bone => "Bone"@,
            Item::Bow => "Bow"@,
            Item::Gunpowder => "Gunpowder"@,
            Item::Wheat => "Wheat"@,
            Item::Seeds => "Wheat Seeds"@,
            Item::Carrot => "Carrot"@,
            Item::Shears => "Shears"@,
            Item::Bucket => "Bucket"@,
            Item::MilkBucket => "Milk Bucket"@,
            Item::RawPorkchop => "Raw Porkchop"@,
            Item::CookedPorkchop => "Cooked Porkchop"@,
            Item::RawBeef => "Raw Beef"@,
            Item::CookedBeef => "Cooked Beef"@,
            Item::RawMutton => "Raw Mutton"@,
            Item::CookedMutton => "Cooked Mutton"@,
            Item::RawChicken => "Raw Chicken"@,
            Item::CookedChicken => "Cooked Chicken"@,
            Item::Wool => "Wool"@,
            Item::Leather => "Leather"@,
            Item::Feather => "Feather"@,
            Item::Egg => "Egg"@,
            Item::RedDye => "Red Dye"@,
            Item::BlueDye => "Blue Dye"@,
            Item::GreenDye => "Green Dye"@,
            Item::BirchLog => "Birch Log"@,
            Item::BirchPlanks => "Birch Planks"@,
            Item::BirchLeaves => "Birch Leaves"@,
            Item::SpruceLog => "Spruce Log"@,
            Item::SprucePlanks => "Spruce Planks"@,
            Item::SpruceLeaves => "Spruce Leaves"@,
            Item::TallGrass => "Tall Grass"@,
            Item::Dandelion => "Dandelion"@,
            Item::Poppy => "Poppy"@,
            Item::Cactus => "Cactus"@,
            Item::SugarCane => "Sugar Cane"@,
            Item::Pumpkin => "Pumpkin"@,
            Item::Melon => "Melon"@,
            Item::EnchantingTable => "Enchanting Table"@,
            Item::BrewingStand => "Brewing Stand"@,
            Item::Anvil => "Anvil"@,
            Item::LapisLazuli => "Lapis Lazuli"@,
            Item::IronHelmet => "Iron Helmet"@,
            Item::IronChestplate => "Iron Chestplate"@,
            Item::IronLeggings => "Iron Leggings"@,
            Item::IronBoots => "Iron Boots"@,
            Item::GlassBottle => "Glass Bottle"@,
            Item::Potion => "Potion"@,
            Item::SplashPotion => "Splash Potion"@,
            Item::NetherWart => "Nether Wart"@,
            Item::Sugar => "Sugar"@,
            Item::BlazePowder => "Blaze Powder"@,
            Item::GlisteringMelon => "Glistering Melon"@,
            Item::GhastTear => "Ghast Tear"@,
            Item::GoldenCarrot => "Golden Carrot"@,
            Item::FermentedSpiderEye => "Fermented Spider Eye"@,
            Item::MagmaCream => "Magma Cream"@,
            Item::Pufferfish => "Pufferfish"@,
            Item::SpiderEye => "Spider Eye"@,
            Item::GlowstoneDust => "Glowstone Dust"@,
            Item::RedstoneDust => "Redstone Dust"@,
            Item::Arrow => "Arrow"@,
            Item::RedstoneWire => "Redstone Wire"@,
            Item::RedstoneTorch => "Redstone Torch"@,
            Item::Repeater => "Repeater"@,
            Item::Comparator => "Comparator"@,
            Item::StoneButton => "Stone Button"@,
            Item::Lever => "Lever"@,
            Item::PressurePlate => "Pressure Plate"@,
            Item::Piston => "Piston"@,
            Item::StickyPiston => "Sticky Piston"@,
            Item::RedstoneLamp => "Redstone Lamp"@,
            Item::OakDoor => "Oak Door"@,
            Item::OakTrapdoor => "Oak Trapdoor"@,
            Item::Dispenser => "Dispenser"@,
            Item::Dropper => "Dropper"@,
            Item::NoteBlock => "Note Block"@,
            Item::Netherrack => "Netherrack"@,
            Item::SoulSand => "Soul Sand"@,
            Item::Glowstone => "Glowstone"@,
            Item::EndStone => "End Stone"@,
            Item::EndPortalFrame => "End Portal Frame"@,
            Item::Purpur => "Purpur"@,
            Item::DragonEgg => "Dragon Egg"@,
            Item::WitherSkeletonSkull => "Wither Skeleton Skull"@,
            Item::NetherBrick => "Nether Brick"@,
            Item::FlintAndSteel => "Flint And Steel"@,
            Item::EyeOfEnder => "Eye Of Ender"@,
            Item::Elytra => "Elytra"@,
            Item::NetherStar => "Nether Star"@,
            Item::EndCrystal => "End Crystal"@,
            Item::BlazeRod => "Blaze Rod"@,
            Item::ShulkerShell => "Shulker Shell"@,
            Item::OakSlab => "Oak Slab"@,
            Item::CobblestoneSlab => "Cobblestone Slab"@,
            Item::OakStair => "Oak Stair"@,
            Item::CobblestoneStair => "Cobblestone Stair"@,
            Item::OakFence => "Oak Fence"@,
            Item::OakFenceGate => "Oak Fence Gate"@,
            Item::CobblestoneWall => "Cobblestone Wall"@,
            Item::GlassPane => "Glass Pane"@,
            Item::OakLadder => "Oak Ladder"@,
            Item::OakSign => "Oak Sign"@,
            Item::WoodenSword => "Wooden Sword"@,
            Item::WoodenPickaxe => "Wooden Pickaxe"@,
            Item::WoodenAxe => "Wooden Axe"@,
            Item::WoodenShovel => "Wooden Shovel"@,
            Item::GoldenSword => "Golden Sword"@,
            Item::GoldenPickaxe => "Golden Pickaxe"@,
            Item::GoldenAxe => "Golden Axe"@,
            Item::GoldenShovel => "Golden Shovel"@,
            Item::LeatherHelmet => "Leather Helmet"@,
            Item::LeatherChestplate => "Leather Chestplate"@,
            Item::LeatherLeggings => "Leather Leggings"@,
            Item::LeatherBoots => "Leather Boots"@,
            Item::GoldenHelmet => "Golden Helmet"@,
            Item::GoldenChestplate => "Golden Chestplate"@,
            Item::GoldenLeggings => "Golden Leggings"@,
            Item::GoldenBoots => "Golden Boots"@,
            Item::DiamondHelmet => "Diamond Helmet"@,
            Item::DiamondChestplate => "Diamond Chestplate"@,
            Item::DiamondLeggings => "Diamond Leggings"@,
            Item::DiamondBoots => "Diamond Boots"@,
            Item::Shield => "Shield"@,
            Item::Saddle => "Saddle"@,
            Item::Emerald => "Emerald"@,
            Item::Book => "Book"@,
            Item::Paper => "Paper"@,
            Item::EnchantedBook => "Enchanted Book"@,
            Item::Compass => "Compass"@,
            Item::String => "String"@,
            Item::Slimeball => "Slimeball"@,
            Item::RawCod => "Raw Cod"@,
            Item::RawSalmon => "Raw Salmon"@,
            Item::InkSac => "Ink Sac"@,
            Item::OakBoat => "Oak Boat"@,
            Item::Minecart => "Minecart"@,
            Item::Rail => "Rail"@,
            Item::PoweredRail => "Powered Rail"@,
            Item::DetectorRail => "Detector Rail"@,
            Item::ActivatorRail => "Activator Rail"@,
            Item::Clock => "Clock"@,
            Item::MapItem => "Map Item"@,
            Item::FishingRod => "Fishing Rod"@,
            Item::RawFish => "Raw Fish"@,
            Item::TropicalFish => "Tropical Fish"@,
            Item::LilyPad => "Lily Pad"@,
            Item::WaterBucket => "Water Bucket"@,
            Item::LavaBucket => "Lava Bucket"@,
            Item::Hopper => "Hopper"@,
            Item::Observer => "Observer"@,
        }
    }

    /// Display name of this kind.
    pub fn name(self) -> (r: &'static str)
        ensures
            r@ == self.spec_name(),
    {
        match self {
            Item::Air => "Air",
            Item::Grass => "Grass Block",
            Item::Dirt => "Dirt",
            Item::Stone => "Stone",
            Item::Sand => "Sand",
            Item::Gravel => "Gravel",
            Item::OakLog => "Oak Log",
            Item::OakPlanks => "Oak Planks",
            Item::OakLeaves => "Oak Leaves",
            Item::Cobblestone => "Cobblestone",
            Item::Bedrock => "Bedrock",
            Item::Water => "Water",
            Item::CoalOre => "Coal Ore",
            Item::IronOre => "Iron Ore",
            Item::GoldOre => "Gold Ore",
            Item::DiamondOre => "Diamond Ore",
            Item::RedstoneOre => "Redstone Ore",
            Item::Glass => "Glass",
            Item::Brick => "Brick",
            Item::StoneBrick => "Stone Brick",
            Item::Snow => "Snow",
            Item::Ice => "Ice",
            Item::Clay => "Clay",
            Item::Sandstone => "Sandstone",
            Item::Obsidian => "Obsidian",
            Item::CraftingTable => "Crafting Table",
            Item::Furnace => "Furnace",
            Item::Chest => "Chest",
            Item::TNT => "TNT",
            Item::Bookshelf => "Bookshelf",
            Item::Torch => "Torch",
            Item::Lava => "Lava",
            Item::Bed => "Bed",
            Item::StoneSword => "Stone Sword",
            Item::StonePickaxe => "Stone Pickaxe",
            Item::StoneAxe => "Stone Axe",
            Item::StoneShovel => "Stone Shovel",
            Item::IronSword => "Iron Sword",
            Item::IronPickaxe => "Iron Pickaxe",
            Item::IronAxe => "Iron Axe",
            Item::IronShovel => "Iron Shovel",
            Item::DiamondSword => "Diamond Sword",
            Item::DiamondPickaxe => "Diamond Pickaxe",
            Item::DiamondAxe => "Diamond Axe",
            Item::DiamondShovel => "Diamond Shovel",
            Item::WoodenHoe => "Wooden Hoe",
            Item::StoneHoe => "Stone Hoe",
            Item::IronHoe => "Iron Hoe",
            Item::GoldenHoe => "Golden Hoe",
            Item::DiamondHoe => "Diamond Hoe",
            Item::Stick => "Stick",
            Item::Coal => "Coal",
            Item::IronIngot => "Iron Ingot",
            Item::GoldIngot => "Gold Ingot",
            Item::Diamond => "Diamond",
            Item::Redstone => "Redstone",
            Item::BoneMeal => "Bone Meal",
            Item::Apple => "Apple",
            Item::Bread => "Bread",
            Item::Potato => "Potato",
            Item::BakedPotato => "Baked Potato",
            Item::PoisonousPotato => "Poisonous Potato",
            Item::GoldenApple => "Golden Apple",
            Item::RottenFlesh => "Rotten Flesh",
            Item::Bone => "Bone",
            Item::Bow => "Bow",
            Item::Gunpowder => "Gunpowder",
            Item::Wheat => "Wheat",
            Item::Seeds => "Wheat Seeds",
            Item::Carrot => "Carrot",
            Item::Shears => "Shears",
            Item::Bucket => "Bucket",
            Item::MilkBucket => "Milk Bucket",
            Item::RawPorkchop => "Raw Porkchop",
            Item::CookedPorkchop => "Cooked Porkchop",
            Item::RawBeef => "Raw Beef",
            Item::CookedBeef => "Cooked Beef",
            Item::RawMutton => "Raw Mutton",
            Item::CookedMutton => "Cooked Mutton",
            Item::RawChicken => "Raw Chicken",
            Item::CookedChicken => "Cooked Chicken",
            Item::Wool => "Wool",
            Item::Leather => "Leather",
            Item::Feather => "Feather",
            Item::Egg => "Egg",
            Item::RedDye => "Red Dye",
            Item::BlueDye => "Blue Dye",
            Item::GreenDye => "Green Dye",
            Item::BirchLog => "Birch Log",
            Item::BirchPlanks => "Birch Planks",
            Item::BirchLeaves => "Birch Leaves",
            Item::SpruceLog => "Spruce Log",
            Item::SprucePlanks => "Spruce Planks",
            Item::SpruceLeaves => "Spruce Leaves",
            Item::TallGrass => "Tall Grass",
            Item::Dandelion => "Dandelion",
            Item::Poppy => "Poppy",
            Item::Cactus => "Cactus",
            Item::SugarCane => "Sugar Cane",
            Item::Pumpkin => "Pumpkin",
            Item::Melon => "Melon",
            Item::EnchantingTable => "Enchanting Table",
            Item::BrewingStand => "Brewing Stand",
            Item::Anvil => "Anvil",
            Item::LapisLazuli => "Lapis Lazuli",
            Item::IronHelmet => "Iron Helmet",
            Item::IronChestplate => "Iron Chestplate",
            Item::IronLeggings => "Iron Leggings",
            Item::IronBoots => "Iron Boots",
            Item::GlassBottle => "Glass Bottle",
            Item::Potion => "Potion",
            Item::SplashPotion => "Splash Potion",
            Item::NetherWart => "Nether Wart",
            Item::Sugar => "Sugar",
            Item::BlazePowder => "Blaze Powder",
            Item::GlisteringMelon => "Glistering Melon",
            Item::GhastTear => "Ghast Tear",
            Item::GoldenCarrot => "Golden Carrot",
            Item::FermentedSpiderEye => "Fermented Spider Eye",
            Item::MagmaCream => "Magma Cream",
            Item::Pufferfish => "Pufferfish",
            Item::SpiderEye => "Spider Eye",
            Item::GlowstoneDust => "Glowstone Dust",
            Item::RedstoneDust => "Redstone Dust",
            Item::Arrow => "Arrow",
            Item::RedstoneWire => "Redstone Wire",
            Item::RedstoneTorch => "Redstone Torch",
            Item::Repeater => "Repeater",
            Item::Comparator => "Comparator",
            Item::StoneButton => "Stone Button",
            Item::Lever => "Lever",
            Item::PressurePlate => "Pressure Plate",
            Item::Piston => "Piston",
            Item::StickyPiston => "Sticky Piston",
            Item::RedstoneLamp => "Redstone Lamp",
            Item::OakDoor => "Oak Door",
            Item::OakTrapdoor => "Oak Trapdoor",
            Item::Dispenser => "Dispenser",
            Item::Dropper => "Dropper",
            Item::NoteBlock => "Note Block",
            Item::Netherrack => "Netherrack",
            Item::SoulSand => "Soul Sand",
            Item::Glowstone => "Glowstone",
            Item::EndStone => "End Stone",
            Item::EndPortalFrame => "End Portal Frame",
            Item::Purpur => "Purpur",
            Item::DragonEgg => "Dragon Egg",
            Item::WitherSkeletonSkull => "Wither Skeleton Skull",
            Item::NetherBrick => "Nether Brick",
            Item::FlintAndSteel => "Flint And Steel",
            Item::EyeOfEnder => "Eye Of Ender",
            Item::Elytra => "Elytra",
            Item::NetherStar => "Nether Star",
            Item::EndCrystal => "End Crystal",
            Item::BlazeRod => "Blaze Rod",
            Item::ShulkerShell => "Shulker Shell",
            Item::OakSlab => "Oak Slab",
            Item::CobblestoneSlab => "Cobblestone Slab",
            Item::OakStair => "Oak Stair",
            Item::CobblestoneStair => "Cobblestone Stair",
            Item::OakFence => "Oak Fence",
            Item::OakFenceGate => "Oak Fence Gate",
            Item::CobblestoneWall => "Cobblestone Wall",
            Item::GlassPane => "Glass Pane",
            Item::OakLadder => "Oak Ladder",
            Item::OakSign => "Oak Sign",
            Item::WoodenSword => "Wooden Sword",
            Item::WoodenPickaxe => "Wooden Pickaxe",
            Item::WoodenAxe => "Wooden Axe",
            Item::WoodenShovel => "Wooden Shovel",
            Item::GoldenSword => "Golden Sword",
            Item::GoldenPickaxe => "Golden Pickaxe",
            Item::GoldenAxe => "Golden Axe",
            Item::GoldenShovel => "Golden Shovel",
            Item::LeatherHelmet => "Leather Helmet",
            Item::LeatherChestplate => "Leather Chestplate",
            Item::LeatherLeggings => "Leather Leggings",
            Item::LeatherBoots => "Leather Boots",
            Item::GoldenHelmet => "Golden Helmet",
            Item::GoldenChestplate => "Golden Chestplate",
            Item::GoldenLeggings => "Golden Leggings",
            Item::GoldenBoots => "Golden Boots",
            Item::DiamondHelmet => "Diamond Helmet",
            Item::DiamondChestplate => "Diamond Chestplate",
            Item::DiamondLeggings => "Diamond Leggings",
            Item::DiamondBoots => "Diamond Boots",
            Item::Shield => "Shield",
            Item::Saddle => "Saddle",
            Item::Emerald => "Emerald",
            Item::Book => "Book",
            Item::Paper => "Paper",
            Item::EnchantedBook => "Enchanted Book",
            Item::Compass => "Compass",
            Item::String => "String",
            Item::Slimeball => "Slimeball",
            Item::RawCod => "Raw Cod",
            Item::RawSalmon => "Raw Salmon",
            Item::InkSac => "Ink Sac",
            Item::OakBoat => "Oak Boat",
            Item::Minecart => "Minecart",
            Item::Rail => "Rail",
            Item::PoweredRail => "Powered Rail",
            Item::DetectorRail => "Detector Rail",
            Item::ActivatorRail => "Activator Rail",
            Item::Clock => "Clock",
            Item::MapItem => "Map Item",
            Item::FishingRod => "Fishing Rod",
            Item::RawFish => "Raw Fish",
            Item::TropicalFish => "Tropical Fish",
            Item::LilyPad => "Lily Pad",
            Item::WaterBucket => "Water Bucket",
            Item::LavaBucket => "Lava Bucket",
            Item::Hopper => "Hopper",
            Item::Observer => "Observer",
        }
    }
}

impl Item {
    /// How many of this kind fit in one slot.
    pub open spec fn spec_max_stack(self) -> u32 {
        self.spec_def().max_stack
    }

    /// Creative tab of this kind, if the creative catalog shows it.
    pub fn creative_tab(self) -> (r: Option<CreativeTab>)
        ensures
            r == self.spec_def().creative_tab,
    {
        self.def().creative_tab
    }

    /// Tool data of this kind, if it is a tool.
    pub fn tool_info(self) -> (r: Option<ToolInfo>)
        ensures
            r == self.spec_def().tool,
    {
        self.def().tool
    }

    /// Armor data of this kind, if it is an armor piece.
    pub fn armor_info(self) -> (r: Option<ArmorInfo>)
        ensures
            r == self.spec_def().armor,
    {
        self.def().armor
    }

    /// True for armor pieces.
    pub fn is_armor(self) -> (r: bool)
        ensures
            r == self.spec_def().armor is Some,
    {
        self.armor_info().is_some()
    }

    pub open spec fn spec_attack_cooldown_ticks(self) -> u32 {
        match self.spec_def().tool {
            Some(tool) => match tool.tool_type {
                ToolType::Sword => 12,
                ToolType::Pickaxe => 17,
                ToolType::Shovel => 20,
                ToolType::Axe => 25,
                ToolType::Hoe => 5,
                ToolType::NoTool => 5,
            },
            None => 5,
        }
    }

    /// Ticks between two full-strength attacks with this kind in hand.
    pub fn attack_cooldown_ticks(self) -> (r: u32)
        ensures
            r == self.spec_attack_cooldown_ticks(),
    {
        if let Some(tool) = self.tool_info() {
            match tool.tool_type {
                ToolType::Sword => 12,
                ToolType::Pickaxe => 17,
                ToolType::Shovel => 20,
                ToolType::Axe => 25,
                ToolType::Hoe => 5,
                ToolType::NoTool => 5,
            }
        } else {
            5
        }
    }

    /// The properties of this kind: its name and its table row.
    pub fn properties(self) -> (r: ItemProperties)
        ensures
            r.name@ == self.spec_name(),
            r.max_stack == self.spec_def().max_stack,
            r.is_block == self.spec_def().is_block,
            r.block_type == self.spec_def().block_type,
            r.tex_coords == self.spec_def().tex_coords,
    {
        let d = self.def();
        ItemProperties {
            name: self.name(),
            max_stack: d.max_stack,
            is_block: d.is_block,
            block_type: d.block_type,
            tex_coords: d.tex_coords,
        }
    }

    /// How many of this kind fit in one slot.
    #[verifier::when_used_as_spec(spec_max_stack)]
    pub fn max_stack(self) -> (r: u32)
        ensures
            r == self.spec_max_stack(),
    {
        self.def().max_stack
    }

    pub open spec fn spec_renders_flat(self) -> bool {
        match self.spec_def().block_type {
            Some(block) => block.spec_is_cross_model(),
            None => self != Item::Air,
        }
    }

    /// True when the item is drawn as a flat sprite rather than a cube: every
    /// kind that places no block (except air), and kinds that place a
    /// cross-model plant.
    pub fn renders_flat(self) -> (r: bool)
        ensures
            r == self.spec_renders_flat(),
    {
        match self.def().block_type {
            Some(block) => block.is_cross_model(),
            None => self != Item::Air,
        }
    }

    /// The item that breaking a block of kind `b` gives.
    pub fn from_block(b: BlockType) -> (r: Item)
        ensures
            r == spec_from_block(b),
    {
        let map = from_block_map();
        map[b.id() as usize]
    }
}

/// Blocks whose item is fixed by hand rather than by the first item that places them.
pub open spec fn spec_block_item_override(b: BlockType) -> Option<Item> {
    match b {
        BlockType::WheatCrop => Some(Item::Wheat),
        BlockType::SnowLayer => Some(Item::Snow),
        BlockType::Farmland => Some(Item::Dirt),
        BlockType::MossyCobblestone => Some(Item::Cobblestone),
        BlockType::DirtPath => Some(Item::Dirt),
        BlockType::NetherWartCrop => Some(Item::NetherWart),
        BlockType::EndStoneBrick => Some(Item::EndStone),
        BlockType::RespawnAnchor => Some(Item::Obsidian),
        BlockType::Fire => Some(Item::Air),
        BlockType::NetherPortal => Some(Item::Air),
        BlockType::EndPortal => Some(Item::Air),
        BlockType::EndCityChest => Some(Item::Air),
        BlockType::OakSapling => Some(Item::Air),
        BlockType::BirchSapling => Some(Item::Air),
        BlockType::SpruceSapling => Some(Item::Air),
        BlockType::Spawner => Some(Item::Air),
        BlockType::EndGateway => Some(Item::Air),
        _ => None,
    }
}

/// Among the items with id below `n`, the first whose table row places `b`; air when none does.
pub open spec fn spec_first_item_placing(b: BlockType, n: nat) -> Item
    decreases n,
{
    if n == 0 {
        Item::Air
    } else {
        let prev = spec_first_item_placing(b, (n - 1) as nat);
        match Item::spec_from_u32((n - 1) as u32) {
            Some(it) => if prev == Item::Air && it.spec_def().block_type == Some(b) {
                it
            } else {
                prev
            },
            None => prev,
        }
    }
}

/// The item a block of kind `b` gives when broken.
pub open spec fn spec_from_block(b: BlockType) -> Item {
    match spec_block_item_override(b) {
        Some(it) => it,
        None => spec_first_item_placing(b, ITEM_COUNT as nat),
    }
}

/// Table from block id to the item that block gives.
fn from_block_map() -> (r: Vec<Item>)
    ensures
        r@.len() == BLOCK_TYPE_COUNT,
        forall|b: BlockType| #[trigger] r@[b.spec_id() as int] == spec_from_block(b),
{
    let mut map: Vec<Item> = Vec::new();
    let mut k: usize = 0;
    while k < BLOCK_TYPE_COUNT
        invariant
            k <= BLOCK_TYPE_COUNT,
            map@.len() == k,
            forall|i: int| 0 <= i < k ==> map@[i] == Item::Air,
        decreases BLOCK_TYPE_COUNT - k,
    {
        map.push(Item::Air);
        k += 1;
    }
    proof {
        assert forall|b: BlockType| #[trigger] map@[b.spec_id() as int] == spec_first_item_placing(
            b,
            0,
        ) by {
            crate::block::lemma_block_id_round_trip(b);
        }
    }
    let mut idx: u32 = 0;
    while idx < ITEM_COUNT as u32
        invariant
            idx <= ITEM_COUNT,
            map@.len() == BLOCK_TYPE_COUNT,
            forall|b: BlockType| #[trigger]
                map@[b.spec_id() as int] == spec_first_item_placing(b, idx as nat),
        decreases ITEM_COUNT - idx,
    {
        let ghost before = map@;
        if let Some(item) = Item::from_u32(idx) {
            if let Some(bt) = item.def().block_type {
                let slot = bt.id() as usize;
                proof {
                    crate::block::lemma_block_id_round_trip(bt);
                }
                if map[slot] == Item::Air {
                    map.set(slot, item);
                }
                proof {
                    assert forall|b: BlockType| #[trigger]
                        map@[b.spec_id() as int] == spec_first_item_placing(
                            b,
                            (idx + 1) as nat,
                        ) by {
                        crate::block::lemma_block_id_round_trip(b);
                        assert(spec_first_item_placing(b, (idx + 1) as nat) == (if before[b.spec_id() as int] == Item::Air && Some(bt) == Some(b) { item } else { before[b.spec_id() as int] }));
                    }
                }
            }
        }
        idx += 1;
    }
    map.set(BlockType::WheatCrop.id() as usize, Item::Wheat);
    map.set(BlockType::SnowLayer.id() as usize, Item::Snow);
    map.set(BlockType::Farmland.id() as usize, Item::Dirt);
    map.set(BlockType::MossyCobblestone.id() as usize, Item::Cobblestone);
    map.set(BlockType::DirtPath.id() as usize, Item::Dirt);
    map.set(BlockType::NetherWartCrop.id() as usize, Item::NetherWart);
    map.set(BlockType::EndStoneBrick.id() as usize, Item::EndStone);
    map.set(BlockType::RespawnAnchor.id() as usize, Item::Obsidian);
    map.set(BlockType::Fire.id() as usize, Item::Air);
    map.set(BlockType::NetherPortal.id() as usize, Item::Air);
    map.set(BlockType::EndPortal.id() as usize, Item::Air);
    map.set(BlockType::EndCityChest.id() as usize, Item::Air);
    map.set(BlockType::OakSapling.id() as usize, Item::Air);
    map.set(BlockType::BirchSapling.id() as usize, Item::Air);
    map.set(BlockType::SpruceSapling.id() as usize, Item::Air);
    map.set(BlockType::Spawner.id() as usize, Item::Air);
    map.set(BlockType::EndGateway.id() as usize, Item::Air);
    proof {
        assert forall|b: BlockType| #[trigger] map@[b.spec_id() as int] == spec_from_block(b) by {
            crate::block::lemma_block_id_round_trip(b);
        }
    }
    map
}

/// Reading an item's id back gives the item, and every id below the count names an item with that id.
pub proof fn lemma_item_id_round_trip(item: Item, val: u32)
    ensures
        item.spec_to_u32() < ITEM_COUNT,
        Item::spec_from_u32(item.spec_to_u32()) == Some(item),
        Item::spec_from_u32(val) is Some <==> val < ITEM_COUNT,
        Item::spec_from_u32(val) matches Some(it) ==> it.spec_to_u32() == val,
{
}

/// Entry `i` of the item table is the kind whose id is `i`.
pub open spec fn item_at_id(i: int) -> bool {
    ALL_ITEMS@[i].spec_to_u32() == i && Item::spec_from_u32(i as u32) == Some(ALL_ITEMS@[i])
}

/// Entries 0 to 26 of the item table are in id order.
proof fn lemma_item_table_part_0()
    ensures
        forall|i: int| 0 <= i < 27 ==> #[trigger] item_at_id(i),
{
    assert forall|i: int| 0 <= i < 27 implies #[trigger] item_at_id(i) by {
        assert(i == 0 || i == 1 || i == 2 || i == 3 || i == 4 || i == 5 || i == 6 || i == 7 || i == 8 || i == 9 || i == 10 || i == 11 || i == 12 || i == 13 || i == 14 || i == 15 || i == 16 || i == 17 || i == 18 || i == 19 || i == 20 || i == 21 || i == 22 || i == 23 || i == 24 || i == 25 || i == 26);
    }
}
/// Entries 27 to 53 of the item table are in id order.
proof fn lemma_item_table_part_27()
    ensures
        forall|i: int| 27 <= i < 54 ==> #[trigger] item_at_id(i),
{
    assert forall|i: int| 27 <= i < 54 implies #[trigger] item_at_id(i) by {
        assert(i == 27 || i == 28 || i == 29 || i == 30 || i == 31 || i == 32 || i == 33 || i == 34 || i == 35 || i == 36 || i == 37 || i == 38 || i == 39 || i == 40 || i == 41 || i == 42 || i == 43 || i == 44 || i == 45 || i == 46 || i == 47 || i == 48 || i == 49 || i == 50 || i == 51 || i == 52 || i == 53);
    }
}
/// Entries 54 to 80 of the item table are in id order.
proof fn lemma_item_table_part_54()
    ensures
        forall|i: int| 54 <= i < 81 ==> #[trigger] item_at_id(i),
{
    assert forall|i: int| 54 <= i < 81 implies #[trigger] item_at_id(i) by {
        assert(i == 54 || i == 55 || i == 56 || i == 57 || i == 58 || i == 59 || i == 60 || i == 61 || i == 62 || i == 63 || i == 64 || i == 65 || i == 66 || i == 67 || i == 68 || i == 69 || i == 70 || i == 71 || i == 72 || i == 73 || i == 74 || i == 75 || i == 76 || i == 77 || i == 78 || i == 79 || i == 80);
    }
}
/// Entries 81 to 107 of the item table are in id order.
proof fn lemma_item_table_part_81()
    ensures
        forall|i: int| 81 <= i < 108 ==> #[trigger] item_at_id(i),
{
    assert forall|i: int| 81 <= i < 108 implies #[trigger] item_at_id(i) by {
        assert(i == 81 || i == 82 || i == 83 || i == 84 || i == 85 || i == 86 || i == 87 || i == 88 || i == 89 || i == 90 || i == 91 || i == 92 || i == 93 || i == 94 || i == 95 || i == 96 || i == 97 || i == 98 || i == 99 || i == 100 || i == 101 || i == 102 || i == 103 || i == 104 || i == 105 || i == 106 || i == 107);
    }
}
/// Entries 108 to 134 of the item table are in id order.
proof fn lemma_item_table_part_108()
    ensures
        forall|i: int| 108 <= i < 135 ==> #[trigger] item_at_id(i),
{
    assert forall|i: int| 108 <= i < 135 implies #[trigger] item_at_id(i) by {
        assert(i == 108 || i == 109 || i == 110 || i == 111 || i == 112 || i == 113 || i == 114 || i == 115 || i == 116 || i == 117 || i == 118 || i == 119 || i == 120 || i == 121 || i == 122 || i == 123 || i == 124 || i == 125 || i == 126 || i == 127 || i == 128 || i == 129 || i == 130 || i == 131 || i == 132 || i == 133 || i == 134);
    }
}
/// Entries 135 to 161 of the item table are in id order.
proof fn lemma_item_table_part_135()
    ensures
        forall|i: int| 135 <= i < 162 ==> #[trigger] item_at_id(i),
{
    assert forall|i: int| 135 <= i < 162 implies #[trigger] item_at_id(i) by {
        assert(i == 135 || i == 136 || i == 137 || i == 138 || i == 139 || i == 140 || i == 141 || i == 142 || i == 143 || i == 144 || i == 145 || i == 146 || i == 147 || i == 148 || i == 149 || i == 150 || i == 151 || i == 152 || i == 153 || i == 154 || i == 155 || i == 156 || i == 157 || i == 158 || i == 159 || i == 160 || i == 161);
    }
}
/// Entries 162 to 188 of the item table are in id order.
proof fn lemma_item_table_part_162()
    ensures
        forall|i: int| 162 <= i < 189 ==> #[trigger] item_at_id(i),
{
    assert forall|i: int| 162 <= i < 189 implies #[trigger] item_at_id(i) by {
        assert(i == 162 || i == 163 || i == 164 || i == 165 || i == 166 || i == 167 || i == 168 || i == 169 || i == 170 || i == 171 || i == 172 || i == 173 || i == 174 || i == 175 || i == 176 || i == 177 || i == 178 || i == 179 || i == 180 || i == 181 || i == 182 || i == 183 || i == 184 || i == 185 || i == 186 || i == 187 || i == 188);
    }
}
/// Entries 189 to 213 of the item table are in id order.
proof fn lemma_item_table_part_189()
    ensures
        forall|i: int| 189 <= i < 214 ==> #[trigger] item_at_id(i),
{
    assert forall|i: int| 189 <= i < 214 implies #[trigger] item_at_id(i) by {
        assert(i == 189 || i == 190 || i == 191 || i == 192 || i == 193 || i == 194 || i == 195 || i == 196 || i == 197 || i == 198 || i == 199 || i == 200 || i == 201 || i == 202 || i == 203 || i == 204 || i == 205 || i == 206 || i == 207 || i == 208 || i == 209 || i == 210 || i == 211 || i == 212 || i == 213);
    }
}

/// The item table lists every kind once, in id order: entry `i` is the kind whose id is `i`.
pub proof fn lemma_item_table_in_id_order()
    ensures
        ALL_ITEMS@.len() == ITEM_COUNT,
        forall|i: int| 0 <= i < ITEM_COUNT ==> #[trigger] item_at_id(i),
{
    lemma_item_table_part_0();
    lemma_item_table_part_27();
    lemma_item_table_part_54();
    lemma_item_table_part_81();
    lemma_item_table_part_108();
    lemma_item_table_part_135();
    lemma_item_table_part_162();
    lemma_item_table_part_189();
}

/// Catalog entry `i` belongs to a concrete tab (not the all-items tab), and the next entry, if
/// any, has a larger id.
pub open spec fn creative_entry_ok(i: int) -> bool {
    &&& CREATIVE_ITEMS@[i].spec_def().creative_tab matches Some(t) && t != CreativeTab::All
    &&& i + 1 < CREATIVE_ITEMS@.len() ==> CREATIVE_ITEMS@[i].spec_to_u32() < CREATIVE_ITEMS@[i + 1].spec_to_u32()
}

/// Catalog entries 0 to 25 have a concrete tab and rising ids.
proof fn lemma_creative_entries_part_0()
    ensures
        forall|i: int| 0 <= i < 26 ==> #[trigger] creative_entry_ok(i),
{
    assert forall|i: int| 0 <= i < 26 implies #[trigger] creative_entry_ok(i) by {
        assert(i == 0 || i == 1 || i == 2 || i == 3 || i == 4 || i == 5 || i == 6 || i == 7 || i == 8 || i == 9 || i == 10 || i == 11 || i == 12 || i == 13 || i == 14 || i == 15 || i == 16 || i == 17 || i == 18 || i == 19 || i == 20 || i == 21 || i == 22 || i == 23 || i == 24 || i == 25);
    }
}
/// Catalog entries 26 to 51 have a concrete tab and rising ids.
proof fn lemma_creative_entries_part_26()
    ensures
        forall|i: int| 26 <= i < 52 ==> #[trigger] creative_entry_ok(i),
{
    assert forall|i: int| 26 <= i < 52 implies #[trigger] creative_entry_ok(i) by {
        assert(i == 26 || i == 27 || i == 28 || i == 29 || i == 30 || i == 31 || i == 32 || i == 33 || i == 34 || i == 35 || i == 36 || i == 37 || i == 38 || i == 39 || i == 40 || i == 41 || i == 42 || i == 43 || i == 44 || i == 45 || i == 46 || i == 47 || i == 48 || i == 49 || i == 50 || i == 51);
    }
}
/// Catalog entries 52 to 77 have a concrete tab and rising ids.
proof fn lemma_creative_entries_part_52()
    ensures
        forall|i: int| 52 <= i < 78 ==> #[trigger] creative_entry_ok(i),
{
    assert forall|i: int| 52 <= i < 78 implies #[trigger] creative_entry_ok(i) by {
        assert(i == 52 || i == 53 || i == 54 || i == 55 || i == 56 || i == 57 || i == 58 || i == 59 || i == 60 || i == 61 || i == 62 || i == 63 || i == 64 || i == 65 || i == 66 || i == 67 || i == 68 || i == 69 || i == 70 || i == 71 || i == 72 || i == 73 || i == 74 || i == 75 || i == 76 || i == 77);
    }
}
/// Catalog entries 78 to 103 have a concrete tab and rising ids.
proof fn lemma_creative_entries_part_78()
    ensures
        forall|i: int| 78 <= i < 104 ==> #[trigger] creative_entry_ok(i),
{
    assert forall|i: int| 78 <= i < 104 implies #[trigger] creative_entry_ok(i) by {
        assert(i == 78 || i == 79 || i == 80 || i == 81 || i == 82 || i == 83 || i == 84 || i == 85 || i == 86 || i == 87 || i == 88 || i == 89 || i == 90 || i == 91 || i == 92 || i == 93 || i == 94 || i == 95 || i == 96 || i == 97 || i == 98 || i == 99 || i == 100 || i == 101 || i == 102 || i == 103);
    }
}
/// Catalog entries 104 to 129 have a concrete tab and rising ids.
proof fn lemma_creative_entries_part_104()
    ensures
        forall|i: int| 104 <= i < 130 ==> #[trigger] creative_entry_ok(i),
{
    assert forall|i: int| 104 <= i < 130 implies #[trigger] creative_entry_ok(i) by {
        assert(i == 104 || i == 105 || i == 106 || i == 107 || i == 108 || i == 109 || i == 110 || i == 111 || i == 112 || i == 113 || i == 114 || i == 115 || i == 116 || i == 117 || i == 118 || i == 119 || i == 120 || i == 121 || i == 122 || i == 123 || i == 124 || i == 125 || i == 126 || i == 127 || i == 128 || i == 129);
    }
}
/// Catalog entries 130 to 153 have a concrete tab and rising ids.
proof fn lemma_creative_entries_part_130()
    ensures
        forall|i: int| 130 <= i < 154 ==> #[trigger] creative_entry_ok(i),
{
    assert forall|i: int| 130 <= i < 154 implies #[trigger] creative_entry_ok(i) by {
        assert(i == 130 || i == 131 || i == 132 || i == 133 || i == 134 || i == 135 || i == 136 || i == 137 || i == 138 || i == 139 || i == 140 || i == 141 || i == 142 || i == 143 || i == 144 || i == 145 || i == 146 || i == 147 || i == 148 || i == 149 || i == 150 || i == 151 || i == 152 || i == 153);
    }
}

/// Every entry of the creative catalog belongs to a concrete tab, and the entries are in rising
/// id order.
pub proof fn lemma_creative_entries()
    ensures
        CREATIVE_ITEMS@.len() == 154,
        forall|i: int| 0 <= i < CREATIVE_ITEMS@.len() ==> #[trigger] creative_entry_ok(i),
{
    lemma_creative_entries_part_0();
    lemma_creative_entries_part_26();
    lemma_creative_entries_part_52();
    lemma_creative_entries_part_78();
    lemma_creative_entries_part_104();
    lemma_creative_entries_part_130();
}

/// Blocks that give nothing when broken: fire, portals, the End City chest, saplings, spawners
/// and End gateways.
pub open spec fn drops_nothing(b: BlockType) -> bool {
    b == BlockType::Fire || b == BlockType::NetherPortal || b == BlockType::EndPortal || b == BlockType::EndCityChest || b
        == BlockType::OakSapling || b == BlockType::BirchSapling || b == BlockType::SpruceSapling || b == BlockType::Spawner || b
        == BlockType::EndGateway
}

proof fn lemma_first_placing_places(b: BlockType, n: nat)
    ensures
        spec_first_item_placing(b, n) != Item::Air ==> spec_first_item_placing(b, n).spec_def().block_type == Some(b),
    decreases n,
{
    if n > 0 {
        lemma_first_placing_places(b, (n - 1) as nat);
    }
}

proof fn lemma_first_placing_found(b: BlockType, n: nat, it: Item)
    requires
        it.spec_to_u32() < n,
        it.spec_def().block_type == Some(b),
    ensures
        spec_first_item_placing(b, n) != Item::Air,
    decreases n,
{
    lemma_item_id_round_trip(it, 0);
    if it.spec_to_u32() < n - 1 {
        lemma_first_placing_found(b, (n - 1) as nat, it);
    } else {
        assert(Item::spec_from_u32((n - 1) as u32) == Some(it));
        assert(Item::Air.spec_def().block_type is None);
    }
}

/// Blocks that break into an item other than the one placing them: crops, snow layers, farmland,
/// dirt paths, mossy cobblestone, End stone bricks and respawn anchors.
pub open spec fn breaks_into_other(b: BlockType) -> bool {
    b == BlockType::WheatCrop || b == BlockType::SnowLayer || b == BlockType::Farmland || b == BlockType::MossyCobblestone || b
        == BlockType::DirtPath || b == BlockType::NetherWartCrop || b == BlockType::EndStoneBrick || b == BlockType::RespawnAnchor
}

/// Breaking a block gives an item unless the block is one that drops nothing: every block that
/// some item places gives a real item, which places that very block unless the block breaks
/// into another item; blocks that break into another item give it (dirt paths and farmland give
/// dirt, crops their harvest, snow layers snow, mossy cobblestone cobblestone, End stone bricks
/// End stone, respawn anchors obsidian); blocks that drop nothing give air.
pub proof fn lemma_from_block_drops(b: BlockType, it: Item)
    ensures
        it.spec_def().block_type == Some(b) && !drops_nothing(b) ==> spec_from_block(b) != Item::Air,
        spec_from_block(b) != Item::Air && spec_block_item_override(b) is None ==> spec_from_block(b).spec_def().block_type == Some(b),
        it.spec_def().block_type == Some(b) && !drops_nothing(b) && !breaks_into_other(b) ==> spec_from_block(b).spec_def().block_type
            == Some(b),
        drops_nothing(b) ==> spec_from_block(b) == Item::Air,
        spec_from_block(BlockType::DirtPath) == Item::Dirt,
        spec_from_block(BlockType::Farmland) == Item::Dirt,
        spec_from_block(BlockType::WheatCrop) == Item::Wheat,
        spec_from_block(BlockType::NetherWartCrop) == Item::NetherWart,
        spec_from_block(BlockType::SnowLayer) == Item::Snow,
        spec_from_block(BlockType::MossyCobblestone) == Item::Cobblestone,
        spec_from_block(BlockType::EndStoneBrick) == Item::EndStone,
        spec_from_block(BlockType::RespawnAnchor) == Item::Obsidian,
{
    lemma_first_placing_places(b, ITEM_COUNT as nat);
    if it.spec_def().block_type == Some(b) {
        lemma_item_id_round_trip(it, 0);
        lemma_first_placing_found(b, ITEM_COUNT as nat, it);
    }
}

} // verus!
