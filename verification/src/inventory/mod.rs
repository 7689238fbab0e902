//! Items, item stacks, stack clicks and the player and container inventories.

pub mod catalog;
pub mod stack;
pub mod click;
pub mod slots;
pub mod container;

pub use catalog::{
    ArmorInfo, ArmorSlot, CreativeTab, Item, ItemDef, ItemProperties, ToolInfo, ToolMaterial, ToolType,
    ALL_ITEMS, CREATIVE_COLUMNS, CREATIVE_ITEMS, CREATIVE_ROWS, CREATIVE_VISIBLE_SLOTS, ITEM_COUNT,
};
pub use click::{apply_stack_click, StackClickResult};
pub use container::{ContainerInventory, Inventory};
pub use stack::{CreativeDragOrigin, GameMode, ItemStack};
