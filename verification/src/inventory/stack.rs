//! Item stacks: an item kind, a count and the metadata that decides which stacks merge.

use vstd::prelude::*;
use crate::block::BlockType;
use crate::brewing::PotionData;
use crate::enchantment::{EnchantmentSet, ItemName};
use super::catalog::Item;

verus! {

#[derive(Debug, Clone, Copy, PartialEq, Eq, Hash, Structural)]
pub enum GameMode {
    Creative,
    Survival,
    Adventure,
    Spectator,
}

/// Where the stack on the creative cursor came from.
#[derive(Debug, Clone, Copy, PartialEq, Eq, Hash, Structural)]
pub enum CreativeDragOrigin {
    Catalog,
    Inventory,
}

/// A stack of items with its metadata. Adventure-mode permissions are bit sets
/// indexed by block id.
#[derive(Debug, Clone, Copy, PartialEq, Eq, Hash)]
pub struct ItemStack {
    pub item: Item,
    pub count: u32,
    pub durability: u32,
    pub enchantments: EnchantmentSet,
    pub potion: Option<PotionData>,
    pub custom_name: ItemName,
    pub can_break: u128,
    pub can_place_on: u128,
}

/// Durability of a fresh stack of `item`: the tool's, else the armor's, else
/// the fixed values of shields and fishing rods, else 0.
pub open spec fn spec_default_durability(item: Item) -> u32 {
    match item.spec_def().tool {
        Some(t) => t.durability,
        None => match item.spec_def().armor {
            Some(a) => a.durability,
            None => match item {
                Item::Shield => 336,
                Item::FishingRod => 64,
                _ => 0,
            },
        },
    }
}

/// Potion metadata of a fresh stack of `item`: water for potions, thrown water for splash potions.
pub open spec fn spec_default_potion(item: Item) -> Option<PotionData> {
    match item {
        Item::Potion => Some(PotionData::spec_water()),
        Item::SplashPotion => Some(PotionData { splash: true, ..PotionData::spec_water() }),
        _ => None,
    }
}

/// Bit of block `b` in a permission set.
pub open spec fn block_bit(b: BlockType) -> u128 {
    1u128 << (b.spec_id() as u128)
}

impl ItemStack {
    /// The same stack with another count.
    pub open spec fn with_count(self, count: u32) -> ItemStack {
        ItemStack { count, ..self }
    }

    /// A fresh stack: default durability and potion, no enchantments, name or permissions.
    pub open spec fn spec_new(item: Item, count: u32) -> ItemStack {
        ItemStack {
            item,
            count,
            durability: spec_default_durability(item),
            enchantments: EnchantmentSet::spec_empty(),
            potion: spec_default_potion(item),
            custom_name: ItemName::spec_blank(),
            can_break: 0,
            can_place_on: 0,
        }
    }

    /// A stack of `count` fresh `item`s.
    pub fn new(item: Item, count: u32) -> (r: ItemStack)
        ensures
            r == Self::spec_new(item, count),
    {
        let durability = match item.tool_info() {
            Some(t) => t.durability,
            None => match item.armor_info() {
                Some(a) => a.durability,
                None => match item {
                    Item::Shield => 336,
                    Item::FishingRod => 64,
                    _ => 0,
                },
            },
        };
        let potion = match item {
            Item::Potion => Some(PotionData::water()),
            Item::SplashPotion => {
                let mut potion = PotionData::water();
                potion.splash = true;
                Some(potion)
            },
            _ => None,
        };
        ItemStack {
            item,
            count,
            durability,
            enchantments: EnchantmentSet::default(),
            potion,
            custom_name: ItemName::default(),
            can_break: 0,
            can_place_on: 0,
        }
    }

    /// Two stacks merge when everything but their counts is equal.
    pub open spec fn spec_can_merge_with(self, other: ItemStack) -> bool {
        &&& self.item == other.item
        &&& self.durability == other.durability
        &&& self.enchantments == other.enchantments
        &&& self.potion == other.potion
        &&& self.custom_name == other.custom_name
        &&& self.can_break == other.can_break
        &&& self.can_place_on == other.can_place_on
    }

    /// True when `other` may be merged into this stack.
    pub fn can_merge_with(&self, other: &ItemStack) -> (r: bool)
        ensures
            r == self.spec_can_merge_with(*other),
    {
        self.item == other.item && self.durability == other.durability && self.enchantments
            == other.enchantments && self.potion == other.potion && self.custom_name.same_as(
            &other.custom_name,
        ) && self.can_break == other.can_break && self.can_place_on == other.can_place_on
    }

    /// The same stack, also allowed to break blocks of kind `block` in adventure mode.
    pub fn with_can_break(self, block: BlockType) -> (r: ItemStack)
        ensures
            r == (ItemStack { can_break: self.can_break | block_bit(block), ..self }),
    {
        let mut s = self;
        s.can_break = s.can_break | (1u128 << (block.id() as u128));
        s
    }

    /// The same stack, also allowed to be placed on blocks of kind `block` in adventure mode.
    pub fn with_can_place_on(self, block: BlockType) -> (r: ItemStack)
        ensures
            r == (ItemStack { can_place_on: self.can_place_on | block_bit(block), ..self }),
    {
        let mut s = self;
        s.can_place_on = s.can_place_on | (1u128 << (block.id() as u128));
        s
    }

    /// True when this stack may break blocks of kind `block` in adventure mode.
    pub fn can_break_block(&self, block: BlockType) -> (r: bool)
        ensures
            r == (self.can_break & block_bit(block) != 0),
    {
        self.can_break & (1u128 << (block.id() as u128)) != 0
    }

    /// True when this stack may be placed on blocks of kind `block` in adventure mode.
    pub fn can_place_on_block(&self, block: BlockType) -> (r: bool)
        ensures
            r == (self.can_place_on & block_bit(block) != 0),
    {
        self.can_place_on & (1u128 << (block.id() as u128)) != 0
    }
}

proof fn lemma_bit_or_test(x: u128, i: u128, j: u128)
    requires
        i < 128,
        j < 128,
    ensures
        ((x | (1u128 << i)) & (1u128 << j) != 0) == (i == j || x & (1u128 << j) != 0),
{
    assert(((x | (1u128 << i)) & (1u128 << j) != 0) == (i == j || x & (1u128 << j) != 0))
        by (bit_vector)
        requires
            i < 128,
            j < 128,
    ;
}

/// Granting one block kind to a permission set grants exactly that kind and keeps every other grant.
pub proof fn lemma_permission_grant(set: u128, granted: BlockType, tested: BlockType)
    ensures
        ((set | block_bit(granted)) & block_bit(tested) != 0) == (granted == tested || set
            & block_bit(tested) != 0),
{
    crate::block::lemma_block_id_round_trip(granted);
    crate::block::lemma_block_id_round_trip(tested);
    lemma_bit_or_test(set, granted.spec_id() as u128, tested.spec_id() as u128);
}

} // verus!
