//! Chest loot tables and seeded rolling.

use vstd::prelude::*;
use crate::enchantment::{Enchantment, EnchantmentSet};
use crate::inventory::{Item, ItemStack};
use crate::text::chars_of;

verus! {

/// The chest loot tables.
#[derive(Debug, Clone, Copy, PartialEq, Eq, Hash, Structural)]
pub enum LootTableId {
    Dungeon,
    Mineshaft,
    Village,
    StrongholdCorridor,
    StrongholdLibrary,
    NetherBridge,
    EndCity,
}

impl LootTableId {
    pub open spec fn spec_as_str(self) -> Seq<char> {
        match self {
            LootTableId::Dungeon => "chests/dungeon"@,
            LootTableId::Mineshaft => "chests/abandoned_mineshaft"@,
            LootTableId::Village => "chests/village/village_house"@,
            LootTableId::StrongholdCorridor => "chests/stronghold_corridor"@,
            LootTableId::StrongholdLibrary => "chests/stronghold_library"@,
            LootTableId::NetherBridge => "chests/nether_bridge"@,
            LootTableId::EndCity => "chests/end_city"@,
        }
    }

    /// Resource path of the table.
    pub fn as_str(&self) -> (r: &'static str)
        ensures
            r@ == self.spec_as_str(),
    {
        match self {
            LootTableId::Dungeon => "chests/dungeon",
            LootTableId::Mineshaft => "chests/abandoned_mineshaft",
            LootTableId::Village => "chests/village/village_house",
            LootTableId::StrongholdCorridor => "chests/stronghold_corridor",
            LootTableId::StrongholdLibrary => "chests/stronghold_library",
            LootTableId::NetherBridge => "chests/nether_bridge",
            LootTableId::EndCity => "chests/end_city",
        }
    }

    /// The table with resource path `s`; "chests/village" also names the village table.
    pub open spec fn spec_from_str(s: Seq<char>) -> Option<LootTableId> {
        if s == "chests/dungeon"@ {
            Some(LootTableId::Dungeon)
        } else if s == "chests/abandoned_mineshaft"@ {
            Some(LootTableId::Mineshaft)
        } else if s == "chests/village/village_house"@ || s == "chests/village"@ {
            Some(LootTableId::Village)
        } else if s == "chests/stronghold_corridor"@ {
            Some(LootTableId::StrongholdCorridor)
        } else if s == "chests/stronghold_library"@ {
            Some(LootTableId::StrongholdLibrary)
        } else if s == "chests/nether_bridge"@ {
            Some(LootTableId::NetherBridge)
        } else if s == "chests/end_city"@ {
            Some(LootTableId::EndCity)
        } else {
            None
        }
    }

    /// The table with resource path `s`, if any.
    pub fn from_str(s: &str) -> (r: Option<LootTableId>)
        ensures
            r == Self::spec_from_str(s@),
    {
        let v = String::from_str(s);
        if v == String::from_str("chests/dungeon") {
            Some(LootTableId::Dungeon)
        } else if v == String::from_str("chests/abandoned_mineshaft") {
            Some(LootTableId::Mineshaft)
        } else if v == String::from_str("chests/village/village_house") || v == String::from_str("chests/village") {
            Some(LootTableId::Village)
        } else if v == String::from_str("chests/stronghold_corridor") {
            Some(LootTableId::StrongholdCorridor)
        } else if v == String::from_str("chests/stronghold_library") {
            Some(LootTableId::StrongholdLibrary)
        } else if v == String::from_str("chests/nether_bridge") {
            Some(LootTableId::NetherBridge)
        } else if v == String::from_str("chests/end_city") {
            Some(LootTableId::EndCity)
        } else {
            None
        }
    }
}

/// One possible item of a pool: its weight among the pool's entries, the range of its count,
/// and the chance, in thousandths, that it comes with Unbreaking I.
#[derive(Debug, Clone, Copy, PartialEq, Eq)]
pub struct LootEntry {
    pub item: Item,
    pub weight: u32,
    pub min_count: u32,
    pub max_count: u32,
    pub enchantment_per_mille: u32,
}

/// A pool rolled `rolls_min..=rolls_max` times, each roll picking one entry by weight.
#[derive(Debug, Clone)]
pub struct LootPool {
    pub rolls_min: u32,
    pub rolls_max: u32,
    pub entries: Vec<LootEntry>,
}

/// The pools of a loot table, rolled in order.
#[derive(Debug, Clone)]
pub struct LootTable {
    pub pools: Vec<LootPool>,
}

/// A pool as plain values: its rolls and its entries.
pub type PoolView = (u32, u32, Seq<LootEntry>);

pub open spec fn pool_view(p: LootPool) -> PoolView {
    (p.rolls_min, p.rolls_max, p.entries@)
}

impl LootTable {
    pub open spec fn view(&self) -> Seq<PoolView> {
        self.pools@.map_values(|p: LootPool| pool_view(p))
    }
}

/// The pools of table `id`.
pub open spec fn spec_loot_table(id: LootTableId) -> Seq<PoolView> {
    match id {
            LootTableId::Dungeon => seq![(1u32, 3u32, seq![(LootEntry { item: Item::Saddle, weight: 20, min_count: 1, max_count: 1, enchantment_per_mille: 0 }), (LootEntry { item: Item::IronIngot, weight: 15, min_count: 1, max_count: 4, enchantment_per_mille: 0 }), (LootEntry { item: Item::GoldIngot, weight: 10, min_count: 1, max_count: 4, enchantment_per_mille: 0 }), (LootEntry { item: Item::Bread, weight: 20, min_count: 1, max_count: 3, enchantment_per_mille: 0 }), (LootEntry { item: Item::CoalOre, weight: 15, min_count: 1, max_count: 4, enchantment_per_mille: 0 }), (LootEntry { item: Item::RedstoneOre, weight: 10, min_count: 1, max_count: 4, enchantment_per_mille: 0 }), (LootEntry { item: Item::EnchantedBook, weight: 5, min_count: 1, max_count: 1, enchantment_per_mille: 1000 }), (LootEntry { item: Item::GoldenApple, weight: 2, min_count: 1, max_count: 1, enchantment_per_mille: 0 })])],
            LootTableId::Mineshaft => seq![(2u32, 4u32, seq![(LootEntry { item: Item::IronIngot, weight: 20, min_count: 1, max_count: 5, enchantment_per_mille: 0 }), (LootEntry { item: Item::GoldIngot, weight: 15, min_count: 1, max_count: 3, enchantment_per_mille: 0 }), (LootEntry { item: Item::OakFence, weight: 15, min_count: 2, max_count: 8, enchantment_per_mille: 0 }), (LootEntry { item: Item::Bread, weight: 20, min_count: 1, max_count: 4, enchantment_per_mille: 0 }), (LootEntry { item: Item::CoalOre, weight: 20, min_count: 2, max_count: 6, enchantment_per_mille: 0 }), (LootEntry { item: Item::Diamond, weight: 5, min_count: 1, max_count: 2, enchantment_per_mille: 0 })])],
            LootTableId::Village => seq![(3u32, 5u32, seq![(LootEntry { item: Item::Bread, weight: 30, min_count: 1, max_count: 4, enchantment_per_mille: 0 }), (LootEntry { item: Item::Wheat, weight: 25, min_count: 1, max_count: 5, enchantment_per_mille: 0 }), (LootEntry { item: Item::Apple, weight: 20, min_count: 1, max_count: 3, enchantment_per_mille: 0 }), (LootEntry { item: Item::IronIngot, weight: 10, min_count: 1, max_count: 3, enchantment_per_mille: 0 }), (LootEntry { item: Item::Emerald, weight: 8, min_count: 1, max_count: 3, enchantment_per_mille: 0 }), (LootEntry { item: Item::IronPickaxe, weight: 4, min_count: 1, max_count: 1, enchantment_per_mille: 200 }), (LootEntry { item: Item::IronChestplate, weight: 3, min_count: 1, max_count: 1, enchantment_per_mille: 200 })])],
            LootTableId::StrongholdCorridor => seq![(2u32, 4u32, seq![(LootEntry { item: Item::EndPortalFrame, weight: 5, min_count: 1, max_count: 1, enchantment_per_mille: 0 }), (LootEntry { item: Item::EyeOfEnder, weight: 15, min_count: 1, max_count: 2, enchantment_per_mille: 0 }), (LootEntry { item: Item::IronIngot, weight: 25, min_count: 1, max_count: 5, enchantment_per_mille: 0 }), (LootEntry { item: Item::GoldIngot, weight: 20, min_count: 1, max_count: 3, enchantment_per_mille: 0 }), (LootEntry { item: Item::RedstoneOre, weight: 15, min_count: 2, max_count: 6, enchantment_per_mille: 0 }), (LootEntry { item: Item::Bread, weight: 15, min_count: 1, max_count: 3, enchantment_per_mille: 0 }), (LootEntry { item: Item::Diamond, weight: 5, min_count: 1, max_count: 3, enchantment_per_mille: 0 })])],
            LootTableId::StrongholdLibrary => seq![(2u32, 5u32, seq![(LootEntry { item: Item::Book, weight: 40, min_count: 1, max_count: 5, enchantment_per_mille: 0 }), (LootEntry { item: Item::EnchantedBook, weight: 30, min_count: 1, max_count: 2, enchantment_per_mille: 1000 }), (LootEntry { item: Item::Paper, weight: 20, min_count: 2, max_count: 7, enchantment_per_mille: 0 }), (LootEntry { item: Item::Compass, weight: 10, min_count: 1, max_count: 1, enchantment_per_mille: 0 })])],
            LootTableId::NetherBridge => seq![(2u32, 4u32, seq![(LootEntry { item: Item::NetherWart, weight: 25, min_count: 1, max_count: 4, enchantment_per_mille: 0 }), (LootEntry { item: Item::BlazeRod, weight: 20, min_count: 1, max_count: 3, enchantment_per_mille: 0 }), (LootEntry { item: Item::GoldIngot, weight: 25, min_count: 1, max_count: 6, enchantment_per_mille: 0 }), (LootEntry { item: Item::IronIngot, weight: 20, min_count: 1, max_count: 5, enchantment_per_mille: 0 }), (LootEntry { item: Item::Diamond, weight: 10, min_count: 1, max_count: 3, enchantment_per_mille: 0 })])],
            LootTableId::EndCity => seq![(1u32, 1u32, seq![(LootEntry { item: Item::Elytra, weight: 100, min_count: 1, max_count: 1, enchantment_per_mille: 0 })]), (3u32, 5u32, seq![(LootEntry { item: Item::Diamond, weight: 25, min_count: 2, max_count: 7, enchantment_per_mille: 0 }), (LootEntry { item: Item::GoldIngot, weight: 25, min_count: 3, max_count: 9, enchantment_per_mille: 0 }), (LootEntry { item: Item::DiamondChestplate, weight: 15, min_count: 1, max_count: 1, enchantment_per_mille: 800 }), (LootEntry { item: Item::DiamondSword, weight: 15, min_count: 1, max_count: 1, enchantment_per_mille: 800 }), (LootEntry { item: Item::IronIngot, weight: 20, min_count: 4, max_count: 10, enchantment_per_mille: 0 })])],
    }
}

/// The pools of table `id`.
pub fn get_loot_table(id: LootTableId) -> (r: LootTable)
    ensures
        r@ == spec_loot_table(id),
{
    let r = match id {
        LootTableId::Dungeon => {
            let mut pools: Vec<LootPool> = Vec::new();
            let mut entries: Vec<LootEntry> = Vec::new();
            entries.push(LootEntry { item: Item::Saddle, weight: 20, min_count: 1, max_count: 1, enchantment_per_mille: 0 });
            entries.push(LootEntry { item: Item::IronIngot, weight: 15, min_count: 1, max_count: 4, enchantment_per_mille: 0 });
            entries.push(LootEntry { item: Item::GoldIngot, weight: 10, min_count: 1, max_count: 4, enchantment_per_mille: 0 });
            entries.push(LootEntry { item: Item::Bread, weight: 20, min_count: 1, max_count: 3, enchantment_per_mille: 0 });
            entries.push(LootEntry { item: Item::CoalOre, weight: 15, min_count: 1, max_count: 4, enchantment_per_mille: 0 });
            entries.push(LootEntry { item: Item::RedstoneOre, weight: 10, min_count: 1, max_count: 4, enchantment_per_mille: 0 });
            entries.push(LootEntry { item: Item::EnchantedBook, weight: 5, min_count: 1, max_count: 1, enchantment_per_mille: 1000 });
            entries.push(LootEntry { item: Item::GoldenApple, weight: 2, min_count: 1, max_count: 1, enchantment_per_mille: 0 });
            pools.push(LootPool { rolls_min: 1, rolls_max: 3, entries });
            LootTable { pools }
        },
        LootTableId::Mineshaft => {
            let mut pools: Vec<LootPool> = Vec::new();
            let mut entries: Vec<LootEntry> = Vec::new();
            entries.push(LootEntry { item: Item::IronIngot, weight: 20, min_count: 1, max_count: 5, enchantment_per_mille: 0 });
            entries.push(LootEntry { item: Item::GoldIngot, weight: 15, min_count: 1, max_count: 3, enchantment_per_mille: 0 });
            entries.push(LootEntry { item: Item::OakFence, weight: 15, min_count: 2, max_count: 8, enchantment_per_mille: 0 });
            entries.push(LootEntry { item: Item::Bread, weight: 20, min_count: 1, max_count: 4, enchantment_per_mille: 0 });
            entries.push(LootEntry { item: Item::CoalOre, weight: 20, min_count: 2, max_count: 6, enchantment_per_mille: 0 });
            entries.push(LootEntry { item: Item::Diamond, weight: 5, min_count: 1, max_count: 2, enchantment_per_mille: 0 });
            pools.push(LootPool { rolls_min: 2, rolls_max: 4, entries });
            LootTable { pools }
        },
        LootTableId::Village => {
            let mut pools: Vec<LootPool> = Vec::new();
            let mut entries: Vec<LootEntry> = Vec::new();
            entries.push(LootEntry { item: Item::Bread, weight: 30, min_count: 1, max_count: 4, enchantment_per_mille: 0 });
            entries.push(LootEntry { item: Item::Wheat, weight: 25, min_count: 1, max_count: 5, enchantment_per_mille: 0 });
            entries.push(LootEntry { item: Item::Apple, weight: 20, min_count: 1, max_count: 3, enchantment_per_mille: 0 });
            entries.push(LootEntry { item: Item::IronIngot, weight: 10, min_count: 1, max_count: 3, enchantment_per_mille: 0 });
            entries.push(LootEntry { item: Item::Emerald, weight: 8, min_count: 1, max_count: 3, enchantment_per_mille: 0 });
            entries.push(LootEntry { item: Item::IronPickaxe, weight: 4, min_count: 1, max_count: 1, enchantment_per_mille: 200 });
            entries.push(LootEntry { item: Item::IronChestplate, weight: 3, min_count: 1, max_count: 1, enchantment_per_mille: 200 });
            pools.push(LootPool { rolls_min: 3, rolls_max: 5, entries });
            LootTable { pools }
        },
        LootTableId::StrongholdCorridor => {
            let mut pools: Vec<LootPool> = Vec::new();
            let mut entries: Vec<LootEntry> = Vec::new();
            entries.push(LootEntry { item: Item::EndPortalFrame, weight: 5, min_count: 1, max_count: 1, enchantment_per_mille: 0 });
            entries.push(LootEntry { item: Item::EyeOfEnder, weight: 15, min_count: 1, max_count: 2, enchantment_per_mille: 0 });
            entries.push(LootEntry { item: Item::IronIngot, weight: 25, min_count: 1, max_count: 5, enchantment_per_mille: 0 });
            entries.push(LootEntry { item: Item::GoldIngot, weight: 20, min_count: 1, max_count: 3, enchantment_per_mille: 0 });
            entries.push(LootEntry { item: Item::RedstoneOre, weight: 15, min_count: 2, max_count: 6, enchantment_per_mille: 0 });
            entries.push(LootEntry { item: Item::Bread, weight: 15, min_count: 1, max_count: 3, enchantment_per_mille: 0 });
            entries.push(LootEntry { item: Item::Diamond, weight: 5, min_count: 1, max_count: 3, enchantment_per_mille: 0 });
            pools.push(LootPool { rolls_min: 2, rolls_max: 4, entries });
            LootTable { pools }
        },
        LootTableId::StrongholdLibrary => {
            let mut pools: Vec<LootPool> = Vec::new();
            let mut entries: Vec<LootEntry> = Vec::new();
            entries.push(LootEntry { item: Item::Book, weight: 40, min_count: 1, max_count: 5, enchantment_per_mille: 0 });
            entries.push(LootEntry { item: Item::EnchantedBook, weight: 30, min_count: 1, max_count: 2, enchantment_per_mille: 1000 });
            entries.push(LootEntry { item: Item::Paper, weight: 20, min_count: 2, max_count: 7, enchantment_per_mille: 0 });
            entries.push(LootEntry { item: Item::Compass, weight: 10, min_count: 1, max_count: 1, enchantment_per_mille: 0 });
            pools.push(LootPool { rolls_min: 2, rolls_max: 5, entries });
            LootTable { pools }
        },
        LootTableId::NetherBridge => {
            let mut pools: Vec<LootPool> = Vec::new();
            let mut entries: Vec<LootEntry> = Vec::new();
            entries.push(LootEntry { item: Item::NetherWart, weight: 25, min_count: 1, max_count: 4, enchantment_per_mille: 0 });
            entries.push(LootEntry { item: Item::BlazeRod, weight: 20, min_count: 1, max_count: 3, enchantment_per_mille: 0 });
            entries.push(LootEntry { item: Item::GoldIngot, weight: 25, min_count: 1, max_count: 6, enchantment_per_mille: 0 });
            entries.push(LootEntry { item: Item::IronIngot, weight: 20, min_count: 1, max_count: 5, enchantment_per_mille: 0 });
            entries.push(LootEntry { item: Item::Diamond, weight: 10, min_count: 1, max_count: 3, enchantment_per_mille: 0 });
            pools.push(LootPool { rolls_min: 2, rolls_max: 4, entries });
            LootTable { pools }
        },
        LootTableId::EndCity => {
            let mut pools: Vec<LootPool> = Vec::new();
            let mut entries: Vec<LootEntry> = Vec::new();
            entries.push(LootEntry { item: Item::Elytra, weight: 100, min_count: 1, max_count: 1, enchantment_per_mille: 0 });
            pools.push(LootPool { rolls_min: 1, rolls_max: 1, entries });
            let mut entries: Vec<LootEntry> = Vec::new();
            entries.push(LootEntry { item: Item::Diamond, weight: 25, min_count: 2, max_count: 7, enchantment_per_mille: 0 });
            entries.push(LootEntry { item: Item::GoldIngot, weight: 25, min_count: 3, max_count: 9, enchantment_per_mille: 0 });
            entries.push(LootEntry { item: Item::DiamondChestplate, weight: 15, min_count: 1, max_count: 1, enchantment_per_mille: 800 });
            entries.push(LootEntry { item: Item::DiamondSword, weight: 15, min_count: 1, max_count: 1, enchantment_per_mille: 800 });
            entries.push(LootEntry { item: Item::IronIngot, weight: 20, min_count: 4, max_count: 10, enchantment_per_mille: 0 });
            pools.push(LootPool { rolls_min: 3, rolls_max: 5, entries });
            LootTable { pools }
        },
    };
    assert(r@ =~~= spec_loot_table(id));
    r
}

/// State after one step of the loot generator (a 64-bit linear congruential generator).
pub open spec fn lcg_next(s: u64) -> u64 {
    ((((s as nat) * 6364136223846793005nat) % 18446744073709551616nat + 1442695040888963407nat) % 18446744073709551616nat) as u64
}

/// Number drawn by one step of the generator from state `s`: the high half of the next state.
pub open spec fn lcg_output(s: u64) -> u32 {
    (lcg_next(s) as nat / 4294967296nat) as u32
}

/// Starting state for `seed`; 0 is replaced by a fixed non-zero state.
pub open spec fn seed_state(seed: u64) -> u64 {
    if seed == 0 {
        0xDEAD_BEEFu64
    } else {
        seed
    }
}

/// The deterministic generator that rolls loot.
pub struct SimpleLootRng {
    pub state: u64,
}

impl SimpleLootRng {
    /// A generator started from `seed`.
    pub fn new(seed: u64) -> (r: SimpleLootRng)
        ensures
            r.state == seed_state(seed),
    {
        SimpleLootRng { state: if seed == 0 { 0xDEAD_BEEF } else { seed } }
    }

    /// Step the generator and draw a number.
    pub fn next_u32(&mut self) -> (r: u32)
        ensures
            final(self).state == lcg_next(old(self).state),
            r == lcg_output(old(self).state),
    {
        self.state = self.state.wrapping_mul(6364136223846793005).wrapping_add(1442695040888963407);
        let s = self.state;
        assert((s >> 32u64) as u32 == (s / 4294967296u64) as u32) by (bit_vector);
        (s >> 32) as u32
    }
}

/// Sum of the weights of `entries`.
pub open spec fn total_weight(entries: Seq<LootEntry>) -> nat
    decreases entries.len(),
{
    if entries.len() == 0 {
        0
    } else {
        total_weight(entries.drop_last()) + entries.last().weight as nat
    }
}

/// Index of the entry that `pick` (below the total weight) selects: entries take consecutive
/// ranges of picks as wide as their weights; -1 when `pick` lies beyond them all.
pub open spec fn pick_index(entries: Seq<LootEntry>, pick: int) -> int
    decreases entries.len(),
{
    if entries.len() == 0 {
        -1
    } else if pick < entries[0].weight {
        0
    } else {
        let r = pick_index(entries.drop_first(), pick - entries[0].weight);
        if r < 0 {
            -1
        } else {
            r + 1
        }
    }
}

/// A number in `lo..=hi` drawn from state `s` (no draw when the range has one value), and the
/// state after it.
pub open spec fn draw_range(lo: u32, hi: u32, s: u64) -> (int, u64) {
    if lo >= hi {
        (lo as int, s)
    } else {
        (lo + (lcg_output(s) as int) % ((hi as int) - (lo as int) + 1), lcg_next(s))
    }
}

/// `v` held to `lo..=hi`.
pub open spec fn clamp_int(v: int, lo: int, hi: int) -> int {
    if v < lo {
        lo
    } else if v > hi {
        hi
    } else {
        v
    }
}

/// The stack that entry `e` gives from state `s`: a count drawn from its range and held to
/// 1..=64, then, when the entry can be enchanted, a draw below 1000 that adds Unbreaking I when
/// it falls under the entry's chance; and the state after.
pub open spec fn make_stack(e: LootEntry, s: u64) -> (ItemStack, u64) {
    let (count, s1) = draw_range(e.min_count, e.max_count, s);
    let stack = ItemStack::spec_new(e.item, clamp_int(count, 1, 64) as u32);
    if e.enchantment_per_mille > 0 {
        let roll = (lcg_output(s1) as int) % 1000;
        let stack2 = if roll < e.enchantment_per_mille {
            ItemStack { enchantments: stack.enchantments.spec_with(Enchantment::Unbreaking(1)), ..stack }
        } else {
            stack
        };
        (stack2, lcg_next(s1))
    } else {
        (stack, s1)
    }
}

/// One roll of a pool with entries `entries` of total weight `total` from state `s`.
pub open spec fn roll_once(entries: Seq<LootEntry>, total: nat, s: u64) -> (Seq<ItemStack>, u64) {
    let pick = (lcg_output(s) as int) % (total as int);
    let s1 = lcg_next(s);
    let i = pick_index(entries, pick as int);
    if i >= 0 {
        let (stack, s2) = make_stack(entries[i], s1);
        (seq![stack], s2)
    } else {
        (Seq::empty(), s1)
    }
}

/// `n` rolls of a pool, in order.
pub open spec fn roll_n(entries: Seq<LootEntry>, total: nat, n: nat, s: u64) -> (Seq<ItemStack>, u64)
    decreases n,
{
    if n == 0 {
        (Seq::empty(), s)
    } else {
        let (items, s1) = roll_n(entries, total, (n - 1) as nat, s);
        let (more, s2) = roll_once(entries, total, s1);
        (items + more, s2)
    }
}

/// Rolls of pool `p` from state `s`: none when it has no weight, else a count drawn from its
/// roll range and held to at most 32.
pub open spec fn roll_pool(p: PoolView, s: u64) -> (Seq<ItemStack>, u64) {
    let total = total_weight(p.2);
    if p.2.len() == 0 || total == 0 {
        (Seq::empty(), s)
    } else {
        let (rolls, s1) = draw_range(p.0, p.1, s);
        roll_n(p.2, total, clamp_int(rolls, 0, 32) as nat, s1)
    }
}

/// Rolls of all pools, in order.
pub open spec fn roll_pools(pools: Seq<PoolView>, s: u64) -> (Seq<ItemStack>, u64)
    decreases pools.len(),
{
    if pools.len() == 0 {
        (Seq::empty(), s)
    } else {
        let (items, s1) = roll_pools(pools.drop_last(), s);
        let (more, s2) = roll_pool(pools.last(), s1);
        (items + more, s2)
    }
}

/// The loot that table `id` gives for `seed`.
pub open spec fn spec_roll(id: LootTableId, seed: u64) -> Seq<ItemStack> {
    roll_pools(spec_loot_table(id), seed_state(seed)).0
}

/// Pools whose weights, counts and rolls stay within `u32`.
pub open spec fn pools_fit(pools: Seq<PoolView>) -> bool {
    forall|i: int| 0 <= i < pools.len() ==> {
        &&& total_weight((#[trigger] pools[i]).2) <= u32::MAX
        &&& pools[i].1 < u32::MAX
        &&& forall|j: int| 0 <= j < pools[i].2.len() ==> (#[trigger] pools[i].2[j]).max_count < u32::MAX
    }
}

proof fn lemma_total_weight_prefix(entries: Seq<LootEntry>, n: int)
    requires
        0 <= n <= entries.len(),
    ensures
        total_weight(entries.subrange(0, n)) <= total_weight(entries),
    decreases entries.len() - n,
{
    if n < entries.len() {
        lemma_total_weight_prefix(entries, n + 1);
        assert(entries.subrange(0, n + 1).drop_last() =~= entries.subrange(0, n));
    } else {
        assert(entries.subrange(0, n) =~= entries);
    }
}

/// Index of the entry that `pick` selects, walking the entries with a running remainder.
fn pick_entry(entries: &Vec<LootEntry>, pick: u32) -> (r: Option<usize>)
    ensures
        r is None <==> pick_index(entries@, pick as int) < 0,
        r matches Some(i) ==> i < entries@.len() && i == pick_index(entries@, pick as int),
{
    let n = entries.len();
    let mut rest = pick;
    let mut k: usize = 0;
    proof {
        assert(entries@.subrange(0, 0) =~= Seq::<LootEntry>::empty());
        assert(entries@.subrange(0, n as int) =~= entries@);
    }
    while k < n
        invariant
            n == entries@.len(),
            k <= n,
            rest == pick - total_weight(entries@.subrange(0, k as int)),
            pick_index(entries@, pick as int) == (if pick_index(entries@.subrange(k as int, n as int), rest as int) < 0 {
                -1
            } else {
                pick_index(entries@.subrange(k as int, n as int), rest as int) + k
            }),
        decreases n - k,
    {
        let w = entries[k].weight;
        proof {
            assert(entries@.subrange(k as int, n as int)[0] == entries@[k as int]);
            assert(entries@.subrange(k as int, n as int).drop_first() =~= entries@.subrange(k + 1, n as int));
            assert(entries@.subrange(0, k + 1).drop_last() =~= entries@.subrange(0, k as int));
        }
        if rest < w {
            return Some(k);
        }
        rest = rest - w;
        k += 1;
    }
    proof {
        assert(entries@.subrange(n as int, n as int) =~= Seq::<LootEntry>::empty());
    }
    None
}

/// Roll `pool` with `rng` and append the stacks it gives to `items`.
fn roll_pool_into(pool: &LootPool, rng: &mut SimpleLootRng, items: &mut Vec<ItemStack>)
    requires
        total_weight(pool.entries@) <= u32::MAX,
        pool.rolls_max < u32::MAX,
        forall|j: int| 0 <= j < pool.entries@.len() ==> (#[trigger] pool.entries@[j]).max_count < u32::MAX,
    ensures
        final(items)@ == old(items)@ + roll_pool(pool_view(*pool), old(rng).state).0,
        final(rng).state == roll_pool(pool_view(*pool), old(rng).state).1,
{
    let ghost entries = pool.entries@;
    let n = pool.entries.len();
    if n == 0 {
        assert(old(items)@ + Seq::<ItemStack>::empty() =~= old(items)@);
        return;
    }
    let mut total: u32 = 0;
    let mut k: usize = 0;
    proof {
        assert(entries.subrange(0, 0) =~= Seq::<LootEntry>::empty());
    }
    while k < n
        invariant
            n == entries.len(),
            entries == pool.entries@,
            k <= n,
            total == total_weight(entries.subrange(0, k as int)),
            total_weight(entries) <= u32::MAX,
        decreases n - k,
    {
        proof {
            lemma_total_weight_prefix(entries, k + 1);
            assert(entries.subrange(0, k + 1).drop_last() =~= entries.subrange(0, k as int));
        }
        total = total + pool.entries[k].weight;
        k += 1;
    }
    proof {
        assert(entries.subrange(0, n as int) =~= entries);
    }
    if total == 0 {
        assert(old(items)@ + Seq::<ItemStack>::empty() =~= old(items)@);
        return;
    }
    let rolls = if pool.rolls_min >= pool.rolls_max {
        pool.rolls_min
    } else {
        pool.rolls_min + (rng.next_u32() % (pool.rolls_max - pool.rolls_min + 1))
    };
    let rolls = if rolls > 32 {
        32
    } else {
        rolls
    };
    let ghost s1 = rng.state;
    let ghost base = items@;
    let mut r: u32 = 0;
    proof {
        assert(base + Seq::<ItemStack>::empty() =~= base);
    }
    while r < rolls
        invariant
            entries == pool.entries@,
            total == total_weight(entries),
            total > 0,
            r <= rolls,
            forall|j: int| 0 <= j < pool.entries@.len() ==> (#[trigger] pool.entries@[j]).max_count < u32::MAX,
            items@ == base + roll_n(entries, total as nat, r as nat, s1).0,
            rng.state == roll_n(entries, total as nat, r as nat, s1).1,
        decreases rolls - r,
    {
        let ghost sr = rng.state;
        let ghost before = items@;
        let pick = rng.next_u32() % total;
        match pick_entry(&pool.entries, pick) {
            Some(i) => {
                let entry = pool.entries[i];
                let count = if entry.min_count >= entry.max_count {
                    entry.min_count
                } else {
                    entry.min_count + (rng.next_u32() % (entry.max_count - entry.min_count + 1))
                };
                let count = if count < 1 {
                    1
                } else if count > 64 {
                    64
                } else {
                    count
                };
                let mut stack = ItemStack::new(entry.item, count);
                if entry.enchantment_per_mille > 0 {
                    let roll = rng.next_u32() % 1000;
                    if roll < entry.enchantment_per_mille {
                        stack.enchantments.add_or_upgrade(Enchantment::Unbreaking(1));
                    }
                }
                items.push(stack);
                proof {
                    assert(roll_once(entries, total as nat, sr).0 =~= seq![stack]);
                    assert(items@ =~= before + seq![stack]);
                }
            },
            None => {
                proof {
                    assert(items@ =~= before + Seq::<ItemStack>::empty());
                }
            },
        }
        proof {
            assert(base + roll_n(entries, total as nat, (r + 1) as nat, s1).0 =~= base + roll_n(entries, total as nat, r as nat, s1).0
                + roll_once(entries, total as nat, sr).0);
        }
        r += 1;
    }
}

/// Roll table `id` for `seed`: each pool in order, each roll picking an entry by weight.
pub fn roll_loot_table(id: LootTableId, seed: u64) -> (r: Vec<ItemStack>)
    ensures
        r@ == spec_roll(id, seed),
{
    let table = get_loot_table(id);
    proof {
        lemma_tables_fit(id);
    }
    let mut rng = SimpleLootRng::new(seed);
    let mut items: Vec<ItemStack> = Vec::new();
    let mut pi: usize = 0;
    proof {
        assert(table@.subrange(0, 0) =~= Seq::<PoolView>::empty());
        assert(items@ =~= Seq::<ItemStack>::empty());
    }
    while pi < table.pools.len()
        invariant
            pi <= table@.len(),
            table@ == spec_loot_table(id),
            pools_fit(table@),
            items@ == roll_pools(table@.subrange(0, pi as int), seed_state(seed)).0,
            rng.state == roll_pools(table@.subrange(0, pi as int), seed_state(seed)).1,
        decreases table.pools.len() - pi,
    {
        proof {
            assert(table@[pi as int] == pool_view(table.pools@[pi as int]));
            assert(table@.subrange(0, pi + 1).drop_last() =~= table@.subrange(0, pi as int));
        }
        roll_pool_into(&table.pools[pi], &mut rng, &mut items);
        pi += 1;
    }
    proof {
        assert(table@.subrange(0, table@.len() as int) =~= table@);
    }
    items
}

/// Entries whose largest counts stay below `u32::MAX`.
pub open spec fn entries_fit(entries: Seq<LootEntry>) -> bool
    decreases entries.len(),
{
    entries.len() == 0 || (entries.last().max_count < u32::MAX && entries_fit(entries.drop_last()))
}

/// `pools_fit`, pool by pool.
pub open spec fn pools_fit_each(pools: Seq<PoolView>) -> bool
    decreases pools.len(),
{
    pools.len() == 0 || (total_weight(pools.last().2) <= u32::MAX && pools.last().1 < u32::MAX && entries_fit(pools.last().2)
        && pools_fit_each(pools.drop_last()))
}

proof fn lemma_entries_fit(entries: Seq<LootEntry>)
    requires
        entries_fit(entries),
    ensures
        forall|j: int| 0 <= j < entries.len() ==> (#[trigger] entries[j]).max_count < u32::MAX,
    decreases entries.len(),
{
    if entries.len() > 0 {
        lemma_entries_fit(entries.drop_last());
        assert forall|j: int| 0 <= j < entries.len() implies (#[trigger] entries[j]).max_count < u32::MAX by {
            if j < entries.len() - 1 {
                assert(entries.drop_last()[j] == entries[j]);
            }
        }
    }
}

proof fn lemma_pools_fit(pools: Seq<PoolView>)
    requires
        pools_fit_each(pools),
    ensures
        pools_fit(pools),
    decreases pools.len(),
{
    if pools.len() > 0 {
        lemma_pools_fit(pools.drop_last());
        lemma_entries_fit(pools.last().2);
        assert forall|i: int| 0 <= i < pools.len() implies {
            &&& total_weight((#[trigger] pools[i]).2) <= u32::MAX
            &&& pools[i].1 < u32::MAX
            &&& forall|j: int| 0 <= j < pools[i].2.len() ==> (#[trigger] pools[i].2[j]).max_count < u32::MAX
        } by {
            if i < pools.len() - 1 {
                assert(pools.drop_last()[i] == pools[i]);
            }
        }
    }
}

/// The built-in tables keep weights, counts and rolls within `u32`.
pub proof fn lemma_tables_fit(id: LootTableId)
    ensures
        pools_fit(spec_loot_table(id)),
{
    match id {
        LootTableId::Dungeon => {
            reveal_with_fuel(pools_fit_each, 3);
            reveal_with_fuel(entries_fit, 9);
            reveal_with_fuel(total_weight, 9);
            assert(pools_fit_each(spec_loot_table(LootTableId::Dungeon)));
        },
        LootTableId::Mineshaft => {
            reveal_with_fuel(pools_fit_each, 3);
            reveal_with_fuel(entries_fit, 9);
            reveal_with_fuel(total_weight, 9);
            assert(pools_fit_each(spec_loot_table(LootTableId::Mineshaft)));
        },
        LootTableId::Village => {
            reveal_with_fuel(pools_fit_each, 3);
            reveal_with_fuel(entries_fit, 9);
            reveal_with_fuel(total_weight, 9);
            assert(pools_fit_each(spec_loot_table(LootTableId::Village)));
        },
        LootTableId::StrongholdCorridor => {
            reveal_with_fuel(pools_fit_each, 3);
            reveal_with_fuel(entries_fit, 9);
            reveal_with_fuel(total_weight, 9);
            assert(pools_fit_each(spec_loot_table(LootTableId::StrongholdCorridor)));
        },
        LootTableId::StrongholdLibrary => {
            reveal_with_fuel(pools_fit_each, 3);
            reveal_with_fuel(entries_fit, 9);
            reveal_with_fuel(total_weight, 9);
            assert(pools_fit_each(spec_loot_table(LootTableId::StrongholdLibrary)));
        },
        LootTableId::NetherBridge => {
            reveal_with_fuel(pools_fit_each, 3);
            reveal_with_fuel(entries_fit, 9);
            reveal_with_fuel(total_weight, 9);
            assert(pools_fit_each(spec_loot_table(LootTableId::NetherBridge)));
        },
        LootTableId::EndCity => {
            reveal_with_fuel(pools_fit_each, 3);
            reveal_with_fuel(entries_fit, 9);
            reveal_with_fuel(total_weight, 9);
            assert(pools_fit_each(spec_loot_table(LootTableId::EndCity)));
        },
    }
    lemma_pools_fit(spec_loot_table(id));
}

/// A pick below the total weight always selects an entry.
pub proof fn lemma_pick_in_range(entries: Seq<LootEntry>, pick: int)
    requires
        0 <= pick < total_weight(entries),
    ensures
        0 <= pick_index(entries, pick) < entries.len(),
    decreases entries.len(),
{
    if entries.len() > 0 && pick >= entries[0].weight {
        lemma_total_weight_first(entries);
        lemma_pick_in_range(entries.drop_first(), pick - entries[0].weight);
    }
}

proof fn lemma_total_weight_first(entries: Seq<LootEntry>)
    requires
        entries.len() > 0,
    ensures
        total_weight(entries) == entries[0].weight + total_weight(entries.drop_first()),
    decreases entries.len(),
{
    if entries.len() > 1 {
        lemma_total_weight_first(entries.drop_last());
        assert(entries.drop_last().drop_first() =~= entries.drop_first().drop_last());
    } else {
        assert(entries.drop_first() =~= Seq::<LootEntry>::empty());
        assert(entries.drop_last() =~= Seq::<LootEntry>::empty());
    }
}

/// A stack that entry `e` can give: its item, with a count in the entry's count range held to
/// 1..=64 (the lower bound alone when the range is empty), and nothing else on it when the entry
/// is never enchanted.
pub open spec fn entry_gives(e: LootEntry, stack: ItemStack) -> bool {
    &&& stack.item == e.item
    &&& clamp_int(e.min_count as int, 1, 64) <= stack.count <= clamp_int(
        if e.min_count >= e.max_count {
            e.min_count as int
        } else {
            e.max_count as int
        },
        1,
        64,
    )
    &&& e.enchantment_per_mille == 0 ==> stack == ItemStack::spec_new(e.item, stack.count)
}

/// Fewest stacks pool `p` gives: none when it has no weight, else its least number of rolls
/// held to at most 32.
pub open spec fn pool_least_rolls(p: PoolView) -> int {
    if p.2.len() == 0 || total_weight(p.2) == 0 {
        0
    } else {
        clamp_int(p.0 as int, 0, 32)
    }
}

/// Most stacks pool `p` gives: none when it has no weight, else its largest number of rolls
/// (its least when its range is empty) held to at most 32.
pub open spec fn pool_most_rolls(p: PoolView) -> int {
    if p.2.len() == 0 || total_weight(p.2) == 0 {
        0
    } else {
        clamp_int(if p.0 >= p.1 { p.0 as int } else { p.1 as int }, 0, 32)
    }
}

/// Fewest stacks all of `pools` give together.
pub open spec fn least_rolls(pools: Seq<PoolView>) -> int
    decreases pools.len(),
{
    if pools.len() == 0 {
        0
    } else {
        least_rolls(pools.drop_last()) + pool_least_rolls(pools.last())
    }
}

/// Most stacks all of `pools` give together.
pub open spec fn most_rolls(pools: Seq<PoolView>) -> int
    decreases pools.len(),
{
    if pools.len() == 0 {
        0
    } else {
        most_rolls(pools.drop_last()) + pool_most_rolls(pools.last())
    }
}

/// A stack that some entry of some pool of `pools` can give; its count lies in 1..=64.
pub open spec fn from_pools(pools: Seq<PoolView>, stack: ItemStack) -> bool {
    &&& 1 <= stack.count <= 64
    &&& exists|i: int, j: int| 0 <= i < pools.len() && 0 <= j < pools[i].2.len() && #[trigger] entry_gives(pools[i].2[j], stack)
}

proof fn lemma_roll_n_items(pools: Seq<PoolView>, i: int, total: nat, n: nat, s: u64)
    requires
        0 <= i < pools.len(),
        total == total_weight(pools[i].2),
        total > 0,
    ensures
        roll_n(pools[i].2, total, n, s).0.len() == n,
        forall|k: int| 0 <= k < roll_n(pools[i].2, total, n, s).0.len() ==> from_pools(pools, #[trigger] roll_n(pools[i].2, total, n, s).0[k]),
    decreases n,
{
    if n > 0 {
        let entries = pools[i].2;
        lemma_roll_n_items(pools, i, total, (n - 1) as nat, s);
        let (items, s1) = roll_n(entries, total, (n - 1) as nat, s);
        let pick = (lcg_output(s1) as int) % (total as int);
        lemma_pick_in_range(entries, pick);
        let j = pick_index(entries, pick);
        let (more, s2) = roll_once(entries, total, s1);
        assert(more.len() == 1);
        assert(from_pools(pools, more[0])) by {
            let e = pools[i].2[j];
            let (count, s3) = draw_range(e.min_count, e.max_count, lcg_next(s1));
            assert(e.min_count < e.max_count ==> e.min_count <= count <= e.max_count) by {
                if e.min_count < e.max_count {
                    assert((lcg_output(lcg_next(s1)) as int) % ((e.max_count as int) - (e.min_count as int) + 1) <= (e.max_count as int) - (
                    e.min_count as int));
                }
            }
            assert(entry_gives(e, more[0]));
        }
        assert forall|k: int| 0 <= k < (items + more).len() implies from_pools(pools, #[trigger] (items + more)[k]) by {
            if k < items.len() {
                assert((items + more)[k] == items[k]);
            } else {
                assert((items + more)[k] == more[0]);
            }
        }
    }
}

/// Every stack that rolling `pools` gives comes from one of their entries, with a count in that
/// entry's range held to 1..=64; and no pool gives more than 32 stacks.
pub proof fn lemma_roll_pools_items(pools: Seq<PoolView>, s: u64)
    ensures
        forall|k: int| 0 <= k < roll_pools(pools, s).0.len() ==> from_pools(pools, #[trigger] roll_pools(pools, s).0[k]),
        roll_pools(pools, s).0.len() <= 32 * pools.len(),
        least_rolls(pools) <= roll_pools(pools, s).0.len() <= most_rolls(pools),
    decreases pools.len(),
{
    if pools.len() > 0 {
        let prefix = pools.drop_last();
        lemma_roll_pools_items(prefix, s);
        let (items, s1) = roll_pools(prefix, s);
        let last = pools.len() - 1;
        let p = pools[last];
        let (more, s2) = roll_pool(p, s1);
        let total = total_weight(p.2);
        if p.2.len() > 0 && total > 0 {
            let (rolls, s3) = draw_range(p.0, p.1, s1);
            assert(p.0 < p.1 ==> p.0 <= rolls <= p.1) by {
                if p.0 < p.1 {
                    assert((lcg_output(s1) as int) % ((p.1 as int) - (p.0 as int) + 1) <= (p.1 as int) - (p.0 as int));
                }
            }
            lemma_roll_n_items(pools, last, total, clamp_int(rolls, 0, 32) as nat, s3);
        }
        assert forall|k: int| 0 <= k < (items + more).len() implies from_pools(pools, #[trigger] (items + more)[k]) by {
            if k < items.len() {
                assert((items + more)[k] == items[k]);
                let st = items[k];
                assert(from_pools(prefix, st));
                let (a, b) = choose|a: int, b: int| 0 <= a < prefix.len() && 0 <= b < prefix[a].2.len() && #[trigger] entry_gives(prefix[a].2[b], st);
                assert(pools[a].2[b] == prefix[a].2[b]);
                assert(entry_gives(pools[a].2[b], st));
            } else {
                assert((items + more)[k] == more[k - items.len()]);
            }
        }
    }
}

/// Every stack that rolling table `id` gives is an item of one of its entries, with a count in
/// that entry's range held to 1..=64, and a fresh stack of that item when the entry is never
/// enchanted; the number of stacks lies between the fewest and most that the table's pools give
/// together, and each pool gives at most 32.
pub proof fn lemma_roll_items_from_table(id: LootTableId, seed: u64)
    ensures
        forall|k: int| 0 <= k < spec_roll(id, seed).len() ==> from_pools(spec_loot_table(id), #[trigger] spec_roll(id, seed)[k]),
        spec_roll(id, seed).len() <= 32 * spec_loot_table(id).len(),
        least_rolls(spec_loot_table(id)) <= spec_roll(id, seed).len() <= most_rolls(spec_loot_table(id)),
{
    lemma_roll_pools_items(spec_loot_table(id), seed_state(seed));
}

/// The first pool of the End City table: one roll of one Elytra.
pub open spec fn end_city_first_pool() -> PoolView {
    (1u32, 1u32, seq![(LootEntry { item: Item::Elytra, weight: 100, min_count: 1, max_count: 1, enchantment_per_mille: 0 })])
}

/// The first End City pool rolls exactly once and gives one Elytra.
proof fn lemma_end_city_first_pool_roll(s: u64)
    ensures
        roll_pool(end_city_first_pool(), s).0 =~= seq![ItemStack::spec_new(Item::Elytra, 1)],
{
    let p = end_city_first_pool();
    let e = p.2[0];
    assert(p.2.drop_last() =~= Seq::<LootEntry>::empty());
    assert(total_weight(p.2.drop_last()) == 0);
    assert(total_weight(p.2) == 100);
    assert(draw_range(p.0, p.1, s) == (1int, s));
    let pick = (lcg_output(s) as int) % 100;
    assert(pick_index(p.2, pick) == 0);
    assert(draw_range(e.min_count, e.max_count, lcg_next(s)) == (1int, lcg_next(s)));
    assert(make_stack(e, lcg_next(s)).0 == ItemStack::spec_new(Item::Elytra, 1));
    assert(roll_once(p.2, 100, s).0 =~= seq![ItemStack::spec_new(Item::Elytra, 1)]);
    let (none, s0) = roll_n(p.2, 100, 0, s);
    assert(none =~= Seq::<ItemStack>::empty());
    assert(roll_n(p.2, 100, 1, s).0 =~= none + roll_once(p.2, 100, s0).0);
}

/// Rolling a list of pools gives the rolls of all but the last, then those of the last.
proof fn lemma_roll_pools_split(pools: Seq<PoolView>, s: u64)
    requires
        pools.len() > 0,
    ensures
        roll_pools(pools, s).0 == roll_pools(pools.drop_last(), s).0 + roll_pool(
            pools.last(),
            roll_pools(pools.drop_last(), s).1,
        ).0,
{
}

/// Every roll of the End City table starts with one Elytra, whatever the seed.
pub proof fn lemma_end_city_starts_with_elytra(seed: u64)
    ensures
        spec_roll(LootTableId::EndCity, seed).len() >= 1,
        spec_roll(LootTableId::EndCity, seed)[0].item == Item::Elytra,
        spec_roll(LootTableId::EndCity, seed)[0].count == 1,
{
    let pools = spec_loot_table(LootTableId::EndCity);
    let s = seed_state(seed);
    let first = pools.drop_last();
    assert(first =~= seq![end_city_first_pool()]);
    assert(first.drop_last() =~= Seq::<PoolView>::empty());
    lemma_roll_pools_split(first, s);
    lemma_end_city_first_pool_roll(s);
    let items = roll_pools(first, s).0;
    assert(items =~= seq![ItemStack::spec_new(Item::Elytra, 1)]);
    lemma_roll_pools_split(pools, s);
    let more = roll_pool(pools.last(), roll_pools(first, s).1).0;
    assert(spec_roll(LootTableId::EndCity, seed) == items + more);
    assert((items + more)[0] == items[0]);
}

/// Reading a table's resource path back gives the table.
pub proof fn lemma_loot_table_name_round_trip(id: LootTableId)
    ensures
        LootTableId::spec_from_str(id.spec_as_str()) == Some(id),
{
    reveal_strlit("chests/dungeon");
    reveal_strlit("chests/abandoned_mineshaft");
    reveal_strlit("chests/village/village_house");
    reveal_strlit("chests/village");
    reveal_strlit("chests/stronghold_corridor");
    reveal_strlit("chests/stronghold_library");
    reveal_strlit("chests/nether_bridge");
    reveal_strlit("chests/end_city");
    assert("chests/dungeon"@.len() != "chests/abandoned_mineshaft"@.len());
    assert("chests/dungeon"@.len() != "chests/village/village_house"@.len());
    assert("chests/dungeon"@[7] != "chests/village"@[7]);
    assert("chests/dungeon"@.len() != "chests/stronghold_corridor"@.len());
    assert("chests/dungeon"@.len() != "chests/stronghold_library"@.len());
    assert("chests/dungeon"@.len() != "chests/nether_bridge"@.len());
    assert("chests/dungeon"@.len() != "chests/end_city"@.len());
    assert("chests/abandoned_mineshaft"@.len() != "chests/village/village_house"@.len());
    assert("chests/abandoned_mineshaft"@.len() != "chests/village"@.len());
    assert("chests/abandoned_mineshaft"@[7] != "chests/stronghold_corridor"@[7]);
    assert("chests/abandoned_mineshaft"@.len() != "chests/stronghold_library"@.len());
    assert("chests/abandoned_mineshaft"@.len() != "chests/nether_bridge"@.len());
    assert("chests/abandoned_mineshaft"@.len() != "chests/end_city"@.len());
    assert("chests/village/village_house"@.len() != "chests/village"@.len());
    assert("chests/village/village_house"@.len() != "chests/stronghold_corridor"@.len());
    assert("chests/village/village_house"@.len() != "chests/stronghold_library"@.len());
    assert("chests/village/village_house"@.len() != "chests/nether_bridge"@.len());
    assert("chests/village/village_house"@.len() != "chests/end_city"@.len());
    assert("chests/village"@.len() != "chests/stronghold_corridor"@.len());
    assert("chests/village"@.len() != "chests/stronghold_library"@.len());
    assert("chests/village"@.len() != "chests/nether_bridge"@.len());
    assert("chests/village"@.len() != "chests/end_city"@.len());
    assert("chests/stronghold_corridor"@.len() != "chests/stronghold_library"@.len());
    assert("chests/stronghold_corridor"@.len() != "chests/nether_bridge"@.len());
    assert("chests/stronghold_corridor"@.len() != "chests/end_city"@.len());
    assert("chests/stronghold_library"@.len() != "chests/nether_bridge"@.len());
    assert("chests/stronghold_library"@.len() != "chests/end_city"@.len());
    assert("chests/nether_bridge"@.len() != "chests/end_city"@.len());
}

} // verus!
