//! Chest-like containers and the player inventory.

use vstd::prelude::*;
use crate::block::BlockType;
use super::catalog::{
    creative_entry_ok, lemma_creative_entries, CreativeTab, Item, CREATIVE_COLUMNS, CREATIVE_ITEMS, CREATIVE_ROWS, CREATIVE_VISIBLE_SLOTS,
};
use super::click::{apply_stack_click, spec_stack_click, StackClickResult};
use super::slots::{
    add_to_slots, capacity_of_slots, copy_slots_from, find_slot_with, first_slot_with, item_count_of_slots,
    lemma_capacity_suffices, lemma_first_slot_with_bounds,
    lemma_add_to_slots_len, lemma_non_empty_prefix_bounds, non_empty_prefix, slots_to_vec,
    spec_add_to_slots, spec_capacity, spec_accepting_slots, accepting_slots, lemma_add_to_slots_law, lemma_add_to_slots_keeps_kinds,
    kind_part, opt_stack_count, slot_kind_count, lemma_item_count_update, lemma_no_slot_no_items, lemma_item_count_from, lemma_capacity_prefix_bounds, holds_other, lemma_add_keeps_other_stacks, spec_item_count, spec_total, total_of_slots,
};
use super::stack::{CreativeDragOrigin, ItemStack};

verus! {

/// Inventory of a container block such as a chest: 27 slots.
#[derive(Debug, Clone, Copy, PartialEq, Eq)]
pub struct ContainerInventory {
    pub slots: [Option<ItemStack>; 27],
}

/// True when every slot of the row is empty.
pub open spec fn all_empty(s: Seq<Option<ItemStack>>) -> bool {
    forall|i: int| 0 <= i < s.len() ==> s[i] is None
}

impl ContainerInventory {
    /// An empty container.
    pub fn new() -> (r: ContainerInventory)
        ensures
            all_empty(r.slots@),
    {
        ContainerInventory { slots: [None; 27] }
    }

    /// True when no slot holds a stack.
    pub fn is_empty(&self) -> (r: bool)
        ensures
            r == all_empty(self.slots@),
    {
        let mut i: usize = 0;
        while i < 27
            invariant
                i <= 27,
                forall|j: int| 0 <= j < i ==> self.slots@[j] is None,
            decreases 27 - i,
        {
            if self.slots[i].is_some() {
                return false;
            }
            i += 1;
        }
        true
    }

    /// Number of items over all slots.
    pub fn total_items(&self) -> (r: u32)
        requires
            spec_total(self.slots@) <= u32::MAX,
        ensures
            r == spec_total(self.slots@),
    {
        let v = slots_to_vec(&self.slots);
        total_of_slots(&v)
    }

    /// Empty every slot.
    pub fn clear(&mut self)
        ensures
            all_empty(final(self).slots@),
    {
        self.slots = [None; 27];
    }

    /// Add `incoming`, first onto matching stacks, then into empty slots; returns what did not
    /// fit. An empty stack or air is taken without effect.
    pub fn add_stack(&mut self, incoming: ItemStack) -> (r: Option<ItemStack>)
        ensures
            incoming.count == 0 || incoming.item == Item::Air ==> r is None && final(self).slots@
                == old(self).slots@,
            !(incoming.count == 0 || incoming.item == Item::Air) ==> (final(self).slots@, r)
                == spec_add_to_slots(old(self).slots@, incoming),
    {
        if incoming.count == 0 || incoming.item == Item::Air {
            return None;
        }
        let mut v = slots_to_vec(&self.slots);
        let r = add_to_slots(&mut v, incoming);
        proof {
            let (s2, _) = spec_add_to_slots(self.slots@, incoming);
            lemma_add_to_slots_len(self.slots@, incoming);
        }
        copy_slots_from(&mut self.slots, &v, 0);
        assert(self.slots@ =~= v@);
        r
    }

    /// Number of slots that can take at least one item of `incoming`: the empty ones and those
    /// holding a stack it merges with that is below the stack limit.
    pub fn storage_capacity_for(&self, incoming: ItemStack) -> (r: u32)
        ensures
            r == spec_accepting_slots(self.slots@, incoming),
    {
        let v = slots_to_vec(&self.slots);
        accepting_slots(&v, incoming)
    }

    /// One of the slots holding at least one item, picked by `seed`: the
    /// `seed mod n`-th of the `n` such slots in slot order.
    pub fn select_random_non_empty_slot(&self, seed: u64) -> (r: Option<usize>)
        ensures
            ({
                let idx = non_empty_prefix(self.slots@, 27);
                r == if idx.len() == 0 {
                    None
                } else {
                    Some(idx[((seed as usize) % (idx.len() as usize)) as int])
                }
            }),
    {
        let mut non_empty: Vec<usize> = Vec::new();
        let mut i: usize = 0;
        while i < 27
            invariant
                i <= 27,
                non_empty@ == non_empty_prefix(self.slots@, i as nat),
            decreases 27 - i,
        {
            if let Some(s) = self.slots[i] {
                if s.count > 0 {
                    non_empty.push(i);
                }
            }
            i += 1;
        }
        proof {
            lemma_non_empty_prefix_bounds(self.slots@, 27);
        }
        if non_empty.len() == 0 {
            None
        } else {
            let idx = (seed as usize) % non_empty.len();
            Some(non_empty[idx])
        }
    }
}


/// Items on the creative hotbar of a new creative inventory.
pub const CREATIVE_HOTBAR_ITEMS: [Item; 9] = [
    Item::Grass,
    Item::Dirt,
    Item::Stone,
    Item::OakLog,
    Item::OakPlanks,
    Item::Glass,
    Item::Cobblestone,
    Item::Water,
    Item::Torch,
];

/// Items in the main storage of a new creative inventory.
pub const CREATIVE_EXTRA_ITEMS: [Item; 27] = [
    Item::RedstoneWire,
    Item::RedstoneTorch,
    Item::Repeater,
    Item::Comparator,
    Item::StoneButton,
    Item::Lever,
    Item::PressurePlate,
    Item::Piston,
    Item::StickyPiston,
    Item::RedstoneLamp,
    Item::OakDoor,
    Item::OakTrapdoor,
    Item::Dispenser,
    Item::Dropper,
    Item::NoteBlock,
    Item::DiamondPickaxe,
    Item::FlintAndSteel,
    Item::Netherrack,
    Item::SoulSand,
    Item::Glowstone,
    Item::EndStone,
    Item::EndPortalFrame,
    Item::EyeOfEnder,
    Item::WitherSkeletonSkull,
    Item::EndCrystal,
    Item::Elytra,
    Item::NetherStar,
];

/// The player's inventory: hotbar, main storage, armor, off hand, crafting grid, the stack on the
/// cursor, and the state of the creative catalog.
pub struct Inventory {
    pub hotbar: [Option<ItemStack>; 9],
    pub main: [Option<ItemStack>; 27],
    pub armor: [Option<ItemStack>; 4],
    pub offhand: Option<ItemStack>,
    pub craft_input: Vec<Option<ItemStack>>,
    pub craft_output: Option<ItemStack>,
    pub dragged: Option<ItemStack>,
    pub creative_drag_origin: Option<CreativeDragOrigin>,
    pub creative_tab: CreativeTab,
    pub creative_scroll_row: usize,
    /// Selected hotbar slot, 0 to 8.
    pub selected: usize,
    pub is_open: bool,
    pub is_table_open: bool,
}

/// The storage (hotbar then main), the cursor stack and where the cursor stack came from.
pub type CursorState = (Seq<Option<ItemStack>>, Option<ItemStack>, Option<CreativeDragOrigin>);

/// Adding a stack to the player's storage: an empty stack is taken without effect, air is refused whole.
pub open spec fn spec_inv_add(s: Seq<Option<ItemStack>>, inc: ItemStack) -> (Seq<Option<ItemStack>>, Option<ItemStack>) {
    if inc.count == 0 {
        (s, None)
    } else if inc.item == Item::Air {
        (s, Some(inc))
    } else {
        spec_add_to_slots(s, inc)
    }
}

/// Putting the cursor stack back into storage. Nothing happens when it does not fit whole;
/// otherwise it is added and the cursor keeps what (if anything) was left over.
pub open spec fn spec_try_return(c: CursorState) -> (CursorState, bool) {
    match c.1 {
        None => ((c.0, None, None), true),
        Some(stack) => if spec_capacity(c.0, stack) < stack.count {
            (c, false)
        } else {
            let (s2, rem) = spec_inv_add(c.0, stack);
            match rem {
                None => ((s2, None, None), true),
                Some(x) => ((s2, Some(x), c.2), false),
            }
        },
    }
}

/// Ending a creative cursor: a catalog stack vanishes, any other stack goes back to storage.
pub open spec fn spec_finish_cursor(c: CursorState) -> (CursorState, bool) {
    match c.2 {
        Some(CreativeDragOrigin::Catalog) => ((c.0, None, None), true),
        _ => spec_try_return(c),
    }
}

/// Taking `item` from the creative catalog: a full stack on a left click, one item on a right click.
/// A real (non-catalog) cursor stack must first go back to storage.
pub open spec fn spec_creative_supply(c: CursorState, item: Item, is_left: bool) -> (CursorState, bool) {
    let count = if is_left { item.spec_max_stack() } else { 1 };
    if item == Item::Air {
        (c, false)
    } else if c.1 is Some && c.2 != Some(CreativeDragOrigin::Catalog) {
        let (c2, ok) = spec_try_return(c);
        if !ok {
            (c2, false)
        } else {
            ((c2.0, Some(ItemStack::spec_new(item, count)), Some(CreativeDragOrigin::Catalog)), true)
        }
    } else {
        ((c.0, Some(ItemStack::spec_new(item, count)), Some(CreativeDragOrigin::Catalog)), true)
    }
}

/// Storage after adding the first `k` returning stacks, or none if one of them did not fit whole.
pub open spec fn returns_fit(s: Seq<Option<ItemStack>>, items: Seq<ItemStack>, k: nat) -> Option<Seq<Option<ItemStack>>>
    decreases k,
{
    if k == 0 {
        Some(s)
    } else {
        match returns_fit(s, items, (k - 1) as nat) {
            None => None,
            Some(s1) => {
                let (s2, rem) = spec_inv_add(s1, items[k - 1]);
                if rem is Some {
                    None
                } else {
                    Some(s2)
                }
            },
        }
    }
}

/// Closing the inventory with `items` to return: all of them and the cursor go back, or nothing changes.
pub open spec fn spec_store_for_close(c: CursorState, items: Seq<ItemStack>) -> (CursorState, bool) {
    match returns_fit(c.0, items, items.len()) {
        None => (c, false),
        Some(s) => {
            let (c2, ok) = spec_finish_cursor((s, c.1, c.2));
            if ok {
                (c2, true)
            } else {
                (c, false)
            }
        },
    }
}

/// Creative catalog items shown in `tab`, among the first `k` catalog entries.
pub open spec fn creative_filter(tab: CreativeTab, k: nat) -> Seq<Item>
    decreases k,
{
    if k == 0 {
        Seq::empty()
    } else {
        let p = creative_filter(tab, (k - 1) as nat);
        let item = CREATIVE_ITEMS@[k - 1];
        if tab == CreativeTab::All || item.spec_def().creative_tab == Some(tab) {
            p.push(item)
        } else {
            p
        }
    }
}

/// Creative catalog items shown in `tab`, in catalog order.
pub open spec fn spec_creative_items_for_tab(tab: CreativeTab) -> Seq<Item> {
    creative_filter(tab, CREATIVE_ITEMS@.len())
}

/// Adding a non-empty stack of a real item to a container neither loses nor makes items: what it
/// holds after, plus what comes back, is what it held before plus the stack. Something comes
/// back exactly when the stack's count exceeds the container's room for it, and what comes back
/// is a non-empty part of the same stack; slots holding stacks it does not merge with keep them.
pub proof fn lemma_container_add_stack_law(c0: ContainerInventory, c1: ContainerInventory, incoming: ItemStack, r: Option<ItemStack>)
    requires
        incoming.count > 0,
        incoming.item != Item::Air,
        (c1.slots@, r) == spec_add_to_slots(c0.slots@, incoming),
    ensures
        spec_total(c1.slots@) + opt_stack_count(r) == spec_total(c0.slots@) + incoming.count,
        r is None <==> incoming.count <= spec_capacity(c0.slots@, incoming),
        r matches Some(st) ==> st.count > 0 && st.spec_can_merge_with(incoming),
        forall|i: int| 0 <= i < 27 && holds_other(c0.slots@[i], incoming) ==> #[trigger] c1.slots@[i] == c0.slots@[i],
{
    lemma_add_to_slots_law(c0.slots@, incoming);
    lemma_add_keeps_other_stacks(c0.slots@, incoming);
}

/// Adding a stack to an inventory's storage keeps the count of every item kind: the items of a
/// kind it holds after, plus those in what comes back, are those before plus those in the stack.
pub proof fn lemma_inventory_add_keeps_kinds(i0: Inventory, i1: Inventory, incoming: ItemStack, r: Option<ItemStack>, item: Item)
    requires
        (i1.storage(), r) == spec_inv_add(i0.storage(), incoming),
    ensures
        spec_item_count(i1.storage(), item) + kind_part(incoming, item, opt_stack_count(r)) == spec_item_count(i0.storage(), item)
            + kind_part(incoming, item, incoming.count as int),
{
    if incoming.count != 0 && incoming.item != Item::Air {
        lemma_add_to_slots_keeps_kinds(i0.storage(), incoming, item);
    }
}

/// Taking one item of a kind from an inventory agrees with counting it: it succeeds exactly when
/// the storage holds some of that kind, and then leaves one fewer of that kind and the same
/// number of every other kind.
pub proof fn lemma_remove_one_counts(i0: Inventory, i1: Inventory, item: Item, r: bool, other: Item)
    requires
        forall|k: int| 0 <= k < i0.storage().len() ==> (#[trigger] i0.storage()[k] matches Some(st) ==> st.count > 0),
        r == first_slot_with(i0.storage(), item, 0) is Some,
        i1.storage() == match first_slot_with(i0.storage(), item, 0) {
            Some(i) => {
                let stack = i0.storage()[i as int]->Some_0;
                i0.storage().update(i as int, if stack.count > 1 { Some(stack.with_count((stack.count - 1) as u32)) } else { None })
            },
            None => i0.storage(),
        },
    ensures
        r <==> spec_item_count(i0.storage(), item) > 0,
        r ==> spec_item_count(i1.storage(), item) == spec_item_count(i0.storage(), item) - 1,
        other != item ==> spec_item_count(i1.storage(), other) == spec_item_count(i0.storage(), other),
{
    let s = i0.storage();
    lemma_first_slot_with_bounds(s, item, 0);
    match first_slot_with(s, item, 0) {
        Some(i) => {
            let stack = s[i as int]->Some_0;
            let x = if stack.count > 1 { Some(stack.with_count((stack.count - 1) as u32)) } else { None };
            assert(s[i as int] matches Some(st) ==> st.count > 0);
            lemma_item_count_from(s, item, i as int, s.len());
            lemma_item_count_update(s, item, i as int, x, s.len());
            lemma_item_count_update(s, other, i as int, x, s.len());
        },
        None => {
            lemma_no_slot_no_items(s, item, 0);
        },
    }
}

/// Ending a creative cursor succeeds exactly when its stack came from the catalog, or there is
/// no stack, or it is empty, or it is a real item that the storage has room for. On success the
/// cursor is empty, a catalog stack leaves the storage as it was, and a returned stack's items
/// all land in storage (every kind's count grows by what the stack held of it); on failure
/// nothing changes.
pub proof fn lemma_finish_cursor_law(c: CursorState, it: Item)
    ensures
        spec_finish_cursor(c).1 == (c.2 == Some(CreativeDragOrigin::Catalog) || c.1 is None || c.1->Some_0.count == 0 || (c.1->Some_0.item
            != Item::Air && spec_capacity(c.0, c.1->Some_0) >= c.1->Some_0.count)),
        spec_finish_cursor(c).1 ==> spec_finish_cursor(c).0.1 is None && spec_finish_cursor(c).0.2 is None,
        c.2 == Some(CreativeDragOrigin::Catalog) ==> spec_finish_cursor(c).0.0 == c.0,
        spec_finish_cursor(c).1 && c.2 != Some(CreativeDragOrigin::Catalog) && c.1 is Some ==> spec_item_count(spec_finish_cursor(c).0.0, it)
            == spec_item_count(c.0, it) + kind_part(c.1->Some_0, it, c.1->Some_0.count as int),
        !spec_finish_cursor(c).1 ==> spec_finish_cursor(c).0 == c,
{
    if let Some(d) = c.1 {
        lemma_capacity_prefix_bounds(c.0, d, d.item.spec_max_stack(), c.0.len());
        if d.count > 0 && d.item != Item::Air && spec_capacity(c.0, d) >= d.count {
            lemma_capacity_suffices(c.0, d);
            lemma_add_to_slots_keeps_kinds(c.0, d, it);
        }
    }
}

/// The six concrete tabs' lists of the first `k` catalog entries, taken together.
pub open spec fn tab_lists(k: nat) -> vstd::multiset::Multiset<Item> {
    creative_filter(CreativeTab::Blocks, k).to_multiset().add(creative_filter(CreativeTab::Tools, k).to_multiset()).add(
        creative_filter(CreativeTab::Combat, k).to_multiset(),
    ).add(creative_filter(CreativeTab::FoodAndBrewing, k).to_multiset()).add(creative_filter(CreativeTab::Redstone, k).to_multiset()).add(
        creative_filter(CreativeTab::Misc, k).to_multiset(),
    )
}

proof fn lemma_tab_lists(k: nat)
    requires
        k <= CREATIVE_ITEMS@.len(),
    ensures
        tab_lists(k) =~= CREATIVE_ITEMS@.take(k as int).to_multiset(),
        creative_filter(CreativeTab::All, k) =~= CREATIVE_ITEMS@.take(k as int),
    decreases k,
{
    broadcast use vstd::seq_lib::group_to_multiset_ensures;
    lemma_creative_entries();
    if k > 0 {
        lemma_tab_lists((k - 1) as nat);
        let item = CREATIVE_ITEMS@[k - 1];
        assert(creative_entry_ok(k - 1));
        assert(CREATIVE_ITEMS@.take(k as int) =~= CREATIVE_ITEMS@.take(k - 1).push(item));
        assert(tab_lists(k) =~= tab_lists((k - 1) as nat).insert(item));
    }
}

proof fn lemma_catalog_ids_rise(i: int, j: int)
    requires
        0 <= i < j < CREATIVE_ITEMS@.len(),
    ensures
        CREATIVE_ITEMS@[i].spec_to_u32() < CREATIVE_ITEMS@[j].spec_to_u32(),
    decreases j - i,
{
    lemma_creative_entries();
    assert(creative_entry_ok(i));
    if i + 1 < j {
        lemma_catalog_ids_rise(i + 1, j);
    }
}

#[verifier::spinoff_prover]
#[verifier::rlimit(60)]
proof fn lemma_catalog_distinct()
    ensures
        CREATIVE_ITEMS@.no_duplicates(),
{
    let n = CREATIVE_ITEMS@.len();
    assert forall|i: int, j: int| 0 <= i < n && 0 <= j < n && i != j implies CREATIVE_ITEMS@[i] != CREATIVE_ITEMS@[j] by {
        if i < j {
            lemma_catalog_ids_rise(i, j);
        } else {
            lemma_catalog_ids_rise(j, i);
        }
    }
}

/// The creative catalog holds no item twice, every entry belongs to one concrete tab, the
/// all-items tab lists the whole catalog in order, and the six concrete tabs' lists together are
/// the catalog: they partition it.
#[verifier::spinoff_prover]
#[verifier::rlimit(100)]
pub proof fn lemma_creative_tabs_partition()
    ensures
        CREATIVE_ITEMS@.no_duplicates(),
        forall|i: int| 0 <= i < CREATIVE_ITEMS@.len() ==> ((#[trigger] CREATIVE_ITEMS@[i]).spec_def().creative_tab matches Some(t) && t
            != CreativeTab::All),
        spec_creative_items_for_tab(CreativeTab::All) == CREATIVE_ITEMS@,
        spec_creative_items_for_tab(CreativeTab::Blocks).to_multiset().add(spec_creative_items_for_tab(CreativeTab::Tools).to_multiset()).add(
            spec_creative_items_for_tab(CreativeTab::Combat).to_multiset(),
        ).add(spec_creative_items_for_tab(CreativeTab::FoodAndBrewing).to_multiset()).add(
            spec_creative_items_for_tab(CreativeTab::Redstone).to_multiset(),
        ).add(spec_creative_items_for_tab(CreativeTab::Misc).to_multiset()) == CREATIVE_ITEMS@.to_multiset(),
{
    lemma_catalog_distinct();
    let n = CREATIVE_ITEMS@.len();
    lemma_tab_lists(n);
    assert(CREATIVE_ITEMS@.take(n as int) =~= CREATIVE_ITEMS@);
    assert forall|i: int| 0 <= i < n implies ((#[trigger] CREATIVE_ITEMS@[i]).spec_def().creative_tab matches Some(t) && t
        != CreativeTab::All) by {
        lemma_creative_entries();
        assert(creative_entry_ok(i));
    }
}

pub proof fn lemma_creative_filter_len(tab: CreativeTab, k: nat)
    ensures
        creative_filter(tab, k).len() <= k,
    decreases k,
{
    if k > 0 {
        lemma_creative_filter_len(tab, (k - 1) as nat);
    }
}

/// Highest scroll row for a catalog of `n` items: rows of nine past the five that are visible.
pub open spec fn spec_max_scroll(n: nat) -> nat {
    let rows = (n + 8) / 9;
    if rows >= 5 { (rows - 5) as nat } else { 0 }
}

impl Inventory {
    /// Hotbar followed by main storage; index `i` of this sequence is slot index `i`.
    pub open spec fn storage(&self) -> Seq<Option<ItemStack>> {
        self.hotbar@ + self.main@
    }

    pub open spec fn cursor_state(&self) -> CursorState {
        (self.storage(), self.dragged, self.creative_drag_origin)
    }

    /// Everything but storage and cursor is equal.
    pub open spec fn rest_equal(&self, other: &Inventory) -> bool {
        &&& self.armor == other.armor
        &&& self.offhand == other.offhand
        &&& self.craft_input@ == other.craft_input@
        &&& self.craft_output == other.craft_output
        &&& self.creative_tab == other.creative_tab
        &&& self.creative_scroll_row == other.creative_scroll_row
        &&& self.selected == other.selected
        &&& self.is_open == other.is_open
        &&& self.is_table_open == other.is_table_open
    }

    /// A fresh inventory: every slot empty, four crafting slots, the "all" tab at the top.
    pub open spec fn is_new(&self) -> bool {
        &&& all_empty(self.hotbar@)
        &&& all_empty(self.main@)
        &&& all_empty(self.armor@)
        &&& self.offhand is None
        &&& self.craft_input@.len() == 4
        &&& all_empty(self.craft_input@)
        &&& self.craft_output is None
        &&& self.dragged is None
        &&& self.creative_drag_origin is None
        &&& self.creative_tab == CreativeTab::All
        &&& self.creative_scroll_row == 0
        &&& self.selected == 0
        &&& !self.is_open
        &&& !self.is_table_open
    }

    /// An empty inventory.
    pub fn new() -> (r: Inventory)
        ensures
            r.is_new(),
    {
        let mut craft_input: Vec<Option<ItemStack>> = Vec::new();
        craft_input.push(None);
        craft_input.push(None);
        craft_input.push(None);
        craft_input.push(None);
        Inventory {
            hotbar: [None; 9],
            main: [None; 27],
            armor: [None; 4],
            offhand: None,
            craft_input,
            craft_output: None,
            dragged: None,
            creative_drag_origin: None,
            creative_tab: CreativeTab::All,
            creative_scroll_row: 0,
            selected: 0,
            is_open: false,
            is_table_open: false,
        }
    }

    /// A creative starting inventory: 64 of each basic building block on the hotbar, a full stack
    /// of each redstone, dimension and boss item in main storage.
    pub fn new_creative() -> (r: Inventory)
        ensures
            forall|i: int| 0 <= i < 9 ==> r.hotbar@[i] == Some(ItemStack::spec_new(CREATIVE_HOTBAR_ITEMS@[i], 64)),
            forall|i: int| 0 <= i < 27 ==> r.main@[i] == Some(ItemStack::spec_new(CREATIVE_EXTRA_ITEMS@[i], CREATIVE_EXTRA_ITEMS@[i].spec_max_stack())),
            all_empty(r.armor@),
            r.offhand is None,
            r.craft_input@.len() == 4,
            all_empty(r.craft_input@),
            r.craft_output is None,
            r.dragged is None,
            r.creative_drag_origin is None,
            r.creative_tab == CreativeTab::All,
            r.creative_scroll_row == 0,
            r.selected == 0,
            !r.is_open,
            !r.is_table_open,
    {
        let mut inv = Self::new();
        let mut i: usize = 0;
        while i < 9
            invariant
                i <= 9,
                forall|j: int| 0 <= j < i ==> inv.hotbar@[j] == Some(ItemStack::spec_new(CREATIVE_HOTBAR_ITEMS@[j], 64)),
                all_empty(inv.main@),
                all_empty(inv.armor@),
                inv.offhand is None,
                inv.craft_input@.len() == 4,
                all_empty(inv.craft_input@),
                inv.craft_output is None,
                inv.dragged is None,
                inv.creative_drag_origin is None,
                inv.creative_tab == CreativeTab::All,
                inv.creative_scroll_row == 0,
                inv.selected == 0,
                !inv.is_open,
                !inv.is_table_open,
            decreases 9 - i,
        {
            inv.hotbar[i] = Some(ItemStack::new(CREATIVE_HOTBAR_ITEMS[i], 64));
            i += 1;
        }
        let mut k: usize = 0;
        while k < 27
            invariant
                k <= 27,
                forall|j: int| 0 <= j < 9 ==> inv.hotbar@[j] == Some(ItemStack::spec_new(CREATIVE_HOTBAR_ITEMS@[j], 64)),
                forall|j: int| 0 <= j < k ==> inv.main@[j] == Some(ItemStack::spec_new(CREATIVE_EXTRA_ITEMS@[j], CREATIVE_EXTRA_ITEMS@[j].spec_max_stack())),
                all_empty(inv.armor@),
                inv.offhand is None,
                inv.craft_input@.len() == 4,
                all_empty(inv.craft_input@),
                inv.craft_output is None,
                inv.dragged is None,
                inv.creative_drag_origin is None,
                inv.creative_tab == CreativeTab::All,
                inv.creative_scroll_row == 0,
                inv.selected == 0,
                !inv.is_open,
                !inv.is_table_open,
            decreases 27 - k,
        {
            let item = CREATIVE_EXTRA_ITEMS[k];
            inv.main[k] = Some(ItemStack::new(item, item.max_stack()));
            k += 1;
        }
        inv
    }

    /// Storage copied into a vector.
    fn storage_vec(&self) -> (r: Vec<Option<ItemStack>>)
        ensures
            r@ == self.storage(),
    {
        let mut v = slots_to_vec(&self.hotbar);
        let m = slots_to_vec(&self.main);
        let mut i: usize = 0;
        while i < 27
            invariant
                i <= 27,
                m@ == self.main@,
                v@ == self.hotbar@ + self.main@.subrange(0, i as int),
            decreases 27 - i,
        {
            v.push(m[i]);
            i += 1;
            assert(v@ =~= self.hotbar@ + self.main@.subrange(0, i as int));
        }
        assert(v@ =~= self.storage());
        v
    }

    /// Replace the storage with `v`.
    fn set_storage(&mut self, v: &Vec<Option<ItemStack>>)
        requires
            v@.len() == 36,
        ensures
            final(self).storage() == v@,
            final(self).rest_equal(old(self)),
            final(self).dragged == old(self).dragged,
            final(self).creative_drag_origin == old(self).creative_drag_origin,
    {
        copy_slots_from(&mut self.hotbar, v, 0);
        copy_slots_from(&mut self.main, v, 9);
        assert(self.storage() =~= v@);
    }

    /// Creative catalog items shown in `tab`, in catalog order.
    pub fn creative_items_for_tab(tab: CreativeTab) -> (r: Vec<Item>)
        ensures
            r@ == spec_creative_items_for_tab(tab),
    {
        let mut items: Vec<Item> = Vec::new();
        let mut i: usize = 0;
        while i < CREATIVE_ITEMS.len()
            invariant
                i <= CREATIVE_ITEMS@.len(),
                items@ == creative_filter(tab, i as nat),
            decreases CREATIVE_ITEMS@.len() - i,
        {
            let item = CREATIVE_ITEMS[i];
            if tab == CreativeTab::All || item.creative_tab() == Some(tab) {
                items.push(item);
            }
            i += 1;
        }
        items
    }

    /// Highest scroll row of `tab`.
    pub fn creative_max_scroll_for_tab(tab: CreativeTab) -> (r: usize)
        ensures
            r == spec_max_scroll(spec_creative_items_for_tab(tab).len()),
    {
        let item_count = Self::creative_items_for_tab(tab).len();
        proof {
            lemma_creative_filter_len(tab, CREATIVE_ITEMS@.len());
        }
        let total_rows = (item_count + (CREATIVE_COLUMNS - 1)) / CREATIVE_COLUMNS;
        if total_rows >= CREATIVE_ROWS { total_rows - CREATIVE_ROWS } else { 0 }
    }

    /// Highest scroll row of the selected tab.
    pub fn creative_max_scroll(&self) -> (r: usize)
        ensures
            r == spec_max_scroll(spec_creative_items_for_tab(self.creative_tab).len()),
    {
        Self::creative_max_scroll_for_tab(self.creative_tab)
    }

    /// The catalog items in view: up to 45 items of the selected tab from the scroll row on.
    pub fn creative_visible_items(&self) -> (r: Vec<Item>)
        requires
            self.creative_scroll_row * CREATIVE_COLUMNS <= usize::MAX,
        ensures
            ({
                let all = spec_creative_items_for_tab(self.creative_tab);
                let start = self.creative_scroll_row * CREATIVE_COLUMNS;
                r@ == if start >= all.len() {
                    Seq::empty()
                } else if start + CREATIVE_VISIBLE_SLOTS >= all.len() {
                    all.subrange(start, all.len() as int)
                } else {
                    all.subrange(start, start + CREATIVE_VISIBLE_SLOTS)
                }
            }),
    {
        let start = self.creative_scroll_row * CREATIVE_COLUMNS;
        let all = Self::creative_items_for_tab(self.creative_tab);
        proof {
            lemma_creative_filter_len(self.creative_tab, CREATIVE_ITEMS@.len());
        }
        let n = all.len();
        let mut out: Vec<Item> = Vec::new();
        if start >= n {
            return out;
        }
        let end = if n - start <= CREATIVE_VISIBLE_SLOTS { n } else { start + CREATIVE_VISIBLE_SLOTS };
        let mut i = start;
        while i < end
            invariant
                start <= i <= end,
                end <= n,
                n == all@.len(),
                out@ == all@.subrange(start as int, i as int),
            decreases end - i,
        {
            out.push(all[i]);
            i += 1;
            assert(out@ =~= all@.subrange(start as int, i as int));
        }
        out
    }

    /// Switch the catalog to `tab` and scroll to its top.
    pub fn select_creative_tab(&mut self, tab: CreativeTab)
        ensures
            final(self).creative_tab == tab,
            final(self).creative_scroll_row == 0,
            final(self).storage() == old(self).storage(),
            final(self).cursor_state() == old(self).cursor_state(),
            final(self).armor == old(self).armor,
            final(self).offhand == old(self).offhand,
            final(self).craft_input@ == old(self).craft_input@,
            final(self).craft_output == old(self).craft_output,
            final(self).selected == old(self).selected,
            final(self).is_open == old(self).is_open,
            final(self).is_table_open == old(self).is_table_open,
    {
        self.creative_tab = tab;
        self.creative_scroll_row = 0;
    }

    /// Pull the scroll row back within the selected tab.
    pub fn clamp_creative_scroll(&mut self)
        ensures
            ({
                let m = spec_max_scroll(spec_creative_items_for_tab(old(self).creative_tab).len());
                final(self).creative_scroll_row == if old(self).creative_scroll_row < m {
                    old(self).creative_scroll_row as nat
                } else {
                    m
                }
            }),
            final(self).creative_tab == old(self).creative_tab,
            final(self).cursor_state() == old(self).cursor_state(),
            final(self).selected == old(self).selected,
    {
        let m = self.creative_max_scroll();
        if m < self.creative_scroll_row {
            self.creative_scroll_row = m;
        }
    }

    /// Scroll the catalog by `direction` rows, staying between the top and the highest row.
    pub fn scroll_creative(&mut self, direction: i32)
        requires
            (old(self).creative_scroll_row as i32) + direction <= i32::MAX,
            (old(self).creative_scroll_row as i32) + direction >= i32::MIN,
        ensures
            ({
                let m = spec_max_scroll(spec_creative_items_for_tab(old(self).creative_tab).len());
                let target = (old(self).creative_scroll_row as i32) + direction;
                final(self).creative_scroll_row == if target < 0 {
                    0
                } else if target > m {
                    m as int
                } else {
                    target
                }
            }),
            final(self).creative_tab == old(self).creative_tab,
            final(self).cursor_state() == old(self).cursor_state(),
            final(self).selected == old(self).selected,
    {
        let m = self.creative_max_scroll();
        proof {
            lemma_creative_filter_len(self.creative_tab, CREATIVE_ITEMS@.len());
        }
        let max_scroll = m as i32;
        #[verifier::truncate]
        let current = self.creative_scroll_row as i32;
        let target = current + direction;
        let clamped = if target < 0 {
            0
        } else if target > max_scroll {
            max_scroll
        } else {
            target
        };
        self.creative_scroll_row = clamped as usize;
    }

    /// Room the storage (hotbar and main) offers to `incoming`.
    pub fn storage_capacity_for(&self, incoming: ItemStack) -> (r: u32)
        ensures
            r == spec_capacity(self.storage(), incoming),
    {
        let v = self.storage_vec();
        capacity_of_slots(&v, incoming)
    }

    /// Add `incoming` to the storage, first onto matching stacks in slot order, then into empty
    /// slots; returns what did not fit. An empty stack is taken without effect; air is refused.
    pub fn add_stack(&mut self, incoming: ItemStack) -> (r: Option<ItemStack>)
        ensures
            (final(self).storage(), r) == spec_inv_add(old(self).storage(), incoming),
            final(self).rest_equal(old(self)),
            final(self).dragged == old(self).dragged,
            final(self).creative_drag_origin == old(self).creative_drag_origin,
    {
        if incoming.count == 0 {
            return None;
        }
        if incoming.item == Item::Air {
            return Some(incoming);
        }
        let mut v = self.storage_vec();
        let r = add_to_slots(&mut v, incoming);
        proof {
            lemma_add_to_slots_len(self.storage(), incoming);
        }
        self.set_storage(&v);
        r
    }

    /// Add one fresh `item`; true when it fit.
    pub fn add_item(&mut self, item: Item) -> (r: bool)
        ensures
            ({
                let (s2, rem) = spec_inv_add(old(self).storage(), ItemStack::spec_new(item, 1));
                final(self).storage() == s2 && r == rem is None
            }),
            final(self).rest_equal(old(self)),
            final(self).dragged == old(self).dragged,
            final(self).creative_drag_origin == old(self).creative_drag_origin,
    {
        self.add_stack(ItemStack::new(item, 1)).is_none()
    }

    /// Put the cursor stack back into storage; see `spec_try_return`.
    pub fn try_return_dragged_to_storage(&mut self) -> (r: bool)
        ensures
            (final(self).cursor_state(), r) == spec_try_return(old(self).cursor_state()),
            final(self).rest_equal(old(self)),
    {
        let stack = match self.dragged {
            None => {
                self.creative_drag_origin = None;
                return true;
            },
            Some(stack) => stack,
        };
        if self.storage_capacity_for(stack) < stack.count {
            return false;
        }
        let origin = self.creative_drag_origin;
        self.dragged = None;
        match self.add_stack(stack) {
            None => {
                self.creative_drag_origin = None;
                true
            },
            Some(remainder) => {
                self.dragged = Some(remainder);
                self.creative_drag_origin = origin;
                false
            },
        }
    }

    /// Take `item` from the creative catalog onto the cursor; see `spec_creative_supply`.
    pub fn creative_supply(&mut self, item: Item, is_left: bool) -> (r: bool)
        ensures
            (final(self).cursor_state(), r) == spec_creative_supply(old(self).cursor_state(), item, is_left),
            final(self).rest_equal(old(self)),
    {
        if item == Item::Air {
            return false;
        }
        if self.dragged.is_some() && self.creative_drag_origin != Some(CreativeDragOrigin::Catalog)
            && !self.try_return_dragged_to_storage() {
            return false;
        }
        let count = if is_left { item.max_stack() } else { 1 };
        self.dragged = Some(ItemStack::new(item, count));
        self.creative_drag_origin = Some(CreativeDragOrigin::Catalog);
        true
    }

    /// Writing to a creative catalog slot does nothing: catalog slots are infinite, read-only sources.
    pub fn write_creative_slot(&mut self, item: Item, stack: Option<ItemStack>)
        ensures
            final(self).storage() == old(self).storage(),
            final(self).cursor_state() == old(self).cursor_state(),
            final(self).rest_equal(old(self)),
    {
    }

    /// Click hotbar slot `index` in creative mode. The click follows `apply_stack_click`; a real
    /// stack on the cursor is marked as coming from the inventory.
    pub fn click_creative_hotbar(&mut self, index: usize, is_left: bool)
        ensures
            index >= 9 ==> final(self).cursor_state() == old(self).cursor_state(),
            index < 9 ==> ({
                let origin0 = if old(self).dragged is Some && old(self).creative_drag_origin is None {
                    Some(CreativeDragOrigin::Inventory)
                } else {
                    old(self).creative_drag_origin
                };
                let res = spec_stack_click(old(self).hotbar@[index as int], old(self).dragged, is_left);
                &&& final(self).hotbar@ == old(self).hotbar@.update(index as int, res.slot)
                &&& final(self).main@ == old(self).main@
                &&& final(self).dragged == res.dragged
                &&& final(self).creative_drag_origin == if res.dragged is None {
                    None
                } else if res.cursor_from_slot {
                    Some(CreativeDragOrigin::Inventory)
                } else {
                    origin0
                }
            }),
            final(self).rest_equal(old(self)),
    {
        if index >= 9 {
            return;
        }
        if self.dragged.is_some() && self.creative_drag_origin.is_none() {
            self.creative_drag_origin = Some(CreativeDragOrigin::Inventory);
        }
        let previous_origin = self.creative_drag_origin;
        let result = apply_stack_click(self.hotbar[index], self.dragged, is_left);
        self.hotbar[index] = result.slot;
        self.dragged = result.dragged;
        self.creative_drag_origin = if self.dragged.is_none() {
            None
        } else if result.cursor_from_slot {
            Some(CreativeDragOrigin::Inventory)
        } else {
            previous_origin
        };
    }

    /// End the creative cursor; see `spec_finish_cursor`.
    pub fn finish_creative_cursor(&mut self) -> (r: bool)
        ensures
            (final(self).cursor_state(), r) == spec_finish_cursor(old(self).cursor_state()),
            final(self).rest_equal(old(self)),
    {
        match self.creative_drag_origin {
            Some(CreativeDragOrigin::Catalog) => {
                self.dragged = None;
                self.creative_drag_origin = None;
                true
            },
            _ => self.try_return_dragged_to_storage(),
        }
    }

    /// Close with `returning_items` to put back: all of them and the cursor go to storage, or the
    /// storage and cursor are left exactly as they were.
    pub fn try_store_for_close(&mut self, returning_items: &[ItemStack]) -> (r: bool)
        ensures
            (final(self).cursor_state(), r) == spec_store_for_close(old(self).cursor_state(), returning_items@),
            final(self).rest_equal(old(self)),
    {
        let saved_hotbar = self.hotbar;
        let saved_main = self.main;
        let saved_dragged = self.dragged;
        let saved_origin = self.creative_drag_origin;
        let ghost c0 = self.cursor_state();
        let n = returning_items.len();
        let mut i: usize = 0;
        while i < n
            invariant
                n == returning_items@.len(),
                i <= n,
                returns_fit(c0.0, returning_items@, i as nat) == Some(self.storage()),
                self.dragged == saved_dragged,
                self.creative_drag_origin == saved_origin,
                c0 == (saved_hotbar@ + saved_main@, saved_dragged, saved_origin),
                c0 == old(self).cursor_state(),
                self.rest_equal(old(self)),
            decreases n - i,
        {
            let stack = returning_items[i];
            let ghost before = self.storage();
            let added = self.add_stack(stack);
            if added.is_some() {
                assert(returns_fit(c0.0, returning_items@, (i + 1) as nat) is None);
                self.hotbar = saved_hotbar;
                self.main = saved_main;
                self.dragged = saved_dragged;
                self.creative_drag_origin = saved_origin;
                proof {
                    lemma_returns_fit_stays_none(c0.0, returning_items@, (i + 1) as nat, n as nat);
                }
                assert(self.cursor_state() == c0);
                return false;
            }
            i += 1;
        }
        if !self.finish_creative_cursor() {
            self.hotbar = saved_hotbar;
            self.main = saved_main;
            self.dragged = saved_dragged;
            self.creative_drag_origin = saved_origin;
            return false;
        }
        true
    }

    /// The first slot holding `item`, as (slot index, stack): hotbar slots are 0 to 8, main slots
    /// 9 to 35, the off hand is 99.
    pub fn find_item(&self, item: Item) -> (r: Option<(usize, ItemStack)>)
        ensures
            r == match first_slot_with(self.storage(), item, 0) {
                Some(i) => Some((i as usize, self.storage()[i as int]->Some_0)),
                None => match self.offhand {
                    Some(s) => if s.item == item { Some((99usize, s)) } else { None },
                    None => None,
                },
            },
    {
        let v = self.storage_vec();
        proof {
            lemma_first_slot_with_bounds(self.storage(), item, 0);
        }
        match find_slot_with(&v, item) {
            Some(i) => {
                let stack = v[i].unwrap();
                Some((i, stack))
            },
            None => match self.offhand {
                Some(s) => if s.item == item { Some((99, s)) } else { None },
                None => None,
            },
        }
    }

    /// Empty the slot with index `slot_idx` (0 to 35, or 99 for the off hand); other indices do nothing.
    pub fn remove_at_slot(&mut self, slot_idx: usize)
        ensures
            slot_idx < 36 ==> final(self).storage() == old(self).storage().update(slot_idx as int, None),
            slot_idx >= 36 ==> final(self).storage() == old(self).storage(),
            final(self).offhand == if slot_idx == 99 { None } else { old(self).offhand },
            final(self).armor == old(self).armor,
            final(self).dragged == old(self).dragged,
            final(self).selected == old(self).selected,
    {
        if slot_idx < 9 {
            self.hotbar[slot_idx] = None;
        } else if slot_idx < 36 {
            self.main[slot_idx - 9] = None;
        } else if slot_idx == 99 {
            self.offhand = None;
        }
        assert(slot_idx < 36 ==> self.storage() =~= old(self).storage().update(slot_idx as int, None));
        assert(slot_idx >= 36 ==> self.storage() =~= old(self).storage());
    }

    /// Swap the selected hotbar stack with the off-hand stack.
    pub fn swap_offhand(&mut self)
        requires
            old(self).selected < 9,
        ensures
            final(self).hotbar@ == old(self).hotbar@.update(old(self).selected as int, old(self).offhand),
            final(self).offhand == old(self).hotbar@[old(self).selected as int],
            final(self).main == old(self).main,
            final(self).dragged == old(self).dragged,
            final(self).selected == old(self).selected,
    {
        let sel = self.selected;
        let main = self.hotbar[sel];
        self.hotbar[sel] = self.offhand;
        self.offhand = main;
    }

    /// Empty every slot, the crafting grid and the cursor.
    pub fn clear(&mut self)
        ensures
            all_empty(final(self).hotbar@),
            all_empty(final(self).main@),
            all_empty(final(self).armor@),
            final(self).offhand is None,
            final(self).craft_input@.len() == old(self).craft_input@.len(),
            all_empty(final(self).craft_input@),
            final(self).craft_output is None,
            final(self).dragged is None,
            final(self).creative_drag_origin is None,
            final(self).creative_tab == old(self).creative_tab,
            final(self).creative_scroll_row == old(self).creative_scroll_row,
            final(self).selected == old(self).selected,
            final(self).is_open == old(self).is_open,
            final(self).is_table_open == old(self).is_table_open,
    {
        self.hotbar = [None; 9];
        self.main = [None; 27];
        self.armor = [None; 4];
        self.offhand = None;
        let n = self.craft_input.len();
        let mut i: usize = 0;
        while i < n
            invariant
                n == self.craft_input@.len(),
                n == old(self).craft_input@.len(),
                i <= n,
                forall|j: int| 0 <= j < i ==> self.craft_input@[j] is None,
                all_empty(self.hotbar@),
                all_empty(self.main@),
                all_empty(self.armor@),
                self.offhand is None,
                self.creative_tab == old(self).creative_tab,
                self.creative_scroll_row == old(self).creative_scroll_row,
                self.selected == old(self).selected,
                self.is_open == old(self).is_open,
                self.is_table_open == old(self).is_table_open,
            decreases n - i,
        {
            self.craft_input.set(i, None);
            i += 1;
        }
        self.craft_output = None;
        self.dragged = None;
        self.creative_drag_origin = None;
    }

    /// The block the selected hotbar stack places, if any.
    pub fn get_selected_block(&self) -> (r: Option<BlockType>)
        requires
            self.selected < 9,
        ensures
            r == match self.hotbar@[self.selected as int] {
                Some(stack) => stack.item.spec_def().block_type,
                None => None,
            },
    {
        match self.hotbar[self.selected] {
            Some(stack) => stack.item.properties().block_type,
            None => None,
        }
    }

    /// Number of `item`s in the storage.
    pub fn count_item(&self, item: Item) -> (r: u32)
        requires
            spec_item_count(self.storage(), item) <= u32::MAX,
        ensures
            r == spec_item_count(self.storage(), item),
    {
        let v = self.storage_vec();
        item_count_of_slots(&v, item)
    }

    /// Take one `item` from the first slot holding it; false when there is none.
    pub fn remove_one(&mut self, item: Item) -> (r: bool)
        ensures
            r == first_slot_with(old(self).storage(), item, 0) is Some,
            final(self).storage() == match first_slot_with(old(self).storage(), item, 0) {
                Some(i) => {
                    let stack = old(self).storage()[i as int]->Some_0;
                    old(self).storage().update(
                        i as int,
                        if stack.count > 1 { Some(stack.with_count((stack.count - 1) as u32)) } else { None },
                    )
                },
                None => old(self).storage(),
            },
            final(self).rest_equal(old(self)),
            final(self).dragged == old(self).dragged,
            final(self).creative_drag_origin == old(self).creative_drag_origin,
    {
        let mut v = self.storage_vec();
        proof {
            lemma_first_slot_with_bounds(self.storage(), item, 0);
        }
        match find_slot_with(&v, item) {
            Some(i) => {
                let stack = v[i].unwrap();
                if stack.count > 1 {
                    v.set(i, Some(ItemStack { count: stack.count - 1, ..stack }));
                } else {
                    v.set(i, None);
                }
                self.set_storage(&v);
                true
            },
            None => false,
        }
    }

    /// Use up one item of the selected hotbar stack, unless in creative mode.
    pub fn use_selected_item(&mut self, is_creative: bool)
        requires
            old(self).selected < 9,
        ensures
            final(self).hotbar@ == if is_creative {
                old(self).hotbar@
            } else {
                match old(self).hotbar@[old(self).selected as int] {
                    Some(stack) => old(self).hotbar@.update(
                        old(self).selected as int,
                        if stack.count > 1 { Some(stack.with_count((stack.count - 1) as u32)) } else { None },
                    ),
                    None => old(self).hotbar@,
                }
            },
            final(self).main == old(self).main,
            final(self).offhand == old(self).offhand,
            final(self).dragged == old(self).dragged,
            final(self).selected == old(self).selected,
    {
        if is_creative {
            return;
        }
        let sel = self.selected;
        if let Some(stack) = self.hotbar[sel] {
            if stack.count > 1 {
                self.hotbar[sel] = Some(ItemStack { count: stack.count - 1, ..stack });
            } else {
                self.hotbar[sel] = None;
            }
        }
    }

    /// Remove `count` items from the selected hotbar stack, emptying the slot when it holds no more.
    pub fn remove_selected_item(&mut self, count: u32)
        requires
            old(self).selected < 9,
        ensures
            final(self).hotbar@ == match old(self).hotbar@[old(self).selected as int] {
                Some(stack) => old(self).hotbar@.update(
                    old(self).selected as int,
                    if stack.count > count { Some(stack.with_count((stack.count - count) as u32)) } else { None },
                ),
                None => old(self).hotbar@,
            },
            final(self).main == old(self).main,
            final(self).offhand == old(self).offhand,
            final(self).dragged == old(self).dragged,
            final(self).selected == old(self).selected,
    {
        let sel = self.selected;
        if let Some(stack) = self.hotbar[sel] {
            if stack.count > count {
                self.hotbar[sel] = Some(ItemStack { count: stack.count - count, ..stack });
            } else {
                self.hotbar[sel] = None;
            }
        }
    }

    /// Replace the selected hotbar stack with one fresh `item`.
    pub fn replace_selected_item(&mut self, item: Item)
        requires
            old(self).selected < 9,
        ensures
            final(self).hotbar@ == old(self).hotbar@.update(old(self).selected as int, Some(ItemStack::spec_new(item, 1))),
            final(self).main == old(self).main,
            final(self).offhand == old(self).offhand,
            final(self).dragged == old(self).dragged,
            final(self).selected == old(self).selected,
    {
        let sel = self.selected;
        self.hotbar[sel] = Some(ItemStack::new(item, 1));
    }
}

/// A real cursor stack goes back to storage whenever the storage reports room for all of it.
pub proof fn lemma_return_with_room_succeeds(c: CursorState)
    requires
        c.1 matches Some(st) && st.item != Item::Air && spec_capacity(c.0, st) >= st.count,
    ensures
        spec_try_return(c).1,
        spec_try_return(c).0.1 is None,
{
    let st = c.1->Some_0;
    if st.count > 0 {
        lemma_capacity_suffices(c.0, st);
    }
}

/// Once a returning stack fails to fit, the whole return fails.
pub proof fn lemma_returns_fit_stays_none(s: Seq<Option<ItemStack>>, items: Seq<ItemStack>, j: nat, k: nat)
    requires
        j <= k,
        returns_fit(s, items, j) is None,
    ensures
        returns_fit(s, items, k) is None,
    decreases k,
{
    if j < k {
        lemma_returns_fit_stays_none(s, items, j, (k - 1) as nat);
    }
}

} // verus!
