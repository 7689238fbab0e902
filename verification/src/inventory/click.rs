//! The rule for one mouse click on an inventory slot while a stack may be on the cursor.

use vstd::prelude::*;
use super::stack::ItemStack;

verus! {

/// The slot and cursor after a click, and whether the cursor's stack came out of the slot.
#[derive(Debug, Clone, Copy, PartialEq, Eq)]
pub struct StackClickResult {
    pub slot: Option<ItemStack>,
    pub dragged: Option<ItemStack>,
    pub cursor_from_slot: bool,
}

pub open spec fn min_u32(a: u32, b: u32) -> u32 {
    if a < b { a } else { b }
}

pub open spec fn saturating_sub_u32(a: u32, b: u32) -> u32 {
    if a >= b { (a - b) as u32 } else { 0 }
}

/// The outcome of a left (`is_left`) or right click on a slot holding `slot` with `dragged` on the cursor.
///
/// Left click: a mergeable cursor stack fills the slot up to the item's stack size and keeps the
/// rest; otherwise slot and cursor swap. Right click: a mergeable cursor drops one item into a slot
/// that has room; a non-mergeable one swaps; an empty cursor picks up the larger half of the slot.
pub open spec fn spec_stack_click(
    slot: Option<ItemStack>,
    dragged: Option<ItemStack>,
    is_left: bool,
) -> StackClickResult {
    if is_left {
        match (dragged, slot) {
            (Some(cursor), Some(existing)) => if existing.spec_can_merge_with(cursor) {
                let max_stack = existing.item.spec_max_stack();
                let transfer = min_u32(saturating_sub_u32(max_stack, existing.count), cursor.count);
                StackClickResult {
                    slot: Some(existing.with_count((existing.count + transfer) as u32)),
                    dragged: if cursor.count > transfer {
                        Some(cursor.with_count((cursor.count - transfer) as u32))
                    } else {
                        None
                    },
                    cursor_from_slot: false,
                }
            } else {
                StackClickResult { slot: Some(cursor), dragged: Some(existing), cursor_from_slot: true }
            },
            (Some(cursor), None) => StackClickResult { slot: Some(cursor), dragged: None, cursor_from_slot: false },
            (None, Some(existing)) => StackClickResult { slot: None, dragged: Some(existing), cursor_from_slot: true },
            (None, None) => StackClickResult { slot: None, dragged: None, cursor_from_slot: false },
        }
    } else {
        match (dragged, slot) {
            (Some(cursor), Some(existing)) => if existing.spec_can_merge_with(cursor) {
                if existing.count < existing.item.spec_max_stack() {
                    StackClickResult {
                        slot: Some(existing.with_count((existing.count + 1) as u32)),
                        dragged: if cursor.count > 1 {
                            Some(cursor.with_count((cursor.count - 1) as u32))
                        } else {
                            None
                        },
                        cursor_from_slot: false,
                    }
                } else {
                    StackClickResult { slot: Some(existing), dragged: Some(cursor), cursor_from_slot: false }
                }
            } else {
                StackClickResult { slot: Some(cursor), dragged: Some(existing), cursor_from_slot: true }
            },
            (Some(cursor), None) => StackClickResult {
                slot: Some(cursor.with_count(1)),
                dragged: if cursor.count > 1 {
                    Some(cursor.with_count((cursor.count - 1) as u32))
                } else {
                    None
                },
                cursor_from_slot: false,
            },
            (None, Some(existing)) => {
                let take = (existing.count / 2 + existing.count % 2) as u32;
                let keep = (existing.count - take) as u32;
                StackClickResult {
                    slot: if keep > 0 { Some(existing.with_count(keep)) } else { None },
                    dragged: Some(existing.with_count(take)),
                    cursor_from_slot: true,
                }
            },
            (None, None) => StackClickResult { slot: None, dragged: None, cursor_from_slot: false },
        }
    }
}

/// Apply one click to a slot with `dragged_item` on the cursor.
pub fn apply_stack_click(
    slot_item: Option<ItemStack>,
    dragged_item: Option<ItemStack>,
    is_left: bool,
) -> (r: StackClickResult)
    ensures
        r == spec_stack_click(slot_item, dragged_item, is_left),
{
    let mut slot = slot_item;
    let mut dragged = dragged_item;
    let mut cursor_from_slot = false;

    if is_left {
        match (dragged, slot) {
            (Some(cursor), Some(existing)) => {
                if existing.can_merge_with(&cursor) {
                    let max_stack = existing.item.max_stack();
                    let room = if max_stack >= existing.count { max_stack - existing.count } else { 0 };
                    let transfer = if room < cursor.count { room } else { cursor.count };
                    slot = Some(ItemStack { count: existing.count + transfer, ..existing });
                    dragged = if cursor.count > transfer {
                        Some(ItemStack { count: cursor.count - transfer, ..cursor })
                    } else {
                        None
                    };
                } else {
                    slot = Some(cursor);
                    dragged = Some(existing);
                    cursor_from_slot = true;
                }
            },
            (Some(cursor), None) => {
                slot = Some(cursor);
                dragged = None;
            },
            (None, Some(existing)) => {
                slot = None;
                dragged = Some(existing);
                cursor_from_slot = true;
            },
            (None, None) => {},
        }
    } else {
        match (dragged, slot) {
            (Some(cursor), Some(existing)) => {
                if existing.can_merge_with(&cursor) {
                    if existing.count < existing.item.max_stack() {
                        slot = Some(ItemStack { count: existing.count + 1, ..existing });
                        dragged = if cursor.count > 1 {
                            Some(ItemStack { count: cursor.count - 1, ..cursor })
                        } else {
                            None
                        };
                    }
                } else {
                    slot = Some(cursor);
                    dragged = Some(existing);
                    cursor_from_slot = true;
                }
            },
            (Some(cursor), None) => {
                slot = Some(ItemStack { count: 1, ..cursor });
                dragged = if cursor.count > 1 {
                    Some(ItemStack { count: cursor.count - 1, ..cursor })
                } else {
                    None
                };
            },
            (None, Some(existing)) => {
                let take = existing.count / 2 + existing.count % 2;
                let keep = existing.count - take;
                slot = if keep > 0 { Some(ItemStack { count: keep, ..existing }) } else { None };
                dragged = Some(ItemStack { count: take, ..existing });
                cursor_from_slot = true;
            },
            (None, None) => {},
        }
    }

    StackClickResult { slot, dragged, cursor_from_slot }
}

/// Count held by an optional stack.
pub open spec fn opt_count(s: Option<ItemStack>) -> int {
    match s {
        Some(st) => st.count as int,
        None => 0,
    }
}

/// A click neither creates nor destroys items: slot and cursor hold as many items after it as
/// before, provided the cursor does not hold an empty stack.
pub proof fn lemma_click_conserves_items(slot: Option<ItemStack>, dragged: Option<ItemStack>, is_left: bool)
    requires
        dragged matches Some(d) ==> d.count > 0,
    ensures
        opt_count(spec_stack_click(slot, dragged, is_left).slot) + opt_count(
            spec_stack_click(slot, dragged, is_left).dragged,
        ) == opt_count(slot) + opt_count(dragged),
{
    match (dragged, slot) {
        (Some(cursor), Some(existing)) => {
            let max_stack = existing.item.spec_max_stack();
            let transfer = min_u32(saturating_sub_u32(max_stack, existing.count), cursor.count);
            assert(existing.count + transfer <= u32::MAX);
        },
        (None, Some(existing)) => {
            let take = (existing.count / 2 + existing.count % 2) as u32;
            assert(take <= existing.count);
        },
        _ => {},
    }
}

/// A click never mixes stacks: every stack it leaves is one of the two it was given, with a new count.
pub proof fn lemma_click_keeps_metadata(slot: Option<ItemStack>, dragged: Option<ItemStack>, is_left: bool)
    ensures
        spec_stack_click(slot, dragged, is_left).slot matches Some(s) ==> (exists|c: u32|
            Some(s.with_count(c)) == slot || Some(s.with_count(c)) == dragged),
        spec_stack_click(slot, dragged, is_left).dragged matches Some(s) ==> (exists|c: u32|
            Some(s.with_count(c)) == slot || Some(s.with_count(c)) == dragged),
{
    let r = spec_stack_click(slot, dragged, is_left);
    if let Some(s) = r.slot {
        let c = match (slot, dragged) {
            (Some(a), _) if s.with_count(a.count) == a => a.count,
            (_, Some(b)) => b.count,
            (Some(a), None) => a.count,
            (None, None) => 0,
        };
        assert(Some(s.with_count(c)) == slot || Some(s.with_count(c)) == dragged);
    }
    if let Some(s) = r.dragged {
        let c = match (slot, dragged) {
            (_, Some(b)) if s.with_count(b.count) == b => b.count,
            (Some(a), _) => a.count,
            (None, Some(b)) => b.count,
            (None, None) => 0,
        };
        assert(Some(s.with_count(c)) == slot || Some(s.with_count(c)) == dragged);
    }
}

/// A left click of a cursor stack on a slot stack it merges with moves as many items as the slot
/// has room for: the slot ends with the smaller of the stack size and the two counts together,
/// and the cursor keeps what is left of its stack, nothing when all of it fit.
pub proof fn lemma_left_click_fills_slot(slot: ItemStack, cursor: ItemStack)
    requires
        slot.spec_can_merge_with(cursor),
        slot.count <= slot.item.spec_max_stack(),
    ensures
        ({
            let total = slot.count + cursor.count;
            let max = slot.item.spec_max_stack() as int;
            let fill = if total < max { total } else { max };
            let r = spec_stack_click(Some(slot), Some(cursor), true);
            &&& r.slot == Some(slot.with_count(fill as u32))
            &&& r.dragged == if total > fill {
                Some(cursor.with_count((total - fill) as u32))
            } else {
                None::<ItemStack>
            }
            &&& !r.cursor_from_slot
        }),
{
}

/// A right click moves single items: a cursor stack that merges with a slot stack that has
/// room puts exactly one item in it, an empty cursor picks up the larger half of a slot stack
/// (the smaller half stays), and a cursor stack on an empty slot leaves one item there.
pub proof fn lemma_right_click_moves_one(slot: ItemStack, cursor: ItemStack)
    requires
        slot.count <= slot.item.spec_max_stack(),
        cursor.count > 0,
    ensures
        slot.spec_can_merge_with(cursor) && slot.count < slot.item.spec_max_stack() ==> {
            let r = spec_stack_click(Some(slot), Some(cursor), false);
            &&& r.slot == Some(slot.with_count((slot.count + 1) as u32))
            &&& opt_count(r.dragged) == cursor.count - 1
        },
        ({
            let r = spec_stack_click(Some(slot), None, false);
            &&& opt_count(r.dragged) + opt_count(r.slot) == slot.count
            &&& opt_count(r.slot) <= opt_count(r.dragged) <= opt_count(r.slot) + 1
        }),
        ({
            let r = spec_stack_click(None, Some(cursor), false);
            &&& r.slot == Some(cursor.with_count(1))
            &&& opt_count(r.dragged) == cursor.count - 1
        }),
{
}

} // verus!
