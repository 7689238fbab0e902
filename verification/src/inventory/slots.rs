//! Rules shared by every row of item slots: merging an incoming stack into
//! matching stacks, filling empty slots, and the counts that describe a row.

use vstd::prelude::*;
use super::catalog::Item;
use super::click::{min_u32, saturating_sub_u32};
use super::stack::ItemStack;

verus! {

/// One slot during the merge pass: a matching stack with room takes as many items as fit.
pub open spec fn merge_step(slot: Option<ItemStack>, inc: ItemStack, max: u32, rem: u32) -> (Option<ItemStack>, u32) {
    match slot {
        Some(e) => if e.spec_can_merge_with(inc) && e.count < max {
            let moved = min_u32((max - e.count) as u32, rem);
            (Some(e.with_count((e.count + moved) as u32)), (rem - moved) as u32)
        } else {
            (slot, rem)
        },
        None => (slot, rem),
    }
}

/// The first `k` slots of `s` after the merge pass, and the items still left to place.
pub open spec fn merge_prefix(s: Seq<Option<ItemStack>>, inc: ItemStack, max: u32, rem: u32, k: nat) -> (Seq<Option<ItemStack>>, u32)
    decreases k,
{
    if k == 0 {
        (Seq::empty(), rem)
    } else {
        let (p, r) = merge_prefix(s, inc, max, rem, (k - 1) as nat);
        let (h, r2) = merge_step(s[k - 1], inc, max, r);
        (p.push(h), r2)
    }
}

/// One slot during the fill pass: an empty slot takes a full stack, or what is left.
pub open spec fn fill_step(slot: Option<ItemStack>, inc: ItemStack, max: u32, rem: u32) -> (Option<ItemStack>, u32) {
    if slot is None && rem > 0 {
        let moved = min_u32(rem, max);
        (Some(inc.with_count(moved)), (rem - moved) as u32)
    } else {
        (slot, rem)
    }
}

/// The first `k` slots of `s` after the fill pass, and the items still left to place.
pub open spec fn fill_prefix(s: Seq<Option<ItemStack>>, inc: ItemStack, max: u32, rem: u32, k: nat) -> (Seq<Option<ItemStack>>, u32)
    decreases k,
{
    if k == 0 {
        (Seq::empty(), rem)
    } else {
        let (p, r) = fill_prefix(s, inc, max, rem, (k - 1) as nat);
        let (h, r2) = fill_step(s[k - 1], inc, max, r);
        (p.push(h), r2)
    }
}

/// Slots after adding `inc`, first into matching stacks in order, then into empty slots in
/// order; and the stack that did not fit, if any.
pub open spec fn spec_add_to_slots(s: Seq<Option<ItemStack>>, inc: ItemStack) -> (Seq<Option<ItemStack>>, Option<ItemStack>) {
    let max = inc.item.spec_max_stack();
    let (s1, r1) = merge_prefix(s, inc, max, inc.count, s.len());
    let (s2, r2) = fill_prefix(s1, inc, max, r1, s1.len());
    (s2, if r2 == 0 { None } else { Some(inc.with_count(r2)) })
}

pub proof fn lemma_merge_prefix_len(s: Seq<Option<ItemStack>>, inc: ItemStack, max: u32, rem: u32, k: nat)
    ensures
        merge_prefix(s, inc, max, rem, k).0.len() == k,
        merge_prefix(s, inc, max, rem, k).1 <= rem,
    decreases k,
{
    if k > 0 {
        lemma_merge_prefix_len(s, inc, max, rem, (k - 1) as nat);
    }
}

pub proof fn lemma_fill_prefix_len(s: Seq<Option<ItemStack>>, inc: ItemStack, max: u32, rem: u32, k: nat)
    ensures
        fill_prefix(s, inc, max, rem, k).0.len() == k,
        fill_prefix(s, inc, max, rem, k).1 <= rem,
    decreases k,
{
    if k > 0 {
        lemma_fill_prefix_len(s, inc, max, rem, (k - 1) as nat);
    }
}

/// Adding to a row keeps its length.
pub proof fn lemma_add_to_slots_len(s: Seq<Option<ItemStack>>, inc: ItemStack)
    ensures
        spec_add_to_slots(s, inc).0.len() == s.len(),
{
    let max = inc.item.spec_max_stack();
    lemma_merge_prefix_len(s, inc, max, inc.count, s.len());
    let (s1, r1) = merge_prefix(s, inc, max, inc.count, s.len());
    lemma_fill_prefix_len(s1, inc, max, r1, s1.len());
}

/// Add `incoming` to a row of slots; returns what did not fit.
pub fn add_to_slots(slots: &mut Vec<Option<ItemStack>>, incoming: ItemStack) -> (r: Option<ItemStack>)
    ensures
        (final(slots)@, r) == spec_add_to_slots(old(slots)@, incoming),
{
    let ghost s0 = slots@;
    let n = slots.len();
    let max_stack = incoming.item.max_stack();
    let mut rem = incoming.count;
    let mut i: usize = 0;
    while i < n
        invariant
            n == s0.len(),
            slots@.len() == n,
            i <= n,
            max_stack == incoming.item.spec_max_stack(),
            slots@ == merge_prefix(s0, incoming, max_stack, incoming.count, i as nat).0 + s0.subrange(i as int, n as int),
            rem == merge_prefix(s0, incoming, max_stack, incoming.count, i as nat).1,
        decreases n - i,
    {
        proof {
            lemma_merge_prefix_len(s0, incoming, max_stack, incoming.count, i as nat);
        }
        let ghost before = slots@;
        assert(before[i as int] == s0[i as int]);
        if let Some(existing) = slots[i] {
            if existing.can_merge_with(&incoming) && existing.count < max_stack {
                let room = max_stack - existing.count;
                let moved = if room < rem { room } else { rem };
                slots.set(i, Some(ItemStack { count: existing.count + moved, ..existing }));
                rem = rem - moved;
            }
        }
        proof {
            lemma_merge_prefix_len(s0, incoming, max_stack, incoming.count, (i + 1) as nat);
            assert(slots@ =~= merge_prefix(s0, incoming, max_stack, incoming.count, (i + 1) as nat).0 + s0.subrange(i + 1, n as int));
        }
        i += 1;
    }
    let ghost s1 = slots@;
    proof {
        lemma_merge_prefix_len(s0, incoming, max_stack, incoming.count, n as nat);
        assert(s1 =~= merge_prefix(s0, incoming, max_stack, incoming.count, n as nat).0);
    }
    let ghost r1 = rem;
    let mut j: usize = 0;
    while j < n
        invariant
            n == s1.len(),
            slots@.len() == n,
            j <= n,
            max_stack == incoming.item.spec_max_stack(),
            slots@ == fill_prefix(s1, incoming, max_stack, r1, j as nat).0 + s1.subrange(j as int, n as int),
            rem == fill_prefix(s1, incoming, max_stack, r1, j as nat).1,
        decreases n - j,
    {
        proof {
            lemma_fill_prefix_len(s1, incoming, max_stack, r1, j as nat);
        }
        let ghost before = slots@;
        assert(before[j as int] == s1[j as int]);
        if slots[j].is_none() && rem > 0 {
            let moved = if rem < max_stack { rem } else { max_stack };
            slots.set(j, Some(ItemStack { count: moved, ..incoming }));
            rem = rem - moved;
        }
        proof {
            lemma_fill_prefix_len(s1, incoming, max_stack, r1, (j + 1) as nat);
            assert(slots@ =~= fill_prefix(s1, incoming, max_stack, r1, (j + 1) as nat).0 + s1.subrange(j + 1, n as int));
        }
        j += 1;
    }
    proof {
        lemma_fill_prefix_len(s1, incoming, max_stack, r1, n as nat);
        assert(slots@ =~= fill_prefix(s1, incoming, max_stack, r1, n as nat).0);
    }
    if rem == 0 {
        None
    } else {
        Some(ItemStack { count: rem, ..incoming })
    }
}


/// Every item kind stacks to between 1 and 64.
pub proof fn lemma_max_stack_bounds(item: Item)
    ensures
        1 <= item.spec_max_stack() <= 64,
{
}

/// Room one slot offers to `inc`: what a matching stack still takes, a full stack for an empty slot.
pub open spec fn slot_capacity(slot: Option<ItemStack>, inc: ItemStack, max: u32) -> int {
    match slot {
        Some(e) => if e.spec_can_merge_with(inc) {
            saturating_sub_u32(max, e.count) as int
        } else {
            0
        },
        None => max as int,
    }
}

/// Room the first `k` slots offer to `inc`.
pub open spec fn capacity_prefix(s: Seq<Option<ItemStack>>, inc: ItemStack, max: u32, k: nat) -> int
    decreases k,
{
    if k == 0 {
        0
    } else {
        capacity_prefix(s, inc, max, (k - 1) as nat) + slot_capacity(s[k - 1], inc, max)
    }
}

/// Room a row of slots offers to `inc`.
pub open spec fn spec_capacity(s: Seq<Option<ItemStack>>, inc: ItemStack) -> int {
    capacity_prefix(s, inc, inc.item.spec_max_stack(), s.len())
}

pub proof fn lemma_capacity_prefix_bounds(s: Seq<Option<ItemStack>>, inc: ItemStack, max: u32, k: nat)
    ensures
        0 <= capacity_prefix(s, inc, max, k) <= k * max,
    decreases k,
{
    if k > 0 {
        lemma_capacity_prefix_bounds(s, inc, max, (k - 1) as nat);
        assert((k - 1) * max + max == k * max) by (nonlinear_arith);
    }
}

/// Room a row of slots offers to `incoming`.
pub fn capacity_of_slots(slots: &Vec<Option<ItemStack>>, incoming: ItemStack) -> (r: u32)
    requires
        slots@.len() <= 1024,
    ensures
        r == spec_capacity(slots@, incoming),
{
    let max_stack = incoming.item.max_stack();
    proof {
        lemma_max_stack_bounds(incoming.item);
    }
    let n = slots.len();
    let mut total: u32 = 0;
    let mut i: usize = 0;
    while i < n
        invariant
            n == slots@.len(),
            n <= 1024,
            i <= n,
            max_stack == incoming.item.spec_max_stack(),
            max_stack <= 64,
            total == capacity_prefix(slots@, incoming, max_stack, i as nat),
        decreases n - i,
    {
        proof {
            lemma_capacity_prefix_bounds(slots@, incoming, max_stack, (i + 1) as nat);
            assert((i + 1) * max_stack <= 1024 * 64) by (nonlinear_arith)
                requires
                    i + 1 <= 1024,
                    max_stack <= 64,
            ;
        }
        let add = match slots[i] {
            Some(existing) => if existing.can_merge_with(&incoming) {
                if max_stack >= existing.count { max_stack - existing.count } else { 0 }
            } else {
                0
            },
            None => max_stack,
        };
        total = total + add;
        i += 1;
    }
    total
}

/// Whether a slot can take at least one item of `inc`: it is empty, or holds a stack that
/// merges with `inc` and is below the stack limit `max`.
pub open spec fn slot_accepts(slot: Option<ItemStack>, inc: ItemStack, max: u32) -> bool {
    match slot {
        Some(e) => e.spec_can_merge_with(inc) && e.count < max,
        None => true,
    }
}

/// Number of the first `k` slots that can take at least one item of `inc`.
pub open spec fn accepting_prefix(s: Seq<Option<ItemStack>>, inc: ItemStack, max: u32, k: nat) -> int
    decreases k,
{
    if k == 0 {
        0
    } else {
        accepting_prefix(s, inc, max, (k - 1) as nat) + if slot_accepts(s[k - 1], inc, max) {
            1int
        } else {
            0int
        }
    }
}

/// Number of slots of a row that can take at least one item of `inc`.
pub open spec fn spec_accepting_slots(s: Seq<Option<ItemStack>>, inc: ItemStack) -> int {
    accepting_prefix(s, inc, inc.item.spec_max_stack(), s.len())
}

/// Number of slots of a row that can take at least one item of `incoming`.
pub fn accepting_slots(slots: &Vec<Option<ItemStack>>, incoming: ItemStack) -> (r: u32)
    requires
        slots@.len() <= 1024,
    ensures
        r == spec_accepting_slots(slots@, incoming),
{
    let max_stack = incoming.item.max_stack();
    let n = slots.len();
    let mut total: u32 = 0;
    let mut i: usize = 0;
    while i < n
        invariant
            n == slots@.len(),
            n <= 1024,
            i <= n,
            max_stack == incoming.item.spec_max_stack(),
            total == accepting_prefix(slots@, incoming, max_stack, i as nat),
            total <= i,
        decreases n - i,
    {
        let accepts = match slots[i] {
            Some(existing) => existing.can_merge_with(&incoming) && existing.count < max_stack,
            None => true,
        };
        if accepts {
            total = total + 1;
        }
        i += 1;
    }
    total
}

/// Items held in the first `k` slots.
pub open spec fn total_prefix(s: Seq<Option<ItemStack>>, k: nat) -> int
    decreases k,
{
    if k == 0 {
        0
    } else {
        total_prefix(s, (k - 1) as nat) + match s[k - 1] {
            Some(e) => e.count as int,
            None => 0,
        }
    }
}

/// Items held in a row of slots.
pub open spec fn spec_total(s: Seq<Option<ItemStack>>) -> int {
    total_prefix(s, s.len())
}

proof fn lemma_total_prefix_monotone(s: Seq<Option<ItemStack>>, j: nat, k: nat)
    requires
        j <= k,
    ensures
        0 <= total_prefix(s, j) <= total_prefix(s, k),
    decreases k,
{
    if k > 0 {
        lemma_total_prefix_monotone(s, if j < k { j } else { (k - 1) as nat }, (k - 1) as nat);
    }
}

/// Items held in a row of slots.
pub fn total_of_slots(slots: &Vec<Option<ItemStack>>) -> (r: u32)
    requires
        spec_total(slots@) <= u32::MAX,
    ensures
        r == spec_total(slots@),
{
    let n = slots.len();
    let mut total: u32 = 0;
    let mut i: usize = 0;
    while i < n
        invariant
            n == slots@.len(),
            i <= n,
            spec_total(slots@) <= u32::MAX,
            total == total_prefix(slots@, i as nat),
        decreases n - i,
    {
        proof {
            lemma_total_prefix_monotone(slots@, (i + 1) as nat, n as nat);
        }
        if let Some(s) = slots[i] {
            total = total + s.count;
        }
        i += 1;
    }
    total
}

/// Items of kind `item` held in the first `k` slots.
pub open spec fn item_count_prefix(s: Seq<Option<ItemStack>>, item: Item, k: nat) -> int
    decreases k,
{
    if k == 0 {
        0
    } else {
        item_count_prefix(s, item, (k - 1) as nat) + match s[k - 1] {
            Some(e) => if e.item == item { e.count as int } else { 0 },
            None => 0,
        }
    }
}

/// Items of kind `item` held in a row of slots.
pub open spec fn spec_item_count(s: Seq<Option<ItemStack>>, item: Item) -> int {
    item_count_prefix(s, item, s.len())
}

proof fn lemma_item_count_prefix_monotone(s: Seq<Option<ItemStack>>, item: Item, j: nat, k: nat)
    requires
        j <= k,
    ensures
        0 <= item_count_prefix(s, item, j) <= item_count_prefix(s, item, k),
    decreases k,
{
    if k > 0 {
        lemma_item_count_prefix_monotone(s, item, if j < k { j } else { (k - 1) as nat }, (k - 1) as nat);
    }
}

/// Items of kind `item` held in a row of slots.
pub fn item_count_of_slots(slots: &Vec<Option<ItemStack>>, item: Item) -> (r: u32)
    requires
        spec_item_count(slots@, item) <= u32::MAX,
    ensures
        r == spec_item_count(slots@, item),
{
    let n = slots.len();
    let mut total: u32 = 0;
    let mut i: usize = 0;
    while i < n
        invariant
            n == slots@.len(),
            i <= n,
            spec_item_count(slots@, item) <= u32::MAX,
            total == item_count_prefix(slots@, item, i as nat),
        decreases n - i,
    {
        proof {
            lemma_item_count_prefix_monotone(slots@, item, (i + 1) as nat, n as nat);
        }
        if let Some(s) = slots[i] {
            if s.item == item {
                total = total + s.count;
            }
        }
        i += 1;
    }
    total
}


/// Items in the first `k` slots that belong to stacks mergeable with `inc`.
pub open spec fn matching_prefix(s: Seq<Option<ItemStack>>, inc: ItemStack, k: nat) -> int
    decreases k,
{
    if k == 0 {
        0
    } else {
        matching_prefix(s, inc, (k - 1) as nat) + match s[k - 1] {
            Some(e) => if e.spec_can_merge_with(inc) { e.count as int } else { 0 },
            None => 0,
        }
    }
}

/// Items in a row that belong to stacks mergeable with `inc`.
pub open spec fn spec_matching(s: Seq<Option<ItemStack>>, inc: ItemStack) -> int {
    matching_prefix(s, inc, s.len())
}

/// Count held by an optional stack.
pub open spec fn opt_stack_count(s: Option<ItemStack>) -> int {
    match s {
        Some(st) => st.count as int,
        None => 0,
    }
}

proof fn lemma_matching_prefix_same(a: Seq<Option<ItemStack>>, b: Seq<Option<ItemStack>>, inc: ItemStack, k: nat)
    requires
        k <= a.len(),
        k <= b.len(),
        forall|i: int| 0 <= i < k ==> a[i] == b[i],
    ensures
        matching_prefix(a, inc, k) == matching_prefix(b, inc, k),
    decreases k,
{
    if k > 0 {
        lemma_matching_prefix_same(a, b, inc, (k - 1) as nat);
    }
}

proof fn lemma_merge_conserves(s: Seq<Option<ItemStack>>, inc: ItemStack, max: u32, rem: u32, k: nat)
    requires
        k <= s.len(),
    ensures
        matching_prefix(merge_prefix(s, inc, max, rem, k).0, inc, k) + merge_prefix(s, inc, max, rem, k).1
            == matching_prefix(s, inc, k) + rem,
    decreases k,
{
    lemma_merge_prefix_len(s, inc, max, rem, k);
    if k > 0 {
        lemma_merge_conserves(s, inc, max, rem, (k - 1) as nat);
        let (p, r) = merge_prefix(s, inc, max, rem, (k - 1) as nat);
        lemma_merge_prefix_len(s, inc, max, rem, (k - 1) as nat);
        let (h, r2) = merge_step(s[k - 1], inc, max, r);
        lemma_matching_prefix_same(p.push(h), p, inc, (k - 1) as nat);
    }
}

proof fn lemma_fill_conserves(s: Seq<Option<ItemStack>>, inc: ItemStack, max: u32, rem: u32, k: nat)
    requires
        k <= s.len(),
    ensures
        matching_prefix(fill_prefix(s, inc, max, rem, k).0, inc, k) + fill_prefix(s, inc, max, rem, k).1
            == matching_prefix(s, inc, k) + rem,
    decreases k,
{
    lemma_fill_prefix_len(s, inc, max, rem, k);
    if k > 0 {
        lemma_fill_conserves(s, inc, max, rem, (k - 1) as nat);
        let (p, r) = fill_prefix(s, inc, max, rem, (k - 1) as nat);
        lemma_fill_prefix_len(s, inc, max, rem, (k - 1) as nat);
        let (h, r2) = fill_step(s[k - 1], inc, max, r);
        lemma_matching_prefix_same(p.push(h), p, inc, (k - 1) as nat);
    }
}

/// Adding a stack to a row neither loses nor duplicates items: the items in stacks that merge
/// with it, plus what did not fit, equal the items in such stacks before plus the stack's count.
pub proof fn lemma_add_conserves_items(s: Seq<Option<ItemStack>>, inc: ItemStack)
    ensures
        spec_add_to_slots(s, inc).0.len() == s.len(),
        spec_matching(spec_add_to_slots(s, inc).0, inc) + opt_stack_count(spec_add_to_slots(s, inc).1)
            == spec_matching(s, inc) + inc.count,
{
    let max = inc.item.spec_max_stack();
    lemma_add_to_slots_len(s, inc);
    lemma_merge_conserves(s, inc, max, inc.count, s.len());
    lemma_merge_prefix_len(s, inc, max, inc.count, s.len());
    let (s1, r1) = merge_prefix(s, inc, max, inc.count, s.len());
    lemma_fill_conserves(s1, inc, max, r1, s1.len());
}

/// Room the first `k` slots offer in matching stacks.
pub open spec fn merge_room_prefix(s: Seq<Option<ItemStack>>, inc: ItemStack, max: u32, k: nat) -> int
    decreases k,
{
    if k == 0 {
        0
    } else {
        merge_room_prefix(s, inc, max, (k - 1) as nat) + match s[k - 1] {
            Some(e) => if e.spec_can_merge_with(inc) { saturating_sub_u32(max, e.count) as int } else { 0 },
            None => 0,
        }
    }
}

/// Room the first `k` slots offer in empty slots.
pub open spec fn fill_room_prefix(s: Seq<Option<ItemStack>>, max: u32, k: nat) -> int
    decreases k,
{
    if k == 0 {
        0
    } else {
        fill_room_prefix(s, max, (k - 1) as nat) + if s[k - 1] is None { max as int } else { 0 }
    }
}

pub open spec fn sat_sub(a: int, b: int) -> int {
    if a >= b { a - b } else { 0 }
}

proof fn lemma_capacity_split(s: Seq<Option<ItemStack>>, inc: ItemStack, max: u32, k: nat)
    ensures
        capacity_prefix(s, inc, max, k) == merge_room_prefix(s, inc, max, k) + fill_room_prefix(s, max, k),
        merge_room_prefix(s, inc, max, k) >= 0,
        fill_room_prefix(s, max, k) >= 0,
    decreases k,
{
    if k > 0 {
        lemma_capacity_split(s, inc, max, (k - 1) as nat);
    }
}

proof fn lemma_merge_remainder(s: Seq<Option<ItemStack>>, inc: ItemStack, max: u32, rem: u32, k: nat)
    ensures
        merge_prefix(s, inc, max, rem, k).1 == sat_sub(rem as int, merge_room_prefix(s, inc, max, k)),
    decreases k,
{
    if k > 0 {
        lemma_merge_remainder(s, inc, max, rem, (k - 1) as nat);
        lemma_capacity_split(s, inc, max, (k - 1) as nat);
    }
}

proof fn lemma_fill_remainder(s: Seq<Option<ItemStack>>, inc: ItemStack, max: u32, rem: u32, k: nat)
    ensures
        fill_prefix(s, inc, max, rem, k).1 == sat_sub(rem as int, fill_room_prefix(s, max, k)),
    decreases k,
{
    if k > 0 {
        lemma_fill_remainder(s, inc, max, rem, (k - 1) as nat);
        lemma_capacity_split(s, inc, max, (k - 1) as nat);
    }
}

proof fn lemma_merge_keeps_empty(s: Seq<Option<ItemStack>>, inc: ItemStack, max: u32, rem: u32, k: nat)
    requires
        k <= s.len(),
    ensures
        fill_room_prefix(merge_prefix(s, inc, max, rem, k).0, max, k) == fill_room_prefix(s, max, k),
    decreases k,
{
    lemma_merge_prefix_len(s, inc, max, rem, k);
    if k > 0 {
        lemma_merge_keeps_empty(s, inc, max, rem, (k - 1) as nat);
        let (p, r) = merge_prefix(s, inc, max, rem, (k - 1) as nat);
        lemma_merge_prefix_len(s, inc, max, rem, (k - 1) as nat);
        let (h, r2) = merge_step(s[k - 1], inc, max, r);
        lemma_fill_room_same(p.push(h), p, max, (k - 1) as nat);
    }
}

proof fn lemma_fill_room_same(a: Seq<Option<ItemStack>>, b: Seq<Option<ItemStack>>, max: u32, k: nat)
    requires
        k <= a.len(),
        k <= b.len(),
        forall|i: int| 0 <= i < k ==> a[i] == b[i],
    ensures
        fill_room_prefix(a, max, k) == fill_room_prefix(b, max, k),
    decreases k,
{
    if k > 0 {
        lemma_fill_room_same(a, b, max, (k - 1) as nat);
    }
}

/// A row that reports room for the whole stack takes the whole stack.
pub proof fn lemma_capacity_suffices(s: Seq<Option<ItemStack>>, inc: ItemStack)
    requires
        spec_capacity(s, inc) >= inc.count,
    ensures
        spec_add_to_slots(s, inc).1 is None,
{
    let max = inc.item.spec_max_stack();
    lemma_capacity_split(s, inc, max, s.len());
    lemma_merge_remainder(s, inc, max, inc.count, s.len());
    lemma_merge_keeps_empty(s, inc, max, inc.count, s.len());
    lemma_merge_prefix_len(s, inc, max, inc.count, s.len());
    let (s1, r1) = merge_prefix(s, inc, max, inc.count, s.len());
    lemma_fill_remainder(s1, inc, max, r1, s1.len());
}

proof fn lemma_total_prefix_same(a: Seq<Option<ItemStack>>, b: Seq<Option<ItemStack>>, k: nat)
    requires
        k <= a.len(),
        k <= b.len(),
        forall|i: int| 0 <= i < k ==> a[i] == b[i],
    ensures
        total_prefix(a, k) == total_prefix(b, k),
    decreases k,
{
    if k > 0 {
        lemma_total_prefix_same(a, b, (k - 1) as nat);
    }
}

proof fn lemma_merge_conserves_total(s: Seq<Option<ItemStack>>, inc: ItemStack, max: u32, rem: u32, k: nat)
    requires
        k <= s.len(),
    ensures
        total_prefix(merge_prefix(s, inc, max, rem, k).0, k) + merge_prefix(s, inc, max, rem, k).1 == total_prefix(s, k) + rem,
    decreases k,
{
    lemma_merge_prefix_len(s, inc, max, rem, k);
    if k > 0 {
        lemma_merge_conserves_total(s, inc, max, rem, (k - 1) as nat);
        let (p, r) = merge_prefix(s, inc, max, rem, (k - 1) as nat);
        lemma_merge_prefix_len(s, inc, max, rem, (k - 1) as nat);
        let (h, r2) = merge_step(s[k - 1], inc, max, r);
        lemma_total_prefix_same(p.push(h), p, (k - 1) as nat);
    }
}

proof fn lemma_fill_conserves_total(s: Seq<Option<ItemStack>>, inc: ItemStack, max: u32, rem: u32, k: nat)
    requires
        k <= s.len(),
    ensures
        total_prefix(fill_prefix(s, inc, max, rem, k).0, k) + fill_prefix(s, inc, max, rem, k).1 == total_prefix(s, k) + rem,
    decreases k,
{
    lemma_fill_prefix_len(s, inc, max, rem, k);
    if k > 0 {
        lemma_fill_conserves_total(s, inc, max, rem, (k - 1) as nat);
        let (p, r) = fill_prefix(s, inc, max, rem, (k - 1) as nat);
        lemma_fill_prefix_len(s, inc, max, rem, (k - 1) as nat);
        let (h, r2) = fill_step(s[k - 1], inc, max, r);
        lemma_total_prefix_same(p.push(h), p, (k - 1) as nat);
    }
}

/// A slot holding a stack that does not merge with `inc`.
pub open spec fn holds_other(slot: Option<ItemStack>, inc: ItemStack) -> bool {
    slot matches Some(e) && !e.spec_can_merge_with(inc)
}

proof fn lemma_merge_keeps_other(s: Seq<Option<ItemStack>>, inc: ItemStack, max: u32, rem: u32, k: nat)
    requires
        k <= s.len(),
    ensures
        merge_prefix(s, inc, max, rem, k).0.len() == k,
        forall|i: int| 0 <= i < k && holds_other(s[i], inc) ==> #[trigger] merge_prefix(s, inc, max, rem, k).0[i] == s[i],
        forall|i: int| 0 <= i < k ==> (#[trigger] merge_prefix(s, inc, max, rem, k).0[i] is None) == (s[i] is None),
    decreases k,
{
    lemma_merge_prefix_len(s, inc, max, rem, k);
    if k > 0 {
        lemma_merge_keeps_other(s, inc, max, rem, (k - 1) as nat);
        lemma_merge_prefix_len(s, inc, max, rem, (k - 1) as nat);
    }
}

proof fn lemma_fill_keeps_stacks(s: Seq<Option<ItemStack>>, inc: ItemStack, max: u32, rem: u32, k: nat)
    requires
        k <= s.len(),
    ensures
        fill_prefix(s, inc, max, rem, k).0.len() == k,
        forall|i: int| 0 <= i < k && s[i] is Some ==> #[trigger] fill_prefix(s, inc, max, rem, k).0[i] == s[i],
    decreases k,
{
    lemma_fill_prefix_len(s, inc, max, rem, k);
    if k > 0 {
        lemma_fill_keeps_stacks(s, inc, max, rem, (k - 1) as nat);
        lemma_fill_prefix_len(s, inc, max, rem, (k - 1) as nat);
    }
}

/// Adding a stack to a row leaves every slot that holds a stack it does not merge with as it was.
pub proof fn lemma_add_keeps_other_stacks(s: Seq<Option<ItemStack>>, inc: ItemStack)
    ensures
        forall|i: int| 0 <= i < s.len() && holds_other(s[i], inc) ==> #[trigger] spec_add_to_slots(s, inc).0[i] == s[i],
{
    let max = inc.item.spec_max_stack();
    lemma_merge_keeps_other(s, inc, max, inc.count, s.len());
    let (s1, r1) = merge_prefix(s, inc, max, inc.count, s.len());
    lemma_fill_keeps_stacks(s1, inc, max, r1, s1.len());
    assert forall|i: int| 0 <= i < s.len() && holds_other(s[i], inc) implies #[trigger] spec_add_to_slots(s, inc).0[i] == s[i] by {
        assert(s1[i] == s[i]);
    }
}

/// Adding a stack to a row neither loses nor makes items: the items the row holds after, plus
/// what did not fit, are the items before plus the stack's count. Something is left over exactly
/// when the stack's count exceeds the row's room for it, and what is left over is a non-empty
/// part of the same stack.
pub proof fn lemma_add_to_slots_law(s: Seq<Option<ItemStack>>, inc: ItemStack)
    ensures
        spec_add_to_slots(s, inc).0.len() == s.len(),
        spec_total(spec_add_to_slots(s, inc).0) + opt_stack_count(spec_add_to_slots(s, inc).1) == spec_total(s) + inc.count,
        spec_add_to_slots(s, inc).1 is None <==> inc.count <= spec_capacity(s, inc),
        spec_add_to_slots(s, inc).1 matches Some(r) ==> r.count > 0 && r == inc.with_count(r.count),
{
    let max = inc.item.spec_max_stack();
    lemma_add_to_slots_len(s, inc);
    lemma_merge_conserves_total(s, inc, max, inc.count, s.len());
    lemma_merge_prefix_len(s, inc, max, inc.count, s.len());
    let (s1, r1) = merge_prefix(s, inc, max, inc.count, s.len());
    lemma_fill_conserves_total(s1, inc, max, r1, s1.len());
    lemma_capacity_split(s, inc, max, s.len());
    lemma_merge_remainder(s, inc, max, inc.count, s.len());
    lemma_merge_keeps_empty(s, inc, max, inc.count, s.len());
    lemma_fill_remainder(s1, inc, max, r1, s1.len());
}

proof fn lemma_item_count_prefix_same(a: Seq<Option<ItemStack>>, b: Seq<Option<ItemStack>>, item: Item, k: nat)
    requires
        k <= a.len(),
        k <= b.len(),
        forall|i: int| 0 <= i < k ==> a[i] == b[i],
    ensures
        item_count_prefix(a, item, k) == item_count_prefix(b, item, k),
    decreases k,
{
    if k > 0 {
        lemma_item_count_prefix_same(a, b, item, (k - 1) as nat);
    }
}

/// Items of kind `item` among the `rem` items of `inc` still to place.
pub open spec fn kind_part(inc: ItemStack, item: Item, rem: int) -> int {
    if inc.item == item {
        rem
    } else {
        0
    }
}

proof fn lemma_merge_conserves_kind(s: Seq<Option<ItemStack>>, inc: ItemStack, item: Item, max: u32, rem: u32, k: nat)
    requires
        k <= s.len(),
    ensures
        item_count_prefix(merge_prefix(s, inc, max, rem, k).0, item, k) + kind_part(inc, item, merge_prefix(s, inc, max, rem, k).1 as int)
            == item_count_prefix(s, item, k) + kind_part(inc, item, rem as int),
    decreases k,
{
    lemma_merge_prefix_len(s, inc, max, rem, k);
    if k > 0 {
        lemma_merge_conserves_kind(s, inc, item, max, rem, (k - 1) as nat);
        let (p, r) = merge_prefix(s, inc, max, rem, (k - 1) as nat);
        lemma_merge_prefix_len(s, inc, max, rem, (k - 1) as nat);
        let (h, r2) = merge_step(s[k - 1], inc, max, r);
        lemma_item_count_prefix_same(p.push(h), p, item, (k - 1) as nat);
    }
}

proof fn lemma_fill_conserves_kind(s: Seq<Option<ItemStack>>, inc: ItemStack, item: Item, max: u32, rem: u32, k: nat)
    requires
        k <= s.len(),
    ensures
        item_count_prefix(fill_prefix(s, inc, max, rem, k).0, item, k) + kind_part(inc, item, fill_prefix(s, inc, max, rem, k).1 as int)
            == item_count_prefix(s, item, k) + kind_part(inc, item, rem as int),
    decreases k,
{
    lemma_fill_prefix_len(s, inc, max, rem, k);
    if k > 0 {
        lemma_fill_conserves_kind(s, inc, item, max, rem, (k - 1) as nat);
        let (p, r) = fill_prefix(s, inc, max, rem, (k - 1) as nat);
        lemma_fill_prefix_len(s, inc, max, rem, (k - 1) as nat);
        let (h, r2) = fill_step(s[k - 1], inc, max, r);
        lemma_item_count_prefix_same(p.push(h), p, item, (k - 1) as nat);
    }
}

/// Adding a stack to a row keeps the count of every item kind: the items of a kind in the row
/// after, plus those in what did not fit, are those before plus those in the stack.
pub proof fn lemma_add_to_slots_keeps_kinds(s: Seq<Option<ItemStack>>, inc: ItemStack, item: Item)
    ensures
        spec_item_count(spec_add_to_slots(s, inc).0, item) + kind_part(inc, item, opt_stack_count(spec_add_to_slots(s, inc).1))
            == spec_item_count(s, item) + kind_part(inc, item, inc.count as int),
{
    let max = inc.item.spec_max_stack();
    lemma_add_to_slots_len(s, inc);
    lemma_merge_conserves_kind(s, inc, item, max, inc.count, s.len());
    lemma_merge_prefix_len(s, inc, max, inc.count, s.len());
    let (s1, r1) = merge_prefix(s, inc, max, inc.count, s.len());
    lemma_fill_conserves_kind(s1, inc, item, max, r1, s1.len());
}

/// Items of kind `item` in one slot.
pub open spec fn slot_kind_count(slot: Option<ItemStack>, item: Item) -> int {
    match slot {
        Some(e) => if e.item == item { e.count as int } else { 0 },
        None => 0,
    }
}

/// Items of kind `item` in the first `k` slots after slot `i` was replaced by `x`.
pub proof fn lemma_item_count_update(s: Seq<Option<ItemStack>>, item: Item, i: int, x: Option<ItemStack>, k: nat)
    requires
        0 <= i < s.len(),
        k <= s.len(),
    ensures
        item_count_prefix(s.update(i, x), item, k) == item_count_prefix(s, item, k) + if i < k {
            slot_kind_count(x, item) - slot_kind_count(s[i], item)
        } else {
            0
        },
    decreases k,
{
    if k > 0 {
        lemma_item_count_update(s, item, i, x, (k - 1) as nat);
    }
}

/// With no slot before `start` holding `item`, a row with no slot holding it from `start` on
/// holds none of it.
pub proof fn lemma_no_slot_no_items(s: Seq<Option<ItemStack>>, item: Item, start: nat)
    requires
        start <= s.len(),
        item_count_prefix(s, item, start) == 0,
        first_slot_with(s, item, start) is None,
    ensures
        spec_item_count(s, item) == 0,
    decreases s.len() - start,
{
    if start < s.len() {
        assert(item_count_prefix(s, item, start + 1) == 0);
        lemma_no_slot_no_items(s, item, start + 1);
    }
}

/// Items of kind `item` in the first `k` slots, when the first slot holding it is at `i`, are
/// those of slot `i` and after, and at least that slot's.
pub proof fn lemma_item_count_from(s: Seq<Option<ItemStack>>, item: Item, i: int, k: nat)
    requires
        0 <= i < k <= s.len(),
    ensures
        item_count_prefix(s, item, k) >= slot_kind_count(s[i], item),
    decreases k,
{
    if k - 1 > i {
        lemma_item_count_from(s, item, i, (k - 1) as nat);
    }
    lemma_item_count_prefix_monotone(s, item, i as nat, (k - 1) as nat);
}

/// A row of slots copied into a vector.
pub fn slots_to_vec<const N: usize>(a: &[Option<ItemStack>; N]) -> (r: Vec<Option<ItemStack>>)
    ensures
        r@ == a@,
{
    let mut v: Vec<Option<ItemStack>> = Vec::new();
    let mut i: usize = 0;
    while i < N
        invariant
            i <= N,
            a@.len() == N,
            v@ == a@.subrange(0, i as int),
        decreases N - i,
    {
        v.push(a[i]);
        i += 1;
        assert(v@ =~= a@.subrange(0, i as int));
    }
    assert(v@ =~= a@);
    v
}

/// Copy `N` slots of `v`, starting at `offset`, into a row.
pub fn copy_slots_from<const N: usize>(a: &mut [Option<ItemStack>; N], v: &Vec<Option<ItemStack>>, offset: usize)
    requires
        offset + N <= v@.len(),
    ensures
        final(a)@ == v@.subrange(offset as int, offset + N),
{
    let n = v.len();
    let mut i: usize = 0;
    while i < N
        invariant
            i <= N,
            n == v@.len(),
            offset + N <= n,
            a@.len() == N,
            forall|j: int| 0 <= j < i ==> a@[j] == v@[offset + j],
        decreases N - i,
    {
        a[i] = v[offset + i];
        i += 1;
    }
    assert(a@ =~= v@.subrange(offset as int, offset + N));
}

/// Indices of the slots in the first `k` that hold a stack of at least one item.
pub open spec fn non_empty_prefix(s: Seq<Option<ItemStack>>, k: nat) -> Seq<usize>
    decreases k,
{
    if k == 0 {
        Seq::empty()
    } else {
        let p = non_empty_prefix(s, (k - 1) as nat);
        match s[k - 1] {
            Some(e) => if e.count > 0 { p.push((k - 1) as usize) } else { p },
            None => p,
        }
    }
}

pub proof fn lemma_non_empty_prefix_bounds(s: Seq<Option<ItemStack>>, k: nat)
    ensures
        non_empty_prefix(s, k).len() <= k,
        forall|i: int| 0 <= i < non_empty_prefix(s, k).len() ==> non_empty_prefix(s, k)[i] < k,
    decreases k,
{
    if k > 0 {
        lemma_non_empty_prefix_bounds(s, (k - 1) as nat);
    }
}

/// Index of the first slot from `start` on that holds a stack of kind `item`, if any.
pub open spec fn first_slot_with(s: Seq<Option<ItemStack>>, item: Item, start: nat) -> Option<nat>
    decreases s.len() - start,
{
    if start >= s.len() {
        None
    } else {
        match s[start as int] {
            Some(e) => if e.item == item { Some(start) } else { first_slot_with(s, item, start + 1) },
            None => first_slot_with(s, item, start + 1),
        }
    }
}

pub proof fn lemma_first_slot_with_bounds(s: Seq<Option<ItemStack>>, item: Item, start: nat)
    ensures
        first_slot_with(s, item, start) matches Some(i) ==> (start <= i < s.len() && (s[i as int] matches Some(e) && e.item == item)),
    decreases s.len() - start,
{
    if start < s.len() {
        lemma_first_slot_with_bounds(s, item, start + 1);
    }
}

/// Index of the first slot holding a stack of kind `item`.
pub fn find_slot_with(slots: &Vec<Option<ItemStack>>, item: Item) -> (r: Option<usize>)
    ensures
        r == (match first_slot_with(slots@, item, 0) {
            Some(i) => Some(i as usize),
            None => None,
        }),
        r matches Some(i) ==> i < slots@.len(),
{
    let n = slots.len();
    let mut i: usize = 0;
    while i < n
        invariant
            n == slots@.len(),
            i <= n,
            first_slot_with(slots@, item, 0) == first_slot_with(slots@, item, i as nat),
        decreases n - i,
    {
        if let Some(s) = slots[i] {
            if s.item == item {
                return Some(i);
            }
        }
        i += 1;
    }
    None
}

} // verus!
