//! The 3 by 3 columns around an origin column, taken out of the loaded set while light
//! is propagated through them, and the propagation and removal passes themselves.

use vstd::prelude::*;
use crate::block::BlockType;
use crate::world::{cell_index, column_key, ChunkManager, div16, lemma_cell_index_bounds, lemma_cell_index_injective, light_of_column, mod16,
    other_kind, Chunk, LightKind, WorldHeight};
use super::{dirty_keys, mark_light_dirty, ChunkSet, LightNode, LightRemovalNode};
use super::measure::{cols_measure, lemma_cols_nonneg, lemma_cols_update, lemma_seq_update};
use std::collections::VecDeque;

verus! {

/// Largest distance, in columns, of a neighbourhood's origin from column (0, 0).
pub const ORIGIN_BOUND: i32 = 67108868;

/// X offset of light direction `d` (+x, -x, +y, -y, +z, -z).
pub open spec fn dir_dx(d: int) -> int {
    if d == 0 { 1 } else if d == 1 { -1 } else { 0 }
}

/// Y offset of light direction `d`.
pub open spec fn dir_dy(d: int) -> int {
    if d == 2 { 1 } else if d == 3 { -1 } else { 0 }
}

/// Z offset of light direction `d`.
pub open spec fn dir_dz(d: int) -> int {
    if d == 4 { 1 } else if d == 5 { -1 } else { 0 }
}

/// Offsets of the six light directions.
pub fn light_dir(d: usize) -> (r: (i32, i32, i32))
    requires
        d < 6,
    ensures
        r.0 == dir_dx(d as int),
        r.1 == dir_dy(d as int),
        r.2 == dir_dz(d as int),
{
    if d == 0 {
        (1, 0, 0)
    } else if d == 1 {
        (-1, 0, 0)
    } else if d == 2 {
        (0, 1, 0)
    } else if d == 3 {
        (0, -1, 0)
    } else if d == 4 {
        (0, 0, 1)
    } else {
        (0, 0, -1)
    }
}

/// Slot (0 to 8, row by z then x) of block column (`x`, `z`) in the neighbourhood around
/// column (`ocx`, `ocz`); -1 outside it.
pub open spec fn slot_of(ocx: int, ocz: int, x: int, z: int) -> int {
    let dx = x / 16 - ocx;
    let dz = z / 16 - ocz;
    if -1 <= dx <= 1 && -1 <= dz <= 1 {
        (dz + 1) * 3 + (dx + 1)
    } else {
        -1
    }
}

/// Chunk coordinates of slot `s` around column (`ocx`, `ocz`).
pub open spec fn slot_key(ocx: int, ocz: int, s: int) -> (i32, i32) {
    ((ocx + s % 3 - 1) as i32, (ocz + s / 3 - 1) as i32)
}

/// True when the block column (`x`, `z`) lies in the neighbourhood around (`ocx`, `ocz`).
pub open spec fn near(ocx: int, ocz: int, x: int, z: int) -> bool {
    slot_of(ocx, ocz, x, z) >= 0
}

/// True when (`x`, `y`, `z`) is among the nodes of `q`.
pub open spec fn in_queue(q: Seq<LightNode>, x: int, y: int, z: int) -> bool {
    exists|k: int| 0 <= k < q.len() && (#[trigger] q[k]).x == x && q[k].y == y && q[k].z == z
}

/// Every coordinate of `n` lies within `b` of 0.
pub open spec fn node_fits(n: LightNode, b: int) -> bool {
    -b <= n.x <= b && -b <= n.y <= b && -b <= n.z <= b
}

/// Columns taken out of the loaded set, with the height and daylight of their dimension.
pub struct LightNeighborhood {
    pub origin_cx: i32,
    pub origin_cz: i32,
    pub height: WorldHeight,
    pub has_sky_light: bool,
    /// Slot `(dz + 1) * 3 + (dx + 1)` holds the column at (`origin_cx + dx`, `origin_cz + dz`).
    pub columns: Vec<Option<Chunk>>,
    /// Blocks whose light changed, in order.
    pub changed_cells: Vec<(i32, i32, i32)>,
}

impl LightNeighborhood {
    pub open spec fn wf(&self) -> bool {
        &&& self.height.wf()
        &&& self.columns@.len() == 9
        &&& -ORIGIN_BOUND <= self.origin_cx <= ORIGIN_BOUND
        &&& -ORIGIN_BOUND <= self.origin_cz <= ORIGIN_BOUND
        &&& forall|s: int| 0 <= s < 9 ==> ((#[trigger] self.columns@[s]) matches Some(c) ==> c.wf() && c.height == self.height)
    }

    pub open spec fn slot(&self, x: int, z: int) -> int {
        slot_of(self.origin_cx as int, self.origin_cz as int, x, z)
    }

    /// The column holding block column (`x`, `z`), if it is in the neighbourhood and loaded.
    pub open spec fn col(&self, x: int, z: int) -> Option<Chunk> {
        let s = self.slot(x, z);
        if s >= 0 {
            self.columns@[s]
        } else {
            None
        }
    }

    /// Light of `kind` at a block, as propagation sees it.
    pub open spec fn light(&self, kind: LightKind, x: int, y: int, z: int) -> int {
        light_of_column(self.col(x, z), self.height, self.has_sky_light, kind, x, y, z)
    }

    /// Light of `kind` at every block, as a function of the block's coordinates.
    pub open spec fn light_fn(&self, kind: LightKind) -> spec_fn(int, int, int) -> int {
        |x: int, y: int, z: int| self.light(kind, x, y, z)
    }

    /// Block at a position; air where no column is loaded.
    pub open spec fn block(&self, x: int, y: int, z: int) -> BlockType {
        match self.col(x, z) {
            Some(c) => c.block_at(x % 16, y, z % 16),
            None => BlockType::Air,
        }
    }

    /// A block that light can enter: inside the world, in a loaded column, not opaque.
    pub open spec fn open_cell(&self, x: int, y: int, z: int) -> bool {
        &&& self.height.spec_contains_y(y)
        &&& self.col(x, z) is Some
        &&& !self.block(x, y, z).spec_is_opaque()
    }

    /// The neighbour of (`x`, `y`, `z`) in direction `d` is not more than one level darker,
    /// unless light cannot enter it.
    pub open spec fn dir_ok(&self, kind: LightKind, x: int, y: int, z: int, d: int) -> bool {
        let nx = x + dir_dx(d);
        let ny = y + dir_dy(d);
        let nz = z + dir_dz(d);
        self.open_cell(nx, ny, nz) ==> self.light(kind, nx, ny, nz) >= self.light(kind, x, y, z) - 1
    }

    /// No open neighbour of (`x`, `y`, `z`) is more than one level darker.
    pub open spec fn settled(&self, kind: LightKind, x: int, y: int, z: int) -> bool {
        &&& self.dir_ok(kind, x, y, z, 0)
        &&& self.dir_ok(kind, x, y, z, 1)
        &&& self.dir_ok(kind, x, y, z, 2)
        &&& self.dir_ok(kind, x, y, z, 3)
        &&& self.dir_ok(kind, x, y, z, 4)
        &&& self.dir_ok(kind, x, y, z, 5)
    }

    /// `other` has the same origin, height, loaded columns and blocks as `self`, and the same
    /// light of the kind other than `kind`.
    pub open spec fn same_frame(&self, other: &LightNeighborhood, kind: LightKind) -> bool {
        &&& other.origin_cx == self.origin_cx
        &&& other.origin_cz == self.origin_cz
        &&& other.height == self.height
        &&& other.has_sky_light == self.has_sky_light
        &&& other.columns@.len() == self.columns@.len()
        &&& forall|s: int| 0 <= s < self.columns@.len() ==> {
            &&& ((#[trigger] other.columns@[s]) is Some <==> self.columns@[s] is Some)
            &&& (self.columns@[s] matches Some(c) ==> other.columns@[s] matches Some(c2) && c2.cx == c.cx && c2.cz == c.cz && c2.height == c.height
                && c2.blocks@ == c.blocks@ && c2.light_vec(other_kind(kind)) == c.light_vec(other_kind(kind)))
        }
    }

    /// A block whose light a write changes: inside the world in a loaded column.
    pub open spec fn writable(&self, x: int, y: int, z: int) -> bool {
        self.height.spec_contains_y(y) && self.col(x, z) is Some
    }

    fn column_index(&self, wx: i32, wz: i32) -> (r: Option<(usize, usize, usize)>)
        requires
            self.wf(),
        ensures
            r is None <==> self.slot(wx as int, wz as int) < 0,
            r matches Some(t) ==> t.0 == self.slot(wx as int, wz as int) && t.0 < 9 && t.1 == wx as int % 16 && t.2
                == wz as int % 16 && t.1 < 16 && t.2 < 16,
    {
        let cx = div16(wx);
        let cz = div16(wz);
        let dx = cx - self.origin_cx;
        let dz = cz - self.origin_cz;
        if dx < -1 || dx > 1 || dz < -1 || dz > 1 {
            return None;
        }
        let s = ((dz + 1) * 3 + dx + 1) as usize;
        Some((s, mod16(wx) as usize, mod16(wz) as usize))
    }

    /// Block at (`wx`, `wy`, `wz`).
    pub fn get_block(&self, wx: i32, wy: i32, wz: i32) -> (r: BlockType)
        requires
            self.wf(),
        ensures
            r == self.block(wx as int, wy as int, wz as int),
    {
        match self.column_index(wx, wz) {
            None => BlockType::Air,
            Some((s, bx, bz)) => match &self.columns[s] {
                Some(c) => c.get_block_local(bx, wy, bz),
                None => BlockType::Air,
            },
        }
    }

    /// Light of `kind` at (`wx`, `wy`, `wz`).
    pub fn get_light(&self, kind: LightKind, wx: i32, wy: i32, wz: i32) -> (r: u8)
        requires
            self.wf(),
        ensures
            r == self.light(kind, wx as int, wy as int, wz as int),
            r <= 15,
    {
        if !self.height.contains_y(wy) {
            if kind == LightKind::Sky && wy >= self.height.max_y_exclusive && self.has_sky_light {
                return 15;
            }
            return 0;
        }
        match self.column_index(wx, wz) {
            None => 0,
            Some((s, bx, bz)) => match &self.columns[s] {
                Some(c) => c.get_light(kind, bx, wy, bz),
                None => 0,
            },
        }
    }
    /// Set the light of `kind` at (`wx`, `wy`, `wz`) to `val`, recording the block and marking
    /// the columns around it dirty when the level changes. Blocks outside the world or in
    /// columns that are not loaded are left alone.
    pub fn set_light(&mut self, kind: LightKind, wx: i32, wy: i32, wz: i32, val: u8, dirty: &mut ChunkSet)
        requires
            old(self).wf(),
            old(dirty).wf(),
            val <= 15,
        ensures
            final(self).wf(),
            old(self).same_frame(final(self), kind),
            forall|x: int, y: int, z: int| #[trigger] final(self).light(kind, x, y, z) == if x == wx && y == wy && z == wz
                && old(self).writable(x, y, z) {
                val as int
            } else {
                old(self).light(kind, x, y, z)
            },
            old(self).writable(wx as int, wy as int, wz as int) ==> cols_measure(final(self).columns@, kind, true)
                == cols_measure(old(self).columns@, kind, true) - (val - old(self).light(kind, wx as int, wy as int, wz as int)),
            old(self).writable(wx as int, wy as int, wz as int) ==> cols_measure(final(self).columns@, kind, false)
                == cols_measure(old(self).columns@, kind, false) + (val - old(self).light(kind, wx as int, wy as int, wz as int)),
            !(old(self).writable(wx as int, wy as int, wz as int) && old(self).light(kind, wx as int, wy as int, wz as int) != val)
                ==> *final(self) == *old(self) && final(dirty)@ == old(dirty)@,
            old(self).writable(wx as int, wy as int, wz as int) && old(self).light(kind, wx as int, wy as int, wz as int) != val
                ==> final(self).changed_cells@ == old(self).changed_cells@.push((wx, wy, wz)) && final(dirty)@ == old(dirty)@.union(
                dirty_keys(wx as int, wz as int),
            ),
            final(dirty).wf(),
    {
        if !self.height.contains_y(wy) {
            return;
        }
        match self.column_index(wx, wz) {
            None => {
                return;
            },
            Some((s, bx, bz)) => {
                if self.columns[s].is_none() {
                    return;
                }
                let cur = self.get_light(kind, wx, wy, wz);
                if cur == val {
                    return;
                }
                let ghost before = *self;
                let ghost c0 = before.columns@[s as int]->Some_0;
                match &mut self.columns[s] {
                    Some(c) => {
                        c.set_light(kind, bx, wy, bz, val);
                    },
                    None => {},
                }
                proof {
                    let c1 = self.columns@[s as int]->Some_0;
                    assert(self.columns@ =~= before.columns@.update(s as int, Some(c1)));
                    lemma_cell_index_bounds(c0.height, bx as int, wy as int, bz as int);
                    let i = cell_index(c0.height.min_y as int, bx as int, wy as int, bz as int);
                    assert(c0.light_vec(kind)[i] == cur);
                    lemma_seq_update(c0.light_vec(kind), i, val);
                    lemma_cols_update(before.columns@, s as int, Some(c1), kind, true);
                    lemma_cols_update(before.columns@, s as int, Some(c1), kind, false);
                    assert forall|x: int, y: int, z: int| #[trigger] self.light(kind, x, y, z) == if x == wx && y == wy
                        && z == wz && before.writable(x, y, z) {
                        val as int
                    } else {
                        before.light(kind, x, y, z)
                    } by {
                        if self.slot(x, z) == s && self.height.spec_contains_y(y) {
                            lemma_cell_index_bounds(c0.height, x % 16, y, z % 16);
                            let j = cell_index(c0.height.min_y as int, x % 16, y, z % 16);
                            if j == i {
                                lemma_cell_index_injective(c0.height.min_y as int, x % 16, y, z % 16, bx as int, wy as int, bz as int);
                                assert(x / 16 == wx / 16 && z / 16 == wz / 16);
                                assert(x == wx && z == wz);
                            } else {
                                assert(!(x == wx && y == wy && z == wz));
                            }
                        }
                    }
                }
                self.changed_cells.push((wx, wy, wz));
                mark_light_dirty(dirty, wx, wz);
            },
        }
    }
}

/// Largest coordinate of a node waiting for propagation.
pub const PROP_BOUND: i32 = 1073741952;

impl LightNeighborhood {
    /// Number of nodes of `q` whose light of `kind` is above 1 (those that can still spread).
    pub open spec fn live_count(&self, kind: LightKind, q: Seq<LightNode>) -> int
        decreases q.len(),
    {
        if q.len() == 0 {
            0
        } else {
            self.live_count(kind, q.drop_last()) + if self.light(
                kind,
                q.last().x as int,
                q.last().y as int,
                q.last().z as int,
            ) > 1 {
                1int
            } else {
                0int
            }
        }
    }

    /// Light of `kind` only rose from `nb0` to `self`, and only in open blocks.
    pub open spec fn brightened_from(&self, nb0: &LightNeighborhood, kind: LightKind) -> bool {
        forall|x: int, y: int, z: int| #[trigger] self.light(kind, x, y, z) >= nb0.light(kind, x, y, z) && (self.light(
            kind,
            x,
            y,
            z,
        ) != nb0.light(kind, x, y, z) ==> nb0.open_cell(x, y, z))
    }

    /// Every block whose light of `kind` differs from `nb0` is recorded in `changed_cells` and has
    /// its columns in `dirty`; what `nb0` and `dirty0` held is kept.
    pub open spec fn recorded_from(
        &self,
        nb0: &LightNeighborhood,
        kind: LightKind,
        dirty0: Set<(i32, i32)>,
        dirty: Set<(i32, i32)>,
    ) -> bool {
        &&& dirty0.subset_of(dirty)
        &&& nb0.changed_cells@.is_prefix_of(self.changed_cells@)
        &&& forall|x: int, y: int, z: int| #[trigger] self.light(kind, x, y, z) != nb0.light(kind, x, y, z) ==> dirty_keys(
            x,
            z,
        ).subset_of(dirty) && self.changed_cells@.contains((x as i32, y as i32, z as i32))
    }

    /// Every block of `q0` and every block whose light of `kind` differs from `nb0` is settled,
    /// or waits in `q`.
    pub open spec fn pending_in(&self, nb0: &LightNeighborhood, q0: Seq<LightNode>, kind: LightKind, q: Seq<LightNode>) -> bool {
        forall|x: int, y: int, z: int| #[trigger] self.settled(kind, x, y, z) || !(in_queue(q0, x, y, z) || self.light(kind, x, y, z)
            != nb0.light(kind, x, y, z)) || in_queue(q, x, y, z)
    }
}

pub proof fn lemma_live_count_nonneg(nb: &LightNeighborhood, kind: LightKind, q: Seq<LightNode>)
    ensures
        nb.live_count(kind, q) >= 0,
    decreases q.len(),
{
    if q.len() > 0 {
        lemma_live_count_nonneg(nb, kind, q.drop_last());
    }
}

pub proof fn lemma_live_count_push(nb: &LightNeighborhood, kind: LightKind, q: Seq<LightNode>, n: LightNode)
    ensures
        nb.live_count(kind, q.push(n)) == nb.live_count(kind, q) + if nb.light(kind, n.x as int, n.y as int, n.z as int) > 1 {
            1int
        } else {
            0int
        },
{
    assert(q.push(n).drop_last() =~= q);
}

pub proof fn lemma_live_count_pop(nb: &LightNeighborhood, kind: LightKind, q: Seq<LightNode>)
    requires
        q.len() > 0,
    ensures
        nb.live_count(kind, q) == nb.live_count(kind, q.subrange(1, q.len() as int)) + if nb.light(
            kind,
            q[0].x as int,
            q[0].y as int,
            q[0].z as int,
        ) > 1 {
            1int
        } else {
            0int
        },
    decreases q.len(),
{
    if q.len() == 1 {
        assert(q.subrange(1, 1) =~= Seq::<LightNode>::empty());
        assert(q.drop_last() =~= Seq::<LightNode>::empty());
    } else {
        lemma_live_count_pop(nb, kind, q.drop_last());
        assert(q.subrange(1, q.len() as int).drop_last() =~= q.drop_last().subrange(1, q.len() - 1));
    }
}

/// Cell-level consequences of `same_frame`.
pub proof fn lemma_frame_cells(a: &LightNeighborhood, b: &LightNeighborhood, kind: LightKind)
    requires
        a.wf(),
        a.same_frame(b, kind),
    ensures
        forall|x: int, y: int, z: int| #[trigger] b.block(x, y, z) == a.block(x, y, z),
        forall|x: int, z: int| (#[trigger] b.col(x, z) is Some) == (a.col(x, z) is Some),
        forall|x: int, y: int, z: int| #[trigger] b.open_cell(x, y, z) == a.open_cell(x, y, z),
        forall|x: int, y: int, z: int| #[trigger] b.writable(x, y, z) == a.writable(x, y, z),
        forall|x: int, y: int, z: int| #[trigger] b.light(other_kind(kind), x, y, z) == a.light(other_kind(kind), x, y, z),
{
    assert forall|x: int, y: int, z: int| #[trigger] b.block(x, y, z) == a.block(x, y, z) by {
        let s = a.slot(x, z);
        if s >= 0 {
            assert(b.columns@[s] is Some <==> a.columns@[s] is Some);
        }
    }
    assert forall|x: int, z: int| (#[trigger] b.col(x, z) is Some) == (a.col(x, z) is Some) by {
        let s = a.slot(x, z);
        if s >= 0 {
            assert(b.columns@[s] is Some <==> a.columns@[s] is Some);
        }
    }
    assert forall|x: int, y: int, z: int| #[trigger] b.open_cell(x, y, z) == a.open_cell(x, y, z) by {
        assert(b.block(x, y, z) == a.block(x, y, z));
        assert((b.col(x, z) is Some) == (a.col(x, z) is Some));
    }
    assert forall|x: int, y: int, z: int| #[trigger] b.writable(x, y, z) == a.writable(x, y, z) by {
        assert((b.col(x, z) is Some) == (a.col(x, z) is Some));
    }
    assert forall|x: int, y: int, z: int| #[trigger] b.light(other_kind(kind), x, y, z) == a.light(other_kind(kind), x, y, z) by {
        let s = a.slot(x, z);
        if s >= 0 {
            assert(b.columns@[s] is Some <==> a.columns@[s] is Some);
        }
    }
}

pub proof fn lemma_frame_trans(a: &LightNeighborhood, b: &LightNeighborhood, c: &LightNeighborhood, kind: LightKind)
    requires
        a.same_frame(b, kind),
        b.same_frame(c, kind),
    ensures
        a.same_frame(c, kind),
{
    assert forall|s: int| 0 <= s < a.columns@.len() implies {
        &&& ((#[trigger] c.columns@[s]) is Some <==> a.columns@[s] is Some)
        &&& (a.columns@[s] matches Some(x) ==> c.columns@[s] matches Some(x2) && x2.cx == x.cx && x2.cz == x.cz && x2.height == x.height
            && x2.blocks@ == x.blocks@ && x2.light_vec(other_kind(kind)) == x.light_vec(other_kind(kind)))
    } by {
        assert(b.columns@[s] is Some <==> a.columns@[s] is Some);
        assert(c.columns@[s] is Some <==> b.columns@[s] is Some);
    }
}

/// Blocks of loaded columns of a neighbourhood whose origin lies within 2^26 of column (0, 0)
/// lie within 2^30 + 31 of 0.
pub proof fn lemma_col_bounds_near_origin(nb: &LightNeighborhood, x: int, z: int)
    requires
        nb.wf(),
        -67108864 <= nb.origin_cx <= 67108864,
        -67108864 <= nb.origin_cz <= 67108864,
        nb.col(x, z) is Some,
    ensures
        -1073741840 <= x <= 1073741871,
        -1073741840 <= z <= 1073741871,
{
}

/// A block lit above 1 lies in a loaded column of the neighbourhood, or above the world.
pub proof fn lemma_lit_location(nb: &LightNeighborhood, kind: LightKind, x: int, y: int, z: int)
    requires
        nb.wf(),
        nb.light(kind, x, y, z) > 1,
    ensures
        (nb.height.spec_contains_y(y) && nb.col(x, z) is Some) || y >= nb.height.max_y_exclusive,
{
}

/// Blocks of loaded columns of a neighbourhood lie within reach of its origin.
pub proof fn lemma_col_bounds(nb: &LightNeighborhood, x: int, z: int)
    requires
        nb.wf(),
        nb.col(x, z) is Some,
    ensures
        -1073741904 <= x <= 1073741919,
        -1073741904 <= z <= 1073741919,
{
}


/// Raising the light of one block `m` keeps every other block's directions as settled as before.
pub proof fn lemma_raise_keeps_settled(a: &LightNeighborhood, b: &LightNeighborhood, kind: LightKind, mx: int, my: int, mz: int)
    requires
        a.wf(),
        a.same_frame(b, kind),
        forall|x: int, y: int, z: int| #[trigger] b.light(kind, x, y, z) >= a.light(kind, x, y, z),
        forall|x: int, y: int, z: int| !(x == mx && y == my && z == mz) ==> #[trigger] b.light(kind, x, y, z) == a.light(kind, x, y, z),
    ensures
        forall|x: int, y: int, z: int, d: int| !(x == mx && y == my && z == mz) && a.dir_ok(kind, x, y, z, d) ==> #[trigger] b.dir_ok(
            kind,
            x,
            y,
            z,
            d,
        ),
        forall|x: int, y: int, z: int| !(x == mx && y == my && z == mz) && a.settled(kind, x, y, z) ==> #[trigger] b.settled(kind, x, y, z),
{
    lemma_frame_cells(a, b, kind);
    assert forall|x: int, y: int, z: int, d: int| !(x == mx && y == my && z == mz) && a.dir_ok(kind, x, y, z, d) implies #[trigger] b.dir_ok(
        kind,
        x,
        y,
        z,
        d,
    ) by {
        let nx = x + dir_dx(d);
        let ny = y + dir_dy(d);
        let nz = z + dir_dz(d);
        assert(b.open_cell(nx, ny, nz) == a.open_cell(nx, ny, nz));
        assert(b.light(kind, nx, ny, nz) >= a.light(kind, nx, ny, nz));
        assert(b.light(kind, x, y, z) == a.light(kind, x, y, z));
    }
    assert forall|x: int, y: int, z: int| !(x == mx && y == my && z == mz) && a.settled(kind, x, y, z) implies #[trigger] b.settled(
        kind,
        x,
        y,
        z,
    ) by {
        assert(b.dir_ok(kind, x, y, z, 0));
        assert(b.dir_ok(kind, x, y, z, 1));
        assert(b.dir_ok(kind, x, y, z, 2));
        assert(b.dir_ok(kind, x, y, z, 3));
        assert(b.dir_ok(kind, x, y, z, 4));
        assert(b.dir_ok(kind, x, y, z, 5));
    }
}

/// Facts about a lit node that propagation relies on.
/// Brightest of the lights `light` gives the nodes of `q`; 0 for no node.
pub open spec fn queue_peak(light: spec_fn(int, int, int) -> int, q: Seq<LightNode>) -> int
    decreases q.len(),
{
    if q.len() == 0 {
        0
    } else {
        let p = queue_peak(light, q.drop_last());
        let l = light(q.last().x as int, q.last().y as int, q.last().z as int);
        if l > p {
            l
        } else {
            p
        }
    }
}

/// No node of `q` is brighter than the peak of `q`.
pub proof fn lemma_queue_peak_ge(light: spec_fn(int, int, int) -> int, q: Seq<LightNode>, k: int)
    requires
        0 <= k < q.len(),
    ensures
        light(q[k].x as int, q[k].y as int, q[k].z as int) <= queue_peak(light, q),
    decreases q.len(),
{
    if k < q.len() - 1 {
        lemma_queue_peak_ge(light, q.drop_last(), k);
        assert(q.drop_last()[k] == q[k]);
    }
}

/// Lights no brighter at each node give a peak no brighter.
pub proof fn lemma_queue_peak_mono(l1: spec_fn(int, int, int) -> int, l2: spec_fn(int, int, int) -> int, q: Seq<LightNode>)
    requires
        forall|k: int| 0 <= k < q.len() ==> l1(q[k].x as int, q[k].y as int, q[k].z as int) <= l2(#[trigger] q[k].x as int, q[k].y as int, q[k].z as int),
    ensures
        queue_peak(l1, q) <= queue_peak(l2, q),
    decreases q.len(),
{
    if q.len() > 0 {
        let q2 = q.drop_last();
        assert forall|k: int| 0 <= k < q2.len() implies l1(q2[k].x as int, q2[k].y as int, q2[k].z as int) <= l2(
            #[trigger] q2[k].x as int,
            q2[k].y as int,
            q2[k].z as int,
        ) by {
            assert(q2[k] == q[k]);
        }
        lemma_queue_peak_mono(l1, l2, q2);
        assert(l1(q[q.len() - 1].x as int, q[q.len() - 1].y as int, q[q.len() - 1].z as int) <= l2(
            q[q.len() - 1].x as int,
            q[q.len() - 1].y as int,
            q[q.len() - 1].z as int,
        ));
    }
}

/// The direction opposite to direction `d`.
pub open spec fn opp_dir(d: int) -> int {
    if d == 0 {
        1
    } else if d == 1 {
        0
    } else if d == 2 {
        3
    } else if d == 3 {
        2
    } else if d == 4 {
        5
    } else {
        4
    }
}

impl LightNeighborhood {
    /// The block next to (`x`, `y`, `z`) in direction `d` is lit at least one level above it,
    /// and is a starting node of `q0` or had its light of `kind` changed since `nb0`.
    pub open spec fn feeds(&self, nb0: &LightNeighborhood, q0: Seq<LightNode>, kind: LightKind, x: int, y: int, z: int, d: int) -> bool {
        let wx = x + dir_dx(d);
        let wy = y + dir_dy(d);
        let wz = z + dir_dz(d);
        &&& 0 <= d < 6
        &&& self.light(kind, x, y, z) + 1 <= self.light(kind, wx, wy, wz)
        &&& (in_queue(q0, wx, wy, wz) || self.light(kind, wx, wy, wz) != nb0.light(kind, wx, wy, wz))
    }

    /// Some neighbour feeds (`x`, `y`, `z`).
    pub open spec fn fed_from(&self, nb0: &LightNeighborhood, q0: Seq<LightNode>, kind: LightKind, x: int, y: int, z: int) -> bool {
        exists|d: int| #[trigger] self.feeds(nb0, q0, kind, x, y, z, d)
    }

    /// The light of `kind` at (`x`, `y`, `z`) is exactly one level below that of its neighbour
    /// in direction `d`.
    pub open spec fn one_below(&self, kind: LightKind, x: int, y: int, z: int, d: int) -> bool {
        &&& 0 <= d < 6
        &&& self.light(kind, x, y, z) + 1 == self.light(kind, x + dir_dx(d), y + dir_dy(d), z + dir_dz(d))
    }

    /// A node may wait in the propagation queue: it is a starting node of `q0`, its light of
    /// `kind` changed since `nb0`, or it lies inside the world in a column that is not loaded.
    pub open spec fn may_wait(&self, nb0: &LightNeighborhood, q0: Seq<LightNode>, kind: LightKind, n: LightNode) -> bool {
        ||| in_queue(q0, n.x as int, n.y as int, n.z as int)
        ||| self.light(kind, n.x as int, n.y as int, n.z as int) != nb0.light(kind, n.x as int, n.y as int, n.z as int)
        ||| (nb0.height.spec_contains_y(n.y as int) && !nb0.writable(n.x as int, n.y as int, n.z as int))
    }
}

/// A spread step from `node` in direction `d` keeps every changed block fed.
proof fn lemma_fed_after_spread(
    nb0: &LightNeighborhood,
    a: &LightNeighborhood,
    b: &LightNeighborhood,
    q0: Seq<LightNode>,
    kind: LightKind,
    node: LightNode,
    cur: u8,
    d: int,
)
    requires
        0 <= d < 6,
        forall|x: int, y: int, z: int| #[trigger] a.light(kind, x, y, z) != nb0.light(kind, x, y, z) ==> a.fed_from(nb0, q0, kind, x, y, z),
        a.brightened_from(nb0, kind),
        b.brightened_from(a, kind),
        cur == a.light(kind, node.x as int, node.y as int, node.z as int),
        in_queue(q0, node.x as int, node.y as int, node.z as int) || a.light(kind, node.x as int, node.y as int, node.z as int) != nb0.light(
            kind,
            node.x as int,
            node.y as int,
            node.z as int,
        ),
        forall|x: int, y: int, z: int| #[trigger] b.light(kind, x, y, z) != a.light(kind, x, y, z) ==> x == node.x + dir_dx(d) && y
            == node.y + dir_dy(d) && z == node.z + dir_dz(d) && b.light(kind, x, y, z) == cur - 1,
    ensures
        forall|x: int, y: int, z: int| #[trigger] b.light(kind, x, y, z) != nb0.light(kind, x, y, z) ==> b.fed_from(nb0, q0, kind, x, y, z),
{
    assert forall|x: int, y: int, z: int| #[trigger] b.light(kind, x, y, z) != nb0.light(kind, x, y, z) implies b.fed_from(
        nb0,
        q0,
        kind,
        x,
        y,
        z,
    ) by {
        if b.light(kind, x, y, z) != a.light(kind, x, y, z) {
            let e = opp_dir(d);
            assert(x + dir_dx(e) == node.x && y + dir_dy(e) == node.y && z + dir_dz(e) == node.z);
            assert(b.light(kind, node.x as int, node.y as int, node.z as int) == a.light(kind, node.x as int, node.y as int, node.z as int));
            assert(b.feeds(nb0, q0, kind, x, y, z, e));
        } else {
            assert(a.fed_from(nb0, q0, kind, x, y, z));
            let e = choose|e: int| #[trigger] a.feeds(nb0, q0, kind, x, y, z, e);
            let wx = x + dir_dx(e);
            let wy = y + dir_dy(e);
            let wz = z + dir_dz(e);
            assert(b.light(kind, wx, wy, wz) >= a.light(kind, wx, wy, wz));
            assert(a.light(kind, wx, wy, wz) >= nb0.light(kind, wx, wy, wz));
            assert(b.feeds(nb0, q0, kind, x, y, z, e));
        }
    }
}

/// A spread step keeps every waiting node allowed to wait.
proof fn lemma_wait_after_spread(
    nb0: &LightNeighborhood,
    a: &LightNeighborhood,
    b: &LightNeighborhood,
    q0: Seq<LightNode>,
    kind: LightKind,
    qa: Seq<LightNode>,
    qb: Seq<LightNode>,
)
    requires
        nb0.wf(),
        nb0.same_frame(a, kind),
        a.brightened_from(nb0, kind),
        b.brightened_from(a, kind),
        forall|k: int| 0 <= k < qa.len() ==> a.may_wait(nb0, q0, kind, #[trigger] qa[k]),
        qb == qa || (qb.len() == qa.len() + 1 && qb.drop_last() == qa && (b.light(kind, qb.last().x as int, qb.last().y as int, qb.last().z as int)
            != a.light(kind, qb.last().x as int, qb.last().y as int, qb.last().z as int) || (a.height.spec_contains_y(qb.last().y as int)
            && !a.writable(qb.last().x as int, qb.last().y as int, qb.last().z as int)))),
    ensures
        forall|k: int| 0 <= k < qb.len() ==> b.may_wait(nb0, q0, kind, #[trigger] qb[k]),
{
    lemma_frame_cells(nb0, a, kind);
    assert forall|k: int| 0 <= k < qb.len() implies b.may_wait(nb0, q0, kind, #[trigger] qb[k]) by {
        let n = qb[k];
        let (x, y, z) = (n.x as int, n.y as int, n.z as int);
        assert(b.light(kind, x, y, z) >= a.light(kind, x, y, z));
        assert(a.light(kind, x, y, z) >= nb0.light(kind, x, y, z));
        if k < qa.len() {
            assert(qb[k] == qa[k]);
            assert(a.may_wait(nb0, q0, kind, qa[k]));
        }
    }
}

/// Once every starting node and every changed block is settled, each changed block is exactly
/// one level below the neighbour that feeds it.
proof fn lemma_fed_exact(nb0: &LightNeighborhood, nb1: &LightNeighborhood, q0: Seq<LightNode>, kind: LightKind)
    requires
        nb0.wf(),
        nb0.same_frame(nb1, kind),
        nb1.brightened_from(nb0, kind),
        nb1.pending_in(nb0, q0, kind, Seq::empty()),
        forall|x: int, y: int, z: int| #[trigger] nb1.light(kind, x, y, z) != nb0.light(kind, x, y, z) ==> nb1.fed_from(nb0, q0, kind, x, y, z),
    ensures
        forall|x: int, y: int, z: int| #[trigger] nb1.light(kind, x, y, z) != nb0.light(kind, x, y, z) ==> exists|d: int|
            #[trigger] nb1.one_below(kind, x, y, z, d),
{
    lemma_frame_cells(nb0, nb1, kind);
    assert forall|x: int, y: int, z: int| #[trigger] nb1.light(kind, x, y, z) != nb0.light(kind, x, y, z) implies exists|d: int|
        #[trigger] nb1.one_below(kind, x, y, z, d) by {
        assert(nb1.fed_from(nb0, q0, kind, x, y, z));
        let e = choose|e: int| #[trigger] nb1.feeds(nb0, q0, kind, x, y, z, e);
        let wx = x + dir_dx(e);
        let wy = y + dir_dy(e);
        let wz = z + dir_dz(e);
        assert(!in_queue(Seq::<LightNode>::empty(), wx, wy, wz));
        assert(nb1.settled(kind, wx, wy, wz));
        let f = opp_dir(e);
        assert(wx + dir_dx(f) == x && wy + dir_dy(f) == y && wz + dir_dz(f) == z);
        assert(nb1.dir_ok(kind, wx, wy, wz, f));
        assert(nb0.open_cell(x, y, z));
        assert(nb1.open_cell(x, y, z));
        assert(nb1.one_below(kind, x, y, z, e));
    }
}

pub open spec fn lit_node(nb: &LightNeighborhood, kind: LightKind, node: LightNode, cur: u8) -> bool {
    &&& node_fits(node, PROP_BOUND as int)
    &&& cur == nb.light(kind, node.x as int, node.y as int, node.z as int)
    &&& cur > 1
    &&& (nb.height.spec_contains_y(node.y as int) && nb.col(node.x as int, node.z as int) is Some && -1073741904 <= node.x
        <= 1073741919 && -1073741904 <= node.z <= 1073741919) || node.y >= nb.height.max_y_exclusive
}

/// One step of propagation: raise the neighbour of `node` in direction `d` to `cur - 1` when it
/// is open and darker, and queue it.
#[verifier::spinoff_prover]
fn spread_dir(
    nb: &mut LightNeighborhood,
    kind: LightKind,
    node: LightNode,
    cur: u8,
    d: usize,
    queue: &mut VecDeque<LightNode>,
    dirty: &mut ChunkSet,
)
    requires
        old(nb).wf(),
        old(dirty).wf(),
        lit_node(old(nb), kind, node, cur),
        d < 6,
        forall|k: int| 0 <= k < old(queue)@.len() ==> node_fits(#[trigger] old(queue)@[k], PROP_BOUND as int),
    ensures
        final(nb).wf(),
        final(dirty).wf(),
        old(nb).same_frame(final(nb), kind),
        final(nb).brightened_from(old(nb), kind),
        final(nb).recorded_from(old(nb), kind, old(dirty)@, final(dirty)@),
        lit_node(final(nb), kind, node, cur),
        forall|k: int| 0 <= k < final(queue)@.len() ==> node_fits(#[trigger] final(queue)@[k], PROP_BOUND as int),
        forall|x: int, y: int, z: int| in_queue(old(queue)@, x, y, z) ==> #[trigger] in_queue(final(queue)@, x, y, z),
        final(nb).dir_ok(kind, node.x as int, node.y as int, node.z as int, d as int),
        forall|d2: int| old(nb).dir_ok(kind, node.x as int, node.y as int, node.z as int, d2) ==> #[trigger] final(nb).dir_ok(
            kind,
            node.x as int,
            node.y as int,
            node.z as int,
            d2,
        ),
        forall|x: int, y: int, z: int| #[trigger] final(nb).settled(kind, x, y, z) || in_queue(final(queue)@, x, y, z) || (!old(
            nb,
        ).settled(kind, x, y, z) && final(nb).light(kind, x, y, z) == old(nb).light(kind, x, y, z)),
        (*final(nb) == *old(nb) && final(nb).live_count(kind, final(queue)@) == old(nb).live_count(kind, old(queue)@))
            || cols_measure(final(nb).columns@, kind, true) < cols_measure(old(nb).columns@, kind, true),
        forall|x: int, y: int, z: int| #[trigger] final(nb).light(kind, x, y, z) != old(nb).light(kind, x, y, z) ==> x == node.x + dir_dx(
            d as int,
        ) && y == node.y + dir_dy(d as int) && z == node.z + dir_dz(d as int) && final(nb).light(kind, x, y, z) == cur - 1,
        final(queue)@ == old(queue)@ || (final(queue)@.len() == old(queue)@.len() + 1 && final(queue)@.drop_last() == old(queue)@ && ({
            let m = final(queue)@.last();
            &&& m.x == node.x + dir_dx(d as int)
            &&& m.y == node.y + dir_dy(d as int)
            &&& m.z == node.z + dir_dz(d as int)
            &&& (final(nb).light(kind, m.x as int, m.y as int, m.z as int) != old(nb).light(kind, m.x as int, m.y as int, m.z as int) || (
            old(nb).height.spec_contains_y(m.y as int) && !old(nb).writable(m.x as int, m.y as int, m.z as int)))
        })),
{
    let expected = cur - 1;
    let (dx, dy, dz) = light_dir(d);
    let nx = node.x + dx;
    let ny = node.y + dy;
    let nz = node.z + dz;
    if !nb.height.contains_y(ny) {
        return;
    }
    let b = nb.get_block(nx, ny, nz);
    if b.is_opaque() {
        return;
    }
    let neighbor_light = nb.get_light(kind, nx, ny, nz);
    if neighbor_light >= expected {
        return;
    }
    let ghost nb2 = *nb;
    let ghost q2 = queue@;
    nb.set_light(kind, nx, ny, nz, expected, dirty);
    let m = LightNode { x: nx, y: ny, z: nz };
    queue.push_back(m);
    proof {
        lemma_frame_cells(&nb2, nb, kind);
        assert(queue@ == q2.push(m));
        assert(in_queue(queue@, nx as int, ny as int, nz as int)) by {
            assert(queue@[q2.len() as int] == m);
        }
        assert forall|x: int, y: int, z: int| in_queue(q2, x, y, z) implies #[trigger] in_queue(queue@, x, y, z) by {
            let k = choose|k: int| 0 <= k < q2.len() && (#[trigger] q2[k]).x == x && q2[k].y == y && q2[k].z == z;
            assert(queue@[k] == q2[k]);
        }
        if nb2.writable(nx as int, ny as int, nz as int) {
            lemma_col_bounds(&nb2, nx as int, nz as int);
        } else {
            lemma_live_count_push(&nb2, kind, q2, m);
        }
        assert forall|k: int| 0 <= k < queue@.len() implies node_fits(#[trigger] queue@[k], PROP_BOUND as int) by {
            if k < q2.len() {
                assert(queue@[k] == q2[k]);
            }
        }
        assert forall|x: int, y: int, z: int| #[trigger] nb.light(kind, x, y, z) != nb2.light(kind, x, y, z) implies dirty_keys(
            x,
            z,
        ).subset_of(dirty@) && nb.changed_cells@.contains((x as i32, y as i32, z as i32)) by {
            assert(nb.changed_cells@[nb.changed_cells@.len() - 1] == (nx, ny, nz));
        }
        lemma_raise_keeps_settled(&nb2, nb, kind, nx as int, ny as int, nz as int);
        assert forall|x: int, y: int, z: int| #[trigger] nb.settled(kind, x, y, z) || in_queue(queue@, x, y, z) || (!nb2.settled(
            kind,
            x,
            y,
            z,
        ) && nb.light(kind, x, y, z) == nb2.light(kind, x, y, z)) by {
            if !(x == nx && y == ny && z == nz) && nb2.settled(kind, x, y, z) {
                assert(nb.settled(kind, x, y, z));
            }
        }
    }
}

/// Spread light of `kind` from the nodes of `queue` until no node waits: each lit node raises
/// every open neighbour more than one level darker to one level below itself and queues it.
pub fn propagate(nb: &mut LightNeighborhood, kind: LightKind, queue: &mut VecDeque<LightNode>, dirty: &mut ChunkSet)
    requires
        old(nb).wf(),
        old(dirty).wf(),
        forall|k: int| 0 <= k < old(queue)@.len() ==> node_fits(#[trigger] old(queue)@[k], PROP_BOUND as int),
    ensures
        final(nb).wf(),
        final(dirty).wf(),
        old(nb).same_frame(final(nb), kind),
        final(queue)@.len() == 0,
        final(nb).brightened_from(old(nb), kind),
        final(nb).recorded_from(old(nb), kind, old(dirty)@, final(dirty)@),
        final(nb).pending_in(old(nb), old(queue)@, kind, Seq::empty()),
        forall|x: int, y: int, z: int| #[trigger] final(nb).light(kind, x, y, z) != old(nb).light(kind, x, y, z) ==> exists|d: int|
            #[trigger] final(nb).one_below(kind, x, y, z, d),
        forall|x: int, y: int, z: int| #[trigger] final(nb).light(kind, x, y, z) != old(nb).light(kind, x, y, z) ==> final(nb).light(
            kind,
            x,
            y,
            z,
        ) < queue_peak(old(nb).light_fn(kind), old(queue)@),
{
    let ghost nb0 = *nb;
    let ghost q0 = queue@;
    let ghost d0 = dirty@;
    let ghost peak = queue_peak(nb0.light_fn(kind), q0);
    proof {
        assert forall|k: int| 0 <= k < queue@.len() implies nb.may_wait(&nb0, q0, kind, #[trigger] queue@[k]) by {
            assert(in_queue(q0, queue@[k].x as int, queue@[k].y as int, queue@[k].z as int));
        }
    }
    proof {
        lemma_cols_nonneg(nb.columns@, kind, true);
        lemma_live_count_nonneg(nb, kind, queue@);
        assert forall|x: int, y: int, z: int| in_queue(q0, x, y, z) implies in_queue(queue@, x, y, z) by {}
    }
    while queue.len() > 0
        invariant
            nb.wf(),
            dirty.wf(),
            nb0 == *old(nb),
            q0 == old(queue)@,
            d0 == old(dirty)@,
            nb0.same_frame(nb, kind),
            forall|k: int| 0 <= k < queue@.len() ==> node_fits(#[trigger] queue@[k], PROP_BOUND as int),
            nb.brightened_from(&nb0, kind),
            nb.recorded_from(&nb0, kind, d0, dirty@),
            nb.pending_in(&nb0, q0, kind, queue@),
            cols_measure(nb.columns@, kind, true) >= 0,
            nb.live_count(kind, queue@) >= 0,
            nb0.wf(),
            forall|x: int, y: int, z: int| #[trigger] nb.light(kind, x, y, z) != nb0.light(kind, x, y, z) ==> nb.fed_from(&nb0, q0, kind, x, y, z),
            forall|k: int| 0 <= k < queue@.len() ==> nb.may_wait(&nb0, q0, kind, #[trigger] queue@[k]),
            peak == queue_peak(nb0.light_fn(kind), q0),
            forall|x: int, y: int, z: int| #[trigger] nb.light(kind, x, y, z) != nb0.light(kind, x, y, z) ==> nb.light(kind, x, y, z) < peak,
        decreases cols_measure(nb.columns@, kind, true), nb.live_count(kind, queue@), queue@.len(),
    {
        let ghost nb1 = *nb;
        let ghost q1 = queue@;
        let ghost dirty1 = dirty@;
        let node = queue.pop_front().unwrap();
        proof {
            lemma_live_count_pop(&nb1, kind, q1);
            assert(node == q1[0]);
            assert(queue@ == q1.subrange(1, q1.len() as int));
            assert forall|x: int, y: int, z: int| (x != node.x || y != node.y || z != node.z) && in_queue(q1, x, y, z) implies in_queue(
                queue@,
                x,
                y,
                z,
            ) by {
                let k = choose|k: int| 0 <= k < q1.len() && (#[trigger] q1[k]).x == x && q1[k].y == y && q1[k].z == z;
                assert(queue@[k - 1] == q1[k]);
            }
            assert forall|k: int| 0 <= k < queue@.len() implies nb.may_wait(&nb0, q0, kind, #[trigger] queue@[k]) by {
                assert(queue@[k] == q1[k + 1]);
            }
            assert(nb.may_wait(&nb0, q0, kind, q1[0]));
        }
        let cur = nb.get_light(kind, node.x, node.y, node.z);
        if cur > 1 {
            proof {
                lemma_frame_cells(&nb0, nb, kind);
                if in_queue(q0, node.x as int, node.y as int, node.z as int) {
                    let k = choose|k: int| 0 <= k < q0.len() && (#[trigger] q0[k]).x == node.x && q0[k].y == node.y && q0[k].z == node.z;
                    lemma_queue_peak_ge(nb0.light_fn(kind), q0, k);
                }
                assert(cur <= peak);
                lemma_lit_location(nb, kind, node.x as int, node.y as int, node.z as int);
                if nb.col(node.x as int, node.z as int) is Some {
                    lemma_col_bounds(nb, node.x as int, node.z as int);
                }
            }
            let mut d: usize = 0;
            while d < 6
                invariant
                    nb.wf(),
                    dirty.wf(),
                    nb0 == *old(nb),
                    q0 == old(queue)@,
                    d0 == old(dirty)@,
                    nb1.wf(),
                    nb0.same_frame(nb, kind),
                    forall|k: int| 0 <= k < queue@.len() ==> node_fits(#[trigger] queue@[k], PROP_BOUND as int),
                    nb.brightened_from(&nb0, kind),
                    nb.recorded_from(&nb0, kind, d0, dirty@),
                    lit_node(nb, kind, node, cur),
                    d <= 6,
                    (*nb == nb1 && nb.live_count(kind, queue@) == nb1.live_count(kind, q1.subrange(1, q1.len() as int)))
                        || cols_measure(nb.columns@, kind, true) < cols_measure(nb1.columns@, kind, true),
                    forall|d2: int| 0 <= d2 < d ==> #[trigger] nb.dir_ok(kind, node.x as int, node.y as int, node.z as int, d2),
                    forall|x: int, y: int, z: int| (x == node.x && y == node.y && z == node.z) || #[trigger] nb.settled(kind, x, y, z) || !(
                    in_queue(q0, x, y, z) || nb.light(kind, x, y, z) != nb0.light(kind, x, y, z)) || in_queue(queue@, x, y, z),
                    nb0.wf(),
                    forall|x: int, y: int, z: int| #[trigger] nb.light(kind, x, y, z) != nb0.light(kind, x, y, z) ==> nb.fed_from(&nb0, q0, kind, x, y, z),
                    forall|k: int| 0 <= k < queue@.len() ==> nb.may_wait(&nb0, q0, kind, #[trigger] queue@[k]),
                    in_queue(q0, node.x as int, node.y as int, node.z as int) || cur != nb0.light(kind, node.x as int, node.y as int, node.z as int),
                    peak == queue_peak(nb0.light_fn(kind), q0),
                    cur <= peak,
                    forall|x: int, y: int, z: int| #[trigger] nb.light(kind, x, y, z) != nb0.light(kind, x, y, z) ==> nb.light(kind, x, y, z) < peak,
                decreases 6 - d,
            {
                let ghost nb2 = *nb;
                let ghost q2 = queue@;
                let ghost dirty2 = dirty@;
                spread_dir(nb, kind, node, cur, d, queue, dirty);
                proof {
                    lemma_fed_after_spread(&nb0, &nb2, nb, q0, kind, node, cur, d as int);
                    lemma_wait_after_spread(&nb0, &nb2, nb, q0, kind, q2, queue@);
                    assert forall|x: int, y: int, z: int| #[trigger] nb.light(kind, x, y, z) != nb0.light(kind, x, y, z) implies nb.light(
                        kind,
                        x,
                        y,
                        z,
                    ) < peak by {
                        if nb.light(kind, x, y, z) == nb2.light(kind, x, y, z) {
                            assert(nb2.light(kind, x, y, z) != nb0.light(kind, x, y, z));
                        }
                    }
                    lemma_frame_trans(&nb0, &nb2, nb, kind);
                    assert forall|x: int, y: int, z: int| #[trigger] nb.light(kind, x, y, z) >= nb0.light(kind, x, y, z) && (nb.light(
                        kind,
                        x,
                        y,
                        z,
                    ) != nb0.light(kind, x, y, z) ==> nb0.open_cell(x, y, z)) by {
                        assert(nb2.light(kind, x, y, z) >= nb0.light(kind, x, y, z));
                    }
                    assert forall|x: int, y: int, z: int| #[trigger] nb.light(kind, x, y, z) != nb0.light(kind, x, y, z) implies dirty_keys(
                        x,
                        z,
                    ).subset_of(dirty@) && nb.changed_cells@.contains((x as i32, y as i32, z as i32)) by {
                        if nb.light(kind, x, y, z) != nb2.light(kind, x, y, z) {
                        } else {
                            assert(nb2.changed_cells@.contains((x as i32, y as i32, z as i32)));
                            let k = choose|k: int| 0 <= k < nb2.changed_cells@.len() && nb2.changed_cells@[k] == (x as i32, y as i32, z as i32);
                            assert(nb.changed_cells@[k] == nb2.changed_cells@[k]);
                        }
                    }
                    assert(nb0.changed_cells@.is_prefix_of(nb.changed_cells@)) by {
                        assert(nb0.changed_cells@.is_prefix_of(nb2.changed_cells@));
                    }
                    assert forall|d2: int| 0 <= d2 < d + 1 implies #[trigger] nb.dir_ok(kind, node.x as int, node.y as int, node.z as int, d2) by {
                        if d2 < d {
                            assert(nb2.dir_ok(kind, node.x as int, node.y as int, node.z as int, d2));
                        }
                    }
                    assert forall|x: int, y: int, z: int| (x == node.x && y == node.y && z == node.z) || #[trigger] nb.settled(kind, x, y, z)
                        || !(in_queue(q0, x, y, z) || nb.light(kind, x, y, z) != nb0.light(kind, x, y, z)) || in_queue(queue@, x, y, z) by {
                        if !nb.settled(kind, x, y, z) && !in_queue(queue@, x, y, z) {
                            assert(!nb2.settled(kind, x, y, z));
                            assert(!in_queue(q2, x, y, z));
                        }
                    }
                }
                d += 1;
            }
            proof {
                assert(nb.settled(kind, node.x as int, node.y as int, node.z as int)) by {
                    assert(nb.dir_ok(kind, node.x as int, node.y as int, node.z as int, 0));
                    assert(nb.dir_ok(kind, node.x as int, node.y as int, node.z as int, 1));
                    assert(nb.dir_ok(kind, node.x as int, node.y as int, node.z as int, 2));
                    assert(nb.dir_ok(kind, node.x as int, node.y as int, node.z as int, 3));
                    assert(nb.dir_ok(kind, node.x as int, node.y as int, node.z as int, 4));
                    assert(nb.dir_ok(kind, node.x as int, node.y as int, node.z as int, 5));
                }
            }
        } else {
            proof {
                assert(nb.settled(kind, node.x as int, node.y as int, node.z as int));
            }
        }
        proof {
            lemma_cols_nonneg(nb.columns@, kind, true);
            lemma_live_count_nonneg(nb, kind, queue@);
            assert forall|x: int, y: int, z: int| #[trigger] nb.settled(kind, x, y, z) || !(in_queue(q0, x, y, z) || nb.light(kind, x, y, z)
                != nb0.light(kind, x, y, z)) || in_queue(queue@, x, y, z) by {
                if !(x == node.x && y == node.y && z == node.z) {
                    if !nb.settled(kind, x, y, z) && (in_queue(q0, x, y, z) || nb.light(kind, x, y, z) != nb0.light(kind, x, y, z)) {
                        assert(nb1.settled(kind, x, y, z) || !(in_queue(q0, x, y, z) || nb1.light(kind, x, y, z) != nb0.light(kind, x, y, z))
                            || in_queue(q1, x, y, z));
                    }
                }
            }
        }
    }
    proof {
        lemma_fed_exact(&nb0, nb, q0, kind);
    }
}

/// Largest coordinate of a node waiting for removal.
pub const REMOVAL_BOUND: i32 = 1073741856;

/// Every coordinate of `n` lies within `b` of 0.
pub open spec fn removal_fits(n: LightRemovalNode, b: int) -> bool {
    -b <= n.x <= b && -b <= n.y <= b && -b <= n.z <= b
}

impl LightNeighborhood {
    /// Light of `kind` went from `nb0` to `self` only by zeroing blocks that can hold light.
    pub open spec fn darkened_from(&self, nb0: &LightNeighborhood, kind: LightKind) -> bool {
        forall|x: int, y: int, z: int| #[trigger] self.light(kind, x, y, z) == nb0.light(kind, x, y, z) || (self.light(kind, x, y, z) == 0
            && nb0.writable(x, y, z))
    }
}

/// The block next to removal node `r` in direction `d`.
pub open spec fn removal_neighbour(r: LightRemovalNode, d: int) -> (int, int, int) {
    (r.x + dir_dx(d), r.y + dir_dy(d), r.z + dir_dz(d))
}

/// Light during a removal pass that started from light `base`, once the blocks of `zeroed`
/// have been set to 0.
pub open spec fn removal_light(base: spec_fn(int, int, int) -> int, zeroed: Set<(int, int, int)>, x: int, y: int, z: int) -> int {
    if zeroed.contains((x, y, z)) {
        0
    } else {
        base(x, y, z)
    }
}

/// State of a removal pass: the blocks zeroed so far, the removal queue, the propagation queue.
pub type RemovalState = (Set<(int, int, int)>, Seq<LightRemovalNode>, Seq<LightNode>);

/// One removal step around node `r` in direction `d`, in a world of height `h`: a neighbour
/// inside the height whose light is lit but dimmer than `r.val` is zeroed and queued for removal
/// with the level it had; one at least as bright as `r.val` is queued for propagation.
pub open spec fn removal_step(h: WorldHeight, base: spec_fn(int, int, int) -> int, st: RemovalState, r: LightRemovalNode, d: int) -> RemovalState {
    let n = removal_neighbour(r, d);
    let l = removal_light(base, st.0, n.0, n.1, n.2);
    if h.spec_contains_y(n.1) && l != 0 && l < r.val {
        (st.0.insert(n), st.1.push(LightRemovalNode { x: n.0 as i32, y: n.1 as i32, z: n.2 as i32, val: l as u8 }), st.2)
    } else if h.spec_contains_y(n.1) && l >= r.val {
        (st.0, st.1, st.2.push(LightNode { x: n.0 as i32, y: n.1 as i32, z: n.2 as i32 }))
    } else {
        st
    }
}

/// The removal steps around node `r` in directions `0` to `j - 1`, in order.
pub open spec fn removal_dirs(h: WorldHeight, base: spec_fn(int, int, int) -> int, st: RemovalState, r: LightRemovalNode, j: nat) -> RemovalState
    decreases j,
{
    if j == 0 {
        st
    } else {
        removal_step(h, base, removal_dirs(h, base, st, r, (j - 1) as nat), r, j - 1)
    }
}

/// The state of a removal pass from `st0` after `k` rounds; a round takes the first node off the
/// removal queue and makes the removal steps around it in the six directions. An empty removal
/// queue ends the pass.
pub open spec fn removal_pass(h: WorldHeight, base: spec_fn(int, int, int) -> int, st0: RemovalState, k: nat) -> RemovalState
    decreases k,
{
    if k == 0 {
        st0
    } else {
        let st = removal_pass(h, base, st0, (k - 1) as nat);
        if st.1.len() == 0 {
            st
        } else {
            removal_dirs(h, base, (st.0, st.1.drop_first(), st.2), st.1[0], 6)
        }
    }
}

/// A removal pass from light `base`, removal queue `r0` and propagation queue `p0` ends, after
/// `k` rounds, with light `light1` and propagation queue `p1`.
pub open spec fn removal_leaves(
    h: WorldHeight,
    base: spec_fn(int, int, int) -> int,
    r0: Seq<LightRemovalNode>,
    p0: Seq<LightNode>,
    k: nat,
    light1: spec_fn(int, int, int) -> int,
    p1: Seq<LightNode>,
) -> bool {
    let st = removal_pass(h, base, (Set::empty(), r0, p0), k);
    &&& st.1.len() == 0
    &&& p1 == st.2
    &&& forall|x: int, y: int, z: int| #[trigger] light1(x, y, z) == removal_light(base, st.0, x, y, z)
}

/// One step of removal: around removal node `r`, zero a lit neighbour dimmer than `r.val` and
/// queue it for removal, or queue a neighbour at least as bright for re-propagation.
#[verifier::spinoff_prover]
fn unlight_dir(
    nb: &mut LightNeighborhood,
    kind: LightKind,
    r: LightRemovalNode,
    d: usize,
    removal_queue: &mut VecDeque<LightRemovalNode>,
    propagate_queue: &mut VecDeque<LightNode>,
    dirty: &mut ChunkSet,
)
    requires
        old(nb).wf(),
        old(dirty).wf(),
        removal_fits(r, REMOVAL_BOUND as int),
        -67108864 <= old(nb).origin_cx <= 67108864,
        -67108864 <= old(nb).origin_cz <= 67108864,
        d < 6,
        forall|k: int| 0 <= k < old(removal_queue)@.len() ==> removal_fits(#[trigger] old(removal_queue)@[k], REMOVAL_BOUND as int),
        forall|k: int| 0 <= k < old(propagate_queue)@.len() ==> node_fits(#[trigger] old(propagate_queue)@[k], PROP_BOUND as int),
    ensures
        final(nb).wf(),
        final(dirty).wf(),
        old(nb).same_frame(final(nb), kind),
        final(nb).darkened_from(old(nb), kind),
        final(nb).recorded_from(old(nb), kind, old(dirty)@, final(dirty)@),
        forall|k: int| 0 <= k < final(removal_queue)@.len() ==> removal_fits(#[trigger] final(removal_queue)@[k], REMOVAL_BOUND as int),
        forall|k: int| 0 <= k < final(propagate_queue)@.len() ==> node_fits(#[trigger] final(propagate_queue)@[k], PROP_BOUND as int),
        old(propagate_queue)@.is_prefix_of(final(propagate_queue)@),
        forall|k: int| old(propagate_queue)@.len() <= k < final(propagate_queue)@.len() ==> node_fits(
            #[trigger] final(propagate_queue)@[k],
            REMOVAL_BOUND + 1,
        ),
        (*final(nb) == *old(nb) && final(removal_queue)@ == old(removal_queue)@) || (cols_measure(final(nb).columns@, kind, false)
            < cols_measure(old(nb).columns@, kind, false)),
        ({
            let n = removal_neighbour(r, d as int);
            let l = old(nb).light(kind, n.0, n.1, n.2);
            if old(nb).height.spec_contains_y(n.1) && l != 0 && l < r.val {
                &&& forall|x: int, y: int, z: int| #[trigger] final(nb).light(kind, x, y, z) == if x == n.0 && y == n.1 && z == n.2 {
                    0
                } else {
                    old(nb).light(kind, x, y, z)
                }
                &&& final(dirty)@ == old(dirty)@.union(dirty_keys(n.0, n.2))
                &&& final(removal_queue)@ == old(removal_queue)@.push(
                    (LightRemovalNode { x: n.0 as i32, y: n.1 as i32, z: n.2 as i32, val: l as u8 }),
                )
                &&& final(propagate_queue)@ == old(propagate_queue)@
            } else if old(nb).height.spec_contains_y(n.1) && l >= r.val {
                &&& *final(nb) == *old(nb)
                &&& final(dirty)@ == old(dirty)@
                &&& final(removal_queue)@ == old(removal_queue)@
                &&& final(propagate_queue)@ == old(propagate_queue)@.push((LightNode { x: n.0 as i32, y: n.1 as i32, z: n.2 as i32 }))
            } else {
                &&& *final(nb) == *old(nb)
                &&& final(dirty)@ == old(dirty)@
                &&& final(removal_queue)@ == old(removal_queue)@
                &&& final(propagate_queue)@ == old(propagate_queue)@
            }
        }),
{
    let (dx, dy, dz) = light_dir(d);
    let nx = r.x + dx;
    let ny = r.y + dy;
    let nz = r.z + dz;
    if !nb.height.contains_y(ny) {
        return;
    }
    let neighbor_light = nb.get_light(kind, nx, ny, nz);
    if neighbor_light != 0 && neighbor_light < r.val {
        let ghost nb2 = *nb;
        nb.set_light(kind, nx, ny, nz, 0, dirty);
        removal_queue.push_back(LightRemovalNode { x: nx, y: ny, z: nz, val: neighbor_light });
        proof {
            lemma_col_bounds_near_origin(&nb2, nx as int, nz as int);
            assert forall|x: int, y: int, z: int| #[trigger] nb.light(kind, x, y, z) != nb2.light(kind, x, y, z) implies dirty_keys(
                x,
                z,
            ).subset_of(dirty@) && nb.changed_cells@.contains((x as i32, y as i32, z as i32)) by {
                assert(nb.changed_cells@[nb.changed_cells@.len() - 1] == (nx, ny, nz));
            }
            assert forall|k: int| 0 <= k < removal_queue@.len() implies removal_fits(#[trigger] removal_queue@[k], REMOVAL_BOUND as int) by {
                if k < old(removal_queue)@.len() {
                    assert(removal_queue@[k] == old(removal_queue)@[k]);
                }
            }
        }
    } else if neighbor_light >= r.val {
        let ghost p2 = propagate_queue@;
        propagate_queue.push_back(LightNode { x: nx, y: ny, z: nz });
        proof {
            assert forall|k: int| 0 <= k < propagate_queue@.len() implies node_fits(#[trigger] propagate_queue@[k], PROP_BOUND as int) by {
                if k < p2.len() {
                    assert(propagate_queue@[k] == p2[k]);
                }
            }
            assert(p2.is_prefix_of(propagate_queue@)) by {
                assert(propagate_queue@.subrange(0, p2.len() as int) =~= p2);
            }
        }
    }
}

/// Zero the light of `kind` that the nodes of `removal_queue` fed, spreading outwards while the
/// neighbours are dimmer than the removed level, and queue the brighter border in
/// `propagate_queue` so that a later propagation can fill the gap again.
pub fn remove_light(
    nb: &mut LightNeighborhood,
    kind: LightKind,
    removal_queue: &mut VecDeque<LightRemovalNode>,
    propagate_queue: &mut VecDeque<LightNode>,
    dirty: &mut ChunkSet,
)
    requires
        old(nb).wf(),
        old(dirty).wf(),
        -67108864 <= old(nb).origin_cx <= 67108864,
        -67108864 <= old(nb).origin_cz <= 67108864,
        forall|k: int| 0 <= k < old(removal_queue)@.len() ==> removal_fits(#[trigger] old(removal_queue)@[k], REMOVAL_BOUND as int),
        forall|k: int| 0 <= k < old(propagate_queue)@.len() ==> node_fits(#[trigger] old(propagate_queue)@[k], PROP_BOUND as int),
    ensures
        final(nb).wf(),
        final(dirty).wf(),
        old(nb).same_frame(final(nb), kind),
        final(removal_queue)@.len() == 0,
        forall|k: int| old(propagate_queue)@.len() <= k < final(propagate_queue)@.len() ==> node_fits(
            #[trigger] final(propagate_queue)@[k],
            REMOVAL_BOUND + 1,
        ),
        final(nb).darkened_from(old(nb), kind),
        final(nb).recorded_from(old(nb), kind, old(dirty)@, final(dirty)@),
        forall|k: int| 0 <= k < final(propagate_queue)@.len() ==> node_fits(#[trigger] final(propagate_queue)@[k], PROP_BOUND as int),
        old(propagate_queue)@.is_prefix_of(final(propagate_queue)@),
        exists|k: nat|
            #[trigger] removal_leaves(
                old(nb).height,
                old(nb).light_fn(kind),
                old(removal_queue)@,
                old(propagate_queue)@,
                k,
                final(nb).light_fn(kind),
                final(propagate_queue)@,
            ),
{
    let ghost nb0 = *nb;
    let ghost d0 = dirty@;
    let ghost p0 = propagate_queue@;
    let ghost base = nb0.light_fn(kind);
    let ghost st0: RemovalState = (Set::empty(), removal_queue@, propagate_queue@);
    let ghost mut rounds: nat = 0;
    proof {
        lemma_cols_nonneg(nb.columns@, kind, false);
        assert(p0.is_prefix_of(propagate_queue@)) by {
            assert(propagate_queue@.subrange(0, p0.len() as int) =~= p0);
        }
    }
    while removal_queue.len() > 0
        invariant
            nb.wf(),
            dirty.wf(),
            nb0 == *old(nb),
            nb0.wf(),
            d0 == old(dirty)@,
            p0 == old(propagate_queue)@,
            nb0.same_frame(nb, kind),
            nb.darkened_from(&nb0, kind),
            nb.recorded_from(&nb0, kind, d0, dirty@),
            forall|k: int| 0 <= k < removal_queue@.len() ==> removal_fits(#[trigger] removal_queue@[k], REMOVAL_BOUND as int),
            forall|k: int| 0 <= k < propagate_queue@.len() ==> node_fits(#[trigger] propagate_queue@[k], PROP_BOUND as int),
            p0.is_prefix_of(propagate_queue@),
            -67108864 <= nb.origin_cx <= 67108864,
            -67108864 <= nb.origin_cz <= 67108864,
            forall|k: int| p0.len() <= k < propagate_queue@.len() ==> node_fits(#[trigger] propagate_queue@[k], REMOVAL_BOUND + 1),
            cols_measure(nb.columns@, kind, false) >= 0,
            base == nb0.light_fn(kind),
            removal_pass(nb0.height, base, st0, rounds).1 == removal_queue@,
            removal_pass(nb0.height, base, st0, rounds).2 == propagate_queue@,
            forall|x: int, y: int, z: int| #[trigger] nb.light(kind, x, y, z) == removal_light(base, removal_pass(nb0.height, base, st0, rounds).0, x, y, z),
        decreases cols_measure(nb.columns@, kind, false), removal_queue@.len(),
    {
        let ghost st = removal_pass(nb0.height, base, st0, rounds);
        let ghost nb1 = *nb;
        let ghost r1 = removal_queue@;
        let r = removal_queue.pop_front().unwrap();
        proof {
            assert(r == r1[0]);
            assert forall|k: int| 0 <= k < removal_queue@.len() implies removal_fits(#[trigger] removal_queue@[k], REMOVAL_BOUND as int) by {
                assert(removal_queue@[k] == r1[k + 1]);
            }
        }
        let ghost r2 = removal_queue@;
        proof {
            assert(r2 =~= st.1.drop_first());
        }
        let mut d: usize = 0;
        while d < 6
            invariant
                nb.wf(),
                dirty.wf(),
                nb0 == *old(nb),
                nb0.wf(),
                d0 == old(dirty)@,
                p0 == old(propagate_queue)@,
                nb0.same_frame(nb, kind),
                nb.darkened_from(&nb0, kind),
                nb.recorded_from(&nb0, kind, d0, dirty@),
                removal_fits(r, REMOVAL_BOUND as int),
                forall|k: int| 0 <= k < removal_queue@.len() ==> removal_fits(#[trigger] removal_queue@[k], REMOVAL_BOUND as int),
                forall|k: int| 0 <= k < propagate_queue@.len() ==> node_fits(#[trigger] propagate_queue@[k], PROP_BOUND as int),
                p0.is_prefix_of(propagate_queue@),
                -67108864 <= nb.origin_cx <= 67108864,
                -67108864 <= nb.origin_cz <= 67108864,
                forall|k: int| p0.len() <= k < propagate_queue@.len() ==> node_fits(#[trigger] propagate_queue@[k], REMOVAL_BOUND + 1),
                d <= 6,
                r2.len() < r1.len(),
                (*nb == nb1 && removal_queue@ == r2) || cols_measure(nb.columns@, kind, false) < cols_measure(nb1.columns@, kind, false),
                base == nb0.light_fn(kind),
                st == removal_pass(nb0.height, base, st0, rounds),
                st.1.len() > 0,
                r == st.1[0],
                removal_dirs(nb0.height, base, (st.0, st.1.drop_first(), st.2), r, d as nat).1 == removal_queue@,
                removal_dirs(nb0.height, base, (st.0, st.1.drop_first(), st.2), r, d as nat).2 == propagate_queue@,
                forall|x: int, y: int, z: int| #[trigger] nb.light(kind, x, y, z) == removal_light(
                    base,
                    removal_dirs(nb0.height, base, (st.0, st.1.drop_first(), st.2), r, d as nat).0,
                    x,
                    y,
                    z,
                ),
            decreases 6 - d,
        {
            let ghost nb2 = *nb;
            let ghost p2 = propagate_queue@;
            let ghost q2 = removal_queue@;
            let ghost sd = removal_dirs(nb0.height, base, (st.0, st.1.drop_first(), st.2), r, d as nat);
            unlight_dir(nb, kind, r, d, removal_queue, propagate_queue, dirty);
            proof {
                let n = removal_neighbour(r, d as int);
                let sn = removal_step(nb0.height, base, sd, r, d as int);
                assert(removal_dirs(nb0.height, base, (st.0, st.1.drop_first(), st.2), r, (d + 1) as nat) == sn);
                assert(nb2.light(kind, n.0, n.1, n.2) == removal_light(base, sd.0, n.0, n.1, n.2));
                assert(nb2.height == nb0.height);
                assert(sn.1 == removal_queue@);
                assert(sn.2 == propagate_queue@);
                assert forall|x: int, y: int, z: int| #[trigger] nb.light(kind, x, y, z) == removal_light(base, sn.0, x, y, z) by {
                    assert(nb2.light(kind, x, y, z) == removal_light(base, sd.0, x, y, z));
                }
            }
            proof {
                lemma_frame_trans(&nb0, &nb2, nb, kind);
                lemma_frame_cells(&nb0, &nb2, kind);
                assert forall|x: int, y: int, z: int| #[trigger] nb.light(kind, x, y, z) == nb0.light(kind, x, y, z) || (nb.light(
                    kind,
                    x,
                    y,
                    z,
                ) == 0 && nb0.writable(x, y, z)) by {
                    assert(nb2.light(kind, x, y, z) == nb0.light(kind, x, y, z) || (nb2.light(kind, x, y, z) == 0 && nb0.writable(x, y, z)));
                    assert(nb.light(kind, x, y, z) == nb2.light(kind, x, y, z) || (nb.light(kind, x, y, z) == 0 && nb2.writable(x, y, z)));
                }
                assert forall|x: int, y: int, z: int| #[trigger] nb.light(kind, x, y, z) != nb0.light(kind, x, y, z) implies dirty_keys(
                    x,
                    z,
                ).subset_of(dirty@) && nb.changed_cells@.contains((x as i32, y as i32, z as i32)) by {
                    if nb.light(kind, x, y, z) != nb2.light(kind, x, y, z) {
                    } else {
                        assert(nb2.changed_cells@.contains((x as i32, y as i32, z as i32)));
                        let k = choose|k: int| 0 <= k < nb2.changed_cells@.len() && nb2.changed_cells@[k] == (x as i32, y as i32, z as i32);
                        assert(nb.changed_cells@[k] == nb2.changed_cells@[k]);
                    }
                }
                assert(nb0.changed_cells@.is_prefix_of(nb.changed_cells@)) by {
                    assert(nb0.changed_cells@.is_prefix_of(nb2.changed_cells@));
                }
                assert(p0.is_prefix_of(propagate_queue@)) by {
                    assert(p2.is_prefix_of(propagate_queue@));
                    assert(propagate_queue@.subrange(0, p0.len() as int) =~= p2.subrange(0, p0.len() as int));
                }
                assert forall|k: int| p0.len() <= k < propagate_queue@.len() implies node_fits(#[trigger] propagate_queue@[k], REMOVAL_BOUND + 1) by {
                    if k < p2.len() {
                        assert(p2.is_prefix_of(propagate_queue@));
                        assert(propagate_queue@[k] == p2[k]);
                    }
                }
            }
            d += 1;
        }
        proof {
            lemma_cols_nonneg(nb.columns@, kind, false);
            assert(removal_pass(nb0.height, base, st0, rounds + 1) == removal_dirs(
                nb0.height,
                base,
                (st.0, st.1.drop_first(), st.2),
                r,
                6,
            ));
            rounds = rounds + 1;
        }
    }
    proof {
        assert(removal_leaves(
            nb0.height,
            base,
            st0.1,
            st0.2,
            rounds,
            nb.light_fn(kind),
            propagate_queue@,
        ));
    }
}

/// True when chunk coordinates `k` are among the 3 by 3 around (`ocx`, `ocz`).
pub open spec fn nbhd_key(ocx: int, ocz: int, k: (i32, i32)) -> bool {
    ocx - 1 <= k.0 <= ocx + 1 && ocz - 1 <= k.1 <= ocz + 1
}

/// Slot of chunk coordinates `k` around (`ocx`, `ocz`).
pub open spec fn key_slot(ocx: int, ocz: int, k: (i32, i32)) -> int {
    (k.1 - ocz + 1) * 3 + (k.0 - ocx + 1)
}

pub proof fn lemma_slot_key(ocx: int, ocz: int, s: int)
    requires
        0 <= s < 9,
        -ORIGIN_BOUND <= ocx <= ORIGIN_BOUND,
        -ORIGIN_BOUND <= ocz <= ORIGIN_BOUND,
    ensures
        nbhd_key(ocx, ocz, slot_key(ocx, ocz, s)),
        key_slot(ocx, ocz, slot_key(ocx, ocz, s)) == s,
{
}

/// The column the neighbourhood holds for block column (`x`, `z`) is the manager's.
pub proof fn lemma_col_is_column(m: &ChunkManager, nb: &LightNeighborhood, x: int, z: int)
    requires
        nb.wf(),
        forall|k: (i32, i32)| nbhd_key(nb.origin_cx as int, nb.origin_cz as int, k) ==> #[trigger] m.chunks.chunk_at(k)
            == nb.columns@[key_slot(nb.origin_cx as int, nb.origin_cz as int, k)],
        near(nb.origin_cx as int, nb.origin_cz as int, x, z),
    ensures
        nb.col(x, z) == m.column(x, z),
{
    let k = column_key(x, z);
    assert(nbhd_key(nb.origin_cx as int, nb.origin_cz as int, k));
    assert(key_slot(nb.origin_cx as int, nb.origin_cz as int, k) == nb.slot(x, z));
    assert(m.chunks.chunk_at(k) == nb.columns@[key_slot(nb.origin_cx as int, nb.origin_cz as int, k)]);
}

/// Take the 3 by 3 columns around (`origin_cx`, `origin_cz`) out of `manager`.
pub fn take(manager: &mut ChunkManager, origin_cx: i32, origin_cz: i32) -> (nb: LightNeighborhood)
    requires
        old(manager).wf(),
        -ORIGIN_BOUND <= origin_cx <= ORIGIN_BOUND,
        -ORIGIN_BOUND <= origin_cz <= ORIGIN_BOUND,
    ensures
        nb.wf(),
        nb.origin_cx == origin_cx,
        nb.origin_cz == origin_cz,
        nb.height == old(manager).dimension.spec_height(),
        nb.has_sky_light == old(manager).dimension.spec_has_sky_light(),
        nb.changed_cells@.len() == 0,
        forall|k: (i32, i32)| nbhd_key(origin_cx as int, origin_cz as int, k) ==> #[trigger] old(manager).chunks.chunk_at(k)
            == nb.columns@[key_slot(origin_cx as int, origin_cz as int, k)],
        final(manager).wf(),
        final(manager).dimension == old(manager).dimension,
        final(manager).seed == old(manager).seed,
        final(manager).light_changes@ == old(manager).light_changes@,
        forall|k: (i32, i32)| #[trigger] final(manager).chunks.chunk_at(k) == if nbhd_key(origin_cx as int, origin_cz as int, k) {
            None
        } else {
            old(manager).chunks.chunk_at(k)
        },
{
    let ghost m0 = *manager;
    let h = manager.dimension.height();
    let mut columns: Vec<Option<Chunk>> = Vec::new();
    let mut s: usize = 0;
    while s < 9
        invariant
            s <= 9,
            m0 == *old(manager),
            m0.wf(),
            h == m0.dimension.spec_height(),
            -ORIGIN_BOUND <= origin_cx <= ORIGIN_BOUND,
            -ORIGIN_BOUND <= origin_cz <= ORIGIN_BOUND,
            columns@.len() == s,
            manager.wf(),
            manager.dimension == m0.dimension,
            manager.seed == m0.seed,
            manager.light_changes@ == m0.light_changes@,
            forall|t: int| 0 <= t < s ==> #[trigger] columns@[t] == m0.chunks.chunk_at(slot_key(origin_cx as int, origin_cz as int, t)),
            forall|t: int| 0 <= t < s ==> ((#[trigger] columns@[t]) matches Some(c) ==> c.wf() && c.height == h),
            forall|k: (i32, i32)| #[trigger] manager.chunks.chunk_at(k) == if nbhd_key(origin_cx as int, origin_cz as int, k)
                && key_slot(origin_cx as int, origin_cz as int, k) < s {
                None
            } else {
                m0.chunks.chunk_at(k)
            },
        decreases 9 - s,
    {
        let dx = (s % 3) as i32;
        let dz = (s / 3) as i32;
        let key = (origin_cx + dx - 1, origin_cz + dz - 1);
        proof {
            lemma_slot_key(origin_cx as int, origin_cz as int, s as int);
            assert(key == slot_key(origin_cx as int, origin_cz as int, s as int));
            if m0.chunks.chunk_at(key) is Some {
                m0.chunks.lemma_chunk_fits(h, key);
            }
        }
        let ghost before = columns@;
        let col = manager.chunks.remove(&key);
        columns.push(col);
        proof {
            assert forall|t: int| 0 <= t < s + 1 implies #[trigger] columns@[t] == m0.chunks.chunk_at(
                slot_key(origin_cx as int, origin_cz as int, t),
            ) by {
                if t < s {
                    assert(columns@[t] == before[t]);
                }
            }
            assert forall|t: int| 0 <= t < s + 1 implies ((#[trigger] columns@[t]) matches Some(c) ==> c.wf() && c.height == h) by {
                if t < s {
                    assert(columns@[t] == before[t]);
                }
            }
        }
        s += 1;
    }
    let nb = LightNeighborhood {
        origin_cx,
        origin_cz,
        height: h,
        has_sky_light: manager.dimension.has_sky_light(),
        columns,
        changed_cells: Vec::new(),
    };
    proof {
        assert forall|k: (i32, i32)| nbhd_key(origin_cx as int, origin_cz as int, k) implies #[trigger] m0.chunks.chunk_at(k)
            == nb.columns@[key_slot(origin_cx as int, origin_cz as int, k)] by {
            let t = key_slot(origin_cx as int, origin_cz as int, k);
            assert(slot_key(origin_cx as int, origin_cz as int, t) == k);
        }
    }
    nb
}

/// Put the columns of `nb` back into `manager` and record the blocks whose light changed.
pub fn restore(nb: LightNeighborhood, manager: &mut ChunkManager)
    requires
        nb.wf(),
        old(manager).wf(),
        nb.height == old(manager).dimension.spec_height(),
        forall|k: (i32, i32)| nbhd_key(nb.origin_cx as int, nb.origin_cz as int, k) ==> #[trigger] old(manager).chunks.chunk_at(k)
            is None,
    ensures
        final(manager).wf(),
        final(manager).dimension == old(manager).dimension,
        final(manager).seed == old(manager).seed,
        final(manager).light_changes@ == old(manager).light_changes@ + nb.changed_cells@,
        forall|k: (i32, i32)| #[trigger] final(manager).chunks.chunk_at(k) == if nbhd_key(nb.origin_cx as int, nb.origin_cz as int, k) {
            nb.columns@[key_slot(nb.origin_cx as int, nb.origin_cz as int, k)]
        } else {
            old(manager).chunks.chunk_at(k)
        },
{
    let ghost m0 = *manager;
    let ghost cols0 = nb.columns@;
    let ocx = nb.origin_cx;
    let ocz = nb.origin_cz;
    let LightNeighborhood { columns, changed_cells, .. } = nb;
    let mut columns = columns;
    let mut s: usize = 9;
    while s > 0
        invariant
            s <= 9,
            m0 == *old(manager),
            ocx == nb.origin_cx,
            ocz == nb.origin_cz,
            nb.wf(),
            nb.height == m0.dimension.spec_height(),
            cols0 == nb.columns@,
            columns@ == cols0.subrange(0, s as int),
            manager.wf(),
            manager.dimension == m0.dimension,
            manager.seed == m0.seed,
            manager.light_changes@ == m0.light_changes@,
            forall|k: (i32, i32)| nbhd_key(ocx as int, ocz as int, k) ==> #[trigger] m0.chunks.chunk_at(k) is None,
            forall|k: (i32, i32)| #[trigger] manager.chunks.chunk_at(k) == if nbhd_key(ocx as int, ocz as int, k) && key_slot(
                ocx as int,
                ocz as int,
                k,
            ) >= s {
                cols0[key_slot(ocx as int, ocz as int, k)]
            } else {
                m0.chunks.chunk_at(k)
            },
        decreases s,
    {
        s -= 1;
        let col = columns.pop().unwrap();
        let dx = (s % 3) as i32;
        let dz = (s / 3) as i32;
        let key = (ocx + dx - 1, ocz + dz - 1);
        proof {
            lemma_slot_key(ocx as int, ocz as int, s as int);
            assert(key == slot_key(ocx as int, ocz as int, s as int));
            assert(col == cols0[s as int]);
            assert(columns@ =~= cols0.subrange(0, s as int));
        }
        match col {
            Some(c) => {
                proof {
                    assert(nb.columns@[s as int] matches Some(c2) && c2.wf() && c2.height == m0.dimension.spec_height());
                }
                manager.chunks.insert(key, c);
            },
            None => {},
        }
    }
    let ghost lc0 = manager.light_changes@;
    let mut i: usize = 0;
    while i < changed_cells.len()
        invariant
            i <= changed_cells@.len(),
            lc0 == m0.light_changes@,
            manager.wf(),
            manager.dimension == m0.dimension,
            manager.seed == m0.seed,
            manager.light_changes@ == lc0 + changed_cells@.subrange(0, i as int),
            forall|k: (i32, i32)| #[trigger] manager.chunks.chunk_at(k) == if nbhd_key(ocx as int, ocz as int, k) {
                cols0[key_slot(ocx as int, ocz as int, k)]
            } else {
                m0.chunks.chunk_at(k)
            },
        decreases changed_cells@.len() - i,
    {
        let (wx, wy, wz) = changed_cells[i];
        manager.note_light_cell_change(wx, wy, wz);
        proof {
            assert(changed_cells@.subrange(0, i + 1) =~= changed_cells@.subrange(0, i as int).push((wx, wy, wz)));
        }
        i += 1;
    }
    proof {
        assert(changed_cells@.subrange(0, changed_cells@.len() as int) =~= changed_cells@);
    }
}

impl LightNeighborhood {
    /// True when block column (`wx`, `wz`) lies in a loaded column of the neighbourhood.
    pub fn has_column(&self, wx: i32, wz: i32) -> (r: bool)
        requires
            self.wf(),
        ensures
            r == (self.col(wx as int, wz as int) is Some),
    {
        match self.column_index(wx, wz) {
            None => false,
            Some((s, _, _)) => self.columns[s].is_some(),
        }
    }
}

/// Light that only rose keeps settled every block whose own light stayed the same.
pub proof fn lemma_settled_kept(a: &LightNeighborhood, b: &LightNeighborhood, kind: LightKind)
    requires
        a.wf(),
        a.same_frame(b, kind),
        b.brightened_from(a, kind),
    ensures
        forall|x: int, y: int, z: int| a.settled(kind, x, y, z) && b.light(kind, x, y, z) == a.light(kind, x, y, z) ==> #[trigger] b.settled(
            kind,
            x,
            y,
            z,
        ),
{
    lemma_frame_cells(a, b, kind);
    assert forall|x: int, y: int, z: int| a.settled(kind, x, y, z) && b.light(kind, x, y, z) == a.light(kind, x, y, z) implies #[trigger] b.settled(
        kind,
        x,
        y,
        z,
    ) by {
        assert forall|d: int| 0 <= d < 6 implies #[trigger] b.dir_ok(kind, x, y, z, d) by {
            assert(a.dir_ok(kind, x, y, z, d)) by {
                assert(a.dir_ok(kind, x, y, z, 0));
                assert(a.dir_ok(kind, x, y, z, 1));
                assert(a.dir_ok(kind, x, y, z, 2));
                assert(a.dir_ok(kind, x, y, z, 3));
                assert(a.dir_ok(kind, x, y, z, 4));
                assert(a.dir_ok(kind, x, y, z, 5));
            }
            let nx = x + dir_dx(d);
            let ny = y + dir_dy(d);
            let nz = z + dir_dz(d);
            assert(b.open_cell(nx, ny, nz) == a.open_cell(nx, ny, nz));
            assert(b.light(kind, nx, ny, nz) >= a.light(kind, nx, ny, nz));
        }
        assert(b.dir_ok(kind, x, y, z, 0));
        assert(b.dir_ok(kind, x, y, z, 1));
        assert(b.dir_ok(kind, x, y, z, 2));
        assert(b.dir_ok(kind, x, y, z, 3));
        assert(b.dir_ok(kind, x, y, z, 4));
        assert(b.dir_ok(kind, x, y, z, 5));
    }
}

/// A pass over one kind of light leaves the other kind as settled as it was.
pub proof fn lemma_settled_other(a: &LightNeighborhood, b: &LightNeighborhood, kind: LightKind)
    requires
        a.wf(),
        a.same_frame(b, kind),
    ensures
        forall|x: int, y: int, z: int| #[trigger] b.settled(other_kind(kind), x, y, z) == a.settled(other_kind(kind), x, y, z),
{
    lemma_frame_cells(a, b, kind);
    assert forall|x: int, y: int, z: int| #[trigger] b.settled(other_kind(kind), x, y, z) == a.settled(other_kind(kind), x, y, z) by {
        assert forall|d: int| 0 <= d < 6 implies #[trigger] b.dir_ok(other_kind(kind), x, y, z, d) == a.dir_ok(other_kind(kind), x, y, z, d) by {
            let nx = x + dir_dx(d);
            let ny = y + dir_dy(d);
            let nz = z + dir_dz(d);
            assert(b.open_cell(nx, ny, nz) == a.open_cell(nx, ny, nz));
            assert(b.light(other_kind(kind), nx, ny, nz) == a.light(other_kind(kind), nx, ny, nz));
            assert(b.light(other_kind(kind), x, y, z) == a.light(other_kind(kind), x, y, z));
        }
        assert(b.dir_ok(other_kind(kind), x, y, z, 0) == a.dir_ok(other_kind(kind), x, y, z, 0));
        assert(b.dir_ok(other_kind(kind), x, y, z, 1) == a.dir_ok(other_kind(kind), x, y, z, 1));
        assert(b.dir_ok(other_kind(kind), x, y, z, 2) == a.dir_ok(other_kind(kind), x, y, z, 2));
        assert(b.dir_ok(other_kind(kind), x, y, z, 3) == a.dir_ok(other_kind(kind), x, y, z, 3));
        assert(b.dir_ok(other_kind(kind), x, y, z, 4) == a.dir_ok(other_kind(kind), x, y, z, 4));
        assert(b.dir_ok(other_kind(kind), x, y, z, 5) == a.dir_ok(other_kind(kind), x, y, z, 5));
    }
}

} // verus!
