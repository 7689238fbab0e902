//! Sky and block light propagation over a 3 by 3 neighbourhood of columns.
//!
//! Light flows from a lit block to each open (loaded, in-height, not opaque) neighbour
//! that is more than one level darker, raising it to one level below. Removal zeroes the
//! light that a darkened source fed and queues the brighter border for re-propagation.

use vstd::prelude::*;
use crate::world::{column_key, div16, light_of_column, mod16, other_kind, ChunkManager, LightKind};
use std::collections::VecDeque;

pub mod measure;
pub mod neighborhood;
pub mod updates;
pub mod seed;

pub use seed::propagate_chunk_lighting;
pub use updates::{
    update_block_light_after_placed, update_block_light_after_removed, update_sky_light_after_placed, update_sky_light_after_removed,
};

use neighborhood::{
    dir_dx, dir_dy, dir_dz, in_queue, lemma_col_is_column, near, nbhd_key, node_fits, propagate, remove_light, removal_fits, removal_leaves, restore, queue_peak, lemma_queue_peak_mono,
    take, LightNeighborhood, ORIGIN_BOUND, PROP_BOUND, REMOVAL_BOUND,
};

verus! {

/// A block queued for light propagation.
#[derive(Debug, Clone, Copy, PartialEq, Eq)]
pub struct LightNode {
    pub x: i32,
    pub y: i32,
    pub z: i32,
}

/// A block queued for light removal, with the light level it had.
#[derive(Debug, Clone, Copy, PartialEq, Eq)]
pub struct LightRemovalNode {
    pub x: i32,
    pub y: i32,
    pub z: i32,
    pub val: u8,
}

/// A set of chunk coordinates (columns whose light changed); no key occurs twice.
#[derive(Debug, Clone)]
pub struct ChunkSet {
    pub keys: Vec<(i32, i32)>,
}

impl ChunkSet {
    pub open spec fn wf(&self) -> bool {
        self.keys@.no_duplicates()
    }

    pub open spec fn view(&self) -> Set<(i32, i32)> {
        self.keys@.to_set()
    }

    /// The empty set.
    pub fn new() -> (r: ChunkSet)
        ensures
            r.wf(),
            r@ == Set::<(i32, i32)>::empty(),
    {
        let r = ChunkSet { keys: Vec::new() };
        assert(r@ =~= Set::<(i32, i32)>::empty());
        r
    }

    /// True when `key` is in the set.
    pub fn contains(&self, key: (i32, i32)) -> (r: bool)
        ensures
            r == self@.contains(key),
    {
        let n = self.keys.len();
        let mut i: usize = 0;
        while i < n
            invariant
                n == self.keys@.len(),
                i <= n,
                forall|j: int| 0 <= j < i ==> self.keys@[j] != key,
            decreases n - i,
        {
            let k = self.keys[i];
            if k.0 == key.0 && k.1 == key.1 {
                return true;
            }
            i += 1;
        }
        false
    }

    /// Add `key`; true when it was not there before.
    pub fn insert(&mut self, key: (i32, i32)) -> (r: bool)
        requires
            old(self).wf(),
        ensures
            final(self).wf(),
            final(self)@ == old(self)@.insert(key),
            r == !old(self)@.contains(key),
    {
        if self.contains(key) {
            assert(self@.insert(key) =~= self@);
            return false;
        }
        let ghost before = self.keys@;
        self.keys.push(key);
        proof {
            assert(self.keys@ == before.push(key));
            assert(self@ =~= before.to_set().insert(key)) by {
                assert forall|k: (i32, i32)| self@.contains(k) == before.to_set().insert(key).contains(k) by {
                    if k == key {
                        assert(self.keys@[before.len() as int] == key);
                    } else if before.to_set().contains(k) {
                        let i = choose|i: int| 0 <= i < before.len() && before[i] == k;
                        assert(self.keys@[i] == k);
                    } else if self@.contains(k) {
                        let i = choose|i: int| 0 <= i < self.keys@.len() && self.keys@[i] == k;
                        assert(before[i] == k);
                    }
                }
            }
            assert(self.keys@.no_duplicates()) by {
                assert forall|a: int, b: int| 0 <= a < self.keys@.len() && 0 <= b < self.keys@.len() && a != b
                    implies self.keys@[a] != self.keys@[b] by {
                    if a == before.len() {
                        assert(!before.contains(key));
                        assert(before[b] == self.keys@[b]);
                    } else if b == before.len() {
                        assert(before[a] == self.keys@[a]);
                    }
                }
            }
        }
        true
    }

    /// Number of keys.
    pub fn len(&self) -> (r: usize)
        ensures
            r == self.keys@.len(),
    {
        self.keys.len()
    }
}

/// Columns whose cached meshes must be rebuilt after the light of block column (`x`, `z`)
/// changed: its own column, and the neighbour across each column edge it touches.
pub open spec fn dirty_keys(x: int, z: int) -> Set<(i32, i32)> {
    let cx = x / 16;
    let cz = z / 16;
    let lx = x % 16;
    let lz = z % 16;
    Set::empty().insert((cx as i32, cz as i32)).union(
        if lx == 0 { Set::empty().insert(((cx - 1) as i32, cz as i32)) } else { Set::empty() },
    ).union(if lx == 15 { Set::empty().insert(((cx + 1) as i32, cz as i32)) } else { Set::empty() }).union(
        if lz == 0 { Set::empty().insert((cx as i32, (cz - 1) as i32)) } else { Set::empty() },
    ).union(if lz == 15 { Set::empty().insert((cx as i32, (cz + 1) as i32)) } else { Set::empty() })
}

/// Mark the columns touched by a light change at block column (`nx`, `nz`) as dirty.
pub fn mark_light_dirty(dirty: &mut ChunkSet, nx: i32, nz: i32)
    requires
        old(dirty).wf(),
    ensures
        final(dirty).wf(),
        final(dirty)@ == old(dirty)@.union(dirty_keys(nx as int, nz as int)),
{
    let cx = div16(nx);
    let cz = div16(nz);
    dirty.insert((cx, cz));
    let lx = mod16(nx);
    let lz = mod16(nz);
    if lx == 0 {
        dirty.insert((cx - 1, cz));
    }
    if lx == 15 {
        dirty.insert((cx + 1, cz));
    }
    if lz == 0 {
        dirty.insert((cx, cz - 1));
    }
    if lz == 15 {
        dirty.insert((cx, cz + 1));
    }
    assert(dirty@ =~= old(dirty)@.union(dirty_keys(nx as int, nz as int)));
}

/// Largest coordinate of a node handed to a propagation pass.
pub const NODE_BOUND: i32 = 1073741888;

/// Largest coordinate of a node handed to a removal pass.
pub const REMOVAL_NODE_BOUND: i32 = 1073741824;

/// A block that light can enter around column (`ocx`, `ocz`): in the 3 by 3 columns there, inside
/// the world, in a loaded column, and not opaque.
pub open spec fn open_near(m: &ChunkManager, ocx: int, ocz: int, x: int, y: int, z: int) -> bool {
    &&& near(ocx, ocz, x, z)
    &&& m.dimension.spec_height().spec_contains_y(y)
    &&& m.column(x, z) is Some
    &&& !m.block(x, y, z).spec_is_opaque()
}

/// The neighbour of (`x`, `y`, `z`) in direction `d` is not more than one level darker, unless it is
/// not open around (`ocx`, `ocz`).
pub open spec fn dir_ok_near(m: &ChunkManager, kind: LightKind, ocx: int, ocz: int, x: int, y: int, z: int, d: int) -> bool {
    let nx = x + dir_dx(d);
    let ny = y + dir_dy(d);
    let nz = z + dir_dz(d);
    open_near(m, ocx, ocz, nx, ny, nz) ==> m.light(kind, nx, ny, nz) >= m.light(kind, x, y, z) - 1
}

/// No neighbour of (`x`, `y`, `z`) that is open around (`ocx`, `ocz`) is more than one level darker.
pub open spec fn settled_near(m: &ChunkManager, kind: LightKind, ocx: int, ocz: int, x: int, y: int, z: int) -> bool {
    &&& dir_ok_near(m, kind, ocx, ocz, x, y, z, 0)
    &&& dir_ok_near(m, kind, ocx, ocz, x, y, z, 1)
    &&& dir_ok_near(m, kind, ocx, ocz, x, y, z, 2)
    &&& dir_ok_near(m, kind, ocx, ocz, x, y, z, 3)
    &&& dir_ok_near(m, kind, ocx, ocz, x, y, z, 4)
    &&& dir_ok_near(m, kind, ocx, ocz, x, y, z, 5)
}

/// `m1` has the dimension, seed, blocks and loaded columns of `m0`, and its light of the kind
/// other than `kind`.
pub open spec fn same_world(m0: &ChunkManager, m1: &ChunkManager, kind: LightKind) -> bool {
    &&& m1.wf()
    &&& m1.dimension == m0.dimension
    &&& m1.seed == m0.seed
    &&& forall|x: int, y: int, z: int| #[trigger] m1.block(x, y, z) == m0.block(x, y, z)
    &&& forall|x: int, z: int| (#[trigger] m1.column(x, z) is Some) == (m0.column(x, z) is Some)
    &&& forall|x: int, y: int, z: int| #[trigger] m1.light(other_kind(kind), x, y, z) == m0.light(other_kind(kind), x, y, z)
}

/// Every block whose light of `kind` differs between `m0` and `m1` is recorded in `m1`'s light
/// changes and has its columns in `dirty1`; what `m0` recorded and `dirty0` held is kept.
pub open spec fn light_recorded(m0: &ChunkManager, m1: &ChunkManager, kind: LightKind, dirty0: Set<(i32, i32)>, dirty1: Set<(i32, i32)>) -> bool {
    &&& dirty0.subset_of(dirty1)
    &&& m0.light_changes@.is_prefix_of(m1.light_changes@)
    &&& forall|x: int, y: int, z: int| #[trigger] m1.light(kind, x, y, z) != m0.light(kind, x, y, z) ==> dirty_keys(x, z).subset_of(
        dirty1,
    ) && m1.light_changes@.contains((x as i32, y as i32, z as i32))
}

/// Light of `kind` only rose from `m0` to `m1`, and only in blocks open around (`ocx`, `ocz`).
pub open spec fn brightened_near(m0: &ChunkManager, m1: &ChunkManager, kind: LightKind, ocx: int, ocz: int) -> bool {
    forall|x: int, y: int, z: int| #[trigger] m1.light(kind, x, y, z) >= m0.light(kind, x, y, z) && (m1.light(kind, x, y, z) != m0.light(
        kind,
        x,
        y,
        z,
    ) ==> open_near(m0, ocx, ocz, x, y, z))
}

/// Light of `kind` went from `m0` to `m1` only by zeroing blocks of loaded columns around
/// (`ocx`, `ocz`).
pub open spec fn darkened_near(m0: &ChunkManager, m1: &ChunkManager, kind: LightKind, ocx: int, ocz: int) -> bool {
    forall|x: int, y: int, z: int| #[trigger] m1.light(kind, x, y, z) == m0.light(kind, x, y, z) || (m1.light(kind, x, y, z) == 0 && near(
        ocx,
        ocz,
        x,
        z,
    ) && m0.column(x, z) is Some && m0.dimension.spec_height().spec_contains_y(y))
}

/// Every node of `q0` around (`ocx`, `ocz`) and every block whose light of `kind` changed from
/// `m0` is settled in `m1`.
pub open spec fn settled_after(m0: &ChunkManager, m1: &ChunkManager, kind: LightKind, ocx: int, ocz: int, q0: Seq<LightNode>) -> bool {
    forall|x: int, y: int, z: int| #[trigger] settled_near(m1, kind, ocx, ocz, x, y, z) || !((in_queue(q0, x, y, z) && near(ocx, ocz, x, z))
        || m1.light(kind, x, y, z) != m0.light(kind, x, y, z))
}

/// A manager seen through a neighbourhood taken from it: same cells around the origin.
pub proof fn lemma_view_through(m: &ChunkManager, nb: &LightNeighborhood)
    requires
        nb.wf(),
        nb.height == m.dimension.spec_height(),
        nb.has_sky_light == m.dimension.spec_has_sky_light(),
        forall|k: (i32, i32)| nbhd_key(nb.origin_cx as int, nb.origin_cz as int, k) ==> #[trigger] m.chunks.chunk_at(k)
            == nb.columns@[neighborhood::key_slot(nb.origin_cx as int, nb.origin_cz as int, k)],
    ensures
        forall|x: int, z: int| near(nb.origin_cx as int, nb.origin_cz as int, x, z) ==> #[trigger] m.column(x, z) == nb.col(x, z),
        forall|kind: LightKind, x: int, y: int, z: int| near(nb.origin_cx as int, nb.origin_cz as int, x, z) ==> #[trigger] m.light(
            kind,
            x,
            y,
            z,
        ) == nb.light(kind, x, y, z),
        forall|x: int, y: int, z: int| near(nb.origin_cx as int, nb.origin_cz as int, x, z) ==> #[trigger] m.block(x, y, z) == nb.block(
            x,
            y,
            z,
        ),
{
    assert forall|x: int, z: int| near(nb.origin_cx as int, nb.origin_cz as int, x, z) implies #[trigger] m.column(x, z) == nb.col(x, z) by {
        lemma_col_is_column(m, nb, x, z);
    }
    assert forall|kind: LightKind, x: int, y: int, z: int| near(nb.origin_cx as int, nb.origin_cz as int, x, z) implies #[trigger] m.light(
        kind,
        x,
        y,
        z,
    ) == nb.light(kind, x, y, z) by {
        lemma_col_is_column(m, nb, x, z);
    }
    assert forall|x: int, y: int, z: int| near(nb.origin_cx as int, nb.origin_cz as int, x, z) implies #[trigger] m.block(x, y, z) == nb.block(
        x,
        y,
        z,
    ) by {
        lemma_col_is_column(m, nb, x, z);
    }
}

/// Columns outside the neighbourhood keep their cells.
pub proof fn lemma_far_unchanged(m0: &ChunkManager, m1: &ChunkManager, ocx: int, ocz: int)
    requires
        m1.dimension == m0.dimension,
        -ORIGIN_BOUND <= ocx <= ORIGIN_BOUND,
        -ORIGIN_BOUND <= ocz <= ORIGIN_BOUND,
        forall|k: (i32, i32)| !nbhd_key(ocx, ocz, k) ==> #[trigger] m1.chunks.chunk_at(k) == m0.chunks.chunk_at(k),
    ensures
        forall|x: int, z: int| !near(ocx, ocz, x, z) ==> #[trigger] m1.column(x, z) == m0.column(x, z),
        forall|kind: LightKind, x: int, y: int, z: int| !near(ocx, ocz, x, z) ==> #[trigger] m1.light(kind, x, y, z) == m0.light(
            kind,
            x,
            y,
            z,
        ),
        forall|x: int, y: int, z: int| !near(ocx, ocz, x, z) ==> #[trigger] m1.block(x, y, z) == m0.block(x, y, z),
{
    assert forall|x: int, z: int| !near(ocx, ocz, x, z) implies #[trigger] m1.column(x, z) == m0.column(x, z) by {
        if i32::MIN <= x <= i32::MAX && i32::MIN <= z <= i32::MAX {
            assert(!nbhd_key(ocx, ocz, column_key(x, z)));
        }
    }
    assert forall|kind: LightKind, x: int, y: int, z: int| !near(ocx, ocz, x, z) implies #[trigger] m1.light(kind, x, y, z) == m0.light(
        kind,
        x,
        y,
        z,
    ) by {
        assert(m1.column(x, z) == m0.column(x, z));
    }
    assert forall|x: int, y: int, z: int| !near(ocx, ocz, x, z) implies #[trigger] m1.block(x, y, z) == m0.block(x, y, z) by {
        assert(m1.column(x, z) == m0.column(x, z));
    }
}

/// Propagate light of `kind` from `queue` through the columns around (`origin_cx`, `origin_cz`).
#[verifier::spinoff_prover]
fn run_propagate(
    chunk_manager: &mut ChunkManager,
    origin_cx: i32,
    origin_cz: i32,
    kind: LightKind,
    queue: &mut VecDeque<LightNode>,
    dirty_chunks: &mut ChunkSet,
)
    requires
        old(chunk_manager).wf(),
        old(dirty_chunks).wf(),
        -ORIGIN_BOUND <= origin_cx <= ORIGIN_BOUND,
        -ORIGIN_BOUND <= origin_cz <= ORIGIN_BOUND,
        forall|k: int| 0 <= k < old(queue)@.len() ==> node_fits(#[trigger] old(queue)@[k], PROP_BOUND as int),
    ensures
        final(queue)@.len() == 0,
        final(dirty_chunks).wf(),
        same_world(old(chunk_manager), final(chunk_manager), kind),
        old(queue)@.len() == 0 ==> *final(chunk_manager) == *old(chunk_manager) && final(dirty_chunks)@ == old(dirty_chunks)@,
        brightened_near(old(chunk_manager), final(chunk_manager), kind, origin_cx as int, origin_cz as int),
        settled_after(old(chunk_manager), final(chunk_manager), kind, origin_cx as int, origin_cz as int, old(queue)@),
        light_recorded(old(chunk_manager), final(chunk_manager), kind, old(dirty_chunks)@, final(dirty_chunks)@),
        raised_fed(old(chunk_manager), final(chunk_manager), kind),
        raised_below_peak(old(chunk_manager), final(chunk_manager), kind, old(queue)@),
{
    if queue.len() == 0 {
        proof {
            reveal(raised_fed);
            reveal(raised_below_peak);
            assert(brightened_near(chunk_manager, chunk_manager, kind, origin_cx as int, origin_cz as int));
            assert(chunk_manager.light_changes@.is_prefix_of(chunk_manager.light_changes@)) by {
                assert(chunk_manager.light_changes@.subrange(0, chunk_manager.light_changes@.len() as int) =~= chunk_manager.light_changes@);
            }
        }
        return;
    }
    let ghost m0 = *chunk_manager;
    let ghost q0 = queue@;
    let mut nb = take(chunk_manager, origin_cx, origin_cz);
    let ghost nb0 = nb;
    let ghost mid = *chunk_manager;
    propagate(&mut nb, kind, queue, dirty_chunks);
    let ghost nb1 = nb;
    restore(nb, chunk_manager);
    proof {
        let m1 = *chunk_manager;
        let ocx = origin_cx as int;
        let ocz = origin_cz as int;
        lemma_view_through(&m0, &nb0);
        lemma_view_through(&m1, &nb1);
        lemma_far_unchanged(&m0, &m1, ocx, ocz);
        neighborhood::lemma_frame_cells(&nb0, &nb1, kind);
        assert forall|x: int, y: int, z: int| #[trigger] m1.block(x, y, z) == m0.block(x, y, z) by {
            if near(ocx, ocz, x, z) {
                assert(nb1.block(x, y, z) == nb0.block(x, y, z));
            }
        }
        assert forall|x: int, z: int| (#[trigger] m1.column(x, z) is Some) == (m0.column(x, z) is Some) by {
            if near(ocx, ocz, x, z) {
                assert((nb1.col(x, z) is Some) == (nb0.col(x, z) is Some));
            }
        }
        assert forall|x: int, y: int, z: int| #[trigger] m1.light(other_kind(kind), x, y, z) == m0.light(other_kind(kind), x, y, z) by {
            if near(ocx, ocz, x, z) {
                assert(nb1.light(other_kind(kind), x, y, z) == nb0.light(other_kind(kind), x, y, z));
            }
        }
        assert forall|x: int, y: int, z: int| #[trigger] m1.light(kind, x, y, z) >= m0.light(kind, x, y, z) && (m1.light(kind, x, y, z)
            != m0.light(kind, x, y, z) ==> open_near(&m0, ocx, ocz, x, y, z)) by {
            if near(ocx, ocz, x, z) {
                assert(nb1.light(kind, x, y, z) >= nb0.light(kind, x, y, z));
            }
        }
        assert forall|x: int, y: int, z: int| #[trigger] m1.light(kind, x, y, z) != m0.light(kind, x, y, z) implies dirty_keys(x, z).subset_of(
            dirty_chunks@,
        ) && m1.light_changes@.contains((x as i32, y as i32, z as i32)) by {
            assert(near(ocx, ocz, x, z));
            assert(nb1.light(kind, x, y, z) != nb0.light(kind, x, y, z));
            let k = choose|k: int| 0 <= k < nb1.changed_cells@.len() && nb1.changed_cells@[k] == (x as i32, y as i32, z as i32);
            assert(m1.light_changes@[m0.light_changes@.len() + k] == nb1.changed_cells@[k]);
        }
        assert(m0.light_changes@.is_prefix_of(m1.light_changes@)) by {
            assert(m1.light_changes@.subrange(0, m0.light_changes@.len() as int) =~= m0.light_changes@);
        }
        assert forall|x: int, y: int, z: int| #[trigger] settled_near(&m1, kind, ocx, ocz, x, y, z) || !((in_queue(q0, x, y, z) && near(
            ocx,
            ocz,
            x,
            z,
        )) || m1.light(kind, x, y, z) != m0.light(kind, x, y, z)) by {
            if (in_queue(q0, x, y, z) && near(ocx, ocz, x, z)) || m1.light(kind, x, y, z) != m0.light(kind, x, y, z) {
                assert(near(ocx, ocz, x, z));
                assert(nb1.settled(kind, x, y, z));
                assert forall|d: int| 0 <= d < 6 implies #[trigger] dir_ok_near(&m1, kind, ocx, ocz, x, y, z, d) by {
                    assert(nb1.dir_ok(kind, x, y, z, d));
                }
                assert(dir_ok_near(&m1, kind, ocx, ocz, x, y, z, 0));
                assert(dir_ok_near(&m1, kind, ocx, ocz, x, y, z, 1));
                assert(dir_ok_near(&m1, kind, ocx, ocz, x, y, z, 2));
                assert(dir_ok_near(&m1, kind, ocx, ocz, x, y, z, 3));
                assert(dir_ok_near(&m1, kind, ocx, ocz, x, y, z, 4));
                assert(dir_ok_near(&m1, kind, ocx, ocz, x, y, z, 5));
            }
        }
        assert forall|x: int, y: int, z: int| #[trigger] m1.light(kind, x, y, z) != m0.light(kind, x, y, z) implies exists|d: int|
            #[trigger] light_one_below(&m1, kind, x, y, z, d) by {
            assert(near(ocx, ocz, x, z));
            assert(nb1.light(kind, x, y, z) != nb0.light(kind, x, y, z));
            let d = choose|d: int| #[trigger] nb1.one_below(kind, x, y, z, d);
            let wx = x + dir_dx(d);
            let wy = y + dir_dy(d);
            let wz = z + dir_dz(d);
            if near(ocx, ocz, wx, wz) {
                assert(m1.light(kind, wx, wy, wz) == nb1.light(kind, wx, wy, wz));
            } else {
                assert(nb1.col(wx, wz) is None);
            }
            assert(light_one_below(&m1, kind, x, y, z, d));
        }
        reveal(raised_fed);
        let ml = |x0: int, y0: int, z0: int| m0.light(kind, x0, y0, z0);
        assert forall|k: int| 0 <= k < q0.len() implies nb0.light_fn(kind)(q0[k].x as int, q0[k].y as int, q0[k].z as int) <= ml(
            #[trigger] q0[k].x as int,
            q0[k].y as int,
            q0[k].z as int,
        ) by {
            let (x, y, z) = (q0[k].x as int, q0[k].y as int, q0[k].z as int);
            if !near(ocx, ocz, x, z) {
                assert(nb0.col(x, z) is None);
            }
        }
        lemma_queue_peak_mono(nb0.light_fn(kind), ml, q0);
        assert forall|x: int, y: int, z: int| #[trigger] m1.light(kind, x, y, z) != m0.light(kind, x, y, z) implies m1.light(kind, x, y, z)
            < queue_peak(ml, q0) by {
            assert(near(ocx, ocz, x, z));
            assert(nb1.light(kind, x, y, z) != nb0.light(kind, x, y, z));
        }
        reveal(raised_below_peak);
    }
}

/// Remove light of `kind` fed by `removal_queue` in the columns around (`origin_cx`, `origin_cz`).
#[verifier::spinoff_prover]
fn run_remove(
    chunk_manager: &mut ChunkManager,
    origin_cx: i32,
    origin_cz: i32,
    kind: LightKind,
    removal_queue: &mut VecDeque<LightRemovalNode>,
    propagate_queue: &mut VecDeque<LightNode>,
    dirty_chunks: &mut ChunkSet,
)
    requires
        old(chunk_manager).wf(),
        old(dirty_chunks).wf(),
        -67108864 <= origin_cx <= 67108864,
        -67108864 <= origin_cz <= 67108864,
        forall|k: int| 0 <= k < old(removal_queue)@.len() ==> removal_fits(#[trigger] old(removal_queue)@[k], REMOVAL_BOUND as int),
        forall|k: int| 0 <= k < old(propagate_queue)@.len() ==> node_fits(#[trigger] old(propagate_queue)@[k], PROP_BOUND as int),
    ensures
        final(removal_queue)@.len() == 0,
        final(dirty_chunks).wf(),
        same_world(old(chunk_manager), final(chunk_manager), kind),
        old(removal_queue)@.len() == 0 ==> *final(chunk_manager) == *old(chunk_manager) && final(dirty_chunks)@ == old(dirty_chunks)@
            && final(propagate_queue)@ == old(propagate_queue)@,
        darkened_near(old(chunk_manager), final(chunk_manager), kind, origin_cx as int, origin_cz as int),
        light_recorded(old(chunk_manager), final(chunk_manager), kind, old(dirty_chunks)@, final(dirty_chunks)@),
        old(propagate_queue)@.is_prefix_of(final(propagate_queue)@),
        forall|k: int| old(propagate_queue)@.len() <= k < final(propagate_queue)@.len() ==> node_fits(
            #[trigger] final(propagate_queue)@[k],
            REMOVAL_BOUND + 1,
        ),
        old(removal_queue)@.len() > 0 ==> exists|k: nat|
            #[trigger] removal_leaves(
                old(chunk_manager).dimension.spec_height(),
                near_light_fn(old(chunk_manager), kind, origin_cx as int, origin_cz as int),
                old(removal_queue)@,
                old(propagate_queue)@,
                k,
                near_light_fn(final(chunk_manager), kind, origin_cx as int, origin_cz as int),
                final(propagate_queue)@,
            ),
{
    if removal_queue.len() == 0 {
        proof {
            assert(chunk_manager.light_changes@.is_prefix_of(chunk_manager.light_changes@)) by {
                assert(chunk_manager.light_changes@.subrange(0, chunk_manager.light_changes@.len() as int) =~= chunk_manager.light_changes@);
            }
            assert(propagate_queue@.is_prefix_of(propagate_queue@)) by {
                assert(propagate_queue@.subrange(0, propagate_queue@.len() as int) =~= propagate_queue@);
            }
        }
        return;
    }
    let ghost m0 = *chunk_manager;
    let ghost r0 = removal_queue@;
    let ghost p0 = propagate_queue@;
    let mut nb = take(chunk_manager, origin_cx, origin_cz);
    let ghost nb0 = nb;
    remove_light(&mut nb, kind, removal_queue, propagate_queue, dirty_chunks);
    let ghost nb1 = nb;
    restore(nb, chunk_manager);
    proof {
        let m1 = *chunk_manager;
        let ocx = origin_cx as int;
        let ocz = origin_cz as int;
        lemma_view_through(&m0, &nb0);
        lemma_view_through(&m1, &nb1);
        assert(nb0.light_fn(kind) =~= near_light_fn(&m0, kind, ocx, ocz)) by {
            assert forall|x: int, z: int| #[trigger] nb0.col(x, z) == (if near(ocx, ocz, x, z) { m0.column(x, z) } else { None }) by {
            }
        }
        assert(nb1.light_fn(kind) =~= near_light_fn(&m1, kind, ocx, ocz)) by {
            assert forall|x: int, z: int| #[trigger] nb1.col(x, z) == (if near(ocx, ocz, x, z) { m1.column(x, z) } else { None }) by {
            }
        }
        let k = choose|k: nat|
            removal_leaves(nb0.height, nb0.light_fn(kind), r0, p0, k, nb1.light_fn(kind), propagate_queue@);
        assert(removal_leaves(
            m0.dimension.spec_height(),
            near_light_fn(&m0, kind, ocx, ocz),
            r0,
            p0,
            k,
            near_light_fn(&m1, kind, ocx, ocz),
            propagate_queue@,
        ));
        lemma_far_unchanged(&m0, &m1, ocx, ocz);
        neighborhood::lemma_frame_cells(&nb0, &nb1, kind);
        assert forall|x: int, y: int, z: int| #[trigger] m1.block(x, y, z) == m0.block(x, y, z) by {
            if near(ocx, ocz, x, z) {
                assert(nb1.block(x, y, z) == nb0.block(x, y, z));
            }
        }
        assert forall|x: int, z: int| (#[trigger] m1.column(x, z) is Some) == (m0.column(x, z) is Some) by {
            if near(ocx, ocz, x, z) {
                assert((nb1.col(x, z) is Some) == (nb0.col(x, z) is Some));
            }
        }
        assert forall|x: int, y: int, z: int| #[trigger] m1.light(other_kind(kind), x, y, z) == m0.light(other_kind(kind), x, y, z) by {
            if near(ocx, ocz, x, z) {
                assert(nb1.light(other_kind(kind), x, y, z) == nb0.light(other_kind(kind), x, y, z));
            }
        }
        assert forall|x: int, y: int, z: int| #[trigger] m1.light(kind, x, y, z) == m0.light(kind, x, y, z) || (m1.light(kind, x, y, z) == 0
            && near(ocx, ocz, x, z) && m0.column(x, z) is Some && m0.dimension.spec_height().spec_contains_y(y)) by {
            if near(ocx, ocz, x, z) {
                assert(nb1.light(kind, x, y, z) == nb0.light(kind, x, y, z) || (nb1.light(kind, x, y, z) == 0 && nb0.writable(x, y, z)));
            }
        }
        assert forall|x: int, y: int, z: int| #[trigger] m1.light(kind, x, y, z) != m0.light(kind, x, y, z) implies dirty_keys(x, z).subset_of(
            dirty_chunks@,
        ) && m1.light_changes@.contains((x as i32, y as i32, z as i32)) by {
            assert(near(ocx, ocz, x, z));
            assert(nb1.light(kind, x, y, z) != nb0.light(kind, x, y, z));
            let k = choose|k: int| 0 <= k < nb1.changed_cells@.len() && nb1.changed_cells@[k] == (x as i32, y as i32, z as i32);
            assert(m1.light_changes@[m0.light_changes@.len() + k] == nb1.changed_cells@[k]);
        }
        assert(m0.light_changes@.is_prefix_of(m1.light_changes@)) by {
            assert(m1.light_changes@.subrange(0, m0.light_changes@.len() as int) =~= m0.light_changes@);
        }
    }
}

pub proof fn lemma_same_world_trans(a: &ChunkManager, b: &ChunkManager, c: &ChunkManager, kind: LightKind)
    requires
        same_world(a, b, kind),
        same_world(b, c, kind),
    ensures
        same_world(a, c, kind),
{
    assert forall|x: int, y: int, z: int| #[trigger] c.block(x, y, z) == a.block(x, y, z) by {
        assert(b.block(x, y, z) == a.block(x, y, z));
    }
    assert forall|x: int, z: int| (#[trigger] c.column(x, z) is Some) == (a.column(x, z) is Some) by {
        assert((b.column(x, z) is Some) == (a.column(x, z) is Some));
    }
    assert forall|x: int, y: int, z: int| #[trigger] c.light(other_kind(kind), x, y, z) == a.light(other_kind(kind), x, y, z) by {
        assert(b.light(other_kind(kind), x, y, z) == a.light(other_kind(kind), x, y, z));
    }
}

/// Column of the first node of a non-empty queue: the centre of the neighbourhood it lights.
pub open spec fn queue_origin(q: Seq<LightNode>) -> (int, int) {
    (q[0].x as int / 16, q[0].z as int / 16)
}

/// Column of the first node of a non-empty removal queue.
pub open spec fn removal_origin(q: Seq<LightRemovalNode>) -> (int, int) {
    (q[0].x as int / 16, q[0].z as int / 16)
}

fn origin_from_node(x: i32, z: i32) -> (r: (i32, i32))
    ensures
        r.0 == x as int / 16,
        r.1 == z as int / 16,
{
    (div16(x), div16(z))
}

/// Light of `kind` at every block as a pass around column (`ocx`, `ocz`) sees it: the manager's
/// light in the 3 by 3 columns around it, light of no loaded column elsewhere.
pub open spec fn near_light_fn(m: &ChunkManager, kind: LightKind, ocx: int, ocz: int) -> spec_fn(int, int, int) -> int {
    |x: int, y: int, z: int|
        light_of_column(
            if near(ocx, ocz, x, z) {
                m.column(x, z)
            } else {
                None
            },
            m.dimension.spec_height(),
            m.dimension.spec_has_sky_light(),
            kind,
            x,
            y,
            z,
        )
}

/// The light of `kind` at (`x`, `y`, `z`) in `m` is exactly one level below that of its
/// neighbour in direction `d`.
pub open spec fn light_one_below(m: &ChunkManager, kind: LightKind, x: int, y: int, z: int, d: int) -> bool {
    &&& 0 <= d < 6
    &&& m.light(kind, x, y, z) + 1 == m.light(kind, x + dir_dx(d), y + dir_dy(d), z + dir_dz(d))
}

/// Every block whose light of `kind` changed from `m0` to `m1` is exactly one level below one of
/// its neighbours: no block was raised above what its neighbours feed it.
#[verifier::opaque]
pub open spec fn raised_fed(m0: &ChunkManager, m1: &ChunkManager, kind: LightKind) -> bool {
    forall|x: int, y: int, z: int| #[trigger] m1.light(kind, x, y, z) != m0.light(kind, x, y, z) ==> exists|d: int|
        #[trigger] light_one_below(m1, kind, x, y, z, d)
}

/// Every block whose light of `kind` changed from `m0` to `m1` is darker than the brightest of
/// the nodes `q0` in `m0`.
#[verifier::opaque]
pub open spec fn raised_below_peak(m0: &ChunkManager, m1: &ChunkManager, kind: LightKind, q0: Seq<LightNode>) -> bool {
    forall|x: int, y: int, z: int| #[trigger] m1.light(kind, x, y, z) != m0.light(kind, x, y, z) ==> m1.light(kind, x, y, z) < queue_peak(
        |x0: int, y0: int, z0: int| m0.light(kind, x0, y0, z0),
        q0,
    )
}

/// What a propagation pass of `kind` from the nodes `q0` leaves: `m1` differs from `m0` only in
/// the light of `kind`, which only rose, and only in blocks open around the first node's column;
/// every node of `q0` around there and every block whose light changed is settled, and every
/// block whose light changed is exactly one level below one of its neighbours and darker than
/// the brightest node of `q0`.
pub open spec fn propagated(
    m0: &ChunkManager,
    m1: &ChunkManager,
    kind: LightKind,
    q0: Seq<LightNode>,
    dirty0: Set<(i32, i32)>,
    dirty1: Set<(i32, i32)>,
) -> bool {
    &&& same_world(m0, m1, kind)
    &&& light_recorded(m0, m1, kind, dirty0, dirty1)
    &&& q0.len() == 0 ==> m1 == m0 && dirty1 == dirty0
    &&& q0.len() > 0 ==> brightened_near(m0, m1, kind, queue_origin(q0).0, queue_origin(q0).1)
    &&& q0.len() > 0 ==> settled_after(m0, m1, kind, queue_origin(q0).0, queue_origin(q0).1, q0)
    &&& raised_fed(m0, m1, kind)
    &&& raised_below_peak(m0, m1, kind, q0)
}

/// What a removal pass of `kind` from the nodes `r0` leaves: `m1` differs from `m0` only by
/// zeroed light of `kind` in loaded columns around the first node's column, and nodes were only
/// added to the propagation queue (`p0` to `p1`). Around that column the light and the
/// propagation queue are exactly what the removal pass (`removal_pass`) gives: each node taken
/// off the removal queue zeroes its lit neighbours dimmer than its level and queues them for
/// removal in turn, and queues its neighbours at least as bright for propagation.
pub open spec fn removed(
    m0: &ChunkManager,
    m1: &ChunkManager,
    kind: LightKind,
    r0: Seq<LightRemovalNode>,
    p0: Seq<LightNode>,
    p1: Seq<LightNode>,
    dirty0: Set<(i32, i32)>,
    dirty1: Set<(i32, i32)>,
) -> bool {
    &&& same_world(m0, m1, kind)
    &&& light_recorded(m0, m1, kind, dirty0, dirty1)
    &&& p0.is_prefix_of(p1)
    &&& r0.len() == 0 ==> m1 == m0 && dirty1 == dirty0 && p1 == p0
    &&& r0.len() > 0 ==> darkened_near(m0, m1, kind, removal_origin(r0).0, removal_origin(r0).1)
    &&& r0.len() > 0 ==> exists|k: nat|
        #[trigger] removal_leaves(
            m0.dimension.spec_height(),
            near_light_fn(m0, kind, removal_origin(r0).0, removal_origin(r0).1),
            r0,
            p0,
            k,
            near_light_fn(m1, kind, removal_origin(r0).0, removal_origin(r0).1),
            p1,
        )
}

fn propagate_kind(
    chunk_manager: &mut ChunkManager,
    kind: LightKind,
    queue: &mut VecDeque<LightNode>,
    dirty_chunks: &mut ChunkSet,
)
    requires
        old(chunk_manager).wf(),
        old(dirty_chunks).wf(),
        forall|k: int| 0 <= k < old(queue)@.len() ==> node_fits(#[trigger] old(queue)@[k], NODE_BOUND as int),
    ensures
        final(queue)@.len() == 0,
        final(dirty_chunks).wf(),
        propagated(old(chunk_manager), final(chunk_manager), kind, old(queue)@, old(dirty_chunks)@, final(dirty_chunks)@),
{
    if queue.len() == 0 {
        run_propagate(chunk_manager, 0, 0, kind, queue, dirty_chunks);
        return;
    }
    let first = queue[0];
    let (ox, oz) = origin_from_node(first.x, first.z);
    run_propagate(chunk_manager, ox, oz, kind, queue, dirty_chunks);
}

fn remove_kind(
    chunk_manager: &mut ChunkManager,
    kind: LightKind,
    removal_queue: &mut VecDeque<LightRemovalNode>,
    propagate_queue: &mut VecDeque<LightNode>,
    dirty_chunks: &mut ChunkSet,
)
    requires
        old(chunk_manager).wf(),
        old(dirty_chunks).wf(),
        forall|k: int| 0 <= k < old(removal_queue)@.len() ==> removal_fits(#[trigger] old(removal_queue)@[k], REMOVAL_NODE_BOUND as int),
        forall|k: int| 0 <= k < old(propagate_queue)@.len() ==> node_fits(#[trigger] old(propagate_queue)@[k], NODE_BOUND as int),
    ensures
        final(removal_queue)@.len() == 0,
        final(dirty_chunks).wf(),
        removed(
            old(chunk_manager),
            final(chunk_manager),
            kind,
            old(removal_queue)@,
            old(propagate_queue)@,
            final(propagate_queue)@,
            old(dirty_chunks)@,
            final(dirty_chunks)@,
        ),
        forall|k: int| 0 <= k < final(propagate_queue)@.len() ==> node_fits(#[trigger] final(propagate_queue)@[k], NODE_BOUND as int),
{
    let ghost p0 = propagate_queue@;
    if removal_queue.len() == 0 {
        run_remove(chunk_manager, 0, 0, kind, removal_queue, propagate_queue, dirty_chunks);
        return;
    }
    let ghost m0 = *chunk_manager;
    let ghost r0 = removal_queue@;
    let first = removal_queue[0];
    let (ox, oz) = origin_from_node(first.x, first.z);
    run_remove(chunk_manager, ox, oz, kind, removal_queue, propagate_queue, dirty_chunks);
    proof {
        let m1 = *chunk_manager;
        assert(removal_origin(r0) == (ox as int, oz as int));
        let k = choose|k: nat|
            removal_leaves(
                m0.dimension.spec_height(),
                near_light_fn(&m0, kind, ox as int, oz as int),
                r0,
                p0,
                k,
                near_light_fn(&m1, kind, ox as int, oz as int),
                propagate_queue@,
            );
        assert(removal_leaves(
            m0.dimension.spec_height(),
            near_light_fn(&m0, kind, removal_origin(r0).0, removal_origin(r0).1),
            r0,
            p0,
            k,
            near_light_fn(&m1, kind, removal_origin(r0).0, removal_origin(r0).1),
            propagate_queue@,
        ));
        assert forall|k: int| 0 <= k < propagate_queue@.len() implies node_fits(#[trigger] propagate_queue@[k], NODE_BOUND as int) by {
            if k < p0.len() {
                assert(propagate_queue@[k] == p0[k]);
            }
        }
    }
}

/// Spread sky light from the nodes of `queue` through the 3 by 3 columns around the first node's
/// column, until the queue is empty.
pub fn propagate_sky_light(chunk_manager: &mut ChunkManager, queue: &mut VecDeque<LightNode>, dirty_chunks: &mut ChunkSet)
    requires
        old(chunk_manager).wf(),
        old(dirty_chunks).wf(),
        forall|k: int| 0 <= k < old(queue)@.len() ==> node_fits(#[trigger] old(queue)@[k], NODE_BOUND as int),
    ensures
        final(queue)@.len() == 0,
        final(dirty_chunks).wf(),
        propagated(old(chunk_manager), final(chunk_manager), LightKind::Sky, old(queue)@, old(dirty_chunks)@, final(dirty_chunks)@),
{
    propagate_kind(chunk_manager, LightKind::Sky, queue, dirty_chunks)
}

/// Spread block light from the nodes of `queue` through the 3 by 3 columns around the first
/// node's column, until the queue is empty.
pub fn propagate_block_light(chunk_manager: &mut ChunkManager, queue: &mut VecDeque<LightNode>, dirty_chunks: &mut ChunkSet)
    requires
        old(chunk_manager).wf(),
        old(dirty_chunks).wf(),
        forall|k: int| 0 <= k < old(queue)@.len() ==> node_fits(#[trigger] old(queue)@[k], NODE_BOUND as int),
    ensures
        final(queue)@.len() == 0,
        final(dirty_chunks).wf(),
        propagated(old(chunk_manager), final(chunk_manager), LightKind::Block, old(queue)@, old(dirty_chunks)@, final(dirty_chunks)@),
{
    propagate_kind(chunk_manager, LightKind::Block, queue, dirty_chunks)
}

/// Remove the sky light that the nodes of `removal_queue` fed, queueing the brighter border in
/// `propagate_queue`.
pub fn remove_sky_light(
    chunk_manager: &mut ChunkManager,
    removal_queue: &mut VecDeque<LightRemovalNode>,
    propagate_queue: &mut VecDeque<LightNode>,
    dirty_chunks: &mut ChunkSet,
)
    requires
        old(chunk_manager).wf(),
        old(dirty_chunks).wf(),
        forall|k: int| 0 <= k < old(removal_queue)@.len() ==> removal_fits(#[trigger] old(removal_queue)@[k], REMOVAL_NODE_BOUND as int),
        forall|k: int| 0 <= k < old(propagate_queue)@.len() ==> node_fits(#[trigger] old(propagate_queue)@[k], NODE_BOUND as int),
    ensures
        final(removal_queue)@.len() == 0,
        final(dirty_chunks).wf(),
        removed(
            old(chunk_manager),
            final(chunk_manager),
            LightKind::Sky,
            old(removal_queue)@,
            old(propagate_queue)@,
            final(propagate_queue)@,
            old(dirty_chunks)@,
            final(dirty_chunks)@,
        ),
        forall|k: int| 0 <= k < final(propagate_queue)@.len() ==> node_fits(#[trigger] final(propagate_queue)@[k], NODE_BOUND as int),
{
    remove_kind(chunk_manager, LightKind::Sky, removal_queue, propagate_queue, dirty_chunks)
}

/// Remove the block light that the nodes of `removal_queue` fed, queueing the brighter border in
/// `propagate_queue`.
pub fn remove_block_light(
    chunk_manager: &mut ChunkManager,
    removal_queue: &mut VecDeque<LightRemovalNode>,
    propagate_queue: &mut VecDeque<LightNode>,
    dirty_chunks: &mut ChunkSet,
)
    requires
        old(chunk_manager).wf(),
        old(dirty_chunks).wf(),
        forall|k: int| 0 <= k < old(removal_queue)@.len() ==> removal_fits(#[trigger] old(removal_queue)@[k], REMOVAL_NODE_BOUND as int),
        forall|k: int| 0 <= k < old(propagate_queue)@.len() ==> node_fits(#[trigger] old(propagate_queue)@[k], NODE_BOUND as int),
    ensures
        final(removal_queue)@.len() == 0,
        final(dirty_chunks).wf(),
        removed(
            old(chunk_manager),
            final(chunk_manager),
            LightKind::Block,
            old(removal_queue)@,
            old(propagate_queue)@,
            final(propagate_queue)@,
            old(dirty_chunks)@,
            final(dirty_chunks)@,
        ),
        forall|k: int| 0 <= k < final(propagate_queue)@.len() ==> node_fits(#[trigger] final(propagate_queue)@[k], NODE_BOUND as int),
{
    remove_kind(chunk_manager, LightKind::Block, removal_queue, propagate_queue, dirty_chunks)
}

} // verus!
