//! Light updates after a block was placed or removed.

use vstd::prelude::*;
use crate::world::{div16, ChunkManager, LightKind};
use std::collections::VecDeque;
use super::neighborhood::{dir_dx, dir_dy, dir_dz, light_dir, queue_peak};
use super::{
    lemma_same_world_trans, propagate_block_light, propagate_sky_light, propagated, raised_below_peak, remove_block_light, remove_sky_light,
    removed, same_world,
    ChunkSet, LightNode, LightRemovalNode, REMOVAL_NODE_BOUND,
};

verus! {

/// Largest of two integers.
pub open spec fn max2(a: int, b: int) -> int {
    if a >= b { a } else { b }
}

/// Light of `kind` of the neighbour of (`x`, `y`, `z`) in direction `d`; 0 when that neighbour is
/// outside the world's height.
pub open spec fn neighbor_light(m: &ChunkManager, kind: LightKind, x: int, y: int, z: int, d: int) -> int {
    let ny = y + dir_dy(d);
    if m.dimension.spec_height().spec_contains_y(ny) {
        m.light(kind, x + dir_dx(d), ny, z + dir_dz(d))
    } else {
        0
    }
}

/// Brightest of the first `n` neighbours of (`x`, `y`, `z`), at least 0.
pub open spec fn neighbor_max_upto(m: &ChunkManager, kind: LightKind, x: int, y: int, z: int, n: int) -> int
    decreases n,
{
    if n <= 0 {
        0
    } else {
        max2(neighbor_max_upto(m, kind, x, y, z, n - 1), neighbor_light(m, kind, x, y, z, n - 1))
    }
}

/// Brightest light of `kind` among the six neighbours of (`x`, `y`, `z`) that lie inside the world.
pub open spec fn neighbor_max(m: &ChunkManager, kind: LightKind, x: int, y: int, z: int) -> int {
    neighbor_max_upto(m, kind, x, y, z, 6)
}

/// Open sky above (`x`, `y`, `z`): the world's top with daylight, or full sky light just above.
pub open spec fn sky_above(m: &ChunkManager, x: int, y: int, z: int) -> bool {
    if y + 1 >= m.dimension.spec_height().max_y_exclusive {
        m.dimension.spec_has_sky_light()
    } else {
        m.light(LightKind::Sky, x, y + 1, z) == 15
    }
}

/// `m1` is `m0` with the light of `kind` at (`x`, `y`, `z`) set to `v`, when that block can hold
/// light; nothing else changes of blocks, loaded columns or light.
pub open spec fn light_set(m0: &ChunkManager, m1: &ChunkManager, kind: LightKind, x: int, y: int, z: int, v: int) -> bool {
    &&& same_world(m0, m1, kind)
    &&& forall|x1: int, y1: int, z1: int| #[trigger] m1.light(kind, x1, y1, z1) == if x1 == x && y1 == y && z1 == z && m0.holds_light(x, y, z) {
        v
    } else {
        m0.light(kind, x1, y1, z1)
    }
}

/// What relighting the block (`x`, `y`, `z`) from its neighbours leaves: `m2` is `m0` with the
/// block's light of `kind` set to one level below its brightest neighbour (0 when that is at
/// most 1), and `m3` is what a propagation pass from the block leaves, when it was lit above 0.
pub open spec fn neighbour_relit(
    m0: &ChunkManager,
    m2: &ChunkManager,
    m3: &ChunkManager,
    kind: LightKind,
    x: i32,
    y: i32,
    z: i32,
    d0: Set<(i32, i32)>,
    d3: Set<(i32, i32)>,
) -> bool {
    let v = neighbor_max(m0, kind, x as int, y as int, z as int);
    &&& light_set(m0, m2, kind, x as int, y as int, z as int, if v > 1 { v - 1 } else { 0 })
    &&& propagated(
        m2,
        m3,
        kind,
        if v > 1 {
            seq![(LightNode { x, y, z })]
        } else {
            Seq::empty()
        },
        d0,
        d3,
    )
}

/// What cutting off the sky light at (`x`, `y`, `z`) leaves: the block, and when it had full sky
/// light also the lit blocks right below it down to `b` (the world's bottom or a block just above
/// an unlit one), lose their sky light in `m1`; `r` holds them from the top down with the levels
/// they had; `m2` is what a removal pass from `r` leaves, queueing the brighter border in `p`, and
/// `m3` what a propagation pass from `p` leaves.
pub open spec fn sky_cut_relit(
    m0: &ChunkManager,
    m1: &ChunkManager,
    m2: &ChunkManager,
    m3: &ChunkManager,
    x: i32,
    y: i32,
    z: i32,
    b: int,
    r: Seq<LightRemovalNode>,
    p: Seq<LightNode>,
    d0: Set<(i32, i32)>,
    d2: Set<(i32, i32)>,
    d3: Set<(i32, i32)>,
) -> bool {
    let v = m0.light(LightKind::Sky, x as int, y as int, z as int);
    let min_y = m0.dimension.spec_height().min_y;
    &&& v > 0
    &&& if v == 15 {
        min_y <= b <= y
    } else {
        b == y
    }
    &&& forall|y1: int| b <= y1 < y ==> #[trigger] m0.light(LightKind::Sky, x as int, y1, z as int) != 0
    &&& v == 15 && b > min_y ==> m0.light(LightKind::Sky, x as int, b - 1, z as int) == 0
    &&& r.len() == y + 1 - b
    &&& forall|k: int| 0 <= k < r.len() ==> #[trigger] r[k] == (LightRemovalNode {
        x,
        y: (y - k) as i32,
        z,
        val: m0.light(LightKind::Sky, x as int, y - k, z as int) as u8,
    })
    &&& same_world(m0, m1, LightKind::Sky)
    &&& forall|x1: int, y1: int, z1: int| #[trigger] m1.light(LightKind::Sky, x1, y1, z1) == if x1 == x && z1 == z && b <= y1 <= y
        && m0.holds_light(x1, y1, z1) {
        0
    } else {
        m0.light(LightKind::Sky, x1, y1, z1)
    }
    &&& removed(m1, m2, LightKind::Sky, r, Seq::empty(), p, d0, d2)
    &&& propagated(m2, m3, LightKind::Sky, p, d2, d3)
}

/// What opening the column (`x`, `z`) to the sky from (`x`, `y`, `z`) down leaves: the blocks from
/// `y` down to `b` are not opaque, and `b` is the world's bottom or lies just above an opaque
/// block; `m2` is `m0` with full sky light in those blocks, `q` holds them from the top down,
/// and `m3` is what a propagation pass of sky light from `q` leaves.
pub open spec fn sky_column_relit(
    m0: &ChunkManager,
    m2: &ChunkManager,
    m3: &ChunkManager,
    x: i32,
    y: i32,
    z: i32,
    b: int,
    q: Seq<LightNode>,
    d2: Set<(i32, i32)>,
    d3: Set<(i32, i32)>,
) -> bool {
    let min_y = m0.dimension.spec_height().min_y;
    &&& min_y <= b <= y + 1
    &&& forall|y1: int| b <= y1 <= y ==> !(#[trigger] m0.block(x as int, y1, z as int)).spec_is_opaque()
    &&& b > min_y ==> m0.block(x as int, b - 1, z as int).spec_is_opaque()
    &&& q.len() == y + 1 - b
    &&& forall|k: int| 0 <= k < q.len() ==> #[trigger] q[k] == (LightNode { x, y: (y - k) as i32, z })
    &&& same_world(m0, m2, LightKind::Sky)
    &&& forall|x1: int, y1: int, z1: int| #[trigger] m2.light(LightKind::Sky, x1, y1, z1) == if x1 == x && z1 == z && b <= y1 <= y
        && m0.holds_light(x1, y1, z1) {
        15
    } else {
        m0.light(LightKind::Sky, x1, y1, z1)
    }
    &&& propagated(m2, m3, LightKind::Sky, q, d2, d3)
}

/// What removing the light an emitter of level `e` at (`x`, `y`, `z`) fed leaves: `m1` is `m0`
/// with the block's block light at 0, `m2` what a removal pass from the block at level `e` leaves
/// (queueing the brighter border in `p`), and `m3` what a propagation pass from `p` leaves.
pub open spec fn emitter_relit(
    m0: &ChunkManager,
    m1: &ChunkManager,
    m2: &ChunkManager,
    m3: &ChunkManager,
    x: i32,
    y: i32,
    z: i32,
    e: u8,
    p: Seq<LightNode>,
    d0: Set<(i32, i32)>,
    d2: Set<(i32, i32)>,
    d3: Set<(i32, i32)>,
) -> bool {
    &&& light_set(m0, m1, LightKind::Block, x as int, y as int, z as int, 0)
    &&& removed(m1, m2, LightKind::Block, seq![(LightRemovalNode { x, y, z, val: e })], Seq::empty(), p, d0, d2)
    &&& propagated(m2, m3, LightKind::Block, p, d2, d3)
}

/// Coordinates within reach of the lighting passes.
pub open spec fn block_fits(x: int, y: int, z: int) -> bool {
    -REMOVAL_NODE_BOUND <= x <= REMOVAL_NODE_BOUND && -REMOVAL_NODE_BOUND <= y <= REMOVAL_NODE_BOUND && -REMOVAL_NODE_BOUND <= z
        <= REMOVAL_NODE_BOUND
}

/// Brightest light of `kind` among the six neighbours of (`wx`, `wy`, `wz`) inside the world.
fn brightest_neighbor(m: &ChunkManager, kind: LightKind, wx: i32, wy: i32, wz: i32) -> (r: u8)
    requires
        m.wf(),
        block_fits(wx as int, wy as int, wz as int),
    ensures
        r == neighbor_max(m, kind, wx as int, wy as int, wz as int),
        r <= 15,
{
    let height = m.dimension.height();
    let mut max_neighbor: u8 = 0;
    let mut d: usize = 0;
    while d < 6
        invariant
            d <= 6,
            m.wf(),
            height == m.dimension.spec_height(),
            block_fits(wx as int, wy as int, wz as int),
            max_neighbor == neighbor_max_upto(m, kind, wx as int, wy as int, wz as int, d as int),
            max_neighbor <= 15,
        decreases 6 - d,
    {
        let (dx, dy, dz) = light_dir(d);
        let ny = wy + dy;
        if height.contains_y(ny) {
            let val = m.get_light(kind, wx + dx, ny, wz + dz);
            if val > max_neighbor {
                max_neighbor = val;
            }
        }
        d += 1;
    }
    max_neighbor
}

/// Update sky light after a block was placed at (`wx`, `wy`, `wz`). A non-opaque block spreads the
/// light it holds; an opaque one loses its sky light, and when that was full sky, so does the
/// column below it down to the first dark block; the light they fed is removed and the gap
/// refilled from its brighter border.
pub fn update_sky_light_after_placed(chunk_manager: &mut ChunkManager, wx: i32, wy: i32, wz: i32, dirty_chunks: &mut ChunkSet)
    requires
        old(chunk_manager).wf(),
        old(dirty_chunks).wf(),
        block_fits(wx as int, wy as int, wz as int),
    ensures
        final(dirty_chunks).wf(),
        same_world(old(chunk_manager), final(chunk_manager), LightKind::Sky),
        old(dirty_chunks)@.subset_of(final(dirty_chunks)@),
        old(chunk_manager).block(wx as int, wy as int, wz as int).spec_is_opaque() ==> final(chunk_manager).light(
            LightKind::Sky,
            wx as int,
            wy as int,
            wz as int,
        ) == 0,
        !old(chunk_manager).block(wx as int, wy as int, wz as int).spec_is_opaque() ==> propagated(
            old(chunk_manager),
            final(chunk_manager),
            LightKind::Sky,
            seq![(LightNode { x: wx, y: wy, z: wz })],
            old(dirty_chunks)@,
            final(dirty_chunks)@,
        ),
        old(chunk_manager).block(wx as int, wy as int, wz as int).spec_is_opaque() && old(chunk_manager).light(
            LightKind::Sky,
            wx as int,
            wy as int,
            wz as int,
        ) > 0 ==> exists|m1: ChunkManager, m2: ChunkManager, b: int, r: Seq<LightRemovalNode>, p: Seq<LightNode>, d2: Set<(i32, i32)>|
            #[trigger] sky_cut_relit(
                old(chunk_manager),
                &m1,
                &m2,
                final(chunk_manager),
                wx,
                wy,
                wz,
                b,
                r,
                p,
                old(dirty_chunks)@,
                d2,
                final(dirty_chunks)@,
            ),
        old(chunk_manager).block(wx as int, wy as int, wz as int).spec_is_opaque() && old(chunk_manager).light(
            LightKind::Sky,
            wx as int,
            wy as int,
            wz as int,
        ) == 0 ==> *final(chunk_manager) == *old(chunk_manager) && final(dirty_chunks)@ == old(dirty_chunks)@,
{
    let mut removal_queue: VecDeque<LightRemovalNode> = VecDeque::new();
    let mut propagate_queue: VecDeque<LightNode> = VecDeque::new();
    let ghost m0 = *chunk_manager;
    let ghost d0 = dirty_chunks@;

    let block = chunk_manager.get_block(wx, wy, wz);
    if !block.is_opaque() {
        propagate_queue.push_back(LightNode { x: wx, y: wy, z: wz });
        assert(propagate_queue@ =~= seq![(LightNode { x: wx, y: wy, z: wz })]);
        propagate_sky_light(chunk_manager, &mut propagate_queue, dirty_chunks);
        return;
    }
    let old_val = chunk_manager.get_sky_light(wx, wy, wz);
    if old_val > 0 {
        chunk_manager.set_sky_light(wx, wy, wz, 0);
        removal_queue.push_back(LightRemovalNode { x: wx, y: wy, z: wz, val: old_val });
        if old_val == 15 {
            let height = chunk_manager.dimension.height();
            let min_y = height.min_y();
            let mut y = wy;
            let mut go = true;
            while go && y > min_y
                invariant
                    chunk_manager.wf(),
                    min_y == m0.dimension.spec_height().min_y,
                    min_y <= y <= wy || y == wy,
                    -4096 <= min_y,
                    block_fits(wx as int, wy as int, wz as int),
                    same_world(&m0, chunk_manager, LightKind::Sky),
                    chunk_manager.light(LightKind::Sky, wx as int, wy as int, wz as int) == 0,
                    chunk_manager.light_changes@ == m0.light_changes@,
                    forall|k: int| 0 <= k < removal_queue@.len() ==> super::neighborhood::removal_fits(
                        #[trigger] removal_queue@[k],
                        REMOVAL_NODE_BOUND as int,
                    ),
                    removal_queue@.len() > 0,
                    removal_queue@[0] == (LightRemovalNode { x: wx, y: wy, z: wz, val: old_val }),
                    old_val == 15,
                    old_val == m0.light(LightKind::Sky, wx as int, wy as int, wz as int),
                    removal_queue@.len() == wy + 1 - y,
                    forall|k: int| 0 <= k < removal_queue@.len() ==> #[trigger] removal_queue@[k] == (LightRemovalNode {
                        x: wx,
                        y: (wy - k) as i32,
                        z: wz,
                        val: m0.light(LightKind::Sky, wx as int, wy - k, wz as int) as u8,
                    }),
                    forall|y1: int| y <= y1 < wy ==> #[trigger] m0.light(LightKind::Sky, wx as int, y1, wz as int) != 0,
                    !go ==> y > min_y && m0.light(LightKind::Sky, wx as int, y - 1, wz as int) == 0,
                    forall|x1: int, y1: int, z1: int| #[trigger] chunk_manager.light(LightKind::Sky, x1, y1, z1) == if x1 == wx && z1 == wz && y
                        <= y1 <= wy && m0.holds_light(x1, y1, z1) {
                        0
                    } else {
                        m0.light(LightKind::Sky, x1, y1, z1)
                    },
                decreases (y - min_y) * 2 + if go { 1int } else { 0int },
            {
                let ny = y - 1;
                let val = chunk_manager.get_sky_light(wx, ny, wz);
                if val == 0 {
                    go = false;
                } else {
                    let ghost m1 = *chunk_manager;
                    chunk_manager.set_sky_light(wx, ny, wz, 0);
                    let ghost q1 = removal_queue@;
                    removal_queue.push_back(LightRemovalNode { x: wx, y: ny, z: wz, val });
                    proof {
                        lemma_same_world_trans(&m0, &m1, chunk_manager, LightKind::Sky);
                        assert forall|k: int| 0 <= k < removal_queue@.len() implies super::neighborhood::removal_fits(
                            #[trigger] removal_queue@[k],
                            REMOVAL_NODE_BOUND as int,
                        ) by {
                            if k < q1.len() {
                                assert(removal_queue@[k] == q1[k]);
                            }
                        }
                        assert(removal_queue@[0] == q1[0]);
                        assert forall|k: int| 0 <= k < removal_queue@.len() implies #[trigger] removal_queue@[k] == (LightRemovalNode {
                            x: wx,
                            y: (wy - k) as i32,
                            z: wz,
                            val: m0.light(LightKind::Sky, wx as int, wy - k, wz as int) as u8,
                        }) by {
                            if k < q1.len() {
                                assert(removal_queue@[k] == q1[k]);
                            }
                        }
                        assert(m1.holds_light(wx as int, ny as int, wz as int) == m0.holds_light(wx as int, ny as int, wz as int));
                    }
                    y = ny;
                }
            }
        }
        let ghost m2 = *chunk_manager;
        let ghost d2 = dirty_chunks@;
        let ghost r = removal_queue@;
        proof {
            assert(propagate_queue@ =~= Seq::<LightNode>::empty());
        }
        remove_sky_light(chunk_manager, &mut removal_queue, &mut propagate_queue, dirty_chunks);
        let ghost m3 = *chunk_manager;
        let ghost p = propagate_queue@;
        let ghost d3 = dirty_chunks@;
        proof {
            lemma_same_world_trans(&m0, &m2, &m3, LightKind::Sky);
            assert(m3.light(LightKind::Sky, wx as int, wy as int, wz as int) == 0);
        }
        propagate_sky_light(chunk_manager, &mut propagate_queue, dirty_chunks);
        proof {
            let b = wy + 1 - r.len();
            assert(sky_cut_relit(&m0, &m2, &m3, chunk_manager, wx, wy, wz, b, r, p, d2, d3, dirty_chunks@));
        }
        proof {
            lemma_same_world_trans(&m0, &m3, chunk_manager, LightKind::Sky);
            assert(chunk_manager.light(LightKind::Sky, wx as int, wy as int, wz as int) == 0) by {
                assert(m3.block(wx as int, wy as int, wz as int) == m0.block(wx as int, wy as int, wz as int));
            }
        }
    }
}

/// Update sky light after the block at (`wx`, `wy`, `wz`) was removed. Under open sky the column
/// from there down to the first opaque block gets full sky light; otherwise the block takes one
/// level less than its brightest neighbour. The new light then spreads.
pub fn update_sky_light_after_removed(chunk_manager: &mut ChunkManager, wx: i32, wy: i32, wz: i32, dirty_chunks: &mut ChunkSet)
    requires
        old(chunk_manager).wf(),
        old(dirty_chunks).wf(),
        block_fits(wx as int, wy as int, wz as int),
    ensures
        final(dirty_chunks).wf(),
        same_world(old(chunk_manager), final(chunk_manager), LightKind::Sky),
        old(dirty_chunks)@.subset_of(final(dirty_chunks)@),
        sky_above(old(chunk_manager), wx as int, wy as int, wz as int) ==> forall|y: int|
            old(chunk_manager).dimension.spec_height().min_y <= y <= wy && old(chunk_manager).column(wx as int, wz as int) is Some && (
            forall|y2: int| y <= y2 <= wy ==> !(#[trigger] old(chunk_manager).block(wx as int, y2, wz as int)).spec_is_opaque())
                ==> #[trigger] final(chunk_manager).light(LightKind::Sky, wx as int, y, wz as int) == 15,
        !sky_above(old(chunk_manager), wx as int, wy as int, wz as int) && old(chunk_manager).holds_light(wx as int, wy as int, wz as int)
            ==> final(chunk_manager).light(LightKind::Sky, wx as int, wy as int, wz as int) >= neighbor_max(
            old(chunk_manager),
            LightKind::Sky,
            wx as int,
            wy as int,
            wz as int,
        ) - 1,
        !sky_above(old(chunk_manager), wx as int, wy as int, wz as int) && old(chunk_manager).holds_light(wx as int, wy as int, wz as int)
            && neighbor_max(old(chunk_manager), LightKind::Sky, wx as int, wy as int, wz as int) <= 1 ==> final(chunk_manager).light(
            LightKind::Sky,
            wx as int,
            wy as int,
            wz as int,
        ) == 0,
        sky_above(old(chunk_manager), wx as int, wy as int, wz as int) ==> exists|m2: ChunkManager, b: int, q: Seq<LightNode>, d2: Set<(i32, i32)>|
            #[trigger] sky_column_relit(old(chunk_manager), &m2, final(chunk_manager), wx, wy, wz, b, q, d2, final(dirty_chunks)@),
        !sky_above(old(chunk_manager), wx as int, wy as int, wz as int) ==> exists|m2: ChunkManager|
            #[trigger] neighbour_relit(
                old(chunk_manager),
                &m2,
                final(chunk_manager),
                LightKind::Sky,
                wx,
                wy,
                wz,
                old(dirty_chunks)@,
                final(dirty_chunks)@,
            ),
{
    let ghost m0 = *chunk_manager;
    let mut propagate_queue: VecDeque<LightNode> = VecDeque::new();
    let height = chunk_manager.dimension.height();
    let above_sky = if wy + 1 >= height.max_y_exclusive() {
        chunk_manager.dimension.has_sky_light()
    } else {
        chunk_manager.get_sky_light(wx, wy + 1, wz) == 15
    };
    if above_sky {
        let min_y = height.min_y();
        let mut y = wy;
        let mut go = true;
        while go && y >= min_y
            invariant
                chunk_manager.wf(),
                dirty_chunks.wf(),
                m0.dimension.spec_height() == height,
                min_y == height.min_y,
                -4096 <= min_y,
                min_y - 1 <= y <= wy,
                block_fits(wx as int, wy as int, wz as int),
                same_world(&m0, chunk_manager, LightKind::Sky),
                old(dirty_chunks)@.subset_of(dirty_chunks@),
                forall|k: int| 0 <= k < propagate_queue@.len() ==> super::neighborhood::node_fits(
                    #[trigger] propagate_queue@[k],
                    super::NODE_BOUND as int,
                ),
                forall|y1: int| y < y1 <= wy && min_y <= y1 && m0.column(wx as int, wz as int) is Some ==> #[trigger] chunk_manager.light(
                    LightKind::Sky,
                    wx as int,
                    y1,
                    wz as int,
                ) == 15,
                !go ==> min_y <= y && m0.block(wx as int, y as int, wz as int).spec_is_opaque(),
                wy + 1 >= height.max_y_exclusive ==> m0.dimension.spec_has_sky_light(),
                propagate_queue@.len() == wy - y,
                forall|k: int| 0 <= k < propagate_queue@.len() ==> #[trigger] propagate_queue@[k] == (LightNode { x: wx, y: (wy - k) as i32, z: wz }),
                forall|y1: int| y < y1 <= wy ==> !(#[trigger] m0.block(wx as int, y1, wz as int)).spec_is_opaque(),
                forall|x1: int, y1: int, z1: int| #[trigger] chunk_manager.light(LightKind::Sky, x1, y1, z1) == if x1 == wx && z1 == wz && y < y1
                    <= wy && m0.holds_light(x1, y1, z1) {
                    15
                } else {
                    m0.light(LightKind::Sky, x1, y1, z1)
                },
            decreases (y - min_y + 1) * 2 + if go { 1int } else { 0int },
        {
            let block = chunk_manager.get_block(wx, y, wz);
            if block.is_opaque() {
                go = false;
            } else {
                let ghost m1 = *chunk_manager;
                chunk_manager.set_sky_light(wx, y, wz, 15);
                let cx = div16(wx);
                let cz = div16(wz);
                dirty_chunks.insert((cx, cz));
                let ghost q1 = propagate_queue@;
                propagate_queue.push_back(LightNode { x: wx, y, z: wz });
                proof {
                    lemma_same_world_trans(&m0, &m1, chunk_manager, LightKind::Sky);
                    assert forall|k: int| 0 <= k < propagate_queue@.len() implies super::neighborhood::node_fits(
                        #[trigger] propagate_queue@[k],
                        super::NODE_BOUND as int,
                    ) by {
                        if k < q1.len() {
                            assert(propagate_queue@[k] == q1[k]);
                        }
                    }
                    assert forall|k: int| 0 <= k < propagate_queue@.len() implies #[trigger] propagate_queue@[k] == (LightNode {
                        x: wx,
                        y: (wy - k) as i32,
                        z: wz,
                    }) by {
                        if k < q1.len() {
                            assert(propagate_queue@[k] == q1[k]);
                        }
                    }
                    assert(m1.holds_light(wx as int, y as int, wz as int) == m0.holds_light(wx as int, y as int, wz as int));
                    assert forall|y1: int| y - 1 < y1 <= wy && min_y <= y1 && m0.column(wx as int, wz as int) is Some implies #[trigger] chunk_manager.light(
                        LightKind::Sky,
                        wx as int,
                        y1,
                        wz as int,
                    ) == 15 by {
                        if y1 > y {
                            assert(m1.light(LightKind::Sky, wx as int, y1, wz as int) == 15);
                        } else {
                            assert(m1.column(wx as int, wz as int) is Some);
                            if !height.spec_contains_y(y1) {
                                assert(y1 >= height.max_y_exclusive);
                            }
                        }
                    }
                }
                y = y - 1;
            }
        }
        let ghost m2 = *chunk_manager;
        let ghost q = propagate_queue@;
        let ghost d2 = dirty_chunks@;
        propagate_sky_light(chunk_manager, &mut propagate_queue, dirty_chunks);
        proof {
            assert(sky_column_relit(&m0, &m2, chunk_manager, wx, wy, wz, y + 1, q, d2, dirty_chunks@));
            lemma_same_world_trans(&m0, &m2, chunk_manager, LightKind::Sky);
            assert forall|y1: int| m0.dimension.spec_height().min_y <= y1 <= wy && m0.column(wx as int, wz as int) is Some && (forall|y2: int|
                y1 <= y2 <= wy ==> !(#[trigger] m0.block(wx as int, y2, wz as int)).spec_is_opaque()) implies #[trigger] chunk_manager.light(
                LightKind::Sky,
                wx as int,
                y1,
                wz as int,
            ) == 15 by {
                if !go && y1 <= y {
                    assert(!m0.block(wx as int, y as int, wz as int).spec_is_opaque());
                }
                assert(m2.light(LightKind::Sky, wx as int, y1, wz as int) == 15);
                chunk_manager.lemma_light_le_15(LightKind::Sky, wx as int, y1, wz as int);
            }
        }
    } else {
        chunk_manager.set_sky_light(wx, wy, wz, 0);
        let ghost m1 = *chunk_manager;
        let max_neighbor = brightest_neighbor(chunk_manager, LightKind::Sky, wx, wy, wz);
        proof {
            lemma_neighbor_max_same(&m0, &m1, LightKind::Sky, wx as int, wy as int, wz as int, 6);
        }
        if max_neighbor > 1 {
            chunk_manager.set_sky_light(wx, wy, wz, max_neighbor - 1);
            propagate_queue.push_back(LightNode { x: wx, y: wy, z: wz });
        }
        let ghost m2 = *chunk_manager;
        let ghost d2 = dirty_chunks@;
        proof {
            lemma_same_world_trans(&m0, &m1, &m2, LightKind::Sky);
            if max_neighbor > 1 {
                assert(propagate_queue@ =~= seq![(LightNode { x: wx, y: wy, z: wz })]);
            } else {
                assert(propagate_queue@ =~= Seq::<LightNode>::empty());
            }
        }
        propagate_sky_light(chunk_manager, &mut propagate_queue, dirty_chunks);
        proof {
            assert(neighbour_relit(&m0, &m2, chunk_manager, LightKind::Sky, wx, wy, wz, d2, dirty_chunks@));
            lemma_same_world_trans(&m0, &m2, chunk_manager, LightKind::Sky);
            assert(chunk_manager.light(LightKind::Sky, wx as int, wy as int, wz as int) >= m2.light(LightKind::Sky, wx as int, wy as int, wz as int));
        }
    }
}

/// Neighbour maxima only read the six neighbours, which a write at the centre leaves alone.
pub proof fn lemma_neighbor_max_same(m0: &ChunkManager, m1: &ChunkManager, kind: LightKind, x: int, y: int, z: int, n: int)
    requires
        m1.dimension == m0.dimension,
        forall|x1: int, y1: int, z1: int| !(x1 == x && y1 == y && z1 == z) ==> #[trigger] m1.light(kind, x1, y1, z1) == m0.light(
            kind,
            x1,
            y1,
            z1,
        ),
        n <= 6,
    ensures
        neighbor_max_upto(m1, kind, x, y, z, n) == neighbor_max_upto(m0, kind, x, y, z, n),
    decreases n,
{
    if n > 0 {
        lemma_neighbor_max_same(m0, m1, kind, x, y, z, n - 1);
        assert(neighbor_light(m1, kind, x, y, z, n - 1) == neighbor_light(m0, kind, x, y, z, n - 1));
    }
}

/// Update block light after a block emitting `emission` was placed at (`wx`, `wy`, `wz`). An
/// emitter lights its block and spreads; a dark opaque block loses its block light, and the light
/// it passed on is removed and refilled from the brighter border.
pub fn update_block_light_after_placed(
    chunk_manager: &mut ChunkManager,
    wx: i32,
    wy: i32,
    wz: i32,
    emission: u8,
    dirty_chunks: &mut ChunkSet,
)
    requires
        old(chunk_manager).wf(),
        old(dirty_chunks).wf(),
        block_fits(wx as int, wy as int, wz as int),
    ensures
        final(dirty_chunks).wf(),
        same_world(old(chunk_manager), final(chunk_manager), LightKind::Block),
        old(dirty_chunks)@.subset_of(final(dirty_chunks)@),
        emission > 0 && old(chunk_manager).holds_light(wx as int, wy as int, wz as int) ==> final(chunk_manager).light(
            LightKind::Block,
            wx as int,
            wy as int,
            wz as int,
        ) == emission % 16,
        emission > 0 ==> forall|x: int, y: int, z: int| !(x == wx && y == wy && z == wz) ==> #[trigger] final(chunk_manager).light(
            LightKind::Block,
            x,
            y,
            z,
        ) >= old(chunk_manager).light(LightKind::Block, x, y, z),
        emission == 0 && old(chunk_manager).block(wx as int, wy as int, wz as int).spec_is_opaque() ==> final(chunk_manager).light(
            LightKind::Block,
            wx as int,
            wy as int,
            wz as int,
        ) == 0,
        emission == 0 && !old(chunk_manager).block(wx as int, wy as int, wz as int).spec_is_opaque() ==> *final(chunk_manager)
            == *old(chunk_manager) && final(dirty_chunks)@ == old(dirty_chunks)@,
        emission == 0 && old(chunk_manager).block(wx as int, wy as int, wz as int).spec_is_opaque() && old(chunk_manager).light(
            LightKind::Block,
            wx as int,
            wy as int,
            wz as int,
        ) > 0 ==> exists|m1: ChunkManager, m2: ChunkManager, p: Seq<LightNode>, d2: Set<(i32, i32)>|
            #[trigger] emitter_relit(
                old(chunk_manager),
                &m1,
                &m2,
                final(chunk_manager),
                wx,
                wy,
                wz,
                old(chunk_manager).light(LightKind::Block, wx as int, wy as int, wz as int) as u8,
                p,
                old(dirty_chunks)@,
                d2,
                final(dirty_chunks)@,
            ),
        emission == 0 && old(chunk_manager).light(LightKind::Block, wx as int, wy as int, wz as int) == 0 ==> *final(chunk_manager)
            == *old(chunk_manager) && final(dirty_chunks)@ == old(dirty_chunks)@,
{
    let ghost m0 = *chunk_manager;
    let mut propagate_queue: VecDeque<LightNode> = VecDeque::new();
    if emission > 0 {
        chunk_manager.set_block_light(wx, wy, wz, emission);
        propagate_queue.push_back(LightNode { x: wx, y: wy, z: wz });
        let ghost m1 = *chunk_manager;
        let ghost q0 = propagate_queue@;
        propagate_block_light(chunk_manager, &mut propagate_queue, dirty_chunks);
        proof {
            lemma_same_world_trans(&m0, &m1, chunk_manager, LightKind::Block);
            let (x0, y0, z0) = (wx as int, wy as int, wz as int);
            assert(chunk_manager.light(LightKind::Block, x0, y0, z0) >= m1.light(LightKind::Block, x0, y0, z0));
            let ml = |x: int, y: int, z: int| m1.light(LightKind::Block, x, y, z);
            assert(q0.drop_last() =~= Seq::<LightNode>::empty());
            assert(queue_peak(ml, q0.drop_last()) == 0);
            assert(m1.light(LightKind::Block, x0, y0, z0) >= 0);
            assert(queue_peak(ml, q0) == m1.light(LightKind::Block, x0, y0, z0));
            reveal(raised_below_peak);
            assert(chunk_manager.light(LightKind::Block, x0, y0, z0) == m1.light(LightKind::Block, x0, y0, z0));
            assert forall|x: int, y: int, z: int| !(x == wx && y == wy && z == wz) implies #[trigger] chunk_manager.light(
                LightKind::Block,
                x,
                y,
                z,
            ) >= m0.light(LightKind::Block, x, y, z) by {
                assert(chunk_manager.light(LightKind::Block, x, y, z) >= m1.light(LightKind::Block, x, y, z));
            }
        }
    } else {
        let block = chunk_manager.get_block(wx, wy, wz);
        if block.is_opaque() {
            let old_val = chunk_manager.get_block_light(wx, wy, wz);
            if old_val > 0 {
                chunk_manager.set_block_light(wx, wy, wz, 0);
                let mut removal_queue: VecDeque<LightRemovalNode> = VecDeque::new();
                removal_queue.push_back(LightRemovalNode { x: wx, y: wy, z: wz, val: old_val });
                let ghost m1 = *chunk_manager;
                let ghost d0 = dirty_chunks@;
                proof {
                    lemma_same_world_trans(&m0, &m0, &m1, LightKind::Block);
                    assert(removal_queue@ =~= seq![(LightRemovalNode { x: wx, y: wy, z: wz, val: old_val })]);
                    assert(propagate_queue@ =~= Seq::<LightNode>::empty());
                }
                remove_block_light(chunk_manager, &mut removal_queue, &mut propagate_queue, dirty_chunks);
                let ghost m2 = *chunk_manager;
                let ghost p = propagate_queue@;
                let ghost d2 = dirty_chunks@;
                propagate_block_light(chunk_manager, &mut propagate_queue, dirty_chunks);
                proof {
                    lemma_same_world_trans(&m0, &m1, &m2, LightKind::Block);
                    lemma_same_world_trans(&m0, &m2, chunk_manager, LightKind::Block);
                    assert(old_val == m0.light(LightKind::Block, wx as int, wy as int, wz as int) as u8);
                    assert(emitter_relit(&m0, &m1, &m2, chunk_manager, wx, wy, wz, old_val, p, d0, d2, dirty_chunks@));
                    assert(m2.light(LightKind::Block, wx as int, wy as int, wz as int) == 0);
                    assert(m2.block(wx as int, wy as int, wz as int) == m0.block(wx as int, wy as int, wz as int));
                }
            }
        }
    }
}

/// Update block light after the block at (`wx`, `wy`, `wz`), which emitted `old_emission`, was
/// removed. An emitter's light is removed and refilled from the brighter border; otherwise the
/// block takes one level less than its brightest neighbour, and that spreads.
pub fn update_block_light_after_removed(
    chunk_manager: &mut ChunkManager,
    wx: i32,
    wy: i32,
    wz: i32,
    old_emission: u8,
    dirty_chunks: &mut ChunkSet,
)
    requires
        old(chunk_manager).wf(),
        old(dirty_chunks).wf(),
        block_fits(wx as int, wy as int, wz as int),
    ensures
        final(dirty_chunks).wf(),
        same_world(old(chunk_manager), final(chunk_manager), LightKind::Block),
        old(dirty_chunks)@.subset_of(final(dirty_chunks)@),
        old_emission == 0 && old(chunk_manager).holds_light(wx as int, wy as int, wz as int) ==> final(chunk_manager).light(
            LightKind::Block,
            wx as int,
            wy as int,
            wz as int,
        ) >= neighbor_max(old(chunk_manager), LightKind::Block, wx as int, wy as int, wz as int) - 1,
        old_emission == 0 && old(chunk_manager).holds_light(wx as int, wy as int, wz as int) && neighbor_max(
            old(chunk_manager),
            LightKind::Block,
            wx as int,
            wy as int,
            wz as int,
        ) <= 1 ==> final(chunk_manager).light(LightKind::Block, wx as int, wy as int, wz as int) == 0,
        old_emission > 0 ==> exists|m1: ChunkManager, m2: ChunkManager, p: Seq<LightNode>, d2: Set<(i32, i32)>|
            #[trigger] emitter_relit(
                old(chunk_manager),
                &m1,
                &m2,
                final(chunk_manager),
                wx,
                wy,
                wz,
                old_emission,
                p,
                old(dirty_chunks)@,
                d2,
                final(dirty_chunks)@,
            ),
        old_emission == 0 ==> exists|m2: ChunkManager|
            #[trigger] neighbour_relit(
                old(chunk_manager),
                &m2,
                final(chunk_manager),
                LightKind::Block,
                wx,
                wy,
                wz,
                old(dirty_chunks)@,
                final(dirty_chunks)@,
            ),
{
    let ghost m0 = *chunk_manager;
    let ghost d0 = dirty_chunks@;
    let mut propagate_queue: VecDeque<LightNode> = VecDeque::new();
    if old_emission > 0 {
        chunk_manager.set_block_light(wx, wy, wz, 0);
        let mut removal_queue: VecDeque<LightRemovalNode> = VecDeque::new();
        removal_queue.push_back(LightRemovalNode { x: wx, y: wy, z: wz, val: old_emission });
        let ghost m1 = *chunk_manager;
        proof {
            lemma_same_world_trans(&m0, &m0, &m1, LightKind::Block);
            assert(removal_queue@ =~= seq![(LightRemovalNode { x: wx, y: wy, z: wz, val: old_emission })]);
            assert(propagate_queue@ =~= Seq::<LightNode>::empty());
        }
        remove_block_light(chunk_manager, &mut removal_queue, &mut propagate_queue, dirty_chunks);
        let ghost m2 = *chunk_manager;
        let ghost p = propagate_queue@;
        let ghost d2 = dirty_chunks@;
        propagate_block_light(chunk_manager, &mut propagate_queue, dirty_chunks);
        proof {
            lemma_same_world_trans(&m0, &m1, &m2, LightKind::Block);
            lemma_same_world_trans(&m0, &m2, chunk_manager, LightKind::Block);
            assert(emitter_relit(&m0, &m1, &m2, chunk_manager, wx, wy, wz, old_emission, p, d0, d2, dirty_chunks@));
        }
    } else {
        chunk_manager.set_block_light(wx, wy, wz, 0);
        let ghost m1 = *chunk_manager;
        let max_neighbor = brightest_neighbor(chunk_manager, LightKind::Block, wx, wy, wz);
        proof {
            lemma_neighbor_max_same(&m0, &m1, LightKind::Block, wx as int, wy as int, wz as int, 6);
        }
        if max_neighbor > 1 {
            chunk_manager.set_block_light(wx, wy, wz, max_neighbor - 1);
            propagate_queue.push_back(LightNode { x: wx, y: wy, z: wz });
        }
        let ghost m2 = *chunk_manager;
        proof {
            lemma_same_world_trans(&m0, &m1, &m2, LightKind::Block);
            if max_neighbor > 1 {
                assert(propagate_queue@ =~= seq![(LightNode { x: wx, y: wy, z: wz })]);
            } else {
                assert(propagate_queue@ =~= Seq::<LightNode>::empty());
            }
        }
        propagate_block_light(chunk_manager, &mut propagate_queue, dirty_chunks);
        proof {
            assert(neighbour_relit(&m0, &m2, chunk_manager, LightKind::Block, wx, wy, wz, d0, dirty_chunks@));
        }
        proof {
            lemma_same_world_trans(&m0, &m2, chunk_manager, LightKind::Block);
            assert(chunk_manager.light(LightKind::Block, wx as int, wy as int, wz as int) >= m2.light(
                LightKind::Block,
                wx as int,
                wy as int,
                wz as int,
            ));
        }
    }
}

} // verus!
