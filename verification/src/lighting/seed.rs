//! Seeding light propagation for a newly loaded column: its lit blocks and faces, and the faces
//! of its neighbours that touch it.

use vstd::prelude::*;
use crate::world::LightKind;
use std::collections::VecDeque;
use super::neighborhood::{
    dir_dx, dir_dy, dir_dz, in_queue, lemma_frame_cells, lemma_settled_kept, lemma_settled_other, light_dir, node_fits, propagate,
    LightNeighborhood, PROP_BOUND,
};
use super::{dirty_keys, ChunkSet, LightNode};
use crate::world::{other_kind, ChunkManager};
use super::neighborhood::{key_slot, near, nbhd_key, restore, take};
use super::{
    brightened_near, dir_ok_near, lemma_far_unchanged, lemma_view_through, light_one_below, light_recorded, open_near, raised_fed, settled_near,
};

verus! {

/// Block (`x`, `y`, `z`) is settled for both kinds of light in `nb`, or waits in the queue of
/// that kind.
pub open spec fn covered(nb: &LightNeighborhood, sq: Seq<LightNode>, bq: Seq<LightNode>, x: int, y: int, z: int) -> bool {
    &&& in_queue(sq, x, y, z) || nb.settled(LightKind::Sky, x, y, z)
    &&& in_queue(bq, x, y, z) || nb.settled(LightKind::Block, x, y, z)
}

/// Block (`x`, `y`, `z`) lies in a written section of a loaded column of `nb`.
pub open spec fn written(nb: &LightNeighborhood, x: int, y: int, z: int) -> bool {
    &&& nb.height.spec_contains_y(y)
    &&& nb.col(x, z) matches Some(c) && c.section_at(y)
}

/// Block column (`x`, `z`) lies in column (`cx`, `cz`) with local coordinates inside the box.
pub open spec fn in_box(cx: int, cz: int, xlo: int, xhi: int, zlo: int, zhi: int, x: int, z: int) -> bool {
    x / 16 == cx && z / 16 == cz && xlo <= x % 16 <= xhi && zlo <= z % 16 <= zhi
}

/// Scan position of a block of a column: by section, then x, then z, then height in the section.
pub open spec fn scan_key(min_y: int, x: int, y: int, z: int) -> int {
    ((((y - min_y) / 16) * 16 + x % 16) * 16 + z % 16) * 16 + (y - min_y) % 16
}

/// Queues only grew from `q0` to `q1`.
pub open spec fn grew(q0: Seq<LightNode>, q1: Seq<LightNode>) -> bool {
    &&& forall|x: int, y: int, z: int| in_queue(q0, x, y, z) ==> #[trigger] in_queue(q1, x, y, z)
    &&& forall|k: int| 0 <= k < q1.len() ==> node_fits(#[trigger] q1[k], PROP_BOUND as int)
}

/// True when some open neighbour of (`wx`, `wy`, `wz`) is more than one level darker than `light`.
fn neighbor_needs_propagation(nb: &LightNeighborhood, kind: LightKind, wx: i32, wy: i32, wz: i32, light: u8) -> (r: bool)
    requires
        nb.wf(),
        light == nb.light(kind, wx as int, wy as int, wz as int),
        -1073741904 <= wx <= 1073741919,
        -1073741904 <= wz <= 1073741919,
        -4096 <= wy <= 4096,
    ensures
        r == !nb.settled(kind, wx as int, wy as int, wz as int),
{
    if light <= 1 {
        return false;
    }
    let mut d: usize = 0;
    while d < 6
        invariant
            d <= 6,
            nb.wf(),
            light == nb.light(kind, wx as int, wy as int, wz as int),
            light > 1,
            -1073741904 <= wx <= 1073741919,
            -1073741904 <= wz <= 1073741919,
            -4096 <= wy <= 4096,
            forall|d2: int| 0 <= d2 < d ==> #[trigger] nb.dir_ok(kind, wx as int, wy as int, wz as int, d2),
        decreases 6 - d,
    {
        let (dx, dy, dz) = light_dir(d);
        let nx = wx + dx;
        let ny = wy + dy;
        let nz = wz + dz;
        if nb.height.contains_y(ny) && nb.has_column(nx, nz) {
            if !nb.get_block(nx, ny, nz).is_opaque() {
                if nb.get_light(kind, nx, ny, nz) < light - 1 {
                    assert(!nb.dir_ok(kind, wx as int, wy as int, wz as int, d as int));
                    return true;
                }
            }
        }
        d += 1;
    }
    proof {
        assert(nb.dir_ok(kind, wx as int, wy as int, wz as int, 0));
        assert(nb.dir_ok(kind, wx as int, wy as int, wz as int, 1));
        assert(nb.dir_ok(kind, wx as int, wy as int, wz as int, 2));
        assert(nb.dir_ok(kind, wx as int, wy as int, wz as int, 3));
        assert(nb.dir_ok(kind, wx as int, wy as int, wz as int, 4));
        assert(nb.dir_ok(kind, wx as int, wy as int, wz as int, 5));
    }
    false
}

/// Queue (`wx`, `wy`, `wz`) for each kind of light that it could still spread.
fn seed_cell(
    nb: &LightNeighborhood,
    wx: i32,
    wy: i32,
    wz: i32,
    sky_queue: &mut VecDeque<LightNode>,
    block_queue: &mut VecDeque<LightNode>,
)
    requires
        nb.wf(),
        -1073741904 <= wx <= 1073741919,
        -1073741904 <= wz <= 1073741919,
        -4096 <= wy <= 4096,
        grew(old(sky_queue)@, old(sky_queue)@),
        grew(old(block_queue)@, old(block_queue)@),
    ensures
        grew(old(sky_queue)@, final(sky_queue)@),
        grew(old(block_queue)@, final(block_queue)@),
        covered(nb, final(sky_queue)@, final(block_queue)@, wx as int, wy as int, wz as int),
{
    let sky_val = nb.get_light(LightKind::Sky, wx, wy, wz);
    let ghost s0 = sky_queue@;
    if neighbor_needs_propagation(nb, LightKind::Sky, wx, wy, wz, sky_val) {
        sky_queue.push_back(LightNode { x: wx, y: wy, z: wz });
        proof {
            lemma_push_grows(s0, sky_queue@, LightNode { x: wx, y: wy, z: wz });
        }
    }
    let block_val = nb.get_light(LightKind::Block, wx, wy, wz);
    let ghost b0 = block_queue@;
    if neighbor_needs_propagation(nb, LightKind::Block, wx, wy, wz, block_val) {
        block_queue.push_back(LightNode { x: wx, y: wy, z: wz });
        proof {
            lemma_push_grows(b0, block_queue@, LightNode { x: wx, y: wy, z: wz });
        }
    }
}

pub proof fn lemma_push_grows(q0: Seq<LightNode>, q1: Seq<LightNode>, n: LightNode)
    requires
        q1 == q0.push(n),
        forall|k: int| 0 <= k < q0.len() ==> node_fits(#[trigger] q0[k], PROP_BOUND as int),
        node_fits(n, PROP_BOUND as int),
    ensures
        grew(q0, q1),
        in_queue(q1, n.x as int, n.y as int, n.z as int),
{
    assert(q1[q0.len() as int] == n);
    assert forall|x: int, y: int, z: int| in_queue(q0, x, y, z) implies #[trigger] in_queue(q1, x, y, z) by {
        let k = choose|k: int| 0 <= k < q0.len() && (#[trigger] q0[k]).x == x && q0[k].y == y && q0[k].z == z;
        assert(q1[k] == q0[k]);
    }
    assert forall|k: int| 0 <= k < q1.len() implies node_fits(#[trigger] q1[k], PROP_BOUND as int) by {
        if k < q0.len() {
            assert(q1[k] == q0[k]);
        }
    }
}

pub proof fn lemma_grew_trans(a: Seq<LightNode>, b: Seq<LightNode>, c: Seq<LightNode>)
    requires
        grew(a, b),
        grew(b, c),
    ensures
        grew(a, c),
{
    assert forall|x: int, y: int, z: int| in_queue(a, x, y, z) implies #[trigger] in_queue(c, x, y, z) by {
        assert(in_queue(b, x, y, z));
    }
}

/// Section (counted from the bottom of the world) holding height `y`.
pub open spec fn sec_of(min_y: int, y: int) -> int {
    (y - min_y) / 16
}

/// Height of `y` inside its section.
pub open spec fn ly_of(min_y: int, y: int) -> int {
    (y - min_y) % 16
}

/// Block column (`x`, `z`) of column (`cx`, `cz`) lies in the box, and block (`x`, `y`, `z`) in a
/// written section comes before position (`sec`, `lx`, `lz`, `ly`) of a scan.
pub open spec fn scanned_before(
    nb: &LightNeighborhood,
    cx: int,
    cz: int,
    xlo: int,
    xhi: int,
    zlo: int,
    zhi: int,
    sec: int,
    lx: int,
    lz: int,
    ly: int,
    x: int,
    y: int,
    z: int,
) -> bool {
    let s = sec_of(nb.height.min_y as int, y);
    &&& in_box(cx, cz, xlo, xhi, zlo, zhi, x, z)
    &&& written(nb, x, y, z)
    &&& (s < sec || (s == sec && x % 16 < lx) || (s == sec && x % 16 == lx && z % 16 < lz) || (s == sec && x % 16 == lx && z % 16 == lz
        && ly_of(nb.height.min_y as int, y) < ly))
}

/// Seed the blocks of the written sections of column (`cx`, `cz`), held in `slot`, whose local x
/// lies in `xlo..=xhi` and local z in `zlo..=zhi`, section by section, then by x, z and height.
/// With `skip_dark_interior`, blocks off the column's faces whose two lights are both at most 1
/// are passed over (they cannot spread anything).
fn seed_box(
    nb: &LightNeighborhood,
    slot: usize,
    cx: i32,
    cz: i32,
    xlo: usize,
    xhi: usize,
    zlo: usize,
    zhi: usize,
    skip_dark_interior: bool,
    sky_queue: &mut VecDeque<LightNode>,
    block_queue: &mut VecDeque<LightNode>,
)
    requires
        nb.wf(),
        -1 <= cx - nb.origin_cx <= 1,
        -1 <= cz - nb.origin_cz <= 1,
        slot == (cz - nb.origin_cz + 1) * 3 + (cx - nb.origin_cx + 1),
        nb.columns@[slot as int] is Some,
        xlo <= xhi < 16,
        zlo <= zhi < 16,
        grew(old(sky_queue)@, old(sky_queue)@),
        grew(old(block_queue)@, old(block_queue)@),
    ensures
        grew(old(sky_queue)@, final(sky_queue)@),
        grew(old(block_queue)@, final(block_queue)@),
        forall|x: int, y: int, z: int| in_box(cx as int, cz as int, xlo as int, xhi as int, zlo as int, zhi as int, x, z) && written(
            nb,
            x,
            y,
            z,
        ) ==> #[trigger] covered(nb, final(sky_queue)@, final(block_queue)@, x, y, z),
{
    let chunk = match &nb.columns[slot] {
        Some(c) => c,
        None => {
            return;
        },
    };
    let ghost min_y = nb.height.min_y as int;
    let start_x = cx * 16;
    let start_z = cz * 16;
    let n = chunk.section_count();
    let mut sec: usize = 0;
    while sec < n
        invariant
            nb.wf(),
            chunk.wf(),
            Some(*chunk) == nb.columns@[slot as int],
            chunk.height == nb.height,
            n == nb.height.section_count(),
            sec <= n,
            -1 <= cx - nb.origin_cx <= 1,
            -1 <= cz - nb.origin_cz <= 1,
            slot == (cz - nb.origin_cz + 1) * 3 + (cx - nb.origin_cx + 1),
            start_x == cx * 16,
            start_z == cz * 16,
            xlo <= xhi < 16,
            zlo <= zhi < 16,
            min_y == nb.height.min_y,
            grew(old(sky_queue)@, sky_queue@),
            grew(old(block_queue)@, block_queue@),
            forall|x: int, y: int, z: int| scanned_before(
                nb,
                cx as int,
                cz as int,
                xlo as int,
                xhi as int,
                zlo as int,
                zhi as int,
                sec as int,
                0,
                0,
                0,
                x,
                y,
                z,
            ) ==> #[trigger] covered(nb, sky_queue@, block_queue@, x, y, z),
        decreases n - sec,
    {
        if chunk.section_present(sec) {
            let base_y = chunk.section_y_at_index(sec) * 16;
            let mut x: usize = xlo;
            while x <= xhi
                invariant
                    nb.wf(),
                    chunk.wf(),
                    Some(*chunk) == nb.columns@[slot as int],
                    chunk.height == nb.height,
                    n == nb.height.section_count(),
                    sec < n,
                    chunk.sections@[sec as int],
                    base_y == nb.height.min_y + 16 * sec,
                    -1 <= cx - nb.origin_cx <= 1,
                    -1 <= cz - nb.origin_cz <= 1,
                    slot == (cz - nb.origin_cz + 1) * 3 + (cx - nb.origin_cx + 1),
                    start_x == cx * 16,
                    start_z == cz * 16,
                    xlo <= x <= xhi + 1,
                    xhi < 16,
                    zlo <= zhi < 16,
                    min_y == nb.height.min_y,
                    grew(old(sky_queue)@, sky_queue@),
                    grew(old(block_queue)@, block_queue@),
                    forall|x1: int, y: int, z: int| scanned_before(
                        nb,
                        cx as int,
                        cz as int,
                        xlo as int,
                        xhi as int,
                        zlo as int,
                        zhi as int,
                        sec as int,
                        x as int,
                        0,
                        0,
                        x1,
                        y,
                        z,
                    ) ==> #[trigger] covered(nb, sky_queue@, block_queue@, x1, y, z),
                decreases xhi + 1 - x,
            {
                let mut z: usize = zlo;
                while z <= zhi
                    invariant
                        nb.wf(),
                        chunk.wf(),
                        Some(*chunk) == nb.columns@[slot as int],
                        chunk.height == nb.height,
                        n == nb.height.section_count(),
                        sec < n,
                        chunk.sections@[sec as int],
                        base_y == nb.height.min_y + 16 * sec,
                        -1 <= cx - nb.origin_cx <= 1,
                        -1 <= cz - nb.origin_cz <= 1,
                        slot == (cz - nb.origin_cz + 1) * 3 + (cx - nb.origin_cx + 1),
                        start_x == cx * 16,
                        start_z == cz * 16,
                        xlo <= x <= xhi,
                        xhi < 16,
                        zlo <= z <= zhi + 1,
                        zhi < 16,
                        min_y == nb.height.min_y,
                        grew(old(sky_queue)@, sky_queue@),
                        grew(old(block_queue)@, block_queue@),
                        forall|x1: int, y: int, z1: int| scanned_before(
                            nb,
                            cx as int,
                            cz as int,
                            xlo as int,
                            xhi as int,
                            zlo as int,
                            zhi as int,
                            sec as int,
                            x as int,
                            z as int,
                            0,
                            x1,
                            y,
                            z1,
                        ) ==> #[trigger] covered(nb, sky_queue@, block_queue@, x1, y, z1),
                    decreases zhi + 1 - z,
                {
                    let wx = start_x + x as i32;
                    let wz = start_z + z as i32;
                    let on_face = x == 0 || x == 15 || z == 0 || z == 15;
                    let mut ly: usize = 0;
                    while ly < 16
                        invariant
                            nb.wf(),
                            chunk.wf(),
                            Some(*chunk) == nb.columns@[slot as int],
                            chunk.height == nb.height,
                            n == nb.height.section_count(),
                            sec < n,
                            chunk.sections@[sec as int],
                            base_y == nb.height.min_y + 16 * sec,
                            -1 <= cx - nb.origin_cx <= 1,
                            -1 <= cz - nb.origin_cz <= 1,
                            slot == (cz - nb.origin_cz + 1) * 3 + (cx - nb.origin_cx + 1),
                            wx == cx * 16 + x,
                            wz == cz * 16 + z,
                            xlo <= x <= xhi,
                            xhi < 16,
                            zlo <= z <= zhi,
                            zhi < 16,
                            ly <= 16,
                            on_face == (x == 0 || x == 15 || z == 0 || z == 15),
                            min_y == nb.height.min_y,
                            grew(old(sky_queue)@, sky_queue@),
                            grew(old(block_queue)@, block_queue@),
                            forall|x1: int, y: int, z1: int| scanned_before(
                                nb,
                                cx as int,
                                cz as int,
                                xlo as int,
                                xhi as int,
                                zlo as int,
                                zhi as int,
                                sec as int,
                                x as int,
                                z as int,
                                ly as int,
                                x1,
                                y,
                                z1,
                            ) ==> #[trigger] covered(nb, sky_queue@, block_queue@, x1, y, z1),
                        decreases 16 - ly,
                    {
                        let wy = base_y + ly as i32;
                        let ghost s0 = sky_queue@;
                        let ghost b0 = block_queue@;
                        proof {
                            assert(wx as int / 16 == cx && wx as int % 16 == x);
                            assert(wz as int / 16 == cz && wz as int % 16 == z);
                            assert(nb.col(wx as int, wz as int) == Some(*chunk));
                        }
                        if nb.height.contains_y(wy) {
                            let sky_val = chunk.get_sky_light(x, wy, z);
                            let block_val = chunk.get_block_light(x, wy, z);
                            if !skip_dark_interior || on_face || sky_val > 1 || block_val > 1 {
                                seed_cell(nb, wx, wy, wz, sky_queue, block_queue);
                            } else {
                                assert(nb.settled(LightKind::Sky, wx as int, wy as int, wz as int));
                                assert(nb.settled(LightKind::Block, wx as int, wy as int, wz as int));
                            }
                        }
                        proof {
                            assert forall|x1: int, y: int, z1: int| scanned_before(
                                nb,
                                cx as int,
                                cz as int,
                                xlo as int,
                                xhi as int,
                                zlo as int,
                                zhi as int,
                                sec as int,
                                x as int,
                                z as int,
                                ly + 1,
                                x1,
                                y,
                                z1,
                            ) implies #[trigger] covered(nb, sky_queue@, block_queue@, x1, y, z1) by {
                                if x1 == wx && y == wy && z1 == wz {
                                } else {
                                    assert(covered(nb, s0, b0, x1, y, z1));
                                }
                            }
                        }
                        ly += 1;
                    }
                    z += 1;
                }
                x += 1;
            }
        }
        sec += 1;
    }
}

/// Seed the faces and the lit blocks of the written sections of the centre column (`cx`, `cz`).
/// Blocks off the faces with both lights at most 1 are skipped: they cannot spread anything.
fn seed_column_from_emitters_and_lit(
    nb: &LightNeighborhood,
    cx: i32,
    cz: i32,
    sky_queue: &mut VecDeque<LightNode>,
    block_queue: &mut VecDeque<LightNode>,
)
    requires
        nb.wf(),
        nb.origin_cx == cx,
        nb.origin_cz == cz,
        grew(old(sky_queue)@, old(sky_queue)@),
        grew(old(block_queue)@, old(block_queue)@),
    ensures
        grew(old(sky_queue)@, final(sky_queue)@),
        grew(old(block_queue)@, final(block_queue)@),
        forall|x: int, y: int, z: int| in_box(cx as int, cz as int, 0, 15, 0, 15, x, z) && written(nb, x, y, z) ==> #[trigger] covered(
            nb,
            final(sky_queue)@,
            final(block_queue)@,
            x,
            y,
            z,
        ),
{
    if nb.columns[4].is_none() {
        proof {
            assert forall|x: int, y: int, z: int| in_box(cx as int, cz as int, 0, 15, 0, 15, x, z) && written(nb, x, y, z) implies #[trigger] covered(
                nb,
                sky_queue@,
                block_queue@,
                x,
                y,
                z,
            ) by {
                assert(nb.slot(x, z) == 4);
            }
        }
        return;
    }
    seed_box(nb, 4, cx, cz, 0, 15, 0, 15, true, sky_queue, block_queue);
}

/// Lowest local x (or z) of the face of a column toward a neighbour at offset `d` (-1, 0 or 1).
pub open spec fn face_lo(d: int) -> int {
    if d == 1 { 15 } else { 0 }
}

/// Highest local x (or z) of the face of a column toward a neighbour at offset `d`.
pub open spec fn face_hi(d: int) -> int {
    if d == -1 { 0 } else { 15 }
}

/// Seed the face of column (`cx`, `cz`) that touches the column (`neighbor_cx`, `neighbor_cz`) next
/// to it: every block of the face's written sections.
fn seed_shared_face(
    nb: &LightNeighborhood,
    origin_cx: i32,
    origin_cz: i32,
    cx: i32,
    cz: i32,
    neighbor_cx: i32,
    neighbor_cz: i32,
    sky_queue: &mut VecDeque<LightNode>,
    block_queue: &mut VecDeque<LightNode>,
)
    requires
        nb.wf(),
        nb.origin_cx == origin_cx,
        nb.origin_cz == origin_cz,
        -1 <= cx - origin_cx <= 1,
        -1 <= cz - origin_cz <= 1,
        -1 <= neighbor_cx - cx <= 1,
        -1 <= neighbor_cz - cz <= 1,
        grew(old(sky_queue)@, old(sky_queue)@),
        grew(old(block_queue)@, old(block_queue)@),
    ensures
        grew(old(sky_queue)@, final(sky_queue)@),
        grew(old(block_queue)@, final(block_queue)@),
        ({
            let dx = neighbor_cx - cx;
            let dz = neighbor_cz - cz;
            (dx == 0 || dz == 0) && dx != dz ==> forall|x: int, y: int, z: int| in_box(
                cx as int,
                cz as int,
                face_lo(dx),
                face_hi(dx),
                face_lo(dz),
                face_hi(dz),
                x,
                z,
            ) && written(nb, x, y, z) ==> #[trigger] covered(nb, final(sky_queue)@, final(block_queue)@, x, y, z)
        }),
{
    let dx = neighbor_cx - cx;
    let dz = neighbor_cz - cz;
    if !((dx == 0 || dz == 0) && dx != dz) {
        return;
    }
    let iz = (cz - origin_cz + 1) as usize;
    let ix = (cx - origin_cx + 1) as usize;
    let slot = iz * 3 + ix;
    if nb.columns[slot].is_none() {
        proof {
            assert forall|x: int, y: int, z: int| in_box(cx as int, cz as int, face_lo(dx as int), face_hi(dx as int), face_lo(dz as int), face_hi(dz as int), x, z)
                && written(nb, x, y, z) implies #[trigger] covered(nb, sky_queue@, block_queue@, x, y, z) by {
                assert(nb.slot(x, z) == slot);
            }
        }
        return;
    }
    let (xlo, xhi): (usize, usize) = if dx != 0 {
        let x: usize = if dx == 1 { 15 } else { 0 };
        (x, x)
    } else {
        (0, 15)
    };
    let (zlo, zhi): (usize, usize) = if dz != 0 {
        let z: usize = if dz == 1 { 15 } else { 0 };
        (z, z)
    } else {
        (0, 15)
    };
    seed_box(nb, slot, cx, cz, xlo, xhi, zlo, zhi, false, sky_queue, block_queue);
}

/// Block column (`x`, `z`) is in column (`cx`, `cz`) or on a face of one of its four neighbours
/// that touches it.
pub open spec fn seeded_region(cx: int, cz: int, x: int, z: int) -> bool {
    ||| in_box(cx, cz, 0, 15, 0, 15, x, z)
    ||| in_box(cx - 1, cz, 15, 15, 0, 15, x, z)
    ||| in_box(cx + 1, cz, 0, 0, 0, 15, x, z)
    ||| in_box(cx, cz - 1, 0, 15, 15, 15, x, z)
    ||| in_box(cx, cz + 1, 0, 15, 0, 0, x, z)
}

impl LightNeighborhood {
    /// `other` has the origin, height, daylight, loaded columns and blocks of `self`.
    pub open spec fn same_blocks(&self, other: &LightNeighborhood) -> bool {
        &&& other.origin_cx == self.origin_cx
        &&& other.origin_cz == self.origin_cz
        &&& other.height == self.height
        &&& other.has_sky_light == self.has_sky_light
        &&& forall|x: int, y: int, z: int| #[trigger] other.block(x, y, z) == self.block(x, y, z)
        &&& forall|x: int, z: int| (#[trigger] other.col(x, z) is Some) == (self.col(x, z) is Some)
    }
}

/// Seed the centre column of `nb` and the faces of its neighbours that touch it, then spread
/// sky light and block light from the seeds.
#[verifier::spinoff_prover]
fn seed_and_propagate(nb: &mut LightNeighborhood, dirty_chunks: &mut ChunkSet)
    requires
        old(nb).wf(),
        old(dirty_chunks).wf(),
    ensures
        final(nb).wf(),
        final(dirty_chunks).wf(),
        old(nb).same_blocks(final(nb)),
        final(nb).brightened_from(old(nb), LightKind::Sky),
        final(nb).brightened_from(old(nb), LightKind::Block),
        final(nb).recorded_from(old(nb), LightKind::Sky, old(dirty_chunks)@, final(dirty_chunks)@),
        final(nb).recorded_from(old(nb), LightKind::Block, old(dirty_chunks)@, final(dirty_chunks)@),
        forall|x: int, y: int, z: int| seeded_region(old(nb).origin_cx as int, old(nb).origin_cz as int, x, z) && written(old(nb), x, y, z)
            ==> #[trigger] final(nb).settled(LightKind::Sky, x, y, z) && final(nb).settled(LightKind::Block, x, y, z),
        forall|kind: LightKind, x: int, y: int, z: int| #[trigger] final(nb).light(kind, x, y, z) != old(nb).light(kind, x, y, z)
            ==> exists|d: int| #[trigger] final(nb).one_below(kind, x, y, z, d),
{
    let cx = nb.origin_cx;
    let cz = nb.origin_cz;
    let mut sky_queue: VecDeque<LightNode> = VecDeque::new();
    let mut block_queue: VecDeque<LightNode> = VecDeque::new();
    let ghost nb0 = *nb;
    let ghost d0 = dirty_chunks@;
    seed_column_from_emitters_and_lit(nb, cx, cz, &mut sky_queue, &mut block_queue);
    let ghost s1 = sky_queue@;
    let ghost b1 = block_queue@;
    seed_shared_face(nb, cx, cz, cx - 1, cz, cx, cz, &mut sky_queue, &mut block_queue);
    let ghost s2 = sky_queue@;
    let ghost b2 = block_queue@;
    seed_shared_face(nb, cx, cz, cx + 1, cz, cx, cz, &mut sky_queue, &mut block_queue);
    let ghost s3 = sky_queue@;
    let ghost b3 = block_queue@;
    seed_shared_face(nb, cx, cz, cx, cz - 1, cx, cz, &mut sky_queue, &mut block_queue);
    let ghost s4 = sky_queue@;
    let ghost b4 = block_queue@;
    seed_shared_face(nb, cx, cz, cx, cz + 1, cx, cz, &mut sky_queue, &mut block_queue);
    proof {
        lemma_grew_trans(s1, s2, s3);
        lemma_grew_trans(s1, s3, s4);
        lemma_grew_trans(s1, s4, sky_queue@);
        lemma_grew_trans(s2, s3, s4);
        lemma_grew_trans(s2, s4, sky_queue@);
        lemma_grew_trans(s3, s4, sky_queue@);
        lemma_grew_trans(b1, b2, b3);
        lemma_grew_trans(b1, b3, b4);
        lemma_grew_trans(b1, b4, block_queue@);
        lemma_grew_trans(b2, b3, b4);
        lemma_grew_trans(b2, b4, block_queue@);
        lemma_grew_trans(b3, b4, block_queue@);
        assert forall|x: int, y: int, z: int| seeded_region(cx as int, cz as int, x, z) && written(nb, x, y, z) implies #[trigger] covered(
            nb,
            sky_queue@,
            block_queue@,
            x,
            y,
            z,
        ) by {
            if in_box(cx as int, cz as int, 0, 15, 0, 15, x, z) {
                assert(covered(nb, s1, b1, x, y, z));
            } else if in_box(cx - 1, cz as int, 15, 15, 0, 15, x, z) {
                assert(covered(nb, s2, b2, x, y, z));
            } else if in_box(cx + 1, cz as int, 0, 0, 0, 15, x, z) {
                assert(covered(nb, s3, b3, x, y, z));
            } else if in_box(cx as int, cz - 1, 0, 15, 15, 15, x, z) {
                assert(covered(nb, s4, b4, x, y, z));
            } else {
            }
        }
    }
    let ghost sq0 = sky_queue@;
    let ghost bq0 = block_queue@;
    propagate(nb, LightKind::Sky, &mut sky_queue, dirty_chunks);
    let ghost nb1 = *nb;
    let ghost d1 = dirty_chunks@;
    propagate(nb, LightKind::Block, &mut block_queue, dirty_chunks);
    proof {
        let nb2 = *nb;
        lemma_frame_cells(&nb0, &nb1, LightKind::Sky);
        lemma_frame_cells(&nb1, &nb2, LightKind::Block);
        lemma_settled_kept(&nb0, &nb1, LightKind::Sky);
        lemma_settled_kept(&nb1, &nb2, LightKind::Block);
        lemma_settled_other(&nb0, &nb1, LightKind::Sky);
        lemma_settled_other(&nb1, &nb2, LightKind::Block);
        assert forall|x: int, y: int, z: int| #[trigger] nb2.block(x, y, z) == nb0.block(x, y, z) by {
            assert(nb1.block(x, y, z) == nb0.block(x, y, z));
        }
        assert forall|x: int, z: int| (#[trigger] nb2.col(x, z) is Some) == (nb0.col(x, z) is Some) by {
            assert((nb1.col(x, z) is Some) == (nb0.col(x, z) is Some));
        }
        assert forall|x: int, y: int, z: int| #[trigger] nb2.light(LightKind::Sky, x, y, z) >= nb0.light(LightKind::Sky, x, y, z) && (nb2.light(
            LightKind::Sky,
            x,
            y,
            z,
        ) != nb0.light(LightKind::Sky, x, y, z) ==> nb0.open_cell(x, y, z)) by {
            assert(nb2.light(other_kind(LightKind::Block), x, y, z) == nb1.light(other_kind(LightKind::Block), x, y, z));
            assert(nb1.light(LightKind::Sky, x, y, z) >= nb0.light(LightKind::Sky, x, y, z));
        }
        assert forall|x: int, y: int, z: int| #[trigger] nb2.light(LightKind::Block, x, y, z) >= nb0.light(LightKind::Block, x, y, z) && (nb2.light(
            LightKind::Block,
            x,
            y,
            z,
        ) != nb0.light(LightKind::Block, x, y, z) ==> nb0.open_cell(x, y, z)) by {
            assert(nb1.light(other_kind(LightKind::Sky), x, y, z) == nb0.light(other_kind(LightKind::Sky), x, y, z));
            assert(nb2.light(LightKind::Block, x, y, z) >= nb1.light(LightKind::Block, x, y, z));
            assert(nb1.open_cell(x, y, z) == nb0.open_cell(x, y, z));
        }
        assert(nb0.changed_cells@.is_prefix_of(nb2.changed_cells@)) by {
            assert(nb1.changed_cells@.is_prefix_of(nb2.changed_cells@));
            assert(nb2.changed_cells@.subrange(0, nb0.changed_cells@.len() as int) =~= nb1.changed_cells@.subrange(
                0,
                nb0.changed_cells@.len() as int,
            ));
        }
        assert forall|x: int, y: int, z: int| #[trigger] nb2.light(LightKind::Sky, x, y, z) != nb0.light(LightKind::Sky, x, y, z) implies dirty_keys(
            x,
            z,
        ).subset_of(dirty_chunks@) && nb2.changed_cells@.contains((x as i32, y as i32, z as i32)) by {
            assert(nb2.light(other_kind(LightKind::Block), x, y, z) == nb1.light(other_kind(LightKind::Block), x, y, z));
            assert(nb1.light(LightKind::Sky, x, y, z) != nb0.light(LightKind::Sky, x, y, z));
            let k = choose|k: int| 0 <= k < nb1.changed_cells@.len() && nb1.changed_cells@[k] == (x as i32, y as i32, z as i32);
            assert(nb1.changed_cells@.is_prefix_of(nb2.changed_cells@));
            assert(nb2.changed_cells@[k] == nb1.changed_cells@[k]);
        }
        assert forall|x: int, y: int, z: int| #[trigger] nb2.light(LightKind::Block, x, y, z) != nb0.light(LightKind::Block, x, y, z) implies dirty_keys(
            x,
            z,
        ).subset_of(dirty_chunks@) && nb2.changed_cells@.contains((x as i32, y as i32, z as i32)) by {
            assert(nb1.light(other_kind(LightKind::Sky), x, y, z) == nb0.light(other_kind(LightKind::Sky), x, y, z));
            assert(nb2.light(LightKind::Block, x, y, z) != nb1.light(LightKind::Block, x, y, z));
        }
        assert forall|x: int, y: int, z: int| seeded_region(cx as int, cz as int, x, z) && written(&nb0, x, y, z) implies #[trigger] nb2.settled(
            LightKind::Sky,
            x,
            y,
            z,
        ) && nb2.settled(LightKind::Block, x, y, z) by {
            assert(covered(&nb0, sq0, bq0, x, y, z));
            assert(nb1.settled(LightKind::Sky, x, y, z)) by {
                if !in_queue(sq0, x, y, z) {
                    if nb1.light(LightKind::Sky, x, y, z) == nb0.light(LightKind::Sky, x, y, z) {
                        assert(nb0.settled(LightKind::Sky, x, y, z));
                    }
                }
            }
            assert(nb2.settled(other_kind(LightKind::Block), x, y, z) == nb1.settled(other_kind(LightKind::Block), x, y, z));
            assert(nb1.settled(other_kind(LightKind::Sky), x, y, z) == nb0.settled(other_kind(LightKind::Sky), x, y, z));
            assert(nb1.light(other_kind(LightKind::Sky), x, y, z) == nb0.light(other_kind(LightKind::Sky), x, y, z));
            assert(nb2.settled(LightKind::Block, x, y, z)) by {
                if !in_queue(bq0, x, y, z) {
                    assert(nb0.settled(LightKind::Block, x, y, z));
                    assert(nb1.settled(LightKind::Block, x, y, z));
                    if nb2.light(LightKind::Block, x, y, z) == nb1.light(LightKind::Block, x, y, z) {
                    } else {
                    }
                }
            }
        }
        assert forall|kind: LightKind, x: int, y: int, z: int| #[trigger] nb2.light(kind, x, y, z) != nb0.light(kind, x, y, z) implies exists|d: int|
            #[trigger] nb2.one_below(kind, x, y, z, d) by {
            if kind == LightKind::Sky {
                assert(nb2.light(other_kind(LightKind::Block), x, y, z) == nb1.light(other_kind(LightKind::Block), x, y, z));
                assert(nb1.light(LightKind::Sky, x, y, z) != nb0.light(LightKind::Sky, x, y, z));
                let d = choose|d: int| #[trigger] nb1.one_below(LightKind::Sky, x, y, z, d);
                assert(nb2.light(other_kind(LightKind::Block), x + dir_dx(d), y + dir_dy(d), z + dir_dz(d)) == nb1.light(
                    other_kind(LightKind::Block),
                    x + dir_dx(d),
                    y + dir_dy(d),
                    z + dir_dz(d),
                ));
                assert(nb2.one_below(LightKind::Sky, x, y, z, d));
            } else {
                assert(nb1.light(other_kind(LightKind::Sky), x, y, z) == nb0.light(other_kind(LightKind::Sky), x, y, z));
                assert(nb2.light(LightKind::Block, x, y, z) != nb1.light(LightKind::Block, x, y, z));
            }
        }
    }
}

/// Block (`x`, `y`, `z`) lies in a written section of a loaded column of `m`.
pub open spec fn loaded_written(m: &ChunkManager, x: int, y: int, z: int) -> bool {
    &&& m.dimension.spec_height().spec_contains_y(y)
    &&& m.column(x, z) matches Some(c) && c.section_at(y)
}

/// What lighting a newly loaded column (`cx`, `cz`) leaves: blocks and loaded columns as they were,
/// both lights only risen and only in blocks open around the column, every change recorded, and
/// every block of a written section of the column, or of a written section on a neighbour's face
/// touching it, settled for both lights, each block whose light changed exactly one level below
/// one of its neighbours.
pub open spec fn column_lit(m0: &ChunkManager, m1: &ChunkManager, cx: int, cz: int, dirty0: Set<(i32, i32)>, dirty1: Set<(i32, i32)>) -> bool {
    &&& m1.wf()
    &&& m1.dimension == m0.dimension
    &&& m1.seed == m0.seed
    &&& forall|x: int, y: int, z: int| #[trigger] m1.block(x, y, z) == m0.block(x, y, z)
    &&& forall|x: int, z: int| (#[trigger] m1.column(x, z) is Some) == (m0.column(x, z) is Some)
    &&& brightened_near(m0, m1, LightKind::Sky, cx, cz)
    &&& brightened_near(m0, m1, LightKind::Block, cx, cz)
    &&& light_recorded(m0, m1, LightKind::Sky, dirty0, dirty1)
    &&& light_recorded(m0, m1, LightKind::Block, dirty0, dirty1)
    &&& forall|kind: LightKind, x: int, y: int, z: int| seeded_region(cx, cz, x, z) && loaded_written(m0, x, y, z) ==> #[trigger] settled_near(
        m1,
        kind,
        cx,
        cz,
        x,
        y,
        z,
    )
    &&& raised_fed(m0, m1, LightKind::Sky)
    &&& raised_fed(m0, m1, LightKind::Block)
}

/// A block settled in a neighbourhood is settled in the manager it was taken from, among the
/// blocks around the neighbourhood's origin.
pub proof fn lemma_settled_near_from(m: &ChunkManager, nb: &LightNeighborhood, kind: LightKind, x: int, y: int, z: int)
    requires
        nb.wf(),
        nb.height == m.dimension.spec_height(),
        nb.has_sky_light == m.dimension.spec_has_sky_light(),
        forall|k: (i32, i32)| nbhd_key(nb.origin_cx as int, nb.origin_cz as int, k) ==> #[trigger] m.chunks.chunk_at(k)
            == nb.columns@[key_slot(nb.origin_cx as int, nb.origin_cz as int, k)],
        near(nb.origin_cx as int, nb.origin_cz as int, x, z),
        nb.settled(kind, x, y, z),
    ensures
        settled_near(m, kind, nb.origin_cx as int, nb.origin_cz as int, x, y, z),
{
    lemma_view_through(m, nb);
    let ocx = nb.origin_cx as int;
    let ocz = nb.origin_cz as int;
    assert forall|d: int| 0 <= d < 6 implies #[trigger] dir_ok_near(m, kind, ocx, ocz, x, y, z, d) by {
        assert(nb.dir_ok(kind, x, y, z, 0));
        assert(nb.dir_ok(kind, x, y, z, 1));
        assert(nb.dir_ok(kind, x, y, z, 2));
        assert(nb.dir_ok(kind, x, y, z, 3));
        assert(nb.dir_ok(kind, x, y, z, 4));
        assert(nb.dir_ok(kind, x, y, z, 5));
        assert(nb.dir_ok(kind, x, y, z, d));
    }
    assert(dir_ok_near(m, kind, ocx, ocz, x, y, z, 0));
    assert(dir_ok_near(m, kind, ocx, ocz, x, y, z, 1));
    assert(dir_ok_near(m, kind, ocx, ocz, x, y, z, 2));
    assert(dir_ok_near(m, kind, ocx, ocz, x, y, z, 3));
    assert(dir_ok_near(m, kind, ocx, ocz, x, y, z, 4));
    assert(dir_ok_near(m, kind, ocx, ocz, x, y, z, 5));
}

/// Light a newly loaded column (`cx`, `cz`): seed its faces and the lit blocks of its written
/// sections, and the faces of its four neighbours that touch it, then spread sky light and block
/// light through the 3 by 3 columns around it. Nothing happens when the column is not loaded.
pub fn propagate_chunk_lighting(chunk_manager: &mut ChunkManager, cx: i32, cz: i32, dirty_chunks: &mut ChunkSet)
    requires
        old(chunk_manager).wf(),
        old(dirty_chunks).wf(),
        -67108864 <= cx <= 67108864,
        -67108864 <= cz <= 67108864,
    ensures
        final(dirty_chunks).wf(),
        old(chunk_manager).chunks.chunk_at((cx, cz)) is None ==> *final(chunk_manager) == *old(chunk_manager) && final(dirty_chunks)@ == old(
            dirty_chunks,
        )@,
        old(chunk_manager).chunks.chunk_at((cx, cz)) is Some ==> column_lit(
            old(chunk_manager),
            final(chunk_manager),
            cx as int,
            cz as int,
            old(dirty_chunks)@,
            final(dirty_chunks)@,
        ),
{
    if !chunk_manager.chunks.contains_key(&(cx, cz)) {
        return;
    }
    let ghost m0 = *chunk_manager;
    let mut nb = take(chunk_manager, cx, cz);
    let ghost nb0 = nb;
    seed_and_propagate(&mut nb, dirty_chunks);
    let ghost nb1 = nb;
    restore(nb, chunk_manager);
    proof {
        let m1 = *chunk_manager;
        let ocx = cx as int;
        let ocz = cz as int;
        lemma_view_through(&m0, &nb0);
        lemma_view_through(&m1, &nb1);
        lemma_far_unchanged(&m0, &m1, ocx, ocz);
        assert forall|x: int, y: int, z: int| #[trigger] m1.block(x, y, z) == m0.block(x, y, z) by {
            if near(ocx, ocz, x, z) {
                assert(nb1.block(x, y, z) == nb0.block(x, y, z));
            }
        }
        assert forall|x: int, z: int| (#[trigger] m1.column(x, z) is Some) == (m0.column(x, z) is Some) by {
            if near(ocx, ocz, x, z) {
                assert((nb1.col(x, z) is Some) == (nb0.col(x, z) is Some));
            }
        }
        assert(m0.light_changes@.is_prefix_of(m1.light_changes@)) by {
            assert(m1.light_changes@.subrange(0, m0.light_changes@.len() as int) =~= m0.light_changes@);
        }
        assert forall|kind: LightKind, x: int, y: int, z: int| #[trigger] m1.light(kind, x, y, z) != m0.light(kind, x, y, z) && (kind
            == LightKind::Sky || kind == LightKind::Block) implies near(ocx, ocz, x, z) && m1.light(kind, x, y, z) >= m0.light(kind, x, y, z)
            && open_near(&m0, ocx, ocz, x, y, z) && dirty_keys(x, z).subset_of(dirty_chunks@) && m1.light_changes@.contains(
            (x as i32, y as i32, z as i32),
        ) by {
            assert(near(ocx, ocz, x, z));
            assert(nb1.light(kind, x, y, z) != nb0.light(kind, x, y, z));
            assert(nb1.light(kind, x, y, z) >= nb0.light(kind, x, y, z));
            let k = choose|k: int| 0 <= k < nb1.changed_cells@.len() && nb1.changed_cells@[k] == (x as i32, y as i32, z as i32);
            assert(m1.light_changes@[m0.light_changes@.len() + k] == nb1.changed_cells@[k]);
        }
        assert forall|kind: LightKind, x: int, y: int, z: int| seeded_region(ocx, ocz, x, z) && loaded_written(&m0, x, y, z) implies #[trigger] settled_near(
            &m1,
            kind,
            ocx,
            ocz,
            x,
            y,
            z,
        ) by {
            assert(near(ocx, ocz, x, z));
            assert(written(&nb0, x, y, z));
            assert(nb0.origin_cx == cx && nb0.origin_cz == cz);
            assert(seeded_region(nb0.origin_cx as int, nb0.origin_cz as int, x, z));
            assert(nb1.settled(LightKind::Sky, x, y, z));
            assert(nb1.settled(LightKind::Block, x, y, z));
            assert(kind == LightKind::Sky || kind == LightKind::Block);
            lemma_settled_near_from(&m1, &nb1, kind, x, y, z);
        }
        assert forall|kind: LightKind, x: int, y: int, z: int| #[trigger] m1.light(kind, x, y, z) != m0.light(kind, x, y, z) implies exists|d: int|
            #[trigger] light_one_below(&m1, kind, x, y, z, d) by {
            assert(near(ocx, ocz, x, z));
            assert(nb1.light(kind, x, y, z) != nb0.light(kind, x, y, z));
            let d = choose|d: int| #[trigger] nb1.one_below(kind, x, y, z, d);
            let wx = x + super::neighborhood::dir_dx(d);
            let wy = y + super::neighborhood::dir_dy(d);
            let wz = z + super::neighborhood::dir_dz(d);
            if near(ocx, ocz, wx, wz) {
                assert(m1.light(kind, wx, wy, wz) == nb1.light(kind, wx, wy, wz));
            } else {
                assert(nb1.col(wx, wz) is None);
            }
            assert(light_one_below(&m1, kind, x, y, z, d));
        }
        reveal(raised_fed);
    }
}

} // verus!
