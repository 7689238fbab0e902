//! Explorer maps: the pixels a held map shows and the collection of maps a world keeps.

use vstd::prelude::*;
use crate::world::Dimension;

verus! {

/// Width and height of a map in pixels.
pub const MAP_SIZE: usize = 128;

/// One map: where it is centred, how many blocks a pixel covers (`2^scale`), and the colour of
/// each pixel, row by row (0 means unexplored).
pub struct MapData {
    pub id: u32,
    pub dimension: Dimension,
    pub center_x: i32,
    pub center_z: i32,
    pub scale: u8,
    pub colors: Vec<u8>,
}

/// Pixel column (or row) of world coordinate `w` on a map centred at `center` with
/// `factor` blocks per pixel, rounding toward zero as integer division does.
pub open spec fn map_coord(w: int, center: int, factor: int) -> int {
    let v = w - center + (MAP_SIZE as int / 2) * factor;
    if v >= 0 {
        v / factor
    } else {
        -((-v) / factor)
    }
}

/// Index in `colors` of the pixel that world column (`x`, `z`) falls on, when it falls on the map.
pub open spec fn pixel_index(m: MapData, x: int, z: int) -> Option<int> {
    let factor = pow2(m.scale as nat) as int;
    let mx = map_coord(x, m.center_x as int, factor);
    let mz = map_coord(z, m.center_z as int, factor);
    if 0 <= mx < MAP_SIZE && 0 <= mz < MAP_SIZE {
        Some(mz * MAP_SIZE + mx)
    } else {
        None
    }
}

pub open spec fn pow2(n: nat) -> nat
    decreases n,
{
    if n == 0 {
        1
    } else {
        2 * pow2((n - 1) as nat)
    }
}

/// Scales a map can have: up to 4 (16 blocks a pixel).
pub const MAX_MAP_SCALE: u8 = 4;

impl MapData {
    /// A blank map.
    pub fn new(id: u32, dimension: Dimension, center_x: i32, center_z: i32, scale: u8) -> (r: MapData)
        ensures
            r.id == id,
            r.dimension == dimension,
            r.center_x == center_x,
            r.center_z == center_z,
            r.scale == scale,
            r.colors@ == Seq::new((MAP_SIZE * MAP_SIZE) as nat, |i: int| 0u8),
    {
        let mut colors: Vec<u8> = Vec::new();
        let mut i: usize = 0;
        while i < MAP_SIZE * MAP_SIZE
            invariant
                i <= MAP_SIZE * MAP_SIZE,
                colors@ == Seq::new(i as nat, |k: int| 0u8),
            decreases MAP_SIZE * MAP_SIZE - i,
        {
            colors.push(0);
            proof {
                assert(colors@ =~= Seq::new((i + 1) as nat, |k: int| 0u8));
            }
            i += 1;
        }
        MapData { id, dimension, center_x, center_z, scale, colors }
    }
}

/// The maps a world keeps, numbered from 0 in the order they were made; map `i` is kept under
/// number `i`.
pub struct MapManager {
    maps: Vec<MapData>,
    next_map_id: u32,
}

impl MapManager {
    /// The next map gets the number after the last one.
    pub closed spec fn wf(&self) -> bool {
        self.next_map_id as int == self.maps@.len()
    }

    /// The maps, by number.
    pub closed spec fn spec_maps(&self) -> Seq<MapData> {
        self.maps@
    }

    /// The number the next map gets.
    pub closed spec fn spec_next_id(&self) -> u32 {
        self.next_map_id
    }

    /// No maps yet.
    pub fn new() -> (r: MapManager)
        ensures
            r.wf(),
            r.spec_maps().len() == 0,
            r.spec_next_id() == 0,
    {
        MapManager { maps: Vec::new(), next_map_id: 0 }
    }

    /// Make a blank map of scale 0 centred on (`center_x`, `center_z`) and give back its number.
    pub fn create_map(&mut self, dimension: Dimension, center_x: i32, center_z: i32) -> (id: u32)
        requires
            old(self).wf(),
            old(self).spec_next_id() < u32::MAX,
        ensures
            final(self).wf(),
            id == old(self).spec_next_id(),
            final(self).spec_next_id() == id + 1,
            final(self).spec_maps().len() == old(self).spec_maps().len() + 1,
            forall|i: int| 0 <= i < old(self).spec_maps().len() ==> #[trigger] final(self).spec_maps()[i] == old(self).spec_maps()[i],
            final(self).spec_maps()[id as int].id == id,
            final(self).spec_maps()[id as int].dimension == dimension,
            final(self).spec_maps()[id as int].center_x == center_x,
            final(self).spec_maps()[id as int].center_z == center_z,
            final(self).spec_maps()[id as int].scale == 0,
            final(self).spec_maps()[id as int].colors@ == Seq::new((MAP_SIZE * MAP_SIZE) as nat, |i: int| 0u8),
    {
        let id = self.next_map_id;
        self.next_map_id = id + 1;
        let map = MapData::new(id, dimension, center_x, center_z, 0);
        self.maps.push(map);
        id
    }

    /// The map numbered `id`, if there is one.
    pub fn get_map(&self, id: u32) -> (r: Option<&MapData>)
        requires
            self.wf(),
        ensures
            match r {
                Some(m) => (id as int) < self.spec_maps().len() && *m == self.spec_maps()[id as int],
                None => (id as int) >= self.spec_maps().len(),
            },
    {
        if (id as usize) < self.maps.len() {
            Some(&self.maps[id as usize])
        } else {
            None
        }
    }

    /// The map numbered `id`, to change, if there is one.
    pub fn get_map_mut(&mut self, id: u32) -> (r: Option<&mut MapData>)
        requires
            old(self).wf(),
        ensures
            final(self).wf(),
            (id as int) < old(self).spec_maps().len() <==> r is Some,
            r matches Some(m) ==> *m == old(self).spec_maps()[id as int],
            r matches Some(m) ==> final(self).spec_maps() == old(self).spec_maps().update(id as int, *final(m)),
            r is None ==> final(self).spec_maps() == old(self).spec_maps(),
    {
        if (id as usize) < self.maps.len() {
            Some(&mut self.maps[id as usize])
        } else {
            None
        }
    }
}

/// Largest map scale whose exploration stays within 32-bit coordinates.
pub const MAX_EXPLORE_SCALE: u8 = 16;

/// Largest distance from the world origin, in blocks, of a map centre or an explorer.
pub const EXPLORE_COORD_LIMIT: i32 = 268435456;

/// Blocks a pixel covers at `scale`.
fn scale_factor(scale: u8) -> (r: i64)
    requires
        scale <= MAX_EXPLORE_SCALE,
    ensures
        r == pow2(scale as nat),
        1 <= r <= 65536,
{
    let mut f: i64 = 1;
    let mut k: u8 = 0;
    while k < scale
        invariant
            k <= scale <= MAX_EXPLORE_SCALE,
            f == pow2(k as nat),
        decreases scale - k,
    {
        proof {
            lemma_pow2_bound(k as nat);
        }
        f = f * 2;
        k = k + 1;
    }
    proof {
        lemma_pow2_bound(scale as nat);
    }
    f
}

proof fn lemma_pow2_monotone(n: nat, m: nat)
    requires
        n <= m,
    ensures
        1 <= pow2(n) <= pow2(m),
    decreases m,
{
    if n < m {
        lemma_pow2_monotone(n, (m - 1) as nat);
    } else if n > 0 {
        lemma_pow2_monotone((n - 1) as nat, (m - 1) as nat);
    }
}

proof fn lemma_pow2_bound(n: nat)
    requires
        n <= 16,
    ensures
        1 <= pow2(n) <= 65536,
{
    reveal_with_fuel(pow2, 17);
    assert(pow2(16) == 65536);
    lemma_pow2_monotone(n, 16);
}

/// `v` divided by `f`, rounding toward zero.
fn div_toward_zero(v: i64, f: i64) -> (r: i64)
    requires
        f >= 1,
        -0x1_0000_0000 <= v <= 0x1_0000_0000,
    ensures
        r == (if v >= 0 { (v as int) / (f as int) } else { -((-(v as int)) / (f as int)) }),
{
    if v >= 0 {
        v / f
    } else {
        let w: i64 = -v;
        -(w / f)
    }
}

/// Whether `c` is a colour that `sample` may give for a world column within `radius` blocks of
/// (`px`, `pz`) that falls on pixel `i` of map `m`.
pub open spec fn sampled_pixel<F: Fn(i32, i32) -> u8>(
    m: MapData,
    sample: F,
    px: int,
    pz: int,
    radius: int,
    i: int,
    c: u8,
) -> bool {
    exists|x: i32, z: i32|
        px - radius <= x <= px + radius && pz - radius <= z <= pz + radius && pixel_index(m, x as int, z as int) == Some(i)
            && #[trigger] sample.ensures((x, z), c)
}

/// World column visited at step `t` of a sweep over the square of radius `r` around
/// (`px`, `pz`): rows from the smallest `z` up, each row from the smallest `x` up.
pub open spec fn sweep_column(px: int, pz: int, r: int, t: int) -> (int, int) {
    let w = 2 * r + 1;
    (px - r + t % w, pz - r + t / w)
}

/// Colours and number of changes after a sweep step that visits world column `col` and samples
/// colour `c` there: a column on the map whose pixel shows another colour takes `c`.
pub open spec fn sweep_step(m: MapData, colors: Seq<u8>, changed: int, col: (int, int), c: u8) -> (Seq<u8>, int) {
    match pixel_index(m, col.0, col.1) {
        Some(i) => if colors[i] != c {
            (colors.update(i, c), changed + 1)
        } else {
            (colors, changed)
        },
        None => (colors, changed),
    }
}

/// Colours and number of changes after the first `s.len()` steps of a sweep over map `m`,
/// step `t` sampling colour `s[t]`.
pub open spec fn sweep_run(m: MapData, px: int, pz: int, r: int, s: Seq<u8>) -> (Seq<u8>, int)
    decreases s.len(),
{
    if s.len() == 0 {
        (m.colors@, 0)
    } else {
        let prev = sweep_run(m, px, pz, r, s.drop_last());
        sweep_step(m, prev.0, prev.1, sweep_column(px, pz, r, s.len() - 1), s.last())
    }
}

/// Every step of `s` was taken while fewer than `max` pixels had changed, and at each step whose
/// column falls on the map, `s` holds a colour that `sample` may give for that column.
pub open spec fn sweep_steps_taken<F: Fn(i32, i32) -> u8>(
    m: MapData,
    sample: F,
    px: int,
    pz: int,
    r: int,
    max: int,
    s: Seq<u8>,
) -> bool {
    &&& forall|k: int| 0 <= k < s.len() ==> #[trigger] sweep_run(m, px, pz, r, s.take(k)).1 < max
    &&& forall|k: int|
        0 <= k < s.len() && pixel_index(m, sweep_column(px, pz, r, k).0, sweep_column(px, pz, r, k).1) is Some
            ==> sample.ensures(
            (sweep_column(px, pz, r, k).0 as i32, sweep_column(px, pz, r, k).1 as i32),
            #[trigger] s[k],
        )
}

/// `colors` and `updated` are what a sweep over map `m` leaves, with the colours `s` sampled:
/// the sweep stops after the last column of the square, or as soon as `max` pixels have changed.
pub open spec fn explored_with<F: Fn(i32, i32) -> u8>(
    m: MapData,
    sample: F,
    px: int,
    pz: int,
    r: int,
    max: int,
    s: Seq<u8>,
    colors: Seq<u8>,
    updated: int,
) -> bool {
    &&& s.len() <= (2 * r + 1) * (2 * r + 1)
    &&& sweep_steps_taken(m, sample, px, pz, r, max, s)
    &&& (s.len() == (2 * r + 1) * (2 * r + 1) || sweep_run(m, px, pz, r, s).1 >= max)
    &&& colors == sweep_run(m, px, pz, r, s).0
    &&& updated == sweep_run(m, px, pz, r, s).1
}

/// Step `(dz + r) * (2r + 1) + (dx + r)` of a sweep of radius `r` visits (`px + dx`, `pz + dz`).
proof fn lemma_sweep_column(px: int, pz: int, r: int, dx: int, dz: int)
    requires
        0 <= r,
        -r <= dx <= r,
        -r <= dz <= r,
    ensures
        sweep_column(px, pz, r, (dz + r) * (2 * r + 1) + (dx + r)) == (px + dx, pz + dz),
{
    let w = 2 * r + 1;
    let t = (dz + r) * w + (dx + r);
    vstd::arithmetic::div_mod::lemma_fundamental_div_mod_converse(t, w, dz + r, dx + r);
}

/// Taking one more sweep step that samples `c` extends what the earlier steps did.
proof fn lemma_sweep_push<F: Fn(i32, i32) -> u8>(
    m: MapData,
    sample: F,
    px: int,
    pz: int,
    r: int,
    max: int,
    s: Seq<u8>,
    c: u8,
)
    requires
        sweep_steps_taken(m, sample, px, pz, r, max, s),
        sweep_run(m, px, pz, r, s).1 < max,
        pixel_index(m, sweep_column(px, pz, r, s.len() as int).0, sweep_column(px, pz, r, s.len() as int).1) is Some
            ==> sample.ensures(
            (sweep_column(px, pz, r, s.len() as int).0 as i32, sweep_column(px, pz, r, s.len() as int).1 as i32),
            c,
        ),
    ensures
        sweep_steps_taken(m, sample, px, pz, r, max, s.push(c)),
        sweep_run(m, px, pz, r, s.push(c)) == sweep_step(
            m,
            sweep_run(m, px, pz, r, s).0,
            sweep_run(m, px, pz, r, s).1,
            sweep_column(px, pz, r, s.len() as int),
            c,
        ),
{
    let s2 = s.push(c);
    assert(s2.drop_last() =~= s);
    assert forall|k: int| 0 <= k < s2.len() implies #[trigger] sweep_run(m, px, pz, r, s2.take(k)).1 < max by {
        if k < s.len() {
            assert(s2.take(k) =~= s.take(k));
        } else {
            assert(s2.take(k) =~= s);
        }
    }
    assert forall|k: int|
        0 <= k < s2.len() && pixel_index(m, sweep_column(px, pz, r, k).0, sweep_column(px, pz, r, k).1) is Some
        implies sample.ensures(
        (sweep_column(px, pz, r, k).0 as i32, sweep_column(px, pz, r, k).1 as i32),
        #[trigger] s2[k],
    ) by {
        if k < s.len() {
            assert(s2[k] == s[k]);
        }
    }
}

impl MapData {
    /// Index of the pixel that world column (`x`, `z`) falls on, when it falls on the map.
    pub fn pixel_of(&self, x: i32, z: i32) -> (r: Option<usize>)
        requires
            self.scale <= MAX_EXPLORE_SCALE,
            -2 * EXPLORE_COORD_LIMIT <= x <= 2 * EXPLORE_COORD_LIMIT,
            -2 * EXPLORE_COORD_LIMIT <= z <= 2 * EXPLORE_COORD_LIMIT,
            -EXPLORE_COORD_LIMIT <= self.center_x <= EXPLORE_COORD_LIMIT,
            -EXPLORE_COORD_LIMIT <= self.center_z <= EXPLORE_COORD_LIMIT,
        ensures
            match r {
                Some(i) => pixel_index(*self, x as int, z as int) == Some(i as int) && i < MAP_SIZE * MAP_SIZE,
                None => pixel_index(*self, x as int, z as int) is None,
            },
    {
        let f = scale_factor(self.scale);
        let half: i64 = 64 * f;
        let mx = div_toward_zero(x as i64 - self.center_x as i64 + half, f);
        let mz = div_toward_zero(z as i64 - self.center_z as i64 + half, f);
        proof {
            assert(MAP_SIZE as int / 2 == 64);
        }
        if 0 <= mx && mx < 128 && 0 <= mz && mz < 128 {
            Some((mz as usize) * MAP_SIZE + (mx as usize))
        } else {
            None
        }
    }

    /// Colour the pixels around an explorer standing on world column (`px`, `pz`): every column
    /// within `16 * 2^scale` blocks, row by row, that falls on the map takes the colour that
    /// `sample_color_at` gives for it. Stops once `max_pixels_update` pixels have changed, and
    /// does nothing in another dimension. Gives back how many pixel changes it made.
    pub fn update_explored_pixels<F: Fn(i32, i32) -> u8>(
        &mut self,
        px: i32,
        pz: i32,
        dimension: Dimension,
        sample_color_at: F,
        max_pixels_update: usize,
    ) -> (updated: usize)
        requires
            old(self).colors@.len() == MAP_SIZE * MAP_SIZE,
            old(self).scale <= MAX_EXPLORE_SCALE,
            -EXPLORE_COORD_LIMIT <= px <= EXPLORE_COORD_LIMIT,
            -EXPLORE_COORD_LIMIT <= pz <= EXPLORE_COORD_LIMIT,
            -EXPLORE_COORD_LIMIT <= old(self).center_x <= EXPLORE_COORD_LIMIT,
            -EXPLORE_COORD_LIMIT <= old(self).center_z <= EXPLORE_COORD_LIMIT,
            forall|x: i32, z: i32| sample_color_at.requires((x, z)),
        ensures
            updated <= max_pixels_update,
            final(self).id == old(self).id,
            final(self).dimension == old(self).dimension,
            final(self).center_x == old(self).center_x,
            final(self).center_z == old(self).center_z,
            final(self).scale == old(self).scale,
            final(self).colors@.len() == old(self).colors@.len(),
            dimension != old(self).dimension ==> updated == 0,
            updated == 0 ==> final(self).colors@ == old(self).colors@,
            forall|i: int|
                0 <= i < MAP_SIZE * MAP_SIZE ==> #[trigger] final(self).colors@[i] == old(self).colors@[i] || sampled_pixel(
                    *old(self),
                    sample_color_at,
                    px as int,
                    pz as int,
                    16 * pow2(old(self).scale as nat) as int,
                    i,
                    final(self).colors@[i],
                ),
            dimension == old(self).dimension ==> exists|s: Seq<u8>|
                #[trigger] explored_with(
                    *old(self),
                    sample_color_at,
                    px as int,
                    pz as int,
                    16 * pow2(old(self).scale as nat) as int,
                    max_pixels_update as int,
                    s,
                    final(self).colors@,
                    updated as int,
                ),
    {
        if self.dimension != dimension {
            return 0;
        }
        let f = scale_factor(self.scale);
        let radius: i64 = 16 * f;
        let ghost start = *self;
        let mut updated: usize = 0;
        let ghost mut s: Seq<u8> = Seq::empty();
        let mut dz: i64 = -radius;
        proof {
            assert((dz + radius) * (2 * radius + 1) == 0) by (nonlinear_arith)
                requires
                    dz + radius == 0,
            ;
        }
        while dz <= radius
            invariant
                radius == 16 * pow2(start.scale as nat),
                1 <= f <= 65536,
                radius == 16 * f,
                -radius <= dz <= radius + 1,
                updated <= max_pixels_update,
                s.len() == (dz + radius) * (2 * radius + 1),
                sweep_steps_taken(start, sample_color_at, px as int, pz as int, radius as int, max_pixels_update as int, s),
                self.colors@ == sweep_run(start, px as int, pz as int, radius as int, s).0,
                updated == sweep_run(start, px as int, pz as int, radius as int, s).1,
                start == *old(self),
                start.colors@.len() == MAP_SIZE * MAP_SIZE,
                dimension == start.dimension,
                self.id == start.id,
                self.dimension == start.dimension,
                self.center_x == start.center_x,
                self.center_z == start.center_z,
                self.scale == start.scale,
                self.colors@.len() == MAP_SIZE * MAP_SIZE,
                updated == 0 ==> self.colors@ == start.colors@,
                -EXPLORE_COORD_LIMIT <= px <= EXPLORE_COORD_LIMIT,
                -EXPLORE_COORD_LIMIT <= pz <= EXPLORE_COORD_LIMIT,
                start.scale <= MAX_EXPLORE_SCALE,
                -EXPLORE_COORD_LIMIT <= start.center_x <= EXPLORE_COORD_LIMIT,
                -EXPLORE_COORD_LIMIT <= start.center_z <= EXPLORE_COORD_LIMIT,
                forall|x: i32, z: i32| sample_color_at.requires((x, z)),
                forall|i: int|
                    0 <= i < MAP_SIZE * MAP_SIZE ==> #[trigger] self.colors@[i] == start.colors@[i] || sampled_pixel(
                        start,
                        sample_color_at,
                        px as int,
                        pz as int,
                        radius as int,
                        i,
                        self.colors@[i],
                    ),
            decreases radius + 1 - dz,
        {
            let mut dx: i64 = -radius;
            while dx <= radius
                invariant
                    radius == 16 * pow2(start.scale as nat),
                    1 <= f <= 65536,
                    radius == 16 * f,
                    -radius <= dz <= radius,
                    -radius <= dx <= radius + 1,
                    updated <= max_pixels_update,
                    s.len() == (dz + radius) * (2 * radius + 1) + (dx + radius),
                    sweep_steps_taken(start, sample_color_at, px as int, pz as int, radius as int, max_pixels_update as int, s),
                    self.colors@ == sweep_run(start, px as int, pz as int, radius as int, s).0,
                    updated == sweep_run(start, px as int, pz as int, radius as int, s).1,
                    start == *old(self),
                    start.colors@.len() == MAP_SIZE * MAP_SIZE,
                    dimension == start.dimension,
                    self.id == start.id,
                    self.dimension == start.dimension,
                    self.center_x == start.center_x,
                    self.center_z == start.center_z,
                    self.scale == start.scale,
                    self.colors@.len() == MAP_SIZE * MAP_SIZE,
                    updated == 0 ==> self.colors@ == start.colors@,
                    -EXPLORE_COORD_LIMIT <= px <= EXPLORE_COORD_LIMIT,
                    -EXPLORE_COORD_LIMIT <= pz <= EXPLORE_COORD_LIMIT,
                    start.scale <= MAX_EXPLORE_SCALE,
                    -EXPLORE_COORD_LIMIT <= start.center_x <= EXPLORE_COORD_LIMIT,
                    -EXPLORE_COORD_LIMIT <= start.center_z <= EXPLORE_COORD_LIMIT,
                    forall|x: i32, z: i32| sample_color_at.requires((x, z)),
                    forall|i: int|
                        0 <= i < MAP_SIZE * MAP_SIZE ==> #[trigger] self.colors@[i] == start.colors@[i] || sampled_pixel(
                            start,
                            sample_color_at,
                            px as int,
                            pz as int,
                            radius as int,
                            i,
                            self.colors@[i],
                        ),
                decreases radius + 1 - dx,
            {
                proof {
                    let w = 2 * radius + 1;
                    assert((dz + radius) * w + (dx + radius) <= w * w) by (nonlinear_arith)
                        requires
                            0 <= dz + radius <= 2 * radius,
                            0 <= dx + radius <= 2 * radius,
                            w == 2 * radius + 1,
                    ;
                }
                if updated >= max_pixels_update {
                    proof {
                        assert(explored_with(
                            start,
                            sample_color_at,
                            px as int,
                            pz as int,
                            radius as int,
                            max_pixels_update as int,
                            s,
                            self.colors@,
                            updated as int,
                        ));
                    }
                    return updated;
                }
                proof {
                    lemma_sweep_column(px as int, pz as int, radius as int, dx as int, dz as int);
                }
                let ghost before = self.colors@;
                let ghost mut c: u8 = 0u8;
                let world_x = (px as i64 + dx) as i32;
                let world_z = (pz as i64 + dz) as i32;
                match self.pixel_of(world_x, world_z) {
                    Some(idx) => {
                        let color = sample_color_at(world_x, world_z);
                        proof {
                            c = color;
                        }
                        if self.colors[idx] != color {
                            let ghost before = self.colors@;
                            self.colors.set(idx, color);
                            updated += 1;
                            proof {
                                assert(pixel_index(start, world_x as int, world_z as int) == Some(idx as int));
                                assert(sampled_pixel(start, sample_color_at, px as int, pz as int, radius as int, idx as int, color));
                                assert forall|i: int| 0 <= i < MAP_SIZE * MAP_SIZE implies #[trigger] self.colors@[i]
                                    == start.colors@[i] || sampled_pixel(
                                    start,
                                    sample_color_at,
                                    px as int,
                                    pz as int,
                                    radius as int,
                                    i,
                                    self.colors@[i],
                                ) by {
                                    if i != idx {
                                        assert(self.colors@[i] == before[i]);
                                    }
                                }
                            }
                        }
                    },
                    None => {},
                }
                proof {
                    lemma_sweep_push(
                        start,
                        sample_color_at,
                        px as int,
                        pz as int,
                        radius as int,
                        max_pixels_update as int,
                        s,
                        c,
                    );
                    s = s.push(c);
                }
                dx += 1;
            }
            proof {
                let w = 2 * radius + 1;
                assert((dz + radius) * w + w == (dz + 1 + radius) * w) by (nonlinear_arith);
            }
            dz += 1;
        }
        proof {
            assert(explored_with(
                start,
                sample_color_at,
                px as int,
                pz as int,
                radius as int,
                max_pixels_update as int,
                s,
                self.colors@,
                updated as int,
            ));
        }
        updated
    }
}

} // verus!
