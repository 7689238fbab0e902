//! Columns of blocks with sky and block light, and the set of loaded columns.

use vstd::prelude::*;
use crate::block::BlockType;

verus! {

pub const CHUNK_WIDTH: usize = 16;
pub const CHUNK_DEPTH: usize = 16;
pub const SECTION_SIZE: usize = 16;
/// Highest light level.
pub const MAX_LIGHT: u8 = 15;

/// The vertical extent of a world: `min_y` inclusive to `max_y_exclusive`.
#[derive(Debug, Clone, Copy, PartialEq, Eq, Structural)]
pub struct WorldHeight {
    pub min_y: i32,
    pub max_y_exclusive: i32,
}

impl WorldHeight {
    /// Whole sections, at most 512 of them, around y = 0.
    pub open spec fn wf(self) -> bool {
        &&& -4096 <= self.min_y < self.max_y_exclusive <= 4096
        &&& self.min_y % 16 == 0
        &&& self.max_y_exclusive % 16 == 0
    }

    pub open spec fn spec_contains_y(self, y: int) -> bool {
        self.min_y <= y < self.max_y_exclusive
    }

    /// True when `y` lies inside the world.
    pub fn contains_y(self, y: i32) -> (r: bool)
        ensures
            r == self.spec_contains_y(y as int),
    {
        self.min_y <= y && y < self.max_y_exclusive
    }

    pub fn min_y(self) -> (r: i32)
        ensures
            r == self.min_y,
    {
        self.min_y
    }

    pub fn max_y_exclusive(self) -> (r: i32)
        ensures
            r == self.max_y_exclusive,
    {
        self.max_y_exclusive
    }

    /// Number of blocks in one column of this height.
    pub open spec fn column_cells(self) -> int {
        256 * (self.max_y_exclusive - self.min_y)
    }

    /// Number of sections in one column of this height.
    pub open spec fn section_count(self) -> int {
        (self.max_y_exclusive - self.min_y) / 16
    }

    /// The overworld: from -64 up to 320.
    pub fn overworld() -> (r: WorldHeight)
        ensures
            r == (WorldHeight { min_y: -64i32, max_y_exclusive: 320i32 }),
            r.wf(),
    {
        WorldHeight { min_y: -64i32, max_y_exclusive: 320i32 }
    }
}

/// The dimensions a world has.
#[derive(Debug, Clone, Copy, PartialEq, Eq, Hash, Structural)]
pub enum Dimension {
    Overworld,
    Nether,
    End,
}

impl Dimension {
    pub open spec fn spec_height(self) -> WorldHeight {
        match self {
            Dimension::Overworld => WorldHeight { min_y: -64i32, max_y_exclusive: 320i32 },
            _ => WorldHeight { min_y: 0i32, max_y_exclusive: 256i32 },
        }
    }

    /// Vertical extent of this dimension.
    #[verifier::when_used_as_spec(spec_height)]
    pub fn height(self) -> (r: WorldHeight)
        ensures
            r == self.spec_height(),
            r.wf(),
    {
        match self {
            Dimension::Overworld => WorldHeight { min_y: -64i32, max_y_exclusive: 320i32 },
            _ => WorldHeight { min_y: 0i32, max_y_exclusive: 256i32 },
        }
    }

    pub open spec fn spec_has_sky_light(self) -> bool {
        self == Dimension::Overworld
    }

    /// True when daylight reaches this dimension from above.
    #[verifier::when_used_as_spec(spec_has_sky_light)]
    pub fn has_sky_light(self) -> (r: bool)
        ensures
            r == self.spec_has_sky_light(),
    {
        match self {
            Dimension::Overworld => true,
            _ => false,
        }
    }
}

/// Euclidean quotient by 16 (the chunk coordinate of a block coordinate).
pub fn div16(x: i32) -> (r: i32)
    ensures
        r == x as int / 16,
{
    match x.checked_div_euclid(16) {
        Some(q) => q,
        None => 0,
    }
}

/// Euclidean remainder by 16 (the position of a block inside its chunk).
pub fn mod16(x: i32) -> (r: i32)
    ensures
        r == x as int % 16,
        0 <= r < 16,
{
    match x.checked_rem_euclid(16) {
        Some(m) => m,
        None => 0,
    }
}

/// Which light a value belongs to.
#[derive(Debug, Clone, Copy, PartialEq, Eq, Structural)]
pub enum LightKind {
    Sky,
    Block,
}

/// One column of blocks (16 by 16, the world's full height), with a sky-light and a
/// block-light level (0 to 15) per block and a flag per 16-block section that tells
/// whether the section has been written.
pub struct Chunk {
    pub cx: i32,
    pub cz: i32,
    pub height: WorldHeight,
    pub blocks: Vec<BlockType>,
    pub sky: Vec<u8>,
    pub block_light: Vec<u8>,
    pub sections: Vec<bool>,
}

/// Position of block (`bx`, `wy`, `bz`) in a column whose bottom is `min_y`.
pub open spec fn cell_index(min_y: int, bx: int, wy: int, bz: int) -> int {
    ((wy - min_y) * 16 + bz) * 16 + bx
}

pub proof fn lemma_cell_index_bounds(h: WorldHeight, bx: int, wy: int, bz: int)
    requires
        h.wf(),
        0 <= bx < 16,
        0 <= bz < 16,
        h.spec_contains_y(wy),
    ensures
        0 <= cell_index(h.min_y as int, bx, wy, bz) < h.column_cells(),
{
}

/// Different blocks of a column have different positions.
pub proof fn lemma_cell_index_injective(min_y: int, bx: int, wy: int, bz: int, bx2: int, wy2: int, bz2: int)
    requires
        0 <= bx < 16,
        0 <= bz < 16,
        0 <= bx2 < 16,
        0 <= bz2 < 16,
        cell_index(min_y, bx, wy, bz) == cell_index(min_y, bx2, wy2, bz2),
    ensures
        bx == bx2 && wy == wy2 && bz == bz2,
{
}

impl Chunk {
    pub open spec fn spec_height(&self) -> WorldHeight {
        self.height
    }

    /// Storage sizes match the height, and every light level is at most 15.
    pub open spec fn wf(&self) -> bool {
        &&& self.height.wf()
        &&& self.blocks@.len() == self.height.column_cells()
        &&& self.sky@.len() == self.height.column_cells()
        &&& self.block_light@.len() == self.height.column_cells()
        &&& self.sections@.len() == self.height.section_count()
        &&& forall|i: int| 0 <= i < self.sky@.len() ==> self.sky@[i] <= 15
        &&& forall|i: int| 0 <= i < self.block_light@.len() ==> self.block_light@[i] <= 15
    }

    pub open spec fn light_vec(&self, kind: LightKind) -> Seq<u8> {
        match kind {
            LightKind::Sky => self.sky@,
            LightKind::Block => self.block_light@,
        }
    }

    /// Light of `kind` at block (`bx`, `wy`, `bz`); 0 outside the column's height.
    pub open spec fn light_at(&self, kind: LightKind, bx: int, wy: int, bz: int) -> u8 {
        if self.height.spec_contains_y(wy) {
            self.light_vec(kind)[cell_index(self.height.min_y as int, bx, wy, bz)]
        } else {
            0
        }
    }

    /// Block at (`bx`, `wy`, `bz`); air outside the column's height.
    pub open spec fn block_at(&self, bx: int, wy: int, bz: int) -> BlockType {
        if self.height.spec_contains_y(wy) {
            self.blocks@[cell_index(self.height.min_y as int, bx, wy, bz)]
        } else {
            BlockType::Air
        }
    }

    /// True when the section holding `wy` has been written.
    pub open spec fn section_at(&self, wy: int) -> bool {
        self.sections@[(wy - self.height.min_y) / 16]
    }

    /// The same column with the light of `kind` at one block changed to `val`.
    pub open spec fn light_updated(&self, other: &Chunk, kind: LightKind, bx: int, wy: int, bz: int, val: u8) -> bool {
        &&& other.cx == self.cx
        &&& other.cz == self.cz
        &&& other.height == self.height
        &&& other.blocks@ == self.blocks@
        &&& other.sections@ == self.sections@.update((wy - self.height.min_y) / 16, true)
        &&& other.light_vec(kind) == self.light_vec(kind).update(cell_index(self.height.min_y as int, bx, wy, bz), val)
        &&& other.light_vec(other_kind(kind)) == self.light_vec(other_kind(kind))
    }

    fn filled(cx: i32, cz: i32, height: WorldHeight, sky: u8, present: bool) -> (r: Chunk)
        requires
            height.wf(),
            sky <= 15,
        ensures
            r.wf(),
            r.cx == cx,
            r.cz == cz,
            r.height == height,
            forall|i: int| 0 <= i < r.blocks@.len() ==> r.blocks@[i] == BlockType::Air,
            forall|i: int| 0 <= i < r.sky@.len() ==> r.sky@[i] == sky,
            forall|i: int| 0 <= i < r.block_light@.len() ==> r.block_light@[i] == 0,
            forall|i: int| 0 <= i < r.sections@.len() ==> r.sections@[i] == present,
    {
        let n = (256 * (height.max_y_exclusive - height.min_y)) as usize;
        let mut blocks: Vec<BlockType> = Vec::new();
        let mut skyv: Vec<u8> = Vec::new();
        let mut blockv: Vec<u8> = Vec::new();
        let mut i: usize = 0;
        while i < n
            invariant
                i <= n,
                n == height.column_cells(),
                blocks@.len() == i,
                skyv@.len() == i,
                blockv@.len() == i,
                forall|j: int| 0 <= j < i ==> blocks@[j] == BlockType::Air,
                forall|j: int| 0 <= j < i ==> skyv@[j] == sky,
                forall|j: int| 0 <= j < i ==> blockv@[j] == 0,
            decreases n - i,
        {
            blocks.push(BlockType::Air);
            skyv.push(sky);
            blockv.push(0);
            i += 1;
        }
        let s = ((height.max_y_exclusive - height.min_y) / 16) as usize;
        let mut sections: Vec<bool> = Vec::new();
        let mut k: usize = 0;
        while k < s
            invariant
                k <= s,
                s == height.section_count(),
                sections@.len() == k,
                forall|j: int| 0 <= j < k ==> sections@[j] == present,
            decreases s - k,
        {
            sections.push(present);
            k += 1;
        }
        Chunk { cx, cz, height, blocks, sky: skyv, block_light: blockv, sections }
    }

    /// A column of air in the overworld whose sections all count as written, lit by the full sky.
    pub fn new(cx: i32, cz: i32) -> (r: Chunk)
        ensures
            r.wf(),
            r.cx == cx,
            r.cz == cz,
            r.height == (WorldHeight { min_y: -64i32, max_y_exclusive: 320i32 }),
    {
        Self::filled(cx, cz, WorldHeight::overworld(), 15, true)
    }

    /// A column of air in the overworld with no section written, lit by the full sky.
    pub fn empty(cx: i32, cz: i32) -> (r: Chunk)
        ensures
            r.wf(),
            r.cx == cx,
            r.cz == cz,
            r.height == (WorldHeight { min_y: -64i32, max_y_exclusive: 320i32 }),
            forall|i: int| 0 <= i < r.sections@.len() ==> !r.sections@[i],
    {
        Self::filled(cx, cz, WorldHeight::overworld(), 15, false)
    }

    /// Vertical extent of the column.
    pub fn height(&self) -> (r: WorldHeight)
        ensures
            r == self.height,
    {
        self.height
    }

    /// Heights the column covers.
    pub fn world_y_range(&self) -> (r: std::ops::Range<i32>)
        ensures
            r.start == self.height.min_y,
            r.end == self.height.max_y_exclusive,
    {
        self.height.min_y..self.height.max_y_exclusive
    }

    /// Number of sections.
    pub fn section_count(&self) -> (r: usize)
        requires
            self.wf(),
        ensures
            r == self.height.section_count(),
    {
        self.sections.len()
    }

    /// True when section `idx` has been written.
    pub fn section_present(&self, idx: usize) -> (r: bool)
        requires
            self.wf(),
            idx < self.height.section_count(),
        ensures
            r == self.sections@[idx as int],
    {
        self.sections[idx]
    }

    /// Section coordinate (world y divided by 16) of section `idx`.
    pub fn section_y_at_index(&self, idx: usize) -> (r: i32)
        requires
            self.wf(),
            idx < self.height.section_count(),
        ensures
            r == self.height.min_y / 16 + idx,
    {
        self.height.min_y / 16 + idx as i32
    }

    fn index(&self, bx: usize, wy: i32, bz: usize) -> (r: usize)
        requires
            self.wf(),
            bx < 16,
            bz < 16,
            self.height.spec_contains_y(wy as int),
        ensures
            r == cell_index(self.height.min_y as int, bx as int, wy as int, bz as int),
            r < self.height.column_cells(),
    {
        proof {
            lemma_cell_index_bounds(self.height, bx as int, wy as int, bz as int);
        }
        (((wy - self.height.min_y) as usize * 16 + bz) * 16 + bx)
    }

    /// Block at (`bx`, `wy`, `bz`); air outside the column's height.
    pub fn get_block_local(&self, bx: usize, wy: i32, bz: usize) -> (r: BlockType)
        requires
            self.wf(),
            bx < 16,
            bz < 16,
        ensures
            r == self.block_at(bx as int, wy as int, bz as int),
    {
        if !self.height.contains_y(wy) {
            return BlockType::Air;
        }
        let i = self.index(bx, wy, bz);
        self.blocks[i]
    }

    /// Light of `kind` at (`bx`, `wy`, `bz`); 0 outside the column's height.
    pub fn get_light(&self, kind: LightKind, bx: usize, wy: i32, bz: usize) -> (r: u8)
        requires
            self.wf(),
            bx < 16,
            bz < 16,
        ensures
            r == self.light_at(kind, bx as int, wy as int, bz as int),
            r <= 15,
    {
        if !self.height.contains_y(wy) {
            return 0;
        }
        let i = self.index(bx, wy, bz);
        match kind {
            LightKind::Sky => self.sky[i],
            LightKind::Block => self.block_light[i],
        }
    }

    /// Sky light at (`bx`, `wy`, `bz`).
    pub fn get_sky_light(&self, bx: usize, wy: i32, bz: usize) -> (r: u8)
        requires
            self.wf(),
            bx < 16,
            bz < 16,
        ensures
            r == self.light_at(LightKind::Sky, bx as int, wy as int, bz as int),
    {
        self.get_light(LightKind::Sky, bx, wy, bz)
    }

    /// Block light at (`bx`, `wy`, `bz`).
    pub fn get_block_light(&self, bx: usize, wy: i32, bz: usize) -> (r: u8)
        requires
            self.wf(),
            bx < 16,
            bz < 16,
        ensures
            r == self.light_at(LightKind::Block, bx as int, wy as int, bz as int),
    {
        self.get_light(LightKind::Block, bx, wy, bz)
    }

    /// Set the light of `kind` at (`bx`, `wy`, `bz`) to `val` mod 16 and mark its section written;
    /// nothing happens outside the column's height.
    pub fn set_light(&mut self, kind: LightKind, bx: usize, wy: i32, bz: usize, val: u8)
        requires
            old(self).wf(),
            bx < 16,
            bz < 16,
        ensures
            final(self).wf(),
            old(self).height.spec_contains_y(wy as int) ==> old(self).light_updated(
                final(self),
                kind,
                bx as int,
                wy as int,
                bz as int,
                val % 16,
            ),
            !old(self).height.spec_contains_y(wy as int) ==> *final(self) == *old(self),
    {
        if !self.height.contains_y(wy) {
            return;
        }
        let i = self.index(bx, wy, bz);
        let v = val % 16;
        match kind {
            LightKind::Sky => self.sky.set(i, v),
            LightKind::Block => self.block_light.set(i, v),
        }
        let s = ((wy - self.height.min_y) / 16) as usize;
        self.sections.set(s, true);
    }

    /// Set the sky light at (`bx`, `wy`, `bz`) to `val` mod 16.
    pub fn set_sky_light(&mut self, bx: usize, wy: i32, bz: usize, val: u8)
        requires
            old(self).wf(),
            bx < 16,
            bz < 16,
        ensures
            final(self).wf(),
            old(self).height.spec_contains_y(wy as int) ==> old(self).light_updated(
                final(self),
                LightKind::Sky,
                bx as int,
                wy as int,
                bz as int,
                val % 16,
            ),
            !old(self).height.spec_contains_y(wy as int) ==> *final(self) == *old(self),
    {
        self.set_light(LightKind::Sky, bx, wy, bz, val)
    }

    /// Set the block light at (`bx`, `wy`, `bz`) to `val` mod 16.
    pub fn set_block_light(&mut self, bx: usize, wy: i32, bz: usize, val: u8)
        requires
            old(self).wf(),
            bx < 16,
            bz < 16,
        ensures
            final(self).wf(),
            old(self).height.spec_contains_y(wy as int) ==> old(self).light_updated(
                final(self),
                LightKind::Block,
                bx as int,
                wy as int,
                bz as int,
                val % 16,
            ),
            !old(self).height.spec_contains_y(wy as int) ==> *final(self) == *old(self),
    {
        self.set_light(LightKind::Block, bx, wy, bz, val)
    }

    /// Put block `b` at (`bx`, `wy`, `bz`) and mark its section written; nothing happens outside
    /// the column's height.
    pub fn set_block_local(&mut self, bx: usize, wy: i32, bz: usize, b: BlockType)
        requires
            old(self).wf(),
            bx < 16,
            bz < 16,
        ensures
            final(self).wf(),
            final(self).cx == old(self).cx,
            final(self).cz == old(self).cz,
            final(self).height == old(self).height,
            final(self).sky@ == old(self).sky@,
            final(self).block_light@ == old(self).block_light@,
            old(self).height.spec_contains_y(wy as int) ==> final(self).blocks@ == old(self).blocks@.update(
                cell_index(old(self).height.min_y as int, bx as int, wy as int, bz as int),
                b,
            ),
            !old(self).height.spec_contains_y(wy as int) ==> final(self).blocks@ == old(self).blocks@,
    {
        if !self.height.contains_y(wy) {
            return;
        }
        let i = self.index(bx, wy, bz);
        self.blocks.set(i, b);
        let s = ((wy - self.height.min_y) / 16) as usize;
        self.sections.set(s, true);
    }
}

/// Loaded columns keyed by chunk coordinates; no key occurs twice.
pub struct ChunkMap {
    pub entries: Vec<((i32, i32), Chunk)>,
}

impl ChunkMap {
    pub open spec fn wf(&self) -> bool {
        forall|i: int, j: int|
            0 <= i < self.entries@.len() && 0 <= j < self.entries@.len() && i != j
                ==> #[trigger] self.entries@[i].0 != #[trigger] self.entries@[j].0
    }

    pub open spec fn has_key(&self, key: (i32, i32)) -> bool {
        exists|i: int| 0 <= i < self.entries@.len() && #[trigger] self.entries@[i].0 == key
    }

    /// The column stored under `key`, if any.
    pub open spec fn chunk_at(&self, key: (i32, i32)) -> Option<Chunk> {
        if self.has_key(key) {
            Some(self.entries@[choose|i: int| 0 <= i < self.entries@.len() && #[trigger] self.entries@[i].0 == key].1)
        } else {
            None
        }
    }

    pub proof fn lemma_chunk_at_index(&self, i: int)
        requires
            self.wf(),
            0 <= i < self.entries@.len(),
        ensures
            self.chunk_at(self.entries@[i].0) == Some(self.entries@[i].1),
    {
        let key = self.entries@[i].0;
        assert(self.has_key(key));
        let j = choose|j: int| 0 <= j < self.entries@.len() && #[trigger] self.entries@[j].0 == key;
        assert(j == i);
    }

    /// No column is stored.
    pub fn new() -> (r: ChunkMap)
        ensures
            r.wf(),
            r.entries@.len() == 0,
            forall|k: (i32, i32)| r.chunk_at(k) is None,
    {
        ChunkMap { entries: Vec::new() }
    }

    fn find(&self, key: &(i32, i32)) -> (r: Option<usize>)
        ensures
            r matches Some(i) ==> i < self.entries@.len() && self.entries@[i as int].0 == *key,
            r is None ==> !self.has_key(*key),
    {
        let n = self.entries.len();
        let mut i: usize = 0;
        while i < n
            invariant
                n == self.entries@.len(),
                i <= n,
                forall|j: int| 0 <= j < i ==> self.entries@[j].0 != *key,
            decreases n - i,
        {
            if self.entries[i].0.0 == key.0 && self.entries[i].0.1 == key.1 {
                return Some(i);
            }
            i += 1;
        }
        None
    }

    /// The column stored under `key`, if any.
    pub fn get(&self, key: &(i32, i32)) -> (r: Option<&Chunk>)
        requires
            self.wf(),
        ensures
            (r is Some) == (self.chunk_at(*key) is Some),
            r matches Some(c) ==> *c == self.chunk_at(*key)->Some_0,
    {
        match self.find(key) {
            Some(i) => {
                proof {
                    self.lemma_chunk_at_index(i as int);
                }
                Some(&self.entries[i].1)
            },
            None => None,
        }
    }

    /// True when a column is stored under `key`.
    pub fn contains_key(&self, key: &(i32, i32)) -> (r: bool)
        ensures
            r == self.has_key(*key),
    {
        self.find(key).is_some()
    }

    /// Take the column stored under `key` out of the map.
    pub fn remove(&mut self, key: &(i32, i32)) -> (r: Option<Chunk>)
        requires
            old(self).wf(),
        ensures
            final(self).wf(),
            r == old(self).chunk_at(*key),
            forall|k: (i32, i32)| #[trigger] final(self).chunk_at(k) == if k == *key {
                None
            } else {
                old(self).chunk_at(k)
            },
            forall|h: WorldHeight| old(self).columns_fit(h) ==> final(self).columns_fit(h),
    {
        match self.find(key) {
            Some(i) => {
                let ghost before = self.entries@;
                proof {
                    self.lemma_chunk_at_index(i as int);
                }
                let (_, c) = self.entries.swap_remove(i);
                proof {
                    assert forall|h: WorldHeight| old(self).columns_fit(h) implies self.columns_fit(h) by {
                        assert forall|a: int| 0 <= a < self.entries@.len() implies (#[trigger] self.entries@[a]).1.wf()
                            && self.entries@[a].1.height == h by {
                            let a0 = if a == i && i < self.entries@.len() { before.len() - 1 } else { a };
                            assert(self.entries@[a] == before[a0]);
                        }
                    }
                    assert forall|a: int, b: int|
                        0 <= a < self.entries@.len() && 0 <= b < self.entries@.len() && a != b
                            implies #[trigger] self.entries@[a].0 != #[trigger] self.entries@[b].0 by {
                        let a0 = if a == i && i < self.entries@.len() { before.len() - 1 } else { a };
                        let b0 = if b == i && i < self.entries@.len() { before.len() - 1 } else { b };
                        assert(self.entries@[a] == before[a0]);
                        assert(self.entries@[b] == before[b0]);
                    }
                    assert forall|k: (i32, i32)| #[trigger] self.chunk_at(k) == if k == *key {
                        None
                    } else {
                        old(self).chunk_at(k)
                    } by {
                        if k == *key {
                            if self.has_key(k) {
                                let a = choose|a: int| 0 <= a < self.entries@.len() && #[trigger] self.entries@[a].0 == k;
                                let a0 = if a == i { before.len() - 1 } else { a };
                                assert(self.entries@[a] == before[a0]);
                            }
                        } else if old(self).has_key(k) {
                            let a = choose|a: int| 0 <= a < before.len() && #[trigger] before[a].0 == k;
                            old(self).lemma_chunk_at_index(a);
                            let a1 = if a == before.len() - 1 { i as int } else { a };
                            assert(self.entries@[a1] == before[a]);
                            self.lemma_chunk_at_index(a1);
                        } else {
                            if self.has_key(k) {
                                let a = choose|a: int| 0 <= a < self.entries@.len() && #[trigger] self.entries@[a].0 == k;
                                let a0 = if a == i { before.len() - 1 } else { a };
                                assert(self.entries@[a] == before[a0]);
                            }
                        }
                    }
                }
                Some(c)
            },
            None => {
                assert forall|k: (i32, i32)| #[trigger] self.chunk_at(k) == if k == *key {
                    None
                } else {
                    old(self).chunk_at(k)
                } by {}
                None
            },
        }
    }

    /// Store `chunk` under `key`, replacing and returning what was stored there.
    pub fn insert(&mut self, key: (i32, i32), chunk: Chunk) -> (r: Option<Chunk>)
        requires
            old(self).wf(),
        ensures
            final(self).wf(),
            r == old(self).chunk_at(key),
            forall|k: (i32, i32)| #[trigger] final(self).chunk_at(k) == if k == key {
                Some(chunk)
            } else {
                old(self).chunk_at(k)
            },
            forall|h: WorldHeight| old(self).columns_fit(h) && chunk.wf() && chunk.height == h ==> final(self).columns_fit(h),
    {
        let old_chunk = self.remove(&key);
        let ghost mid = self.entries@;
        assert(self.chunk_at(key) is None);
        assert(!self.has_key(key));
        assert(forall|b: int| 0 <= b < mid.len() ==> #[trigger] mid[b].0 != key);
        assert forall|a: int| 0 <= a < mid.len() implies old(self).chunk_at(#[trigger] mid[a].0) == Some(mid[a].1) by {
            self.lemma_chunk_at_index(a);
            assert(self.chunk_at(mid[a].0) == old(self).chunk_at(mid[a].0));
        }
        assert forall|k: (i32, i32)| k != key && #[trigger] old(self).chunk_at(k) is Some implies self.has_key(k) by {
            assert(self.chunk_at(k) == old(self).chunk_at(k));
        }
        self.entries.push((key, chunk));
        proof {
            assert forall|h: WorldHeight| old(self).columns_fit(h) && chunk.wf() && chunk.height == h implies self.columns_fit(h) by {
                assert(mid.len() + 1 == self.entries@.len());
                assert forall|a: int| 0 <= a < self.entries@.len() implies (#[trigger] self.entries@[a]).1.wf()
                    && self.entries@[a].1.height == h by {
                    if a < mid.len() {
                        assert(self.entries@[a] == mid[a]);
                    }
                }
            }
            assert(self.entries@ == mid.push((key, chunk)));
            assert forall|a: int, b: int|
                0 <= a < self.entries@.len() && 0 <= b < self.entries@.len() && a != b
                    implies #[trigger] self.entries@[a].0 != #[trigger] self.entries@[b].0 by {
                if a < mid.len() && b < mid.len() {
                    assert(self.entries@[a] == mid[a]);
                    assert(self.entries@[b] == mid[b]);
                } else if a < mid.len() {
                    assert(self.entries@[a] == mid[a]);
                } else {
                    assert(self.entries@[b] == mid[b]);
                }
            }
            assert forall|k: (i32, i32)| #[trigger] self.chunk_at(k) == if k == key {
                Some(chunk)
            } else {
                old(self).chunk_at(k)
            } by {
                if k == key {
                    self.lemma_chunk_at_index(mid.len() as int);
                } else {
                    if self.has_key(k) {
                        let a = choose|a: int| 0 <= a < self.entries@.len() && #[trigger] self.entries@[a].0 == k;
                        self.lemma_chunk_at_index(a);
                        assert(a < mid.len());
                        assert(self.entries@[a] == mid[a]);
                    } else {
                        if old(self).chunk_at(k) is Some {
                            let a = choose|a: int| 0 <= a < mid.len() && #[trigger] mid[a].0 == k;
                            assert(self.entries@[a] == mid[a]);
                        }
                    }
                }
            }
        }
        old_chunk
    }
}

impl ChunkMap {
    /// Every stored column is well formed and has height `h`.
    pub open spec fn columns_fit(&self, h: WorldHeight) -> bool {
        forall|i: int| 0 <= i < self.entries@.len() ==> (#[trigger] self.entries@[i]).1.wf() && self.entries@[i].1.height == h
    }

    pub proof fn lemma_chunk_fits(&self, h: WorldHeight, key: (i32, i32))
        requires
            self.wf(),
            self.columns_fit(h),
            self.chunk_at(key) is Some,
        ensures
            self.chunk_at(key)->Some_0.wf(),
            self.chunk_at(key)->Some_0.height == h,
    {
        let i = choose|i: int| 0 <= i < self.entries@.len() && #[trigger] self.entries@[i].0 == key;
        self.lemma_chunk_at_index(i);
    }

    /// Change the light of `kind` at one block of the column under `key` to `val` mod 16;
    /// nothing happens when no column is stored there.
    pub fn set_light_in(&mut self, key: (i32, i32), kind: LightKind, bx: usize, wy: i32, bz: usize, val: u8)
        requires
            old(self).wf(),
            forall|i: int| 0 <= i < old(self).entries@.len() ==> (#[trigger] old(self).entries@[i]).1.wf(),
            bx < 16,
            bz < 16,
        ensures
            final(self).wf(),
            forall|h: WorldHeight| old(self).columns_fit(h) ==> final(self).columns_fit(h),
            forall|k: (i32, i32)| k != key ==> #[trigger] final(self).chunk_at(k) == old(self).chunk_at(k),
            old(self).chunk_at(key) is None ==> final(self).chunk_at(key) is None,
            old(self).chunk_at(key) matches Some(c) ==> (final(self).chunk_at(key) matches Some(c2) && (if c.height.spec_contains_y(wy as int) {
                c.light_updated(&c2, kind, bx as int, wy as int, bz as int, val % 16)
            } else {
                c2 == c
            })),
    {
        match self.find(&key) {
            None => {},
            Some(i) => {
                let ghost before = self.entries@;
                proof {
                    self.lemma_chunk_at_index(i as int);
                }
                self.entries[i].1.set_light(kind, bx, wy, bz, val);
                proof {
                    assert(forall|j: int| 0 <= j < before.len() && j != i ==> self.entries@[j] == before[j]);
                    assert(self.entries@[i as int].0 == key);
                    assert(forall|j: int| 0 <= j < before.len() ==> #[trigger] self.entries@[j].0 == before[j].0);
                    self.lemma_chunk_at_index(i as int);
                    assert forall|k: (i32, i32)| k != key implies #[trigger] self.chunk_at(k) == old(self).chunk_at(k) by {
                        if old(self).has_key(k) {
                            let a = choose|a: int| 0 <= a < before.len() && #[trigger] before[a].0 == k;
                            old(self).lemma_chunk_at_index(a);
                            self.lemma_chunk_at_index(a);
                        }
                        if self.has_key(k) {
                            let a = choose|a: int| 0 <= a < before.len() && #[trigger] self.entries@[a].0 == k;
                            assert(before[a].0 == k);
                        }
                    }
                }
            },
        }
    }

    /// Put block `b` at one block of the column under `key`; nothing happens when no column is
    /// stored there.
    pub fn set_block_in(&mut self, key: (i32, i32), bx: usize, wy: i32, bz: usize, b: BlockType)
        requires
            old(self).wf(),
            forall|i: int| 0 <= i < old(self).entries@.len() ==> (#[trigger] old(self).entries@[i]).1.wf(),
            bx < 16,
            bz < 16,
        ensures
            final(self).wf(),
            forall|h: WorldHeight| old(self).columns_fit(h) ==> final(self).columns_fit(h),
            forall|k: (i32, i32)| k != key ==> #[trigger] final(self).chunk_at(k) == old(self).chunk_at(k),
            old(self).chunk_at(key) is None ==> final(self).chunk_at(key) is None,
            old(self).chunk_at(key) matches Some(c) ==> (final(self).chunk_at(key) matches Some(c2) && c2.wf()
                && c2.height == c.height && c2.sky@ == c.sky@ && c2.block_light@ == c.block_light@
                && (if c.height.spec_contains_y(wy as int) {
                    c2.blocks@ == c.blocks@.update(cell_index(c.height.min_y as int, bx as int, wy as int, bz as int), b)
                } else {
                    c2.blocks@ == c.blocks@
                })),
    {
        match self.find(&key) {
            None => {},
            Some(i) => {
                let ghost before = self.entries@;
                proof {
                    self.lemma_chunk_at_index(i as int);
                }
                self.entries[i].1.set_block_local(bx, wy, bz, b);
                proof {
                    assert(forall|j: int| 0 <= j < before.len() && j != i ==> self.entries@[j] == before[j]);
                    assert(forall|j: int| 0 <= j < before.len() ==> #[trigger] self.entries@[j].0 == before[j].0);
                    self.lemma_chunk_at_index(i as int);
                    assert forall|k: (i32, i32)| k != key implies #[trigger] self.chunk_at(k) == old(self).chunk_at(k) by {
                        if old(self).has_key(k) {
                            let a = choose|a: int| 0 <= a < before.len() && #[trigger] before[a].0 == k;
                            old(self).lemma_chunk_at_index(a);
                            self.lemma_chunk_at_index(a);
                        }
                        if self.has_key(k) {
                            let a = choose|a: int| 0 <= a < before.len() && #[trigger] self.entries@[a].0 == k;
                            assert(before[a].0 == k);
                        }
                    }
                }
            },
        }
    }
}

/// The loaded columns of one dimension.
pub struct ChunkManager {
    pub chunks: ChunkMap,
    pub dimension: Dimension,
    pub seed: u32,
    /// Blocks whose light changed, in order, for the renderer to pick up.
    pub light_changes: Vec<(i32, i32, i32)>,
}

/// Chunk coordinates of the column holding block column (`x`, `z`).
pub open spec fn column_key(x: int, z: int) -> (i32, i32) {
    ((x / 16) as i32, (z / 16) as i32)
}

/// Light of `kind` around the world for a given column lookup: full sky above the world when the
/// dimension has daylight, darkness below it and in columns that are not loaded.
pub open spec fn light_of_column(col: Option<Chunk>, h: WorldHeight, sky: bool, kind: LightKind, x: int, y: int, z: int) -> int {
    if !h.spec_contains_y(y) {
        if kind == LightKind::Sky && y >= h.max_y_exclusive && sky {
            15
        } else {
            0
        }
    } else {
        match col {
            Some(c) => c.light_at(kind, x % 16, y, z % 16) as int,
            None => 0,
        }
    }
}

impl ChunkManager {
    /// Every column is well formed and has the dimension's height.
    pub open spec fn wf(&self) -> bool {
        &&& self.chunks.wf()
        &&& self.chunks.columns_fit(self.dimension.spec_height())
    }

    /// The loaded column holding block column (`x`, `z`).
    pub open spec fn column(&self, x: int, z: int) -> Option<Chunk> {
        if i32::MIN <= x <= i32::MAX && i32::MIN <= z <= i32::MAX {
            self.chunks.chunk_at(column_key(x, z))
        } else {
            None
        }
    }

    /// Light of `kind` at a block, as the lighting engine sees it.
    pub open spec fn light(&self, kind: LightKind, x: int, y: int, z: int) -> int {
        light_of_column(self.column(x, z), self.dimension.spec_height(), self.dimension.spec_has_sky_light(), kind, x, y, z)
    }

    /// Block at a position; air outside the world and in columns that are not loaded.
    pub open spec fn block(&self, x: int, y: int, z: int) -> BlockType {
        match self.column(x, z) {
            Some(c) => c.block_at(x % 16, y, z % 16),
            None => BlockType::Air,
        }
    }

    /// An overworld with no column loaded.
    pub fn new(seed: u32) -> (r: ChunkManager)
        ensures
            r.wf(),
            r.dimension == Dimension::Overworld,
            r.seed == seed,
            forall|k: (i32, i32)| r.chunks.chunk_at(k) is None,
    {
        ChunkManager { chunks: ChunkMap::new(), dimension: Dimension::Overworld, seed, light_changes: Vec::new() }
    }

    proof fn lemma_entries_wf(&self)
        requires
            self.wf(),
        ensures
            forall|i: int| 0 <= i < self.chunks.entries@.len() ==> (#[trigger] self.chunks.entries@[i]).1.wf(),
    {
    }

    /// Block at (`wx`, `wy`, `wz`).
    pub fn get_block(&self, wx: i32, wy: i32, wz: i32) -> (r: BlockType)
        requires
            self.wf(),
        ensures
            r == self.block(wx as int, wy as int, wz as int),
    {
        let key = (div16(wx), div16(wz));
        match self.chunks.get(&key) {
            Some(c) => {
                proof {
                    self.chunks.lemma_chunk_fits(self.dimension.spec_height(), key);
                }
                c.get_block_local(mod16(wx) as usize, wy, mod16(wz) as usize)
            },
            None => BlockType::Air,
        }
    }

    /// Light of `kind` at (`wx`, `wy`, `wz`).
    pub fn get_light(&self, kind: LightKind, wx: i32, wy: i32, wz: i32) -> (r: u8)
        requires
            self.wf(),
        ensures
            r == self.light(kind, wx as int, wy as int, wz as int),
            r <= 15,
    {
        let h = self.dimension.height();
        if !h.contains_y(wy) {
            if kind == LightKind::Sky && wy >= h.max_y_exclusive && self.dimension.has_sky_light() {
                return 15;
            }
            return 0;
        }
        let key = (div16(wx), div16(wz));
        match self.chunks.get(&key) {
            Some(c) => {
                proof {
                    self.chunks.lemma_chunk_fits(self.dimension.spec_height(), key);
                }
                c.get_light(kind, mod16(wx) as usize, wy, mod16(wz) as usize)
            },
            None => 0,
        }
    }

    /// Sky light at (`wx`, `wy`, `wz`).
    pub fn get_sky_light(&self, wx: i32, wy: i32, wz: i32) -> (r: u8)
        requires
            self.wf(),
        ensures
            r == self.light(LightKind::Sky, wx as int, wy as int, wz as int),
            r <= 15,
    {
        self.get_light(LightKind::Sky, wx, wy, wz)
    }

    /// Block light at (`wx`, `wy`, `wz`).
    pub fn get_block_light(&self, wx: i32, wy: i32, wz: i32) -> (r: u8)
        requires
            self.wf(),
        ensures
            r == self.light(LightKind::Block, wx as int, wy as int, wz as int),
            r <= 15,
    {
        self.get_light(LightKind::Block, wx, wy, wz)
    }

    /// True when the light at (`x`, `y`, `z`) is stored: inside the world in a loaded column.
    pub open spec fn holds_light(&self, x: int, y: int, z: int) -> bool {
        self.dimension.spec_height().spec_contains_y(y) && self.column(x, z) is Some
    }

    /// Set the light of `kind` at (`wx`, `wy`, `wz`) to `val` mod 16; nothing happens outside the
    /// world or in a column that is not loaded.
    pub fn set_light(&mut self, kind: LightKind, wx: i32, wy: i32, wz: i32, val: u8)
        requires
            old(self).wf(),
        ensures
            final(self).wf(),
            final(self).dimension == old(self).dimension,
            final(self).seed == old(self).seed,
            final(self).light_changes@ == old(self).light_changes@,
            forall|x: int, y: int, z: int| #[trigger] final(self).light(kind, x, y, z) == if x == wx && y == wy && z == wz
                && old(self).holds_light(x, y, z) {
                (val % 16) as int
            } else {
                old(self).light(kind, x, y, z)
            },
            forall|x: int, y: int, z: int| #[trigger] final(self).light(other_kind(kind), x, y, z) == old(self).light(other_kind(kind), x, y, z),
            forall|x: int, y: int, z: int| #[trigger] final(self).block(x, y, z) == old(self).block(x, y, z),
            forall|x: int, z: int| (#[trigger] final(self).column(x, z) is Some) == (old(self).column(x, z) is Some),
            forall|k: (i32, i32)| k != column_key(wx as int, wz as int) ==> #[trigger] final(self).chunks.chunk_at(k) == old(self).chunks.chunk_at(k),
            old(self).column(wx as int, wz as int) is None ==> final(self).column(wx as int, wz as int) is None,
            old(self).column(wx as int, wz as int) matches Some(c) ==> (final(self).column(wx as int, wz as int) matches Some(c2) && (if c.height.spec_contains_y(wy as int) {
                c.light_updated(&c2, kind, wx as int % 16, wy as int, wz as int % 16, val % 16)
            } else {
                c2 == c
            })),
    {
        let key = (div16(wx), div16(wz));
        proof {
            self.lemma_entries_wf();
        }
        self.chunks.set_light_in(key, kind, mod16(wx) as usize, wy, mod16(wz) as usize, val);
        proof {
            if old(self).chunks.chunk_at(key) is Some {
                old(self).chunks.lemma_chunk_fits(old(self).dimension.spec_height(), key);
            }
            assert forall|x: int, y: int, z: int| #[trigger] self.light(kind, x, y, z) == if x == wx && y == wy && z == wz
                && old(self).holds_light(x, y, z) {
                (val % 16) as int
            } else {
                old(self).light(kind, x, y, z)
            } by {
                if column_key(x, z) == key && old(self).column(x, z) is Some {
                    let c = old(self).chunks.chunk_at(key)->Some_0;
                    if c.height.spec_contains_y(y) && c.height.spec_contains_y(wy as int) {
                        lemma_cell_index_bounds(c.height, x % 16, y, z % 16);
                        if cell_index(c.height.min_y as int, x % 16, y, z % 16) == cell_index(c.height.min_y as int, wx as int % 16, wy as int, wz as int % 16) {
                            lemma_cell_index_injective(c.height.min_y as int, x % 16, y, z % 16, wx as int % 16, wy as int, wz as int % 16);
                        }
                    }
                }
            }
            assert forall|x: int, y: int, z: int| #[trigger] self.light(other_kind(kind), x, y, z) == old(self).light(other_kind(kind), x, y, z) by {
            }
            assert forall|x: int, y: int, z: int| #[trigger] self.block(x, y, z) == old(self).block(x, y, z) by {
            }
            assert forall|x: int, z: int| (#[trigger] self.column(x, z) is Some) == (old(self).column(x, z) is Some) by {
            }
        }
    }

    /// Set the sky light at (`wx`, `wy`, `wz`) to `val` mod 16.
    pub fn set_sky_light(&mut self, wx: i32, wy: i32, wz: i32, val: u8)
        requires
            old(self).wf(),
        ensures
            final(self).wf(),
            final(self).dimension == old(self).dimension,
            final(self).seed == old(self).seed,
            final(self).light_changes@ == old(self).light_changes@,
            forall|k: (i32, i32)| k != column_key(wx as int, wz as int) ==> #[trigger] final(self).chunks.chunk_at(k) == old(self).chunks.chunk_at(k),
            old(self).column(wx as int, wz as int) is None ==> final(self).column(wx as int, wz as int) is None,
            old(self).column(wx as int, wz as int) matches Some(c) ==> (final(self).column(wx as int, wz as int) matches Some(c2) && (if c.height.spec_contains_y(wy as int) {
                c.light_updated(&c2, LightKind::Sky, wx as int % 16, wy as int, wz as int % 16, val % 16)
            } else {
                c2 == c
            })),
            forall|x: int, y: int, z: int| #[trigger] final(self).light(LightKind::Sky, x, y, z) == if x == wx && y == wy && z == wz
                && old(self).holds_light(x, y, z) {
                (val % 16) as int
            } else {
                old(self).light(LightKind::Sky, x, y, z)
            },
            forall|x: int, y: int, z: int| #[trigger] final(self).light(other_kind(LightKind::Sky), x, y, z) == old(self).light(other_kind(LightKind::Sky), x, y, z),
            forall|x: int, y: int, z: int| #[trigger] final(self).block(x, y, z) == old(self).block(x, y, z),
            forall|x: int, z: int| (#[trigger] final(self).column(x, z) is Some) == (old(self).column(x, z) is Some),
    {
        self.set_light(LightKind::Sky, wx, wy, wz, val)
    }

    /// Set the block light at (`wx`, `wy`, `wz`) to `val` mod 16.
    pub fn set_block_light(&mut self, wx: i32, wy: i32, wz: i32, val: u8)
        requires
            old(self).wf(),
        ensures
            final(self).wf(),
            final(self).dimension == old(self).dimension,
            final(self).seed == old(self).seed,
            final(self).light_changes@ == old(self).light_changes@,
            forall|k: (i32, i32)| k != column_key(wx as int, wz as int) ==> #[trigger] final(self).chunks.chunk_at(k) == old(self).chunks.chunk_at(k),
            old(self).column(wx as int, wz as int) is None ==> final(self).column(wx as int, wz as int) is None,
            old(self).column(wx as int, wz as int) matches Some(c) ==> (final(self).column(wx as int, wz as int) matches Some(c2) && (if c.height.spec_contains_y(wy as int) {
                c.light_updated(&c2, LightKind::Block, wx as int % 16, wy as int, wz as int % 16, val % 16)
            } else {
                c2 == c
            })),
            forall|x: int, y: int, z: int| #[trigger] final(self).light(LightKind::Block, x, y, z) == if x == wx && y == wy && z == wz
                && old(self).holds_light(x, y, z) {
                (val % 16) as int
            } else {
                old(self).light(LightKind::Block, x, y, z)
            },
            forall|x: int, y: int, z: int| #[trigger] final(self).light(other_kind(LightKind::Block), x, y, z) == old(self).light(other_kind(LightKind::Block), x, y, z),
            forall|x: int, y: int, z: int| #[trigger] final(self).block(x, y, z) == old(self).block(x, y, z),
            forall|x: int, z: int| (#[trigger] final(self).column(x, z) is Some) == (old(self).column(x, z) is Some),
    {
        self.set_light(LightKind::Block, wx, wy, wz, val)
    }

    /// Put block `b` at (`wx`, `wy`, `wz`); nothing happens outside the world or in a column that
    /// is not loaded. Light is left as it is.
    pub fn set_block(&mut self, wx: i32, wy: i32, wz: i32, b: BlockType)
        requires
            old(self).wf(),
        ensures
            final(self).wf(),
            final(self).dimension == old(self).dimension,
            final(self).light_changes@ == old(self).light_changes@,
            forall|k: (i32, i32)| k != column_key(wx as int, wz as int) ==> #[trigger] final(self).chunks.chunk_at(k) == old(self).chunks.chunk_at(k),
            forall|kind: LightKind, x: int, y: int, z: int| #[trigger] final(self).light(kind, x, y, z) == old(self).light(kind, x, y, z),
            forall|x: int, y: int, z: int| #[trigger] final(self).block(x, y, z) == if x == wx && y == wy && z == wz && old(self).column(x, z) is Some && old(self).dimension.spec_height().spec_contains_y(y) {
                b
            } else {
                old(self).block(x, y, z)
            },
    {
        let key = (div16(wx), div16(wz));
        proof {
            self.lemma_entries_wf();
        }
        self.chunks.set_block_in(key, mod16(wx) as usize, wy, mod16(wz) as usize, b);
        proof {
            assert forall|kind: LightKind, x: int, y: int, z: int| #[trigger] self.light(kind, x, y, z) == old(self).light(kind, x, y, z) by {
                if column_key(x, z) == key {
                    if old(self).chunks.chunk_at(key) is Some {
                        old(self).chunks.lemma_chunk_fits(old(self).dimension.spec_height(), key);
                    }
                }
            }
            assert forall|x: int, y: int, z: int| #[trigger] self.block(x, y, z) == if x == wx && y == wy && z == wz && old(self).column(x, z) is Some && old(self).dimension.spec_height().spec_contains_y(y) {
                b
            } else {
                old(self).block(x, y, z)
            } by {
                if column_key(x, z) == key {
                    if old(self).chunks.chunk_at(key) is Some {
                        old(self).chunks.lemma_chunk_fits(old(self).dimension.spec_height(), key);
                        let c = old(self).chunks.chunk_at(key)->Some_0;
                        if c.height.spec_contains_y(y) && c.height.spec_contains_y(wy as int) {
                            if cell_index(c.height.min_y as int, x % 16, y, z % 16) == cell_index(c.height.min_y as int, wx as int % 16, wy as int, wz as int % 16) {
                                lemma_cell_index_injective(c.height.min_y as int, x % 16, y, z % 16, wx as int % 16, wy as int, wz as int % 16);
                            }
                            lemma_cell_index_bounds(c.height, x % 16, y, z % 16);
                        }
                    }
                }
            }
        }
    }

    /// Every light level is at most 15.
    pub proof fn lemma_light_le_15(&self, kind: LightKind, x: int, y: int, z: int)
        requires
            self.wf(),
        ensures
            0 <= self.light(kind, x, y, z) <= 15,
    {
        if self.dimension.spec_height().spec_contains_y(y) {
            if let Some(c) = self.column(x, z) {
                self.chunks.lemma_chunk_fits(self.dimension.spec_height(), column_key(x, z));
                lemma_cell_index_bounds(c.height, x % 16, y, z % 16);
            }
        }
    }

    /// Record that the light at (`wx`, `wy`, `wz`) changed.
    pub fn note_light_cell_change(&mut self, wx: i32, wy: i32, wz: i32)
        ensures
            final(self).light_changes@ == old(self).light_changes@.push((wx, wy, wz)),
            final(self).chunks == old(self).chunks,
            final(self).dimension == old(self).dimension,
            final(self).seed == old(self).seed,
    {
        self.light_changes.push((wx, wy, wz));
    }
}

pub open spec fn other_kind(kind: LightKind) -> LightKind {
    match kind {
        LightKind::Sky => LightKind::Block,
        LightKind::Block => LightKind::Sky,
    }
}

} // verus!
