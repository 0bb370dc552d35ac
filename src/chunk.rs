use vstd::prelude::*;

use crate::block::{chunk_of, first_block_of, offset_in_chunk, AddXYZi32, Block, BlockPos};

verus! {

/// log2 of the chunk edge length.
pub const CHUNK_SIZE_EXP: u32 = 4;

/// Blocks along one edge of a chunk.
pub const CHUNK_SIZE: usize = 16;

/// Blocks along one edge of a chunk, as a coordinate.
pub const CHUNK_SIZE_I: i32 = 16;

/// Integer coordinate of a cube of 16 x 16 x 16 blocks.
#[derive(Clone, Copy, PartialEq, Eq, Structural, Debug, Hash)]
pub struct ChunkPos {
    pub x: i32,
    pub y: i32,
    pub z: i32,
}

impl ChunkPos {
    /// The chunk holds blocks whose coordinates fit in i32: these are exactly
    /// the chunks of some block.
    pub open spec fn is_addressable(self) -> bool {
        &&& -0x800_0000 <= self.x < 0x800_0000
        &&& -0x800_0000 <= self.y < 0x800_0000
        &&& -0x800_0000 <= self.z < 0x800_0000
    }

    pub open spec fn spec_from_block(b: BlockPos) -> ChunkPos {
        ChunkPos {
            x: chunk_of(b.x as int) as i32,
            y: chunk_of(b.y as int) as i32,
            z: chunk_of(b.z as int) as i32,
        }
    }

    pub open spec fn spec_block_min(self) -> BlockPos {
        BlockPos {
            x: first_block_of(self.x as int) as i32,
            y: first_block_of(self.y as int) as i32,
            z: first_block_of(self.z as int) as i32,
        }
    }

    pub open spec fn spec_block_max(self) -> BlockPos {
        BlockPos {
            x: (first_block_of(self.x as int) + 15) as i32,
            y: (first_block_of(self.y as int) + 15) as i32,
            z: (first_block_of(self.z as int) + 15) as i32,
        }
    }

    pub fn new(x: i32, y: i32, z: i32) -> (r: ChunkPos)
        ensures
            r == (ChunkPos { x, y, z }),
    {
        ChunkPos { x, y, z }
    }

    /// The chunk that holds a block: each axis floored by a shift.
    pub fn from_block(pos: BlockPos) -> (r: ChunkPos)
        ensures
            r == Self::spec_from_block(pos),
            r.is_addressable(),
    {
        ChunkPos {
            x: BlockPos::chunk_at(pos.x),
            y: BlockPos::chunk_at(pos.y),
            z: BlockPos::chunk_at(pos.z),
        }
    }

    /// The block with the smallest coordinates in this chunk.
    pub fn block_min(self) -> (r: BlockPos)
        requires
            self.is_addressable(),
        ensures
            r == self.spec_block_min(),
    {
        BlockPos { x: self.x * CHUNK_SIZE_I, y: self.y * CHUNK_SIZE_I, z: self.z * CHUNK_SIZE_I }
    }

    /// The block with the largest coordinates in this chunk.
    pub fn block_max(self) -> (r: BlockPos)
        requires
            self.is_addressable(),
        ensures
            r == self.spec_block_max(),
    {
        let min = self.block_min();
        BlockPos {
            x: min.x + (CHUNK_SIZE_I - 1),
            y: min.y + (CHUNK_SIZE_I - 1),
            z: min.z + (CHUNK_SIZE_I - 1),
        }
    }
}


/// Where the block at `(x, y, z)` inside a chunk is stored.
pub open spec fn block_index(x: int, y: int, z: int) -> int {
    x * 256 + y * 16 + z
}

/// The coordinates inside a chunk of the block stored at index `i`.
pub open spec fn index_coords(i: int) -> (int, int, int) {
    (i / 256, (i / 16) % 16, i % 16)
}

/// The blocks of one chunk: 16 x 16 x 16 cells and the chunk's coordinate.
pub struct Chunk {
    position: ChunkPos,
    blocks: Vec<Block>,
}

impl Chunk {
    /// The blocks, indexed by `block_index`.
    pub closed spec fn blocks(&self) -> Seq<Block> {
        self.blocks@
    }

    pub closed spec fn position(&self) -> ChunkPos {
        self.position
    }

    pub open spec fn wf(&self) -> bool {
        self.blocks().len() == 4096
    }

    /// The block at `(x, y, z)` inside the chunk.
    pub open spec fn block_at(&self, x: int, y: int, z: int) -> Block {
        self.blocks()[block_index(x, y, z)]
    }

    /// A chunk of empty blocks.
    pub fn empty(pos: ChunkPos) -> (r: Chunk)
        ensures
            r.wf(),
            r.position() == pos,
            forall|i: int| 0 <= i < 4096 ==> (#[trigger] r.blocks()[i]).id == 0,
    {
        let blocks = vec![Block { id: 0 }; 4096];
        Chunk { position: pos, blocks }
    }

    pub fn get_position(&self) -> (r: ChunkPos)
        ensures
            r == self.position(),
    {
        self.position
    }

    /// The block at `(x, y, z)` inside the chunk.
    pub fn get(&self, x: usize, y: usize, z: usize) -> (r: Block)
        requires
            self.wf(),
            x < 16 && y < 16 && z < 16,
        ensures
            r == self.block_at(x as int, y as int, z as int),
    {
        self.blocks[x * 256 + y * 16 + z]
    }

    /// Replaces the block at `(x, y, z)` inside the chunk.
    pub fn set(&mut self, x: usize, y: usize, z: usize, block: Block)
        requires
            old(self).wf(),
            x < 16 && y < 16 && z < 16,
        ensures
            final(self).wf(),
            final(self).position() == old(self).position(),
            final(self).blocks() == old(self).blocks().update(block_index(x as int, y as int, z as int), block),
    {
        self.blocks.set(x * 256 + y * 16 + z, block);
    }

    /// Walks the chunk's blocks with their world block coordinates, x slowest and z fastest.
    pub fn into_iter(self) -> (r: ChunkIntoIterator)
        requires
            self.wf(),
            self.position().is_addressable(),
        ensures
            r.wf(),
            r.chunk() == self,
            r.index() == 0,
    {
        let min = self.position.block_min();
        ChunkIntoIterator { min, chunk: self, x: 0, y: 0, z: 0 }
    }
}

/// The item that a walk over a chunk yields for the block stored at index `i`.
pub open spec fn chunk_item(c: Chunk, i: int) -> (BlockPos, Block) {
    let min = c.position().spec_block_min();
    let (x, y, z) = index_coords(i);
    (BlockPos { x: (min.x + x) as i32, y: (min.y + y) as i32, z: (min.z + z) as i32 }, c.blocks()[i])
}

/// A walk over the blocks of a chunk.
pub struct ChunkIntoIterator {
    chunk: Chunk,
    min: BlockPos,
    x: i32,
    y: i32,
    z: i32,
}

impl ChunkIntoIterator {
    pub closed spec fn chunk(&self) -> Chunk {
        self.chunk
    }

    /// How many blocks have been yielded.
    pub closed spec fn index(&self) -> int {
        block_index(self.x as int, self.y as int, self.z as int)
    }

    pub closed spec fn wf(&self) -> bool {
        &&& self.chunk.wf()
        &&& self.chunk.position.is_addressable()
        &&& self.min == self.chunk.position.spec_block_min()
        &&& 0 <= self.x <= 16 && 0 <= self.y < 16 && 0 <= self.z < 16
        &&& self.x == 16 ==> self.y == 0 && self.z == 0
    }

    /// The next block and its coordinate, or `None` once all 4096 were yielded.
    pub fn next(&mut self) -> (r: Option<(BlockPos, Block)>)
        requires
            old(self).wf(),
        ensures
            final(self).wf(),
            final(self).chunk() == old(self).chunk(),
            0 <= old(self).index() <= 4096,
            old(self).index() < 4096 ==> r == Some(chunk_item(old(self).chunk(), old(self).index()))
                && final(self).index() == old(self).index() + 1,
            old(self).index() == 4096 ==> r.is_none() && final(self).index() == 4096,
    {
        if self.x == CHUNK_SIZE_I {
            return None;
        }
        let ghost i = self.index();
        assert(index_coords(i) == (self.x as int, self.y as int, self.z as int)) by (nonlinear_arith)
            requires
                i == self.x * 256 + self.y * 16 + self.z,
                0 <= self.x < 16 && 0 <= self.y < 16 && 0 <= self.z < 16,
        ;
        let curr = self.chunk.get(self.x as usize, self.y as usize, self.z as usize);
        let pos = self.min.add(self.x, self.y, self.z);
        if self.z < CHUNK_SIZE_I - 1 {
            self.z = self.z + 1;
        } else {
            self.z = 0;
            if self.y < CHUNK_SIZE_I - 1 {
                self.y = self.y + 1;
            } else {
                self.y = 0;
                self.x = self.x + 1;
            }
        }
        Some((pos, curr))
    }
}

/// The chunk of the first block of the chunk of any block is that chunk again.
pub proof fn lemma_chunk_of_block_min(b: BlockPos)
    ensures
        ChunkPos::spec_from_block(ChunkPos::spec_from_block(b).spec_block_min())
            == ChunkPos::spec_from_block(b),
{
    assert forall|v: int| #[trigger] chunk_of(first_block_of(chunk_of(v))) == chunk_of(v) by {
        assert(chunk_of(first_block_of(chunk_of(v))) == chunk_of(v)) by (nonlinear_arith);
    }
    let c = ChunkPos::spec_from_block(b);
    assert(-0x800_0000 <= c.x < 0x800_0000) by (nonlinear_arith)
        requires c.x == (b.x as int) / 16, i32::MIN <= b.x <= i32::MAX;
    assert(-0x800_0000 <= c.y < 0x800_0000) by (nonlinear_arith)
        requires c.y == (b.y as int) / 16, i32::MIN <= b.y <= i32::MAX;
    assert(-0x800_0000 <= c.z < 0x800_0000) by (nonlinear_arith)
        requires c.z == (b.z as int) / 16, i32::MIN <= b.z <= i32::MAX;
}

/// Every block is the first block of its chunk plus its offset inside the chunk,
/// and that offset lies in `[0, 16)` on each axis.
pub proof fn lemma_block_decomposes(b: BlockPos)
    ensures
        ({
            let min = ChunkPos::spec_from_block(b).spec_block_min();
            &&& b.x == min.x + offset_in_chunk(b.x as int)
            &&& b.y == min.y + offset_in_chunk(b.y as int)
            &&& b.z == min.z + offset_in_chunk(b.z as int)
        }),
        0 <= offset_in_chunk(b.x as int) < 16,
        0 <= offset_in_chunk(b.y as int) < 16,
        0 <= offset_in_chunk(b.z as int) < 16,
{
    lemma_chunk_of_block_min(b);
}

} // verus!
