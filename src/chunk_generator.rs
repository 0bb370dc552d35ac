use vstd::prelude::*;

use crate::block::{first_block_of, Block};
use crate::chunk::{block_index, index_coords, Chunk, ChunkPos, CHUNK_SIZE};
use crate::world::GameWorld;

verus! {

/// Produces the blocks of a chunk from its coordinate alone, so that generating
/// a chunk again gives the same blocks.
pub trait ChunkGenerator: Sized {
    /// The blocks generated for the chunk at `pos`. A generator states them here;
    /// the default, no blocks at all, is met by no well-formed chunk, so every
    /// verified generator gives its own.
    open spec fn spec_generate(&self, pos: ChunkPos) -> Seq<Block> {
        Seq::empty()
    }

    fn generate_chunk(&self, world: &GameWorld<Self>, pos: ChunkPos) -> (r: Chunk)
        requires
            pos.is_addressable(),
        ensures
            r.wf(),
            r.position() == pos,
            r.blocks() == self.spec_generate(pos),
    ;
}

/// Flat terrain: stone up to `stone_level`, grass up to `grass_level`, empty above.
#[derive(Clone, Copy, Debug)]
pub struct FlatEarthGenerator {
    pub grass_level: i32,
    pub stone_level: i32,
}

/// The block id of flat terrain at world height `y`.
pub open spec fn flat_block_id(stone_level: int, grass_level: int, y: int) -> u16 {
    if y <= stone_level {
        2
    } else if y <= grass_level {
        1
    } else {
        0
    }
}

impl FlatEarthGenerator {
    /// The block that flat terrain holds at world height `real_y`.
    fn material_at(&self, real_y: i32) -> (r: Block)
        ensures
            r.id == flat_block_id(self.stone_level as int, self.grass_level as int, real_y as int),
    {
        if real_y <= self.stone_level {
            Block { id: 2 }
        } else if real_y <= self.grass_level {
            Block { id: 1 }
        } else {
            Block { id: 0 }
        }
    }
}

/// Every block index splits into the coordinates that `index_coords` gives.
proof fn lemma_index_coords(i: int)
    requires
        0 <= i < 4096,
    ensures
        ({
            let (x, y, z) = index_coords(i);
            &&& block_index(x, y, z) == i
            &&& 0 <= x < 16 && 0 <= y < 16 && 0 <= z < 16
        }),
{
    assert(i == (i / 256) * 256 + ((i / 16) % 16) * 16 + i % 16 && 0 <= i / 256 < 16) by (nonlinear_arith)
        requires
            0 <= i < 4096,
    ;
}

/// The blocks of the chunk at `pos` in flat terrain: each row by its world height.
pub open spec fn flat_blocks(g: FlatEarthGenerator, pos: ChunkPos) -> Seq<Block> {
    Seq::new(
        4096,
        |i: int|
            Block {
                id: flat_block_id(
                    g.stone_level as int,
                    g.grass_level as int,
                    first_block_of(pos.y as int) + index_coords(i).1,
                ),
            },
    )
}

impl FlatEarthGenerator {
    /// The flat terrain of the chunk at `pos`.
    pub fn generate(&self, pos: ChunkPos) -> (r: Chunk)
        requires
            pos.is_addressable(),
        ensures
            r.wf(),
            r.position() == pos,
            r.blocks() == flat_blocks(*self, pos),
    {
        let mut chunk = Chunk::empty(pos);
        let chunk_block_y = pos.block_min().y;
        let mut i: usize = 0;
        while i < 4096
            invariant
                0 <= i <= 4096,
                chunk.wf(),
                chunk.position() == pos,
                chunk_block_y == first_block_of(pos.y as int),
                pos.is_addressable(),
                forall|j: int| 0 <= j < i ==> chunk.blocks()[j] == #[trigger] flat_blocks(*self, pos)[j],
            decreases 4096 - i,
        {
            proof {
                lemma_index_coords(i as int);
            }
            let x = i / CHUNK_SIZE / CHUNK_SIZE;
            let y = (i / CHUNK_SIZE) % CHUNK_SIZE;
            let z = i % CHUNK_SIZE;
            let real_y = chunk_block_y + y as i32;
            let material = self.material_at(real_y);
            chunk.set(x, y, z, material);
            i = i + 1;
        }
        assert(chunk.blocks() =~= flat_blocks(*self, pos));
        chunk
    }
}

impl ChunkGenerator for FlatEarthGenerator {
    open spec fn spec_generate(&self, pos: ChunkPos) -> Seq<Block> {
        flat_blocks(*self, pos)
    }

    fn generate_chunk(&self, world: &GameWorld<Self>, pos: ChunkPos) -> (r: Chunk) {
        self.generate(pos)
    }
}

/// The block that flat terrain generates at `(x, y, z)` inside a chunk depends on
/// the world height of its row alone.
pub proof fn lemma_flat_block_at(g: FlatEarthGenerator, pos: ChunkPos, x: int, y: int, z: int)
    requires
        0 <= x < 16 && 0 <= y < 16 && 0 <= z < 16,
    ensures
        flat_blocks(g, pos).len() == 4096,
        flat_blocks(g, pos)[block_index(x, y, z)].id == flat_block_id(
            g.stone_level as int,
            g.grass_level as int,
            first_block_of(pos.y as int) + y,
        ),
{
    let i = block_index(x, y, z);
    assert(0 <= i < 4096 && index_coords(i).1 == y) by (nonlinear_arith)
        requires
            i == x * 256 + y * 16 + z,
            0 <= x < 16 && 0 <= y < 16 && 0 <= z < 16,
    ;
}

} // verus!
