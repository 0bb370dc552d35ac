use vstd::prelude::*;

use crate::chunk::{ChunkPos, CHUNK_SIZE_EXP, CHUNK_SIZE_I};

verus! {

/// A voxel cell's material; id 0 is empty space.
#[derive(Clone, Copy, PartialEq, Eq, Structural, Debug)]
pub struct Block {
    pub id: u16,
}

/// Integer coordinate of one unit cell of the world.
#[derive(Clone, Copy, PartialEq, Eq, Structural, Debug, Hash)]
pub struct BlockPos {
    pub x: i32,
    pub y: i32,
    pub z: i32,
}

/// The chunk coordinate along one axis of a block coordinate: `floor(b / 16)`.
pub open spec fn chunk_of(b: int) -> int {
    b / 16
}

/// The offset along one axis of a block inside its chunk: in `[0, 16)`.
pub open spec fn offset_in_chunk(b: int) -> int {
    b % 16
}

/// The first block coordinate along one axis of a chunk.
pub open spec fn first_block_of(c: int) -> int {
    c * 16
}

/// Every i32 fits the arithmetic shift by four as a floor division.
pub proof fn lemma_shift_is_floor_div(b: i32)
    ensures
        (b >> 4u32) as int == chunk_of(b as int),
        (b >> 4u32) * 16 <= b < (b >> 4u32) * 16 + 16,
        -0x800_0000 <= b >> 4u32 < 0x800_0000,
{
    assert((b >> 4u32) * 16 <= b < (b >> 4u32) * 16 + 16 && -0x800_0000 <= b >> 4u32 < 0x800_0000)
        by (bit_vector);
    let q = (b >> 4u32) as int;
    assert(q * 16 <= b < q * 16 + 16);
    assert(q == (b as int) / 16) by (nonlinear_arith)
        requires
            q * 16 <= b < q * 16 + 16,
    ;
}

impl BlockPos {
    pub fn new(x: i32, y: i32, z: i32) -> (r: BlockPos)
        ensures
            r == (BlockPos { x, y, z }),
    {
        BlockPos { x, y, z }
    }

    /// The chunk that holds this block.
    pub fn chunk(self) -> (r: ChunkPos)
        ensures
            r == ChunkPos::spec_from_block(self),
            r.is_addressable(),
    {
        ChunkPos::from_block(self)
    }

    /// This block's position inside its chunk, each axis in `[0, 16)`.
    pub fn chunk_relative(self) -> (r: BlockPos)
        ensures
            r.x == offset_in_chunk(self.x as int),
            r.y == offset_in_chunk(self.y as int),
            r.z == offset_in_chunk(self.z as int),
            0 <= r.x < 16 && 0 <= r.y < 16 && 0 <= r.z < 16,
    {
        BlockPos {
            x: Self::chunk_relative_at(self.x),
            y: Self::chunk_relative_at(self.y),
            z: Self::chunk_relative_at(self.z),
        }
    }

    /// The chunk coordinate along one axis: an arithmetic shift, which floors.
    pub fn chunk_at(pos: i32) -> (r: i32)
        ensures
            r as int == chunk_of(pos as int),
            -0x800_0000 <= r < 0x800_0000,
    {
        proof {
            lemma_shift_is_floor_div(pos);
        }
        pos >> CHUNK_SIZE_EXP
    }

    /// The offset along one axis inside the chunk.
    pub fn chunk_relative_at(pos: i32) -> (r: i32)
        ensures
            r as int == offset_in_chunk(pos as int),
            0 <= r < 16,
    {
        proof {
            lemma_shift_is_floor_div(pos);
        }
        let world_pos = Self::chunk_at(pos) * CHUNK_SIZE_I;
        pos - world_pos
    }
}

/// Offsetting a position by three integers.
pub trait AddXYZi32: Sized {
    /// Whether the offset stays within the coordinate range.
    spec fn add_xyz_ok(self, x: i32, y: i32, z: i32) -> bool;

    /// The offset position.
    spec fn spec_add_xyz(self, x: i32, y: i32, z: i32) -> Self;

    fn add(self, x: i32, y: i32, z: i32) -> (r: Self)
        requires
            self.add_xyz_ok(x, y, z),
        ensures
            r == self.spec_add_xyz(x, y, z),
    ;
}

impl AddXYZi32 for BlockPos {
    open spec fn add_xyz_ok(self, x: i32, y: i32, z: i32) -> bool {
        &&& i32::MIN <= self.x + x <= i32::MAX
        &&& i32::MIN <= self.y + y <= i32::MAX
        &&& i32::MIN <= self.z + z <= i32::MAX
    }

    open spec fn spec_add_xyz(self, x: i32, y: i32, z: i32) -> BlockPos {
        BlockPos {
            x: (self.x + x) as i32,
            y: (self.y + y) as i32,
            z: (self.z + z) as i32,
        }
    }

    fn add(self, x: i32, y: i32, z: i32) -> (r: BlockPos) {
        BlockPos { x: self.x + x, y: self.y + y, z: self.z + z }
    }
}

/// Offsetting a position by a block position.
pub trait AddBlockPos: Sized {
    /// Whether the offset stays within the coordinate range.
    spec fn add_pos_ok(self, pos: BlockPos) -> bool;

    /// The offset position.
    spec fn spec_add_pos(self, pos: BlockPos) -> Self;

    fn add(self, pos: BlockPos) -> (r: Self)
        requires
            self.add_pos_ok(pos),
        ensures
            r == self.spec_add_pos(pos),
    ;
}

impl AddBlockPos for BlockPos {
    open spec fn add_pos_ok(self, pos: BlockPos) -> bool {
        self.add_xyz_ok(pos.x, pos.y, pos.z)
    }

    open spec fn spec_add_pos(self, pos: BlockPos) -> BlockPos {
        self.spec_add_xyz(pos.x, pos.y, pos.z)
    }

    fn add(self, pos: BlockPos) -> (r: BlockPos) {
        BlockPos { x: self.x + pos.x, y: self.y + pos.y, z: self.z + pos.z }
    }
}

} // verus!
