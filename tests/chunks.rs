use voxel_engine::block::{Block, BlockPos};
use voxel_engine::chunk::{Chunk, ChunkPos};

#[test]
fn empty_chunk_is_air() {
    let c = Chunk::empty(ChunkPos::new(1, 2, 3));
    assert_eq!(c.get_position(), ChunkPos::new(1, 2, 3));
    for x in 0..16 {
        for y in 0..16 {
            for z in 0..16 {
                assert_eq!(c.get(x, y, z), Block { id: 0 });
            }
        }
    }
}

#[test]
fn set_changes_one_block() {
    let mut c = Chunk::empty(ChunkPos::new(0, 0, 0));
    c.set(3, 4, 5, Block { id: 9 });
    assert_eq!(c.get(3, 4, 5), Block { id: 9 });
    assert_eq!(c.get(3, 4, 6), Block { id: 0 });
    assert_eq!(c.get(5, 4, 3), Block { id: 0 });
}

#[test]
fn walk_yields_every_block_once_in_order() {
    let mut c = Chunk::empty(ChunkPos::new(-1, 0, 2));
    c.set(0, 0, 1, Block { id: 4 });
    c.set(15, 15, 15, Block { id: 5 });
    let mut it = c.into_iter();
    let mut items = Vec::new();
    while let Some(item) = it.next() {
        items.push(item);
    }
    assert_eq!(items.len(), 4096);
    assert_eq!(items[0], (BlockPos::new(-16, 0, 32), Block { id: 0 }));
    assert_eq!(items[1], (BlockPos::new(-16, 0, 33), Block { id: 4 }));
    assert_eq!(items[16], (BlockPos::new(-16, 1, 32), Block { id: 0 }));
    assert_eq!(items[256], (BlockPos::new(-15, 0, 32), Block { id: 0 }));
    assert_eq!(items[4095], (BlockPos::new(-1, 15, 47), Block { id: 5 }));
    assert!(it.next().is_none());
}
