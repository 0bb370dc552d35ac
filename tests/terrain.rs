use std::cell::Cell;
use voxel_engine::block::Block;
use voxel_engine::chunk::{Chunk, ChunkPos};
use voxel_engine::chunk_generator::{ChunkGenerator, FlatEarthGenerator};
use voxel_engine::world::GameWorld;

struct CountingGenerator {
    calls: Cell<u32>,
}

impl ChunkGenerator for CountingGenerator {
    fn generate_chunk(&self, _world: &GameWorld<Self>, pos: ChunkPos) -> Chunk {
        self.calls.set(self.calls.get() + 1);
        let mut chunk = Chunk::empty(pos);
        chunk.set(1, 2, 3, Block { id: 7 });
        chunk
    }
}

fn flat() -> FlatEarthGenerator {
    FlatEarthGenerator { grass_level: 7, stone_level: 5 }
}

fn expected_flat_id(world_y: i32) -> u16 {
    if world_y <= 5 {
        2
    } else if world_y <= 7 {
        1
    } else {
        0
    }
}

#[test]
fn flat_generator_layers_in_origin_chunk() {
    let g = flat();
    let world = GameWorld::new(flat());
    let chunk = g.generate_chunk(&world, ChunkPos::new(0, 0, 0));
    assert_eq!(chunk.get_position(), ChunkPos::new(0, 0, 0));
    for x in 0..16 {
        for y in 0..16 {
            for z in 0..16 {
                assert_eq!(chunk.get(x, y, z).id, expected_flat_id(y as i32));
            }
        }
    }
    assert_eq!(chunk.get(0, 5, 0).id, 2);
    assert_eq!(chunk.get(0, 6, 0).id, 1);
    assert_eq!(chunk.get(0, 7, 0).id, 1);
    assert_eq!(chunk.get(0, 8, 0).id, 0);
}

#[test]
fn flat_generator_below_and_above() {
    let g = flat();
    let world = GameWorld::new(flat());
    let below = g.generate_chunk(&world, ChunkPos::new(3, -1, -4));
    let above = g.generate_chunk(&world, ChunkPos::new(-2, 1, 9));
    for x in 0..16 {
        for y in 0..16 {
            for z in 0..16 {
                assert_eq!(below.get(x, y, z).id, 2);
                assert_eq!(above.get(x, y, z).id, 0);
            }
        }
    }
}

fn chunk_ids(c: &Chunk) -> Vec<u16> {
    (0..4096).map(|i| c.get(i / 256, (i / 16) % 16, i % 16).id).collect()
}

#[test]
fn world_generates_each_chunk_once() {
    let mut world = GameWorld::new(CountingGenerator { calls: Cell::new(0) });
    let pos = ChunkPos::new(2, -3, 4);
    let first = chunk_ids(world.chunk_at(pos));
    assert_eq!(world.generator().calls.get(), 1);
    let second = chunk_ids(world.chunk_at(pos));
    assert_eq!(world.generator().calls.get(), 1);
    assert_eq!(first, second);
    assert_eq!(first[256 + 2 * 16 + 3], 7);
    assert_eq!(world.chunk_at(pos).get_position(), pos);
    assert_eq!(world.chunk_at(ChunkPos::new(0, 0, 0)).get_position(), ChunkPos::new(0, 0, 0));
    assert_eq!(world.generator().calls.get(), 2);
    let _ = world.chunk_at(pos);
    let _ = world.chunk_at(ChunkPos::new(0, 0, 0));
    assert_eq!(world.generator().calls.get(), 2);
}

#[test]
fn world_with_flat_generator() {
    let mut world = GameWorld::new(flat());
    let c = world.chunk_at(ChunkPos::new(0, 0, 0));
    assert_eq!(c.get(4, 5, 6).id, 2);
    assert_eq!(c.get(4, 6, 6).id, 1);
    assert_eq!(c.get(4, 8, 6).id, 0);
}
