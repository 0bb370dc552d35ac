use glam::Vec3;
use voxel_engine::block::{AddBlockPos, AddXYZi32, BlockPos};
use voxel_engine::chunk::{ChunkPos, CHUNK_SIZE, CHUNK_SIZE_EXP, CHUNK_SIZE_I};

fn block_from_world(p: Vec3) -> BlockPos {
    let f = p.floor().as_ivec3();
    BlockPos::new(f.x, f.y, f.z)
}

fn world_from_block(b: BlockPos) -> Vec3 {
    Vec3::new(b.x as f32, b.y as f32, b.z as f32)
}

#[test]
fn chunk_size_constants() {
    assert_eq!(CHUNK_SIZE, 16);
    assert_eq!(CHUNK_SIZE_I, 16);
    assert_eq!(1usize << CHUNK_SIZE_EXP, CHUNK_SIZE);
}

#[test]
fn negative_block_floors_to_negative_chunk() {
    assert_eq!(BlockPos::new(-1, -1, -1).chunk(), ChunkPos::new(-1, -1, -1));
}

#[test]
fn last_block_of_origin_chunk() {
    assert_eq!(BlockPos::new(15, 15, 15).chunk(), ChunkPos::new(0, 0, 0));
}

#[test]
fn first_block_of_next_chunk() {
    assert_eq!(BlockPos::new(16, 0, 0).chunk(), ChunkPos::new(1, 0, 0));
}

#[test]
fn chunk_at_single_axis() {
    assert_eq!(BlockPos::chunk_at(-16), -1);
    assert_eq!(BlockPos::chunk_at(-17), -2);
    assert_eq!(BlockPos::chunk_at(0), 0);
    assert_eq!(BlockPos::chunk_at(31), 1);
    assert_eq!(BlockPos::chunk_at(i32::MIN), -(1 << 27));
    assert_eq!(BlockPos::chunk_at(i32::MAX), (1 << 27) - 1);
}

#[test]
fn chunk_relative_examples() {
    assert_eq!(BlockPos::new(-1, 17, 0).chunk_relative(), BlockPos::new(15, 1, 0));
    assert_eq!(BlockPos::chunk_relative_at(-16), 0);
    assert_eq!(BlockPos::chunk_relative_at(-17), 15);
    assert_eq!(BlockPos::chunk_relative_at(i32::MIN), 0);
    assert_eq!(BlockPos::chunk_relative_at(i32::MAX), 15);
}

#[test]
fn chunk_relative_always_in_range() {
    let values = [i32::MIN, i32::MIN + 1, -1000, -33, -17, -16, -15, -1, 0, 1, 15, 16, 17, 999, i32::MAX - 1, i32::MAX];
    for &x in values.iter() {
        for &y in values.iter() {
            let b = BlockPos::new(x, y, x / 2);
            let r = b.chunk_relative();
            for v in [r.x, r.y, r.z] {
                assert!((0..16).contains(&v));
            }
            let min = b.chunk().block_min();
            assert_eq!(min.x as i64 + r.x as i64, b.x as i64);
            assert_eq!(min.y as i64 + r.y as i64, b.y as i64);
        }
    }
}

#[test]
fn chunk_round_trips_through_world_min() {
    for x in -40..40 {
        let b = BlockPos::new(x, -3 * x, 7 - x);
        let chunk = b.chunk();
        let world_min = world_from_block(chunk.block_min());
        assert_eq!(block_from_world(world_min).chunk(), chunk);
    }
}

#[test]
fn block_round_trips_through_cell_center() {
    let b = BlockPos::new(-5, 0, 12);
    let center = world_from_block(b) + Vec3::splat(0.5);
    assert_eq!(block_from_world(center), b);
}

#[test]
fn block_min_and_max() {
    let c = ChunkPos::new(-2, 0, 3);
    assert_eq!(c.block_min(), BlockPos::new(-32, 0, 48));
    assert_eq!(c.block_max(), BlockPos::new(-17, 15, 63));
    assert_eq!(c.block_min().chunk(), c);
    assert_eq!(c.block_max().chunk(), c);
    assert_eq!(ChunkPos::from_block(BlockPos::new(-17, 15, 63)), c);
}

#[test]
fn adding_offsets() {
    let b = BlockPos::new(1, 2, 3);
    assert_eq!(AddXYZi32::add(b, -1, 10, 0), BlockPos::new(0, 12, 3));
    assert_eq!(AddBlockPos::add(b, BlockPos::new(4, -5, 6)), BlockPos::new(5, -3, 9));
}
