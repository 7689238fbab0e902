use icraft::block::BlockType;
use icraft::lighting::{
    propagate_block_light, propagate_chunk_lighting, propagate_sky_light, remove_block_light, update_block_light_after_placed,
    update_block_light_after_removed, update_sky_light_after_placed, update_sky_light_after_removed, ChunkSet, LightNode,
    LightRemovalNode,
};
use icraft::world::{Chunk, ChunkManager, WorldHeight, CHUNK_DEPTH, CHUNK_WIDTH};
use std::collections::VecDeque;

#[test]
fn initial_lighting_reaches_horizontal_cave_entrance() {
    let mut chunk_manager = ChunkManager::new(0);
    let mut chunk = Chunk::new(0, 0);

    // A lit surface above a cave that no vertical pass reaches.
    for x in 0..CHUNK_WIDTH {
        for z in 0..CHUNK_DEPTH {
            for y in chunk.world_y_range() {
                if y >= 64 {
                    chunk.set_block_local(x, y, z, BlockType::Air);
                    chunk.set_sky_light(x, y, z, 15);
                } else {
                    chunk.set_block_local(x, y, z, BlockType::Stone);
                    chunk.set_sky_light(x, y, z, 0);
                }
                chunk.set_block_light(x, y, z, 0);
            }
        }
    }

    // A cave entrance followed by a short horizontal tunnel.
    chunk.set_block_local(8, 63, 8, BlockType::Air);
    for x in 8..=12 {
        chunk.set_block_local(x, 62, 8, BlockType::Air);
    }

    chunk_manager.chunks.insert((0, 0), chunk);
    let mut dirty_chunks = ChunkSet::new();
    propagate_chunk_lighting(&mut chunk_manager, 0, 0, &mut dirty_chunks);

    assert_eq!(chunk_manager.get_sky_light(8, 63, 8), 14);
    assert_eq!(chunk_manager.get_sky_light(12, 62, 8), 9);
}

#[test]
fn load_lighting_seeds_across_chunk_faces() {
    let mut chunk_manager = ChunkManager::new(0);
    let mut west = Chunk::empty(0, 0);
    let mut east = Chunk::empty(1, 0);
    for z in 0..CHUNK_DEPTH {
        for y in 60..70 {
            west.set_block_local(15, y, z, BlockType::Air);
            west.set_sky_light(15, y, z, 15);
            east.set_block_local(0, y, z, BlockType::Air);
            east.set_sky_light(0, y, z, 0);
        }
    }
    chunk_manager.chunks.insert((0, 0), west);
    chunk_manager.chunks.insert((1, 0), east);
    let mut dirty = ChunkSet::new();
    propagate_chunk_lighting(&mut chunk_manager, 0, 0, &mut dirty);
    assert_eq!(chunk_manager.get_sky_light(16, 64, 8), 14);
}

#[test]
fn propagation_does_not_discard_work_after_five_thousand_nodes() {
    let mut chunk_manager = ChunkManager::new(0);
    let mut chunk = Chunk::new(0, 0);

    for x in 0..CHUNK_WIDTH {
        for z in 0..CHUNK_DEPTH {
            for y in chunk.world_y_range() {
                chunk.set_block_local(x, y, z, BlockType::Stone);
                chunk.set_sky_light(x, y, z, 0);
                chunk.set_block_light(x, y, z, 0);
            }
        }
    }

    chunk.set_block_local(8, 64, 8, BlockType::Air);
    chunk.set_block_local(8, 63, 8, BlockType::Air);
    chunk.set_sky_light(8, 64, 8, 15);
    chunk.set_block_light(8, 64, 8, 14);
    chunk_manager.chunks.insert((0, 0), chunk);

    let mut dirty_chunks = ChunkSet::new();
    let mut sky_queue = VecDeque::new();
    for _ in 0..5_000 {
        sky_queue.push_back(LightNode { x: 0, y: 0, z: 0 });
    }
    sky_queue.push_back(LightNode { x: 8, y: 64, z: 8 });
    propagate_sky_light(&mut chunk_manager, &mut sky_queue, &mut dirty_chunks);
    assert!(sky_queue.is_empty());
    assert_eq!(chunk_manager.get_sky_light(8, 63, 8), 14);

    let mut block_queue = VecDeque::new();
    for _ in 0..5_000 {
        block_queue.push_back(LightNode { x: 0, y: 0, z: 0 });
    }
    block_queue.push_back(LightNode { x: 8, y: 64, z: 8 });
    propagate_block_light(&mut chunk_manager, &mut block_queue, &mut dirty_chunks);
    assert!(block_queue.is_empty());
    assert_eq!(chunk_manager.get_block_light(8, 63, 8), 13);
}

fn empty_fully_lit_overworld_column() -> ChunkManager {
    let mut chunk_manager = ChunkManager::new(0);
    let mut chunk = Chunk::empty(0, 0);
    let height = WorldHeight::overworld();
    for x in 0..CHUNK_WIDTH {
        for z in 0..CHUNK_DEPTH {
            for wy in height.min_y()..height.max_y_exclusive() {
                chunk.set_block_local(x, wy, z, BlockType::Air);
                chunk.set_sky_light(x, wy, z, 15);
                chunk.set_block_light(x, wy, z, 0);
            }
        }
    }
    chunk_manager.chunks.insert((0, 0), chunk);
    chunk_manager
}

#[test]
fn placing_opaque_at_y5_zeros_sky_below_zero() {
    let mut chunk_manager = empty_fully_lit_overworld_column();
    // A full slab at y = 5 so neighbouring columns cannot refill sky from the side.
    for x in 0..CHUNK_WIDTH {
        for z in 0..CHUNK_DEPTH {
            chunk_manager.set_block(x as i32, 5, z as i32, BlockType::Stone);
        }
    }
    let mut dirty_chunks = ChunkSet::new();
    for x in 0..CHUNK_WIDTH {
        for z in 0..CHUNK_DEPTH {
            update_sky_light_after_placed(&mut chunk_manager, x as i32, 5, z as i32, &mut dirty_chunks);
        }
    }
    assert_eq!(chunk_manager.get_sky_light(8, 5, 8), 0);
    assert_eq!(chunk_manager.get_sky_light(8, -8, 8), 0);
}

#[test]
fn breaking_block_at_y256_receives_sky_from_y257() {
    let mut chunk_manager = empty_fully_lit_overworld_column();
    chunk_manager.set_block(8, 256, 8, BlockType::Stone);
    chunk_manager.set_sky_light(8, 256, 8, 0);
    for y in WorldHeight::overworld().min_y()..256 {
        chunk_manager.set_sky_light(8, y, 8, 0);
    }
    assert_eq!(chunk_manager.get_sky_light(8, 257, 8), 15);

    chunk_manager.set_block(8, 256, 8, BlockType::Air);
    let mut dirty_chunks = ChunkSet::new();
    update_sky_light_after_removed(&mut chunk_manager, 8, 256, 8, &mut dirty_chunks);
    assert_eq!(chunk_manager.get_sky_light(8, 256, 8), 15);
}

#[test]
fn load_lighting_skips_neighbor_volume_scan_but_fills_shared_face() {
    let mut chunk_manager = ChunkManager::new(0);
    let mut west = Chunk::empty(0, 0);
    let mut east = Chunk::empty(1, 0);
    for z in 0..CHUNK_DEPTH {
        for y in 60..70 {
            west.set_block_local(15, y, z, BlockType::Air);
            west.set_sky_light(15, y, z, 15);
            // Darken the east band so the face fill can be measured (empty sections hold full sky).
            for x in 0..CHUNK_WIDTH {
                east.set_block_local(x, y, z, BlockType::Air);
                east.set_sky_light(x, y, z, 0);
            }
        }
    }
    chunk_manager.chunks.insert((0, 0), west);
    chunk_manager.chunks.insert((1, 0), east);
    let mut dirty = ChunkSet::new();
    propagate_chunk_lighting(&mut chunk_manager, 0, 0, &mut dirty);
    assert_eq!(chunk_manager.get_sky_light(16, 64, 8), 14);
    // Light continues a few steps into the east column from the face.
    assert_eq!(chunk_manager.get_sky_light(17, 64, 8), 13);
}

#[test]
fn propagation_stops_at_opaque_blocks_and_records_changes() {
    let mut chunk_manager = ChunkManager::new(0);
    let mut chunk = Chunk::new(0, 0);
    for x in 0..CHUNK_WIDTH {
        for z in 0..CHUNK_DEPTH {
            for y in chunk.world_y_range() {
                chunk.set_sky_light(x, y, z, 0);
                chunk.set_block_light(x, y, z, 0);
            }
        }
    }
    chunk.set_block_local(9, 70, 8, BlockType::Stone);
    chunk.set_block_light(8, 70, 8, 10);
    chunk_manager.chunks.insert((0, 0), chunk);
    let mut dirty = ChunkSet::new();
    let mut queue = VecDeque::new();
    queue.push_back(LightNode { x: 8, y: 70, z: 8 });
    propagate_block_light(&mut chunk_manager, &mut queue, &mut dirty);
    // Opaque neighbour stays dark, the others fall off by one per step.
    assert_eq!(chunk_manager.get_block_light(9, 70, 8), 0);
    assert_eq!(chunk_manager.get_block_light(7, 70, 8), 9);
    assert_eq!(chunk_manager.get_block_light(8, 72, 8), 8);
    assert_eq!(chunk_manager.get_block_light(10, 70, 8), 6);
    // Sky light is untouched and every changed block is recorded once per change.
    assert_eq!(chunk_manager.get_sky_light(8, 71, 8), 0);
    assert!(chunk_manager.light_changes.contains(&(7, 70, 8)));
    assert!(dirty.contains((0, 0)));
}

#[test]
fn torch_placed_then_removed_leaves_darkness() {
    let mut chunk_manager = ChunkManager::new(0);
    let mut chunk = Chunk::new(0, 0);
    for x in 0..CHUNK_WIDTH {
        for z in 0..CHUNK_DEPTH {
            for y in chunk.world_y_range() {
                chunk.set_sky_light(x, y, z, 0);
                chunk.set_block_light(x, y, z, 0);
            }
        }
    }
    chunk_manager.chunks.insert((0, 0), chunk);
    let mut dirty = ChunkSet::new();
    update_block_light_after_placed(&mut chunk_manager, 8, 70, 8, 14, &mut dirty);
    assert_eq!(chunk_manager.get_block_light(8, 70, 8), 14);
    assert_eq!(chunk_manager.get_block_light(8, 70, 11), 11);
    update_block_light_after_removed(&mut chunk_manager, 8, 70, 8, 14, &mut dirty);
    assert_eq!(chunk_manager.get_block_light(8, 70, 8), 0);
    assert_eq!(chunk_manager.get_block_light(8, 70, 11), 0);
}

#[test]
fn removal_queues_brighter_border_for_refill() {
    let mut chunk_manager = ChunkManager::new(0);
    let mut chunk = Chunk::new(0, 0);
    for x in 0..CHUNK_WIDTH {
        for z in 0..CHUNK_DEPTH {
            for y in chunk.world_y_range() {
                chunk.set_sky_light(x, y, z, 0);
                chunk.set_block_light(x, y, z, 0);
            }
        }
    }
    chunk.set_block_light(8, 70, 8, 5);
    chunk.set_block_light(9, 70, 8, 4);
    chunk.set_block_light(7, 70, 8, 12);
    chunk_manager.chunks.insert((0, 0), chunk);
    let mut dirty = ChunkSet::new();
    let mut removal = VecDeque::new();
    let mut refill = VecDeque::new();
    chunk_manager.set_block_light(8, 70, 8, 0);
    removal.push_back(LightRemovalNode { x: 8, y: 70, z: 8, val: 5 });
    remove_block_light(&mut chunk_manager, &mut removal, &mut refill, &mut dirty);
    assert!(removal.is_empty());
    assert_eq!(chunk_manager.get_block_light(9, 70, 8), 0);
    assert_eq!(chunk_manager.get_block_light(7, 70, 8), 12);
    assert!(refill.iter().any(|n| n.x == 7 && n.y == 70 && n.z == 8));
}
