use voxentia::buffer::{Buffer, BufferError};
use voxentia::world::{
    Ball, centred_box, chunk_index, fill_directory, requested_chunks, ChunkBox, ChunkedWorld,
    FillPolicy, WorldError, CHUNK_VOLUME, DIR_BYTES, DIR_SIZE, MAX_CHUNKS, POOL_BYTES,
    WORLD_CHUNKS,
};

fn unbacked(size: u64) -> Buffer {
    Buffer { buffer: 0, allocation: None, size }
}

fn world_with(policy: FillPolicy) -> ChunkedWorld {
    let cells = requested_chunks(policy).unwrap();
    let directory = fill_directory(&cells);
    ChunkedWorld {
        dir_buffer: unbacked(DIR_BYTES),
        pool_buffer: unbacked(POOL_BYTES),
        directory,
        active_chunk_count: 0,
    }
}

#[test]
fn chunk_index_is_x_fastest() {
    assert_eq!(chunk_index(0, 0, 0), Ok(0));
    assert_eq!(chunk_index(1, 0, 0), Ok(1));
    assert_eq!(chunk_index(0, 1, 0), Ok(32));
    assert_eq!(chunk_index(0, 0, 1), Ok(1024));
    assert_eq!(chunk_index(1, 2, 3), Ok(1 + 2 * 32 + 3 * 1024));
    assert_eq!(chunk_index(31, 31, 31), Ok(DIR_SIZE - 1));
}

#[test]
fn chunk_index_rejects_outside_coordinates() {
    assert_eq!(chunk_index(32, 0, 0), Err(WorldError::OutOfRange));
    assert_eq!(chunk_index(0, 32, 0), Err(WorldError::OutOfRange));
    assert_eq!(chunk_index(0, 0, 32), Err(WorldError::OutOfRange));
    assert_eq!(chunk_index(usize::MAX, 0, 0), Err(WorldError::OutOfRange));
}

#[test]
fn chunk_index_covers_directory_once() {
    let mut seen = vec![false; DIR_SIZE];
    for z in 0..WORLD_CHUNKS {
        for y in 0..WORLD_CHUNKS {
            for x in 0..WORLD_CHUNKS {
                let i = chunk_index(x, y, z).unwrap();
                assert!(i < DIR_SIZE);
                assert!(!seen[i]);
                seen[i] = true;
            }
        }
    }
    assert!(seen.iter().all(|s| *s));
}

#[test]
fn centred_box_of_sixteen_by_eight() {
    let b = centred_box(16, 8, 16).unwrap();
    assert_eq!(
        b,
        ChunkBox { min_x: 8, min_y: 12, min_z: 8, len_x: 16, len_y: 8, len_z: 16 }
    );
    assert_eq!(centred_box(33, 1, 1), Err(WorldError::OutOfRange));
}

#[test]
fn initial_fill_clips_to_pool() {
    let b = centred_box(16, 8, 16).unwrap();
    let cells = requested_chunks(FillPolicy::Box(b)).unwrap();
    assert_eq!(cells.len(), 16 * 8 * 16);
    let dir = fill_directory(&cells);
    assert_eq!(dir.len(), DIR_SIZE);
    let assigned = dir.iter().filter(|v| **v != 0).count();
    assert_eq!(assigned, MAX_CHUNKS - 1);
    assert_eq!(assigned, 2047);
    let mut ids: Vec<u32> = dir.iter().copied().filter(|v| *v != 0).collect();
    ids.sort();
    let expected: Vec<u32> = (1..2048).collect();
    assert_eq!(ids, expected);
    for (k, c) in cells.iter().enumerate() {
        let want = if k + 1 < MAX_CHUNKS { (k + 1) as u32 } else { 0 };
        assert_eq!(dir[*c], want);
    }
    assert_eq!(dir[cells[2047]], 0);
    // chunks outside the box stay air
    assert_eq!(dir[chunk_index(0, 0, 0).unwrap()], 0);
    assert_eq!(dir[chunk_index(8, 11, 8).unwrap()], 0);
}

#[test]
fn box_cells_follow_directory_order() {
    let b = ChunkBox { min_x: 1, min_y: 2, min_z: 3, len_x: 2, len_y: 2, len_z: 2 };
    let cells = requested_chunks(FillPolicy::Box(b)).unwrap();
    let expected: Vec<usize> = vec![
        chunk_index(1, 2, 3).unwrap(),
        chunk_index(2, 2, 3).unwrap(),
        chunk_index(1, 3, 3).unwrap(),
        chunk_index(2, 3, 3).unwrap(),
        chunk_index(1, 2, 4).unwrap(),
        chunk_index(2, 2, 4).unwrap(),
        chunk_index(1, 3, 4).unwrap(),
        chunk_index(2, 3, 4).unwrap(),
    ];
    assert_eq!(cells, expected);
}

#[test]
fn box_reaching_outside_is_rejected() {
    let b = ChunkBox { min_x: 30, min_y: 0, min_z: 0, len_x: 3, len_y: 1, len_z: 1 };
    assert_eq!(requested_chunks(FillPolicy::Box(b)), Err(WorldError::OutOfRange));
    let edge = ChunkBox { min_x: 29, min_y: 0, min_z: 0, len_x: 3, len_y: 1, len_z: 1 };
    assert_eq!(requested_chunks(FillPolicy::Box(edge)).unwrap().len(), 3);
}

#[test]
fn everything_and_nothing_policies() {
    let all = requested_chunks(FillPolicy::Everything).unwrap();
    assert_eq!(all.len(), DIR_SIZE);
    let dir = fill_directory(&all);
    assert_eq!(dir[0], 1);
    assert_eq!(dir[2046], 2047);
    assert_eq!(dir[2047], 0);
    assert_eq!(dir[DIR_SIZE - 1], 0);
    let none = requested_chunks(FillPolicy::Nothing).unwrap();
    assert!(none.is_empty());
    assert!(fill_directory(&none).iter().all(|v| *v == 0));
}

#[test]
fn air_chunks_sample_the_empty_slot() {
    let b = ChunkBox { min_x: 4, min_y: 4, min_z: 4, len_x: 2, len_y: 1, len_z: 1 };
    let world = world_with(FillPolicy::Box(b));
    assert_eq!(world.slot_at(0, 0, 0), Ok(0));
    for (vx, vy, vz) in [(0, 0, 0), (31, 31, 31), (5, 17, 30)] {
        let c = world.sample(0, 0, 0, vx, vy, vz).unwrap();
        assert!(c < CHUNK_VOLUME);
        assert_eq!(c, vx + vy * 32 + vz * 1024);
    }
    for z in 0..WORLD_CHUNKS {
        for y in 0..WORLD_CHUNKS {
            for x in 0..WORLD_CHUNKS {
                if world.slot_at(x, y, z).unwrap() == 0 {
                    assert!(world.sample(x, y, z, 31, 31, 31).unwrap() < CHUNK_VOLUME);
                }
            }
        }
    }
}

#[test]
fn resident_chunks_sample_their_slot() {
    let b = ChunkBox { min_x: 4, min_y: 4, min_z: 4, len_x: 2, len_y: 1, len_z: 1 };
    let world = world_with(FillPolicy::Box(b));
    assert_eq!(world.slot_at(4, 4, 4), Ok(1));
    assert_eq!(world.slot_at(5, 4, 4), Ok(2));
    assert_eq!(world.sample(5, 4, 4, 0, 0, 0), Ok(2 * CHUNK_VOLUME));
    assert_eq!(world.sample(5, 4, 4, 1, 2, 3), Ok(2 * CHUNK_VOLUME + 1 + 64 + 3072));
}

#[test]
fn sampling_outside_is_rejected() {
    let world = world_with(FillPolicy::Nothing);
    assert_eq!(world.sample(32, 0, 0, 0, 0, 0), Err(WorldError::OutOfRange));
    assert_eq!(world.sample(0, 0, 0, 32, 0, 0), Err(WorldError::OutOfRange));
    assert_eq!(world.slot_at(0, 40, 0), Err(WorldError::OutOfRange));
}

#[test]
fn world_needs_buffers_of_the_right_size() {
    let r = ChunkedWorld::new(unbacked(DIR_BYTES - 4), unbacked(POOL_BYTES), FillPolicy::Nothing);
    assert!(matches!(r, Err(WorldError::Buffer(BufferError::AllocationError))));
    let r = ChunkedWorld::new(unbacked(DIR_BYTES), unbacked(1), FillPolicy::Nothing);
    assert!(matches!(r, Err(WorldError::Buffer(BufferError::AllocationError))));
}

#[test]
fn world_needs_a_mapped_directory_buffer() {
    let r = ChunkedWorld::new(unbacked(DIR_BYTES), unbacked(POOL_BYTES), FillPolicy::Nothing);
    assert!(matches!(r, Err(WorldError::Buffer(BufferError::MapError))));
}

#[test]
fn world_rejects_a_box_outside() {
    let b = ChunkBox { min_x: 0, min_y: 0, min_z: 20, len_x: 1, len_y: 1, len_z: 13 };
    let r = ChunkedWorld::new(unbacked(DIR_BYTES), unbacked(POOL_BYTES), FillPolicy::Box(b));
    assert!(matches!(r, Err(WorldError::OutOfRange)));
}

#[test]
fn sphere_policy_takes_chunks_within_radius() {
    let ball = |r| Ball { center_x: 16, center_y: 16, center_z: 16, radius: r };
    let one = requested_chunks(FillPolicy::Sphere(ball(0))).unwrap();
    assert_eq!(one, vec![chunk_index(16, 16, 16).unwrap()]);
    let seven = requested_chunks(FillPolicy::Sphere(ball(1))).unwrap();
    assert_eq!(
        seven,
        vec![
            chunk_index(16, 16, 15).unwrap(),
            chunk_index(16, 15, 16).unwrap(),
            chunk_index(15, 16, 16).unwrap(),
            chunk_index(16, 16, 16).unwrap(),
            chunk_index(17, 16, 16).unwrap(),
            chunk_index(16, 17, 16).unwrap(),
            chunk_index(16, 16, 17).unwrap(),
        ]
    );
    assert_eq!(requested_chunks(FillPolicy::Sphere(ball(2))).unwrap().len(), 33);
}

#[test]
fn sphere_outside_the_world_requests_nothing() {
    let far = Ball { center_x: -10, center_y: 0, center_z: 0, radius: 5 };
    assert!(requested_chunks(FillPolicy::Sphere(far)).unwrap().is_empty());
    let edge = Ball { center_x: -1, center_y: 0, center_z: 0, radius: 1 };
    assert_eq!(requested_chunks(FillPolicy::Sphere(edge)).unwrap(), vec![0]);
    let huge = Ball { center_x: i32::MIN, center_y: i32::MAX, center_z: 0, radius: u32::MAX };
    assert_eq!(requested_chunks(FillPolicy::Sphere(huge)).unwrap().len(), DIR_SIZE);
}

#[test]
fn refill_without_mapping_changes_nothing() {
    let b = ChunkBox { min_x: 0, min_y: 0, min_z: 0, len_x: 1, len_y: 1, len_z: 1 };
    let mut world = world_with(FillPolicy::Box(b));
    let before = world.directory.clone();
    assert_eq!(
        world.refill(FillPolicy::Everything),
        Err(WorldError::Buffer(BufferError::MapError))
    );
    assert_eq!(world.directory, before);
    let outside = ChunkBox { min_x: 31, min_y: 0, min_z: 0, len_x: 2, len_y: 1, len_z: 1 };
    assert_eq!(world.refill(FillPolicy::Box(outside)), Err(WorldError::OutOfRange));
    assert_eq!(world.directory, before);
}
