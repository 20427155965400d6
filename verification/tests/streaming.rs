use voxelstream::Block;
use voxelstream::BlockDatabase;
use voxelstream::BlockType;
use voxelstream::Chunk;
use voxelstream::TexCell;
use voxelstream::World;

fn entry(
    m_type: BlockType,
    opaque: bool,
    natural: bool,
    min_height: i32,
    max_height: i32,
    rarity: u32,
) -> Block {
    Block {
        m_type,
        opaque,
        natural,
        min_height,
        max_height,
        rarity,
        scale_x: 1000,
        scale_y: 1000,
        texture_top: Some(TexCell { x: 1, y: 2 }),
        texture_bottom: Some(TexCell { x: 1, y: 2 }),
        texture_front: Some(TexCell { x: 1, y: 2 }),
        texture_back: Some(TexCell { x: 1, y: 2 }),
        texture_left: Some(TexCell { x: 1, y: 2 }),
        texture_right: Some(TexCell { x: 1, y: 2 }),
        light_emission: 0,
        light_color: None,
    }
}

fn registry() -> BlockDatabase {
    let entries = vec![
        entry(BlockType::Air, false, false, 0, 0, 0),
        entry(BlockType::Dirt, true, true, 0, 64, 50),
        entry(BlockType::Grass, true, false, 0, 0, 0),
        entry(BlockType::DiamondOre, true, false, 0, 0, 0),
        entry(BlockType::RedstoneOre, true, false, 0, 0, 0),
        entry(BlockType::GoldOre, true, false, 0, 0, 0),
        entry(BlockType::IronOre, true, false, 0, 0, 0),
        entry(BlockType::CoalOre, true, false, 0, 0, 0),
        entry(BlockType::Pumpkin, true, false, 0, 0, 0),
        entry(BlockType::JackOLantern, true, false, 0, 0, 0),
        entry(BlockType::Torch, false, false, 0, 0, 0),
        entry(BlockType::Bedrock, true, false, 0, 0, 0),
        entry(BlockType::Stone, true, true, 0, 32, 0),
        entry(BlockType::Gravel, true, false, 0, 0, 0),
        entry(BlockType::Granite, true, false, 0, 0, 0),
        entry(BlockType::Diorite, true, false, 0, 0, 0),
    ];
    BlockDatabase::new(entries).unwrap()
}

fn solid_chunk(db: &BlockDatabase, coord: (i32, i32)) -> Chunk {
    let noise = vec![0usize; 16384];
    Chunk::new(coord, &noise, db)
}

#[test]
fn a_fresh_manager_is_empty() {
    let w = World::new();
    assert!(w.get_player_spawn().is_none());
    assert!(w.active_chunk(0, 0).is_none());
}

#[test]
fn initialize_requests_the_origin_box_exactly_once() {
    let mut w = World::new();
    let first = w.initialize_chunks();
    assert_eq!(first.len(), 25);
    assert!(first.contains(&(0, 0)));
    assert!(first.contains(&(-2, -2)));
    assert!(first.contains(&(2, 2)));
    for i in 0..first.len() {
        for j in (i + 1)..first.len() {
            assert_ne!(first[i], first[j]);
        }
    }
    // A second pass before any completion submits nothing again.
    let second = w.initialize_chunks();
    assert_eq!(second.len(), 0);
}

#[test]
fn stationary_observer_requests_each_coordinate_at_most_once() {
    let mut w = World::new();
    let first = w.build_chunks((0, 0));
    // The radius-4 box around the origin chunk.
    assert_eq!(first.len(), 81);
    for frame in 0..10 {
        let again = w.build_chunks((0, 0));
        assert_eq!(again.len(), 0, "frame {} resubmitted work", frame);
    }
    // Moving the observer one chunk east exposes exactly one new column.
    let moved = w.build_chunks((16, 0));
    assert_eq!(moved.len(), 9);
    for p in moved.iter() {
        assert_eq!(p.0, 5);
    }
}

#[test]
fn completion_queues_and_promotion_activates_one_chunk_per_call() {
    let db = registry();
    let mut w = World::new();
    let requested = w.initialize_chunks();
    assert!(requested.contains(&(0, 0)));
    assert!(w.is_pending(0, 0));
    assert!(w.is_pending(1, 1));

    w.complete_chunk(solid_chunk(&db, (0, 0)));
    assert!(!w.is_pending(0, 0));
    w.complete_chunk(solid_chunk(&db, (1, 1)));

    // Promotion is strictly one per call, oldest completion first.
    assert_eq!(w.take_chunk_from_queue(), Some((0, 0)));
    assert!(w.active_chunk(0, 0).is_some());
    assert!(w.active_chunk(1, 1).is_none());
    assert_eq!(w.take_chunk_from_queue(), Some((1, 1)));
    assert!(w.active_chunk(1, 1).is_some());
    assert_eq!(w.take_chunk_from_queue(), None);
}

#[test]
fn completed_but_unpromoted_coordinates_are_not_rerequested() {
    let db = registry();
    let mut w = World::new();
    w.build_chunks((0, 0));
    w.complete_chunk(solid_chunk(&db, (0, 0)));
    // (0, 0) sits in the completion queue: a new scan must not resubmit it.
    let again = w.build_chunks((0, 0));
    assert_eq!(again.len(), 0);
}

#[test]
fn spawn_is_one_above_the_origin_columns_surface() {
    let db = registry();
    let mut w = World::new();
    w.initialize_chunks();
    assert!(w.get_player_spawn().is_none());
    // A solid chunk's highest non-air block in column (0, 0) sits at 63.
    w.complete_chunk(solid_chunk(&db, (0, 0)));
    assert_eq!(w.get_player_spawn(), Some((0, 64, 0)));
}

#[test]
fn spawn_is_only_set_by_the_origin_chunk() {
    let db = registry();
    let mut w = World::new();
    w.initialize_chunks();
    w.complete_chunk(solid_chunk(&db, (1, 0)));
    assert!(w.get_player_spawn().is_none());
    w.complete_chunk(solid_chunk(&db, (0, 0)));
    assert_eq!(w.get_player_spawn(), Some((0, 64, 0)));
}

#[test]
fn spawn_never_changes_once_written() {
    let db = registry();
    let mut w = World::new();
    w.initialize_chunks();
    w.complete_chunk(solid_chunk(&db, (0, 0)));
    let spawn = w.get_player_spawn();
    assert_eq!(spawn, Some((0, 64, 0)));
    w.complete_chunk(solid_chunk(&db, (2, 2)));
    w.take_chunk_from_queue();
    w.build_chunks((160, 160));
    w.take_chunk_from_queue();
    assert_eq!(w.get_player_spawn(), spawn);
}

#[test]
fn empty_space_spawn_rests_on_the_floor() {
    let db = registry();
    let mut w = World::new();
    w.initialize_chunks();
    // All samples out of range: the origin column holds nothing but the
    // floor layer, and the reported surface height defaults to 0.
    let noise = vec![1_000_000usize; 16384];
    w.complete_chunk(Chunk::new((0, 0), &noise, &db));
    assert_eq!(w.get_player_spawn(), Some((0, 1, 0)));
}

#[test]
fn promoted_chunk_keeps_its_mesh() {
    let db = registry();
    let mut w = World::new();
    w.build_chunks((0, 0));
    w.complete_chunk(solid_chunk(&db, (0, 0)));
    w.take_chunk_from_queue();
    let c = w.active_chunk(0, 0).unwrap();
    assert_eq!(c.index(), (0, 0));
    assert!(c.verts().len() > 0);
    assert_eq!(c.inds().len() / 6, c.verts().len() / 4);
}

#[test]
fn observer_position_maps_by_floor_division() {
    let mut w = World::new();
    // World position (-1, 0) lies in chunk (-1, 0), so the scan box spans
    // chunk x in [-5, 3] and z in [-4, 4].
    let r = w.build_chunks((-1, 0));
    assert_eq!(r.len(), 81);
    assert!(r.contains(&(-5, -4)));
    assert!(r.contains(&(3, 4)));
    assert!(!r.contains(&(4, 0)));
    assert!(!r.contains(&(-6, 0)));
}
