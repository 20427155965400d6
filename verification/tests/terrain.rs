use voxelstream::Block;
use voxelstream::BlockDatabase;
use voxelstream::BlockType;
use voxelstream::Chunk;
use voxelstream::TexCell;

fn entry(
    m_type: BlockType,
    opaque: bool,
    natural: bool,
    min_height: i32,
    max_height: i32,
    rarity: u32,
) -> Block {
    Block {
        m_type,
        opaque,
        natural,
        min_height,
        max_height,
        rarity,
        scale_x: 1000,
        scale_y: 1000,
        texture_top: Some(TexCell { x: 1, y: 2 }),
        texture_bottom: Some(TexCell { x: 1, y: 2 }),
        texture_front: Some(TexCell { x: 1, y: 2 }),
        texture_back: Some(TexCell { x: 1, y: 2 }),
        texture_left: Some(TexCell { x: 1, y: 2 }),
        texture_right: Some(TexCell { x: 1, y: 2 }),
        light_emission: 0,
        light_color: None,
    }
}

fn registry() -> BlockDatabase {
    let entries = vec![
        entry(BlockType::Air, false, false, 0, 0, 0),
        entry(BlockType::Dirt, true, true, 0, 64, 50),
        entry(BlockType::Grass, true, false, 0, 0, 0),
        entry(BlockType::DiamondOre, true, false, 0, 0, 0),
        entry(BlockType::RedstoneOre, true, false, 0, 0, 0),
        entry(BlockType::GoldOre, true, false, 0, 0, 0),
        entry(BlockType::IronOre, true, false, 0, 0, 0),
        entry(BlockType::CoalOre, true, false, 0, 0, 0),
        entry(BlockType::Pumpkin, true, false, 0, 0, 0),
        entry(BlockType::JackOLantern, true, false, 0, 0, 0),
        entry(BlockType::Torch, false, false, 0, 0, 0),
        entry(BlockType::Bedrock, true, false, 0, 0, 0),
        entry(BlockType::Stone, true, true, 0, 32, 0),
        entry(BlockType::Gravel, true, false, 0, 0, 0),
        entry(BlockType::Granite, true, false, 0, 0, 0),
        entry(BlockType::Diorite, true, false, 0, 0, 0),
    ];
    BlockDatabase::new(entries).unwrap()
}

const NOISE_LEN: usize = 16384;

fn sample_index(x: usize, y: usize, z: usize) -> usize {
    (x * 16 + z) * 64 + y
}

#[test]
fn noise_natural_indexes_the_rarity_row() {
    let db = registry();
    // Height 10: soil weight 50 first, then stone weight 100.
    assert_eq!(BlockType::noise_natural(&db, 10, 0), BlockType::Dirt);
    assert_eq!(BlockType::noise_natural(&db, 10, 49), BlockType::Dirt);
    assert_eq!(BlockType::noise_natural(&db, 10, 50), BlockType::Stone);
    assert_eq!(BlockType::noise_natural(&db, 10, 149), BlockType::Stone);
}

#[test]
fn noise_natural_defaults_to_air_past_the_row() {
    let db = registry();
    assert_eq!(BlockType::noise_natural(&db, 10, 150), BlockType::Air);
    assert_eq!(BlockType::noise_natural(&db, 10, 1_000_000), BlockType::Air);
}

#[test]
fn noise_natural_is_pure() {
    let db = registry();
    for _ in 0..3 {
        assert_eq!(BlockType::noise_natural(&db, 17, 60), BlockType::Stone);
    }
}

#[test]
fn generated_chunk_has_floor_soil_and_grass_cap() {
    let db = registry();
    // Sample 0 selects soil at every height, so each column is solid soil
    // and its topmost soil block becomes grass.
    let noise = vec![0usize; NOISE_LEN];
    let chunk = Chunk::new((0, 0), &noise, &db);
    assert_eq!(chunk.index(), (0, 0));
    assert_eq!(chunk.block_map.get(0, -1, 0), BlockType::Bedrock);
    assert_eq!(chunk.block_map.get(0, 0, 0), BlockType::Dirt);
    assert_eq!(chunk.block_map.get(7, 62, 9), BlockType::Dirt);
    assert_eq!(chunk.block_map.get(7, 63, 9), BlockType::Grass);
    assert_eq!(chunk.get_highest_block((0, 0)), 63);
}

#[test]
fn out_of_row_samples_leave_the_column_empty() {
    let db = registry();
    let noise = vec![1_000_000usize; NOISE_LEN];
    let chunk = Chunk::new((3, -2), &noise, &db);
    assert_eq!(chunk.index(), (3, -2));
    assert_eq!(chunk.block_map.get(4, -1, 4), BlockType::Bedrock);
    assert_eq!(chunk.block_map.get(4, 0, 4), BlockType::Air);
    assert_eq!(chunk.block_map.get(4, 63, 4), BlockType::Air);
    assert_eq!(chunk.get_highest_block((4, 4)), 0);
}

#[test]
fn surface_pass_touches_only_the_topmost_soil_block() {
    let db = registry();
    // Exactly one height per column selects soil; everything else is air.
    let mut noise = vec![1_000_000usize; NOISE_LEN];
    for x in 0..16 {
        for z in 0..16 {
            noise[sample_index(x, 5, z)] = 0;
        }
    }
    let chunk = Chunk::new((0, 0), &noise, &db);
    for x in 0..16 {
        for z in 0..16 {
            assert_eq!(chunk.block_map.get(x, 5, z), BlockType::Grass);
            for y in 0..64 {
                if y != 5 {
                    assert_eq!(chunk.block_map.get(x, y, z), BlockType::Air);
                }
            }
        }
    }
}

#[test]
fn columns_relabel_independently() {
    let db = registry();
    // One column gets soil at two heights; its neighbor keeps none.
    let mut noise = vec![1_000_000usize; NOISE_LEN];
    noise[sample_index(2, 10, 2)] = 0;
    noise[sample_index(2, 20, 2)] = 0;
    let chunk = Chunk::new((0, 0), &noise, &db);
    assert_eq!(chunk.block_map.get(2, 10, 2), BlockType::Dirt);
    assert_eq!(chunk.block_map.get(2, 20, 2), BlockType::Grass);
    assert_eq!(chunk.block_map.get(3, 10, 2), BlockType::Air);
    assert_eq!(chunk.get_highest_block((2, 2)), 20);
}

#[test]
fn world_position_is_the_chunk_origin() {
    let db = registry();
    let noise = vec![1_000_000usize; NOISE_LEN];
    let chunk = Chunk::new((3, -2), &noise, &db);
    assert_eq!(chunk.world_position, (48, 0, -32));
}
