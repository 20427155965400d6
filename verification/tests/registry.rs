use voxelstream::Block;
use voxelstream::BlockDatabase;
use voxelstream::BlockType;
use voxelstream::TexCell;

fn entry(
    m_type: BlockType,
    opaque: bool,
    natural: bool,
    min_height: i32,
    max_height: i32,
    rarity: u32,
) -> Block {
    Block {
        m_type,
        opaque,
        natural,
        min_height,
        max_height,
        rarity,
        scale_x: 1000,
        scale_y: 1000,
        texture_top: Some(TexCell { x: 1, y: 2 }),
        texture_bottom: Some(TexCell { x: 1, y: 2 }),
        texture_front: Some(TexCell { x: 1, y: 2 }),
        texture_back: Some(TexCell { x: 1, y: 2 }),
        texture_left: Some(TexCell { x: 1, y: 2 }),
        texture_right: Some(TexCell { x: 1, y: 2 }),
        light_emission: 0,
        light_color: None,
    }
}

fn catalog() -> Vec<Block> {
    let mut torch = entry(BlockType::Torch, false, false, 0, 0, 0);
    torch.scale_x = 300;
    torch.scale_y = 600;
    vec![
        entry(BlockType::Air, false, false, 0, 0, 0),
        entry(BlockType::Dirt, true, true, 0, 64, 50),
        entry(BlockType::Grass, true, false, 0, 0, 0),
        entry(BlockType::DiamondOre, true, false, 0, 0, 0),
        entry(BlockType::RedstoneOre, true, false, 0, 0, 0),
        entry(BlockType::GoldOre, true, false, 0, 0, 0),
        entry(BlockType::IronOre, true, false, 0, 0, 0),
        entry(BlockType::CoalOre, true, false, 0, 0, 0),
        entry(BlockType::Pumpkin, true, false, 0, 0, 0),
        entry(BlockType::JackOLantern, true, false, 0, 0, 0),
        torch,
        entry(BlockType::Bedrock, true, false, 0, 0, 0),
        entry(BlockType::Stone, true, true, 0, 32, 0),
        entry(BlockType::Gravel, true, false, 0, 0, 0),
        entry(BlockType::Granite, true, false, 0, 0, 0),
        entry(BlockType::Diorite, true, false, 0, 0, 0),
    ]
}

#[test]
fn accepts_a_full_catalog() {
    assert!(BlockDatabase::new(catalog()).is_some());
}

#[test]
fn rejects_a_missing_type() {
    let mut entries = catalog();
    entries.pop();
    assert!(BlockDatabase::new(entries).is_none());
}

#[test]
fn rejects_a_duplicate_type() {
    let mut entries = catalog();
    entries.push(entry(BlockType::Dirt, true, true, 0, 64, 50));
    assert!(BlockDatabase::new(entries).is_none());
}

#[test]
fn rejects_rarity_above_hundred() {
    let mut entries = catalog();
    entries[1].rarity = 101;
    assert!(BlockDatabase::new(entries).is_none());
}

#[test]
fn rejects_zero_scale() {
    let mut entries = catalog();
    entries[10].scale_x = 0;
    assert!(BlockDatabase::new(entries).is_none());
}

#[test]
fn rejects_inverted_height_range() {
    let mut entries = catalog();
    entries[1].min_height = 10;
    entries[1].max_height = 5;
    assert!(BlockDatabase::new(entries).is_none());
}

#[test]
fn rarity_table_repeats_each_candidate_hundred_minus_rarity_times() {
    let db = BlockDatabase::new(catalog()).unwrap();
    // At height 10 both naturals apply: soil (weight 50) then stone
    // (weight 100), in slot order.
    let row = db.blocks_at_height(10);
    assert_eq!(row.len(), 150);
    for i in 0..50 {
        assert_eq!(row[i], BlockType::Dirt);
    }
    for i in 50..150 {
        assert_eq!(row[i], BlockType::Stone);
    }
    // Above stone's range only soil remains.
    let row = db.blocks_at_height(40);
    assert_eq!(row.len(), 50);
    for i in 0..50 {
        assert_eq!(row[i], BlockType::Dirt);
    }
}

#[test]
fn natural_and_unnatural_selections_partition_the_catalog() {
    let db = BlockDatabase::new(catalog()).unwrap();
    let naturals = db.natural_blocks();
    assert_eq!(naturals, vec![BlockType::Dirt, BlockType::Stone]);
    let unnaturals = db.unnatural_blocks();
    assert_eq!(unnaturals.len(), 14);
    assert!(unnaturals.contains(&BlockType::Air));
    assert!(unnaturals.contains(&BlockType::Torch));
    assert!(!unnaturals.contains(&BlockType::Dirt));
}

#[test]
fn get_block_returns_the_entry_of_its_type() {
    let db = BlockDatabase::new(catalog()).unwrap();
    let torch = db.get_block(BlockType::Torch);
    assert_eq!(torch.m_type, BlockType::Torch);
    assert_eq!(torch.scale_x, 300);
    assert!(!torch.opaque);
    let dirt = db.get_block(BlockType::Dirt);
    assert_eq!(dirt.m_type, BlockType::Dirt);
    assert!(dirt.opaque);
}

#[test]
fn unwrap_block_defaults_a_missing_neighbor_to_air() {
    let db = BlockDatabase::new(catalog()).unwrap();
    let missing = db.unwrap_block(None);
    assert_eq!(missing.m_type, BlockType::Air);
    let stone_type = BlockType::Stone;
    let present = db.unwrap_block(Some(&stone_type));
    assert_eq!(present.m_type, BlockType::Stone);
}

#[test]
fn random_natural_draws_from_the_natural_selection() {
    let db = BlockDatabase::new(catalog()).unwrap();
    for _ in 0..32 {
        let t = BlockType::random_natural(&db);
        assert!(t == BlockType::Dirt || t == BlockType::Stone);
    }
}

#[test]
fn random_unnatural_draws_from_the_unnatural_selection() {
    let db = BlockDatabase::new(catalog()).unwrap();
    for _ in 0..32 {
        let t = BlockType::random_unnatural(&db);
        assert!(t != BlockType::Dirt && t != BlockType::Stone);
    }
}

#[test]
fn random_natural_is_air_when_nothing_is_natural() {
    let mut entries = catalog();
    for e in entries.iter_mut() {
        e.natural = false;
    }
    let db = BlockDatabase::new(entries).unwrap();
    assert_eq!(BlockType::random_natural(&db), BlockType::Air);
}
