use voxelstream::Block;
use voxelstream::BlockDatabase;
use voxelstream::BlockType;
use voxelstream::BlockVolume;
use voxelstream::ChunkMesh;
use voxelstream::TexCell;

fn entry(
    m_type: BlockType,
    opaque: bool,
    natural: bool,
    min_height: i32,
    max_height: i32,
    rarity: u32,
) -> Block {
    Block {
        m_type,
        opaque,
        natural,
        min_height,
        max_height,
        rarity,
        scale_x: 1000,
        scale_y: 1000,
        texture_top: Some(TexCell { x: 1, y: 2 }),
        texture_bottom: Some(TexCell { x: 1, y: 2 }),
        texture_front: Some(TexCell { x: 1, y: 2 }),
        texture_back: Some(TexCell { x: 1, y: 2 }),
        texture_left: Some(TexCell { x: 1, y: 2 }),
        texture_right: Some(TexCell { x: 1, y: 2 }),
        light_emission: 0,
        light_color: None,
    }
}

fn registry() -> BlockDatabase {
    let mut torch = entry(BlockType::Torch, false, false, 0, 0, 0);
    torch.scale_x = 300;
    torch.scale_y = 600;
    let entries = vec![
        entry(BlockType::Air, false, false, 0, 0, 0),
        entry(BlockType::Dirt, true, true, 0, 64, 50),
        entry(BlockType::Grass, true, false, 0, 0, 0),
        entry(BlockType::DiamondOre, true, false, 0, 0, 0),
        entry(BlockType::RedstoneOre, true, false, 0, 0, 0),
        entry(BlockType::GoldOre, true, false, 0, 0, 0),
        entry(BlockType::IronOre, true, false, 0, 0, 0),
        entry(BlockType::CoalOre, true, false, 0, 0, 0),
        entry(BlockType::Pumpkin, true, false, 0, 0, 0),
        entry(BlockType::JackOLantern, true, false, 0, 0, 0),
        torch,
        entry(BlockType::Bedrock, true, false, 0, 0, 0),
        entry(BlockType::Stone, true, true, 0, 32, 0),
        entry(BlockType::Gravel, true, false, 0, 0, 0),
        entry(BlockType::Granite, true, false, 0, 0, 0),
        entry(BlockType::Diorite, true, false, 0, 0, 0),
    ];
    BlockDatabase::new(entries).unwrap()
}

#[test]
fn empty_volume_builds_an_empty_mesh() {
    let db = registry();
    let vol = BlockVolume::new();
    let mesh = ChunkMesh::new(&vol, &db);
    assert_eq!(mesh.verts().len(), 0);
    assert_eq!(mesh.inds().len(), 0);
}

#[test]
fn lone_cube_emits_six_faces_with_exact_counts() {
    let db = registry();
    let mut vol = BlockVolume::new();
    vol.set(5, 5, 5, BlockType::Stone);
    let mesh = ChunkMesh::new(&vol, &db);
    // 6 faces: 4 vertices and 6 indices each.
    assert_eq!(mesh.verts().len(), 24);
    assert_eq!(mesh.inds().len(), 36);
    for &i in mesh.inds().iter() {
        assert!((i as usize) < mesh.verts().len());
    }
}

#[test]
fn lone_cube_first_face_has_exact_geometry() {
    let db = registry();
    let mut vol = BlockVolume::new();
    vol.set(5, 5, 5, BlockType::Stone);
    let mesh = ChunkMesh::new(&vol, &db);
    // The first tested direction is +X. Corner a of the right face sits at
    // (+,-,-) of the voxel center (10000, 10000, 10000) with unit scale.
    let v = mesh.verts()[0];
    assert_eq!((v.px, v.py, v.pz), (11000, 9000, 9000));
    assert_eq!((v.nx, v.ny, v.nz), (1, 0, 0));
    // Atlas anchor cell (1, 2): u from 16000, v from the stretched cell
    // bottom at 2 * 16000 + 16 * 1000.
    assert_eq!((v.u, v.v), (16000, 48000));
    // Winding of the right face's two triangles.
    assert_eq!(&mesh.inds()[0..6], &[3, 2, 1, 1, 0, 3]);
}

#[test]
fn fully_buried_cube_emits_no_face() {
    let db = registry();
    let mut vol = BlockVolume::new();
    vol.set(8, 8, 8, BlockType::Stone);
    vol.set(9, 8, 8, BlockType::Stone);
    vol.set(7, 8, 8, BlockType::Stone);
    vol.set(8, 9, 8, BlockType::Stone);
    vol.set(8, 7, 8, BlockType::Stone);
    vol.set(8, 8, 9, BlockType::Stone);
    vol.set(8, 8, 7, BlockType::Stone);
    let mesh = ChunkMesh::new(&vol, &db);
    // The center contributes nothing; each of the six neighbors shows five
    // faces (the one toward the opaque center is culled).
    assert_eq!(mesh.verts().len(), 6 * 5 * 4);
    assert_eq!(mesh.inds().len(), 6 * 5 * 6);
}

#[test]
fn buried_light_fixture_still_emits_all_six_faces() {
    let db = registry();
    let mut vol = BlockVolume::new();
    vol.set(8, 8, 8, BlockType::Torch);
    vol.set(9, 8, 8, BlockType::Stone);
    vol.set(7, 8, 8, BlockType::Stone);
    vol.set(8, 9, 8, BlockType::Stone);
    vol.set(8, 7, 8, BlockType::Stone);
    vol.set(8, 8, 9, BlockType::Stone);
    vol.set(8, 8, 7, BlockType::Stone);
    let mesh = ChunkMesh::new(&vol, &db);
    // The non-unit-scale torch keeps all 6 faces, and the torch does not
    // occlude its neighbors, so each neighbor shows all 6 of its faces.
    assert_eq!(mesh.verts().len(), (6 + 6 * 6) * 4);
    assert_eq!(mesh.inds().len(), (6 + 6 * 6) * 6);
}

#[test]
fn torch_faces_are_scaled_down() {
    let db = registry();
    let mut vol = BlockVolume::new();
    vol.set(5, 5, 5, BlockType::Torch);
    let mesh = ChunkMesh::new(&vol, &db);
    assert_eq!(mesh.verts().len(), 24);
    // Right face corner a at (+,-,-) scaled by (300, 600, 300) around the
    // center (10000, 10000, 10000).
    let v = mesh.verts()[0];
    assert_eq!((v.px, v.py, v.pz), (10300, 9400, 9700));
}

#[test]
fn every_index_references_a_vertex() {
    let db = registry();
    let mut vol = BlockVolume::new();
    for x in 0..4 {
        for z in 0..4 {
            vol.set(x, 0, z, BlockType::Dirt);
            vol.set(x, 1, z, if (x + z) % 2 == 0 { BlockType::Stone } else { BlockType::Air });
        }
    }
    let mesh = ChunkMesh::new(&vol, &db);
    assert_eq!(mesh.verts().len() % 4, 0);
    assert_eq!(mesh.inds().len() % 6, 0);
    assert_eq!(mesh.inds().len() / 6, mesh.verts().len() / 4);
    for &i in mesh.inds().iter() {
        assert!((i as usize) < mesh.verts().len());
    }
}
