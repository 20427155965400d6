use vstd::prelude::*;

use crate::block_database::BlockDatabase;
use crate::block_type::spec_noise_natural;
use crate::block_type::BlockType;
use crate::chunk_mesh::spec_emitted_faces;
use crate::chunk_mesh::spec_faces_inds;
use crate::chunk_mesh::spec_faces_verts;
use crate::chunk_mesh::ChunkMesh;
use crate::vertex::Vertex;
use crate::volume::in_volume;
use crate::volume::BlockVolume;
use crate::CHUNK_HEIGHT;
use crate::CHUNK_SIZE;

verus! {

/// Number of feature-noise samples a chunk consumes: one per voxel above
/// the floor layer.
pub const NOISE_LEN: usize = 16384;

/// The position of the sample for (x, y, z), y in 0..CHUNK_HEIGHT, in a
/// chunk's noise-sample vector.
pub open spec fn noise_index(x: int, y: int, z: int) -> int {
    (x * CHUNK_SIZE + z) * CHUNK_HEIGHT + y
}

/// The block the generator assigns before the surface pass: the floor type
/// on the reserved layer, otherwise the rarity-table selection driven by
/// the voxel's feature-noise sample.
pub open spec fn spec_raw_block(
    db: BlockDatabase,
    noise: Seq<usize>,
    x: int,
    y: int,
    z: int,
) -> BlockType {
    if y == -1 {
        BlockType::Bedrock
    } else {
        spec_noise_natural(db, y, noise[noise_index(x, y, z)] as int)
    }
}

/// The greatest height below `n` whose raw block is soil, or -1 when the
/// column holds none.
pub open spec fn spec_highest_dirt_below(
    db: BlockDatabase,
    noise: Seq<usize>,
    x: int,
    z: int,
    n: int,
) -> int
    decreases n,
{
    if n <= 0 {
        -1
    } else if spec_raw_block(db, noise, x, n - 1, z) == BlockType::Dirt {
        n - 1
    } else {
        spec_highest_dirt_below(db, noise, x, z, n - 1)
    }
}

/// The height of the column's topmost soil block, or -1 when it has none.
pub open spec fn spec_highest_dirt(db: BlockDatabase, noise: Seq<usize>, x: int, z: int) -> int {
    spec_highest_dirt_below(db, noise, x, z, CHUNK_HEIGHT as int)
}

/// The generated block after the surface pass: the column's single topmost
/// soil block is relabeled grass-topped, everything else keeps its raw
/// assignment.
pub open spec fn spec_terrain_block(
    db: BlockDatabase,
    noise: Seq<usize>,
    x: int,
    y: int,
    z: int,
) -> BlockType {
    if y >= 0 && y == spec_highest_dirt(db, noise, x, z) {
        BlockType::Grass
    } else {
        spec_raw_block(db, noise, x, y, z)
    }
}

/// What `spec_highest_dirt_below` finds: either nothing, or a soil height
/// above which no soil occurs.
pub proof fn lemma_highest_dirt_props(
    db: BlockDatabase,
    noise: Seq<usize>,
    x: int,
    z: int,
    n: int,
)
    ensures
        ({
            let h = spec_highest_dirt_below(db, noise, x, z, n);
            h == -1 || (0 <= h < n && spec_raw_block(db, noise, x, h, z) == BlockType::Dirt)
        }),
        forall|y: int|
            spec_highest_dirt_below(db, noise, x, z, n) < y < n ==> spec_raw_block(
                db,
                noise,
                x,
                y,
                z,
            ) != BlockType::Dirt,
    decreases n,
{
    if n > 0 {
        lemma_highest_dirt_props(db, noise, x, z, n - 1);
    }
}

/// The generated terrain of a whole volume: floor, noise selection and the
/// surface pass, at every coordinate the volume holds.
pub open spec fn spec_volume_generated(
    db: BlockDatabase,
    noise: Seq<usize>,
    vol: BlockVolume,
) -> bool {
    &&& vol.wf()
    &&& forall|x: int, y: int, z: int|
        in_volume(x, y, z) ==> vol.spec_at(x, y, z) == spec_terrain_block(db, noise, x, y, z)
}

/// The surface pass touches at most one height per column, and there only
/// relabels soil to grass — so only when the column holds a soil block at
/// all.
pub proof fn lemma_surface_relabel_once(db: BlockDatabase, noise: Seq<usize>, x: int, z: int)
    ensures
        forall|y1: int, y2: int|
            spec_terrain_block(db, noise, x, y1, z) != spec_raw_block(db, noise, x, y1, z)
                && spec_terrain_block(db, noise, x, y2, z) != spec_raw_block(db, noise, x, y2, z)
                ==> y1 == y2,
        forall|y: int|
            spec_terrain_block(db, noise, x, y, z) != spec_raw_block(db, noise, x, y, z)
                ==> spec_raw_block(db, noise, x, y, z) == BlockType::Dirt && spec_terrain_block(
                db,
                noise,
                x,
                y,
                z,
            ) == BlockType::Grass,
{
    lemma_highest_dirt_props(db, noise, x, z, CHUNK_HEIGHT as int);
}

/// Generates one (x, z) column: the floor layer, then the noise-driven
/// selection for every height, then the single grass relabel of the
/// column's topmost soil block. Leaves every other column untouched.
fn generate_column(
    vol: &mut BlockVolume,
    db: &BlockDatabase,
    noise: &Vec<usize>,
    x: i32,
    z: i32,
)
    requires
        old(vol).wf(),
        db.wf(),
        noise@.len() == NOISE_LEN,
        0 <= x < CHUNK_SIZE,
        0 <= z < CHUNK_SIZE,
    ensures
        final(vol).wf(),
        forall|y: int|
            -1 <= y < CHUNK_HEIGHT ==> final(vol).spec_at(x as int, y, z as int)
                == spec_terrain_block(*db, noise@, x as int, y, z as int),
        forall|x2: int, y2: int, z2: int|
            !(x2 == x && z2 == z) ==> final(vol).spec_at(x2, y2, z2) == old(vol).spec_at(
                x2,
                y2,
                z2,
            ),
{
    let ghost xi = x as int;
    let ghost zi = z as int;
    vol.set(x, -1, z, BlockType::Bedrock);
    let mut highest_dirt: i32 = -1;
    let mut y: i32 = 0;
    while y < CHUNK_HEIGHT
        invariant
            0 <= y <= CHUNK_HEIGHT,
            0 <= x < CHUNK_SIZE,
            0 <= z < CHUNK_SIZE,
            xi == x as int,
            zi == z as int,
            vol.wf(),
            db.wf(),
            noise@.len() == NOISE_LEN,
            highest_dirt == spec_highest_dirt_below(*db, noise@, xi, zi, y as int),
            vol.spec_at(xi, -1, zi) == BlockType::Bedrock,
            forall|yy: int|
                0 <= yy < y ==> vol.spec_at(xi, yy, zi) == spec_raw_block(*db, noise@, xi, yy, zi),
            forall|x2: int, y2: int, z2: int|
                !(x2 == xi && z2 == zi) ==> vol.spec_at(x2, y2, z2) == old(vol).spec_at(
                    x2,
                    y2,
                    z2,
                ),
        decreases CHUNK_HEIGHT - y,
    {
        let ni: usize = ((x as usize) * 16 + (z as usize)) * 64 + (y as usize);
        proof {
            assert(ni as int == noise_index(xi, y as int, zi));
            assert(ni < NOISE_LEN);
        }
        let bt = BlockType::noise_natural(db, y, noise[ni]);
        if bt == BlockType::Dirt {
            highest_dirt = y;
        }
        vol.set(x, y, z, bt);
        y = y + 1;
    }
    proof {
        lemma_highest_dirt_props(*db, noise@, xi, zi, CHUNK_HEIGHT as int);
    }
    if highest_dirt >= 0 {
        vol.set(x, highest_dirt, z, BlockType::Grass);
    }
    proof {
        assert forall|yy: int| -1 <= yy < CHUNK_HEIGHT implies vol.spec_at(xi, yy, zi)
            == spec_terrain_block(*db, noise@, xi, yy, zi) by {
            assert(in_volume(xi, yy, zi));
        }
    }
}

/// The greatest height below `n` holding a non-air block, or 0 when the
/// whole scanned range is air.
pub open spec fn spec_highest_nonair_below(vol: BlockVolume, x: int, z: int, n: int) -> int
    decreases n,
{
    if n <= 0 {
        0
    } else if vol.spec_at(x, n - 1, z) != BlockType::Air {
        n - 1
    } else {
        spec_highest_nonair_below(vol, x, z, n - 1)
    }
}

/// The height of the column's topmost non-air block (0 when none is found):
/// the height the spawn position is derived from.
pub open spec fn spec_highest_block(vol: BlockVolume, x: int, z: int) -> int {
    spec_highest_nonair_below(vol, x, z, CHUNK_HEIGHT as int)
}

/// One terrain column together with its derived surface mesh, identified
/// by its chunk coordinate. Immutable once generated.
pub struct Chunk {
    pub mesh: ChunkMesh,
    pub world_position: (i32, i32, i32),
    pub index_position: (i32, i32),
    pub block_map: BlockVolume,
}

impl Chunk {
    /// A fully generated chunk: its volume is the generated terrain for its
    /// coordinate and its mesh is the culled face extraction of that volume.
    pub open spec fn wf(self, db: BlockDatabase, noise: Seq<usize>) -> bool {
        &&& spec_volume_generated(db, noise, self.block_map)
        &&& self.world_position.0 == self.index_position.0 * CHUNK_SIZE
        &&& self.world_position.1 == 0
        &&& self.world_position.2 == self.index_position.1 * CHUNK_SIZE
        &&& self.mesh.vertices@.map_values(|v: Vertex| v@) == spec_faces_verts(
            self.block_map,
            db,
            spec_emitted_faces(self.block_map, db),
        )
        &&& self.mesh.indices@.map_values(|i: u32| i as int) == spec_faces_inds(
            spec_emitted_faces(self.block_map, db),
        )
    }

    /// Generates the chunk at chunk coordinate `index_position` from the
    /// per-voxel feature-noise samples in `noise`, then builds its mesh.
    pub fn new(index_position: (i32, i32), noise: &Vec<usize>, db: &BlockDatabase) -> (r: Chunk)
        requires
            db.wf(),
            noise@.len() == NOISE_LEN,
            -134217728 <= index_position.0 <= 134217727,
            -134217728 <= index_position.1 <= 134217727,
        ensures
            r.wf(*db, noise@),
            r.index_position == index_position,
    {
        let mut block_map = BlockVolume::new();
        let mut x: i32 = 0;
        while x < CHUNK_SIZE
            invariant
                0 <= x <= CHUNK_SIZE,
                block_map.wf(),
                db.wf(),
                noise@.len() == NOISE_LEN,
                forall|x2: int, y2: int, z2: int|
                    0 <= x2 < x && in_volume(x2, y2, z2) ==> block_map.spec_at(x2, y2, z2)
                        == spec_terrain_block(*db, noise@, x2, y2, z2),
            decreases CHUNK_SIZE - x,
        {
            let mut z: i32 = 0;
            while z < CHUNK_SIZE
                invariant
                    0 <= x < CHUNK_SIZE,
                    0 <= z <= CHUNK_SIZE,
                    block_map.wf(),
                    db.wf(),
                    noise@.len() == NOISE_LEN,
                    forall|x2: int, y2: int, z2: int|
                        0 <= x2 < x && in_volume(x2, y2, z2) ==> block_map.spec_at(x2, y2, z2)
                            == spec_terrain_block(*db, noise@, x2, y2, z2),
                    forall|y2: int, z2: int|
                        0 <= z2 < z && in_volume(x as int, y2, z2) ==> block_map.spec_at(
                            x as int,
                            y2,
                            z2,
                        ) == spec_terrain_block(*db, noise@, x as int, y2, z2),
                decreases CHUNK_SIZE - z,
            {
                generate_column(&mut block_map, db, noise, x, z);
                z = z + 1;
            }
            x = x + 1;
        }
        let mesh = ChunkMesh::new(&block_map, db);
        Chunk {
            mesh,
            world_position: (index_position.0 * CHUNK_SIZE, 0, index_position.1 * CHUNK_SIZE),
            index_position,
            block_map,
        }
    }

    /// The height of the topmost non-air block of local column `pos_xz`,
    /// 0 when the scanned range holds none.
    pub fn get_highest_block(&self, pos_xz: (i32, i32)) -> (r: i32)
        requires
            self.block_map.wf(),
        ensures
            r == spec_highest_block(self.block_map, pos_xz.0 as int, pos_xz.1 as int),
            0 <= r < CHUNK_HEIGHT,
    {
        let (x, z) = pos_xz;
        let mut highest_block: i32 = 0;
        let mut y: i32 = 0;
        while y < CHUNK_HEIGHT
            invariant
                0 <= y <= CHUNK_HEIGHT,
                self.block_map.wf(),
                0 <= highest_block < CHUNK_HEIGHT,
                highest_block == spec_highest_nonair_below(
                    self.block_map,
                    x as int,
                    z as int,
                    y as int,
                ),
            decreases CHUNK_HEIGHT - y,
        {
            let bt = self.block_map.get(x, y, z);
            if bt != BlockType::Air {
                highest_block = y;
            }
            y = y + 1;
        }
        highest_block
    }

    /// The chunk coordinate this chunk was generated for.
    pub fn index(&self) -> (r: (i32, i32))
        ensures
            r == self.index_position,
    {
        self.index_position
    }

    pub fn verts(&self) -> (r: &Vec<Vertex>)
        ensures
            r@ == self.mesh.vertices@,
    {
        self.mesh.verts()
    }

    pub fn inds(&self) -> (r: &Vec<u32>)
        ensures
            r@ == self.mesh.indices@,
    {
        self.mesh.inds()
    }
}

} // verus!
