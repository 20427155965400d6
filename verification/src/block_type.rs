use vstd::prelude::*;

use rand::RngExt;

use crate::block_database::spec_candidates;
use crate::block_database::spec_natural_types;
use crate::block_database::spec_unnatural_types;
use crate::block_database::BlockDatabase;
use crate::CHUNK_HEIGHT;

verus! {

/// The closed catalog of block kinds. `Air` is the absence of a block; the
/// mesh builder treats every coordinate outside a chunk's volume as `Air`.
#[derive(Clone, Copy, Debug, PartialEq, Eq, Structural, Hash)]
pub enum BlockType {
    Air,
    Dirt,
    Grass,
    DiamondOre,
    RedstoneOre,
    GoldOre,
    IronOre,
    CoalOre,
    Pumpkin,
    JackOLantern,
    Torch,
    Bedrock,
    Stone,
    Gravel,
    Granite,
    Diorite,
}

/// Number of variants of `BlockType`.
pub const BLOCK_TYPE_COUNT: usize = 16;

impl BlockType {
    /// A distinct small integer for each variant, used to slot block
    /// metadata into a dense table.
    pub open spec fn spec_index(self) -> int {
        match self {
            BlockType::Air => 0,
            BlockType::Dirt => 1,
            BlockType::Grass => 2,
            BlockType::DiamondOre => 3,
            BlockType::RedstoneOre => 4,
            BlockType::GoldOre => 5,
            BlockType::IronOre => 6,
            BlockType::CoalOre => 7,
            BlockType::Pumpkin => 8,
            BlockType::JackOLantern => 9,
            BlockType::Torch => 10,
            BlockType::Bedrock => 11,
            BlockType::Stone => 12,
            BlockType::Gravel => 13,
            BlockType::Granite => 14,
            BlockType::Diorite => 15,
        }
    }

    pub fn index(&self) -> (r: usize)
        ensures
            r == self.spec_index(),
            r < BLOCK_TYPE_COUNT,
    {
        match self {
            BlockType::Air => 0,
            BlockType::Dirt => 1,
            BlockType::Grass => 2,
            BlockType::DiamondOre => 3,
            BlockType::RedstoneOre => 4,
            BlockType::GoldOre => 5,
            BlockType::IronOre => 6,
            BlockType::CoalOre => 7,
            BlockType::Pumpkin => 8,
            BlockType::JackOLantern => 9,
            BlockType::Torch => 10,
            BlockType::Bedrock => 11,
            BlockType::Stone => 12,
            BlockType::Gravel => 13,
            BlockType::Granite => 14,
            BlockType::Diorite => 15,
        }
    }
}

/// An anchor cell in the shared texture atlas, in whole cells.
#[derive(Clone, Copy, Debug, PartialEq, Eq, Structural)]
pub struct TexCell {
    pub x: u32,
    pub y: u32,
}

/// A texture coordinate in 1/1000 of an atlas pixel.
#[derive(Clone, Copy, Debug, PartialEq, Eq, Structural)]
pub struct TexCoord {
    pub u: i32,
    pub v: i32,
}

/// The four texture coordinates of one emitted face, in the vertex order
/// `a`, `b`, `c`, `d` used by the face builders.
#[derive(Clone, Copy, Debug, PartialEq, Eq, Structural)]
pub struct UvCoords {
    pub a: TexCoord,
    pub b: TexCoord,
    pub c: TexCoord,
    pub d: TexCoord,
}

impl Default for UvCoords {
    /// All-zero texture coordinates, used for faces with no atlas anchor.
    fn default() -> (r: Self)
        ensures
            r.a.u == 0 && r.a.v == 0,
            r.b.u == 0 && r.b.v == 0,
            r.c.u == 0 && r.c.v == 0,
            r.d.u == 0 && r.d.v == 0,
    {
        UvCoords {
            a: TexCoord { u: 0, v: 0 },
            b: TexCoord { u: 0, v: 0 },
            c: TexCoord { u: 0, v: 0 },
            d: TexCoord { u: 0, v: 0 },
        }
    }
}

/// Side length of one atlas cell, in atlas pixels.
pub const ATLAS_CELL_PX: i32 = 16;

impl BlockType {
    /// The four texture coordinates of a face whose atlas anchor is the cell
    /// `location` and whose block is scaled by `scale_x`/`scale_y` per-mille:
    /// the sampled rectangle starts at the anchor cell and spans the scaled
    /// cell extent. Coordinates come out in 1/1000 of an atlas pixel, so
    /// every value is exact: one cell spans 16 pixels, hence 16000 units.
    pub fn tex_coords(location: TexCell, scale_x: u32, scale_y: u32) -> (r: UvCoords)
        requires
            location.x <= 10000,
            location.y <= 10000,
            scale_x <= 1000,
            scale_y <= 1000,
        ensures
            r.a.u == 16000 * location.x && r.a.v == 16000 * location.y + 16 * scale_y,
            r.b.u == 16000 * location.x + 16 * scale_x && r.b.v == 16000 * location.y + 16 * scale_y,
            r.c.u == 16000 * location.x + 16 * scale_x && r.c.v == 16000 * location.y,
            r.d.u == 16000 * location.x && r.d.v == 16000 * location.y,
    {
        let x_min: i32 = 16000 * (location.x as i32);
        let x_max: i32 = x_min + 16 * (scale_x as i32);
        let y_max: i32 = 16000 * (location.y as i32);
        let y_min: i32 = y_max + 16 * (scale_y as i32);

        UvCoords {
            a: TexCoord { u: x_min, v: y_min },
            b: TexCoord { u: x_max, v: y_min },
            c: TexCoord { u: x_max, v: y_max },
            d: TexCoord { u: x_min, v: y_max },
        }
    }
}

/// Relies on rand's `RngExt::random_range` over `0..n`: the result is drawn
/// from that range, so in particular it is strictly below `n`.
#[verifier::external_body]
fn rand_below(n: usize) -> (r: usize)
    requires
        n > 0,
    ensures
        r < n,
{
    rand::rng().random_range(0..n)
}

/// The block selected by the feature noise at height `y`: entry
/// `noise_index` of that height's rarity-table row, or `Air` when the index
/// falls past the row's end.
pub open spec fn spec_noise_natural(db: BlockDatabase, y: int, noise_index: int) -> BlockType {
    let row = spec_candidates(db.spec_metas(), y);
    if 0 <= noise_index < row.len() {
        row[noise_index]
    } else {
        BlockType::Air
    }
}

impl BlockType {
    /// Selects the naturally placed block for height `y` from the rarity
    /// table, indexed by the feature-noise value scaled to the row length.
    /// Deterministic: the result is a function of the registry, the height
    /// and the index alone.
    pub fn noise_natural(db: &BlockDatabase, y: i32, noise_index: usize) -> (r: BlockType)
        requires
            db.wf(),
            0 <= y < CHUNK_HEIGHT,
        ensures
            r == spec_noise_natural(*db, y as int, noise_index as int),
    {
        let row = db.blocks_at_height(y);
        if noise_index < row.len() {
            row[noise_index]
        } else {
            BlockType::Air
        }
    }

    /// A uniformly random naturally placed block type; `Air` when the
    /// registry has no natural entries.
    pub fn random_natural(db: &BlockDatabase) -> (r: BlockType)
        requires
            db.wf(),
        ensures
            spec_natural_types(db.spec_metas()).len() == 0 ==> r == BlockType::Air,
            spec_natural_types(db.spec_metas()).len() > 0 ==> spec_natural_types(
                db.spec_metas(),
            ).contains(r),
    {
        let types = db.natural_blocks();
        if types.len() == 0 {
            BlockType::Air
        } else {
            let i = rand_below(types.len());
            let r = types[i];
            proof {
                assert(spec_natural_types(db.spec_metas())[i as int] == r);
            }
            r
        }
    }

    /// A uniformly random block type outside natural placement; `Air` when
    /// the registry has none.
    pub fn random_unnatural(db: &BlockDatabase) -> (r: BlockType)
        requires
            db.wf(),
        ensures
            spec_unnatural_types(db.spec_metas()).len() == 0 ==> r == BlockType::Air,
            spec_unnatural_types(db.spec_metas()).len() > 0 ==> spec_unnatural_types(
                db.spec_metas(),
            ).contains(r),
    {
        let types = db.unnatural_blocks();
        if types.len() == 0 {
            BlockType::Air
        } else {
            let i = rand_below(types.len());
            let r = types[i];
            proof {
                assert(spec_unnatural_types(db.spec_metas())[i as int] == r);
            }
            r
        }
    }
}

/// The noise-driven block selection is pure: any two results obtained for
/// the same registry, height and noise index are the same block type,
/// because `noise_natural` pins its result to `spec_noise_natural`.
pub proof fn lemma_noise_natural_deterministic(
    db: BlockDatabase,
    y: int,
    noise_index: int,
    r1: BlockType,
    r2: BlockType,
)
    requires
        r1 == spec_noise_natural(db, y, noise_index),
        r2 == spec_noise_natural(db, y, noise_index),
    ensures
        r1 == r2,
{
}

/// The variant whose `spec_index` is `i` (for `i` in 0..16).
pub open spec fn type_of_index(i: int) -> BlockType {
    if i == 0 {
        BlockType::Air
    } else if i == 1 {
        BlockType::Dirt
    } else if i == 2 {
        BlockType::Grass
    } else if i == 3 {
        BlockType::DiamondOre
    } else if i == 4 {
        BlockType::RedstoneOre
    } else if i == 5 {
        BlockType::GoldOre
    } else if i == 6 {
        BlockType::IronOre
    } else if i == 7 {
        BlockType::CoalOre
    } else if i == 8 {
        BlockType::Pumpkin
    } else if i == 9 {
        BlockType::JackOLantern
    } else if i == 10 {
        BlockType::Torch
    } else if i == 11 {
        BlockType::Bedrock
    } else if i == 12 {
        BlockType::Stone
    } else if i == 13 {
        BlockType::Gravel
    } else if i == 14 {
        BlockType::Granite
    } else {
        BlockType::Diorite
    }
}

/// `spec_index` and `type_of_index` invert each other, so the index is a
/// faithful key for a block type.
pub proof fn lemma_type_index_inverse(t: BlockType)
    ensures
        type_of_index(t.spec_index()) == t,
        0 <= t.spec_index() < BLOCK_TYPE_COUNT,
{
}

} // verus!
