use vstd::prelude::*;

use crate::block_type::BlockType;
use crate::CHUNK_HEIGHT;
use crate::CHUNK_SIZE;

verus! {

/// Number of voxels in one chunk volume: a CHUNK_SIZE x CHUNK_SIZE footprint,
/// CHUNK_HEIGHT layers tall, plus the reserved floor layer at y = -1.
pub const VOLUME_LEN: usize = 16640;

/// Local coordinates that lie inside a chunk volume. The vertical range
/// starts at -1: that layer is the impenetrable floor.
pub open spec fn in_volume(x: int, y: int, z: int) -> bool {
    &&& 0 <= x < CHUNK_SIZE
    &&& -1 <= y < CHUNK_HEIGHT
    &&& 0 <= z < CHUNK_SIZE
}

/// The position of local coordinate (x, y, z) in the dense block vector.
pub open spec fn flat_index(x: int, y: int, z: int) -> int {
    (x * CHUNK_SIZE + z) * (CHUNK_HEIGHT + 1) + (y + 1)
}

/// Distinct in-volume coordinates have distinct dense positions.
pub proof fn lemma_flat_index_injective(
    x1: int,
    y1: int,
    z1: int,
    x2: int,
    y2: int,
    z2: int,
)
    requires
        in_volume(x1, y1, z1),
        in_volume(x2, y2, z2),
        flat_index(x1, y1, z1) == flat_index(x2, y2, z2),
    ensures
        x1 == x2 && y1 == y2 && z1 == z2,
{
    assert(x1 == x2 && y1 == y2 && z1 == z2) by (nonlinear_arith)
        requires
            in_volume(x1, y1, z1),
            in_volume(x2, y2, z2),
            flat_index(x1, y1, z1) == flat_index(x2, y2, z2),
    ;
}

/// A chunk's dense block volume: exactly one `BlockType` for every local
/// coordinate, `Air` for every coordinate outside it.
pub struct BlockVolume {
    pub blocks: Vec<BlockType>,
}

impl BlockVolume {
    pub open spec fn wf(self) -> bool {
        self.blocks@.len() == VOLUME_LEN
    }

    /// The block at local coordinate (x, y, z); `Air` outside the volume,
    /// which is what makes chunk edges render as if bordered by air.
    pub open spec fn spec_at(self, x: int, y: int, z: int) -> BlockType {
        if in_volume(x, y, z) {
            self.blocks@[flat_index(x, y, z)]
        } else {
            BlockType::Air
        }
    }

    /// An all-`Air` volume.
    pub fn new() -> (r: BlockVolume)
        ensures
            r.wf(),
            forall|x: int, y: int, z: int| r.spec_at(x, y, z) == BlockType::Air,
    {
        let mut blocks: Vec<BlockType> = Vec::new();
        let mut i: usize = 0;
        while i < VOLUME_LEN
            invariant
                i <= VOLUME_LEN,
                blocks@.len() == i,
                forall|q: int| 0 <= q < i ==> blocks@[q] == BlockType::Air,
            decreases VOLUME_LEN - i,
        {
            blocks.push(BlockType::Air);
            i = i + 1;
        }
        let r = BlockVolume { blocks };
        proof {
            assert forall|x: int, y: int, z: int| r.spec_at(x, y, z) == BlockType::Air by {
                if in_volume(x, y, z) {
                    assert(0 <= flat_index(x, y, z) < VOLUME_LEN) by (nonlinear_arith)
                        requires
                            in_volume(x, y, z),
                    ;
                }
            }
        }
        r
    }

    /// The block at (x, y, z), `Air` when the coordinate lies outside the
    /// volume — the defensive default used for neighbor queries.
    pub fn get(&self, x: i32, y: i32, z: i32) -> (r: BlockType)
        requires
            self.wf(),
        ensures
            r == self.spec_at(x as int, y as int, z as int),
    {
        if 0 <= x && x < CHUNK_SIZE && -1 <= y && y < CHUNK_HEIGHT && 0 <= z && z < CHUNK_SIZE {
            proof {
                assert(0 <= flat_index(x as int, y as int, z as int) < VOLUME_LEN)
                    by (nonlinear_arith)
                    requires
                        in_volume(x as int, y as int, z as int),
                ;
            }
            let idx: usize = ((x as usize) * 16 + (z as usize)) * 65 + ((y + 1) as usize);
            self.blocks[idx]
        } else {
            BlockType::Air
        }
    }

    /// Writes the block at an in-volume coordinate, leaving every other
    /// coordinate unchanged.
    pub fn set(&mut self, x: i32, y: i32, z: i32, t: BlockType)
        requires
            old(self).wf(),
            in_volume(x as int, y as int, z as int),
        ensures
            final(self).wf(),
            final(self).spec_at(x as int, y as int, z as int) == t,
            forall|x2: int, y2: int, z2: int|
                !(x2 == x && y2 == y && z2 == z) ==> final(self).spec_at(x2, y2, z2) == old(
                    self,
                ).spec_at(x2, y2, z2),
    {
        proof {
            assert(0 <= flat_index(x as int, y as int, z as int) < VOLUME_LEN) by (nonlinear_arith)
                requires
                    in_volume(x as int, y as int, z as int),
            ;
        }
        let idx: usize = ((x as usize) * 16 + (z as usize)) * 65 + ((y + 1) as usize);
        self.blocks.set(idx, t);
        proof {
            assert forall|x2: int, y2: int, z2: int|
                !(x2 == x && y2 == y && z2 == z) implies self.spec_at(x2, y2, z2) == old(
                self,
            ).spec_at(x2, y2, z2) by {
                if in_volume(x2, y2, z2) {
                    if flat_index(x2, y2, z2) == flat_index(x as int, y as int, z as int) {
                        lemma_flat_index_injective(
                            x2,
                            y2,
                            z2,
                            x as int,
                            y as int,
                            z as int,
                        );
                    }
                }
            }
        }
    }
}

} // verus!
