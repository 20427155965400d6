mod block;
mod block_database;
mod block_type;
mod chunk;
mod chunk_mesh;
mod controls;
mod shader_type;
mod timer;
mod vertex;
mod volume;
mod world;

pub use block::Block;
pub use block::FaceDir;
pub use block_database::BlockDatabase;
pub use block_type::type_of_index;
pub use block_type::BlockType;
pub use block_type::TexCell;
pub use block_type::TexCoord;
pub use block_type::UvCoords;
pub use block_type::BLOCK_TYPE_COUNT;
pub use chunk::Chunk;
pub use chunk_mesh::ChunkMesh;
pub use controls::KeyAction;
pub use controls::KeyState;
pub use shader_type::Type;
pub use timer::get_elapsed_time;
pub use timer::Timer;
pub use vertex::SpecVertex;
pub use vertex::Vertex;
pub use volume::BlockVolume;
pub use world::World;

use vstd::prelude::*;

verus! {

/// Horizontal footprint of a chunk, in blocks, along both the X and Z axes.
pub const CHUNK_SIZE: i32 = 16;

/// Number of block layers of a chunk above the reserved floor layer at y = -1.
pub const CHUNK_HEIGHT: i32 = 64;

/// Chebyshev radius, in chunks, of the box of chunk coordinates kept loaded
/// around the observer.
pub const RENDER_DISTANCE: i32 = 4;

/// The chunk coordinate that contains world coordinate `w` along one axis:
/// floor division by `CHUNK_SIZE`. `int` division by a positive divisor
/// rounds toward negative infinity, which is exactly the intended mapping.
pub open spec fn spec_chunk_coord(w: int) -> int {
    w / (CHUNK_SIZE as int)
}

/// Floor division of a world coordinate by `CHUNK_SIZE`, correct for
/// negative coordinates as well (plain `/` on `i32` truncates toward zero).
pub fn chunk_coord(w: i32) -> (c: i32)
    ensures
        c == spec_chunk_coord(w as int),
        -134217728 <= c <= 134217727,
{
    proof {
        assert(-134217728 <= w as int / 16 <= 134217727) by (nonlinear_arith)
            requires
                -2147483648 <= w as int <= 2147483647,
        ;
    }
    let wi: i64 = w as i64;
    if wi >= 0 {
        let q: i64 = wi / 16;
        assert(q == wi as int / 16);
        q as i32
    } else {
        let q: i64 = -((-wi + 15) / 16);
        assert(q == wi as int / 16) by {
            let a: int = -(wi as int);
            assert((a + 15) / 16 * 16 >= a >= ((a + 15) / 16 - 1) * 16 + 1) by (nonlinear_arith);
            assert(-((a + 15) / 16) == (-a) / 16) by (nonlinear_arith)
                requires
                    (a + 15) / 16 * 16 >= a >= ((a + 15) / 16 - 1) * 16 + 1,
                    a > 0,
            ;
        }
        q as i32
    }
}

} // verus!
