use vstd::prelude::*;

use crate::block::spec_face_indices;
use crate::block::spec_face_vertices;
use crate::block::Block;
use crate::block::FaceDir;
use crate::block_database::BlockDatabase;
use crate::vertex::SpecVertex;
use crate::vertex::Vertex;
use crate::volume::in_volume;
use crate::volume::BlockVolume;
use crate::volume::VOLUME_LEN;
use crate::block_type::BlockType;

verus! {

/// One emitted face: the local coordinate of its voxel and its direction.
pub struct FaceId {
    pub x: int,
    pub y: int,
    pub z: int,
    pub d: FaceDir,
}

/// The local coordinate of the neighbor a face in direction `d` looks at.
pub open spec fn neighbor_of(x: int, y: int, z: int, d: FaceDir) -> (int, int, int) {
    match d {
        FaceDir::Right => (x + 1, y, z),
        FaceDir::Left => (x - 1, y, z),
        FaceDir::Top => (x, y + 1, z),
        FaceDir::Bottom => (x, y - 1, z),
        FaceDir::Front => (x, y, z - 1),
        FaceDir::Back => (x, y, z + 1),
    }
}

/// The culling rule: a face is emitted when its block never occludes (a
/// non-unit-scale model) or when something could be seen through that side
/// (the neighbor it faces is not opaque).
pub open spec fn face_emitted(
    vol: BlockVolume,
    db: BlockDatabase,
    x: int,
    y: int,
    z: int,
    d: FaceDir,
) -> bool {
    let nb = neighbor_of(x, y, z, d);
    db.spec_get(vol.spec_at(x, y, z)).spec_sub1_scale() || !db.spec_get(
        vol.spec_at(nb.0, nb.1, nb.2),
    ).opaque
}

/// The face in direction `d`, when it is emitted; nothing otherwise.
pub open spec fn cond_face(
    vol: BlockVolume,
    db: BlockDatabase,
    x: int,
    y: int,
    z: int,
    d: FaceDir,
) -> Seq<FaceId> {
    if face_emitted(vol, db, x, y, z, d) {
        seq![FaceId { x, y, z, d }]
    } else {
        Seq::empty()
    }
}

/// The faces the voxel at (x, y, z) contributes, in the fixed test order
/// right, left, top, bottom, front, back. An `Air` voxel contributes
/// nothing.
pub open spec fn visible_faces_at(
    vol: BlockVolume,
    db: BlockDatabase,
    x: int,
    y: int,
    z: int,
) -> Seq<FaceId> {
    if vol.spec_at(x, y, z) == BlockType::Air {
        Seq::empty()
    } else {
        cond_face(vol, db, x, y, z, FaceDir::Right) + cond_face(vol, db, x, y, z, FaceDir::Left)
            + cond_face(vol, db, x, y, z, FaceDir::Top) + cond_face(
            vol,
            db,
            x,
            y,
            z,
            FaceDir::Bottom,
        ) + cond_face(vol, db, x, y, z, FaceDir::Front) + cond_face(
            vol,
            db,
            x,
            y,
            z,
            FaceDir::Back,
        )
    }
}

/// The x coordinate of the n-th position of the builder's scan order.
pub open spec fn pos_x(n: int) -> int {
    n / 1040
}

/// The z coordinate of the n-th position of the builder's scan order.
pub open spec fn pos_z(n: int) -> int {
    (n % 1040) / 65
}

/// The y coordinate of the n-th position of the builder's scan order.
pub open spec fn pos_y(n: int) -> int {
    (n % 1040) % 65 - 1
}

/// The scan visits exactly the volume: position `n` decodes to an
/// in-volume coordinate whose dense index is `n` again.
pub proof fn lemma_pos_decode(n: int)
    requires
        0 <= n < VOLUME_LEN,
    ensures
        in_volume(pos_x(n), pos_y(n), pos_z(n)),
        crate::volume::flat_index(pos_x(n), pos_y(n), pos_z(n)) == n,
{
    assert(in_volume(pos_x(n), pos_y(n), pos_z(n)) && crate::volume::flat_index(
        pos_x(n),
        pos_y(n),
        pos_z(n),
    ) == n) by (nonlinear_arith)
        requires
            0 <= n < VOLUME_LEN,
    ;
}

/// All faces contributed by the first `n` positions of the scan order.
pub open spec fn spec_faces_upto(vol: BlockVolume, db: BlockDatabase, n: int) -> Seq<FaceId>
    decreases n,
{
    if n <= 0 {
        Seq::empty()
    } else {
        spec_faces_upto(vol, db, n - 1) + visible_faces_at(
            vol,
            db,
            pos_x(n - 1),
            pos_y(n - 1),
            pos_z(n - 1),
        )
    }
}

/// Every face the volume's mesh holds, in emission order.
pub open spec fn spec_emitted_faces(vol: BlockVolume, db: BlockDatabase) -> Seq<FaceId> {
    spec_faces_upto(vol, db, VOLUME_LEN as int)
}

/// The vertex stream of a face list: four vertices per face, in face order.
pub open spec fn spec_faces_verts(vol: BlockVolume, db: BlockDatabase, faces: Seq<FaceId>) -> Seq<
    SpecVertex,
>
    decreases faces.len(),
{
    if faces.len() == 0 {
        Seq::empty()
    } else {
        let f = faces.last();
        spec_faces_verts(vol, db, faces.drop_last()) + spec_face_vertices(
            db.spec_get(vol.spec_at(f.x, f.y, f.z)),
            f.d,
            f.x,
            f.y,
            f.z,
        )
    }
}

/// The index stream of a face list: six indices per face, each face based
/// at four times its position in the list.
pub open spec fn spec_faces_inds(faces: Seq<FaceId>) -> Seq<int>
    decreases faces.len(),
{
    if faces.len() == 0 {
        Seq::empty()
    } else {
        spec_faces_inds(faces.drop_last()) + spec_face_indices(
            faces.last().d,
            4 * (faces.len() - 1),
        )
    }
}

/// Appends one emitted face to the mesh under construction: four vertices
/// for the voxel at (x, y, z) in direction `d`, and six indices based at
/// the current stride.
fn push_face(
    blocks: &BlockVolume,
    db: &BlockDatabase,
    vertices: &mut Vec<Vertex>,
    indices: &mut Vec<u32>,
    stride: &mut u32,
    block: &Block,
    d: FaceDir,
    x: i32,
    y: i32,
    z: i32,
    Ghost(faces): Ghost<Seq<FaceId>>,
) -> (gf: Ghost<Seq<FaceId>>)
    requires
        blocks.wf(),
        db.wf(),
        in_volume(x as int, y as int, z as int),
        *block == db.spec_get(blocks.spec_at(x as int, y as int, z as int)),
        old(vertices)@.map_values(|v: Vertex| v@) == spec_faces_verts(*blocks, *db, faces),
        old(indices)@.map_values(|i: u32| i as int) == spec_faces_inds(faces),
        *old(stride) == 4 * faces.len(),
        faces.len() < 100000,
    ensures
        gf@ == faces.push(FaceId { x: x as int, y: y as int, z: z as int, d }),
        final(vertices)@.map_values(|v: Vertex| v@) == spec_faces_verts(*blocks, *db, gf@),
        final(indices)@.map_values(|i: u32| i as int) == spec_faces_inds(gf@),
        *final(stride) == 4 * gf@.len(),
{
    proof {
        assert(block.wf());
    }
    let t = (x, y, z);
    let off = *stride;
    let (mut vs, mut is_) = match d {
        FaceDir::Right => block.build_right_face(t, off),
        FaceDir::Left => block.build_left_face(t, off),
        FaceDir::Top => block.build_top_face(t, off),
        FaceDir::Bottom => block.build_bottom_face(t, off),
        FaceDir::Front => block.build_front_face(t, off),
        FaceDir::Back => block.build_back_face(t, off),
    };
    let ghost old_verts = vertices@;
    let ghost old_inds = indices@;
    let ghost vs0 = vs@;
    let ghost is0 = is_@;
    vertices.append(&mut vs);
    indices.append(&mut is_);
    *stride = off + 4;
    let ghost nf = faces.push(FaceId { x: x as int, y: y as int, z: z as int, d });
    proof {
        let vf = |v: Vertex| v@;
        let inf = |i: u32| i as int;
        assert(nf.drop_last() =~= faces);
        assert(vertices@.map_values(vf) =~= old_verts.map_values(vf) + vs0.map_values(vf)) by {
            assert forall|i: int| 0 <= i < vertices@.len() implies vertices@.map_values(vf)[i] == (
            old_verts.map_values(vf) + vs0.map_values(vf))[i] by {
                if i < old_verts.len() {
                    assert(vertices@[i] == old_verts[i]);
                } else {
                    assert(vertices@[i] == vs0[i - old_verts.len()]);
                }
            }
        }
        assert(indices@.map_values(inf) =~= old_inds.map_values(inf) + is0.map_values(inf)) by {
            assert forall|i: int| 0 <= i < indices@.len() implies indices@.map_values(inf)[i] == (
            old_inds.map_values(inf) + is0.map_values(inf))[i] by {
                if i < old_inds.len() {
                    assert(indices@[i] == old_inds[i]);
                } else {
                    assert(indices@[i] == is0[i - old_inds.len()]);
                }
            }
        }
        assert(spec_faces_verts(*blocks, *db, nf) == spec_faces_verts(*blocks, *db, faces)
            + spec_face_vertices(
            db.spec_get(blocks.spec_at(x as int, y as int, z as int)),
            d,
            x as int,
            y as int,
            z as int,
        ));
        assert(spec_faces_inds(nf) == spec_faces_inds(faces) + spec_face_indices(
            d,
            4 * faces.len() as int,
        ));
    }
    Ghost(nf)
}

/// Emits every visible face of the voxel at (x, y, z): skips air outright,
/// then tests the six directions in the fixed order against the culling
/// rule, appending each emitted face to the mesh under construction.
#[verifier::rlimit(100)]
#[verifier::spinoff_prover]
fn mesh_position(
    blocks: &BlockVolume,
    db: &BlockDatabase,
    vertices: &mut Vec<Vertex>,
    indices: &mut Vec<u32>,
    stride: &mut u32,
    x: i32,
    y: i32,
    z: i32,
    Ghost(faces): Ghost<Seq<FaceId>>,
) -> (gf: Ghost<Seq<FaceId>>)
    requires
        blocks.wf(),
        db.wf(),
        in_volume(x as int, y as int, z as int),
        old(vertices)@.map_values(|v: Vertex| v@) == spec_faces_verts(*blocks, *db, faces),
        old(indices)@.map_values(|i: u32| i as int) == spec_faces_inds(faces),
        *old(stride) == 4 * faces.len(),
        faces.len() + 6 < 100000,
    ensures
        gf@ == faces + visible_faces_at(*blocks, *db, x as int, y as int, z as int),
        final(vertices)@.map_values(|v: Vertex| v@) == spec_faces_verts(*blocks, *db, gf@),
        final(indices)@.map_values(|i: u32| i as int) == spec_faces_inds(gf@),
        *final(stride) == 4 * gf@.len(),
        gf@.len() <= faces.len() + 6,
{
    let ghost xi = x as int;
    let ghost yi = y as int;
    let ghost zi = z as int;
    let ghost mut fs = faces;
    let bt = blocks.get(x, y, z);
    if bt == BlockType::Air {
        proof {
            assert(visible_faces_at(*blocks, *db, xi, yi, zi) =~= Seq::<FaceId>::empty());
            assert(fs =~= faces + visible_faces_at(*blocks, *db, xi, yi, zi));
        }
        return Ghost(fs);
    }
    let block = db.get_block(bt);
    let sub1 = block.has_sub1_scale();

    let op_right = db.get_block(blocks.get(x + 1, y, z)).opaque;
    if sub1 || !op_right {
        let gf = push_face(
            blocks,
            db,
            vertices,
            indices,
            stride,
            block,
            FaceDir::Right,
            x,
            y,
            z,
            Ghost(fs),
        );
        proof {
            fs = gf@;
        }
    }
    proof {
        assert(fs =~= faces + cond_face(*blocks, *db, xi, yi, zi, FaceDir::Right));
    }
    let ghost f1 = fs;

    let op_left = db.get_block(blocks.get(x - 1, y, z)).opaque;
    if sub1 || !op_left {
        let gf = push_face(
            blocks,
            db,
            vertices,
            indices,
            stride,
            block,
            FaceDir::Left,
            x,
            y,
            z,
            Ghost(fs),
        );
        proof {
            fs = gf@;
        }
    }
    proof {
        assert(fs =~= f1 + cond_face(*blocks, *db, xi, yi, zi, FaceDir::Left));
    }
    let ghost f2 = fs;

    let op_top = db.get_block(blocks.get(x, y + 1, z)).opaque;
    if sub1 || !op_top {
        let gf = push_face(
            blocks,
            db,
            vertices,
            indices,
            stride,
            block,
            FaceDir::Top,
            x,
            y,
            z,
            Ghost(fs),
        );
        proof {
            fs = gf@;
        }
    }
    proof {
        assert(fs =~= f2 + cond_face(*blocks, *db, xi, yi, zi, FaceDir::Top));
    }
    let ghost f3 = fs;

    let op_bottom = db.get_block(blocks.get(x, y - 1, z)).opaque;
    if sub1 || !op_bottom {
        let gf = push_face(
            blocks,
            db,
            vertices,
            indices,
            stride,
            block,
            FaceDir::Bottom,
            x,
            y,
            z,
            Ghost(fs),
        );
        proof {
            fs = gf@;
        }
    }
    proof {
        assert(fs =~= f3 + cond_face(*blocks, *db, xi, yi, zi, FaceDir::Bottom));
    }
    let ghost f4 = fs;

    let op_front = db.get_block(blocks.get(x, y, z - 1)).opaque;
    if sub1 || !op_front {
        let gf = push_face(
            blocks,
            db,
            vertices,
            indices,
            stride,
            block,
            FaceDir::Front,
            x,
            y,
            z,
            Ghost(fs),
        );
        proof {
            fs = gf@;
        }
    }
    proof {
        assert(fs =~= f4 + cond_face(*blocks, *db, xi, yi, zi, FaceDir::Front));
    }
    let ghost f5 = fs;

    let op_back = db.get_block(blocks.get(x, y, z + 1)).opaque;
    if sub1 || !op_back {
        let gf = push_face(
            blocks,
            db,
            vertices,
            indices,
            stride,
            block,
            FaceDir::Back,
            x,
            y,
            z,
            Ghost(fs),
        );
        proof {
            fs = gf@;
        }
    }
    proof {
        assert(fs =~= f5 + cond_face(*blocks, *db, xi, yi, zi, FaceDir::Back));
        assert(fs =~= faces + visible_faces_at(*blocks, *db, xi, yi, zi));
    }
    Ghost(fs)
}

/// A chunk's renderable surface geometry: the vertex stream and the
/// triangle index stream of every visible face, grouped per emitted face.
pub struct ChunkMesh {
    pub vertices: Vec<Vertex>,
    pub indices: Vec<u32>,
}

impl ChunkMesh {
    /// Visibility-culled face extraction over a populated volume: for every
    /// non-air voxel, each of the six faces is emitted exactly when the
    /// culling rule lets it be seen; each face contributes 4 vertices and 6
    /// indices, so the mesh is pinned to the spec face list entirely.
    pub fn new(blocks: &BlockVolume, db: &BlockDatabase) -> (r: ChunkMesh)
        requires
            blocks.wf(),
            db.wf(),
        ensures
            r.vertices@.map_values(|v: Vertex| v@) == spec_faces_verts(
                *blocks,
                *db,
                spec_emitted_faces(*blocks, *db),
            ),
            r.indices@.map_values(|i: u32| i as int) == spec_faces_inds(
                spec_emitted_faces(*blocks, *db),
            ),
            r.vertices@.len() == 4 * spec_emitted_faces(*blocks, *db).len(),
            r.indices@.len() == 6 * spec_emitted_faces(*blocks, *db).len(),
            forall|i: int|
                0 <= i < r.indices@.len() ==> (#[trigger] r.indices@[i]) < r.vertices@.len(),
    {
        let mut vertices: Vec<Vertex> = Vec::new();
        let mut indices: Vec<u32> = Vec::new();
        let mut stride: u32 = 0;
        let ghost mut faces: Seq<FaceId> = Seq::empty();
        let mut n: usize = 0;
        while n < VOLUME_LEN
            invariant
                n <= VOLUME_LEN,
                blocks.wf(),
                db.wf(),
                faces == spec_faces_upto(*blocks, *db, n as int),
                vertices@.map_values(|v: Vertex| v@) == spec_faces_verts(*blocks, *db, faces),
                indices@.map_values(|i: u32| i as int) == spec_faces_inds(faces),
                stride == 4 * faces.len(),
                faces.len() <= 6 * n,
            decreases VOLUME_LEN - n,
        {
            let x: i32 = (n / 1040) as i32;
            let z: i32 = ((n % 1040) / 65) as i32;
            let y: i32 = (((n % 1040) % 65) as i32) - 1;
            proof {
                lemma_pos_decode(n as int);
                assert(x as int == pos_x(n as int));
                assert(z as int == pos_z(n as int));
                assert(y as int == pos_y(n as int));
            }
            let gf = mesh_position(
                blocks,
                db,
                &mut vertices,
                &mut indices,
                &mut stride,
                x,
                y,
                z,
                Ghost(faces),
            );
            proof {
                faces = gf@;
                assert(faces == spec_faces_upto(*blocks, *db, n as int + 1));
            }
            n = n + 1;
        }
        let r = ChunkMesh { vertices, indices };
        proof {
            assert(faces == spec_emitted_faces(*blocks, *db));
            lemma_faces_verts_len(*blocks, *db, faces);
            lemma_faces_inds_len(faces);
            lemma_faces_inds_bound(faces);
            assert(r.vertices@.len() == r.vertices@.map_values(|v: Vertex| v@).len());
            assert(r.indices@.len() == r.indices@.map_values(|i: u32| i as int).len());
            assert forall|i: int| 0 <= i < r.indices@.len() implies (#[trigger] r.indices@[i])
                < r.vertices@.len() by {
                assert(r.indices@.map_values(|q: u32| q as int)[i] == r.indices@[i] as int);
                assert(spec_faces_inds(faces)[i] < 4 * faces.len());
            }
        }
        r
    }

    pub fn verts(&self) -> (r: &Vec<Vertex>)
        ensures
            r@ == self.vertices@,
    {
        &self.vertices
    }

    pub fn inds(&self) -> (r: &Vec<u32>)
        ensures
            r@ == self.indices@,
    {
        &self.indices
    }
}

/// A non-air block of full unit scale that is surrounded on all six sides
/// by opaque unit-scale neighbors emits no face at all.
pub proof fn lemma_occluded_block_emits_no_faces(
    vol: BlockVolume,
    db: BlockDatabase,
    x: int,
    y: int,
    z: int,
)
    requires
        vol.spec_at(x, y, z) != BlockType::Air,
        !db.spec_get(vol.spec_at(x, y, z)).spec_sub1_scale(),
        forall|d: FaceDir|
            {
                let nb = #[trigger] neighbor_of(x, y, z, d);
                db.spec_get(vol.spec_at(nb.0, nb.1, nb.2)).opaque && !db.spec_get(
                    vol.spec_at(nb.0, nb.1, nb.2),
                ).spec_sub1_scale()
            },
    ensures
        visible_faces_at(vol, db, x, y, z) == Seq::<FaceId>::empty(),
{
    assert(neighbor_of(x, y, z, FaceDir::Right) == (x + 1, y, z));
    assert(neighbor_of(x, y, z, FaceDir::Left) == (x - 1, y, z));
    assert(neighbor_of(x, y, z, FaceDir::Top) == (x, y + 1, z));
    assert(neighbor_of(x, y, z, FaceDir::Bottom) == (x, y - 1, z));
    assert(neighbor_of(x, y, z, FaceDir::Front) == (x, y, z - 1));
    assert(neighbor_of(x, y, z, FaceDir::Back) == (x, y, z + 1));
    assert(visible_faces_at(vol, db, x, y, z) =~= Seq::<FaceId>::empty());
}

/// A non-unit-scale block — one that never occludes, such as a light
/// fixture — emits all six faces even when every neighbor is opaque.
pub proof fn lemma_sub_scale_block_emits_all_faces(
    vol: BlockVolume,
    db: BlockDatabase,
    x: int,
    y: int,
    z: int,
)
    requires
        vol.spec_at(x, y, z) != BlockType::Air,
        db.spec_get(vol.spec_at(x, y, z)).spec_sub1_scale(),
    ensures
        visible_faces_at(vol, db, x, y, z) == seq![
            FaceId { x, y, z, d: FaceDir::Right },
            FaceId { x, y, z, d: FaceDir::Left },
            FaceId { x, y, z, d: FaceDir::Top },
            FaceId { x, y, z, d: FaceDir::Bottom },
            FaceId { x, y, z, d: FaceDir::Front },
            FaceId { x, y, z, d: FaceDir::Back },
        ],
        visible_faces_at(vol, db, x, y, z).len() == 6,
{
    assert(visible_faces_at(vol, db, x, y, z) =~= seq![
        FaceId { x, y, z, d: FaceDir::Right },
        FaceId { x, y, z, d: FaceDir::Left },
        FaceId { x, y, z, d: FaceDir::Top },
        FaceId { x, y, z, d: FaceDir::Bottom },
        FaceId { x, y, z, d: FaceDir::Front },
        FaceId { x, y, z, d: FaceDir::Back },
    ]);
}

/// A face list of length `k` yields exactly `4k` vertices.
pub proof fn lemma_faces_verts_len(vol: BlockVolume, db: BlockDatabase, faces: Seq<FaceId>)
    ensures
        spec_faces_verts(vol, db, faces).len() == 4 * faces.len(),
    decreases faces.len(),
{
    if faces.len() > 0 {
        lemma_faces_verts_len(vol, db, faces.drop_last());
    }
}

/// A face list of length `k` yields exactly `6k` indices.
pub proof fn lemma_faces_inds_len(faces: Seq<FaceId>)
    ensures
        spec_faces_inds(faces).len() == 6 * faces.len(),
    decreases faces.len(),
{
    if faces.len() > 0 {
        lemma_faces_inds_len(faces.drop_last());
    }
}

/// Every index of a face list's index stream references one of the list's
/// own `4k` vertex offsets.
pub proof fn lemma_faces_inds_bound(faces: Seq<FaceId>)
    ensures
        forall|i: int|
            0 <= i < spec_faces_inds(faces).len() ==> 0 <= #[trigger] spec_faces_inds(faces)[i] < 4
                * faces.len(),
    decreases faces.len(),
{
    if faces.len() > 0 {
        lemma_faces_inds_bound(faces.drop_last());
        lemma_faces_inds_len(faces.drop_last());
    }
}

} // verus!
