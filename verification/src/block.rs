use vstd::prelude::*;

use crate::block_type::BlockType;
use crate::block_type::TexCell;
use crate::block_type::UvCoords;
use crate::vertex::SpecVertex;
use crate::vertex::Vertex;
use crate::CHUNK_HEIGHT;

verus! {

/// Immutable metadata for one `BlockType`, loaded once at startup from the
/// block-metadata source and validated by `BlockDatabase::new`.
///
/// Scales are per-mille of a block edge (1000 = unit scale); a block with a
/// scale below 1000 on either axis never fully occludes its neighbors, so
/// all six of its faces are always emitted. `rarity` weights natural
/// placement: a candidate appears `100 - rarity` times in the rarity table
/// for each height in `min_height..max_height`.
#[derive(Clone, Copy, Debug)]
pub struct Block {
    pub m_type: BlockType,
    pub opaque: bool,
    pub natural: bool,
    pub min_height: i32,
    pub max_height: i32,
    pub rarity: u32,
    pub scale_x: u32,
    pub scale_y: u32,
    pub texture_top: Option<TexCell>,
    pub texture_bottom: Option<TexCell>,
    pub texture_front: Option<TexCell>,
    pub texture_back: Option<TexCell>,
    pub texture_left: Option<TexCell>,
    pub texture_right: Option<TexCell>,
    pub light_emission: u32,
    pub light_color: Option<(u32, u32, u32)>,
}

/// The six axis-aligned face directions of a voxel, in the order the mesh
/// builder tests them.
#[derive(Clone, Copy, Debug, PartialEq, Eq, Structural)]
pub enum FaceDir {
    Right,
    Left,
    Top,
    Bottom,
    Front,
    Back,
}

pub open spec fn tex_cell_ok(c: Option<TexCell>) -> bool {
    match c {
        Some(cell) => cell.x <= 10000 && cell.y <= 10000,
        None => true,
    }
}

impl Block {
    /// A well-formed metadata entry: bounds that the startup validation
    /// enforces so that all derived fixed-point arithmetic is exact and
    /// overflow-free.
    pub open spec fn wf(self) -> bool {
        &&& self.rarity <= 100
        &&& 1 <= self.scale_x <= 1000
        &&& 1 <= self.scale_y <= 1000
        &&& 0 <= self.min_height
        &&& self.min_height <= self.max_height
        &&& self.max_height <= CHUNK_HEIGHT
        &&& tex_cell_ok(self.texture_top)
        &&& tex_cell_ok(self.texture_bottom)
        &&& tex_cell_ok(self.texture_front)
        &&& tex_cell_ok(self.texture_back)
        &&& tex_cell_ok(self.texture_left)
        &&& tex_cell_ok(self.texture_right)
    }

    /// The atlas anchor used for a face in direction `d`.
    pub open spec fn spec_texture_for(self, d: FaceDir) -> Option<TexCell> {
        match d {
            FaceDir::Right => self.texture_right,
            FaceDir::Left => self.texture_left,
            FaceDir::Top => self.texture_top,
            FaceDir::Bottom => self.texture_bottom,
            FaceDir::Front => self.texture_front,
            FaceDir::Back => self.texture_back,
        }
    }

    /// True when the block is drawn smaller than a full voxel on some axis
    /// and therefore never occludes anything, not even when surrounded.
    pub open spec fn spec_sub1_scale(self) -> bool {
        self.scale_x < 1000 || self.scale_y < 1000
    }

    pub fn has_sub1_scale(&self) -> (r: bool)
        ensures
            r == self.spec_sub1_scale(),
    {
        self.scale_x < 1000 || self.scale_y < 1000
    }
}

/// The outward unit normal of a face, componentwise.
pub open spec fn face_normal(d: FaceDir) -> (int, int, int) {
    match d {
        FaceDir::Right => (1, 0, 0),
        FaceDir::Left => (-1, 0, 0),
        FaceDir::Top => (0, 1, 0),
        FaceDir::Bottom => (0, -1, 0),
        FaceDir::Front => (0, 0, -1),
        FaceDir::Back => (0, 0, 1),
    }
}

/// The sign pattern of corner `k` (0..4) of a face: which of the two voxel
/// extremes the corner takes on each axis. The patterns and their order
/// fix each face's winding, so that the two triangles of `spec_face_indices`
/// come out front-facing under backface culling.
pub open spec fn face_corner_sign(d: FaceDir, k: int) -> (int, int, int) {
    match d {
        FaceDir::Right => {
            if k == 0 {
                (1, -1, -1)
            } else if k == 1 {
                (1, -1, 1)
            } else if k == 2 {
                (1, 1, 1)
            } else {
                (1, 1, -1)
            }
        },
        FaceDir::Left => {
            if k == 0 {
                (-1, -1, 1)
            } else if k == 1 {
                (-1, -1, -1)
            } else if k == 2 {
                (-1, 1, -1)
            } else {
                (-1, 1, 1)
            }
        },
        FaceDir::Top => {
            if k == 0 {
                (-1, 1, -1)
            } else if k == 1 {
                (1, 1, -1)
            } else if k == 2 {
                (1, 1, 1)
            } else {
                (-1, 1, 1)
            }
        },
        FaceDir::Bottom => {
            if k == 0 {
                (-1, -1, -1)
            } else if k == 1 {
                (1, -1, -1)
            } else if k == 2 {
                (1, -1, 1)
            } else {
                (-1, -1, 1)
            }
        },
        FaceDir::Front => {
            if k == 0 {
                (-1, -1, -1)
            } else if k == 1 {
                (1, -1, -1)
            } else if k == 2 {
                (1, 1, -1)
            } else {
                (-1, 1, -1)
            }
        },
        FaceDir::Back => {
            if k == 0 {
                (-1, -1, 1)
            } else if k == 1 {
                (1, -1, 1)
            } else if k == 2 {
                (1, 1, 1)
            } else {
                (-1, 1, 1)
            }
        },
    }
}

/// The texture coordinate (in 1/1000 atlas pixel) of corner `k` of a face:
/// the four corners of the anchored, scale-stretched atlas rectangle, or
/// (0, 0) everywhere when the face has no anchor.
pub open spec fn spec_face_uv(b: Block, d: FaceDir, k: int) -> (int, int) {
    match b.spec_texture_for(d) {
        None => (0, 0),
        Some(c) => {
            let u_min = 16000 * c.x;
            let u_max = 16000 * c.x + 16 * b.scale_x;
            let v_max = 16000 * c.y;
            let v_min = 16000 * c.y + 16 * b.scale_y;
            if k == 0 {
                (u_min, v_min)
            } else if k == 1 {
                (u_max, v_min)
            } else if k == 2 {
                (u_max, v_max)
            } else {
                (u_min, v_max)
            }
        },
    }
}

/// Corner `k` of the face of block `b` in direction `d`, for the voxel at
/// local coordinate (x, y, z): the voxel center in 1/2000-block units plus
/// the scale-sized corner offset (`scale_x` applies to both horizontal
/// axes, `scale_y` to the vertical one).
pub open spec fn spec_face_vertex(b: Block, d: FaceDir, x: int, y: int, z: int, k: int) -> SpecVertex {
    let sign = face_corner_sign(d, k);
    let n = face_normal(d);
    let uv = spec_face_uv(b, d, k);
    SpecVertex {
        px: 2000 * x + sign.0 * b.scale_x,
        py: 2000 * y + sign.1 * b.scale_y,
        pz: 2000 * z + sign.2 * b.scale_x,
        u: uv.0,
        v: uv.1,
        nx: n.0,
        ny: n.1,
        nz: n.2,
    }
}

/// The four vertices a face contributes, in corner order.
pub open spec fn spec_face_vertices(b: Block, d: FaceDir, x: int, y: int, z: int) -> Seq<SpecVertex> {
    Seq::new(4, |k: int| spec_face_vertex(b, d, x, y, z, k))
}

/// The six triangle indices a face contributes, as offsets from the face's
/// index base `off`: two triangles over the face's four vertices, wound per
/// face so the triangle front sides agree with the face normal.
pub open spec fn spec_face_indices(d: FaceDir, off: int) -> Seq<int> {
    match d {
        FaceDir::Right => seq![off + 3, off + 2, off + 1, off + 1, off + 0, off + 3],
        FaceDir::Left => seq![off + 2, off + 0, off + 3, off + 0, off + 2, off + 1],
        FaceDir::Top => seq![off + 3, off + 2, off + 1, off + 1, off + 0, off + 3],
        FaceDir::Bottom => seq![off + 0, off + 1, off + 2, off + 2, off + 3, off + 0],
        FaceDir::Front => seq![off + 0, off + 2, off + 1, off + 2, off + 0, off + 3],
        FaceDir::Back => seq![off + 0, off + 1, off + 2, off + 2, off + 3, off + 0],
    }
}

impl Block {
    /// The four texture coordinates of the face in direction `d`, matching
    /// `spec_face_uv` corner by corner.
    fn face_uv(&self, d: FaceDir) -> (r: UvCoords)
        requires
            self.wf(),
        ensures
            r.a.u == spec_face_uv(*self, d, 0).0 && r.a.v == spec_face_uv(*self, d, 0).1,
            r.b.u == spec_face_uv(*self, d, 1).0 && r.b.v == spec_face_uv(*self, d, 1).1,
            r.c.u == spec_face_uv(*self, d, 2).0 && r.c.v == spec_face_uv(*self, d, 2).1,
            r.d.u == spec_face_uv(*self, d, 3).0 && r.d.v == spec_face_uv(*self, d, 3).1,
    {
        let cell: Option<TexCell> = match d {
            FaceDir::Right => self.texture_right,
            FaceDir::Left => self.texture_left,
            FaceDir::Top => self.texture_top,
            FaceDir::Bottom => self.texture_bottom,
            FaceDir::Front => self.texture_front,
            FaceDir::Back => self.texture_back,
        };
        match cell {
            Some(c) => BlockType::tex_coords(c, self.scale_x, self.scale_y),
            None => Default::default(),
        }
    }

    /// The face on the +Z side of the voxel at local coordinate
    /// `translation`, as 4 vertices and 6 indices based at `off`.
    pub fn build_back_face(&self, translation: (i32, i32, i32), off: u32) -> (r: (
        Vec<Vertex>,
        Vec<u32>,
    ))
        requires
            self.wf(),
            -100000 <= translation.0 <= 100000,
            -100000 <= translation.1 <= 100000,
            -100000 <= translation.2 <= 100000,
            off <= 0xFFFF_FFF0u32,
        ensures
            r.0@.map_values(|v: Vertex| v@) == spec_face_vertices(
                *self,
                FaceDir::Back,
                translation.0 as int,
                translation.1 as int,
                translation.2 as int,
            ),
            r.1@.map_values(|i: u32| i as int) == spec_face_indices(FaceDir::Back, off as int),
    {
        let uv = self.face_uv(FaceDir::Back);
        let cx: i32 = 2000 * translation.0;
        let cy: i32 = 2000 * translation.1;
        let cz: i32 = 2000 * translation.2;
        let sx: i32 = self.scale_x as i32;
        let sy: i32 = self.scale_y as i32;
        let x_lo: i32 = cx - sx;
        let x_hi: i32 = cx + sx;
        let y_lo: i32 = cy - sy;
        let y_hi: i32 = cy + sy;
        let z_hi: i32 = cz + sx;
        let verts: Vec<Vertex> = vec![
            Vertex { px: x_lo, py: y_lo, pz: z_hi, u: uv.a.u, v: uv.a.v, nx: 0, ny: 0, nz: 1 },
            Vertex { px: x_hi, py: y_lo, pz: z_hi, u: uv.b.u, v: uv.b.v, nx: 0, ny: 0, nz: 1 },
            Vertex { px: x_hi, py: y_hi, pz: z_hi, u: uv.c.u, v: uv.c.v, nx: 0, ny: 0, nz: 1 },
            Vertex { px: x_lo, py: y_hi, pz: z_hi, u: uv.d.u, v: uv.d.v, nx: 0, ny: 0, nz: 1 },
        ];
        let inds: Vec<u32> = vec![off, off + 1, off + 2, off + 2, off + 3, off];
        proof {
            let x = translation.0 as int;
            let y = translation.1 as int;
            let z = translation.2 as int;
            let m = verts@.map_values(|v: Vertex| v@);
            let s = spec_face_vertices(*self, FaceDir::Back, x, y, z);
            assert(m.len() == 4);
            assert(s.len() == 4);
            assert(x_lo as int == 2000 * x + (-1) * self.scale_x);
            assert(x_hi as int == 2000 * x + 1 * self.scale_x);
            assert(y_lo as int == 2000 * y + (-1) * self.scale_y);
            assert(y_hi as int == 2000 * y + 1 * self.scale_y);
            assert(z_hi as int == 2000 * z + 1 * self.scale_x);
            assert(m[0] == s[0]);
            assert(m[1] == s[1]);
            assert(m[2] == s[2]);
            assert(m[3] == s[3]);
            assert(m =~= s);
            assert(inds@.map_values(|i: u32| i as int) =~= spec_face_indices(
                FaceDir::Back,
                off as int,
            ));
        }
        (verts, inds)
    }

    /// The face on the -Z side of the voxel at `translation`.
    pub fn build_front_face(&self, translation: (i32, i32, i32), off: u32) -> (r: (
        Vec<Vertex>,
        Vec<u32>,
    ))
        requires
            self.wf(),
            -100000 <= translation.0 <= 100000,
            -100000 <= translation.1 <= 100000,
            -100000 <= translation.2 <= 100000,
            off <= 0xFFFF_FFF0u32,
        ensures
            r.0@.map_values(|v: Vertex| v@) == spec_face_vertices(
                *self,
                FaceDir::Front,
                translation.0 as int,
                translation.1 as int,
                translation.2 as int,
            ),
            r.1@.map_values(|i: u32| i as int) == spec_face_indices(FaceDir::Front, off as int),
    {
        let uv = self.face_uv(FaceDir::Front);
        let cx: i32 = 2000 * translation.0;
        let cy: i32 = 2000 * translation.1;
        let cz: i32 = 2000 * translation.2;
        let sx: i32 = self.scale_x as i32;
        let sy: i32 = self.scale_y as i32;
        let x_lo: i32 = cx - sx;
        let x_hi: i32 = cx + sx;
        let y_lo: i32 = cy - sy;
        let y_hi: i32 = cy + sy;
        let z_lo: i32 = cz - sx;
        let verts: Vec<Vertex> = vec![
            Vertex { px: x_lo, py: y_lo, pz: z_lo, u: uv.a.u, v: uv.a.v, nx: 0, ny: 0, nz: -1 },
            Vertex { px: x_hi, py: y_lo, pz: z_lo, u: uv.b.u, v: uv.b.v, nx: 0, ny: 0, nz: -1 },
            Vertex { px: x_hi, py: y_hi, pz: z_lo, u: uv.c.u, v: uv.c.v, nx: 0, ny: 0, nz: -1 },
            Vertex { px: x_lo, py: y_hi, pz: z_lo, u: uv.d.u, v: uv.d.v, nx: 0, ny: 0, nz: -1 },
        ];
        let i1: u32 = off + 2;
        let i2: u32 = off + 1;
        let i4: u32 = off;
        let i5: u32 = off + 3;
        let inds: Vec<u32> = vec![off, i1, i2, i1, i4, i5];
        proof {
            let x = translation.0 as int;
            let y = translation.1 as int;
            let z = translation.2 as int;
            let m = verts@.map_values(|v: Vertex| v@);
            let s = spec_face_vertices(*self, FaceDir::Front, x, y, z);
            assert(x_lo as int == 2000 * x + (-1) * self.scale_x);
            assert(x_hi as int == 2000 * x + 1 * self.scale_x);
            assert(y_lo as int == 2000 * y + (-1) * self.scale_y);
            assert(y_hi as int == 2000 * y + 1 * self.scale_y);
            assert(z_lo as int == 2000 * z + (-1) * self.scale_x);
            assert(m[0] == s[0]);
            assert(m[1] == s[1]);
            assert(m[2] == s[2]);
            assert(m[3] == s[3]);
            assert(m =~= s);
            assert(inds@.map_values(|i: u32| i as int) =~= spec_face_indices(
                FaceDir::Front,
                off as int,
            ));
        }
        (verts, inds)
    }

    /// The face on the -X side of the voxel at `translation`.
    pub fn build_left_face(&self, translation: (i32, i32, i32), off: u32) -> (r: (
        Vec<Vertex>,
        Vec<u32>,
    ))
        requires
            self.wf(),
            -100000 <= translation.0 <= 100000,
            -100000 <= translation.1 <= 100000,
            -100000 <= translation.2 <= 100000,
            off <= 0xFFFF_FFF0u32,
        ensures
            r.0@.map_values(|v: Vertex| v@) == spec_face_vertices(
                *self,
                FaceDir::Left,
                translation.0 as int,
                translation.1 as int,
                translation.2 as int,
            ),
            r.1@.map_values(|i: u32| i as int) == spec_face_indices(FaceDir::Left, off as int),
    {
        let uv = self.face_uv(FaceDir::Left);
        let cx: i32 = 2000 * translation.0;
        let cy: i32 = 2000 * translation.1;
        let cz: i32 = 2000 * translation.2;
        let sx: i32 = self.scale_x as i32;
        let sy: i32 = self.scale_y as i32;
        let x_lo: i32 = cx - sx;
        let y_lo: i32 = cy - sy;
        let y_hi: i32 = cy + sy;
        let z_lo: i32 = cz - sx;
        let z_hi: i32 = cz + sx;
        let verts: Vec<Vertex> = vec![
            Vertex { px: x_lo, py: y_lo, pz: z_hi, u: uv.a.u, v: uv.a.v, nx: -1, ny: 0, nz: 0 },
            Vertex { px: x_lo, py: y_lo, pz: z_lo, u: uv.b.u, v: uv.b.v, nx: -1, ny: 0, nz: 0 },
            Vertex { px: x_lo, py: y_hi, pz: z_lo, u: uv.c.u, v: uv.c.v, nx: -1, ny: 0, nz: 0 },
            Vertex { px: x_lo, py: y_hi, pz: z_hi, u: uv.d.u, v: uv.d.v, nx: -1, ny: 0, nz: 0 },
        ];
        let i0: u32 = off + 2;
        let i2: u32 = off + 3;
        let i4: u32 = off + 2;
        let i5: u32 = off + 1;
        let inds: Vec<u32> = vec![i0, off, i2, off, i4, i5];
        proof {
            let x = translation.0 as int;
            let y = translation.1 as int;
            let z = translation.2 as int;
            let m = verts@.map_values(|v: Vertex| v@);
            let s = spec_face_vertices(*self, FaceDir::Left, x, y, z);
            assert(x_lo as int == 2000 * x + (-1) * self.scale_x);
            assert(y_lo as int == 2000 * y + (-1) * self.scale_y);
            assert(y_hi as int == 2000 * y + 1 * self.scale_y);
            assert(z_lo as int == 2000 * z + (-1) * self.scale_x);
            assert(z_hi as int == 2000 * z + 1 * self.scale_x);
            assert(m[0] == s[0]);
            assert(m[1] == s[1]);
            assert(m[2] == s[2]);
            assert(m[3] == s[3]);
            assert(m =~= s);
            assert(inds@.map_values(|i: u32| i as int) =~= spec_face_indices(
                FaceDir::Left,
                off as int,
            ));
        }
        (verts, inds)
    }

    /// The face on the +X side of the voxel at `translation`.
    pub fn build_right_face(&self, translation: (i32, i32, i32), off: u32) -> (r: (
        Vec<Vertex>,
        Vec<u32>,
    ))
        requires
            self.wf(),
            -100000 <= translation.0 <= 100000,
            -100000 <= translation.1 <= 100000,
            -100000 <= translation.2 <= 100000,
            off <= 0xFFFF_FFF0u32,
        ensures
            r.0@.map_values(|v: Vertex| v@) == spec_face_vertices(
                *self,
                FaceDir::Right,
                translation.0 as int,
                translation.1 as int,
                translation.2 as int,
            ),
            r.1@.map_values(|i: u32| i as int) == spec_face_indices(FaceDir::Right, off as int),
    {
        let uv = self.face_uv(FaceDir::Right);
        let cx: i32 = 2000 * translation.0;
        let cy: i32 = 2000 * translation.1;
        let cz: i32 = 2000 * translation.2;
        let sx: i32 = self.scale_x as i32;
        let sy: i32 = self.scale_y as i32;
        let x_hi: i32 = cx + sx;
        let y_lo: i32 = cy - sy;
        let y_hi: i32 = cy + sy;
        let z_lo: i32 = cz - sx;
        let z_hi: i32 = cz + sx;
        let verts: Vec<Vertex> = vec![
            Vertex { px: x_hi, py: y_lo, pz: z_lo, u: uv.a.u, v: uv.a.v, nx: 1, ny: 0, nz: 0 },
            Vertex { px: x_hi, py: y_lo, pz: z_hi, u: uv.b.u, v: uv.b.v, nx: 1, ny: 0, nz: 0 },
            Vertex { px: x_hi, py: y_hi, pz: z_hi, u: uv.c.u, v: uv.c.v, nx: 1, ny: 0, nz: 0 },
            Vertex { px: x_hi, py: y_hi, pz: z_lo, u: uv.d.u, v: uv.d.v, nx: 1, ny: 0, nz: 0 },
        ];
        let i0: u32 = off + 3;
        let i1: u32 = off + 2;
        let i2: u32 = off + 1;
        let i3: u32 = off + 1;
        let inds: Vec<u32> = vec![i0, i1, i2, i3, off, i0];
        proof {
            let x = translation.0 as int;
            let y = translation.1 as int;
            let z = translation.2 as int;
            let m = verts@.map_values(|v: Vertex| v@);
            let s = spec_face_vertices(*self, FaceDir::Right, x, y, z);
            assert(x_hi as int == 2000 * x + 1 * self.scale_x);
            assert(y_lo as int == 2000 * y + (-1) * self.scale_y);
            assert(y_hi as int == 2000 * y + 1 * self.scale_y);
            assert(z_lo as int == 2000 * z + (-1) * self.scale_x);
            assert(z_hi as int == 2000 * z + 1 * self.scale_x);
            assert(m[0] == s[0]);
            assert(m[1] == s[1]);
            assert(m[2] == s[2]);
            assert(m[3] == s[3]);
            assert(m =~= s);
            assert(inds@.map_values(|i: u32| i as int) =~= spec_face_indices(
                FaceDir::Right,
                off as int,
            ));
        }
        (verts, inds)
    }

    /// The face on the +Y side of the voxel at `translation`.
    pub fn build_top_face(&self, translation: (i32, i32, i32), off: u32) -> (r: (
        Vec<Vertex>,
        Vec<u32>,
    ))
        requires
            self.wf(),
            -100000 <= translation.0 <= 100000,
            -100000 <= translation.1 <= 100000,
            -100000 <= translation.2 <= 100000,
            off <= 0xFFFF_FFF0u32,
        ensures
            r.0@.map_values(|v: Vertex| v@) == spec_face_vertices(
                *self,
                FaceDir::Top,
                translation.0 as int,
                translation.1 as int,
                translation.2 as int,
            ),
            r.1@.map_values(|i: u32| i as int) == spec_face_indices(FaceDir::Top, off as int),
    {
        let uv = self.face_uv(FaceDir::Top);
        let cx: i32 = 2000 * translation.0;
        let cy: i32 = 2000 * translation.1;
        let cz: i32 = 2000 * translation.2;
        let sx: i32 = self.scale_x as i32;
        let sy: i32 = self.scale_y as i32;
        let x_lo: i32 = cx - sx;
        let x_hi: i32 = cx + sx;
        let y_hi: i32 = cy + sy;
        let z_lo: i32 = cz - sx;
        let z_hi: i32 = cz + sx;
        let verts: Vec<Vertex> = vec![
            Vertex { px: x_lo, py: y_hi, pz: z_lo, u: uv.a.u, v: uv.a.v, nx: 0, ny: 1, nz: 0 },
            Vertex { px: x_hi, py: y_hi, pz: z_lo, u: uv.b.u, v: uv.b.v, nx: 0, ny: 1, nz: 0 },
            Vertex { px: x_hi, py: y_hi, pz: z_hi, u: uv.c.u, v: uv.c.v, nx: 0, ny: 1, nz: 0 },
            Vertex { px: x_lo, py: y_hi, pz: z_hi, u: uv.d.u, v: uv.d.v, nx: 0, ny: 1, nz: 0 },
        ];
        let i0: u32 = off + 3;
        let i1: u32 = off + 2;
        let i2: u32 = off + 1;
        let i3: u32 = off + 1;
        let inds: Vec<u32> = vec![i0, i1, i2, i3, off, i0];
        proof {
            let x = translation.0 as int;
            let y = translation.1 as int;
            let z = translation.2 as int;
            let m = verts@.map_values(|v: Vertex| v@);
            let s = spec_face_vertices(*self, FaceDir::Top, x, y, z);
            assert(x_lo as int == 2000 * x + (-1) * self.scale_x);
            assert(x_hi as int == 2000 * x + 1 * self.scale_x);
            assert(y_hi as int == 2000 * y + 1 * self.scale_y);
            assert(z_lo as int == 2000 * z + (-1) * self.scale_x);
            assert(z_hi as int == 2000 * z + 1 * self.scale_x);
            assert(m[0] == s[0]);
            assert(m[1] == s[1]);
            assert(m[2] == s[2]);
            assert(m[3] == s[3]);
            assert(m =~= s);
            assert(inds@.map_values(|i: u32| i as int) =~= spec_face_indices(
                FaceDir::Top,
                off as int,
            ));
        }
        (verts, inds)
    }

    /// The face on the -Y side of the voxel at `translation`.
    pub fn build_bottom_face(&self, translation: (i32, i32, i32), off: u32) -> (r: (
        Vec<Vertex>,
        Vec<u32>,
    ))
        requires
            self.wf(),
            -100000 <= translation.0 <= 100000,
            -100000 <= translation.1 <= 100000,
            -100000 <= translation.2 <= 100000,
            off <= 0xFFFF_FFF0u32,
        ensures
            r.0@.map_values(|v: Vertex| v@) == spec_face_vertices(
                *self,
                FaceDir::Bottom,
                translation.0 as int,
                translation.1 as int,
                translation.2 as int,
            ),
            r.1@.map_values(|i: u32| i as int) == spec_face_indices(FaceDir::Bottom, off as int),
    {
        let uv = self.face_uv(FaceDir::Bottom);
        let cx: i32 = 2000 * translation.0;
        let cy: i32 = 2000 * translation.1;
        let cz: i32 = 2000 * translation.2;
        let sx: i32 = self.scale_x as i32;
        let sy: i32 = self.scale_y as i32;
        let x_lo: i32 = cx - sx;
        let x_hi: i32 = cx + sx;
        let y_lo: i32 = cy - sy;
        let z_lo: i32 = cz - sx;
        let z_hi: i32 = cz + sx;
        let verts: Vec<Vertex> = vec![
            Vertex { px: x_lo, py: y_lo, pz: z_lo, u: uv.a.u, v: uv.a.v, nx: 0, ny: -1, nz: 0 },
            Vertex { px: x_hi, py: y_lo, pz: z_lo, u: uv.b.u, v: uv.b.v, nx: 0, ny: -1, nz: 0 },
            Vertex { px: x_hi, py: y_lo, pz: z_hi, u: uv.c.u, v: uv.c.v, nx: 0, ny: -1, nz: 0 },
            Vertex { px: x_lo, py: y_lo, pz: z_hi, u: uv.d.u, v: uv.d.v, nx: 0, ny: -1, nz: 0 },
        ];
        let i1: u32 = off + 1;
        let i2: u32 = off + 2;
        let i3: u32 = off + 2;
        let i4: u32 = off + 3;
        let inds: Vec<u32> = vec![off, i1, i2, i3, i4, off];
        proof {
            let x = translation.0 as int;
            let y = translation.1 as int;
            let z = translation.2 as int;
            let m = verts@.map_values(|v: Vertex| v@);
            let s = spec_face_vertices(*self, FaceDir::Bottom, x, y, z);
            assert(x_lo as int == 2000 * x + (-1) * self.scale_x);
            assert(x_hi as int == 2000 * x + 1 * self.scale_x);
            assert(y_lo as int == 2000 * y + (-1) * self.scale_y);
            assert(z_lo as int == 2000 * z + (-1) * self.scale_x);
            assert(z_hi as int == 2000 * z + 1 * self.scale_x);
            assert(m[0] == s[0]);
            assert(m[1] == s[1]);
            assert(m[2] == s[2]);
            assert(m[3] == s[3]);
            assert(m =~= s);
            assert(inds@.map_values(|i: u32| i as int) =~= spec_face_indices(
                FaceDir::Bottom,
                off as int,
            ));
        }
        (verts, inds)
    }
}

} // verus!
