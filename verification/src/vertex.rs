use vstd::prelude::*;

verus! {

/// One mesh vertex, in fixed-point units so that every coordinate is exact.
///
/// * `px`, `py`, `pz`: position relative to the chunk origin, in 1/2000 of a
///   block edge. The center of the voxel at local coordinate (x, y, z) sits
///   at (2000x, 2000y, 2000z); a unit-scale corner is 1000 units away on
///   each axis.
/// * `u`, `v`: texture-atlas coordinate in 1/1000 of an atlas pixel. The
///   presentation layer divides by 1000 times the atlas pixel size to get
///   normalized texture coordinates.
/// * `nx`, `ny`, `nz`: the face normal; each component is -1, 0 or 1.
#[derive(Clone, Copy, Debug, PartialEq, Eq, Structural)]
pub struct Vertex {
    pub px: i32,
    pub py: i32,
    pub pz: i32,
    pub u: i32,
    pub v: i32,
    pub nx: i32,
    pub ny: i32,
    pub nz: i32,
}

/// The mathematical value of a `Vertex`: the same eight coordinates as
/// unbounded integers, so that specifications can speak of them without
/// machine-width casts.
pub struct SpecVertex {
    pub px: int,
    pub py: int,
    pub pz: int,
    pub u: int,
    pub v: int,
    pub nx: int,
    pub ny: int,
    pub nz: int,
}

impl View for Vertex {
    type V = SpecVertex;

    open spec fn view(&self) -> SpecVertex {
        SpecVertex {
            px: self.px as int,
            py: self.py as int,
            pz: self.pz as int,
            u: self.u as int,
            v: self.v as int,
            nx: self.nx as int,
            ny: self.ny as int,
            nz: self.nz as int,
        }
    }
}

} // verus!
