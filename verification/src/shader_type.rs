use vstd::prelude::*;

verus! {

/// The shader programs the presentation layer distinguishes.
#[derive(Debug, PartialEq, Eq, Copy, Clone, Structural)]
pub enum Type {
    Block,
    Text,
    CubeMap,
    Torch,
    Deferred,
    ShadowMap,
}

/// The file-name stem of each shader kind's source files.
pub open spec fn spec_as_str(t: Type) -> Seq<char> {
    match t {
        Type::Block => "block"@,
        Type::Text => "text"@,
        Type::CubeMap => "cube_map"@,
        Type::Torch => "torch"@,
        Type::Deferred => "deferred"@,
        Type::ShadowMap => "shadow_map"@,
    }
}

impl Type {
    /// The file-name stem under which this shader kind's sources are found.
    pub fn as_str(&self) -> (r: &str)
        ensures
            r@ == spec_as_str(*self),
    {
        match *self {
            Type::Block => "block",
            Type::Text => "text",
            Type::CubeMap => "cube_map",
            Type::Torch => "torch",
            Type::Deferred => "deferred",
            Type::ShadowMap => "shadow_map",
        }
    }
}

} // verus!
