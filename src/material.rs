//! Material parameter kinds.
use vstd::prelude::*;

verus! {

/// The kinds of value a material parameter can hold.
#[derive(Clone, Copy, Debug, PartialEq, Eq, Structural)]
pub enum MaterialParamType {
    Float,
    Vec2,
    Vec3,
    Vec4,
    Mat4,
    Texture,
}

} // verus!
