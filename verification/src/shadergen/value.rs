//! The value types a material input or output can carry.
use vstd::prelude::*;

verus! {

/// The WGSL type of a material value.
#[derive(Clone, Copy, Debug, PartialEq, Eq, Structural)]
pub enum MaterialValueType {
    F32,
    U32,
    Bool,
    Vec2,
    Vec3,
    Vec4,
}

} // verus!
