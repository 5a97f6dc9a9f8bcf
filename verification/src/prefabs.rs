//! Ready-made objects a scene can be populated with.
use vstd::prelude::*;

verus! {

/// A sun: a directional light high above the origin.
pub struct SunPrefab;

impl SunPrefab {
    /// The name of the object the prefab builds.
    pub fn prefab_name(&self) -> (r: &'static str)
        ensures
            r@ == "Sun"@,
    {
        "Sun"
    }
}

/// A player with a collider, a rigid body, a third-person controller and a
/// camera following it.
pub struct ThirdPersonPlayerPrefab;

impl ThirdPersonPlayerPrefab {
    /// The name of the object the prefab builds.
    pub fn prefab_name(&self) -> (r: &'static str)
        ensures
            r@ == "Third Person Player"@,
    {
        "Third Person Player"
    }
}

} // verus!
