//! How the sky behind a frame is drawn.
use vstd::prelude::*;

verus! {

/// The sky of a frame: a cubemap texture or the procedural atmosphere.
#[derive(Debug, Copy, Clone, PartialEq, Eq, Structural)]
pub enum SkyboxMode {
    Cubemap,
    Procedural,
}

impl SkyboxMode {
    /// The number the sky shader reads for this mode.
    pub fn as_raw(self) -> (r: u32)
        ensures
            r == match self {
                SkyboxMode::Cubemap => 0u32,
                SkyboxMode::Procedural => 1u32,
            },
    {
        match self {
            SkyboxMode::Cubemap => 0,
            SkyboxMode::Procedural => 1,
        }
    }
}

impl Default for SkyboxMode {
    /// A cubemap sky.
    fn default() -> (r: Self)
        ensures
            r == SkyboxMode::Cubemap,
    {
        SkyboxMode::Cubemap
    }
}

} // verus!
