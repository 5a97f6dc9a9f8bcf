//! The binding slots of the engine's shader uniforms: each uniform's
//! bindings form an enum whose variants are numbered from zero in order.
use vstd::prelude::*;

verus! {

/// A set of numbered binding slots, `0..=MAX`.
pub trait ShaderUniformIndex: Sized {
    /// The highest slot.
    const MAX: usize;

    /// The slot of a binding.
    spec fn slot(&self) -> usize;

    /// The slot of this binding.
    fn index(&self) -> (r: usize)
        ensures
            r == self.slot(),
            r <= Self::MAX,
    ;

    /// The binding at slot `index`; `None` past the highest slot.
    fn by_index(index: usize) -> (r: Option<Self>)
        ensures
            r is Some <==> index <= Self::MAX,
            r matches Some(v) ==> v.slot() == index,
    ;

    /// The uniform's name, used for labels.
    fn name() -> (r: &'static str);
}

/// Uniform slots that can be bound as several buffers at once.
pub trait ShaderUniformMultiIndex: ShaderUniformIndex {}

/// The bindings of a particle system's render uniform.
#[derive(Debug, Copy, Clone, PartialEq, Eq, Structural)]
pub enum ParticleUniformIndex {
    Settings,
    Runtime,
}

impl ShaderUniformIndex for ParticleUniformIndex {
    const MAX: usize = 1;

    open spec fn slot(&self) -> usize {
        match self {
            ParticleUniformIndex::Settings => 0,
            ParticleUniformIndex::Runtime => 1,
        }
    }

    fn index(&self) -> (r: usize) {
        match self {
            ParticleUniformIndex::Settings => 0,
            ParticleUniformIndex::Runtime => 1,
        }
    }

    fn by_index(index: usize) -> (r: Option<Self>) {
        match index {
            0 => Some(ParticleUniformIndex::Settings),
            1 => Some(ParticleUniformIndex::Runtime),
            _ => None,
        }
    }

    fn name() -> (r: &'static str)
        ensures
            r@ == "Particle Uniform"@,
    {
        proof {
            reveal_strlit("Particle Uniform");
        }
        "Particle Uniform"
    }
}

/// The bindings of a particle chunk's compute uniform.
#[derive(Debug, Copy, Clone, PartialEq, Eq, Structural)]
pub enum ParticleComputeUniformIndex {
    Settings,
    Runtime,
    Output,
    Dispatch,
}

impl ShaderUniformIndex for ParticleComputeUniformIndex {
    const MAX: usize = 3;

    open spec fn slot(&self) -> usize {
        match self {
            ParticleComputeUniformIndex::Settings => 0,
            ParticleComputeUniformIndex::Runtime => 1,
            ParticleComputeUniformIndex::Output => 2,
            ParticleComputeUniformIndex::Dispatch => 3,
        }
    }

    fn index(&self) -> (r: usize) {
        match self {
            ParticleComputeUniformIndex::Settings => 0,
            ParticleComputeUniformIndex::Runtime => 1,
            ParticleComputeUniformIndex::Output => 2,
            ParticleComputeUniformIndex::Dispatch => 3,
        }
    }

    fn by_index(index: usize) -> (r: Option<Self>) {
        match index {
            0 => Some(ParticleComputeUniformIndex::Settings),
            1 => Some(ParticleComputeUniformIndex::Runtime),
            2 => Some(ParticleComputeUniformIndex::Output),
            3 => Some(ParticleComputeUniformIndex::Dispatch),
            _ => None,
        }
    }

    fn name() -> (r: &'static str)
        ensures
            r@ == "ParticleComputeUniformIndex"@,
    {
        proof {
            reveal_strlit("ParticleComputeUniformIndex");
        }
        "ParticleComputeUniformIndex"
    }
}

/// The bindings of the light uniform.
#[derive(Debug, Copy, Clone, PartialEq, Eq, Structural)]
pub enum LightUniformIndex {
    Count,
    Lights,
}

impl ShaderUniformIndex for LightUniformIndex {
    const MAX: usize = 1;

    open spec fn slot(&self) -> usize {
        match self {
            LightUniformIndex::Count => 0,
            LightUniformIndex::Lights => 1,
        }
    }

    fn index(&self) -> (r: usize) {
        match self {
            LightUniformIndex::Count => 0,
            LightUniformIndex::Lights => 1,
        }
    }

    fn by_index(index: usize) -> (r: Option<Self>) {
        match index {
            0 => Some(LightUniformIndex::Count),
            1 => Some(LightUniformIndex::Lights),
            _ => None,
        }
    }

    fn name() -> (r: &'static str)
        ensures
            r@ == "LightUniformIndex"@,
    {
        proof {
            reveal_strlit("LightUniformIndex");
        }
        "LightUniformIndex"
    }
}

/// The bindings of the shadow uniform.
#[derive(Debug, Copy, Clone, PartialEq, Eq, Structural)]
pub enum ShadowUniformIndex {
    ShadowMaps,
    ShadowSampler,
    ShadowMatrices,
    ShadowTexel,
}

impl ShaderUniformIndex for ShadowUniformIndex {
    const MAX: usize = 3;

    open spec fn slot(&self) -> usize {
        match self {
            ShadowUniformIndex::ShadowMaps => 0,
            ShadowUniformIndex::ShadowSampler => 1,
            ShadowUniformIndex::ShadowMatrices => 2,
            ShadowUniformIndex::ShadowTexel => 3,
        }
    }

    fn index(&self) -> (r: usize) {
        match self {
            ShadowUniformIndex::ShadowMaps => 0,
            ShadowUniformIndex::ShadowSampler => 1,
            ShadowUniformIndex::ShadowMatrices => 2,
            ShadowUniformIndex::ShadowTexel => 3,
        }
    }

    fn by_index(index: usize) -> (r: Option<Self>) {
        match index {
            0 => Some(ShadowUniformIndex::ShadowMaps),
            1 => Some(ShadowUniformIndex::ShadowSampler),
            2 => Some(ShadowUniformIndex::ShadowMatrices),
            3 => Some(ShadowUniformIndex::ShadowTexel),
            _ => None,
        }
    }

    fn name() -> (r: &'static str)
        ensures
            r@ == "ShadowUniformIndex"@,
    {
        proof {
            reveal_strlit("ShadowUniformIndex");
        }
        "ShadowUniformIndex"
    }
}

/// The bindings of a post-process uniform.
#[derive(Debug, Copy, Clone, PartialEq, Eq, Structural)]
pub enum PostProcessUniformIndex {
    Color,
    Sampler,
    Depth,
    GNormal,
    GMaterial,
}

impl ShaderUniformIndex for PostProcessUniformIndex {
    const MAX: usize = 4;

    open spec fn slot(&self) -> usize {
        match self {
            PostProcessUniformIndex::Color => 0,
            PostProcessUniformIndex::Sampler => 1,
            PostProcessUniformIndex::Depth => 2,
            PostProcessUniformIndex::GNormal => 3,
            PostProcessUniformIndex::GMaterial => 4,
        }
    }

    fn index(&self) -> (r: usize) {
        match self {
            PostProcessUniformIndex::Color => 0,
            PostProcessUniformIndex::Sampler => 1,
            PostProcessUniformIndex::Depth => 2,
            PostProcessUniformIndex::GNormal => 3,
            PostProcessUniformIndex::GMaterial => 4,
        }
    }

    fn by_index(index: usize) -> (r: Option<Self>) {
        match index {
            0 => Some(PostProcessUniformIndex::Color),
            1 => Some(PostProcessUniformIndex::Sampler),
            2 => Some(PostProcessUniformIndex::Depth),
            3 => Some(PostProcessUniformIndex::GNormal),
            4 => Some(PostProcessUniformIndex::GMaterial),
            _ => None,
        }
    }

    fn name() -> (r: &'static str)
        ensures
            r@ == "PostProcessUniformIndex"@,
    {
        proof {
            reveal_strlit("PostProcessUniformIndex");
        }
        "PostProcessUniformIndex"
    }
}

/// The bindings of a mesh's model uniform.
#[derive(Debug, Copy, Clone, PartialEq, Eq, Structural)]
pub enum MeshUniformIndex {
    MeshData,
    BoneData,
}

impl ShaderUniformIndex for MeshUniformIndex {
    const MAX: usize = 1;

    open spec fn slot(&self) -> usize {
        match self {
            MeshUniformIndex::MeshData => 0,
            MeshUniformIndex::BoneData => 1,
        }
    }

    fn index(&self) -> (r: usize) {
        match self {
            MeshUniformIndex::MeshData => 0,
            MeshUniformIndex::BoneData => 1,
        }
    }

    fn by_index(index: usize) -> (r: Option<Self>) {
        match index {
            0 => Some(MeshUniformIndex::MeshData),
            1 => Some(MeshUniformIndex::BoneData),
            _ => None,
        }
    }

    fn name() -> (r: &'static str)
        ensures
            r@ == "MeshUniformIndex"@,
    {
        proof {
            reveal_strlit("MeshUniformIndex");
        }
        "MeshUniformIndex"
    }
}

/// The bindings of the per-camera render uniform.
#[derive(Debug, Copy, Clone, PartialEq, Eq, Structural)]
pub enum RenderUniformIndex {
    Camera,
    System,
    Skybox,
    SkyboxSampler,
    Sky,
}

impl ShaderUniformIndex for RenderUniformIndex {
    const MAX: usize = 4;

    open spec fn slot(&self) -> usize {
        match self {
            RenderUniformIndex::Camera => 0,
            RenderUniformIndex::System => 1,
            RenderUniformIndex::Skybox => 2,
            RenderUniformIndex::SkyboxSampler => 3,
            RenderUniformIndex::Sky => 4,
        }
    }

    fn index(&self) -> (r: usize) {
        match self {
            RenderUniformIndex::Camera => 0,
            RenderUniformIndex::System => 1,
            RenderUniformIndex::Skybox => 2,
            RenderUniformIndex::SkyboxSampler => 3,
            RenderUniformIndex::Sky => 4,
        }
    }

    fn by_index(index: usize) -> (r: Option<Self>) {
        match index {
            0 => Some(RenderUniformIndex::Camera),
            1 => Some(RenderUniformIndex::System),
            2 => Some(RenderUniformIndex::Skybox),
            3 => Some(RenderUniformIndex::SkyboxSampler),
            4 => Some(RenderUniformIndex::Sky),
            _ => None,
        }
    }

    fn name() -> (r: &'static str)
        ensures
            r@ == "RenderUniformIndex"@,
    {
        proof {
            reveal_strlit("RenderUniformIndex");
        }
        "RenderUniformIndex"
    }
}

impl ShaderUniformMultiIndex for ParticleUniformIndex {}

} // verus!
