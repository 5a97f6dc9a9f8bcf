//! Which pipeline of a shader a render pass uses, and which bind groups
//! activating the shader sets.
use crate::render::draw_plan::RenderPassType;
use vstd::prelude::*;

verus! {

/// The two pipelines a shader can have.
#[derive(Debug, Copy, Clone, PartialEq, Eq, Structural)]
pub enum PipelineKind {
    Solid,
    Shadow,
}

/// The pipeline a pass draws with: the shadow pipeline in shadow passes,
/// the solid one in all others.
pub open spec fn pipeline_for(stage: RenderPassType) -> PipelineKind {
    match stage {
        RenderPassType::Shadow => PipelineKind::Shadow,
        _ => PipelineKind::Solid,
    }
}

/// The bind-group slots a shader declares.
#[derive(Debug, Copy, Clone, PartialEq, Eq, Structural)]
pub struct BindGroupMap {
    pub render: u32,
    pub model: Option<u32>,
    pub material: Option<u32>,
    pub light: Option<u32>,
    pub shadow: Option<u32>,
    pub post_process: Option<u32>,
}

/// What a bind group binds.
#[derive(Debug, Copy, Clone, PartialEq, Eq, Structural)]
pub enum FrameGroup {
    Render,
    Light,
    Shadow,
}

/// How a shader is activated: the pipeline, then the render group, then
/// the light and shadow groups where the shader declares them.
#[derive(Debug, Clone, PartialEq, Eq)]
pub struct Activation {
    pub pipeline: PipelineKind,
    pub groups: Vec<(u32, FrameGroup)>,
}

/// The bind groups activation sets, in order.
pub open spec fn activation_groups(map: BindGroupMap) -> Seq<(u32, FrameGroup)> {
    let base = seq![(map.render, FrameGroup::Render)];
    let with_light = match map.light {
        Some(l) => base.push((l, FrameGroup::Light)),
        None => base,
    };
    match map.shadow {
        Some(s) => with_light.push((s, FrameGroup::Shadow)),
        None => with_light,
    }
}

/// How a shader is activated for a pass: `None` when the pass needs the
/// shadow pipeline and the shader has none.
pub fn plan_activation(stage: RenderPassType, has_shadow_pipeline: bool, map: BindGroupMap) -> (r: Option<Activation>)
    ensures
        match r {
            None => pipeline_for(stage) == PipelineKind::Shadow && !has_shadow_pipeline,
            Some(a) => (pipeline_for(stage) == PipelineKind::Solid || has_shadow_pipeline) && a.pipeline
                == pipeline_for(stage) && a.groups@ == activation_groups(map),
        },
{
    let pipeline = match stage {
        RenderPassType::Shadow => {
            if !has_shadow_pipeline {
                return None;
            }
            PipelineKind::Shadow
        },
        _ => PipelineKind::Solid,
    };
    let mut groups: Vec<(u32, FrameGroup)> = Vec::new();
    groups.push((map.render, FrameGroup::Render));
    if let Some(l) = map.light {
        groups.push((l, FrameGroup::Light));
    }
    if let Some(s) = map.shadow {
        groups.push((s, FrameGroup::Shadow));
    }
    Some(Activation { pipeline, groups })
}

/// Whether generated shader code has both entry points a render shader
/// needs.
pub fn has_render_entry_points(code: &str) -> (r: bool)
    ensures
        r == (crate::text::contains(code@, "@fragment"@) && crate::text::contains(code@, "@vertex"@)),
{
    crate::text::str_contains(code, "@fragment") && crate::text::str_contains(code, "@vertex")
}

} // verus!
