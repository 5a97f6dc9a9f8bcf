use syrillian_engine::render::draw_plan::RenderPassType;
use syrillian_engine::render::message::RenderMsgKind;
use syrillian_engine::render::shader::{has_render_entry_points, plan_activation, BindGroupMap, FrameGroup, PipelineKind};
use syrillian_engine::render::sky::SkyboxMode;
use syrillian_engine::render::texture_layout::{texture_layout, TextureAssetKind, TextureLayout, ViewDimension};
use syrillian_engine::render::uniforms::{
    LightUniformIndex, MeshUniformIndex, ParticleComputeUniformIndex, ParticleUniformIndex, PostProcessUniformIndex,
    RenderUniformIndex, ShaderUniformIndex, ShadowUniformIndex,
};

#[test]
fn uniform_slots_round_trip() {
    assert_eq!(ParticleUniformIndex::MAX, 1);
    assert_eq!(ParticleUniformIndex::Runtime.index(), 1);
    assert_eq!(ParticleUniformIndex::by_index(0), Some(ParticleUniformIndex::Settings));
    assert_eq!(ParticleUniformIndex::by_index(2), None);
    assert_eq!(ParticleUniformIndex::name(), "Particle Uniform");
    assert_eq!(ParticleComputeUniformIndex::by_index(3), Some(ParticleComputeUniformIndex::Dispatch));
    assert_eq!(LightUniformIndex::Lights.index(), 1);
    assert_eq!(ShadowUniformIndex::by_index(ShadowUniformIndex::MAX), Some(ShadowUniformIndex::ShadowTexel));
    assert_eq!(PostProcessUniformIndex::GMaterial.index(), 4);
    assert_eq!(MeshUniformIndex::by_index(1), Some(MeshUniformIndex::BoneData));
    assert_eq!(RenderUniformIndex::Sky.index(), RenderUniformIndex::MAX);
}

#[test]
fn sky_modes() {
    assert_eq!(SkyboxMode::default(), SkyboxMode::Cubemap);
    assert_eq!(SkyboxMode::Cubemap.as_raw(), 0);
    assert_eq!(SkyboxMode::Procedural.as_raw(), 1);
}

#[test]
fn shader_activation() {
    let map = BindGroupMap { render: 0, model: Some(1), material: None, light: Some(2), shadow: Some(3), post_process: None };
    let a = plan_activation(RenderPassType::Color, false, map).unwrap();
    assert_eq!(a.pipeline, PipelineKind::Solid);
    assert_eq!(a.groups, vec![(0, FrameGroup::Render), (2, FrameGroup::Light), (3, FrameGroup::Shadow)]);
    assert!(plan_activation(RenderPassType::Shadow, false, map).is_none());
    assert_eq!(plan_activation(RenderPassType::Shadow, true, map).unwrap().pipeline, PipelineKind::Shadow);
    let bare = BindGroupMap { render: 0, model: None, material: None, light: None, shadow: None, post_process: None };
    assert_eq!(plan_activation(RenderPassType::PickingUi, false, bare).unwrap().groups, vec![(0, FrameGroup::Render)]);
    assert!(has_render_entry_points("@vertex fn a() {}\n@fragment fn b() {}"));
    assert!(!has_render_entry_points("@vertex fn a() {}"));
}

#[test]
fn render_message_names() {
    assert_eq!(RenderMsgKind::RemoveProxy.name(), "Remove Proxy");
    assert_eq!(RenderMsgKind::ProxyState(true).name(), "Proxy Enabled: true");
    assert_eq!(
        RenderMsgKind::CommandBatch(vec![RenderMsgKind::RemoveProxy, RenderMsgKind::FrameEnd]).name(),
        "Command Batch [Remove Proxy, Frame End]"
    );
    assert_eq!(RenderMsgKind::CommandBatch(vec![]).name(), "Command Batch []");
    assert_eq!(
        RenderMsgKind::CommandBatch(vec![RenderMsgKind::CommandBatch(vec![RenderMsgKind::ProxyState(false)])]).name(),
        "Command Batch [Command Batch [Proxy Enabled: false]]"
    );
}

#[test]
fn texture_layouts() {
    assert_eq!(
        texture_layout(TextureAssetKind::Texture2D),
        TextureLayout { layer_count: 1, mip_level_count: 1, sample_count: 1, view_dimension: ViewDimension::D2 }
    );
    assert_eq!(texture_layout(TextureAssetKind::Texture2DArray { array_layers: 48 }).layer_count, 48);
    let cube = texture_layout(TextureAssetKind::Cubemap { mip_level_count: 0 });
    assert_eq!((cube.layer_count, cube.mip_level_count, cube.view_dimension), (6, 1, ViewDimension::Cube));
    assert_eq!(texture_layout(TextureAssetKind::Cubemap { mip_level_count: 5 }).mip_level_count, 5);
}
