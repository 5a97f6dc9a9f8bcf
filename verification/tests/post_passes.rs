use syrillian_engine::render::post_passes::{
    bloom_half_extent, bloom_wiring, BloomSurface, BloomWiring, sanitize_blur_passes, screen_dispatch, BloomDispatch, BloomInputSource, BloomRenderPass,
    BloomStage, FinalRenderPass, FxaaInputSource, FxaaRenderPass, PostProcessData,
    ScreenSpaceAmbientOcclusionRenderPass, ScreenSpaceReflectionRenderPass, SsaoStage,
};

#[test]
fn dispatch_sizes_round_up() {
    assert_eq!(screen_dispatch(800, 600), (100, 75));
    assert_eq!(screen_dispatch(801, 1), (101, 1));
    assert_eq!(screen_dispatch(0, 0), (1, 1));
    assert_eq!(bloom_half_extent(801, 600), (401, 300));
    assert_eq!(bloom_half_extent(0, 1), (1, 1));
}

#[test]
fn blur_passes_are_kept_in_range() {
    assert_eq!(sanitize_blur_passes(0), 1);
    assert_eq!(sanitize_blur_passes(3), 3);
    assert_eq!(sanitize_blur_passes(40), 6);
}

#[test]
fn bloom_selects_uniforms_by_source() {
    let pass = BloomRenderPass::new(800, 600, "out", "a", "b", ["pre_base", "pre_ssr"], "blur_h", "blur_v", ["comp_base", "comp_ssr"]);
    assert_eq!(*pass.prefilter_uniform(BloomInputSource::Base), "pre_base");
    assert_eq!(*pass.prefilter_uniform(BloomInputSource::Ssr), "pre_ssr");
    assert_eq!(*pass.composite_uniform(BloomInputSource::Ssr), "comp_ssr");
    assert_eq!(*pass.blur_horizontal_uniform(), "blur_h");
    assert_eq!(*pass.blur_vertical_uniform(), "blur_v");
    assert_eq!(*pass.output(), "out");
    assert_eq!(pass.half_size(), (400, 300));
}

#[test]
fn bloom_dispatch_sequence() {
    let pass = BloomRenderPass::new(800, 600, (), (), (), [(), ()], (), (), [(), ()]);
    let plan = pass.render_plan(800, 600, BloomInputSource::Ssr, 2);
    assert_eq!(
        plan,
        vec![
            BloomDispatch { stage: BloomStage::Prefilter(BloomInputSource::Ssr), x: 50, y: 38 },
            BloomDispatch { stage: BloomStage::BlurHorizontal, x: 50, y: 38 },
            BloomDispatch { stage: BloomStage::BlurVertical, x: 50, y: 38 },
            BloomDispatch { stage: BloomStage::BlurHorizontal, x: 50, y: 38 },
            BloomDispatch { stage: BloomStage::BlurVertical, x: 50, y: 38 },
            BloomDispatch { stage: BloomStage::Composite(BloomInputSource::Ssr), x: 100, y: 75 },
        ]
    );
    assert_eq!(pass.render_plan(800, 600, BloomInputSource::Base, 0).len(), 2);
}

#[test]
fn fxaa_selects_uniforms_by_source() {
    let pass = FxaaRenderPass::new(
        0u8,
        [PostProcessData::new(10), PostProcessData::new(11), PostProcessData::new(12), PostProcessData::new(13)],
    );
    assert_eq!(pass.uniform(FxaaInputSource::Base).uniform, 10);
    assert_eq!(pass.uniform(FxaaInputSource::Ssao).uniform, 12);
    assert_eq!(pass.uniform(FxaaInputSource::Bloom).uniform, 13);
    assert_eq!(*pass.output(), 0u8);
}

#[test]
fn pass_names() {
    assert_eq!(FinalRenderPass::new(PostProcessData::new(())).name(), "Final");
    assert_eq!(ScreenSpaceReflectionRenderPass::new(()).name(), "SSR");
    assert_eq!(ScreenSpaceAmbientOcclusionRenderPass::new((), (), (), (), (), ()).name(), "SSAO");
}

#[test]
fn ssao_runs_four_full_screen_steps() {
    let pass = ScreenSpaceAmbientOcclusionRenderPass::new(1, 2, 3, 4, (), ());
    assert_eq!(
        pass.execute_plan(16, 9),
        vec![(SsaoStage::Generate, 2, 2), (SsaoStage::BlurX, 2, 2), (SsaoStage::BlurY, 2, 2), (SsaoStage::Apply, 2, 2)]
    );
    assert_eq!(pass.step_uniform(SsaoStage::BlurY), Some(&3));
    assert_eq!(pass.step_uniform(SsaoStage::Apply), None);
    assert_eq!(*pass.apply_uniform(), 4);
    let ssr = ScreenSpaceReflectionRenderPass::new(5);
    assert_eq!(ssr.execute_plan(9, 8), (2, 1));
    assert_eq!(*ssr.uniform(), 5);
}

#[test]
fn bloom_stages_bind_their_surfaces() {
    let w = |first, second, written| BloomWiring { first, second, written };
    assert_eq!(
        bloom_wiring(BloomStage::Prefilter(BloomInputSource::Ssr)),
        w(BloomSurface::Ssr, BloomSurface::Ssr, BloomSurface::HalfA)
    );
    assert_eq!(bloom_wiring(BloomStage::BlurHorizontal), w(BloomSurface::HalfA, BloomSurface::HalfA, BloomSurface::HalfB));
    assert_eq!(bloom_wiring(BloomStage::BlurVertical), w(BloomSurface::HalfB, BloomSurface::HalfB, BloomSurface::HalfA));
    assert_eq!(
        bloom_wiring(BloomStage::Composite(BloomInputSource::Base)),
        w(BloomSurface::Base, BloomSurface::HalfA, BloomSurface::Output)
    );
}
