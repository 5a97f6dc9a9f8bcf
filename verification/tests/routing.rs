use syrillian_engine::render::routing::{
    chain_surfaces, ChainState, compose_routes, current_surface_index, PostProcessRouting, RouteIds, COLOR_ID_BASE,
    COLOR_ID_FINAL_A, COLOR_ID_POST_A, COLOR_ID_POST_B,
};

#[test]
fn all_passes_alternate_surfaces() {
    let key = PostProcessRouting::current(false, false, false, true);
    let r = compose_routes(key);
    assert_eq!(r.ssr, RouteIds { input_id: COLOR_ID_BASE, output_id: COLOR_ID_POST_A });
    assert_eq!(r.ssao, RouteIds { input_id: COLOR_ID_POST_A, output_id: COLOR_ID_POST_B });
    assert_eq!(r.bloom, RouteIds { input_id: COLOR_ID_POST_B, output_id: COLOR_ID_POST_A });
    assert_eq!(r.fxaa, RouteIds { input_id: COLOR_ID_POST_A, output_id: COLOR_ID_POST_B });
    assert_eq!(r.final_pass, RouteIds { input_id: COLOR_ID_POST_B, output_id: COLOR_ID_FINAL_A });
    let c = chain_surfaces(key);
    assert_eq!((c.ssr, c.ssao, c.bloom, c.fxaa), (Some(0), Some(1), Some(0), Some(1)));
}

#[test]
fn disabled_passes_keep_the_default_route() {
    let key = PostProcessRouting::current(true, false, true, false);
    let r = compose_routes(key);
    assert_eq!(r.ssr, RouteIds { input_id: COLOR_ID_BASE, output_id: COLOR_ID_POST_A });
    assert_eq!(r.ssao, RouteIds { input_id: COLOR_ID_BASE, output_id: COLOR_ID_POST_A });
    assert_eq!(r.final_pass.input_id, COLOR_ID_POST_A);
    let none = compose_routes(PostProcessRouting::current(true, true, true, false));
    assert_eq!(none.final_pass, RouteIds { input_id: COLOR_ID_BASE, output_id: COLOR_ID_FINAL_A });
    assert_eq!(chain_surfaces(PostProcessRouting::current(true, true, true, false)).fxaa, None);
}

#[test]
fn final_surfaces_alternate_by_frame() {
    assert_eq!(current_surface_index(0), 0);
    assert_eq!(current_surface_index(7), 1);
}

#[test]
fn bloom_settings_upload_once_per_change() {
    let key = PostProcessRouting::current(false, false, false, false);
    let mut state = ChainState::new(key);
    assert!(!state.prepare_frame(key));
    state.set_bloom_settings();
    assert!(state.prepare_frame(key));
    assert!(!state.prepare_frame(key));
    // a changed routing rebuilds the chain, which takes the new settings
    state.set_bloom_settings();
    let other = PostProcessRouting::current(true, false, false, false);
    assert!(!state.prepare_frame(other));
    assert!(state.ensure_route_configuration(other));
    assert!(!state.prepare_frame(other));
    assert!(!state.ensure_route_configuration(other));
}
