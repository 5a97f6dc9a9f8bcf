use syrillian_engine::render::lighting::{
    cube_face_index, light_buffer_too_small, plan_debug_lights, plan_shadow_cameras, plan_shadow_layers,
    uploaded_light_count, LightRegistry, LightType, LightTypeTrait, Point, ShadowAssignment, ShadowCamera,
    ShadowCameraUpdate, Spot, Sun, NO_SHADOW_MAP,
};

#[test]
fn light_type_raw_round_trip() {
    for t in [LightType::Point, LightType::Sun, LightType::Spot] {
        assert_eq!(LightType::from_raw(t.as_raw()), Some(t));
    }
    assert_eq!(LightType::Point.as_raw(), 0);
    assert_eq!(LightType::Sun.as_raw(), 1);
    assert_eq!(LightType::Spot.as_raw(), 2);
    assert_eq!(LightType::from_raw(3), None);
}

#[test]
fn light_components_name_their_kind() {
    assert_eq!(Point::name(), "PointLightComponent");
    assert_eq!(Sun::name(), "SunLightComponent");
    assert_eq!(Spot::name(), "SpotLightComponent");
    assert_eq!(Point::type_id(), LightType::Point);
    assert_eq!(Sun::type_id(), LightType::Sun);
    assert_eq!(Spot::type_id(), LightType::Spot);
}

#[test]
fn shadow_layers_are_dense_and_skip_suns() {
    // point, sun, spot, unknown (treated as point)
    let types = vec![0, 1, 2, 7];
    let plan = plan_shadow_layers(&types, 48, 0);
    assert_eq!(plan.shadow_map_ids, vec![0, NO_SHADOW_MAP, 6, 7]);
    assert_eq!(plan.used_layers, 13);
    assert_eq!(plan.assignments.len(), 13);
    for (k, a) in plan.assignments.iter().enumerate() {
        assert_eq!(a.layer as usize, k);
    }
    assert_eq!(plan.assignments[6], ShadowAssignment { layer: 6, light_index: 2, face: 0 });
    assert_eq!(plan.assignments[12], ShadowAssignment { layer: 12, light_index: 3, face: 5 });
    assert_eq!(plan.render_targets, 14);
}

#[test]
fn shadow_layers_that_do_not_fit_are_left_out() {
    // two point lights need twelve layers; only eight exist, so the second
    // gets none, but a later spot light still fits
    let types = vec![0, 0, 2];
    let plan = plan_shadow_layers(&types, 8, 20);
    assert_eq!(plan.shadow_map_ids, vec![0, NO_SHADOW_MAP, 6]);
    assert_eq!(plan.used_layers, 7);
    assert_eq!(plan.render_targets, 20);
}

#[test]
fn no_lights_need_no_layers() {
    let plan = plan_shadow_layers(&vec![1, 1], 48, 3);
    assert_eq!(plan.shadow_map_ids, vec![NO_SHADOW_MAP, NO_SHADOW_MAP]);
    assert!(plan.assignments.is_empty());
    assert_eq!(plan.used_layers, 0);
    assert_eq!(plan.render_targets, 3);
}

#[test]
fn registry_reads_back_what_was_written() {
    let mut reg: LightRegistry<&'static str> = LightRegistry::new();
    assert_eq!(reg.len(), 0);
    reg.add_proxy(10, "a");
    reg.add_proxy(20, "b");
    reg.add_proxy(30, "c");
    assert_eq!(reg.len(), 3);
    assert_eq!(reg.position_of(20), Some(1));
    assert_eq!(reg.proxy(1), Some(&"b"));
    // replacing keeps the position
    reg.add_proxy(20, "b2");
    assert_eq!(reg.len(), 3);
    assert_eq!(reg.position_of(20), Some(1));
    assert_eq!(reg.proxy(1), Some(&"b2"));
    // removing keeps the order of the others
    reg.remove_proxy(10);
    assert_eq!(reg.position_of(10), None);
    assert_eq!(reg.position_of(20), Some(0));
    assert_eq!(reg.position_of(30), Some(1));
    assert_eq!(reg.proxy(2), None);
    // removing an unknown owner changes nothing
    reg.remove_proxy(99);
    assert_eq!(reg.len(), 2);
    // setting only touches owners that exist
    reg.set_proxy(99, "z");
    assert_eq!(reg.position_of(99), None);
    reg.set_proxy(30, "c2");
    assert_eq!(reg.proxy(1), Some(&"c2"));
}

#[test]
fn shadow_cameras_follow_assignments() {
    let assignments = vec![
        ShadowAssignment { layer: 0, light_index: 0, face: 0 },
        ShadowAssignment { layer: 1, light_index: 0, face: 1 },
        ShadowAssignment { layer: 2, light_index: 1, face: 0 },
        ShadowAssignment { layer: 3, light_index: 2, face: 0 },
        ShadowAssignment { layer: 4, light_index: 9, face: 0 },
    ];
    // light 0 point, light 1 spot, light 2 sun
    let types = vec![0, 2, 1];
    let plan = plan_shadow_cameras(10, &assignments, &types);
    assert_eq!(
        plan,
        vec![
            ShadowCameraUpdate { target: 0, light_index: 0, camera: ShadowCamera::PointFace(0) },
            ShadowCameraUpdate { target: 1, light_index: 0, camera: ShadowCamera::PointFace(1) },
            ShadowCameraUpdate { target: 2, light_index: 1, camera: ShadowCamera::Spot },
        ]
    );
    // fewer render targets than assignments: only the first ones
    let short = plan_shadow_cameras(1, &assignments, &types);
    assert_eq!(short.len(), 1);
}

#[test]
fn light_uploads_never_empty() {
    assert_eq!(uploaded_light_count(0), 1);
    assert_eq!(uploaded_light_count(5), 5);
    assert!(light_buffer_too_small(3, 96, 200));
    assert!(!light_buffer_too_small(2, 96, 192));
}

#[test]
fn debug_gizmos_per_light_kind() {
    assert_eq!(plan_debug_lights(&vec![0, 1, 5, 2]), vec![(0, 6), (1, 9), (3, 9)]);
}

#[test]
fn cube_faces_clamp_to_six() {
    assert_eq!(cube_face_index(0), 0);
    assert_eq!(cube_face_index(5), 5);
    assert_eq!(cube_face_index(9), 5);
}

#[test]
fn owners_keep_their_places() {
    let mut reg: LightRegistry<u32> = LightRegistry::new();
    reg.add_proxy(5, 50);
    reg.add_proxy(7, 70);
    reg.add_proxy(5, 51);
    assert_eq!(reg.position_of(5), Some(0));
    assert_eq!(reg.position_of(7), Some(1));
    reg.add_proxy(9, 90);
    assert_eq!(reg.position_of(9), Some(2));
    assert_eq!(reg.position_of(5), Some(0));
    assert_eq!(reg.position_of(7), Some(1));
}
