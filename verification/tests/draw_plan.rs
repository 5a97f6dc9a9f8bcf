use syrillian_engine::render::draw_plan::{
    instance_transparency, is_transparent_mesh, material_bindings, plan_material_draws, resolve_bool,
    use_texture_flag, DrawMaterial, MaterialBinding, MaterialDrawStep, MaterialError, RenderPassType, ShaderSetIds,
};

fn material(base: u64, transparent: bool, cast_shadows: bool) -> DrawMaterial {
    DrawMaterial {
        shader_unskinned: ShaderSetIds { base, picking: base + 100, shadow: base + 200 },
        shader_skinned: ShaderSetIds { base: base + 1000, picking: base + 1100, shadow: base + 1200 },
        transparent,
        cast_shadows,
    }
}

#[test]
fn whole_mesh_when_no_ranges() {
    let steps = plan_material_draws(&vec![], 36, &vec![material(1, false, true)], material(9, false, true), false, RenderPassType::Color, false);
    assert_eq!(
        steps,
        vec![MaterialDrawStep { range_index: 0, start: 0, end: 36, material: Some(0), shader: 1, activate: true }]
    );
}

#[test]
fn shader_switches_only_when_it_changes() {
    let ranges = vec![(0, 6), (6, 12), (12, 18)];
    let mats = vec![material(1, false, true), material(1, false, true), material(2, false, true)];
    let steps = plan_material_draws(&ranges, 18, &mats, material(9, false, true), false, RenderPassType::Color, false);
    let activations: Vec<bool> = steps.iter().map(|s| s.activate).collect();
    assert_eq!(activations, vec![true, false, true]);
}

#[test]
fn missing_materials_use_the_fallback() {
    let ranges = vec![(0, 3), (3, 6)];
    let steps = plan_material_draws(&ranges, 6, &vec![material(1, false, true)], material(9, false, true), false, RenderPassType::Color, false);
    assert_eq!(steps[1].material, None);
    assert_eq!(steps[1].shader, 9);
}

#[test]
fn transparency_and_shadow_passes_filter_materials() {
    let ranges = vec![(0, 3), (3, 6), (6, 9)];
    let mats = vec![material(1, false, true), material(2, true, true), material(3, false, false)];
    let opaque = plan_material_draws(&ranges, 9, &mats, material(9, false, true), false, RenderPassType::Color, false);
    assert_eq!(opaque.iter().map(|s| s.range_index).collect::<Vec<_>>(), vec![0, 2]);
    let transparent = plan_material_draws(&ranges, 9, &mats, material(9, false, true), false, RenderPassType::Color, true);
    assert_eq!(transparent.iter().map(|s| s.range_index).collect::<Vec<_>>(), vec![1]);
    let shadow = plan_material_draws(&ranges, 9, &mats, material(9, false, true), true, RenderPassType::Shadow, false);
    assert_eq!(shadow.len(), 1);
    assert_eq!(shadow[0].shader, 1200 + 1);
    let picking = plan_material_draws(&ranges, 9, &mats, material(9, false, true), false, RenderPassType::Picking, false);
    assert_eq!(picking.iter().map(|s| s.shader).collect::<Vec<_>>(), vec![101, 102, 103]);
}

#[test]
fn mesh_transparency() {
    assert!(!is_transparent_mesh(&vec![]));
    assert!(!is_transparent_mesh(&vec![false, false]));
    assert!(is_transparent_mesh(&vec![false, true]));
    assert!(instance_transparency(false, false, true));
    assert!(!instance_transparency(false, false, false));
}

#[test]
fn material_values_fall_back_in_order() {
    assert!(resolve_bool(Some(true), Some(false), false));
    assert!(!resolve_bool(None, Some(false), true));
    assert!(resolve_bool(None, None, true));
}

#[test]
fn texture_bindings_pair_views_and_samplers() {
    assert_eq!(
        material_bindings(2),
        vec![
            (0, MaterialBinding::TextureView(0)),
            (1, MaterialBinding::Sampler(0)),
            (2, MaterialBinding::TextureView(1)),
            (3, MaterialBinding::Sampler(1)),
        ]
    );
    assert!(material_bindings(0).is_empty());
}

#[test]
fn texture_flag_names() {
    assert_eq!(use_texture_flag("diffuse"), "use_diffuse_texture");
    assert_eq!(use_texture_flag(""), "use__texture");
}

#[test]
fn material_errors_are_distinct() {
    assert_ne!(MaterialError::MaterialNotFound, MaterialError::DeviceNotInitialized);
    assert_ne!(MaterialError::DeviceNotInitialized, MaterialError::QueueNotInitialized);
}
