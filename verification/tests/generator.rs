use syrillian_engine::shadergen::compiler::{MaterialCompiler, PostProcessCompiler};
use syrillian_engine::shadergen::function::{PbrShader, PostProcessPassthroughMaterial};
use syrillian_engine::shadergen::generator::{assemble_compute_shader, assemble_shader, ShaderKind};
use syrillian_engine::shadergen::wgsl::{MATH_HELPERS, RENDER_GROUP};

fn count(haystack: &str, needle: &str) -> usize {
    haystack.matches(needle).count()
}

#[test]
fn use_directives_import_each_group_once() {
    let src = "#use render\n#use render\n@compute @workgroup_size(8, 8, 1)\nfn main() {}";
    let out = assemble_compute_shader(src);
    assert!(out.starts_with(MATH_HELPERS));
    assert_eq!(count(&out, "struct CameraData"), 1);
    assert!(out.contains("fn main() {}"));
    assert!(!out.contains("#use"));
}

#[test]
fn compute_shader_without_directives_is_copied() {
    let src = "@compute @workgroup_size(1)\nfn main() {}";
    let out = assemble_compute_shader(src);
    assert!(out.ends_with("fn main() {}\n"));
    assert_eq!(count(&out, "struct CameraData"), 0);
}

#[test]
fn post_process_shader_carries_render_group() {
    let out = assemble_shader("fn fs_main() {}", false, ShaderKind::PostProcess, false, None);
    assert!(out.contains(RENDER_GROUP));
    assert!(out.ends_with("fn fs_main() {}"));
}

#[test]
fn shader_set_has_three_variants() {
    let mut pbr = PbrShader::default();
    let set = MaterialCompiler::compile_shader_set(&mut pbr).unwrap();
    assert!(set.base.contains("pbr_fragment("));
    assert!(set.picking.contains("return pick.color;"));
    assert!(!set.picking.contains("pbr_fragment("));
    assert_eq!(set.base, set.shadow);
    assert_eq!(set.picking, MaterialCompiler::compile_mesh_picking());
}

#[test]
fn post_process_fragment_only_has_the_fragment_stage() {
    let material = PostProcessPassthroughMaterial;
    let fragment = PostProcessCompiler::compile_post_process_fragment(&material, 0).unwrap();
    assert!(fragment.contains("@fragment"));
    assert!(!fragment.contains("@vertex"));
    assert!(fragment.contains("post_color_grade(_pv3)"));
}
