use syrillian_engine::shadergen::compiler::MaterialCompiler;
use syrillian_engine::shadergen::function::PbrShader;
use syrillian_engine::shadergen::generator::MeshPass;

#[test]
fn recompiles_with_rebound_inputs() {
    let mut pbr = PbrShader::default();

    let compiled = MaterialCompiler::compile_mesh(&mut pbr, 0, MeshPass::Base).unwrap();
    let recompiled = MaterialCompiler::compile_mesh(&mut pbr, 0, MeshPass::Base).unwrap();

    assert!(!compiled.is_empty());
    assert_eq!(compiled, recompiled);
}

#[test]
fn pbr_mesh_shader_is_stable_across_rebinding() {
    let mut pbr = PbrShader::default();
    let first = MaterialCompiler::compile_mesh(&mut pbr, 0, MeshPass::Base).unwrap();
    let second = MaterialCompiler::compile_mesh(&mut pbr, 0, MeshPass::Base).unwrap();
    assert_eq!(first, second);
    let via_fresh = MaterialCompiler::compile_mesh(&mut PbrShader::default(), 0, MeshPass::Base).unwrap();
    assert_eq!(first, via_fresh);
    assert!(first.contains("pbr_fragment("));
    let shadow = MaterialCompiler::compile_mesh(&mut pbr, 0, MeshPass::Shadow).unwrap();
    assert!(shadow.contains("pbr_fragment("));
}

#[test]
fn pbr_shader_with_a_pin_bound_to_a_node() {
    let mut pbr = PbrShader::default();
    pbr.metallic = syrillian_engine::shadergen::function::ExpressionInput::bound(0, 0);
    let shader = MaterialCompiler::compile_mesh(&mut pbr, 0, MeshPass::Base).unwrap();
    assert!(shader.contains("pbr_fragment(in, _pv16, _pv18, _pv17, material.diffuse, "));
    let again = MaterialCompiler::compile_mesh(&mut pbr, 0, MeshPass::Base).unwrap();
    assert_eq!(shader, again);
}
