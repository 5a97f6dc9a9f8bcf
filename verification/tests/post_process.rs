use syrillian_engine::shadergen::compiler::PostProcessCompiler;
use syrillian_engine::shadergen::function::PostProcessPassthroughMaterial;

#[test]
fn compiles_post_process_passthrough() {
    let material = PostProcessPassthroughMaterial;
    let wgsl = PostProcessCompiler::compile_post_process(&material, 0).unwrap();

    assert!(wgsl.contains("@vertex"));
    assert!(wgsl.contains("@fragment"));
    assert!(wgsl.contains("fn fs_main(in: FInput) -> @location(0) vec4f"));
    assert!(wgsl.contains("textureSample(postTexture, postSampler, in.uv)"));
}

#[test]
fn passthrough_fragment_entry_point() {
    let fragment = PostProcessCompiler::compile_post_process_fragment(&PostProcessPassthroughMaterial, 0).unwrap();
    assert_eq!(
        fragment,
        "@fragment\nfn fs_main(in: FInput) -> @location(0) vec4f {\n    let _pv3: vec4f = textureSample(postTexture, postSampler, in.uv);\n    return post_color_grade(_pv3);\n}\n"
    );
    let whole = PostProcessCompiler::compile_post_process(&PostProcessPassthroughMaterial, 0).unwrap();
    assert!(whole.ends_with(&fragment));
}
