use syrillian_engine::shadergen::chunks::NodeId;
use syrillian_engine::shadergen::compiler::PostProcessCompiler;
use syrillian_engine::shadergen::function::{MaterialExpressionValue, PostProcessMaterialExpression};
use syrillian_engine::shadergen::value::MaterialValueType;

struct MathTestMaterial;

impl PostProcessMaterialExpression for MathTestMaterial {
    fn outputs(&self) -> Vec<MaterialExpressionValue> {
        vec![MaterialExpressionValue {
            name: "color",
            value_type: MaterialValueType::Vec4,
        }]
    }

    fn compile(&self, compiler: &mut PostProcessCompiler, _output_index: u32) -> NodeId {
        let uv = compiler.vertex_uv();
        let (tex, sampler) = compiler.post_surface_input();
        let color = compiler.texture_sample(tex, sampler, uv);
        let factor = compiler.constant_f32(&0.5f32.to_string());
        compiler.mul(color, factor)
    }
}

#[test]
fn compiles_math_multiplication() {
    let material = MathTestMaterial;
    let wgsl = PostProcessCompiler::compile_post_process(&material, 0).unwrap();

    assert!(wgsl.contains("(_pv3 * _pv4)"));
}

#[test]
fn nodes_may_read_later_nodes() {
    let mut c = PostProcessCompiler::new();
    let product = c.mul(1, 2);
    c.constant_f32("2");
    c.constant_f32("3");
    let fragment = c.post_process_shader_for(product, true).unwrap();
    assert_eq!(
        fragment,
        "@fragment\nfn fs_main(in: FInput) -> @location(0) vec4f {\n    let _pv1: f32 = 2.0;\n    let _pv2: f32 = 3.0;\n    return (_pv1 * _pv2);\n}\n"
    );
}

#[test]
fn cycles_and_missing_nodes_are_refused() {
    let mut c = PostProcessCompiler::new();
    let looped = c.add(0, 0);
    assert_eq!(c.post_process_shader_for(looped, true), None);
    let mut d = PostProcessCompiler::new();
    let k = d.constant_f32("1");
    let dangling = d.add(7, 7);
    assert!(d.post_process_shader_for(k, true).is_some());
    assert_eq!(d.post_process_shader_for(dangling, true), None);
    assert_eq!(d.post_process_shader_for(9, true), None);
}
