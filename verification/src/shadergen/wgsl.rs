//! The fixed WGSL blocks that generated shaders are assembled from:
//! binding groups, vertex stages and shared helper functions.
use vstd::prelude::*;

verus! {

/// Shared math helpers.
pub const MATH_HELPERS: &'static str = "const PI: f32 = 3.14159265359;

fn safe_normalize(v: vec3f) -> vec3f {
    let len_sq = dot(v, v);
    if (len_sq <= 1e-12) {
        return vec3f(0.0, 0.0, 1.0);
    }
    return v * inverseSqrt(len_sq);
}

fn saturate(x: f32) -> f32 {
    return clamp(x, 0.0, 1.0);
}
";

/// Group 0: camera and system data shared by every pass.
pub const RENDER_GROUP: &'static str = "struct CameraData {
    position: vec3f,
    fov: f32,
    view_mat: mat4x4f,
    projection_mat: mat4x4f,
    proj_view_mat: mat4x4f,
    inv_proj_view_mat: mat4x4f,
    near: f32,
    far: f32,
    fov_target: f32,
    zoom_speed: f32,
};

struct SystemData {
    screen_size: vec2u,
    time: f32,
    delta_time: f32,
};

@group(0) @binding(0) var<uniform> camera: CameraData;
@group(0) @binding(1) var<uniform> system: SystemData;
";

/// Vertex layout and stage interface of 3D meshes.
pub const MESH3D_GROUP: &'static str = "struct VInput {
    @location(0) position: vec3f,
    @location(1) uv: vec2f,
    @location(2) normal: vec3f,
    @location(3) tangent: vec3f,
    @location(4) bitangent: vec3f,
    @location(5) bone_indices: vec4u,
    @location(6) bone_weights: vec4f,
};

struct FInput {
    @builtin(position) clip_position: vec4f,
    @location(0) uv: vec2f,
    @location(1) position: vec3f,
    @location(2) normal: vec3f,
    @location(3) tangent: vec3f,
    @location(4) bitangent: vec3f,
};
";

/// Group 1: the model transform of the drawn object.
pub const MODEL_GROUP: &'static str = "struct ModelData {
    transform: mat4x4f,
    normal_mat: mat4x4f,
};

@group(1) @binding(0) var<uniform> model: ModelData;
";

/// Group 2: the default material parameters.
pub const MATERIAL_GROUP: &'static str = "struct Material {
    diffuse: vec3f,
    roughness: f32,
    metallic: f32,
    alpha: f32,
    use_diffuse_texture: u32,
    use_normal_texture: u32,
    use_roughness_texture: u32,
    lit: u32,
    cast_shadows: u32,
    grayscale_diffuse: u32,
};

var<immediate> material: Material;
";

/// Group 2: the default material textures and samplers.
pub const MATERIAL_TEXTURES_GROUP: &'static str = "@group(2) @binding(0) var t_diffuse: texture_2d<f32>;
@group(2) @binding(1) var s_diffuse: sampler;
@group(2) @binding(2) var t_normal: texture_2d<f32>;
@group(2) @binding(3) var s_normal: sampler;
@group(2) @binding(4) var t_roughness: texture_2d<f32>;
@group(2) @binding(5) var s_roughness: sampler;
";

/// Group 3: lights and shadow maps.
pub const LIGHT_GROUP: &'static str = "struct Light {
    position: vec3f,
    up: vec3f,
    radius: f32,
    direction: vec3f,
    range: f32,
    color: vec3f,
    intensity: f32,
    inner_angle: f32,
    outer_angle: f32,
    cos_inner: f32,
    cos_outer: f32,
    type_id: u32,
    shadow_map_id: u32,
    shadow_mat_base: u32,
};

@group(3) @binding(0) var<uniform> light_count: u32;
@group(3) @binding(1) var<storage, read> lights: array<Light>;
@group(4) @binding(0) var shadow_maps: texture_depth_2d_array;
@group(4) @binding(1) var shadow_sampler: sampler_comparison;
";

/// Group 1 of post-process passes: the input colour and the G-buffer.
pub const POST_PROCESS_GROUP: &'static str = "@group(1) @binding(0) var postTexture: texture_2d<f32>;
@group(1) @binding(1) var postSampler: sampler;
@group(1) @binding(2) var postDepth: texture_depth_2d;
@group(1) @binding(3) var postNormal: texture_2d<f32>;
@group(1) @binding(4) var postMaterial: texture_2d<f32>;

fn post_color_grade(color: vec4f) -> vec4f {
    return vec4f(clamp(color.rgb, vec3f(0.0), vec3f(1.0)), color.a);
}
";

/// Full-screen quad vertex stage of post-process passes.
pub const POST_PROCESS_VERTEX: &'static str = "struct FInput {
    @builtin(position) position: vec4f,
    @location(0) uv: vec2f,
};

@vertex
fn vs_main(@builtin(vertex_index) vertex_index: u32) -> FInput {
    var corners = array<vec2f, 6>(
        vec2f(-1.0, -1.0),
        vec2f(1.0, -1.0),
        vec2f(-1.0, 1.0),
        vec2f(-1.0, 1.0),
        vec2f(1.0, -1.0),
        vec2f(1.0, 1.0),
    );
    let corner = corners[vertex_index];
    var out: FInput;
    out.position = vec4f(corner, 0.0, 1.0);
    out.uv = vec2f(corner.x * 0.5 + 0.5, 0.5 - corner.y * 0.5);
    return out;
}
";

/// Vertex stage of 3D meshes.
pub const MESH3D_VERTEX: &'static str = "@vertex
fn vs_main(in: VInput) -> FInput {
    let world = model.transform * vec4f(in.position, 1.0);
    var out: FInput;
    out.clip_position = camera.proj_view_mat * world;
    out.uv = in.uv;
    out.position = world.xyz;
    out.normal = safe_normalize((model.normal_mat * vec4f(in.normal, 0.0)).xyz);
    out.tangent = safe_normalize((model.normal_mat * vec4f(in.tangent, 0.0)).xyz);
    out.bitangent = safe_normalize((model.normal_mat * vec4f(in.bitangent, 0.0)).xyz);
    return out;
}
";

/// Physically based shading of 3D meshes.
pub const MESH3D_PBR: &'static str = "struct FOutput {
    @location(0) color: vec4f,
    @location(1) normal: vec2f,
    @location(2) material: vec4f,
};

fn normal_from_map(tex: texture_2d<f32>, samp: sampler, uv: vec2f, normal: vec3f, tangent: vec3f, bitangent: vec3f) -> vec3f {
    let local = textureSample(tex, samp, uv).xyz * 2.0 - vec3f(1.0);
    let tbn = mat3x3f(safe_normalize(tangent), safe_normalize(bitangent), safe_normalize(normal));
    return safe_normalize(tbn * local);
}

fn encode_normal(n: vec3f) -> vec2f {
    return n.xy * (1.0 / (abs(n.z) + 1.0));
}

fn pbr_fragment(in: FInput, base_rgba: vec4f, normal: vec3f, roughness: f32, metallic: f32, alpha: f32, lit: u32, cast_shadows: u32, grayscale: u32) -> FOutput {
    var base = base_rgba.rgb;
    if (grayscale != 0u) {
        base = vec3f(base.r);
    }
    var color = base;
    if (lit != 0u) {
        var light_sum = vec3f(0.03) * base;
        for (var i = 0u; i < light_count; i = i + 1u) {
            let l = lights[i];
            let to_light = safe_normalize(l.position - in.position);
            let n_dot_l = max(dot(normal, to_light), 0.0);
            let spec = pow(max(dot(normal, to_light), 0.0), mix(64.0, 4.0, saturate(roughness)));
            let diffuse = base * (1.0 - metallic) * n_dot_l;
            light_sum = light_sum + (diffuse + vec3f(spec) * mix(vec3f(0.04), base, metallic)) * l.color * (l.intensity / 1000.0);
        }
        color = light_sum;
    }
    var out: FOutput;
    out.color = vec4f(color, base_rgba.a * alpha);
    out.normal = encode_normal(normal);
    out.material = vec4f(roughness, metallic, f32(lit), f32(cast_shadows));
    return out;
}
";

} // verus!
