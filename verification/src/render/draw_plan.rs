//! Which material ranges of a mesh are drawn in a render pass, with which
//! shader, and when the shader has to be switched; and which bind slots a
//! material's textures take.
use vstd::prelude::*;

verus! {

/// The data of a mesh on the GPU: its model data and the uniform it is
/// bound through.
pub struct RuntimeMeshData<D, U> {
    pub mesh_data: D,
    pub uniform: U,
}

/// Why a material could not be prepared for drawing.
#[derive(Debug, Copy, Clone, PartialEq, Eq, Structural)]
pub enum MaterialError {
    MaterialNotFound,
    DeviceNotInitialized,
    QueueNotInitialized,
}

/// The kinds of render pass a scene proxy draws in.
#[derive(Debug, Copy, Clone, PartialEq, Eq, Structural)]
pub enum RenderPassType {
    Color,
    Color2D,
    Shadow,
    Picking,
    PickingUi,
}

/// The shaders of one material variant, by shader handle id.
#[derive(Debug, Copy, Clone, PartialEq, Eq, Structural)]
pub struct ShaderSetIds {
    pub base: u64,
    pub picking: u64,
    pub shadow: u64,
}

/// What drawing needs of an uploaded material.
#[derive(Debug, Copy, Clone, PartialEq, Eq, Structural)]
pub struct DrawMaterial {
    pub shader_unskinned: ShaderSetIds,
    pub shader_skinned: ShaderSetIds,
    pub transparent: bool,
    pub cast_shadows: bool,
}

/// One material range to draw: the range index, its points, which
/// material slot it uses (`None` for the fallback material), the shader,
/// and whether that shader has to be activated first.
#[derive(Debug, Copy, Clone, PartialEq, Eq, Structural)]
pub struct MaterialDrawStep {
    pub range_index: usize,
    pub start: u32,
    pub end: u32,
    pub material: Option<usize>,
    pub shader: u64,
    pub activate: bool,
}

/// The shader a material uses in a pass.
pub open spec fn target_shader(m: DrawMaterial, skinned: bool, pass: RenderPassType) -> u64 {
    let set = if skinned {
        m.shader_skinned
    } else {
        m.shader_unskinned
    };
    match pass {
        RenderPassType::Picking | RenderPassType::PickingUi => set.picking,
        RenderPassType::Shadow => set.shadow,
        RenderPassType::Color | RenderPassType::Color2D => set.base,
    }
}

/// Whether a material is left out of a pass: in the colour pass when its
/// transparency differs from the pass's; in the shadow pass when it casts
/// no shadow or is transparent.
pub open spec fn skipped_in(m: DrawMaterial, pass: RenderPassType, transparency_pass: bool) -> bool {
    ||| (pass == RenderPassType::Color && m.transparent != transparency_pass)
    ||| (pass == RenderPassType::Shadow && (!m.cast_shadows || m.transparent))
}

/// The ranges drawn: the given ones, or the whole mesh when none are given.
pub open spec fn effective_ranges(ranges: Seq<(u32, u32)>, total_points: u32) -> Seq<(u32, u32)> {
    if ranges.len() == 0 {
        seq![(0u32, total_points)]
    } else {
        ranges
    }
}

/// The material of range `i`: its own slot, or the fallback past the end.
pub open spec fn material_of(materials: Seq<DrawMaterial>, fallback: DrawMaterial, i: int) -> DrawMaterial {
    if i < materials.len() {
        materials[i]
    } else {
        fallback
    }
}

/// The draw steps over the first `n` ranges and the shader active after
/// them.
pub open spec fn material_steps(
    ranges: Seq<(u32, u32)>,
    materials: Seq<DrawMaterial>,
    fallback: DrawMaterial,
    skinned: bool,
    pass: RenderPassType,
    transparency_pass: bool,
    n: nat,
) -> (Seq<MaterialDrawStep>, Option<u64>)
    decreases n,
{
    if n == 0 || n > ranges.len() {
        (seq![], None)
    } else {
        let prev = material_steps(ranges, materials, fallback, skinned, pass, transparency_pass, (n - 1) as nat);
        let i = n - 1;
        let m = material_of(materials, fallback, i);
        if skipped_in(m, pass, transparency_pass) {
            prev
        } else {
            let shader = target_shader(m, skinned, pass);
            let step = MaterialDrawStep {
                range_index: i as usize,
                start: ranges[i].0,
                end: ranges[i].1,
                material: if i < materials.len() {
                    Some(i as usize)
                } else {
                    None
                },
                shader,
                activate: prev.1 != Some(shader),
            };
            (prev.0.push(step), Some(shader))
        }
    }
}

fn shader_for(m: &DrawMaterial, skinned: bool, pass: RenderPassType) -> (r: u64)
    ensures
        r == target_shader(*m, skinned, pass),
{
    let set = if skinned {
        m.shader_skinned
    } else {
        m.shader_unskinned
    };
    match pass {
        RenderPassType::Picking | RenderPassType::PickingUi => set.picking,
        RenderPassType::Shadow => set.shadow,
        RenderPassType::Color | RenderPassType::Color2D => set.base,
    }
}

/// The draws of a mesh's material ranges in one pass. Range `i` uses
/// material slot `i`, or the fallback material when there are fewer
/// materials than ranges; with no ranges the whole mesh is one range. A
/// range whose material is left out of the pass is not drawn, and a
/// shader is activated only when it differs from the one drawn last.
pub fn plan_material_draws(
    ranges: &Vec<(u32, u32)>,
    total_points: u32,
    materials: &Vec<DrawMaterial>,
    fallback: DrawMaterial,
    skinned: bool,
    pass: RenderPassType,
    transparency_pass: bool,
) -> (r: Vec<MaterialDrawStep>)
    ensures
        r@ == material_steps(
            effective_ranges(ranges@, total_points),
            materials@,
            fallback,
            skinned,
            pass,
            transparency_pass,
            effective_ranges(ranges@, total_points).len(),
        ).0,
        forall|k: int|
            0 <= k < r@.len() ==> draws_its_range(
                #[trigger] r@[k],
                effective_ranges(ranges@, total_points),
                materials@,
                fallback,
                skinned,
                pass,
                transparency_pass,
            ),
        forall|k: int, l: int| 0 <= k < l < r@.len() ==> r@[k].range_index < r@[l].range_index,
{
    let mut used: Vec<(u32, u32)> = Vec::new();
    if ranges.len() == 0 {
        used.push((0, total_points));
    } else {
        let mut k: usize = 0;
        while k < ranges.len()
            invariant
                k <= ranges.len(),
                used@ =~= ranges@.take(k as int),
            decreases ranges.len() - k,
        {
            used.push(ranges[k]);
            k += 1;
        }
        assert(ranges@.take(ranges@.len() as int) =~= ranges@);
    }
    assert(used@ =~= effective_ranges(ranges@, total_points));
    let ghost eff = used@;
    let mut out: Vec<MaterialDrawStep> = Vec::new();
    let mut current: Option<u64> = None;
    let mut i: usize = 0;
    while i < used.len()
        invariant
            eff == used@,
            i <= used.len(),
            (out@, current) == material_steps(eff, materials@, fallback, skinned, pass, transparency_pass, i as nat),
        decreases used.len() - i,
    {
        let (slot, m) = if i < materials.len() {
            (Some(i), materials[i])
        } else {
            (None, fallback)
        };
        let transparent_mismatch = match pass {
            RenderPassType::Color => m.transparent != transparency_pass,
            _ => false,
        };
        let shadow_skip = match pass {
            RenderPassType::Shadow => !m.cast_shadows || m.transparent,
            _ => false,
        };
        if !transparent_mismatch && !shadow_skip {
            let shader = shader_for(&m, skinned, pass);
            let activate = match current {
                Some(c) => c != shader,
                None => true,
            };
            let (start, end) = used[i];
            out.push(MaterialDrawStep { range_index: i, start, end, material: slot, shader, activate });
            current = Some(shader);
        }
        i += 1;
    }
    proof {
        lemma_steps_draw_their_ranges(eff, materials@, fallback, skinned, pass, transparency_pass);
    }
    out
}

/// A shader is activated exactly when it differs from the one of the
/// previous draw: the first draw always activates, a later one only on a
/// change; and the shader left active is that of the last draw.
pub proof fn lemma_activation_on_change(
    ranges: Seq<(u32, u32)>,
    materials: Seq<DrawMaterial>,
    fallback: DrawMaterial,
    skinned: bool,
    pass: RenderPassType,
    transparency_pass: bool,
    n: nat,
)
    requires
        n <= ranges.len(),
        ranges.len() <= usize::MAX,
    ensures
        ({
            let r = material_steps(ranges, materials, fallback, skinned, pass, transparency_pass, n);
            &&& (r.0.len() > 0 ==> r.0[0].activate)
            &&& forall|k: int|
                0 < k < r.0.len() ==> (#[trigger] r.0[k]).activate == (r.0[k - 1].shader != r.0[k].shader)
            &&& (r.0.len() == 0 <==> r.1 is None)
            &&& (r.0.len() > 0 ==> r.1 == Some(r.0.last().shader))
            &&& forall|k: int| 0 < k < r.0.len() ==> r.0[k - 1].range_index < (#[trigger] r.0[k]).range_index
            &&& forall|k: int| 0 <= k < r.0.len() ==> (#[trigger] r.0[k]).range_index < n
        }),
    decreases n,
{
    if n > 0 {
        lemma_activation_on_change(ranges, materials, fallback, skinned, pass, transparency_pass, (n - 1) as nat);
        let prev = material_steps(ranges, materials, fallback, skinned, pass, transparency_pass, (n - 1) as nat);
        let r = material_steps(ranges, materials, fallback, skinned, pass, transparency_pass, n);
        let m = material_of(materials, fallback, n - 1);
        if !skipped_in(m, pass, transparency_pass) {
            let shader = target_shader(m, skinned, pass);
            assert(r.0 == prev.0.push(r.0.last()));
            assert(r.0.last().shader == shader);
            assert(r.0.last().range_index == (n - 1) as usize);
            assert(r.0.last().activate == (prev.1 != Some(shader)));
            assert forall|k: int| 0 < k < r.0.len() implies (#[trigger] r.0[k]).activate == (r.0[k - 1].shader
                != r.0[k].shader) by {
                if k < prev.0.len() {
                    assert(r.0[k] == prev.0[k] && r.0[k - 1] == prev.0[k - 1]);
                } else {
                    assert(r.0[k - 1] == prev.0.last());
                }
            }
            assert forall|k: int| 0 < k < r.0.len() implies r.0[k - 1].range_index < (
            #[trigger] r.0[k]).range_index by {
                if k < prev.0.len() {
                    assert(r.0[k] == prev.0[k] && r.0[k - 1] == prev.0[k - 1]);
                } else {
                    assert(r.0[k - 1] == prev.0[k - 1]);
                }
            }
            assert forall|k: int| 0 <= k < r.0.len() implies (#[trigger] r.0[k]).range_index < n by {
                if k < prev.0.len() {
                    assert(r.0[k] == prev.0[k]);
                }
            }
        } else {
            assert(r == prev);
        }
    }
}

/// The material range `i` draws with: material slot `i`, or the fallback
/// when there are fewer materials than ranges.
pub open spec fn range_material(materials: Seq<DrawMaterial>, fallback: DrawMaterial, i: int) -> DrawMaterial {
    if i < materials.len() {
        materials[i]
    } else {
        fallback
    }
}

/// Whether a material belongs in a pass: in the colour pass when its
/// transparency is the pass's, in the shadow pass when it is opaque and
/// casts shadows, in every other pass always.
pub open spec fn belongs_in(m: DrawMaterial, pass: RenderPassType, transparency_pass: bool) -> bool {
    &&& (pass == RenderPassType::Color ==> m.transparent == transparency_pass)
    &&& (pass == RenderPassType::Shadow ==> m.cast_shadows && !m.transparent)
}

/// The shader a material draws with in a pass: from its skinned or
/// unskinned set, the picking shader for picking, the shadow shader for
/// shadows, the base shader otherwise.
pub open spec fn pass_shader(m: DrawMaterial, skinned: bool, pass: RenderPassType) -> u64 {
    let set = if skinned {
        m.shader_skinned
    } else {
        m.shader_unskinned
    };
    if pass == RenderPassType::Picking || pass == RenderPassType::PickingUi {
        set.picking
    } else if pass == RenderPassType::Shadow {
        set.shadow
    } else {
        set.base
    }
}

/// `step` draws exactly the range it names, one of `ranges`, with that
/// range's material slot (none for the fallback) and that material's shader
/// for the pass, and that material belongs in the pass.
pub open spec fn draws_its_range(
    step: MaterialDrawStep,
    ranges: Seq<(u32, u32)>,
    materials: Seq<DrawMaterial>,
    fallback: DrawMaterial,
    skinned: bool,
    pass: RenderPassType,
    transparency_pass: bool,
) -> bool {
    let i = step.range_index as int;
    let m = range_material(materials, fallback, i);
    &&& 0 <= i < ranges.len()
    &&& step.start == ranges[i].0
    &&& step.end == ranges[i].1
    &&& step.material == if i < materials.len() {
        Some(i as usize)
    } else {
        None
    }
    &&& step.shader == pass_shader(m, skinned, pass)
    &&& belongs_in(m, pass, transparency_pass)
}

proof fn lemma_steps_each_draw_their_range(
    ranges: Seq<(u32, u32)>,
    materials: Seq<DrawMaterial>,
    fallback: DrawMaterial,
    skinned: bool,
    pass: RenderPassType,
    transparency_pass: bool,
    n: nat,
)
    requires
        n <= ranges.len(),
        ranges.len() <= usize::MAX,
    ensures
        forall|k: int|
            0 <= k < material_steps(ranges, materials, fallback, skinned, pass, transparency_pass, n).0.len()
                ==> draws_its_range(
                #[trigger] material_steps(ranges, materials, fallback, skinned, pass, transparency_pass, n).0[k],
                ranges,
                materials,
                fallback,
                skinned,
                pass,
                transparency_pass,
            ) && material_steps(ranges, materials, fallback, skinned, pass, transparency_pass, n).0[k].range_index
                < n,
    decreases n,
{
    if n > 0 {
        lemma_steps_each_draw_their_range(ranges, materials, fallback, skinned, pass, transparency_pass, (n - 1) as nat);
        let prev = material_steps(ranges, materials, fallback, skinned, pass, transparency_pass, (n - 1) as nat).0;
        let s = material_steps(ranges, materials, fallback, skinned, pass, transparency_pass, n).0;
        let m = material_of(materials, fallback, n - 1);
        assert(m == range_material(materials, fallback, n - 1));
        if !skipped_in(m, pass, transparency_pass) {
            assert(target_shader(m, skinned, pass) == pass_shader(m, skinned, pass));
            assert forall|k: int| 0 <= k < s.len() implies draws_its_range(
                #[trigger] s[k],
                ranges,
                materials,
                fallback,
                skinned,
                pass,
                transparency_pass,
            ) && s[k].range_index < n by {
                if k < prev.len() {
                    assert(s[k] == prev[k]);
                }
            }
        }
    }
}

proof fn lemma_steps_in_order(
    ranges: Seq<(u32, u32)>,
    materials: Seq<DrawMaterial>,
    fallback: DrawMaterial,
    skinned: bool,
    pass: RenderPassType,
    transparency_pass: bool,
    n: nat,
)
    requires
        n <= ranges.len(),
        ranges.len() <= usize::MAX,
    ensures
        forall|k: int, l: int|
            0 <= k < l < material_steps(ranges, materials, fallback, skinned, pass, transparency_pass, n).0.len()
                ==> #[trigger] material_steps(ranges, materials, fallback, skinned, pass, transparency_pass, n).0[k].range_index
                < #[trigger] material_steps(ranges, materials, fallback, skinned, pass, transparency_pass, n).0[l].range_index,
    decreases n,
{
    lemma_steps_each_draw_their_range(ranges, materials, fallback, skinned, pass, transparency_pass, n);
    if n > 0 {
        lemma_steps_in_order(ranges, materials, fallback, skinned, pass, transparency_pass, (n - 1) as nat);
        lemma_steps_each_draw_their_range(ranges, materials, fallback, skinned, pass, transparency_pass, (n - 1) as nat);
        let prev = material_steps(ranges, materials, fallback, skinned, pass, transparency_pass, (n - 1) as nat).0;
        let s = material_steps(ranges, materials, fallback, skinned, pass, transparency_pass, n).0;
        let m = material_of(materials, fallback, n - 1);
        if !skipped_in(m, pass, transparency_pass) {
            assert forall|k: int, l: int| 0 <= k < l < s.len() implies #[trigger] s[k].range_index
                < #[trigger] s[l].range_index by {
                assert(s[k] == prev[k]);
                if l < prev.len() {
                    assert(s[l] == prev[l]);
                } else {
                    assert(prev[k].range_index < n - 1);
                }
            }
        }
    }
}

proof fn lemma_steps_complete(
    ranges: Seq<(u32, u32)>,
    materials: Seq<DrawMaterial>,
    fallback: DrawMaterial,
    skinned: bool,
    pass: RenderPassType,
    transparency_pass: bool,
    n: nat,
)
    requires
        n <= ranges.len(),
        ranges.len() <= usize::MAX,
    ensures
        forall|i: int|
            0 <= i < n && belongs_in(#[trigger] range_material(materials, fallback, i), pass, transparency_pass)
                ==> exists|k: int|
                0 <= k < material_steps(ranges, materials, fallback, skinned, pass, transparency_pass, n).0.len()
                    && (#[trigger] material_steps(ranges, materials, fallback, skinned, pass, transparency_pass, n).0[k]).range_index
                    == i,
    decreases n,
{
    if n > 0 {
        lemma_steps_complete(ranges, materials, fallback, skinned, pass, transparency_pass, (n - 1) as nat);
        let prev = material_steps(ranges, materials, fallback, skinned, pass, transparency_pass, (n - 1) as nat).0;
        let s = material_steps(ranges, materials, fallback, skinned, pass, transparency_pass, n).0;
        let m = material_of(materials, fallback, n - 1);
        assert(m == range_material(materials, fallback, n - 1));
        assert(skipped_in(m, pass, transparency_pass) == !belongs_in(m, pass, transparency_pass));
        assert forall|i: int|
            0 <= i < n && belongs_in(#[trigger] range_material(materials, fallback, i), pass, transparency_pass)
                implies exists|k: int| 0 <= k < s.len() && (#[trigger] s[k]).range_index == i by {
            if i < n - 1 {
                let k = choose|k: int| 0 <= k < prev.len() && (#[trigger] prev[k]).range_index == i;
                if !skipped_in(m, pass, transparency_pass) {
                    assert(s[k] == prev[k]);
                }
            } else {
                assert(s[s.len() - 1].range_index == i);
            }
        }
    }
}

/// Every draw step draws exactly the range it names (see
/// [`draws_its_range`]): its own start and end, never past them; steps
/// come in range order; and every range whose material belongs in the pass
/// is drawn.
pub proof fn lemma_steps_draw_their_ranges(
    ranges: Seq<(u32, u32)>,
    materials: Seq<DrawMaterial>,
    fallback: DrawMaterial,
    skinned: bool,
    pass: RenderPassType,
    transparency_pass: bool,
)
    requires
        ranges.len() <= usize::MAX,
    ensures
        ({
            let s = material_steps(ranges, materials, fallback, skinned, pass, transparency_pass, ranges.len()).0;
            &&& forall|k: int|
                0 <= k < s.len() ==> draws_its_range(
                    #[trigger] s[k],
                    ranges,
                    materials,
                    fallback,
                    skinned,
                    pass,
                    transparency_pass,
                )
            &&& forall|k: int, l: int| 0 <= k < l < s.len() ==> s[k].range_index < s[l].range_index
            &&& forall|i: int|
                0 <= i < ranges.len() && belongs_in(
                    #[trigger] range_material(materials, fallback, i),
                    pass,
                    transparency_pass,
                ) ==> exists|k: int| 0 <= k < s.len() && (#[trigger] s[k]).range_index == i
        }),
{
    let n = ranges.len();
    lemma_steps_each_draw_their_range(ranges, materials, fallback, skinned, pass, transparency_pass, n);
    lemma_steps_in_order(ranges, materials, fallback, skinned, pass, transparency_pass, n);
    lemma_steps_complete(ranges, materials, fallback, skinned, pass, transparency_pass, n);
}

/// Whether any of the materials makes the mesh transparent.
pub open spec fn any_transparent(flags: Seq<bool>) -> bool {
    exists|i: int| 0 <= i < flags.len() && flags[i]
}

/// Whether a mesh draws with the transparent objects: one of its
/// materials is transparent.
pub fn is_transparent_mesh(material_transparency: &Vec<bool>) -> (r: bool)
    ensures
        r == any_transparent(material_transparency@),
{
    let mut i: usize = 0;
    while i < material_transparency.len()
        invariant
            i <= material_transparency.len(),
            forall|k: int| 0 <= k < i ==> !material_transparency@[k],
        decreases material_transparency.len() - i,
    {
        if material_transparency[i] {
            return true;
        }
        i += 1;
    }
    false
}

/// A material value as the instance sets it, else the material's default
/// of that type, else `fallback`.
pub fn resolve_bool(instance_value: Option<bool>, default_value: Option<bool>, fallback: bool) -> (r: bool)
    ensures
        r == match instance_value {
            Some(v) => v,
            None => match default_value {
                Some(d) => d,
                None => fallback,
            },
        },
{
    match instance_value {
        Some(v) => v,
        None => match default_value {
            Some(d) => d,
            None => fallback,
        },
    }
}

/// Whether a material instance is transparent: its alpha is below one, it
/// is flagged transparent, or its diffuse texture has transparency.
pub fn instance_transparency(alpha_below_one: bool, has_transparency: bool, diffuse_has_transparency: bool) -> (r:
    bool)
    ensures
        r == (alpha_below_one || has_transparency || diffuse_has_transparency),
{
    alpha_below_one || has_transparency || diffuse_has_transparency
}

/// What a bind-group entry of a material binds.
#[derive(Debug, Copy, Clone, PartialEq, Eq, Structural)]
pub enum MaterialBinding {
    TextureView(usize),
    Sampler(usize),
}

/// The bind-group entries of a material with `textures` textures: each
/// texture takes two consecutive bindings, its view and then its sampler.
pub open spec fn material_bindings_spec(textures: nat) -> Seq<(u32, MaterialBinding)> {
    Seq::new(
        2 * textures,
        |b: int|
            (b as u32, if b % 2 == 0 {
                MaterialBinding::TextureView((b / 2) as usize)
            } else {
                MaterialBinding::Sampler((b / 2) as usize)
            }),
    )
}

/// The bind-group entries of a material's textures, in binding order.
pub fn material_bindings(textures: usize) -> (r: Vec<(u32, MaterialBinding)>)
    requires
        2 * textures <= u32::MAX,
    ensures
        r@ == material_bindings_spec(textures as nat),
{
    let mut out: Vec<(u32, MaterialBinding)> = Vec::new();
    let mut binding: u32 = 0;
    let mut t: usize = 0;
    while t < textures
        invariant
            2 * textures <= u32::MAX,
            t <= textures,
            binding == 2 * t,
            out@ =~= material_bindings_spec(t as nat),
        decreases textures - t,
    {
        let ghost prev = out@;
        out.push((binding, MaterialBinding::TextureView(t)));
        binding += 1;
        out.push((binding, MaterialBinding::Sampler(t)));
        binding += 1;
        proof {
            assert forall|b: int| 0 <= b < 2 * (t + 1) implies #[trigger] out@[b] == material_bindings_spec(
                (t + 1) as nat,
            )[b] by {
                if b < 2 * t {
                    assert(out@[b] == prev[b]);
                }
            }
        }
        t += 1;
    }
    out
}

/// The name of the flag that tells a material shader whether the texture
/// `name` is set: `use_<name>_texture`.
pub fn use_texture_flag(name: &str) -> (r: String)
    ensures
        r@ == seq!['u', 's', 'e', '_'] + name@ + seq!['_', 't', 'e', 'x', 't', 'u', 'r', 'e'],
{
    proof {
        reveal_strlit("use_");
        reveal_strlit("_texture");
    }
    let mut out = String::new();
    out.append("use_");
    out.append(name);
    out.append("_texture");
    out
}

} // verus!
