//! Assembly of complete WGSL shader sources from fixed binding groups,
//! helper functions and compiled fragment bodies.
use super::wgsl::{
    LIGHT_GROUP, MATERIAL_GROUP, MATERIAL_TEXTURES_GROUP, MATH_HELPERS, MESH3D_GROUP, MESH3D_PBR,
    MESH3D_VERTEX, MODEL_GROUP, POST_PROCESS_GROUP, POST_PROCESS_VERTEX, RENDER_GROUP,
};
use crate::text::{
    chars_of, contains, find, is_ws, line_ranges, lines_of, push_range, range_eq, trim, trim_range,
    find_exec, lines_of_ranges,
};
use vstd::prelude::*;
use vstd::string::StringExecFns;

verus! {

/// The render pass a mesh shader is generated for.
#[derive(Debug, Copy, Clone, PartialEq, Eq, Structural)]
pub enum MeshPass {
    Base,
    Picking,
    Shadow,
}

/// The three mesh shaders of a material.
pub struct MaterialShaderSetCode {
    pub base: String,
    pub picking: String,
    pub shadow: String,
}

/// How a shader source is completed before compilation.
#[derive(Debug, Copy, Clone, Eq, PartialEq, Structural)]
pub enum ShaderKind {
    Default,
    Custom,
    PostProcess,
    Compute,
}

/// Replacement material binding groups for [`ShaderGenerator::assemble_shader`].
#[derive(Debug, Copy, Clone)]
pub struct MaterialGroupOverrides<'a> {
    pub material: &'a str,
    pub material_textures: &'a str,
}

/// The fragment body of a compiled graph: statements, then the result.
pub struct ShaderCompilationOutput {
    pub lines: Vec<String>,
    pub result_expr: String,
}

/// Producer of complete shader sources.
pub struct ShaderGenerator;

// ---------------------------------------------------------------------------
// Fragment bodies
// ---------------------------------------------------------------------------

/// Each line indented by four spaces and ended with a newline.
pub open spec fn indent_lines(ls: Seq<Seq<char>>) -> Seq<char>
    decreases ls.len(),
{
    if ls.len() == 0 {
        seq![]
    } else {
        indent_lines(ls.drop_last()) + "    "@ + ls.last() + "\n"@
    }
}

/// The statements, each split into lines and indented.
pub open spec fn statements_text(stmts: Seq<Seq<char>>) -> Seq<char>
    decreases stmts.len(),
{
    if stmts.len() == 0 {
        seq![]
    } else {
        statements_text(stmts.drop_last()) + indent_lines(lines_of(stmts.last()))
    }
}

/// The body of a fragment function: the statements, then `return <result>;`.
pub open spec fn body_text(stmts: Seq<Seq<char>>, result: Seq<char>) -> Seq<char> {
    statements_text(stmts) + "    return "@ + result + ";\n"@
}

/// A fragment entry point returning `ret` with the given body.
pub open spec fn fragment_text(ret: Seq<char>, stmts: Seq<Seq<char>>, result: Seq<char>) -> Seq<
    char,
> {
    "@fragment\nfn fs_main(in: FInput) -> "@ + ret + " {\n"@ + body_text(stmts, result) + "}\n"@
}

/// The value a mesh fragment stage returns in `pass`.
pub open spec fn mesh_return_type(pass: MeshPass) -> Seq<char> {
    match pass {
        MeshPass::Picking => "@location(0) vec4f"@,
        _ => "FOutput"@,
    }
}

/// The directives a mesh shader of `pass` carries for later expansion.
pub open spec fn mesh_use_directives(pass: MeshPass) -> Seq<char> {
    match pass {
        MeshPass::Picking => seq![],
        _ => "#use material\n"@ + "#use material_textures\n"@ + "#use light\n"@,
    }
}

/// The declarations a mesh shader of `pass` carries before its vertex stage.
pub open spec fn mesh_pass_declarations(pass: MeshPass) -> Seq<char> {
    match pass {
        MeshPass::Picking => "struct PickColor {\n    color: vec4<f32>,\n};\n\n"@
            + "var<immediate> pick: PickColor;\n\n"@,
        _ => MESH3D_PBR@ + "\n"@,
    }
}

/// The complete mesh shader of `pass` with the given fragment body.
pub open spec fn mesh_shader_text(stmts: Seq<Seq<char>>, result: Seq<char>, pass: MeshPass) -> Seq<
    char,
> {
    MESH3D_GROUP@ + "\n"@ + RENDER_GROUP@ + "\n"@ + MODEL_GROUP@ + "\n"@ + mesh_use_directives(pass)
        + "\n"@ + mesh_pass_declarations(pass) + MESH3D_VERTEX@ + "\n"@ + fragment_text(
        mesh_return_type(pass),
        stmts,
        result,
    )
}

/// The fragment entry point of a post-process pass.
pub open spec fn post_process_fragment_text(stmts: Seq<Seq<char>>, result: Seq<char>) -> Seq<char> {
    fragment_text("@location(0) vec4f"@, stmts, result)
}

/// The complete post-process shader with the given fragment body.
pub open spec fn post_process_shader_text(stmts: Seq<Seq<char>>, result: Seq<char>) -> Seq<char> {
    POST_PROCESS_GROUP@ + "\n"@ + POST_PROCESS_VERTEX@ + "\n"@ + post_process_fragment_text(
        stmts,
        result,
    )
}

/// Appends the lines of `text`, each indented by four spaces and ended with a newline.
fn append_indented_lines(out: &mut String, text: &String)
    ensures
        final(out)@ == old(out)@ + indent_lines(lines_of(text@)),
{
    let chars = chars_of(text.as_str());
    let ranges = line_ranges(&chars);
    let ghost ls = lines_of(chars@);
    let mut k: usize = 0;
    while k < ranges.len()
        invariant
            chars@ == text@,
            ls == lines_of(chars@),
            crate::text::ranges_match(chars@, ranges@),
            k <= ranges.len(),
            out@ == old(out)@ + indent_lines(ls.take(k as int)),
        decreases ranges.len() - k,
    {
        let (a, b) = ranges[k];
        proof {
            assert(ranges@[k as int] == (a, b));
        }
        out.append("    ");
        push_range(out, &chars, a, b);
        out.append("\n");
        proof {
            assert(ls[k as int] == chars@.subrange(a as int, b as int));
            assert(ls.take(k + 1).drop_last() =~= ls.take(k as int));
        }
        k += 1;
    }
    assert(ls.take(k as int) =~= ls);
}

/// Appends the fragment body of `compiled`.
pub fn append_compilation_output(out: &mut String, compiled: &ShaderCompilationOutput)
    ensures
        final(out)@ == old(out)@ + body_text(
            compiled.lines.deep_view(),
            compiled.result_expr@,
        ),
{
    let ghost stmts = compiled.lines.deep_view();
    let mut k: usize = 0;
    while k < compiled.lines.len()
        invariant
            stmts == compiled.lines.deep_view(),
            k <= compiled.lines.len(),
            out@ == old(out)@ + statements_text(stmts.take(k as int)),
        decreases compiled.lines.len() - k,
    {
        append_indented_lines(out, &compiled.lines[k]);
        proof {
            assert(stmts.take(k + 1).drop_last() =~= stmts.take(k as int));
            assert(stmts.take(k + 1).last() == compiled.lines[k as int]@);
        }
        k += 1;
    }
    assert(stmts.take(k as int) =~= stmts);
    out.append("    return ");
    out.append(compiled.result_expr.as_str());
    out.append(";\n");
}

fn append_fragment(out: &mut String, ret: &str, compiled: &ShaderCompilationOutput)
    ensures
        final(out)@ == old(out)@ + fragment_text(
            ret@,
            compiled.lines.deep_view(),
            compiled.result_expr@,
        ),
{
    out.append("@fragment\nfn fs_main(in: FInput) -> ");
    out.append(ret);
    out.append(" {\n");
    append_compilation_output(out, compiled);
    out.append("}\n");
}

impl ShaderGenerator {
    /// The complete mesh shader of `pass` whose fragment stage runs `compiled`.
    pub fn build_mesh_shader(compiled: &ShaderCompilationOutput, pass: MeshPass) -> (r: String)
        ensures
            r@ == mesh_shader_text(compiled.lines.deep_view(), compiled.result_expr@, pass),
    {
        let mut out = String::new();
        out.append(MESH3D_GROUP);
        out.append("\n");
        out.append(RENDER_GROUP);
        out.append("\n");
        out.append(MODEL_GROUP);
        out.append("\n");
        match pass {
            MeshPass::Base | MeshPass::Shadow => {
                out.append("#use material\n");
                out.append("#use material_textures\n");
                out.append("#use light\n");
            },
            MeshPass::Picking => {},
        }
        out.append("\n");
        match pass {
            MeshPass::Base | MeshPass::Shadow => {
                out.append(MESH3D_PBR);
                out.append("\n");
            },
            MeshPass::Picking => {
                out.append("struct PickColor {\n    color: vec4<f32>,\n};\n\n");
                out.append("var<immediate> pick: PickColor;\n\n");
            },
        }
        out.append(MESH3D_VERTEX);
        out.append("\n");
        let ret = match pass {
            MeshPass::Picking => "@location(0) vec4f",
            MeshPass::Base | MeshPass::Shadow => "FOutput",
        };
        append_fragment(&mut out, ret, compiled);
        proof {
            assert(out@ =~= mesh_shader_text(compiled.lines.deep_view(), compiled.result_expr@, pass));
        }
        out
    }

    /// The complete post-process shader whose fragment stage runs `compiled`.
    pub fn build_post_process_shader(compiled: &ShaderCompilationOutput) -> (r: String)
        ensures
            r@ == post_process_shader_text(compiled.lines.deep_view(), compiled.result_expr@),
    {
        let mut out = String::new();
        out.append(POST_PROCESS_GROUP);
        out.append("\n");
        out.append(POST_PROCESS_VERTEX);
        out.append("\n");
        append_fragment(&mut out, "@location(0) vec4f", compiled);
        assert(out@ =~= post_process_shader_text(compiled.lines.deep_view(), compiled.result_expr@));
        out
    }

    /// The fragment entry point of a post-process pass running `compiled`.
    pub fn build_post_process_fragment(compiled: &ShaderCompilationOutput) -> (r: String)
        ensures
            r@ == post_process_fragment_text(compiled.lines.deep_view(), compiled.result_expr@),
    {
        let mut out = String::new();
        append_fragment(&mut out, "@location(0) vec4f", compiled);
        assert(out@ =~= post_process_fragment_text(compiled.lines.deep_view(), compiled.result_expr@));
        out
    }
}


// ---------------------------------------------------------------------------
// Assembly of shader sources
// ---------------------------------------------------------------------------

/// Which binding groups a source has already received.
#[derive(Debug, Clone, Copy, PartialEq, Eq, Structural)]
pub struct ImportedGroups {
    pub render: bool,
    pub model: bool,
    pub material: bool,
    pub material_textures: bool,
    pub light: bool,
    pub default_vertex: bool,
    pub post_process: bool,
}

impl ImportedGroups {
    pub fn none() -> (r: Self)
        ensures
            r == no_groups(),
    {
        Self {
            render: false,
            model: false,
            material: false,
            material_textures: false,
            light: false,
            default_vertex: false,
            post_process: false,
        }
    }
}

/// No group imported yet.
pub open spec fn no_groups() -> ImportedGroups {
    ImportedGroups {
        render: false,
        model: false,
        material: false,
        material_textures: false,
        light: false,
        default_vertex: false,
        post_process: false,
    }
}

/// How `#use` directives are expanded.
#[derive(Debug, Copy, Clone)]
pub struct UseDirectiveOptions<'a> {
    pub material_group: &'a str,
    pub material_textures_group: &'a str,
    pub copy_non_directive_lines: bool,
    pub allow_default_vertex: bool,
    pub append_newline_after_directive: bool,
}

/// `block`, unless it was already included.
pub open spec fn once(included: bool, block: Seq<char>) -> Seq<char> {
    if included {
        seq![]
    } else {
        block
    }
}

/// The text `#use <group>` expands to, and the groups imported afterwards.
pub open spec fn use_group_text(
    imp: ImportedGroups,
    group: Seq<char>,
    material: Seq<char>,
    material_textures: Seq<char>,
    allow_default_vertex: bool,
) -> (Seq<char>, ImportedGroups) {
    if group == "render"@ {
        (once(imp.render, RENDER_GROUP@), ImportedGroups { render: true, ..imp })
    } else if group == "model"@ {
        (once(imp.model, MODEL_GROUP@), ImportedGroups { model: true, ..imp })
    } else if group == "material"@ {
        (once(imp.material, material), ImportedGroups { material: true, ..imp })
    } else if group == "material_textures"@ {
        (
            once(imp.material_textures, material_textures),
            ImportedGroups { material_textures: true, ..imp },
        )
    } else if group == "light"@ || group == "shadow"@ {
        (once(imp.light, LIGHT_GROUP@), ImportedGroups { light: true, ..imp })
    } else if group == "post_process"@ {
        (once(imp.post_process, POST_PROCESS_GROUP@), ImportedGroups { post_process: true, ..imp })
    } else if group == "default_vertex"@ && allow_default_vertex {
        (
            once(imp.default_vertex, MESH3D_GROUP@ + "\n"@),
            ImportedGroups { default_vertex: true, ..imp },
        )
    } else {
        (seq![], imp)
    }
}

/// A group is expanded once: expanding the same directive again right
/// after gives nothing, and an import once made stays made.
pub proof fn lemma_use_group_once(
    imp: ImportedGroups,
    group: Seq<char>,
    material: Seq<char>,
    material_textures: Seq<char>,
    allow_default_vertex: bool,
)
    ensures
        ({
            let first = use_group_text(imp, group, material, material_textures, allow_default_vertex);
            let again = use_group_text(first.1, group, material, material_textures, allow_default_vertex);
            &&& again.0 == Seq::<char>::empty()
            &&& again.1 == first.1
            &&& (imp.render ==> first.1.render)
            &&& (imp.model ==> first.1.model)
            &&& (imp.material ==> first.1.material)
            &&& (imp.material_textures ==> first.1.material_textures)
            &&& (imp.light ==> first.1.light)
            &&& (imp.default_vertex ==> first.1.default_vertex)
            &&& (imp.post_process ==> first.1.post_process)
        }),
{
}

/// Which text each `#use` directive brings in the first time: `render` the
/// camera group, `model` the model group, `material` and
/// `material_textures` the material's own groups, `light` and `shadow`
/// (one group under two names) the light and shadow group, `post_process`
/// the post-process input group, and `default_vertex`, where allowed, the
/// default mesh input group; each marks its group imported. A name that is
/// no group brings nothing and marks nothing.
pub proof fn lemma_use_group_blocks(
    imp: ImportedGroups,
    material: Seq<char>,
    material_textures: Seq<char>,
    allow_default_vertex: bool,
    other: Seq<char>,
)
    ensures
        ({
            let u = |g: Seq<char>| use_group_text(imp, g, material, material_textures, allow_default_vertex);
            &&& !imp.render ==> u("render"@).0 == RENDER_GROUP@ && u("render"@).1.render
            &&& !imp.model ==> u("model"@).0 == MODEL_GROUP@ && u("model"@).1.model
            &&& !imp.material ==> u("material"@).0 == material && u("material"@).1.material
            &&& !imp.material_textures ==> u("material_textures"@).0 == material_textures && u(
                "material_textures"@,
            ).1.material_textures
            &&& !imp.light ==> u("light"@).0 == LIGHT_GROUP@ && u("light"@).1.light
            &&& u("shadow"@) == u("light"@)
            &&& !imp.post_process ==> u("post_process"@).0 == POST_PROCESS_GROUP@ && u("post_process"@).1.post_process
            &&& (allow_default_vertex && !imp.default_vertex) ==> u("default_vertex"@).0 == MESH3D_GROUP@ + "\n"@
                && u("default_vertex"@).1.default_vertex
            &&& !allow_default_vertex ==> u("default_vertex"@) == (Seq::<char>::empty(), imp)
            &&& (other != "render"@ && other != "model"@ && other != "material"@ && other != "material_textures"@
                && other != "light"@ && other != "shadow"@ && other != "post_process"@ && other != "default_vertex"@)
                ==> u(other) == (Seq::<char>::empty(), imp)
        }),
{
    reveal_strlit("render");
    reveal_strlit("model");
    reveal_strlit("material");
    reveal_strlit("material_textures");
    reveal_strlit("light");
    reveal_strlit("shadow");
    reveal_strlit("post_process");
    reveal_strlit("default_vertex");
    let names = seq![
        "render"@,
        "model"@,
        "material"@,
        "material_textures"@,
        "light"@,
        "shadow"@,
        "post_process"@,
        "default_vertex"@,
    ];
    assert forall|i: int, j: int| 0 <= i < j < 8 implies names[i] != names[j] by {
        assert(names[i][0] != names[j][0] || names[i].len() != names[j].len() || names[i][1] != names[j][1]
            || names[i][2] != names[j][2] || names[i][3] != names[j][3] || names[i][4] != names[j][4]
            || names[i][5] != names[j][5] || names[i][6] != names[j][6] || names[i][7] != names[j][7]
            || names[i][8] != names[j][8]);
    }
    assert(names[0] != names[1] && names[0] != names[2] && names[0] != names[3] && names[0] != names[4]);
    assert(names[1] != names[2] && names[1] != names[3] && names[1] != names[4] && names[2] != names[3]);
    assert(names[2] != names[4] && names[3] != names[4] && names[4] != names[5] && names[5] != names[6]);
    assert(names[0] != names[5] && names[1] != names[5] && names[2] != names[5] && names[3] != names[5]);
    assert(names[0] != names[6] && names[1] != names[6] && names[2] != names[6] && names[3] != names[6]);
    assert(names[4] != names[6] && names[0] != names[7] && names[1] != names[7] && names[2] != names[7]);
    assert(names[3] != names[7] && names[4] != names[7] && names[5] != names[7] && names[6] != names[7]);
}

/// The text one source line expands to: a `#use <group>` directive (the
/// group name trimmed) becomes its group, any other line is copied or
/// dropped.
pub open spec fn directive_line_text(
    line: Seq<char>,
    imp: ImportedGroups,
    material: Seq<char>,
    material_textures: Seq<char>,
    copy: bool,
    allow_default_vertex: bool,
    newline_after: bool,
) -> (Seq<char>, ImportedGroups) {
    match find(line, "#use "@) {
        None => (
            if copy {
                line + "\n"@
            } else {
                seq![]
            },
            imp,
        ),
        Some(i) => {
            let r = use_group_text(
                imp,
                trim(line.subrange(i + "#use "@.len(), line.len() as int)),
                material,
                material_textures,
                allow_default_vertex,
            );
            (
                r.0 + if newline_after {
                    "\n"@
                } else {
                    seq![]
                },
                r.1,
            )
        },
    }
}

/// The text a sequence of source lines expands to, and the groups
/// imported afterwards.
pub open spec fn expand_lines(
    lines: Seq<Seq<char>>,
    imp: ImportedGroups,
    material: Seq<char>,
    material_textures: Seq<char>,
    copy: bool,
    allow_default_vertex: bool,
    newline_after: bool,
) -> (Seq<char>, ImportedGroups)
    decreases lines.len(),
{
    if lines.len() == 0 {
        (seq![], imp)
    } else {
        let prev = expand_lines(
            lines.drop_last(),
            imp,
            material,
            material_textures,
            copy,
            allow_default_vertex,
            newline_after,
        );
        let step = directive_line_text(
            lines.last(),
            prev.1,
            material,
            material_textures,
            copy,
            allow_default_vertex,
            newline_after,
        );
        (prev.0 + step.0, step.1)
    }
}

/// Some line of `source` holds a `#use ` directive.
pub open spec fn has_use(source: Seq<char>) -> bool {
    exists|k: int| 0 <= k < lines_of(source).len() && contains(#[trigger] lines_of(source)[k], "#use "@)
}

/// What follows the shared helpers in a shader of `kind` around `source`.
pub open spec fn assembled_tail(
    source: Seq<char>,
    fragment_only: bool,
    kind: ShaderKind,
    depth_enabled: bool,
    material: Seq<char>,
    material_textures: Seq<char>,
) -> Seq<char> {
    match kind {
        ShaderKind::PostProcess => RENDER_GROUP@ + "\n"@ + POST_PROCESS_GROUP@ + "\n"@ + (
        if fragment_only {
            POST_PROCESS_VERTEX@ + "\n"@
        } else {
            seq![]
        }) + source,
        ShaderKind::Default => RENDER_GROUP@ + "\n"@ + MESH3D_GROUP@ + "\n"@ + "\n"@ + MODEL_GROUP@
            + "\n"@ + material + "\n"@ + material_textures + "\n"@ + (if depth_enabled {
            LIGHT_GROUP@ + "\n"@
        } else {
            seq![]
        }) + (if fragment_only {
            MESH3D_VERTEX@ + "\n"@
        } else {
            seq![]
        }) + source,
        ShaderKind::Custom => (if contains(source, "@group(0)"@) {
            seq![]
        } else {
            RENDER_GROUP@ + "\n"@
        }) + expand_lines(
            lines_of(source),
            ImportedGroups { render: true, ..no_groups() },
            material,
            material_textures,
            true,
            true,
            true,
        ).0 + (if fragment_only {
            MESH3D_VERTEX@ + "\n"@
        } else {
            seq![]
        }),
        ShaderKind::Compute => (if has_use(source) {
            expand_lines(lines_of(source), no_groups(), material, material_textures, true, false, false).0
        } else {
            source
        }) + "\n"@,
    }
}

/// The complete source of a shader of `kind` built around `source`.
pub open spec fn assembled_text(
    source: Seq<char>,
    fragment_only: bool,
    kind: ShaderKind,
    depth_enabled: bool,
    material: Seq<char>,
    material_textures: Seq<char>,
) -> Seq<char> {
    MATH_HELPERS@ + "\n"@ + assembled_tail(
        source,
        fragment_only,
        kind,
        depth_enabled,
        material,
        material_textures,
    )
}

/// The material groups of an override, or the default ones.
pub open spec fn material_groups_of(o: Option<MaterialGroupOverrides>) -> (Seq<char>, Seq<char>) {
    match o {
        Some(g) => (g.material@, g.material_textures@),
        None => (MATERIAL_GROUP@, MATERIAL_TEXTURES_GROUP@),
    }
}

fn push_default_mesh_groups(out: &mut String)
    ensures
        final(out)@ == old(out)@ + MESH3D_GROUP@ + "\n"@,
{
    out.append(MESH3D_GROUP);
    out.append("\n");
}

fn append_block_once(out: &mut String, is_included: &mut bool, block: &str)
    ensures
        final(out)@ == old(out)@ + once(*old(is_included), block@),
        *final(is_included),
{
    if *is_included {
        assert(out@ =~= old(out)@ + once(*old(is_included), block@));
        return;
    }
    out.append(block);
    *is_included = true;
}

/// Appends the expansion of `#use <group>`, the group name being
/// `line[a..b]`.
fn append_use_group(
    out: &mut String,
    imported: &mut ImportedGroups,
    line: &Vec<char>,
    a: usize,
    b: usize,
    material_group: &str,
    material_textures_group: &str,
    allow_default_vertex: bool,
)
    requires
        a <= b <= line.len(),
    ensures
        ({
            let r = use_group_text(
                *old(imported),
                line@.subrange(a as int, b as int),
                material_group@,
                material_textures_group@,
                allow_default_vertex,
            );
            final(out)@ == old(out)@ + r.0 && *final(imported) == r.1
        }),
{
    if range_eq(line, a, b, "render") {
        append_block_once(out, &mut imported.render, RENDER_GROUP);
    } else if range_eq(line, a, b, "model") {
        append_block_once(out, &mut imported.model, MODEL_GROUP);
    } else if range_eq(line, a, b, "material") {
        append_block_once(out, &mut imported.material, material_group);
    } else if range_eq(line, a, b, "material_textures") {
        append_block_once(out, &mut imported.material_textures, material_textures_group);
    } else if range_eq(line, a, b, "light") || range_eq(line, a, b, "shadow") {
        append_block_once(out, &mut imported.light, LIGHT_GROUP);
    } else if range_eq(line, a, b, "post_process") {
        append_block_once(out, &mut imported.post_process, POST_PROCESS_GROUP);
    } else if range_eq(line, a, b, "default_vertex") && allow_default_vertex {
        if !imported.default_vertex {
            push_default_mesh_groups(out);
            imported.default_vertex = true;
        } else {
            assert(out@ =~= old(out)@ + Seq::<char>::empty());
        }
    } else {
        assert(out@ =~= old(out)@ + Seq::<char>::empty());
    }
}

/// The characters `chars[a..b]` as a vector of their own.
fn sub_vec(chars: &Vec<char>, a: usize, b: usize) -> (v: Vec<char>)
    requires
        a <= b <= chars.len(),
    ensures
        v@ == chars@.subrange(a as int, b as int),
{
    let mut v: Vec<char> = Vec::new();
    let mut i = a;
    while i < b
        invariant
            a <= i <= b <= chars.len(),
            v@ == chars@.subrange(a as int, i as int),
        decreases b - i,
    {
        v.push(chars[i]);
        assert(chars@.subrange(a as int, i + 1) =~= chars@.subrange(a as int, i as int).push(
            chars@[i as int],
        ));
        i += 1;
    }
    v
}

/// Appends the expansion of every line of `source` (see [`expand_lines`]).
#[verifier::spinoff_prover]
#[verifier::rlimit(40)]
fn expand_use_directives(
    out: &mut String,
    source: &str,
    options: UseDirectiveOptions,
    imported: &mut ImportedGroups,
)
    ensures
        ({
            let r = expand_lines(
                lines_of(source@),
                *old(imported),
                options.material_group@,
                options.material_textures_group@,
                options.copy_non_directive_lines,
                options.allow_default_vertex,
                options.append_newline_after_directive,
            );
            final(out)@ == old(out)@ + r.0 && *final(imported) == r.1
        }),
{
    let chars = chars_of(source);
    let ranges = line_ranges(&chars);
    let pat = chars_of("#use ");
    let ghost ls = lines_of(chars@);
    let ghost mat = options.material_group@;
    let ghost mattex = options.material_textures_group@;
    let ghost copy = options.copy_non_directive_lines;
    let ghost allow = options.allow_default_vertex;
    let ghost nl = options.append_newline_after_directive;
    let ghost imp0 = *imported;
    let mut k: usize = 0;
    while k < ranges.len()
        invariant
            chars@ == source@,
            ls == lines_of(chars@),
            pat@ == "#use "@,
            crate::text::ranges_match(chars@, ranges@),
            k <= ranges.len(),
            mat == options.material_group@,
            mattex == options.material_textures_group@,
            copy == options.copy_non_directive_lines,
            allow == options.allow_default_vertex,
            nl == options.append_newline_after_directive,
            ({
                let r = expand_lines(ls.take(k as int), imp0, mat, mattex, copy, allow, nl);
                out@ == old(out)@ + r.0 && *imported == r.1
            }),
        decreases ranges.len() - k,
    {
        let (a, b) = ranges[k];
        proof {
            assert(ranges@[k as int] == (a, b));
            assert(ls.take(k + 1).drop_last() =~= ls.take(k as int));
            assert(ls.take(k + 1).last() == ls[k as int]);
        }
        let line = sub_vec(&chars, a, b);
        let ghost before = out@;
        match find_exec(&line, &pat, 0) {
            None => {
                if options.copy_non_directive_lines {
                    push_range(out, &chars, a, b);
                    out.append("\n");
                } else {
                    assert(out@ =~= before + Seq::<char>::empty());
                }
            },
            Some(i) => {
                proof {
                    crate::text::lemma_find_from_some(line@, pat@, 0);
                }
                let (ga, gb) = trim_range(&line, i + pat.len(), line.len());
                append_use_group(
                    out,
                    imported,
                    &line,
                    ga,
                    gb,
                    options.material_group,
                    options.material_textures_group,
                    options.allow_default_vertex,
                );
                if options.append_newline_after_directive {
                    out.append("\n");
                } else {
                    assert(out@ =~= out@ + Seq::<char>::empty());
                }
            },
        }
        k += 1;
    }
    assert(ls.take(k as int) =~= ls);
}

/// Whether some line of `source` holds a `#use ` directive.
fn has_use_directive(source: &str) -> (b: bool)
    ensures
        b == has_use(source@),
{
    let chars = chars_of(source);
    let ranges = line_ranges(&chars);
    let pat = chars_of("#use ");
    let mut k: usize = 0;
    while k < ranges.len()
        invariant
            chars@ == source@,
            pat@ == "#use "@,
            crate::text::ranges_match(chars@, ranges@),
            k <= ranges.len(),
            forall|j: int| 0 <= j < k ==> !contains(#[trigger] lines_of(chars@)[j], "#use "@),
        decreases ranges.len() - k,
    {
        let (a, b) = ranges[k];
        proof {
            assert(ranges@[k as int] == (a, b));
        }
        let line = sub_vec(&chars, a, b);
        if find_exec(&line, &pat, 0).is_some() {
            assert(contains(lines_of(chars@)[k as int], "#use "@));
            return true;
        }
        k += 1;
    }
    false
}

fn append_post_process_tail(out: &mut String, source: &str, fragment_only: bool)
    ensures
        final(out)@ == old(out)@ + assembled_tail(
            source@,
            fragment_only,
            ShaderKind::PostProcess,
            false,
            seq![],
            seq![],
        ),
{
    out.append(RENDER_GROUP);
    out.append("\n");
    out.append(POST_PROCESS_GROUP);
    out.append("\n");
    if fragment_only {
        out.append(POST_PROCESS_VERTEX);
        out.append("\n");
    }
    out.append(source);
    assert(out@ =~= old(out)@ + assembled_tail(source@, fragment_only, ShaderKind::PostProcess, false, seq![], seq![]));
}

fn append_default_tail(
    out: &mut String,
    source: &str,
    fragment_only: bool,
    depth_enabled: bool,
    material_group: &str,
    material_textures_group: &str,
)
    ensures
        final(out)@ == old(out)@ + assembled_tail(
            source@,
            fragment_only,
            ShaderKind::Default,
            depth_enabled,
            material_group@,
            material_textures_group@,
        ),
{
    out.append(RENDER_GROUP);
    out.append("\n");
    push_default_mesh_groups(out);
    out.append("\n");
    out.append(MODEL_GROUP);
    out.append("\n");
    out.append(material_group);
    out.append("\n");
    out.append(material_textures_group);
    out.append("\n");
    if depth_enabled {
        out.append(LIGHT_GROUP);
        out.append("\n");
    }
    if fragment_only {
        out.append(MESH3D_VERTEX);
        out.append("\n");
    }
    out.append(source);
    assert(out@ =~= old(out)@ + assembled_tail(source@, fragment_only, ShaderKind::Default, depth_enabled, material_group@, material_textures_group@));
}

fn append_custom_tail(
    out: &mut String,
    source: &str,
    fragment_only: bool,
    material_group: &str,
    material_textures_group: &str,
)
    ensures
        final(out)@ == old(out)@ + assembled_tail(
            source@,
            fragment_only,
            ShaderKind::Custom,
            false,
            material_group@,
            material_textures_group@,
        ),
{
    let mut imported = ImportedGroups::none();
    imported.render = crate::text::str_contains(source, "@group(0)");
    let ghost had_render = imported.render;
    if !imported.render {
        append_block_once(out, &mut imported.render, RENDER_GROUP);
        out.append("\n");
    }
    let ghost mid = out@;
    assert(mid =~= old(out)@ + (if had_render {
        Seq::<char>::empty()
    } else {
        RENDER_GROUP@ + "\n"@
    }));
    assert(imported == ImportedGroups { render: true, ..no_groups() });
    expand_use_directives(
        out,
        source,
        UseDirectiveOptions {
            material_group,
            material_textures_group,
            copy_non_directive_lines: true,
            allow_default_vertex: true,
            append_newline_after_directive: true,
        },
        &mut imported,
    );
    if fragment_only {
        out.append(MESH3D_VERTEX);
        out.append("\n");
    }
    assert(out@ =~= old(out)@ + assembled_tail(source@, fragment_only, ShaderKind::Custom, false, material_group@, material_textures_group@));
}

fn append_compute_tail(
    out: &mut String,
    source: &str,
    material_group: &str,
    material_textures_group: &str,
)
    ensures
        final(out)@ == old(out)@ + assembled_tail(
            source@,
            false,
            ShaderKind::Compute,
            false,
            material_group@,
            material_textures_group@,
        ),
{
    if has_use_directive(source) {
        let mut imported = ImportedGroups::none();
        expand_use_directives(
            out,
            source,
            UseDirectiveOptions {
                material_group,
                material_textures_group,
                copy_non_directive_lines: true,
                allow_default_vertex: false,
                append_newline_after_directive: false,
            },
            &mut imported,
        );
    } else {
        out.append(source);
    }
    out.append("\n");
    assert(out@ =~= old(out)@ + assembled_tail(source@, false, ShaderKind::Compute, false, material_group@, material_textures_group@));
}

impl ShaderGenerator {
    /// The complete source of a shader of `kind` around `source`: shared
    /// helpers first, then the binding groups and stages the kind needs
    /// (see [`assembled_text`]).
    pub fn assemble_shader(
        source: &str,
        fragment_only: bool,
        kind: ShaderKind,
        depth_enabled: bool,
        material_groups: Option<MaterialGroupOverrides>,
    ) -> (r: String)
        ensures
            r@ == assembled_text(
                source@,
                fragment_only,
                kind,
                depth_enabled,
                material_groups_of(material_groups).0,
                material_groups_of(material_groups).1,
            ),
    {
        let (material_group, material_textures_group) = match material_groups {
            Some(g) => (g.material, g.material_textures),
            None => (MATERIAL_GROUP, MATERIAL_TEXTURES_GROUP),
        };
        let mut out = String::new();
        out.append(MATH_HELPERS);
        out.append("\n");
        match kind {
            ShaderKind::PostProcess => append_post_process_tail(&mut out, source, fragment_only),
            ShaderKind::Default => append_default_tail(
                &mut out,
                source,
                fragment_only,
                depth_enabled,
                material_group,
                material_textures_group,
            ),
            ShaderKind::Custom => append_custom_tail(
                &mut out,
                source,
                fragment_only,
                material_group,
                material_textures_group,
            ),
            ShaderKind::Compute => append_compute_tail(
                &mut out,
                source,
                material_group,
                material_textures_group,
            ),
        }
        out
    }
}

/// See [`ShaderGenerator::assemble_shader`].
pub fn assemble_shader(
    source: &str,
    fragment_only: bool,
    kind: ShaderKind,
    depth_enabled: bool,
    material_groups: Option<MaterialGroupOverrides>,
) -> (r: String)
    ensures
        r@ == assembled_text(
            source@,
            fragment_only,
            kind,
            depth_enabled,
            material_groups_of(material_groups).0,
            material_groups_of(material_groups).1,
        ),
{
    ShaderGenerator::assemble_shader(source, fragment_only, kind, depth_enabled, material_groups)
}

/// A compute shader: `source` with its `#use` directives expanded.
pub fn assemble_compute_shader(source: &str) -> (r: String)
    ensures
        r@ == assembled_text(
            source@,
            false,
            ShaderKind::Compute,
            false,
            MATERIAL_GROUP@,
            MATERIAL_TEXTURES_GROUP@,
        ),
{
    ShaderGenerator::assemble_shader(source, false, ShaderKind::Compute, false, None)
}

} // verus!
