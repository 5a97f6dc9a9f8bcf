//! The nodes of a material graph, and the WGSL each node contributes:
//! an expression that names its value and, for some nodes, a statement
//! that computes it.
use super::topo::{acyclic_from, ranked, reads_ranked};
use crate::text::{chars_of, decimal, push_decimal};
use vstd::prelude::*;
use vstd::string::StringExecFns;

verus! {

/// Index of a node within a compiler's node list.
pub type NodeId = u32;

/// A reference to one output of a node.
#[derive(Clone, Copy, Debug, PartialEq, Eq, Structural)]
pub struct NodeExpressionInput {
    pub node: NodeId,
    pub output_index: u32,
}

impl NodeExpressionInput {
    pub fn new(node: NodeId, output_index: u32) -> (r: Self)
        ensures
            r.node == node,
            r.output_index == output_index,
    {
        Self { node, output_index }
    }

    pub fn node(self) -> (r: NodeId)
        ensures
            r == self.node,
    {
        self.node
    }

    /// The expression of the referenced node. WGSL emission reads output `0`
    /// of every node; a reference to another output, which stops the engine
    /// with a panic, is left out.
    pub fn expr(self, ctx: &EmitCtx) -> (r: String)
        requires
            acyclic_from(ctx.nodes@, self.node as int),
            self.output_index == 0,
        ensures
            r@ == expr_of(ctx.nodes@, self.node as int),
    {
        ctx.expr(self.node)
    }
}

/// Vertex texture coordinates of the current fragment.
#[derive(Clone, Copy, Debug, PartialEq, Eq)]
pub struct VertexUvNode;

/// A scalar or vector parameter of the material uniform.
#[derive(Clone, Debug)]
pub struct MaterialInputNode {
    pub name: String,
}

impl MaterialInputNode {
    pub fn new(name: &str) -> (r: Self)
        ensures
            r.name@ == name@,
    {
        Self { name: String::from_str(name) }
    }
}

/// A texture binding of the material.
#[derive(Clone, Debug)]
pub struct MaterialTextureNode {
    pub name: String,
}

impl MaterialTextureNode {
    pub fn new(name: &str) -> (r: Self)
        ensures
            r.name@ == name@,
    {
        Self { name: String::from_str(name) }
    }
}

/// A sampler binding of the material.
#[derive(Clone, Debug)]
pub struct MaterialSamplerNode {
    pub name: String,
}

impl MaterialSamplerNode {
    pub fn new(name: &str) -> (r: Self)
        ensures
            r.name@ == name@,
    {
        Self { name: String::from_str(name) }
    }
}

/// Base colour: the texture sample when the texture flag is set, else the colour.
#[derive(Clone, Copy, Debug)]
pub struct MaterialBaseColorNode {
    pub uv: NodeExpressionInput,
    pub color: NodeExpressionInput,
    pub use_texture: NodeExpressionInput,
    pub texture: NodeExpressionInput,
    pub sampler: NodeExpressionInput,
}

impl MaterialBaseColorNode {
    pub fn new(
        uv: NodeExpressionInput,
        color: NodeExpressionInput,
        use_texture: NodeExpressionInput,
        texture: NodeExpressionInput,
        sampler: NodeExpressionInput,
    ) -> (r: Self)
        ensures
            r == (Self { uv, color, use_texture, texture, sampler }),
    {
        Self { uv, color, use_texture, texture, sampler }
    }
}

/// Roughness: the green channel of the texture when its flag is set, else the scalar.
#[derive(Clone, Copy, Debug)]
pub struct MaterialRoughnessNode {
    pub uv: NodeExpressionInput,
    pub roughness: NodeExpressionInput,
    pub use_texture: NodeExpressionInput,
    pub texture: NodeExpressionInput,
    pub sampler: NodeExpressionInput,
}

impl MaterialRoughnessNode {
    pub fn new(
        uv: NodeExpressionInput,
        roughness: NodeExpressionInput,
        use_texture: NodeExpressionInput,
        texture: NodeExpressionInput,
        sampler: NodeExpressionInput,
    ) -> (r: Self)
        ensures
            r == (Self { uv, roughness, use_texture, texture, sampler }),
    {
        Self { uv, roughness, use_texture, texture, sampler }
    }
}

/// Surface normal: from the normal map when its flag is set, else the vertex normal.
#[derive(Clone, Copy, Debug)]
pub struct MaterialNormalNode {
    pub uv: NodeExpressionInput,
    pub use_texture: NodeExpressionInput,
    pub texture: NodeExpressionInput,
    pub sampler: NodeExpressionInput,
}

impl MaterialNormalNode {
    pub fn new(
        uv: NodeExpressionInput,
        use_texture: NodeExpressionInput,
        texture: NodeExpressionInput,
        sampler: NodeExpressionInput,
    ) -> (r: Self)
        ensures
            r == (Self { uv, use_texture, texture, sampler }),
    {
        Self { uv, use_texture, texture, sampler }
    }
}

/// The colour texture a post-process pass reads.
#[derive(Clone, Copy, Debug, PartialEq, Eq)]
pub struct PostSurfaceTextureNode;

/// The sampler a post-process pass reads its texture with.
#[derive(Clone, Copy, Debug, PartialEq, Eq)]
pub struct PostSurfaceSamplerNode;

/// A texture sample at texture coordinates.
#[derive(Clone, Copy, Debug)]
pub struct TextureSampleNode {
    pub texture: NodeId,
    pub sampler: NodeId,
    pub uv: NodeId,
}

impl TextureSampleNode {
    pub fn new(texture: NodeId, sampler: NodeId, uv: NodeId) -> (r: Self)
        ensures
            r == (Self { texture, sampler, uv }),
    {
        Self { texture, sampler, uv }
    }
}

/// A 32-bit float constant, held as the text that `Display` gives for it.
#[derive(Clone, Debug)]
pub struct ConstantF32Node {
    pub display: String,
}

impl ConstantF32Node {
    pub fn new(display: &str) -> (r: Self)
        ensures
            r.display@ == display@,
    {
        Self { display: String::from_str(display) }
    }
}

/// The physically based shading call that produces the fragment output.
#[derive(Clone, Copy, Debug)]
pub struct PbrShaderNode {
    pub base_rgba: NodeId,
    pub normal: NodeId,
    pub roughness: NodeId,
    pub metallic: NodeId,
    pub alpha: NodeId,
    pub lit: NodeId,
    pub cast_shadows: NodeId,
    pub grayscale: NodeId,
}

impl PbrShaderNode {
    pub fn new(
        base_rgba: NodeId,
        normal: NodeId,
        roughness: NodeId,
        metallic: NodeId,
        alpha: NodeId,
        lit: NodeId,
        cast_shadows: NodeId,
        grayscale: NodeId,
    ) -> (r: Self)
        ensures
            r == (Self {
                base_rgba,
                normal,
                roughness,
                metallic,
                alpha,
                lit,
                cast_shadows,
                grayscale,
            }),
    {
        Self { base_rgba, normal, roughness, metallic, alpha, lit, cast_shadows, grayscale }
    }
}

/// The colour that identifies an object in the picking pass.
#[derive(Clone, Copy, Debug, PartialEq, Eq)]
pub struct PickColorNode;

/// A binary arithmetic operator.
#[derive(Clone, Copy, Debug, PartialEq, Eq, Structural)]
pub enum MathOp {
    Add,
    Sub,
    Mul,
    Div,
}

/// A binary arithmetic expression of two nodes.
#[derive(Clone, Copy, Debug)]
pub struct MathNode {
    pub a: NodeId,
    pub b: NodeId,
    pub op: MathOp,
}

impl MathNode {
    pub fn new(a: NodeId, b: NodeId, op: MathOp) -> (r: Self)
        ensures
            r == (Self { a, b, op }),
    {
        Self { a, b, op }
    }
}

/// A call of a WGSL function with node arguments.
#[derive(Clone, Debug)]
pub struct FunctionCallNode {
    pub deps: Vec<NodeId>,
    pub name: String,
}

impl FunctionCallNode {
    pub fn new(name: &str, deps: Vec<NodeId>) -> (r: Self)
        ensures
            r.name@ == name@,
            r.deps@ == deps@,
    {
        Self { deps, name: String::from_str(name) }
    }
}

/// A component selection (`.x`, `.rgb`, ...) of a node.
#[derive(Clone, Debug)]
pub struct SwizzleNode {
    pub input: NodeId,
    pub component: String,
}

impl SwizzleNode {
    pub fn new(id: NodeId, component: &str) -> (r: Self)
        ensures
            r.input == id,
            r.component@ == component@,
    {
        Self { input: id, component: String::from_str(component) }
    }
}

/// A node of a material graph.
#[derive(Clone, Debug)]
pub enum NodeChunk {
    VertexUv(VertexUvNode),
    MaterialInput(MaterialInputNode),
    MaterialTexture(MaterialTextureNode),
    MaterialSampler(MaterialSamplerNode),
    MaterialBaseColor(MaterialBaseColorNode),
    MaterialRoughness(MaterialRoughnessNode),
    MaterialNormal(MaterialNormalNode),
    PostSurfaceTexture(PostSurfaceTextureNode),
    PostSurfaceSampler(PostSurfaceSamplerNode),
    TextureSample(TextureSampleNode),
    ConstantF32(ConstantF32Node),
    PbrShader(PbrShaderNode),
    PickColor(PickColorNode),
    Math(MathNode),
    FunctionCall(FunctionCallNode),
    Swizzle(SwizzleNode),
}

/// A node as stored in a compiler's node list.
#[derive(Clone, Debug)]
pub struct RawChunk {
    pub node: NodeChunk,
}

// ---------------------------------------------------------------------------
// The meaning of a node graph
// ---------------------------------------------------------------------------

/// The nodes a node reads, in the order it lists them.
pub open spec fn node_deps(n: NodeChunk) -> Seq<NodeId> {
    match n {
        NodeChunk::MaterialBaseColor(c) => seq![
            c.uv.node,
            c.color.node,
            c.use_texture.node,
            c.texture.node,
            c.sampler.node,
        ],
        NodeChunk::MaterialRoughness(c) => seq![
            c.uv.node,
            c.roughness.node,
            c.use_texture.node,
            c.texture.node,
            c.sampler.node,
        ],
        NodeChunk::MaterialNormal(c) => seq![
            c.uv.node,
            c.use_texture.node,
            c.texture.node,
            c.sampler.node,
        ],
        NodeChunk::TextureSample(c) => seq![c.texture, c.sampler, c.uv],
        NodeChunk::PbrShader(c) => seq![
            c.base_rgba,
            c.normal,
            c.roughness,
            c.metallic,
            c.alpha,
            c.lit,
            c.cast_shadows,
            c.grayscale,
        ],
        NodeChunk::Math(c) => seq![c.a, c.b],
        NodeChunk::FunctionCall(c) => c.deps@,
        NodeChunk::Swizzle(c) => seq![c.input],
        _ => seq![],
    }
}

/// A node that may stand at index `len` of a graph: it reads only nodes
/// before it.
pub open spec fn node_fits(n: NodeChunk, len: int) -> bool {
    forall|k: int| 0 <= k < node_deps(n).len() ==> #[trigger] node_deps(n)[k] < len
}

/// Whether a node's expression is built from the expressions of the nodes
/// it reads.
pub open spec fn expr_reads(n: NodeChunk) -> bool {
    n is Math || n is FunctionCall || n is Swizzle
}

/// Whether a node's statement is built from the expressions of the nodes
/// it reads.
pub open spec fn emit_reads(n: NodeChunk) -> bool {
    n is MaterialBaseColor || n is MaterialRoughness || n is MaterialNormal || n is TextureSample
        || n is PbrShader
}

/// A well-formed graph: every node reads only nodes allocated before it.
pub open spec fn graph_wf(nodes: Seq<RawChunk>) -> bool {
    &&& forall|i: int| 0 <= i < nodes.len() ==> node_fits(#[trigger] nodes[i].node, i)
    &&& nodes.len() <= u32::MAX
}

/// In a well-formed graph no node reads itself, directly or through
/// others: node indices rank the nodes.
pub proof fn lemma_wf_acyclic(nodes: Seq<RawChunk>, id: int)
    requires
        graph_wf(nodes),
        0 <= id < nodes.len(),
    ensures
        acyclic_from(nodes, id),
{
    let rank = Seq::new(nodes.len(), |i: int| i);
    assert forall|i: int| 0 <= i < nodes.len() && rank[i] >= 0 implies #[trigger] reads_ranked(nodes, rank, i) by {
        assert(node_fits(nodes[i].node, i));
    }
    assert(ranked(nodes, rank) && rank[id] >= 0);
}

/// The name `_pv<id>` under which a node's statement stores its value.
pub open spec fn pv(id: int) -> Seq<char> {
    "_pv"@ + decimal(id as nat)
}

/// The WGSL spelling of an operator.
pub open spec fn op_text(op: MathOp) -> Seq<char> {
    match op {
        MathOp::Add => "+"@,
        MathOp::Sub => "-"@,
        MathOp::Mul => "*"@,
        MathOp::Div => "/"@,
    }
}

/// Each operation is written as its one WGSL operator character: `+` for
/// addition, `-` for subtraction, `*` for multiplication, `/` for division,
/// so that no two operations look alike; and a math node's expression is
/// the operation in brackets, its operator between the expressions of the
/// two nodes it reads, spaced.
pub proof fn lemma_math_operators(op: MathOp, other: MathOp, a: NodeId, b: NodeId, id: int, table: Seq<Seq<char>>)
    ensures
        op_text(op) == seq![
            match op {
                MathOp::Add => '+',
                MathOp::Sub => '-',
                MathOp::Mul => '*',
                MathOp::Div => '/',
            },
        ],
        op != other ==> op_text(op) != op_text(other),
        node_expr(NodeChunk::Math(MathNode { a, b, op }), id, table) == seq!['('] + table[a as int] + seq![' ']
            + op_text(op) + seq![' '] + table[b as int] + seq![')'],
{
    reveal_strlit("+");
    reveal_strlit("-");
    reveal_strlit("*");
    reveal_strlit("/");
    reveal_strlit("(");
    reveal_strlit(" ");
    reveal_strlit(")");
    assert("+"@ =~= seq!['+']);
    assert("-"@ =~= seq!['-']);
    assert("*"@ =~= seq!['*']);
    assert("/"@ =~= seq!['/']);
    assert("("@ =~= seq!['(']);
    assert(" "@ =~= seq![' ']);
    assert(")"@ =~= seq![')']);
    if op != other {
        assert(op_text(op)[0] != op_text(other)[0]);
    }
}

/// `parts` joined with `sep` between neighbours.
pub open spec fn join(parts: Seq<Seq<char>>, sep: Seq<char>) -> Seq<char>
    decreases parts.len(),
{
    if parts.len() == 0 {
        seq![]
    } else if parts.len() == 1 {
        parts[0]
    } else {
        join(parts.drop_last(), sep) + sep + parts.last()
    }
}

/// The expressions of the nodes `ids`, looked up in `table`.
pub open spec fn lookup_all(table: Seq<Seq<char>>, ids: Seq<NodeId>) -> Seq<Seq<char>> {
    ids.map_values(|d: NodeId| table[d as int])
}

/// The expression of node `id`, given the expressions of the nodes it reads.
pub open spec fn node_expr(n: NodeChunk, id: int, table: Seq<Seq<char>>) -> Seq<char> {
    match n {
        NodeChunk::VertexUv(_) => "in.uv"@,
        NodeChunk::MaterialInput(c) => "material."@ + c.name@,
        NodeChunk::MaterialTexture(c) => "t_"@ + c.name@,
        NodeChunk::MaterialSampler(c) => "s_"@ + c.name@,
        NodeChunk::PostSurfaceTexture(_) => "postTexture"@,
        NodeChunk::PostSurfaceSampler(_) => "postSampler"@,
        NodeChunk::PickColor(_) => "pick.color"@,
        NodeChunk::Math(c) => "("@ + table[c.a as int] + " "@ + op_text(c.op) + " "@ + table[c.b as int]
            + ")"@,
        NodeChunk::FunctionCall(c) => c.name@ + "("@ + join(lookup_all(table, c.deps@), ", "@)
            + ")"@,
        NodeChunk::Swizzle(c) => table[c.input as int] + "."@ + c.component@,
        _ => pv(id),
    }
}

/// The expression of node `id` when the walk through the nodes it reads
/// may take `fuel` steps.
pub open spec fn expr_at(nodes: Seq<RawChunk>, id: int, fuel: nat) -> Seq<char>
    decreases fuel, 0int, 0int,
{
    if fuel == 0 {
        seq![]
    } else {
        node_expr(nodes[id].node, id, table_at(nodes, nodes.len(), (fuel - 1) as nat))
    }
}

/// The expressions of the first `n` nodes within `fuel` steps.
pub open spec fn table_at(nodes: Seq<RawChunk>, n: nat, fuel: nat) -> Seq<Seq<char>>
    decreases fuel, 1int, n,
{
    if n == 0 {
        seq![]
    } else {
        table_at(nodes, (n - 1) as nat, fuel).push(expr_at(nodes, n - 1, fuel))
    }
}

/// The WGSL expression that names the value of node `id`, built from the
/// expressions of the nodes it reads; steps above the rank of `id` are
/// enough (see [`acyclic_from`]), and any such number of steps gives the
/// same expression.
pub open spec fn expr_of(nodes: Seq<RawChunk>, id: int) -> Seq<char> {
    let rank = choose|rank: Seq<int>| ranked(nodes, rank) && rank[id] >= 0;
    expr_at(nodes, id, (rank[id] + 1) as nat)
}

/// The expressions of all nodes.
pub open spec fn expr_table(nodes: Seq<RawChunk>) -> Seq<Seq<char>> {
    Seq::new(nodes.len(), |d: int| expr_of(nodes, d))
}

/// A node reads only nodes of the graph from which the graph is acyclic,
/// all ranked by one ranking.
pub open spec fn reads_acyclic(nodes: Seq<RawChunk>, n: NodeChunk) -> bool {
    exists|rank: Seq<int>| #[trigger] ranked(nodes, rank) && deps_ranked(nodes, rank, node_deps(n))
}

/// The nodes `ids` are nodes of the graph ranked by `rank`.
pub open spec fn deps_ranked(nodes: Seq<RawChunk>, rank: Seq<int>, ids: Seq<NodeId>) -> bool {
    forall|k: int| 0 <= k < ids.len() ==> (#[trigger] ids[k]) < nodes.len() && rank[ids[k] as int] >= 0
}

/// The float literal for a constant: `Display` text, with `.0` appended
/// when it has neither a decimal point nor an exponent.
pub open spec fn float_literal(display: Seq<char>) -> Seq<char> {
    if display.contains('.') || display.contains('e') || display.contains('E') {
        display
    } else {
        display + ".0"@
    }
}

pub open spec fn base_color_stmt(
    v: Seq<char>,
    use_tex: Seq<char>,
    tex: Seq<char>,
    sampler: Seq<char>,
    uv: Seq<char>,
    color: Seq<char>,
) -> Seq<char> {
    "var "@ + v + ": vec4f;\n    if ("@ + use_tex + " != 0) {\n        "@ + v + " = textureSample("@ + tex
        + ", "@ + sampler + ", "@ + uv + ");\n    } else {\n        "@ + v + " = vec4f("@ + color
        + ", 1.0);\n    }"@
}

pub open spec fn roughness_stmt(
    v: Seq<char>,
    use_tex: Seq<char>,
    tex: Seq<char>,
    sampler: Seq<char>,
    uv: Seq<char>,
    roughness: Seq<char>,
) -> Seq<char> {
    "var "@ + v + ": f32;\n    if ("@ + use_tex + " != 0) {\n        "@ + v + " = textureSample("@ + tex
        + ", "@ + sampler + ", "@ + uv + ").g;\n    } else {\n        "@ + v + " = "@ + roughness
        + ";\n    }"@
}

pub open spec fn normal_stmt(
    v: Seq<char>,
    use_tex: Seq<char>,
    tex: Seq<char>,
    sampler: Seq<char>,
    uv: Seq<char>,
) -> Seq<char> {
    "var "@ + v + ": vec3f;\n    if ("@ + use_tex + " != 0) {\n        "@ + v + " = normal_from_map("@
        + tex + ", "@ + sampler + ", "@ + uv
        + ", in.normal, in.tangent, in.bitangent);\n    } else {\n        "@ + v
        + " = safe_normalize(in.normal);\n    }"@
}

pub open spec fn pbr_stmt(v: Seq<char>, args: Seq<Seq<char>>) -> Seq<char> {
    "let "@ + v + ": FOutput = pbr_fragment(in, "@ + join(args, ", "@) + ");"@
}

/// The statement a node contributes, given the expressions of the nodes it reads.
pub open spec fn node_emit(n: NodeChunk, id: int, table: Seq<Seq<char>>) -> Option<Seq<char>> {
    match n {
        NodeChunk::MaterialBaseColor(c) => Some(
            base_color_stmt(
                pv(id),
                table[c.use_texture.node as int],
                table[c.texture.node as int],
                table[c.sampler.node as int],
                table[c.uv.node as int],
                table[c.color.node as int],
            ),
        ),
        NodeChunk::MaterialRoughness(c) => Some(
            roughness_stmt(
                pv(id),
                table[c.use_texture.node as int],
                table[c.texture.node as int],
                table[c.sampler.node as int],
                table[c.uv.node as int],
                table[c.roughness.node as int],
            ),
        ),
        NodeChunk::MaterialNormal(c) => Some(
            normal_stmt(
                pv(id),
                table[c.use_texture.node as int],
                table[c.texture.node as int],
                table[c.sampler.node as int],
                table[c.uv.node as int],
            ),
        ),
        NodeChunk::TextureSample(c) => Some(
            "let "@ + pv(id) + ": vec4f = textureSample("@ + table[c.texture as int] + ", "@
                + table[c.sampler as int] + ", "@ + table[c.uv as int] + ");"@,
        ),
        NodeChunk::ConstantF32(c) => Some(
            "let "@ + pv(id) + ": f32 = "@ + float_literal(c.display@) + ";"@,
        ),
        NodeChunk::PbrShader(c) => Some(pbr_stmt(pv(id), lookup_all(table, node_deps(n)))),
        _ => None,
    }
}

/// The statement node `id` contributes.
pub open spec fn emit_of(nodes: Seq<RawChunk>, id: int) -> Option<Seq<char>> {
    node_emit(nodes[id].node, id, expr_table(nodes))
}

// ---------------------------------------------------------------------------
// Lemmas on the expression table
// ---------------------------------------------------------------------------

pub proof fn lemma_table_at(nodes: Seq<RawChunk>, n: nat, fuel: nat, d: int)
    requires
        0 <= d < n,
    ensures
        table_at(nodes, n, fuel).len() == n,
        table_at(nodes, n, fuel)[d] == expr_at(nodes, d, fuel),
    decreases n,
{
    assert(table_at(nodes, n, fuel) == table_at(nodes, (n - 1) as nat, fuel).push(expr_at(nodes, n - 1, fuel)));
    if n == 1 {
        assert(table_at(nodes, 0, fuel) == Seq::<Seq<char>>::empty());
    } else if d < n - 1 {
        lemma_table_at(nodes, (n - 1) as nat, fuel, d);
    } else {
        lemma_table_at(nodes, (n - 1) as nat, fuel, 0);
    }
}

/// Steps above the rank of a node all give it the same expression.
pub proof fn lemma_expr_stable(nodes: Seq<RawChunk>, rank: Seq<int>, id: int, f1: nat, f2: nat)
    requires
        ranked(nodes, rank),
        0 <= id < nodes.len(),
        rank[id] >= 0,
        f1 > rank[id],
        f2 > rank[id],
    ensures
        expr_at(nodes, id, f1) == expr_at(nodes, id, f2),
    decreases rank[id],
{
    let n = nodes[id].node;
    let t1 = table_at(nodes, nodes.len(), (f1 - 1) as nat);
    let t2 = table_at(nodes, nodes.len(), (f2 - 1) as nat);
    assert(reads_ranked(nodes, rank, id));
    assert forall|k: int| 0 <= k < node_deps(n).len() implies t1[#[trigger] node_deps(n)[k] as int]
        == t2[node_deps(n)[k] as int] by {
        let d = node_deps(n)[k] as int;
        lemma_table_at(nodes, nodes.len(), (f1 - 1) as nat, d);
        lemma_table_at(nodes, nodes.len(), (f2 - 1) as nat, d);
        lemma_expr_stable(nodes, rank, d, (f1 - 1) as nat, (f2 - 1) as nat);
    }
    lemma_node_text_tables(n, id, t1, t2);
}

/// The expression of a ranked node is its expression within any number of
/// steps above its rank.
pub proof fn lemma_expr_of_at(nodes: Seq<RawChunk>, rank: Seq<int>, id: int, f: nat)
    requires
        ranked(nodes, rank),
        0 <= id < nodes.len(),
        rank[id] >= 0,
        f > rank[id],
    ensures
        expr_of(nodes, id) == expr_at(nodes, id, f),
{
    let r = choose|r: Seq<int>| ranked(nodes, r) && r[id] >= 0;
    let big = (r[id] + 1) as nat;
    let m = if big > f { big } else { f };
    lemma_expr_stable(nodes, r, id, big, m);
    lemma_expr_stable(nodes, rank, id, m, f);
}

/// The expression of a node from which the graph is acyclic is its own
/// expression over the expressions of all nodes.
pub proof fn lemma_expr_of_unfold(nodes: Seq<RawChunk>, id: int)
    requires
        acyclic_from(nodes, id),
    ensures
        expr_of(nodes, id) == node_expr(nodes[id].node, id, expr_table(nodes)),
        reads_acyclic(nodes, nodes[id].node),
{
    let rank = choose|rank: Seq<int>| ranked(nodes, rank) && rank[id] >= 0;
    let n = nodes[id].node;
    let t = table_at(nodes, nodes.len(), rank[id] as nat);
    assert(reads_ranked(nodes, rank, id));
    assert forall|k: int| 0 <= k < node_deps(n).len() implies t[#[trigger] node_deps(n)[k] as int]
        == expr_table(nodes)[node_deps(n)[k] as int] by {
        let d = node_deps(n)[k] as int;
        lemma_table_at(nodes, nodes.len(), rank[id] as nat, d);
        lemma_expr_of_at(nodes, rank, d, rank[id] as nat);
    }
    lemma_node_text_tables(n, id, t, expr_table(nodes));
    assert(deps_ranked(nodes, rank, node_deps(n)));
}

/// One more than the highest rank of the nodes `ids`; `0` for none.
pub open spec fn rank_bound(rank: Seq<int>, ids: Seq<NodeId>) -> int
    decreases ids.len(),
{
    if ids.len() == 0 {
        0
    } else {
        let b = rank_bound(rank, ids.drop_last());
        let c = rank[ids.last() as int] + 1;
        if b > c {
            b
        } else {
            c
        }
    }
}

pub proof fn lemma_rank_bound(rank: Seq<int>, ids: Seq<NodeId>, k: int)
    requires
        0 <= k < ids.len(),
    ensures
        rank[ids[k] as int] < rank_bound(rank, ids),
        rank_bound(rank, ids) >= 0,
    decreases ids.len(),
{
    if k < ids.len() - 1 {
        lemma_rank_bound(rank, ids.drop_last(), k);
    } else if ids.len() > 1 {
        lemma_rank_bound(rank, ids.drop_last(), 0);
    }
}

pub proof fn lemma_rank_bound_below(rank: Seq<int>, ids: Seq<NodeId>, r: int)
    requires
        forall|k: int| 0 <= k < ids.len() ==> rank[#[trigger] ids[k] as int] < r,
        0 <= r,
    ensures
        0 <= rank_bound(rank, ids) <= r,
    decreases ids.len(),
{
    if ids.len() > 0 {
        assert forall|k: int| 0 <= k < ids.drop_last().len() implies rank[#[trigger] ids.drop_last()[k] as int] < r by {
            assert(ids.drop_last()[k] == ids[k]);
        }
        lemma_rank_bound_below(rank, ids.drop_last(), r);
        assert(rank[ids[ids.len() - 1] as int] < r);
    }
}

/// The text of a node depends only on the table entries of the nodes it
/// reads.
pub proof fn lemma_node_text_tables(n: NodeChunk, id: int, t1: Seq<Seq<char>>, t2: Seq<Seq<char>>)
    requires
        forall|k: int| 0 <= k < node_deps(n).len() ==> t1[#[trigger] node_deps(n)[k] as int] == t2[node_deps(n)[k] as int],
    ensures
        node_expr(n, id, t1) == node_expr(n, id, t2),
        node_emit(n, id, t1) == node_emit(n, id, t2),
{
    let d = node_deps(n);
    match n {
        NodeChunk::MaterialBaseColor(c) => {
            assert(t1[d[0] as int] == t2[d[0] as int] && t1[d[1] as int] == t2[d[1] as int]);
            assert(t1[d[2] as int] == t2[d[2] as int] && t1[d[3] as int] == t2[d[3] as int]);
            assert(t1[d[4] as int] == t2[d[4] as int]);
        },
        NodeChunk::MaterialRoughness(c) => {
            assert(t1[d[0] as int] == t2[d[0] as int] && t1[d[1] as int] == t2[d[1] as int]);
            assert(t1[d[2] as int] == t2[d[2] as int] && t1[d[3] as int] == t2[d[3] as int]);
            assert(t1[d[4] as int] == t2[d[4] as int]);
        },
        NodeChunk::MaterialNormal(c) => {
            assert(t1[d[0] as int] == t2[d[0] as int] && t1[d[1] as int] == t2[d[1] as int]);
            assert(t1[d[2] as int] == t2[d[2] as int] && t1[d[3] as int] == t2[d[3] as int]);
        },
        NodeChunk::TextureSample(c) => {
            assert(t1[d[0] as int] == t2[d[0] as int] && t1[d[1] as int] == t2[d[1] as int]);
            assert(t1[d[2] as int] == t2[d[2] as int]);
        },
        NodeChunk::PbrShader(c) => {
            assert(lookup_all(t1, d) =~= lookup_all(t2, d));
        },
        NodeChunk::Math(c) => {
            assert(t1[d[0] as int] == t2[d[0] as int] && t1[d[1] as int] == t2[d[1] as int]);
        },
        NodeChunk::FunctionCall(c) => {
            assert(lookup_all(t1, c.deps@) =~= lookup_all(t2, c.deps@));
        },
        NodeChunk::Swizzle(c) => {
            assert(t1[d[0] as int] == t2[d[0] as int]);
        },
        _ => {},
    }
}

// ---------------------------------------------------------------------------
// Emission
// ---------------------------------------------------------------------------

/// Read access to a node list while its WGSL is produced.
pub struct EmitCtx<'a> {
    pub nodes: &'a [RawChunk],
}

impl<'a> EmitCtx<'a> {
    pub fn new(nodes: &'a [RawChunk]) -> (r: Self)
        ensures
            r.nodes@ == nodes@,
    {
        Self { nodes }
    }

    /// The WGSL expression for the value of node `id`: the expression of
    /// the node stored there. Node `id` must be a node of the graph (an id
    /// past the end stops the engine with a panic), and the nodes it reads,
    /// directly or through others, must be nodes of the graph without a
    /// cycle among them (one would never end).
    pub fn expr(&self, id: NodeId) -> (r: String)
        requires
            acyclic_from(self.nodes@, id as int),
        ensures
            r@ == expr_of(self.nodes@, id as int),
    {
        let ghost rank = choose|rank: Seq<int>| ranked(self.nodes@, rank) && rank[id as int] >= 0;
        self.expr_ranked(id, Ghost(rank))
    }

    fn expr_ranked(&self, id: NodeId, Ghost(rank): Ghost<Seq<int>>) -> (r: String)
        requires
            ranked(self.nodes@, rank),
            id < self.nodes@.len(),
            rank[id as int] >= 0,
        ensures
            r@ == expr_of(self.nodes@, id as int),
        decreases rank[id as int], 2int,
    {
        let ghost nodes = self.nodes@;
        proof {
            lemma_expr_of_unfold(nodes, id as int);
            assert(reads_ranked(nodes, rank, id as int));
            let deps = node_deps(nodes[id as int].node);
            assert forall|k: int| 0 <= k < deps.len() implies rank[#[trigger] deps[k] as int] < rank[id as int] by {}
            lemma_rank_bound_below(rank, deps, rank[id as int]);
        }
        self.nodes[id as usize].node.expr_ranked(id, self, Ghost(rank))
    }

    /// The expressions of the nodes `ids`, all of them ranked nodes of
    /// this graph.
    fn exprs_ranked(&self, ids: &Vec<NodeId>, Ghost(rank): Ghost<Seq<int>>) -> (r: Vec<String>)
        requires
            ranked(self.nodes@, rank),
            deps_ranked(self.nodes@, rank, ids@),
        ensures
            r.deep_view() == lookup_all(expr_table(self.nodes@), ids@),
        decreases rank_bound(rank, ids@), 0int,
    {
        let ghost table = expr_table(self.nodes@);
        let mut r: Vec<String> = Vec::new();
        let mut k: usize = 0;
        while k < ids.len()
            invariant
                ranked(self.nodes@, rank),
                deps_ranked(self.nodes@, rank, ids@),
                table == expr_table(self.nodes@),
                k <= ids.len(),
                r.deep_view() =~= lookup_all(table, ids@).take(k as int),
            decreases ids.len() - k,
        {
            proof {
                lemma_rank_bound(rank, ids@, k as int);
                assert(ids@[k as int] < self.nodes@.len());
            }
            let e = self.expr_ranked(ids[k], Ghost(rank));
            let ghost prev = r.deep_view();
            r.push(e);
            proof {
                assert(r.deep_view() =~= prev.push(e@));
                assert(lookup_all(table, ids@).take(k + 1) =~= lookup_all(table, ids@).take(k as int).push(e@));
            }
            k += 1;
        }
        assert(lookup_all(table, ids@).take(k as int) =~= lookup_all(table, ids@));
        r
    }
}

impl NodeChunk {
    /// The nodes this node reads.
    pub fn deps(&self) -> (r: Vec<NodeId>)
        ensures
            r@ == node_deps(*self),
    {
        match self {
            NodeChunk::MaterialBaseColor(c) => vec![
                c.uv.node,
                c.color.node,
                c.use_texture.node,
                c.texture.node,
                c.sampler.node,
            ],
            NodeChunk::MaterialRoughness(c) => vec![
                c.uv.node,
                c.roughness.node,
                c.use_texture.node,
                c.texture.node,
                c.sampler.node,
            ],
            NodeChunk::MaterialNormal(c) => vec![
                c.uv.node,
                c.use_texture.node,
                c.texture.node,
                c.sampler.node,
            ],
            NodeChunk::TextureSample(c) => vec![c.texture, c.sampler, c.uv],
            NodeChunk::PbrShader(c) => vec![
                c.base_rgba,
                c.normal,
                c.roughness,
                c.metallic,
                c.alpha,
                c.lit,
                c.cast_shadows,
                c.grayscale,
            ],
            NodeChunk::Math(c) => vec![c.a, c.b],
            NodeChunk::FunctionCall(c) => c.deps.clone(),
            NodeChunk::Swizzle(c) => vec![c.input],
            _ => Vec::new(),
        }
    }

    /// The expression that names the value of this node, stored as node
    /// `id` and read against the graph of `ctx`. Only a node whose
    /// expression is built from those of the nodes it reads needs them:
    /// nodes of the graph from which it is acyclic (reading a node the graph
    /// lacks stops the engine with a panic; a cycle would never end).
    pub fn expr(&self, id: NodeId, ctx: &EmitCtx) -> (r: String)
        requires
            expr_reads(*self) ==> reads_acyclic(ctx.nodes@, *self),
        ensures
            r@ == node_expr(*self, id as int, expr_table(ctx.nodes@)),
    {
        let ghost rank = choose|rank: Seq<int>| #[trigger] ranked(ctx.nodes@, rank) && deps_ranked(ctx.nodes@, rank, node_deps(*self));
        self.expr_ranked(id, ctx, Ghost(rank))
    }

    fn expr_ranked(&self, id: NodeId, ctx: &EmitCtx, Ghost(rank): Ghost<Seq<int>>) -> (r: String)
        requires
            expr_reads(*self) ==> ranked(ctx.nodes@, rank) && deps_ranked(ctx.nodes@, rank, node_deps(*self)),
        ensures
            r@ == node_expr(*self, id as int, expr_table(ctx.nodes@)),
        decreases rank_bound(rank, node_deps(*self)), 1int,
    {
        let ghost nodes = ctx.nodes@;
        let mut out = String::new();
        match self {
            NodeChunk::VertexUv(_) => {
                out.append("in.uv");
            },
            NodeChunk::MaterialInput(c) => {
                out.append("material.");
                out.append(c.name.as_str());
            },
            NodeChunk::MaterialTexture(c) => {
                out.append("t_");
                out.append(c.name.as_str());
            },
            NodeChunk::MaterialSampler(c) => {
                out.append("s_");
                out.append(c.name.as_str());
            },
            NodeChunk::PostSurfaceTexture(_) => {
                out.append("postTexture");
            },
            NodeChunk::PostSurfaceSampler(_) => {
                out.append("postSampler");
            },
            NodeChunk::PickColor(_) => {
                out.append("pick.color");
            },
            NodeChunk::Math(c) => {
                proof {
                    assert(node_deps(*self)[0] == c.a);
                    assert(node_deps(*self)[1] == c.b);
                    lemma_rank_bound(rank, node_deps(*self), 0);
                    lemma_rank_bound(rank, node_deps(*self), 1);
                }
                let a = ctx.expr_ranked(c.a, Ghost(rank));
                let b = ctx.expr_ranked(c.b, Ghost(rank));
                out.append("(");
                out.append(a.as_str());
                out.append(" ");
                out.append(op_str(c.op));
                out.append(" ");
                out.append(b.as_str());
                out.append(")");
            },
            NodeChunk::FunctionCall(c) => {
                proof {
                    assert(node_deps(*self) == c.deps@);
                }
                let args = ctx.exprs_ranked(&c.deps, Ghost(rank));
                let joined = join_strings(&args, ", ");
                out.append(c.name.as_str());
                out.append("(");
                out.append(joined.as_str());
                out.append(")");
            },
            NodeChunk::Swizzle(c) => {
                proof {
                    assert(node_deps(*self)[0] == c.input);
                    lemma_rank_bound(rank, node_deps(*self), 0);
                }
                let e = ctx.expr_ranked(c.input, Ghost(rank));
                out.append(e.as_str());
                out.append(".");
                out.append(c.component.as_str());
            },
            _ => {
                out.append("_pv");
                push_decimal(&mut out, id);
            },
        }
        out
    }

    /// The statement this node, stored as node `id` and read against the
    /// graph of `ctx`, contributes to the fragment function, if any. Only a
    /// node whose statement is built from the expressions of the nodes it
    /// reads needs them: nodes of the graph from which it is acyclic. Each
    /// input is read at output `0`, the only output WGSL emission has.
    pub fn emit(&self, id: NodeId, ctx: &EmitCtx) -> (r: Option<String>)
        requires
            emit_reads(*self) ==> reads_acyclic(ctx.nodes@, *self),
        ensures
            match r {
                Some(s) => node_emit(*self, id as int, expr_table(ctx.nodes@)) == Some(s@),
                None => node_emit(*self, id as int, expr_table(ctx.nodes@)) is None,
            },
    {
        let ghost nodes = ctx.nodes@;
        let ghost rank = choose|rank: Seq<int>| #[trigger] ranked(ctx.nodes@, rank) && deps_ranked(ctx.nodes@, rank, node_deps(*self));
        let mut v = String::new();
        v.append("_pv");
        push_decimal(&mut v, id);
        match self {
            NodeChunk::MaterialBaseColor(c) => {
                proof {
                    assert(node_deps(*self)[0] == c.uv.node);
                    assert(node_deps(*self)[1] == c.color.node);
                    assert(node_deps(*self)[2] == c.use_texture.node);
                    assert(node_deps(*self)[3] == c.texture.node);
                    assert(node_deps(*self)[4] == c.sampler.node);
                }
                let uv = ctx.expr_ranked(c.uv.node, Ghost(rank));
                let color = ctx.expr_ranked(c.color.node, Ghost(rank));
                let use_tex = ctx.expr_ranked(c.use_texture.node, Ghost(rank));
                let tex = ctx.expr_ranked(c.texture.node, Ghost(rank));
                let sampler = ctx.expr_ranked(c.sampler.node, Ghost(rank));
                let mut out = String::new();
                out.append("var ");
                out.append(v.as_str());
                out.append(": vec4f;\n    if (");
                out.append(use_tex.as_str());
                out.append(" != 0) {\n        ");
                out.append(v.as_str());
                out.append(" = textureSample(");
                out.append(tex.as_str());
                out.append(", ");
                out.append(sampler.as_str());
                out.append(", ");
                out.append(uv.as_str());
                out.append(");\n    } else {\n        ");
                out.append(v.as_str());
                out.append(" = vec4f(");
                out.append(color.as_str());
                out.append(", 1.0);\n    }");
                Some(out)
            },
            NodeChunk::MaterialRoughness(c) => {
                proof {
                    assert(node_deps(*self)[0] == c.uv.node);
                    assert(node_deps(*self)[1] == c.roughness.node);
                    assert(node_deps(*self)[2] == c.use_texture.node);
                    assert(node_deps(*self)[3] == c.texture.node);
                    assert(node_deps(*self)[4] == c.sampler.node);
                }
                let uv = ctx.expr_ranked(c.uv.node, Ghost(rank));
                let roughness = ctx.expr_ranked(c.roughness.node, Ghost(rank));
                let use_tex = ctx.expr_ranked(c.use_texture.node, Ghost(rank));
                let tex = ctx.expr_ranked(c.texture.node, Ghost(rank));
                let sampler = ctx.expr_ranked(c.sampler.node, Ghost(rank));
                let mut out = String::new();
                out.append("var ");
                out.append(v.as_str());
                out.append(": f32;\n    if (");
                out.append(use_tex.as_str());
                out.append(" != 0) {\n        ");
                out.append(v.as_str());
                out.append(" = textureSample(");
                out.append(tex.as_str());
                out.append(", ");
                out.append(sampler.as_str());
                out.append(", ");
                out.append(uv.as_str());
                out.append(").g;\n    } else {\n        ");
                out.append(v.as_str());
                out.append(" = ");
                out.append(roughness.as_str());
                out.append(";\n    }");
                Some(out)
            },
            NodeChunk::MaterialNormal(c) => {
                proof {
                    assert(node_deps(*self)[0] == c.uv.node);
                    assert(node_deps(*self)[1] == c.use_texture.node);
                    assert(node_deps(*self)[2] == c.texture.node);
                    assert(node_deps(*self)[3] == c.sampler.node);
                }
                let uv = ctx.expr_ranked(c.uv.node, Ghost(rank));
                let use_tex = ctx.expr_ranked(c.use_texture.node, Ghost(rank));
                let tex = ctx.expr_ranked(c.texture.node, Ghost(rank));
                let sampler = ctx.expr_ranked(c.sampler.node, Ghost(rank));
                let mut out = String::new();
                out.append("var ");
                out.append(v.as_str());
                out.append(": vec3f;\n    if (");
                out.append(use_tex.as_str());
                out.append(" != 0) {\n        ");
                out.append(v.as_str());
                out.append(" = normal_from_map(");
                out.append(tex.as_str());
                out.append(", ");
                out.append(sampler.as_str());
                out.append(", ");
                out.append(uv.as_str());
                out.append(", in.normal, in.tangent, in.bitangent);\n    } else {\n        ");
                out.append(v.as_str());
                out.append(" = safe_normalize(in.normal);\n    }");
                Some(out)
            },
            NodeChunk::TextureSample(c) => {
                proof {
                    assert(node_deps(*self)[0] == c.texture);
                    assert(node_deps(*self)[1] == c.sampler);
                    assert(node_deps(*self)[2] == c.uv);
                }
                let tex = ctx.expr_ranked(c.texture, Ghost(rank));
                let sampler = ctx.expr_ranked(c.sampler, Ghost(rank));
                let uv = ctx.expr_ranked(c.uv, Ghost(rank));
                let mut out = String::new();
                out.append("let ");
                out.append(v.as_str());
                out.append(": vec4f = textureSample(");
                out.append(tex.as_str());
                out.append(", ");
                out.append(sampler.as_str());
                out.append(", ");
                out.append(uv.as_str());
                out.append(");");
                Some(out)
            },
            NodeChunk::ConstantF32(c) => {
                let literal = float_literal_exec(&c.display);
                let mut out = String::new();
                out.append("let ");
                out.append(v.as_str());
                out.append(": f32 = ");
                out.append(literal.as_str());
                out.append(";");
                Some(out)
            },
            NodeChunk::PbrShader(c) => {
                let deps = self.deps();
                let args = ctx.exprs_ranked(&deps, Ghost(rank));
                let joined = join_strings(&args, ", ");
                let mut out = String::new();
                out.append("let ");
                out.append(v.as_str());
                out.append(": FOutput = pbr_fragment(in, ");
                out.append(joined.as_str());
                out.append(");");
                Some(out)
            },
            _ => None,
        }
    }
}

/// The float literal for a constant's `Display` text (see [`float_literal`]).
pub fn float_literal_exec(display: &String) -> (r: String)
    ensures
        r@ == float_literal(display@),
{
    let chars = chars_of(display.as_str());
    let mut has_point = false;
    let mut i: usize = 0;
    while i < chars.len()
        invariant
            chars@ == display@,
            i <= chars.len(),
            has_point == (exists|j: int|
                0 <= j < i && (chars@[j] == '.' || chars@[j] == 'e' || chars@[j] == 'E')),
        decreases chars.len() - i,
    {
        if chars[i] == '.' || chars[i] == 'e' || chars[i] == 'E' {
            has_point = true;
        }
        i += 1;
    }
    let mut out = display.clone();
    proof {
        if has_point {
            let j = choose|j: int|
                0 <= j < i && (chars@[j] == '.' || chars@[j] == 'e' || chars@[j] == 'E');
            assert(display@[j] == chars@[j]);
        } else {
            assert(!display@.contains('.'));
            assert(!display@.contains('e'));
            assert(!display@.contains('E'));
        }
    }
    if !has_point {
        out.append(".0");
    }
    out
}

fn op_str(op: MathOp) -> (s: &'static str)
    ensures
        s@ == op_text(op),
{
    match op {
        MathOp::Add => "+",
        MathOp::Sub => "-",
        MathOp::Mul => "*",
        MathOp::Div => "/",
    }
}

/// `parts` joined with `sep` between neighbours.
pub fn join_strings(parts: &Vec<String>, sep: &str) -> (r: String)
    ensures
        r@ == join(parts.deep_view(), sep@),
{
    let mut out = String::new();
    let mut k: usize = 0;
    while k < parts.len()
        invariant
            k <= parts.len(),
            out@ == join(parts.deep_view().take(k as int), sep@),
        decreases parts.len() - k,
    {
        let ghost before = parts.deep_view().take(k as int);
        if k > 0 {
            out.append(sep);
        }
        out.append(parts[k].as_str());
        proof {
            let after = parts.deep_view().take(k + 1);
            assert(after.drop_last() =~= before);
            if k == 0 {
                assert(after.len() == 1);
            }
        }
        k += 1;
    }
    assert(parts.deep_view().take(k as int) =~= parts.deep_view());
    out
}

} // verus!
