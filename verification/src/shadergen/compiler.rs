//! Builders of material and post-process node graphs, and the compilation
//! of a graph into the body of a WGSL fragment function.
use super::chunks::{
    emit_of, expr_of, lemma_expr_of_unfold, node_deps, ConstantF32Node, EmitCtx, FunctionCallNode,
    MaterialBaseColorNode, MaterialInputNode, MaterialNormalNode, MaterialRoughnessNode,
    MaterialSamplerNode, MaterialTextureNode, MathNode, MathOp, NodeChunk, NodeExpressionInput,
    NodeId, PbrShaderNode, PickColorNode, PostSurfaceSamplerNode, PostSurfaceTextureNode,
    RawChunk, SwizzleNode, TextureSampleNode, VertexUvNode,
};
use super::function::{
    input_node, input_parameter, texture_material, ExpressionInput, ExpressionInputSource,
    ExpressionTexture, ExpressionTextureSource, MaterialExpression, MaterialPinType,
    PostProcessMaterialExpression,
};
use super::generator::{
    mesh_shader_text, post_process_fragment_text, post_process_shader_text,
    MaterialShaderSetCode, MeshPass, ShaderCompilationOutput, ShaderGenerator,
};
use super::topo::{
    acyclic_from, is_acyclic_from, lemma_acyclic_in_range, lemma_topo_order, topo_order, topo_order_from_nodes,
};
use vstd::string::StringExecFns;
use vstd::prelude::*;

verus! {

/// The statements the nodes of `order` contribute, in that order.
pub open spec fn emitted(nodes: Seq<RawChunk>, order: Seq<NodeId>) -> Seq<Seq<char>>
    decreases order.len(),
{
    if order.len() == 0 {
        seq![]
    } else {
        let prev = emitted(nodes, order.drop_last());
        match emit_of(nodes, order.last() as int) {
            Some(s) => prev.push(s),
            None => prev,
        }
    }
}

/// The statements of the fragment body computing node `output`.
pub open spec fn compiled_lines(nodes: Seq<RawChunk>, output: int) -> Seq<Seq<char>> {
    emitted(nodes, topo_order(nodes, output))
}

/// The fragment body for node `output`: the statements of its dependencies
/// in dependency order, and the expression of `output` as the result.
/// Node `output` must be a node of the graph, and the nodes it reads,
/// directly or through others, nodes of the graph without a cycle among
/// them.
pub fn compile_output_from_nodes(nodes: &[RawChunk], output: NodeId) -> (r: ShaderCompilationOutput)
    requires
        acyclic_from(nodes@, output as int),
    ensures
        r.lines.deep_view() == compiled_lines(nodes@, output as int),
        r.result_expr@ == expr_of(nodes@, output as int),
{
    proof {
        lemma_acyclic_in_range(nodes@, output as int);
        lemma_topo_order(nodes@, output as int);
    }
    let order = topo_order_from_nodes(nodes, output);
    let ctx = EmitCtx::new(nodes);
    let mut lines: Vec<String> = Vec::new();
    let mut k: usize = 0;
    while k < order.len()
        invariant
            ctx.nodes@ == nodes@,
            order@ == topo_order(nodes@, output as int),
            forall|i: int| 0 <= i < order@.len() ==> (#[trigger] order@[i] as int) < nodes@.len(),
            forall|i: int| 0 <= i < order@.len() ==> acyclic_from(nodes@, #[trigger] order@[i] as int),
            k <= order.len(),
            lines.deep_view() == emitted(nodes@, order@.take(k as int)),
        decreases order.len() - k,
    {
        let id = order[k];
        let ghost prev = lines.deep_view();
        proof {
            assert(order@.take(k + 1).drop_last() =~= order@.take(k as int));
            assert(order@.take(k + 1).last() == id);
            assert(acyclic_from(nodes@, order@[k as int] as int));
            lemma_expr_of_unfold(nodes@, id as int);
        }
        if let Some(stmt) = nodes[id as usize].node.emit(id, &ctx) {
            lines.push(stmt);
            assert(lines.deep_view() =~= prev.push(stmt@));
        }
        k += 1;
    }
    assert(order@.take(k as int) =~= order@);
    let result_expr = ctx.expr(output);
    ShaderCompilationOutput { lines, result_expr }
}


// ---------------------------------------------------------------------------
// Graph builders
// ---------------------------------------------------------------------------

/// `after` is `before` with `node` appended.
pub open spec fn appended(before: Seq<RawChunk>, after: Seq<RawChunk>, node: NodeChunk) -> bool {
    after == before.push(RawChunk { node })
}

/// `after` is `before` with one node appended.
pub open spec fn appended_one(before: Seq<RawChunk>, after: Seq<RawChunk>) -> bool {
    after.len() > 0 && after == before.push(after.last())
}

/// The text node `n` names.
pub open spec fn named_node(n: NodeChunk) -> Option<(u8, Seq<char>)> {
    match n {
        NodeChunk::MaterialInput(c) => Some((0u8, c.name@)),
        NodeChunk::MaterialTexture(c) => Some((1u8, c.name@)),
        NodeChunk::MaterialSampler(c) => Some((2u8, c.name@)),
        NodeChunk::ConstantF32(c) => Some((3u8, c.display@)),
        _ => None,
    }
}

/// What binding an input pin does: a pin that names a material parameter
/// gets a new parameter node and is pointed at it; any other pin, and the
/// graph, stay as they were.
pub open spec fn bind_input_post(
    n0: Seq<RawChunk>,
    s0: ExpressionInputSource,
    n1: Seq<RawChunk>,
    s1: ExpressionInputSource,
) -> bool {
    match input_parameter(s0) {
        Some(name) => {
            &&& appended_one(n0, n1)
            &&& named_node(n1.last().node) == Some((0u8, name@))
            &&& s1 == (ExpressionInputSource::Node {
                parameter: Some(name),
                node: n0.len() as NodeId,
                output_index: 0,
            })
        },
        None => n1 == n0 && s1 == s0,
    }
}

/// What binding a texture pin does: a pin that names a material texture
/// gets a texture node and a sampler node and is pointed at them; any other
/// pin, and the graph, stay as they were.
pub open spec fn bind_texture_post(
    n0: Seq<RawChunk>,
    s0: ExpressionTextureSource,
    n1: Seq<RawChunk>,
    s1: ExpressionTextureSource,
) -> bool {
    match texture_material(s0) {
        Some(name) => {
            &&& n1.len() == n0.len() + 2
            &&& n1 == n0.push(n1[n0.len() as int]).push(n1.last())
            &&& named_node(n1[n0.len() as int].node) == Some((1u8, name@))
            &&& named_node(n1.last().node) == Some((2u8, name@))
            &&& s1 == (ExpressionTextureSource::Bound {
                material: Some(name),
                texture_node: n0.len() as NodeId,
                texture_output_index: 0,
                sampler_node: (n0.len() + 1) as NodeId,
                sampler_output_index: 0,
            })
        },
        None => n1 == n0 && s1 == s0,
    }
}

/// The shader text a graph yields for node `output` as mesh shader of
/// `pass`, when `output` is one of its nodes and the nodes it reads,
/// directly or through others, are nodes of the graph without a cycle.
pub open spec fn graph_mesh_shader(nodes: Seq<RawChunk>, output: int, pass: MeshPass) -> Option<
    Seq<char>,
> {
    if acyclic_from(nodes, output) {
        Some(mesh_shader_text(compiled_lines(nodes, output), expr_of(nodes, output), pass))
    } else {
        None
    }
}

/// Builder of the node graph of a surface material.
pub struct MaterialCompiler {
    pub nodes: Vec<RawChunk>,
}

impl MaterialCompiler {
    pub fn new() -> (r: Self)
        ensures
            r.nodes@ == Seq::<RawChunk>::empty(),
    {
        Self { nodes: Vec::new() }
    }

    /// Appends `node`; its id is the former node count.
    pub fn allocate(&mut self, node: NodeChunk) -> (r: NodeId)
        ensures
            appended(old(self).nodes@, final(self).nodes@, node),
            r == old(self).nodes@.len() as NodeId,
    {
        let id = self.nodes.len() as NodeId;
        self.nodes.push(RawChunk { node });
        id
    }

    pub fn vertex_uv(&mut self) -> (r: NodeId)
        ensures
            appended(old(self).nodes@, final(self).nodes@, NodeChunk::VertexUv(VertexUvNode)),
            r == old(self).nodes@.len() as NodeId,
    {
        self.allocate(NodeChunk::VertexUv(VertexUvNode))
    }

    /// A node reading the material parameter `name`.
    pub fn input_value(&mut self, name: &'static str) -> (r: NodeId)
        ensures
            appended_one(old(self).nodes@, final(self).nodes@),
            named_node(final(self).nodes@.last().node) == Some((0u8, name@)),
            r == old(self).nodes@.len() as NodeId,
    {
        self.allocate(NodeChunk::MaterialInput(MaterialInputNode::new(name)))
    }

    /// A node reading the material texture `name`.
    pub fn bind_texture(&mut self, name: &'static str) -> (r: NodeId)
        ensures
            appended_one(old(self).nodes@, final(self).nodes@),
            named_node(final(self).nodes@.last().node) == Some((1u8, name@)),
            r == old(self).nodes@.len() as NodeId,
    {
        self.allocate(NodeChunk::MaterialTexture(MaterialTextureNode::new(name)))
    }

    /// A node reading the sampler of the material texture `name`.
    pub fn bind_sampler(&mut self, name: &'static str) -> (r: NodeId)
        ensures
            appended_one(old(self).nodes@, final(self).nodes@),
            named_node(final(self).nodes@.last().node) == Some((2u8, name@)),
            r == old(self).nodes@.len() as NodeId,
    {
        self.allocate(NodeChunk::MaterialSampler(MaterialSamplerNode::new(name)))
    }

    /// Points a pin that names a material parameter at a new parameter
    /// node; a pin bound to a node and naming no parameter stays as it is.
    /// The pin must not be unbound: an unbound pin is a mistake of the
    /// material's author that stops the engine with a panic.
    pub fn bind_expression_input<T: MaterialPinType>(&mut self, input: &mut ExpressionInput<T>)
        requires
            !(old(input)@ is Unbound),
        ensures
            bind_input_post(old(self).nodes@, old(input)@, final(self).nodes@, final(input)@),
    {
        let name = match input.material_name() {
            Some(name) => name,
            None => {
                return;
            },
        };
        let node = self.input_value(name);
        input.set_bound(node, 0);
    }

    /// Points a texture pin that names a material texture at a new texture
    /// node and a new sampler node; a pin bound to nodes and naming no
    /// texture stays as it is. The pin must not be unbound (that stops the
    /// engine with a panic).
    pub fn bind_expression_texture(&mut self, texture: &mut ExpressionTexture)
        requires
            !(old(texture)@ is Unbound),
        ensures
            bind_texture_post(old(self).nodes@, old(texture)@, final(self).nodes@, final(texture)@),
    {
        let name = match texture.material_name() {
            Some(name) => name,
            None => {
                return;
            },
        };
        let ghost n0 = self.nodes@;
        let texture_node = self.bind_texture(name);
        let ghost n1 = self.nodes@;
        let sampler_node = self.bind_sampler(name);
        proof {
            assert(self.nodes@[n0.len() as int] == n1[n0.len() as int]);
        }
        texture.set_bound(texture_node, 0, sampler_node, 0);
    }

    /// The base colour node for the given pins.
    pub fn base_color(
        &mut self,
        uv: NodeId,
        color: &ExpressionInput<super::function::PinVec3>,
        use_texture: &ExpressionInput<bool>,
        texture: &ExpressionTexture,
    ) -> (r: NodeId)
        requires
            color@ is Node,
            use_texture@ is Node,
            texture@ is Bound,
        ensures
            appended_one(old(self).nodes@, final(self).nodes@),
            final(self).nodes@.last().node matches NodeChunk::MaterialBaseColor(c) && c.uv.node
                == uv && c.uv.output_index == 0 && c.color.node == input_node(color@)
                && c.use_texture.node == input_node(use_texture@) && c.texture.node
                == texture.texture_node_spec() && c.sampler.node == texture.sampler_node_spec(),
            r == old(self).nodes@.len() as NodeId,
    {
        self.allocate(
            NodeChunk::MaterialBaseColor(
                MaterialBaseColorNode::new(
                    NodeExpressionInput::new(uv, 0),
                    color.as_chunk_input(),
                    use_texture.as_chunk_input(),
                    texture.texture_input(),
                    texture.sampler_input(),
                ),
            ),
        )
    }

    /// The roughness node for the given pins.
    pub fn roughness(
        &mut self,
        uv: NodeId,
        roughness: &ExpressionInput<super::function::PinF32>,
        use_texture: &ExpressionInput<bool>,
        texture: &ExpressionTexture,
    ) -> (r: NodeId)
        requires
            roughness@ is Node,
            use_texture@ is Node,
            texture@ is Bound,
        ensures
            appended_one(old(self).nodes@, final(self).nodes@),
            final(self).nodes@.last().node matches NodeChunk::MaterialRoughness(c) && c.uv.node
                == uv && c.uv.output_index == 0 && c.roughness.node == input_node(roughness@)
                && c.use_texture.node == input_node(use_texture@) && c.texture.node
                == texture.texture_node_spec() && c.sampler.node == texture.sampler_node_spec(),
            r == old(self).nodes@.len() as NodeId,
    {
        self.allocate(
            NodeChunk::MaterialRoughness(
                MaterialRoughnessNode::new(
                    NodeExpressionInput::new(uv, 0),
                    roughness.as_chunk_input(),
                    use_texture.as_chunk_input(),
                    texture.texture_input(),
                    texture.sampler_input(),
                ),
            ),
        )
    }

    /// The normal node for the given pins.
    pub fn normal(
        &mut self,
        uv: NodeId,
        use_texture: &ExpressionInput<bool>,
        texture: &ExpressionTexture,
    ) -> (r: NodeId)
        requires
            use_texture@ is Node,
            texture@ is Bound,
        ensures
            appended_one(old(self).nodes@, final(self).nodes@),
            final(self).nodes@.last().node matches NodeChunk::MaterialNormal(c) && c.uv.node == uv
                && c.uv.output_index == 0 && c.use_texture.node == input_node(use_texture@)
                && c.texture.node == texture.texture_node_spec() && c.sampler.node
                == texture.sampler_node_spec(),
            r == old(self).nodes@.len() as NodeId,
    {
        self.allocate(
            NodeChunk::MaterialNormal(
                MaterialNormalNode::new(
                    NodeExpressionInput::new(uv, 0),
                    use_texture.as_chunk_input(),
                    texture.texture_input(),
                    texture.sampler_input(),
                ),
            ),
        )
    }

    /// The physically based shading node over the given nodes.
    pub fn pbr_shader(
        &mut self,
        base_color: NodeId,
        normal: NodeId,
        roughness: NodeId,
        metallic: NodeId,
        alpha: NodeId,
        lit: NodeId,
        cast_shadows: NodeId,
        grayscale: NodeId,
    ) -> (r: NodeId)
        ensures
            appended(
                old(self).nodes@,
                final(self).nodes@,
                NodeChunk::PbrShader(
                    PbrShaderNode {
                        base_rgba: base_color,
                        normal,
                        roughness,
                        metallic,
                        alpha,
                        lit,
                        cast_shadows,
                        grayscale,
                    },
                ),
            ),
            r == old(self).nodes@.len() as NodeId,
    {
        self.allocate(
            NodeChunk::PbrShader(
                PbrShaderNode::new(
                    base_color,
                    normal,
                    roughness,
                    metallic,
                    alpha,
                    lit,
                    cast_shadows,
                    grayscale,
                ),
            ),
        )
    }

    pub fn pick_color(&mut self) -> (r: NodeId)
        ensures
            appended(old(self).nodes@, final(self).nodes@, NodeChunk::PickColor(PickColorNode)),
            r == old(self).nodes@.len() as NodeId,
    {
        self.allocate(NodeChunk::PickColor(PickColorNode))
    }

    /// A float constant, given as the text `Display` renders it with.
    pub fn constant_f32(&mut self, display: &str) -> (r: NodeId)
        ensures
            appended_one(old(self).nodes@, final(self).nodes@),
            named_node(final(self).nodes@.last().node) == Some((3u8, display@)),
            r == old(self).nodes@.len() as NodeId,
    {
        self.allocate(NodeChunk::ConstantF32(ConstantF32Node::new(display)))
    }

    pub fn add(&mut self, a: NodeId, b: NodeId) -> (r: NodeId)
        ensures
            appended(old(self).nodes@, final(self).nodes@, NodeChunk::Math(MathNode { a, b, op: MathOp::Add })),
            r == old(self).nodes@.len() as NodeId,
    {
        self.allocate(NodeChunk::Math(MathNode::new(a, b, MathOp::Add)))
    }

    pub fn sub(&mut self, a: NodeId, b: NodeId) -> (r: NodeId)
        ensures
            appended(old(self).nodes@, final(self).nodes@, NodeChunk::Math(MathNode { a, b, op: MathOp::Sub })),
            r == old(self).nodes@.len() as NodeId,
    {
        self.allocate(NodeChunk::Math(MathNode::new(a, b, MathOp::Sub)))
    }

    pub fn mul(&mut self, a: NodeId, b: NodeId) -> (r: NodeId)
        ensures
            appended(old(self).nodes@, final(self).nodes@, NodeChunk::Math(MathNode { a, b, op: MathOp::Mul })),
            r == old(self).nodes@.len() as NodeId,
    {
        self.allocate(NodeChunk::Math(MathNode::new(a, b, MathOp::Mul)))
    }

    pub fn div(&mut self, a: NodeId, b: NodeId) -> (r: NodeId)
        ensures
            appended(old(self).nodes@, final(self).nodes@, NodeChunk::Math(MathNode { a, b, op: MathOp::Div })),
            r == old(self).nodes@.len() as NodeId,
    {
        self.allocate(NodeChunk::Math(MathNode::new(a, b, MathOp::Div)))
    }

    /// A call of the WGSL function `name` with the given arguments.
    pub fn call(&mut self, name: &str, args: Vec<NodeId>) -> (r: NodeId)
        ensures
            appended_one(old(self).nodes@, final(self).nodes@),
            final(self).nodes@.last().node matches NodeChunk::FunctionCall(c) && c.name@ == name@
                && c.deps@ == args@,
            r == old(self).nodes@.len() as NodeId,
    {
        self.allocate(NodeChunk::FunctionCall(FunctionCallNode::new(name, args)))
    }

    /// The component selection `component` of node `id`.
    pub fn swizzle(&mut self, id: NodeId, component: &str) -> (r: NodeId)
        ensures
            appended_one(old(self).nodes@, final(self).nodes@),
            final(self).nodes@.last().node matches NodeChunk::Swizzle(c) && c.input == id
                && c.component@ == component@,
            r == old(self).nodes@.len() as NodeId,
    {
        self.allocate(NodeChunk::Swizzle(SwizzleNode::new(id, component)))
    }

    /// The fragment body computing node `output`.
    pub fn compile_output(&self, output: NodeId) -> (r: ShaderCompilationOutput)
        requires
            acyclic_from(self.nodes@, output as int),
        ensures
            r.lines.deep_view() == compiled_lines(self.nodes@, output as int),
            r.result_expr@ == expr_of(self.nodes@, output as int),
    {
        compile_output_from_nodes(self.nodes.as_slice(), output)
    }

    /// The mesh shader of `pass` for node `output` of this graph; `None`
    /// when `output` is not a node of the graph, or a node it reads,
    /// directly or through others, is not one or lies on a cycle.
    pub fn mesh_shader_for(&self, output: NodeId, pass: MeshPass) -> (r: Option<String>)
        ensures
            match r {
                Some(s) => graph_mesh_shader(self.nodes@, output as int, pass) == Some(s@),
                None => graph_mesh_shader(self.nodes@, output as int, pass) is None,
            },
    {
        if !is_acyclic_from(self.nodes.as_slice(), output) {
            return None;
        }
        let compiled = self.compile_output(output);
        Some(ShaderGenerator::build_mesh_shader(&compiled, pass))
    }

    /// The mesh shader of `pass` for output `output_index` of `material`:
    /// a fresh graph, the material's pins bound in it, the material compiled
    /// into it. The result is the text [`MaterialExpression::mesh_text`]
    /// states, `None` exactly when it states none (the material's graph
    /// lacks the node its compilation returns, or a node that node reads
    /// lies on a cycle or is not in the graph); always text for a material
    /// that [`MaterialExpression::builds`]. No pin may be unbound. The
    /// material keeps its pins' names, so that compiling it again gives the
    /// same text.
    pub fn compile_mesh<M: MaterialExpression>(
        material: &mut M,
        output_index: u32,
        pass: MeshPass,
    ) -> (r: Option<String>)
        requires
            old(material).pins_set(),
        ensures
            final(material).pins_set(),
            final(material).builds() == old(material).builds(),
            old(material).builds() ==> r is Some,
            match r {
                Some(s) => old(material).mesh_text(output_index, pass) == Some(s@),
                None => old(material).mesh_text(output_index, pass) is None,
            },
            forall|i: u32, p: MeshPass| #[trigger] final(material).mesh_text(i, p) == old(material).mesh_text(i, p),
    {
        let ghost m0 = *material;
        let mut compiler = Self::new();
        material.bind_inputs(&mut compiler);
        let ghost g1 = compiler.nodes@;
        assert(M::bound_from(m0, *material, g1));
        let output = material.compile(&mut compiler, output_index);
        compiler.mesh_shader_for(output, pass)
    }

    /// The picking shader of a mesh: the fragment returns the pick colour.
    pub fn compile_mesh_picking() -> (r: String)
        ensures
            r@ == mesh_shader_text(seq![], "pick.color"@, MeshPass::Picking),
    {
        let mut compiler = Self::new();
        let output = compiler.pick_color();
        proof {
            let n = compiler.nodes@;
            assert(node_deps(n[0].node) =~= Seq::<NodeId>::empty());
            let rank = seq![0int];
            assert(super::topo::reads_ranked(n, rank, 0));
            super::topo::lemma_ranked_everywhere(n, rank, 0);
            super::topo::lemma_topo_order(n, 0);
            let o = topo_order(n, 0);
            assert(o.len() == 1) by {
                assert(o.last() == 0);
                assert forall|i: int| 0 <= i < o.len() implies o[i] == 0 by {}
                if o.len() > 1 {
                    assert(o[0] != o[1]);
                }
            }
            assert(o.drop_last() =~= Seq::<NodeId>::empty());
            super::chunks::lemma_expr_of_unfold(n, 0);
        }
        let compiled = compiler.compile_output(output);
        proof {
            let n = compiler.nodes@;
            let o = topo_order(n, 0);
            assert(emit_of(n, 0) is None);
            assert(emitted(n, o.drop_last()) =~= Seq::<Seq<char>>::empty());
            assert(compiled_lines(n, 0) =~= Seq::<Seq<char>>::empty());
            assert(compiled.lines.deep_view() =~= Seq::<Seq<char>>::empty());
            assert(compiled.result_expr@ == "pick.color"@);
        }
        ShaderGenerator::build_mesh_shader(&compiled, MeshPass::Picking)
    }

    /// The base, picking and shadow shaders of `material`, each for its
    /// output `0`; `None` exactly when the base or the shadow shader cannot
    /// be built (see [`Self::compile_mesh`]).
    pub fn compile_shader_set<M: MaterialExpression>(material: &mut M) -> (r: Option<
        MaterialShaderSetCode,
    >)
        requires
            old(material).pins_set(),
        ensures
            final(material).pins_set(),
            final(material).builds() == old(material).builds(),
            old(material).builds() ==> r is Some,
            match r {
                Some(set) => {
                    &&& old(material).mesh_text(0, MeshPass::Base) == Some(set.base@)
                    &&& set.picking@ == mesh_shader_text(seq![], "pick.color"@, MeshPass::Picking)
                    &&& old(material).mesh_text(0, MeshPass::Shadow) == Some(set.shadow@)
                },
                None => old(material).mesh_text(0, MeshPass::Base) is None || old(material).mesh_text(
                    0,
                    MeshPass::Shadow,
                ) is None,
            },
            forall|i: u32, p: MeshPass| #[trigger] final(material).mesh_text(i, p) == old(material).mesh_text(i, p),
    {
        let base = match Self::compile_mesh(material, 0, MeshPass::Base) {
            Some(s) => s,
            None => {
                return None;
            },
        };
        let picking = Self::compile_mesh_picking();
        let shadow = match Self::compile_mesh(material, 0, MeshPass::Shadow) {
            Some(s) => s,
            None => {
                return None;
            },
        };
        Some(MaterialShaderSetCode { base, picking, shadow })
    }
}

/// The shader text a graph yields for node `output` as post-process shader
/// (`fragment_only` selects the fragment entry point alone).
pub open spec fn graph_post_process_shader(
    nodes: Seq<RawChunk>,
    output: int,
    fragment_only: bool,
) -> Option<Seq<char>> {
    if acyclic_from(nodes, output) {
        if fragment_only {
            Some(post_process_fragment_text(compiled_lines(nodes, output), expr_of(nodes, output)))
        } else {
            Some(post_process_shader_text(compiled_lines(nodes, output), expr_of(nodes, output)))
        }
    } else {
        None
    }
}

/// Builder of the node graph of a post-process pass.
pub struct PostProcessCompiler {
    pub nodes: Vec<RawChunk>,
}

impl PostProcessCompiler {
    pub fn new() -> (r: Self)
        ensures
            r.nodes@ == Seq::<RawChunk>::empty(),
    {
        Self { nodes: Vec::new() }
    }

    /// Appends `node`; its id is the former node count.
    pub fn allocate(&mut self, node: NodeChunk) -> (r: NodeId)
        ensures
            appended(old(self).nodes@, final(self).nodes@, node),
            r == old(self).nodes@.len() as NodeId,
    {
        let id = self.nodes.len() as NodeId;
        self.nodes.push(RawChunk { node });
        id
    }

    pub fn vertex_uv(&mut self) -> (r: NodeId)
        ensures
            appended(old(self).nodes@, final(self).nodes@, NodeChunk::VertexUv(VertexUvNode)),
            r == old(self).nodes@.len() as NodeId,
    {
        self.allocate(NodeChunk::VertexUv(VertexUvNode))
    }

    /// The input colour texture and its sampler, as two new nodes.
    pub fn post_surface_input(&mut self) -> (r: (NodeId, NodeId))
        ensures
            final(self).nodes@ == old(self).nodes@.push(
                RawChunk { node: NodeChunk::PostSurfaceTexture(PostSurfaceTextureNode) },
            ).push(RawChunk { node: NodeChunk::PostSurfaceSampler(PostSurfaceSamplerNode) }),
            r == (old(self).nodes@.len() as NodeId, (old(self).nodes@.len() + 1) as NodeId),
    {
        let t = self.allocate(NodeChunk::PostSurfaceTexture(PostSurfaceTextureNode));
        let s = self.allocate(NodeChunk::PostSurfaceSampler(PostSurfaceSamplerNode));
        (t, s)
    }

    pub fn texture_sample(&mut self, texture: NodeId, sampler: NodeId, uv: NodeId) -> (r: NodeId)
        ensures
            appended(
                old(self).nodes@,
                final(self).nodes@,
                NodeChunk::TextureSample(TextureSampleNode { texture, sampler, uv }),
            ),
            r == old(self).nodes@.len() as NodeId,
    {
        self.allocate(NodeChunk::TextureSample(TextureSampleNode::new(texture, sampler, uv)))
    }

    /// A float constant, given as the text `Display` renders it with.
    pub fn constant_f32(&mut self, display: &str) -> (r: NodeId)
        ensures
            appended_one(old(self).nodes@, final(self).nodes@),
            named_node(final(self).nodes@.last().node) == Some((3u8, display@)),
            r == old(self).nodes@.len() as NodeId,
    {
        self.allocate(NodeChunk::ConstantF32(ConstantF32Node::new(display)))
    }

    pub fn add(&mut self, a: NodeId, b: NodeId) -> (r: NodeId)
        ensures
            appended(old(self).nodes@, final(self).nodes@, NodeChunk::Math(MathNode { a, b, op: MathOp::Add })),
            r == old(self).nodes@.len() as NodeId,
    {
        self.allocate(NodeChunk::Math(MathNode::new(a, b, MathOp::Add)))
    }

    pub fn sub(&mut self, a: NodeId, b: NodeId) -> (r: NodeId)
        ensures
            appended(old(self).nodes@, final(self).nodes@, NodeChunk::Math(MathNode { a, b, op: MathOp::Sub })),
            r == old(self).nodes@.len() as NodeId,
    {
        self.allocate(NodeChunk::Math(MathNode::new(a, b, MathOp::Sub)))
    }

    pub fn mul(&mut self, a: NodeId, b: NodeId) -> (r: NodeId)
        ensures
            appended(old(self).nodes@, final(self).nodes@, NodeChunk::Math(MathNode { a, b, op: MathOp::Mul })),
            r == old(self).nodes@.len() as NodeId,
    {
        self.allocate(NodeChunk::Math(MathNode::new(a, b, MathOp::Mul)))
    }

    pub fn div(&mut self, a: NodeId, b: NodeId) -> (r: NodeId)
        ensures
            appended(old(self).nodes@, final(self).nodes@, NodeChunk::Math(MathNode { a, b, op: MathOp::Div })),
            r == old(self).nodes@.len() as NodeId,
    {
        self.allocate(NodeChunk::Math(MathNode::new(a, b, MathOp::Div)))
    }

    /// A call of the WGSL function `name` with the given arguments.
    pub fn call(&mut self, name: &str, args: Vec<NodeId>) -> (r: NodeId)
        ensures
            appended_one(old(self).nodes@, final(self).nodes@),
            final(self).nodes@.last().node matches NodeChunk::FunctionCall(c) && c.name@ == name@
                && c.deps@ == args@,
            r == old(self).nodes@.len() as NodeId,
    {
        self.allocate(NodeChunk::FunctionCall(FunctionCallNode::new(name, args)))
    }

    /// The component selection `component` of node `id`.
    pub fn swizzle(&mut self, id: NodeId, component: &str) -> (r: NodeId)
        ensures
            appended_one(old(self).nodes@, final(self).nodes@),
            final(self).nodes@.last().node matches NodeChunk::Swizzle(c) && c.input == id
                && c.component@ == component@,
            r == old(self).nodes@.len() as NodeId,
    {
        self.allocate(NodeChunk::Swizzle(SwizzleNode::new(id, component)))
    }

    /// The fragment body computing node `output`.
    pub fn compile_output(&self, output: NodeId) -> (r: ShaderCompilationOutput)
        requires
            acyclic_from(self.nodes@, output as int),
        ensures
            r.lines.deep_view() == compiled_lines(self.nodes@, output as int),
            r.result_expr@ == expr_of(self.nodes@, output as int),
    {
        compile_output_from_nodes(self.nodes.as_slice(), output)
    }

    /// The post-process shader (or, with `fragment_only`, its fragment entry
    /// point alone) for node `output` of this graph; `None` as for
    /// [`MaterialCompiler::mesh_shader_for`].
    pub fn post_process_shader_for(&self, output: NodeId, fragment_only: bool) -> (r: Option<String>)
        ensures
            match r {
                Some(s) => graph_post_process_shader(self.nodes@, output as int, fragment_only)
                    == Some(s@),
                None => graph_post_process_shader(self.nodes@, output as int, fragment_only) is None,
            },
    {
        if !is_acyclic_from(self.nodes.as_slice(), output) {
            return None;
        }
        let compiled = self.compile_output(output);
        if fragment_only {
            Some(ShaderGenerator::build_post_process_fragment(&compiled))
        } else {
            Some(ShaderGenerator::build_post_process_shader(&compiled))
        }
    }

    /// The post-process shader for output `output_index` of `material`,
    /// compiled into a fresh graph: the text that
    /// [`PostProcessMaterialExpression::post_process_text`] states, `None`
    /// exactly when it states none (the material's graph has no shader for
    /// the node its compilation returns, see [`graph_post_process_shader`]).
    pub fn compile_post_process<M: PostProcessMaterialExpression>(
        material: &M,
        output_index: u32,
    ) -> (r: Option<String>)
        ensures
            match r {
                Some(s) => material.post_process_text(output_index, false) == Some(s@),
                None => material.post_process_text(output_index, false) is None,
            },
    {
        let mut compiler = Self::new();
        let output = material.compile(&mut compiler, output_index);
        compiler.post_process_shader_for(output, false)
    }

    /// The fragment entry point for output `output_index` of `material`,
    /// compiled into a fresh graph; `None` as for
    /// [`Self::compile_post_process`].
    pub fn compile_post_process_fragment<M: PostProcessMaterialExpression>(
        material: &M,
        output_index: u32,
    ) -> (r: Option<String>)
        ensures
            match r {
                Some(s) => material.post_process_text(output_index, true) == Some(s@),
                None => material.post_process_text(output_index, true) is None,
            },
    {
        let mut compiler = Self::new();
        let output = material.compile(&mut compiler, output_index);
        compiler.post_process_shader_for(output, true)
    }
}

} // verus!
