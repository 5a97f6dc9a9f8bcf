//! Material expressions: typed input pins that refer to material
//! parameters or graph nodes, and the materials built from them.
use super::chunks::{
    emit_of, expr_of, expr_table, lemma_expr_of_unfold, lookup_all, pv,
    NodeChunk, NodeExpressionInput, NodeId, PbrShaderNode, PostSurfaceSamplerNode, PostSurfaceTextureNode,
    RawChunk, TextureSampleNode, VertexUvNode,
};
use super::compiler::{
    bind_input_post, bind_texture_post, compiled_lines, emitted, graph_mesh_shader, graph_post_process_shader,
    MaterialCompiler, PostProcessCompiler,
};
use super::generator::{post_process_fragment_text, post_process_shader_text, MeshPass};
use super::pbr_graph::{
    lemma_bind_input_step, lemma_bind_texture_step, lemma_input_key_kept, lemma_named_pbr_shader_builds,
    lemma_pbr_shape_text, pins_all_named,
    lemma_pin_offset_bounds, lemma_pins_placed_extend, lemma_texture_key_kept, pbr_key, pbr_mesh_text, pbr_reads,
    pbr_shape, pin_offset, pins_placed,
};
use super::topo::{acyclic_from, dfs, dfs_deps, lemma_ranked_everywhere, reads_ranked, topo_order};
use super::value::MaterialValueType;
use std::marker::PhantomData;
use vstd::prelude::*;

verus! {

/// A named output of a material expression.
#[derive(Clone, Copy, Debug, PartialEq, Eq)]
pub struct MaterialExpressionValue {
    pub name: &'static str,
    pub value_type: MaterialValueType,
}

/// The type a pin carries.
pub trait MaterialPinType {
    const VALUE_TYPE: MaterialValueType;
}

/// A pin carrying a 32-bit float.
#[derive(Clone, Copy, Debug, PartialEq, Eq)]
pub struct PinF32;

/// A pin carrying a two-component float vector.
#[derive(Clone, Copy, Debug, PartialEq, Eq)]
pub struct PinVec2;

/// A pin carrying a three-component float vector.
#[derive(Clone, Copy, Debug, PartialEq, Eq)]
pub struct PinVec3;

/// A pin carrying a four-component float vector.
#[derive(Clone, Copy, Debug, PartialEq, Eq)]
pub struct PinVec4;

impl MaterialPinType for PinF32 {
    const VALUE_TYPE: MaterialValueType = MaterialValueType::F32;
}

impl MaterialPinType for u32 {
    const VALUE_TYPE: MaterialValueType = MaterialValueType::U32;
}

impl MaterialPinType for bool {
    const VALUE_TYPE: MaterialValueType = MaterialValueType::Bool;
}

impl MaterialPinType for PinVec2 {
    const VALUE_TYPE: MaterialValueType = MaterialValueType::Vec2;
}

impl MaterialPinType for PinVec3 {
    const VALUE_TYPE: MaterialValueType = MaterialValueType::Vec3;
}

impl MaterialPinType for PinVec4 {
    const VALUE_TYPE: MaterialValueType = MaterialValueType::Vec4;
}

/// Where an input pin takes its value from.
#[derive(Clone, Copy, Debug, PartialEq, Eq)]
pub enum ExpressionInputSource {
    Unbound,
    Parameter(&'static str),
    Node { parameter: Option<&'static str>, node: NodeId, output_index: u32 },
}

/// A typed input pin of a material expression.
#[derive(Debug, Copy, PartialEq, Eq)]
pub struct ExpressionInput<T: MaterialPinType> {
    source: ExpressionInputSource,
    marker: PhantomData<T>,
}

impl<T: MaterialPinType> Clone for ExpressionInput<T> {
    fn clone(&self) -> (r: Self)
        ensures
            r@ == self@,
    {
        Self { source: self.source, marker: PhantomData }
    }
}

impl<T: MaterialPinType> View for ExpressionInput<T> {
    type V = ExpressionInputSource;

    closed spec fn view(&self) -> ExpressionInputSource {
        self.source
    }
}

/// The material parameter a source names, if any.
pub open spec fn input_parameter(s: ExpressionInputSource) -> Option<&'static str> {
    match s {
        ExpressionInputSource::Parameter(name) => Some(name),
        ExpressionInputSource::Node { parameter, .. } => parameter,
        ExpressionInputSource::Unbound => None,
    }
}

/// The node a source reads; `0` when it reads none.
pub open spec fn input_node(s: ExpressionInputSource) -> NodeId {
    match s {
        ExpressionInputSource::Node { node, .. } => node,
        _ => 0,
    }
}

/// The node output a source reads; `0` when it reads none.
pub open spec fn input_output_index(s: ExpressionInputSource) -> u32 {
    match s {
        ExpressionInputSource::Node { output_index, .. } => output_index,
        _ => 0,
    }
}

impl<T: MaterialPinType> ExpressionInput<T> {
    pub fn unbound() -> (r: Self)
        ensures
            r@ == ExpressionInputSource::Unbound,
    {
        Self { source: ExpressionInputSource::Unbound, marker: PhantomData }
    }

    /// A pin that reads the material parameter `name`.
    pub fn material(name: &'static str) -> (r: Self)
        ensures
            r@ == ExpressionInputSource::Parameter(name),
    {
        Self { source: ExpressionInputSource::Parameter(name), marker: PhantomData }
    }

    /// A pin that reads output `output_index` of node `node`.
    pub fn bound(node: NodeId, output_index: u32) -> (r: Self)
        ensures
            r@ == (ExpressionInputSource::Node { parameter: None, node, output_index }),
    {
        Self {
            source: ExpressionInputSource::Node { parameter: None, node, output_index },
            marker: PhantomData,
        }
    }

    /// Binds this pin in `compiler` (see [`MaterialCompiler::bind_expression_input`]).
    pub fn bind(&mut self, compiler: &mut MaterialCompiler)
        requires
            !(old(self)@ is Unbound),
        ensures
            bind_input_post(old(compiler).nodes@, old(self)@, final(compiler).nodes@, final(self)@),
    {
        compiler.bind_expression_input(self);
    }

    pub fn material_name(&self) -> (r: Option<&'static str>)
        ensures
            r == input_parameter(self@),
    {
        match self.source {
            ExpressionInputSource::Parameter(name) => Some(name),
            ExpressionInputSource::Node { parameter, .. } => parameter,
            ExpressionInputSource::Unbound => None,
        }
    }

    pub fn is_unbound(&self) -> (r: bool)
        ensures
            r == (self@ is Unbound),
    {
        match self.source {
            ExpressionInputSource::Unbound => true,
            _ => false,
        }
    }

    /// Points this pin at output `output_index` of `node`, keeping the
    /// parameter name it had.
    pub fn set_bound(&mut self, node: NodeId, output_index: u32)
        ensures
            final(self)@ == (ExpressionInputSource::Node {
                parameter: input_parameter(old(self)@),
                node,
                output_index,
            }),
    {
        let parameter = self.material_name();
        self.source = ExpressionInputSource::Node { parameter, node, output_index };
    }

    /// The node this pin reads. The pin must be bound to a node: reading
    /// one that is not stops the engine with a panic.
    pub fn node(&self) -> (r: NodeId)
        requires
            self@ is Node,
        ensures
            r == input_node(self@),
    {
        match self.source {
            ExpressionInputSource::Node { node, .. } => node,
            _ => 0,
        }
    }

    pub fn output_index(&self) -> (r: u32)
        ensures
            r == input_output_index(self@),
    {
        match self.source {
            ExpressionInputSource::Node { output_index, .. } => output_index,
            _ => 0,
        }
    }

    pub fn as_chunk_input(&self) -> (r: NodeExpressionInput)
        requires
            self@ is Node,
        ensures
            r.node == input_node(self@),
            r.output_index == input_output_index(self@),
    {
        NodeExpressionInput::new(self.node(), self.output_index())
    }
}

/// Where a texture pin takes its texture and sampler from.
#[derive(Clone, Copy, Debug, PartialEq, Eq)]
pub enum ExpressionTextureSource {
    Unbound,
    Material(&'static str),
    Bound {
        material: Option<&'static str>,
        texture_node: NodeId,
        texture_output_index: u32,
        sampler_node: NodeId,
        sampler_output_index: u32,
    },
}

/// A texture-and-sampler input pin of a material expression.
#[derive(Clone, Copy, Debug)]
pub struct ExpressionTexture {
    source: ExpressionTextureSource,
}

impl View for ExpressionTexture {
    type V = ExpressionTextureSource;

    closed spec fn view(&self) -> ExpressionTextureSource {
        self.source
    }
}

/// The material texture a texture source names, if any.
pub open spec fn texture_material(s: ExpressionTextureSource) -> Option<&'static str> {
    match s {
        ExpressionTextureSource::Material(name) => Some(name),
        ExpressionTextureSource::Bound { material, .. } => material,
        ExpressionTextureSource::Unbound => None,
    }
}

impl ExpressionTexture {
    pub fn unbound() -> (r: Self)
        ensures
            r@ == ExpressionTextureSource::Unbound,
    {
        Self { source: ExpressionTextureSource::Unbound }
    }

    /// A pin that reads the material texture `name` and its sampler.
    pub fn material(name: &'static str) -> (r: Self)
        ensures
            r@ == ExpressionTextureSource::Material(name),
    {
        Self { source: ExpressionTextureSource::Material(name) }
    }

    pub fn bound(
        texture_node: NodeId,
        texture_output_index: u32,
        sampler_node: NodeId,
        sampler_output_index: u32,
    ) -> (r: Self)
        ensures
            r@ == (ExpressionTextureSource::Bound {
                material: None,
                texture_node,
                texture_output_index,
                sampler_node,
                sampler_output_index,
            }),
    {
        Self {
            source: ExpressionTextureSource::Bound {
                material: None,
                texture_node,
                texture_output_index,
                sampler_node,
                sampler_output_index,
            },
        }
    }

    /// Binds this pin in `compiler` (see [`MaterialCompiler::bind_expression_texture`]).
    pub fn bind(&mut self, compiler: &mut MaterialCompiler)
        requires
            !(old(self)@ is Unbound),
        ensures
            bind_texture_post(
                old(compiler).nodes@,
                old(self)@,
                final(compiler).nodes@,
                final(self)@,
            ),
    {
        compiler.bind_expression_texture(self);
    }

    pub fn material_name(&self) -> (r: Option<&'static str>)
        ensures
            r == texture_material(self@),
    {
        match self.source {
            ExpressionTextureSource::Material(name) => Some(name),
            ExpressionTextureSource::Bound { material, .. } => material,
            ExpressionTextureSource::Unbound => None,
        }
    }

    pub fn is_unbound(&self) -> (r: bool)
        ensures
            r == (self@ is Unbound),
    {
        match self.source {
            ExpressionTextureSource::Unbound => true,
            _ => false,
        }
    }

    /// Points this pin at the given texture and sampler node outputs,
    /// keeping the material texture name it had.
    pub fn set_bound(
        &mut self,
        texture_node: NodeId,
        texture_output_index: u32,
        sampler_node: NodeId,
        sampler_output_index: u32,
    )
        ensures
            final(self)@ == (ExpressionTextureSource::Bound {
                material: texture_material(old(self)@),
                texture_node,
                texture_output_index,
                sampler_node,
                sampler_output_index,
            }),
    {
        let material = self.material_name();
        self.source =
            ExpressionTextureSource::Bound {
                material,
                texture_node,
                texture_output_index,
                sampler_node,
                sampler_output_index,
            };
    }

    /// The texture node. The pin must be bound to nodes: reading one that
    /// is not stops the engine with a panic.
    pub fn texture_node(&self) -> (r: NodeId)
        requires
            self@ is Bound,
        ensures
            r == (match self@ {
                ExpressionTextureSource::Bound { texture_node, .. } => texture_node,
                _ => 0,
            }),
    {
        match self.source {
            ExpressionTextureSource::Bound { texture_node, .. } => texture_node,
            _ => 0,
        }
    }

    pub fn texture_output_index(&self) -> (r: u32)
        ensures
            r == (match self@ {
                ExpressionTextureSource::Bound { texture_output_index, .. } => texture_output_index,
                _ => 0,
            }),
    {
        match self.source {
            ExpressionTextureSource::Bound { texture_output_index, .. } => texture_output_index,
            _ => 0,
        }
    }

    /// The sampler node. The pin must be bound to nodes: reading one that
    /// is not stops the engine with a panic.
    pub fn sampler_node(&self) -> (r: NodeId)
        requires
            self@ is Bound,
        ensures
            r == (match self@ {
                ExpressionTextureSource::Bound { sampler_node, .. } => sampler_node,
                _ => 0,
            }),
    {
        match self.source {
            ExpressionTextureSource::Bound { sampler_node, .. } => sampler_node,
            _ => 0,
        }
    }

    pub fn sampler_output_index(&self) -> (r: u32)
        ensures
            r == (match self@ {
                ExpressionTextureSource::Bound { sampler_output_index, .. } => sampler_output_index,
                _ => 0,
            }),
    {
        match self.source {
            ExpressionTextureSource::Bound { sampler_output_index, .. } => sampler_output_index,
            _ => 0,
        }
    }

    pub fn texture_input(&self) -> (r: NodeExpressionInput)
        requires
            self@ is Bound,
        ensures
            r.node == self.texture_node_spec(),
            r.output_index == self@->texture_output_index,
    {
        NodeExpressionInput::new(self.texture_node(), self.texture_output_index())
    }

    pub fn sampler_input(&self) -> (r: NodeExpressionInput)
        requires
            self@ is Bound,
        ensures
            r.node == self.sampler_node_spec(),
            r.output_index == self@->sampler_output_index,
    {
        NodeExpressionInput::new(self.sampler_node(), self.sampler_output_index())
    }

    pub open spec fn texture_node_spec(&self) -> NodeId {
        match self@ {
            ExpressionTextureSource::Bound { texture_node, .. } => texture_node,
            _ => 0,
        }
    }

    pub open spec fn sampler_node_spec(&self) -> NodeId {
        match self@ {
            ExpressionTextureSource::Bound { sampler_node, .. } => sampler_node,
            _ => 0,
        }
    }
}


/// A material expression: binds its pins and builds its node graph.
///
/// A verified implementation states, by [`Self::mesh_text`] and
/// [`Self::bound_from`], which graph binding its pins in an empty compiler
/// and then compiling it builds; the defaults are unspecified, so that
/// nothing can be proved of an expression that keeps them. An expression
/// without pins binds nothing, with an empty [`Self::bind_inputs`].
pub trait MaterialExpression: Sized {
    /// The mesh shader of `pass` for output `output_index`: the text of the
    /// graph that binding this expression's pins in an empty compiler and
    /// then compiling it builds, for the node compiling returns; `None`
    /// where that graph has no shader for that node (see
    /// [`graph_mesh_shader`]).
    open spec fn mesh_text(&self, output_index: u32, pass: MeshPass) -> Option<Seq<char>> {
        arbitrary()
    }

    /// `after` is `before` with its pins bound in an empty compiler, which
    /// then holds `graph`.
    open spec fn bound_from(before: Self, after: Self, graph: Seq<RawChunk>) -> bool {
        arbitrary()
    }

    /// No pin is unbound: the pins can be bound.
    open spec fn pins_set(&self) -> bool {
        arbitrary()
    }

    /// Every pin reads a node: the expression can be compiled.
    open spec fn pins_bound(&self) -> bool {
        arbitrary()
    }

    /// The graph of the expression always builds: its shader exists for
    /// every pass.
    open spec fn builds(&self) -> bool {
        arbitrary()
    }

    /// Binds the pins that name material parameters in `compiler`. Binding
    /// keeps the shader the expression yields: its pins keep their names.
    /// No pin may be unbound (an unbound pin stops the engine with a panic);
    /// afterwards every pin reads a node.
    fn bind_inputs(&mut self, compiler: &mut MaterialCompiler)
        requires
            old(self).pins_set(),
        ensures
            final(self).pins_set(),
            final(self).pins_bound(),
            final(self).builds() == old(self).builds(),
            old(compiler).nodes@.len() == 0 ==> Self::bound_from(
                *old(self),
                *final(self),
                final(compiler).nodes@,
            ),
            forall|output_index: u32, pass: MeshPass| #[trigger] final(self).mesh_text(output_index, pass)
                == old(self).mesh_text(output_index, pass),
    ;

    /// The values the expression produces.
    fn outputs(&self) -> Vec<MaterialExpressionValue>;

    /// Adds the nodes for output `output_index` and returns the node that
    /// holds it; every pin must read a node. Compiled into the graph its
    /// binding built, the expression yields the shader [`Self::mesh_text`]
    /// states.
    fn compile(&self, compiler: &mut MaterialCompiler, output_index: u32) -> (r: NodeId)
        requires
            self.pins_bound(),
        ensures
            forall|before: Self|
                #[trigger] Self::bound_from(before, *self, old(compiler).nodes@) && before.builds() ==> forall|
                    pass: MeshPass,
                | (#[trigger] graph_mesh_shader(final(compiler).nodes@, r as int, pass)) is Some,
            forall|before: Self| #[trigger] Self::bound_from(before, *self, old(compiler).nodes@) ==> forall|
                pass: MeshPass,
            | #[trigger] graph_mesh_shader(final(compiler).nodes@, r as int, pass) == before.mesh_text(
                output_index,
                pass,
            ),
    ;
}

/// A post-process expression: builds the node graph of a pass.
pub trait PostProcessMaterialExpression {
    /// The shader text (with `fragment_only`, the fragment entry point
    /// alone) that the graph [`Self::compile`] builds in an empty compiler
    /// yields for the node it returns; `None` where that graph has no shader
    /// for that node. A verified implementation states it; the
    /// default is unspecified, so that nothing can be proved of an
    /// expression that keeps it.
    open spec fn post_process_text(&self, output_index: u32, fragment_only: bool) -> Option<Seq<char>> {
        arbitrary()
    }

    /// The values the expression produces.
    fn outputs(&self) -> Vec<MaterialExpressionValue>;

    /// Adds the nodes for output `output_index` and returns the node that
    /// holds it.
    fn compile(&self, compiler: &mut PostProcessCompiler, output_index: u32) -> (r: NodeId)
        ensures
            old(compiler).nodes@.len() == 0 ==> forall|fragment_only: bool|
                #[trigger] graph_post_process_shader(final(compiler).nodes@, r as int, fragment_only)
                    == self.post_process_text(output_index, fragment_only),
    ;
}


/// The physically based surface material, each pin reading the material
/// parameter of the same name by default.
#[derive(Debug)]
pub struct PbrShader {
    pub diffuse: ExpressionInput<PinVec3>,
    pub use_diffuse_texture: ExpressionInput<bool>,
    pub diffuse_texture: ExpressionTexture,
    pub use_normal_texture: ExpressionInput<bool>,
    pub normal_texture: ExpressionTexture,
    pub roughness: ExpressionInput<PinF32>,
    pub use_roughness_texture: ExpressionInput<bool>,
    pub roughness_texture: ExpressionTexture,
    pub metallic: ExpressionInput<PinF32>,
    pub alpha: ExpressionInput<PinF32>,
    pub lit: ExpressionInput<bool>,
    pub cast_shadows: ExpressionInput<bool>,
    pub grayscale_diffuse: ExpressionInput<bool>,
}

impl Default for PbrShader {
    fn default() -> (r: Self)
        ensures
            r.diffuse@ == ExpressionInputSource::Parameter("diffuse"),
            r.use_diffuse_texture@ == ExpressionInputSource::Parameter("use_diffuse_texture"),
            r.diffuse_texture@ == ExpressionTextureSource::Material("diffuse"),
            r.use_normal_texture@ == ExpressionInputSource::Parameter("use_normal_texture"),
            r.normal_texture@ == ExpressionTextureSource::Material("normal"),
            r.roughness@ == ExpressionInputSource::Parameter("roughness"),
            r.use_roughness_texture@ == ExpressionInputSource::Parameter("use_roughness_texture"),
            r.roughness_texture@ == ExpressionTextureSource::Material("roughness"),
            r.metallic@ == ExpressionInputSource::Parameter("metallic"),
            r.alpha@ == ExpressionInputSource::Parameter("alpha"),
            r.lit@ == ExpressionInputSource::Parameter("lit"),
            r.cast_shadows@ == ExpressionInputSource::Parameter("cast_shadows"),
            r.grayscale_diffuse@ == ExpressionInputSource::Parameter("grayscale_diffuse"),
            r.pins_set(),
            r.builds(),
    {
        Self {
            diffuse: ExpressionInput::material("diffuse"),
            use_diffuse_texture: ExpressionInput::material("use_diffuse_texture"),
            diffuse_texture: ExpressionTexture::material("diffuse"),
            use_normal_texture: ExpressionInput::material("use_normal_texture"),
            normal_texture: ExpressionTexture::material("normal"),
            roughness: ExpressionInput::material("roughness"),
            use_roughness_texture: ExpressionInput::material("use_roughness_texture"),
            roughness_texture: ExpressionTexture::material("roughness"),
            metallic: ExpressionInput::material("metallic"),
            alpha: ExpressionInput::material("alpha"),
            lit: ExpressionInput::material("lit"),
            cast_shadows: ExpressionInput::material("cast_shadows"),
            grayscale_diffuse: ExpressionInput::material("grayscale_diffuse"),
        }
    }
}

impl MaterialExpression for PbrShader {
    open spec fn mesh_text(&self, output_index: u32, pass: MeshPass) -> Option<Seq<char>> {
        pbr_mesh_text(pbr_key(*self), pass)
    }

    open spec fn pins_set(&self) -> bool {
        &&& !(self.diffuse@ is Unbound)
        &&& !(self.use_diffuse_texture@ is Unbound)
        &&& !(self.diffuse_texture@ is Unbound)
        &&& !(self.use_normal_texture@ is Unbound)
        &&& !(self.normal_texture@ is Unbound)
        &&& !(self.roughness@ is Unbound)
        &&& !(self.use_roughness_texture@ is Unbound)
        &&& !(self.roughness_texture@ is Unbound)
        &&& !(self.metallic@ is Unbound)
        &&& !(self.alpha@ is Unbound)
        &&& !(self.lit@ is Unbound)
        &&& !(self.cast_shadows@ is Unbound)
        &&& !(self.grayscale_diffuse@ is Unbound)
    }

    /// A PBR material whose pins all name material parameters or textures,
    /// as the default material's do, always builds.
    open spec fn builds(&self) -> bool {
        pins_all_named(pbr_key(*self))
    }

    open spec fn pins_bound(&self) -> bool {
        &&& self.diffuse@ is Node
        &&& self.use_diffuse_texture@ is Node
        &&& self.diffuse_texture@ is Bound
        &&& self.use_normal_texture@ is Node
        &&& self.normal_texture@ is Bound
        &&& self.roughness@ is Node
        &&& self.use_roughness_texture@ is Node
        &&& self.roughness_texture@ is Bound
        &&& self.metallic@ is Node
        &&& self.alpha@ is Node
        &&& self.lit@ is Node
        &&& self.cast_shadows@ is Node
        &&& self.grayscale_diffuse@ is Node
    }

    open spec fn bound_from(before: Self, after: Self, graph: Seq<RawChunk>) -> bool {
        let key = pbr_key(before);
        &&& pbr_key(after) == key
        &&& pbr_reads(after, key)
        &&& graph.len() == pin_offset(key, 13)
        &&& pins_placed(graph, key, 13)
    }

    /// Binds the pins in order: base colour, its texture flag and texture,
    /// the normal-map flag and texture, roughness, its texture flag and
    /// texture, metallic, alpha, lit, shadow casting, greyscale diffuse.
    /// Each pin that names a material parameter or texture gets its nodes
    /// and reads them, keeping its name.
    fn bind_inputs(&mut self, compiler: &mut MaterialCompiler)
        ensures
            pbr_key(*final(self)) == pbr_key(*old(self)),
    {
        let ghost p0 = *self;
        let ghost key = pbr_key(p0);
        let ghost fresh = compiler.nodes@.len() == 0;
        let ghost n0 = compiler.nodes@;
        self.diffuse.bind(compiler);
        proof {
            lemma_input_key_kept(n0, compiler.nodes@, p0.diffuse@, self.diffuse@);
            if fresh {
                lemma_bind_input_step(n0, compiler.nodes@, p0.diffuse@, self.diffuse@, key, 0);
            }
        }
        let ghost n1 = compiler.nodes@;
        self.use_diffuse_texture.bind(compiler);
        proof {
            lemma_input_key_kept(n1, compiler.nodes@, p0.use_diffuse_texture@, self.use_diffuse_texture@);
            if fresh {
                lemma_bind_input_step(n1, compiler.nodes@, p0.use_diffuse_texture@, self.use_diffuse_texture@, key, 1);
            }
        }
        let ghost n2 = compiler.nodes@;
        self.diffuse_texture.bind(compiler);
        proof {
            lemma_texture_key_kept(n2, compiler.nodes@, p0.diffuse_texture, self.diffuse_texture);
            if fresh {
                lemma_bind_texture_step(n2, compiler.nodes@, p0.diffuse_texture, self.diffuse_texture, key, 2);
            }
        }
        let ghost n3 = compiler.nodes@;
        self.use_normal_texture.bind(compiler);
        proof {
            lemma_input_key_kept(n3, compiler.nodes@, p0.use_normal_texture@, self.use_normal_texture@);
            if fresh {
                lemma_bind_input_step(n3, compiler.nodes@, p0.use_normal_texture@, self.use_normal_texture@, key, 3);
            }
        }
        let ghost n4 = compiler.nodes@;
        self.normal_texture.bind(compiler);
        proof {
            lemma_texture_key_kept(n4, compiler.nodes@, p0.normal_texture, self.normal_texture);
            if fresh {
                lemma_bind_texture_step(n4, compiler.nodes@, p0.normal_texture, self.normal_texture, key, 4);
            }
        }
        let ghost n5 = compiler.nodes@;
        self.roughness.bind(compiler);
        proof {
            lemma_input_key_kept(n5, compiler.nodes@, p0.roughness@, self.roughness@);
            if fresh {
                lemma_bind_input_step(n5, compiler.nodes@, p0.roughness@, self.roughness@, key, 5);
            }
        }
        let ghost n6 = compiler.nodes@;
        self.use_roughness_texture.bind(compiler);
        proof {
            lemma_input_key_kept(n6, compiler.nodes@, p0.use_roughness_texture@, self.use_roughness_texture@);
            if fresh {
                lemma_bind_input_step(n6, compiler.nodes@, p0.use_roughness_texture@, self.use_roughness_texture@, key, 6);
            }
        }
        let ghost n7 = compiler.nodes@;
        self.roughness_texture.bind(compiler);
        proof {
            lemma_texture_key_kept(n7, compiler.nodes@, p0.roughness_texture, self.roughness_texture);
            if fresh {
                lemma_bind_texture_step(n7, compiler.nodes@, p0.roughness_texture, self.roughness_texture, key, 7);
            }
        }
        let ghost n8 = compiler.nodes@;
        self.metallic.bind(compiler);
        proof {
            lemma_input_key_kept(n8, compiler.nodes@, p0.metallic@, self.metallic@);
            if fresh {
                lemma_bind_input_step(n8, compiler.nodes@, p0.metallic@, self.metallic@, key, 8);
            }
        }
        let ghost n9 = compiler.nodes@;
        self.alpha.bind(compiler);
        proof {
            lemma_input_key_kept(n9, compiler.nodes@, p0.alpha@, self.alpha@);
            if fresh {
                lemma_bind_input_step(n9, compiler.nodes@, p0.alpha@, self.alpha@, key, 9);
            }
        }
        let ghost n10 = compiler.nodes@;
        self.lit.bind(compiler);
        proof {
            lemma_input_key_kept(n10, compiler.nodes@, p0.lit@, self.lit@);
            if fresh {
                lemma_bind_input_step(n10, compiler.nodes@, p0.lit@, self.lit@, key, 10);
            }
        }
        let ghost n11 = compiler.nodes@;
        self.cast_shadows.bind(compiler);
        proof {
            lemma_input_key_kept(n11, compiler.nodes@, p0.cast_shadows@, self.cast_shadows@);
            if fresh {
                lemma_bind_input_step(n11, compiler.nodes@, p0.cast_shadows@, self.cast_shadows@, key, 11);
            }
        }
        let ghost n12 = compiler.nodes@;
        self.grayscale_diffuse.bind(compiler);
        proof {
            lemma_input_key_kept(n12, compiler.nodes@, p0.grayscale_diffuse@, self.grayscale_diffuse@);
            if fresh {
                lemma_bind_input_step(n12, compiler.nodes@, p0.grayscale_diffuse@, self.grayscale_diffuse@, key, 12);
            }
            assert(pbr_key(*self) =~= key);
        }
    }

    fn outputs(&self) -> (r: Vec<MaterialExpressionValue>)
        ensures
            r@ == seq![MaterialExpressionValue { name: "out", value_type: MaterialValueType::Vec4 }],
    {
        vec![MaterialExpressionValue { name: "out", value_type: MaterialValueType::Vec4 }]
    }

    /// The texture coordinates, base colour, roughness and normal nodes, and
    /// the shading node over them and the scalar pins; the shading node is
    /// the output for every `output_index`. When every pin names a material
    /// parameter or texture, as the default material's do, the shader
    /// builds.
    fn compile(&self, compiler: &mut MaterialCompiler, output_index: u32) -> (r: NodeId)
        ensures
            final(compiler).nodes@.len() == old(compiler).nodes@.len() + 5,
            r == (old(compiler).nodes@.len() + 4) as NodeId,
            final(compiler).nodes@.subrange(0, old(compiler).nodes@.len() as int) == old(compiler).nodes@,
            final(compiler).nodes@[old(compiler).nodes@.len() as int].node == NodeChunk::VertexUv(VertexUvNode),
            final(compiler).nodes@[old(compiler).nodes@.len() as int + 1].node matches NodeChunk::MaterialBaseColor(c)
                && c.uv.node == old(compiler).nodes@.len() as NodeId && c.color.node == input_node(self.diffuse@)
                && c.use_texture.node == input_node(self.use_diffuse_texture@) && c.texture.node
                == self.diffuse_texture.texture_node_spec() && c.sampler.node
                == self.diffuse_texture.sampler_node_spec(),
            final(compiler).nodes@[old(compiler).nodes@.len() as int + 2].node matches NodeChunk::MaterialRoughness(c)
                && c.uv.node == old(compiler).nodes@.len() as NodeId && c.roughness.node == input_node(
                self.roughness@,
            ) && c.use_texture.node == input_node(self.use_roughness_texture@) && c.texture.node
                == self.roughness_texture.texture_node_spec() && c.sampler.node
                == self.roughness_texture.sampler_node_spec(),
            final(compiler).nodes@[old(compiler).nodes@.len() as int + 3].node matches NodeChunk::MaterialNormal(c)
                && c.uv.node == old(compiler).nodes@.len() as NodeId && c.use_texture.node == input_node(
                self.use_normal_texture@,
            ) && c.texture.node == self.normal_texture.texture_node_spec() && c.sampler.node
                == self.normal_texture.sampler_node_spec(),
            final(compiler).nodes@.last().node == NodeChunk::PbrShader(
                PbrShaderNode {
                    base_rgba: (old(compiler).nodes@.len() + 1) as NodeId,
                    normal: (old(compiler).nodes@.len() + 3) as NodeId,
                    roughness: (old(compiler).nodes@.len() + 2) as NodeId,
                    metallic: input_node(self.metallic@),
                    alpha: input_node(self.alpha@),
                    lit: input_node(self.lit@),
                    cast_shadows: input_node(self.cast_shadows@),
                    grayscale: input_node(self.grayscale_diffuse@),
                },
            ),
    {
        let ghost n0 = compiler.nodes@;
        let uv = compiler.vertex_uv();
        let ghost n1 = compiler.nodes@;
        let base_color = compiler.base_color(
            uv,
            &self.diffuse,
            &self.use_diffuse_texture,
            &self.diffuse_texture,
        );
        let roughness = compiler.roughness(
            uv,
            &self.roughness,
            &self.use_roughness_texture,
            &self.roughness_texture,
        );
        let ghost n3 = compiler.nodes@;
        let normal = compiler.normal(uv, &self.use_normal_texture, &self.normal_texture);
        let ghost n4 = compiler.nodes@;
        let metallic = self.metallic.node();
        let alpha = self.alpha.node();
        let lit = self.lit.node();
        let cast_shadows = self.cast_shadows.node();
        let grayscale = self.grayscale_diffuse.node();
        let r = compiler.pbr_shader(
            base_color,
            normal,
            roughness,
            metallic,
            alpha,
            lit,
            cast_shadows,
            grayscale,
        );
        proof {
            let b = n0.len() as int;
            let g = compiler.nodes@;
            assert(g.subrange(0, b) =~= n0);
            assert(g[b] == n1[b]);
            assert(g[b + 1] == n3[b + 1]);
            assert(g[b + 2] == n3[b + 2]);
            assert(g[b + 3] == n4[b + 3]);
            assert forall|before: Self| #[trigger] Self::bound_from(before, *self, n0) implies forall|
                pass: MeshPass,
            | #[trigger] graph_mesh_shader(g, r as int, pass) == before.mesh_text(output_index, pass) by {
                let key = pbr_key(before);
                lemma_pin_offset_bounds(key, 13);
                lemma_pins_placed_extend(n0, g, key, 13);
                assert(g[b + 4] == g.last());
                assert(pbr_shape(g, key));
                lemma_pbr_shape_text(g, key);
            }
            assert forall|before: Self|
                #[trigger] Self::bound_from(before, *self, n0) && pins_all_named(pbr_key(before)) implies forall|
                pass: MeshPass,
            | (#[trigger] graph_mesh_shader(g, r as int, pass)) is Some by {
                let key = pbr_key(before);
                lemma_pin_offset_bounds(key, 13);
                lemma_pins_placed_extend(n0, g, key, 13);
                assert(g[b + 4] == g.last());
                assert(pbr_shape(g, key));
                lemma_pbr_shape_text(g, key);
                lemma_named_pbr_shader_builds(g, key);
            }
        }
        r
    }
}

/// The post-process pass that colour-grades its input unchanged otherwise.
#[derive(Debug, Clone, Copy)]
pub struct PostProcessPassthroughMaterial;

impl PostProcessMaterialExpression for PostProcessPassthroughMaterial {
    fn outputs(&self) -> (r: Vec<MaterialExpressionValue>)
        ensures
            r@ == seq![MaterialExpressionValue { name: "color", value_type: MaterialValueType::Vec4 }],
    {
        vec![MaterialExpressionValue { name: "color", value_type: MaterialValueType::Vec4 }]
    }

    open spec fn post_process_text(&self, output_index: u32, fragment_only: bool) -> Option<Seq<char>> {
        Some(passthrough_text(fragment_only))
    }

    /// Samples the input colour at the texture coordinates and passes the
    /// sample through `post_color_grade`.
    fn compile(&self, compiler: &mut PostProcessCompiler, output_index: u32) -> (r: NodeId)
        ensures
            final(compiler).nodes@.len() == old(compiler).nodes@.len() + 5,
            r == (old(compiler).nodes@.len() + 4) as NodeId,
            final(compiler).nodes@.subrange(0, old(compiler).nodes@.len() as int) == old(compiler).nodes@,
            final(compiler).nodes@[old(compiler).nodes@.len() as int].node == NodeChunk::VertexUv(VertexUvNode),
            final(compiler).nodes@[old(compiler).nodes@.len() as int + 1].node == NodeChunk::PostSurfaceTexture(
                PostSurfaceTextureNode,
            ),
            final(compiler).nodes@[old(compiler).nodes@.len() as int + 2].node == NodeChunk::PostSurfaceSampler(
                PostSurfaceSamplerNode,
            ),
            final(compiler).nodes@[old(compiler).nodes@.len() as int + 3].node == NodeChunk::TextureSample(
                TextureSampleNode {
                    texture: (old(compiler).nodes@.len() + 1) as NodeId,
                    sampler: (old(compiler).nodes@.len() + 2) as NodeId,
                    uv: old(compiler).nodes@.len() as NodeId,
                },
            ),
            final(compiler).nodes@[old(compiler).nodes@.len() as int + 4].node matches NodeChunk::FunctionCall(c)
                && c.name@ == "post_color_grade"@ && c.deps@ == seq![(old(compiler).nodes@.len() + 3) as NodeId],
    {
        let ghost n0 = compiler.nodes@;
        let uv = compiler.vertex_uv();
        let (tex, sampler) = compiler.post_surface_input();
        let sampled = compiler.texture_sample(tex, sampler, uv);
        let ghost n4 = compiler.nodes@;
        let r = compiler.call("post_color_grade", vec![sampled]);
        proof {
            let b = n0.len() as int;
            let g = compiler.nodes@;
            assert(g.subrange(0, b) =~= n0);
            assert(g[b] == n4[b] && g[b + 1] == n4[b + 1] && g[b + 2] == n4[b + 2] && g[b + 3] == n4[b + 3]);
            if b == 0 {
                assert(g[4] == g.last());
                assert(sampled == 3);
                if let NodeChunk::FunctionCall(c) = g[4].node {
                    assert(c.deps@ =~= seq![3u32]);
                }
                lemma_passthrough_graph(g);
            }
        }
        r
    }
}

/// The shader text of the colour-grading pass: one sample of the input
/// colour, passed through `post_color_grade`.
pub open spec fn passthrough_text(fragment_only: bool) -> Seq<char> {
    let sample = "let "@ + pv(3) + ": vec4f = textureSample("@ + "postTexture"@ + ", "@ + "postSampler"@
        + ", "@ + "in.uv"@ + ");"@;
    let result = "post_color_grade"@ + "("@ + pv(3) + ")"@;
    if fragment_only {
        post_process_fragment_text(seq![sample], result)
    } else {
        post_process_shader_text(seq![sample], result)
    }
}

/// The graph of the colour-grading pass, built in an empty compiler, is
/// acyclic and yields [`passthrough_text`] for its last node.
proof fn lemma_passthrough_graph(g: Seq<RawChunk>)
    requires
        g.len() == 5,
        g[0].node == NodeChunk::VertexUv(VertexUvNode),
        g[1].node == NodeChunk::PostSurfaceTexture(PostSurfaceTextureNode),
        g[2].node == NodeChunk::PostSurfaceSampler(PostSurfaceSamplerNode),
        g[3].node == NodeChunk::TextureSample(TextureSampleNode { texture: 1, sampler: 2, uv: 0 }),
        g[4].node matches NodeChunk::FunctionCall(c) && c.name@ == "post_color_grade"@ && c.deps@ == seq![3u32],
    ensures
        forall|fragment_only: bool|
            #[trigger] graph_post_process_shader(g, 4, fragment_only) == Some(passthrough_text(fragment_only)),
{
    let d3 = super::chunks::node_deps(g[3].node);
    let d4 = super::chunks::node_deps(g[4].node);
    assert(d3 =~= seq![1u32, 2u32, 0u32]);
    assert(d4 =~= seq![3u32]);
    assert(super::chunks::node_deps(g[0].node) =~= Seq::<NodeId>::empty());
    assert(super::chunks::node_deps(g[1].node) =~= Seq::<NodeId>::empty());
    assert(super::chunks::node_deps(g[2].node) =~= Seq::<NodeId>::empty());
    let rank = seq![0int, 0int, 0int, 1int, 2int];
    assert forall|i: int| 0 <= i < g.len() && rank[i] >= 0 implies #[trigger] reads_ranked(g, rank, i) by {
        if i == 3 {
            assert(d3[0] == 1 && d3[1] == 2 && d3[2] == 0);
        } else if i == 4 {
            assert(d4[0] == 3);
        }
    }
    assert forall|i: int| 0 <= i < g.len() implies acyclic_from(g, i) by {
        lemma_ranked_everywhere(g, rank, i);
    }
    let v0 = Seq::new(5, |i: int| false);
    let v1 = v0.update(4, true);
    let v2 = v1.update(3, true);
    let v3 = v2.update(1, true);
    let v4 = v3.update(2, true);
    let v5 = v4.update(0, true);
    let e = Seq::<NodeId>::empty();
    assert(dfs_deps(g, super::chunks::node_deps(g[1].node), 0, v3, e, 3) == (v3, e));
    assert(dfs(g, 1, v2, e, 4) == (v3, e.push(1)));
    assert(dfs_deps(g, super::chunks::node_deps(g[2].node), 0, v4, e.push(1), 3) == (v4, e.push(1)));
    assert(dfs(g, 2, v3, e.push(1), 4) == (v4, e.push(1).push(2)));
    assert(dfs_deps(g, super::chunks::node_deps(g[0].node), 0, v5, e.push(1).push(2), 3) == (
        v5,
        e.push(1).push(2),
    ));
    assert(dfs(g, 0, v4, e.push(1).push(2), 4) == (v5, e.push(1).push(2).push(0)));
    let o3 = e.push(1).push(2).push(0);
    assert(dfs_deps(g, d3, 3, v5, o3, 4) == (v5, o3));
    assert(dfs_deps(g, d3, 2, v4, e.push(1).push(2), 4) == (v5, o3));
    assert(dfs_deps(g, d3, 1, v3, e.push(1), 4) == (v5, o3));
    assert(dfs_deps(g, d3, 0, v2, e, 4) == (v5, o3));
    assert(dfs(g, 3, v1, e, 5) == (v5, o3.push(3)));
    assert(dfs_deps(g, d4, 1, v5, o3.push(3), 5) == (v5, o3.push(3)));
    assert(dfs_deps(g, d4, 0, v1, e, 5) == (v5, o3.push(3)));
    let order = o3.push(3).push(4);
    assert(topo_order(g, 4) == order);
    let t = expr_table(g);
    lemma_expr_of_unfold(g, 0);
    lemma_expr_of_unfold(g, 1);
    lemma_expr_of_unfold(g, 2);
    lemma_expr_of_unfold(g, 3);
    lemma_expr_of_unfold(g, 4);
    assert(t[0] == "in.uv"@ && t[1] == "postTexture"@ && t[2] == "postSampler"@ && t[3] == pv(3));
    let sample = "let "@ + pv(3) + ": vec4f = textureSample("@ + "postTexture"@ + ", "@ + "postSampler"@
        + ", "@ + "in.uv"@ + ");"@;
    assert(emit_of(g, 3) == Some(sample));
    assert(emit_of(g, 0) is None);
    assert(emit_of(g, 1) is None);
    assert(emit_of(g, 2) is None);
    assert(emit_of(g, 4) is None);
    assert(order.drop_last() =~= o3.push(3));
    assert(o3.push(3).drop_last() =~= o3);
    assert(o3.drop_last() =~= e.push(1).push(2));
    assert(e.push(1).push(2).drop_last() =~= e.push(1));
    assert(e.push(1).drop_last() =~= e);
    assert(emitted(g, e) =~= Seq::<Seq<char>>::empty());
    assert(emitted(g, e.push(1)) =~= Seq::<Seq<char>>::empty());
    assert(emitted(g, e.push(1).push(2)) =~= Seq::<Seq<char>>::empty());
    assert(emitted(g, o3) =~= Seq::<Seq<char>>::empty());
    assert(emitted(g, o3.push(3)) =~= seq![sample]);
    assert(compiled_lines(g, 4) =~= seq![sample]);
    if let NodeChunk::FunctionCall(c) = g[4].node {
        assert(lookup_all(t, c.deps@) =~= seq![pv(3)]);
        assert(super::chunks::join(seq![pv(3)], ", "@) == pv(3));
    }
    assert(expr_of(g, 4) == "post_color_grade"@ + "("@ + pv(3) + ")"@);
}

} // verus!
