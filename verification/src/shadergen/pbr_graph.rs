//! The node graph of the PBR material: what each of its pins contributes,
//! where binding its pins puts their nodes, and the shader the graph yields.
use super::chunks::{NodeChunk, NodeId, PbrShaderNode, RawChunk, VertexUvNode};
use super::compiler::{graph_mesh_shader, named_node};
use super::equivalence::{
    graph_view_eq, lemma_equivalent_graphs_compile_alike, lemma_named_nodes_equivalent,
    lemma_same_reads_equivalent, node_view_eq, same_reads,
};
use super::function::{
    input_node, input_parameter, texture_material, ExpressionInputSource, ExpressionTexture, PbrShader,
};
use super::generator::MeshPass;
use vstd::prelude::*;

verus! {

/// What a pin contributes to a material's graph: the name of the material
/// parameter or texture it reads; or, for a pin that names none, the node
/// it reads (and, for a texture pin, the sampler node).
pub type PinKey = (Option<Seq<char>>, NodeId, NodeId);

pub open spec fn input_key(s: ExpressionInputSource) -> PinKey {
    match input_parameter(s) {
        Some(n) => (Some(n@), 0, 0),
        None => (None, input_node(s), 0),
    }
}

pub open spec fn texture_key(t: ExpressionTexture) -> PinKey {
    match texture_material(t@) {
        Some(n) => (Some(n@), 0, 0),
        None => (None, t.texture_node_spec(), t.sampler_node_spec()),
    }
}

/// The contributions of a PBR material's thirteen pins, in the order they
/// are bound.
pub open spec fn pbr_key(p: PbrShader) -> Seq<PinKey> {
    seq![
        input_key(p.diffuse@),
        input_key(p.use_diffuse_texture@),
        texture_key(p.diffuse_texture),
        input_key(p.use_normal_texture@),
        texture_key(p.normal_texture),
        input_key(p.roughness@),
        input_key(p.use_roughness_texture@),
        texture_key(p.roughness_texture),
        input_key(p.metallic@),
        input_key(p.alpha@),
        input_key(p.lit@),
        input_key(p.cast_shadows@),
        input_key(p.grayscale_diffuse@),
    ]
}

/// The texture pins among the thirteen: diffuse, normal and roughness.
pub open spec fn texture_pin(k: int) -> bool {
    k == 2 || k == 4 || k == 7
}

/// The nodes binding pin `k` adds: none for a pin that names nothing, a
/// parameter node for an input pin, a texture and a sampler node for a
/// texture pin.
pub open spec fn pin_width(key: Seq<PinKey>, k: int) -> int {
    if key[k].0 is Some {
        if texture_pin(k) {
            2
        } else {
            1
        }
    } else {
        0
    }
}

/// Where the nodes of pin `k` start when the pins are bound in an empty
/// graph: after the nodes of the pins before it.
pub open spec fn pin_offset(key: Seq<PinKey>, k: int) -> int
    decreases k,
{
    if k <= 0 {
        0
    } else {
        pin_offset(key, k - 1) + pin_width(key, k - 1)
    }
}

/// The node pin `k` reads once the pins are bound in an empty graph.
pub open spec fn pin_read(key: Seq<PinKey>, k: int) -> NodeId {
    if key[k].0 is Some {
        pin_offset(key, k) as NodeId
    } else {
        key[k].1
    }
}

/// The sampler node texture pin `k` reads once the pins are bound in an
/// empty graph.
pub open spec fn pin_read_sampler(key: Seq<PinKey>, k: int) -> NodeId {
    if key[k].0 is Some {
        (pin_offset(key, k) + 1) as NodeId
    } else {
        key[k].2
    }
}

/// The nodes of pin `k` stand at its offset in `g`, naming its parameter,
/// or its texture and that texture's sampler.
pub open spec fn pin_nodes_at(g: Seq<RawChunk>, key: Seq<PinKey>, k: int) -> bool {
    let o = pin_offset(key, k);
    if texture_pin(k) {
        &&& named_node(g[o].node) == Some((1u8, key[k].0->0))
        &&& named_node(g[o + 1].node) == Some((2u8, key[k].0->0))
    } else {
        named_node(g[o].node) == Some((0u8, key[k].0->0))
    }
}

/// The nodes of every named pin among the first `n` stand in `g`.
pub open spec fn pins_placed(g: Seq<RawChunk>, key: Seq<PinKey>, n: int) -> bool {
    forall|k: int| 0 <= k < n && (#[trigger] key[k]).0 is Some ==> pin_nodes_at(g, key, k)
}

/// The graph of a PBR material whose pins contribute `key`, built in an
/// empty compiler: the nodes of its named pins, then the texture
/// coordinates, the base colour, roughness and normal nodes, and the
/// shading node over them and the scalar pins.
pub open spec fn pbr_shape(g: Seq<RawChunk>, key: Seq<PinKey>) -> bool {
    let t = pin_offset(key, 13);
    &&& g.len() == t + 5
    &&& pins_placed(g, key, 13)
    &&& g[t].node == NodeChunk::VertexUv(VertexUvNode)
    &&& g[t + 1].node matches NodeChunk::MaterialBaseColor(c) && c.uv.node == t as NodeId && c.color.node
        == pin_read(key, 0) && c.use_texture.node == pin_read(key, 1) && c.texture.node == pin_read(key, 2)
        && c.sampler.node == pin_read_sampler(key, 2)
    &&& g[t + 2].node matches NodeChunk::MaterialRoughness(c) && c.uv.node == t as NodeId && c.roughness.node
        == pin_read(key, 5) && c.use_texture.node == pin_read(key, 6) && c.texture.node == pin_read(key, 7)
        && c.sampler.node == pin_read_sampler(key, 7)
    &&& g[t + 3].node matches NodeChunk::MaterialNormal(c) && c.uv.node == t as NodeId && c.use_texture.node
        == pin_read(key, 3) && c.texture.node == pin_read(key, 4) && c.sampler.node == pin_read_sampler(key, 4)
    &&& g[t + 4].node == NodeChunk::PbrShader(
        PbrShaderNode {
            base_rgba: (t + 1) as NodeId,
            normal: (t + 3) as NodeId,
            roughness: (t + 2) as NodeId,
            metallic: pin_read(key, 8),
            alpha: pin_read(key, 9),
            lit: pin_read(key, 10),
            cast_shadows: pin_read(key, 11),
            grayscale: pin_read(key, 12),
        },
    )
}

/// The mesh shader of `pass` of a PBR material whose pins contribute
/// `key`: the shader of its graph for the shading node.
pub open spec fn pbr_mesh_text(key: Seq<PinKey>, pass: MeshPass) -> Option<Seq<char>> {
    graph_mesh_shader(choose|g: Seq<RawChunk>| pbr_shape(g, key), pin_offset(key, 13) + 4, pass)
}

/// The pins of `p` read the nodes that binding pins contributing `key` in
/// an empty graph gives them.
pub open spec fn pbr_reads(p: PbrShader, key: Seq<PinKey>) -> bool {
    &&& input_node(p.diffuse@) == pin_read(key, 0)
    &&& input_node(p.use_diffuse_texture@) == pin_read(key, 1)
    &&& p.diffuse_texture.texture_node_spec() == pin_read(key, 2)
    &&& p.diffuse_texture.sampler_node_spec() == pin_read_sampler(key, 2)
    &&& input_node(p.use_normal_texture@) == pin_read(key, 3)
    &&& p.normal_texture.texture_node_spec() == pin_read(key, 4)
    &&& p.normal_texture.sampler_node_spec() == pin_read_sampler(key, 4)
    &&& input_node(p.roughness@) == pin_read(key, 5)
    &&& input_node(p.use_roughness_texture@) == pin_read(key, 6)
    &&& p.roughness_texture.texture_node_spec() == pin_read(key, 7)
    &&& p.roughness_texture.sampler_node_spec() == pin_read_sampler(key, 7)
    &&& input_node(p.metallic@) == pin_read(key, 8)
    &&& input_node(p.alpha@) == pin_read(key, 9)
    &&& input_node(p.lit@) == pin_read(key, 10)
    &&& input_node(p.cast_shadows@) == pin_read(key, 11)
    &&& input_node(p.grayscale_diffuse@) == pin_read(key, 12)
}

pub proof fn lemma_pin_offset_bounds(key: Seq<PinKey>, k: int)
    requires
        0 <= k,
    ensures
        0 <= pin_offset(key, k) <= 2 * k,
    decreases k,
{
    if k > 0 {
        lemma_pin_offset_bounds(key, k - 1);
    }
}

/// The nodes of an earlier pin end before those of a later one.
pub proof fn lemma_pin_offset_mono(key: Seq<PinKey>, j: int, k: int)
    requires
        0 <= j < k,
    ensures
        pin_offset(key, j) + pin_width(key, j) <= pin_offset(key, k),
    decreases k,
{
    if j < k - 1 {
        lemma_pin_offset_mono(key, j, k - 1);
    }
}

/// Every node before the offset of pin `m` belongs to a named pin before
/// `m`.
pub proof fn lemma_pin_cover(key: Seq<PinKey>, m: int, i: int)
    requires
        0 <= i < pin_offset(key, m),
        0 <= m,
    ensures
        exists|k: int|
            0 <= k < m && (#[trigger] key[k]).0 is Some && pin_offset(key, k) <= i < pin_offset(key, k)
                + pin_width(key, k),
    decreases m,
{
    if m > 0 {
        if i < pin_offset(key, m - 1) {
            lemma_pin_cover(key, m - 1, i);
        } else {
            assert(key[m - 1].0 is Some);
        }
    }
}

/// Placed pins stay placed in an extension of the graph.
pub proof fn lemma_pins_placed_extend(g: Seq<RawChunk>, h: Seq<RawChunk>, key: Seq<PinKey>, n: int)
    requires
        pins_placed(g, key, n),
        0 <= n,
        g.len() == pin_offset(key, n),
        g.len() <= h.len(),
        h.subrange(0, g.len() as int) == g,
    ensures
        pins_placed(h, key, n),
{
    assert forall|k: int| 0 <= k < n && (#[trigger] key[k]).0 is Some implies pin_nodes_at(h, key, k) by {
        lemma_pin_offset_mono(key, k, n);
        lemma_pin_offset_bounds(key, k);
        let o = pin_offset(key, k);
        assert(pin_nodes_at(g, key, k));
        assert(h.subrange(0, g.len() as int)[o] == h[o]);
        if texture_pin(k) {
            assert(h.subrange(0, g.len() as int)[o + 1] == h[o + 1]);
        }
    }
}

/// Two graphs of the PBR layout for the same pins agree node by node.
pub proof fn lemma_pbr_shapes_agree(g1: Seq<RawChunk>, g2: Seq<RawChunk>, key: Seq<PinKey>)
    requires
        pbr_shape(g1, key),
        pbr_shape(g2, key),
    ensures
        graph_view_eq(g1, g2),
{
    let t = pin_offset(key, 13);
    assert forall|i: int| 0 <= i < g1.len() implies node_view_eq(#[trigger] g1[i].node, g2[i].node) by {
        if i < t {
            lemma_pin_cover(key, 13, i);
            let k = choose|k: int|
                0 <= k < 13 && (#[trigger] key[k]).0 is Some && pin_offset(key, k) <= i < pin_offset(key, k)
                    + pin_width(key, k);
            assert(pin_nodes_at(g1, key, k));
            assert(pin_nodes_at(g2, key, k));
            lemma_named_nodes_equivalent(g1[i].node, g2[i].node);
        } else {
            assert(same_reads(g1[i].node, g2[i].node));
            lemma_same_reads_equivalent(g1[i].node, g2[i].node);
        }
    }
}

/// The shader of a graph of the PBR layout is the one [`pbr_mesh_text`]
/// names: it depends only on what the pins contribute.
pub proof fn lemma_pbr_shape_text(g: Seq<RawChunk>, key: Seq<PinKey>)
    requires
        pbr_shape(g, key),
    ensures
        forall|pass: MeshPass| #[trigger] graph_mesh_shader(g, pin_offset(key, 13) + 4, pass) == pbr_mesh_text(key, pass),
{
    let c = choose|h: Seq<RawChunk>| pbr_shape(h, key);
    assert(pbr_shape(c, key));
    lemma_pbr_shapes_agree(g, c, key);
    lemma_equivalent_graphs_compile_alike(g, c, pin_offset(key, 13) + 4);
}

/// Binding an input pin keeps what it contributes.
pub proof fn lemma_input_key_kept(
    g0: Seq<RawChunk>,
    g1: Seq<RawChunk>,
    s0: ExpressionInputSource,
    s1: ExpressionInputSource,
)
    requires
        super::compiler::bind_input_post(g0, s0, g1, s1),
    ensures
        input_key(s1) == input_key(s0),
{
}

/// Binding a texture pin keeps what it contributes.
pub proof fn lemma_texture_key_kept(g0: Seq<RawChunk>, g1: Seq<RawChunk>, t0: ExpressionTexture, t1: ExpressionTexture)
    requires
        super::compiler::bind_texture_post(g0, t0@, g1, t1@),
    ensures
        texture_key(t1) == texture_key(t0),
{
}

/// Binding input pin `k`, the next in order, in a graph holding the nodes
/// of the pins before it: the graph gains the pin's node if it names a
/// parameter, and the pin reads the node [`pin_read`] gives.
pub proof fn lemma_bind_input_step(
    g0: Seq<RawChunk>,
    g1: Seq<RawChunk>,
    s0: ExpressionInputSource,
    s1: ExpressionInputSource,
    key: Seq<PinKey>,
    k: int,
)
    requires
        0 <= k < 13,
        !texture_pin(k),
        key.len() == 13,
        key[k] == input_key(s0),
        g0.len() == pin_offset(key, k),
        pins_placed(g0, key, k),
        super::compiler::bind_input_post(g0, s0, g1, s1),
    ensures
        g1.len() == pin_offset(key, k + 1),
        pins_placed(g1, key, k + 1),
        input_key(s1) == input_key(s0),
        input_node(s1) == pin_read(key, k),
{
    if key[k].0 is Some {
        assert(g1.subrange(0, g0.len() as int) =~= g0);
        lemma_pins_placed_extend(g0, g1, key, k);
        assert(g1[g0.len() as int] == g1.last());
    } else {
        assert(g1 == g0);
    }
}

/// Binding texture pin `k`, the next in order: as for an input pin, with a
/// texture node and a sampler node.
pub proof fn lemma_bind_texture_step(
    g0: Seq<RawChunk>,
    g1: Seq<RawChunk>,
    t0: ExpressionTexture,
    t1: ExpressionTexture,
    key: Seq<PinKey>,
    k: int,
)
    requires
        0 <= k < 13,
        texture_pin(k),
        key.len() == 13,
        key[k] == texture_key(t0),
        g0.len() == pin_offset(key, k),
        pins_placed(g0, key, k),
        super::compiler::bind_texture_post(g0, t0@, g1, t1@),
    ensures
        g1.len() == pin_offset(key, k + 1),
        pins_placed(g1, key, k + 1),
        texture_key(t1) == texture_key(t0),
        t1.texture_node_spec() == pin_read(key, k),
        t1.sampler_node_spec() == pin_read_sampler(key, k),
{
    if key[k].0 is Some {
        assert(g1.subrange(0, g0.len() as int) =~= g0);
        lemma_pins_placed_extend(g0, g1, key, k);
        assert(g1[g0.len() as int + 1] == g1.last());
    } else {
        assert(g1 == g0);
    }
}

/// Every pin names a material parameter or texture.
pub open spec fn pins_all_named(key: Seq<PinKey>) -> bool {
    forall|k: int| 0 <= k < 13 ==> (#[trigger] key[k]).0 is Some
}

/// A PBR material whose pins all name material parameters or textures, as
/// the default material's do, has a well-formed graph: its shader always
/// builds.
pub proof fn lemma_named_pbr_shader_builds(g: Seq<RawChunk>, key: Seq<PinKey>)
    requires
        pbr_shape(g, key),
        pins_all_named(key),
    ensures
        super::chunks::graph_wf(g),
        forall|pass: MeshPass| (#[trigger] pbr_mesh_text(key, pass)) is Some,
{
    let t = pin_offset(key, 13);
    lemma_pin_offset_bounds(key, 13);
    assert forall|k: int| 0 <= k < 13 implies (#[trigger] pin_read(key, k)) < t && pin_read_sampler(key, k) < t
        + 1 by {
        lemma_pin_offset_mono(key, k, 13);
        lemma_pin_offset_bounds(key, k);
        assert(key[k].0 is Some);
    }
    assert forall|k: int| 0 <= k < 13 && texture_pin(k) implies #[trigger] pin_read_sampler(key, k) < t by {
        lemma_pin_offset_mono(key, k, 13);
        lemma_pin_offset_bounds(key, k);
        assert(key[k].0 is Some);
    }
    assert forall|i: int| 0 <= i < g.len() implies super::chunks::node_fits(#[trigger] g[i].node, i) by {
        if i < t {
            lemma_pin_cover(key, 13, i);
            let k = choose|k: int|
                0 <= k < 13 && (#[trigger] key[k]).0 is Some && pin_offset(key, k) <= i < pin_offset(key, k)
                    + pin_width(key, k);
            assert(pin_nodes_at(g, key, k));
            assert(named_node(g[i].node) is Some);
            assert(super::chunks::node_deps(g[i].node) =~= Seq::<NodeId>::empty());
        } else {
            let d = super::chunks::node_deps(g[i].node);
            assert(pin_read(key, 0) < t && pin_read(key, 1) < t && pin_read(key, 3) < t && pin_read(key, 5) < t);
            assert(pin_read(key, 6) < t && pin_read(key, 8) < t && pin_read(key, 9) < t && pin_read(key, 10) < t);
            assert(pin_read(key, 11) < t && pin_read(key, 12) < t);
            assert(pin_read(key, 2) < t && pin_read(key, 4) < t && pin_read(key, 7) < t);
            assert(pin_read_sampler(key, 2) < t && pin_read_sampler(key, 4) < t && pin_read_sampler(key, 7) < t);
            assert forall|m: int| 0 <= m < d.len() implies #[trigger] d[m] < i by {}
        }
    }
    super::chunks::lemma_wf_acyclic(g, t + 4);
    lemma_pbr_shape_text(g, key);
    assert forall|pass: MeshPass| (#[trigger] pbr_mesh_text(key, pass)) is Some by {
        assert(graph_mesh_shader(g, t + 4, pass) == pbr_mesh_text(key, pass));
    }
}

} // verus!
