//! Graphs whose nodes read the same nodes and produce the same WGSL text
//! compile to the same shader, whichever string values hold their names.
use super::chunks::{
    emit_of, expr_at, expr_of, expr_table, lemma_expr_of_at, lemma_node_text_tables, node_deps, node_emit,
    node_expr, table_at, NodeChunk, NodeId, RawChunk,
};
use super::compiler::{compiled_lines, emitted, graph_mesh_shader, graph_post_process_shader, named_node};
use super::generator::MeshPass;
use super::topo::{acyclic_from, dfs, dfs_deps, lemma_topo_order, ranked, reads_ranked, topo_order};
use vstd::prelude::*;

verus! {

/// Two nodes that read the same nodes and yield the same expression and
/// statement at every position and for every table of earlier
/// expressions.
pub open spec fn node_view_eq(n: NodeChunk, m: NodeChunk) -> bool {
    &&& node_deps(n) == node_deps(m)
    &&& forall|id: int, t: Seq<Seq<char>>| #[trigger] node_expr(n, id, t) == node_expr(m, id, t)
    &&& forall|id: int, t: Seq<Seq<char>>| #[trigger] node_emit(n, id, t) == node_emit(m, id, t)
}

/// Two graphs of the same length whose nodes agree pairwise in the sense of
/// [`node_view_eq`].
pub open spec fn graph_view_eq(a: Seq<RawChunk>, b: Seq<RawChunk>) -> bool {
    &&& a.len() == b.len()
    &&& forall|i: int| 0 <= i < a.len() ==> node_view_eq(#[trigger] a[i].node, b[i].node)
}

pub proof fn lemma_expr_at_eq(a: Seq<RawChunk>, b: Seq<RawChunk>, id: int, fuel: nat)
    requires
        graph_view_eq(a, b),
        0 <= id < a.len(),
    ensures
        expr_at(a, id, fuel) == expr_at(b, id, fuel),
    decreases fuel, 0int, 0int,
{
    if fuel > 0 {
        lemma_table_at_eq(a, b, a.len(), (fuel - 1) as nat);
        let t = table_at(a, a.len(), (fuel - 1) as nat);
        assert(node_view_eq(a[id].node, b[id].node));
        assert(node_expr(a[id].node, id, t) == node_expr(b[id].node, id, t));
    }
}

pub proof fn lemma_table_at_eq(a: Seq<RawChunk>, b: Seq<RawChunk>, n: nat, fuel: nat)
    requires
        graph_view_eq(a, b),
        n <= a.len(),
    ensures
        table_at(a, n, fuel) == table_at(b, n, fuel),
    decreases fuel, 1int, n,
{
    if n > 0 {
        lemma_table_at_eq(a, b, (n - 1) as nat, fuel);
        lemma_expr_at_eq(a, b, n - 1, fuel);
    }
}

/// A ranking of one graph ranks the other.
pub proof fn lemma_ranked_eq(a: Seq<RawChunk>, b: Seq<RawChunk>, rank: Seq<int>)
    requires
        graph_view_eq(a, b),
    ensures
        ranked(a, rank) == ranked(b, rank),
{
    assert forall|i: int| 0 <= i < a.len() implies reads_ranked(a, rank, i) == reads_ranked(b, rank, i) by {
        assert(node_view_eq(a[i].node, b[i].node));
    }
    if ranked(a, rank) {
        assert forall|i: int| 0 <= i < b.len() && rank[i] >= 0 implies #[trigger] reads_ranked(b, rank, i) by {
            assert(reads_ranked(a, rank, i));
        }
    }
    if ranked(b, rank) {
        assert forall|i: int| 0 <= i < a.len() && rank[i] >= 0 implies #[trigger] reads_ranked(a, rank, i) by {
            assert(reads_ranked(b, rank, i));
        }
    }
}

pub proof fn lemma_acyclic_eq(a: Seq<RawChunk>, b: Seq<RawChunk>, id: int)
    requires
        graph_view_eq(a, b),
    ensures
        acyclic_from(a, id) == acyclic_from(b, id),
        acyclic_from(a, id) ==> expr_of(a, id) == expr_of(b, id),
{
    if acyclic_from(a, id) {
        let r = choose|r: Seq<int>| ranked(a, r) && r[id] >= 0;
        lemma_ranked_eq(a, b, r);
        lemma_expr_of_at(b, r, id, (r[id] + 1) as nat);
        lemma_expr_at_eq(a, b, id, (r[id] + 1) as nat);
    }
    if acyclic_from(b, id) {
        let r = choose|r: Seq<int>| ranked(b, r) && r[id] >= 0;
        lemma_ranked_eq(a, b, r);
    }
}

proof fn lemma_dfs_eq(
    a: Seq<RawChunk>,
    b: Seq<RawChunk>,
    id: int,
    visited: Seq<bool>,
    order: Seq<NodeId>,
    fuel: nat,
)
    requires
        graph_view_eq(a, b),
    ensures
        dfs(a, id, visited, order, fuel) == dfs(b, id, visited, order, fuel),
    decreases fuel, 1int, 0int,
{
    if !(fuel == 0 || id < 0 || id >= visited.len() || id >= a.len() || visited[id]) {
        assert(node_view_eq(a[id].node, b[id].node));
        lemma_dfs_deps_eq(a, b, node_deps(a[id].node), 0, visited.update(id, true), order, (fuel - 1) as nat);
    }
}

proof fn lemma_dfs_deps_eq(
    a: Seq<RawChunk>,
    b: Seq<RawChunk>,
    deps: Seq<NodeId>,
    k: int,
    visited: Seq<bool>,
    order: Seq<NodeId>,
    fuel: nat,
)
    requires
        graph_view_eq(a, b),
    ensures
        dfs_deps(a, deps, k, visited, order, fuel) == dfs_deps(b, deps, k, visited, order, fuel),
    decreases fuel, 2int, deps.len() - k,
{
    if !(k < 0 || k >= deps.len()) {
        lemma_dfs_eq(a, b, deps[k] as int, visited, order, fuel);
        let r = dfs(a, deps[k] as int, visited, order, fuel);
        lemma_dfs_deps_eq(a, b, deps, k + 1, r.0, r.1, fuel);
    }
}

proof fn lemma_emitted_eq(a: Seq<RawChunk>, b: Seq<RawChunk>, order: Seq<NodeId>)
    requires
        graph_view_eq(a, b),
        forall|i: int| 0 <= i < order.len() ==> acyclic_from(a, #[trigger] order[i] as int),
    ensures
        emitted(a, order) == emitted(b, order),
    decreases order.len(),
{
    if order.len() > 0 {
        lemma_emitted_eq(a, b, order.drop_last());
        let id = order.last() as int;
        assert(acyclic_from(a, order[order.len() - 1] as int));
        let n = a[id].node;
        let r = choose|r: Seq<int>| ranked(a, r) && r[id] >= 0;
        assert(reads_ranked(a, r, id));
        assert forall|k: int| 0 <= k < node_deps(n).len() implies expr_table(a)[#[trigger] node_deps(n)[k] as int]
            == expr_table(b)[node_deps(n)[k] as int] by {
            let d = node_deps(n)[k] as int;
            assert(acyclic_from(a, d));
            lemma_acyclic_eq(a, b, d);
        }
        lemma_node_text_tables(n, id, expr_table(a), expr_table(b));
        assert(node_view_eq(a[id].node, b[id].node));
        assert(node_emit(n, id, expr_table(b)) == node_emit(b[id].node, id, expr_table(b)));
        assert(emit_of(a, id) == emit_of(b, id));
    }
}

/// Graphs that agree node by node agree on which nodes they can compile,
/// and every node compiles to the same statements and the same result
/// expression in both, as a mesh shader and as a post-process shader.
pub proof fn lemma_equivalent_graphs_compile_alike(a: Seq<RawChunk>, b: Seq<RawChunk>, output: int)
    requires
        graph_view_eq(a, b),
    ensures
        acyclic_from(a, output) == acyclic_from(b, output),
        forall|pass: MeshPass| #[trigger] graph_mesh_shader(a, output, pass) == graph_mesh_shader(b, output, pass),
        forall|fragment_only: bool| #[trigger] graph_post_process_shader(a, output, fragment_only)
            == graph_post_process_shader(b, output, fragment_only),
{
    lemma_acyclic_eq(a, b, output);
    if acyclic_from(a, output) {
        let fuel = (a.len() + 1) as nat;
        lemma_dfs_eq(a, b, output, Seq::new(a.len(), |i: int| false), seq![], fuel);
        assert(Seq::new(a.len(), |i: int| false) =~= Seq::new(b.len(), |i: int| false));
        assert(topo_order(a, output) == topo_order(b, output));
        lemma_topo_order(a, output);
        lemma_emitted_eq(a, b, topo_order(a, output));
        assert(compiled_lines(a, output) == compiled_lines(b, output));
    }
}

/// A node that reads a material parameter, texture or sampler, or holds a
/// constant, is determined by its kind and text.
pub proof fn lemma_named_nodes_equivalent(n: NodeChunk, m: NodeChunk)
    requires
        named_node(n) is Some,
        named_node(n) == named_node(m),
    ensures
        node_view_eq(n, m),
{
    assert forall|id: int, t: Seq<Seq<char>>| #[trigger] node_expr(n, id, t) == node_expr(m, id, t) by {}
    assert forall|id: int, t: Seq<Seq<char>>| #[trigger] node_emit(n, id, t) == node_emit(m, id, t) by {}
}

/// Whether two texture-reading nodes read the same nodes.
pub open spec fn same_reads(n: NodeChunk, m: NodeChunk) -> bool {
    match (n, m) {
        (NodeChunk::MaterialBaseColor(a), NodeChunk::MaterialBaseColor(b)) => a.uv.node == b.uv.node
            && a.color.node == b.color.node && a.use_texture.node == b.use_texture.node && a.texture.node
            == b.texture.node && a.sampler.node == b.sampler.node,
        (NodeChunk::MaterialRoughness(a), NodeChunk::MaterialRoughness(b)) => a.uv.node == b.uv.node
            && a.roughness.node == b.roughness.node && a.use_texture.node == b.use_texture.node
            && a.texture.node == b.texture.node && a.sampler.node == b.sampler.node,
        (NodeChunk::MaterialNormal(a), NodeChunk::MaterialNormal(b)) => a.uv.node == b.uv.node
            && a.use_texture.node == b.use_texture.node && a.texture.node == b.texture.node
            && a.sampler.node == b.sampler.node,
        _ => n == m,
    }
}

/// Nodes that read the same nodes are equivalent: only the nodes they
/// read enter their text.
pub proof fn lemma_same_reads_equivalent(n: NodeChunk, m: NodeChunk)
    requires
        same_reads(n, m),
    ensures
        node_view_eq(n, m),
{
    assert forall|id: int, t: Seq<Seq<char>>| #[trigger] node_expr(n, id, t) == node_expr(m, id, t) by {}
    assert forall|id: int, t: Seq<Seq<char>>| #[trigger] node_emit(n, id, t) == node_emit(m, id, t) by {}
}

} // verus!
