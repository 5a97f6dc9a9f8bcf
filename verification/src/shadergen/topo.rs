//! Dependency order of a node graph: a depth-first post-order from the
//! output node, each reachable node once, dependencies before dependents.
use super::chunks::{node_deps, NodeId, RawChunk};
use vstd::prelude::*;

verus! {

/// `rank` numbers the nodes of a set (those ranked `0` or more) that is
/// closed under reading: each of them reads only nodes of the graph that
/// are in the set and ranked below it. Ranks exist exactly when no node of
/// the set reads itself, directly or through others.
pub open spec fn ranked(nodes: Seq<RawChunk>, rank: Seq<int>) -> bool {
    &&& rank.len() == nodes.len()
    &&& forall|i: int| 0 <= i < nodes.len() && rank[i] >= 0 ==> #[trigger] reads_ranked(nodes, rank, i)
}

/// Node `i` reads only nodes of the graph ranked `0` or more, below `i`.
pub open spec fn reads_ranked(nodes: Seq<RawChunk>, rank: Seq<int>, i: int) -> bool {
    forall|k: int|
        0 <= k < node_deps(nodes[i].node).len() ==> (#[trigger] node_deps(nodes[i].node)[k]) < nodes.len()
            && 0 <= rank[node_deps(nodes[i].node)[k] as int] < rank[i]
}

/// Node `id` is a node of the graph, and the nodes it reads, directly or
/// through others, are nodes of the graph among which there is no cycle.
pub open spec fn acyclic_from(nodes: Seq<RawChunk>, id: int) -> bool {
    &&& 0 <= id < nodes.len()
    &&& id <= u32::MAX
    &&& exists|rank: Seq<int>| ranked(nodes, rank) && rank[id] >= 0
}

/// `marks` marks a set of nodes closed under reading, whose nodes read only
/// nodes of the graph.
pub open spec fn closed_marks(nodes: Seq<RawChunk>, marks: Seq<bool>) -> bool {
    &&& marks.len() == nodes.len()
    &&& forall|i: int|
        0 <= i < nodes.len() && marks[i] ==> forall|k: int|
            0 <= k < node_deps(nodes[i].node).len() ==> (#[trigger] node_deps(nodes[i].node)[k]) < nodes.len()
                && marks[node_deps(nodes[i].node)[k] as int]
}

/// Node `id` is a node of the graph, and every node it reads, directly or
/// through others, reads only nodes of the graph.
pub open spec fn in_range_from(nodes: Seq<RawChunk>, id: int) -> bool {
    &&& 0 <= id < nodes.len()
    &&& exists|marks: Seq<bool>| closed_marks(nodes, marks) && marks[id]
}

pub proof fn lemma_acyclic_in_range(nodes: Seq<RawChunk>, id: int)
    requires
        acyclic_from(nodes, id),
    ensures
        in_range_from(nodes, id),
{
    let rank = choose|rank: Seq<int>| ranked(nodes, rank) && rank[id] >= 0;
    let marks = Seq::new(nodes.len(), |i: int| rank[i] >= 0);
    assert forall|i: int| 0 <= i < nodes.len() && marks[i] implies forall|k: int|
        0 <= k < node_deps(nodes[i].node).len() ==> (#[trigger] node_deps(nodes[i].node)[k]) < nodes.len()
            && marks[node_deps(nodes[i].node)[k] as int] by {
        assert(reads_ranked(nodes, rank, i));
    }
    assert(closed_marks(nodes, marks));
}

/// A ranking of every node makes each node's walk acyclic.
pub proof fn lemma_ranked_everywhere(nodes: Seq<RawChunk>, rank: Seq<int>, id: int)
    requires
        ranked(nodes, rank),
        forall|i: int| 0 <= i < rank.len() ==> #[trigger] rank[i] >= 0,
        0 <= id < nodes.len(),
        id <= u32::MAX,
    ensures
        acyclic_from(nodes, id),
{
}

/// The number of unmarked entries.
pub open spec fn unvisited(v: Seq<bool>) -> nat
    decreases v.len(),
{
    if v.len() == 0 {
        0
    } else {
        unvisited(v.drop_last()) + if v.last() {
            0nat
        } else {
            1nat
        }
    }
}

pub proof fn lemma_unvisited_mark(v: Seq<bool>, i: int)
    requires
        0 <= i < v.len(),
        !v[i],
    ensures
        unvisited(v.update(i, true)) + 1 == unvisited(v),
    decreases v.len(),
{
    let w = v.update(i, true);
    if i == v.len() - 1 {
        assert(w.drop_last() =~= v.drop_last());
    } else {
        assert(w.drop_last() =~= v.drop_last().update(i, true));
        lemma_unvisited_mark(v.drop_last(), i);
    }
}

pub proof fn lemma_unvisited_grow(v: Seq<bool>, w: Seq<bool>)
    requires
        v.len() == w.len(),
        forall|j: int| 0 <= j < v.len() && v[j] ==> #[trigger] w[j],
    ensures
        unvisited(w) <= unvisited(v),
    decreases v.len(),
{
    if v.len() > 0 {
        assert forall|j: int| 0 <= j < v.drop_last().len() && v.drop_last()[j] implies #[trigger] w.drop_last()[j] by {
            assert(v[j] && w[j] == w.drop_last()[j]);
        }
        lemma_unvisited_grow(v.drop_last(), w.drop_last());
        assert(v[v.len() - 1] ==> w[v.len() - 1]);
    }
}

pub proof fn lemma_unvisited_none(n: nat)
    ensures
        unvisited(Seq::new(n, |i: int| false)) == n,
    decreases n,
{
    if n > 0 {
        assert(Seq::new(n, |i: int| false).drop_last() =~= Seq::new((n - 1) as nat, |i: int| false));
        lemma_unvisited_none((n - 1) as nat);
    }
}

/// The depth-first walk from `id`: which nodes were entered, and the nodes
/// finished so far in the order they finished. Each nested step enters an
/// unmarked node, so `fuel` above the number of unmarked nodes never runs
/// out.
pub open spec fn dfs(nodes: Seq<RawChunk>, id: int, visited: Seq<bool>, order: Seq<NodeId>, fuel: nat) -> (
    Seq<bool>,
    Seq<NodeId>,
)
    decreases fuel, 1int, 0int,
{
    if fuel == 0 || id < 0 || id >= visited.len() || id >= nodes.len() || visited[id] {
        (visited, order)
    } else {
        let r = dfs_deps(nodes, node_deps(nodes[id].node), 0, visited.update(id, true), order, (fuel - 1) as nat);
        (r.0, r.1.push(id as NodeId))
    }
}

/// The walk through the dependencies `deps[k..]` of a node.
pub open spec fn dfs_deps(
    nodes: Seq<RawChunk>,
    deps: Seq<NodeId>,
    k: int,
    visited: Seq<bool>,
    order: Seq<NodeId>,
    fuel: nat,
) -> (Seq<bool>, Seq<NodeId>)
    decreases fuel, 2int, deps.len() - k,
{
    if k < 0 || k >= deps.len() {
        (visited, order)
    } else {
        let r = dfs(nodes, deps[k] as int, visited, order, fuel);
        dfs_deps(nodes, deps, k + 1, r.0, r.1, fuel)
    }
}

/// The order in which the nodes that `output` depends on are emitted.
pub open spec fn topo_order(nodes: Seq<RawChunk>, output: int) -> Seq<NodeId> {
    dfs(nodes, output, Seq::new(nodes.len(), |i: int| false), seq![], (nodes.len() + 1) as nat).1
}

/// The walk only marks more nodes and only appends to the order.
pub proof fn lemma_dfs_grows(nodes: Seq<RawChunk>, id: int, visited: Seq<bool>, order: Seq<NodeId>, fuel: nat)
    ensures
        ({
            let r = dfs(nodes, id, visited, order, fuel);
            &&& r.0.len() == visited.len()
            &&& forall|j: int| 0 <= j < visited.len() && visited[j] ==> #[trigger] r.0[j]
            &&& order.len() <= r.1.len()
            &&& r.1.subrange(0, order.len() as int) == order
        }),
    decreases fuel, 1int, 0int,
{
    if !(fuel == 0 || id < 0 || id >= visited.len() || id >= nodes.len() || visited[id]) {
        let v1 = visited.update(id, true);
        lemma_dfs_deps_grows(nodes, node_deps(nodes[id].node), 0, v1, order, (fuel - 1) as nat);
        let r = dfs_deps(nodes, node_deps(nodes[id].node), 0, v1, order, (fuel - 1) as nat);
        assert(r.1.push(id as NodeId).subrange(0, order.len() as int) =~= r.1.subrange(0, order.len() as int));
    } else {
        assert(order.subrange(0, order.len() as int) =~= order);
    }
}

pub proof fn lemma_dfs_deps_grows(
    nodes: Seq<RawChunk>,
    deps: Seq<NodeId>,
    k: int,
    visited: Seq<bool>,
    order: Seq<NodeId>,
    fuel: nat,
)
    ensures
        ({
            let r = dfs_deps(nodes, deps, k, visited, order, fuel);
            &&& r.0.len() == visited.len()
            &&& forall|j: int| 0 <= j < visited.len() && visited[j] ==> #[trigger] r.0[j]
            &&& order.len() <= r.1.len()
            &&& r.1.subrange(0, order.len() as int) == order
        }),
    decreases fuel, 2int, deps.len() - k,
{
    if k < 0 || k >= deps.len() {
        assert(order.subrange(0, order.len() as int) =~= order);
    } else {
        lemma_dfs_grows(nodes, deps[k] as int, visited, order, fuel);
        let r1 = dfs(nodes, deps[k] as int, visited, order, fuel);
        lemma_dfs_deps_grows(nodes, deps, k + 1, r1.0, r1.1, fuel);
        let r = dfs_deps(nodes, deps, k + 1, r1.0, r1.1, fuel);
        assert(r.1.subrange(0, order.len() as int) =~= r.1.subrange(0, r1.1.len() as int).subrange(
            0,
            order.len() as int,
        ));
    }
}

/// A sound partial dependency order: each listed node is a marked node of
/// the graph, no node is listed twice, and each node's dependencies are
/// listed before it.
pub open spec fn order_ok(nodes: Seq<RawChunk>, visited: Seq<bool>, order: Seq<NodeId>) -> bool {
    &&& forall|i: int|
        0 <= i < order.len() ==> (#[trigger] order[i] as int) < nodes.len() && (order[i] as int)
            < visited.len() && visited[order[i] as int]
    &&& forall|i: int, j: int| 0 <= i < j < order.len() ==> order[i] != order[j]
    &&& forall|i: int, k: int|
        0 <= i < order.len() && 0 <= k < node_deps(nodes[order[i] as int].node).len()
            ==> #[trigger] order.take(i).contains(node_deps(nodes[order[i] as int].node)[k])
}

proof fn lemma_order_ok_mark(nodes: Seq<RawChunk>, visited: Seq<bool>, order: Seq<NodeId>, id: int)
    requires
        order_ok(nodes, visited, order),
        0 <= id < visited.len(),
    ensures
        order_ok(nodes, visited.update(id, true), order),
{
}

/// The walk from `id`, a ranked node, keeps the order sound, extends it,
/// finishes `id`, adds only ranked nodes ranked no higher than `id`, and
/// finishes every node it newly marks.
pub proof fn lemma_dfs_order(
    nodes: Seq<RawChunk>,
    rank: Seq<int>,
    id: int,
    visited: Seq<bool>,
    order: Seq<NodeId>,
    fuel: nat,
)
    requires
        ranked(nodes, rank),
        0 <= id < nodes.len(),
        id <= u32::MAX,
        rank[id] >= 0,
        visited.len() == nodes.len(),
        fuel > unvisited(visited),
        order_ok(nodes, visited, order),
        forall|j: int|
            0 <= j < nodes.len() && 0 <= rank[j] <= rank[id] && visited[j] ==> #[trigger] order.contains(
                j as NodeId,
            ),
    ensures
        ({
            let r = dfs(nodes, id, visited, order, fuel);
            &&& r.0.len() == visited.len()
            &&& order_ok(nodes, r.0, r.1)
            &&& order.len() <= r.1.len()
            &&& r.1.subrange(0, order.len() as int) == order
            &&& r.1.contains(id as NodeId)
            &&& forall|i: int| order.len() <= i < r.1.len() ==> 0 <= #[trigger] rank[r.1[i] as int] <= rank[id]
            &&& forall|j: int| 0 <= j < visited.len() && visited[j] ==> #[trigger] r.0[j]
            &&& forall|j: int|
                0 <= j < visited.len() && #[trigger] r.0[j] ==> visited[j] || r.1.contains(
                    j as NodeId,
                )
        }),
    decreases fuel, 1int, 0int,
{
    lemma_dfs_grows(nodes, id, visited, order, fuel);
    if visited[id] {
        assert(order.subrange(0, order.len() as int) =~= order);
    } else {
        lemma_unvisited_mark(visited, id);
        let v1 = visited.update(id, true);
        let deps = node_deps(nodes[id].node);
        assert(reads_ranked(nodes, rank, id));
        lemma_order_ok_mark(nodes, visited, order, id);
        assert(!order.contains(id as NodeId)) by {
            if order.contains(id as NodeId) {
                let i = choose|i: int| 0 <= i < order.len() && order[i] == id as NodeId;
                assert(visited[order[i] as int]);
            }
        }
        lemma_dfs_deps_order(nodes, rank, id, deps, 0, v1, order, (fuel - 1) as nat);
        let r = dfs_deps(nodes, deps, 0, v1, order, (fuel - 1) as nat);
        let o3 = r.1.push(id as NodeId);
        assert(!r.1.contains(id as NodeId)) by {
            if r.1.contains(id as NodeId) {
                let i = choose|i: int| 0 <= i < r.1.len() && r.1[i] == id as NodeId;
                if i < order.len() {
                    assert(order[i] == r.1[i]);
                }
            }
        }
        assert(o3.subrange(0, order.len() as int) =~= r.1.subrange(0, order.len() as int));
        assert(o3.take(r.1.len() as int) =~= r.1);
        assert(o3[r.1.len() as int] == id as NodeId);
        assert forall|i: int, k: int|
            0 <= i < o3.len() && 0 <= k < node_deps(nodes[o3[i] as int].node).len()
                implies #[trigger] o3.take(i).contains(
            node_deps(nodes[o3[i] as int].node)[k],
        ) by {
            if i < r.1.len() {
                assert(o3.take(i) =~= r.1.take(i));
                assert(r.1[i] == o3[i]);
            } else {
                assert(deps[k] == node_deps(nodes[o3[i] as int].node)[k]);
            }
        }
        assert forall|i: int, j: int| 0 <= i < j < o3.len() implies o3[i] != o3[j] by {
            if j == r.1.len() {
                assert(r.1[i] == o3[i]);
            }
        }
        assert(o3.contains(id as NodeId)) by {
            assert(o3[r.1.len() as int] == id as NodeId);
        }
        assert forall|i: int| order.len() <= i < o3.len() implies 0 <= #[trigger] rank[o3[i] as int] <= rank[id] by {
            if i < r.1.len() {
                assert(o3[i] == r.1[i]);
            }
        }
        assert forall|j: int|
            0 <= j < visited.len() && #[trigger] r.0[j] implies visited[j] || o3.contains(
            j as NodeId,
        ) by {
            if j == id {
                assert(o3[r.1.len() as int] == id as NodeId);
            } else if !visited[j] {
                assert(!v1[j]);
                assert(r.1.contains(j as NodeId));
                let i = choose|i: int| 0 <= i < r.1.len() && r.1[i] == j as NodeId;
                assert(o3[i] == j as NodeId);
            }
        }
    }
}

/// The walk through dependencies `deps[k..]` of the node `id` being
/// entered (marked, not yet finished).
pub proof fn lemma_dfs_deps_order(
    nodes: Seq<RawChunk>,
    rank: Seq<int>,
    id: int,
    deps: Seq<NodeId>,
    k: int,
    visited: Seq<bool>,
    order: Seq<NodeId>,
    fuel: nat,
)
    requires
        ranked(nodes, rank),
        0 <= id < nodes.len(),
        id <= u32::MAX,
        rank[id] >= 0,
        visited.len() == nodes.len(),
        fuel > unvisited(visited),
        visited[id],
        !order.contains(id as NodeId),
        0 <= k <= deps.len(),
        forall|j: int| 0 <= j < deps.len() ==> (#[trigger] deps[j]) < nodes.len() && 0 <= rank[deps[j] as int] < rank[id],
        order_ok(nodes, visited, order),
        forall|j: int|
            0 <= j < nodes.len() && 0 <= rank[j] < rank[id] && visited[j] ==> #[trigger] order.contains(
                j as NodeId,
            ),
    ensures
        ({
            let r = dfs_deps(nodes, deps, k, visited, order, fuel);
            &&& r.0.len() == visited.len()
            &&& order_ok(nodes, r.0, r.1)
            &&& order.len() <= r.1.len()
            &&& r.1.subrange(0, order.len() as int) == order
            &&& forall|j: int| k <= j < deps.len() ==> r.1.contains(#[trigger] deps[j])
            &&& forall|i: int| order.len() <= i < r.1.len() ==> 0 <= #[trigger] rank[r.1[i] as int] < rank[id]
            &&& forall|j: int| 0 <= j < visited.len() && visited[j] ==> #[trigger] r.0[j]
            &&& forall|j: int|
                0 <= j < visited.len() && #[trigger] r.0[j] ==> visited[j] || r.1.contains(
                    j as NodeId,
                )
            &&& forall|j: int|
                0 <= j < nodes.len() && 0 <= rank[j] < rank[id] && r.0[j] ==> #[trigger] r.1.contains(
                    j as NodeId,
                )
        }),
    decreases fuel, 2int, deps.len() - k,
{
    lemma_dfs_deps_grows(nodes, deps, k, visited, order, fuel);
    if k >= deps.len() {
        assert(order.subrange(0, order.len() as int) =~= order);
    } else {
        let d = deps[k] as int;
        assert(deps[k] < nodes.len() && 0 <= rank[d] < rank[id]);
        lemma_dfs_order(nodes, rank, d, visited, order, fuel);
        let r1 = dfs(nodes, d, visited, order, fuel);
        lemma_unvisited_grow(visited, r1.0);
        assert(!r1.1.contains(id as NodeId)) by {
            if r1.1.contains(id as NodeId) {
                let i = choose|i: int| 0 <= i < r1.1.len() && r1.1[i] == id as NodeId;
                if i < order.len() {
                    assert(order[i] == r1.1[i]);
                }
            }
        }
        assert forall|j: int|
            0 <= j < nodes.len() && 0 <= rank[j] < rank[id] && r1.0[j] implies #[trigger] r1.1.contains(
            j as NodeId,
        ) by {
            if visited[j] {
                assert(order.contains(j as NodeId));
                let i = choose|i: int| 0 <= i < order.len() && order[i] == j as NodeId;
                assert(r1.1[i] == order[i]);
            }
        }
        lemma_dfs_deps_order(nodes, rank, id, deps, k + 1, r1.0, r1.1, fuel);
        let r = dfs_deps(nodes, deps, k + 1, r1.0, r1.1, fuel);
        assert(r.1.subrange(0, order.len() as int) =~= r.1.subrange(0, r1.1.len() as int).subrange(
            0,
            order.len() as int,
        ));
        assert forall|j: int| k <= j < deps.len() implies r.1.contains(#[trigger] deps[j]) by {
            if j == k {
                let i = choose|i: int| 0 <= i < r1.1.len() && r1.1[i] == d as NodeId;
                assert(r.1[i] == r1.1[i]);
            }
        }
        assert forall|i: int| order.len() <= i < r.1.len() implies 0 <= #[trigger] rank[r.1[i] as int] < rank[id] by {
            if i < r1.1.len() {
                assert(r.1[i] == r1.1[i]);
            }
        }
        assert forall|j: int|
            0 <= j < visited.len() && #[trigger] r.0[j] implies visited[j] || r.1.contains(
            j as NodeId,
        ) by {
            if !r1.0[j] {
            } else if !visited[j] {
                let i = choose|i: int| 0 <= i < r1.1.len() && r1.1[i] == j as NodeId;
                assert(r.1[i] == r1.1[i]);
            }
        }
    }
}

/// Dependency order of a graph: the order lists `output` last; every node
/// in it is a node of the graph whose walk is acyclic; no node is listed
/// twice; and every dependency of a listed node is listed before that node.
pub proof fn lemma_topo_order(nodes: Seq<RawChunk>, output: int)
    requires
        acyclic_from(nodes, output),
    ensures
        ({
            let o = topo_order(nodes, output);
            &&& o.len() > 0
            &&& o.last() == output as NodeId
            &&& forall|i: int| 0 <= i < o.len() ==> (#[trigger] o[i] as int) < nodes.len()
            &&& forall|i: int| 0 <= i < o.len() ==> acyclic_from(nodes, #[trigger] o[i] as int)
            &&& forall|i: int, j: int| 0 <= i < j < o.len() ==> o[i] != o[j]
            &&& forall|i: int, k: int|
                0 <= i < o.len() && 0 <= k < node_deps(nodes[o[i] as int].node).len()
                    ==> #[trigger] o.take(i).contains(node_deps(nodes[o[i] as int].node)[k])
        }),
{
    let rank = choose|rank: Seq<int>| ranked(nodes, rank) && rank[output] >= 0;
    let v0 = Seq::new(nodes.len(), |i: int| false);
    let o0: Seq<NodeId> = seq![];
    let fuel = (nodes.len() + 1) as nat;
    lemma_unvisited_none(nodes.len());
    lemma_dfs_order(nodes, rank, output, v0, o0, fuel);
    let r = dfs(nodes, output, v0, o0, fuel);
    let deps = node_deps(nodes[output].node);
    assert(!v0[output]);
    let r2 = dfs_deps(nodes, deps, 0, v0.update(output, true), o0, (fuel - 1) as nat);
    assert(r.1 == r2.1.push(output as NodeId));
    assert forall|i: int| 0 <= i < r.1.len() implies acyclic_from(nodes, #[trigger] r.1[i] as int) by {
        assert(0 <= rank[r.1[i] as int]);
    }
}

/// Depth-first walk from `id`, marking entered nodes and appending each
/// node after all of its dependencies; a dependency that is not a node of
/// the graph is passed over.
fn dfs_exec(
    id: NodeId,
    nodes: &[RawChunk],
    visited: &mut Vec<bool>,
    order: &mut Vec<NodeId>,
    Ghost(fuel): Ghost<nat>,
)
    requires
        old(visited)@.len() == nodes@.len(),
        fuel > unvisited(old(visited)@),
    ensures
        (final(visited)@, final(order)@) == dfs(nodes@, id as int, old(visited)@, old(order)@, fuel),
        final(visited)@.len() == nodes@.len(),
    decreases fuel,
{
    proof {
        lemma_dfs_grows(nodes@, id as int, visited@, order@, fuel);
    }
    let idx = id as usize;
    if idx >= nodes.len() || visited[idx] {
        return;
    }
    proof {
        lemma_unvisited_mark(visited@, idx as int);
    }
    visited.set(idx, true);
    let deps = nodes[idx].node.deps();
    let ghost v1 = visited@;
    let ghost o1 = order@;
    let ghost f1 = (fuel - 1) as nat;
    assert(f1 < fuel);
    let mut k: usize = 0;
    while k < deps.len()
        invariant
            deps@ == node_deps(nodes@[id as int].node),
            k <= deps.len(),
            visited@.len() == nodes@.len(),
            f1 < fuel,
            f1 > unvisited(visited@),
            dfs_deps(nodes@, deps@, 0, v1, o1, f1) == dfs_deps(nodes@, deps@, k as int, visited@, order@, f1),
        decreases deps.len() - k,
    {
        let d = deps[k];
        let ghost v2 = visited@;
        proof {
            lemma_dfs_grows(nodes@, d as int, visited@, order@, f1);
        }
        dfs_exec(d, nodes, visited, order, Ghost(f1));
        proof {
            lemma_unvisited_grow(v2, visited@);
        }
        k += 1;
    }
    order.push(id);
}

/// The walk from `output` in a graph with `nodes.len()` unmarked nodes.
fn walk_order(nodes: &[RawChunk], output: NodeId) -> (r: Vec<NodeId>)
    ensures
        r@ == topo_order(nodes@, output as int),
{
    let mut visited: Vec<bool> = Vec::new();
    let mut i: usize = 0;
    while i < nodes.len()
        invariant
            i <= nodes@.len(),
            visited@ == Seq::new(i as nat, |j: int| false),
        decreases nodes.len() - i,
    {
        visited.push(false);
        i += 1;
    }
    proof {
        lemma_unvisited_none(nodes@.len());
    }
    let mut order: Vec<NodeId> = Vec::new();
    dfs_exec(output, nodes, &mut visited, &mut order, Ghost((nodes@.len() + 1) as nat));
    order
}

/// The dependency order of the nodes that `output` depends on, `output`
/// last. Every node it reaches must read only nodes of the graph (reading
/// one the graph lacks stops the engine with a panic).
pub fn topo_order_from_nodes(nodes: &[RawChunk], output: NodeId) -> (r: Vec<NodeId>)
    requires
        in_range_from(nodes@, output as int),
    ensures
        r@ == topo_order(nodes@, output as int),
{
    walk_order(nodes, output)
}

/// Whether node `output` is a node of the graph and the nodes it reads,
/// directly or through others, are nodes of the graph without a cycle
/// among them: the walk from `output` lists each node's dependencies
/// before it.
pub fn is_acyclic_from(nodes: &[RawChunk], output: NodeId) -> (b: bool)
    ensures
        b == acyclic_from(nodes@, output as int),
{
    if output as usize >= nodes.len() {
        return false;
    }
    let order = walk_order(nodes, output);
    let ghost o = order@;
    let mut i: usize = 0;
    while i < order.len()
        invariant
            o == order@,
            o == topo_order(nodes@, output as int),
            i <= o.len(),
            forall|p: int|
                0 <= p < i ==> (#[trigger] o[p] as int) < nodes@.len() && listed_first(nodes@, o, p),
        decreases order.len() - i,
    {
        let id = order[i];
        if id as usize >= nodes.len() {
            proof {
                lemma_not_listed_first(nodes@, output as int, i as int);
            }
            return false;
        }
        let deps = nodes[id as usize].node.deps();
        let mut k: usize = 0;
        while k < deps.len()
            invariant
                o == order@,
                o == topo_order(nodes@, output as int),
                i < o.len(),
                (o[i as int] as int) < nodes@.len(),
                deps@ == node_deps(nodes@[o[i as int] as int].node),
                k <= deps.len(),
                forall|m: int| 0 <= m < k ==> #[trigger] o.take(i as int).contains(deps@[m]) && deps@[m] < nodes@.len(),
            decreases deps.len() - k,
        {
            let d = deps[k];
            let mut found = false;
            let mut p: usize = 0;
            while p < i
                invariant
                    o == order@,
                    i < o.len(),
                    p <= i,
                    found == o.take(p as int).contains(d),
                decreases i - p,
            {
                let ghost before = found;
                if order[p] == d {
                    found = true;
                }
                proof {
                    let t1 = o.take(p + 1);
                    assert(t1 =~= o.take(p as int).push(o[p as int]));
                    if o[p as int] == d {
                        assert(t1[p as int] == d);
                    }
                    if before {
                        let q = choose|q: int| 0 <= q < o.take(p as int).len() && o.take(p as int)[q] == d;
                        assert(t1[q] == d);
                    }
                    if t1.contains(d) {
                        let q = choose|q: int| 0 <= q < t1.len() && t1[q] == d;
                        if q < p {
                            assert(o.take(p as int)[q] == d);
                        }
                    }
                }
                p += 1;
            }
            if !found || d as usize >= nodes.len() {
                proof {
                    assert(o.take(p as int) =~= o.take(i as int));
                    lemma_not_listed_first(nodes@, output as int, i as int);
                }
                return false;
            }
            assert(o.take(p as int) =~= o.take(i as int));
            k += 1;
        }
        proof {
            assert forall|m: int| 0 <= m < node_deps(nodes@[o[i as int] as int].node).len() implies
                #[trigger] o.take(i as int).contains(node_deps(nodes@[o[i as int] as int].node)[m])
                && node_deps(nodes@[o[i as int] as int].node)[m] < nodes@.len() by {
                assert(deps@[m] == node_deps(nodes@[o[i as int] as int].node)[m]);
            }
            assert(listed_first(nodes@, o, i as int));
            assert forall|q: int| 0 <= q < i + 1 implies (#[trigger] o[q] as int) < nodes@.len() && listed_first(nodes@, o, q) by {
                if q < i {
                } else {
                }
            }
        }
        i += 1;
    }
    proof {
        lemma_listed_first_acyclic(nodes@, output as int);
    }
    true
}

/// Node `o[p]` is listed after every node it reads, each a node of the
/// graph.
pub open spec fn listed_first(nodes: Seq<RawChunk>, o: Seq<NodeId>, p: int) -> bool {
    forall|m: int|
        0 <= m < node_deps(nodes[o[p] as int].node).len() ==> #[trigger] o.take(p).contains(
            node_deps(nodes[o[p] as int].node)[m],
        ) && node_deps(nodes[o[p] as int].node)[m] < nodes.len()
}

/// The first place of `x` in `o`.
spec fn first_place(o: Seq<NodeId>, x: NodeId) -> int {
    choose|p: int| 0 <= p < o.len() && o[p] == x && !o.take(p).contains(x)
}

proof fn lemma_first_place(o: Seq<NodeId>, x: NodeId)
    requires
        o.contains(x),
    ensures
        0 <= first_place(o, x) < o.len(),
        o[first_place(o, x)] == x,
        !o.take(first_place(o, x)).contains(x),
        forall|p: int| 0 <= p < o.len() && o[p] == x ==> first_place(o, x) <= p,
    decreases o.len(),
{
    let q = choose|q: int| 0 <= q < o.len() && o[q] == x;
    lemma_least_place(o, x, q);
    let p = first_place(o, x);
    assert forall|p2: int| 0 <= p2 < o.len() && o[p2] == x implies p <= p2 by {
        if p2 < p {
            assert(o.take(p)[p2] == x);
        }
    }
}

proof fn lemma_least_place(o: Seq<NodeId>, x: NodeId, q: int)
    requires
        0 <= q < o.len(),
        o[q] == x,
    ensures
        exists|p: int| 0 <= p < o.len() && o[p] == x && !o.take(p).contains(x),
    decreases q,
{
    if o.take(q).contains(x) {
        let q2 = choose|q2: int| 0 <= q2 < o.take(q).len() && o.take(q)[q2] == x;
        lemma_least_place(o, x, q2);
    } else {
        assert(0 <= q < o.len() && o[q] == x && !o.take(q).contains(x));
    }
}

/// When the walk from `output` lists each node after the nodes it reads,
/// the places of first listing rank the nodes it reaches.
proof fn lemma_listed_first_acyclic(nodes: Seq<RawChunk>, output: int)
    requires
        0 <= output < nodes.len(),
        output <= u32::MAX,
        forall|p: int|
            0 <= p < topo_order(nodes, output).len() ==> (#[trigger] topo_order(nodes, output)[p] as int)
                < nodes.len() && listed_first(nodes, topo_order(nodes, output), p),
    ensures
        acyclic_from(nodes, output),
{
    let o = topo_order(nodes, output);
    lemma_topo_last(nodes, output);
    let rank = Seq::new(
        nodes.len(),
        |i: int| if i <= u32::MAX && o.contains(i as NodeId) { first_place(o, i as NodeId) } else { -1 },
    );
    assert forall|i: int| 0 <= i < nodes.len() && rank[i] >= 0 implies #[trigger] reads_ranked(nodes, rank, i) by {
        lemma_first_place(o, i as NodeId);
        let p = first_place(o, i as NodeId);
        assert(o[p] as int == i);
        assert(listed_first(nodes, o, p));
        assert forall|k: int| 0 <= k < node_deps(nodes[i].node).len() implies (#[trigger] node_deps(nodes[i].node)[k])
            < nodes.len() && 0 <= rank[node_deps(nodes[i].node)[k] as int] < rank[i] by {
            let d = node_deps(nodes[i].node)[k];
            assert(o.take(p).contains(d));
            let q = choose|q: int| 0 <= q < o.take(p).len() && o.take(p)[q] == d;
            assert(o[q] == d);
            assert(o.contains(d));
            lemma_first_place(o, d);
            assert((d as int) as NodeId == d);
        }
    }
    assert(o.contains(output as NodeId)) by {
        assert(o[o.len() - 1] == output as NodeId);
    }
    lemma_first_place(o, output as NodeId);
    assert(ranked(nodes, rank) && rank[output] >= 0);
}

/// The walk from a node of the graph lists that node last.
pub proof fn lemma_topo_last(nodes: Seq<RawChunk>, output: int)
    requires
        0 <= output < nodes.len(),
    ensures
        topo_order(nodes, output).len() > 0,
        topo_order(nodes, output).last() == output as NodeId,
{
    let v0 = Seq::new(nodes.len(), |i: int| false);
    let fuel = (nodes.len() + 1) as nat;
    let r2 = dfs_deps(nodes, node_deps(nodes[output].node), 0, v0.update(output, true), seq![], (fuel - 1) as nat);
    assert(topo_order(nodes, output) == r2.1.push(output as NodeId));
}

/// A walk in which some node comes before a node it reads, or reads a
/// node the graph lacks, is not acyclic from `output`.
proof fn lemma_not_listed_first(nodes: Seq<RawChunk>, output: int, p: int)
    requires
        0 <= p < topo_order(nodes, output).len(),
        !((topo_order(nodes, output)[p] as int) < nodes.len() && listed_first(nodes, topo_order(nodes, output), p)),
    ensures
        !acyclic_from(nodes, output),
{
    if acyclic_from(nodes, output) {
        lemma_topo_order(nodes, output);
        let o = topo_order(nodes, output);
        let n = nodes[o[p] as int].node;
        assert forall|m: int| 0 <= m < node_deps(n).len() implies #[trigger] o.take(p).contains(node_deps(n)[m])
            && node_deps(n)[m] < nodes.len() by {
            assert(acyclic_from(nodes, o[p] as int));
            let rank = choose|rank: Seq<int>| ranked(nodes, rank) && rank[o[p] as int] >= 0;
            assert(reads_ranked(nodes, rank, o[p] as int));
        }
    }
}

} // verus!
