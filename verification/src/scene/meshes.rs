//! How the primitives of a glTF mesh become one mesh: which primitives
//! are read, the vertex range and material each contributes, and which
//! indices form its triangles.
use vstd::prelude::*;

verus! {

/// What reading one primitive gave.
#[derive(Debug, Copy, Clone, PartialEq, Eq, Structural)]
pub enum PrimitiveOutcome {
    /// A triangle primitive with its vertex count and material slot.
    Ready { vertex_count: u32, material: u32 },
    /// A primitive that is not made of triangles; it is left out.
    Skip,
    /// A primitive without positions; the whole mesh cannot be read.
    Missing,
}

/// The vertex ranges and materials of the first `n` primitives, with the
/// first vertex of the next one; `None` once a primitive lacks positions.
pub open spec fn primitive_layout(outcomes: Seq<PrimitiveOutcome>, n: nat) -> Option<(Seq<(u32, u32)>, Seq<u32>, int)>
    decreases n,
{
    if n == 0 || n > outcomes.len() {
        Some((seq![], seq![], 0))
    } else {
        match primitive_layout(outcomes, (n - 1) as nat) {
            None => None,
            Some((ranges, materials, start)) => match outcomes[n - 1] {
                PrimitiveOutcome::Ready { vertex_count, material } => Some(
                    (
                        ranges.push((start as u32, (start + vertex_count) as u32)),
                        materials.push(material),
                        start + vertex_count,
                    ),
                ),
                PrimitiveOutcome::Skip => Some((ranges, materials, start)),
                PrimitiveOutcome::Missing => None,
            },
        }
    }
}

/// Vertices over the ready primitives.
pub open spec fn ready_vertices(outcomes: Seq<PrimitiveOutcome>) -> int
    decreases outcomes.len(),
{
    if outcomes.len() == 0 {
        0
    } else {
        ready_vertices(outcomes.drop_last()) + match outcomes.last() {
            PrimitiveOutcome::Ready { vertex_count, .. } => vertex_count as int,
            _ => 0,
        }
    }
}

proof fn lemma_layout_start(outcomes: Seq<PrimitiveOutcome>, n: nat)
    requires
        n <= outcomes.len(),
    ensures
        primitive_layout(outcomes, n) matches Some((r, m, s)) ==> s == ready_vertices(outcomes.take(n as int))
            && r.len() == m.len(),
        0 <= ready_vertices(outcomes.take(n as int)) <= ready_vertices(outcomes),
    decreases outcomes.len() - n,
{
    if n < outcomes.len() {
        lemma_layout_start(outcomes, n + 1);
        assert(outcomes.take(n as int + 1).drop_last() =~= outcomes.take(n as int));
    } else {
        assert(outcomes.take(n as int) =~= outcomes);
    }
    lemma_layout_prefix(outcomes, n);
}

proof fn lemma_layout_prefix(outcomes: Seq<PrimitiveOutcome>, n: nat)
    requires
        n <= outcomes.len(),
    ensures
        primitive_layout(outcomes, n) matches Some((r, m, s)) ==> s == ready_vertices(outcomes.take(n as int))
            && r.len() == m.len(),
        0 <= ready_vertices(outcomes.take(n as int)),
    decreases n,
{
    if n > 0 {
        lemma_layout_prefix(outcomes, (n - 1) as nat);
        assert(outcomes.take(n as int).drop_last() =~= outcomes.take(n - 1));
    }
}

/// The vertex ranges and materials of a mesh's primitives: each ready
/// primitive takes the next `vertex_count` vertices and its material;
/// primitives that are not triangles are left out; `None` when one lacks
/// positions.
pub fn primitive_ranges(outcomes: &Vec<PrimitiveOutcome>) -> (r: Option<(Vec<(u32, u32)>, Vec<u32>)>)
    requires
        ready_vertices(outcomes@) <= u32::MAX,
    ensures
        match primitive_layout(outcomes@, outcomes@.len()) {
            None => r is None,
            Some((ranges, materials, _)) => r matches Some((rr, mm)) && rr@ == ranges && mm@ == materials,
        },
{
    let mut ranges: Vec<(u32, u32)> = Vec::new();
    let mut materials: Vec<u32> = Vec::new();
    let mut start: u32 = 0;
    let mut i: usize = 0;
    while i < outcomes.len()
        invariant
            i <= outcomes.len(),
            ready_vertices(outcomes@) <= u32::MAX,
            primitive_layout(outcomes@, i as nat) == Some((ranges@, materials@, start as int)),
        decreases outcomes.len() - i,
    {
        proof {
            lemma_layout_start(outcomes@, (i + 1) as nat);
            lemma_layout_start(outcomes@, i as nat);
            assert(outcomes@.take(i + 1).drop_last() =~= outcomes@.take(i as int));
        }
        match outcomes[i] {
            PrimitiveOutcome::Ready { vertex_count, material } => {
                let end = start + vertex_count;
                ranges.push((start, end));
                materials.push(material);
                start = end;
            },
            PrimitiveOutcome::Skip => {},
            PrimitiveOutcome::Missing => {
                proof {
                    lemma_missing_stays(outcomes@, (i + 1) as nat, outcomes@.len());
                }
                return None;
            },
        }
        i += 1;
    }
    Some((ranges, materials))
}

proof fn lemma_missing_stays(outcomes: Seq<PrimitiveOutcome>, n: nat, m: nat)
    requires
        n <= m <= outcomes.len(),
        primitive_layout(outcomes, n) is None,
    ensures
        primitive_layout(outcomes, m) is None,
    decreases m - n,
{
    if n < m {
        lemma_missing_stays(outcomes, n + 1, m);
    }
}

/// The indices a primitive is drawn with: its own, or each vertex once in
/// order when it has none.
pub fn default_indices(vertex_count: u32) -> (r: Vec<u32>)
    ensures
        r@.len() == vertex_count,
        forall|i: int| 0 <= i < vertex_count ==> #[trigger] r@[i] == i,
{
    let mut out: Vec<u32> = Vec::new();
    let mut i: u32 = 0;
    while i < vertex_count
        invariant
            i <= vertex_count,
            out@.len() == i,
            forall|k: int| 0 <= k < i ==> #[trigger] out@[k] == k,
        decreases vertex_count - i,
    {
        out.push(i);
        i += 1;
    }
    out
}

/// The indices of whole triangles: a trailing one or two indices that do
/// not make a triangle are dropped.
pub fn triangle_indices(indices: &Vec<u32>) -> (r: Vec<u32>)
    ensures
        r@ == indices@.take(3 * (indices@.len() / 3) as int),
        r@.len() % 3 == 0,
{
    let whole = indices.len() / 3 * 3;
    let mut out: Vec<u32> = Vec::new();
    let mut i: usize = 0;
    while i < whole
        invariant
            whole == indices@.len() / 3 * 3,
            whole <= indices@.len(),
            i <= whole,
            out@ =~= indices@.take(i as int),
        decreases whole - i,
    {
        out.push(indices[i]);
        i += 1;
    }
    out
}

/// The material slot a primitive uses: its material's index, or slot `0`
/// when it has none.
pub fn primitive_material(material_index: Option<usize>) -> (r: u32)
    ensures
        r == match material_index {
            Some(i) => i as u32,
            None => 0u32,
        },
{
    match material_index {
        Some(i) => i as u32,
        None => 0,
    }
}

/// Ranges of consecutive ready primitives follow each other without gap
/// from the first vertex on, and each is as long as its primitive.
pub proof fn lemma_ranges_consecutive(outcomes: Seq<PrimitiveOutcome>, n: nat)
    requires
        n <= outcomes.len(),
        ready_vertices(outcomes) <= u32::MAX,
    ensures
        primitive_layout(outcomes, n) matches Some((r, m, s)) ==> {
            &&& (r.len() > 0 ==> r[0].0 == 0)
            &&& (forall|k: int| 0 <= k < r.len() - 1 ==> (#[trigger] r[k]).1 == r[k + 1].0)
            &&& (forall|k: int| 0 <= k < r.len() ==> (#[trigger] r[k]).0 <= r[k].1)
            &&& (r.len() > 0 ==> r[r.len() - 1].1 == s)
            &&& (r.len() == 0 ==> s == 0)
        },
    decreases n,
{
    if n > 0 {
        lemma_ranges_consecutive(outcomes, (n - 1) as nat);
        lemma_layout_start(outcomes, n);
        lemma_layout_start(outcomes, (n - 1) as nat);
    }
}

} // verus!
