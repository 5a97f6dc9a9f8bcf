//! Meshes on the GPU side: how a mesh is split into meshlets that each fit
//! one buffer, and which part of which meshlet a draw of a point range
//! covers. The buffers themselves are a type parameter.
use std::ops::Range;
use vstd::prelude::*;

verus! {

/// The byte budget of one mesh buffer.
pub const MAX_BUFFER_BYTES: usize = 128_000_000;

/// Indices (four bytes each) that fit into one index buffer.
pub const MAX_BUFFER_INDICES: usize = 32_000_000;

/// Elements of `element_size` bytes that fit into one mesh buffer.
pub fn max_buffer_elements(element_size: usize) -> (r: usize)
    requires
        element_size > 0,
    ensures
        r == MAX_BUFFER_BYTES / element_size,
{
    MAX_BUFFER_BYTES / element_size
}

/// The half-open range of chunk `i` when `len` items are cut into chunks of
/// `max`: chunk `i` starts at `i * max` and ends at `len` at the latest.
pub open spec fn chunk_at(len: nat, max: nat, i: int) -> (nat, nat) {
    let start = i * max;
    let end = if (i + 1) * max <= len {
        (i + 1) * max
    } else {
        len as int
    };
    (start as nat, end as nat)
}

/// All chunks of `len` items: `len / max + 1` of them, the last one empty
/// when `max` divides `len`.
pub open spec fn chunk_ranges_spec(len: nat, max: nat) -> Seq<(nat, nat)> {
    Seq::new(len / max + 1, |i: int| chunk_at(len, max, i))
}

proof fn lemma_chunk_bounds(len: nat, max: nat, i: int)
    requires
        max > 0,
        0 <= i <= len / max,
    ensures
        i * max <= len,
        chunk_at(len, max, i).0 <= chunk_at(len, max, i).1 <= len,
        chunk_at(len, max, i).1 - chunk_at(len, max, i).0 <= max,
        (i + 1) * max <= len + max,
        (i + 1) * max == i * max + max,
{
    assert((len / max) * max <= len) by (nonlinear_arith)
        requires
            max > 0,
    {
        vstd::arithmetic::div_mod::lemma_fundamental_div_mod(len as int, max as int);
    }
    assert(i * max <= (len / max) * max) by (nonlinear_arith)
        requires
            max > 0,
            0 <= i <= len / max,
    ;
    assert((i + 1) * max == i * max + max) by (nonlinear_arith);
}

/// Cuts `len` items into chunks of at most `max`, in order.
pub fn chunk_ranges(len: usize, max: usize) -> (r: Vec<(usize, usize)>)
    requires
        max > 0,
        len + max <= usize::MAX,
    ensures
        r@.len() == chunk_ranges_spec(len as nat, max as nat).len(),
        forall|i: int|
            0 <= i < r@.len() ==> (#[trigger] r@[i]).0 == chunk_ranges_spec(len as nat, max as nat)[i].0
                && r@[i].1 == chunk_ranges_spec(len as nat, max as nat)[i].1,
{
    let count = len / max;
    let mut out: Vec<(usize, usize)> = Vec::new();
    let mut i: usize = 0;
    while i <= count
        invariant
            max > 0,
            len + max <= usize::MAX,
            count == len / max,
            count <= len,
            i <= count + 1,
            out@.len() == i,
            forall|k: int|
                0 <= k < i ==> (#[trigger] out@[k]).0 == chunk_at(len as nat, max as nat, k).0
                    && out@[k].1 == chunk_at(len as nat, max as nat, k).1,
        decreases count + 1 - i,
    {
        proof {
            lemma_chunk_bounds(len as nat, max as nat, i as int);
        }
        let start = i * max;
        let next = start + max;
        let end = if next <= len {
            next
        } else {
            len
        };
        let ghost prev = out@;
        out.push((start, end));
        assert forall|k: int| 0 <= k < i + 1 implies (#[trigger] out@[k]).0 == chunk_at(len as nat, max as nat, k).0
            && out@[k].1 == chunk_at(len as nat, max as nat, k).1 by {
            if k < i {
                assert(out@[k] == prev[k]);
            }
        }
        i += 1;
    }
    out
}

/// Consecutive chunks cover `0..len` without gap or overlap, none larger
/// than `max`.
pub proof fn lemma_chunks_cover(len: nat, max: nat)
    requires
        max > 0,
    ensures
        ({
            let c = chunk_ranges_spec(len, max);
            &&& c.len() >= 1
            &&& c[0].0 == 0
            &&& c[c.len() - 1].1 == len
            &&& forall|i: int| 0 <= i < c.len() ==> (#[trigger] c[i]).0 <= c[i].1 <= len && c[i].1 - c[i].0 <= max
            &&& forall|i: int| 0 <= i < c.len() - 1 ==> (#[trigger] c[i]).1 == c[i + 1].0
        }),
{
    let c = chunk_ranges_spec(len, max);
    let n = len / max;
    assert forall|i: int| 0 <= i < c.len() implies (#[trigger] c[i]).0 <= c[i].1 <= len && c[i].1 - c[i].0
        <= max by {
        lemma_chunk_bounds(len, max, i);
    }
    assert forall|i: int| 0 <= i < c.len() - 1 implies (#[trigger] c[i]).1 == c[i + 1].0 by {
        lemma_chunk_bounds(len, max, i + 1);
        assert((i + 1) * max <= len);
    }
    assert(0 * max == 0) by (nonlinear_arith);
    assert(c[n as int].1 == len) by {
        assert(len < (n + 1) * max) by (nonlinear_arith)
            requires
                max > 0,
                n == len / max,
        {
            vstd::arithmetic::div_mod::lemma_fundamental_div_mod(len as int, max as int);
        }
    }
}

/// One meshlet: a vertex buffer, optionally an index buffer, and the
/// offset of its first point within the whole mesh.
pub struct Meshlet<B> {
    pub vertex_buffer: B,
    pub vertex_count: u32,
    pub index_buffer: Option<B>,
    pub index_count: u32,
    pub offset: u32,
}

/// What a meshlet draws, as plain numbers.
#[derive(Debug, Copy, Clone, PartialEq, Eq, Structural)]
pub struct MeshletShape {
    pub vertex_count: u32,
    pub index_count: u32,
    pub indexed: bool,
    pub offset: u32,
}

impl MeshletShape {
    /// Points drawn: indices when indexed, vertices otherwise.
    pub open spec fn points(self) -> u32 {
        if self.indexed {
            self.index_count
        } else {
            self.vertex_count
        }
    }

    /// The end of the meshlet's points fits into `u32`.
    pub open spec fn wf(self) -> bool {
        self.offset + self.points() <= u32::MAX
    }

    /// Whether a draw of `start..end` reaches this meshlet.
    pub open spec fn overlaps(self, start: u32, end: u32) -> bool {
        self.offset < end && start <= self.offset + self.points()
    }

    /// The part of `start..end` inside this meshlet, relative to its
    /// offset; `None` when the range misses it.
    pub open spec fn clamped(self, start: u32, end: u32) -> Option<(u32, u32)> {
        if !self.overlaps(start, end) {
            None
        } else {
            let s = if start >= self.offset {
                (start - self.offset) as u32
            } else {
                0u32
            };
            let e = if end >= self.offset + self.points() {
                self.points()
            } else {
                (end - self.offset) as u32
            };
            Some((s, e))
        }
    }
}

impl<B> Meshlet<B> {
    /// The meshlet's numbers.
    pub open spec fn shape(&self) -> MeshletShape {
        MeshletShape {
            vertex_count: self.vertex_count,
            index_count: self.index_count,
            indexed: self.index_buffer is Some,
            offset: self.offset,
        }
    }

    /// Points drawn: indices when the meshlet has an index buffer,
    /// vertices otherwise.
    pub fn point_count(&self) -> (r: u32)
        ensures
            r == self.shape().points(),
    {
        if self.index_buffer.is_some() {
            self.index_count
        } else {
            self.vertex_count
        }
    }

    /// Whether the meshlet has an index buffer.
    pub fn has_indices(&self) -> (r: bool)
        ensures
            r == self.shape().indexed,
    {
        self.index_buffer.is_some()
    }

    /// Whether a draw of `range` reaches this meshlet.
    pub fn applies_to(&self, range: Range<u32>) -> (r: bool)
        requires
            self.shape().wf(),
        ensures
            r == self.shape().overlaps(range.start, range.end),
    {
        self.offset < range.end && range.start <= self.offset + self.point_count()
    }

    /// The part of `range` inside this meshlet, relative to its offset;
    /// `None` when the range misses the meshlet. The result lies within
    /// the meshlet's points and does not run backwards.
    pub fn clamp_range(&self, range: Range<u32>) -> (r: Option<Range<u32>>)
        requires
            self.shape().wf(),
            range.start <= range.end,
        ensures
            match self.shape().clamped(range.start, range.end) {
                Some((s, e)) => r matches Some(q) && q.start == s && q.end == e,
                None => r is None,
            },
            r matches Some(q) ==> q.start <= q.end <= self.shape().points(),
    {
        if !self.applies_to(Range { start: range.start, end: range.end }) {
            return None;
        }
        let points = self.point_count();
        let start = range.start.saturating_sub(self.offset);
        let end = if range.end >= self.offset + points {
            points
        } else {
            range.end - self.offset
        };
        Some(Range { start, end })
    }
}

/// One meshlet draw of a mesh draw: which meshlet, the range within it,
/// and whether it is drawn through its indices.
#[derive(Debug, Copy, Clone, PartialEq, Eq, Structural)]
pub struct MeshletDraw {
    pub meshlet: usize,
    pub start: u32,
    pub end: u32,
    pub indexed: bool,
}

/// The meshlet draws of a draw of `start..end` over the first `n` meshlets:
/// one for each meshlet the range reaches, in meshlet order.
pub open spec fn draw_steps(shapes: Seq<MeshletShape>, start: u32, end: u32, n: nat) -> Seq<MeshletDraw>
    decreases n,
{
    if n == 0 || n > shapes.len() {
        seq![]
    } else {
        let prev = draw_steps(shapes, start, end, (n - 1) as nat);
        match shapes[n - 1].clamped(start, end) {
            Some((s, e)) => prev.push(
                MeshletDraw { meshlet: (n - 1) as usize, start: s, end: e, indexed: shapes[n - 1].indexed },
            ),
            None => prev,
        }
    }
}

/// Vertices over all meshlets.
pub open spec fn vertex_total(shapes: Seq<MeshletShape>) -> int
    decreases shapes.len(),
{
    if shapes.len() == 0 {
        0
    } else {
        vertex_total(shapes.drop_last()) + shapes.last().vertex_count
    }
}

/// Indices over the meshlets that have an index buffer.
pub open spec fn index_total(shapes: Seq<MeshletShape>) -> int
    decreases shapes.len(),
{
    if shapes.len() == 0 {
        0
    } else {
        index_total(shapes.drop_last()) + if shapes.last().indexed {
            shapes.last().index_count as int
        } else {
            0
        }
    }
}

proof fn lemma_totals_monotone(shapes: Seq<MeshletShape>, k: int)
    requires
        0 <= k <= shapes.len(),
    ensures
        vertex_total(shapes.take(k)) <= vertex_total(shapes),
        index_total(shapes.take(k)) <= index_total(shapes),
        0 <= vertex_total(shapes.take(k)),
        0 <= index_total(shapes.take(k)),
    decreases shapes.len() - k,
{
    if k < shapes.len() {
        lemma_totals_monotone(shapes, k + 1);
        assert(shapes.take(k + 1).drop_last() =~= shapes.take(k));
    } else {
        assert(shapes.take(k) =~= shapes);
    }
    lemma_totals_nonneg(shapes.take(k));
}

proof fn lemma_totals_nonneg(shapes: Seq<MeshletShape>)
    ensures
        0 <= vertex_total(shapes),
        0 <= index_total(shapes),
    decreases shapes.len(),
{
    if shapes.len() > 0 {
        lemma_totals_nonneg(shapes.drop_last());
    }
}

/// A mesh as meshlets with the vertex and index totals counted when it was
/// built.
pub struct RuntimeMesh<B> {
    meshlets: Vec<Meshlet<B>>,
    total_vertex_count: u32,
    total_index_count: u32,
}

/// The shapes of a list of meshlets.
pub open spec fn shapes_of<B>(meshlets: Seq<Meshlet<B>>) -> Seq<MeshletShape> {
    Seq::new(meshlets.len(), |i: int| meshlets[i].shape())
}

impl<B> RuntimeMesh<B> {
    /// The shapes of the meshlets.
    pub closed spec fn shapes(&self) -> Seq<MeshletShape> {
        shapes_of(self.meshlets@)
    }

    /// The vertex total counted at construction.
    pub closed spec fn vertex_count_spec(&self) -> u32 {
        self.total_vertex_count
    }

    /// The index total counted at construction.
    pub closed spec fn index_count_spec(&self) -> u32 {
        self.total_index_count
    }

    /// Every meshlet's end fits into `u32`.
    pub open spec fn wf(&self) -> bool {
        forall|i: int| 0 <= i < self.shapes().len() ==> (#[trigger] self.shapes()[i]).wf()
    }

    /// Builds a mesh from its meshlets, counting the vertices of all of
    /// them and the indices of those that have an index buffer.
    pub fn new(meshlets: Vec<Meshlet<B>>) -> (r: Self)
        requires
            vertex_total(shapes_of(meshlets@)) <= u32::MAX,
            index_total(shapes_of(meshlets@)) <= u32::MAX,
        ensures
            r.shapes() == shapes_of(meshlets@),
            r.vertex_count_spec() == vertex_total(shapes_of(meshlets@)),
            r.index_count_spec() == index_total(shapes_of(meshlets@)),
    {
        let ghost shapes = shapes_of(meshlets@);
        let mut total_vertex_count: u32 = 0;
        let mut total_index_count: u32 = 0;
        let mut i: usize = 0;
        while i < meshlets.len()
            invariant
                i <= meshlets.len(),
                shapes == shapes_of(meshlets@),
                vertex_total(shapes) <= u32::MAX,
                index_total(shapes) <= u32::MAX,
                total_vertex_count == vertex_total(shapes.take(i as int)),
                total_index_count == index_total(shapes.take(i as int)),
            decreases meshlets.len() - i,
        {
            proof {
                assert(shapes.take(i + 1).drop_last() =~= shapes.take(i as int));
                lemma_totals_monotone(shapes, i + 1);
            }
            let m = &meshlets[i];
            total_vertex_count = total_vertex_count + m.vertex_count;
            if m.has_indices() {
                total_index_count = total_index_count + m.index_count;
            }
            i += 1;
        }
        proof {
            assert(shapes.take(meshlets@.len() as int) =~= shapes);
        }
        RuntimeMesh { meshlets, total_vertex_count, total_index_count }
    }

    /// Replaces the meshlets; the totals stay those counted before.
    pub fn set_meshlets(&mut self, meshlets: Vec<Meshlet<B>>)
        ensures
            final(self).shapes() == shapes_of(meshlets@),
            final(self).vertex_count_spec() == old(self).vertex_count_spec(),
            final(self).index_count_spec() == old(self).index_count_spec(),
    {
        self.meshlets = meshlets;
    }

    /// The meshlets.
    pub fn meshlets(&self) -> (r: &[Meshlet<B>])
        ensures
            shapes_of(r@) == self.shapes(),
    {
        self.meshlets.as_slice()
    }

    /// The vertex total.
    pub fn total_vertex_count(&self) -> (r: u32)
        ensures
            r == self.vertex_count_spec(),
    {
        self.total_vertex_count
    }

    /// The index total.
    pub fn total_indices_count(&self) -> (r: u32)
        ensures
            r == self.index_count_spec(),
    {
        self.total_index_count
    }

    /// Whether the mesh is drawn through indices: it has some.
    pub fn has_indices(&self) -> (r: bool)
        ensures
            r == (self.index_count_spec() > 0),
    {
        self.total_index_count > 0
    }

    /// Points of the whole mesh: indices when it has any, vertices
    /// otherwise.
    pub fn total_point_count(&self) -> (r: u32)
        ensures
            r == if self.index_count_spec() > 0 {
                self.index_count_spec()
            } else {
                self.vertex_count_spec()
            },
    {
        if self.has_indices() {
            self.total_index_count
        } else {
            self.total_vertex_count
        }
    }

    /// The meshlet draws of a draw of `range`: each meshlet the range
    /// reaches, with the part of the range inside it, in meshlet order.
    /// Drawing all points, instanced drawing and drawing with replaced
    /// vertex buffers all walk these.
    pub fn draw_plan(&self, range: Range<u32>) -> (r: Vec<MeshletDraw>)
        requires
            self.wf(),
            range.start <= range.end,
        ensures
            r@ == draw_steps(self.shapes(), range.start, range.end, self.shapes().len()),
    {
        let mut out: Vec<MeshletDraw> = Vec::new();
        let mut i: usize = 0;
        while i < self.meshlets.len()
            invariant
                self.wf(),
                range.start <= range.end,
                i <= self.meshlets.len(),
                out@ == draw_steps(self.shapes(), range.start, range.end, i as nat),
            decreases self.meshlets.len() - i,
        {
            let m = &self.meshlets[i];
            assert(self.shapes()[i as int] == m.shape());
            if let Some(inner) = m.clamp_range(Range { start: range.start, end: range.end }) {
                out.push(MeshletDraw { meshlet: i, start: inner.start, end: inner.end, indexed: m.has_indices() });
            }
            i += 1;
        }
        out
    }
}

/// How one meshlet of an uploaded mesh is laid out: its counts, whether it
/// has an index buffer, its offset, and the item range its buffer holds
/// (of the indices when indexed, of the vertices otherwise).
#[derive(Debug, Copy, Clone, PartialEq, Eq, Structural)]
pub struct MeshletLayout {
    pub vertex_count: u32,
    pub index_count: u32,
    pub indexed: bool,
    pub offset: u32,
    pub start: usize,
    pub end: usize,
}

/// The layout of meshlet `i` of a mesh with `vertices` vertices and, when
/// indexed, `indices` indices.
pub open spec fn meshlet_layout_at(vertices: nat, indices: Option<nat>, max_vertices: nat, i: int) -> MeshletLayout {
    match indices {
        Some(n) => {
            let c = chunk_at(n, MAX_BUFFER_INDICES as nat, i);
            MeshletLayout {
                vertex_count: vertices as u32,
                index_count: (c.1 - c.0) as u32,
                indexed: true,
                offset: c.0 as u32,
                start: c.0 as usize,
                end: c.1 as usize,
            }
        },
        None => {
            let c = chunk_at(vertices, max_vertices, i);
            MeshletLayout {
                vertex_count: (c.1 - c.0) as u32,
                index_count: 0,
                indexed: false,
                offset: c.0 as u32,
                start: c.0 as usize,
                end: c.1 as usize,
            }
        },
    }
}

/// How many meshlets the upload makes.
pub open spec fn meshlet_count(vertices: nat, indices: Option<nat>, max_vertices: nat) -> nat {
    match indices {
        Some(n) => n / (MAX_BUFFER_INDICES as nat) + 1,
        None => vertices / max_vertices + 1,
    }
}

/// The meshlets a mesh is uploaded as: an indexed mesh shares one vertex
/// buffer and cuts its indices into buffers of [`MAX_BUFFER_INDICES`]; a
/// mesh without indices cuts its vertices into buffers of `max_vertices`.
/// An indexed mesh must fit its vertices into one buffer.
pub fn plan_mesh_upload(vertices: usize, indices: Option<usize>, max_vertices: usize) -> (r: Vec<MeshletLayout>)
    requires
        max_vertices > 0,
        vertices + max_vertices <= usize::MAX,
        indices matches Some(n) ==> n + MAX_BUFFER_INDICES <= usize::MAX && vertices <= max_vertices,
    ensures
        r@.len() == meshlet_count(vertices as nat, match indices {
            Some(n) => Some(n as nat),
            None => None,
        }, max_vertices as nat),
        forall|i: int|
            0 <= i < r@.len() ==> #[trigger] r@[i] == meshlet_layout_at(vertices as nat, match indices {
                Some(n) => Some(n as nat),
                None => None,
            }, max_vertices as nat, i),
{
    let ghost ind: Option<nat> = match indices {
        Some(n) => Some(n as nat),
        None => None,
    };
    let mut out: Vec<MeshletLayout> = Vec::new();
    match indices {
        Some(n) => {
            let chunks = chunk_ranges(n, MAX_BUFFER_INDICES);
            let mut i: usize = 0;
            while i < chunks.len()
                invariant
                    ind == Some(n as nat),
                    chunks@.len() == chunk_ranges_spec(n as nat, MAX_BUFFER_INDICES as nat).len(),
                    forall|k: int|
                        0 <= k < chunks@.len() ==> (#[trigger] chunks@[k]).0 == chunk_ranges_spec(n as nat, MAX_BUFFER_INDICES as nat)[k].0
                            && chunks@[k].1 == chunk_ranges_spec(n as nat, MAX_BUFFER_INDICES as nat)[k].1,
                    i <= chunks@.len(),
                    out@.len() == i,
                    forall|k: int| 0 <= k < i ==> #[trigger] out@[k] == meshlet_layout_at(vertices as nat, ind, max_vertices as nat, k),
                decreases chunks.len() - i,
            {
                let (start, end) = chunks[i];
                proof {
                    lemma_chunk_bounds(n as nat, MAX_BUFFER_INDICES as nat, i as int);
                }
                out.push(MeshletLayout {
                    vertex_count: vertices as u32,
                    index_count: (end - start) as u32,
                    indexed: true,
                    offset: start as u32,
                    start,
                    end,
                });
                i += 1;
            }
        },
        None => {
            let chunks = chunk_ranges(vertices, max_vertices);
            let mut i: usize = 0;
            while i < chunks.len()
                invariant
                    ind is None,
                    max_vertices > 0,
                    chunks@.len() == chunk_ranges_spec(vertices as nat, max_vertices as nat).len(),
                    forall|k: int|
                        0 <= k < chunks@.len() ==> (#[trigger] chunks@[k]).0 == chunk_ranges_spec(vertices as nat, max_vertices as nat)[k].0
                            && chunks@[k].1 == chunk_ranges_spec(vertices as nat, max_vertices as nat)[k].1,
                    i <= chunks@.len(),
                    out@.len() == i,
                    forall|k: int| 0 <= k < i ==> #[trigger] out@[k] == meshlet_layout_at(vertices as nat, ind, max_vertices as nat, k),
                decreases chunks.len() - i,
            {
                let (start, end) = chunks[i];
                proof {
                    lemma_chunk_bounds(vertices as nat, max_vertices as nat, i as int);
                }
                out.push(MeshletLayout {
                    vertex_count: (end - start) as u32,
                    index_count: 0,
                    indexed: false,
                    offset: start as u32,
                    start,
                    end,
                });
                i += 1;
            }
        },
    }
    out
}

} // verus!
