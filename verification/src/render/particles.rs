//! How a particle system is split into compute chunks that each fit the
//! device's buffer and dispatch limits, and how each chunk is dispatched.
use vstd::prelude::*;

verus! {

/// Bytes of one particle vertex on the GPU.
pub const PARTICLE_VERTEX_SIZE: u64 = 32;

/// Particles one compute workgroup handles.
pub const PARTICLE_WORKGROUP_SIZE: u32 = 64;

/// The shape particles are drawn as.
#[derive(Debug, Copy, Clone, PartialEq, Eq, Structural)]
pub enum ParticleShape {
    Points,
}

/// The dispatch parameters of one particle chunk.
#[derive(Debug, Copy, Clone, PartialEq, Eq, Structural)]
pub struct ParticleDispatchUniform {
    pub start_index: u32,
    pub chunk_count: u32,
    pub total_count: u32,
    pub _pad0: u32,
}

/// The particles one chunk may hold under the device limits: as many
/// vertices as fit into the smaller of the storage-binding and buffer
/// limits (at least four bytes), kept to the 32 bits of the count, and no
/// more than the dispatch limit covers; each at least one before the
/// truncation to 32 bits.
pub open spec fn chunk_capacity_spec(max_storage_binding: u64, max_buffer_size: u64, max_workgroups: u32) -> u32 {
    let min_limit = if max_storage_binding <= max_buffer_size {
        max_storage_binding
    } else {
        max_buffer_size
    };
    let byte_limit = if min_limit >= 4 {
        min_limit
    } else {
        4
    };
    let by_buffer_wide = byte_limit / PARTICLE_VERTEX_SIZE;
    let by_buffer = (if by_buffer_wide >= 1 {
        by_buffer_wide
    } else {
        1
    }) as u32;
    let dispatch_wide = max_workgroups as int * 64;
    let by_dispatch_sat: u32 = if dispatch_wide > u32::MAX {
        u32::MAX
    } else {
        dispatch_wide as u32
    };
    let by_dispatch = if by_dispatch_sat >= 1 {
        by_dispatch_sat
    } else {
        1
    };
    if by_buffer <= by_dispatch {
        by_buffer
    } else {
        by_dispatch
    }
}

/// The particles one chunk may hold under the given device limits (see
/// [`chunk_capacity_spec`]).
pub fn particle_chunk_capacity(max_storage_binding: u64, max_buffer_size: u64, max_workgroups: u32) -> (r: u32)
    ensures
        r == chunk_capacity_spec(max_storage_binding, max_buffer_size, max_workgroups),
{
    let min_limit = if max_storage_binding <= max_buffer_size {
        max_storage_binding
    } else {
        max_buffer_size
    };
    let byte_limit = if min_limit >= 4 {
        min_limit
    } else {
        4
    };
    let by_buffer_wide = byte_limit / PARTICLE_VERTEX_SIZE;
    let by_buffer = (if by_buffer_wide >= 1 {
        by_buffer_wide
    } else {
        1
    }) as u32;
    let dispatch_wide = max_workgroups as u64 * 64;
    let by_dispatch_sat: u32 = if dispatch_wide > u32::MAX as u64 {
        u32::MAX
    } else {
        dispatch_wide as u32
    };
    let by_dispatch = if by_dispatch_sat >= 1 {
        by_dispatch_sat
    } else {
        1
    };
    if by_buffer <= by_dispatch {
        by_buffer
    } else {
        by_dispatch
    }
}

/// Chunk `k` of `total` particles cut into chunks of `capacity`.
pub open spec fn particle_chunk_at(total: u32, capacity: u32, k: int) -> ParticleDispatchUniform {
    let start = k * capacity;
    let rest = total - start;
    ParticleDispatchUniform {
        start_index: start as u32,
        chunk_count: (if rest <= capacity {
            rest
        } else {
            capacity as int
        }) as u32,
        total_count: total,
        _pad0: 0,
    }
}

/// The chunks of a particle system: consecutive runs of at most
/// `capacity` particles from the first to the last, as many as it takes to
/// cover all of them and no more.
pub fn plan_particle_chunks(total: u32, capacity: u32) -> (r: Vec<ParticleDispatchUniform>)
    requires
        capacity > 0,
    ensures
        r@.len() * capacity >= total,
        r@.len() == 0 || (r@.len() - 1) * capacity < total,
        forall|k: int| 0 <= k < r@.len() ==> #[trigger] r@[k] == particle_chunk_at(total, capacity, k),
{
    let mut out: Vec<ParticleDispatchUniform> = Vec::new();
    let mut start: u32 = 0;
    while start < total
        invariant
            capacity > 0,
            start <= total,
            out@.len() * capacity >= start,
            start < total ==> start == out@.len() * capacity,
            out@.len() == 0 || (out@.len() - 1) * capacity < total,
            forall|k: int| 0 <= k < out@.len() ==> #[trigger] out@[k] == particle_chunk_at(total, capacity, k),
        decreases total - start,
    {
        let ghost k = out@.len();
        let rest = total - start;
        let count = if rest <= capacity {
            rest
        } else {
            capacity
        };
        out.push(ParticleDispatchUniform { start_index: start, chunk_count: count, total_count: total, _pad0: 0 });
        assert((k + 1) * capacity == k * capacity + capacity) by (nonlinear_arith);
        assert(out@[k as int] == particle_chunk_at(total, capacity, k as int));
        start = start + count;
    }
    out
}

/// Chunks are consecutive and cover every particle once: chunk `0` starts
/// at the first particle, each next chunk starts where the one before
/// ends, the last one ends at the last particle, and none is empty or
/// larger than the capacity.
pub proof fn lemma_particle_chunks_cover(total: u32, capacity: u32, n: nat)
    requires
        capacity > 0,
        n * capacity >= total,
        n == 0 || (n - 1) * capacity < total,
    ensures
        n > 0 ==> particle_chunk_at(total, capacity, 0).start_index == 0,
        forall|k: int|
            0 <= k < n ==> 0 < (#[trigger] particle_chunk_at(total, capacity, k)).chunk_count <= capacity,
        forall|k: int|
            0 <= k < n - 1 ==> (#[trigger] particle_chunk_at(total, capacity, k)).start_index
                + particle_chunk_at(total, capacity, k).chunk_count == particle_chunk_at(
                total,
                capacity,
                k + 1,
            ).start_index,
        n > 0 ==> particle_chunk_at(total, capacity, n - 1).start_index + particle_chunk_at(
            total,
            capacity,
            n - 1,
        ).chunk_count == total,
        n == 0 <==> total == 0,
{
    assert(0 * capacity == 0) by (nonlinear_arith);
    assert forall|k: int| 0 <= k < n implies 0 < (#[trigger] particle_chunk_at(total, capacity, k)).chunk_count
        <= capacity by {
        assert(k * capacity <= (n - 1) * capacity) by (nonlinear_arith)
            requires
                0 <= k <= n - 1,
                capacity > 0,
        ;
    }
    assert forall|k: int| 0 <= k < n - 1 implies (#[trigger] particle_chunk_at(total, capacity, k)).start_index
        + particle_chunk_at(total, capacity, k).chunk_count == particle_chunk_at(total, capacity, k + 1).start_index by {
        assert((k + 1) * capacity <= (n - 1) * capacity) by (nonlinear_arith)
            requires
                0 <= k + 1 <= n - 1,
                capacity > 0,
        ;
        assert((k + 1) * capacity == k * capacity + capacity) by (nonlinear_arith);
    }
    if n > 0 {
        assert(n * capacity == (n - 1) * capacity + capacity) by (nonlinear_arith);
    }
    if n > 0 && total == 0 {
        assert((n - 1) * capacity >= 0) by (nonlinear_arith)
            requires
                n >= 1,
                capacity > 0,
        ;
    }
}

/// Bytes of the vertex buffer of a chunk of `count` particles, at least
/// four.
pub fn particle_buffer_size(count: u32) -> (r: u64)
    ensures
        r == if count as int * PARTICLE_VERTEX_SIZE >= 4 {
            count as int * PARTICLE_VERTEX_SIZE
        } else {
            4
        },
{
    let bytes = count as u64 * PARTICLE_VERTEX_SIZE;
    if bytes >= 4 {
        bytes
    } else {
        4
    }
}

/// `a / b` rounded up.
pub open spec fn div_ceil_spec(a: int, b: int) -> int {
    (a + b - 1) / b
}

/// Workgroups that cover `count` particles.
pub fn particle_workgroups(count: u32) -> (r: u32)
    ensures
        r == div_ceil_spec(count as int, PARTICLE_WORKGROUP_SIZE as int),
{
    count / 64 + if count % 64 == 0 {
        0
    } else {
        1
    }
}

/// The workgroup counts dispatched for the chunks, in order, leaving out
/// empty chunks.
pub open spec fn chunk_dispatches(chunks: Seq<ParticleDispatchUniform>, n: nat) -> Seq<u32>
    decreases n,
{
    if n == 0 || n > chunks.len() {
        seq![]
    } else {
        let prev = chunk_dispatches(chunks, (n - 1) as nat);
        if chunks[n - 1].chunk_count == 0 {
            prev
        } else {
            prev.push(div_ceil_spec(chunks[n - 1].chunk_count as int, 64) as u32)
        }
    }
}

/// The compute dispatches of a particle update: one per non-empty chunk,
/// with enough workgroups for its particles.
pub fn plan_particle_dispatches(chunks: &Vec<ParticleDispatchUniform>) -> (r: Vec<u32>)
    ensures
        r@ == chunk_dispatches(chunks@, chunks@.len()),
{
    let mut out: Vec<u32> = Vec::new();
    let mut i: usize = 0;
    while i < chunks.len()
        invariant
            i <= chunks.len(),
            out@ == chunk_dispatches(chunks@, i as nat),
        decreases chunks.len() - i,
    {
        if chunks[i].chunk_count != 0 {
            out.push(particle_workgroups(chunks[i].chunk_count));
        }
        i += 1;
    }
    out
}

/// Whether a particle system is drawn in a pass: transparent systems in
/// the transparency pass, opaque ones in the others.
pub fn particles_drawn_in(transparent: bool, transparency_pass: bool) -> (r: bool)
    ensures
        r == (transparent == transparency_pass),
{
    !(transparent ^ transparency_pass)
}

} // verus!
