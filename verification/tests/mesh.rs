use std::ops::Range;
use syrillian_engine::render::mesh::{
    chunk_ranges, max_buffer_elements, plan_mesh_upload, Meshlet, MeshletDraw, MeshletLayout, RuntimeMesh,
    MAX_BUFFER_INDICES,
};

fn meshlet(vertex_count: u32, indices: Option<u32>, offset: u32) -> Meshlet<()> {
    Meshlet {
        vertex_buffer: (),
        vertex_count,
        index_buffer: indices.map(|_| ()),
        index_count: indices.unwrap_or(0),
        offset,
    }
}

#[test]
fn chunks_cover_without_gaps() {
    assert_eq!(chunk_ranges(10, 4), vec![(0, 4), (4, 8), (8, 10)]);
    // a multiple of the chunk size ends with an empty chunk
    assert_eq!(chunk_ranges(8, 4), vec![(0, 4), (4, 8), (8, 8)]);
    assert_eq!(chunk_ranges(0, 4), vec![(0, 0)]);
    assert_eq!(max_buffer_elements(4), MAX_BUFFER_INDICES);
}

#[test]
fn meshlet_point_counts() {
    let plain = meshlet(12, None, 0);
    let indexed = meshlet(4, Some(6), 0);
    assert_eq!(plain.point_count(), 12);
    assert!(!plain.has_indices());
    assert_eq!(indexed.point_count(), 6);
    assert!(indexed.has_indices());
}

#[test]
fn clamp_range_is_relative_to_the_meshlet() {
    let m = meshlet(10, None, 10);
    assert!(m.applies_to(Range { start: 5, end: 15 }));
    assert_eq!(m.clamp_range(Range { start: 5, end: 15 }), Some(Range { start: 0, end: 5 }));
    assert_eq!(m.clamp_range(Range { start: 12, end: 30 }), Some(Range { start: 2, end: 10 }));
    // a range ending where the meshlet starts does not reach it
    assert!(!m.applies_to(Range { start: 0, end: 10 }));
    assert_eq!(m.clamp_range(Range { start: 0, end: 10 }), None);
    assert_eq!(m.clamp_range(Range { start: 21, end: 30 }), None);
}

#[test]
fn runtime_mesh_counts_and_draws() {
    let mesh = RuntimeMesh::new(vec![meshlet(10, None, 0), meshlet(5, None, 10)]);
    assert_eq!(mesh.total_vertex_count(), 15);
    assert_eq!(mesh.total_indices_count(), 0);
    assert!(!mesh.has_indices());
    assert_eq!(mesh.total_point_count(), 15);
    assert_eq!(
        mesh.draw_plan(Range { start: 0, end: 15 }),
        vec![
            MeshletDraw { meshlet: 0, start: 0, end: 10, indexed: false },
            MeshletDraw { meshlet: 1, start: 0, end: 5, indexed: false },
        ]
    );
    assert_eq!(
        mesh.draw_plan(Range { start: 12, end: 14 }),
        vec![MeshletDraw { meshlet: 1, start: 2, end: 4, indexed: false }]
    );
}

#[test]
fn indexed_mesh_draws_by_indices() {
    let mesh = RuntimeMesh::new(vec![meshlet(4, Some(6), 0)]);
    assert_eq!(mesh.total_indices_count(), 6);
    assert_eq!(mesh.total_point_count(), 6);
    assert_eq!(mesh.draw_plan(Range { start: 0, end: 6 }), vec![MeshletDraw { meshlet: 0, start: 0, end: 6, indexed: true }]);
}

#[test]
fn set_meshlets_keeps_counted_totals() {
    let mut mesh = RuntimeMesh::new(vec![meshlet(10, None, 0)]);
    mesh.set_meshlets(vec![meshlet(3, None, 0)]);
    assert_eq!(mesh.total_vertex_count(), 10);
    assert_eq!(mesh.meshlets().len(), 1);
}

#[test]
fn upload_plans_split_large_meshes() {
    let plan = plan_mesh_upload(10, None, 4);
    assert_eq!(plan.len(), 3);
    assert_eq!(plan[1], MeshletLayout { vertex_count: 4, index_count: 0, indexed: false, offset: 4, start: 4, end: 8 });
    assert_eq!(plan[2].vertex_count, 2);
    let indexed = plan_mesh_upload(3, Some(6), 4);
    assert_eq!(indexed, vec![MeshletLayout { vertex_count: 3, index_count: 6, indexed: true, offset: 0, start: 0, end: 6 }]);
}
