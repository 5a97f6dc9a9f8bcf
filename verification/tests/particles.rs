use syrillian_engine::render::particles::{
    particle_buffer_size, particle_chunk_capacity, particle_workgroups, particles_drawn_in, plan_particle_chunks,
    plan_particle_dispatches, ParticleDispatchUniform, ParticleShape,
};

#[test]
fn capacity_follows_the_tightest_limit() {
    // 1 MiB storage binding: 32768 particles; 1024 workgroups: 65536
    assert_eq!(particle_chunk_capacity(1 << 20, 1 << 30, 1024), 32768);
    // dispatch-limited
    assert_eq!(particle_chunk_capacity(1 << 30, 1 << 30, 16), 1024);
    // tiny limits still allow one particle
    assert_eq!(particle_chunk_capacity(0, 0, 0), 1);
    // saturating dispatch limit
    assert_eq!(particle_chunk_capacity(1 << 20, 1 << 20, u32::MAX), 32768);
}

#[test]
fn chunks_cover_every_particle_once() {
    let chunks = plan_particle_chunks(10, 4);
    assert_eq!(
        chunks,
        vec![
            ParticleDispatchUniform { start_index: 0, chunk_count: 4, total_count: 10, _pad0: 0 },
            ParticleDispatchUniform { start_index: 4, chunk_count: 4, total_count: 10, _pad0: 0 },
            ParticleDispatchUniform { start_index: 8, chunk_count: 2, total_count: 10, _pad0: 0 },
        ]
    );
    assert_eq!(plan_particle_chunks(8, 4).len(), 2);
    assert!(plan_particle_chunks(0, 4).is_empty());
}

#[test]
fn buffers_and_workgroups() {
    assert_eq!(particle_buffer_size(0), 4);
    assert_eq!(particle_buffer_size(3), 96);
    assert_eq!(particle_workgroups(0), 0);
    assert_eq!(particle_workgroups(64), 1);
    assert_eq!(particle_workgroups(65), 2);
    let chunks = vec![
        ParticleDispatchUniform { start_index: 0, chunk_count: 100, total_count: 100, _pad0: 0 },
        ParticleDispatchUniform { start_index: 100, chunk_count: 0, total_count: 100, _pad0: 0 },
    ];
    assert_eq!(plan_particle_dispatches(&chunks), vec![2]);
}

#[test]
fn particle_pass_selection() {
    assert!(particles_drawn_in(true, true));
    assert!(particles_drawn_in(false, false));
    assert!(!particles_drawn_in(true, false));
    assert_eq!(ParticleShape::Points, ParticleShape::Points);
}
