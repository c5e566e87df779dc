use physarum::bindings::{
    compute_layout_entries, particle_bind_group_entries, particle_vertex_layout,
    substrate_bind_group_entries, substrate_layout_entries, triangle_vertex_layout, BindGroupEntry,
    BindingKind, BoundResource, LayoutEntry, ShaderStage, StepMode, TextureAccess,
    VertexAttribute,
};
use physarum::frame::{Command, CopyLayout, DebugGroup, FrameState, Kernel, SEED_FRAMES};
use physarum::sizing::{
    blur_work_group_count, div_ceil, particle_buffer_bytes, particle_float_count,
    particle_work_group_count, sim_param_buffer_bytes, staging_buffer_bytes,
    staging_bytes_per_row, COPY_ROW_ALIGNMENT, NUM_PARTICLES, PARTICLES_PER_GROUP,
};

fn movement_group(plan: &[Command]) -> usize {
    for c in plan {
        if let Command::Dispatch { kernel: Kernel::Movement, bind_group, .. } = c {
            return *bind_group;
        }
    }
    panic!("no movement dispatch");
}

fn drawn(plan: &[Command]) -> usize {
    for c in plan {
        if let Command::DrawAgents { particle_buffer, .. } = c {
            return *particle_buffer;
        }
    }
    panic!("no agent draw");
}

fn particle_at(entries: &[BindGroupEntry], binding: u32) -> usize {
    for e in entries {
        if e.binding == binding {
            if let BoundResource::ParticleBuffer(i) = e.resource {
                return i;
            }
        }
    }
    panic!("no particle buffer at binding");
}

#[test]
fn div_ceil_rounds_up() {
    assert_eq!(div_ceil(0, 32), 0);
    assert_eq!(div_ceil(1, 32), 1);
    assert_eq!(div_ceil(32, 32), 1);
    assert_eq!(div_ceil(33, 32), 2);
    assert_eq!(div_ceil(1_000_000, 32), 31_250);
    assert_eq!(div_ceil(u32::MAX, 1), u32::MAX);
    assert_eq!(div_ceil(u32::MAX, 2), 1 << 31);
    assert_eq!(div_ceil(u32::MAX, u32::MAX), 1);
}

#[test]
fn work_groups_cover_particles_and_substrate() {
    let groups = particle_work_group_count();
    assert_eq!(groups, 31_250);
    assert!(groups * PARTICLES_PER_GROUP >= NUM_PARTICLES);
    assert!((groups - 1) * PARTICLES_PER_GROUP < NUM_PARTICLES);
    assert_eq!(blur_work_group_count(800, 600), (50, 38));
    assert_eq!(blur_work_group_count(16, 17), (1, 2));
    assert_eq!(blur_work_group_count(0, 0), (0, 0));
    assert_eq!(blur_work_group_count(1920, 1080), (120, 68));
}

#[test]
fn buffer_sizes() {
    assert_eq!(sim_param_buffer_bytes(), 20);
    assert_eq!(particle_float_count(), 4_000_000);
    assert_eq!(particle_buffer_bytes(), 16_000_000);
    assert_eq!(particle_float_count() as u64 * 4, particle_buffer_bytes());
    assert_eq!(staging_bytes_per_row(800), 6_400);
    assert_eq!(staging_buffer_bytes(800, 600), 3_840_000);
    assert_eq!(staging_bytes_per_row(536_870_880), u32::MAX - 255);
    assert_eq!(
        staging_buffer_bytes(536_870_880, u32::MAX),
        ((u32::MAX - 255) as u64) * (u32::MAX as u64)
    );
}

#[test]
fn compute_layout_is_params_two_particle_buffers_and_substrate() {
    let entries = compute_layout_entries();
    assert_eq!(
        entries,
        vec![
            LayoutEntry {
                binding: 0,
                stage: ShaderStage::Compute,
                kind: BindingKind::UniformBuffer,
                min_binding_size: Some(20),
            },
            LayoutEntry {
                binding: 1,
                stage: ShaderStage::Compute,
                kind: BindingKind::StorageBuffer { read_only: true },
                min_binding_size: Some(16_000_000),
            },
            LayoutEntry {
                binding: 2,
                stage: ShaderStage::Compute,
                kind: BindingKind::StorageBuffer { read_only: false },
                min_binding_size: Some(16_000_000),
            },
            LayoutEntry {
                binding: 3,
                stage: ShaderStage::Compute,
                kind: BindingKind::StorageTexture { access: TextureAccess::ReadWrite },
                min_binding_size: None,
            },
        ]
    );
    assert_eq!(entries[1].min_binding_size, Some(particle_buffer_bytes()));
    assert_eq!(entries[0].min_binding_size, Some(sim_param_buffer_bytes()));
}

#[test]
fn substrate_layout_and_group() {
    assert_eq!(
        substrate_layout_entries(),
        vec![LayoutEntry {
            binding: 0,
            stage: ShaderStage::Fragment,
            kind: BindingKind::StorageTexture { access: TextureAccess::ReadOnly },
            min_binding_size: None,
        }]
    );
    assert_eq!(
        substrate_bind_group_entries(),
        vec![BindGroupEntry { binding: 0, resource: BoundResource::SubstrateView }]
    );
}

#[test]
fn particle_bind_groups_swap_buffers() {
    let g0 = particle_bind_group_entries(0);
    let g1 = particle_bind_group_entries(1);
    assert_eq!(
        g0,
        vec![
            BindGroupEntry { binding: 0, resource: BoundResource::SimParams },
            BindGroupEntry { binding: 1, resource: BoundResource::ParticleBuffer(0) },
            BindGroupEntry { binding: 2, resource: BoundResource::ParticleBuffer(1) },
            BindGroupEntry { binding: 3, resource: BoundResource::SubstrateView },
        ]
    );
    assert_eq!(particle_at(&g1, 1), 1);
    assert_eq!(particle_at(&g1, 2), 0);
    assert_eq!(particle_at(&g0, 2), particle_at(&g1, 1));
    assert_eq!(particle_at(&g1, 2), particle_at(&g0, 1));
}

#[test]
fn bind_groups_match_layouts() {
    let layout = compute_layout_entries();
    for i in 0..2 {
        let group = particle_bind_group_entries(i);
        assert_eq!(group.len(), layout.len());
        for (e, l) in group.iter().zip(layout.iter()) {
            assert_eq!(e.binding, l.binding);
            let fits = match e.resource {
                BoundResource::SimParams => l.kind == BindingKind::UniformBuffer,
                BoundResource::ParticleBuffer(_) => {
                    matches!(l.kind, BindingKind::StorageBuffer { .. })
                }
                BoundResource::SubstrateView => {
                    matches!(l.kind, BindingKind::StorageTexture { .. })
                }
            };
            assert!(fits);
        }
    }
}

#[test]
fn vertex_layouts() {
    let particle = particle_vertex_layout();
    assert_eq!(particle.stride, 16);
    assert_eq!(particle.step, StepMode::Instance);
    assert_eq!(
        particle.attributes,
        vec![
            VertexAttribute { location: 0, offset: 0 },
            VertexAttribute { location: 1, offset: 8 },
        ]
    );
    assert_eq!(particle.stride * NUM_PARTICLES as u64, particle_buffer_bytes());
    let triangle = triangle_vertex_layout();
    assert_eq!(triangle.stride, 8);
    assert_eq!(triangle.step, StepMode::Vertex);
    assert_eq!(triangle.attributes, vec![VertexAttribute { location: 2, offset: 0 }]);
    for a in particle.attributes.iter() {
        assert!(a.offset + 8 <= particle.stride);
    }
}

#[test]
fn first_frame_plan() {
    let mut state = FrameState::new(800, 600);
    assert_eq!(state.frame_num(), 0);
    assert_eq!(state.work_group_count(), 31_250);
    assert_eq!(state.blur_work_group_count(), (50, 38));
    assert_eq!(state.substrate_size(), (800, 600));
    assert_eq!(state.staging_buffer_bytes(), 3_840_000);
    let layout = CopyLayout { bytes_per_row: 6_400, rows_per_image: 600, width: 800, height: 600 };
    assert_eq!(state.staging_layout(), layout);
    let plan = state.render();
    assert_eq!(
        plan,
        vec![
            Command::SeedSubstrate(layout),
            Command::PushDebugGroup(DebugGroup::ComputeMovement),
            Command::Dispatch { kernel: Kernel::Movement, bind_group: 0, x: 31_250, y: 1, z: 1 },
            Command::Dispatch { kernel: Kernel::Blur, bind_group: 0, x: 50, y: 38, z: 1 },
            Command::PopDebugGroup,
            Command::PushDebugGroup(DebugGroup::RenderSubstrate),
            Command::DrawSubstrate { vertices: 3, instances: 2 },
            Command::PopDebugGroup,
            Command::SaveSubstrate(layout),
            Command::PushDebugGroup(DebugGroup::RenderAgents),
            Command::DrawAgents { particle_buffer: 1, vertices: 3, instances: 1_000_000 },
            Command::PopDebugGroup,
        ]
    );
    assert_eq!(state.frame_num(), 1);
}

#[test]
fn seeding_only_in_first_ten_frames() {
    let mut state = FrameState::new(64, 32);
    for frame in 0..25usize {
        let plan = state.render();
        let seeds = plan.iter().filter(|c| matches!(c, Command::SeedSubstrate(_))).count();
        let saves = plan.iter().filter(|c| matches!(c, Command::SaveSubstrate(_))).count();
        if frame < SEED_FRAMES {
            assert_eq!(seeds, 1);
            assert!(matches!(plan[0], Command::SeedSubstrate(_)));
            assert_eq!(plan.len(), 12);
        } else {
            assert_eq!(seeds, 0);
            assert_eq!(plan.len(), 11);
        }
        assert_eq!(saves, 1);
        assert_eq!(state.frame_num(), frame + 1);
    }
}

#[test]
fn particle_buffers_ping_pong() {
    let mut state = FrameState::new(100, 100);
    let mut previous_drawn: Option<usize> = None;
    let mut previous_group: Option<usize> = None;
    for _ in 0..12 {
        let plan = state.render();
        let group = movement_group(&plan);
        let entries = particle_bind_group_entries(group);
        assert_eq!(drawn(&plan), particle_at(&entries, 2));
        if let Some(d) = previous_drawn {
            assert_eq!(particle_at(&entries, 1), d);
        }
        if let Some(g) = previous_group {
            assert_ne!(g, group);
        }
        previous_drawn = Some(drawn(&plan));
        previous_group = Some(group);
    }
}

#[test]
fn debug_groups_balanced() {
    let mut state = FrameState::new(10, 10);
    for _ in 0..12 {
        let plan = state.render();
        let mut open: i32 = 0;
        for c in plan.iter() {
            match c {
                Command::PushDebugGroup(_) => open += 1,
                Command::PopDebugGroup => open -= 1,
                _ => {}
            }
            assert!(open >= 0);
        }
        assert_eq!(open, 0);
    }
}

#[test]
fn copies_fit_the_staging_buffer() {
    let state = FrameState::new(1366, 768);
    let layout = state.staging_layout();
    assert_eq!(layout.bytes_per_row, 11_008);
    assert_eq!(
        layout.bytes_per_row as u64 * layout.rows_per_image as u64,
        state.staging_buffer_bytes()
    );
}

#[test]
fn dispatches_cover_the_substrate() {
    for (w, h) in [(1u32, 1u32), (15, 16), (17, 31), (800, 600), (2048, 2047)] {
        let state = FrameState::new(w, h);
        let (bx, by) = state.blur_work_group_count();
        assert!(bx * 16 >= w && bx * 16 < w + 16);
        assert!(by * 16 >= h && by * 16 < h + 16);
    }
}

#[test]
fn labels_and_entry_points() {
    assert_eq!(DebugGroup::ComputeMovement.label(), "compute movement");
    assert_eq!(DebugGroup::RenderSubstrate.label(), "render substrate");
    assert_eq!(DebugGroup::RenderAgents.label(), "render agents");
    assert_eq!(Kernel::Movement.entry_point(), "main");
    assert_eq!(Kernel::Blur.entry_point(), "blur");
}

#[test]
fn row_alignment_is_wgpus() {
    assert_eq!(COPY_ROW_ALIGNMENT, wgpu::COPY_BYTES_PER_ROW_ALIGNMENT);
}

#[test]
fn staging_rows_are_padded() {
    assert_eq!(staging_bytes_per_row(0), 0);
    assert_eq!(staging_bytes_per_row(1), 256);
    assert_eq!(staging_bytes_per_row(32), 256);
    assert_eq!(staging_bytes_per_row(33), 512);
    assert_eq!(staging_bytes_per_row(100), 1_024);
    assert_eq!(staging_buffer_bytes(1, 1), 256);
    assert_eq!(staging_buffer_bytes(33, 10), 5_120);
    for width in [1u32, 7, 31, 32, 33, 100, 799, 800, 1366, 1920, 2047] {
        let row = staging_bytes_per_row(width);
        assert_eq!(row % COPY_ROW_ALIGNMENT, 0);
        assert!(row >= width * 8 && row < width * 8 + COPY_ROW_ALIGNMENT);
    }
}

#[test]
fn small_substrate_copies_are_aligned() {
    let mut state = FrameState::new(1, 1);
    let layout = CopyLayout { bytes_per_row: 256, rows_per_image: 1, width: 1, height: 1 };
    assert_eq!(state.staging_layout(), layout);
    assert_eq!(state.staging_buffer_bytes(), 256);
    let plan = state.render();
    assert_eq!(plan[0], Command::SeedSubstrate(layout));
    assert_eq!(plan[8], Command::SaveSubstrate(layout));
}

#[test]
fn try_new_refuses_rows_too_wide() {
    let state = FrameState::try_new(800, 600).expect("an ordinary window fits");
    assert_eq!(state.frame_num(), 0);
    assert_eq!(state.blur_work_group_count(), (50, 38));
    assert_eq!(state.substrate_size(), (800, 600));
    assert!(FrameState::try_new(536_870_880, u32::MAX).is_some());
    assert!(FrameState::try_new(536_870_881, 1).is_none());
    assert!(FrameState::try_new(u32::MAX, 1).is_none());
}
