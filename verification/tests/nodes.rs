use render_bridge::binding::{
    BindGroupLayoutEntry, BindingType, SamplerBindingType, ShaderStages,
};
use render_bridge::builtin_callbacks::{
    clear_color, clear_depth_stencil, record_commands, ClearFlags, DepthStencilOps, RecordError,
    RuntimeCmdInfo, CLEAR_COLOR, CLEAR_DEPTH, CLEAR_STENCIL,
};
use render_bridge::format::Format;
use render_bridge::node_callbacks::{
    blit_compute, blit_srgb, compute_dof, dof_downsample_with_coc, dof_x, dof_y, downsample,
    downsample_initial, draw, fft_convolute, fft_horizontal_forwards, fft_kernel_transform,
    fft_vertical, mip_size, render_skybox, tiled, tonemap, AttachmentOps, ComputePass, Draw,
    NodeError, RenderPass,
};
use render_bridge::pipelines::BindGroupLayouts;
use render_bridge::resource::ImageDesc;
use std::collections::BTreeMap;

fn layouts(slots: &[u32]) -> BindGroupLayouts {
    let mut set = BTreeMap::new();
    for slot in slots {
        set.insert(
            *slot,
            BindGroupLayoutEntry {
                binding: *slot,
                visibility: ShaderStages { bits: 4 },
                ty: BindingType::Sampler(SamplerBindingType::Filtering),
                count: None,
            },
        );
    }
    let mut table = BTreeMap::new();
    table.insert(0, set);
    BindGroupLayouts::new(&table)
}

fn no_layouts() -> BindGroupLayouts {
    BindGroupLayouts::new(&BTreeMap::new())
}

fn target(width: u32, height: u32) -> ImageDesc {
    ImageDesc { width, height, mip_levels: 1, sample_count: 1, format: Format::R16G16B16A16Float }
}

fn bound(pass: &ComputePass<&'static str>) -> Vec<(u32, &'static str)> {
    pass.bind_group.iter().map(|e| (e.binding, e.resource)).collect()
}

fn bound_render(pass: &RenderPass<&'static str>) -> Vec<(u32, &'static str)> {
    pass.bind_group.iter().map(|e| (e.binding, e.resource)).collect()
}

fn plain(draw: &Draw) -> (u32, u32, u32, u32) {
    match draw {
        Draw::Plain { vertices, instances } => {
            (vertices.start, vertices.end, instances.start, instances.end)
        }
        _ => panic!("an indexed draw"),
    }
}

#[test]
fn tiles_cover_the_image() {
    assert_eq!(tiled(1920, 1080), (240, 135, 1));
    assert_eq!(tiled(1921, 1081), (241, 136, 1));
    assert_eq!(tiled(1, 1), (1, 1, 1));
    assert_eq!(tiled(0, 7), (0, 1, 1));
    assert_eq!(tiled(u32::MAX, 8), (536870912, 1, 1));
}

#[test]
fn mip_sizes_halve() {
    assert_eq!(mip_size(1920, 0), 1920);
    assert_eq!(mip_size(1920, 1), 960);
    assert_eq!(mip_size(1081, 3), 135);
    assert_eq!(mip_size(1, 1), 0);
    assert_eq!(mip_size(u32::MAX, 31), 1);
    assert_eq!(mip_size(u32::MAX, 32), 0);
    assert_eq!(mip_size(u32::MAX, u16::MAX), 0);
}

#[test]
fn blit_srgb_draws_one_triangle() {
    let pass = blit_srgb(&layouts(&[0, 1]), "source", "sampler").unwrap();
    assert_eq!(bound_render(&pass), vec![(0, "source"), (1, "sampler")]);
    assert_eq!(pass.draws.len(), 1);
    assert_eq!(plain(&pass.draws[0]), (0, 3, 0, 1));
    assert_eq!(pass.color_ops, AttachmentOps { clear: false, store: true });
    assert_eq!(pass.depth_ops, None);
}

#[test]
fn draw_issues_one_indexed_draw_for_each_model() {
    let pass = draw(&layouts(&[0, 1, 2]), "textures", "sampler", "materials", 0..36, 36..96).unwrap();
    assert_eq!(bound_render(&pass), vec![(0, "textures"), (1, "sampler"), (2, "materials")]);
    assert_eq!(pass.color_ops, AttachmentOps { clear: false, store: true });
    assert_eq!(pass.depth_ops, Some(AttachmentOps { clear: false, store: true }));
    assert_eq!(pass.draws.len(), 2);
    match (&pass.draws[0], &pass.draws[1]) {
        (
            Draw::Indexed { indices: a, base_vertex: 0, instances: ia },
            Draw::Indexed { indices: b, base_vertex: 0, instances: ib },
        ) => {
            assert_eq!((a.clone(), ia.clone()), (0..36, 0..1));
            assert_eq!((b.clone(), ib.clone()), (36..96, 1..2));
        }
        _ => panic!("plain draws"),
    }
    let narrowed = draw(&layouts(&[1]), "textures", "sampler", "materials", 0..3, 3..6).unwrap();
    assert_eq!(bound_render(&narrowed), vec![(1, "sampler")]);
}

#[test]
fn render_skybox_draws_one_triangle() {
    let pass = render_skybox(&layouts(&[0, 1, 2]), "cubemap", "sampler", "camera").unwrap();
    assert_eq!(bound_render(&pass), vec![(0, "cubemap"), (1, "sampler"), (2, "camera")]);
    assert_eq!(plain(&pass.draws[0]), (0, 3, 0, 1));
    assert_eq!(pass.depth_ops, Some(AttachmentOps { clear: false, store: true }));
}

#[test]
fn bloom_chain_covers_its_targets() {
    let first =
        downsample_initial(&layouts(&[0, 1, 2]), "hdr", "sampler", "bloom", target(960, 540)).unwrap();
    assert_eq!(bound(&first), vec![(0, "hdr"), (1, "sampler"), (2, "bloom")]);
    assert_eq!(first.workgroups, (120, 68, 1));
    let step =
        downsample(&layouts(&[0, 1, 2]), "source", "sampler", "dest", target(960, 540), 2).unwrap();
    assert_eq!(bound(&step), vec![(0, "source"), (1, "sampler"), (2, "dest")]);
    assert_eq!(step.workgroups, (30, 17, 1));
    let base =
        downsample(&layouts(&[0, 2]), "source", "sampler", "dest", target(960, 540), 0).unwrap();
    assert_eq!(bound(&base), vec![(0, "source"), (2, "dest")]);
    assert_eq!(base.workgroups, (120, 68, 1));
}

#[test]
fn tonemap_binds_the_lookup_table() {
    let pass = tonemap(&layouts(&[0, 1, 2]), "hdr", "lut", "sampler", target(1280, 720)).unwrap();
    assert_eq!(bound(&pass), vec![(0, "hdr"), (1, "lut"), (2, "sampler")]);
    assert_eq!(pass.workgroups, (160, 90, 1));
}

#[test]
fn depth_of_field_nodes_bind_their_inputs() {
    let all = layouts(&[0, 1, 2, 3]);
    let one = compute_dof(&all, "depth", "sampler", "hdr", "output", target(100, 50)).unwrap();
    assert_eq!(bound(&one), vec![(0, "depth"), (1, "sampler"), (2, "hdr"), (3, "output")]);
    assert_eq!(one.workgroups, (13, 7, 1));
    let half =
        dof_downsample_with_coc(&all, "depth", "sampler", "hdr", "output", target(50, 25)).unwrap();
    assert_eq!(bound(&half), vec![(0, "depth"), (1, "sampler"), (2, "hdr"), (3, "output")]);
    assert_eq!(half.workgroups, (7, 4, 1));
    let x = dof_x(&all, "sampler", "hdr", "output", target(64, 64)).unwrap();
    assert_eq!(bound(&x), vec![(0, "sampler"), (1, "hdr"), (2, "output")]);
    assert_eq!(x.workgroups, (8, 8, 1));
    let y = dof_y(&all, "sampler", "hdr", "blurred", "output", target(65, 63)).unwrap();
    assert_eq!(bound(&y), vec![(0, "sampler"), (1, "hdr"), (2, "blurred"), (3, "output")]);
    assert_eq!(y.workgroups, (9, 8, 1));
}

#[test]
fn transform_nodes_run_once_for_each_column() {
    let rows = fft_horizontal_forwards(&layouts(&[2]), "image", target(512, 256)).unwrap();
    assert_eq!(bound(&rows), vec![(2, "image")]);
    assert_eq!(rows.workgroups, (512, 1, 1));
    let columns = fft_vertical(&layouts(&[0, 2]), "direction", "image", target(512, 256)).unwrap();
    assert_eq!(bound(&columns), vec![(0, "direction"), (2, "image")]);
    assert_eq!(columns.workgroups, (512, 1, 1));
    let product = fft_convolute(&layouts(&[3, 4]), "image", "kernel", target(512, 256)).unwrap();
    assert_eq!(bound(&product), vec![(3, "image"), (4, "kernel")]);
    assert_eq!(product.workgroups, (64, 32, 1));
    let kernel = fft_kernel_transform(&layouts(&[1]), "kernel", target(512, 256)).unwrap();
    assert_eq!(bound(&kernel), vec![(1, "kernel")]);
    assert_eq!(kernel.workgroups, (64, 16, 1));
    let copy = blit_compute(&layouts(&[0, 1, 2]), "source", "sampler", "output", target(17, 9)).unwrap();
    assert_eq!(bound(&copy), vec![(0, "source"), (1, "sampler"), (2, "output")]);
    assert_eq!(copy.workgroups, (3, 2, 1));
}

#[test]
fn nodes_fail_without_binding_set_zero() {
    let none = no_layouts();
    assert!(matches!(blit_srgb(&none, "a", "b"), Err(NodeError::MissingBindingSet)));
    assert!(matches!(
        tonemap(&none, "a", "b", "c", target(8, 8)),
        Err(NodeError::MissingBindingSet)
    ));
    assert!(matches!(
        fft_kernel_transform(&none, "a", target(8, 8)),
        Err(NodeError::MissingBindingSet)
    ));
    assert!(matches!(draw(&none, "a", "b", "c", 0..1, 1..2), Err(NodeError::MissingBindingSet)));
}

#[test]
fn depth_clear_clears_depth_alone() {
    assert_eq!(
        clear_depth_stencil(ClearFlags { bits: CLEAR_DEPTH }),
        Ok(DepthStencilOps {
            depth_ops: Some(AttachmentOps { clear: true, store: true }),
            stencil_ops: None,
        })
    );
    for bits in [0, CLEAR_COLOR, CLEAR_STENCIL, CLEAR_DEPTH | CLEAR_STENCIL] {
        assert_eq!(clear_depth_stencil(ClearFlags { bits }), Err(NodeError::UnsupportedClear));
    }
    assert_eq!(clear_color(), AttachmentOps { clear: true, store: true });
}

#[test]
fn batch_walk_skips_transitions_only() {
    let node = |cmd_id| RuntimeCmdInfo { is_transition: false, cmd_id };
    let transition = |cmd_id| RuntimeCmdInfo { is_transition: true, cmd_id };
    let schedule =
        vec![node(0), transition(9), node(2), node(1), transition(0), transition(1), node(3)];
    assert_eq!(record_commands(&schedule, 4, 0, 7), Ok(vec![0, 2, 1, 3]));
    assert_eq!(record_commands(&schedule, 4, 1, 3), Ok(vec![2, 1]));
    assert_eq!(record_commands(&schedule, 4, 4, 2), Ok(vec![]));
    assert_eq!(record_commands(&schedule, 4, 7, 0), Ok(vec![]));
    assert_eq!(record_commands(&schedule, 4, 3, 0), Ok(vec![]));
}

#[test]
fn batch_walk_reports_what_it_cannot_walk() {
    let node = |cmd_id| RuntimeCmdInfo { is_transition: false, cmd_id };
    let schedule = vec![node(0), node(5), node(1)];
    assert_eq!(record_commands(&schedule, 6, 0, 4), Err(RecordError::BatchOutOfRange));
    assert_eq!(record_commands(&schedule, 6, 4, 0), Err(RecordError::BatchOutOfRange));
    assert_eq!(record_commands(&schedule, 6, u32::MAX, u32::MAX), Err(RecordError::BatchOutOfRange));
    assert_eq!(record_commands(&schedule, 5, 0, 3), Err(RecordError::UnknownCommand));
    assert_eq!(record_commands(&schedule, 5, 2, 1), Ok(vec![1]));
    assert_eq!(record_commands(&schedule, 6, 0, 3), Ok(vec![0, 5, 1]));
}
