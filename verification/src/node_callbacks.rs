//! The nodes of the frame graph: for each node, which bindings it offers to
//! its pipeline and how much work it submits.
use crate::dispatch::dispatch_count;
use crate::dispatch::spec_dispatch_count;
use crate::dispatch::TILE_SIZE;
use crate::pipelines::has_set;
use crate::pipelines::retained;
use crate::pipelines::BindGroupEntry;
use crate::pipelines::BindGroupLayouts;
use crate::resource::ImageDesc;
use std::ops::Range;
use vstd::prelude::*;

verus! {

/// Why a node cannot record its work.
#[derive(Clone, Copy, Debug, PartialEq, Eq, Structural)]
pub enum NodeError {
    /// The pipeline of the node has no layout for binding set 0.
    MissingBindingSet,
    /// A clear of anything but depth alone was asked for.
    UnsupportedClear,
}

/// What is done to one aspect of an attachment when a pass begins and ends.
#[derive(Clone, Copy, Debug, PartialEq, Eq, Structural)]
pub struct AttachmentOps {
    /// Whether the aspect is cleared when the pass begins, or loaded.
    pub clear: bool,
    /// Whether what the pass wrote is kept.
    pub store: bool,
}

/// One draw call of a render pass.
pub enum Draw {
    Plain { vertices: Range<u32>, instances: Range<u32> },
    Indexed { indices: Range<u32>, base_vertex: i32, instances: Range<u32> },
}

/// What a compute node records: the bindings of set 0 and the number of
/// workgroups along each axis.
pub struct ComputePass<R> {
    pub bind_group: Vec<BindGroupEntry<R>>,
    pub workgroups: (u32, u32, u32),
}

/// What a render node records: what is done to its colour target and, where
/// it has one, to its depth target, the bindings of set 0, and its draw
/// calls in their order.
pub struct RenderPass<R> {
    pub color_ops: AttachmentOps,
    pub depth_ops: Option<AttachmentOps>,
    pub bind_group: Vec<BindGroupEntry<R>>,
    pub draws: Vec<Draw>,
}

/// What a node does to a target that it draws over: it loads what is there
/// and keeps what it wrote.
pub open spec fn draw_over() -> AttachmentOps {
    AttachmentOps { clear: false, store: true }
}

/// The workgroups that cover an image of `width` by `height` pixels with
/// square tiles.
pub open spec fn spec_tiled(width: u32, height: u32) -> (u32, u32, u32) {
    (
        spec_dispatch_count(width as int, TILE_SIZE as int) as u32,
        spec_dispatch_count(height as int, TILE_SIZE as int) as u32,
        1u32,
    )
}

/// The workgroups that cover an image of `width` by `height` pixels with
/// square tiles, partial tiles at the edges included.
pub fn tiled(width: u32, height: u32) -> (workgroups: (u32, u32, u32))
    ensures
        workgroups == spec_tiled(width, height),
        workgroups.0 * TILE_SIZE >= width,
        workgroups.1 * TILE_SIZE >= height,
{
    (dispatch_count(width, TILE_SIZE), dispatch_count(height, TILE_SIZE), 1)
}

/// The size of mip level `mip` along an axis of `size` pixels: `size` halved
/// `mip` times, rounding down.
pub open spec fn spec_mip_size(size: u32, mip: u16) -> u32 {
    if mip >= 32 {
        0
    } else {
        size >> (mip as u32)
    }
}

/// The size of mip level `mip` along an axis of `size` pixels.
pub fn mip_size(size: u32, mip: u16) -> (r: u32)
    ensures
        r == spec_mip_size(size, mip),
{
    if mip >= 32 {
        0
    } else {
        let shift: u32 = mip as u32;
        size >> shift
    }
}

/// The candidates that the layout of set 0 takes, where there is one.
fn assemble<R>(layouts: &BindGroupLayouts, entries: Vec<BindGroupEntry<R>>) -> (r: Result<
    Vec<BindGroupEntry<R>>,
    NodeError,
>)
    ensures
        match r {
            Ok(bind_group) => has_set(layouts.spec_layouts(), 0) && bind_group@ == retained(
                layouts.spec_layouts(),
                0,
                entries@,
            ),
            Err(e) => e == NodeError::MissingBindingSet && !has_set(layouts.spec_layouts(), 0),
        },
{
    if !layouts.has_set(0) {
        return Err(NodeError::MissingBindingSet);
    }
    let mut entries = entries;
    layouts.create_bind_group(0, &mut entries);
    Ok(entries)
}

/// The candidate binding of `resource` at `binding`.
pub open spec fn at<R>(binding: u32, resource: R) -> BindGroupEntry<R> {
    BindGroupEntry { binding, resource }
}

/// The outcome of a compute node that offers `entries` and covers
/// `workgroups`.
pub open spec fn compute_outcome<R>(
    r: Result<ComputePass<R>, NodeError>,
    layouts: BindGroupLayouts,
    entries: Seq<BindGroupEntry<R>>,
    workgroups: (u32, u32, u32),
) -> bool {
    match r {
        Ok(pass) => {
            &&& has_set(layouts.spec_layouts(), 0)
            &&& pass.bind_group@ == retained(layouts.spec_layouts(), 0, entries)
            &&& pass.workgroups == workgroups
        },
        Err(e) => e == NodeError::MissingBindingSet && !has_set(layouts.spec_layouts(), 0),
    }
}

/// The outcome of a render node that offers `entries` and issues `draws`,
/// drawing over its colour target and, where `with_depth`, over its depth
/// target.
pub open spec fn render_outcome<R>(
    r: Result<RenderPass<R>, NodeError>,
    layouts: BindGroupLayouts,
    entries: Seq<BindGroupEntry<R>>,
    draws: Seq<Draw>,
    with_depth: bool,
) -> bool {
    match r {
        Ok(pass) => {
            &&& has_set(layouts.spec_layouts(), 0)
            &&& pass.bind_group@ == retained(layouts.spec_layouts(), 0, entries)
            &&& pass.draws@ == draws
            &&& pass.color_ops == draw_over()
            &&& pass.depth_ops == (if with_depth {
                Some(draw_over())
            } else {
                None
            })
        },
        Err(e) => e == NodeError::MissingBindingSet && !has_set(layouts.spec_layouts(), 0),
    }
}

/// Three vertices of one instance: a triangle that covers the target.
pub open spec fn full_screen_triangle() -> Seq<Draw> {
    seq![Draw::Plain { vertices: 0u32..3u32, instances: 0u32..1u32 }]
}

/// Copies the source image over the target with a triangle that covers it:
/// the source at slot 0, its sampler at slot 1. There is no depth target.
pub fn blit_srgb<R>(
    layouts: &BindGroupLayouts,
    source: R,
    sampler: R,
) -> (r: Result<RenderPass<R>, NodeError>)
    ensures
        render_outcome(r, *layouts, seq![at(0, source), at(1, sampler)], full_screen_triangle(), false),
{
    let mut entries: Vec<BindGroupEntry<R>> = Vec::new();
    entries.push(BindGroupEntry { binding: 0, resource: source });
    entries.push(BindGroupEntry { binding: 1, resource: sampler });
    assert(entries@ =~= seq![at(0, source), at(1, sampler)]);
    let mut draws: Vec<Draw> = Vec::new();
    draws.push(Draw::Plain { vertices: 0..3, instances: 0..1 });
    assert(draws@ =~= full_screen_triangle());
    match assemble(layouts, entries) {
        Ok(bind_group) => Ok(
            RenderPass {
                color_ops: AttachmentOps { clear: false, store: true },
                depth_ops: None,
                bind_group,
                draws,
            },
        ),
        Err(e) => Err(e),
    }
}

/// The draw calls of the scene: the first model as instance 0, the second as
/// instance 1.
pub open spec fn scene_draws(first: Range<u32>, second: Range<u32>) -> Seq<Draw> {
    seq![
        Draw::Indexed { indices: first, base_vertex: 0, instances: 0u32..1u32 },
        Draw::Indexed { indices: second, base_vertex: 0, instances: 1u32..2u32 },
    ]
}

/// Draws the two models of the scene: all textures at slot 0, their sampler
/// at slot 1, the material records at slot 2; one indexed draw for each
/// model, each with its own instance. Both targets are drawn over.
pub fn draw<R>(
    layouts: &BindGroupLayouts,
    textures: R,
    sampler: R,
    materials: R,
    first: Range<u32>,
    second: Range<u32>,
) -> (r: Result<RenderPass<R>, NodeError>)
    ensures
        render_outcome(
            r,
            *layouts,
            seq![at(0, textures), at(1, sampler), at(2, materials)],
            scene_draws(first, second),
            true,
        ),
{
    let mut entries: Vec<BindGroupEntry<R>> = Vec::new();
    entries.push(BindGroupEntry { binding: 0, resource: textures });
    entries.push(BindGroupEntry { binding: 1, resource: sampler });
    entries.push(BindGroupEntry { binding: 2, resource: materials });
    assert(entries@ =~= seq![at(0, textures), at(1, sampler), at(2, materials)]);
    let mut draws: Vec<Draw> = Vec::new();
    draws.push(Draw::Indexed { indices: first, base_vertex: 0, instances: 0..1 });
    draws.push(Draw::Indexed { indices: second, base_vertex: 0, instances: 1..2 });
    assert(draws@ =~= scene_draws(first, second));
    match assemble(layouts, entries) {
        Ok(bind_group) => Ok(
            RenderPass {
                color_ops: AttachmentOps { clear: false, store: true },
                depth_ops: Some(AttachmentOps { clear: false, store: true }),
                bind_group,
                draws,
            },
        ),
        Err(e) => Err(e),
    }
}

/// First step of the bloom chain: the scene at slot 0, its sampler at slot
/// 1, the bloom image at slot 2; one workgroup for each tile of the bloom
/// image.
pub fn downsample_initial<R>(
    layouts: &BindGroupLayouts,
    hdr: R,
    sampler: R,
    bloom: R,
    target: ImageDesc,
) -> (r: Result<ComputePass<R>, NodeError>)
    ensures
        compute_outcome(r, *layouts, seq![at(0, hdr), at(1, sampler), at(2, bloom)], spec_tiled(target.width, target.height)),
{
    let mut entries: Vec<BindGroupEntry<R>> = Vec::new();
    entries.push(BindGroupEntry { binding: 0, resource: hdr });
    entries.push(BindGroupEntry { binding: 1, resource: sampler });
    entries.push(BindGroupEntry { binding: 2, resource: bloom });
    assert(entries@ =~= seq![at(0, hdr), at(1, sampler), at(2, bloom)]);
    let workgroups = tiled(target.width, target.height);
    match assemble(layouts, entries) {
        Ok(bind_group) => Ok(ComputePass { bind_group, workgroups }),
        Err(e) => Err(e),
    }
}

/// One step down or up the bloom chain: the source at slot 0, its sampler
/// at slot 1, the target at slot 2; one workgroup for each tile of mip
/// level `mip` of the target.
pub fn downsample<R>(
    layouts: &BindGroupLayouts,
    source: R,
    sampler: R,
    dest: R,
    target: ImageDesc,
    mip: u16,
) -> (r: Result<ComputePass<R>, NodeError>)
    ensures
        compute_outcome(r, *layouts, seq![at(0, source), at(1, sampler), at(2, dest)], spec_tiled(spec_mip_size(target.width, mip), spec_mip_size(target.height, mip))),
{
    let mut entries: Vec<BindGroupEntry<R>> = Vec::new();
    entries.push(BindGroupEntry { binding: 0, resource: source });
    entries.push(BindGroupEntry { binding: 1, resource: sampler });
    entries.push(BindGroupEntry { binding: 2, resource: dest });
    assert(entries@ =~= seq![at(0, source), at(1, sampler), at(2, dest)]);
    let workgroups = tiled(mip_size(target.width, mip), mip_size(target.height, mip));
    match assemble(layouts, entries) {
        Ok(bind_group) => Ok(ComputePass { bind_group, workgroups }),
        Err(e) => Err(e),
    }
}

/// Maps the scene to display range: the scene at slot 0, the lookup table
/// at slot 1, the sampler at slot 2; one workgroup for each tile of the
/// scene.
pub fn tonemap<R>(
    layouts: &BindGroupLayouts,
    hdr: R,
    lookup: R,
    sampler: R,
    target: ImageDesc,
) -> (r: Result<ComputePass<R>, NodeError>)
    ensures
        compute_outcome(r, *layouts, seq![at(0, hdr), at(1, lookup), at(2, sampler)], spec_tiled(target.width, target.height)),
{
    let mut entries: Vec<BindGroupEntry<R>> = Vec::new();
    entries.push(BindGroupEntry { binding: 0, resource: hdr });
    entries.push(BindGroupEntry { binding: 1, resource: lookup });
    entries.push(BindGroupEntry { binding: 2, resource: sampler });
    assert(entries@ =~= seq![at(0, hdr), at(1, lookup), at(2, sampler)]);
    let workgroups = tiled(target.width, target.height);
    match assemble(layouts, entries) {
        Ok(bind_group) => Ok(ComputePass { bind_group, workgroups }),
        Err(e) => Err(e),
    }
}

/// Depth of field in one pass: depth at slot 0, the sampler at slot 1, the
/// scene at slot 2, the output at slot 3; one workgroup for each tile of
/// the output.
pub fn compute_dof<R>(
    layouts: &BindGroupLayouts,
    depth: R,
    sampler: R,
    hdr: R,
    output: R,
    target: ImageDesc,
) -> (r: Result<ComputePass<R>, NodeError>)
    ensures
        compute_outcome(r, *layouts, seq![at(0, depth), at(1, sampler), at(2, hdr), at(3, output)], spec_tiled(target.width, target.height)),
{
    let mut entries: Vec<BindGroupEntry<R>> = Vec::new();
    entries.push(BindGroupEntry { binding: 0, resource: depth });
    entries.push(BindGroupEntry { binding: 1, resource: sampler });
    entries.push(BindGroupEntry { binding: 2, resource: hdr });
    entries.push(BindGroupEntry { binding: 3, resource: output });
    assert(entries@ =~= seq![at(0, depth), at(1, sampler), at(2, hdr), at(3, output)]);
    let workgroups = tiled(target.width, target.height);
    match assemble(layouts, entries) {
        Ok(bind_group) => Ok(ComputePass { bind_group, workgroups }),
        Err(e) => Err(e),
    }
}

/// Fills what the scene left open with the sky: the cube map at slot 0, its
/// sampler at slot 1, the camera's matrices at slot 2; one triangle that
/// covers the target. Both targets are drawn over.
pub fn render_skybox<R>(
    layouts: &BindGroupLayouts,
    cubemap: R,
    sampler: R,
    uniforms: R,
) -> (r: Result<RenderPass<R>, NodeError>)
    ensures
        render_outcome(r, *layouts, seq![at(0, cubemap), at(1, sampler), at(2, uniforms)], full_screen_triangle(), true),
{
    let mut entries: Vec<BindGroupEntry<R>> = Vec::new();
    entries.push(BindGroupEntry { binding: 0, resource: cubemap });
    entries.push(BindGroupEntry { binding: 1, resource: sampler });
    entries.push(BindGroupEntry { binding: 2, resource: uniforms });
    assert(entries@ =~= seq![at(0, cubemap), at(1, sampler), at(2, uniforms)]);
    let mut draws: Vec<Draw> = Vec::new();
    draws.push(Draw::Plain { vertices: 0..3, instances: 0..1 });
    assert(draws@ =~= full_screen_triangle());
    match assemble(layouts, entries) {
        Ok(bind_group) => Ok(
            RenderPass {
                color_ops: AttachmentOps { clear: false, store: true },
                depth_ops: Some(AttachmentOps { clear: false, store: true }),
                bind_group,
                draws,
            },
        ),
        Err(e) => Err(e),
    }
}

/// Halves the scene and works out the circle of confusion: depth at slot 0,
/// the sampler at slot 1, the scene at slot 2, the output at slot 3; one
/// workgroup for each tile of the output.
pub fn dof_downsample_with_coc<R>(
    layouts: &BindGroupLayouts,
    depth: R,
    sampler: R,
    hdr: R,
    output: R,
    target: ImageDesc,
) -> (r: Result<ComputePass<R>, NodeError>)
    ensures
        compute_outcome(r, *layouts, seq![at(0, depth), at(1, sampler), at(2, hdr), at(3, output)], spec_tiled(target.width, target.height)),
{
    let mut entries: Vec<BindGroupEntry<R>> = Vec::new();
    entries.push(BindGroupEntry { binding: 0, resource: depth });
    entries.push(BindGroupEntry { binding: 1, resource: sampler });
    entries.push(BindGroupEntry { binding: 2, resource: hdr });
    entries.push(BindGroupEntry { binding: 3, resource: output });
    assert(entries@ =~= seq![at(0, depth), at(1, sampler), at(2, hdr), at(3, output)]);
    let workgroups = tiled(target.width, target.height);
    match assemble(layouts, entries) {
        Ok(bind_group) => Ok(ComputePass { bind_group, workgroups }),
        Err(e) => Err(e),
    }
}

/// Horizontal blur of the depth of field: the sampler at slot 0, the scene
/// at slot 1, the output at slot 2; one workgroup for each tile of
/// `target`.
pub fn dof_x<R>(
    layouts: &BindGroupLayouts,
    sampler: R,
    hdr: R,
    output: R,
    target: ImageDesc,
) -> (r: Result<ComputePass<R>, NodeError>)
    ensures
        compute_outcome(r, *layouts, seq![at(0, sampler), at(1, hdr), at(2, output)], spec_tiled(target.width, target.height)),
{
    let mut entries: Vec<BindGroupEntry<R>> = Vec::new();
    entries.push(BindGroupEntry { binding: 0, resource: sampler });
    entries.push(BindGroupEntry { binding: 1, resource: hdr });
    entries.push(BindGroupEntry { binding: 2, resource: output });
    assert(entries@ =~= seq![at(0, sampler), at(1, hdr), at(2, output)]);
    let workgroups = tiled(target.width, target.height);
    match assemble(layouts, entries) {
        Ok(bind_group) => Ok(ComputePass { bind_group, workgroups }),
        Err(e) => Err(e),
    }
}

/// Vertical blur of the depth of field: the sampler at slot 0, the scene at
/// slot 1, the horizontal blur at slot 2, the output at slot 3; one
/// workgroup for each tile of the output.
pub fn dof_y<R>(
    layouts: &BindGroupLayouts,
    sampler: R,
    hdr: R,
    horizontally_blurred: R,
    output: R,
    target: ImageDesc,
) -> (r: Result<ComputePass<R>, NodeError>)
    ensures
        compute_outcome(r, *layouts, seq![at(0, sampler), at(1, hdr), at(2, horizontally_blurred), at(3, output)], spec_tiled(target.width, target.height)),
{
    let mut entries: Vec<BindGroupEntry<R>> = Vec::new();
    entries.push(BindGroupEntry { binding: 0, resource: sampler });
    entries.push(BindGroupEntry { binding: 1, resource: hdr });
    entries.push(BindGroupEntry { binding: 2, resource: horizontally_blurred });
    entries.push(BindGroupEntry { binding: 3, resource: output });
    assert(entries@ =~= seq![at(0, sampler), at(1, hdr), at(2, horizontally_blurred), at(3, output)]);
    let workgroups = tiled(target.width, target.height);
    match assemble(layouts, entries) {
        Ok(bind_group) => Ok(ComputePass { bind_group, workgroups }),
        Err(e) => Err(e),
    }
}

/// Transforms the rows of the image at slot 2 in place, forwards or back:
/// one workgroup for each pixel of its width.
pub fn fft_horizontal_forwards<R>(
    layouts: &BindGroupLayouts,
    output: R,
    target: ImageDesc,
) -> (r: Result<ComputePass<R>, NodeError>)
    ensures
        compute_outcome(r, *layouts, seq![at(2, output)], (target.width, 1u32, 1u32)),
{
    let mut entries: Vec<BindGroupEntry<R>> = Vec::new();
    entries.push(BindGroupEntry { binding: 2, resource: output });
    assert(entries@ =~= seq![at(2, output)]);
    let workgroups = (target.width, 1, 1);
    match assemble(layouts, entries) {
        Ok(bind_group) => Ok(ComputePass { bind_group, workgroups }),
        Err(e) => Err(e),
    }
}

/// Transforms the columns of the image at slot 2 in place, in the
/// direction that the buffer at slot 0 gives: one workgroup for each pixel
/// of its width.
pub fn fft_vertical<R>(
    layouts: &BindGroupLayouts,
    direction: R,
    output: R,
    target: ImageDesc,
) -> (r: Result<ComputePass<R>, NodeError>)
    ensures
        compute_outcome(r, *layouts, seq![at(0, direction), at(2, output)], (target.width, 1u32, 1u32)),
{
    let mut entries: Vec<BindGroupEntry<R>> = Vec::new();
    entries.push(BindGroupEntry { binding: 0, resource: direction });
    entries.push(BindGroupEntry { binding: 2, resource: output });
    assert(entries@ =~= seq![at(0, direction), at(2, output)]);
    let workgroups = (target.width, 1, 1);
    match assemble(layouts, entries) {
        Ok(bind_group) => Ok(ComputePass { bind_group, workgroups }),
        Err(e) => Err(e),
    }
}

/// Copies the source image to the output by compute: the source at slot 0,
/// its sampler at slot 1, the output at slot 2; one workgroup for each tile
/// of the output.
pub fn blit_compute<R>(
    layouts: &BindGroupLayouts,
    source: R,
    sampler: R,
    output: R,
    target: ImageDesc,
) -> (r: Result<ComputePass<R>, NodeError>)
    ensures
        compute_outcome(r, *layouts, seq![at(0, source), at(1, sampler), at(2, output)], spec_tiled(target.width, target.height)),
{
    let mut entries: Vec<BindGroupEntry<R>> = Vec::new();
    entries.push(BindGroupEntry { binding: 0, resource: source });
    entries.push(BindGroupEntry { binding: 1, resource: sampler });
    entries.push(BindGroupEntry { binding: 2, resource: output });
    assert(entries@ =~= seq![at(0, source), at(1, sampler), at(2, output)]);
    let workgroups = tiled(target.width, target.height);
    match assemble(layouts, entries) {
        Ok(bind_group) => Ok(ComputePass { bind_group, workgroups }),
        Err(e) => Err(e),
    }
}

/// Multiplies the transformed image at slot 3 by the transformed kernel at
/// slot 4: one workgroup for each tile of the image.
pub fn fft_convolute<R>(
    layouts: &BindGroupLayouts,
    source: R,
    kernel: R,
    target: ImageDesc,
) -> (r: Result<ComputePass<R>, NodeError>)
    ensures
        compute_outcome(r, *layouts, seq![at(3, source), at(4, kernel)], spec_tiled(target.width, target.height)),
{
    let mut entries: Vec<BindGroupEntry<R>> = Vec::new();
    entries.push(BindGroupEntry { binding: 3, resource: source });
    entries.push(BindGroupEntry { binding: 4, resource: kernel });
    assert(entries@ =~= seq![at(3, source), at(4, kernel)]);
    let workgroups = tiled(target.width, target.height);
    match assemble(layouts, entries) {
        Ok(bind_group) => Ok(ComputePass { bind_group, workgroups }),
        Err(e) => Err(e),
    }
}

/// Prepares the transformed kernel at slot 1: one workgroup for each tile
/// of its upper half.
pub fn fft_kernel_transform<R>(
    layouts: &BindGroupLayouts,
    kernel: R,
    target: ImageDesc,
) -> (r: Result<ComputePass<R>, NodeError>)
    ensures
        compute_outcome(r, *layouts, seq![at(1, kernel)], spec_tiled(target.width, spec_mip_size(target.height, 1))),
{
    let mut entries: Vec<BindGroupEntry<R>> = Vec::new();
    entries.push(BindGroupEntry { binding: 1, resource: kernel });
    assert(entries@ =~= seq![at(1, kernel)]);
    let workgroups = tiled(target.width, mip_size(target.height, 1));
    match assemble(layouts, entries) {
        Ok(bind_group) => Ok(ComputePass { bind_group, workgroups }),
        Err(e) => Err(e),
    }
}

} // verus!
