//! The fixed render pipeline: its state as plain data, and the one render
//! pass it records per frame.

use vstd::prelude::*;
use crate::gpu::same_format;

verus! {

/// How vertices are assembled into primitives.
#[derive(Clone, Copy, Debug, PartialEq, Eq, Structural)]
pub enum Topology {
    PointList,
    LineList,
    LineStrip,
    TriangleList,
    TriangleStrip,
}

/// Which winding order marks the front of a triangle.
#[derive(Clone, Copy, Debug, PartialEq, Eq, Structural)]
pub enum FrontFace {
    Ccw,
    Cw,
}

/// Which side of a triangle is discarded.
#[derive(Clone, Copy, Debug, PartialEq, Eq, Structural)]
pub enum CullMode {
    Off,
    Front,
    Back,
}

/// How a polygon is rasterised.
#[derive(Clone, Copy, Debug, PartialEq, Eq, Structural)]
pub enum PolygonMode {
    Fill,
    Line,
    Point,
}

/// How a fragment is combined with what the target already holds.
#[derive(Clone, Copy, Debug, PartialEq, Eq, Structural)]
pub enum Blend {
    /// The fragment replaces the target, in colour and in alpha.
    Replace,
    /// The fragment is laid over the target by its alpha.
    AlphaOver,
}

/// What happens to the colour target when the pass begins.
#[derive(Clone, Copy, Debug, PartialEq, Eq, Structural)]
pub enum LoadOp {
    /// The target is cleared to the clear colour.
    Clear,
    /// The target keeps what it holds.
    Load,
}

/// Why a render pass was not recorded.
#[derive(Clone, Copy, Debug, PartialEq, Eq, Structural)]
pub enum RenderError {
    /// The colour target has another format than the pipeline was built for.
    FormatMismatch,
}

/// The state of the fixed graphics pipeline, bound to one colour format.
#[derive(Clone, Copy, Debug, PartialEq, Eq)]
pub struct RenderPipelineState {
    /// Number of vertex buffers the vertex stage reads.
    pub vertex_buffers: u32,
    /// Number of resource groups in the pipeline layout.
    pub bind_groups: u32,
    pub topology: Topology,
    pub front_face: FrontFace,
    pub cull_mode: CullMode,
    pub polygon_mode: PolygonMode,
    /// Samples per pixel.
    pub sample_count: u32,
    /// One bit per sample; a set bit lets the sample be written.
    pub sample_mask: u64,
    pub blend: Blend,
    /// One bit per colour channel, red lowest; a set bit lets it be written.
    pub write_mask: u8,
    pub depth_stencil: bool,
    /// The colour format the pipeline writes.
    pub bound_color_format: wgpu::TextureFormat,
}

/// One render pass: what it does to its target and what it draws.
#[derive(Clone, Copy, Debug, PartialEq, Eq, Structural)]
pub struct RenderPass {
    pub load: LoadOp,
    /// Whether the result is written back to the target.
    pub store: bool,
    pub first_vertex: u32,
    pub vertex_count: u32,
    pub first_instance: u32,
    pub instance_count: u32,
    /// Number of command buffers handed to the queue.
    pub submissions: u32,
}

/// Name of the vertex stage's entry point in the shader program.
pub const VERTEX_ENTRY: &'static str = "vs_main";

/// Name of the fragment stage's entry point in the shader program.
pub const FRAGMENT_ENTRY: &'static str = "fs_main";

/// Write mask with all four colour channels set.
pub const ALL_CHANNELS: u8 = 0xF;

/// The pipeline state for a colour format: every field but the format is
/// fixed.
pub open spec fn fixed_pipeline(color_format: wgpu::TextureFormat) -> RenderPipelineState {
    RenderPipelineState {
        vertex_buffers: 0,
        bind_groups: 0,
        topology: Topology::TriangleList,
        front_face: FrontFace::Ccw,
        cull_mode: CullMode::Back,
        polygon_mode: PolygonMode::Fill,
        sample_count: 1,
        sample_mask: u64::MAX,
        blend: Blend::Replace,
        write_mask: ALL_CHANNELS,
        depth_stencil: false,
        bound_color_format: color_format,
    }
}

/// The pass drawn each frame: clear, draw one triangle, store, submit once.
pub open spec fn frame_pass() -> RenderPass {
    RenderPass {
        load: LoadOp::Clear,
        store: true,
        first_vertex: 0,
        vertex_count: 3,
        first_instance: 0,
        instance_count: 1,
        submissions: 1,
    }
}

impl RenderPipelineState {
    /// Builds the fixed pipeline state for `color_format`.
    pub fn create(color_format: wgpu::TextureFormat) -> (state: RenderPipelineState)
        ensures
            state == fixed_pipeline(color_format),
    {
        RenderPipelineState {
            vertex_buffers: 0,
            bind_groups: 0,
            topology: Topology::TriangleList,
            front_face: FrontFace::Ccw,
            cull_mode: CullMode::Back,
            polygon_mode: PolygonMode::Fill,
            sample_count: 1,
            sample_mask: u64::MAX,
            blend: Blend::Replace,
            write_mask: ALL_CHANNELS,
            depth_stencil: false,
            bound_color_format: color_format,
        }
    }

    /// Plans the render pass against a colour target of `target_format`.
    ///
    /// The pass is planned exactly when the target has the format the
    /// pipeline is bound to; the format is fixed for the pipeline's lifetime.
    pub fn render(&self, target_format: &wgpu::TextureFormat) -> (pass: Result<RenderPass, RenderError>)
        ensures
            *target_format == self.bound_color_format ==> pass == Ok::<RenderPass, RenderError>(frame_pass()),
            *target_format != self.bound_color_format ==> pass == Err::<RenderPass, RenderError>(RenderError::FormatMismatch),
    {
        if same_format(target_format, &self.bound_color_format) {
            Ok(RenderPass {
                load: LoadOp::Clear,
                store: true,
                first_vertex: 0,
                vertex_count: 3,
                first_instance: 0,
                instance_count: 1,
                submissions: 1,
            })
        } else {
            Err(RenderError::FormatMismatch)
        }
    }
}

} // verus!
