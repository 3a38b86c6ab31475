//! Recording the GPU command sequence of one frame.
//!
//! A [`FrameRecorder`] knows the pipeline and the static geometry selected at
//! startup and produces, for a given render target and extent, the exact
//! command sequence of one frame: begin the render pass with a fixed clear,
//! bind the pipeline, set viewport and scissor dynamically to the extent
//! current at record time (never one cached at pipeline creation), bind the
//! geometry, issue the one draw call, end the pass.  The shell replays the
//! commands verbatim into the slot's command buffer.

use vstd::prelude::*;

use crate::surface::Extent;

verus! {

/// A device buffer together with the memory allocation backing it.
#[derive(Clone, Copy, PartialEq, Eq, Structural, Debug)]
pub struct GpuBuffer {
    pub buffer: u64,
    pub memory: u64,
}

/// What one frame draws: the static geometry uploaded at startup and the
/// arity of its single draw call.
#[derive(Clone, Copy, PartialEq, Eq, Structural, Debug)]
pub enum DrawPayload {
    /// A plain draw of consecutive vertices.
    Plain { vertices: GpuBuffer, vertex_count: u32 },
    /// An indexed draw through a 16-bit index buffer.
    Indexed { vertices: GpuBuffer, indices: GpuBuffer, index_count: u32 },
}

/// One command of a frame's recording, named over opaque handles.
#[derive(Clone, Copy, PartialEq, Eq, Structural, Debug)]
pub enum Cmd {
    /// Begin the render pass against one render target, clearing the whole
    /// render area, which covers `extent`.
    BeginRenderPass { render_pass: u64, framebuffer: u64, extent: Extent },
    BindPipeline { pipeline: u64 },
    SetViewport { extent: Extent },
    SetScissor { extent: Extent },
    BindVertexBuffer { buffer: u64 },
    BindIndexBuffer { buffer: u64 },
    Draw { vertex_count: u32 },
    DrawIndexed { index_count: u32 },
    EndRenderPass,
}

/// Records one frame's commands against the pipeline and geometry fixed at
/// startup.
#[derive(Clone, Copy, PartialEq, Eq, Structural, Debug)]
pub struct FrameRecorder {
    pub pipeline: u64,
    pub pipeline_layout: u64,
    pub payload: DrawPayload,
}

/// The commands that bind and draw the payload.
pub open spec fn payload_script(p: DrawPayload) -> Seq<Cmd> {
    match p {
        DrawPayload::Plain { vertices, vertex_count } => seq![
            Cmd::BindVertexBuffer { buffer: vertices.buffer },
            Cmd::Draw { vertex_count },
        ],
        DrawPayload::Indexed { vertices, indices, index_count } => seq![
            Cmd::BindVertexBuffer { buffer: vertices.buffer },
            Cmd::BindIndexBuffer { buffer: indices.buffer },
            Cmd::DrawIndexed { index_count },
        ],
    }
}

/// The complete command sequence of one frame: render pass against the given
/// target, pipeline, viewport and scissor at the given extent, then the
/// payload, then end of pass.
pub open spec fn frame_script(
    rec: FrameRecorder,
    render_pass: u64,
    framebuffer: u64,
    extent: Extent,
) -> Seq<Cmd> {
    seq![
        Cmd::BeginRenderPass { render_pass, framebuffer, extent },
        Cmd::BindPipeline { pipeline: rec.pipeline },
        Cmd::SetViewport { extent },
        Cmd::SetScissor { extent },
    ] + payload_script(rec.payload) + seq![Cmd::EndRenderPass]
}

impl FrameRecorder {
    /// Record the commands of one frame against the given render target, with
    /// viewport and scissor set to the extent current at record time.
    pub fn record(&self, render_pass: u64, framebuffer: u64, extent: Extent) -> (cmds: Vec<Cmd>)
        ensures
            cmds@ == frame_script(*self, render_pass, framebuffer, extent),
    {
        let mut cmds: Vec<Cmd> = Vec::new();
        cmds.push(Cmd::BeginRenderPass { render_pass, framebuffer, extent });
        cmds.push(Cmd::BindPipeline { pipeline: self.pipeline });
        cmds.push(Cmd::SetViewport { extent });
        cmds.push(Cmd::SetScissor { extent });
        match self.payload {
            DrawPayload::Plain { vertices, vertex_count } => {
                cmds.push(Cmd::BindVertexBuffer { buffer: vertices.buffer });
                cmds.push(Cmd::Draw { vertex_count });
            },
            DrawPayload::Indexed { vertices, indices, index_count } => {
                cmds.push(Cmd::BindVertexBuffer { buffer: vertices.buffer });
                cmds.push(Cmd::BindIndexBuffer { buffer: indices.buffer });
                cmds.push(Cmd::DrawIndexed { index_count });
            },
        }
        cmds.push(Cmd::EndRenderPass);
        proof {
            assert(cmds@ =~= frame_script(*self, render_pass, framebuffer, extent));
        }
        cmds
    }
}

} // verus!
