//! The pipeline builder and command recorder.
//!
//! Shader contents are a black box: the builder only combines the two
//! opaque stage handles with the render pass and the viewport, so what
//! the verified core records of a pipeline is exactly the data whose
//! consistency the frame loop must maintain. The viewport is baked
//! into the pipeline rather than dynamic, which is why a resize forces
//! a pipeline rebuild. Command buffers are prebuilt, one per
//! framebuffer, each recording the same fixed sequence: begin the
//! render pass with a single clear value, bind the pipeline, bind the
//! vertex buffer at binding zero, draw every vertex as one instance,
//! end the render pass.

use vstd::prelude::*;

use crate::geometry::Viewport;
use crate::swapchain::FramebufferDesc;
use crate::swapchain::RenderPassDesc;

verus! {

/// The data a graphics pipeline bakes in, beyond the opaque shader
/// stages and the fixed-function defaults: the render pass it draws
/// into and the viewport it covers.
#[derive(Clone, Copy, Debug, PartialEq, Eq, Structural)]
pub struct PipelineDesc {
    pub render_pass: RenderPassDesc,
    pub viewport: Viewport,
}

/// One prebuilt, reusable primary command buffer: which framebuffer
/// its render pass targets, how many vertices its draw covers, and the
/// instance count, which is always one in this design.
#[derive(Clone, Copy, Debug, PartialEq, Eq, Structural)]
pub struct CommandBufferDesc {
    pub image_index: u32,
    pub vertex_count: u32,
    pub instance_count: u32,
}

/// Combines the render pass and the current viewport into the
/// description of one immutable graphics pipeline. Called again,
/// replacing the old pipeline, whenever the viewport extent changes.
pub fn create_graphics_pipeline(render_pass: RenderPassDesc, viewport: Viewport) -> (p:
    PipelineDesc)
    ensures
        p == (PipelineDesc { render_pass, viewport }),
{
    PipelineDesc { render_pass, viewport }
}

/// Records one command buffer per framebuffer, each drawing the whole
/// vertex buffer as a single instance into its framebuffer's image.
pub fn create_command_buffers(vertex_count: u32, framebuffers: &Vec<FramebufferDesc>) -> (cbs: Vec<
    CommandBufferDesc,
>)
    ensures
        cbs@.len() == framebuffers@.len(),
        forall|i: int|
            0 <= i < framebuffers@.len() ==> cbs@[i] == (CommandBufferDesc {
                image_index: framebuffers@[i].image_index,
                vertex_count,
                instance_count: 1,
            }),
{
    let mut cbs: Vec<CommandBufferDesc> = Vec::new();
    let mut i: usize = 0;
    while i < framebuffers.len()
        invariant
            i <= framebuffers@.len(),
            cbs@.len() == i,
            forall|j: int|
                0 <= j < i ==> cbs@[j] == (CommandBufferDesc {
                    image_index: framebuffers@[j].image_index,
                    vertex_count,
                    instance_count: 1,
                }),
        decreases framebuffers@.len() - i,
    {
        cbs.push(
            CommandBufferDesc {
                image_index: framebuffers[i].image_index,
                vertex_count,
                instance_count: 1,
            },
        );
        i = i + 1;
    }
    cbs
}

} // verus!
