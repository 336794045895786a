use vstd::prelude::*;

use crate::swapchain::Extent;

verus! {

/// One command of a frame's command stream.
#[derive(Clone, Copy, Debug, PartialEq, Eq, Structural)]
pub enum DrawCommand {
    /// Begin the render pass on framebuffer `framebuffer`, clearing colour to
    /// opaque black and, when `clear_depth`, depth to one.
    BeginRenderPass { framebuffer: u32, clear_depth: bool },
    /// Set the viewport to cover `extent`.
    SetViewport { extent: Extent },
    /// Bind the graphics pipeline.
    BindPipeline,
    /// Bind the texture and sampler resources.
    BindResources,
    /// Bind the mesh's vertex buffer.
    BindVertexBuffer,
    /// Bind the mesh's index buffer.
    BindIndexBuffer,
    /// Push the per-draw constants.
    PushConstants,
    /// Draw `index_count` indices as one instance.
    DrawIndexed { index_count: u32 },
    /// End the render pass.
    EndRenderPass,
}

/// The untextured stream: no depth clear, no resources, no constants.
pub open spec fn default_plan(framebuffer: u32, viewport: Extent, index_count: u32) -> Seq<DrawCommand> {
    seq![
        DrawCommand::BeginRenderPass { framebuffer, clear_depth: false },
        DrawCommand::SetViewport { extent: viewport },
        DrawCommand::BindPipeline,
        DrawCommand::BindVertexBuffer,
        DrawCommand::BindIndexBuffer,
        DrawCommand::DrawIndexed { index_count },
        DrawCommand::EndRenderPass,
    ]
}

/// The textured stream with a depth attachment and per-draw constants.
pub open spec fn standard_plan(framebuffer: u32, viewport: Extent, index_count: u32) -> Seq<DrawCommand> {
    seq![
        DrawCommand::BeginRenderPass { framebuffer, clear_depth: true },
        DrawCommand::SetViewport { extent: viewport },
        DrawCommand::BindPipeline,
        DrawCommand::BindResources,
        DrawCommand::BindVertexBuffer,
        DrawCommand::BindIndexBuffer,
        DrawCommand::PushConstants,
        DrawCommand::DrawIndexed { index_count },
        DrawCommand::EndRenderPass,
    ]
}

/// How many commands of `cmds` are draws.
pub open spec fn draw_count(cmds: Seq<DrawCommand>) -> nat
    decreases cmds.len(),
{
    if cmds.len() == 0 {
        0
    } else {
        draw_count(cmds.drop_last()) + if cmds.last() is DrawIndexed {
            1nat
        } else {
            0nat
        }
    }
}

pub struct StarryCommandBuffer;

impl StarryCommandBuffer {
    /// The command stream that draws a mesh of `index_count` indices, untextured,
    /// into framebuffer `image_index` of `framebuffer_count`.
    pub fn plan_default_commands(
        image_index: u32,
        framebuffer_count: u32,
        viewport: Extent,
        index_count: u32,
    ) -> (r: Vec<DrawCommand>)
        requires
            image_index < framebuffer_count,
        ensures
            r@ == default_plan(image_index, viewport, index_count),
    {
        let r = vec![
            DrawCommand::BeginRenderPass { framebuffer: image_index, clear_depth: false },
            DrawCommand::SetViewport { extent: viewport },
            DrawCommand::BindPipeline,
            DrawCommand::BindVertexBuffer,
            DrawCommand::BindIndexBuffer,
            DrawCommand::DrawIndexed { index_count },
            DrawCommand::EndRenderPass,
        ];
        assert(r@ =~= default_plan(image_index, viewport, index_count));
        r
    }

    /// The command stream that draws a textured mesh of `index_count` indices,
    /// with depth and per-draw constants, into framebuffer `image_index` of
    /// `framebuffer_count`.
    pub fn plan_standard_commands(
        image_index: u32,
        framebuffer_count: u32,
        viewport: Extent,
        index_count: u32,
    ) -> (r: Vec<DrawCommand>)
        requires
            image_index < framebuffer_count,
        ensures
            r@ == standard_plan(image_index, viewport, index_count),
    {
        let r = vec![
            DrawCommand::BeginRenderPass { framebuffer: image_index, clear_depth: true },
            DrawCommand::SetViewport { extent: viewport },
            DrawCommand::BindPipeline,
            DrawCommand::BindResources,
            DrawCommand::BindVertexBuffer,
            DrawCommand::BindIndexBuffer,
            DrawCommand::PushConstants,
            DrawCommand::DrawIndexed { index_count },
            DrawCommand::EndRenderPass,
        ];
        assert(r@ =~= standard_plan(image_index, viewport, index_count));
        r
    }
}

/// Either stream opens the render pass on the given framebuffer, closes it
/// last, and holds exactly one draw, which covers the whole index buffer.
pub proof fn lemma_one_framed_draw(framebuffer: u32, viewport: Extent, index_count: u32)
    ensures
        default_plan(framebuffer, viewport, index_count)[0] == (DrawCommand::BeginRenderPass {
            framebuffer,
            clear_depth: false,
        }),
        default_plan(framebuffer, viewport, index_count).last() == DrawCommand::EndRenderPass,
        draw_count(default_plan(framebuffer, viewport, index_count)) == 1,
        default_plan(framebuffer, viewport, index_count)[5] == (DrawCommand::DrawIndexed {
            index_count,
        }),
        standard_plan(framebuffer, viewport, index_count)[0] == (DrawCommand::BeginRenderPass {
            framebuffer,
            clear_depth: true,
        }),
        standard_plan(framebuffer, viewport, index_count).last() == DrawCommand::EndRenderPass,
        draw_count(standard_plan(framebuffer, viewport, index_count)) == 1,
        standard_plan(framebuffer, viewport, index_count)[7] == (DrawCommand::DrawIndexed {
            index_count,
        }),
{
    let d = default_plan(framebuffer, viewport, index_count);
    let s = standard_plan(framebuffer, viewport, index_count);
    assert(draw_count(d) == 1) by {
        reveal_with_fuel(draw_count, 8);
    }
    assert(draw_count(s) == 1) by {
        reveal_with_fuel(draw_count, 10);
    }
}

} // verus!
