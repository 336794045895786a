use starry_engine::command_buffer::{DrawCommand, StarryCommandBuffer};
use starry_engine::swapchain::Extent;

#[test]
fn default_stream_order() {
    let vp = Extent { width: 800, height: 600 };
    let cmds = StarryCommandBuffer::plan_default_commands(1, 3, vp, 36);
    assert_eq!(
        cmds,
        vec![
            DrawCommand::BeginRenderPass { framebuffer: 1, clear_depth: false },
            DrawCommand::SetViewport { extent: vp },
            DrawCommand::BindPipeline,
            DrawCommand::BindVertexBuffer,
            DrawCommand::BindIndexBuffer,
            DrawCommand::DrawIndexed { index_count: 36 },
            DrawCommand::EndRenderPass,
        ]
    );
}

#[test]
fn standard_stream_order() {
    let vp = Extent { width: 1024, height: 768 };
    let cmds = StarryCommandBuffer::plan_standard_commands(0, 2, vp, 11484);
    assert_eq!(
        cmds,
        vec![
            DrawCommand::BeginRenderPass { framebuffer: 0, clear_depth: true },
            DrawCommand::SetViewport { extent: vp },
            DrawCommand::BindPipeline,
            DrawCommand::BindResources,
            DrawCommand::BindVertexBuffer,
            DrawCommand::BindIndexBuffer,
            DrawCommand::PushConstants,
            DrawCommand::DrawIndexed { index_count: 11484 },
            DrawCommand::EndRenderPass,
        ]
    );
    let draws = cmds.iter().filter(|c| matches!(c, DrawCommand::DrawIndexed { .. })).count();
    assert_eq!(draws, 1);
}
