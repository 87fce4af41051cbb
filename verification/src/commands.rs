//! The command sequence recorded for one frame.
//!
//! Every frame records the same fixed program against the current
//! extent: a one-time-submit buffer whose viewport and scissor cover the
//! whole surface, one render pass cleared to opaque black, the graphics
//! pipeline, and a single non-indexed draw of three vertices in one
//! instance. The geometry itself is generated in the vertex shader, so
//! no vertex buffers are bound.

use crate::extent::Extent2d;
use vstd::prelude::*;

verus! {

/// How many vertices the one draw call emits.
pub const DRAW_VERTEX_COUNT: u32 = 3;

/// How many instances the one draw call emits.
pub const DRAW_INSTANCE_COUNT: u32 = 1;

/// A color with 8-bit channels; 255 is full intensity.
#[derive(Clone, Copy, Debug, PartialEq, Eq, Structural)]
pub struct ClearColor {
    pub red: u8,
    pub green: u8,
    pub blue: u8,
    pub alpha: u8,
}

/// Opaque black: every color channel dark, alpha full.
pub open spec fn opaque_black() -> ClearColor {
    ClearColor { red: 0, green: 0, blue: 0, alpha: 255 }
}

/// One step of the recorded frame program.
#[derive(Clone, Copy, Debug, PartialEq, Eq, Structural)]
pub enum FrameCommand {
    /// Begin a primary command buffer for a single submission.
    BeginOneTimeSubmit,
    /// Set the viewport to the full rectangle at origin of this size.
    SetViewport { extent: Extent2d },
    /// Set the scissor to the full rectangle at origin of this size.
    SetScissor { extent: Extent2d },
    /// Begin the render pass, clearing the color attachment.
    BeginRenderPass { clear: ClearColor },
    /// Bind the graphics pipeline built at startup.
    BindPipeline,
    /// Issue a non-indexed draw.
    Draw { vertex_count: u32, instance_count: u32 },
    /// End the render pass.
    EndRenderPass,
    /// Finish recording.
    Finish,
}

/// The full program recorded for a frame of the given extent.
pub open spec fn frame_command_seq(extent: Extent2d) -> Seq<FrameCommand> {
    seq![
        FrameCommand::BeginOneTimeSubmit,
        FrameCommand::SetViewport { extent },
        FrameCommand::SetScissor { extent },
        FrameCommand::BeginRenderPass { clear: opaque_black() },
        FrameCommand::BindPipeline,
        FrameCommand::Draw {
            vertex_count: DRAW_VERTEX_COUNT,
            instance_count: DRAW_INSTANCE_COUNT,
        },
        FrameCommand::EndRenderPass,
        FrameCommand::Finish,
    ]
}

/// Records the frame program for the given extent: viewport and scissor
/// cover the whole extent, the clear is exactly opaque black, and one
/// draw of three vertices in one instance stands between render-pass
/// begin and end.
pub fn frame_commands(extent: Extent2d) -> (cmds: Vec<FrameCommand>)
    ensures
        cmds@ == frame_command_seq(extent),
{
    let mut cmds: Vec<FrameCommand> = Vec::new();
    cmds.push(FrameCommand::BeginOneTimeSubmit);
    cmds.push(FrameCommand::SetViewport { extent });
    cmds.push(FrameCommand::SetScissor { extent });
    cmds.push(FrameCommand::BeginRenderPass { clear: ClearColor { red: 0, green: 0, blue: 0, alpha: 255 } });
    cmds.push(FrameCommand::BindPipeline);
    cmds.push(FrameCommand::Draw { vertex_count: DRAW_VERTEX_COUNT, instance_count: DRAW_INSTANCE_COUNT });
    cmds.push(FrameCommand::EndRenderPass);
    cmds.push(FrameCommand::Finish);
    proof {
        assert(cmds@ =~= frame_command_seq(extent));
    }
    cmds
}

} // verus!
