//! Ordered destruction of every GPU object at shutdown.
//!
//! The underlying graphics API makes destruction order a safety rule: an
//! object must be destroyed before everything it was created from, and
//! the surface must be unconfigured and destroyed before the instance.
//! The plan here fixes that order once; the driver performs it step by
//! step on every exit path.

use vstd::prelude::*;

verus! {

/// One destruction step at shutdown.
#[derive(Clone, Copy, Debug, PartialEq, Eq, Structural)]
pub enum DestroyOp {
    DestroySemaphore,
    DestroyFence,
    DestroyPipeline,
    DestroyPipelineLayout,
    DestroyRenderPass,
    DestroyCommandPool,
    UnconfigureSwapchain,
    DestroySurface,
    DestroyInstance,
}

/// The one safe destruction order: rendering semaphore, submission
/// fence, graphics pipeline, pipeline layout, render pass, command
/// pool, then the surface (unconfigured first), and the instance last.
pub open spec fn destroy_seq() -> Seq<DestroyOp> {
    seq![
        DestroyOp::DestroySemaphore,
        DestroyOp::DestroyFence,
        DestroyOp::DestroyPipeline,
        DestroyOp::DestroyPipelineLayout,
        DestroyOp::DestroyRenderPass,
        DestroyOp::DestroyCommandPool,
        DestroyOp::UnconfigureSwapchain,
        DestroyOp::DestroySurface,
        DestroyOp::DestroyInstance,
    ]
}

/// Plans the shutdown: every GPU object once, in the safe order.
pub fn destroy_plan() -> (ops: Vec<DestroyOp>)
    ensures
        ops@ == destroy_seq(),
{
    let mut ops: Vec<DestroyOp> = Vec::new();
    ops.push(DestroyOp::DestroySemaphore);
    ops.push(DestroyOp::DestroyFence);
    ops.push(DestroyOp::DestroyPipeline);
    ops.push(DestroyOp::DestroyPipelineLayout);
    ops.push(DestroyOp::DestroyRenderPass);
    ops.push(DestroyOp::DestroyCommandPool);
    ops.push(DestroyOp::UnconfigureSwapchain);
    ops.push(DestroyOp::DestroySurface);
    ops.push(DestroyOp::DestroyInstance);
    proof {
        assert(ops@ =~= destroy_seq());
    }
    ops
}

/// Each GPU object is destroyed strictly before everything it was
/// created from: the two synchronization primitives first, the pipeline
/// before its layout, the layout before the render pass, every
/// device-owned object before the surface is touched, and the surface
/// (unconfigured first) strictly before the instance.
pub proof fn lemma_destroy_order()
    ensures
        destroy_seq().len() == 9,
        destroy_seq()[0] == DestroyOp::DestroySemaphore,
        destroy_seq()[1] == DestroyOp::DestroyFence,
        destroy_seq()[2] == DestroyOp::DestroyPipeline,
        destroy_seq()[3] == DestroyOp::DestroyPipelineLayout,
        destroy_seq()[4] == DestroyOp::DestroyRenderPass,
        destroy_seq()[5] == DestroyOp::DestroyCommandPool,
        destroy_seq()[6] == DestroyOp::UnconfigureSwapchain,
        destroy_seq()[7] == DestroyOp::DestroySurface,
        destroy_seq()[8] == DestroyOp::DestroyInstance,
        forall|i: int, j: int|
            0 <= i < j < destroy_seq().len() ==> destroy_seq()[i] != destroy_seq()[j],
{
}

} // verus!
