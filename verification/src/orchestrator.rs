//! The frame orchestrator: the render loop's decision state machine.
//!
//! One frame runs through the phases `Idle -> FenceWait ->
//! SwapchainCheck -> ImageAcquire -> Recording -> Submitted ->
//! Presented -> Idle`. The orchestrator holds no GPU object; it owns the
//! decisions. A driver asks it to step on every outcome the graphics
//! API reports ([`FrameEvent`]) and performs the work it answers with
//! ([`FrameAction`]). Failures at image acquire or at present are soft:
//! the frame is abandoned or finished with the reconfigure flag set, and
//! the next frame reconfigures the swapchain.
//!
//! The fence wait at the start of a frame happens only while a previous
//! submission is actually outstanding (`work_in_flight`): the first
//! frame, and any frame after an abandoned one, skips it — nothing
//! would ever signal the fence, and demanding a wait there would turn
//! the soft acquire-failure path into a deadlock. When the wait does
//! run, a timeout is fatal: work is outstanding, so a fence that stays
//! unsignaled means the device is hung or lost, and the driver must
//! abort rather than hang.

use crate::extent::Extent2d;
use crate::format::FormatChoice;
use crate::swapchain::{derive_swapchain_config, derived_config, SurfaceCaps, SwapchainConfig};
use crate::teardown::{destroy_plan, destroy_seq, DestroyOp};
use vstd::prelude::*;

verus! {

/// The bounded wait on the submission fence, in nanoseconds. A longer
/// wait means the device is hung or lost, which is fatal.
pub const FENCE_TIMEOUT_NS: u64 = 1_000_000_000;

/// The bounded wait for the next presentable image, in nanoseconds.
/// Exceeding it is a soft failure: the frame is abandoned and the
/// swapchain reconfigured.
pub const ACQUIRE_TIMEOUT_NS: u64 = 1_000_000_000;

/// Where the orchestrator stands in the per-frame protocol.
#[derive(Clone, Copy, Debug, PartialEq, Eq, Structural)]
pub enum Phase {
    /// Between frames; a redraw request starts the next one.
    Idle,
    /// Waiting for the previous frame's submission fence; entered only
    /// while that submission is outstanding.
    FenceWait,
    /// Fence retired; checking the swapchain against the window size.
    SwapchainCheck,
    /// Waiting for a presentable image.
    ImageAcquire,
    /// Image in hand; the frame's commands are being recorded and
    /// submitted.
    Recording,
    /// Commands submitted; the image is being presented.
    Submitted,
    /// Presented (or the present was rejected); the transient
    /// framebuffer is being destroyed.
    Presented,
}

/// What the driver reports back to the orchestrator.
#[derive(Clone, Copy, Debug, PartialEq, Eq)]
pub enum FrameEvent {
    /// The event loop asks for a frame.
    RedrawRequested,
    /// The window's physical size changed (resize or scale-factor
    /// change).
    Resized { width: u32, height: u32 },
    /// The submission fence has not signaled yet.
    FencePending,
    /// The submission fence signaled: the previous frame fully retired.
    FenceSignaled,
    /// The bounded fence wait ran out: the device is hung or lost.
    FenceTimeout,
    /// The surface's current capabilities, freshly queried.
    CapsReported { caps: SurfaceCaps },
    /// A presentable image was acquired.
    ImageAcquired,
    /// Image acquisition failed or timed out (common during resizes).
    AcquireFailed,
    /// The frame's command buffer was submitted to the queue.
    SubmitDone,
    /// The image was presented.
    PresentOk,
    /// Presentation failed or reported the swapchain suboptimal.
    PresentFailed,
    /// The transient framebuffer was destroyed.
    FrameCleaned,
}

/// What the orchestrator asks the driver to perform next.
#[derive(Clone, Copy, Debug, PartialEq, Eq)]
pub enum FrameAction {
    /// Wait on the submission fence, at most `timeout_ns`; report
    /// [`FrameEvent::FenceSignaled`], [`FrameEvent::FencePending`] or
    /// [`FrameEvent::FenceTimeout`].
    PollFence { timeout_ns: u64 },
    /// Reset the fence and the command pool for reuse, then query the
    /// surface capabilities; report [`FrameEvent::CapsReported`].
    PrepareAndQueryCaps,
    /// Apply `configure` to the surface if given, then acquire the next
    /// presentable image within `timeout_ns`; report
    /// [`FrameEvent::ImageAcquired`] or [`FrameEvent::AcquireFailed`].
    AcquireImage { configure: Option<SwapchainConfig>, timeout_ns: u64 },
    /// Build the transient framebuffer at this extent, record the frame
    /// program ([`crate::commands::frame_commands`]) and submit it,
    /// signaling the rendering semaphore and the submission fence;
    /// report [`FrameEvent::SubmitDone`].
    RecordAndSubmit { extent: Extent2d },
    /// Present the acquired image, waiting on the rendering semaphore;
    /// report [`FrameEvent::PresentOk`] or [`FrameEvent::PresentFailed`].
    PresentImage,
    /// Destroy the transient framebuffer; report
    /// [`FrameEvent::FrameCleaned`].
    DestroyFrameBuffer,
    /// The frame is abandoned; nothing to perform. The next redraw
    /// starts over.
    AbandonFrame,
    /// Nothing to perform.
    NoWork,
    /// Abort: the device did not retire work within the bounded wait.
    FatalDeviceLost,
}

/// The frame orchestrator's whole state: a phase and the swapchain
/// bookkeeping. All GPU objects live with the driver.
#[derive(Clone, Copy, Debug, PartialEq, Eq, Structural)]
pub struct Orchestrator {
    pub phase: Phase,
    /// The extent the swapchain is (to be) configured to; updated from
    /// resize events and from what the surface settles on.
    pub surface_extent: Extent2d,
    /// The color format chosen at startup; never changes.
    pub format: FormatChoice,
    /// True when the swapchain must be (re)configured before the next
    /// image acquire.
    pub should_configure_swapchain: bool,
    /// True while a frame's submission is outstanding on the GPU — set
    /// when commands are submitted, cleared when the fence signals.
    /// Only then does the next frame wait on the fence: after an
    /// abandoned frame (or before the first) nothing would ever signal
    /// it.
    pub work_in_flight: bool,
    /// True once shutdown has been planned; no further frame may run.
    pub torn_down: bool,
}

/// The state the orchestrator starts in: idle at the given extent, with
/// the swapchain still to be configured for the first time and no work
/// on the GPU yet.
pub open spec fn init_state(width: u32, height: u32, format: FormatChoice) -> Orchestrator {
    Orchestrator {
        phase: Phase::Idle,
        surface_extent: Extent2d { width, height },
        format,
        should_configure_swapchain: true,
        work_in_flight: false,
        torn_down: false,
    }
}

/// The state after a resize: the pending extent is replaced and the
/// swapchain marked for reconfiguration; nothing else moves.
pub open spec fn resized_state(s: Orchestrator, width: u32, height: u32) -> Orchestrator {
    Orchestrator {
        surface_extent: Extent2d { width, height },
        should_configure_swapchain: true,
        ..s
    }
}

/// The transition function: what the orchestrator in state `s` does
/// with event `e` — the state it moves to and the action it asks for.
pub open spec fn step_spec(s: Orchestrator, e: FrameEvent) -> (Orchestrator, FrameAction) {
    match (s.phase, e) {
        (Phase::Idle, FrameEvent::RedrawRequested) => if s.work_in_flight {
            (
                Orchestrator { phase: Phase::FenceWait, ..s },
                FrameAction::PollFence { timeout_ns: FENCE_TIMEOUT_NS },
            )
        } else {
            (
                Orchestrator { phase: Phase::SwapchainCheck, ..s },
                FrameAction::PrepareAndQueryCaps,
            )
        },
        (Phase::Idle, FrameEvent::Resized { width, height }) => (
            resized_state(s, width, height),
            FrameAction::NoWork,
        ),
        (Phase::FenceWait, FrameEvent::FencePending) => (
            s,
            FrameAction::PollFence { timeout_ns: FENCE_TIMEOUT_NS },
        ),
        (Phase::FenceWait, FrameEvent::FenceSignaled) => (
            Orchestrator { phase: Phase::SwapchainCheck, work_in_flight: false, ..s },
            FrameAction::PrepareAndQueryCaps,
        ),
        (Phase::FenceWait, FrameEvent::FenceTimeout) => (s, FrameAction::FatalDeviceLost),
        (Phase::SwapchainCheck, FrameEvent::CapsReported { caps }) => {
            let cfg = derived_config(caps, s.format, s.surface_extent);
            (
                Orchestrator {
                    phase: Phase::ImageAcquire,
                    surface_extent: cfg.extent,
                    should_configure_swapchain: false,
                    ..s
                },
                FrameAction::AcquireImage {
                    configure: if s.should_configure_swapchain {
                        Some(cfg)
                    } else {
                        None
                    },
                    timeout_ns: ACQUIRE_TIMEOUT_NS,
                },
            )
        },
        (Phase::ImageAcquire, FrameEvent::ImageAcquired) => (
            Orchestrator { phase: Phase::Recording, ..s },
            FrameAction::RecordAndSubmit { extent: s.surface_extent },
        ),
        (Phase::ImageAcquire, FrameEvent::AcquireFailed) => (
            Orchestrator { phase: Phase::Idle, should_configure_swapchain: true, ..s },
            FrameAction::AbandonFrame,
        ),
        (Phase::Recording, FrameEvent::SubmitDone) => (
            Orchestrator { phase: Phase::Submitted, work_in_flight: true, ..s },
            FrameAction::PresentImage,
        ),
        (Phase::Submitted, FrameEvent::PresentOk) => (
            Orchestrator { phase: Phase::Presented, ..s },
            FrameAction::DestroyFrameBuffer,
        ),
        (Phase::Submitted, FrameEvent::PresentFailed) => (
            Orchestrator {
                phase: Phase::Presented,
                should_configure_swapchain: true,
                ..s
            },
            FrameAction::DestroyFrameBuffer,
        ),
        (Phase::Presented, FrameEvent::FrameCleaned) => (
            Orchestrator { phase: Phase::Idle, ..s },
            FrameAction::NoWork,
        ),
        _ => (s, FrameAction::NoWork),
    }
}

impl Orchestrator {
    /// True if `e` is an event the driver may report in the current
    /// phase. A torn-down orchestrator accepts nothing.
    pub open spec fn accepts(self, e: FrameEvent) -> bool {
        &&& !self.torn_down
        &&& match self.phase {
            Phase::Idle => e is RedrawRequested || e is Resized,
            Phase::FenceWait => e is FencePending || e is FenceSignaled || e is FenceTimeout,
            Phase::SwapchainCheck => e is CapsReported,
            Phase::ImageAcquire => e is ImageAcquired || e is AcquireFailed,
            Phase::Recording => e is SubmitDone,
            Phase::Submitted => e is PresentOk || e is PresentFailed,
            Phase::Presented => e is FrameCleaned,
        }
    }

    /// A fresh orchestrator for a window of the given physical size and
    /// the color format chosen at startup. The first frame will
    /// configure the swapchain.
    pub fn new(width: u32, height: u32, format: FormatChoice) -> (r: Orchestrator)
        ensures
            r == init_state(width, height, format),
    {
        Orchestrator {
            phase: Phase::Idle,
            surface_extent: Extent2d { width, height },
            format,
            should_configure_swapchain: true,
            work_in_flight: false,
            torn_down: false,
        }
    }

    /// Records a new window size and marks the swapchain for
    /// reconfiguration. Touches no GPU state; the next frame applies
    /// the change.
    pub fn update_dimensions(&mut self, width: u32, height: u32)
        ensures
            *final(self) == resized_state(*old(self), width, height),
    {
        self.surface_extent = Extent2d { width, height };
        self.should_configure_swapchain = true;
    }

    /// Steps the machine: consumes one event, moves to the next state,
    /// and answers with the action the driver must perform, exactly as
    /// [`step_spec`] lays down.
    pub fn step(&mut self, e: FrameEvent) -> (a: FrameAction)
        requires
            old(self).accepts(e),
        ensures
            *final(self) == step_spec(*old(self), e).0,
            a == step_spec(*old(self), e).1,
    {
        match (self.phase, e) {
            (Phase::Idle, FrameEvent::RedrawRequested) => {
                if self.work_in_flight {
                    self.phase = Phase::FenceWait;
                    FrameAction::PollFence { timeout_ns: FENCE_TIMEOUT_NS }
                } else {
                    self.phase = Phase::SwapchainCheck;
                    FrameAction::PrepareAndQueryCaps
                }
            },
            (Phase::Idle, FrameEvent::Resized { width, height }) => {
                self.surface_extent = Extent2d { width, height };
                self.should_configure_swapchain = true;
                FrameAction::NoWork
            },
            (Phase::FenceWait, FrameEvent::FencePending) => {
                FrameAction::PollFence { timeout_ns: FENCE_TIMEOUT_NS }
            },
            (Phase::FenceWait, FrameEvent::FenceSignaled) => {
                self.phase = Phase::SwapchainCheck;
                self.work_in_flight = false;
                FrameAction::PrepareAndQueryCaps
            },
            (Phase::FenceWait, FrameEvent::FenceTimeout) => FrameAction::FatalDeviceLost,
            (Phase::SwapchainCheck, FrameEvent::CapsReported { caps }) => {
                let cfg = derive_swapchain_config(caps, self.format, self.surface_extent);
                let was_dirty = self.should_configure_swapchain;
                self.phase = Phase::ImageAcquire;
                self.surface_extent = cfg.extent;
                self.should_configure_swapchain = false;
                FrameAction::AcquireImage {
                    configure: if was_dirty {
                        Some(cfg)
                    } else {
                        None
                    },
                    timeout_ns: ACQUIRE_TIMEOUT_NS,
                }
            },
            (Phase::ImageAcquire, FrameEvent::ImageAcquired) => {
                self.phase = Phase::Recording;
                FrameAction::RecordAndSubmit { extent: self.surface_extent }
            },
            (Phase::ImageAcquire, FrameEvent::AcquireFailed) => {
                self.phase = Phase::Idle;
                self.should_configure_swapchain = true;
                FrameAction::AbandonFrame
            },
            (Phase::Recording, FrameEvent::SubmitDone) => {
                self.phase = Phase::Submitted;
                self.work_in_flight = true;
                FrameAction::PresentImage
            },
            (Phase::Submitted, FrameEvent::PresentOk) => {
                self.phase = Phase::Presented;
                FrameAction::DestroyFrameBuffer
            },
            (Phase::Submitted, FrameEvent::PresentFailed) => {
                self.phase = Phase::Presented;
                self.should_configure_swapchain = true;
                FrameAction::DestroyFrameBuffer
            },
            (Phase::Presented, FrameEvent::FrameCleaned) => {
                self.phase = Phase::Idle;
                FrameAction::NoWork
            },
            _ => FrameAction::NoWork,
        }
    }

    /// Plans the shutdown. The first call yields every destruction step
    /// in the safe order ([`destroy_seq`]); afterwards the orchestrator
    /// is torn down for good and later calls yield nothing, so each GPU
    /// object is destroyed exactly once on every exit path.
    pub fn teardown(&mut self) -> (ops: Vec<DestroyOp>)
        ensures
            *final(self) == (Orchestrator { torn_down: true, ..*old(self) }),
            !old(self).torn_down ==> ops@ == destroy_seq(),
            old(self).torn_down ==> ops@ == Seq::<DestroyOp>::empty(),
    {
        if self.torn_down {
            Vec::new()
        } else {
            self.torn_down = true;
            destroy_plan()
        }
    }
}

} // verus!
