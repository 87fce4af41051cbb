//! Frame-presentation engine for a single-window GPU renderer.
//!
//! The crate owns the decision logic of a render loop: selecting a device
//! queue and a surface color format at startup, keeping a swapchain
//! configuration consistent with the window size, driving one
//! render-submit-present cycle per frame with recovery from surface
//! invalidation, and tearing every GPU object down in a safe order.
//!
//! All GPU objects themselves live outside this crate. The orchestrator is
//! a state machine over plain values: a driver performs each emitted
//! [`orchestrator::FrameAction`] against the graphics API and feeds the
//! outcome back as a [`orchestrator::FrameEvent`].

pub mod commands;
pub mod device;
pub mod extent;
pub mod format;
pub mod orchestrator;
pub mod pipeline;
pub mod swapchain;
pub mod teardown;
pub mod traces;
