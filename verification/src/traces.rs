//! Laws of the orchestrator over whole event traces.
//!
//! [`run`] folds [`step_spec`] over a sequence of driver events and
//! collects the actions the orchestrator asks for. The lemmas here
//! state the engine's frame protocol guarantees: a resize followed by a
//! frame settles on a nonzero extent; a frame reconfigures the
//! swapchain at most once and a repeated frame not at all; command
//! recording never begins while the fence is pending; and an acquire
//! failure abandons the frame, touches nothing, and leads into a next
//! frame that reconfigures exactly once and — since the abandoned frame
//! submitted nothing — is never asked to wait on the fence.
//!
//! A frame's event sequence depends on whether the previous frame's
//! submission is still outstanding: only then does it begin with the
//! fence signal.

use crate::extent::Extent2d;
use crate::orchestrator::{
    step_spec, FrameAction, FrameEvent, Orchestrator, Phase, ACQUIRE_TIMEOUT_NS, FENCE_TIMEOUT_NS,
};
use crate::swapchain::{derived_config, SurfaceCaps};
use vstd::prelude::*;

verus! {

/// The orchestrator driven by a whole event sequence: the state it
/// ends in and the actions it asked for, in order.
pub open spec fn run(s: Orchestrator, events: Seq<FrameEvent>) -> (Orchestrator, Seq<FrameAction>)
    decreases events.len(),
{
    if events.len() == 0 {
        (s, Seq::<FrameAction>::empty())
    } else {
        let first = step_spec(s, events[0]);
        let rest = run(first.0, events.drop_first());
        (rest.0, seq![first.1] + rest.1)
    }
}

/// True if the driver may report this whole sequence: each event is
/// accepted in the state the previous ones lead to.
pub open spec fn accepts_trace(s: Orchestrator, events: Seq<FrameEvent>) -> bool
    decreases events.len(),
{
    events.len() == 0 || {
        &&& s.accepts(events[0])
        &&& accepts_trace(step_spec(s, events[0]).0, events.drop_first())
    }
}

/// True if the action applies a swapchain configuration to the surface.
pub open spec fn is_configure(a: FrameAction) -> bool {
    a matches FrameAction::AcquireImage { configure, .. } && configure is Some
}

/// How many of the actions apply a swapchain configuration.
pub open spec fn configure_count(actions: Seq<FrameAction>) -> int
    decreases actions.len(),
{
    if actions.len() == 0 {
        0
    } else {
        (if is_configure(actions[0]) {
            1int
        } else {
            0int
        }) + configure_count(actions.drop_first())
    }
}

/// The events of one frame that runs through cleanly: the fence signal
/// first when the previous frame's submission is outstanding, the
/// surface reporting `caps`, and acquire, submit, present and cleanup
/// all succeeding.
pub open spec fn successful_frame_events(in_flight: bool, caps: SurfaceCaps) -> Seq<FrameEvent> {
    if in_flight {
        seq![
            FrameEvent::RedrawRequested,
            FrameEvent::FenceSignaled,
            FrameEvent::CapsReported { caps },
            FrameEvent::ImageAcquired,
            FrameEvent::SubmitDone,
            FrameEvent::PresentOk,
            FrameEvent::FrameCleaned,
        ]
    } else {
        seq![
            FrameEvent::RedrawRequested,
            FrameEvent::CapsReported { caps },
            FrameEvent::ImageAcquired,
            FrameEvent::SubmitDone,
            FrameEvent::PresentOk,
            FrameEvent::FrameCleaned,
        ]
    }
}

/// The actions a clean frame asks for, in order: the fence poll only
/// when work was outstanding, then prepare-and-query, acquire (with a
/// configuration exactly when `dirty`), record, present and cleanup.
pub open spec fn successful_frame_actions(
    in_flight: bool,
    dirty: bool,
    cfg: crate::swapchain::SwapchainConfig,
) -> Seq<FrameAction> {
    let tail = seq![
        FrameAction::PrepareAndQueryCaps,
        FrameAction::AcquireImage {
            configure: if dirty {
                Some(cfg)
            } else {
                None
            },
            timeout_ns: ACQUIRE_TIMEOUT_NS,
        },
        FrameAction::RecordAndSubmit { extent: cfg.extent },
        FrameAction::PresentImage,
        FrameAction::DestroyFrameBuffer,
        FrameAction::NoWork,
    ];
    if in_flight {
        seq![FrameAction::PollFence { timeout_ns: FENCE_TIMEOUT_NS }] + tail
    } else {
        tail
    }
}

/// The events of a frame that dies at image acquire.
pub open spec fn failed_acquire_frame_events(in_flight: bool, caps: SurfaceCaps) -> Seq<
    FrameEvent,
> {
    if in_flight {
        seq![
            FrameEvent::RedrawRequested,
            FrameEvent::FenceSignaled,
            FrameEvent::CapsReported { caps },
            FrameEvent::AcquireFailed,
        ]
    } else {
        seq![
            FrameEvent::RedrawRequested,
            FrameEvent::CapsReported { caps },
            FrameEvent::AcquireFailed,
        ]
    }
}

/// `n` reports that the fence has not signaled yet.
pub open spec fn pending_events(n: nat) -> Seq<FrameEvent> {
    Seq::new(n, |i: int| FrameEvent::FencePending)
}

/// What one clean frame does, exactly: the orchestrator asks for the
/// frame steps in protocol order — beginning with a fence poll only
/// when the previous frame's submission was outstanding — applies a
/// configuration in the acquire step exactly when the reconfigure flag
/// was set (and then the one derived from the reported capabilities
/// and the pending extent), records at the settled extent, and returns
/// to idle with the flag clear, the settled extent as its own, and its
/// own submission now in flight.
pub proof fn lemma_successful_frame(s: Orchestrator, caps: SurfaceCaps)
    requires
        s.phase is Idle,
        !s.torn_down,
    ensures
        ({
            let cfg = derived_config(caps, s.format, s.surface_extent);
            let es = successful_frame_events(s.work_in_flight, caps);
            let r = run(s, es);
            &&& accepts_trace(s, es)
            &&& r.0 == (Orchestrator {
                phase: Phase::Idle,
                surface_extent: cfg.extent,
                should_configure_swapchain: false,
                work_in_flight: true,
                ..s
            })
            &&& r.1 =~= successful_frame_actions(
                s.work_in_flight,
                s.should_configure_swapchain,
                cfg,
            )
            &&& configure_count(r.1) == (if s.should_configure_swapchain {
                1int
            } else {
                0int
            })
        }),
{
    reveal_with_fuel(run, 9);
    reveal_with_fuel(accepts_trace, 9);
    reveal_with_fuel(configure_count, 9);
    let es = successful_frame_events(s.work_in_flight, caps);
    let cfg = derived_config(caps, s.format, s.surface_extent);
    let tail = seq![
        FrameEvent::CapsReported { caps },
        FrameEvent::ImageAcquired,
        FrameEvent::SubmitDone,
        FrameEvent::PresentOk,
        FrameEvent::FrameCleaned,
    ];
    if s.work_in_flight {
        assert(es.drop_first() =~= seq![FrameEvent::FenceSignaled] + tail);
        assert(es.drop_first().drop_first() =~= tail);
    } else {
        assert(es.drop_first() =~= tail);
    }
    assert(tail.drop_first() =~= seq![
        FrameEvent::ImageAcquired,
        FrameEvent::SubmitDone,
        FrameEvent::PresentOk,
        FrameEvent::FrameCleaned,
    ]);
    assert(tail.drop_first().drop_first() =~= seq![
        FrameEvent::SubmitDone,
        FrameEvent::PresentOk,
        FrameEvent::FrameCleaned,
    ]);
    assert(tail.drop_first().drop_first().drop_first() =~= seq![
        FrameEvent::PresentOk,
        FrameEvent::FrameCleaned,
    ]);
    assert(tail.drop_first().drop_first().drop_first().drop_first() =~= seq![
        FrameEvent::FrameCleaned,
    ]);
    assert(tail.drop_first().drop_first().drop_first().drop_first().drop_first()
        =~= Seq::<FrameEvent>::empty());
    let r = run(s, es);
    assert(r.1 =~= successful_frame_actions(s.work_in_flight, s.should_configure_swapchain, cfg));
}

/// Rendering twice with no intervening resize reconfigures the
/// swapchain at most once: the first frame applies a configuration only
/// if the flag was set, clears it, and the second frame applies none.
pub proof fn lemma_reconfigure_at_most_once(s: Orchestrator, caps1: SurfaceCaps, caps2: SurfaceCaps)
    requires
        s.phase is Idle,
        !s.torn_down,
    ensures
        ({
            let r1 = run(s, successful_frame_events(s.work_in_flight, caps1));
            let r2 = run(r1.0, successful_frame_events(true, caps2));
            &&& configure_count(r1.1) <= 1
            &&& !r1.0.should_configure_swapchain
            &&& configure_count(r2.1) == 0
        }),
{
    let r1 = run(s, successful_frame_events(s.work_in_flight, caps1));
    lemma_successful_frame(s, caps1);
    lemma_successful_frame(r1.0, caps2);
}

/// While the submission fence is pending the orchestrator only keeps
/// polling: `n` pending reports leave the state untouched and yield `n`
/// fence polls and nothing else.
pub proof fn lemma_polls_while_pending(s: Orchestrator, n: nat)
    requires
        s.phase is FenceWait,
    ensures
        ({
            let r = run(s, pending_events(n));
            &&& r.0 == s
            &&& r.1.len() == n
            &&& forall|i: int|
                0 <= i < n ==> r.1[i] == (FrameAction::PollFence {
                    timeout_ns: FENCE_TIMEOUT_NS,
                })
        }),
    decreases n,
{
    reveal_with_fuel(run, 2);
    if n == 0 {
        assert(pending_events(0) =~= Seq::<FrameEvent>::empty());
    } else {
        assert(pending_events(n).drop_first() =~= pending_events((n - 1) as nat));
        lemma_polls_while_pending(s, (n - 1) as nat);
    }
}

/// Command recording is gated on the fence: while the previous frame's
/// submission is outstanding, a redraw followed by any number of
/// pending fence reports produces only fence polls — one per poll the
/// driver makes — and in particular never a record-and-submit. Only the
/// fence's own signal moves the frame onward.
pub proof fn lemma_fence_gates_recording(s: Orchestrator, n: nat)
    requires
        s.phase is Idle,
        !s.torn_down,
        s.work_in_flight,
    ensures
        ({
            let r = run(s, seq![FrameEvent::RedrawRequested] + pending_events(n));
            &&& r.0 == (Orchestrator { phase: Phase::FenceWait, ..s })
            &&& r.1.len() == n + 1
            &&& forall|i: int|
                0 <= i <= n ==> r.1[i] == (FrameAction::PollFence {
                    timeout_ns: FENCE_TIMEOUT_NS,
                })
            &&& forall|i: int| 0 <= i < r.1.len() ==> !(r.1[i] is RecordAndSubmit)
            &&& step_spec(r.0, FrameEvent::FenceSignaled).1 == FrameAction::PrepareAndQueryCaps
        }),
    decreases n,
{
    reveal_with_fuel(run, 2);
    let es = seq![FrameEvent::RedrawRequested] + pending_events(n);
    assert(es[0] == FrameEvent::RedrawRequested);
    assert(es.drop_first() =~= pending_events(n));
    let s1 = step_spec(s, FrameEvent::RedrawRequested).0;
    lemma_polls_while_pending(s1, n);
}

/// An acquire failure is a soft exit: the frame is abandoned before any
/// recording, submission or presentation, no object is destroyed, and
/// the orchestrator returns to idle with the reconfigure flag set and
/// no submission outstanding. The next clean frame therefore applies
/// exactly one configuration and is never asked to wait on the fence —
/// nothing was submitted that could signal it.
pub proof fn lemma_acquire_failure_recovery(
    s: Orchestrator,
    caps1: SurfaceCaps,
    caps2: SurfaceCaps,
)
    requires
        s.phase is Idle,
        !s.torn_down,
    ensures
        ({
            let cfg = derived_config(caps1, s.format, s.surface_extent);
            let r1 = run(s, failed_acquire_frame_events(s.work_in_flight, caps1));
            let r2 = run(r1.0, successful_frame_events(false, caps2));
            &&& accepts_trace(s, failed_acquire_frame_events(s.work_in_flight, caps1))
            &&& r1.0 == (Orchestrator {
                phase: Phase::Idle,
                surface_extent: cfg.extent,
                should_configure_swapchain: true,
                work_in_flight: false,
                ..s
            })
            &&& r1.1 =~= (if s.work_in_flight {
                seq![FrameAction::PollFence { timeout_ns: FENCE_TIMEOUT_NS }]
            } else {
                Seq::<FrameAction>::empty()
            }) + seq![
                FrameAction::PrepareAndQueryCaps,
                FrameAction::AcquireImage {
                    configure: if s.should_configure_swapchain {
                        Some(cfg)
                    } else {
                        None
                    },
                    timeout_ns: ACQUIRE_TIMEOUT_NS,
                },
                FrameAction::AbandonFrame,
            ]
            &&& accepts_trace(r1.0, successful_frame_events(false, caps2))
            &&& configure_count(r2.1) == 1
            &&& forall|i: int| 0 <= i < r2.1.len() ==> !(r2.1[i] is PollFence)
        }),
{
    reveal_with_fuel(run, 6);
    reveal_with_fuel(accepts_trace, 6);
    let es = failed_acquire_frame_events(s.work_in_flight, caps1);
    let tail = seq![FrameEvent::CapsReported { caps: caps1 }, FrameEvent::AcquireFailed];
    if s.work_in_flight {
        assert(es.drop_first() =~= seq![FrameEvent::FenceSignaled] + tail);
        assert(es.drop_first().drop_first() =~= tail);
    } else {
        assert(es.drop_first() =~= tail);
    }
    assert(tail.drop_first() =~= seq![FrameEvent::AcquireFailed]);
    assert(tail.drop_first().drop_first() =~= Seq::<FrameEvent>::empty());
    let r1 = run(s, es);
    lemma_successful_frame(r1.0, caps2);
    let cfg2 = derived_config(caps2, r1.0.format, r1.0.surface_extent);
    let r2 = run(r1.0, successful_frame_events(false, caps2));
    assert(r2.1 =~= successful_frame_actions(false, true, cfg2));
}

/// After a resize to a nonzero size, the next frame settles on an
/// extent of at least one pixel in each dimension, however the surface
/// clamps the request.
pub proof fn lemma_resize_then_render_extent(
    s: Orchestrator,
    width: u32,
    height: u32,
    caps: SurfaceCaps,
)
    requires
        s.phase is Idle,
        !s.torn_down,
        width >= 1,
        height >= 1,
        caps.wf(),
    ensures
        ({
            let r = run(
                s,
                seq![FrameEvent::Resized { width, height }] + successful_frame_events(
                    s.work_in_flight,
                    caps,
                ),
            );
            &&& r.0.surface_extent.width >= 1
            &&& r.0.surface_extent.height >= 1
            &&& r.0.phase is Idle
        }),
{
    reveal_with_fuel(run, 2);
    let es = seq![FrameEvent::Resized { width, height }] + successful_frame_events(
        s.work_in_flight,
        caps,
    );
    assert(es[0] == (FrameEvent::Resized { width, height }));
    assert(es.drop_first() =~= successful_frame_events(s.work_in_flight, caps));
    let s1 = step_spec(s, FrameEvent::Resized { width, height }).0;
    lemma_successful_frame(s1, caps);
}

/// A resize before any frame is applied in a single pass: the next
/// clean frame applies exactly one configuration, and that
/// configuration is derived from the resized extent.
pub proof fn lemma_resize_applied_in_one_pass(
    s: Orchestrator,
    width: u32,
    height: u32,
    caps: SurfaceCaps,
)
    requires
        s.phase is Idle,
        !s.torn_down,
    ensures
        ({
            let s1 = step_spec(s, FrameEvent::Resized { width, height }).0;
            let cfg = derived_config(caps, s.format, Extent2d { width, height });
            let r = run(s1, successful_frame_events(s.work_in_flight, caps));
            let acquire_at: int = if s.work_in_flight {
                2int
            } else {
                1int
            };
            &&& configure_count(r.1) == 1
            &&& r.1[acquire_at] == (FrameAction::AcquireImage {
                configure: Some(cfg),
                timeout_ns: ACQUIRE_TIMEOUT_NS,
            })
            &&& !r.0.should_configure_swapchain
        }),
{
    let s1 = step_spec(s, FrameEvent::Resized { width, height }).0;
    lemma_successful_frame(s1, caps);
}

} // verus!
