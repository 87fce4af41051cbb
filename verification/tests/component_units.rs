//! Unit tests for the engine's components: format selection, device
//! planning, swapchain derivation, the frame program, the pipeline
//! description and the shutdown plan.

use frame_engine::commands::{frame_commands, ClearColor, FrameCommand};
use frame_engine::device::{plan_device_setup, select_queue_family, InitError, QueueFamilySupport};
use frame_engine::extent::{clamp_dim, clamp_extent, Extent2d};
use frame_engine::format::{select_color_format, FormatChoice};
use frame_engine::orchestrator::{FrameAction, FrameEvent, Orchestrator};
use frame_engine::pipeline::{
    pipeline_build_steps, pipeline_plan, render_pass_plan, BlendMode, BuildStep, CullMode,
    ImageLayout, LoadOp, PolygonFill, PrimitiveKind, StoreOp,
};
use frame_engine::swapchain::{derive_swapchain_config, SurfaceCaps};
use frame_engine::teardown::{destroy_plan, DestroyOp};

fn family(surface: bool, graphics: bool) -> QueueFamilySupport {
    QueueFamilySupport {
        supports_surface: surface,
        supports_graphics: graphics,
    }
}

#[test]
fn first_srgb_format_wins() {
    let srgb = vec![false, true, true];
    assert_eq!(
        select_color_format(&srgb),
        FormatChoice::Reported { index: 1 }
    );
}

#[test]
fn without_srgb_the_first_format_wins() {
    let srgb = vec![false, false, false];
    assert_eq!(
        select_color_format(&srgb),
        FormatChoice::Reported { index: 0 }
    );
}

#[test]
fn empty_format_list_falls_back_to_srgb() {
    let srgb: Vec<bool> = Vec::new();
    assert_eq!(select_color_format(&srgb), FormatChoice::FallbackSrgb);
}

#[test]
fn single_srgb_format_is_chosen() {
    let srgb = vec![true];
    assert_eq!(
        select_color_format(&srgb),
        FormatChoice::Reported { index: 0 }
    );
}

#[test]
fn queue_family_needs_both_capabilities() {
    let families = vec![family(true, false), family(false, true), family(true, true)];
    assert_eq!(select_queue_family(&families), Some(2));
    assert_eq!(select_queue_family(&vec![family(true, false)]), None);
    assert_eq!(select_queue_family(&Vec::new()), None);
}

#[test]
fn device_plan_takes_first_adapter_and_first_compatible_family() {
    let families = vec![family(false, true), family(true, true), family(true, true)];
    let plan = plan_device_setup(2, &families).unwrap();
    assert_eq!(plan.adapter_index, 0);
    assert_eq!(plan.queue_family_index, 1);
}

#[test]
fn device_plan_fails_without_adapters() {
    let families = vec![family(true, true)];
    assert_eq!(plan_device_setup(0, &families), Err(InitError::NoAdapter));
}

#[test]
fn device_plan_fails_without_compatible_family() {
    let families = vec![family(true, false), family(false, true)];
    assert_eq!(
        plan_device_setup(1, &families),
        Err(InitError::NoCompatibleQueueFamily)
    );
}

fn caps(
    min_count: u32,
    max_count: u32,
    current: Option<Extent2d>,
    min_e: (u32, u32),
    max_e: (u32, u32),
) -> SurfaceCaps {
    SurfaceCaps {
        min_image_count: min_count,
        max_image_count: max_count,
        current_extent: current,
        min_extent: Extent2d {
            width: min_e.0,
            height: min_e.1,
        },
        max_extent: Extent2d {
            width: max_e.0,
            height: max_e.1,
        },
    }
}

#[test]
fn swapchain_prefers_three_images_when_supported() {
    let c = caps(2, 8, None, (1, 1), (4096, 4096));
    let cfg = derive_swapchain_config(c, FormatChoice::FallbackSrgb, Extent2d { width: 100, height: 100 });
    assert_eq!(cfg.image_count, 3);
}

#[test]
fn swapchain_image_count_clamped_to_supported_range() {
    let low = caps(1, 2, None, (1, 1), (4096, 4096));
    let cfg = derive_swapchain_config(low, FormatChoice::FallbackSrgb, Extent2d { width: 100, height: 100 });
    assert_eq!(cfg.image_count, 2);

    let high = caps(4, 6, None, (1, 1), (4096, 4096));
    let cfg = derive_swapchain_config(high, FormatChoice::FallbackSrgb, Extent2d { width: 100, height: 100 });
    assert_eq!(cfg.image_count, 4);
}

#[test]
fn swapchain_takes_pinned_current_extent() {
    let c = caps(
        2,
        8,
        Some(Extent2d {
            width: 333,
            height: 444,
        }),
        (1, 1),
        (4096, 4096),
    );
    let cfg = derive_swapchain_config(c, FormatChoice::FallbackSrgb, Extent2d { width: 100, height: 100 });
    assert_eq!(
        cfg.extent,
        Extent2d {
            width: 333,
            height: 444
        }
    );
}

#[test]
fn swapchain_clamps_requested_extent() {
    let c = caps(2, 8, None, (32, 32), (640, 480));
    let small = derive_swapchain_config(c, FormatChoice::FallbackSrgb, Extent2d { width: 1, height: 2000 });
    assert_eq!(
        small.extent,
        Extent2d {
            width: 32,
            height: 480
        }
    );
    let inside = derive_swapchain_config(c, FormatChoice::FallbackSrgb, Extent2d { width: 100, height: 200 });
    assert_eq!(
        inside.extent,
        Extent2d {
            width: 100,
            height: 200
        }
    );
}

#[test]
fn swapchain_keeps_chosen_format() {
    let c = caps(2, 8, None, (1, 1), (4096, 4096));
    let cfg = derive_swapchain_config(c, FormatChoice::Reported { index: 4 }, Extent2d { width: 10, height: 10 });
    assert_eq!(cfg.format, FormatChoice::Reported { index: 4 });
}

#[test]
fn frame_program_is_the_fixed_triangle_pass() {
    let extent = Extent2d {
        width: 800,
        height: 600,
    };
    let cmds = frame_commands(extent);
    assert_eq!(
        cmds,
        vec![
            FrameCommand::BeginOneTimeSubmit,
            FrameCommand::SetViewport { extent },
            FrameCommand::SetScissor { extent },
            FrameCommand::BeginRenderPass {
                clear: ClearColor {
                    red: 0,
                    green: 0,
                    blue: 0,
                    alpha: 255
                }
            },
            FrameCommand::BindPipeline,
            FrameCommand::Draw {
                vertex_count: 3,
                instance_count: 1
            },
            FrameCommand::EndRenderPass,
            FrameCommand::Finish,
        ]
    );
}

#[test]
fn render_pass_is_clear_store_present() {
    let plan = render_pass_plan();
    assert_eq!(plan.samples, 1);
    assert_eq!(plan.load_op, LoadOp::Clear);
    assert_eq!(plan.store_op, StoreOp::Store);
    assert_eq!(plan.stencil_load_op, LoadOp::DontCare);
    assert_eq!(plan.stencil_store_op, StoreOp::DontCare);
    assert_eq!(plan.initial_layout, ImageLayout::Undefined);
    assert_eq!(plan.subpass_layout, ImageLayout::ColorAttachmentOptimal);
    assert_eq!(plan.final_layout, ImageLayout::Present);
}

#[test]
fn pipeline_is_back_culled_alpha_blended_triangle_list() {
    let plan = pipeline_plan();
    assert_eq!(plan.vertex_buffer_count, 0);
    assert_eq!(plan.vertex_attribute_count, 0);
    assert_eq!(plan.primitive, PrimitiveKind::TriangleList);
    assert_eq!(plan.cull_mode, CullMode::Back);
    assert_eq!(plan.fill, PolygonFill::Solid);
    assert_eq!(plan.blend, BlendMode::Alpha);
    assert!(plan.full_color_mask);
    assert_eq!(plan.subpass_index, 0);
    assert_eq!(plan.shader_entry, "main");
}

#[test]
fn shader_modules_live_only_for_the_compile() {
    assert_eq!(
        pipeline_build_steps(),
        vec![
            BuildStep::CreateVertexModule,
            BuildStep::CreateFragmentModule,
            BuildStep::CompilePipeline,
            BuildStep::DestroyVertexModule,
            BuildStep::DestroyFragmentModule,
        ]
    );
}

#[test]
fn destroy_plan_matches_the_safe_order() {
    assert_eq!(
        destroy_plan(),
        vec![
            DestroyOp::DestroySemaphore,
            DestroyOp::DestroyFence,
            DestroyOp::DestroyPipeline,
            DestroyOp::DestroyPipelineLayout,
            DestroyOp::DestroyRenderPass,
            DestroyOp::DestroyCommandPool,
            DestroyOp::UnconfigureSwapchain,
            DestroyOp::DestroySurface,
            DestroyOp::DestroyInstance,
        ]
    );
}

#[test]
fn clamp_bounds_values() {
    assert_eq!(clamp_dim(5, 10, 20), 10);
    assert_eq!(clamp_dim(25, 10, 20), 20);
    assert_eq!(clamp_dim(15, 10, 20), 15);
    let r = clamp_extent(
        Extent2d {
            width: 0,
            height: 9999,
        },
        Extent2d { width: 1, height: 1 },
        Extent2d {
            width: 640,
            height: 480,
        },
    );
    assert_eq!(
        r,
        Extent2d {
            width: 1,
            height: 480
        }
    );
}

#[test]
fn construction_marks_swapchain_for_first_configure() {
    let o = Orchestrator::new(512, 512, FormatChoice::FallbackSrgb);
    assert!(o.should_configure_swapchain);
    assert!(!o.torn_down);
    assert!(!o.work_in_flight);
    assert_eq!(
        o.surface_extent,
        Extent2d {
            width: 512,
            height: 512
        }
    );
}

#[test]
fn update_dimensions_sets_extent_and_flag() {
    let mut o = Orchestrator::new(512, 512, FormatChoice::FallbackSrgb);
    let mut log = Vec::new();
    let caps_val = caps(2, 8, None, (1, 1), (4096, 4096));
    // consume the startup flag first
    drive_once(&mut o, caps_val, &mut log);
    assert!(!o.should_configure_swapchain);
    o.update_dimensions(1024, 768);
    assert!(o.should_configure_swapchain);
    assert_eq!(
        o.surface_extent,
        Extent2d {
            width: 1024,
            height: 768
        }
    );
}

fn drive_once(o: &mut Orchestrator, c: SurfaceCaps, log: &mut Vec<FrameAction>) {
    let mut action = o.step(FrameEvent::RedrawRequested);
    log.push(action);
    loop {
        let event = match action {
            FrameAction::PollFence { .. } => FrameEvent::FenceSignaled,
            FrameAction::PrepareAndQueryCaps => FrameEvent::CapsReported { caps: c },
            FrameAction::AcquireImage { .. } => FrameEvent::ImageAcquired,
            FrameAction::RecordAndSubmit { .. } => FrameEvent::SubmitDone,
            FrameAction::PresentImage => FrameEvent::PresentOk,
            FrameAction::DestroyFrameBuffer => FrameEvent::FrameCleaned,
            _ => return,
        };
        action = o.step(event);
        log.push(action);
    }
}
