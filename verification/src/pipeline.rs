//! The immutable render-pass and pipeline description.
//!
//! Both are built once at startup from two compiled shader binaries and
//! never change. The values here are the fixed configuration the driver
//! hands to the graphics API, and the order of the build steps: shader
//! modules are build-time inputs only and are destroyed as soon as the
//! pipeline is compiled.

use vstd::prelude::*;

verus! {

/// The sample count of the single color attachment.
pub const COLOR_SAMPLE_COUNT: u8 = 1;

/// The subpass the pipeline is compiled against.
pub const PIPELINE_SUBPASS_INDEX: u8 = 0;

/// What happens to the color attachment when the render pass begins.
#[derive(Clone, Copy, Debug, PartialEq, Eq, Structural)]
pub enum LoadOp {
    Clear,
    Keep,
    DontCare,
}

/// What happens to the color attachment when the render pass ends.
#[derive(Clone, Copy, Debug, PartialEq, Eq, Structural)]
pub enum StoreOp {
    Store,
    DontCare,
}

/// An image layout the attachment transitions between.
#[derive(Clone, Copy, Debug, PartialEq, Eq, Structural)]
pub enum ImageLayout {
    Undefined,
    ColorAttachmentOptimal,
    Present,
}

/// The render-pass description: one color attachment, no depth or
/// stencil.
#[derive(Clone, Copy, Debug, PartialEq, Eq, Structural)]
pub struct RenderPassPlan {
    pub samples: u8,
    pub load_op: LoadOp,
    pub store_op: StoreOp,
    pub stencil_load_op: LoadOp,
    pub stencil_store_op: StoreOp,
    pub initial_layout: ImageLayout,
    pub subpass_layout: ImageLayout,
    pub final_layout: ImageLayout,
}

/// The render pass the engine always uses: one color attachment at one
/// sample, cleared on load and kept on store, stencil ignored, moving
/// the image from an undefined layout to a presentable one.
pub open spec fn render_pass_spec() -> RenderPassPlan {
    RenderPassPlan {
        samples: COLOR_SAMPLE_COUNT,
        load_op: LoadOp::Clear,
        store_op: StoreOp::Store,
        stencil_load_op: LoadOp::DontCare,
        stencil_store_op: StoreOp::DontCare,
        initial_layout: ImageLayout::Undefined,
        subpass_layout: ImageLayout::ColorAttachmentOptimal,
        final_layout: ImageLayout::Present,
    }
}

/// Builds the render-pass description.
pub fn render_pass_plan() -> (plan: RenderPassPlan)
    ensures
        plan == render_pass_spec(),
{
    RenderPassPlan {
        samples: COLOR_SAMPLE_COUNT,
        load_op: LoadOp::Clear,
        store_op: StoreOp::Store,
        stencil_load_op: LoadOp::DontCare,
        stencil_store_op: StoreOp::DontCare,
        initial_layout: ImageLayout::Undefined,
        subpass_layout: ImageLayout::ColorAttachmentOptimal,
        final_layout: ImageLayout::Present,
    }
}

/// How assembled primitives are interpreted.
#[derive(Clone, Copy, Debug, PartialEq, Eq, Structural)]
pub enum PrimitiveKind {
    TriangleList,
    TriangleStrip,
    LineList,
    PointList,
}

/// Which faces the rasterizer culls.
#[derive(Clone, Copy, Debug, PartialEq, Eq, Structural)]
pub enum CullMode {
    NoCulling,
    Front,
    Back,
}

/// How polygons are filled.
#[derive(Clone, Copy, Debug, PartialEq, Eq, Structural)]
pub enum PolygonFill {
    Solid,
    Lines,
    Points,
}

/// How the single color target is blended.
#[derive(Clone, Copy, Debug, PartialEq, Eq, Structural)]
pub enum BlendMode {
    Alpha,
    Replace,
    Add,
}

/// The graphics-pipeline description built from the two shader
/// binaries.
#[derive(Clone, Copy, Debug, PartialEq, Eq)]
pub struct PipelinePlan {
    /// No vertex buffers are bound: geometry is generated by the vertex
    /// shader.
    pub vertex_buffer_count: u8,
    /// No vertex attributes are declared.
    pub vertex_attribute_count: u8,
    pub primitive: PrimitiveKind,
    pub cull_mode: CullMode,
    pub fill: PolygonFill,
    pub blend: BlendMode,
    /// The blend writes every channel of the color mask.
    pub full_color_mask: bool,
    pub subpass_index: u8,
    /// The name both stage entry points are declared under.
    pub shader_entry: &'static str,
}

/// The pipeline the engine always builds: a triangle-list assembler
/// with no vertex input, back-face culling with solid fill, one
/// alpha-blended color target over the full color mask, and both stage
/// entry points declared `main`, against the render pass's single
/// subpass.
pub open spec fn pipeline_spec() -> PipelinePlan {
    PipelinePlan {
        vertex_buffer_count: 0,
        vertex_attribute_count: 0,
        primitive: PrimitiveKind::TriangleList,
        cull_mode: CullMode::Back,
        fill: PolygonFill::Solid,
        blend: BlendMode::Alpha,
        full_color_mask: true,
        subpass_index: PIPELINE_SUBPASS_INDEX,
        shader_entry: "main",
    }
}

/// Builds the graphics-pipeline description.
pub fn pipeline_plan() -> (plan: PipelinePlan)
    ensures
        plan == pipeline_spec(),
        plan.shader_entry@ == "main"@,
{
    let plan = PipelinePlan {
        vertex_buffer_count: 0,
        vertex_attribute_count: 0,
        primitive: PrimitiveKind::TriangleList,
        cull_mode: CullMode::Back,
        fill: PolygonFill::Solid,
        blend: BlendMode::Alpha,
        full_color_mask: true,
        subpass_index: PIPELINE_SUBPASS_INDEX,
        shader_entry: "main",
    };
    plan
}

/// One step of building the pipeline from shader binaries.
#[derive(Clone, Copy, Debug, PartialEq, Eq, Structural)]
pub enum BuildStep {
    CreateVertexModule,
    CreateFragmentModule,
    CompilePipeline,
    DestroyVertexModule,
    DestroyFragmentModule,
}

/// The order pipeline construction follows: both shader modules exist
/// while the pipeline compiles and are destroyed immediately afterward.
pub open spec fn build_step_seq() -> Seq<BuildStep> {
    seq![
        BuildStep::CreateVertexModule,
        BuildStep::CreateFragmentModule,
        BuildStep::CompilePipeline,
        BuildStep::DestroyVertexModule,
        BuildStep::DestroyFragmentModule,
    ]
}

/// Plans the pipeline build: the returned steps wrap each binary in a
/// shader module, compile the pipeline, and destroy the modules again,
/// in that order.
pub fn pipeline_build_steps() -> (steps: Vec<BuildStep>)
    ensures
        steps@ == build_step_seq(),
{
    let mut steps: Vec<BuildStep> = Vec::new();
    steps.push(BuildStep::CreateVertexModule);
    steps.push(BuildStep::CreateFragmentModule);
    steps.push(BuildStep::CompilePipeline);
    steps.push(BuildStep::DestroyVertexModule);
    steps.push(BuildStep::DestroyFragmentModule);
    proof {
        assert(steps@ =~= build_step_seq());
    }
    steps
}

} // verus!
