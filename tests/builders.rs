use fxaa_render::bindings::{fxaa_pipeline_layout, static_layout, volatile_layout};
use fxaa_render::builders::{
    ColorStateDescBuilder, RenderPipelineDescBuilder, SwapChainDescBuilder, VertexStateDescBuilder,
};
use fxaa_render::pipeline::{create_render_pipeline, ConfigurationError, PipelineCreationError};
use fxaa_render::types::{
    BlendDescriptor, BlendFactor, BlendOperation, CullMode, FrontFace, IndexFormat, PresentMode,
    PrimitiveTopology, ProgrammableStage, RasterizationState, ShaderModuleId, TextureFormat,
    COLOR_WRITE_ALL, TEXTURE_USAGE_OUTPUT_ATTACHMENT,
};

fn stage(module: u64) -> ProgrammableStage {
    ProgrammableStage { module: ShaderModuleId(module), entry_point: "main".to_string() }
}

fn additive() -> BlendDescriptor {
    BlendDescriptor {
        src_factor: BlendFactor::SrcAlpha,
        dst_factor: BlendFactor::One,
        operation: BlendOperation::Add,
    }
}

#[test]
fn swap_chain_defaults() {
    let d = SwapChainDescBuilder::new(800, 600, TEXTURE_USAGE_OUTPUT_ATTACHMENT).build();
    assert_eq!(d.width, 800);
    assert_eq!(d.height, 600);
    assert_eq!(d.usage, TEXTURE_USAGE_OUTPUT_ATTACHMENT);
    assert_eq!(d.format, TextureFormat::Bgra8UnormSrgb);
    assert_eq!(d.present_mode, PresentMode::Mailbox);
}

#[test]
fn color_state_defaults_replace_all_channels() {
    let d = ColorStateDescBuilder::new(TextureFormat::Rgba8Unorm).build();
    assert_eq!(d.format, TextureFormat::Rgba8Unorm);
    assert_eq!(d.color_blend, BlendDescriptor::replace());
    assert_eq!(d.alpha_blend, BlendDescriptor::replace());
    assert_eq!(d.write_mask, COLOR_WRITE_ALL);
    assert_eq!(
        BlendDescriptor::replace(),
        BlendDescriptor {
            src_factor: BlendFactor::One,
            dst_factor: BlendFactor::Zero,
            operation: BlendOperation::Add,
        }
    );
}

#[test]
fn color_state_setters_override_one_field() {
    let mut b = ColorStateDescBuilder::new(TextureFormat::Rgba8Unorm);
    b.format(TextureFormat::Bgra8Unorm);
    let d = b.color_blend(additive()).build();
    assert_eq!(d.format, TextureFormat::Bgra8Unorm);
    assert_eq!(d.color_blend, additive());
    assert_eq!(d.alpha_blend, BlendDescriptor::replace());
    let e = ColorStateDescBuilder::new(TextureFormat::Rgba8Unorm).alpha_blend(additive()).build();
    assert_eq!(e.alpha_blend, additive());
    assert_eq!(e.color_blend, BlendDescriptor::replace());
}

#[test]
fn color_state_setter_order_does_not_matter() {
    let a = ColorStateDescBuilder::new(TextureFormat::R8Unorm)
        .color_blend(additive())
        .alpha_blend(additive())
        .build();
    let b = ColorStateDescBuilder::new(TextureFormat::R8Unorm)
        .alpha_blend(additive())
        .color_blend(additive())
        .build();
    assert_eq!(a, b);
}

#[test]
fn vertex_state_defaults() {
    let d = VertexStateDescBuilder::default().build();
    assert_eq!(d.index_format, IndexFormat::Uint16);
    assert!(d.vertex_buffers.is_empty());
}

#[test]
fn pipeline_defaults() {
    let layout = fxaa_pipeline_layout(volatile_layout(), static_layout());
    let d = RenderPipelineDescBuilder::new(layout.clone(), stage(1)).build();
    assert_eq!(d.layout, layout);
    assert_eq!(d.vertex_stage, stage(1));
    assert_eq!(d.fragment_stage, None);
    assert_eq!(d.rasterization_state, None);
    assert_eq!(d.primitive_topology, PrimitiveTopology::TriangleList);
    assert!(d.color_states.is_empty());
    assert_eq!(d.vertex_state.index_format, IndexFormat::Uint16);
    assert!(d.vertex_state.vertex_buffers.is_empty());
    assert_eq!(d.sample_count, 1);
    assert_eq!(d.sample_mask, u32::MAX);
    assert!(!d.alpha_to_coverage_enabled);
}

fn configured() -> fxaa_render::builders::RenderPipelineDesc {
    let layout = fxaa_pipeline_layout(volatile_layout(), static_layout());
    RenderPipelineDescBuilder::new(layout, stage(1))
        .fragment_stage(stage(2))
        .color_states(vec![ColorStateDescBuilder::new(TextureFormat::Bgra8UnormSrgb).build()])
        .rasterization_state(RasterizationState { front_face: FrontFace::Cw, cull_mode: CullMode::Back })
        .primitive_topology(PrimitiveTopology::TriangleStrip)
        .sample_count(4)
        .sample_mask(0xf)
        .alpha_to_coverage_enabled(true)
        .build()
}

#[test]
fn pipeline_setters_override_their_fields() {
    let d = configured();
    assert_eq!(d.fragment_stage, Some(stage(2)));
    assert_eq!(d.color_states.len(), 1);
    assert_eq!(d.color_states[0].format, TextureFormat::Bgra8UnormSrgb);
    assert_eq!(
        d.rasterization_state,
        Some(RasterizationState { front_face: FrontFace::Cw, cull_mode: CullMode::Back })
    );
    assert_eq!(d.primitive_topology, PrimitiveTopology::TriangleStrip);
    assert_eq!(d.sample_count, 4);
    assert_eq!(d.sample_mask, 0xf);
    assert!(d.alpha_to_coverage_enabled);
}

#[test]
fn identical_setter_sequences_build_identical_descriptors() {
    assert_eq!(configured(), configured());
}

#[test]
fn later_setter_call_wins() {
    let layout = fxaa_pipeline_layout(volatile_layout(), static_layout());
    let d = RenderPipelineDescBuilder::new(layout, stage(1)).sample_count(4).sample_count(8).build();
    assert_eq!(d.sample_count, 8);
}

#[test]
fn fragment_stage_without_color_targets_is_a_configuration_error() {
    let layout = fxaa_pipeline_layout(volatile_layout(), static_layout());
    let d = RenderPipelineDescBuilder::new(layout, stage(1)).fragment_stage(stage(2)).build();
    match create_render_pipeline(d) {
        Err(e) => assert_eq!(
            e,
            PipelineCreationError::Configuration(ConfigurationError::FragmentStageWithoutColorTargets)
        ),
        Ok(_) => panic!("pipeline without color targets was created"),
    }
}

#[test]
fn complete_descriptor_creates_pipeline() {
    let d = configured();
    let p = create_render_pipeline(d.clone()).ok().unwrap();
    assert_eq!(p.desc(), &d);
}

#[test]
fn vertex_only_pipeline_needs_no_color_target() {
    let layout = fxaa_pipeline_layout(volatile_layout(), static_layout());
    let d = RenderPipelineDescBuilder::new(layout, stage(1)).build();
    assert!(create_render_pipeline(d).is_ok());
}
