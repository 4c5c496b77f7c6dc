//! Builders that assemble complete, immutable descriptors from defaults and
//! chained setters. They touch no device; a descriptor is checked only when a
//! pipeline is created from it.
use vstd::prelude::*;
use crate::bindings::{BindingLayoutEntry, PipelineLayout};
use crate::types::{
    blend_replace, stage_view, BlendDescriptor, IndexFormat, PresentMode, PrimitiveTopology,
    ProgrammableStage, RasterizationState, StageView, TextureFormat, VertexBufferLayout,
    VertexBufferView, COLOR_WRITE_ALL,
};

verus! {

/// A presentation surface's configuration.
#[derive(Clone, Copy, Debug, PartialEq, Eq, Structural)]
pub struct SwapChainDesc {
    /// Mask of `TEXTURE_USAGE_*` bits.
    pub usage: u32,
    pub format: TextureFormat,
    pub width: u32,
    pub height: u32,
    pub present_mode: PresentMode,
}

pub struct SwapChainDescBuilder {
    desc: SwapChainDesc,
}

impl View for SwapChainDescBuilder {
    type V = SwapChainDesc;

    /// The descriptor that `build` yields.
    closed spec fn view(&self) -> SwapChainDesc {
        self.desc
    }
}

impl SwapChainDescBuilder {
    /// A surface of `width` by `height` with the given usage, in 8-bit BGRA
    /// sRGB, presented in mailbox mode.
    pub fn new(width: u32, height: u32, usage: u32) -> (r: SwapChainDescBuilder)
        ensures
            r@ == (SwapChainDesc {
                usage,
                format: TextureFormat::Bgra8UnormSrgb,
                width,
                height,
                present_mode: PresentMode::Mailbox,
            }),
    {
        SwapChainDescBuilder {
            desc: SwapChainDesc {
                usage,
                format: TextureFormat::Bgra8UnormSrgb,
                width,
                height,
                present_mode: PresentMode::Mailbox,
            },
        }
    }

    pub fn build(self) -> (r: SwapChainDesc)
        ensures
            r == self@,
    {
        self.desc
    }
}

/// Output format, blending and write mask of one color target.
#[derive(Clone, Copy, Debug, PartialEq, Eq, Structural)]
pub struct ColorStateDesc {
    pub format: TextureFormat,
    pub color_blend: BlendDescriptor,
    pub alpha_blend: BlendDescriptor,
    /// Mask of `COLOR_WRITE_*` bits.
    pub write_mask: u32,
}

/// One setter call on a `ColorStateDescBuilder`.
pub enum ColorStateSetting {
    Format(TextureFormat),
    ColorBlend(BlendDescriptor),
    AlphaBlend(BlendDescriptor),
}

/// The field that a setting overrides.
pub open spec fn color_setting_field(s: ColorStateSetting) -> nat {
    match s {
        ColorStateSetting::Format(_) => 0,
        ColorStateSetting::ColorBlend(_) => 1,
        ColorStateSetting::AlphaBlend(_) => 2,
    }
}

/// `d` with the one field that `s` names overridden.
pub open spec fn with_color_setting(d: ColorStateDesc, s: ColorStateSetting) -> ColorStateDesc {
    match s {
        ColorStateSetting::Format(f) => ColorStateDesc { format: f, ..d },
        ColorStateSetting::ColorBlend(b) => ColorStateDesc { color_blend: b, ..d },
        ColorStateSetting::AlphaBlend(b) => ColorStateDesc { alpha_blend: b, ..d },
    }
}

/// `d` after the settings in `ops`, first to last.
pub open spec fn with_color_settings(d: ColorStateDesc, ops: Seq<ColorStateSetting>) -> ColorStateDesc
    decreases ops.len(),
{
    if ops.len() == 0 {
        d
    } else {
        with_color_settings(with_color_setting(d, ops[0]), ops.drop_first())
    }
}

/// The color state that a fresh builder describes: replacing blends and
/// every channel written.
pub open spec fn default_color_state(format: TextureFormat) -> ColorStateDesc {
    ColorStateDesc {
        format,
        color_blend: blend_replace(),
        alpha_blend: blend_replace(),
        write_mask: COLOR_WRITE_ALL,
    }
}

pub struct ColorStateDescBuilder {
    desc: ColorStateDesc,
}

impl View for ColorStateDescBuilder {
    type V = ColorStateDesc;

    /// The descriptor that `build` yields.
    closed spec fn view(&self) -> ColorStateDesc {
        self.desc
    }
}

impl ColorStateDescBuilder {
    pub fn new(format: TextureFormat) -> (r: Self)
        ensures
            r@ == default_color_state(format),
    {
        Self {
            desc: ColorStateDesc {
                format,
                color_blend: BlendDescriptor::replace(),
                alpha_blend: BlendDescriptor::replace(),
                write_mask: COLOR_WRITE_ALL,
            },
        }
    }

    pub fn format(&mut self, format: TextureFormat) -> (r: &mut Self)
        ensures
            r@ == with_color_setting(old(self)@, ColorStateSetting::Format(format)),
            final(self)@ == final(r)@,
    {
        self.desc.format = format;
        self
    }

    pub fn color_blend(self, color_blend: BlendDescriptor) -> (r: Self)
        ensures
            r@ == with_color_setting(self@, ColorStateSetting::ColorBlend(color_blend)),
    {
        let mut b = self;
        b.desc.color_blend = color_blend;
        b
    }

    pub fn alpha_blend(self, alpha_blend: BlendDescriptor) -> (r: Self)
        ensures
            r@ == with_color_setting(self@, ColorStateSetting::AlphaBlend(alpha_blend)),
    {
        let mut b = self;
        b.desc.alpha_blend = alpha_blend;
        b
    }

    pub fn build(self) -> (r: ColorStateDesc)
        ensures
            r == self@,
    {
        self.desc
    }
}

/// Index format and vertex buffer layouts of a pipeline.
#[derive(Clone, Debug, PartialEq, Eq)]
pub struct VertexStateDesc {
    pub index_format: IndexFormat,
    pub vertex_buffers: Vec<VertexBufferLayout>,
}

pub struct VertexStateView {
    pub index_format: IndexFormat,
    pub vertex_buffers: Seq<VertexBufferView>,
}

impl View for VertexStateDesc {
    type V = VertexStateView;

    open spec fn view(&self) -> VertexStateView {
        VertexStateView {
            index_format: self.index_format,
            vertex_buffers: self.vertex_buffers@.map_values(|b: VertexBufferLayout| b@),
        }
    }
}

pub struct VertexStateDescBuilder {
    desc: VertexStateDesc,
}

impl View for VertexStateDescBuilder {
    type V = VertexStateView;

    /// The descriptor that `build` yields.
    closed spec fn view(&self) -> VertexStateView {
        self.desc@
    }
}

/// 16-bit indices and no vertex buffers: vertices come from the vertex stage.
pub open spec fn default_vertex_state() -> VertexStateView {
    VertexStateView { index_format: IndexFormat::Uint16, vertex_buffers: Seq::empty() }
}

impl VertexStateDescBuilder {
    pub fn default() -> (r: Self)
        ensures
            r@ == default_vertex_state(),
    {
        let r = Self {
            desc: VertexStateDesc { index_format: IndexFormat::Uint16, vertex_buffers: Vec::new() },
        };
        assert(r@.vertex_buffers =~= Seq::empty());
        r
    }

    pub fn build(self) -> (r: VertexStateDesc)
        ensures
            r@ == self@,
    {
        self.desc
    }
}

/// Everything a render pipeline is created from. A pipeline has no depth or
/// stencil state.
#[derive(Clone, Debug, PartialEq, Eq)]
pub struct RenderPipelineDesc {
    pub layout: PipelineLayout,
    pub vertex_stage: ProgrammableStage,
    pub fragment_stage: Option<ProgrammableStage>,
    pub rasterization_state: Option<RasterizationState>,
    pub primitive_topology: PrimitiveTopology,
    pub color_states: Vec<ColorStateDesc>,
    pub vertex_state: VertexStateDesc,
    pub sample_count: u32,
    pub sample_mask: u32,
    pub alpha_to_coverage_enabled: bool,
}

pub struct PipelineView {
    pub layout: Seq<Seq<BindingLayoutEntry>>,
    pub vertex_stage: StageView,
    pub fragment_stage: Option<StageView>,
    pub rasterization_state: Option<RasterizationState>,
    pub primitive_topology: PrimitiveTopology,
    pub color_states: Seq<ColorStateDesc>,
    pub vertex_state: VertexStateView,
    pub sample_count: u32,
    pub sample_mask: u32,
    pub alpha_to_coverage_enabled: bool,
}

impl View for RenderPipelineDesc {
    type V = PipelineView;

    open spec fn view(&self) -> PipelineView {
        PipelineView {
            layout: self.layout@,
            vertex_stage: self.vertex_stage@,
            fragment_stage: stage_view(self.fragment_stage),
            rasterization_state: self.rasterization_state,
            primitive_topology: self.primitive_topology,
            color_states: self.color_states@,
            vertex_state: self.vertex_state@,
            sample_count: self.sample_count,
            sample_mask: self.sample_mask,
            alpha_to_coverage_enabled: self.alpha_to_coverage_enabled,
        }
    }
}

/// One setter call on a `RenderPipelineDescBuilder`.
pub enum PipelineSetting {
    ColorStates(Seq<ColorStateDesc>),
    FragmentStage(StageView),
    RasterizationState(RasterizationState),
    PrimitiveTopology(PrimitiveTopology),
    SampleCount(u32),
    SampleMask(u32),
    AlphaToCoverage(bool),
}

/// The field that a setting overrides.
pub open spec fn pipeline_setting_field(s: PipelineSetting) -> nat {
    match s {
        PipelineSetting::ColorStates(_) => 0,
        PipelineSetting::FragmentStage(_) => 1,
        PipelineSetting::RasterizationState(_) => 2,
        PipelineSetting::PrimitiveTopology(_) => 3,
        PipelineSetting::SampleCount(_) => 4,
        PipelineSetting::SampleMask(_) => 5,
        PipelineSetting::AlphaToCoverage(_) => 6,
    }
}

/// `d` with the one field that `s` names overridden.
pub open spec fn with_pipeline_setting(d: PipelineView, s: PipelineSetting) -> PipelineView {
    match s {
        PipelineSetting::ColorStates(c) => PipelineView { color_states: c, ..d },
        PipelineSetting::FragmentStage(f) => PipelineView { fragment_stage: Some(f), ..d },
        PipelineSetting::RasterizationState(r) => PipelineView {
            rasterization_state: Some(r),
            ..d
        },
        PipelineSetting::PrimitiveTopology(t) => PipelineView { primitive_topology: t, ..d },
        PipelineSetting::SampleCount(n) => PipelineView { sample_count: n, ..d },
        PipelineSetting::SampleMask(m) => PipelineView { sample_mask: m, ..d },
        PipelineSetting::AlphaToCoverage(a) => PipelineView { alpha_to_coverage_enabled: a, ..d },
    }
}

/// `d` after the settings in `ops`, first to last.
pub open spec fn with_pipeline_settings(d: PipelineView, ops: Seq<PipelineSetting>) -> PipelineView
    decreases ops.len(),
{
    if ops.len() == 0 {
        d
    } else {
        with_pipeline_settings(with_pipeline_setting(d, ops[0]), ops.drop_first())
    }
}

/// The pipeline that a fresh builder describes: no fragment stage, no color
/// targets, triangle lists, 16-bit indices without vertex buffers, default
/// rasterization, one sample with every sample bit set, no alpha to coverage.
pub open spec fn default_pipeline(layout: Seq<Seq<BindingLayoutEntry>>, vertex_stage: StageView) -> PipelineView {
    PipelineView {
        layout,
        vertex_stage,
        fragment_stage: None,
        rasterization_state: None,
        primitive_topology: PrimitiveTopology::TriangleList,
        color_states: Seq::empty(),
        vertex_state: default_vertex_state(),
        sample_count: 1,
        sample_mask: 0xffff_ffff,
        alpha_to_coverage_enabled: false,
    }
}

pub struct RenderPipelineDescBuilder {
    desc: RenderPipelineDesc,
}

impl View for RenderPipelineDescBuilder {
    type V = PipelineView;

    /// The descriptor that `build` yields.
    closed spec fn view(&self) -> PipelineView {
        self.desc@
    }
}

impl RenderPipelineDescBuilder {
    pub fn new(layout: PipelineLayout, vertex_stage: ProgrammableStage) -> (r: Self)
        ensures
            r@ == default_pipeline(layout@, vertex_stage@),
    {
        let vertex_state = VertexStateDescBuilder::default().build();
        let r = Self {
            desc: RenderPipelineDesc {
                layout,
                vertex_stage,
                fragment_stage: None,
                rasterization_state: None,
                primitive_topology: PrimitiveTopology::TriangleList,
                color_states: Vec::new(),
                vertex_state,
                sample_count: 1,
                sample_mask: 0xffff_ffff,
                alpha_to_coverage_enabled: false,
            },
        };
        assert(r@.color_states =~= Seq::empty());
        r
    }

    pub fn color_states(self, color_states: Vec<ColorStateDesc>) -> (r: Self)
        ensures
            r@ == with_pipeline_setting(self@, PipelineSetting::ColorStates(color_states@)),
    {
        let mut b = self;
        b.desc.color_states = color_states;
        b
    }

    pub fn fragment_stage(self, fragment_stage: ProgrammableStage) -> (r: Self)
        ensures
            r@ == with_pipeline_setting(self@, PipelineSetting::FragmentStage(fragment_stage@)),
    {
        let mut b = self;
        b.desc.fragment_stage = Some(fragment_stage);
        b
    }

    pub fn rasterization_state(self, rasterization_state: RasterizationState) -> (r: Self)
        ensures
            r@ == with_pipeline_setting(
                self@,
                PipelineSetting::RasterizationState(rasterization_state),
            ),
    {
        let mut b = self;
        b.desc.rasterization_state = Some(rasterization_state);
        b
    }

    pub fn primitive_topology(self, primitive_topology: PrimitiveTopology) -> (r: Self)
        ensures
            r@ == with_pipeline_setting(self@, PipelineSetting::PrimitiveTopology(primitive_topology)),
    {
        let mut b = self;
        b.desc.primitive_topology = primitive_topology;
        b
    }

    pub fn sample_count(self, sample_count: u32) -> (r: Self)
        ensures
            r@ == with_pipeline_setting(self@, PipelineSetting::SampleCount(sample_count)),
    {
        let mut b = self;
        b.desc.sample_count = sample_count;
        b
    }

    pub fn sample_mask(self, sample_mask: u32) -> (r: Self)
        ensures
            r@ == with_pipeline_setting(self@, PipelineSetting::SampleMask(sample_mask)),
    {
        let mut b = self;
        b.desc.sample_mask = sample_mask;
        b
    }

    pub fn alpha_to_coverage_enabled(self, alpha_to_coverage_enabled: bool) -> (r: Self)
        ensures
            r@ == with_pipeline_setting(
                self@,
                PipelineSetting::AlphaToCoverage(alpha_to_coverage_enabled),
            ),
    {
        let mut b = self;
        b.desc.alpha_to_coverage_enabled = alpha_to_coverage_enabled;
        b
    }

    pub fn build(self) -> (r: RenderPipelineDesc)
        ensures
            r@ == self@,
    {
        self.desc
    }
}

/// Two color-state builders that describe the same state and then receive the
/// same setter calls in the same order build identical descriptors.
pub proof fn color_builders_deterministic(
    a: ColorStateDesc,
    b: ColorStateDesc,
    ops: Seq<ColorStateSetting>,
)
    requires
        a == b,
    ensures
        with_color_settings(a, ops) == with_color_settings(b, ops),
{
}

/// Color-state setters that override different fields may be called in
/// either order.
pub proof fn color_settings_commute(d: ColorStateDesc, s: ColorStateSetting, t: ColorStateSetting)
    requires
        color_setting_field(s) != color_setting_field(t),
    ensures
        with_color_setting(with_color_setting(d, s), t) == with_color_setting(
            with_color_setting(d, t),
            s,
        ),
{
}

/// Two pipeline builders that describe the same pipeline and then receive the
/// same setter calls in the same order build identical descriptors.
pub proof fn pipeline_builders_deterministic(
    a: PipelineView,
    b: PipelineView,
    ops: Seq<PipelineSetting>,
)
    requires
        a == b,
    ensures
        with_pipeline_settings(a, ops) == with_pipeline_settings(b, ops),
{
}

/// Pipeline setters that override different fields may be called in either
/// order.
pub proof fn pipeline_settings_commute(d: PipelineView, s: PipelineSetting, t: PipelineSetting)
    requires
        pipeline_setting_field(s) != pipeline_setting_field(t),
    ensures
        with_pipeline_setting(with_pipeline_setting(d, s), t) == with_pipeline_setting(
            with_pipeline_setting(d, t),
            s,
        ),
{
}

/// Of two calls of the same setter, the later one decides the field.
pub proof fn pipeline_setting_last_wins(d: PipelineView, s: PipelineSetting, t: PipelineSetting)
    requires
        pipeline_setting_field(s) == pipeline_setting_field(t),
    ensures
        with_pipeline_setting(with_pipeline_setting(d, s), t) == with_pipeline_setting(d, t),
{
}

} // verus!
