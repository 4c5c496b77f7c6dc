//! The anti-aliasing post-process pass: a full-screen draw that samples a
//! source image and writes the destination image. It keeps a static binding
//! set (the sampler), built once, and a volatile one (the source image and the
//! reciprocal output size), rebuilt by every render.
use vstd::prelude::*;
use crate::bindings::{
    build_static_bindings, build_volatile_bindings, conforms, fxaa_pipeline_layout, fxaa_sampler,
    fxaa_sampler_spec, static_bindings_spec, static_layout, static_layout_spec,
    volatile_bindings_spec, volatile_layout, volatile_layout_spec, BindGroupIndex, BindingEntry,
    BindingLayout, BindingLayoutEntry, BindingSet, ImageView,
};
use crate::builders::{
    default_color_state, default_vertex_state, ColorStateDescBuilder, PipelineView,
    RenderPipelineDescBuilder,
};
use crate::pipeline::{configuration_error, create_render_pipeline, RenderPipeline};
use crate::types::{
    CullMode, FrontFace, PrimitiveTopology, ProgrammableStage, RasterizationState, SamplerDesc,
    ShaderModuleId, StageView, TextureFormat,
};

verus! {

/// What happens to an attachment's contents when a render pass begins.
#[derive(Clone, Copy, Debug, PartialEq, Eq, Structural)]
pub enum LoadOp {
    /// Keep what the image holds.
    Load,
    /// Clear the image first.
    Clear,
}

/// The one color attachment of a render pass.
#[derive(Clone, Copy, Debug, PartialEq, Eq, Structural)]
pub struct ColorAttachment {
    pub view: ImageView,
    pub load: LoadOp,
    pub store: bool,
}

/// A command recorded into a render pass.
#[derive(Clone, Copy, Debug, PartialEq, Eq, Structural)]
pub enum PassCommand {
    /// Bind the pass's pipeline.
    SetPipeline,
    /// Bind the pass's binding set of the given group at `index`.
    SetBindGroup { index: u32, group: BindGroupIndex },
    /// Draw vertices `first_vertex..vertex_end` of instances
    /// `first_instance..instance_end`.
    Draw { first_vertex: u32, vertex_end: u32, first_instance: u32, instance_end: u32 },
}

/// What one render appends to the caller's command encoder: one render pass
/// on `attachment` with `commands` in order. The encoder is not submitted.
#[derive(Clone, Debug, PartialEq, Eq)]
pub struct PassRecording {
    pub attachment: ColorAttachment,
    pub commands: Vec<PassCommand>,
}

/// The commands of every render: pipeline, volatile set at 0, static set at
/// 1, and one draw of 4 vertices and 1 instance.
pub open spec fn fxaa_commands() -> Seq<PassCommand> {
    seq![
        PassCommand::SetPipeline,
        PassCommand::SetBindGroup { index: 0, group: BindGroupIndex::Volatile },
        PassCommand::SetBindGroup { index: 1, group: BindGroupIndex::Static },
        PassCommand::Draw { first_vertex: 0, vertex_end: 4, first_instance: 0, instance_end: 1 },
    ]
}

/// The pipeline of the pass: volatile and static layouts at 0 and 1, both
/// stages entered at `main`, a triangle strip (its 4 vertices make the
/// full-screen quad), counter-clockwise front faces without culling, one
/// replacing color target in `format`, no vertex buffers.
pub open spec fn fxaa_pipeline_spec(
    format: TextureFormat,
    vertex_module: ShaderModuleId,
    fragment_module: ShaderModuleId,
) -> PipelineView {
    PipelineView {
        layout: seq![volatile_layout_spec(), static_layout_spec()],
        vertex_stage: StageView { module: vertex_module, entry_point: "main"@ },
        fragment_stage: Some(StageView { module: fragment_module, entry_point: "main"@ }),
        rasterization_state: Some(
            RasterizationState { front_face: FrontFace::Ccw, cull_mode: CullMode::Off },
        ),
        primitive_topology: PrimitiveTopology::TriangleStrip,
        color_states: seq![default_color_state(format)],
        vertex_state: default_vertex_state(),
        sample_count: 1,
        sample_mask: 0xffff_ffff,
        alpha_to_coverage_enabled: false,
    }
}

/// The state of a pass.
pub struct PassState {
    pub width: u32,
    pub height: u32,
    pub volatile_layout: Seq<BindingLayoutEntry>,
    pub static_layout: Seq<BindingLayoutEntry>,
    /// Absent until the first render.
    pub volatile_bindings: Option<Seq<BindingEntry>>,
    pub static_bindings: Seq<BindingEntry>,
    pub sampler: SamplerDesc,
    pub pipeline: PipelineView,
    /// How many static binding sets the pass has built.
    pub static_builds: nat,
    /// How many volatile binding sets the pass has built.
    pub volatile_builds: nat,
}

/// The state of a pass just created.
pub open spec fn created_state(
    format: TextureFormat,
    width: u32,
    height: u32,
    vertex_module: ShaderModuleId,
    fragment_module: ShaderModuleId,
) -> PassState {
    PassState {
        width,
        height,
        volatile_layout: volatile_layout_spec(),
        static_layout: static_layout_spec(),
        volatile_bindings: None,
        static_bindings: static_bindings_spec(fxaa_sampler_spec()),
        sampler: fxaa_sampler_spec(),
        pipeline: fxaa_pipeline_spec(format, vertex_module, fragment_module),
        static_builds: 1,
        volatile_builds: 0,
    }
}

/// The state after a resize to `width` by `height`.
pub open spec fn resized_state(s: PassState, width: u32, height: u32) -> PassState {
    PassState { width, height, ..s }
}

/// The state after a render that reads `source`.
pub open spec fn rendered_state(s: PassState, source: ImageView) -> PassState {
    PassState {
        volatile_bindings: Some(volatile_bindings_spec(s.width, s.height, source)),
        volatile_builds: s.volatile_builds + 1,
        ..s
    }
}

/// The invariant of every pass: the output size is at least 1 by 1, the layouts are the pass's own, each binding
/// set present conforms to its layout, the static set holds the pass's
/// sampler and was built exactly once.
pub open spec fn pass_inv(s: PassState) -> bool {
    &&& s.width >= 1
    &&& s.height >= 1
    &&& s.volatile_layout == volatile_layout_spec()
    &&& s.static_layout == static_layout_spec()
    &&& s.sampler == fxaa_sampler_spec()
    &&& s.static_bindings == static_bindings_spec(s.sampler)
    &&& conforms(s.static_bindings, s.static_layout)
    &&& (s.volatile_bindings matches Some(v) ==> conforms(v, s.volatile_layout))
    &&& s.static_builds == 1
}

pub struct FXAAPass {
    // volatile binding set (0)
    volatile_bind_group_layout: BindingLayout,
    volatile_bind_group: Option<BindingSet>,
    // rarely changed binding set (1)
    bind_group_layout: BindingLayout,
    bind_group: BindingSet,
    sampler: SamplerDesc,
    pipeline: RenderPipeline,
    width: u32,
    height: u32,
    static_builds: Ghost<nat>,
    volatile_builds: Ghost<nat>,
}

/// The view of an optional binding set.
pub open spec fn bindings_view(b: Option<BindingSet>) -> Option<Seq<BindingEntry>> {
    match b {
        Some(s) => Some(s@),
        None => None,
    }
}

impl View for FXAAPass {
    type V = PassState;

    closed spec fn view(&self) -> PassState {
        PassState {
            width: self.width,
            height: self.height,
            volatile_layout: self.volatile_bind_group_layout@,
            static_layout: self.bind_group_layout@,
            volatile_bindings: bindings_view(self.volatile_bind_group),
            static_bindings: self.bind_group@,
            sampler: self.sampler,
            pipeline: self.pipeline@,
            static_builds: self.static_builds@,
            volatile_builds: self.volatile_builds@,
        }
    }
}

impl FXAAPass {
    /// Builds the volatile binding set of this pass for an output of `width`
    /// by `height` that reads `source_image`.
    pub fn volatile_bind_group(&self, width: u32, height: u32, source_image: ImageView) -> (r:
        BindingSet)
        requires
            pass_inv(self@),
            width >= 1,
            height >= 1,
        ensures
            r@ == volatile_bindings_spec(width, height, source_image),
            conforms(r@, self@.volatile_layout),
    {
        build_volatile_bindings(width, height, source_image)
    }

    /// Creates the pass for an output of `width` by `height` in `format`,
    /// with the given precompiled vertex and fragment modules.
    pub fn new(
        format: TextureFormat,
        width: u32,
        height: u32,
        vertex_module: ShaderModuleId,
        fragment_module: ShaderModuleId,
    ) -> (r: Self)
        requires
            width >= 1,
            height >= 1,
        ensures
            r@ == created_state(format, width, height, vertex_module, fragment_module),
            pass_inv(r@),
    {
        let volatile_bind_group_layout = volatile_layout();
        let bind_group_layout = static_layout();
        let pipeline_layout = fxaa_pipeline_layout(volatile_layout(), static_layout());
        let sampler = fxaa_sampler();
        let bind_group = build_static_bindings(sampler);

        let color_state = ColorStateDescBuilder::new(format).build();
        let desc = RenderPipelineDescBuilder::new(
            pipeline_layout,
            ProgrammableStage { module: vertex_module, entry_point: "main".to_owned() },
        ).fragment_stage(
            ProgrammableStage { module: fragment_module, entry_point: "main".to_owned() },
        ).primitive_topology(PrimitiveTopology::TriangleStrip).rasterization_state(
            RasterizationState { front_face: FrontFace::Ccw, cull_mode: CullMode::Off },
        ).color_states(vec![color_state]).build();
        assert(desc@.layout =~= seq![volatile_layout_spec(), static_layout_spec()]);
        assert(desc@.color_states =~= seq![default_color_state(format)]);
        assert(configuration_error(desc@) is None);
        let pipeline = match create_render_pipeline(desc) {
            Ok(p) => p,
            Err(_) => vstd::pervasive::unreached(),
        };
        let r = FXAAPass {
            volatile_bind_group_layout,
            volatile_bind_group: None,
            bind_group_layout,
            bind_group,
            sampler,
            pipeline,
            width,
            height,
            static_builds: Ghost(1),
            volatile_builds: Ghost(0),
        };
        assert(r@.pipeline =~= fxaa_pipeline_spec(format, vertex_module, fragment_module));
        r
    }

    /// Records the new output size; the next render uses it.
    pub fn resize(&mut self, width: u32, height: u32)
        requires
            pass_inv(old(self)@),
            width >= 1,
            height >= 1,
        ensures
            final(self)@ == resized_state(old(self)@, width, height),
            pass_inv(final(self)@),
    {
        self.width = width;
        self.height = height;
    }

    /// Rebuilds the volatile binding set for the current size and
    /// `source_image`, then records one render pass that loads and stores
    /// `dest_image` and draws the full-screen primitive.
    pub fn render(&mut self, dest_image: ImageView, source_image: ImageView) -> (r: PassRecording)
        requires
            pass_inv(old(self)@),
        ensures
            final(self)@ == rendered_state(old(self)@, source_image),
            pass_inv(final(self)@),
            r.attachment == (ColorAttachment { view: dest_image, load: LoadOp::Load, store: true }),
            r.commands@ == fxaa_commands(),
    {
        self.volatile_bind_group = Some(
            self.volatile_bind_group(self.width, self.height, source_image),
        );
        self.volatile_builds = Ghost(self.volatile_builds@ + 1);
        let commands = vec![
            PassCommand::SetPipeline,
            PassCommand::SetBindGroup { index: BindGroupIndex::Volatile.index(), group: BindGroupIndex::Volatile },
            PassCommand::SetBindGroup { index: BindGroupIndex::Static.index(), group: BindGroupIndex::Static },
            PassCommand::Draw { first_vertex: 0, vertex_end: 4, first_instance: 0, instance_end: 1 },
        ];
        assert(commands@ =~= fxaa_commands());
        PassRecording {
            attachment: ColorAttachment { view: dest_image, load: LoadOp::Load, store: true },
            commands,
        }
    }

    pub fn width(&self) -> (r: u32)
        ensures
            r == self@.width,
    {
        self.width
    }

    pub fn height(&self) -> (r: u32)
        ensures
            r == self@.height,
    {
        self.height
    }

    /// The volatile binding set of the latest render, if any.
    pub fn volatile_bindings(&self) -> (r: &Option<BindingSet>)
        ensures
            bindings_view(*r) == self@.volatile_bindings,
    {
        &self.volatile_bind_group
    }

    /// The static binding set.
    pub fn static_bindings(&self) -> (r: &BindingSet)
        ensures
            r@ == self@.static_bindings,
    {
        &self.bind_group
    }

    pub fn volatile_layout(&self) -> (r: &BindingLayout)
        ensures
            r@ == self@.volatile_layout,
    {
        &self.volatile_bind_group_layout
    }

    pub fn static_layout(&self) -> (r: &BindingLayout)
        ensures
            r@ == self@.static_layout,
    {
        &self.bind_group_layout
    }

    pub fn sampler(&self) -> (r: SamplerDesc)
        ensures
            r == self@.sampler,
    {
        self.sampler
    }

    pub fn pipeline(&self) -> (r: &RenderPipeline)
        ensures
            r@ == self@.pipeline,
    {
        &self.pipeline
    }
}

/// A call that changes a pass after its creation.
pub enum PassEvent {
    Resize(u32, u32),
    Render(ImageView),
}

/// The state after `e`.
pub open spec fn pass_step(s: PassState, e: PassEvent) -> PassState {
    match e {
        PassEvent::Resize(w, h) => resized_state(s, w, h),
        PassEvent::Render(source) => rendered_state(s, source),
    }
}

/// The state after the events of `es`, first to last.
pub open spec fn pass_run(s: PassState, es: Seq<PassEvent>) -> PassState
    decreases es.len(),
{
    if es.len() == 0 {
        s
    } else {
        pass_run(pass_step(s, es[0]), es.drop_first())
    }
}

/// Every resize in `es` is to a size of at least 1 by 1.
pub open spec fn valid_events(es: Seq<PassEvent>) -> bool {
    forall|i: int|
        0 <= i < es.len() ==> (#[trigger] es[i] matches PassEvent::Resize(w, h) ==> w >= 1 && h >= 1)
}

/// How many renders `es` holds.
pub open spec fn render_count(es: Seq<PassEvent>) -> nat
    decreases es.len(),
{
    if es.len() == 0 {
        0
    } else {
        (if es[0] is Render { 1nat } else { 0nat }) + render_count(es.drop_first())
    }
}

proof fn lemma_run_keeps_static(s: PassState, es: Seq<PassEvent>)
    requires
        pass_inv(s),
        valid_events(es),
    ensures
        pass_inv(pass_run(s, es)),
        pass_run(s, es).static_bindings == s.static_bindings,
        pass_run(s, es).sampler == s.sampler,
        pass_run(s, es).static_builds == s.static_builds,
        pass_run(s, es).pipeline == s.pipeline,
        pass_run(s, es).volatile_builds == s.volatile_builds + render_count(es),
    decreases es.len(),
{
    if es.len() > 0 {
        let t = pass_step(s, es[0]);
        if let PassEvent::Render(source) = es[0] {
            assert(conforms(volatile_bindings_spec(s.width, s.height, source), volatile_layout_spec()));
        }
        assert(valid_events(es.drop_first())) by {
            assert forall|i: int| 0 <= i < es.drop_first().len() implies (
            #[trigger] es.drop_first()[i] matches PassEvent::Resize(w, h) ==> w >= 1 && h >= 1) by {
                assert(es.drop_first()[i] == es[i + 1]);
            }
        }
        assert(es[0] matches PassEvent::Resize(w, h) ==> w >= 1 && h >= 1);
        lemma_run_keeps_static(t, es.drop_first());
    }
}

/// Over the whole life of a pass created at a valid size, whatever renders
/// and resizes to valid sizes follow its creation, the static binding set and its sampler stay those built at
/// creation, exactly one static set is ever built, and one volatile set is
/// built per render.
pub proof fn static_bindings_built_once(
    format: TextureFormat,
    width: u32,
    height: u32,
    vertex_module: ShaderModuleId,
    fragment_module: ShaderModuleId,
    es: Seq<PassEvent>,
)
    requires
        width >= 1,
        height >= 1,
        valid_events(es),
    ensures
        ({
            let s0 = created_state(format, width, height, vertex_module, fragment_module);
            let s = pass_run(s0, es);
            &&& s.static_bindings == s0.static_bindings
            &&& s.sampler == s0.sampler
            &&& s.static_builds == 1
            &&& s.volatile_builds == render_count(es)
            &&& pass_inv(s)
        }),
{
    let s0 = created_state(format, width, height, vertex_module, fragment_module);
    assert(conforms(s0.static_bindings, s0.static_layout));
    lemma_run_keeps_static(s0, es);
}

/// A render after a resize builds its volatile binding set for the new size
/// and the given source, never for the size before.
pub proof fn render_after_resize_uses_new_size(s: PassState, width: u32, height: u32, source: ImageView)
    ensures
        rendered_state(resized_state(s, width, height), source).volatile_bindings == Some(
            volatile_bindings_spec(width, height, source),
        ),
{
}

/// The layout that a binding set of `group` conforms to.
pub open spec fn group_layout(group: BindGroupIndex) -> Seq<BindingLayoutEntry> {
    match group {
        BindGroupIndex::Volatile => volatile_layout_spec(),
        BindGroupIndex::Static => static_layout_spec(),
    }
}

/// Each binding set that a render binds goes to the index that
/// `BindGroupIndex` assigns to it, and the pass's pipeline layout holds that
/// set's own layout at that index.
pub proof fn bound_indices_match_pipeline_layout(
    format: TextureFormat,
    vertex_module: ShaderModuleId,
    fragment_module: ShaderModuleId,
)
    ensures
        forall|i: int|
            0 <= i < fxaa_commands().len() ==> (#[trigger] fxaa_commands()[i] matches PassCommand::SetBindGroup { index, group } ==> {
                &&& index as nat == group.spec_index()
                &&& fxaa_pipeline_spec(format, vertex_module, fragment_module).layout[index as int]
                    == group_layout(group)
            }),
{
}

} // verus!
