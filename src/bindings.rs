//! Binding layouts, the binding sets that conform to them, and the two
//! layouts of the anti-aliasing pass: volatile (set 0) and static (set 1).
use vstd::prelude::*;
use crate::types::{
    AddressMode, FilterMode, SamplerDesc, TextureComponentType, TextureViewDimension,
    SHADER_STAGE_FRAGMENT,
};

verus! {

/// Size in bytes of the pass's uniform: two 32-bit floats.
pub const RECIPROCAL_SIZE_BYTES: u64 = 8;

/// Where a binding set is bound in the pass's pipeline layout.
#[derive(Clone, Copy, Debug, PartialEq, Eq, Structural)]
pub enum BindGroupIndex {
    /// Rebuilt whenever the output size or the source image changes.
    Volatile,
    /// Built once for the lifetime of the pass.
    Static,
}

impl BindGroupIndex {
    pub open spec fn spec_index(self) -> nat {
        match self {
            BindGroupIndex::Volatile => 0,
            BindGroupIndex::Static => 1,
        }
    }

    /// The binding-set index of this group.
    pub fn index(&self) -> (r: u32)
        ensures
            r as nat == self.spec_index(),
    {
        match self {
            BindGroupIndex::Volatile => 0,
            BindGroupIndex::Static => 1,
        }
    }
}

/// The kind of resource that a binding slot holds.
#[derive(Clone, Copy, Debug, PartialEq, Eq, Structural)]
pub enum BindingKind {
    SampledTexture {
        dimension: TextureViewDimension,
        component_type: TextureComponentType,
        multisampled: bool,
    },
    UniformBuffer { min_binding_size: u64 },
    Sampler { comparison: bool },
}

/// One slot of a binding layout.
#[derive(Clone, Copy, Debug, PartialEq, Eq, Structural)]
pub struct BindingLayoutEntry {
    pub binding: u32,
    /// Shader stages that see the slot, as a mask of `SHADER_STAGE_*` bits.
    pub visibility: u32,
    pub kind: BindingKind,
}

/// The ordered slots that a binding set must fill.
#[derive(Clone, Debug, PartialEq, Eq)]
pub struct BindingLayout {
    pub entries: Vec<BindingLayoutEntry>,
}

impl View for BindingLayout {
    type V = Seq<BindingLayoutEntry>;

    open spec fn view(&self) -> Seq<BindingLayoutEntry> {
        self.entries@
    }
}

/// An image view, by who owns it.
#[derive(Clone, Copy, Debug, PartialEq, Eq, Structural)]
pub enum ImageView {
    /// The offscreen image of the given generation; a new generation
    /// begins each time the image is recreated.
    Offscreen(u64),
    /// The surface image presented this frame.
    Presented,
}

/// Contents of the pass's uniform buffer: the two floats
/// `[1 / width, 1 / height]`, stated here by their exact denominators.
#[derive(Clone, Copy, Debug, PartialEq, Eq, Structural)]
pub struct ReciprocalSize {
    pub width: u32,
    pub height: u32,
}

/// A resource bound to one slot.
#[derive(Clone, Copy, Debug, PartialEq, Eq, Structural)]
pub enum BindingResource {
    TextureView(ImageView),
    UniformBuffer { contents: ReciprocalSize, size: u64 },
    Sampler(SamplerDesc),
}

#[derive(Clone, Copy, Debug, PartialEq, Eq, Structural)]
pub struct BindingEntry {
    pub binding: u32,
    pub resource: BindingResource,
}

/// Resources assigned to the slots of a binding layout.
#[derive(Clone, Debug, PartialEq, Eq)]
pub struct BindingSet {
    pub entries: Vec<BindingEntry>,
}

impl View for BindingSet {
    type V = Seq<BindingEntry>;

    open spec fn view(&self) -> Seq<BindingEntry> {
        self.entries@
    }
}

/// The resource is of the kind that the slot declares.
pub open spec fn resource_fits(kind: BindingKind, res: BindingResource) -> bool {
    match kind {
        BindingKind::SampledTexture { .. } => res is TextureView,
        BindingKind::UniformBuffer { min_binding_size } => match res {
            BindingResource::UniformBuffer { size, .. } => min_binding_size <= size,
            _ => false,
        },
        BindingKind::Sampler { .. } => res is Sampler,
    }
}

/// A binding set satisfies a layout: same slot count, same slot order, and a
/// resource of the declared kind in each slot.
pub open spec fn conforms(set: Seq<BindingEntry>, layout: Seq<BindingLayoutEntry>) -> bool {
    &&& set.len() == layout.len()
    &&& forall|i: int|
        0 <= i < set.len() ==> {
            &&& #[trigger] set[i].binding == layout[i].binding
            &&& resource_fits(layout[i].kind, set[i].resource)
        }
}

/// The volatile layout: the source image at slot 0, sampled as a 2D array of
/// floats, and the reciprocal-size uniform at slot 1.
pub open spec fn volatile_layout_spec() -> Seq<BindingLayoutEntry> {
    seq![
        BindingLayoutEntry {
            binding: 0,
            visibility: SHADER_STAGE_FRAGMENT,
            kind: BindingKind::SampledTexture {
                dimension: TextureViewDimension::D2Array,
                component_type: TextureComponentType::Float,
                multisampled: false,
            },
        },
        BindingLayoutEntry {
            binding: 1,
            visibility: SHADER_STAGE_FRAGMENT,
            kind: BindingKind::UniformBuffer { min_binding_size: RECIPROCAL_SIZE_BYTES },
        },
    ]
}

/// The static layout: a non-comparison sampler at slot 0.
pub open spec fn static_layout_spec() -> Seq<BindingLayoutEntry> {
    seq![
        BindingLayoutEntry {
            binding: 0,
            visibility: SHADER_STAGE_FRAGMENT,
            kind: BindingKind::Sampler { comparison: false },
        },
    ]
}

/// The sampler of the pass: clamped to the edge, linear minification,
/// nearest magnification and mip selection.
pub open spec fn fxaa_sampler_spec() -> SamplerDesc {
    SamplerDesc {
        address_mode_u: AddressMode::ClampToEdge,
        address_mode_v: AddressMode::ClampToEdge,
        address_mode_w: AddressMode::ClampToEdge,
        mag_filter: FilterMode::Nearest,
        min_filter: FilterMode::Linear,
        mipmap_filter: FilterMode::Nearest,
    }
}

/// The volatile binding set for an output of `width` by `height` that reads
/// `source`.
pub open spec fn volatile_bindings_spec(width: u32, height: u32, source: ImageView) -> Seq<
    BindingEntry,
> {
    seq![
        BindingEntry { binding: 0, resource: BindingResource::TextureView(source) },
        BindingEntry {
            binding: 1,
            resource: BindingResource::UniformBuffer {
                contents: ReciprocalSize { width, height },
                size: RECIPROCAL_SIZE_BYTES,
            },
        },
    ]
}

/// The static binding set that holds `sampler`.
pub open spec fn static_bindings_spec(sampler: SamplerDesc) -> Seq<BindingEntry> {
    seq![BindingEntry { binding: 0, resource: BindingResource::Sampler(sampler) }]
}

/// The layout of the volatile binding set.
pub fn volatile_layout() -> (r: BindingLayout)
    ensures
        r@ == volatile_layout_spec(),
{
    let r = BindingLayout {
        entries: vec![
            BindingLayoutEntry {
                binding: 0,
                visibility: SHADER_STAGE_FRAGMENT,
                kind: BindingKind::SampledTexture {
                    dimension: TextureViewDimension::D2Array,
                    component_type: TextureComponentType::Float,
                    multisampled: false,
                },
            },
            BindingLayoutEntry {
                binding: 1,
                visibility: SHADER_STAGE_FRAGMENT,
                kind: BindingKind::UniformBuffer { min_binding_size: RECIPROCAL_SIZE_BYTES },
            },
        ],
    };
    assert(r@ =~= volatile_layout_spec());
    r
}

/// The layout of the static binding set.
pub fn static_layout() -> (r: BindingLayout)
    ensures
        r@ == static_layout_spec(),
{
    let r = BindingLayout {
        entries: vec![
            BindingLayoutEntry {
                binding: 0,
                visibility: SHADER_STAGE_FRAGMENT,
                kind: BindingKind::Sampler { comparison: false },
            },
        ],
    };
    assert(r@ =~= static_layout_spec());
    r
}

/// The sampler that the static binding set holds.
pub fn fxaa_sampler() -> (r: SamplerDesc)
    ensures
        r == fxaa_sampler_spec(),
{
    SamplerDesc {
        address_mode_u: AddressMode::ClampToEdge,
        address_mode_v: AddressMode::ClampToEdge,
        address_mode_w: AddressMode::ClampToEdge,
        mag_filter: FilterMode::Nearest,
        min_filter: FilterMode::Linear,
        mipmap_filter: FilterMode::Nearest,
    }
}

/// Builds the volatile binding set: `source` at slot 0 and a uniform of
/// `RECIPROCAL_SIZE_BYTES` bytes holding `[1 / width, 1 / height]` at slot 1.
pub fn build_volatile_bindings(width: u32, height: u32, source: ImageView) -> (r: BindingSet)
    requires
        width >= 1,
        height >= 1,
    ensures
        r@ == volatile_bindings_spec(width, height, source),
        conforms(r@, volatile_layout_spec()),
{
    let r = BindingSet {
        entries: vec![
            BindingEntry { binding: 0, resource: BindingResource::TextureView(source) },
            BindingEntry {
                binding: 1,
                resource: BindingResource::UniformBuffer {
                    contents: ReciprocalSize { width, height },
                    size: RECIPROCAL_SIZE_BYTES,
                },
            },
        ],
    };
    assert(r@ =~= volatile_bindings_spec(width, height, source));
    r
}

/// Builds the static binding set that holds `sampler`.
pub fn build_static_bindings(sampler: SamplerDesc) -> (r: BindingSet)
    ensures
        r@ == static_bindings_spec(sampler),
        conforms(r@, static_layout_spec()),
{
    let r = BindingSet {
        entries: vec![BindingEntry { binding: 0, resource: BindingResource::Sampler(sampler) }],
    };
    assert(r@ =~= static_bindings_spec(sampler));
    r
}

/// The binding layouts of a pipeline, in the order of their set indices.
#[derive(Clone, Debug, PartialEq, Eq)]
pub struct PipelineLayout {
    pub bind_group_layouts: Vec<BindingLayout>,
}

impl View for PipelineLayout {
    type V = Seq<Seq<BindingLayoutEntry>>;

    open spec fn view(&self) -> Seq<Seq<BindingLayoutEntry>> {
        self.bind_group_layouts@.map_values(|l: BindingLayout| l@)
    }
}

/// The pass's pipeline layout: each layout at the index that
/// `BindGroupIndex` assigns to it.
pub fn fxaa_pipeline_layout(volatile: BindingLayout, stat: BindingLayout) -> (r: PipelineLayout)
    ensures
        r@.len() == 2,
        r@[BindGroupIndex::Volatile.spec_index() as int] == volatile@,
        r@[BindGroupIndex::Static.spec_index() as int] == stat@,
{
    let r = PipelineLayout { bind_group_layouts: vec![volatile, stat] };
    assert(r@.len() == 2);
    r
}

} // verus!
