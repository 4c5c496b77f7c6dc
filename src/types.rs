//! Plain descriptions of the fixed-function GPU state used by pipelines.
use vstd::prelude::*;

verus! {

/// Channel mask bit: red.
pub const COLOR_WRITE_RED: u32 = 1;
/// Channel mask bit: green.
pub const COLOR_WRITE_GREEN: u32 = 2;
/// Channel mask bit: blue.
pub const COLOR_WRITE_BLUE: u32 = 4;
/// Channel mask bit: alpha.
pub const COLOR_WRITE_ALPHA: u32 = 8;
/// Every channel is written.
pub const COLOR_WRITE_ALL: u32 = 15;

/// Texture usage bit: the texture may be sampled by a shader.
pub const TEXTURE_USAGE_SAMPLED: u32 = 4;
/// Texture usage bit: the texture may be a render target.
pub const TEXTURE_USAGE_OUTPUT_ATTACHMENT: u32 = 16;

/// Shader stage bit: vertex stage.
pub const SHADER_STAGE_VERTEX: u32 = 1;
/// Shader stage bit: fragment stage.
pub const SHADER_STAGE_FRAGMENT: u32 = 2;

/// Texture formats.
#[derive(Clone, Copy, Debug, PartialEq, Eq, Structural)]
pub enum TextureFormat {
    R8Unorm,
    R8Snorm,
    R8Uint,
    R8Sint,
    R16Uint,
    R16Sint,
    R16Float,
    Rg8Unorm,
    Rg8Snorm,
    Rg8Uint,
    Rg8Sint,
    R32Uint,
    R32Sint,
    R32Float,
    Rg16Uint,
    Rg16Sint,
    Rg16Float,
    Rgba8Unorm,
    Rgba8UnormSrgb,
    Rgba8Snorm,
    Rgba8Uint,
    Rgba8Sint,
    Bgra8Unorm,
    Bgra8UnormSrgb,
    Rgb10a2Unorm,
    Rg11b10Float,
    Rg32Uint,
    Rg32Sint,
    Rg32Float,
    Rgba16Uint,
    Rgba16Sint,
    Rgba16Float,
    Rgba32Uint,
    Rgba32Sint,
    Rgba32Float,
    Depth32Float,
    Depth24Plus,
    Depth24PlusStencil8,
    Bc1RgbaUnorm,
    Bc1RgbaUnormSrgb,
    Bc2RgbaUnorm,
    Bc2RgbaUnormSrgb,
    Bc3RgbaUnorm,
    Bc3RgbaUnormSrgb,
    Bc4RUnorm,
    Bc4RSnorm,
    Bc5RgUnorm,
    Bc5RgSnorm,
    Bc6hRgbUfloat,
    Bc6hRgbSfloat,
    Bc7RgbaUnorm,
    Bc7RgbaUnormSrgb,
}

#[derive(Clone, Copy, Debug, PartialEq, Eq, Structural)]
pub enum BlendFactor {
    Zero,
    One,
    SrcColor,
    OneMinusSrcColor,
    SrcAlpha,
    OneMinusSrcAlpha,
    DstColor,
    OneMinusDstColor,
    DstAlpha,
    OneMinusDstAlpha,
    SrcAlphaSaturated,
    BlendColor,
    OneMinusBlendColor,
}

#[derive(Clone, Copy, Debug, PartialEq, Eq, Structural)]
pub enum BlendOperation {
    Add,
    Subtract,
    ReverseSubtract,
    Min,
    Max,
}

/// How source and destination values are combined for one set of channels.
#[derive(Clone, Copy, Debug, PartialEq, Eq, Structural)]
pub struct BlendDescriptor {
    pub src_factor: BlendFactor,
    pub dst_factor: BlendFactor,
    pub operation: BlendOperation,
}

/// The blend that writes the source value and ignores the destination.
pub open spec fn blend_replace() -> BlendDescriptor {
    BlendDescriptor {
        src_factor: BlendFactor::One,
        dst_factor: BlendFactor::Zero,
        operation: BlendOperation::Add,
    }
}

impl BlendDescriptor {
    /// The replacing blend: `src * 1 + dst * 0`.
    pub fn replace() -> (r: BlendDescriptor)
        ensures
            r == blend_replace(),
    {
        BlendDescriptor {
            src_factor: BlendFactor::One,
            dst_factor: BlendFactor::Zero,
            operation: BlendOperation::Add,
        }
    }
}

#[derive(Clone, Copy, Debug, PartialEq, Eq, Structural)]
pub enum PresentMode {
    Immediate,
    Mailbox,
    Fifo,
}

#[derive(Clone, Copy, Debug, PartialEq, Eq, Structural)]
pub enum IndexFormat {
    Uint16,
    Uint32,
}

#[derive(Clone, Copy, Debug, PartialEq, Eq, Structural)]
pub enum PrimitiveTopology {
    PointList,
    LineList,
    LineStrip,
    TriangleList,
    TriangleStrip,
}

#[derive(Clone, Copy, Debug, PartialEq, Eq, Structural)]
pub enum FrontFace {
    Ccw,
    Cw,
}

#[derive(Clone, Copy, Debug, PartialEq, Eq, Structural)]
pub enum CullMode {
    Off,
    Front,
    Back,
}

/// Rasterization state; depth bias is left at zero.
#[derive(Clone, Copy, Debug, PartialEq, Eq, Structural)]
pub struct RasterizationState {
    pub front_face: FrontFace,
    pub cull_mode: CullMode,
}

#[derive(Clone, Copy, Debug, PartialEq, Eq, Structural)]
pub enum TextureViewDimension {
    D1,
    D2,
    D2Array,
    Cube,
    CubeArray,
    D3,
}

#[derive(Clone, Copy, Debug, PartialEq, Eq, Structural)]
pub enum TextureComponentType {
    Float,
    Sint,
    Uint,
}

#[derive(Clone, Copy, Debug, PartialEq, Eq, Structural)]
pub enum TextureDimension {
    D1,
    D2,
    D3,
}

#[derive(Clone, Copy, Debug, PartialEq, Eq, Structural)]
pub enum AddressMode {
    ClampToEdge,
    Repeat,
    MirrorRepeat,
}

#[derive(Clone, Copy, Debug, PartialEq, Eq, Structural)]
pub enum FilterMode {
    Nearest,
    Linear,
}

#[derive(Clone, Copy, Debug, PartialEq, Eq, Structural)]
pub enum InputStepMode {
    Vertex,
    Instance,
}

/// Formats of vertex attributes.
#[derive(Clone, Copy, Debug, PartialEq, Eq, Structural)]
pub enum VertexFormat {
    Uint,
    Uint2,
    Uint4,
    Float,
    Float2,
    Float3,
    Float4,
}

#[derive(Clone, Copy, Debug, PartialEq, Eq, Structural)]
pub struct VertexAttribute {
    pub offset: u64,
    pub shader_location: u32,
    pub format: VertexFormat,
}

/// Layout of one vertex buffer.
#[derive(Clone, Debug, PartialEq, Eq)]
pub struct VertexBufferLayout {
    pub stride: u64,
    pub step_mode: InputStepMode,
    pub attributes: Vec<VertexAttribute>,
}

pub struct VertexBufferView {
    pub stride: u64,
    pub step_mode: InputStepMode,
    pub attributes: Seq<VertexAttribute>,
}

impl View for VertexBufferLayout {
    type V = VertexBufferView;

    open spec fn view(&self) -> VertexBufferView {
        VertexBufferView {
            stride: self.stride,
            step_mode: self.step_mode,
            attributes: self.attributes@,
        }
    }
}

/// A precompiled shader module, by the host's number for it.
#[derive(Clone, Copy, Debug, PartialEq, Eq, Structural)]
pub struct ShaderModuleId(pub u64);

/// A shader module together with the entry point that a stage runs.
#[derive(Clone, Debug, PartialEq, Eq)]
pub struct ProgrammableStage {
    pub module: ShaderModuleId,
    pub entry_point: String,
}

pub struct StageView {
    pub module: ShaderModuleId,
    pub entry_point: Seq<char>,
}

impl View for ProgrammableStage {
    type V = StageView;

    open spec fn view(&self) -> StageView {
        StageView { module: self.module, entry_point: self.entry_point@ }
    }
}

/// The view of an optional stage.
pub open spec fn stage_view(s: Option<ProgrammableStage>) -> Option<StageView> {
    match s {
        Some(st) => Some(st@),
        None => None,
    }
}

/// Sampler state.
#[derive(Clone, Copy, Debug, PartialEq, Eq, Structural)]
pub struct SamplerDesc {
    pub address_mode_u: AddressMode,
    pub address_mode_v: AddressMode,
    pub address_mode_w: AddressMode,
    pub mag_filter: FilterMode,
    pub min_filter: FilterMode,
    pub mipmap_filter: FilterMode,
}

/// A two-dimensional texture with one layer.
#[derive(Clone, Copy, Debug, PartialEq, Eq, Structural)]
pub struct TextureDesc {
    pub format: TextureFormat,
    pub width: u32,
    pub height: u32,
    pub depth: u32,
    pub mip_level_count: u32,
    pub sample_count: u32,
    pub dimension: TextureDimension,
    pub usage: u32,
}

} // verus!
