//! The frame orchestrator: owns the offscreen image, renders the scene into
//! it and the anti-aliasing pass from it into the presented image, and
//! recreates it whenever the output size changes.
use vstd::prelude::*;
use crate::bindings::ImageView;
use crate::fxaa::{
    created_state, pass_inv, rendered_state, resized_state, FXAAPass, PassRecording, PassState,
};
use crate::types::{
    ShaderModuleId, TextureDesc, TextureDimension, TextureFormat,
    TEXTURE_USAGE_OUTPUT_ATTACHMENT, TEXTURE_USAGE_SAMPLED,
};

verus! {

/// The offscreen image for an output of `width` by `height`: one layer, one
/// mip level, one sample, usable as a render target and as a sampled input.
pub open spec fn offscreen_texture_spec(format: TextureFormat, width: u32, height: u32) -> TextureDesc {
    TextureDesc {
        format,
        width,
        height,
        depth: 1,
        mip_level_count: 1,
        sample_count: 1,
        dimension: TextureDimension::D2,
        usage: TEXTURE_USAGE_OUTPUT_ATTACHMENT | TEXTURE_USAGE_SAMPLED,
    }
}

/// Describes the offscreen image for an output of `width` by `height`.
pub fn offscreen_texture_desc(format: TextureFormat, width: u32, height: u32) -> (r: TextureDesc)
    ensures
        r == offscreen_texture_spec(format, width, height),
{
    TextureDesc {
        format,
        width,
        height,
        depth: 1,
        mip_level_count: 1,
        sample_count: 1,
        dimension: TextureDimension::D2,
        usage: TEXTURE_USAGE_OUTPUT_ATTACHMENT | TEXTURE_USAGE_SAMPLED,
    }
}

/// What the host does on a resize, in order: destroy `retired`, create
/// `offscreen` from `texture`, and resize the scene renderer to
/// `width` by `height`.
#[derive(Clone, Copy, Debug, PartialEq, Eq, Structural)]
pub struct ResizePlan {
    pub retired: ImageView,
    pub offscreen: ImageView,
    pub texture: TextureDesc,
    pub width: u32,
    pub height: u32,
}

/// What the host records for one frame on one command encoder, which it then
/// submits once: the scene into `scene_target`, then `post_process`.
#[derive(Clone, Debug, PartialEq, Eq)]
pub struct FramePlan {
    pub scene_target: ImageView,
    pub post_process: PassRecording,
}

pub struct FrameState {
    pub format: TextureFormat,
    /// The generation of the live offscreen image.
    pub generation: u64,
    pub offscreen: TextureDesc,
    pub pass: PassState,
}

/// The orchestrator's invariant: the pass's own invariant holds and the live
/// offscreen image has the pass's output size.
pub open spec fn frame_inv(s: FrameState) -> bool {
    &&& pass_inv(s.pass)
    &&& s.offscreen == offscreen_texture_spec(s.format, s.pass.width, s.pass.height)
}

/// The state after a resize to `width` by `height`.
pub open spec fn frame_resized(s: FrameState, width: u32, height: u32) -> FrameState {
    FrameState {
        generation: (s.generation + 1) as u64,
        offscreen: offscreen_texture_spec(s.format, width, height),
        pass: resized_state(s.pass, width, height),
        ..s
    }
}

/// The state after a frame.
pub open spec fn frame_rendered(s: FrameState) -> FrameState {
    FrameState { pass: rendered_state(s.pass, ImageView::Offscreen(s.generation)), ..s }
}

pub struct FrameOrchestrator {
    format: TextureFormat,
    generation: u64,
    offscreen: TextureDesc,
    fxaa: FXAAPass,
}

impl View for FrameOrchestrator {
    type V = FrameState;

    closed spec fn view(&self) -> FrameState {
        FrameState {
            format: self.format,
            generation: self.generation,
            offscreen: self.offscreen,
            pass: self.fxaa@,
        }
    }
}

impl FrameOrchestrator {
    /// Creates the offscreen image (generation 0) at `width` by `height` and
    /// the anti-aliasing pass bound to the surface's `format`.
    pub fn init(
        format: TextureFormat,
        width: u32,
        height: u32,
        vertex_module: ShaderModuleId,
        fragment_module: ShaderModuleId,
    ) -> (r: Self)
        requires
            width >= 1,
            height >= 1,
        ensures
            r@ == (FrameState {
                format,
                generation: 0,
                offscreen: offscreen_texture_spec(format, width, height),
                pass: created_state(format, width, height, vertex_module, fragment_module),
            }),
            frame_inv(r@),
    {
        FrameOrchestrator {
            format,
            generation: 0,
            offscreen: offscreen_texture_desc(format, width, height),
            fxaa: FXAAPass::new(format, width, height, vertex_module, fragment_module),
        }
    }

    /// Replaces the offscreen image by one of the next generation at
    /// `width` by `height` and resizes the pass.
    pub fn resize(&mut self, width: u32, height: u32) -> (r: ResizePlan)
        requires
            frame_inv(old(self)@),
            old(self)@.generation < u64::MAX,
            width >= 1,
            height >= 1,
        ensures
            final(self)@ == frame_resized(old(self)@, width, height),
            frame_inv(final(self)@),
            r == (ResizePlan {
                retired: ImageView::Offscreen(old(self)@.generation),
                offscreen: ImageView::Offscreen(final(self)@.generation),
                texture: offscreen_texture_spec(old(self)@.format, width, height),
                width,
                height,
            }),
    {
        let retired = ImageView::Offscreen(self.generation);
        self.generation = self.generation + 1;
        self.offscreen = offscreen_texture_desc(self.format, width, height);
        self.fxaa.resize(width, height);
        ResizePlan {
            retired,
            offscreen: ImageView::Offscreen(self.generation),
            texture: self.offscreen,
            width,
            height,
        }
    }

    /// Plans one frame: the scene into the live offscreen image, then the
    /// pass from that image into the presented image.
    pub fn render(&mut self) -> (r: FramePlan)
        requires
            frame_inv(old(self)@),
        ensures
            final(self)@ == frame_rendered(old(self)@),
            frame_inv(final(self)@),
            r.scene_target == ImageView::Offscreen(old(self)@.generation),
            r.post_process.attachment == (crate::fxaa::ColorAttachment {
                view: ImageView::Presented,
                load: crate::fxaa::LoadOp::Load,
                store: true,
            }),
            r.post_process.commands@ == crate::fxaa::fxaa_commands(),
    {
        let source = ImageView::Offscreen(self.generation);
        let post_process = self.fxaa.render(ImageView::Presented, source);
        FramePlan { scene_target: source, post_process }
    }

    pub fn format(&self) -> (r: TextureFormat)
        ensures
            r == self@.format,
    {
        self.format
    }

    /// The generation of the live offscreen image.
    pub fn generation(&self) -> (r: u64)
        ensures
            r == self@.generation,
    {
        self.generation
    }

    /// The description of the live offscreen image.
    pub fn offscreen(&self) -> (r: TextureDesc)
        ensures
            r == self@.offscreen,
    {
        self.offscreen
    }

    pub fn fxaa(&self) -> (r: &FXAAPass)
        ensures
            r@ == self@.pass,
    {
        &self.fxaa
    }
}

/// After a resize to `width` by `height`, the next frame renders the scene
/// into, and samples, a newly created offscreen image of exactly that extent,
/// in the same format and with render-target and sampled usage, of a new
/// generation: never the image that the resize retired.
pub proof fn resize_then_render_uses_new_image(s: FrameState, width: u32, height: u32)
    requires
        frame_inv(s),
        s.generation < u64::MAX,
        width >= 1,
        height >= 1,
    ensures
        ({
            let t = frame_resized(s, width, height);
            let u = frame_rendered(t);
            &&& frame_inv(t)
            &&& t.format == s.format
            &&& t.offscreen == offscreen_texture_spec(s.format, width, height)
            &&& t.offscreen.width == width
            &&& t.offscreen.height == height
            &&& t.generation != s.generation
            &&& u.pass.volatile_bindings == Some(
                crate::bindings::volatile_bindings_spec(
                    width,
                    height,
                    ImageView::Offscreen(t.generation),
                ),
            )
        }),
{
}

} // verus!
