use fxaa_render::bindings::{BindingResource, ImageView, ReciprocalSize};
use fxaa_render::fxaa::{ColorAttachment, LoadOp};
use fxaa_render::frame::{offscreen_texture_desc, FrameOrchestrator};
use fxaa_render::types::{
    ShaderModuleId, TextureDimension, TextureFormat, TEXTURE_USAGE_OUTPUT_ATTACHMENT,
    TEXTURE_USAGE_SAMPLED,
};

fn init(width: u32, height: u32) -> FrameOrchestrator {
    FrameOrchestrator::init(TextureFormat::Bgra8UnormSrgb, width, height, ShaderModuleId(0), ShaderModuleId(1))
}

fn uniform(f: &FrameOrchestrator) -> ReciprocalSize {
    match f.fxaa().volatile_bindings().as_ref().unwrap().entries[1].resource {
        BindingResource::UniformBuffer { contents, .. } => contents,
        _ => panic!("slot 1 holds no uniform buffer"),
    }
}

#[test]
fn offscreen_texture_is_render_target_and_sampled() {
    let t = offscreen_texture_desc(TextureFormat::Rgba8Unorm, 320, 200);
    assert_eq!(t.format, TextureFormat::Rgba8Unorm);
    assert_eq!((t.width, t.height, t.depth), (320, 200, 1));
    assert_eq!(t.mip_level_count, 1);
    assert_eq!(t.sample_count, 1);
    assert_eq!(t.dimension, TextureDimension::D2);
    assert_eq!(t.usage, TEXTURE_USAGE_OUTPUT_ATTACHMENT | TEXTURE_USAGE_SAMPLED);
    assert_eq!(t.usage, 20);
}

#[test]
fn init_sizes_offscreen_to_output() {
    let f = init(800, 600);
    assert_eq!(f.format(), TextureFormat::Bgra8UnormSrgb);
    assert_eq!(f.generation(), 0);
    assert_eq!(f.offscreen(), offscreen_texture_desc(TextureFormat::Bgra8UnormSrgb, 800, 600));
    assert!(f.fxaa().volatile_bindings().is_none());
}

#[test]
fn render_reads_offscreen_and_writes_presented() {
    let mut f = init(800, 600);
    let plan = f.render();
    assert_eq!(plan.scene_target, ImageView::Offscreen(0));
    assert_eq!(
        plan.post_process.attachment,
        ColorAttachment { view: ImageView::Presented, load: LoadOp::Load, store: true }
    );
    assert_eq!(plan.post_process.commands.len(), 4);
    let v = f.fxaa().volatile_bindings().as_ref().unwrap();
    assert_eq!(v.entries[0].resource, BindingResource::TextureView(ImageView::Offscreen(0)));
    assert_eq!(uniform(&f), ReciprocalSize { width: 800, height: 600 });
}

#[test]
fn resize_then_render_uses_the_new_image() {
    let mut f = init(800, 600);
    f.render();
    let plan = f.resize(1024, 768);
    assert_eq!(plan.retired, ImageView::Offscreen(0));
    assert_eq!(plan.offscreen, ImageView::Offscreen(1));
    assert_eq!(plan.texture, offscreen_texture_desc(TextureFormat::Bgra8UnormSrgb, 1024, 768));
    assert_eq!((plan.width, plan.height), (1024, 768));
    assert_eq!((f.offscreen().width, f.offscreen().height), (1024, 768));
    let frame = f.render();
    assert_eq!(frame.scene_target, ImageView::Offscreen(1));
    assert_ne!(frame.scene_target, plan.retired);
    let v = f.fxaa().volatile_bindings().as_ref().unwrap();
    assert_eq!(v.entries[0].resource, BindingResource::TextureView(ImageView::Offscreen(1)));
    let u = uniform(&f);
    assert_eq!(u, ReciprocalSize { width: 1024, height: 768 });
    assert_eq!(1.0f32 / u.width as f32, 1.0f32 / 1024.0f32);
    assert_eq!(1.0f32 / u.height as f32, 1.0f32 / 768.0f32);
}

#[test]
fn every_resize_starts_a_new_generation() {
    let mut f = init(8, 8);
    for i in 1..4u64 {
        let plan = f.resize(8 * i as u32, 4);
        assert_eq!(plan.retired, ImageView::Offscreen(i - 1));
        assert_eq!(plan.offscreen, ImageView::Offscreen(i));
        assert_eq!(f.generation(), i);
    }
}
