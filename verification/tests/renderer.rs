use nannou::render_pass::{Color, LoadOp, RenderCommand, TextureView};
use nannou::renderer::{
    bind_group, bind_group_layout, create_depth_texture, render_pipeline, vertex_attributes,
    DepthFormat, Frame, Renderer, TextureDescriptor, Vertex, OUTPUT_ATTACHMENT, VERTEX_STRIDE,
};
use nannou::reshaper::{VertexAttribute, VertexFormat};
use nannou::spirv::SpirvError;

const VS: [u8; 8] = [0x03, 0x02, 0x23, 0x07, 1, 0, 0, 0];
const FS: [u8; 8] = [0x07, 0x23, 0x02, 0x03, 0, 0, 0, 2];

fn renderer() -> Renderer<&'static str> {
    Renderer::new(&VS, &FS, [800, 600], 4, "bgra8").unwrap()
}

fn vertex(x: f32) -> Vertex {
    Vertex { position: [x.to_bits(); 3], color: [1.0f32.to_bits(); 4], tex_coords: [0; 2] }
}

#[test]
fn vertex_layout() {
    assert_eq!(
        vertex_attributes(),
        vec![
            VertexAttribute { format: VertexFormat::Float3, offset: 0, shader_location: 0 },
            VertexAttribute { format: VertexFormat::Float4, offset: 12, shader_location: 1 },
            VertexAttribute { format: VertexFormat::Float2, offset: 28, shader_location: 2 },
        ]
    );
    assert_eq!(VERTEX_STRIDE, 36);
    assert_eq!(VERTEX_STRIDE as usize, std::mem::size_of::<Vertex>());
}

#[test]
fn depth_texture_description() {
    let t = create_depth_texture([640, 480], DepthFormat::Depth24Plus, 2);
    assert_eq!(
        t,
        TextureDescriptor {
            width: 640,
            height: 480,
            sample_count: 2,
            format: DepthFormat::Depth24Plus,
            usage: 16,
        }
    );
    assert_eq!(OUTPUT_ATTACHMENT, 16);
}

#[test]
fn renderer_binds_nothing() {
    assert!(bind_group_layout().is_empty());
    assert!(bind_group().is_empty());
}

#[test]
fn renderer_pipeline() {
    let p = render_pipeline("rgba8", DepthFormat::Depth32Float, 8);
    assert_eq!(p.color_format, "rgba8");
    assert_eq!(p.depth_format, DepthFormat::Depth32Float);
    assert_eq!(p.sample_count, 8);
    assert_eq!(p.vertex_stride, 36);
    assert_eq!(p.vertex_attributes, vertex_attributes());
}

#[test]
fn new_renderer() {
    let r = renderer();
    assert_eq!(r.vs_mod, vec![0x0723_0203, 1]);
    assert_eq!(r.fs_mod, vec![0x0723_0203, 2]);
    assert_eq!(r.render_pipeline.color_format, "bgra8");
    assert_eq!(r.render_pipeline.depth_format, DepthFormat::Depth32Float);
    assert_eq!(r.render_pipeline.sample_count, 4);
    assert_eq!(r.depth_texture, create_depth_texture([800, 600], DepthFormat::Depth32Float, 4));
    assert!(r.bind_group_layout.is_empty());
    assert!(r.bind_group.is_empty());
    assert!(r.vertices.is_empty());
    assert!(r.indices.is_empty());
}

#[test]
fn renderer_with_depth_format() {
    let r = Renderer::with_depth_format(&VS, &FS, [1, 2], 1, 0u8, DepthFormat::Depth24PlusStencil8)
        .unwrap();
    assert_eq!(r.render_pipeline.depth_format, DepthFormat::Depth24PlusStencil8);
    assert_eq!(r.depth_texture.format, DepthFormat::Depth24PlusStencil8);
    assert_eq!(r.depth_texture.width, 1);
    assert_eq!(r.depth_texture.height, 2);
    assert_eq!(r.depth_texture.sample_count, 1);
}

#[test]
fn renderer_from_texture_descriptor() {
    let d = TextureDescriptor { width: 320, height: 200, sample_count: 2, format: 7u8, usage: 20 };
    let r = Renderer::from_texture_descriptor(&VS, &FS, &d).unwrap();
    assert_eq!(r.render_pipeline.color_format, 7);
    assert_eq!(r.render_pipeline.sample_count, 2);
    assert_eq!(r.render_pipeline.depth_format, DepthFormat::Depth32Float);
    assert_eq!(r.depth_texture, create_depth_texture([320, 200], DepthFormat::Depth32Float, 2));
}

#[test]
fn renderer_rejects_bad_shaders() {
    let bad = [1u8, 2, 3, 4];
    let odd = [0x03u8, 0x02, 0x23, 0x07, 9];
    assert_eq!(Renderer::new(&bad, &FS, [1, 1], 1, ()).err(), Some(SpirvError::MissingMagicNumber));
    assert_eq!(Renderer::new(&VS, &odd, [1, 1], 1, ()).err(), Some(SpirvError::UnalignedLength));
    assert_eq!(Renderer::new(&[], &odd, [1, 1], 1, ()).err(), Some(SpirvError::Empty));
    assert_eq!(Renderer::new(&odd, &[], [1, 1], 1, ()).err(), Some(SpirvError::UnalignedLength));
}

#[test]
fn depth_texture_follows_the_size() {
    let mut r = renderer();
    assert!(!r.resize_depth_texture([800, 600]));
    assert_eq!(r.depth_texture, create_depth_texture([800, 600], DepthFormat::Depth32Float, 4));
    assert!(r.resize_depth_texture([800, 601]));
    assert_eq!(r.depth_texture, create_depth_texture([800, 601], DepthFormat::Depth32Float, 4));
    assert!(r.resize_depth_texture([1, 601]));
    assert_eq!(r.depth_texture, create_depth_texture([1, 601], DepthFormat::Depth32Float, 4));
    assert!(!r.resize_depth_texture([1, 601]));
}

#[test]
fn pass_without_background_keeps_the_attachment() {
    let mut r = renderer();
    let out = 1u32;
    let depth = 2u32;
    let (resized, pass) =
        r.encode_render_pass(None, vec![vertex(0.5)], &[0, 0, 0], [800, 600], &out, None, &depth);
    assert!(!resized);
    assert_eq!(pass.color_attachments.len(), 1);
    assert_eq!(*pass.color_attachments[0].attachment, 1);
    assert!(pass.color_attachments[0].resolve_target.is_none());
    assert_eq!(pass.color_attachments[0].ops.load, LoadOp::Load);
    assert!(pass.color_attachments[0].ops.store);
    let d = pass.depth_stencil_attachment.as_ref().unwrap();
    assert_eq!(*d.attachment, 2);
    assert_eq!(d.depth_ops.load, LoadOp::Clear(1.0f32.to_bits()));
    assert!(d.depth_ops.store);
    assert_eq!(d.stencil_ops.load, LoadOp::Clear(0));
    assert!(d.stencil_ops.store);
}

#[test]
fn pass_with_background_clears_to_it() {
    let mut r = renderer();
    let out = 1u32;
    let depth = 2u32;
    let target = TextureView { handle: 3u32, size: [800, 600] };
    let bg = Color { r: 0.25f64.to_bits(), g: 0.5f64.to_bits(), b: 0.75f64.to_bits(), a: 1.0f64.to_bits() };
    let (_, pass) =
        r.encode_render_pass(Some(bg), vec![], &[], [800, 600], &out, Some(&target), &depth);
    assert_eq!(pass.color_attachments[0].ops.load, LoadOp::Clear(bg));
    assert_eq!(pass.color_attachments[0].resolve_target, Some(&3));
}

#[test]
fn pass_draws_every_index_once() {
    let mut r = renderer();
    let out = 1u32;
    let depth = 2u32;
    let vertices = vec![vertex(0.0), vertex(1.0), vertex(2.0)];
    let (_, pass) =
        r.encode_render_pass(None, vertices.clone(), &[0, 1, 2, 2, 1, 0], [800, 600], &out, None, &depth);
    assert_eq!(
        pass.commands,
        vec![
            RenderCommand::SetPipeline,
            RenderCommand::SetBindGroup { index: 0 },
            RenderCommand::SetIndexBuffer { offset: 0 },
            RenderCommand::SetVertexBuffer { slot: 0 },
            RenderCommand::DrawIndexed {
                first_index: 0,
                end_index: 6,
                base_vertex: 0,
                first_instance: 0,
                end_instance: 1,
            },
        ]
    );
    assert_eq!(r.vertices, vertices);
    assert_eq!(r.indices, vec![0, 1, 2, 2, 1, 0]);
}

#[test]
fn pass_replaces_the_mesh_of_the_last_pass() {
    let mut r = renderer();
    let out = 1u32;
    let depth = 2u32;
    let _ = r.encode_render_pass(None, vec![vertex(0.0); 4], &[0, 1, 2, 3], [800, 600], &out, None, &depth);
    let (_, pass) = r.encode_render_pass(None, vec![vertex(9.0)], &[0], [800, 600], &out, None, &depth);
    assert_eq!(r.vertices, vec![vertex(9.0)]);
    assert_eq!(r.indices, vec![0]);
    assert_eq!(
        pass.commands[4],
        RenderCommand::DrawIndexed {
            first_index: 0,
            end_index: 1,
            base_vertex: 0,
            first_instance: 0,
            end_instance: 1,
        }
    );
}

#[test]
fn indices_are_cut_to_32_bits() {
    let mut r = renderer();
    let out = 1u32;
    let depth = 2u32;
    let wide = (1usize << 32) + 5;
    let _ = r.encode_render_pass(None, vec![], &[wide, u32::MAX as usize, 7], [800, 600], &out, None, &depth);
    assert_eq!(r.indices, vec![5, u32::MAX, 7]);
}

#[test]
fn pass_resizes_the_depth_texture() {
    let mut r = renderer();
    let out = 1u32;
    let depth = 2u32;
    let (resized, _) = r.encode_render_pass(None, vec![], &[], [1024, 768], &out, None, &depth);
    assert!(resized);
    assert_eq!(r.depth_texture, create_depth_texture([1024, 768], DepthFormat::Depth32Float, 4));
    let (resized, _) = r.encode_render_pass(None, vec![], &[], [1024, 768], &out, None, &depth);
    assert!(!resized);
    assert_eq!(r.render_pipeline.sample_count, 4);
    assert_eq!(r.vs_mod, vec![0x0723_0203, 1]);
}

#[test]
fn render_to_texture_takes_the_size_of_the_texture() {
    let mut r = renderer();
    let texture = TextureView { handle: 11u32, size: [256, 128] };
    let depth = 2u32;
    let (resized, pass) = r.render_to_texture(None, vec![vertex(1.0)], &[0], &texture, &depth);
    assert!(resized);
    assert_eq!(r.depth_texture.width, 256);
    assert_eq!(r.depth_texture.height, 128);
    assert_eq!(*pass.color_attachments[0].attachment, 11);
    assert!(pass.color_attachments[0].resolve_target.is_none());
    assert_eq!(*pass.depth_stencil_attachment.as_ref().unwrap().attachment, 2);
    assert_eq!(pass.commands.len(), 5);
}

#[test]
fn render_to_frame_takes_the_size_of_the_frame() {
    let mut r = renderer();
    let frame = Frame { texture_view: TextureView { handle: 12u32, size: [800, 600] } };
    let depth = 2u32;
    let bg = Color::transparent();
    let (resized, pass) = r.render_to_frame(Some(bg), vec![], &[3, 4], &frame, &depth);
    assert!(!resized);
    assert_eq!(*pass.color_attachments[0].attachment, 12);
    assert_eq!(pass.color_attachments[0].ops.load, LoadOp::Clear(bg));
    assert_eq!(r.indices, vec![3, 4]);
}

#[test]
fn depth_formats_with_stencil() {
    assert!(!DepthFormat::Depth16Unorm.has_stencil());
    assert!(!DepthFormat::Depth24Plus.has_stencil());
    assert!(DepthFormat::Depth24PlusStencil8.has_stencil());
    assert!(!DepthFormat::Depth32Float.has_stencil());
    assert!(DepthFormat::Depth32FloatStencil8.has_stencil());
}
