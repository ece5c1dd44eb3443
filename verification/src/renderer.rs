//! Rendering a drawing's mesh into an output attachment, with a depth texture that
//! follows the size of the attachment.
//!
//! The renderer keeps the description of its resources and records the pass of each
//! frame. Creating the resources on a device, and turning a mesh into vertices, is
//! left to the owner of the device.

use vstd::prelude::*;
use crate::render_pass::{
    Builder, Color, ColorAttachmentDescriptor, ColorAttachmentDescriptorBuilder,
    DepthStencilAttachmentDescriptorBuilder, LoadOp, Operations, RenderCommand, RenderPass,
    TextureView,
};
use crate::render_pass::default_depth_stencil_attachment;
use crate::reshaper::{BindGroupLayoutEntry, BindingResource, VertexAttribute, VertexFormat};
use crate::spirv::{SpirvError, is_spirv, read_spirv, spirv_error, spirv_words};

verus! {

/// An error that occurs while drawing.
#[derive(Clone, Copy, Debug, PartialEq, Eq, Structural)]
pub struct DrawError;

/// The `Vertex` type passed to the vertex shader. Every component is a binary32 bit
/// pattern.
#[derive(Clone, Copy, Debug, PartialEq, Eq)]
pub struct Vertex {
    /// The position of the vertex within vector space.
    ///
    /// [-1.0, 1.0, 0.0] is the leftmost, bottom position of the display.
    /// [1.0, -1.0, 0.0] is the rightmost, top position of the display.
    pub position: [u32; 3],
    /// A color associated with the `Vertex`, in the linear sRGB format.
    pub color: [u32; 4],
    /// The coordinates of the texture used by this `Vertex`.
    ///
    /// [0.0, 0.0] is the leftmost, bottom position of the texture.
    /// [1.0, 1.0] is the rightmost, top position of the texture.
    pub tex_coords: [u32; 2],
}

/// The size of a vertex in bytes.
pub const VERTEX_STRIDE: u64 = 36;

/// The formats of a depth texture.
#[derive(Clone, Copy, Debug, PartialEq, Eq, Structural)]
pub enum DepthFormat {
    Depth16Unorm,
    Depth24Plus,
    Depth24PlusStencil8,
    Depth32Float,
    Depth32FloatStencil8,
}

impl DepthFormat {
    /// Whether the format holds a stencil value beside the depth.
    pub open spec fn spec_has_stencil(self) -> bool {
        self == DepthFormat::Depth24PlusStencil8 || self == DepthFormat::Depth32FloatStencil8
    }

    /// Whether the format holds a stencil value beside the depth.
    #[verifier::when_used_as_spec(spec_has_stencil)]
    pub fn has_stencil(self) -> (stencil: bool)
        ensures
            stencil == self.spec_has_stencil(),
    {
        match self {
            DepthFormat::Depth24PlusStencil8 | DepthFormat::Depth32FloatStencil8 => true,
            _ => false,
        }
    }
}

/// The usage bit of a texture that a pass renders to.
pub const OUTPUT_ATTACHMENT: u32 = 16;

/// What a texture is created from. `F` is the type of its format.
#[derive(Clone, Copy, Debug, PartialEq, Eq, Structural)]
pub struct TextureDescriptor<F> {
    pub width: u32,
    pub height: u32,
    pub sample_count: u32,
    pub format: F,
    /// The set of usages, one bit each.
    pub usage: u32,
}

/// The render pipeline of a renderer. `F` is the format of the output attachment.
#[derive(Debug)]
pub struct RenderPipelineDescriptor<F> {
    pub color_format: F,
    pub depth_format: DepthFormat,
    pub sample_count: u32,
    pub vertex_stride: u64,
    pub vertex_attributes: Vec<VertexAttribute>,
}

/// The size of an attribute in bytes.
pub open spec fn format_size(format: VertexFormat) -> int {
    match format {
        VertexFormat::Float2 => 8,
        VertexFormat::Float3 => 12,
        VertexFormat::Float4 => 16,
    }
}

/// The attributes of a vertex: its position, its colour and its texture coordinates.
pub open spec fn spec_vertex_attributes() -> Seq<VertexAttribute> {
    seq![
        VertexAttribute { format: VertexFormat::Float3, offset: 0, shader_location: 0 },
        VertexAttribute { format: VertexFormat::Float4, offset: 12, shader_location: 1 },
        VertexAttribute { format: VertexFormat::Float2, offset: 28, shader_location: 2 },
    ]
}

/// Lays out the attributes of a vertex, each right behind the one before.
pub fn vertex_attributes() -> (attributes: Vec<VertexAttribute>)
    ensures
        attributes@ == spec_vertex_attributes(),
{
    let position_offset: u64 = 0;
    let position_size: u64 = 12;
    let rgba_offset: u64 = position_offset + position_size;
    let rgba_size: u64 = 16;
    let tex_coords_offset: u64 = rgba_offset + rgba_size;
    let mut attributes: Vec<VertexAttribute> = Vec::new();
    attributes.push(
        VertexAttribute { format: VertexFormat::Float3, offset: position_offset, shader_location: 0 },
    );
    attributes.push(
        VertexAttribute { format: VertexFormat::Float4, offset: rgba_offset, shader_location: 1 },
    );
    attributes.push(
        VertexAttribute {
            format: VertexFormat::Float2,
            offset: tex_coords_offset,
            shader_location: 2,
        },
    );
    assert(attributes@ =~= spec_vertex_attributes());
    attributes
}

/// The attributes lie one after the other without a gap, in the order of their shader
/// locations, and together they fill the stride.
pub proof fn lemma_vertex_attributes_packed()
    ensures
        spec_vertex_attributes()[0].offset == 0,
        forall|i: int|
            0 <= i < spec_vertex_attributes().len() ==> (#[trigger] spec_vertex_attributes()[
                i
            ]).shader_location == i,
        forall|i: int|
            0 <= i < spec_vertex_attributes().len() - 1 ==> (#[trigger] spec_vertex_attributes()[i
                + 1]).offset == spec_vertex_attributes()[i].offset + format_size(
                spec_vertex_attributes()[i].format,
            ),
        spec_vertex_attributes().last().offset + format_size(
            spec_vertex_attributes().last().format,
        ) == VERTEX_STRIDE,
{
}

/// The depth texture for an output attachment of the given size.
pub open spec fn spec_depth_texture(
    size: [u32; 2],
    depth_format: DepthFormat,
    sample_count: u32,
) -> TextureDescriptor<DepthFormat> {
    TextureDescriptor {
        width: size[0],
        height: size[1],
        sample_count,
        format: depth_format,
        usage: OUTPUT_ATTACHMENT,
    }
}

/// Describes the depth texture for an output attachment of the given size.
pub fn create_depth_texture(size: [u32; 2], depth_format: DepthFormat, sample_count: u32) -> (texture:
    TextureDescriptor<DepthFormat>)
    ensures
        texture == spec_depth_texture(size, depth_format, sample_count),
{
    TextureDescriptor {
        width: size[0],
        height: size[1],
        sample_count,
        format: depth_format,
        usage: OUTPUT_ATTACHMENT,
    }
}

/// The bind group layout of the renderer: it binds nothing.
pub fn bind_group_layout() -> (layout: Vec<BindGroupLayoutEntry>)
    ensures
        layout@ == Seq::<BindGroupLayoutEntry>::empty(),
{
    Vec::new()
}

/// The bind group of the renderer: it binds nothing.
pub fn bind_group() -> (group: Vec<BindingResource>)
    ensures
        group@ == Seq::<BindingResource>::empty(),
{
    Vec::new()
}

/// Describes the render pipeline of a renderer: the given formats and sample count,
/// and the layout of a vertex.
pub fn render_pipeline<F>(dst_format: F, depth_format: DepthFormat, msaa_samples: u32) -> (pipeline:
    RenderPipelineDescriptor<F>)
    ensures
        pipeline.color_format == dst_format,
        pipeline.depth_format == depth_format,
        pipeline.sample_count == msaa_samples,
        pipeline.vertex_stride == VERTEX_STRIDE,
        pipeline.vertex_attributes@ == spec_vertex_attributes(),
{
    RenderPipelineDescriptor {
        color_format: dst_format,
        depth_format,
        sample_count: msaa_samples,
        vertex_stride: VERTEX_STRIDE,
        vertex_attributes: vertex_attributes(),
    }
}

/// A helper type aimed at simplifying the rendering of a drawing's mesh.
///
/// `F` is the format of the output attachment.
#[derive(Debug)]
pub struct Renderer<F> {
    /// The words of the vertex shader.
    pub vs_mod: Vec<u32>,
    /// The words of the fragment shader.
    pub fs_mod: Vec<u32>,
    pub render_pipeline: RenderPipelineDescriptor<F>,
    pub depth_texture: TextureDescriptor<DepthFormat>,
    pub bind_group_layout: Vec<BindGroupLayoutEntry>,
    pub bind_group: Vec<BindingResource>,
    /// The vertices of the last pass.
    pub vertices: Vec<Vertex>,
    /// The indices of the last pass.
    pub indices: Vec<u32>,
}

/// The load operation of the output attachment: what it holds is kept where the
/// drawing has no background colour, else it is cleared to that colour.
pub open spec fn spec_load_op(background: Option<Color>) -> LoadOp<Color> {
    match background {
        None => LoadOp::Load,
        Some(color) => LoadOp::Clear(color),
    }
}

/// The indices of a mesh as the index buffer holds them: each one cut to 32 bits.
pub open spec fn spec_indices(mesh_indices: Seq<usize>) -> Seq<u32> {
    Seq::new(mesh_indices.len(), |i: int| mesh_indices[i] as u32)
}

/// The commands of one pass: every index is drawn, once.
pub open spec fn spec_commands(index_count: usize) -> Seq<RenderCommand> {
    seq![
        RenderCommand::SetPipeline,
        RenderCommand::SetBindGroup { index: 0 },
        RenderCommand::SetIndexBuffer { offset: 0 },
        RenderCommand::SetVertexBuffer { slot: 0 },
        RenderCommand::DrawIndexed {
            first_index: 0,
            end_index: index_count as u32,
            base_vertex: 0,
            first_instance: 0,
            end_instance: 1,
        },
    ]
}

impl<F> Renderer<F> {
    /// What holds of a renderer that was just made from the two shader binaries for
    /// an output attachment of the given size, sample count and format.
    pub open spec fn is_initial(
        self,
        vs: Seq<u8>,
        fs: Seq<u8>,
        output_attachment_size: [u32; 2],
        msaa_samples: u32,
        output_attachment_color_format: F,
        depth_format: DepthFormat,
    ) -> bool {
        &&& self.vs_mod@ == spirv_words(vs)
        &&& self.fs_mod@ == spirv_words(fs)
        &&& self.render_pipeline.color_format == output_attachment_color_format
        &&& self.render_pipeline.depth_format == depth_format
        &&& self.render_pipeline.sample_count == msaa_samples
        &&& self.render_pipeline.vertex_stride == VERTEX_STRIDE
        &&& self.render_pipeline.vertex_attributes@ == spec_vertex_attributes()
        &&& self.depth_texture == spec_depth_texture(
            output_attachment_size,
            depth_format,
            msaa_samples,
        )
        &&& self.bind_group_layout@.len() == 0
        &&& self.bind_group@.len() == 0
        &&& self.vertices@.len() == 0
        &&& self.indices@.len() == 0
    }

    /// The error of making a renderer from two shader binaries of which one is no
    /// SPIR-V module: that of the vertex shader comes first.
    pub open spec fn shader_error(vs: Seq<u8>, fs: Seq<u8>) -> SpirvError {
        if !is_spirv(vs) {
            spirv_error(vs)
        } else {
            spirv_error(fs)
        }
    }

    /// Create a **Renderer** targeting an output attachment texture of the given description.
    pub fn from_texture_descriptor(vs: &[u8], fs: &[u8], descriptor: &TextureDescriptor<F>) -> (result:
        Result<Self, SpirvError>) where F: Copy
        ensures
            result is Ok <==> is_spirv(vs@) && is_spirv(fs@),
            result matches Ok(renderer) ==> renderer.is_initial(
                vs@,
                fs@,
                [descriptor.width, descriptor.height],
                descriptor.sample_count,
                descriptor.format,
                DepthFormat::Depth32Float,
            ),
            result matches Err(e) ==> e == Self::shader_error(vs@, fs@),
    {
        Self::new(
            vs,
            fs,
            [descriptor.width, descriptor.height],
            descriptor.sample_count,
            descriptor.format,
        )
    }

    /// Construct a new `Renderer`, with the default depth format of 32-bit floats.
    pub fn new(
        vs: &[u8],
        fs: &[u8],
        output_attachment_size: [u32; 2],
        msaa_samples: u32,
        output_attachment_color_format: F,
    ) -> (result: Result<Self, SpirvError>)
        ensures
            result is Ok <==> is_spirv(vs@) && is_spirv(fs@),
            result matches Ok(renderer) ==> renderer.is_initial(
                vs@,
                fs@,
                output_attachment_size,
                msaa_samples,
                output_attachment_color_format,
                DepthFormat::Depth32Float,
            ),
            result matches Err(e) ==> e == Self::shader_error(vs@, fs@),
    {
        Self::with_depth_format(
            vs,
            fs,
            output_attachment_size,
            msaa_samples,
            output_attachment_color_format,
            DepthFormat::Depth32Float,
        )
    }

    /// The same as **new**, but allows for manually specifying the depth format.
    ///
    /// Fails where one of the two shader binaries is no SPIR-V module.
    pub fn with_depth_format(
        vs: &[u8],
        fs: &[u8],
        output_attachment_size: [u32; 2],
        msaa_samples: u32,
        output_attachment_color_format: F,
        depth_format: DepthFormat,
    ) -> (result: Result<Self, SpirvError>)
        ensures
            result is Ok <==> is_spirv(vs@) && is_spirv(fs@),
            result matches Ok(renderer) ==> renderer.is_initial(
                vs@,
                fs@,
                output_attachment_size,
                msaa_samples,
                output_attachment_color_format,
                depth_format,
            ),
            result matches Err(e) ==> e == Self::shader_error(vs@, fs@),
    {
        // Load shader modules.
        let vs_mod = match read_spirv(vs) {
            Ok(words) => words,
            Err(e) => {
                return Err(e);
            },
        };
        let fs_mod = match read_spirv(fs) {
            Ok(words) => words,
            Err(e) => {
                return Err(e);
            },
        };

        // Describe the depth texture.
        let depth_texture = create_depth_texture(output_attachment_size, depth_format, msaa_samples);

        // Describe the render pipeline.
        let bind_group_layout = bind_group_layout();
        let bind_group = bind_group();
        let render_pipeline = render_pipeline(
            output_attachment_color_format,
            depth_format,
            msaa_samples,
        );
        let vertices = Vec::new();
        let indices = Vec::new();

        Ok(
            Renderer {
                vs_mod,
                fs_mod,
                render_pipeline,
                depth_texture,
                bind_group_layout,
                bind_group,
                vertices,
                indices,
            },
        )
    }

    /// Resize the depth texture if the output attachment size has changed. Returns
    /// whether it has: the depth texture is then to be created anew, with its format
    /// and sample count as before.
    pub fn resize_depth_texture(&mut self, output_attachment_size: [u32; 2]) -> (resized: bool)
        ensures
            resized == (old(self).depth_texture.width != output_attachment_size[0] || old(
                self,
            ).depth_texture.height != output_attachment_size[1]),
            !resized ==> final(self).depth_texture == old(self).depth_texture,
            resized ==> final(self).depth_texture == spec_depth_texture(
                output_attachment_size,
                old(self).depth_texture.format,
                old(self).depth_texture.sample_count,
            ),
            final(self).vs_mod == old(self).vs_mod,
            final(self).fs_mod == old(self).fs_mod,
            final(self).render_pipeline == old(self).render_pipeline,
            final(self).bind_group_layout == old(self).bind_group_layout,
            final(self).bind_group == old(self).bind_group,
            final(self).vertices == old(self).vertices,
            final(self).indices == old(self).indices,
    {
        let resized = self.depth_texture.width != output_attachment_size[0]
            || self.depth_texture.height != output_attachment_size[1];
        if resized {
            let depth_format = self.depth_texture.format;
            let sample_count = self.depth_texture.sample_count;
            self.depth_texture = create_depth_texture(
                output_attachment_size,
                depth_format,
                sample_count,
            );
        }
        resized
    }
}

impl<F> Renderer<F> {
    /// Encode a render pass with the given mesh to the given `output_attachment`.
    ///
    /// The depth texture follows the size of the output attachment: where it had
    /// another size, the first of the results is `true`, and the depth texture is to be
    /// created anew before the pass is replayed. `depth_texture_view` stands for the
    /// view of the depth texture in the pass.
    ///
    /// If the `output_attachment` is multisampled and should be resolved to another texture,
    /// include the `resolve_target`.
    pub fn encode_render_pass<'a, T>(
        &mut self,
        background: Option<Color>,
        vertices: Vec<Vertex>,
        mesh_indices: &[usize],
        output_attachment_size: [u32; 2],
        output_attachment: &'a T,
        resolve_target: Option<&'a TextureView<T>>,
        depth_texture_view: &'a T,
    ) -> (encoded: (bool, RenderPass<'a, T>))
        ensures
            encoded.0 == (old(self).depth_texture.width != output_attachment_size[0] || old(
                self,
            ).depth_texture.height != output_attachment_size[1]),
            !encoded.0 ==> final(self).depth_texture == old(self).depth_texture,
            encoded.0 ==> final(self).depth_texture == spec_depth_texture(
                output_attachment_size,
                old(self).depth_texture.format,
                old(self).depth_texture.sample_count,
            ),
            final(self).vertices == vertices,
            final(self).indices@ == spec_indices(mesh_indices@),
            final(self).vs_mod == old(self).vs_mod,
            final(self).fs_mod == old(self).fs_mod,
            final(self).render_pipeline == old(self).render_pipeline,
            final(self).bind_group_layout == old(self).bind_group_layout,
            final(self).bind_group == old(self).bind_group,
            encoded.1.color_attachments@ == seq![
                ColorAttachmentDescriptor {
                    attachment: output_attachment,
                    resolve_target: match resolve_target {
                        Some(view) => Some(&view.handle),
                        None => None,
                    },
                    ops: Operations { load: spec_load_op(background), store: true },
                },
            ],
            encoded.1.depth_stencil_attachment == Some(
                default_depth_stencil_attachment(depth_texture_view),
            ),
            encoded.1.commands@ == spec_commands(mesh_indices@.len() as usize),
    {
        // Resize the depth texture if the output attachment size has changed.
        let resized = self.resize_depth_texture(output_attachment_size);

        // Retrieve the clear values based on the bg color.
        let load_op = match background {
            None => LoadOp::Load,
            Some(color) => LoadOp::Clear(color),
        };

        // Keep the vertices and the indices of this pass.
        self.vertices = vertices;
        let mut indices: Vec<u32> = Vec::new();
        let mut i: usize = 0;
        while i < mesh_indices.len()
            invariant
                0 <= i <= mesh_indices.len(),
                indices@.len() == i,
                forall|j: int| 0 <= j < i ==> indices@[j] == mesh_indices@[j] as u32,
            decreases mesh_indices.len() - i,
        {
            indices.push(#[verifier::truncate] (mesh_indices[i] as u32));
            i += 1;
        }
        assert(indices@ =~= spec_indices(mesh_indices@));
        let index_count = #[verifier::truncate] (indices.len() as u32);
        self.indices = indices;

        // Encode the render pass.
        let color = |color: ColorAttachmentDescriptorBuilder<'a, T>| -> (out:
            ColorAttachmentDescriptorBuilder<'a, T>)
            ensures
                out.descriptor().attachment == color.descriptor().attachment,
                out.descriptor().resolve_target == match resolve_target {
                    Some(view) => Some(&view.handle),
                    None => None,
                },
                out.descriptor().ops == (Operations {
                    load: load_op,
                    store: color.descriptor().ops.store,
                }),
            { color.resolve_target(resolve_target).load_op(load_op) };
        let depth = |depth: DepthStencilAttachmentDescriptorBuilder<'a, T>| -> (out:
            DepthStencilAttachmentDescriptorBuilder<'a, T>)
            ensures
                out == depth,
            { depth };
        let builder = Builder::new().color_attachment(output_attachment, color);
        let builder = builder.depth_stencil_attachment(depth_texture_view, depth);
        let mut pass = builder.begin();
        assert(pass.color_attachments@ =~= seq![
            ColorAttachmentDescriptor {
                attachment: output_attachment,
                resolve_target: match resolve_target {
                    Some(view) => Some(&view.handle),
                    None => None,
                },
                ops: Operations { load: spec_load_op(background), store: true },
            },
        ]);
        pass.record(RenderCommand::SetPipeline);
        pass.record(RenderCommand::SetBindGroup { index: 0 });
        pass.record(RenderCommand::SetIndexBuffer { offset: 0 });
        pass.record(RenderCommand::SetVertexBuffer { slot: 0 });
        pass.record(
            RenderCommand::DrawIndexed {
                first_index: 0,
                end_index: index_count,
                base_vertex: 0,
                first_instance: 0,
                end_instance: 1,
            },
        );
        assert(pass.commands@ =~= spec_commands(mesh_indices@.len() as usize));
        (resized, pass)
    }
}

/// The target of a frame: the view of the texture that the frame is drawn to.
#[derive(Debug)]
pub struct Frame<T> {
    pub texture_view: TextureView<T>,
}

impl<F> Renderer<F> {
    /// Encode the necessary commands to render the given mesh to the given texture:
    /// over its whole size, with nothing to resolve into.
    pub fn render_to_texture<'a, T>(
        &mut self,
        background: Option<Color>,
        vertices: Vec<Vertex>,
        mesh_indices: &[usize],
        texture: &'a TextureView<T>,
        depth_texture_view: &'a T,
    ) -> (encoded: (bool, RenderPass<'a, T>))
        ensures
            encoded.0 == (old(self).depth_texture.width != texture.size[0] || old(
                self,
            ).depth_texture.height != texture.size[1]),
            !encoded.0 ==> final(self).depth_texture == old(self).depth_texture,
            encoded.0 ==> final(self).depth_texture == spec_depth_texture(
                texture.size,
                old(self).depth_texture.format,
                old(self).depth_texture.sample_count,
            ),
            final(self).vertices == vertices,
            final(self).indices@ == spec_indices(mesh_indices@),
            final(self).vs_mod == old(self).vs_mod,
            final(self).fs_mod == old(self).fs_mod,
            final(self).render_pipeline == old(self).render_pipeline,
            final(self).bind_group_layout == old(self).bind_group_layout,
            final(self).bind_group == old(self).bind_group,
            encoded.1.color_attachments@ == seq![
                ColorAttachmentDescriptor {
                    attachment: &texture.handle,
                    resolve_target: None,
                    ops: Operations { load: spec_load_op(background), store: true },
                },
            ],
            encoded.1.depth_stencil_attachment == Some(
                default_depth_stencil_attachment(depth_texture_view),
            ),
            encoded.1.commands@ == spec_commands(mesh_indices@.len() as usize),
    {
        let size = texture.size;
        let resolve_target = None;
        self.encode_render_pass(
            background,
            vertices,
            mesh_indices,
            size,
            &texture.handle,
            resolve_target,
            depth_texture_view,
        )
    }

    /// Encode the necessary commands to render the given mesh to the given frame:
    /// over the whole size of its texture, with nothing to resolve into.
    pub fn render_to_frame<'a, T>(
        &mut self,
        background: Option<Color>,
        vertices: Vec<Vertex>,
        mesh_indices: &[usize],
        frame: &'a Frame<T>,
        depth_texture_view: &'a T,
    ) -> (encoded: (bool, RenderPass<'a, T>))
        ensures
            encoded.0 == (old(self).depth_texture.width != frame.texture_view.size[0] || old(
                self,
            ).depth_texture.height != frame.texture_view.size[1]),
            !encoded.0 ==> final(self).depth_texture == old(self).depth_texture,
            encoded.0 ==> final(self).depth_texture == spec_depth_texture(
                frame.texture_view.size,
                old(self).depth_texture.format,
                old(self).depth_texture.sample_count,
            ),
            final(self).vertices == vertices,
            final(self).indices@ == spec_indices(mesh_indices@),
            final(self).vs_mod == old(self).vs_mod,
            final(self).fs_mod == old(self).fs_mod,
            final(self).render_pipeline == old(self).render_pipeline,
            final(self).bind_group_layout == old(self).bind_group_layout,
            final(self).bind_group == old(self).bind_group,
            encoded.1.color_attachments@ == seq![
                ColorAttachmentDescriptor {
                    attachment: &frame.texture_view.handle,
                    resolve_target: None,
                    ops: Operations { load: spec_load_op(background), store: true },
                },
            ],
            encoded.1.depth_stencil_attachment == Some(
                default_depth_stencil_attachment(depth_texture_view),
            ),
            encoded.1.commands@ == spec_commands(mesh_indices@.len() as usize),
    {
        let size = frame.texture_view.size;
        let attachment = &frame.texture_view.handle;
        let resolve_target = None;
        self.encode_render_pass(
            background,
            vertices,
            mesh_indices,
            size,
            attachment,
            resolve_target,
            depth_texture_view,
        )
    }
}

} // verus!
