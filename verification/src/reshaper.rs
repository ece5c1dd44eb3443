//! Reshaping a texture from its own size, sample count and format to the size,
//! sample count and format of a destination, with one full-screen pass.
//!
//! This module decides what that pass is made of. Creating the resources on a device
//! and replaying the pass is left to the owner of the device.

use vstd::prelude::*;
use crate::render_pass::{Builder, ColorAttachmentDescriptorBuilder, RenderCommand, RenderPass};
use crate::render_pass::default_color_attachment;
use crate::sampler_builder::{SamplerBuilder, SamplerDescriptor, default_descriptor};

verus! {

/// The fragment shaders that exist for resolving a source texture.
#[derive(Clone, Copy, Debug, PartialEq, Eq, Structural)]
pub enum FragmentShader {
    /// For a source that is not multisampled.
    Single,
    /// Unrolled resolve of two samples.
    Msaa2,
    /// Unrolled resolve of four samples.
    Msaa4,
    /// Unrolled resolve of eight samples.
    Msaa8,
    /// Unrolled resolve of sixteen samples.
    Msaa16,
    /// Resolve of any number of samples, read from a uniform buffer.
    Msaa,
}

/// The kind of value that a shader reads from a sampled texture.
#[derive(Clone, Copy, Debug, PartialEq, Eq, Structural)]
pub enum TextureComponentType {
    Float,
    Sint,
    Uint,
}

/// The shader stage to which a binding is visible.
#[derive(Clone, Copy, Debug, PartialEq, Eq, Structural)]
pub enum ShaderStage {
    Vertex,
    Fragment,
    Compute,
}

/// What is bound at one slot of a bind group layout.
#[derive(Clone, Copy, Debug, PartialEq, Eq, Structural)]
pub enum BindingType {
    /// A two-dimensional texture to sample from.
    SampledTexture { multisampled: bool, component_type: TextureComponentType },
    /// A sampler.
    Sampler,
    /// A uniform buffer.
    UniformBuffer { dynamic: bool },
}

/// One slot of a bind group layout. Its binding index is its position in the layout.
#[derive(Clone, Copy, Debug, PartialEq, Eq, Structural)]
pub struct BindGroupLayoutEntry {
    pub visibility: ShaderStage,
    pub ty: BindingType,
}

/// The resource bound at one slot of a bind group, in the order of the layout.
#[derive(Clone, Copy, Debug, PartialEq, Eq, Structural)]
pub enum BindingResource {
    /// The view of the source texture.
    TextureView,
    /// The sampler of the reshaper.
    Sampler,
    /// A range of the uniform buffer, in bytes.
    Buffer { offset: u64, size: u64 },
}

/// The uniform data of the general resolve shader.
#[derive(Clone, Copy, Debug, PartialEq, Eq, Structural)]
pub struct Uniforms {
    pub sample_count: u32,
}

/// The size of the uniform data in bytes.
pub const UNIFORMS_SIZE: u64 = 4;

/// A corner of the full-screen strip. Both coordinates are binary32 bit patterns.
#[derive(Clone, Copy, Debug, PartialEq, Eq, Structural)]
pub struct Vertex {
    pub x: u32,
    pub y: u32,
}

/// The size of a vertex in bytes.
pub const VERTEX_STRIDE: u64 = 8;

/// The binary32 bit pattern of `1.0`.
pub const ONE: u32 = 0x3F80_0000;

/// The binary32 bit pattern of `-1.0`.
pub const MINUS_ONE: u32 = 0xBF80_0000;

/// How assembled vertices form primitives.
#[derive(Clone, Copy, Debug, PartialEq, Eq, Structural)]
pub enum PrimitiveTopology {
    PointList,
    LineList,
    LineStrip,
    TriangleList,
    TriangleStrip,
}

/// The width of an index.
#[derive(Clone, Copy, Debug, PartialEq, Eq, Structural)]
pub enum IndexFormat {
    Uint16,
    Uint32,
}

/// How a fragment is combined with what the target holds.
#[derive(Clone, Copy, Debug, PartialEq, Eq, Structural)]
pub enum Blend {
    /// The fragment replaces it.
    Replace,
    /// The fragment is laid over it by its alpha.
    AlphaBlending,
}

/// The layout of a vertex attribute.
#[derive(Clone, Copy, Debug, PartialEq, Eq, Structural)]
pub enum VertexFormat {
    Float2,
    Float3,
    Float4,
}

/// One attribute of a vertex buffer.
#[derive(Clone, Copy, Debug, PartialEq, Eq, Structural)]
pub struct VertexAttribute {
    pub format: VertexFormat,
    pub offset: u64,
    pub shader_location: u32,
}

/// The label that the pipeline layout is created with.
pub const PIPELINE_LAYOUT_LABEL: &'static str = "nannou_pipeline_layout_descriptor";

/// The label that the buffers are created with.
pub const BUFFER_LABEL: &'static str = "nannou_buffer_init_descriptor";

/// A pipeline layout: the number of bind group layouts it holds and the number of
/// push constant ranges.
#[derive(Clone, Copy, Debug)]
pub struct PipelineLayoutDescriptor {
    pub label: &'static str,
    pub bind_group_layouts: u32,
    pub push_constant_ranges: u32,
}

/// The render pipeline of a reshaper. `F` is the format of the destination texture.
#[derive(Clone, Copy, Debug, PartialEq, Eq, Structural)]
pub struct RenderPipelineDescriptor<F> {
    pub color_format: F,
    pub color_blend: Blend,
    pub alpha_blend: Blend,
    pub vertex_stride: u64,
    pub vertex_attribute: VertexAttribute,
    pub primitive_topology: PrimitiveTopology,
    pub index_format: IndexFormat,
    pub sample_count: u32,
}

/// Whether a fragment shader with an unrolled resolve exists for the sample count.
pub open spec fn spec_unrolled_sample_count(sample_count: u32) -> bool {
    sample_count == 1 || sample_count == 2 || sample_count == 4 || sample_count == 8
        || sample_count == 16
}

/// Whether a fragment shader with an unrolled resolve exists for the sample count:
/// there is one for each of the common sample counts.
#[verifier::when_used_as_spec(spec_unrolled_sample_count)]
pub fn unrolled_sample_count(sample_count: u32) -> (unrolled: bool)
    ensures
        unrolled == spec_unrolled_sample_count(sample_count),
{
    match sample_count {
        1 | 2 | 4 | 8 | 16 => true,
        _ => false,
    }
}

/// The fragment shader for a source with the given sample count.
pub open spec fn spec_fragment_shader(src_sample_count: u32) -> FragmentShader {
    if src_sample_count == 1 {
        FragmentShader::Single
    } else if src_sample_count == 2 {
        FragmentShader::Msaa2
    } else if src_sample_count == 4 {
        FragmentShader::Msaa4
    } else if src_sample_count == 8 {
        FragmentShader::Msaa8
    } else if src_sample_count == 16 {
        FragmentShader::Msaa16
    } else {
        FragmentShader::Msaa
    }
}

/// Chooses the fragment shader for a source with the given sample count.
#[verifier::when_used_as_spec(spec_fragment_shader)]
pub fn fragment_shader(src_sample_count: u32) -> (shader: FragmentShader)
    ensures
        shader == spec_fragment_shader(src_sample_count),
{
    match src_sample_count {
        1 => FragmentShader::Single,
        2 => FragmentShader::Msaa2,
        4 => FragmentShader::Msaa4,
        8 => FragmentShader::Msaa8,
        16 => FragmentShader::Msaa16,
        _ => FragmentShader::Msaa,
    }
}

/// The uniform data to upload: the sample count, where no unrolled shader exists.
pub open spec fn spec_uniforms(src_sample_count: u32) -> Option<Uniforms> {
    if spec_unrolled_sample_count(src_sample_count) {
        None
    } else {
        Some(Uniforms { sample_count: src_sample_count })
    }
}

/// The uniform data to upload for a source with the given sample count, if any.
#[verifier::when_used_as_spec(spec_uniforms)]
pub fn uniforms(src_sample_count: u32) -> (uniforms: Option<Uniforms>)
    ensures
        uniforms == spec_uniforms(src_sample_count),
{
    if unrolled_sample_count(src_sample_count) {
        None
    } else {
        Some(Uniforms { sample_count: src_sample_count })
    }
}

/// The slots of the bind group layout: the source texture, multisampled if it holds
/// more than one sample; the sampler; and the uniform buffer where no unrolled shader
/// exists. All are visible to the fragment stage.
pub open spec fn spec_bind_group_layout(
    src_sample_count: u32,
    src_component_type: TextureComponentType,
) -> Seq<BindGroupLayoutEntry> {
    let fixed = seq![
        BindGroupLayoutEntry {
            visibility: ShaderStage::Fragment,
            ty: BindingType::SampledTexture {
                multisampled: src_sample_count > 1,
                component_type: src_component_type,
            },
        },
        BindGroupLayoutEntry { visibility: ShaderStage::Fragment, ty: BindingType::Sampler },
    ];
    if spec_unrolled_sample_count(src_sample_count) {
        fixed
    } else {
        fixed.push(
            BindGroupLayoutEntry {
                visibility: ShaderStage::Fragment,
                ty: BindingType::UniformBuffer { dynamic: false },
            },
        )
    }
}

/// Lays out the bind group for a source with the given sample count and component
/// type.
pub fn bind_group_layout(src_sample_count: u32, src_component_type: TextureComponentType) -> (layout:
    Vec<BindGroupLayoutEntry>)
    ensures
        layout@ == spec_bind_group_layout(src_sample_count, src_component_type),
{
    let mut layout: Vec<BindGroupLayoutEntry> = Vec::new();
    layout.push(
        BindGroupLayoutEntry {
            visibility: ShaderStage::Fragment,
            ty: BindingType::SampledTexture {
                multisampled: src_sample_count > 1,
                component_type: src_component_type,
            },
        },
    );
    layout.push(BindGroupLayoutEntry { visibility: ShaderStage::Fragment, ty: BindingType::Sampler });
    if !unrolled_sample_count(src_sample_count) {
        layout.push(
            BindGroupLayoutEntry {
                visibility: ShaderStage::Fragment,
                ty: BindingType::UniformBuffer { dynamic: false },
            },
        );
    }
    assert(layout@ =~= spec_bind_group_layout(src_sample_count, src_component_type));
    layout
}

/// The resources of the bind group: the source texture, the sampler, and the whole of
/// the uniform data where there is a uniform buffer.
pub open spec fn spec_bind_group(uniform_buffer: bool) -> Seq<BindingResource> {
    let fixed = seq![BindingResource::TextureView, BindingResource::Sampler];
    if uniform_buffer {
        fixed.push(BindingResource::Buffer { offset: 0, size: UNIFORMS_SIZE })
    } else {
        fixed
    }
}

/// Fills the bind group, with or without the uniform buffer.
pub fn bind_group(uniform_buffer: bool) -> (group: Vec<BindingResource>)
    ensures
        group@ == spec_bind_group(uniform_buffer),
{
    let mut group: Vec<BindingResource> = Vec::new();
    group.push(BindingResource::TextureView);
    group.push(BindingResource::Sampler);
    if uniform_buffer {
        group.push(BindingResource::Buffer { offset: 0, size: UNIFORMS_SIZE });
    }
    assert(group@ =~= spec_bind_group(uniform_buffer));
    group
}

/// The pipeline layout: the one bind group layout, no push constants.
pub fn pipeline_layout() -> (layout: PipelineLayoutDescriptor)
    ensures
        layout.label == PIPELINE_LAYOUT_LABEL,
        layout.bind_group_layouts == 1,
        layout.push_constant_ranges == 0,
{
    PipelineLayoutDescriptor {
        label: PIPELINE_LAYOUT_LABEL,
        bind_group_layouts: 1,
        push_constant_ranges: 0,
    }
}

/// The render pipeline: fragments replace what the destination holds, the vertices
/// are pairs of floats that form a triangle strip.
pub open spec fn spec_render_pipeline<F>(dst_sample_count: u32, dst_format: F) -> RenderPipelineDescriptor<F> {
    RenderPipelineDescriptor {
        color_format: dst_format,
        color_blend: Blend::Replace,
        alpha_blend: Blend::Replace,
        vertex_stride: VERTEX_STRIDE,
        vertex_attribute: VertexAttribute {
            format: VertexFormat::Float2,
            offset: 0,
            shader_location: 0,
        },
        primitive_topology: PrimitiveTopology::TriangleStrip,
        index_format: IndexFormat::Uint16,
        sample_count: dst_sample_count,
    }
}

/// Describes the render pipeline for a destination with the given sample count and
/// format.
pub fn render_pipeline<F>(dst_sample_count: u32, dst_format: F) -> (pipeline: RenderPipelineDescriptor<F>)
    ensures
        pipeline == spec_render_pipeline(dst_sample_count, dst_format),
{
    RenderPipelineDescriptor {
        color_format: dst_format,
        color_blend: Blend::Replace,
        alpha_blend: Blend::Replace,
        vertex_stride: VERTEX_STRIDE,
        vertex_attribute: VertexAttribute {
            format: VertexFormat::Float2,
            offset: 0,
            shader_location: 0,
        },
        primitive_topology: PrimitiveTopology::TriangleStrip,
        index_format: IndexFormat::Uint16,
        sample_count: dst_sample_count,
    }
}

/// The corners of the strip that covers the whole target: top left, bottom left, top
/// right, bottom right.
pub open spec fn spec_vertices() -> Seq<Vertex> {
    seq![
        Vertex { x: MINUS_ONE, y: ONE },
        Vertex { x: MINUS_ONE, y: MINUS_ONE },
        Vertex { x: ONE, y: ONE },
        Vertex { x: ONE, y: MINUS_ONE },
    ]
}

/// The vertices of the full-screen strip.
pub fn vertices() -> (vertices: Vec<Vertex>)
    ensures
        vertices@ == spec_vertices(),
{
    let mut vertices: Vec<Vertex> = Vec::new();
    vertices.push(Vertex { x: MINUS_ONE, y: ONE });
    vertices.push(Vertex { x: MINUS_ONE, y: MINUS_ONE });
    vertices.push(Vertex { x: ONE, y: ONE });
    vertices.push(Vertex { x: ONE, y: MINUS_ONE });
    assert(vertices@ =~= spec_vertices());
    vertices
}

/// Reshapes a texture from its own size, sample count and format to the
/// destination size, sample count and format.
///
/// It holds the description of every resource that the pass needs. `F` is the format
/// of the destination texture.
#[derive(Debug)]
pub struct Reshaper<F> {
    pub fragment_shader: FragmentShader,
    pub sampler: SamplerDescriptor<'static>,
    pub bind_group_layout: Vec<BindGroupLayoutEntry>,
    pub pipeline_layout: PipelineLayoutDescriptor,
    pub render_pipeline: RenderPipelineDescriptor<F>,
    pub uniforms: Option<Uniforms>,
    pub bind_group: Vec<BindingResource>,
    pub vertices: Vec<Vertex>,
}

/// The commands of the reshaping pass: the four corners of the strip, drawn once.
pub open spec fn spec_commands() -> Seq<RenderCommand> {
    seq![
        RenderCommand::SetPipeline,
        RenderCommand::SetVertexBuffer { slot: 0 },
        RenderCommand::SetBindGroup { index: 0 },
        RenderCommand::Draw { first_vertex: 0, end_vertex: 4, first_instance: 0, end_instance: 1 },
    ]
}

impl<F> Reshaper<F> {
    /// Construct a new `Reshaper`.
    ///
    /// The source is sampled with the default sampler. A uniform buffer is part of the
    /// bind group exactly where the sample count of the source has no unrolled shader.
    pub fn new(
        src_sample_count: u32,
        src_component_type: TextureComponentType,
        dst_sample_count: u32,
        dst_format: F,
    ) -> (reshaper: Self)
        ensures
            reshaper.fragment_shader == spec_fragment_shader(src_sample_count),
            reshaper.sampler == default_descriptor(),
            reshaper.bind_group_layout@ == spec_bind_group_layout(
                src_sample_count,
                src_component_type,
            ),
            reshaper.pipeline_layout.label == PIPELINE_LAYOUT_LABEL,
            reshaper.pipeline_layout.bind_group_layouts == 1,
            reshaper.pipeline_layout.push_constant_ranges == 0,
            reshaper.render_pipeline == spec_render_pipeline(dst_sample_count, dst_format),
            reshaper.uniforms == spec_uniforms(src_sample_count),
            reshaper.bind_group@ == spec_bind_group(!spec_unrolled_sample_count(src_sample_count)),
            reshaper.bind_group@.len() == reshaper.bind_group_layout@.len(),
            reshaper.vertices@ == spec_vertices(),
    {
        // Choose the shader modules.
        let fragment_shader = fragment_shader(src_sample_count);

        // Describe the sampler for sampling from the source texture.
        let sampler = SamplerBuilder::new().into_descriptor();

        // Describe the render pipeline.
        let bind_group_layout = bind_group_layout(src_sample_count, src_component_type);
        let pipeline_layout = pipeline_layout();
        let render_pipeline = render_pipeline(dst_sample_count, dst_format);

        // The uniform buffer passes the sample count if we don't have an unrolled resolve
        // fragment shader for it.
        let uniforms = uniforms(src_sample_count);

        // Describe the bind group.
        let bind_group = bind_group(uniforms.is_some());

        // The vertex buffer.
        let vertices = vertices();

        Reshaper {
            fragment_shader,
            sampler,
            bind_group_layout,
            pipeline_layout,
            render_pipeline,
            uniforms,
            bind_group,
            vertices,
        }
    }

    /// Records the render pass that writes the source texture to the destination
    /// texture: the destination is the only attachment, cleared and stored by default.
    pub fn encode_render_pass<'a, T>(&self, dst_texture: &'a T) -> (pass: RenderPass<'a, T>)
        ensures
            pass.color_attachments@ == seq![default_color_attachment(dst_texture)],
            pass.depth_stencil_attachment is None,
            pass.commands@ == spec_commands(),
    {
        let unchanged = |color: ColorAttachmentDescriptorBuilder<'a, T>| -> (out:
            ColorAttachmentDescriptorBuilder<'a, T>)
            ensures
                out == color,
            { color };
        let builder = Builder::new().color_attachment(dst_texture, unchanged);
        assert(builder.color_attachments() =~= seq![default_color_attachment(dst_texture)]);
        let mut pass = builder.begin();
        pass.record(RenderCommand::SetPipeline);
        pass.record(RenderCommand::SetVertexBuffer { slot: 0 });
        pass.record(RenderCommand::SetBindGroup { index: 0 });
        pass.record(
            RenderCommand::Draw { first_vertex: 0, end_vertex: 4, first_instance: 0, end_instance: 1 },
        );
        assert(pass.commands@ =~= spec_commands());
        pass
    }
}

} // verus!
