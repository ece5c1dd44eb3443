//! Building the description of a render pass: its colour attachments, in the order in
//! which they were added, and its depth-stencil attachment.
//!
//! The builders never touch a device. They are generic over `T`, the handle of a
//! texture view, which they only carry by reference.

use vstd::prelude::*;

verus! {

/// An RGBA colour. Each channel holds the IEEE 754 binary64 bit pattern of its value.
#[derive(Clone, Copy, Debug, PartialEq, Eq, Structural)]
pub struct Color {
    pub r: u64,
    pub g: u64,
    pub b: u64,
    pub a: u64,
}

impl Color {
    /// Transparent black: every channel is `0.0`, whose bit pattern is zero.
    pub open spec fn spec_transparent() -> Color {
        Color { r: 0, g: 0, b: 0, a: 0 }
    }

    /// Transparent black.
    #[verifier::when_used_as_spec(spec_transparent)]
    pub fn transparent() -> (color: Color)
        ensures
            color == Color::spec_transparent(),
    {
        Color { r: 0, g: 0, b: 0, a: 0 }
    }
}

/// The binary32 bit pattern of `1.0`, the depth of the far plane.
pub const DEPTH_ONE: u32 = 0x3F80_0000;

/// What happens to an attachment when the pass begins.
#[derive(Clone, Copy, Debug, PartialEq, Eq, Structural)]
pub enum LoadOp<V> {
    /// Every pixel is set to the given value.
    Clear(V),
    /// The existing contents are kept.
    Load,
}

/// The pair of operations at the beginning and at the end of a pass.
#[derive(Clone, Copy, Debug, PartialEq, Eq, Structural)]
pub struct Operations<V> {
    pub load: LoadOp<V>,
    /// Whether the result of the pass is written back to the attachment.
    pub store: bool,
}

/// A texture view handle together with the size of the texture it looks at.
#[derive(Debug)]
pub struct TextureView<T> {
    pub handle: T,
    pub size: [u32; 2],
}

/// One colour attachment of a render pass.
#[derive(Debug)]
pub struct ColorAttachmentDescriptor<'a, T> {
    pub attachment: &'a T,
    pub resolve_target: Option<&'a T>,
    pub ops: Operations<Color>,
}

/// The depth-stencil attachment of a render pass. The depth values are binary32 bit
/// patterns, the stencil values plain integers.
#[derive(Debug)]
pub struct DepthStencilAttachmentDescriptor<'a, T> {
    pub attachment: &'a T,
    pub depth_ops: Operations<u32>,
    pub stencil_ops: Operations<u32>,
}

/// One command recorded in a render pass. Pipelines, buffers and bind groups are not
/// named: a pass is replayed by the owner of the resources it was recorded for.
#[derive(Clone, Copy, Debug, PartialEq, Eq, Structural)]
pub enum RenderCommand {
    /// Use the owner's render pipeline.
    SetPipeline,
    /// Bind the owner's bind group at the given index, without dynamic offsets.
    SetBindGroup { index: u32 },
    /// Bind the whole of the owner's vertex buffer to the given slot.
    SetVertexBuffer { slot: u32 },
    /// Bind the owner's index buffer, starting at the given byte offset.
    SetIndexBuffer { offset: u64 },
    /// Draw the vertices `first_vertex..end_vertex`, once for each instance.
    Draw { first_vertex: u32, end_vertex: u32, first_instance: u32, end_instance: u32 },
    /// Draw the indices `first_index..end_index`, once for each instance.
    DrawIndexed {
        first_index: u32,
        end_index: u32,
        base_vertex: i32,
        first_instance: u32,
        end_instance: u32,
    },
}

/// A render pass that has begun: its attachments and the commands recorded so far,
/// oldest first.
#[derive(Debug)]
pub struct RenderPass<'a, T> {
    pub color_attachments: Vec<ColorAttachmentDescriptor<'a, T>>,
    pub depth_stencil_attachment: Option<DepthStencilAttachmentDescriptor<'a, T>>,
    pub commands: Vec<RenderCommand>,
}

/// A builder type to simplify the process of creating a render pass descriptor.
#[derive(Debug)]
pub struct Builder<'a, T> {
    color_attachments: Vec<ColorAttachmentDescriptor<'a, T>>,
    depth_stencil_attachment: Option<DepthStencilAttachmentDescriptor<'a, T>>,
}

/// A builder type for one colour attachment of a render pass.
#[derive(Debug)]
pub struct ColorAttachmentDescriptorBuilder<'a, T> {
    descriptor: ColorAttachmentDescriptor<'a, T>,
}

/// A builder type for the depth-stencil attachment of a render pass.
#[derive(Debug)]
pub struct DepthStencilAttachmentDescriptorBuilder<'a, T> {
    descriptor: DepthStencilAttachmentDescriptor<'a, T>,
}

/// The colour attachment that a fresh builder describes: nothing to resolve into,
/// cleared to transparent black, stored.
pub open spec fn default_color_attachment<'a, T>(attachment: &'a T) -> ColorAttachmentDescriptor<
    'a,
    T,
> {
    ColorAttachmentDescriptor {
        attachment,
        resolve_target: None,
        ops: Operations { load: LoadOp::Clear(Color::transparent()), store: true },
    }
}

/// The depth-stencil attachment that a fresh builder describes: depth cleared to `1.0`,
/// stencil cleared to `0`, both stored.
pub open spec fn default_depth_stencil_attachment<'a, T>(
    attachment: &'a T,
) -> DepthStencilAttachmentDescriptor<'a, T> {
    DepthStencilAttachmentDescriptor {
        attachment,
        depth_ops: Operations { load: LoadOp::Clear(DEPTH_ONE), store: true },
        stencil_ops: Operations { load: LoadOp::Clear(0u32), store: true },
    }
}

impl<'a, T> ColorAttachmentDescriptorBuilder<'a, T> {
    /// The descriptor built so far.
    pub closed spec fn descriptor(self) -> ColorAttachmentDescriptor<'a, T> {
        self.descriptor
    }

    /// Begin building a new render pass color attachment descriptor.
    pub fn new(attachment: &'a T) -> (builder: Self)
        ensures
            builder.descriptor() == default_color_attachment(attachment),
    {
        ColorAttachmentDescriptorBuilder {
            descriptor: ColorAttachmentDescriptor {
                attachment,
                resolve_target: None,
                ops: Operations { load: LoadOp::Clear(Color::transparent()), store: true },
            },
        }
    }

    /// Specify the resolve target for this render pass color attachment.
    pub fn resolve_target(self, target: Option<&'a TextureView<T>>) -> (builder: Self)
        ensures
            builder.descriptor().attachment == self.descriptor().attachment,
            builder.descriptor().ops == self.descriptor().ops,
            builder.descriptor().resolve_target == match target {
                Some(view) => Some(&view.handle),
                None => None,
            },
    {
        let mut builder = self;
        builder.descriptor.resolve_target = match target {
            Some(view) => Some(&view.handle),
            None => None,
        };
        builder
    }

    /// Specify the resolve target for this render pass color attachment.
    pub fn resolve_target_handle(self, target: Option<&'a T>) -> (builder: Self)
        ensures
            builder.descriptor().attachment == self.descriptor().attachment,
            builder.descriptor().ops == self.descriptor().ops,
            builder.descriptor().resolve_target == target,
    {
        let mut builder = self;
        builder.descriptor.resolve_target = target;
        builder
    }

    /// The beginning-of-pass load operation for this color attachment.
    pub fn load_op(self, load_op: LoadOp<Color>) -> (builder: Self)
        ensures
            builder.descriptor().attachment == self.descriptor().attachment,
            builder.descriptor().resolve_target == self.descriptor().resolve_target,
            builder.descriptor().ops == (Operations {
                load: load_op,
                store: self.descriptor().ops.store,
            }),
    {
        let mut builder = self;
        builder.descriptor.ops.load = load_op;
        builder
    }

    /// The end-of-pass store operation for this color attachment.
    pub fn store_op(self, store: bool) -> (builder: Self)
        ensures
            builder.descriptor().attachment == self.descriptor().attachment,
            builder.descriptor().resolve_target == self.descriptor().resolve_target,
            builder.descriptor().ops == (Operations { load: self.descriptor().ops.load, store }),
    {
        let mut builder = self;
        builder.descriptor.ops.store = store;
        builder
    }

    /// The color that will be assigned to every pixel of this attachment when cleared.
    pub fn clear_color(self, color: Color) -> (builder: Self)
        ensures
            builder.descriptor().attachment == self.descriptor().attachment,
            builder.descriptor().resolve_target == self.descriptor().resolve_target,
            builder.descriptor().ops == (Operations {
                load: LoadOp::Clear(color),
                store: self.descriptor().ops.store,
            }),
    {
        let mut builder = self;
        builder.descriptor.ops.load = LoadOp::Clear(color);
        builder
    }

    /// Finish, handing out the descriptor.
    pub fn into_descriptor(self) -> (descriptor: ColorAttachmentDescriptor<'a, T>)
        ensures
            descriptor == self.descriptor(),
    {
        self.descriptor
    }
}

impl<'a, T> DepthStencilAttachmentDescriptorBuilder<'a, T> {
    /// The descriptor built so far.
    pub closed spec fn descriptor(self) -> DepthStencilAttachmentDescriptor<'a, T> {
        self.descriptor
    }

    /// Begin building a new render pass depth-stencil attachment descriptor.
    pub fn new(attachment: &'a T) -> (builder: Self)
        ensures
            builder.descriptor() == default_depth_stencil_attachment(attachment),
    {
        DepthStencilAttachmentDescriptorBuilder {
            descriptor: DepthStencilAttachmentDescriptor {
                attachment,
                depth_ops: Operations { load: LoadOp::Clear(DEPTH_ONE), store: true },
                stencil_ops: Operations { load: LoadOp::Clear(0u32), store: true },
            },
        }
    }

    /// The beginning-of-pass load operation for this depth attachment.
    pub fn depth_load_op(self, load_op: LoadOp<u32>) -> (builder: Self)
        ensures
            builder.descriptor().attachment == self.descriptor().attachment,
            builder.descriptor().stencil_ops == self.descriptor().stencil_ops,
            builder.descriptor().depth_ops == (Operations {
                load: load_op,
                store: self.descriptor().depth_ops.store,
            }),
    {
        let mut builder = self;
        builder.descriptor.depth_ops.load = load_op;
        builder
    }

    /// The end-of-pass store operation for this depth attachment.
    pub fn depth_store_op(self, store_op: bool) -> (builder: Self)
        ensures
            builder.descriptor().attachment == self.descriptor().attachment,
            builder.descriptor().stencil_ops == self.descriptor().stencil_ops,
            builder.descriptor().depth_ops == (Operations {
                load: self.descriptor().depth_ops.load,
                store: store_op,
            }),
    {
        let mut builder = self;
        builder.descriptor.depth_ops.store = store_op;
        builder
    }

    /// The value that will be assigned to every pixel of this depth attachment when
    /// cleared, as a binary32 bit pattern.
    pub fn clear_depth(self, depth: u32) -> (builder: Self)
        ensures
            builder.descriptor().attachment == self.descriptor().attachment,
            builder.descriptor().stencil_ops == self.descriptor().stencil_ops,
            builder.descriptor().depth_ops == (Operations {
                load: LoadOp::Clear(depth),
                store: self.descriptor().depth_ops.store,
            }),
    {
        let mut builder = self;
        builder.descriptor.depth_ops.load = LoadOp::Clear(depth);
        builder
    }

    /// The beginning-of-pass load operation for this stencil attachment.
    pub fn stencil_load_op(self, load_op: LoadOp<u32>) -> (builder: Self)
        ensures
            builder.descriptor().attachment == self.descriptor().attachment,
            builder.descriptor().depth_ops == self.descriptor().depth_ops,
            builder.descriptor().stencil_ops == (Operations {
                load: load_op,
                store: self.descriptor().stencil_ops.store,
            }),
    {
        let mut builder = self;
        builder.descriptor.stencil_ops.load = load_op;
        builder
    }

    /// The end-of-pass store operation for this stencil attachment.
    pub fn stencil_store_op(self, store_op: bool) -> (builder: Self)
        ensures
            builder.descriptor().attachment == self.descriptor().attachment,
            builder.descriptor().depth_ops == self.descriptor().depth_ops,
            builder.descriptor().stencil_ops == (Operations {
                load: self.descriptor().stencil_ops.load,
                store: store_op,
            }),
    {
        let mut builder = self;
        builder.descriptor.stencil_ops.store = store_op;
        builder
    }

    /// The value that will be assigned to every pixel of this stencil attachment when cleared.
    pub fn clear_stencil(self, stencil: u32) -> (builder: Self)
        ensures
            builder.descriptor().attachment == self.descriptor().attachment,
            builder.descriptor().depth_ops == self.descriptor().depth_ops,
            builder.descriptor().stencil_ops == (Operations {
                load: LoadOp::Clear(stencil),
                store: self.descriptor().stencil_ops.store,
            }),
    {
        let mut builder = self;
        builder.descriptor.stencil_ops.load = LoadOp::Clear(stencil);
        builder
    }

    /// Finish, handing out the descriptor.
    pub fn into_descriptor(self) -> (descriptor: DepthStencilAttachmentDescriptor<'a, T>)
        ensures
            descriptor == self.descriptor(),
    {
        self.descriptor
    }
}

impl<'a, T> Builder<'a, T> {
    /// The colour attachments added so far, oldest first.
    pub closed spec fn color_attachments(self) -> Seq<ColorAttachmentDescriptor<'a, T>> {
        self.color_attachments@
    }

    /// The depth-stencil attachment, if one was given.
    pub closed spec fn depth_stencil(self) -> Option<DepthStencilAttachmentDescriptor<'a, T>> {
        self.depth_stencil_attachment
    }

    /// Begin building a new render pass descriptor.
    pub fn new() -> (builder: Self)
        ensures
            builder.color_attachments() == Seq::<ColorAttachmentDescriptor<'a, T>>::empty(),
            builder.depth_stencil() is None,
    {
        Builder { color_attachments: Vec::new(), depth_stencil_attachment: None }
    }

    /// Add a single color attachment descriptor to the render pass descriptor.
    ///
    /// Call this multiple times in succession to add multiple color attachments. The
    /// closure receives a fresh attachment builder and returns the configured one.
    pub fn color_attachment<F>(self, attachment: &'a T, color_builder: F) -> (builder: Self) where
        F: FnOnce(ColorAttachmentDescriptorBuilder<'a, T>) -> ColorAttachmentDescriptorBuilder<
            'a,
            T,
        >,

        requires
            forall|fresh: ColorAttachmentDescriptorBuilder<'a, T>|
                fresh.descriptor() == default_color_attachment(attachment) ==> call_requires(
                    color_builder,
                    (fresh,),
                ),
        ensures
            builder.depth_stencil() == self.depth_stencil(),
            builder.color_attachments().len() == self.color_attachments().len() + 1,
            builder.color_attachments().drop_last() == self.color_attachments(),
            exists|fresh: ColorAttachmentDescriptorBuilder<'a, T>, configured: ColorAttachmentDescriptorBuilder<'a, T>|
                fresh.descriptor() == default_color_attachment(attachment)
                && call_ensures(color_builder, (fresh,), configured)
                && builder.color_attachments().last() == configured.descriptor(),
    {
        let mut builder = self;
        let fresh = ColorAttachmentDescriptorBuilder::new(attachment);
        let configured = color_builder(fresh);
        let ghost chosen = configured;
        let descriptor = configured.descriptor;
        builder.color_attachments.push(descriptor);
        proof {
            assert(builder.color_attachments@.drop_last() =~= self.color_attachments@);
            assert(call_ensures(color_builder, (fresh,), chosen));
            assert(builder.color_attachments().last() == chosen.descriptor());
        }
        builder
    }

    /// Add a depth stencil attachment to the render pass.
    ///
    /// This should only be called once, as only a single depth stencil attachment is valid. Only
    /// the attachment submitted last will be used.
    pub fn depth_stencil_attachment<F>(
        self,
        attachment: &'a T,
        depth_stencil_builder: F,
    ) -> (builder: Self) where
        F: FnOnce(
            DepthStencilAttachmentDescriptorBuilder<'a, T>,
        ) -> DepthStencilAttachmentDescriptorBuilder<'a, T>,

        requires
            forall|fresh: DepthStencilAttachmentDescriptorBuilder<'a, T>|
                fresh.descriptor() == default_depth_stencil_attachment(attachment)
                    ==> call_requires(depth_stencil_builder, (fresh,)),
        ensures
            builder.color_attachments() == self.color_attachments(),
            exists|fresh: DepthStencilAttachmentDescriptorBuilder<'a, T>, configured: DepthStencilAttachmentDescriptorBuilder<'a, T>|
                fresh.descriptor() == default_depth_stencil_attachment(attachment)
                && call_ensures(depth_stencil_builder, (fresh,), configured)
                && builder.depth_stencil() == Some(configured.descriptor()),
    {
        let mut builder = self;
        let fresh = DepthStencilAttachmentDescriptorBuilder::new(attachment);
        let configured = depth_stencil_builder(fresh);
        let ghost chosen = configured;
        let descriptor = configured.descriptor;
        builder.depth_stencil_attachment = Some(descriptor);
        proof {
            assert(call_ensures(depth_stencil_builder, (fresh,), chosen));
            assert(builder.depth_stencil() == Some(chosen.descriptor()));
        }
        builder
    }

    /// Return the built color and depth attachments.
    pub fn into_inner(self) -> (inner: (
        Vec<ColorAttachmentDescriptor<'a, T>>,
        Option<DepthStencilAttachmentDescriptor<'a, T>>,
    ))
        ensures
            inner.0@ == self.color_attachments(),
            inner.1 == self.depth_stencil(),
    {
        let Builder { color_attachments, depth_stencil_attachment } = self;
        (color_attachments, depth_stencil_attachment)
    }

    /// Begin a render pass with the specified attachments. Nothing is recorded in it yet.
    pub fn begin(self) -> (pass: RenderPass<'a, T>)
        ensures
            pass.color_attachments@ == self.color_attachments(),
            pass.depth_stencil_attachment == self.depth_stencil(),
            pass.commands@ == Seq::<RenderCommand>::empty(),
    {
        let (color_attachments, depth_stencil_attachment) = self.into_inner();
        RenderPass { color_attachments, depth_stencil_attachment, commands: Vec::new() }
    }
}

impl<'a, T> RenderPass<'a, T> {
    /// Record a command at the end of the pass. The attachments stay as they are.
    pub fn record(&mut self, command: RenderCommand)
        ensures
            final(self).commands@ == old(self).commands@.push(command),
            final(self).color_attachments == old(self).color_attachments,
            final(self).depth_stencil_attachment == old(self).depth_stencil_attachment,
    {
        self.commands.push(command);
    }
}

} // verus!
