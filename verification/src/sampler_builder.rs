//! Describing a texture sampler, starting from a set of reasonable defaults.

use vstd::prelude::*;

verus! {

/// How a sampler behaves outside of the texture coordinate range `[0.0, 1.0]`.
#[derive(Clone, Copy, Debug, PartialEq, Eq, Structural)]
pub enum AddressMode {
    ClampToEdge,
    Repeat,
    MirrorRepeat,
    ClampToBorder,
}

/// How texels are combined when a texture is scaled.
#[derive(Clone, Copy, Debug, PartialEq, Eq, Structural)]
pub enum FilterMode {
    Nearest,
    Linear,
}

/// The comparison a comparison sampler applies.
#[derive(Clone, Copy, Debug, PartialEq, Eq, Structural)]
pub enum CompareFunction {
    Never,
    Less,
    Equal,
    LessEqual,
    Greater,
    NotEqual,
    GreaterEqual,
    Always,
}

/// The binary32 bit pattern of `-100.0`.
pub const DEFAULT_LOD_MIN_CLAMP: u32 = 0xC2C8_0000;

/// The binary32 bit pattern of `100.0`.
pub const DEFAULT_LOD_MAX_CLAMP: u32 = 0x42C8_0000;

/// The label that a fresh builder gives its sampler.
pub const DEFAULT_LABEL: &'static str = "nannou_sample_descriptor";

/// Everything that describes a sampler. The two level-of-detail clamps are binary32
/// bit patterns.
#[derive(Clone, Copy, Debug)]
pub struct SamplerDescriptor<'a> {
    pub label: Option<&'a str>,
    pub address_mode_u: AddressMode,
    pub address_mode_v: AddressMode,
    pub address_mode_w: AddressMode,
    pub mag_filter: FilterMode,
    pub min_filter: FilterMode,
    pub mipmap_filter: FilterMode,
    pub lod_min_clamp: u32,
    pub lod_max_clamp: u32,
    pub compare: CompareFunction,
}

/// Simplifies the construction of a sampler with a set of reasonable defaults.
#[derive(Debug)]
pub struct SamplerBuilder<'a> {
    pub descriptor: SamplerDescriptor<'a>,
}

/// The descriptor that a fresh builder holds: every axis clamps to the edge, linear
/// magnification and minification, nearest mipmap, levels of detail clamped to
/// `[-100.0, 100.0]`, a comparison that always passes.
pub open spec fn default_descriptor() -> SamplerDescriptor<'static> {
    SamplerDescriptor {
        label: Some(DEFAULT_LABEL),
        address_mode_u: AddressMode::ClampToEdge,
        address_mode_v: AddressMode::ClampToEdge,
        address_mode_w: AddressMode::ClampToEdge,
        mag_filter: FilterMode::Linear,
        min_filter: FilterMode::Linear,
        mipmap_filter: FilterMode::Nearest,
        lod_min_clamp: DEFAULT_LOD_MIN_CLAMP,
        lod_max_clamp: DEFAULT_LOD_MAX_CLAMP,
        compare: CompareFunction::Always,
    }
}

impl<'a> SamplerBuilder<'a> {
    /// Begin building a sampler, starting with the default parameters.
    pub fn new() -> (builder: Self)
        ensures
            builder.descriptor == default_descriptor(),
    {
        SamplerBuilder {
            descriptor: SamplerDescriptor {
                label: Some(DEFAULT_LABEL),
                address_mode_u: AddressMode::ClampToEdge,
                address_mode_v: AddressMode::ClampToEdge,
                address_mode_w: AddressMode::ClampToEdge,
                mag_filter: FilterMode::Linear,
                min_filter: FilterMode::Linear,
                mipmap_filter: FilterMode::Nearest,
                lod_min_clamp: DEFAULT_LOD_MIN_CLAMP,
                lod_max_clamp: DEFAULT_LOD_MAX_CLAMP,
                compare: CompareFunction::Always,
            },
        }
    }

    /// How the implementation should behave when sampling outside of the texture coordinates range
    /// [0.0, 1.0], along the first axis.
    pub fn address_mode_u(self, mode: AddressMode) -> (builder: Self)
        ensures
            builder.descriptor == (SamplerDescriptor { address_mode_u: mode, ..self.descriptor }),
    {
        let mut builder = self;
        builder.descriptor.address_mode_u = mode;
        builder
    }

    /// How the implementation should behave when sampling outside of the texture coordinates range
    /// [0.0, 1.0], along the second axis.
    pub fn address_mode_v(self, mode: AddressMode) -> (builder: Self)
        ensures
            builder.descriptor == (SamplerDescriptor { address_mode_v: mode, ..self.descriptor }),
    {
        let mut builder = self;
        builder.descriptor.address_mode_v = mode;
        builder
    }

    /// How the implementation should behave when sampling outside of the texture coordinates range
    /// [0.0, 1.0], along the third axis.
    pub fn address_mode_w(self, mode: AddressMode) -> (builder: Self)
        ensures
            builder.descriptor == (SamplerDescriptor { address_mode_w: mode, ..self.descriptor }),
    {
        let mut builder = self;
        builder.descriptor.address_mode_w = mode;
        builder
    }

    /// How the implementation should behave when sampling outside of the texture coordinates range
    /// [0.0, 1.0].
    ///
    /// Applies the same address mode to all axes.
    pub fn address_mode(self, mode: AddressMode) -> (builder: Self)
        ensures
            builder.descriptor == (SamplerDescriptor {
                address_mode_u: mode,
                address_mode_v: mode,
                address_mode_w: mode,
                ..self.descriptor
            }),
    {
        self.address_mode_u(mode).address_mode_v(mode).address_mode_w(mode)
    }

    /// How the implementation should sample from the image when it is shown larger
    /// than it is.
    pub fn mag_filter(self, filter: FilterMode) -> (builder: Self)
        ensures
            builder.descriptor == (SamplerDescriptor { mag_filter: filter, ..self.descriptor }),
    {
        let mut builder = self;
        builder.descriptor.mag_filter = filter;
        builder
    }

    /// How the implementation should sample from the image when it is shown smaller
    /// than it is.
    pub fn min_filter(self, filter: FilterMode) -> (builder: Self)
        ensures
            builder.descriptor == (SamplerDescriptor { min_filter: filter, ..self.descriptor }),
    {
        let mut builder = self;
        builder.descriptor.min_filter = filter;
        builder
    }

    /// How the implementation should choose which mipmap to use.
    pub fn mipmap_filter(self, filter: FilterMode) -> (builder: Self)
        ensures
            builder.descriptor == (SamplerDescriptor { mipmap_filter: filter, ..self.descriptor }),
    {
        let mut builder = self;
        builder.descriptor.mipmap_filter = filter;
        builder
    }

    /// The minimum mipmap level to use, as a binary32 bit pattern.
    pub fn lod_min_clamp(self, min: u32) -> (builder: Self)
        ensures
            builder.descriptor == (SamplerDescriptor { lod_min_clamp: min, ..self.descriptor }),
    {
        let mut builder = self;
        builder.descriptor.lod_min_clamp = min;
        builder
    }

    /// The maximum mipmap level to use, as a binary32 bit pattern.
    pub fn lod_max_clamp(self, max: u32) -> (builder: Self)
        ensures
            builder.descriptor == (SamplerDescriptor { lod_max_clamp: max, ..self.descriptor }),
    {
        let mut builder = self;
        builder.descriptor.lod_max_clamp = max;
        builder
    }

    /// The comparison that the sampler applies.
    pub fn compare(self, f: CompareFunction) -> (builder: Self)
        ensures
            builder.descriptor == (SamplerDescriptor { compare: f, ..self.descriptor }),
    {
        let mut builder = self;
        builder.descriptor.compare = f;
        builder
    }

    /// Consume the builder and produce the inner descriptor.
    pub fn into_descriptor(self) -> (descriptor: SamplerDescriptor<'a>)
        ensures
            descriptor == self.descriptor,
    {
        self.descriptor
    }

    /// Continue building from an existing descriptor.
    pub fn from_descriptor(descriptor: SamplerDescriptor<'a>) -> (builder: Self)
        ensures
            builder.descriptor == descriptor,
    {
        SamplerBuilder { descriptor }
    }
}

impl<'a> Default for SamplerBuilder<'a> {
    fn default() -> (builder: Self)
        ensures
            builder.descriptor == default_descriptor(),
    {
        SamplerBuilder::new()
    }
}

} // verus!
