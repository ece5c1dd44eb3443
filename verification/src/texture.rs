//! The texture primitive of a drawing: a texture view, the size it is drawn at and the
//! area of the texture that is drawn.

use vstd::prelude::*;
use crate::render_pass::TextureView;

verus! {

/// The binary32 bit pattern of `0.0`.
pub const ZERO: u32 = 0;

/// The binary32 bit pattern of `1.0`.
pub const ONE: u32 = 0x3F80_0000;

/// A range along one axis. Both ends are binary32 bit patterns.
#[derive(Clone, Copy, Debug, PartialEq, Eq, Structural)]
pub struct Range {
    pub start: u32,
    pub end: u32,
}

/// A rectangle, given by its range along each axis.
#[derive(Clone, Copy, Debug, PartialEq, Eq, Structural)]
pub struct Rect {
    pub x: Range,
    pub y: Range,
}

/// The full extent of a texture in texture coordinates: from (0.0, 0.0) in the bottom
/// left to (1.0, 1.0) in the top right.
pub open spec fn full_area() -> Rect {
    Rect { x: Range { start: ZERO, end: ONE }, y: Range { start: ZERO, end: ONE } }
}

/// Properties related to drawing a texture.
#[derive(Debug)]
pub struct Texture<'a, T> {
    texture_view: &'a TextureView<T>,
    dimensions: [u32; 2],
    area: Rect,
}

/// A primitive in the context of a drawing.
#[derive(Debug)]
pub struct Drawing<P> {
    ty: P,
}

/// The drawing context for a texture.
pub type DrawingTexture<'a, T> = Drawing<Texture<'a, T>>;

impl<'a, T> Texture<'a, T> {
    /// The texture view that is drawn.
    pub closed spec fn view_of(self) -> &'a TextureView<T> {
        self.texture_view
    }

    /// The width and height that the texture is drawn at, in texels.
    pub closed spec fn spec_dimensions(self) -> [u32; 2] {
        self.dimensions
    }

    /// The area of the texture that is drawn, in texture coordinates.
    pub closed spec fn spec_area(self) -> Rect {
        self.area
    }

    /// A texture drawn at its own size, over its full extent.
    pub fn new(view: &'a TextureView<T>) -> (texture: Self)
        ensures
            texture.view_of() == view,
            texture.spec_dimensions() == view.size,
            texture.spec_area() == full_area(),
    {
        let w = view.size[0];
        let h = view.size[1];
        let x = Range { start: ZERO, end: ONE };
        let y = Range { start: ZERO, end: ONE };
        let area = Rect { x, y };
        Texture { texture_view: view, dimensions: [w, h], area }
    }

    /// Specify the area of the texture to draw.
    ///
    /// The bounds of the rectangle should represent the desired area as texture coordinates of the
    /// underlying texture.
    ///
    /// Texture coordinates range from (0.0, 0.0) in the bottom left of the texture, to (1.0, 1.0)
    /// in the top right of the texture.
    ///
    /// By default, the area represents the full extent of the texture.
    pub fn area(self, rect: Rect) -> (texture: Self)
        ensures
            texture.view_of() == self.view_of(),
            texture.spec_dimensions() == self.spec_dimensions(),
            texture.spec_area() == rect,
    {
        let mut texture = self;
        texture.area = rect;
        texture
    }

    /// The texture view that is drawn.
    pub fn texture_view(&self) -> (view: &'a TextureView<T>)
        ensures
            view == self.view_of(),
    {
        self.texture_view
    }

    /// The width and height that the texture is drawn at, in texels.
    pub fn dimensions(&self) -> (dimensions: [u32; 2])
        ensures
            dimensions == self.spec_dimensions(),
    {
        self.dimensions
    }

    /// The area of the texture that is drawn.
    pub fn drawn_area(&self) -> (area: Rect)
        ensures
            area == self.spec_area(),
    {
        self.area
    }
}

impl<P> Drawing<P> {
    /// The primitive that is drawn.
    pub closed spec fn primitive(self) -> P {
        self.ty
    }

    /// Begin drawing the given primitive.
    pub fn new(ty: P) -> (drawing: Self)
        ensures
            drawing.primitive() == ty,
    {
        Drawing { ty }
    }

    /// Finish the drawing, handing out the primitive.
    pub fn finish(self) -> (ty: P)
        ensures
            ty == self.primitive(),
    {
        self.ty
    }
}

impl<'a, T> DrawingTexture<'a, T> {
    /// Specify the area of the texture to draw.
    ///
    /// The bounds of the rectangle should represent the desired area as texture coordinates of the
    /// underlying texture.
    ///
    /// Texture coordinates range from (0.0, 0.0) in the bottom left of the texture, to (1.0, 1.0)
    /// in the top right of the texture.
    ///
    /// By default, the area represents the full extent of the texture.
    pub fn area(self, rect: Rect) -> (drawing: Self)
        ensures
            drawing.primitive().view_of() == self.primitive().view_of(),
            drawing.primitive().spec_dimensions() == self.primitive().spec_dimensions(),
            drawing.primitive().spec_area() == rect,
    {
        Drawing { ty: self.ty.area(rect) }
    }
}

} // verus!
