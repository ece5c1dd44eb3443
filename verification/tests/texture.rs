use nannou::render_pass::TextureView;
use nannou::texture::{Drawing, DrawingTexture, Range, Rect, Texture, ONE, ZERO};

fn rect(l: f32, r: f32, b: f32, t: f32) -> Rect {
    Rect {
        x: Range { start: l.to_bits(), end: r.to_bits() },
        y: Range { start: b.to_bits(), end: t.to_bits() },
    }
}

#[test]
fn texture_is_drawn_at_its_size_over_its_full_extent() {
    let view = TextureView { handle: 4u32, size: [512, 256] };
    let texture = Texture::new(&view);
    assert_eq!(texture.texture_view().handle, 4);
    assert_eq!(texture.dimensions(), [512, 256]);
    assert_eq!(texture.drawn_area(), rect(0.0, 1.0, 0.0, 1.0));
    assert_eq!(ZERO, 0.0f32.to_bits());
    assert_eq!(ONE, 1.0f32.to_bits());
}

#[test]
fn texture_area_can_be_set() {
    let view = TextureView { handle: 4u32, size: [512, 256] };
    let area = rect(0.25, 0.75, 0.5, 1.0);
    let texture = Texture::new(&view).area(area);
    assert_eq!(texture.drawn_area(), area);
    assert_eq!(texture.dimensions(), [512, 256]);
    assert_eq!(texture.texture_view().size, [512, 256]);
}

#[test]
fn last_area_wins() {
    let view = TextureView { handle: (), size: [1, 1] };
    let texture = Texture::new(&view).area(rect(0.0, 0.5, 0.0, 0.5)).area(rect(0.5, 1.0, 0.5, 1.0));
    assert_eq!(texture.drawn_area(), rect(0.5, 1.0, 0.5, 1.0));
}

#[test]
fn drawing_sets_the_area_of_its_texture() {
    let view = TextureView { handle: 4u32, size: [64, 32] };
    let drawing: DrawingTexture<u32> = Drawing::new(Texture::new(&view));
    let area = rect(0.0, 0.5, 0.0, 0.5);
    let texture = drawing.area(area).finish();
    assert_eq!(texture.drawn_area(), area);
    assert_eq!(texture.dimensions(), [64, 32]);
    assert_eq!(texture.texture_view().handle, 4);
}
