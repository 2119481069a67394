use painters::{PaintImage, PixelBuffer, CANVAS_HEIGHT, CANVAS_WIDTH};

fn texture_pixels(ctx: &egui::Context, id: egui::TextureId) -> Option<([usize; 2], Vec<[u8; 4]>)> {
    let delta = ctx.tex_manager().write().take_delta();
    let mut found = None;
    for (tid, d) in delta.set {
        if tid == id {
            if let egui::epaint::ImageData::Color(img) = d.image {
                let px = img.pixels.iter().map(|c| c.to_array()).collect();
                found = Some((img.size, px));
            }
        }
    }
    found
}

#[test]
fn default_holder_has_blank_canvas() {
    let holder = PaintImage::default();
    let b = holder.buffer();
    assert_eq!((b.width(), b.height()), (400, 300));
    assert_eq!((CANVAS_WIDTH, CANVAS_HEIGHT), (400, 300));
    assert_eq!(b.rgba().len(), 400 * 300 * 4);
    assert!(b.rgba().iter().all(|&v| v == 255));
}

#[test]
fn texture_is_cached_between_fetches() {
    let ctx = egui::Context::default();
    let mut holder = PaintImage::new();
    let first = holder.get_display_texture(&ctx).id();
    assert_eq!(texture_pixels(&ctx, first).map(|t| t.0), Some([400, 300]));
    let second = holder.get_display_texture(&ctx).id();
    assert_eq!(first, second);
    assert_eq!(texture_pixels(&ctx, first), None);
}

#[test]
fn set_image_refreshes_the_texture_in_place() {
    let ctx = egui::Context::default();
    let mut holder = PaintImage::new();
    let before = holder.get_display_texture(&ctx).id();
    let _ = texture_pixels(&ctx, before);
    holder.set_image(PixelBuffer::filled(2, 3, [0, 0, 255, 255]));
    let (size, px) = texture_pixels(&ctx, before).unwrap();
    assert_eq!(size, [2, 3]);
    assert_eq!(px, vec![[0, 0, 255, 255]; 6]);
    let handle = holder.get_display_texture(&ctx);
    assert_eq!(handle.id(), before);
    assert_eq!(handle.size(), [2, 3]);
    assert_eq!(holder.buffer().width(), 2);
}

#[test]
fn set_image_before_any_texture_defers_the_upload() {
    let ctx = egui::Context::default();
    let mut holder = PaintImage::new();
    holder.set_image(PixelBuffer::filled(1, 1, [1, 2, 3, 255]));
    let handle = holder.get_display_texture(&ctx);
    assert_eq!(handle.size(), [1, 1]);
    let id = handle.id();
    assert_eq!(texture_pixels(&ctx, id), Some(([1, 1], vec![[1, 2, 3, 255]])));
}
