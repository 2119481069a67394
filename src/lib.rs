//! Core state of a small image viewer: decoded RGBA pixel buffers, the
//! lazily created display texture that shows them, and the application state
//! that ties a loaded file to the buffer on screen.

mod canvas;
mod codec;
mod paint_app;
mod pixels;
mod texture;

pub use canvas::{
    image_replaced, is_blank_canvas, lemma_refreshed_in_place, lemma_texture_cached,
    texture_fetched, PaintImage, PaintImageView, CANVAS_HEIGHT, CANVAS_WIDTH, TEXTURE_NAME,
};
pub use codec::{decode_post, decode_spec, decoded_rgba8, DecodeError};
pub use paint_app::{
    lemma_failed_load_changes_nothing, lemma_load_keeps_dimensions, load_post, PaintApp,
    PaintAppView,
};
pub use pixels::{PixelBuffer, Pixels};
pub use texture::DisplayTexture;
