use vstd::prelude::*;

use crate::pixels::{PixelBuffer, Pixels};
use crate::texture::{refresh_texture, upload_texture, DisplayTexture};

verus! {

/// Width of the blank canvas shown before any file is opened.
pub const CANVAS_WIDTH: usize = 400;

/// Height of the blank canvas shown before any file is opened.
pub const CANVAS_HEIGHT: usize = 300;

/// Name under which the canvas texture is registered with the render context.
pub const TEXTURE_NAME: &'static str = "paint-image";

/// The blank canvas: 400 by 300 opaque white pixels.
pub open spec fn is_blank_canvas(p: Pixels) -> bool {
    &&& p.width == CANVAS_WIDTH
    &&& p.height == CANVAS_HEIGHT
    &&& p.well_formed()
    &&& p.is_filled_with(seq![255u8, 255u8, 255u8, 255u8])
}

/// Model of a `PaintImage`.
pub struct PaintImageView {
    /// The current pixel buffer.
    pub buffer: Pixels,
    /// The handle of the display texture, once it has been created.
    pub texture: Option<egui::TextureHandle>,
    /// The pixels that the display texture was last given.
    pub shown: Option<Pixels>,
    /// How many times pixels were handed to the display texture (none before
    /// it exists).
    pub sends: nat,
    /// How many times the buffer has been replaced.
    pub generation: nat,
}

/// A pixel buffer together with the texture that displays it, created on
/// first use and refreshed in place whenever the buffer is replaced.
pub struct PaintImage {
    buffer: PixelBuffer,
    texture: Option<DisplayTexture>,
    generation: Ghost<nat>,
}

impl View for PaintImage {
    type V = PaintImageView;

    closed spec fn view(&self) -> PaintImageView {
        PaintImageView {
            buffer: self.buffer@,
            texture: match self.texture {
                Some(t) => Some(t.handle_spec()),
                None => None,
            },
            shown: match self.texture {
                Some(t) => Some(t.shows()),
                None => None,
            },
            sends: match self.texture {
                Some(t) => t.sends(),
                None => 0,
            },
            generation: self.generation@,
        }
    }
}

impl PaintImageView {
    /// The buffer is well formed, and a texture, once it exists, has been
    /// given pixels and shows the current buffer.
    pub open spec fn wf(self) -> bool {
        &&& self.buffer.well_formed()
        &&& self.shown == (if self.texture is Some {
            Some(self.buffer)
        } else {
            None
        })
        &&& (self.texture is Some ==> self.sends >= 1)
        &&& (self.texture is None ==> self.sends == 0)
    }
}

/// `get_display_texture` took the holder from `pre` to `post` and returned
/// `r`: an existing texture is returned as it is, with nothing handed to it;
/// otherwise one is created from the current buffer and given it once.
pub open spec fn texture_fetched(
    pre: PaintImageView,
    post: PaintImageView,
    r: egui::TextureHandle,
) -> bool {
    &&& post.buffer == pre.buffer
    &&& post.generation == pre.generation
    &&& post.texture == Some(r)
    &&& post.shown == Some(post.buffer)
    &&& (pre.texture is Some ==> post == pre)
    &&& (pre.texture is None ==> post.sends == 1)
}

/// `set_image(new)` took the holder from `pre` to `post`: a new generation
/// holds `new`; an existing texture is kept and given `new` once.
pub open spec fn image_replaced(pre: PaintImageView, post: PaintImageView, new: Pixels) -> bool {
    &&& post.buffer == new
    &&& post.generation == pre.generation + 1
    &&& post.texture == pre.texture
    &&& post.shown == (if pre.texture is Some {
        Some(new)
    } else {
        None
    })
    &&& post.sends == (if pre.texture is Some {
        pre.sends + 1
    } else {
        0
    })
}

/// Fetching the display texture twice with no `set_image` in between returns
/// the same handle both times, and the second fetch changes nothing.
pub proof fn lemma_texture_cached(
    s0: PaintImageView,
    s1: PaintImageView,
    s2: PaintImageView,
    r1: egui::TextureHandle,
    r2: egui::TextureHandle,
)
    requires
        s0.wf(),
        texture_fetched(s0, s1, r1),
        texture_fetched(s1, s2, r2),
    ensures
        r1 == r2,
        s2 == s1,
{
}

/// Replacing the image of a holder whose texture already exists keeps that
/// texture: the next fetch returns the same handle, which now shows the new
/// pixels, handed to it exactly once.
pub proof fn lemma_refreshed_in_place(
    s0: PaintImageView,
    s1: PaintImageView,
    s2: PaintImageView,
    new: Pixels,
    r0: egui::TextureHandle,
    r2: egui::TextureHandle,
)
    requires
        s0.wf(),
        s0.texture == Some(r0),
        image_replaced(s0, s1, new),
        texture_fetched(s1, s2, r2),
    ensures
        r2 == r0,
        s2 == s1,
        s2.buffer == new,
        s2.shown == Some(new),
        s2.generation == s0.generation + 1,
        s2.sends == s0.sends + 1,
{
}

impl Default for PaintImage {
    fn default() -> (r: PaintImage)
        ensures
            r.wf(),
            is_blank_canvas(r@.buffer),
            r@.texture is None,
            r@.generation == 0,
    {
        PaintImage::new()
    }
}

impl PaintImage {
    /// The invariant of the holder.
    pub open spec fn wf(&self) -> bool {
        self@.wf()
    }

    /// A holder of the blank canvas, with no texture yet.
    pub fn new() -> (r: PaintImage)
        ensures
            r.wf(),
            is_blank_canvas(r@.buffer),
            r@.texture is None,
            r@.generation == 0,
    {
        let buffer = PixelBuffer::filled(CANVAS_WIDTH, CANVAS_HEIGHT, [255u8, 255u8, 255u8, 255u8]);
        proof {
            assert(buffer@.is_filled_with(seq![255u8, 255u8, 255u8, 255u8])) by {
                assert([255u8, 255u8, 255u8, 255u8]@ =~= seq![255u8, 255u8, 255u8, 255u8]);
            }
        }
        PaintImage { buffer, texture: None, generation: Ghost(0) }
    }

    /// The current pixel buffer.
    pub fn buffer(&self) -> (r: &PixelBuffer)
        ensures
            r@ == self@.buffer,
    {
        &self.buffer
    }

    /// The texture that shows the current buffer, created from it on the
    /// first call and returned unchanged, without a new upload, after that.
    pub fn get_display_texture(&mut self, ctx: &egui::Context) -> (r: &egui::TextureHandle)
        requires
            old(self).wf(),
        ensures
            final(self).wf(),
            texture_fetched(old(self)@, final(self)@, *r),
    {
        if self.texture.is_none() {
            upload_texture(
                &mut self.texture,
                ctx,
                TEXTURE_NAME,
                self.buffer.width(),
                self.buffer.height(),
                self.buffer.rgba().as_slice(),
            );
        }
        self.texture.as_ref().unwrap().handle()
    }

    /// Replaces the pixel buffer; an existing texture keeps its identity and
    /// has its contents replaced by the new pixels.
    pub fn set_image(&mut self, buffer: PixelBuffer)
        requires
            old(self).wf(),
            buffer.wf(),
        ensures
            final(self).wf(),
            image_replaced(old(self)@, final(self)@, buffer@),
    {
        match &mut self.texture {
            Some(texture) => {
                refresh_texture(
                    texture,
                    buffer.width(),
                    buffer.height(),
                    buffer.rgba().as_slice(),
                );
            },
            None => {},
        }
        self.buffer = buffer;
        self.generation = Ghost(self.generation@ + 1);
    }
}

} // verus!
