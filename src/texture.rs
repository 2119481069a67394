use vstd::prelude::*;

use crate::pixels::Pixels;

verus! {

/// The render context that owns the textures, carried opaquely.
#[verifier::external_type_specification]
#[verifier::external_body]
pub struct ExContext(egui::Context);

/// A handle to a texture of the render context, carried opaquely.
#[verifier::external_type_specification]
#[verifier::external_body]
pub struct ExTextureHandle(egui::TextureHandle);

/// A texture of the render context together with a record of the pixels
/// last handed to it and of how many times pixels were handed to it. Only
/// the two functions below that call into the render context create one or
/// change it.
pub struct DisplayTexture {
    handle: egui::TextureHandle,
    shows: Ghost<Pixels>,
    sends: Ghost<nat>,
}

impl DisplayTexture {
    /// The handle of the texture.
    pub closed spec fn handle_spec(&self) -> egui::TextureHandle {
        self.handle
    }

    /// The pixels that the texture was last given.
    pub closed spec fn shows(&self) -> Pixels {
        self.shows@
    }

    /// How many times pixels were handed to the texture.
    pub closed spec fn sends(&self) -> nat {
        self.sends@
    }

    /// The handle of the texture.
    pub fn handle(&self) -> (r: &egui::TextureHandle)
        ensures
            *r == self.handle_spec(),
    {
        &self.handle
    }
}

/// Relies on `egui::Context::load_texture`, which allocates a new texture in
/// the context's texture manager holding the given image and returns a handle
/// to it, and on `ColorImage::from_rgba_unmultiplied`, which panics unless
/// the byte count is four per pixel. Fills an empty slot only.
#[verifier::external_body]
pub(crate) fn upload_texture(
    slot: &mut Option<DisplayTexture>,
    ctx: &egui::Context,
    name: &str,
    width: usize,
    height: usize,
    rgba: &[u8],
)
    requires
        old(slot).is_none(),
        rgba@.len() == width * height * 4,
    ensures
        final(slot).is_some(),
        final(slot).unwrap().sends() == 1,
        final(slot).unwrap().shows() == (Pixels {
            width: width as nat,
            height: height as nat,
            rgba: rgba@,
        }),
{
    let image = egui::ColorImage::from_rgba_unmultiplied([width, height], rgba);
    let handle = ctx.load_texture(name, image, egui::TextureOptions::default());
    let shows = Ghost(Pixels { width: width as nat, height: height as nat, rgba: rgba@ });
    *slot = Some(DisplayTexture { handle, shows, sends: Ghost(1) });
}

/// Relies on `TextureHandle::set`, which replaces the texture's contents in
/// the shared texture manager with the given image and leaves the handle
/// itself (its id and its manager) as it was, and on
/// `ColorImage::from_rgba_unmultiplied` as above.
#[verifier::external_body]
pub(crate) fn refresh_texture(texture: &mut DisplayTexture, width: usize, height: usize, rgba: &[u8])
    requires
        rgba@.len() == width * height * 4,
    ensures
        final(texture).handle_spec() == old(texture).handle_spec(),
        final(texture).sends() == old(texture).sends() + 1,
        final(texture).shows() == (Pixels {
            width: width as nat,
            height: height as nat,
            rgba: rgba@,
        }),
{
    let image = egui::ColorImage::from_rgba_unmultiplied([width, height], rgba);
    texture.handle.set(image, egui::TextureOptions::default());
    texture.shows = Ghost(Pixels { width: width as nat, height: height as nat, rgba: rgba@ });
    texture.sends = Ghost(texture.sends@ + 1);
}

} // verus!
