use vstd::prelude::*;

use crate::canvas::{image_replaced, is_blank_canvas, texture_fetched, PaintImage, PaintImageView};
use crate::codec::{decode_spec, decoded_rgba8, DecodeError};
use crate::pixels::PixelBuffer;

verus! {

/// Model of a `PaintApp`.
pub struct PaintAppView {
    /// The path of the file on screen, once one has been opened.
    pub path: Option<Seq<char>>,
    /// The image holder.
    pub image: PaintImageView,
}

/// The application state: the path of the file on screen and the image
/// holder that shows it.
pub struct PaintApp {
    fpath: Option<String>,
    image: PaintImage,
}

impl View for PaintApp {
    type V = PaintAppView;

    closed spec fn view(&self) -> PaintAppView {
        PaintAppView {
            path: match self.fpath {
                Some(s) => Some(s@),
                None => None,
            },
            image: self.image@,
        }
    }
}

/// `load_image(path, contents)` took the state from `pre` to `post` and
/// returned `r`. `contents` is what was read from `path`, `None` where it
/// could not be read. On success the path and the buffer change together;
/// on failure nothing changes.
pub open spec fn load_post(
    pre: PaintAppView,
    post: PaintAppView,
    path: Seq<char>,
    contents: Option<Seq<u8>>,
    r: Result<(), DecodeError>,
) -> bool {
    &&& post.image.wf()
    &&& (r is Err ==> post == pre)
    &&& match contents {
        None => r == Err::<(), DecodeError>(DecodeError::Unreadable),
        Some(bytes) => match decode_spec(bytes) {
            None => r == Err::<(), DecodeError>(DecodeError::Unrecognized),
            Some(p) => {
                &&& r is Ok
                &&& post.path == Some(path)
                &&& image_replaced(pre.image, post.image, p)
            },
        },
    }
}

/// Opening a file that the codec decodes succeeds and leaves on screen a
/// buffer of the image's own width and height, with four bytes per pixel.
pub proof fn lemma_load_keeps_dimensions(
    pre: PaintAppView,
    post: PaintAppView,
    path: Seq<char>,
    bytes: Seq<u8>,
    r: Result<(), DecodeError>,
)
    requires
        load_post(pre, post, path, Some(bytes), r),
        decoded_rgba8(bytes) is Some,
    ensures
        ({
            let (w, h, px) = decoded_rgba8(bytes).unwrap();
            &&& r is Ok
            &&& post.path == Some(path)
            &&& post.image.buffer.width == w
            &&& post.image.buffer.height == h
            &&& post.image.buffer.rgba == px
            &&& post.image.buffer.rgba.len() == w * h * 4
        }),
{
}

/// Opening a file that cannot be read, or that holds no image the codec
/// recognises, fails and leaves the state exactly as it was.
pub proof fn lemma_failed_load_changes_nothing(
    pre: PaintAppView,
    post: PaintAppView,
    path: Seq<char>,
    contents: Option<Seq<u8>>,
    r: Result<(), DecodeError>,
)
    requires
        load_post(pre, post, path, contents, r),
        contents matches Some(bytes) ==> decoded_rgba8(bytes) is None,
    ensures
        r is Err,
        post == pre,
{
}

impl Default for PaintApp {
    fn default() -> (r: PaintApp)
        ensures
            r.wf(),
            r@.path is None,
            is_blank_canvas(r@.image.buffer),
            r@.image.texture is None,
            r@.image.generation == 0,
    {
        PaintApp::new()
    }
}

impl PaintApp {
    /// The invariant of the application state.
    pub open spec fn wf(&self) -> bool {
        self@.image.wf()
    }

    /// The state at start-up: no file, the blank canvas, no texture yet.
    pub fn new() -> (r: PaintApp)
        ensures
            r.wf(),
            r@.path is None,
            is_blank_canvas(r@.image.buffer),
            r@.image.texture is None,
            r@.image.generation == 0,
    {
        PaintApp { fpath: None, image: PaintImage::new() }
    }

    /// Path of the file on screen, if one has been opened.
    pub fn path(&self) -> (r: &Option<String>)
        ensures
            match *r {
                Some(s) => self@.path == Some(s@),
                None => self@.path is None,
            },
    {
        &self.fpath
    }

    /// The image holder.
    pub fn image(&self) -> (r: &PaintImage)
        ensures
            r@ == self@.image,
    {
        &self.image
    }

    /// Shows the file at `fpath`, whose bytes are `contents` (`None` where
    /// it could not be read). Where they decode, the buffer and the path are
    /// replaced together; otherwise the error is returned and the state is
    /// left exactly as it was.
    pub fn load_image(&mut self, fpath: String, contents: Option<&[u8]>) -> (r: Result<
        (),
        DecodeError,
    >)
        requires
            old(self).wf(),
        ensures
            final(self).wf(),
            load_post(
                old(self)@,
                final(self)@,
                fpath@,
                match contents {
                    Some(b) => Some(b@),
                    None => None,
                },
                r,
            ),
    {
        match contents {
            None => Err(DecodeError::Unreadable),
            Some(bytes) => {
                let decoded = PixelBuffer::decode(bytes);
                match decoded {
                    Ok(buffer) => {
                        self.image.set_image(buffer);
                        self.fpath = Some(fpath);
                        Ok(())
                    },
                    Err(e) => Err(e),
                }
            },
        }
    }

    /// The texture that shows the current buffer (see
    /// `PaintImage::get_display_texture`); the path does not change.
    pub fn get_display_texture(&mut self, ctx: &egui::Context) -> (r: &egui::TextureHandle)
        requires
            old(self).wf(),
        ensures
            final(self).wf(),
            final(self)@.path == old(self)@.path,
            texture_fetched(old(self)@.image, final(self)@.image, *r),
    {
        self.image.get_display_texture(ctx)
    }
}

} // verus!
