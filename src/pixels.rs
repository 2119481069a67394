use vstd::prelude::*;

verus! {

/// Mathematical model of a pixel buffer: a width, a height and the RGBA8
/// bytes of its pixels, row by row.
pub struct Pixels {
    pub width: nat,
    pub height: nat,
    pub rgba: Seq<u8>,
}

impl Pixels {
    /// The byte length is four bytes per pixel.
    pub open spec fn well_formed(self) -> bool {
        self.rgba.len() == self.width * self.height * 4
    }

    /// Every pixel of the buffer equals `color`.
    pub open spec fn is_filled_with(self, color: Seq<u8>) -> bool {
        &&& color.len() == 4
        &&& forall|k: int| 0 <= k < self.rgba.len() ==> #[trigger] self.rgba[k] == color[k % 4]
    }
}

/// A decoded image: a grid of RGBA8 pixels with its width and height.
pub struct PixelBuffer {
    width: usize,
    height: usize,
    rgba: Vec<u8>,
}

impl View for PixelBuffer {
    type V = Pixels;

    closed spec fn view(&self) -> Pixels {
        Pixels { width: self.width as nat, height: self.height as nat, rgba: self.rgba@ }
    }
}

impl PixelBuffer {
    /// The buffer holds exactly four bytes for each pixel.
    pub open spec fn wf(&self) -> bool {
        self@.well_formed()
    }

    /// A buffer of `width` by `height` pixels, each of them `color`.
    pub fn filled(width: usize, height: usize, color: [u8; 4]) -> (r: PixelBuffer)
        requires
            width * height * 4 <= usize::MAX,
        ensures
            r.wf(),
            r@.width == width,
            r@.height == height,
            r@.is_filled_with(color@),
    {
        let count: usize = width * height;
        let mut rgba: Vec<u8> = Vec::with_capacity(count * 4);
        let mut i: usize = 0;
        while i < count
            invariant
                i <= count,
                count == width * height,
                count * 4 <= usize::MAX,
                rgba@.len() == i * 4,
                forall|k: int| 0 <= k < rgba@.len() ==> #[trigger] rgba@[k] == color@[k % 4],
            decreases count - i,
        {
            rgba.push(color[0]);
            rgba.push(color[1]);
            rgba.push(color[2]);
            rgba.push(color[3]);
            i = i + 1;
        }
        PixelBuffer { width, height, rgba }
    }

    /// Wraps `rgba` as a buffer of `width` by `height` pixels; `None` where
    /// its length is not four bytes per pixel.
    pub fn from_rgba(width: u32, height: u32, rgba: Vec<u8>) -> (r: Option<PixelBuffer>)
        ensures
            r is Some <==> rgba@.len() == width * height * 4,
            r matches Some(b) ==> b.wf() && b@ == (Pixels {
                width: width as nat,
                height: height as nat,
                rgba: rgba@,
            }),
    {
        let w = width as usize;
        let h = height as usize;
        let given = rgba.len();
        match w.checked_mul(h) {
            None => {
                proof {
                    assert(w * h * 4 >= w * h) by (nonlinear_arith);
                }
                None
            },
            Some(n) => match n.checked_mul(4) {
                None => None,
                Some(len) => {
                    if given == len {
                        Some(PixelBuffer { width: w, height: h, rgba })
                    } else {
                        None
                    }
                },
            },
        }
    }

    /// Width in pixels.
    pub fn width(&self) -> (r: usize)
        ensures
            r == self@.width,
    {
        self.width
    }

    /// Height in pixels.
    pub fn height(&self) -> (r: usize)
        ensures
            r == self@.height,
    {
        self.height
    }

    /// The RGBA8 bytes, row by row.
    pub fn rgba(&self) -> (r: &Vec<u8>)
        ensures
            r@ == self@.rgba,
    {
        &self.rgba
    }
}

} // verus!
