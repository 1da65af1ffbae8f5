use vstd::prelude::*;

verus! {

/// A grayscale intensity image: `height` rows of `width` pixels, stored
/// row-major, one byte per pixel (0 = black, 255 = white).
///
/// The frame source delivers colour images; converting them to a single
/// intensity channel happens at the edge, so everything here works on one
/// byte per pixel.
pub struct Frame {
    width: usize,
    height: usize,
    pixels: Vec<u8>,
}

impl View for Frame {
    type V = Seq<u8>;

    closed spec fn view(&self) -> Seq<u8> {
        self.pixels@
    }
}

impl Frame {
    pub closed spec fn spec_width(&self) -> usize {
        self.width
    }

    pub closed spec fn spec_height(&self) -> usize {
        self.height
    }

    /// The pixel buffer covers the stated dimensions exactly.
    pub open spec fn wf(&self) -> bool {
        self@.len() == self.spec_width() * self.spec_height()
    }

    pub fn new(width: usize, height: usize, pixels: Vec<u8>) -> (f: Frame)
        requires
            pixels@.len() == width * height,
        ensures
            f.wf(),
            f.spec_width() == width,
            f.spec_height() == height,
            f@ == pixels@,
    {
        Frame { width, height, pixels }
    }

    pub fn width(&self) -> (w: usize)
        ensures
            w == self.spec_width(),
    {
        self.width
    }

    pub fn height(&self) -> (h: usize)
        ensures
            h == self.spec_height(),
    {
        self.height
    }

    pub fn size(&self) -> (n: usize)
        ensures
            n == self@.len(),
    {
        self.pixels.len()
    }

    pub fn pixel(&self, i: usize) -> (p: u8)
        requires
            i < self@.len(),
        ensures
            p == self@[i as int],
    {
        self.pixels[i]
    }
}

} // verus!
