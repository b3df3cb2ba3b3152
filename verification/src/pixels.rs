//! Pixel buffers: 8-bit RGBA, row by row from the top, four bytes per pixel.

use vstd::prelude::*;

verus! {

/// Whether `len` bytes are exactly the pixels of a `width` × `height` image
/// with four bytes per pixel, both sides positive.
pub open spec fn is_rgba_buffer(len: nat, width: nat, height: nat) -> bool {
    &&& width > 0
    &&& height > 0
    &&& len == width * height * 4
}

/// Decides `is_rgba_buffer` without overflow, whatever the three numbers are.
pub fn dimensions_fit(len: usize, width: usize, height: usize) -> (fit: bool)
    ensures
        fit == is_rgba_buffer(len as nat, width as nat, height as nat),
{
    if width == 0 || height == 0 {
        return false;
    }
    match width.checked_mul(height) {
        None => false,
        Some(area) => match area.checked_mul(4) {
            None => false,
            Some(bytes) => bytes == len,
        },
    }
}

/// A decoded image: its pixel bytes and its dimensions.
#[derive(Debug, PartialEq, Eq)]
pub struct PixelBuffer {
    /// Red, green, blue and alpha of each pixel, top row first, left pixel first.
    pub pixels: Vec<u8>,
    /// Pixels in a row.
    pub width: usize,
    /// Rows.
    pub height: usize,
}

impl View for PixelBuffer {
    type V = (Seq<u8>, nat, nat);

    /// The pixel bytes, the width and the height.
    open spec fn view(&self) -> (Seq<u8>, nat, nat) {
        (self.pixels@, self.width as nat, self.height as nat)
    }
}

impl PixelBuffer {
    /// The dimensions are positive and the bytes are exactly the pixels they announce.
    pub open spec fn wf(&self) -> bool {
        is_rgba_buffer(self.pixels@.len(), self.width as nat, self.height as nat)
    }

    /// Puts pixel bytes and dimensions together, if they fit.
    pub fn new(pixels: Vec<u8>, width: usize, height: usize) -> (buffer: Option<PixelBuffer>)
        ensures
            buffer is Some <==> is_rgba_buffer(pixels@.len(), width as nat, height as nat),
            buffer matches Some(b) ==> b.pixels@ == pixels@ && b.width == width && b.height
                == height && b.wf(),
    {
        if dimensions_fit(pixels.len(), width, height) {
            Some(PixelBuffer { pixels, width, height })
        } else {
            None
        }
    }
}

} // verus!
