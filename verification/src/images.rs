//! Decoded images: plain RGBA pixel data with its dimensions, ready to be
//! composited onto the frame buffer.

use vstd::prelude::*;

use crate::LogicalSize;

verus! {

/// An image decoded to flat 4-byte RGBA pixels, row-major.
///
/// Decoding itself happens outside the compositor; a decoded image is
/// immutable and is only read while it is blitted.
pub struct DecodedImage {
    pub width: u32,
    pub height: u32,
    pub rgba: Vec<u8>,
}

impl DecodedImage {
    /// The pixel data holds exactly one 4-byte group per pixel of the
    /// declared dimensions.
    pub open spec fn wf(self) -> bool {
        self.rgba@.len() == 4 * self.width * self.height
    }

    /// Wraps decoded pixel data, refusing byte counts that do not match
    /// the declared dimensions.
    pub fn new(width: u32, height: u32, rgba: Vec<u8>) -> (result: Option<Self>)
        ensures
            match result {
                Some(image) => {
                    &&& image.wf()
                    &&& image.width == width
                    &&& image.height == height
                    &&& image.rgba@ == rgba@
                },
                None => rgba@.len() != 4 * width * height,
            },
    {
        proof {
            assert(4 * (width as int) * (height as int) < 0x1_0000_0000_0000_0000_0000u128)
                by (nonlinear_arith);
        }
        let expected: u128 = 4u128 * (width as u128) * (height as u128);
        if rgba.len() as u128 != expected {
            return None;
        }
        Some(Self { width, height, rgba })
    }

    /// The width and height of the image.
    pub fn dimensions(&self) -> (result: LogicalSize<u32>)
        ensures
            result.width == self.width,
            result.height == self.height,
    {
        LogicalSize { width: self.width, height: self.height }
    }
}

} // verus!
