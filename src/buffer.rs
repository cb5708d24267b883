use vstd::prelude::*;

verus! {

/// Samples per pixel: red, green, blue and alpha, 8 bits each.
pub const CHANNELS: usize = 4;

/// An image of `width * height` pixels fits in one allocation even with four
/// bytes per channel, as the resampler's intermediate buffers hold.
pub open spec fn fits_in_memory(width: int, height: int) -> bool {
    width * height * 16 <= isize::MAX
}

/// `width * height * 4`, computed without overflow.
pub fn sample_count(width: u32, height: u32) -> (r: u128)
    ensures
        r == width * height * 4,
{
    assert(width * height <= 0xffff_ffffnat * 0xffff_ffffnat) by (nonlinear_arith)
        requires
            width <= 0xffff_ffffnat,
            height <= 0xffff_ffffnat,
    ;
    (width as u128) * (height as u128) * 4
}

/// The image's samples stay within the 512 MiB that a decoder with default
/// limits allocates.
pub open spec fn decodable_size(width: int, height: int) -> bool {
    width * height * 4 <= 536870912
}

/// A decoded image: dense row-major RGBA samples, 8 bits each.
#[derive(Debug, Clone, PartialEq, Eq)]
pub struct PixelBuffer {
    pub width: u32,
    pub height: u32,
    pub pixels: Vec<u8>,
}

impl PixelBuffer {
    /// Both dimensions are positive and there is one sample per channel of
    /// every pixel.
    pub open spec fn wf(&self) -> bool {
        &&& self.width > 0
        &&& self.height > 0
        &&& self.pixels@.len() == self.width * self.height * 4
    }

    /// The plain values of the buffer: width, height and samples.
    pub open spec fn parts(&self) -> (u32, u32, Seq<u8>) {
        (self.width, self.height, self.pixels@)
    }

    /// Builds a buffer from its samples, or `None` where a dimension is zero
    /// or the number of samples is not `width * height * 4`.
    pub fn from_raw(width: u32, height: u32, pixels: Vec<u8>) -> (r: Option<PixelBuffer>)
        ensures
            r is Some <==> width > 0 && height > 0 && pixels@.len() == width * height * 4,
            r matches Some(p) ==> p.parts() == (width, height, pixels@),
    {
        let expected = sample_count(width, height);
        if width > 0 && height > 0 && pixels.len() as u128 == expected {
            Some(PixelBuffer { width, height, pixels })
        } else {
            None
        }
    }

    pub fn width(&self) -> (r: u32)
        ensures
            r == self.width,
    {
        self.width
    }

    pub fn height(&self) -> (r: u32)
        ensures
            r == self.height,
    {
        self.height
    }

    /// Number of samples per pixel.
    pub fn channel_count(&self) -> (r: usize)
        ensures
            r == CHANNELS,
    {
        CHANNELS
    }
}

} // verus!
