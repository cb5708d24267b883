use vstd::prelude::*;

use crate::buffer::{decodable_size, fits_in_memory, sample_count, PixelBuffer};
use crate::codec::{
    decode_rgba,
    decoded_rgba,
    filter3x3,
    lanczos3_resampled,
    png_encoded,
    resize_lanczos3,
    write_png,
};
use crate::error::ImageError;
use crate::kernel::{check_kernel, convolved, kernel_in_range, sharpen_kernel};
use crate::scale::{dimension_in_range, upscale_dimensions, ScaleFactor};

verus! {

/// What some bytes decode to, where they decode to an image with at least one
/// pixel.
pub open spec fn decoded_image(bytes: Seq<u8>) -> Option<(u32, u32, Seq<u8>)> {
    match decoded_rgba(bytes) {
        Some((w, h, px)) => if w > 0 && h > 0 {
            Some((w, h, px))
        } else {
            None
        },
        None => None,
    }
}

/// A resize to `width` by `height` can be carried out on an image that is
/// `source_width` wide: both dimensions are positive and the buffers that the
/// resampler allocates are addressable.
pub open spec fn resize_target_ok(source_width: u32, width: u32, height: u32) -> bool {
    &&& width > 0
    &&& height > 0
    &&& fits_in_memory(width as int, height as int)
    &&& fits_in_memory(source_width as int, height as int)
}

/// Decodes an encoded image into RGBA samples. Fails with `DecodeError` where
/// the bytes are not a recognised image or hold no pixel.
pub fn decode(bytes: &[u8]) -> (r: Result<PixelBuffer, ImageError>)
    ensures
        r is Ok <==> decoded_image(bytes@) is Some,
        r matches Ok(p) ==> p.wf() && decoded_image(bytes@) == Some(p.parts()),
        r matches Err(e) ==> e == ImageError::DecodeError,
        bytes@.len() == 0 ==> r is Err,
{
    match decode_rgba(bytes) {
        Some(p) => {
            if p.width > 0 && p.height > 0 {
                Ok(p)
            } else {
                Err(ImageError::DecodeError)
            }
        },
        None => Err(ImageError::DecodeError),
    }
}

/// Writes an image as a PNG file. Decoding the file gives the image back,
/// where its samples fit in the decoder's 512 MiB limit.
pub fn encode(p: &PixelBuffer) -> (r: Vec<u8>)
    requires
        p.wf(),
    ensures
        r@ == png_encoded(p.width, p.height, p.pixels@),
        r@.len() <= isize::MAX,
        decodable_size(p.width as int, p.height as int) ==> decoded_image(r@) == Some(p.parts()),
{
    write_png(p).unwrap()
}

/// Resamples an image to exactly `width` by `height` pixels with the 3-lobe
/// Lanczos filter. The aspect ratio is the caller's choice.
pub fn resize_exact(p: &PixelBuffer, width: u32, height: u32) -> (r: PixelBuffer)
    requires
        p.wf(),
        resize_target_ok(p.width, width, height),
    ensures
        r.wf(),
        r.width == width,
        r.height == height,
        r.pixels@ == lanczos3_resampled(p.width, p.height, p.pixels@, width, height),
{
    resize_lanczos3(p, width, height)
}

/// Tells whether a resize of an image `source_width` wide to `width` by
/// `height` can be carried out.
pub fn check_resize_target(source_width: u32, width: u32, height: u32) -> (r: bool)
    ensures
        r == resize_target_ok(source_width, width, height),
{
    width > 0 && height > 0 && sample_count(width, height) <= (isize::MAX / 4) as u128
        && sample_count(source_width, height) <= (isize::MAX / 4) as u128
}

/// Scales both dimensions by the same factor, truncating toward zero, and
/// resamples to the result. A factor that is not a finite positive number, or
/// a target that comes out empty or too large, is an `InvalidParameterError`.
pub fn upscale(p: &PixelBuffer, scale: ScaleFactor) -> (r: Result<PixelBuffer, ImageError>)
    requires
        p.wf(),
    ensures
        r is Ok <==> scale.is_positive_finite() && dimension_in_range(
            scale.scale_floor(p.width as nat),
        ) && dimension_in_range(scale.scale_floor(p.height as nat)) && resize_target_ok(
            p.width,
            scale.scale_floor(p.width as nat) as u32,
            scale.scale_floor(p.height as nat) as u32,
        ),
        r matches Ok(q) ==> q.wf() && q.width as nat == scale.scale_floor(p.width as nat)
            && q.height as nat == scale.scale_floor(p.height as nat) && q.pixels@
            == lanczos3_resampled(p.width, p.height, p.pixels@, q.width, q.height),
        r matches Err(e) ==> e == ImageError::InvalidParameterError,
{
    let (w, h) = upscale_dimensions(p.width, p.height, scale)?;
    if !check_resize_target(p.width, w, h) {
        return Err(ImageError::InvalidParameterError);
    }
    Ok(resize_exact(p, w, h))
}

/// Convolves every channel of every pixel with a 3x3 kernel, replicating the
/// border pixels outward, so that the size is kept. A weight beyond
/// `WEIGHT_LIMIT` in magnitude is an `InvalidParameterError`.
pub fn sharpen_with_kernel(p: &PixelBuffer, kernel: &[i32; 9]) -> (r: Result<
    PixelBuffer,
    ImageError,
>)
    requires
        p.wf(),
    ensures
        r is Ok <==> kernel_in_range(kernel@),
        r matches Ok(q) ==> q.wf() && q.width == p.width && q.height == p.height && q.pixels@
            == convolved(kernel@, p.width as int, p.height as int, p.pixels@),
        r matches Err(e) ==> e == ImageError::InvalidParameterError,
{
    if !check_kernel(kernel) {
        return Err(ImageError::InvalidParameterError);
    }
    let q = filter3x3(p, kernel);
    assert(q.pixels@.len() == q.width * q.height * 4);
    Ok(q)
}

/// Sharpens an image with the fixed kernel `[0, -1, 0, -1, 5, -1, 0, -1, 0]`.
/// Width, height and channel count are kept.
pub fn sharpen(p: &PixelBuffer) -> (r: PixelBuffer)
    requires
        p.wf(),
    ensures
        r.wf(),
        r.width == p.width,
        r.height == p.height,
        r.pixels@ == convolved(sharpen_kernel(), p.width as int, p.height as int, p.pixels@),
{
    let kernel: [i32; 9] = [0, -1, 0, -1, 5, -1, 0, -1, 0];
    assert(kernel@ == sharpen_kernel());
    let q = filter3x3(p, &kernel);
    assert(q.pixels@.len() == q.width * q.height * 4);
    q
}

} // verus!
