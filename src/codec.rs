use vstd::prelude::*;
use base64::Engine;

use crate::buffer::{decodable_size, fits_in_memory, PixelBuffer};
use crate::error::ImageError;
use crate::kernel::{convolved, kernel_in_range};

verus! {

/// What an encoded image decodes to, as 8-bit RGBA: width, height, samples.
pub uninterp spec fn decoded_rgba(bytes: Seq<u8>) -> Option<(u32, u32, Seq<u8>)>;

/// The PNG file that an RGBA image is written as.
pub uninterp spec fn png_encoded(width: u32, height: u32, pixels: Seq<u8>) -> Seq<u8>;

/// The samples of an RGBA image resampled to a new size with the 3-lobe
/// Lanczos filter.
pub uninterp spec fn lanczos3_resampled(
    width: u32,
    height: u32,
    pixels: Seq<u8>,
    new_width: u32,
    new_height: u32,
) -> Seq<u8>;

/// The bytes that base64 text (standard alphabet, padded) stands for, or
/// `None` where the text is not valid base64.
pub uninterp spec fn base64_decoded(text: Seq<char>) -> Option<Seq<u8>>;

/// The base64 text (standard alphabet, padded) of some bytes.
pub uninterp spec fn base64_encoded(bytes: Seq<u8>) -> Seq<char>;

/// Relies on `image::load_from_memory`, which picks the container format by
/// the leading magic bytes (so no format matches empty input) and decodes;
/// and on `DynamicImage::to_rgba8`, which converts the result to an RGBA
/// buffer holding exactly `width * height * 4` samples.
#[verifier::external_body]
pub(crate) fn decode_rgba(bytes: &[u8]) -> (r: Option<PixelBuffer>)
    ensures
        bytes@.len() == 0 ==> r is None,
        match r {
            Some(p) => decoded_rgba(bytes@) == Some(p.parts()) && p.pixels@.len() == p.width
                * p.height * 4,
            None => decoded_rgba(bytes@) is None,
        },
{
    match image::load_from_memory(bytes) {
        Ok(img) => {
            let rgba = img.to_rgba8();
            Some(PixelBuffer { width: rgba.width(), height: rgba.height(), pixels: rgba.into_raw() })
        },
        Err(_) => None,
    }
}

/// Relies on `DynamicImage::write_to` with `ImageOutputFormat::Png`. The PNG
/// encoder fails only on a zero dimension, a wrong sample count or a write
/// error, and a `Cursor` over a `Vec` gives none; so a well-formed RGBA
/// buffer is always written. PNG is lossless: `image::load_from_memory`
/// recognises the PNG signature and reads the same 8-bit RGBA samples back,
/// provided they fit in its default 512 MiB allocation limit.
/// A `Vec` never holds more than `isize::MAX` bytes.
#[verifier::external_body]
pub(crate) fn write_png(p: &PixelBuffer) -> (r: Result<Vec<u8>, ImageError>)
    requires
        p.wf(),
    ensures
        r is Ok,
        r matches Ok(bytes) ==> bytes@ == png_encoded(p.width, p.height, p.pixels@),
        r matches Ok(bytes) ==> bytes@.len() <= isize::MAX,
        r matches Ok(bytes) ==> (decodable_size(p.width as int, p.height as int) ==> decoded_rgba(
            bytes@,
        ) == Some(p.parts())),
{
    let buf = match image::RgbaImage::from_raw(p.width, p.height, p.pixels.clone()) {
        Some(buf) => buf,
        None => return Err(ImageError::EncodeError),
    };
    let mut out: Vec<u8> = Vec::new();
    match image::DynamicImage::ImageRgba8(buf).write_to(
        &mut std::io::Cursor::new(&mut out),
        image::ImageOutputFormat::Png,
    ) {
        Ok(()) => Ok(out),
        Err(_) => Err(ImageError::EncodeError),
    }
}

/// Relies on `image::imageops::resize` with `FilterType::Lanczos3`, which
/// returns a buffer of exactly the requested size. It allocates
/// `new_width * new_height` and `width * new_height` pixel buffers, which
/// must be addressable.
#[verifier::external_body]
pub(crate) fn resize_lanczos3(p: &PixelBuffer, new_width: u32, new_height: u32) -> (r: PixelBuffer)
    requires
        p.wf(),
        new_width > 0,
        new_height > 0,
        fits_in_memory(new_width as int, new_height as int),
        fits_in_memory(p.width as int, new_height as int),
    ensures
        r.width == new_width,
        r.height == new_height,
        r.pixels@ == lanczos3_resampled(p.width, p.height, p.pixels@, new_width, new_height),
        r.pixels@.len() == new_width * new_height * 4,
{
    let src = image::RgbaImage::from_raw(p.width, p.height, p.pixels.clone()).unwrap();
    let out = image::imageops::resize(&src, new_width, new_height, image::imageops::FilterType::Lanczos3);
    PixelBuffer { width: out.width(), height: out.height(), pixels: out.into_raw() }
}

/// Relies on `imageproc::filter::filter3x3` with an `i32` accumulator: each
/// channel of each output pixel is the weighted sum of the 3x3 neighbourhood
/// (border pixels replicated outward), clamped to `0..=255`. The size is kept.
#[verifier::external_body]
pub(crate) fn filter3x3(p: &PixelBuffer, kernel: &[i32; 9]) -> (r: PixelBuffer)
    requires
        p.wf(),
        kernel_in_range(kernel@),
    ensures
        r.width == p.width,
        r.height == p.height,
        r.pixels@ == convolved(kernel@, p.width as int, p.height as int, p.pixels@),
{
    let src = image::RgbaImage::from_raw(p.width, p.height, p.pixels.clone()).unwrap();
    let out: image::RgbaImage = imageproc::filter::filter3x3::<_, i32, u8>(&src, kernel);
    PixelBuffer { width: out.width(), height: out.height(), pixels: out.into_raw() }
}

/// Relies on `base64::engine::general_purpose::STANDARD.decode`, which
/// returns the decoded bytes or an error for text that is not valid base64.
#[verifier::external_body]
pub(crate) fn base64_decode(text: &str) -> (r: Option<Vec<u8>>)
    ensures
        match r {
            Some(bytes) => base64_decoded(text@) == Some(bytes@),
            None => base64_decoded(text@) is None,
        },
{
    base64::engine::general_purpose::STANDARD.decode(text).ok()
}

/// Relies on `base64::engine::general_purpose::STANDARD.encode`, which
/// panics only where the encoded length overflows `usize`. Decoding the text
/// with the same engine gives the bytes back.
#[verifier::external_body]
pub(crate) fn base64_encode(bytes: &[u8]) -> (r: String)
    requires
        bytes@.len() <= usize::MAX / 2,
    ensures
        r@ == base64_encoded(bytes@),
        base64_decoded(r@) == Some(bytes@),
{
    base64::engine::general_purpose::STANDARD.encode(bytes)
}

} // verus!
