use vstd::prelude::*;

use crate::blur::{blur_spec_of, BlurSpec};
use crate::buffer::{decodable_size, PixelBuffer};
use crate::codec::{
    base64_decode,
    base64_decoded,
    base64_encode,
    base64_encoded,
    lanczos3_resampled,
    png_encoded,
};
use crate::error::ImageError;
use crate::kernel::{convolved, sharpen_kernel};
use crate::scale::{dimension_in_range, ScaleFactor};
use crate::transform::{
    check_resize_target,
    decode,
    decoded_image,
    encode,
    resize_exact,
    resize_target_ok,
    sharpen,
    upscale,
};

verus! {

/// A result with its bytes seen as a sequence.
pub open spec fn bytes_result(r: Result<Vec<u8>, ImageError>) -> Result<Seq<u8>, ImageError> {
    match r {
        Ok(v) => Ok(v@),
        Err(e) => Err(e),
    }
}

/// A result with its text seen as a sequence of characters.
pub open spec fn text_result(r: Result<String, ImageError>) -> Result<Seq<char>, ImageError> {
    match r {
        Ok(s) => Ok(s@),
        Err(e) => Err(e),
    }
}

/// Base64 text whose bytes are a PNG file that decodes to the given image,
/// where its samples fit in the decoder's 512 MiB limit.
pub open spec fn text_carries(text: Seq<char>, width: u32, height: u32, px: Seq<u8>) -> bool {
    &&& base64_decoded(text) is Some
    &&& decodable_size(width as int, height as int) ==> decoded_image(base64_decoded(text)->Some_0)
        == Some((width, height, px))
}

/// The image that base64 text carries, as width, height and RGBA samples.
pub open spec fn image_of_text(text: Seq<char>) -> Result<(u32, u32, Seq<u8>), ImageError> {
    match base64_decoded(text) {
        None => Err(ImageError::Base64DecodeError),
        Some(bytes) => match decoded_image(bytes) {
            None => Err(ImageError::DecodeError),
            Some(img) => Ok(img),
        },
    }
}

/// The PNG file that resizing an encoded image to `width` by `height` gives.
pub open spec fn resized_png(input: Seq<u8>, width: u32, height: u32) -> Result<Seq<u8>, ImageError> {
    if width == 0 || height == 0 {
        Err(ImageError::InvalidParameterError)
    } else {
        match decoded_image(input) {
            None => Err(ImageError::DecodeError),
            Some((w, h, px)) => if resize_target_ok(w, width, height) {
                Ok(png_encoded(width, height, lanczos3_resampled(w, h, px, width, height)))
            } else {
                Err(ImageError::InvalidParameterError)
            },
        }
    }
}

/// The base64 text of the PNG file that upscaling the image carried by
/// `text` gives.
pub open spec fn upscaled_text(text: Seq<char>, scale: ScaleFactor) -> Result<Seq<char>, ImageError> {
    if !scale.is_positive_finite() {
        Err(ImageError::InvalidParameterError)
    } else {
        match image_of_text(text) {
            Err(e) => Err(e),
            Ok((w, h, px)) => {
                let nw = scale.scale_floor(w as nat);
                let nh = scale.scale_floor(h as nat);
                if dimension_in_range(nw) && dimension_in_range(nh) && resize_target_ok(
                    w,
                    nw as u32,
                    nh as u32,
                ) {
                    Ok(
                        base64_encoded(
                            png_encoded(
                                nw as u32,
                                nh as u32,
                                lanczos3_resampled(w, h, px, nw as u32, nh as u32),
                            ),
                        ),
                    )
                } else {
                    Err(ImageError::InvalidParameterError)
                }
            },
        }
    }
}

/// The base64 text of the PNG file that sharpening the image carried by
/// `text` gives.
pub open spec fn sharpened_text(text: Seq<char>) -> Result<Seq<char>, ImageError> {
    match image_of_text(text) {
        Err(e) => Err(e),
        Ok((w, h, px)) => Ok(
            base64_encoded(png_encoded(w, h, convolved(sharpen_kernel(), w as int, h as int, px))),
        ),
    }
}

/// Decodes base64 text (standard alphabet, padded) into bytes.
pub fn decode_base64(text: &str) -> (r: Result<Vec<u8>, ImageError>)
    ensures
        match base64_decoded(text@) {
            Some(bytes) => r matches Ok(v) && v@ == bytes,
            None => r == Err::<Vec<u8>, ImageError>(ImageError::Base64DecodeError),
        },
{
    match base64_decode(text) {
        Some(bytes) => Ok(bytes),
        None => Err(ImageError::Base64DecodeError),
    }
}

/// Encodes bytes as base64 text (standard alphabet, padded). Input so long
/// that its text would not be addressable is an `EncodeError`.
pub fn encode_base64(bytes: &[u8]) -> (r: Result<String, ImageError>)
    ensures
        bytes@.len() <= usize::MAX / 2 ==> (r matches Ok(s) && s@ == base64_encoded(bytes@)
            && base64_decoded(s@) == Some(bytes@)),
        bytes@.len() > usize::MAX / 2 ==> r == Err::<String, ImageError>(ImageError::EncodeError),
{
    if bytes.len() <= usize::MAX / 2 {
        Ok(base64_encode(bytes))
    } else {
        Err(ImageError::EncodeError)
    }
}

/// Decodes base64 text into an image.
fn image_from_text(text: &str) -> (r: Result<PixelBuffer, ImageError>)
    ensures
        match image_of_text(text@) {
            Ok(img) => r matches Ok(p) && p.wf() && p.parts() == img,
            Err(e) => r == Err::<PixelBuffer, ImageError>(e),
        },
{
    let bytes = decode_base64(text)?;
    decode(bytes.as_slice())
}

/// Writes an image as PNG and then as base64 text.
fn image_to_text(p: &PixelBuffer) -> (r: String)
    requires
        p.wf(),
    ensures
        r@ == base64_encoded(png_encoded(p.width, p.height, p.pixels@)),
        text_carries(r@, p.width, p.height, p.pixels@),
{
    let png = encode(p);
    base64_encode(png.as_slice())
}

/// Resizes an encoded image to exactly `width` by `height` pixels and returns
/// it as a PNG file. A zero dimension, or one too large to allocate, is an
/// `InvalidParameterError`; undecodable input is a `DecodeError`. The result
/// depends on the arguments alone.
pub fn resize_image(input: &[u8], width: u32, height: u32) -> (r: Result<Vec<u8>, ImageError>)
    ensures
        bytes_result(r) == resized_png(input@, width, height),
        r matches Ok(out) ==> (decoded_image(input@) matches Some((w, h, px)) && (decodable_size(
            width as int,
            height as int,
        ) ==> decoded_image(out@) == Some((width, height, lanczos3_resampled(w, h, px, width, height))))),
{
    if width == 0 || height == 0 {
        return Err(ImageError::InvalidParameterError);
    }
    let img = decode(input)?;
    if !check_resize_target(img.width, width, height) {
        return Err(ImageError::InvalidParameterError);
    }
    let resized = resize_exact(&img, width, height);
    Ok(encode(&resized))
}

/// Scales the image carried by base64 text by a uniform factor (dimensions
/// truncated toward zero) and returns it as base64 text of a PNG file.
pub fn upscale_image(base64_input: &str, scale: ScaleFactor) -> (r: Result<String, ImageError>)
    ensures
        text_result(r) == upscaled_text(base64_input@, scale),
        r matches Ok(out) ==> (image_of_text(base64_input@) matches Ok((w, h, px)) && text_carries(
            out@,
            scale.scale_floor(w as nat) as u32,
            scale.scale_floor(h as nat) as u32,
            lanczos3_resampled(
                w,
                h,
                px,
                scale.scale_floor(w as nat) as u32,
                scale.scale_floor(h as nat) as u32,
            ),
        )),
{
    if !scale.check_positive_finite() {
        return Err(ImageError::InvalidParameterError);
    }
    let img = image_from_text(base64_input)?;
    let resized = upscale(&img, scale)?;
    Ok(image_to_text(&resized))
}

/// Sharpens the image carried by base64 text and returns it as base64 text
/// of a PNG file.
pub fn apply_sharpen_filter(base64_input: &str) -> (r: Result<String, ImageError>)
    ensures
        text_result(r) == sharpened_text(base64_input@),
        r matches Ok(out) ==> (image_of_text(base64_input@) matches Ok((w, h, px)) && text_carries(
            out@,
            w,
            h,
            convolved(sharpen_kernel(), w as int, h as int, px),
        )),
{
    let img = image_from_text(base64_input)?;
    let sharpened = sharpen(&img);
    Ok(image_to_text(&sharpened))
}

/// Validates a noise-reduction request and decodes its base64 image text into
/// the encoded image bytes. The parameters are checked first.
pub fn prepare_denoise(base64_input: &str, blur_type: &str, kernel_size: i32) -> (r: Result<
    (Vec<u8>, BlurSpec),
    ImageError,
>)
    ensures
        match blur_spec_of(blur_type@, kernel_size) {
            Err(e) => r == Err::<(Vec<u8>, BlurSpec), ImageError>(e),
            Ok(spec) => match base64_decoded(base64_input@) {
                None => r == Err::<(Vec<u8>, BlurSpec), ImageError>(
                    ImageError::Base64DecodeError,
                ),
                Some(bytes) => r matches Ok((v, s)) && v@ == bytes && s == spec,
            },
        },
{
    let spec = BlurSpec::new(blur_type, kernel_size)?;
    let bytes = decode_base64(base64_input)?;
    Ok((bytes, spec))
}

} // verus!
