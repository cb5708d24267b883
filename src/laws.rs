use vstd::prelude::*;

use crate::blur::{blur_spec_of, family_named};
use crate::error::ImageError;
use crate::kernel::{clamp_coord, convolved, sample_at, sharpen_kernel, weighted_sum};
use crate::codec::{base64_decoded, base64_encoded};
use crate::ops::{resized_png, upscaled_text};
use crate::scale::ScaleFactor;
use crate::transform::decoded_image;

verus! {

/// Resizing is deterministic: two calls on the same bytes and the same size
/// give the same result, the same PNG bytes or the same error.
pub proof fn lemma_resize_deterministic(
    input: Seq<u8>,
    width: u32,
    height: u32,
    first: Result<Seq<u8>, ImageError>,
    second: Result<Seq<u8>, ImageError>,
)
    requires
        first == resized_png(input, width, height),
        second == resized_png(input, width, height),
    ensures
        first == second,
{
}

/// Upscaling is resizing to the scaled dimensions: where an upscale succeeds,
/// its text is the base64 text of the PNG file that resizing the decoded
/// bytes to the scaled width by the scaled height (`scale_floor`) gives.
pub proof fn lemma_upscale_is_resize(text: Seq<char>, scale: ScaleFactor)
    requires
        upscaled_text(text, scale) is Ok,
    ensures
        base64_decoded(text) matches Some(bytes) && decoded_image(bytes) matches Some((w, h, px))
            && resized_png(bytes, scale.scale_floor(w as nat) as u32, scale.scale_floor(h as nat) as u32)
            matches Ok(png) && upscaled_text(text, scale) == Ok::<Seq<char>, ImageError>(
            base64_encoded(png),
        ),
{
}

/// The sample that `sample_at` reads lies inside the image, in channel `c`.
proof fn lemma_sample_index(width: int, height: int, x: int, y: int, c: int)
    requires
        width > 0,
        height > 0,
        0 <= c < 4,
    ensures
        0 <= (clamp_coord(y, height) * width + clamp_coord(x, width)) * 4 + c < width * height * 4,
        ((clamp_coord(y, height) * width + clamp_coord(x, width)) * 4 + c) % 4 == c,
{
    let cy = clamp_coord(y, height);
    let cx = clamp_coord(x, width);
    assert(0 <= cy * width + cx < width * height) by (nonlinear_arith)
        requires
            0 <= cy < height,
            0 <= cx < width,
    ;
    let j = cy * width + cx;
    assert((j * 4 + c) % 4 == c) by (nonlinear_arith)
        requires
            j >= 0,
            0 <= c < 4,
    ;
}

/// Sharpening keeps a channel that holds one value everywhere, since the
/// kernel's weights sum to one: an opaque alpha channel stays opaque.
pub proof fn lemma_sharpen_keeps_uniform_channel(
    width: int,
    height: int,
    px: Seq<u8>,
    c: int,
    v: u8,
)
    requires
        width > 0,
        height > 0,
        px.len() == width * height * 4,
        0 <= c < 4,
        forall|j: int| 0 <= j < px.len() && j % 4 == c ==> px[j] == v,
    ensures
        forall|i: int|
            0 <= i < px.len() && i % 4 == c ==> #[trigger] convolved(
                sharpen_kernel(),
                width,
                height,
                px,
            )[i] == v,
{
    let k = sharpen_kernel();
    assert(k[0] == 0 && k[1] == -1 && k[2] == 0 && k[3] == -1 && k[4] == 5);
    assert(k[5] == -1 && k[6] == 0 && k[7] == -1 && k[8] == 0);
    assert forall|i: int|
        0 <= i < px.len() && i % 4 == c implies #[trigger] convolved(k, width, height, px)[i] == v by {
        let x = (i / 4) % width;
        let y = (i / 4) / width;
        lemma_sample_index(width, height, x, y - 1, c);
        lemma_sample_index(width, height, x - 1, y, c);
        lemma_sample_index(width, height, x, y, c);
        lemma_sample_index(width, height, x + 1, y, c);
        lemma_sample_index(width, height, x, y + 1, c);
        assert(sample_at(width, height, px, x, y - 1, c) == v);
        assert(sample_at(width, height, px, x - 1, y, c) == v);
        assert(sample_at(width, height, px, x, y, c) == v);
        assert(sample_at(width, height, px, x + 1, y, c) == v);
        assert(sample_at(width, height, px, x, y + 1, c) == v);
        assert(weighted_sum(k, width, height, px, x, y, c) == v);
    }
}

/// Channel `c` of a flat image is kept by sharpening.
proof fn uniform_channel_of_flat_image(width: int, height: int, px: Seq<u8>, c: int)
    requires
        width > 0,
        height > 0,
        px.len() == width * height * 4,
        forall|j: int| 0 <= j < px.len() ==> px[j] == #[trigger] px[j % 4],
        0 <= c < 4,
    ensures
        forall|i: int|
            0 <= i < px.len() && i % 4 == c ==> #[trigger] convolved(
                sharpen_kernel(),
                width,
                height,
                px,
            )[i] == px[c],
{
    assert forall|j: int| 0 <= j < px.len() && j % 4 == c implies px[j] == px[c] by {
        assert(px[j] == px[j % 4]);
    }
    lemma_sharpen_keeps_uniform_channel(width, height, px, c, px[c]);
}

/// An image whose pixels are all the same is left as it is by sharpening.
pub proof fn lemma_sharpen_keeps_flat_image(width: int, height: int, px: Seq<u8>)
    requires
        width > 0,
        height > 0,
        px.len() == width * height * 4,
        forall|j: int| 0 <= j < px.len() ==> px[j] == #[trigger] px[j % 4],
    ensures
        convolved(sharpen_kernel(), width, height, px) == px,
{
    let out = convolved(sharpen_kernel(), width, height, px);
    uniform_channel_of_flat_image(width, height, px, 0);
    uniform_channel_of_flat_image(width, height, px, 1);
    uniform_channel_of_flat_image(width, height, px, 2);
    uniform_channel_of_flat_image(width, height, px, 3);
    assert forall|i: int| 0 <= i < px.len() implies out[i] == px[i] by {
        assert(px[i] == px[i % 4]);
        assert(0 <= i % 4 < 4);
    }
    assert(out =~= px);
}

/// A kernel size that is even, zero or negative is rejected as an invalid
/// parameter, whatever the family.
pub proof fn lemma_bad_kernel_size_rejected(name: Seq<char>, kernel_size: i32)
    requires
        kernel_size <= 0 || kernel_size % 2 == 0,
    ensures
        blur_spec_of(name, kernel_size) == Err::<crate::blur::BlurSpec, ImageError>(
            ImageError::InvalidParameterError,
        ),
{
}

/// A family selector other than `"gaussian"` and `"median"` is rejected as an
/// invalid parameter, whatever the kernel size.
pub proof fn lemma_unknown_family_rejected(name: Seq<char>, kernel_size: i32)
    requires
        family_named(name) is None,
    ensures
        blur_spec_of(name, kernel_size) == Err::<crate::blur::BlurSpec, ImageError>(
            ImageError::InvalidParameterError,
        ),
{
}

/// Sharpening is not idempotent: some image changes when it is sharpened a
/// second time.
pub proof fn lemma_sharpen_not_idempotent()
    ensures
        exists|width: int, height: int, px: Seq<u8>|
            width > 0 && height > 0 && px.len() == width * height * 4 && #[trigger] convolved(
                sharpen_kernel(),
                width,
                height,
                convolved(sharpen_kernel(), width, height, px),
            ) != convolved(sharpen_kernel(), width, height, px),
{
    let k = sharpen_kernel();
    let px = seq![100u8, 100u8, 100u8, 255u8, 0u8, 0u8, 0u8, 255u8];
    let once = convolved(k, 2, 1, px);
    let twice = convolved(k, 2, 1, once);
    assert(k[0] == 0 && k[1] == -1 && k[2] == 0 && k[3] == -1 && k[4] == 5);
    assert(k[5] == -1 && k[6] == 0 && k[7] == -1 && k[8] == 0);
    assert(px[0] == 100 && px[4] == 0);
    assert(sample_at(2, 1, px, 0, -1, 0) == 100);
    assert(sample_at(2, 1, px, -1, 0, 0) == 100);
    assert(sample_at(2, 1, px, 0, 0, 0) == 100);
    assert(sample_at(2, 1, px, 1, 0, 0) == 0);
    assert(sample_at(2, 1, px, 0, 1, 0) == 100);
    assert(weighted_sum(k, 2, 1, px, 0, 0, 0) == 200);
    assert(once[0] == 200);
    assert(sample_at(2, 1, px, 1, -1, 0) == 0);
    assert(sample_at(2, 1, px, 2, 0, 0) == 0);
    assert(sample_at(2, 1, px, 1, 1, 0) == 0);
    assert(weighted_sum(k, 2, 1, px, 1, 0, 0) == -100);
    assert(once[4] == 0);
    assert(sample_at(2, 1, once, 0, -1, 0) == 200);
    assert(sample_at(2, 1, once, -1, 0, 0) == 200);
    assert(sample_at(2, 1, once, 0, 0, 0) == 200);
    assert(sample_at(2, 1, once, 1, 0, 0) == 0);
    assert(sample_at(2, 1, once, 0, 1, 0) == 200);
    assert(weighted_sum(k, 2, 1, once, 0, 0, 0) == 400);
    assert(twice[0] == 255);
    assert(twice != once);
}

} // verus!
