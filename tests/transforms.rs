use image_ops::blur::{parse_blur_family, BlurFamily, BlurSpec};
use image_ops::buffer::PixelBuffer;
use image_ops::error::ImageError;
use image_ops::ops::{
    apply_sharpen_filter, decode_base64, encode_base64, prepare_denoise, resize_image,
    upscale_image,
};
use image_ops::scale::{upscale_dimensions, ScaleFactor};
use image_ops::transform::{decode, encode, resize_exact, sharpen, sharpen_with_kernel, upscale};

fn gradient(width: u32, height: u32) -> PixelBuffer {
    let mut pixels = Vec::new();
    for y in 0..height {
        for x in 0..width {
            pixels.push((x * 37 % 256) as u8);
            pixels.push((y * 53 % 256) as u8);
            pixels.push(((x + y) * 11 % 256) as u8);
            pixels.push(255);
        }
    }
    PixelBuffer::from_raw(width, height, pixels).unwrap()
}

fn png_of(p: &PixelBuffer) -> Vec<u8> {
    encode(p)
}

fn text_of(p: &PixelBuffer) -> String {
    encode_base64(&png_of(p)).unwrap()
}

fn image_of_text(text: &str) -> PixelBuffer {
    decode(&decode_base64(text).unwrap()).unwrap()
}

#[test]
fn round_trip_decode_encode() {
    let p = gradient(5, 3);
    let back = decode(&png_of(&p)).unwrap();
    assert_eq!(back, p);
}

#[test]
fn resize_is_deterministic() {
    let png = png_of(&gradient(9, 7));
    let first = resize_image(&png, 4, 11).unwrap();
    let second = resize_image(&png, 4, 11).unwrap();
    assert_eq!(first, second);
}

#[test]
fn resize_yields_exact_dimensions() {
    let png = png_of(&gradient(6, 4));
    let out = decode(&resize_image(&png, 13, 2).unwrap()).unwrap();
    assert_eq!((out.width, out.height), (13, 2));
    assert_eq!(out.pixels.len(), 13 * 2 * 4);
    let direct = resize_exact(&gradient(6, 4), 1, 1);
    assert_eq!((direct.width, direct.height), (1, 1));
}

#[test]
fn resize_rejects_zero_dimension() {
    let png = png_of(&gradient(2, 2));
    assert_eq!(resize_image(&png, 0, 5), Err(ImageError::InvalidParameterError));
    assert_eq!(resize_image(&png, 5, 0), Err(ImageError::InvalidParameterError));
}

#[test]
fn resize_rejects_undecodable_bytes() {
    assert_eq!(resize_image(&[], 2, 2), Err(ImageError::DecodeError));
    assert_eq!(resize_image(&[1, 2, 3, 4, 5], 2, 2), Err(ImageError::DecodeError));
    let mut png = png_of(&gradient(4, 4));
    png.truncate(png.len() / 2);
    assert_eq!(resize_image(&png, 2, 2), Err(ImageError::DecodeError));
}

#[test]
fn upscale_follows_scale_law() {
    let text = text_of(&gradient(100, 50));
    let out = image_of_text(&upscale_image(&text, ScaleFactor::from_bits(1.5f64.to_bits())).unwrap());
    assert_eq!((out.width, out.height), (150, 75));
}

#[test]
fn upscale_truncates_toward_zero() {
    let s = ScaleFactor::from_bits(0.75f64.to_bits());
    assert_eq!(upscale_dimensions(10, 3, s), Ok((7, 2)));
    // The product is rounded as binary64 multiplication rounds it before
    // truncation, so 10 * 0.7 is 7 although 0.7 is stored just below 0.7.
    let s = ScaleFactor::from_bits(0.7f64.to_bits());
    assert_eq!(upscale_dimensions(10, 20, s), Ok((7, 14)));
    let third = ScaleFactor::from_bits((1.0f64 / 3.0).to_bits());
    assert_eq!(upscale_dimensions(9, 30, third), Ok((3, 10)));
    let s = ScaleFactor::from_bits(0.3f64.to_bits());
    assert_eq!(upscale_dimensions(10, 10, s), Ok((3, 3)));
    let q = upscale(&gradient(7, 5), ScaleFactor::from_bits(2.0f64.to_bits())).unwrap();
    assert_eq!((q.width, q.height), (14, 10));
}

#[test]
fn upscale_rejects_bad_factors() {
    let p = gradient(10, 10);
    for f in [0.0f64, -0.0, -1.5, f64::NAN, f64::INFINITY, 0.05, 1e300] {
        assert_eq!(
            upscale(&p, ScaleFactor::from_bits(f.to_bits())),
            Err(ImageError::InvalidParameterError),
            "factor {}",
            f
        );
    }
    let text = text_of(&p);
    assert_eq!(
        upscale_image(&text, ScaleFactor::from_bits((-2.0f64).to_bits())),
        Err(ImageError::InvalidParameterError)
    );
    assert_eq!(
        upscale_image("not base64!", ScaleFactor::from_bits(2.0f64.to_bits())),
        Err(ImageError::Base64DecodeError)
    );
    assert_eq!(
        upscale_image("AAAA", ScaleFactor::from_bits(2.0f64.to_bits())),
        Err(ImageError::DecodeError)
    );
}

#[test]
fn upscale_accepts_tiny_positive_factor_on_large_side() {
    let s = ScaleFactor::from_bits(0.001f64.to_bits());
    assert_eq!(upscale_dimensions(4000, 1000, s), Ok((4, 1)));
    assert_eq!(upscale_dimensions(4000, 999, s), Err(ImageError::InvalidParameterError));
}

#[test]
fn denoise_kernel_size_validation() {
    assert_eq!(BlurSpec::new("median", 4), Err(ImageError::InvalidParameterError));
    assert_eq!(
        BlurSpec::new("median", 5),
        Ok(BlurSpec { family: BlurFamily::Median, kernel_size: 5 })
    );
    assert_eq!(BlurSpec::new("gaussian", 0), Err(ImageError::InvalidParameterError));
    assert_eq!(BlurSpec::new("gaussian", -3), Err(ImageError::InvalidParameterError));
    assert_eq!(
        BlurSpec::new("gaussian", 3),
        Ok(BlurSpec { family: BlurFamily::Gaussian, kernel_size: 3 })
    );
    let text = text_of(&gradient(8, 8));
    let (bytes, spec) = prepare_denoise(&text, "median", 5).unwrap();
    assert_eq!(bytes, png_of(&gradient(8, 8)));
    assert_eq!(spec, BlurSpec { family: BlurFamily::Median, kernel_size: 5 });
    assert_eq!(prepare_denoise(&text, "median", 4), Err(ImageError::InvalidParameterError));
}

#[test]
fn denoise_rejects_unknown_family() {
    assert_eq!(BlurSpec::new("box", 3), Err(ImageError::InvalidParameterError));
    assert_eq!(parse_blur_family("Median"), Err(ImageError::InvalidParameterError));
    assert_eq!(parse_blur_family("gaussian "), Err(ImageError::InvalidParameterError));
    assert_eq!(parse_blur_family(""), Err(ImageError::InvalidParameterError));
    assert_eq!(parse_blur_family("median"), Ok(BlurFamily::Median));
    let text = text_of(&gradient(3, 3));
    assert_eq!(prepare_denoise(&text, "box", 3), Err(ImageError::InvalidParameterError));
    assert_eq!(prepare_denoise("@@@", "median", 3), Err(ImageError::Base64DecodeError));
}

#[test]
fn sharpen_keeps_shape() {
    for (w, h) in [(1, 1), (2, 1), (5, 3), (16, 9)] {
        let p = gradient(w, h);
        let q = sharpen(&p);
        assert_eq!((q.width(), q.height(), q.channel_count()), (w, h, 4));
        assert_eq!(q.pixels.len(), p.pixels.len());
    }
    let text = text_of(&gradient(6, 5));
    let out = image_of_text(&apply_sharpen_filter(&text).unwrap());
    assert_eq!((out.width, out.height), (6, 5));
    assert_eq!(out, sharpen(&gradient(6, 5)));
}

#[test]
fn sharpen_exact_values() {
    let p = PixelBuffer::from_raw(2, 1, vec![100, 100, 100, 255, 0, 0, 0, 255]).unwrap();
    let once = sharpen(&p);
    assert_eq!(once.pixels, vec![200, 200, 200, 255, 0, 0, 0, 255]);
    let flat = PixelBuffer::from_raw(2, 2, vec![7; 16]).unwrap();
    assert_eq!(sharpen(&flat).pixels, vec![7; 16]);
}

#[test]
fn sharpen_is_not_idempotent() {
    let p = PixelBuffer::from_raw(2, 1, vec![100, 100, 100, 255, 0, 0, 0, 255]).unwrap();
    let once = sharpen(&p);
    let twice = sharpen(&once);
    assert_ne!(twice, once);
    assert_eq!(twice.pixels, vec![255, 255, 255, 255, 0, 0, 0, 255]);
}

#[test]
fn sharpen_with_custom_kernel() {
    let p = gradient(4, 3);
    let identity = [0, 0, 0, 0, 1, 0, 0, 0, 0];
    assert_eq!(sharpen_with_kernel(&p, &identity).unwrap(), p);
    let shift = [0, 0, 0, 0, 0, 1, 0, 0, 0];
    let q = sharpen_with_kernel(&p, &shift).unwrap();
    assert_eq!(q.pixels[0..4], p.pixels[4..8]);
    assert_eq!(
        sharpen_with_kernel(&p, &[0, 0, 0, 0, 70000, 0, 0, 0, 0]),
        Err(ImageError::InvalidParameterError)
    );
}

#[test]
fn sharpen_rejects_bad_text() {
    assert_eq!(apply_sharpen_filter("%%%%"), Err(ImageError::Base64DecodeError));
    assert_eq!(apply_sharpen_filter(""), Err(ImageError::DecodeError));
}

#[test]
fn base64_codec_values() {
    assert_eq!(encode_base64(b"abc").unwrap(), "YWJj");
    assert_eq!(encode_base64(b"ab").unwrap(), "YWI=");
    assert_eq!(decode_base64("YWJj").unwrap(), b"abc".to_vec());
    assert_eq!(decode_base64("YW"), Err(ImageError::Base64DecodeError));
}

#[test]
fn pixel_buffer_construction() {
    assert!(PixelBuffer::from_raw(0, 1, vec![]).is_none());
    assert!(PixelBuffer::from_raw(1, 1, vec![1, 2, 3]).is_none());
    assert!(PixelBuffer::from_raw(1, 1, vec![1, 2, 3, 4]).is_some());
}

fn rgba_row(values: &[u8]) -> PixelBuffer {
    let mut pixels = Vec::new();
    for v in values {
        pixels.extend_from_slice(&[*v, *v, *v, 255]);
    }
    PixelBuffer::from_raw(values.len() as u32, 1, pixels).unwrap()
}

#[test]
fn sharpen_ramp_through_codec() {
    let text = text_of(&rgba_row(&[10, 20, 30]));
    let s1 = apply_sharpen_filter(&text).unwrap();
    assert_eq!(image_of_text(&s1), rgba_row(&[0, 20, 40]));
    let s2 = apply_sharpen_filter(&s1).unwrap();
    assert_eq!(image_of_text(&s2), rgba_row(&[0, 20, 60]));
    assert_ne!(s1, s2);
}

#[test]
fn sharpen_keeps_flat_image_and_opaque_alpha() {
    let flat = PixelBuffer::from_raw(3, 4, [9, 80, 200, 255].repeat(12)).unwrap();
    let text = text_of(&flat);
    assert_eq!(image_of_text(&apply_sharpen_filter(&text).unwrap()), flat);
    let q = sharpen(&gradient(7, 6));
    assert!(q.pixels.chunks(4).all(|px| px[3] == 255));
}

#[test]
fn resize_distorts_aspect_ratio() {
    let png = png_of(&gradient(100, 50));
    let out = decode(&resize_image(&png, 10, 90).unwrap()).unwrap();
    assert_eq!((out.width, out.height), (10, 90));
    assert_eq!(out, resize_exact(&gradient(100, 50), 10, 90));
}

#[test]
fn upscale_by_half_and_matches_resize() {
    let p = gradient(100, 50);
    let text = text_of(&p);
    let out = upscale_image(&text, ScaleFactor::from_bits(0.5f64.to_bits())).unwrap();
    let img = image_of_text(&out);
    assert_eq!((img.width, img.height), (50, 25));
    let resized = resize_image(&png_of(&p), 50, 25).unwrap();
    assert_eq!(decode_base64(&out).unwrap(), resized);
    let again = upscale_image(&text, ScaleFactor::from_bits(0.5f64.to_bits())).unwrap();
    assert_eq!(again, out);
}

#[test]
fn upscale_matches_float_truncation() {
    for w in 1u32..200 {
        for f in [0.1f64, 0.3, 0.7, 1.0 / 3.0, 1.1, 1.5, 2.2, 2.7, 3.3, 0.999] {
            let expected = (w as f64 * f) as u32;
            let got = ScaleFactor::from_bits(f.to_bits()).scaled_dimension(w);
            if expected == 0 {
                assert_eq!(got, None, "{} * {}", w, f);
            } else {
                assert_eq!(got, Some(expected), "{} * {}", w, f);
            }
        }
    }
}
