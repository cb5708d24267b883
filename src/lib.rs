//! Stateless image transforms: exact resize, uniform upscale, sharpening and
//! the parameter checks of noise reduction, each from encoded image input to
//! a PNG result, with every failure reported as an `ImageError`.

pub mod error;
pub mod scale;
pub mod buffer;
pub mod kernel;
pub mod codec;
pub mod transform;
pub mod blur;
pub mod ops;
pub mod laws;
