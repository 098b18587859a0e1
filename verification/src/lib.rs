//! Pixel-buffer transformation library: brightness thresholding, palette
//! quantization support (parameter validation, color-matrix layout, and
//! reconstruction from palette indices), and pixel-art magnification.
//!
//! Pixel buffers are flat, row-major sequences of 8-bit channel values,
//! `width * height * channels` bytes long, channels ordered R, G, B (, A).

pub mod color;
pub mod error;
pub mod magnify;
pub mod quant;
pub mod threshold;
