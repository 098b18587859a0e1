use vstd::prelude::*;

use crate::error::CoreError;

verus! {

/// The flat RGBA bytes of the magnified form of a `width x height` RGBA
/// image held in `pixels`, row-major, four bytes per pixel, for an image
/// with at least one pixel. The external magnifier is deterministic and
/// reads nothing but the image, so its output is a function of the bytes and
/// the dimensions alone; it doubles both dimensions, giving
/// `4 * (2 * width) * (2 * height)` bytes.
pub uninterp spec fn magnified_of(pixels: Seq<u8>, width: u32, height: u32) -> Seq<u8>;

/// Largest image dimension the external magnifier can take: it computes
/// neighborhood coordinates in i32, up to two past the far edge, so each
/// dimension must stay at most `i32::MAX - 2`.
pub const MAX_MAGNIFY_DIM: usize = 0x7FFF_FFFD;

/// Relies on mmpx::magnify: deterministic pixel-art doubling of an RGBA
/// image, built here from the flat bytes with image::RgbaImage::from_raw and
/// flattened back with into_raw. from_raw accepts a buffer of exactly
/// `width * height * 4` bytes, and magnify allocates the doubled image, so
/// the doubled byte count must stay within usize. Both dimensions must be
/// positive — on a zero-width or zero-height image the magnifier's clamped
/// neighborhood reads panic — and at most `i32::MAX - 2`, since the
/// magnifier forms the coordinates `x + 2` and `y + 2` in i32 for every
/// pixel, which must not overflow at the far edges.
#[verifier::external_body]
fn mmpx_magnify(pixels: &Vec<u8>, width: u32, height: u32) -> (out: Vec<u8>)
    requires
        width >= 1,
        height >= 1,
        width <= MAX_MAGNIFY_DIM,
        height <= MAX_MAGNIFY_DIM,
        pixels@.len() == 4 * width * height,
        16 * width * height <= usize::MAX,
    ensures
        out@ == magnified_of(pixels@, width, height),
        out@.len() == 16 * width * height,
{
    let image = image::RgbaImage::from_raw(width, height, pixels.clone()).unwrap();
    mmpx::magnify(&image).into_raw()
}

/// Doubles a `width x height` RGBA pixel buffer with the external pixel-art
/// magnifier, returning the `(2 * width) x (2 * height)` RGBA buffer. The
/// flat buffer is interpreted in the caller's (width, height, channel)
/// framing, so the external image is built with the axes swapped, as the
/// matrix conversion for quantization also does. An image without pixels
/// (either dimension zero) magnifies to the empty buffer without touching
/// the external magnifier, which cannot take it. Rejects, with no work done,
/// a buffer whose length is not exactly `width * height * 4`, and nonempty
/// dimensions past the magnifier's coordinate cap or whose doubled image
/// would not be addressable.
pub fn magnify(pixels: &Vec<u8>, width: usize, height: usize) -> (result: Result<
    Vec<u8>,
    CoreError,
>)
    ensures
        result is Ok <==> (pixels@.len() == width * height * 4 && (width * height == 0 || (height
            <= MAX_MAGNIFY_DIM && width <= MAX_MAGNIFY_DIM && 16 * width * height
            <= usize::MAX))),
        match result {
            Ok(out) => {
                &&& out@.len() == (2 * width) * (2 * height) * 4
                &&& width * height == 0 ==> out@ == Seq::<u8>::empty()
                &&& width * height != 0 ==> out@ == magnified_of(
                    pixels@,
                    height as u32,
                    width as u32,
                )
            },
            Err(e) => e == CoreError::ShapeMismatch,
        },
{
    let len = pixels.len();
    let pixel_count = match width.checked_mul(height) {
        Some(n) => n,
        None => {
            proof {
                assert(width * height * 4 >= width * height) by (nonlinear_arith);
            }
            return Err(CoreError::ShapeMismatch);
        },
    };
    let expected_len = match pixel_count.checked_mul(4) {
        Some(n) => n,
        None => {
            return Err(CoreError::ShapeMismatch);
        },
    };
    if len != expected_len {
        return Err(CoreError::ShapeMismatch);
    }
    if pixel_count == 0 {
        proof {
            assert((2 * width) * (2 * height) * 4 == 0) by (nonlinear_arith)
                requires
                    width * height == 0,
            ;
        }
        return Ok(Vec::new());
    }
    if height > MAX_MAGNIFY_DIM || width > MAX_MAGNIFY_DIM {
        return Err(CoreError::ShapeMismatch);
    }
    match expected_len.checked_mul(4) {
        Some(_) => {
            proof {
                assert(expected_len * 4 == 16 * (width as int) * (height as int)) by (
                nonlinear_arith)
                    requires
                        expected_len == pixel_count * 4,
                        pixel_count == width * height,
                ;
            }
        },
        None => {
            proof {
                assert(expected_len * 4 == 16 * (width as int) * (height as int)) by (
                nonlinear_arith)
                    requires
                        expected_len == pixel_count * 4,
                        pixel_count == width * height,
                ;
            }
            return Err(CoreError::ShapeMismatch);
        },
    }
    proof {
        let w = width as int;
        let h = height as int;
        assert(w >= 1 && h >= 1) by (nonlinear_arith)
            requires
                w >= 0,
                h >= 0,
                w * h >= 1,
        ;
        assert(4 * h * w == w * h * 4 && 16 * h * w == 16 * w * h && (2 * w) * (2 * h) * 4 == 16 * w
            * h) by (nonlinear_arith);
    }
    let out = mmpx_magnify(pixels, height as u32, width as u32);
    Ok(out)
}

} // verus!
