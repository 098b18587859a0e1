use vstd::prelude::*;

use crate::error::CoreError;

verus! {

/// One 8-bit RGB color. A component value `c` stands for the normalized
/// intensity `c / 255` when the color is handed to the external optimizer;
/// keeping the 8-bit form here keeps every component an exact integer.
#[derive(Clone, Copy, Debug, PartialEq, Eq, Structural)]
pub struct Color {
    pub r: u8,
    pub g: u8,
    pub b: u8,
}

/// The component of a color selected by a channel offset: 0 is red, 1 is
/// green, and any other offset is blue.
pub open spec fn color_byte(c: Color, k: int) -> u8 {
    if k == 0 {
        c.r
    } else if k == 1 {
        c.g
    } else {
        c.b
    }
}

/// The sequence of whole colors held in a flat RGB byte buffer: byte `3*p`
/// is the red component of color `p`. Bytes past the last whole triple are
/// not part of any color.
pub open spec fn colors_of(s: Seq<u8>) -> Seq<Color> {
    Seq::new(s.len() / 3, |p: int| Color { r: s[3 * p], g: s[3 * p + 1], b: s[3 * p + 2] })
}

/// The color of pixel `p` in a flat RGB byte buffer.
pub open spec fn pixel_at(s: Seq<u8>, p: int) -> Color {
    Color { r: s[3 * p], g: s[3 * p + 1], b: s[3 * p + 2] }
}

/// The three bytes `3p`, `3p + 1`, `3p + 2` all belong to pixel `p`: their
/// quotients by three are `p` and their remainders are 0, 1 and 2.
pub proof fn lemma_triple_index(p: int)
    requires
        p >= 0,
    ensures
        (3 * p) / 3 == p && (3 * p) % 3 == 0,
        (3 * p + 1) / 3 == p && (3 * p + 1) % 3 == 1,
        (3 * p + 2) / 3 == p && (3 * p + 2) % 3 == 2,
{
    assert((3 * p) / 3 == p && (3 * p) % 3 == 0 && (3 * p + 1) / 3 == p && (3 * p + 1) % 3 == 1 && (
    3 * p + 2) / 3 == p && (3 * p + 2) % 3 == 2) by (nonlinear_arith)
        requires
            p >= 0,
    ;
}

/// In a buffer of whole triples, a byte's whole triple is in bounds.
pub proof fn lemma_triple_bytes(i: int, len: int)
    requires
        0 <= i < len,
        len % 3 == 0,
    ensures
        0 <= 3 * (i / 3) && 3 * (i / 3) + 2 < len,
{
    assert(0 <= 3 * (i / 3) && 3 * (i / 3) + 2 < len) by (nonlinear_arith)
        requires
            0 <= i < len,
            len % 3 == 0,
    ;
}

/// Gathers the colors of a flat RGB byte buffer of whole triples.
pub fn collect_colors(raw: &Vec<u8>) -> (out: Vec<Color>)
    requires
        raw@.len() % 3 == 0,
    ensures
        out@ == colors_of(raw@),
{
    let len = raw.len();
    let count = len / 3;
    proof {
        assert(count * 3 == len && colors_of(raw@).len() == count) by (nonlinear_arith)
            requires
                count == len / 3,
                len % 3 == 0,
                colors_of(raw@).len() == raw@.len() / 3,
                raw@.len() == len,
        ;
    }
    let mut out: Vec<Color> = Vec::new();
    let mut p: usize = 0;
    while p < count
        invariant
            raw@.len() == len,
            count * 3 == len,
            colors_of(raw@).len() == count,
            p <= count,
            out@.len() == p,
            forall|q: int| 0 <= q < p ==> out@[q] == colors_of(raw@)[q],
        decreases count - p,
    {
        proof {
            assert(3 * (p as int) + 2 < count * 3) by (nonlinear_arith)
                requires
                    p < count,
            ;
        }
        let c = Color { r: raw[3 * p], g: raw[3 * p + 1], b: raw[3 * p + 2] };
        out.push(c);
        p = p + 1;
    }
    proof {
        assert(out@ =~= colors_of(raw@));
    }
    out
}

/// A pixel-count-preserving color matrix in the external optimizer's
/// orientation: `rows` is the caller's height and `cols` the caller's width,
/// while the flat pixel order is unchanged. The swap relative to the
/// caller's (width, height, channel) framing is the optimizer's convention
/// and must be preserved exactly.
#[derive(Debug)]
pub struct ColorMatrix {
    /// Number of matrix rows: the caller's image height.
    pub rows: usize,
    /// Number of matrix columns: the caller's image width.
    pub cols: usize,
    /// The pixels, in the caller buffer's flat order.
    pub data: Vec<Color>,
}

impl ColorMatrix {
    /// The matrix holds exactly one color per pixel.
    pub open spec fn wf(self) -> bool {
        self.data@.len() == self.rows * self.cols
    }
}

/// Interprets a flat (width, height, 3) byte buffer as a color matrix in the
/// optimizer's (height, width) orientation. Rejects, with no work done, a
/// buffer whose length is not exactly `width * height * 3`.
pub fn to_matrix(pixels: &Vec<u8>, width: usize, height: usize) -> (result: Result<
    ColorMatrix,
    CoreError,
>)
    ensures
        result is Ok <==> pixels@.len() == width * height * 3,
        match result {
            Ok(m) => {
                &&& m.wf()
                &&& m.rows == height
                &&& m.cols == width
                &&& m.data@ == colors_of(pixels@)
            },
            Err(e) => e == CoreError::ShapeMismatch,
        },
{
    let len = pixels.len();
    let pixel_count = match width.checked_mul(height) {
        Some(n) => n,
        None => {
            proof {
                assert(width * height * 3 >= width * height) by (nonlinear_arith);
            }
            return Err(CoreError::ShapeMismatch);
        },
    };
    let expected_len = match pixel_count.checked_mul(3) {
        Some(n) => n,
        None => {
            return Err(CoreError::ShapeMismatch);
        },
    };
    if len != expected_len {
        return Err(CoreError::ShapeMismatch);
    }
    proof {
        assert(pixels@.len() % 3 == 0 && pixels@.len() / 3 == pixel_count) by (nonlinear_arith)
            requires
                pixels@.len() == pixel_count * 3,
        ;
    }
    let data = collect_colors(pixels);
    proof {
        assert((height as int) * (width as int) == (width as int) * (height as int)) by (
        nonlinear_arith);
    }
    Ok(ColorMatrix { rows: height, cols: width, data })
}

} // verus!
