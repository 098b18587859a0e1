use vstd::prelude::*;

use crate::color::Color;
use crate::color::ColorMatrix;
use crate::color::collect_colors;
use crate::color::color_byte;
use crate::color::colors_of;
use crate::color::lemma_triple_index;
use crate::color::pixel_at;
use crate::color::to_matrix;
use crate::error::CoreError;

verus! {

/// Spatial support of the external optimizer's perceptual weighting kernel.
/// Only 1, 3 and 5 are meaningful to the optimizer; any other requested size
/// is a fatal configuration error.
#[derive(Clone, Copy, Debug, PartialEq, Eq, Structural)]
pub enum FilterSize {
    /// A 1x1 kernel.
    One,
    /// A 3x3 kernel, the optimizer's default.
    Three,
    /// A 5x5 kernel.
    Five,
}

impl FilterSize {
    /// The kernel width the variant stands for.
    pub open spec fn as_spec_int(self) -> int {
        match self {
            FilterSize::One => 1,
            FilterSize::Three => 3,
            FilterSize::Five => 5,
        }
    }

    /// The kernel width as an 8-bit value.
    pub fn as_u8(&self) -> (raw: u8)
        ensures
            raw == self.as_spec_int(),
    {
        match self {
            FilterSize::One => 1,
            FilterSize::Three => 3,
            FilterSize::Five => 5,
        }
    }
}

/// Whether a raw filter size is one the optimizer accepts.
pub open spec fn filter_size_ok(raw: u8) -> bool {
    raw == 1 || raw == 3 || raw == 5
}

/// A supplied raw palette activates fixed-palette dithering only when it
/// holds at least one full color.
pub open spec fn palette_active(raw: Seq<u8>) -> bool {
    raw.len() >= 3
}

/// A validated quantization configuration, immutable once built.
///
/// The annealing temperatures and the dithering level are held in exact
/// millionths (one unit is 10^-6), so that the ordering and positivity
/// invariants are stated over integers; the unverified boundary divides by
/// one million when handing them to the external optimizer.
#[derive(Debug)]
pub struct QuantConfig {
    /// Number of palette colors the optimizer may select, ignored when a
    /// fixed palette is supplied.
    pub palette_size: u8,
    /// Simulated-annealing iterations per temperature level.
    pub iters_per_level: usize,
    /// Repeats per temperature.
    pub repeats_per_temp: usize,
    /// Initial annealing temperature, in millionths.
    pub initial_temp_micro: u64,
    /// Final annealing temperature, in millionths.
    pub final_temp_micro: u64,
    /// Kernel support of the perceptual filter.
    pub filter_size: FilterSize,
    /// Dithering strength, in millionths.
    pub dithering_level_micro: u64,
    /// Seed for the optimizer's random number generator; drawn from entropy
    /// when absent.
    pub seed: Option<u64>,
    /// Caller-supplied fixed palette; when present the optimizer dithers
    /// against exactly these colors instead of selecting its own.
    pub fixed_palette: Option<Vec<Color>>,
}

impl QuantConfig {
    /// Every invariant the external optimizer's own parameter verification
    /// demands: a reachable palette, positive iteration budgets, a positive
    /// dithering level and a decreasing, positive temperature schedule.
    pub open spec fn wf(self) -> bool {
        &&& self.palette_size >= 2
        &&& self.iters_per_level >= 1
        &&& self.repeats_per_temp >= 1
        &&& self.dithering_level_micro >= 1
        &&& self.final_temp_micro >= 1
        &&& self.initial_temp_micro > self.final_temp_micro
        &&& match self.fixed_palette {
            Some(p) => p@.len() >= 2,
            None => true,
        }
    }
}

/// The outcome of validating raw quantization parameters, in the order the
/// checks are made: the filter size first, then the scalar checks the
/// external optimizer's parameter verification performs, then the fixed
/// palette's shape.
pub open spec fn validate_spec(
    palette_raw: Seq<u8>,
    palette_size: u8,
    iters_per_level: usize,
    repeats_per_temp: usize,
    initial_temp_micro: u64,
    final_temp_micro: u64,
    filter_size: u8,
    dithering_level_micro: u64,
) -> Result<(), CoreError> {
    if !filter_size_ok(filter_size) {
        Err(CoreError::FilterSizeInvalid)
    } else if palette_size < 2 {
        Err(CoreError::PaletteSizeTooSmall)
    } else if iters_per_level < 1 {
        Err(CoreError::ItersPerLevelZero)
    } else if repeats_per_temp < 1 {
        Err(CoreError::RepeatsPerTempZero)
    } else if dithering_level_micro < 1 {
        Err(CoreError::DitheringLevelZero)
    } else if initial_temp_micro <= final_temp_micro {
        Err(CoreError::TemperatureOrderInvalid)
    } else if final_temp_micro < 1 {
        Err(CoreError::TemperatureZero)
    } else if palette_active(palette_raw) && palette_raw.len() % 3 != 0 {
        Err(CoreError::ShapeMismatch)
    } else if palette_active(palette_raw) && palette_raw.len() / 3 < 2 {
        Err(CoreError::FixedPaletteTooSmall)
    } else {
        Ok(())
    }
}

/// Ingests a caller-supplied raw fixed palette.
///
/// A sequence with fewer than three components (no full color) does not
/// activate fixed-palette dithering and yields nothing. An active sequence
/// must hold whole RGB triples, and at least two of them, since the external
/// optimizer refuses a fixed palette of fewer than two colors; the colors
/// are taken in buffer order.
pub fn ingest_fixed_palette(palette_raw: &Vec<u8>) -> (result: Result<
    Option<Vec<Color>>,
    CoreError,
>)
    ensures
        match result {
            Ok(fixed) => {
                &&& fixed is Some <==> palette_active(palette_raw@)
                &&& (fixed matches Some(p) ==> p@ == colors_of(palette_raw@) && p@.len() >= 2
                    && palette_raw@.len() % 3 == 0)
            },
            Err(e) => {
                &&& palette_active(palette_raw@)
                &&& if palette_raw@.len() % 3 != 0 {
                    e == CoreError::ShapeMismatch
                } else {
                    e == CoreError::FixedPaletteTooSmall && palette_raw@.len() / 3 < 2
                }
            },
        },
{
    if palette_raw.len() >= 3 {
        if palette_raw.len() % 3 != 0 {
            return Err(CoreError::ShapeMismatch);
        }
        let colors = collect_colors(palette_raw);
        if colors.len() < 2 {
            return Err(CoreError::FixedPaletteTooSmall);
        }
        Ok(Some(colors))
    } else {
        Ok(None)
    }
}

/// Builds and validates the quantization configuration from caller-supplied
/// scalars and an optional raw fixed palette.
///
/// The raw palette is ignored when it holds fewer than three bytes (no full
/// color); otherwise it must hold whole RGB triples, at least two of them,
/// and becomes the configuration's fixed palette. A filter size outside
/// {1, 3, 5} is refused outright; the remaining checks mirror, in the same
/// order, the external optimizer's own parameter verification, so that a bad
/// configuration is reported before any quantization work begins.
pub fn build_config(
    palette_raw: &Vec<u8>,
    palette_size: u8,
    iters_per_level: usize,
    repeats_per_temp: usize,
    initial_temp_micro: u64,
    final_temp_micro: u64,
    filter_size: u8,
    dithering_level_micro: u64,
    seed: Option<u64>,
) -> (result: Result<QuantConfig, CoreError>)
    ensures
        match result {
            Ok(c) => {
                &&& validate_spec(
                    palette_raw@,
                    palette_size,
                    iters_per_level,
                    repeats_per_temp,
                    initial_temp_micro,
                    final_temp_micro,
                    filter_size,
                    dithering_level_micro,
                ) is Ok
                &&& c.wf()
                &&& c.palette_size == palette_size
                &&& c.iters_per_level == iters_per_level
                &&& c.repeats_per_temp == repeats_per_temp
                &&& c.initial_temp_micro == initial_temp_micro
                &&& c.final_temp_micro == final_temp_micro
                &&& c.filter_size.as_spec_int() == filter_size
                &&& c.dithering_level_micro == dithering_level_micro
                &&& c.seed == seed
                &&& if palette_active(palette_raw@) {
                    c.fixed_palette matches Some(p) && p@ == colors_of(palette_raw@)
                } else {
                    c.fixed_palette is None
                }
            },
            Err(e) => Err::<(), CoreError>(e) == validate_spec(
                palette_raw@,
                palette_size,
                iters_per_level,
                repeats_per_temp,
                initial_temp_micro,
                final_temp_micro,
                filter_size,
                dithering_level_micro,
            ),
        },
{
    let filter = if filter_size == 1 {
        FilterSize::One
    } else if filter_size == 3 {
        FilterSize::Three
    } else if filter_size == 5 {
        FilterSize::Five
    } else {
        return Err(CoreError::FilterSizeInvalid);
    };
    if palette_size < 2 {
        return Err(CoreError::PaletteSizeTooSmall);
    }
    if iters_per_level < 1 {
        return Err(CoreError::ItersPerLevelZero);
    }
    if repeats_per_temp < 1 {
        return Err(CoreError::RepeatsPerTempZero);
    }
    if dithering_level_micro < 1 {
        return Err(CoreError::DitheringLevelZero);
    }
    if initial_temp_micro <= final_temp_micro {
        return Err(CoreError::TemperatureOrderInvalid);
    }
    if final_temp_micro < 1 {
        return Err(CoreError::TemperatureZero);
    }
    let fixed_palette = match ingest_fixed_palette(palette_raw) {
        Ok(fixed) => fixed,
        Err(e) => {
            return Err(e);
        },
    };
    Ok(
        QuantConfig {
            palette_size,
            iters_per_level,
            repeats_per_temp,
            initial_temp_micro,
            final_temp_micro,
            filter_size: filter,
            dithering_level_micro,
            seed,
            fixed_palette,
        },
    )
}

/// Whether every palette index stays under the palette's length.
pub open spec fn indices_in_range(indices: Seq<u8>, palette_len: int) -> bool {
    forall|k: int| 0 <= k < indices.len() ==> (indices[k] as int) < palette_len
}

/// The byte buffer rebuilt from a palette-index assignment: pixel `p` is the
/// palette entry selected by index `p`, laid out as flat RGB triples.
pub open spec fn reconstructed(indices: Seq<u8>, palette: Seq<Color>) -> Seq<u8> {
    Seq::new(3 * indices.len(), |i: int| color_byte(palette[indices[i / 3] as int], i % 3))
}

/// Rebuilds the output pixel buffer from the optimizer's palette-index
/// assignment by direct palette lookup, one RGB triple per index, in index
/// order. An index at or past the palette's end is an optimizer/adapter
/// contract violation: it is reported as an internal-invariant error, never
/// clamped.
pub fn reconstruct(indices: &Vec<u8>, palette: &Vec<Color>) -> (result: Result<Vec<u8>, CoreError>)
    ensures
        result is Ok <==> indices_in_range(indices@, palette@.len() as int),
        match result {
            Ok(out) => out@ == reconstructed(indices@, palette@),
            Err(e) => e == CoreError::PaletteIndexOutOfRange,
        },
{
    let count = indices.len();
    let mut out: Vec<u8> = Vec::new();
    let mut p: usize = 0;
    while p < count
        invariant
            indices@.len() == count,
            p <= count,
            out@.len() == 3 * p,
            forall|k: int| 0 <= k < p ==> (indices@[k] as int) < palette@.len(),
            forall|i: int|
                0 <= i < 3 * p ==> out@[i] == color_byte(
                    palette@[indices@[i / 3] as int],
                    i % 3,
                ),
        decreases count - p,
    {
        let idx = indices[p] as usize;
        if idx >= palette.len() {
            proof {
                assert(!indices_in_range(indices@, palette@.len() as int));
            }
            return Err(CoreError::PaletteIndexOutOfRange);
        }
        let c = palette[idx];
        out.push(c.r);
        out.push(c.g);
        out.push(c.b);
        proof {
            lemma_triple_index(p as int);
        }
        p = p + 1;
    }
    proof {
        assert(out@ =~= reconstructed(indices@, palette@));
    }
    Ok(out)
}

/// Round-trip shape law: an index assignment with one entry per pixel of a
/// width-by-height image reconstructs to a buffer of exactly
/// `width * height * 3` bytes, the input buffer's own length.
pub proof fn lemma_round_trip_shape(
    indices: Seq<u8>,
    palette: Seq<Color>,
    width: int,
    height: int,
)
    requires
        indices.len() == width * height,
    ensures
        reconstructed(indices, palette).len() == width * height * 3,
{
    assert(3 * (width * height) == width * height * 3) by (nonlinear_arith);
}

/// Palette bound law: every pixel of a reconstructed buffer equals some
/// entry of the palette it was rebuilt from.
pub proof fn lemma_palette_bound(indices: Seq<u8>, palette: Seq<Color>, p: int)
    requires
        0 <= p < indices.len(),
        indices_in_range(indices, palette.len() as int),
    ensures
        exists|j: int|
            0 <= j < palette.len() && pixel_at(reconstructed(indices, palette), p) == palette[j],
{
    lemma_triple_index(p);
    assert(3 * p + 2 < 3 * indices.len()) by (nonlinear_arith)
        requires
            0 <= p < indices.len(),
    ;
    let j = indices[p] as int;
    assert(pixel_at(reconstructed(indices, palette), p) == palette[j]);
}

/// Validates the quantization call as a whole: checks the configuration and
/// converts the input buffer into the optimizer's (height, width) color
/// matrix. On success the caller hands the matrix and configuration to the
/// external optimizer and rebuilds the output with `reconstruct`.
pub fn prepare(
    pixels: &Vec<u8>,
    width: usize,
    height: usize,
    palette_raw: &Vec<u8>,
    palette_size: u8,
    iters_per_level: usize,
    repeats_per_temp: usize,
    initial_temp_micro: u64,
    final_temp_micro: u64,
    filter_size: u8,
    dithering_level_micro: u64,
    seed: Option<u64>,
) -> (result: Result<(ColorMatrix, QuantConfig), CoreError>)
    ensures
        result is Ok <==> (validate_spec(
            palette_raw@,
            palette_size,
            iters_per_level,
            repeats_per_temp,
            initial_temp_micro,
            final_temp_micro,
            filter_size,
            dithering_level_micro,
        ) is Ok && pixels@.len() == width * height * 3),
        match result {
            Ok((m, c)) => {
                &&& m.wf()
                &&& m.rows == height
                &&& m.cols == width
                &&& m.data@ == colors_of(pixels@)
                &&& c.wf()
                &&& c.palette_size == palette_size
                &&& c.iters_per_level == iters_per_level
                &&& c.repeats_per_temp == repeats_per_temp
                &&& c.initial_temp_micro == initial_temp_micro
                &&& c.final_temp_micro == final_temp_micro
                &&& c.filter_size.as_spec_int() == filter_size
                &&& c.dithering_level_micro == dithering_level_micro
                &&& c.seed == seed
                &&& if palette_active(palette_raw@) {
                    c.fixed_palette matches Some(p) && p@ == colors_of(palette_raw@)
                } else {
                    c.fixed_palette is None
                }
            },
            Err(e) => {
                let checked = validate_spec(
                    palette_raw@,
                    palette_size,
                    iters_per_level,
                    repeats_per_temp,
                    initial_temp_micro,
                    final_temp_micro,
                    filter_size,
                    dithering_level_micro,
                );
                if checked is Err {
                    Err::<(), CoreError>(e) == checked
                } else {
                    e == CoreError::ShapeMismatch && pixels@.len() != width * height * 3
                }
            },
        },
{
    let config = match build_config(
        palette_raw,
        palette_size,
        iters_per_level,
        repeats_per_temp,
        initial_temp_micro,
        final_temp_micro,
        filter_size,
        dithering_level_micro,
        seed,
    ) {
        Ok(c) => c,
        Err(e) => {
            return Err(e);
        },
    };
    let matrix = match to_matrix(pixels, width, height) {
        Ok(m) => m,
        Err(e) => {
            return Err(e);
        },
    };
    Ok((matrix, config))
}

} // verus!
