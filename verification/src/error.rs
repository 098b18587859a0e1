use vstd::prelude::*;

verus! {

/// Why a pipeline operation was refused.
///
/// Configuration variants mirror the checks that the external optimizer's
/// parameter verification performs, so that a bad configuration is reported
/// before any conversion or quantization work begins.
#[derive(Clone, Copy, Debug, PartialEq, Eq, Structural)]
pub enum CoreError {
    /// The filter size is not one of 1, 3 or 5.
    FilterSizeInvalid,
    /// The requested palette size is below the optimizer's minimum of 2.
    PaletteSizeTooSmall,
    /// Zero iterations per temperature level were requested.
    ItersPerLevelZero,
    /// Zero repeats per temperature were requested.
    RepeatsPerTempZero,
    /// The dithering level is not positive.
    DitheringLevelZero,
    /// The initial temperature does not exceed the final temperature.
    TemperatureOrderInvalid,
    /// A temperature is not positive.
    TemperatureZero,
    /// A fixed palette was supplied with fewer than two colors.
    FixedPaletteTooSmall,
    /// A buffer's length does not match the declared width, height and
    /// channel count.
    ShapeMismatch,
    /// A palette index points past the end of the palette.
    PaletteIndexOutOfRange,
}

impl CoreError {
    /// A human-readable account of the error.
    pub fn message(&self) -> &'static str {
        match self {
            CoreError::FilterSizeInvalid => "filter size must be 1, 3, or 5",
            CoreError::PaletteSizeTooSmall => "palette size must be at least 2",
            CoreError::ItersPerLevelZero => "iterations per level must be greater than 0",
            CoreError::RepeatsPerTempZero => "repeats per temperature must be greater than 0",
            CoreError::DitheringLevelZero => "dithering level must be greater than 0",
            CoreError::TemperatureOrderInvalid => {
                "initial temperature must be greater than final temperature"
            },
            CoreError::TemperatureZero => "temperatures must be greater than 0",
            CoreError::FixedPaletteTooSmall => "a fixed palette needs at least two colors",
            CoreError::ShapeMismatch => "buffer length does not match width x height x channels",
            CoreError::PaletteIndexOutOfRange => "palette index out of range during reconstruction",
        }
    }
}

} // verus!
