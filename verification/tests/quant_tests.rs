use rpierogis::color::Color;
use rpierogis::color::to_matrix;
use rpierogis::error::CoreError;
use rpierogis::quant::FilterSize;
use rpierogis::quant::build_config;
use rpierogis::quant::ingest_fixed_palette;
use rpierogis::quant::prepare;
use rpierogis::quant::reconstruct;

#[test]
fn build_accepts_valid_scalars() {
    let config = build_config(&Vec::new(), 4, 3, 1, 1_000_000, 1_000, 3, 800_000, Some(7))
        .expect("valid configuration");
    assert_eq!(config.palette_size, 4);
    assert_eq!(config.iters_per_level, 3);
    assert_eq!(config.repeats_per_temp, 1);
    assert_eq!(config.initial_temp_micro, 1_000_000);
    assert_eq!(config.final_temp_micro, 1_000);
    assert_eq!(config.filter_size, FilterSize::Three);
    assert_eq!(config.dithering_level_micro, 800_000);
    assert_eq!(config.seed, Some(7));
    assert!(config.fixed_palette.is_none());
}

#[test]
fn build_accepts_each_filter_size() {
    for (raw, variant) in [(1, FilterSize::One), (3, FilterSize::Three), (5, FilterSize::Five)] {
        let config = build_config(&Vec::new(), 4, 3, 1, 1_000_000, 1_000, raw, 800_000, None)
            .expect("valid filter size");
        assert_eq!(config.filter_size, variant);
        assert_eq!(config.filter_size.as_u8(), raw);
    }
}

#[test]
fn build_rejects_bad_filter_size() {
    for raw in [0, 2, 4, 6, 255] {
        let err = build_config(&Vec::new(), 4, 3, 1, 1_000_000, 1_000, raw, 800_000, None)
            .expect_err("filter size must be refused");
        assert_eq!(err, CoreError::FilterSizeInvalid);
    }
}

#[test]
fn build_rejects_bad_scalars() {
    let err = build_config(&Vec::new(), 1, 3, 1, 1_000_000, 1_000, 3, 800_000, None);
    assert_eq!(err.unwrap_err(), CoreError::PaletteSizeTooSmall);
    let err = build_config(&Vec::new(), 4, 0, 1, 1_000_000, 1_000, 3, 800_000, None);
    assert_eq!(err.unwrap_err(), CoreError::ItersPerLevelZero);
    let err = build_config(&Vec::new(), 4, 3, 0, 1_000_000, 1_000, 3, 800_000, None);
    assert_eq!(err.unwrap_err(), CoreError::RepeatsPerTempZero);
    let err = build_config(&Vec::new(), 4, 3, 1, 1_000_000, 1_000, 3, 0, None);
    assert_eq!(err.unwrap_err(), CoreError::DitheringLevelZero);
    let err = build_config(&Vec::new(), 4, 3, 1, 1_000, 1_000_000, 3, 800_000, None);
    assert_eq!(err.unwrap_err(), CoreError::TemperatureOrderInvalid);
    let err = build_config(&Vec::new(), 4, 3, 1, 1_000_000, 0, 3, 800_000, None);
    assert_eq!(err.unwrap_err(), CoreError::TemperatureZero);
}

#[test]
fn errors_carry_messages() {
    assert_eq!(CoreError::FilterSizeInvalid.message(), "filter size must be 1, 3, or 5");
    assert_eq!(
        CoreError::PaletteIndexOutOfRange.message(),
        "palette index out of range during reconstruction"
    );
}

#[test]
fn ingest_requires_one_full_color_to_activate() {
    assert_eq!(ingest_fixed_palette(&Vec::new()), Ok(None));
    assert_eq!(ingest_fixed_palette(&vec![10, 20]), Ok(None));
    assert_eq!(ingest_fixed_palette(&vec![1, 2, 3, 4]), Err(CoreError::ShapeMismatch));
    assert_eq!(ingest_fixed_palette(&vec![1, 2, 3]), Err(CoreError::FixedPaletteTooSmall));
    assert_eq!(
        ingest_fixed_palette(&vec![1, 2, 3, 4, 5, 6]),
        Ok(Some(vec![Color { r: 1, g: 2, b: 3 }, Color { r: 4, g: 5, b: 6 }]))
    );
}

#[test]
fn build_fixed_palette_rules() {
    // Fewer than three bytes: no fixed palette.
    let config = build_config(&vec![10, 20], 4, 3, 1, 1_000_000, 1_000, 3, 800_000, None)
        .expect("short raw palette is ignored");
    assert!(config.fixed_palette.is_none());
    // Not whole triples: shape error.
    let err = build_config(&vec![1, 2, 3, 4], 4, 3, 1, 1_000_000, 1_000, 3, 800_000, None);
    assert_eq!(err.unwrap_err(), CoreError::ShapeMismatch);
    // One full color activates the palette but the optimizer needs two.
    let err = build_config(&vec![1, 2, 3], 4, 3, 1, 1_000_000, 1_000, 3, 800_000, None);
    assert_eq!(err.unwrap_err(), CoreError::FixedPaletteTooSmall);
    // Two full colors, in buffer order.
    let config = build_config(&vec![1, 2, 3, 4, 5, 6], 4, 3, 1, 1_000_000, 1_000, 3, 800_000, None)
        .expect("two whole colors");
    let palette = config.fixed_palette.expect("palette attached");
    assert_eq!(palette, vec![Color { r: 1, g: 2, b: 3 }, Color { r: 4, g: 5, b: 6 }]);
}

#[test]
fn matrix_swaps_axes_and_keeps_flat_order() {
    // A non-square 2x3 image: a square one could hide a transposition bug.
    let width = 2;
    let height = 3;
    let buffer: Vec<u8> = (0..18).collect();
    let matrix = to_matrix(&buffer, width, height).expect("length matches");
    assert_eq!(matrix.rows, height);
    assert_eq!(matrix.cols, width);
    assert_eq!(matrix.data.len(), 6);
    for p in 0..6 {
        let base = (3 * p) as u8;
        assert_eq!(matrix.data[p], Color { r: base, g: base + 1, b: base + 2 });
    }
}

#[test]
fn matrix_rejects_wrong_length() {
    let buffer: Vec<u8> = (0..17).collect();
    assert_eq!(to_matrix(&buffer, 2, 3).unwrap_err(), CoreError::ShapeMismatch);
    let buffer: Vec<u8> = (0..19).collect();
    assert_eq!(to_matrix(&buffer, 2, 3).unwrap_err(), CoreError::ShapeMismatch);
}

#[test]
fn reconstruct_looks_up_palette() {
    let palette = vec![
        Color { r: 1, g: 2, b: 3 },
        Color { r: 4, g: 5, b: 6 },
        Color { r: 7, g: 8, b: 9 },
    ];
    let indices = vec![2, 0, 1, 1];
    let out = reconstruct(&indices, &palette).expect("indices in range");
    assert_eq!(out, vec![7, 8, 9, 1, 2, 3, 4, 5, 6, 4, 5, 6]);
}

#[test]
fn reconstruct_reports_out_of_range_index() {
    let palette = vec![Color { r: 1, g: 2, b: 3 }, Color { r: 4, g: 5, b: 6 }];
    let err = reconstruct(&vec![0, 2], &palette).unwrap_err();
    assert_eq!(err, CoreError::PaletteIndexOutOfRange);
}

#[test]
fn prepare_validates_config_then_shape() {
    let buffer: Vec<u8> = vec![0; 12];
    let (matrix, config) =
        prepare(&buffer, 2, 2, &Vec::new(), 4, 3, 1, 1_000_000, 1_000, 3, 800_000, None)
            .expect("valid call");
    assert_eq!(matrix.rows, 2);
    assert_eq!(matrix.cols, 2);
    assert_eq!(config.palette_size, 4);
    let err = prepare(&buffer, 2, 3, &Vec::new(), 4, 3, 1, 1_000_000, 1_000, 3, 800_000, None);
    assert_eq!(err.unwrap_err(), CoreError::ShapeMismatch);
    let err = prepare(&buffer, 2, 2, &Vec::new(), 4, 3, 1, 1_000_000, 1_000, 2, 800_000, None);
    assert_eq!(err.unwrap_err(), CoreError::FilterSizeInvalid);
}

/// Runs the full quantization pipeline against the real external optimizer:
/// prepare in the verified library, the annealing call and its float
/// conversions outside it, reconstruction in the verified library again.
fn quantize_with_optimizer(
    pixels: &Vec<u8>,
    width: usize,
    height: usize,
    palette_raw: &Vec<u8>,
    palette_size: u8,
    seed: Option<u64>,
) -> (Vec<u8>, Vec<Color>) {
    let (matrix, config) = prepare(
        pixels,
        width,
        height,
        palette_raw,
        palette_size,
        3,
        1,
        1_000_000,
        1_000,
        3,
        800_000,
        seed,
    )
    .expect("valid quantization call");

    let mut conditions = rscolorq::Params::new();
    conditions.palette_size(config.palette_size);
    conditions.dithering_level(config.dithering_level_micro as f64 / 1_000_000.0);
    conditions.filter_size(match config.filter_size {
        FilterSize::One => rscolorq::FilterSize::One,
        FilterSize::Three => rscolorq::FilterSize::Three,
        FilterSize::Five => rscolorq::FilterSize::Five,
    });
    conditions.seed(config.seed);
    conditions.initial_temp(config.initial_temp_micro as f64 / 1_000_000.0);
    conditions.final_temp(config.final_temp_micro as f64 / 1_000_000.0);
    conditions.iters_per_level(config.iters_per_level);
    conditions.repeats_per_temp(config.repeats_per_temp);
    conditions.verify_parameters().expect("mirrored checks already passed");
    if let Some(fixed) = &config.fixed_palette {
        let rgb: Vec<rscolorq::color::Rgb> = fixed
            .iter()
            .map(|c| rscolorq::color::Rgb {
                red: c.r as f64 / 255.0,
                green: c.g as f64 / 255.0,
                blue: c.b as f64 / 255.0,
            })
            .collect();
        conditions.palette(rgb).expect("at least two fixed colors");
    }

    let image = rscolorq::Matrix2d::from_vec(
        matrix
            .data
            .iter()
            .map(|c| rscolorq::color::Rgb {
                red: c.r as f64 / 255.0,
                green: c.g as f64 / 255.0,
                blue: c.b as f64 / 255.0,
            })
            .collect(),
        matrix.rows,
        matrix.cols,
    );
    let mut quantized = rscolorq::Matrix2d::new(matrix.rows, matrix.cols);
    let mut float_palette = Vec::with_capacity(config.palette_size as usize);
    rscolorq::spatial_color_quant(&image, &mut quantized, &mut float_palette, &conditions)
        .expect("optimizer succeeds");

    let palette: Vec<Color> = float_palette
        .iter()
        .map(|&c| {
            let s = 255.0 * c;
            Color { r: s.red.round() as u8, g: s.green.round() as u8, b: s.blue.round() as u8 }
        })
        .collect();
    let indices: Vec<u8> = quantized.into_raw_vec();
    let out = reconstruct(&indices, &palette).expect("optimizer indices in range");
    (out, palette)
}

#[test]
fn quantize_round_trip_shape_and_palette_bound() {
    // Non-square 3x2 buffer; adaptive palette of at most 2 colors.
    let pixels: Vec<u8> = vec![
        0, 0, 0, 250, 250, 250, 10, 10, 10, 240, 240, 240, 5, 5, 5, 245, 245, 245,
    ];
    let (out, palette) = quantize_with_optimizer(&pixels, 3, 2, &Vec::new(), 2, Some(42));
    // Round-trip shape: same byte count as the input.
    assert_eq!(out.len(), pixels.len());
    // Palette bound: the palette stays within the requested size and every
    // output pixel is an entry of it.
    assert!(palette.len() <= 2);
    for triple in out.chunks(3) {
        let color = Color { r: triple[0], g: triple[1], b: triple[2] };
        assert!(palette.contains(&color));
    }
}

#[test]
fn quantize_with_fixed_palette_uses_exactly_those_colors() {
    let pixels: Vec<u8> = vec![
        0, 0, 0, 255, 255, 255, 0, 0, 0, 255, 255, 255,
    ];
    let fixed: Vec<u8> = vec![0, 0, 0, 255, 255, 255];
    let (out, palette) = quantize_with_optimizer(&pixels, 2, 2, &fixed, 4, Some(1));
    assert_eq!(out.len(), pixels.len());
    // The fixed colors survive the round through normalized floats exactly.
    assert_eq!(
        palette,
        vec![Color { r: 0, g: 0, b: 0 }, Color { r: 255, g: 255, b: 255 }]
    );
    for triple in out.chunks(3) {
        let color = Color { r: triple[0], g: triple[1], b: triple[2] };
        assert!(palette.contains(&color));
    }
}
