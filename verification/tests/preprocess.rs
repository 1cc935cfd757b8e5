use ocr_engine::{join_recognized, norm_value_scaled, preprocess, target_width, Raster};

#[test]
fn scaled_width_rounds_to_nearest() {
    // 200 wide, 50 tall: scale 64/50, round(200 * 64 / 50) = 256.
    assert_eq!(target_width(200, 50), 256);
    // Already at target height: width unchanged.
    assert_eq!(target_width(100, 64), 100);
    // round(1 * 64 / 3) = round(21.33) = 21.
    assert_eq!(target_width(1, 3), 21);
    // Exactly half a pixel rounds up: round(1 * 64 / 128) = round(0.5) = 1.
    assert_eq!(target_width(1, 128), 1);
    // A very tall sliver scales to zero width.
    assert_eq!(target_width(1, 1000), 0);
}

#[test]
fn overwide_source_clamps_to_canvas() {
    // round(2000 * 64 / 50) = 2560, clamped to the canvas width.
    assert_eq!(target_width(2000, 50), 1024);
    // The widest possible source must neither overflow nor crash.
    assert_eq!(target_width(u32::MAX, 1), 1024);
}

#[test]
fn normalization_spans_the_documented_range() {
    // Raw 0 maps to -0.5 and raw 255 to +1.5 before the engine's own shift.
    assert_eq!(norm_value_scaled(0), -255);
    assert_eq!(norm_value_scaled(255), 765);
    assert_eq!(norm_value_scaled(0) as f32 / 510.0, -0.5);
    assert_eq!(norm_value_scaled(255) as f32 / 510.0, 1.5);
    for p in 0..=255u8 {
        let value = norm_value_scaled(p) as f32 / 510.0;
        // Matches p / 127.5 - 0.5 exactly as rationals, closely as floats.
        let direct = p as f32 / 127.5 - 0.5;
        assert!((value - direct).abs() < 1e-6);
        assert!(-0.5 <= value && value <= 1.5);
        // After the engine's internal shift the model sees [-1, 1].
        let delivered = value - 0.5;
        assert!(-1.0 <= delivered && delivered <= 1.0);
    }
}

#[test]
fn zero_dimension_image_degenerates_to_single_pixel() {
    let empty_width = Raster { pixels: Vec::new(), width: 0, height: 5 };
    let canvas = preprocess(&empty_width);
    assert_eq!(canvas.width, 1);
    assert_eq!(canvas.height, 1);
    assert_eq!(canvas.pixels, vec![128u8]);

    let empty_height = Raster { pixels: Vec::new(), width: 7, height: 0 };
    let canvas = preprocess(&empty_height);
    assert_eq!(canvas.width, 1);
    assert_eq!(canvas.height, 1);
    assert_eq!(canvas.pixels, vec![128u8]);
}

#[test]
fn tall_source_is_padded_with_white_on_the_right() {
    // A black 200 x 50 image scales to 256 x 64; columns [256, 1024) of the
    // canvas must be untouched white background, the rest resampled black.
    let black = Raster { pixels: vec![0u8; 200 * 50], width: 200, height: 50 };
    let canvas = preprocess(&black);
    assert_eq!(canvas.width, 1024);
    assert_eq!(canvas.height, 64);
    assert_eq!(canvas.pixels.len(), 1024 * 64);
    for y in 0..64usize {
        for x in 0..1024usize {
            let expected = if x < 256 { 0u8 } else { 255u8 };
            assert_eq!(canvas.pixels[y * 1024 + x], expected);
        }
    }
}

#[test]
fn join_drops_unrecognized_lines() {
    let lines = vec![
        Some(String::from("first line")),
        None,
        Some(String::from("second")),
        None,
    ];
    assert_eq!(join_recognized(&lines), "first line\nsecond");
}

#[test]
fn join_of_nothing_is_empty() {
    assert_eq!(join_recognized(&Vec::new()), "");
    assert_eq!(join_recognized(&vec![None, None]), "");
    assert_eq!(join_recognized(&vec![Some(String::from("only"))]), "only");
}
