use ocr_engine::{prepare_canvas, OcrError};

fn png_bytes(width: u32, height: u32, value: u8) -> Vec<u8> {
    let img = image::GrayImage::from_pixel(width, height, image::Luma([value]));
    let mut bytes: Vec<u8> = Vec::new();
    img.write_to(&mut std::io::Cursor::new(&mut bytes), image::ImageFormat::Png)
        .unwrap();
    bytes
}

#[test]
fn unknown_container_is_format_undetermined() {
    // No known container starts with these bytes: the format probe, not the
    // decoder, must reject them.
    let result = prepare_canvas(b"this is not an image container");
    assert!(matches!(result, Err(OcrError::ImageFormatUndetermined(_))));
}

#[test]
fn empty_input_is_format_undetermined() {
    let result = prepare_canvas(b"");
    assert!(matches!(result, Err(OcrError::ImageFormatUndetermined(_))));
}

#[test]
fn truncated_png_is_decode_failure() {
    // The PNG magic is intact, so the container is recognized; the pixel
    // content is gone, so decoding fails.
    let bytes = png_bytes(8, 8, 120);
    let result = prepare_canvas(&bytes[..12]);
    assert!(matches!(result, Err(OcrError::ImageDecodeFailed(_))));
}

#[test]
fn white_png_yields_all_white_canvas() {
    let bytes = png_bytes(200, 50, 255);
    let canvas = prepare_canvas(&bytes).unwrap();
    assert_eq!(canvas.width, 1024);
    assert_eq!(canvas.height, 64);
    assert!(canvas.pixels.iter().all(|&p| p == 255));
}

#[test]
fn black_png_composites_black_then_white() {
    // 200 x 50 black: resampled to 256 x 64 black, padded white after.
    let bytes = png_bytes(200, 50, 0);
    let canvas = prepare_canvas(&bytes).unwrap();
    assert_eq!(canvas.width, 1024);
    assert_eq!(canvas.height, 64);
    for y in 0..64usize {
        assert_eq!(canvas.pixels[y * 1024 + 255], 0);
        assert_eq!(canvas.pixels[y * 1024 + 256], 255);
    }
}

#[test]
fn overwide_png_fills_whole_canvas() {
    // round(3000 * 64 / 50) = 3840 would pass the canvas edge: clamped to
    // 1024, so the resampled black image covers every column.
    let bytes = png_bytes(3000, 50, 0);
    let canvas = prepare_canvas(&bytes).unwrap();
    assert_eq!(canvas.width, 1024);
    assert_eq!(canvas.height, 64);
    assert!(canvas.pixels.iter().all(|&p| p == 0));
}
