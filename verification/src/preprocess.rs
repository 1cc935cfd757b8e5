use vstd::prelude::*;
use crate::raster::cell;
use crate::raster::Raster;

verus! {

/// Width after scaling a `width x height` image so that its height becomes
/// exactly 64 with the aspect ratio kept: `round(width * 64 / height)`,
/// written over integers as `(width * 128 + height) / (2 * height)`.
pub open spec fn scaled_width_spec(width: nat, height: nat) -> nat {
    (width * 128 + height) / (2 * height)
}

/// The scaled width, clamped to the canvas width: a source whose scaled
/// width would pass the canvas edge is truncated there.
pub open spec fn clamped_width_spec(width: nat, height: nat) -> nat {
    if scaled_width_spec(width, height) > 1024 {
        1024
    } else {
        scaled_width_spec(width, height)
    }
}

/// The width the resampled image will have: the height-preserving scale
/// rounded to the nearest pixel, then clamped to the canvas width.
pub fn target_width(width: u32, height: u32) -> (r: u32)
    requires
        height > 0,
    ensures
        r == clamped_width_spec(width as nat, height as nat),
        r <= 1024,
{
    let numerator: u64 = (width as u64) * 128 + (height as u64);
    let denominator: u64 = 2 * (height as u64);
    let scaled: u64 = numerator / denominator;
    if scaled > 1024 {
        1024
    } else {
        scaled as u32
    }
}

/// Over-wide sources are truncated at the canvas edge, never shrunk
/// further: whenever the height-preserving scale would carry the width
/// past 1024 the clamp yields exactly 1024, and otherwise it changes
/// nothing.
pub proof fn lemma_width_clamped(width: nat, height: nat)
    requires
        height > 0,
    ensures
        clamped_width_spec(width, height) <= 1024,
        scaled_width_spec(width, height) > 1024 ==> clamped_width_spec(width, height) == 1024,
        scaled_width_spec(width, height) <= 1024 ==> clamped_width_spec(width, height)
            == scaled_width_spec(width, height),
{
}

/// The normalized value of an 8-bit intensity `p`, in units of 1/510.
///
/// The model expects `p / 127.5 - 0.5`, which equals `(4p - 255) / 510`
/// exactly; this function returns the numerator over the fixed denominator
/// 510, so the whole map stays in integers.
pub open spec fn norm_scaled_spec(p: u8) -> int {
    4 * p - 255
}

/// The numerator of the normalized pixel value over the denominator 510.
/// Dividing the result by 510 yields `p / 127.5 - 0.5` exactly.
pub fn norm_value_scaled(p: u8) -> (r: i32)
    ensures
        r == norm_scaled_spec(p),
        -255 <= r <= 765,
{
    4 * (p as i32) - 255
}

/// The pixel grid that `image::imageops::resize` with the triangle filter
/// produces when it resamples the grid `pixels` (laid out row-major as
/// `width x height`) to `new_width x new_height`. The result depends on the
/// arguments alone.
pub uninterp spec fn resampled(
    pixels: Seq<u8>,
    width: nat,
    height: nat,
    new_width: nat,
    new_height: nat,
) -> Seq<u8>;

/// Relies on `image::imageops::resize` with `FilterType::Triangle`: it
/// returns a buffer of exactly the requested dimensions, and the resampled
/// pixels are a function of the source pixels and the dimensions alone.
#[verifier::external_body]
fn resize_raster(img: &Raster, new_width: u32, new_height: u32) -> (r: Raster)
    requires
        img.wf(),
    ensures
        r.width == new_width,
        r.height == new_height,
        r.pixels@.len() == new_width * new_height,
        r.pixels@ == resampled(
            img.pixels@,
            img.width as nat,
            img.height as nat,
            new_width as nat,
            new_height as nat,
        ),
{
    let buffer = image::GrayImage::from_raw(img.width, img.height, img.pixels.clone()).unwrap();
    let resized = image::imageops::resize(
        &buffer,
        new_width,
        new_height,
        image::imageops::FilterType::Triangle,
    );
    Raster { pixels: resized.into_raw(), width: new_width, height: new_height }
}

/// Paste `resized` into the top-left corner of a white 1024 x 64 canvas,
/// leaving the strip right of it as background padding.
pub fn compose(resized: &Raster) -> (r: Raster)
    requires
        resized.wf(),
        resized.height == 64,
        resized.width <= 1024,
    ensures
        r.wf(),
        r.height == 64,
        r.width == 1024,
        forall|y: int, x: int|
            0 <= y < 64 && 0 <= x < 1024 ==> #[trigger] r.at(y, x) == (if x < resized.width {
                resized.at(y, x)
            } else {
                255u8
            }),
{
    let rw = resized.width as usize;
    let mut pixels: Vec<u8> = Vec::new();
    let mut y: usize = 0;
    while y < 64
        invariant
            y <= 64,
            rw == resized.width,
            rw <= 1024,
            resized.wf(),
            resized.height == 64,
            pixels@.len() == y * 1024,
            forall|yy: int, xx: int|
                0 <= yy < y && 0 <= xx < 1024 ==> #[trigger] cell(pixels@, 1024, yy, xx) == (if xx
                    < rw {
                    cell(resized.pixels@, rw as int, yy, xx)
                } else {
                    255u8
                }),
        decreases 64 - y,
    {
        let mut x: usize = 0;
        while x < 1024
            invariant
                y < 64,
                x <= 1024,
                rw == resized.width,
                rw <= 1024,
                resized.wf(),
                resized.height == 64,
                pixels@.len() == y * 1024 + x,
                forall|yy: int, xx: int|
                    0 <= yy < y && 0 <= xx < 1024 ==> #[trigger] cell(pixels@, 1024, yy, xx) == (
                    if xx < rw {
                        cell(resized.pixels@, rw as int, yy, xx)
                    } else {
                        255u8
                    }),
                forall|xx: int|
                    0 <= xx < x ==> #[trigger] cell(pixels@, 1024, y as int, xx) == (if xx < rw {
                        cell(resized.pixels@, rw as int, y as int, xx)
                    } else {
                        255u8
                    }),
            decreases 1024 - x,
        {
            let value: u8 = if x < rw {
                proof {
                    assert(y * rw + x < 64 * rw) by (nonlinear_arith)
                        requires
                            y < 64,
                            x < rw,
                    ;
                }
                resized.pixels[y * rw + x]
            } else {
                255
            };
            let ghost prev = pixels@;
            pixels.push(value);
            proof {
                assert(pixels@ == prev.push(value));
                assert(prev.len() == y * 1024 + x);
                assert forall|yy: int, xx: int|
                    0 <= yy < y && 0 <= xx < 1024 implies #[trigger] cell(
                    pixels@,
                    1024,
                    yy,
                    xx,
                ) == cell(prev, 1024, yy, xx) by {
                    assert(yy * 1024 + xx < y * 1024);
                    assert(cell(prev, 1024, yy, xx) == prev[yy * 1024 + xx]);
                }
                assert forall|xx: int| 0 <= xx < x implies #[trigger] cell(
                    pixels@,
                    1024,
                    y as int,
                    xx,
                ) == cell(prev, 1024, y as int, xx) by {
                    assert(y * 1024 + xx < prev.len());
                    assert(cell(prev, 1024, y as int, xx) == prev[y * 1024 + xx]);
                }
                assert(cell(pixels@, 1024, y as int, x as int) == value);
                assert(x < rw ==> value == cell(resized.pixels@, rw as int, y as int, x as int));
            }
            x += 1;
        }
        y += 1;
    }
    Raster { pixels, width: 1024, height: 64 }
}

/// Normalize a decoded grayscale image to the model's fixed input grid:
/// scale the height to exactly 64 keeping the aspect ratio, round the
/// scaled width to the nearest pixel, clamp it to 1024, resample with a
/// triangle filter, and paste the result into the top-left corner of a
/// white 1024 x 64 canvas. An image with a zero dimension skips all of
/// that and yields a degenerate 1 x 1 grid holding a single mid-range
/// intensity, so the call returns a near-empty result instead of failing.
pub fn preprocess(img: &Raster) -> (r: Raster)
    requires
        img.wf(),
    ensures
        r.wf(),
        img.width == 0 || img.height == 0 ==> r.width == 1 && r.height == 1 && r.pixels@ =~= seq![
            128u8,
        ],
        img.width > 0 && img.height > 0 ==> {
            &&& r.width == 1024
            &&& r.height == 64
            &&& forall|y: int, x: int|
                0 <= y < 64 && 0 <= x < 1024 ==> #[trigger] r.at(y, x) == (if x
                    < clamped_width_spec(img.width as nat, img.height as nat) {
                    cell(
                        resampled(
                            img.pixels@,
                            img.width as nat,
                            img.height as nat,
                            clamped_width_spec(img.width as nat, img.height as nat),
                            64,
                        ),
                        clamped_width_spec(img.width as nat, img.height as nat) as int,
                        y,
                        x,
                    )
                } else {
                    255u8
                })
        },
{
    if img.width == 0 || img.height == 0 {
        let mut pixels: Vec<u8> = Vec::new();
        pixels.push(128u8);
        Raster { pixels, width: 1, height: 1 }
    } else {
        let new_width = target_width(img.width, img.height);
        let resized = resize_raster(img, new_width, 64);
        compose(&resized)
    }
}

/// The normalization pre-compensates the engine's own later shift of one
/// half, that is of 255 units of 1/510: raw intensity 0 maps to -0.5 and
/// 255 to +1.5, so every value lies in [-0.5, 1.5] here, and after the
/// engine subtracts 0.5 the range delivered to the model is [-1, 1].
pub proof fn lemma_norm_range(p: u8)
    ensures
        -255 <= norm_scaled_spec(p) <= 765,
        -510 <= norm_scaled_spec(p) - 255 <= 510,
        norm_scaled_spec(0) == -255,
        norm_scaled_spec(255) == 765,
{
}

} // verus!
