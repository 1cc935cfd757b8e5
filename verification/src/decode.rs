use vstd::prelude::*;
use crate::errors::OcrError;
use crate::preprocess::{clamped_width_spec, preprocess, resampled};
use crate::raster::{cell, Raster};

verus! {

/// Whether `image::guess_format` recognizes the magic bytes at the start
/// of `bytes` as one of the image container formats it knows. The answer
/// depends on the bytes alone.
pub uninterp spec fn format_known(bytes: Seq<u8>) -> bool;

/// Whether `image::load_from_memory` decodes `bytes` into an image. The
/// answer depends on the bytes alone.
pub uninterp spec fn decodes(bytes: Seq<u8>) -> bool;

/// The width of the image decoded from `bytes`; decoding is deterministic,
/// so it is a function of the bytes alone. Meaningful only where
/// `decodes(bytes)` holds.
pub uninterp spec fn gray_w(bytes: Seq<u8>) -> nat;

/// The height of the image decoded from `bytes`, as a function of the
/// bytes alone. Meaningful only where `decodes(bytes)` holds.
pub uninterp spec fn gray_h(bytes: Seq<u8>) -> nat;

/// The row-major 8-bit grayscale pixels of the image decoded from
/// `bytes`: decoding and the collapse to one channel are both
/// deterministic, so the grid is a function of the bytes alone.
/// Meaningful only where `decodes(bytes)` holds.
pub uninterp spec fn gray_pix(bytes: Seq<u8>) -> Seq<u8>;

/// Relies on `image::guess_format`: it looks only at the magic bytes at
/// the start of the buffer and fails exactly when no known container
/// format matches them.
#[verifier::external_body]
fn probe_format(bytes: &[u8]) -> (r: Result<(), String>)
    ensures
        r is Ok <==> format_known(bytes@),
{
    match image::guess_format(bytes) {
        Ok(_) => Ok(()),
        Err(e) => Err(format!("{}", e)),
    }
}

/// Relies on `image::load_from_memory` and `DynamicImage::to_luma8`:
/// decoding fails exactly when the bytes do not decode, and the collapse
/// to one 8-bit channel keeps the decoded dimensions and hands back one
/// byte per pixel; both steps are deterministic in the bytes.
#[verifier::external_body]
fn decode_gray(bytes: &[u8]) -> (r: Result<Raster, String>)
    ensures
        r is Ok <==> decodes(bytes@),
        r matches Ok(g) ==> g.wf() && g.width as nat == gray_w(bytes@) && g.height as nat
            == gray_h(bytes@) && g.pixels@ == gray_pix(bytes@),
{
    let img = match image::load_from_memory(bytes) {
        Ok(img) => img,
        Err(e) => {
            return Err(format!("{}", e));
        },
    };
    let gray = img.to_luma8();
    let (width, height) = gray.dimensions();
    Ok(Raster { pixels: gray.into_raw(), width, height })
}

/// Decode encoded image bytes and normalize them to the model's input
/// canvas. Bytes whose container format is not recognized are rejected
/// before any decoding is attempted; bytes that name a known container
/// but do not decode are rejected as a decode failure. A decoded image
/// with a zero dimension yields the degenerate 1 x 1 mid-range grid; any
/// other decoded image yields the 1024 x 64 canvas: its decoded grayscale
/// resampled to the clamped width on the left, white padding right of it.
pub fn prepare_canvas(image_data: &[u8]) -> (r: Result<Raster, OcrError>)
    ensures
        !format_known(image_data@) ==> (r matches Err(e) && e is ImageFormatUndetermined),
        format_known(image_data@) && !decodes(image_data@) ==> (r matches Err(e)
            && e is ImageDecodeFailed),
        format_known(image_data@) && decodes(image_data@) ==> (r matches Ok(canvas) && canvas.wf()
            && (gray_w(image_data@) == 0 || gray_h(image_data@) == 0 ==> canvas.width == 1
            && canvas.height == 1 && canvas.pixels@ =~= seq![128u8]) && (gray_w(image_data@) > 0
            && gray_h(image_data@) > 0 ==> {
            &&& canvas.width == 1024
            &&& canvas.height == 64
            &&& forall|y: int, x: int|
                0 <= y < 64 && 0 <= x < 1024 ==> #[trigger] canvas.at(y, x) == (if x
                    < clamped_width_spec(gray_w(image_data@), gray_h(image_data@)) {
                    cell(
                        resampled(
                            gray_pix(image_data@),
                            gray_w(image_data@),
                            gray_h(image_data@),
                            clamped_width_spec(gray_w(image_data@), gray_h(image_data@)),
                            64,
                        ),
                        clamped_width_spec(gray_w(image_data@), gray_h(image_data@)) as int,
                        y,
                        x,
                    )
                } else {
                    255u8
                })
        })),
{
    match probe_format(image_data) {
        Ok(_) => {},
        Err(msg) => {
            return Err(OcrError::ImageFormatUndetermined(msg));
        },
    }
    let gray = match decode_gray(image_data) {
        Ok(g) => g,
        Err(msg) => {
            return Err(OcrError::ImageDecodeFailed(msg));
        },
    };
    Ok(preprocess(&gray))
}

} // verus!
