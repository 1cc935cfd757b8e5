use vstd::prelude::*;
use crate::errors::OcrError;
use crate::text::join_recognized;

verus! {

#[verifier::external_type_specification]
#[verifier::external_body]
pub struct ExModel(rten::Model);

#[verifier::external_type_specification]
#[verifier::external_body]
pub struct ExOcrEngine(ocrs::OcrEngine);

#[verifier::external_type_specification]
#[verifier::external_body]
pub struct ExOcrInput(ocrs::OcrInput);

#[verifier::external_type_specification]
#[verifier::external_body]
pub struct ExRotatedRect(rten_imageproc::RotatedRect);

/// Whether `rten::Model::load` accepts `data` as a serialized model.
/// Loading only parses and validates the bytes, so the answer depends on
/// the bytes alone.
pub uninterp spec fn model_parses(data: Seq<u8>) -> bool;

/// Relies on `rten::Model::load`: it parses the byte buffer as a
/// serialized model and fails exactly when the bytes are not a model it
/// understands.
#[verifier::external_body]
fn load_model(data: Vec<u8>) -> (r: Result<rten::Model, String>)
    ensures
        r is Ok <==> model_parses(data@),
{
    match rten::Model::load(data) {
        Ok(model) => Ok(model),
        Err(e) => Err(format!("{}", e)),
    }
}

/// Relies on `ocrs::OcrEngine::new`: it assembles an engine from the
/// given models and alphabet, with every remaining parameter at its
/// default, and fails when the models cannot be prepared for inference.
#[verifier::external_body]
fn engine_new(
    recognition_model: rten::Model,
    detection_model: Option<rten::Model>,
    alphabet: String,
) -> (r: Result<ocrs::OcrEngine, String>)
{
    let params = ocrs::OcrEngineParams {
        detection_model,
        recognition_model: Some(recognition_model),
        alphabet: Some(alphabet),
        ..Default::default()
    };
    match ocrs::OcrEngine::new(params) {
        Ok(engine) => Ok(engine),
        Err(e) => Err(format!("{}", e)),
    }
}

/// Relies on `ocrs::OcrEngine::detect_words`: it reports whether the
/// detection pass found word regions, and errs when no detection model is
/// loaded or detection itself fails.
#[verifier::external_body]
fn detect_words_ok(engine: &ocrs::OcrEngine, input: &ocrs::OcrInput) -> bool {
    engine.detect_words(input).is_ok()
}

/// Relies on `ocrs::OcrEngine::get_text`: it runs the full
/// detect-then-recognize pipeline and returns all recognized text with
/// lines joined by newlines.
#[verifier::external_body]
fn engine_get_text(engine: &ocrs::OcrEngine, input: &ocrs::OcrInput) -> Result<String, String> {
    match engine.get_text(input) {
        Ok(text) => Ok(text),
        Err(e) => Err(format!("{}", e)),
    }
}

/// Relies on `rten_imageproc::Rect::from_tlhw` and
/// `RotatedRect::from_rect`: one synthetic line region, made of one
/// rectangle covering the whole `height x width` extent of the prepared
/// image.
#[verifier::external_body]
fn full_image_region(height: u32, width: u32) -> (r: Vec<Vec<rten_imageproc::RotatedRect>>)
    requires
        height <= 64,
        width <= 1024,
    ensures
        r@.len() == 1,
        r@[0]@.len() == 1,
{
    let rect = rten_imageproc::Rect::from_tlhw(0, 0, height as i32, width as i32).to_f32();
    vec![vec![rten_imageproc::RotatedRect::from_rect(rect)]]
}

/// Relies on `ocrs::OcrEngine::recognize_text`: it recognizes each given
/// line region independently, returning one entry per region, `None` for
/// a region in which it found no text. It takes each region's bounding
/// rectangle and panics on a region with no rectangles, so those are
/// excluded here.
#[verifier::external_body]
fn recognize_regions(
    engine: &ocrs::OcrEngine,
    input: &ocrs::OcrInput,
    regions: &Vec<Vec<rten_imageproc::RotatedRect>>,
) -> (r: Result<Vec<Option<String>>, String>)
    requires
        forall|i: int| 0 <= i < regions@.len() ==> regions@[i]@.len() > 0,
    ensures
        r matches Ok(lines) ==> lines@.len() == regions@.len(),
{
    match engine.recognize_text(input, regions.as_slice()) {
        Ok(lines) => Ok(lines.into_iter().map(|line| line.map(|l| l.to_string())).collect()),
        Err(e) => Err(format!("{}", e)),
    }
}

/// The OCR engine together with the capability it was built with: whether
/// a detection model is available. The capability is fixed once at
/// construction, and recognition dispatches on it instead of probing for
/// detection failures at call time.
pub struct MonOcr {
    engine: ocrs::OcrEngine,
    has_detection: bool,
}

impl MonOcr {
    /// Whether this engine was constructed with a detection model.
    pub closed spec fn detection_spec(self) -> bool {
        self.has_detection
    }

    /// Build an engine from required recognition-model bytes, optional
    /// detection-model bytes and the character set the recognition model
    /// emits. Bytes that do not parse as a model are reported for the
    /// phase they belong to, and a recognition model that does not parse
    /// is rejected before anything else is tried; an engine is only ever
    /// handed back when the recognition model bytes parse, and it knows
    /// detection exactly when detection bytes were supplied.
    pub fn new(
        detection_model_data: Option<Vec<u8>>,
        recognition_model_data: Vec<u8>,
        charset: String,
    ) -> (r: Result<MonOcr, OcrError>)
        ensures
            !model_parses(recognition_model_data@) ==> (r matches Err(e)
                && e is RecognitionModelLoadFailed),
            model_parses(recognition_model_data@) && (detection_model_data matches Some(d)
                && !model_parses(d@)) ==> (r matches Err(e) && e is DetectionModelLoadFailed),
            r matches Ok(engine) ==> model_parses(recognition_model_data@)
                && engine.detection_spec() == (detection_model_data is Some),
            r matches Err(e) ==> (e is RecognitionModelLoadFailed || e is DetectionModelLoadFailed
                || e is EngineConstructionFailed),
            model_parses(recognition_model_data@) && detection_model_data is None ==> (r is Ok || (
            r matches Err(e) && e is EngineConstructionFailed)),
            model_parses(recognition_model_data@) && (detection_model_data matches Some(d)
                && model_parses(d@)) ==> (r is Ok || (r matches Err(e)
                && e is EngineConstructionFailed)),
    {
        let recognition_model = match load_model(recognition_model_data) {
            Ok(model) => model,
            Err(msg) => {
                return Err(OcrError::RecognitionModelLoadFailed(msg));
            },
        };
        let has_detection = detection_model_data.is_some();
        let detection_model = match detection_model_data {
            Some(data) => match load_model(data) {
                Ok(model) => Some(model),
                Err(msg) => {
                    return Err(OcrError::DetectionModelLoadFailed(msg));
                },
            },
            None => None,
        };
        let engine = match engine_new(recognition_model, detection_model, charset) {
            Ok(engine) => engine,
            Err(msg) => {
                return Err(OcrError::EngineConstructionFailed(msg));
            },
        };
        Ok(MonOcr { engine, has_detection })
    }

    /// Whether this engine was constructed with a detection model.
    pub fn detection_enabled(&self) -> (r: bool)
        ensures
            r == self.detection_spec(),
    {
        self.has_detection
    }

    /// The underlying engine, for preparing recognition input.
    pub fn engine(&self) -> &ocrs::OcrEngine {
        &self.engine
    }

    /// Recognize the text on a prepared input whose processed image is
    /// `height x width`. An engine built without a detection model never
    /// attempts detection: it goes straight to the fallback, which treats
    /// the whole image as one synthetic line region and joins whatever
    /// lines were recognized with newlines, dropping unrecognized regions
    /// silently. With a detection model, a successful detection pass runs
    /// the full pipeline; a failed one falls back the same way. The only
    /// error this phase reports is an execution failure.
    pub fn recognize(&self, input: &ocrs::OcrInput, height: u32, width: u32) -> (r: Result<
        String,
        OcrError,
    >)
        requires
            height <= 64,
            width <= 1024,
        ensures
            r matches Err(e) ==> e is OcrExecutionFailed,
    {
        if self.has_detection && detect_words_ok(&self.engine, input) {
            match engine_get_text(&self.engine, input) {
                Ok(text) => Ok(text),
                Err(msg) => Err(OcrError::OcrExecutionFailed(msg)),
            }
        } else {
            let regions = full_image_region(height, width);
            match recognize_regions(&self.engine, input, &regions) {
                Ok(lines) => Ok(join_recognized(&lines)),
                Err(msg) => Err(OcrError::OcrExecutionFailed(msg)),
            }
        }
    }
}

} // verus!
