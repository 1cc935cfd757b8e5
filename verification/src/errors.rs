use vstd::prelude::*;
use vstd::string::StringExecFns;

verus! {

/// One failure case per pipeline step, each carrying the collaborator's
/// own message.
#[derive(Debug)]
pub enum OcrError {
    RecognitionModelLoadFailed(String),
    DetectionModelLoadFailed(String),
    EngineConstructionFailed(String),
    ImageFormatUndetermined(String),
    ImageDecodeFailed(String),
    ImageSourceConstructionFailed(String),
    InputPreparationFailed(String),
    OcrExecutionFailed(String),
}

impl OcrError {
    /// The collaborator message carried by any of the variants.
    pub fn message(&self) -> (r: &String)
        ensures
            r@ == self.message_spec(),
    {
        match self {
            OcrError::RecognitionModelLoadFailed(m) => m,
            OcrError::DetectionModelLoadFailed(m) => m,
            OcrError::EngineConstructionFailed(m) => m,
            OcrError::ImageFormatUndetermined(m) => m,
            OcrError::ImageDecodeFailed(m) => m,
            OcrError::ImageSourceConstructionFailed(m) => m,
            OcrError::InputPreparationFailed(m) => m,
            OcrError::OcrExecutionFailed(m) => m,
        }
    }

    pub open spec fn message_spec(self) -> Seq<char> {
        match self {
            OcrError::RecognitionModelLoadFailed(m) => m@,
            OcrError::DetectionModelLoadFailed(m) => m@,
            OcrError::EngineConstructionFailed(m) => m@,
            OcrError::ImageFormatUndetermined(m) => m@,
            OcrError::ImageDecodeFailed(m) => m@,
            OcrError::ImageSourceConstructionFailed(m) => m@,
            OcrError::InputPreparationFailed(m) => m@,
            OcrError::OcrExecutionFailed(m) => m@,
        }
    }

    /// The fixed prefix that introduces each failure case to the host.
    pub open spec fn prefix_spec(self) -> Seq<char> {
        match self {
            OcrError::RecognitionModelLoadFailed(_) => "Failed to load recognition model: "@,
            OcrError::DetectionModelLoadFailed(_) => "Failed to load detection model: "@,
            OcrError::EngineConstructionFailed(_) => "Failed to create OcrEngine: "@,
            OcrError::ImageFormatUndetermined(_) => "Failed to determine image format: "@,
            OcrError::ImageDecodeFailed(_) => "Failed to decode image: "@,
            OcrError::ImageSourceConstructionFailed(_) => "Failed to create ImageSource: "@,
            OcrError::InputPreparationFailed(_) => "Failed to prepare input: "@,
            OcrError::OcrExecutionFailed(_) => "OCR execution failed: "@,
        }
    }

    /// The full text shown to the host: the case's fixed prefix followed
    /// by the collaborator's message.
    pub fn describe(&self) -> (r: String)
        ensures
            r@ == self.prefix_spec() + self.message_spec(),
    {
        let mut text = match self {
            OcrError::RecognitionModelLoadFailed(_) => String::from_str(
                "Failed to load recognition model: ",
            ),
            OcrError::DetectionModelLoadFailed(_) => String::from_str(
                "Failed to load detection model: ",
            ),
            OcrError::EngineConstructionFailed(_) => String::from_str(
                "Failed to create OcrEngine: ",
            ),
            OcrError::ImageFormatUndetermined(_) => String::from_str(
                "Failed to determine image format: ",
            ),
            OcrError::ImageDecodeFailed(_) => String::from_str("Failed to decode image: "),
            OcrError::ImageSourceConstructionFailed(_) => String::from_str(
                "Failed to create ImageSource: ",
            ),
            OcrError::InputPreparationFailed(_) => String::from_str("Failed to prepare input: "),
            OcrError::OcrExecutionFailed(_) => String::from_str("OCR execution failed: "),
        };
        text.append(self.message().as_str());
        text
    }
}

} // verus!
