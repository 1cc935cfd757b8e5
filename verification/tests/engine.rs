use ocr_engine::{MonOcr, OcrError};

#[test]
fn malformed_recognition_model_is_rejected() {
    let result = MonOcr::new(None, vec![1, 2, 3, 4], String::from("abc"));
    match result {
        Err(OcrError::RecognitionModelLoadFailed(message)) => {
            assert!(!message.is_empty());
        }
        _ => panic!("malformed recognition model bytes must fail the load step"),
    }
}

#[test]
fn described_error_carries_prefix_and_collaborator_message() {
    let error = MonOcr::new(None, vec![0, 1, 2, 3], String::from("abc")).err().unwrap();
    let text = error.describe();
    assert!(text.starts_with("Failed to load recognition model: "));
    assert!(text.len() > "Failed to load recognition model: ".len());

    let junk = OcrError::ImageDecodeFailed(String::from("bad scanline"));
    assert_eq!(junk.describe(), "Failed to decode image: bad scanline");
    assert_eq!(junk.message(), "bad scanline");
}

#[test]
fn recognition_model_is_checked_before_detection_model() {
    // Both blobs are junk: the recognition model is loaded first, so its
    // failure is the one reported and engine construction is never reached.
    let result = MonOcr::new(Some(vec![9, 9, 9]), vec![1, 2, 3, 4], String::from("abc"));
    assert!(matches!(result, Err(OcrError::RecognitionModelLoadFailed(_))));
}
