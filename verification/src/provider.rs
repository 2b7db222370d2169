use vstd::prelude::*;
use crate::preprocess::PreprocessError;

pub mod glm;

verus! {

/// Every way one OCR exchange can fail: preparing the image (empty input,
/// malformed bytes, encoder failure), the backend explicitly rejecting the
/// request, a well-formed response with no usable text field, or the
/// exchange itself breaking down.
#[derive(Debug, Clone, PartialEq, Eq)]
pub enum OcrError {
    EmptyInput,
    DecodeError,
    EncodeError,
    ProviderError { code: String, message: String },
    MissingResult,
    TransportFailure(String),
}

/// How a preprocessing failure reads in the exchange taxonomy.
pub open spec fn preprocess_as_ocr(e: PreprocessError) -> OcrError {
    match e {
        PreprocessError::EmptyInput => OcrError::EmptyInput,
        PreprocessError::DecodeError => OcrError::DecodeError,
        PreprocessError::EncodeError => OcrError::EncodeError,
    }
}

impl OcrError {
    /// Lift a preprocessing failure into the exchange taxonomy.
    pub fn from_preprocess(e: PreprocessError) -> (r: OcrError)
        ensures
            r == preprocess_as_ocr(e),
    {
        match e {
            PreprocessError::EmptyInput => OcrError::EmptyInput,
            PreprocessError::DecodeError => OcrError::DecodeError,
            PreprocessError::EncodeError => OcrError::EncodeError,
        }
    }

    /// The text an error reads as when surfaced to the user.
    pub open spec fn text(&self) -> Seq<char> {
        match *self {
            OcrError::EmptyInput => "no image data received"@,
            OcrError::DecodeError => "failed to decode image"@,
            OcrError::EncodeError => "failed to encode JPEG"@,
            OcrError::ProviderError { code, message } => "GLM API error: "@ + code@ + " - "@
                + message@,
            OcrError::MissingResult => "no OCR result in response"@,
            OcrError::TransportFailure(cause) => "OCR request failed: "@ + cause@,
        }
    }

    /// A human-readable account of the failure.
    pub fn describe(&self) -> (r: String)
        ensures
            r@ == self.text(),
    {
        match self {
            OcrError::EmptyInput => String::from_str("no image data received"),
            OcrError::DecodeError => String::from_str("failed to decode image"),
            OcrError::EncodeError => String::from_str("failed to encode JPEG"),
            OcrError::ProviderError { code, message } => {
                let mut out = String::from_str("GLM API error: ");
                out.append(code.as_str());
                out.append(" - ");
                out.append(message.as_str());
                out
            },
            OcrError::MissingResult => String::from_str("no OCR result in response"),
            OcrError::TransportFailure(cause) => {
                let mut out = String::from_str("OCR request failed: ");
                out.append(cause.as_str());
                out
            },
        }
    }
}

/// The pluggable text-extraction capability: one synchronous exchange per
/// call, handing back the recovered text or a typed failure. Backends can
/// be swapped without touching callers.
pub trait OcrProvider {
    /// Perform OCR on raw image bytes (PNG, JPEG, etc.) and return the
    /// extracted text.
    fn extract_text(&self, image_data: &Vec<u8>) -> Result<String, OcrError>;
}

} // verus!
