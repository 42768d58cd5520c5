//! The failures that a request can end in.

use vstd::prelude::*;
use vstd::string::*;

verus! {

/// A failure as plain text: what an `AppError` stands for.
pub enum Failure {
    /// The text could not be encoded as a QR code.
    QrGeneration(Seq<char>),
    /// The image could not be encoded.
    ImageEncoding(Seq<char>),
    /// The request broke a rule.
    Validation(Seq<char>),
}

impl Failure {
    /// The message that the failure carries.
    pub open spec fn message(self) -> Seq<char> {
        match self {
            Failure::QrGeneration(message) => message,
            Failure::ImageEncoding(message) => message,
            Failure::Validation(message) => message,
        }
    }

    /// The name of the failure's kind in a response.
    pub open spec fn code(self) -> Seq<char> {
        match self {
            Failure::QrGeneration(_) => "QR_GENERATION_ERROR"@,
            Failure::ImageEncoding(_) => "IMAGE_ENCODING_ERROR"@,
            Failure::Validation(_) => "VALIDATION_ERROR"@,
        }
    }

    /// The HTTP status of the failure: a fault of the request is 400, a fault
    /// of the image encoder 500.
    pub open spec fn status(self) -> int {
        match self {
            Failure::QrGeneration(_) => 400,
            Failure::ImageEncoding(_) => 500,
            Failure::Validation(_) => 400,
        }
    }

    /// How the failure is shown to a reader.
    pub open spec fn label(self) -> Seq<char> {
        match self {
            Failure::QrGeneration(message) => "QR Generation Error: "@ + message,
            Failure::ImageEncoding(message) => "Image Encoding Error: "@ + message,
            Failure::Validation(message) => "Validation Error: "@ + message,
        }
    }
}

/// A failure of a request, with its message.
#[derive(Debug)]
pub enum AppError {
    QrGeneration(String),
    ImageEncoding(String),
    ValidationError(String),
}

impl View for AppError {
    type V = Failure;

    open spec fn view(&self) -> Failure {
        match self {
            AppError::QrGeneration(message) => Failure::QrGeneration(message@),
            AppError::ImageEncoding(message) => Failure::ImageEncoding(message@),
            AppError::ValidationError(message) => Failure::Validation(message@),
        }
    }
}

/// What a validation reports: nothing on success, and on failure a
/// validation error with the message.
pub open spec fn refuses(r: Result<(), AppError>, failure: Option<Seq<char>>) -> bool {
    match r {
        Ok(_) => failure is None,
        Err(error) => failure is Some && error@ == Failure::Validation(failure->0),
    }
}

impl AppError {
    /// Returns the message that the failure carries.
    pub fn message(&self) -> (s: &str)
        ensures
            s@ == self@.message(),
    {
        match self {
            AppError::QrGeneration(message) => message.as_str(),
            AppError::ImageEncoding(message) => message.as_str(),
            AppError::ValidationError(message) => message.as_str(),
        }
    }

    /// Returns the name of the failure's kind in a response.
    pub fn code(&self) -> (s: &'static str)
        ensures
            s@ == self@.code(),
    {
        match self {
            AppError::QrGeneration(_) => "QR_GENERATION_ERROR",
            AppError::ImageEncoding(_) => "IMAGE_ENCODING_ERROR",
            AppError::ValidationError(_) => "VALIDATION_ERROR",
        }
    }

    /// Returns the HTTP status of the failure.
    pub fn status(&self) -> (status: u16)
        ensures
            status == self@.status(),
    {
        match self {
            AppError::QrGeneration(_) => 400,
            AppError::ImageEncoding(_) => 500,
            AppError::ValidationError(_) => 400,
        }
    }

    /// Renders the failure for display.
    pub fn to_string(&self) -> (s: String)
        ensures
            s@ == self@.label(),
    {
        let mut s = match self {
            AppError::QrGeneration(_) => String::from_str("QR Generation Error: "),
            AppError::ImageEncoding(_) => String::from_str("Image Encoding Error: "),
            AppError::ValidationError(_) => String::from_str("Validation Error: "),
        };
        s.append(self.message());
        s
    }
}

} // verus!
