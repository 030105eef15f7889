//! The error taxonomy shared by every fallible operation of the crate.

use vstd::prelude::*;
use vstd::string::StringExecFns;

verus! {

/// Typed failure of a capture, recording or storage operation.
///
/// Variants that carry a `String` hold a human-readable detail message.
#[derive(Debug, Clone)]
pub enum CaptureError {
    /// Platform capture or pixel-pipeline failure.
    CaptureFailed(String),
    /// Session start/stop/stream failure.
    RecordingFailed(String),
    /// A recording operation was invoked in a state that does not allow it.
    RecordingNotActive,
    /// Ledger or settings persistence failure.
    StorageError(String),
    /// Text recognition failure.
    OcrFailed(String),
    /// A collaborator reported a missing permission.
    PermissionDenied(String),
    /// Malformed request parameters.
    InvalidConfig(String),
    /// Passthrough I/O failure.
    Io(String),
    /// Passthrough serialization failure.
    Json(String),
    /// Passthrough encoder failure.
    Image(String),
}

/// The rendered message of an error: a fixed prefix naming the failure kind,
/// followed by the detail where the variant carries one.
pub open spec fn message_spec(e: CaptureError) -> Seq<char> {
    match e {
        CaptureError::CaptureFailed(m) => "Screen capture failed: "@ + m@,
        CaptureError::RecordingFailed(m) => "Recording failed: "@ + m@,
        CaptureError::RecordingNotActive => "Recording not active"@,
        CaptureError::StorageError(m) => "Storage error: "@ + m@,
        CaptureError::OcrFailed(m) => "OCR failed: "@ + m@,
        CaptureError::PermissionDenied(m) => "Permission denied: "@ + m@,
        CaptureError::InvalidConfig(m) => "Invalid configuration: "@ + m@,
        CaptureError::Io(m) => "IO error: "@ + m@,
        CaptureError::Json(m) => "JSON error: "@ + m@,
        CaptureError::Image(m) => "Image error: "@ + m@,
    }
}

/// A fixed prefix followed by a detail message.
fn prefixed(prefix: &str, m: &String) -> (r: String)
    ensures
        r@ == prefix@ + m@,
{
    let mut s = String::from_str(prefix);
    s.append(m.as_str());
    s
}

impl CaptureError {
    /// Render the error as one line of text.
    pub fn message(&self) -> (r: String)
        ensures
            r@ == message_spec(*self),
    {
        match self {
            CaptureError::CaptureFailed(m) => prefixed("Screen capture failed: ", m),
            CaptureError::RecordingFailed(m) => prefixed("Recording failed: ", m),
            CaptureError::RecordingNotActive => String::from_str("Recording not active"),
            CaptureError::StorageError(m) => prefixed("Storage error: ", m),
            CaptureError::OcrFailed(m) => prefixed("OCR failed: ", m),
            CaptureError::PermissionDenied(m) => prefixed("Permission denied: ", m),
            CaptureError::InvalidConfig(m) => prefixed("Invalid configuration: ", m),
            CaptureError::Io(m) => prefixed("IO error: ", m),
            CaptureError::Json(m) => prefixed("JSON error: ", m),
            CaptureError::Image(m) => prefixed("Image error: ", m),
        }
    }
}

} // verus!
