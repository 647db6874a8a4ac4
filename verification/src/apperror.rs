//! Application-wide error classification, and its translation for the
//! caller's user interface.

use vstd::prelude::*;
use vstd::string::StringExecFns;

verus! {

/// Application-wide error type.
#[derive(Clone, Debug)]
pub enum AppError {
    /// Filesystem access failed.
    Io(String),
    /// Reading or writing a configuration document failed.
    Serialization(String),
    /// A project operation failed.
    Project(String),
    /// A recording operation failed.
    Recording(String),
    /// An export operation failed.
    Export(String),
    /// A platform service failed.
    Platform(String),
    /// A required permission is missing.
    PermissionDenied(String),
}

/// The stable code of each error kind.
pub open spec fn spec_error_code(e: AppError) -> Seq<char> {
    match e {
        AppError::Io(_) => "IO_ERROR"@,
        AppError::Serialization(_) => "SERIALIZATION_ERROR"@,
        AppError::Project(_) => "PROJECT_ERROR"@,
        AppError::Recording(_) => "RECORDING_ERROR"@,
        AppError::Export(_) => "EXPORT_ERROR"@,
        AppError::Platform(_) => "PLATFORM_ERROR"@,
        AppError::PermissionDenied(_) => "PERMISSION_DENIED"@,
    }
}

/// The description of each error kind, in place of display formatting.
pub open spec fn spec_error_message(e: AppError) -> Seq<char> {
    match e {
        AppError::Io(m) => "IO error: "@ + m@,
        AppError::Serialization(m) => "Serialization error: "@ + m@,
        AppError::Project(m) => "Project error: "@ + m@,
        AppError::Recording(m) => "Recording error: "@ + m@,
        AppError::Export(m) => "Export error: "@ + m@,
        AppError::Platform(m) => "Platform error: "@ + m@,
        AppError::PermissionDenied(m) => "Permission denied: "@ + m@,
    }
}

impl AppError {
    /// A human-readable description.
    pub fn message(&self) -> (r: String)
        ensures
            r@ == spec_error_message(*self),
    {
        let (prefix, m): (&str, &String) = match self {
            AppError::Io(m) => ("IO error: ", m),
            AppError::Serialization(m) => ("Serialization error: ", m),
            AppError::Project(m) => ("Project error: ", m),
            AppError::Recording(m) => ("Recording error: ", m),
            AppError::Export(m) => ("Export error: ", m),
            AppError::Platform(m) => ("Platform error: ", m),
            AppError::PermissionDenied(m) => ("Permission denied: ", m),
        };
        let mut s = prefix.to_owned();
        s.append(m.as_str());
        s
    }
}

/// An error as the caller's user interface receives it: a stable code
/// and a human-readable message.
#[derive(Clone, Debug)]
pub struct ErrorResponse {
    /// Stable error code.
    pub code: String,
    /// Human-readable message.
    pub message: String,
}

impl ErrorResponse {
    /// Classify an error by its kind's code, keeping the description.
    pub fn from_app_error(error: &AppError) -> (r: ErrorResponse)
        ensures
            r.code@ == spec_error_code(*error),
            r.message@ == spec_error_message(*error),
    {
        let code: &str = match error {
            AppError::Io(_) => "IO_ERROR",
            AppError::Serialization(_) => "SERIALIZATION_ERROR",
            AppError::Project(_) => "PROJECT_ERROR",
            AppError::Recording(_) => "RECORDING_ERROR",
            AppError::Export(_) => "EXPORT_ERROR",
            AppError::Platform(_) => "PLATFORM_ERROR",
            AppError::PermissionDenied(_) => "PERMISSION_DENIED",
        };
        ErrorResponse { code: code.to_owned(), message: error.message() }
    }
}

} // verus!
