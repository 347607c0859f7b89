//! Application error values and their user-facing messages.

use vstd::prelude::*;
use vstd::string::StringExecFns;

verus! {

/// Application error kinds. Variants that report on an underlying
/// failure carry its description.
#[derive(Debug, Clone)]
pub enum AppError {
    InvalidDuration,
    InvalidOpacity,
    InvalidWorkSegments,
    DatabaseError(String),
    IoError(String),
    SerializationError(String),
    TauriError(String),
    ImportFailed(String),
    ExportFailed(String),
    ValidationError(String),
    AudioError(String),
    Unknown(String),
}

impl AppError {
    /// The user-facing message of each error kind.
    pub open spec fn spec_message(self) -> Seq<char> {
        match self {
            AppError::InvalidDuration => "Invalid duration: must be between 1 and 120 minutes"@,
            AppError::InvalidOpacity => "Invalid opacity: must be between 0 and 100"@,
            AppError::InvalidWorkSegments => "Invalid work segments"@,
            AppError::DatabaseError(s) => "Database error: "@ + s@,
            AppError::IoError(s) => "IO error: "@ + s@,
            AppError::SerializationError(s) => "JSON serialization error: "@ + s@,
            AppError::TauriError(s) => "Tauri error: "@ + s@,
            AppError::ImportFailed(s) => "Failed to import configuration: "@ + s@,
            AppError::ExportFailed(s) => "Failed to export configuration: "@ + s@,
            AppError::ValidationError(s) => "Configuration validation failed: "@ + s@,
            AppError::AudioError(s) => "Audio error: "@ + s@,
            AppError::Unknown(s) => "Unknown error: "@ + s@,
        }
    }

    /// Render the error as its message.
    pub fn message(&self) -> (r: String)
        ensures
            r@ == self.spec_message(),
    {
        match self {
            AppError::InvalidDuration => "Invalid duration: must be between 1 and 120 minutes"
                .to_owned(),
            AppError::InvalidOpacity => "Invalid opacity: must be between 0 and 100".to_owned(),
            AppError::InvalidWorkSegments => "Invalid work segments".to_owned(),
            AppError::DatabaseError(s) => "Database error: ".to_owned().concat(s.as_str()),
            AppError::IoError(s) => "IO error: ".to_owned().concat(s.as_str()),
            AppError::SerializationError(s) => "JSON serialization error: ".to_owned().concat(
                s.as_str(),
            ),
            AppError::TauriError(s) => "Tauri error: ".to_owned().concat(s.as_str()),
            AppError::ImportFailed(s) => "Failed to import configuration: ".to_owned().concat(
                s.as_str(),
            ),
            AppError::ExportFailed(s) => "Failed to export configuration: ".to_owned().concat(
                s.as_str(),
            ),
            AppError::ValidationError(s) => "Configuration validation failed: ".to_owned().concat(
                s.as_str(),
            ),
            AppError::AudioError(s) => "Audio error: ".to_owned().concat(s.as_str()),
            AppError::Unknown(s) => "Unknown error: ".to_owned().concat(s.as_str()),
        }
    }
}

} // verus!
