//! The error taxonomy of the library.
//!
//! Payloads are plain diagnostic text. The unverified shell that performs
//! network and file I/O converts its own error values into these variants
//! before handing control back to the library.

use vstd::prelude::*;
use vstd::string::StringExecFns;

verus! {

/// What went wrong, by kind.
#[derive(Debug)]
pub enum PhotoError {
    /// A network request failed.
    Network(String),
    /// JSON handling failed.
    Json(String),
    /// A file operation failed.
    File(String),
    /// The fetched content was not of a supported type.
    InvalidContentType(String),
    /// A wallpaper tool reported a failure.
    Wallpaper(String),
    /// An external command could not be run.
    Command(String),
    /// No photos were available.
    NoPhotos(String),
}

/// The diagnostic line for an error: a fixed kind prefix, then the detail.
pub open spec fn spec_message(e: PhotoError) -> Seq<char> {
    match e {
        PhotoError::Network(s) => "Network error: "@ + s@,
        PhotoError::Json(s) => "JSON parsing error: "@ + s@,
        PhotoError::File(s) => "File operation error: "@ + s@,
        PhotoError::InvalidContentType(s) => "Invalid content type: "@ + s@,
        PhotoError::Wallpaper(s) => "Wallpaper error: "@ + s@,
        PhotoError::Command(s) => "Command execution error: "@ + s@,
        PhotoError::NoPhotos(s) => "No photos found: "@ + s@,
    }
}

impl PhotoError {
    /// Render the error as one diagnostic line.
    pub fn message(&self) -> (r: String)
        ensures
            r@ == spec_message(*self),
    {
        match self {
            PhotoError::Network(s) => String::from_str("Network error: ").concat(s.as_str()),
            PhotoError::Json(s) => String::from_str("JSON parsing error: ").concat(s.as_str()),
            PhotoError::File(s) => String::from_str("File operation error: ").concat(s.as_str()),
            PhotoError::InvalidContentType(s) => String::from_str("Invalid content type: ").concat(
                s.as_str(),
            ),
            PhotoError::Wallpaper(s) => String::from_str("Wallpaper error: ").concat(s.as_str()),
            PhotoError::Command(s) => String::from_str("Command execution error: ").concat(
                s.as_str(),
            ),
            PhotoError::NoPhotos(s) => String::from_str("No photos found: ").concat(s.as_str()),
        }
    }
}

} // verus!
