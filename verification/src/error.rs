//! The error kinds of the application.

use vstd::prelude::*;
use vstd::string::StringExecFns;

verus! {

/// What can go wrong in a task. Every kind but `Cancelled` carries a message
/// that names the dependency or parameter at fault.
#[derive(Debug, Clone)]
pub enum AppError {
    /// The store of tracks, projects and segments failed.
    Database(String),
    /// Reading or writing a file failed.
    Io(String),
    /// Text that should be JSON is not.
    Json(String),
    /// The transcoder failed.
    FFmpeg(String),
    /// The fingerprint extractor failed or its output could not be read.
    Fingerprint(String),
    /// Vocal separation failed.
    VocalSeparation(String),
    /// Person detection failed.
    Detection(String),
    /// Video processing failed.
    Video(String),
    /// A setting is malformed.
    Config(String),
    /// An external tool is not installed.
    DependencyMissing(String),
    /// The task was cancelled; not a failure.
    Cancelled,
    /// Something asked for does not exist.
    NotFound(String),
    /// A parameter is out of its range.
    InvalidArgument(String),
}

/// The result of an operation that can fail with an [`AppError`].
pub type AppResult<T> = Result<T, AppError>;

impl AppError {
    /// The words that open the message of this kind of error.
    pub open spec fn spec_label(&self) -> Seq<char> {
        match self {
            AppError::Database(_) => "database error: "@,
            AppError::Io(_) => "I/O error: "@,
            AppError::Json(_) => "JSON error: "@,
            AppError::FFmpeg(_) => "FFmpeg error: "@,
            AppError::Fingerprint(_) => "fingerprint error: "@,
            AppError::VocalSeparation(_) => "vocal separation error: "@,
            AppError::Detection(_) => "person detection error: "@,
            AppError::Video(_) => "video error: "@,
            AppError::Config(_) => "configuration error: "@,
            AppError::DependencyMissing(_) => "missing dependency: "@,
            AppError::Cancelled => "task cancelled"@,
            AppError::NotFound(_) => "not found: "@,
            AppError::InvalidArgument(_) => "invalid argument: "@,
        }
    }

    /// The message that the error carries; empty for `Cancelled`.
    pub open spec fn spec_detail(&self) -> Seq<char> {
        match self {
            AppError::Database(m) => m@,
            AppError::Io(m) => m@,
            AppError::Json(m) => m@,
            AppError::FFmpeg(m) => m@,
            AppError::Fingerprint(m) => m@,
            AppError::VocalSeparation(m) => m@,
            AppError::Detection(m) => m@,
            AppError::Video(m) => m@,
            AppError::Config(m) => m@,
            AppError::DependencyMissing(m) => m@,
            AppError::Cancelled => Seq::<char>::empty(),
            AppError::NotFound(m) => m@,
            AppError::InvalidArgument(m) => m@,
        }
    }

    /// Whether the error reports a cancellation, which is shown to the user
    /// as an outcome of its own and not as a failure.
    pub fn is_cancelled(&self) -> (r: bool)
        ensures
            r == (self matches AppError::Cancelled),
    {
        match self {
            AppError::Cancelled => true,
            _ => false,
        }
    }

    /// The text shown for the error: the words for its kind, then its
    /// message.
    pub fn message(&self) -> (text: String)
        ensures
            text@ == self.spec_label() + self.spec_detail(),
    {
        match self {
            AppError::Database(m) => String::from_str("database error: ").concat(m.as_str()),
            AppError::Io(m) => String::from_str("I/O error: ").concat(m.as_str()),
            AppError::Json(m) => String::from_str("JSON error: ").concat(m.as_str()),
            AppError::FFmpeg(m) => String::from_str("FFmpeg error: ").concat(m.as_str()),
            AppError::Fingerprint(m) => String::from_str("fingerprint error: ").concat(m.as_str()),
            AppError::VocalSeparation(m) => String::from_str("vocal separation error: ").concat(
                m.as_str(),
            ),
            AppError::Detection(m) => String::from_str("person detection error: ").concat(
                m.as_str(),
            ),
            AppError::Video(m) => String::from_str("video error: ").concat(m.as_str()),
            AppError::Config(m) => String::from_str("configuration error: ").concat(m.as_str()),
            AppError::DependencyMissing(m) => String::from_str("missing dependency: ").concat(
                m.as_str(),
            ),
            AppError::Cancelled => {
                let text = String::from_str("task cancelled");
                assert(text@ + Seq::<char>::empty() =~= text@);
                text
            },
            AppError::NotFound(m) => String::from_str("not found: ").concat(m.as_str()),
            AppError::InvalidArgument(m) => String::from_str("invalid argument: ").concat(
                m.as_str(),
            ),
        }
    }
}

} // verus!
