//! Classification of filesystem and OS failures.
//!
//! The surrounding process reduces each OS-level failure to an
//! [`IoCategory`] plus a detail string; the library maps that pair to the
//! [`ProcessingError`] variant that drives per-file versus fatal handling.

use vstd::prelude::*;

verus! {

/// The OS-level failure categories the library distinguishes, as plain
/// values. The process that touches the filesystem reports one of these
/// for every failed operation.
#[derive(Clone, Copy, PartialEq, Eq, Structural, Debug)]
pub enum IoCategory {
    NotFound,
    PermissionDenied,
    InvalidFilename,
    InvalidInput,
    InvalidData,
    StorageFull,
    OutOfMemory,
    NotADirectory,
    IsADirectory,
    Other,
}

/// A processing failure, each variant carrying a human-readable detail
/// string.
#[derive(Clone, Debug)]
pub enum ProcessingError {
    IoError(String),
    FileNotFound(String),
    PermissionDenied(String),
    ParseError(String),
    DirectoryError(String),
    Cancelled(String),
    InvalidPath(String),
    CorruptedFile(String),
    SystemResource(String),
    SymlinkError(String),
}

pub type ProcessingResult<T> = Result<T, ProcessingError>;

/// The mathematical shape of a [`ProcessingError`]: its variant
/// together with the character sequence of its detail string.
pub enum ErrorModel {
    IoError(Seq<char>),
    FileNotFound(Seq<char>),
    PermissionDenied(Seq<char>),
    ParseError(Seq<char>),
    DirectoryError(Seq<char>),
    Cancelled(Seq<char>),
    InvalidPath(Seq<char>),
    CorruptedFile(Seq<char>),
    SystemResource(Seq<char>),
    SymlinkError(Seq<char>),
}

impl View for ProcessingError {
    type V = ErrorModel;

    open spec fn view(&self) -> ErrorModel {
        match self {
            ProcessingError::IoError(m) => ErrorModel::IoError(m@),
            ProcessingError::FileNotFound(m) => ErrorModel::FileNotFound(m@),
            ProcessingError::PermissionDenied(m) => ErrorModel::PermissionDenied(m@),
            ProcessingError::ParseError(m) => ErrorModel::ParseError(m@),
            ProcessingError::DirectoryError(m) => ErrorModel::DirectoryError(m@),
            ProcessingError::Cancelled(m) => ErrorModel::Cancelled(m@),
            ProcessingError::InvalidPath(m) => ErrorModel::InvalidPath(m@),
            ProcessingError::CorruptedFile(m) => ErrorModel::CorruptedFile(m@),
            ProcessingError::SystemResource(m) => ErrorModel::SystemResource(m@),
            ProcessingError::SymlinkError(m) => ErrorModel::SymlinkError(m@),
        }
    }
}

/// The shape that an OS failure category maps to.
pub open spec fn model_from_category(cat: IoCategory, detail: Seq<char>) -> ErrorModel {
    match cat {
        IoCategory::NotFound => ErrorModel::FileNotFound(detail),
        IoCategory::PermissionDenied => ErrorModel::PermissionDenied(detail),
        IoCategory::InvalidFilename => ErrorModel::InvalidPath(detail),
        IoCategory::InvalidInput => ErrorModel::InvalidPath(detail),
        IoCategory::InvalidData => ErrorModel::CorruptedFile(detail),
        IoCategory::StorageFull => ErrorModel::SystemResource(detail),
        IoCategory::OutOfMemory => ErrorModel::SystemResource(detail),
        IoCategory::NotADirectory => ErrorModel::DirectoryError(detail),
        IoCategory::IsADirectory => ErrorModel::DirectoryError(detail),
        IoCategory::Other => ErrorModel::IoError(detail),
    }
}

/// The variant that an OS failure category maps to.
pub open spec fn spec_from_category(cat: IoCategory, detail: String) -> ProcessingError {
    match cat {
        IoCategory::NotFound => ProcessingError::FileNotFound(detail),
        IoCategory::PermissionDenied => ProcessingError::PermissionDenied(detail),
        IoCategory::InvalidFilename => ProcessingError::InvalidPath(detail),
        IoCategory::InvalidInput => ProcessingError::InvalidPath(detail),
        IoCategory::InvalidData => ProcessingError::CorruptedFile(detail),
        IoCategory::StorageFull => ProcessingError::SystemResource(detail),
        IoCategory::OutOfMemory => ProcessingError::SystemResource(detail),
        IoCategory::NotADirectory => ProcessingError::DirectoryError(detail),
        IoCategory::IsADirectory => ProcessingError::DirectoryError(detail),
        IoCategory::Other => ProcessingError::IoError(detail),
    }
}

/// The message that [`ProcessingError::message`] renders.
pub open spec fn spec_message(e: ProcessingError) -> Seq<char> {
    match e {
        ProcessingError::IoError(m) => "IO Error: "@ + m@,
        ProcessingError::FileNotFound(m) => "File not found: "@ + m@,
        ProcessingError::PermissionDenied(m) => "Permission denied: "@ + m@,
        ProcessingError::ParseError(m) => "Parse error: "@ + m@,
        ProcessingError::DirectoryError(m) => "Directory error: "@ + m@,
        ProcessingError::Cancelled(m) => "Cancelled: "@ + m@,
        ProcessingError::InvalidPath(m) => "Invalid path: "@ + m@,
        ProcessingError::CorruptedFile(m) => "Corrupted or unreadable file: "@ + m@,
        ProcessingError::SystemResource(m) => "System resource error: "@ + m@,
        ProcessingError::SymlinkError(m) => "Symbolic link error: "@ + m@,
    }
}

impl ProcessingError {
    /// Classify an OS failure per the category table: not-found becomes
    /// `FileNotFound`, permission-denied `PermissionDenied`, bad names or
    /// arguments `InvalidPath`, bad data `CorruptedFile`, exhausted
    /// storage or memory `SystemResource`, directory confusion
    /// `DirectoryError`, and anything else `IoError`.
    pub fn from_category(cat: IoCategory, detail: String) -> (r: ProcessingError)
        ensures
            r == spec_from_category(cat, detail),
            r@ == model_from_category(cat, detail@),
    {
        match cat {
            IoCategory::NotFound => ProcessingError::FileNotFound(detail),
            IoCategory::PermissionDenied => ProcessingError::PermissionDenied(detail),
            IoCategory::InvalidFilename => ProcessingError::InvalidPath(detail),
            IoCategory::InvalidInput => ProcessingError::InvalidPath(detail),
            IoCategory::InvalidData => ProcessingError::CorruptedFile(detail),
            IoCategory::StorageFull => ProcessingError::SystemResource(detail),
            IoCategory::OutOfMemory => ProcessingError::SystemResource(detail),
            IoCategory::NotADirectory => ProcessingError::DirectoryError(detail),
            IoCategory::IsADirectory => ProcessingError::DirectoryError(detail),
            IoCategory::Other => ProcessingError::IoError(detail),
        }
    }

    /// Render the error as a single line: a variant-specific prefix
    /// followed by the detail string.
    pub fn message(&self) -> (r: String)
        ensures
            r@ == spec_message(*self),
    {
        match self {
            ProcessingError::IoError(m) => String::from_str("IO Error: ").concat(m.as_str()),
            ProcessingError::FileNotFound(m) => String::from_str("File not found: ").concat(
                m.as_str(),
            ),
            ProcessingError::PermissionDenied(m) => String::from_str("Permission denied: ").concat(
                m.as_str(),
            ),
            ProcessingError::ParseError(m) => String::from_str("Parse error: ").concat(m.as_str()),
            ProcessingError::DirectoryError(m) => String::from_str("Directory error: ").concat(
                m.as_str(),
            ),
            ProcessingError::Cancelled(m) => String::from_str("Cancelled: ").concat(m.as_str()),
            ProcessingError::InvalidPath(m) => String::from_str("Invalid path: ").concat(
                m.as_str(),
            ),
            ProcessingError::CorruptedFile(m) => String::from_str(
                "Corrupted or unreadable file: ",
            ).concat(m.as_str()),
            ProcessingError::SystemResource(m) => String::from_str(
                "System resource error: ",
            ).concat(m.as_str()),
            ProcessingError::SymlinkError(m) => String::from_str("Symbolic link error: ").concat(
                m.as_str(),
            ),
        }
    }
}

} // verus!
