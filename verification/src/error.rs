//! The failures an operation of the browser can report.

use vstd::prelude::*;

verus! {

/// Why an operation did not take effect.
#[derive(Clone, Copy, Debug, PartialEq, Eq, Structural)]
pub enum FileOpError {
    /// The entry to act on is not there.
    NotFound,
    /// An entry of the requested name is already present.
    AlreadyExists,
    /// The platform refused access.
    PermissionDenied,
    /// A directory could not be removed because it still has entries.
    DirectoryNotEmpty,
    /// The volume is not among the enumerated ones.
    InvalidVolume,
    /// The platform has no launcher for opening files.
    UnsupportedPlatform,
    /// The launcher was started and reported an error.
    LaunchFailed,
    /// Any other failure reported by the platform.
    IoError,
}

/// `std::io::ErrorKind`, the platform's own sorting of failed calls. Its
/// variants stay opaque to the proofs.
#[verifier::external_type_specification]
#[verifier::external_body]
pub struct ExErrorKind(std::io::ErrorKind);

/// The platform failures that are told apart; all the others are `Other`.
#[derive(Clone, Copy, Debug, PartialEq, Eq, Structural)]
pub enum IoKind {
    NotFound,
    AlreadyExists,
    PermissionDenied,
    DirectoryNotEmpty,
    Other,
}

/// The failure that a platform failure of each kind is reported as.
pub open spec fn failure_class(kind: IoKind) -> FileOpError {
    match kind {
        IoKind::NotFound => FileOpError::NotFound,
        IoKind::AlreadyExists => FileOpError::AlreadyExists,
        IoKind::PermissionDenied => FileOpError::PermissionDenied,
        IoKind::DirectoryNotEmpty => FileOpError::DirectoryNotEmpty,
        IoKind::Other => FileOpError::IoError,
    }
}

/// Tells the variants of `std::io::ErrorKind` apart. Trusted, and nothing is
/// claimed of the result: each of the four variants with a namesake goes to
/// it, every other variant to `Other`.
#[verifier::external_body]
pub(crate) fn io_kind(kind: std::io::ErrorKind) -> (told: IoKind) {
    match kind {
        std::io::ErrorKind::NotFound => IoKind::NotFound,
        std::io::ErrorKind::AlreadyExists => IoKind::AlreadyExists,
        std::io::ErrorKind::PermissionDenied => IoKind::PermissionDenied,
        std::io::ErrorKind::DirectoryNotEmpty => IoKind::DirectoryNotEmpty,
        _ => IoKind::Other,
    }
}

/// The message shown to the user for each failure.
pub open spec fn message_text(error: FileOpError) -> Seq<char> {
    match error {
        FileOpError::NotFound => "the entry no longer exists"@,
        FileOpError::AlreadyExists => "an entry with this name already exists"@,
        FileOpError::PermissionDenied => "permission denied"@,
        FileOpError::DirectoryNotEmpty => "the directory is not empty"@,
        FileOpError::InvalidVolume => "no such volume"@,
        FileOpError::UnsupportedPlatform => "the operating system is not supported"@,
        FileOpError::LaunchFailed => "the file could not be opened"@,
        FileOpError::IoError => "the operation failed"@,
    }
}

impl FileOpError {
    /// One of the failures that the platform can answer a filesystem call
    /// with.
    pub open spec fn is_platform_failure(self) -> bool {
        self == FileOpError::NotFound || self == FileOpError::AlreadyExists || self
            == FileOpError::PermissionDenied || self == FileOpError::DirectoryNotEmpty || self
            == FileOpError::IoError
    }

    /// The failure that a platform failure of this kind is reported as: its
    /// namesake, or `IoError` for the kinds without one.
    pub fn of_kind(kind: IoKind) -> (error: FileOpError)
        ensures
            error == failure_class(kind),
            error.is_platform_failure(),
    {
        match kind {
            IoKind::NotFound => FileOpError::NotFound,
            IoKind::AlreadyExists => FileOpError::AlreadyExists,
            IoKind::PermissionDenied => FileOpError::PermissionDenied,
            IoKind::DirectoryNotEmpty => FileOpError::DirectoryNotEmpty,
            IoKind::Other => FileOpError::IoError,
        }
    }

    /// The failure that the platform's own kind of error is reported as.
    /// Whatever the kind, it is a platform failure.
    pub fn of_io(kind: std::io::ErrorKind) -> (error: FileOpError)
        ensures
            error.is_platform_failure(),
    {
        FileOpError::of_kind(io_kind(kind))
    }

    /// A message fit for display.
    pub fn message(&self) -> (text: String)
        ensures
            text@ == message_text(*self),
    {
        match self {
            FileOpError::NotFound => String::from_str("the entry no longer exists"),
            FileOpError::AlreadyExists => String::from_str(
                "an entry with this name already exists",
            ),
            FileOpError::PermissionDenied => String::from_str("permission denied"),
            FileOpError::DirectoryNotEmpty => String::from_str("the directory is not empty"),
            FileOpError::InvalidVolume => String::from_str("no such volume"),
            FileOpError::UnsupportedPlatform => String::from_str(
                "the operating system is not supported",
            ),
            FileOpError::LaunchFailed => String::from_str("the file could not be opened"),
            FileOpError::IoError => String::from_str("the operation failed"),
        }
    }
}

} // verus!
