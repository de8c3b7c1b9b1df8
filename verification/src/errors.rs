//! The ways in which stamping a file can fail.

use exif::Error as ExifError;
use vstd::prelude::*;
use vstd::std_specs::cmp::PartialEqSpecImpl;
use vstd::std_specs::convert::FromSpecImpl;
use vstd::string::StringExecFns;

verus! {

/// `std::io::Error`, carried as a cause. Nothing inside it is seen here.
#[verifier::external_type_specification]
#[verifier::external_body]
pub struct ExIoError(std::io::Error);

/// `exif::Error`, carried as a cause. Nothing inside it is seen here.
#[verifier::external_type_specification]
#[verifier::external_body]
pub struct ExExifError(ExifError);

/// What lies under a failure that is not this library's own finding.
#[derive(Debug)]
pub enum Cause {
    /// The file system refused to read or to copy.
    Io(std::io::Error),
    /// The metadata container could not be read.
    Metadata(ExifError),
}

/// The kinds of failure, without what a wrapped failure carries.
#[derive(Debug, Clone, Copy, PartialEq, Eq, Structural)]
pub enum Kind {
    FileNotFound,
    FileNotSupported,
    CreationDateUnavailable,
    InvalidPath,
    ModError,
}

/// Why a file was not stamped. Two errors are equal when they are of one
/// kind: wrapped failures are equal whatever their causes.
#[derive(Debug)]
pub enum Error {
    /// The path names nothing that exists.
    FileNotFound,
    /// The extension is none of `jpg`, `jpeg`, `JPG`, `JPEG`.
    FileNotSupported,
    /// The metadata holds no creation date that can be read.
    CreationDateUnavailable,
    /// The path has no file name or no parent directory.
    InvalidPath,
    /// Reading, parsing or copying failed; the cause is kept.
    ModError(Cause),
}

/// What `std::io::Error` writes of itself through `Display`. Nothing is
/// claimed of the text.
#[verifier::external_body]
fn io_error_text(err: &std::io::Error) -> (text: String) {
    err.to_string()
}

/// What `exif::Error` writes of itself through `Display`. Nothing is claimed
/// of the text.
#[verifier::external_body]
fn exif_error_text(err: &ExifError) -> (text: String) {
    err.to_string()
}

/// An error seen as a mathematical value is its kind: the cause of a
/// wrapped failure is not part of it.
impl View for Error {
    type V = Kind;

    open spec fn view(&self) -> Kind {
        match self {
            Error::FileNotFound => Kind::FileNotFound,
            Error::FileNotSupported => Kind::FileNotSupported,
            Error::CreationDateUnavailable => Kind::CreationDateUnavailable,
            Error::InvalidPath => Kind::InvalidPath,
            Error::ModError(_) => Kind::ModError,
        }
    }
}

impl Kind {
    /// The words for each kind that is this library's own finding. A
    /// wrapped failure has no words of its own.
    pub open spec fn text(self) -> Seq<char> {
        match self {
            Kind::FileNotFound => "File not found"@,
            Kind::FileNotSupported => "File not supported"@,
            Kind::CreationDateUnavailable => "Image metadata does not contain creation date"@,
            Kind::InvalidPath => "Either the filename or the parent path is invalid"@,
            Kind::ModError => Seq::empty(),
        }
    }
}

impl Error {
    /// The kind of the error.
    pub fn kind(&self) -> (kind: Kind)
        ensures
            kind == self@,
    {
        match self {
            Error::FileNotFound => Kind::FileNotFound,
            Error::FileNotSupported => Kind::FileNotSupported,
            Error::CreationDateUnavailable => Kind::CreationDateUnavailable,
            Error::InvalidPath => Kind::InvalidPath,
            Error::ModError(_) => Kind::ModError,
        }
    }

    /// The error in words. A wrapped failure speaks with the words of its
    /// cause.
    pub fn message(&self) -> (text: String)
        ensures
            !(self is ModError) ==> text@ == self@.text(),
    {
        match self {
            Error::FileNotFound => String::from_str("File not found"),
            Error::FileNotSupported => String::from_str("File not supported"),
            Error::CreationDateUnavailable => String::from_str(
                "Image metadata does not contain creation date",
            ),
            Error::InvalidPath => String::from_str(
                "Either the filename or the parent path is invalid",
            ),
            Error::ModError(Cause::Io(err)) => io_error_text(err),
            Error::ModError(Cause::Metadata(err)) => exif_error_text(err),
        }
    }

    /// The failure underneath, which only a wrapped failure has.
    pub fn cause(&self) -> (cause: Option<&Cause>)
        ensures
            match *self {
                Error::ModError(inner) => cause == Some(&inner),
                _ => cause is None,
            },
    {
        match self {
            Error::ModError(inner) => Some(inner),
            _ => None,
        }
    }
}

impl PartialEq for Error {
    /// Errors are equal when they are of one kind.
    fn eq(&self, other: &Self) -> (same: bool) {
        match (self, other) {
            (Error::FileNotFound, Error::FileNotFound) => true,
            (Error::FileNotSupported, Error::FileNotSupported) => true,
            (Error::CreationDateUnavailable, Error::CreationDateUnavailable) => true,
            (Error::InvalidPath, Error::InvalidPath) => true,
            (Error::ModError(_), Error::ModError(_)) => true,
            _ => false,
        }
    }
}

impl PartialEqSpecImpl for Error {
    open spec fn obeys_eq_spec() -> bool {
        true
    }

    open spec fn eq_spec(&self, other: &Self) -> bool {
        self@ == other@
    }
}

impl From<std::io::Error> for Error {
    fn from(err: std::io::Error) -> (error: Self) {
        Error::ModError(Cause::Io(err))
    }
}

impl FromSpecImpl<std::io::Error> for Error {
    open spec fn obeys_from_spec() -> bool {
        true
    }

    open spec fn from_spec(err: std::io::Error) -> Self {
        Error::ModError(Cause::Io(err))
    }
}

impl From<ExifError> for Error {
    fn from(err: ExifError) -> (error: Self) {
        Error::ModError(Cause::Metadata(err))
    }
}

impl FromSpecImpl<ExifError> for Error {
    open spec fn obeys_from_spec() -> bool {
        true
    }

    open spec fn from_spec(err: ExifError) -> Self {
        Error::ModError(Cause::Metadata(err))
    }
}

} // verus!
