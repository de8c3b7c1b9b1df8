use orambi::errors::{Cause, Error, Kind};
use std::io;

fn wrapped_io(text: &str) -> Error {
    Error::from(io::Error::new(io::ErrorKind::Other, text.to_string()))
}

fn all_kinds() -> Vec<Error> {
    vec![
        Error::FileNotFound,
        Error::FileNotSupported,
        Error::CreationDateUnavailable,
        Error::InvalidPath,
        wrapped_io("disk on fire"),
    ]
}

#[test]
fn errors_of_one_kind_are_equal() {
    let left = all_kinds();
    let right = all_kinds();
    for (i, a) in left.iter().enumerate() {
        for (j, b) in right.iter().enumerate() {
            assert_eq!(a == b, i == j, "{:?} {:?}", a, b);
        }
    }
}

#[test]
fn wrapped_errors_are_equal_whatever_the_cause() {
    let io = wrapped_io("disk on fire");
    let other_io = Error::from(io::Error::new(io::ErrorKind::NotFound, "gone"));
    let metadata = Error::from(exif::Error::NotFound("No Exif data found"));
    assert_eq!(io, other_io);
    assert_eq!(io, metadata);
    assert_ne!(metadata, Error::FileNotFound);
}

#[test]
fn kind_of_each_error() {
    assert_eq!(Error::FileNotFound.kind(), Kind::FileNotFound);
    assert_eq!(Error::FileNotSupported.kind(), Kind::FileNotSupported);
    assert_eq!(Error::CreationDateUnavailable.kind(), Kind::CreationDateUnavailable);
    assert_eq!(Error::InvalidPath.kind(), Kind::InvalidPath);
    assert_eq!(wrapped_io("x").kind(), Kind::ModError);
    assert_eq!(Error::from(exif::Error::InvalidFormat("bad")).kind(), Kind::ModError);
}

#[test]
fn message_of_each_own_finding() {
    assert_eq!(Error::FileNotFound.message(), "File not found");
    assert_eq!(Error::FileNotSupported.message(), "File not supported");
    assert_eq!(
        Error::CreationDateUnavailable.message(),
        "Image metadata does not contain creation date"
    );
    assert_eq!(
        Error::InvalidPath.message(),
        "Either the filename or the parent path is invalid"
    );
}

#[test]
fn message_of_a_wrapped_error_is_that_of_its_cause() {
    assert_eq!(wrapped_io("disk on fire").message(), "disk on fire");
    assert_eq!(
        Error::from(exif::Error::NotFound("No Exif data found")).message(),
        "No Exif data found"
    );
    assert_eq!(
        Error::ModError(Cause::Metadata(exif::Error::InvalidFormat("Broken JPEG file"))).message(),
        "Broken JPEG file"
    );
    assert_eq!(
        Error::ModError(Cause::Io(io::Error::new(io::ErrorKind::Other, "no space left")))
            .message(),
        "no space left"
    );
}

#[test]
fn from_keeps_the_cause() {
    let error = Error::from(io::Error::new(io::ErrorKind::PermissionDenied, "denied"));
    assert!(matches!(
        &error,
        Error::ModError(Cause::Io(e)) if e.kind() == io::ErrorKind::PermissionDenied
    ));
    let error = Error::from(exif::Error::BlankValue("DateTime is blank"));
    assert!(matches!(
        error,
        Error::ModError(Cause::Metadata(exif::Error::BlankValue("DateTime is blank")))
    ));
}

#[test]
fn cause_is_there_for_wrapped_errors_only() {
    assert!(Error::FileNotFound.cause().is_none());
    assert!(Error::FileNotSupported.cause().is_none());
    assert!(Error::CreationDateUnavailable.cause().is_none());
    assert!(Error::InvalidPath.cause().is_none());
    let error = wrapped_io("disk on fire");
    assert!(matches!(error.cause(), Some(Cause::Io(_))));
    let error = Error::from(exif::Error::NotFound("No Exif data found"));
    assert!(matches!(
        error.cause(),
        Some(Cause::Metadata(exif::Error::NotFound("No Exif data found")))
    ));
}
