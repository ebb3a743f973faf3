//! What the library takes on trust from outside code: the outside types that
//! cross its boundary, and the calls that read an outside value for it.

use vstd::prelude::*;

verus! {

/// std's I/O error, carried through as an opaque value.
#[verifier::external_type_specification]
#[verifier::external_body]
pub struct ExIoError(std::io::Error);

/// The error of the zip crate's reader, carried through as an opaque value.
#[verifier::external_type_specification]
#[verifier::external_body]
pub struct ExZipError(zip::result::ZipError);

/// The error of the sevenz-rust2 extractor, carried through as an opaque value.
#[verifier::external_type_specification]
#[verifier::external_body]
pub struct ExSevenZError(sevenz_rust2::Error);

/// The cases of a ZIP reader's error that lead to different errors of this
/// library.
pub enum ZipFailure {
    /// The reader's underlying I/O failed.
    Io(std::io::Error),
    /// The archive is malformed, for the reason given.
    InvalidArchive(String),
    /// The archive uses a feature that the reader does not support.
    UnsupportedArchive(&'static str),
    /// The requested entry does not exist.
    FileNotFound,
    /// The password is missing or wrong.
    InvalidPassword,
    /// Any other failure of the reader.
    Other(zip::result::ZipError),
}

/// The lower-case form of a text, as `str::to_lowercase` computes it.
pub uninterp spec fn lower_of(s: Seq<char>) -> Seq<char>;

/// Relies on `str::to_lowercase`: the lower-case form of a text, which depends
/// on its characters alone.
#[verifier::external_body]
pub(crate) fn lowercase(s: &str) -> (r: String)
    ensures
        r@ == lower_of(s@),
{
    s.to_lowercase()
}

/// Relies on `std::io::Error::kind`: the kind of the error, where it is one
/// of the three that this library tells apart, and `Other` for every other kind.
#[verifier::external_body]
pub(crate) fn io_error_kind(err: &std::io::Error) -> (r: crate::error::IoErrorKind) {
    match err.kind() {
        std::io::ErrorKind::NotFound => crate::error::IoErrorKind::NotFound,
        std::io::ErrorKind::PermissionDenied => crate::error::IoErrorKind::PermissionDenied,
        std::io::ErrorKind::AlreadyExists => crate::error::IoErrorKind::AlreadyExists,
        _ => crate::error::IoErrorKind::Other,
    }
}

/// Relies on zip's `ZipError`: tells its variants apart, moving out what each
/// one holds (the reason of an invalid archive as an owned string).
#[verifier::external_body]
pub(crate) fn zip_failure(err: zip::result::ZipError) -> (r: ZipFailure) {
    match err {
        zip::result::ZipError::Io(e) => ZipFailure::Io(e),
        zip::result::ZipError::InvalidArchive(reason) => ZipFailure::InvalidArchive(reason.into_owned()),
        zip::result::ZipError::UnsupportedArchive(what) => ZipFailure::UnsupportedArchive(what),
        zip::result::ZipError::FileNotFound => ZipFailure::FileNotFound,
        zip::result::ZipError::InvalidPassword => ZipFailure::InvalidPassword,
        other => ZipFailure::Other(other),
    }
}

} // verus!
