//! A handle on an archive file: its path and the format it was found to have.

use vstd::prelude::*;

use crate::error::{ArchiveError, ErrorModel};
use crate::format::{
    ArchiveFormat, detect_from_extension, detect_from_file, extension_result, file_result,
};
use crate::outside::lower_of;

verus! {

/// An archive file together with its format. A value of it is never changed
/// after it is made.
#[derive(Debug, PartialEq, Eq)]
pub struct Archive {
    pub path: String,
    pub format: ArchiveFormat,
}

/// Whether `r` is the archive at `path` with the format that `expected`
/// gives, or the error that it gives.
pub open spec fn archive_matches(
    r: Result<Archive, ArchiveError>,
    path: Seq<char>,
    expected: Result<ArchiveFormat, ErrorModel>,
) -> bool {
    match expected {
        Ok(f) => r matches Ok(a) && a.path@ == path && a.format == f,
        Err(m) => r matches Err(e) && e@ == m,
    }
}

impl Archive {
    /// Opens the archive at `path`, whose file begins with `header` (the first
    /// bytes read from it, up to 512): its format is detected from those bytes,
    /// and from the path's ending where they match no signature.
    pub fn open(path: String, header: &[u8]) -> (r: Result<Self, ArchiveError>)
        ensures
            archive_matches(r, path@, file_result(header@, lower_of(path@))),
    {
        match detect_from_file(header, path.as_str()) {
            Ok(format) => Ok(Archive { path, format }),
            Err(e) => Err(e),
        }
    }

    /// An archive at `path` whose format is given by the path's ending alone,
    /// as for an archive that is yet to be written.
    pub fn new(path: String) -> (r: Result<Self, ArchiveError>)
        ensures
            archive_matches(r, path@, extension_result(lower_of(path@))),
    {
        match detect_from_extension(path.as_str()) {
            Ok(format) => Ok(Archive { path, format }),
            Err(e) => Err(e),
        }
    }
}

} // verus!
