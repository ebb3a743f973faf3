//! Archive format detection and extraction dispatch.
//!
//! The library classifies an archive from the first bytes of its file or from
//! its name, chooses the pipeline that extracts the format, and decides where
//! each entry of the archive lands under an output directory, refusing any
//! entry whose path would leave it.

pub mod archive;
pub mod error;
pub mod extract;
pub mod format;
pub mod outside;
pub mod text;

pub use archive::Archive;
pub use error::{ArchiveError, ErrorContext, ErrorModel, IoErrorKind};
pub use extract::{Decompression, EntryAction, Extraction, Pipeline, dispatch};
pub use format::{
    ArchiveFormat, HEADER_LEN, detect_from_bytes, detect_from_extension, detect_from_file,
    detect_from_lowercase,
};
pub use outside::ZipFailure;
