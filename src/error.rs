use vstd::prelude::*;

use crate::format::{ArchiveFormat, name_of};
use crate::outside::{ZipFailure, io_error_kind, zip_failure};
use crate::text::{concat2, concat3, concat4};
use vstd::string::to_string_from_display_ensures;

verus! {

/// The low-level category of a failed I/O operation, as far as callers are
/// expected to react to it differently.
#[derive(Debug, Clone, Copy, PartialEq, Eq, Structural)]
pub enum IoErrorKind {
    NotFound,
    PermissionDenied,
    AlreadyExists,
    Other,
}

/// Every way in which an archive operation can fail.
#[derive(Debug, PartialEq, Eq)]
pub enum ArchiveError {
    /// An I/O operation failed; `context` names the operation.
    Io { context: String, kind: IoErrorKind, message: String },
    /// The archive violates the structure of its format.
    Format { format: ArchiveFormat, message: String },
    /// A codec failed to decode its stream.
    Compression { algorithm: String, message: String },
    /// A file or archive does not exist.
    NotFound { path: String },
    /// Access to a file or directory was refused.
    PermissionDenied { path: String },
    /// A file or directory exists where it should not.
    AlreadyExists { path: String },
    /// The archive is malformed.
    InvalidArchive { format: ArchiveFormat, reason: String },
    /// Something recognised but not implemented was asked for.
    Unsupported { feature: String },
    /// The archive is encrypted and no or a wrong password was given.
    InvalidPassword,
    /// Any other failure, described by its message.
    Custom { message: String },
    /// An error from a deeper layer, with the context in which it was met.
    Nested { context: String, source: Box<ArchiveError> },
}

/// The mathematical model of an [`ArchiveError`]: the same cases, with text
/// as sequences of characters.
pub enum ErrorModel {
    Io { context: Seq<char>, kind: IoErrorKind, message: Seq<char> },
    Format { format: ArchiveFormat, message: Seq<char> },
    Compression { algorithm: Seq<char>, message: Seq<char> },
    NotFound { path: Seq<char> },
    PermissionDenied { path: Seq<char> },
    AlreadyExists { path: Seq<char> },
    InvalidArchive { format: ArchiveFormat, reason: Seq<char> },
    Unsupported { feature: Seq<char> },
    InvalidPassword,
    Custom { message: Seq<char> },
    Nested { context: Seq<char>, source: Box<ErrorModel> },
}

/// The model of an error, case by case.
pub open spec fn model_of(e: &ArchiveError) -> ErrorModel
    decreases e,
{
        match e {
            ArchiveError::Io { context, kind, message } => ErrorModel::Io {
                context: context@,
                kind: *kind,
                message: message@,
            },
            ArchiveError::Format { format, message } => ErrorModel::Format {
                format: *format,
                message: message@,
            },
            ArchiveError::Compression { algorithm, message } => ErrorModel::Compression {
                algorithm: algorithm@,
                message: message@,
            },
            ArchiveError::NotFound { path } => ErrorModel::NotFound { path: path@ },
            ArchiveError::PermissionDenied { path } => ErrorModel::PermissionDenied { path: path@ },
            ArchiveError::AlreadyExists { path } => ErrorModel::AlreadyExists { path: path@ },
            ArchiveError::InvalidArchive { format, reason } => ErrorModel::InvalidArchive {
                format: *format,
                reason: reason@,
            },
            ArchiveError::Unsupported { feature } => ErrorModel::Unsupported { feature: feature@ },
            ArchiveError::InvalidPassword => ErrorModel::InvalidPassword,
            ArchiveError::Custom { message } => ErrorModel::Custom { message: message@ },
            ArchiveError::Nested { context, source } => ErrorModel::Nested {
                context: context@,
                source: Box::new(model_of(source)),
            },
        }
}

impl View for ArchiveError {
    type V = ErrorModel;

    open spec fn view(&self) -> ErrorModel {
        model_of(self)
    }
}

/// Whether `m` is the I/O error of the operation named by `context` that
/// failed with `e`: the kind of `e`, sorted, with the fixed message of that
/// kind, or for any other kind the text that `e` displays.
pub open spec fn io_failure_model(context: Seq<char>, e: &std::io::Error, m: ErrorModel) -> bool {
    exists|kind: IoErrorKind, text: String|
        to_string_from_display_ensures::<std::io::Error>(e, text) && m == io_model(
            context,
            kind,
            text@,
        )
}

/// Whether `m` is what the bare I/O failure `e` becomes: the kind of `e`,
/// sorted, and for any kind but the three that name a path, the text that `e`
/// displays.
pub open spec fn plain_io_failure_model(e: &std::io::Error, m: ErrorModel) -> bool {
    exists|kind: IoErrorKind, text: String|
        to_string_from_display_ensures::<std::io::Error>(e, text) && m == plain_io_model(
            kind,
            text@,
        )
}

/// Whether `m` is what the ZIP reader's failure `failure` becomes. An I/O
/// failure becomes the I/O error of the reader's operation; a failure of any
/// other case becomes a custom error that carries the text the failure displays.
pub open spec fn zip_failure_model(failure: ZipFailure, m: ErrorModel) -> bool {
    match failure {
        ZipFailure::Io(e) => io_failure_model("ZIP I/O operation"@, &e, m),
        ZipFailure::InvalidArchive(reason) => m == (ErrorModel::InvalidArchive {
            format: ArchiveFormat::Zip,
            reason: reason@,
        }),
        ZipFailure::UnsupportedArchive(what) => m == (ErrorModel::Unsupported {
            feature: "ZIP feature: "@ + what@,
        }),
        ZipFailure::FileNotFound => m == (ErrorModel::NotFound { path: "file in ZIP archive"@ }),
        ZipFailure::InvalidPassword => m == ErrorModel::InvalidPassword,
        ZipFailure::Other(e) => exists|text: String|
            to_string_from_display_ensures::<zip::result::ZipError>(&e, text) && m == (
            ErrorModel::Custom { message: "ZIP error: "@ + text@ }),
    }
}

/// The model of a result: its error, if any, as an [`ErrorModel`].
pub open spec fn result_model<T>(r: Result<T, ArchiveError>) -> Result<T, ErrorModel> {
    match r {
        Ok(v) => Ok(v),
        Err(e) => Err(e@),
    }
}

/// The text that describes an error to a person.
pub open spec fn message_of(m: ErrorModel) -> Seq<char>
    decreases m,
{
    match m {
        ErrorModel::Io { context, message, .. } => "I/O error during "@ + context + ": "@ + message,
        ErrorModel::Format { format, message } => name_of(format) + " format error: "@ + message,
        ErrorModel::Compression { algorithm, message } => algorithm + " compression error: "@
            + message,
        ErrorModel::NotFound { path } => "File or archive not found: "@ + path,
        ErrorModel::PermissionDenied { path } => "Permission denied accessing: "@ + path,
        ErrorModel::AlreadyExists { path } => "File or directory already exists: "@ + path,
        ErrorModel::InvalidArchive { format, reason } => "Invalid "@ + name_of(format)
            + " archive: "@ + reason,
        ErrorModel::Unsupported { feature } => "Unsupported feature: "@ + feature,
        ErrorModel::InvalidPassword => "Invalid password provided for encrypted archive"@,
        ErrorModel::Custom { message } => message,
        ErrorModel::Nested { context, source } => context + ": "@ + message_of(*source),
    }
}

/// The I/O error for a failed operation: the three kinds that callers tell
/// apart carry a fixed message, any other kind the message it came with.
pub open spec fn io_model(context: Seq<char>, kind: IoErrorKind, message: Seq<char>) -> ErrorModel {
    ErrorModel::Io {
        context,
        kind,
        message: match kind {
            IoErrorKind::NotFound => "file not found"@,
            IoErrorKind::PermissionDenied => "permission denied"@,
            IoErrorKind::AlreadyExists => "file already exists"@,
            IoErrorKind::Other => message,
        },
    }
}

/// The error that a bare I/O failure becomes.
pub open spec fn plain_io_model(kind: IoErrorKind, message: Seq<char>) -> ErrorModel {
    match kind {
        IoErrorKind::NotFound => ErrorModel::NotFound { path: "unknown"@ },
        IoErrorKind::PermissionDenied => ErrorModel::PermissionDenied { path: "unknown"@ },
        IoErrorKind::AlreadyExists => ErrorModel::AlreadyExists { path: "unknown"@ },
        IoErrorKind::Other => io_model("I/O operation"@, kind, message),
    }
}

impl ArchiveError {
    /// An I/O error whose context and message are fixed texts.
    pub fn io_static(context: &'static str, kind: IoErrorKind, message: &'static str) -> (r: Self)
        ensures
            r@ == (ErrorModel::Io { context: context@, kind, message: message@ }),
    {
        ArchiveError::Io {
            context: String::from_str(context),
            kind,
            message: String::from_str(message),
        }
    }

    /// An I/O error whose context and message are built at run time.
    pub fn io_dynamic(context: String, kind: IoErrorKind, message: String) -> (r: Self)
        ensures
            r@ == (ErrorModel::Io { context: context@, kind, message: message@ }),
    {
        ArchiveError::Io { context, kind, message }
    }

    /// The I/O error for an operation that failed with an error of the given
    /// kind and message.
    pub fn io_from_parts(context: String, kind: IoErrorKind, message: String) -> (r: Self)
        ensures
            r@ == io_model(context@, kind, message@),
    {
        let message = match kind {
            IoErrorKind::NotFound => String::from_str("file not found"),
            IoErrorKind::PermissionDenied => String::from_str("permission denied"),
            IoErrorKind::AlreadyExists => String::from_str("file already exists"),
            IoErrorKind::Other => message,
        };
        ArchiveError::Io { context, kind, message }
    }

    /// A format error with a fixed message.
    pub fn format_static(format: ArchiveFormat, message: &'static str) -> (r: Self)
        ensures
            r@ == (ErrorModel::Format { format, message: message@ }),
    {
        ArchiveError::Format { format, message: String::from_str(message) }
    }

    /// A format error with a message built at run time.
    pub fn format_dynamic(format: ArchiveFormat, message: String) -> (r: Self)
        ensures
            r@ == (ErrorModel::Format { format, message: message@ }),
    {
        ArchiveError::Format { format, message }
    }

    /// A "not found" error for a fixed path.
    pub fn not_found_static(path: &'static str) -> (r: Self)
        ensures
            r@ == (ErrorModel::NotFound { path: path@ }),
    {
        ArchiveError::NotFound { path: String::from_str(path) }
    }

    /// A "not found" error for a path built at run time.
    pub fn not_found_dynamic(path: String) -> (r: Self)
        ensures
            r@ == (ErrorModel::NotFound { path: path@ }),
    {
        ArchiveError::NotFound { path }
    }

    /// Wraps `source` with the context in which it was met.
    pub fn nested(context: String, source: ArchiveError) -> (r: Self)
        ensures
            r@ == (ErrorModel::Nested { context: context@, source: Box::new(source@) }),
    {
        ArchiveError::Nested { context, source: Box::new(source) }
    }

    /// A format error of a ZIP archive.
    pub fn zip_invalid(reason: &'static str) -> (r: Self)
        ensures
            r@ == (ErrorModel::Format { format: ArchiveFormat::Zip, message: reason@ }),
    {
        Self::format_static(ArchiveFormat::Zip, reason)
    }

    /// A format error of a plain TAR archive.
    pub fn tar_invalid(reason: &'static str) -> (r: Self)
        ensures
            r@ == (ErrorModel::Format { format: ArchiveFormat::Tar, message: reason@ }),
    {
        Self::format_static(ArchiveFormat::Tar, reason)
    }

    /// An "unsupported feature" error.
    pub fn unsupported_static(feature: &'static str) -> (r: Self)
        ensures
            r@ == (ErrorModel::Unsupported { feature: feature@ }),
    {
        ArchiveError::Unsupported { feature: String::from_str(feature) }
    }

    /// An error described by a fixed message alone.
    pub fn custom_static(message: &'static str) -> (r: Self)
        ensures
            r@ == (ErrorModel::Custom { message: message@ }),
    {
        ArchiveError::Custom { message: String::from_str(message) }
    }

    /// The error that a bare I/O failure of the given kind and message becomes:
    /// the three kinds that callers tell apart name an unknown path.
    pub fn from_io_parts(kind: IoErrorKind, message: String) -> (r: Self)
        ensures
            r@ == plain_io_model(kind, message@),
    {
        match kind {
            IoErrorKind::NotFound => Self::not_found_static("unknown"),
            IoErrorKind::PermissionDenied => ArchiveError::PermissionDenied {
                path: String::from_str("unknown"),
            },
            IoErrorKind::AlreadyExists => ArchiveError::AlreadyExists {
                path: String::from_str("unknown"),
            },
            IoErrorKind::Other => Self::io_from_parts(String::from_str("I/O operation"), kind, message),
        }
    }

    /// The error that wrapped this one, if this is a nested error.
    pub fn source(&self) -> (r: Option<&ArchiveError>)
        ensures
            match self@ {
                ErrorModel::Nested { source, .. } => r matches Some(s) && s@ == *source,
                _ => r is None,
            },
    {
        match self {
            ArchiveError::Nested { source, .. } => Some(&**source),
            _ => None,
        }
    }

    /// The I/O error for an operation, named by `context`, that failed with
    /// `source`: its kind, sorted, and the fixed message of that kind, or the
    /// error's own text for any other kind.
    pub fn io_from_error(context: String, source: std::io::Error) -> (r: Self)
        ensures
            io_failure_model(context@, &source, r@),
    {
        let kind = io_error_kind(&source);
        let message = source.to_string();
        Self::io_from_parts(context, kind, message)
    }

    /// The error that a bare I/O failure becomes.
    pub fn from_io_error(err: std::io::Error) -> (r: Self)
        ensures
            plain_io_failure_model(&err, r@),
    {
        let kind = io_error_kind(&err);
        let message = err.to_string();
        Self::from_io_parts(kind, message)
    }

    /// The error that a failure of the ZIP reader becomes, case by case.
    pub fn from_zip_failure(failure: ZipFailure) -> (r: Self)
        ensures
            zip_failure_model(failure, r@),
    {
        match failure {
            ZipFailure::Io(e) => Self::io_from_error(String::from_str("ZIP I/O operation"), e),
            ZipFailure::InvalidArchive(reason) => ArchiveError::InvalidArchive {
                format: ArchiveFormat::Zip,
                reason,
            },
            ZipFailure::UnsupportedArchive(what) => ArchiveError::Unsupported {
                feature: concat2("ZIP feature: ", what),
            },
            ZipFailure::FileNotFound => Self::not_found_static("file in ZIP archive"),
            ZipFailure::InvalidPassword => ArchiveError::InvalidPassword,
            ZipFailure::Other(e) => {
                let text = e.to_string();
                ArchiveError::Custom { message: concat2("ZIP error: ", text.as_str()) }
            },
        }
    }

    /// The error that a failure of the ZIP reader becomes.
    pub fn from_zip_error(err: zip::result::ZipError) -> (r: Self)
        ensures
            exists|failure: ZipFailure| zip_failure_model(failure, r@),
    {
        Self::from_zip_failure(zip_failure(err))
    }

    /// The error that a failure of the 7-Zip extractor becomes: a custom error
    /// that carries the text the failure displays.
    pub fn from_sevenz_error(err: sevenz_rust2::Error) -> (r: Self)
        ensures
            exists|text: String|
                to_string_from_display_ensures::<sevenz_rust2::Error>(&err, text) && r@ == (
                ErrorModel::Custom { message: "7-Zip error: "@ + text@ }),
    {
        let text = err.to_string();
        ArchiveError::Custom { message: concat2("7-Zip error: ", text.as_str()) }
    }

    /// The text that describes this error to a person.
    pub fn describe(&self) -> (r: String)
        ensures
            r@ == message_of(self@),
        decreases self,
    {
        match self {
            ArchiveError::Io { context, message, .. } => concat4(
                "I/O error during ",
                context.as_str(),
                ": ",
                message.as_str(),
            ),
            ArchiveError::Format { format, message } => concat3(
                format.name(),
                " format error: ",
                message.as_str(),
            ),
            ArchiveError::Compression { algorithm, message } => concat3(
                algorithm.as_str(),
                " compression error: ",
                message.as_str(),
            ),
            ArchiveError::NotFound { path } => concat2("File or archive not found: ", path.as_str()),
            ArchiveError::PermissionDenied { path } => concat2("Permission denied accessing: ", path.as_str()),
            ArchiveError::AlreadyExists { path } => concat2("File or directory already exists: ", path.as_str()),
            ArchiveError::InvalidArchive { format, reason } => concat4(
                "Invalid ",
                format.name(),
                " archive: ",
                reason.as_str(),
            ),
            ArchiveError::Unsupported { feature } => concat2("Unsupported feature: ", feature.as_str()),
            ArchiveError::InvalidPassword => String::from_str(
                "Invalid password provided for encrypted archive",
            ),
            ArchiveError::Custom { message } => String::from_str(message.as_str()),
            ArchiveError::Nested { context, source } => {
                let inner = source.describe();
                concat3(context.as_str(), ": ", inner.as_str())
            },
        }
    }
}

/// A copy of `e`, case by case.
fn copy_error(e: &ArchiveError) -> (r: ArchiveError)
    ensures
        r@ == e@,
    decreases e,
{
    match e {
        ArchiveError::Io { context, kind, message } => ArchiveError::Io {
            context: context.clone(),
            kind: *kind,
            message: message.clone(),
        },
        ArchiveError::Format { format, message } => ArchiveError::Format {
            format: *format,
            message: message.clone(),
        },
        ArchiveError::Compression { algorithm, message } => ArchiveError::Compression {
            algorithm: algorithm.clone(),
            message: message.clone(),
        },
        ArchiveError::NotFound { path } => ArchiveError::NotFound { path: path.clone() },
        ArchiveError::PermissionDenied { path } => ArchiveError::PermissionDenied { path: path.clone() },
        ArchiveError::AlreadyExists { path } => ArchiveError::AlreadyExists { path: path.clone() },
        ArchiveError::InvalidArchive { format, reason } => ArchiveError::InvalidArchive {
            format: *format,
            reason: reason.clone(),
        },
        ArchiveError::Unsupported { feature } => ArchiveError::Unsupported { feature: feature.clone() },
        ArchiveError::InvalidPassword => ArchiveError::InvalidPassword,
        ArchiveError::Custom { message } => ArchiveError::Custom { message: message.clone() },
        ArchiveError::Nested { context, source } => ArchiveError::Nested {
            context: context.clone(),
            source: Box::new(copy_error(source)),
        },
    }
}

impl Clone for ArchiveError {
    /// An equal copy of this error, its chain of sources included.
    fn clone(&self) -> (r: Self)
        ensures
            r@ == self@,
    {
        copy_error(self)
    }
}

/// Adds the context in which an operation failed to its error.
pub trait ErrorContext<T>: Sized {
    /// Adds a context built at run time.
    fn with_context(self, context: String) -> Result<T, ArchiveError>;

    /// Adds a fixed context.
    fn with_static_context(self, context: &'static str) -> Result<T, ArchiveError>;
}

impl<T> ErrorContext<T> for Result<T, ArchiveError> {
    /// A success is kept; an error is nested under the context.
    fn with_context(self, context: String) -> (r: Result<T, ArchiveError>)
        ensures
            match self {
                Ok(v) => r matches Ok(w) && w == v,
                Err(e) => r matches Err(n) && n@ == (ErrorModel::Nested {
                    context: context@,
                    source: Box::new(e@),
                }),
            },
    {
        match self {
            Ok(v) => Ok(v),
            Err(e) => Err(ArchiveError::nested(context, e)),
        }
    }

    /// A success is kept; an error is nested under the context.
    fn with_static_context(self, context: &'static str) -> (r: Result<T, ArchiveError>)
        ensures
            match self {
                Ok(v) => r matches Ok(w) && w == v,
                Err(e) => r matches Err(n) && n@ == (ErrorModel::Nested {
                    context: context@,
                    source: Box::new(e@),
                }),
            },
    {
        self.with_context(String::from_str(context))
    }
}

impl<T> ErrorContext<T> for Result<T, std::io::Error> {
    /// A success is kept; an error becomes the I/O error of the operation that
    /// the context names.
    fn with_context(self, context: String) -> (r: Result<T, ArchiveError>)
        ensures
            match self {
                Ok(v) => r matches Ok(w) && w == v,
                Err(e) => r matches Err(n) && io_failure_model(context@, &e, n@),
            },
    {
        match self {
            Ok(v) => Ok(v),
            Err(e) => Err(ArchiveError::io_from_error(context, e)),
        }
    }

    /// A success is kept; an error becomes the I/O error of the operation that
    /// the context names.
    fn with_static_context(self, context: &'static str) -> (r: Result<T, ArchiveError>)
        ensures
            match self {
                Ok(v) => r matches Ok(w) && w == v,
                Err(e) => r matches Err(n) && io_failure_model(context@, &e, n@),
            },
    {
        self.with_context(String::from_str(context))
    }
}

} // verus!
