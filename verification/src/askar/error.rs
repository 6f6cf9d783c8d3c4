//! The errors that the wallet storage binding reports, and the translation of
//! the storage library's errors into them.

use vstd::prelude::*;
use vstd::std_specs::convert::FromSpecImpl;

verus! {

/// The storage library's error, carried through as it is.
#[verifier::external_type_specification]
#[verifier::external_body]
pub struct ExAskarError(aries_askar::Error);

/// The error of the storage library's backend layer, carried through as it is.
#[verifier::external_type_specification]
#[verifier::external_body]
pub struct ExStorageError(aries_askar::storage::Error);

/// The kinds of error of the storage library, which are also the kinds that
/// the binding reports.
#[derive(Clone, Copy, Debug, PartialEq, Eq, Structural)]
pub enum ErrorKind {
    Backend,
    Busy,
    Custom,
    Duplicate,
    Encryption,
    Input,
    NotFound,
    Unexpected,
    Unsupported,
}

/// What an [`ErrorCode`] is, as mathematics: a kind and a message.
pub struct ErrorView {
    pub kind: ErrorKind,
    pub message: Seq<char>,
}

/// An error as the binding reports it.
#[derive(Debug, PartialEq, Clone)]
pub enum ErrorCode {
    Backend { error_message: String },
    Busy { error_message: String },
    Duplicate { error_message: String },
    Encryption { error_message: String },
    Input { error_message: String },
    NotFound { error_message: String },
    Unexpected { error_message: String },
    Unsupported { error_message: String },
    Custom { error_message: String },
}

/// The kind that `aries_askar::Error::kind` reports for `err`.
pub uninterp spec fn askar_error_kind(err: aries_askar::Error) -> ErrorKind;

/// The kind that `aries_askar::storage::Error::kind` reports for `err`.
pub uninterp spec fn storage_error_kind(err: aries_askar::storage::Error) -> ErrorKind;

/// Calls `aries_askar::Error::kind`, which reads the kind that the error was
/// made with, and gives the variant under this crate's name for it. Nothing
/// is claimed of which kind an error has.
#[verifier::external_body]
fn error_kind(err: &aries_askar::Error) -> (kind: ErrorKind)
    ensures
        kind == askar_error_kind(*err),
{
    match err.kind() {
        aries_askar::ErrorKind::Backend => ErrorKind::Backend,
        aries_askar::ErrorKind::Busy => ErrorKind::Busy,
        aries_askar::ErrorKind::Custom => ErrorKind::Custom,
        aries_askar::ErrorKind::Duplicate => ErrorKind::Duplicate,
        aries_askar::ErrorKind::Encryption => ErrorKind::Encryption,
        aries_askar::ErrorKind::Input => ErrorKind::Input,
        aries_askar::ErrorKind::NotFound => ErrorKind::NotFound,
        aries_askar::ErrorKind::Unexpected => ErrorKind::Unexpected,
        aries_askar::ErrorKind::Unsupported => ErrorKind::Unsupported,
    }
}

/// Formats `err` through the `Display` impl of `aries_askar::Error`. The
/// text may quote an underlying cause of any type, so nothing is claimed of
/// it.
#[verifier::external_body]
fn error_text(err: &aries_askar::Error) -> (text: String) {
    err.to_string()
}

/// Calls `aries_askar::storage::Error::kind`, which reads the kind that the
/// error was made with, and gives the variant under this crate's name for it.
/// Nothing is claimed of which kind an error has.
#[verifier::external_body]
fn storage_kind(err: &aries_askar::storage::Error) -> (kind: ErrorKind)
    ensures
        kind == storage_error_kind(*err),
{
    match err.kind() {
        aries_askar::storage::ErrorKind::Backend => ErrorKind::Backend,
        aries_askar::storage::ErrorKind::Busy => ErrorKind::Busy,
        aries_askar::storage::ErrorKind::Custom => ErrorKind::Custom,
        aries_askar::storage::ErrorKind::Duplicate => ErrorKind::Duplicate,
        aries_askar::storage::ErrorKind::Encryption => ErrorKind::Encryption,
        aries_askar::storage::ErrorKind::Input => ErrorKind::Input,
        aries_askar::storage::ErrorKind::NotFound => ErrorKind::NotFound,
        aries_askar::storage::ErrorKind::Unexpected => ErrorKind::Unexpected,
        aries_askar::storage::ErrorKind::Unsupported => ErrorKind::Unsupported,
    }
}

/// Formats `err` through the `Display` impl of `aries_askar::storage::Error`.
/// The text may quote an underlying cause of any type, so nothing is claimed
/// of it.
#[verifier::external_body]
fn storage_text(err: &aries_askar::storage::Error) -> (text: String) {
    err.to_string()
}

impl ErrorCode {
    /// The kind of this error.
    pub open spec fn spec_kind(&self) -> ErrorKind {
        match self {
            ErrorCode::Backend { .. } => ErrorKind::Backend,
            ErrorCode::Busy { .. } => ErrorKind::Busy,
            ErrorCode::Duplicate { .. } => ErrorKind::Duplicate,
            ErrorCode::Encryption { .. } => ErrorKind::Encryption,
            ErrorCode::Input { .. } => ErrorKind::Input,
            ErrorCode::NotFound { .. } => ErrorKind::NotFound,
            ErrorCode::Unexpected { .. } => ErrorKind::Unexpected,
            ErrorCode::Unsupported { .. } => ErrorKind::Unsupported,
            ErrorCode::Custom { .. } => ErrorKind::Custom,
        }
    }

    /// The message of this error.
    pub open spec fn spec_message(&self) -> Seq<char> {
        match self {
            ErrorCode::Backend { error_message } => error_message@,
            ErrorCode::Busy { error_message } => error_message@,
            ErrorCode::Duplicate { error_message } => error_message@,
            ErrorCode::Encryption { error_message } => error_message@,
            ErrorCode::Input { error_message } => error_message@,
            ErrorCode::NotFound { error_message } => error_message@,
            ErrorCode::Unexpected { error_message } => error_message@,
            ErrorCode::Unsupported { error_message } => error_message@,
            ErrorCode::Custom { error_message } => error_message@,
        }
    }

    /// The error of kind `kind` that carries `message`.
    pub fn new(kind: ErrorKind, message: String) -> (code: ErrorCode)
        ensures
            code@ == (ErrorView { kind, message: message@ }),
    {
        match kind {
            ErrorKind::Backend => ErrorCode::Backend { error_message: message },
            ErrorKind::Busy => ErrorCode::Busy { error_message: message },
            ErrorKind::Custom => ErrorCode::Custom { error_message: message },
            ErrorKind::Duplicate => ErrorCode::Duplicate { error_message: message },
            ErrorKind::Encryption => ErrorCode::Encryption { error_message: message },
            ErrorKind::Input => ErrorCode::Input { error_message: message },
            ErrorKind::NotFound => ErrorCode::NotFound { error_message: message },
            ErrorKind::Unexpected => ErrorCode::Unexpected { error_message: message },
            ErrorKind::Unsupported => ErrorCode::Unsupported { error_message: message },
        }
    }
}

impl View for ErrorCode {
    type V = ErrorView;

    open spec fn view(&self) -> ErrorView {
        ErrorView { kind: self.spec_kind(), message: self.spec_message() }
    }
}

impl From<aries_askar::Error> for ErrorCode {
    /// Translates an error of the storage library: the kind of the same name,
    /// with the text that the library displays for the error as its message.
    /// The contract speaks of the kind alone; what is made of a kind and a
    /// text is stated by [`ErrorCode::new`].
    fn from(err: aries_askar::Error) -> (code: ErrorCode)
        ensures
            code.spec_kind() == askar_error_kind(err),
    {
        let kind = error_kind(&err);
        let message = error_text(&err);
        ErrorCode::new(kind, message)
    }
}

impl FromSpecImpl<aries_askar::Error> for ErrorCode {
    open spec fn obeys_from_spec() -> bool {
        false
    }

    open spec fn from_spec(err: aries_askar::Error) -> ErrorCode {
        arbitrary()
    }
}

impl From<aries_askar::storage::Error> for ErrorCode {
    /// Translates an error of the backend layer: the kind of the same name,
    /// with the text that the layer displays for the error as its message.
    /// The contract speaks of the kind alone; what is made of a kind and a
    /// text is stated by [`ErrorCode::new`].
    fn from(err: aries_askar::storage::Error) -> (code: ErrorCode)
        ensures
            code.spec_kind() == storage_error_kind(err),
    {
        let kind = storage_kind(&err);
        let message = storage_text(&err);
        ErrorCode::new(kind, message)
    }
}

impl FromSpecImpl<aries_askar::storage::Error> for ErrorCode {
    open spec fn obeys_from_spec() -> bool {
        false
    }

    open spec fn from_spec(err: aries_askar::storage::Error) -> ErrorCode {
        arbitrary()
    }
}

} // verus!
