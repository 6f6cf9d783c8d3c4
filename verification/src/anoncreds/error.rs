//! The errors that the credential binding reports, and the translation of the
//! credential library's errors and of JSON errors into them.

use vstd::prelude::*;
use vstd::std_specs::convert::FromSpecImpl;

verus! {

/// A JSON error, carried through as it is.
#[verifier::external_type_specification]
#[verifier::external_body]
pub struct ExJsonError(serde_json::Error);

/// The kinds of error of the credential library, which are also the kinds
/// that the binding reports.
#[derive(Clone, Copy, Debug, PartialEq, Eq, Structural)]
pub enum ErrorKind {
    Input,
    IOError,
    InvalidState,
    Unexpected,
    CredentialRevoked,
    InvalidUserRevocId,
    ProofRejected,
    RevocationRegistryFull,
}

/// An error of the credential library: its kind and the text that the
/// library displays for it.
#[derive(Debug, PartialEq, Clone)]
pub struct AnoncredsError {
    pub kind: ErrorKind,
    pub message: String,
}

/// What an [`ErrorCode`] is, as mathematics: a kind and a message.
pub struct ErrorView {
    pub kind: ErrorKind,
    pub message: Seq<char>,
}

/// An error as the binding reports it.
#[derive(Debug, PartialEq, Clone)]
pub enum ErrorCode {
    Input { error_message: String },
    IOError { error_message: String },
    InvalidState { error_message: String },
    Unexpected { error_message: String },
    CredentialRevoked { error_message: String },
    InvalidUserRevocId { error_message: String },
    ProofRejected { error_message: String },
    RevocationRegistryFull { error_message: String },
}

/// Formats `err` through the `Display` impl of `serde_json::Error`. The text
/// may quote an error of the operating system, so nothing is claimed of it.
#[verifier::external_body]
fn json_text(err: &serde_json::Error) -> (text: String) {
    err.to_string()
}

impl ErrorCode {
    /// The error of kind `kind` that carries `message`.
    pub open spec fn of(kind: ErrorKind, message: String) -> ErrorCode {
        match kind {
            ErrorKind::Input => ErrorCode::Input { error_message: message },
            ErrorKind::IOError => ErrorCode::IOError { error_message: message },
            ErrorKind::InvalidState => ErrorCode::InvalidState { error_message: message },
            ErrorKind::Unexpected => ErrorCode::Unexpected { error_message: message },
            ErrorKind::CredentialRevoked => ErrorCode::CredentialRevoked {
                error_message: message,
            },
            ErrorKind::InvalidUserRevocId => ErrorCode::InvalidUserRevocId {
                error_message: message,
            },
            ErrorKind::ProofRejected => ErrorCode::ProofRejected { error_message: message },
            ErrorKind::RevocationRegistryFull => ErrorCode::RevocationRegistryFull {
                error_message: message,
            },
        }
    }

    /// The error of kind `kind` that carries `message`.
    pub fn new(kind: ErrorKind, message: String) -> (code: ErrorCode)
        ensures
            code == ErrorCode::of(kind, message),
            code@ == (ErrorView { kind, message: message@ }),
    {
        match kind {
            ErrorKind::Input => ErrorCode::Input { error_message: message },
            ErrorKind::IOError => ErrorCode::IOError { error_message: message },
            ErrorKind::InvalidState => ErrorCode::InvalidState { error_message: message },
            ErrorKind::Unexpected => ErrorCode::Unexpected { error_message: message },
            ErrorKind::CredentialRevoked => ErrorCode::CredentialRevoked {
                error_message: message,
            },
            ErrorKind::InvalidUserRevocId => ErrorCode::InvalidUserRevocId {
                error_message: message,
            },
            ErrorKind::ProofRejected => ErrorCode::ProofRejected { error_message: message },
            ErrorKind::RevocationRegistryFull => ErrorCode::RevocationRegistryFull {
                error_message: message,
            },
        }
    }

    /// The kind of this error.
    pub open spec fn spec_kind(&self) -> ErrorKind {
        match self {
            ErrorCode::Input { .. } => ErrorKind::Input,
            ErrorCode::IOError { .. } => ErrorKind::IOError,
            ErrorCode::InvalidState { .. } => ErrorKind::InvalidState,
            ErrorCode::Unexpected { .. } => ErrorKind::Unexpected,
            ErrorCode::CredentialRevoked { .. } => ErrorKind::CredentialRevoked,
            ErrorCode::InvalidUserRevocId { .. } => ErrorKind::InvalidUserRevocId,
            ErrorCode::ProofRejected { .. } => ErrorKind::ProofRejected,
            ErrorCode::RevocationRegistryFull { .. } => ErrorKind::RevocationRegistryFull,
        }
    }

    /// The message of this error.
    pub open spec fn spec_message(&self) -> Seq<char> {
        match self {
            ErrorCode::Input { error_message } => error_message@,
            ErrorCode::IOError { error_message } => error_message@,
            ErrorCode::InvalidState { error_message } => error_message@,
            ErrorCode::Unexpected { error_message } => error_message@,
            ErrorCode::CredentialRevoked { error_message } => error_message@,
            ErrorCode::InvalidUserRevocId { error_message } => error_message@,
            ErrorCode::ProofRejected { error_message } => error_message@,
            ErrorCode::RevocationRegistryFull { error_message } => error_message@,
        }
    }
}

impl View for ErrorCode {
    type V = ErrorView;

    open spec fn view(&self) -> ErrorView {
        ErrorView { kind: self.spec_kind(), message: self.spec_message() }
    }
}

impl From<AnoncredsError> for ErrorCode {
    /// Translates an error of the credential library: the kind of the same
    /// name, with the library's message unchanged.
    fn from(err: AnoncredsError) -> (code: ErrorCode)
        ensures
            code@ == (ErrorView { kind: err.kind, message: err.message@ }),
    {
        let AnoncredsError { kind, message } = err;
        ErrorCode::new(kind, message)
    }
}

impl FromSpecImpl<AnoncredsError> for ErrorCode {
    open spec fn obeys_from_spec() -> bool {
        true
    }

    open spec fn from_spec(err: AnoncredsError) -> ErrorCode {
        ErrorCode::of(err.kind, err.message)
    }
}

impl From<serde_json::Error> for ErrorCode {
    /// A JSON error is an `Input` error, with the text that the JSON library
    /// displays for it as its message. The contract speaks of the kind
    /// alone; what is made of a kind and a text is stated by
    /// [`ErrorCode::new`].
    fn from(err: serde_json::Error) -> (code: ErrorCode)
        ensures
            code is Input,
    {
        ErrorCode::new(ErrorKind::Input, json_text(&err))
    }
}

impl FromSpecImpl<serde_json::Error> for ErrorCode {
    open spec fn obeys_from_spec() -> bool {
        false
    }

    open spec fn from_spec(err: serde_json::Error) -> ErrorCode {
        arbitrary()
    }
}

} // verus!
