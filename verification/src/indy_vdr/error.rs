//! The closed set of errors that the ledger session reports, and the
//! translation of connection-layer failures into it.

use vstd::prelude::*;
use vstd::std_specs::convert::FromSpecImpl;

verus! {

/// The tag of an [`ErrorCode`], without its message.
#[derive(Clone, Copy, Debug, PartialEq, Eq, Structural)]
pub enum ErrorTag {
    Config,
    Connection,
    FileSystem,
    Input,
    Resource,
    Unavailable,
    Unexpected,
    Incompatible,
    PoolNoConsensus,
    PoolRequestFailed,
    PoolTimeout,
    Resolver,
    Success,
}

/// What an [`ErrorCode`] is, as mathematics: a tag and a message.
pub struct ErrorView {
    pub tag: ErrorTag,
    pub message: Seq<char>,
}

/// An error as the session reports it: one of a closed set of kinds, each with
/// a human-readable message. `Success` marks the positive path between the
/// callback and the awaiting caller and is never reported as an error.
#[derive(Debug, PartialEq, Clone)]
pub enum ErrorCode {
    Config { error_message: String },
    Connection { error_message: String },
    FileSystem { error_message: String },
    Input { error_message: String },
    Resource { error_message: String },
    Unavailable { error_message: String },
    Unexpected { error_message: String },
    Incompatible { error_message: String },
    PoolNoConsensus { error_message: String },
    PoolRequestFailed { error_message: String },
    PoolTimeout { error_message: String },
    Resolver { error_message: String },
    Success {  },
}

/// The failure categories of the connection and protocol layer.
/// `PoolRequestFailed` carries the layer's structured detail of the failure.
#[derive(Debug, PartialEq, Clone)]
pub enum VdrErrorKind {
    Config,
    Connection,
    FileSystem,
    Input,
    Resource,
    Unavailable,
    Unexpected,
    Incompatible,
    PoolNoConsensus,
    PoolRequestFailed(String),
    PoolTimeout,
    Resolver,
}

/// A failure of the connection and protocol layer: its category and the text
/// that the layer displays for it.
#[derive(Debug, PartialEq, Clone)]
pub struct VdrError {
    pub kind: VdrErrorKind,
    pub message: String,
}

impl VdrErrorKind {
    /// The external kind that stands for this category.
    pub open spec fn spec_tag(&self) -> ErrorTag {
        match self {
            VdrErrorKind::Config => ErrorTag::Config,
            VdrErrorKind::Connection => ErrorTag::Connection,
            VdrErrorKind::FileSystem => ErrorTag::FileSystem,
            VdrErrorKind::Input => ErrorTag::Input,
            VdrErrorKind::Resource => ErrorTag::Resource,
            VdrErrorKind::Unavailable => ErrorTag::Unavailable,
            VdrErrorKind::Unexpected => ErrorTag::Unexpected,
            VdrErrorKind::Incompatible => ErrorTag::Incompatible,
            VdrErrorKind::PoolNoConsensus => ErrorTag::PoolNoConsensus,
            VdrErrorKind::PoolRequestFailed(_) => ErrorTag::PoolRequestFailed,
            VdrErrorKind::PoolTimeout => ErrorTag::PoolTimeout,
            VdrErrorKind::Resolver => ErrorTag::Resolver,
        }
    }
}

impl VdrError {
    /// The error that this failure is reported as.
    pub open spec fn translated(&self) -> ErrorView {
        ErrorView { tag: self.kind.spec_tag(), message: self.message@ }
    }
}

impl ErrorCode {
    /// The error of the given kind that carries `message`.
    pub open spec fn of(tag: ErrorTag, message: String) -> ErrorCode {
        match tag {
            ErrorTag::Config => ErrorCode::Config { error_message: message },
            ErrorTag::Connection => ErrorCode::Connection { error_message: message },
            ErrorTag::FileSystem => ErrorCode::FileSystem { error_message: message },
            ErrorTag::Input => ErrorCode::Input { error_message: message },
            ErrorTag::Resource => ErrorCode::Resource { error_message: message },
            ErrorTag::Unavailable => ErrorCode::Unavailable { error_message: message },
            ErrorTag::Unexpected => ErrorCode::Unexpected { error_message: message },
            ErrorTag::Incompatible => ErrorCode::Incompatible { error_message: message },
            ErrorTag::PoolNoConsensus => ErrorCode::PoolNoConsensus { error_message: message },
            ErrorTag::PoolRequestFailed => ErrorCode::PoolRequestFailed {
                error_message: message,
            },
            ErrorTag::PoolTimeout => ErrorCode::PoolTimeout { error_message: message },
            ErrorTag::Resolver => ErrorCode::Resolver { error_message: message },
            ErrorTag::Success => ErrorCode::Success {  },
        }
    }

    /// The kind of this error.
    pub open spec fn spec_tag(&self) -> ErrorTag {
        match self {
            ErrorCode::Config { .. } => ErrorTag::Config,
            ErrorCode::Connection { .. } => ErrorTag::Connection,
            ErrorCode::FileSystem { .. } => ErrorTag::FileSystem,
            ErrorCode::Input { .. } => ErrorTag::Input,
            ErrorCode::Resource { .. } => ErrorTag::Resource,
            ErrorCode::Unavailable { .. } => ErrorTag::Unavailable,
            ErrorCode::Unexpected { .. } => ErrorTag::Unexpected,
            ErrorCode::Incompatible { .. } => ErrorTag::Incompatible,
            ErrorCode::PoolNoConsensus { .. } => ErrorTag::PoolNoConsensus,
            ErrorCode::PoolRequestFailed { .. } => ErrorTag::PoolRequestFailed,
            ErrorCode::PoolTimeout { .. } => ErrorTag::PoolTimeout,
            ErrorCode::Resolver { .. } => ErrorTag::Resolver,
            ErrorCode::Success {  } => ErrorTag::Success,
        }
    }

    /// The message of this error; `Success` carries none.
    pub open spec fn spec_message(&self) -> Seq<char> {
        match self {
            ErrorCode::Config { error_message } => error_message@,
            ErrorCode::Connection { error_message } => error_message@,
            ErrorCode::FileSystem { error_message } => error_message@,
            ErrorCode::Input { error_message } => error_message@,
            ErrorCode::Resource { error_message } => error_message@,
            ErrorCode::Unavailable { error_message } => error_message@,
            ErrorCode::Unexpected { error_message } => error_message@,
            ErrorCode::Incompatible { error_message } => error_message@,
            ErrorCode::PoolNoConsensus { error_message } => error_message@,
            ErrorCode::PoolRequestFailed { error_message } => error_message@,
            ErrorCode::PoolTimeout { error_message } => error_message@,
            ErrorCode::Resolver { error_message } => error_message@,
            ErrorCode::Success {  } => Seq::empty(),
        }
    }
}

impl View for ErrorCode {
    type V = ErrorView;

    open spec fn view(&self) -> ErrorView {
        ErrorView { tag: self.spec_tag(), message: self.spec_message() }
    }
}

impl From<VdrError> for ErrorCode {
    /// Translates a failure of the connection layer: the kind that stands for
    /// its category, with the layer's message unchanged. The structured detail
    /// of a failed request is left behind.
    fn from(err: VdrError) -> (code: ErrorCode)
        ensures
            code@ == err.translated(),
            code !is Success,
    {
        let VdrError { kind, message } = err;
        match kind {
            VdrErrorKind::Config => ErrorCode::Config { error_message: message },
            VdrErrorKind::Connection => ErrorCode::Connection { error_message: message },
            VdrErrorKind::FileSystem => ErrorCode::FileSystem { error_message: message },
            VdrErrorKind::Input => ErrorCode::Input { error_message: message },
            VdrErrorKind::Resource => ErrorCode::Resource { error_message: message },
            VdrErrorKind::Unavailable => ErrorCode::Unavailable { error_message: message },
            VdrErrorKind::Unexpected => ErrorCode::Unexpected { error_message: message },
            VdrErrorKind::Incompatible => ErrorCode::Incompatible { error_message: message },
            VdrErrorKind::PoolNoConsensus => ErrorCode::PoolNoConsensus { error_message: message },
            VdrErrorKind::PoolRequestFailed(_) => ErrorCode::PoolRequestFailed {
                error_message: message,
            },
            VdrErrorKind::PoolTimeout => ErrorCode::PoolTimeout { error_message: message },
            VdrErrorKind::Resolver => ErrorCode::Resolver { error_message: message },
        }
    }
}

impl FromSpecImpl<VdrError> for ErrorCode {
    open spec fn obeys_from_spec() -> bool {
        true
    }

    open spec fn from_spec(err: VdrError) -> ErrorCode {
        ErrorCode::of(err.kind.spec_tag(), err.message)
    }
}

impl ErrorView {
    /// Reported when a session is opened without any source of transactions.
    pub open spec fn missing_source() -> ErrorView {
        ErrorView {
            tag: ErrorTag::Input,
            message: "Invalid pool create parameters: must provide transactions or transactions_path"@,
        }
    }

    /// Reported when a session is opened with two sources of transactions.
    pub open spec fn ambiguous_source() -> ErrorView {
        ErrorView {
            tag: ErrorTag::Input,
            message: "Invalid pool create parameters: must provide only one of transactions and transactions_path"@,
        }
    }

    /// Reported when a call needs the connection handle and the session has
    /// none: it was closed, or never had one.
    pub open spec fn closed_pool() -> ErrorView {
        ErrorView { tag: ErrorTag::Input, message: "Pool is closed: no active connection"@ }
    }

    /// Reported when a request is used after its payload was taken: the
    /// request is in no state to be sent again.
    pub open spec fn consumed_request() -> ErrorView {
        ErrorView {
            tag: ErrorTag::Input,
            message: "Invalid state: request has already been submitted"@,
        }
    }

    /// Reported when a call was accepted by the connection handle and its
    /// callback never fired.
    pub open spec fn channel_closed() -> ErrorView {
        ErrorView { tag: ErrorTag::Unexpected, message: "Channel error: channel closed"@ }
    }
}

impl ErrorCode {
    /// The kind of this error.
    pub fn tag(&self) -> (tag: ErrorTag)
        ensures
            tag == self.spec_tag(),
    {
        match self {
            ErrorCode::Config { .. } => ErrorTag::Config,
            ErrorCode::Connection { .. } => ErrorTag::Connection,
            ErrorCode::FileSystem { .. } => ErrorTag::FileSystem,
            ErrorCode::Input { .. } => ErrorTag::Input,
            ErrorCode::Resource { .. } => ErrorTag::Resource,
            ErrorCode::Unavailable { .. } => ErrorTag::Unavailable,
            ErrorCode::Unexpected { .. } => ErrorTag::Unexpected,
            ErrorCode::Incompatible { .. } => ErrorTag::Incompatible,
            ErrorCode::PoolNoConsensus { .. } => ErrorTag::PoolNoConsensus,
            ErrorCode::PoolRequestFailed { .. } => ErrorTag::PoolRequestFailed,
            ErrorCode::PoolTimeout { .. } => ErrorTag::PoolTimeout,
            ErrorCode::Resolver { .. } => ErrorTag::Resolver,
            ErrorCode::Success {  } => ErrorTag::Success,
        }
    }

    /// The message of this error; `Success` carries none.
    pub fn message(&self) -> (message: &str)
        ensures
            message@ == self.spec_message(),
    {
        match self {
            ErrorCode::Config { error_message } => error_message.as_str(),
            ErrorCode::Connection { error_message } => error_message.as_str(),
            ErrorCode::FileSystem { error_message } => error_message.as_str(),
            ErrorCode::Input { error_message } => error_message.as_str(),
            ErrorCode::Resource { error_message } => error_message.as_str(),
            ErrorCode::Unavailable { error_message } => error_message.as_str(),
            ErrorCode::Unexpected { error_message } => error_message.as_str(),
            ErrorCode::Incompatible { error_message } => error_message.as_str(),
            ErrorCode::PoolNoConsensus { error_message } => error_message.as_str(),
            ErrorCode::PoolRequestFailed { error_message } => error_message.as_str(),
            ErrorCode::PoolTimeout { error_message } => error_message.as_str(),
            ErrorCode::Resolver { error_message } => error_message.as_str(),
            ErrorCode::Success {  } => {
                proof {
                    reveal_strlit("");
                    assert(""@ =~= Seq::<char>::empty());
                }
                ""
            },
        }
    }

    /// The error for a session opened without any source of transactions.
    pub fn missing_source() -> (code: ErrorCode)
        ensures
            code@ == ErrorView::missing_source(),
    {
        input_err(
            String::from_str(
                "Invalid pool create parameters: must provide transactions or transactions_path",
            ),
        )
    }

    /// The error for a session opened with two sources of transactions.
    pub fn ambiguous_source() -> (code: ErrorCode)
        ensures
            code@ == ErrorView::ambiguous_source(),
    {
        input_err(
            String::from_str(
                "Invalid pool create parameters: must provide only one of transactions and transactions_path",
            ),
        )
    }

    /// The error for a call on a session without a connection handle.
    pub fn closed_pool() -> (code: ErrorCode)
        ensures
            code@ == ErrorView::closed_pool(),
    {
        input_err(String::from_str("Pool is closed: no active connection"))
    }

    /// The error for a request whose payload was already taken.
    pub fn consumed_request() -> (code: ErrorCode)
        ensures
            code@ == ErrorView::consumed_request(),
    {
        input_err(String::from_str("Invalid state: request has already been submitted"))
    }

    /// The error for a call whose callback never fired.
    pub fn channel_closed() -> (code: ErrorCode)
        ensures
            code@ == ErrorView::channel_closed(),
    {
        ErrorCode::Unexpected { error_message: String::from_str("Channel error: channel closed") }
    }
}

/// An `Input` error that carries `msg`.
pub fn input_err(msg: String) -> (code: ErrorCode)
    ensures
        code == (ErrorCode::Input { error_message: msg }),
        code@ == (ErrorView { tag: ErrorTag::Input, message: msg@ }),
{
    ErrorCode::Input { error_message: msg }
}

} // verus!
