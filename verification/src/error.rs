//! What can go wrong while talking to Herdr or keeping state on disk.

use vstd::prelude::*;
use vstd::std_specs::convert::FromSpecImpl;

verus! {

/// The error of a file or socket operation. Its contents are never looked at: it is handed
/// through to whoever reports it.
#[verifier::external_type_specification]
#[verifier::external_body]
pub struct ExIoError(std::io::Error);

/// Why a file or socket operation failed, as far as anything is decided by it: the kinds of
/// `std::io::ErrorKind` of the same names, and all of the others.
#[derive(Debug, Clone, Copy, PartialEq, Eq, Structural)]
pub enum FailureKind {
    WouldBlock,
    TimedOut,
    AlreadyExists,
    Other,
}

/// Any failure of this library.
#[derive(Debug)]
pub enum Error {
    /// A file or socket operation failed.
    Io(std::io::Error),
    /// Herdr answered in a way that cannot be used.
    Herdr(HerdrError),
}

/// A failure on the side of Herdr.
#[derive(Debug)]
pub enum HerdrError {
    /// A line that Herdr sent is not JSON, and what is wrong with it.
    InvalidJson(String),
    /// Herdr closed the connection while an answer was still due.
    ConnectionClosed,
    /// Herdr answered with an error.
    RequestFailed {
        /// What was asked for.
        method: &'static str,
        /// The error that Herdr sent, as JSON text.
        detail: String,
    },
}

impl HerdrError {
    /// What is reported of the failure.
    pub open spec fn text(self) -> Seq<char> {
        match self {
            HerdrError::InvalidJson(reason) => reason@,
            HerdrError::ConnectionClosed => "unexpected response"@,
            HerdrError::RequestFailed { method, detail } => method@ + " failed: "@ + detail@,
        }
    }

    /// What is reported of the failure.
    pub fn message(&self) -> (result: String)
        ensures
            result@ == self.text(),
    {
        match self {
            HerdrError::InvalidJson(reason) => reason.clone(),
            HerdrError::ConnectionClosed => "unexpected response".to_owned(),
            HerdrError::RequestFailed { method, detail } => {
                let mut message: String = (*method).to_owned();
                message.append(" failed: ");
                message.append(detail.as_str());
                message
            },
        }
    }
}

impl Error {
    /// What is reported of the failure. There is nothing to add to the error of a file or socket
    /// operation, which is reported as it is.
    pub fn message(&self) -> (result: Option<String>)
        ensures
            match self {
                Error::Io(_) => result is None,
                Error::Herdr(error) => result matches Some(message) && message@ == error.text(),
            },
    {
        match self {
            Error::Io(_) => None,
            Error::Herdr(error) => Some(error.message()),
        }
    }
}

impl From<std::io::Error> for Error {
    fn from(error: std::io::Error) -> (result: Self) {
        Error::Io(error)
    }
}

impl FromSpecImpl<std::io::Error> for Error {
    open spec fn obeys_from_spec() -> bool {
        true
    }

    open spec fn from_spec(error: std::io::Error) -> Self {
        Error::Io(error)
    }
}

impl From<HerdrError> for Error {
    fn from(error: HerdrError) -> (result: Self) {
        Error::Herdr(error)
    }
}

impl FromSpecImpl<HerdrError> for Error {
    open spec fn obeys_from_spec() -> bool {
        true
    }

    open spec fn from_spec(error: HerdrError) -> Self {
        Error::Herdr(error)
    }
}

/// A refusal is reported as what was asked for, that it failed, and why, in this order. A line that
/// is not JSON is reported by the reason alone.
pub proof fn law_reports_say_what_and_why(error: HerdrError)
    ensures
        match error {
            HerdrError::RequestFailed { method, detail } => {
                let text = error.text();
                &&& text.len() == method@.len() + 9 + detail@.len()
                &&& method@.is_prefix_of(text)
                &&& detail@.is_suffix_of(text)
                &&& text.subrange(method@.len() as int, (method@.len() + 9) as int) == " failed: "@
            },
            HerdrError::InvalidJson(reason) => error.text() == reason@,
            HerdrError::ConnectionClosed => error.text() == "unexpected response"@,
        },
{
    if let HerdrError::RequestFailed { method, detail } = error {
        let text = error.text();
        reveal_strlit(" failed: ");
        assert(method@ =~= text.subrange(0, method@.len() as int));
        assert(detail@ =~= text.subrange(text.len() - detail@.len(), text.len() as int));
        assert(text.subrange(method@.len() as int, (method@.len() + 9) as int) =~= " failed: "@);
    }
}

} // verus!
