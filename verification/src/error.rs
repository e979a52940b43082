//! The closed error taxonomy of the core, and helpers that render error
//! text. Retry logic branches on the variant, never on message text.

use vstd::prelude::*;

verus! {

/// Every failure the core can report. Transport-level failures
/// (`Network`) are never retried here; `TokenExpired` is the only
/// condition that triggers the refresh protocol; `Unauthorized` is
/// terminal and demands a fresh login.
#[derive(Debug, Clone, PartialEq, Eq)]
pub enum AppError {
    /// Filesystem failure, carrying the underlying message.
    Io(String),
    /// Network or HTTP-status failure; never retried by the core.
    Network(String),
    /// Malformed content locator.
    InvalidUri(String),
    /// Size cap exceeded, checked both before and after a download.
    FileTooLarge(String),
    /// Application-level failure code from the server, with its message.
    Request(String),
    /// Session expired (application code 406) and the refresh budget is
    /// spent; the session cannot be renewed transparently.
    TokenExpired,
    /// Application code 401: the caller must force a fresh login, not a
    /// token refresh.
    Unauthorized,
    /// The refresh token is missing or the refresh call was rejected.
    RefreshFailure(String),
}

/// Renders an I/O failure message: the fixed prefix followed by the
/// underlying error text.
pub fn io_error(message: &str) -> (r: String)
    ensures
        r@ == "IO error: "@ + message@,
{
    let mut out = String::from_str("IO error: ");
    out.append(message);
    out
}

/// How each error renders for display. Server-supplied detail is kept;
/// terminal session failures get a synthesized description.
pub open spec fn spec_message(e: AppError) -> Seq<char> {
    match e {
        AppError::Io(m) => "IO error: "@ + m@,
        AppError::Network(m) => "Network error: "@ + m@,
        AppError::InvalidUri(m) => "Invalid URI: "@ + m@,
        AppError::FileTooLarge(m) => "File too large: "@ + m@,
        AppError::Request(m) => "Request error: "@ + m@,
        AppError::TokenExpired => "Token expired"@,
        AppError::Unauthorized => "Please log in again"@,
        AppError::RefreshFailure(m) => m@,
    }
}

impl AppError {
    /// The single human-readable form every failure is recovered into
    /// at the call boundary.
    pub fn message(&self) -> (r: String)
        ensures
            r@ == spec_message(*self),
    {
        match self {
            AppError::Io(m) => {
                let mut out = String::from_str("IO error: ");
                out.append(m.as_str());
                out
            },
            AppError::Network(m) => {
                let mut out = String::from_str("Network error: ");
                out.append(m.as_str());
                out
            },
            AppError::InvalidUri(m) => {
                let mut out = String::from_str("Invalid URI: ");
                out.append(m.as_str());
                out
            },
            AppError::FileTooLarge(m) => {
                let mut out = String::from_str("File too large: ");
                out.append(m.as_str());
                out
            },
            AppError::Request(m) => {
                let mut out = String::from_str("Request error: ");
                out.append(m.as_str());
                out
            },
            AppError::TokenExpired => String::from_str("Token expired"),
            AppError::Unauthorized => String::from_str("Please log in again"),
            AppError::RefreshFailure(m) => m.clone(),
        }
    }
}

/// The rendering of a chain of causes, one block per cause, outermost
/// first.
pub open spec fn spec_cause_chain(causes: Seq<String>) -> Seq<char>
    decreases causes.len(),
{
    if causes.len() == 0 {
        Seq::<char>::empty()
    } else {
        spec_cause_chain(causes.drop_last()) + "Caused by:\n\t"@ + causes.last()@ + "\n"@
    }
}

/// Renders an error and its chain of causes, outermost first: the
/// error's own message, a blank line, then one `Caused by` block per
/// cause.
pub fn error_chain_fmt(message: &str, causes: &Vec<String>) -> (r: String)
    ensures
        r@ == message@ + "\n\n"@ + spec_cause_chain(causes@),
{
    let mut out = message.to_owned();
    out.append("\n\n");
    let n = causes.len();
    let mut i: usize = 0;
    proof {
        assert(causes@.subrange(0, 0) =~= Seq::<String>::empty());
        assert(out@ =~= message@ + "\n\n"@ + spec_cause_chain(causes@.subrange(0, 0)));
    }
    while i < n
        invariant
            i <= n,
            n == causes@.len(),
            out@ == message@ + "\n\n"@ + spec_cause_chain(causes@.subrange(0, i as int)),
        decreases n - i,
    {
        out.append("Caused by:\n\t");
        out.append(causes[i].as_str());
        out.append("\n");
        proof {
            assert(causes@.subrange(0, i + 1).drop_last() =~= causes@.subrange(0, i as int));
            assert(causes@.subrange(0, i + 1).last() == causes@[i as int]);
            assert(out@ =~= message@ + "\n\n"@ + spec_cause_chain(causes@.subrange(0, i + 1)));
        }
        i = i + 1;
    }
    proof {
        assert(causes@.subrange(0, n as int) =~= causes@);
    }
    out
}

} // verus!
