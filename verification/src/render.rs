//! Rendering of probe outcomes as a single JSON line.
//!
//! A success prints the response body verbatim; every failure is wrapped in
//! the fixed monitoring envelope `{"prtg": {"error": 1, "text": "..."}}`,
//! tagged with the stage that failed.

use vstd::prelude::*;
use vstd::string::*;

verus! {

/// The stage at which an invocation failed; each stage has a fixed prefix
/// in the rendered error text.
#[derive(Clone, Copy, Debug, PartialEq, Eq, Structural)]
pub enum ErrorKind {
    /// Option validation rejected the invocation.
    Parameters,
    /// The HTTP client could not be constructed.
    Client,
    /// The request could not be sent (DNS, connect, TLS handshake, or a
    /// missing credential environment variable, which surfaces on this path).
    Reqwest,
    /// A response arrived but its body could not be read as text.
    ResponseBody,
}

impl ErrorKind {
    /// The prefix that names this stage in the rendered error text.
    pub open spec fn spec_prefix(self) -> Seq<char> {
        match self {
            ErrorKind::Parameters => "Parameters"@,
            ErrorKind::Client => "Client"@,
            ErrorKind::Reqwest => "Reqwest"@,
            ErrorKind::ResponseBody => "Result"@,
        }
    }

    pub fn prefix(&self) -> (r: &'static str)
        ensures
            r@ == self.spec_prefix(),
    {
        match self {
            ErrorKind::Parameters => "Parameters",
            ErrorKind::Client => "Client",
            ErrorKind::Reqwest => "Reqwest",
            ErrorKind::ResponseBody => "Result",
        }
    }
}

/// The error envelope: one JSON object whose `prtg.text` field reads
/// `<prefix>: <message>`.
pub open spec fn spec_error_json(pfix: Seq<char>, msg: Seq<char>) -> Seq<char> {
    "{\"prtg\": {\"error\": 1, \"text\": \""@ + pfix + ": "@ + msg + "\"}}"@
}

/// Renders the error envelope for a failed stage.
pub fn make_error(pfix: &str, message: &str) -> (r: String)
    ensures
        r@ == spec_error_json(pfix@, message@),
{
    let mut s = String::from_str("{\"prtg\": {\"error\": 1, \"text\": \"");
    s.append(pfix);
    s.append(": ");
    s.append(message);
    s.append("\"}}");
    s
}

/// What one invocation produced: either a response body, or a failure at
/// some stage with a descriptive message.
#[derive(Debug)]
pub enum Outcome {
    /// A response was received; any HTTP status counts as success and the
    /// body text passes through unchanged.
    Success(String),
    /// The invocation failed at the given stage.
    Failure(ErrorKind, String),
}

/// The exact line printed for an outcome: the body verbatim on success
/// (no wrapping, even if the body is not JSON), the error envelope on
/// failure.
pub open spec fn spec_render(o: Outcome) -> Seq<char> {
    match o {
        Outcome::Success(body) => body@,
        Outcome::Failure(kind, msg) => spec_error_json(kind.spec_prefix(), msg@),
    }
}

/// Renders the single line that the probe prints for an outcome.
pub fn render_outcome(o: Outcome) -> (r: String)
    ensures
        r@ == spec_render(o),
{
    match o {
        Outcome::Success(body) => body,
        Outcome::Failure(kind, msg) => make_error(kind.prefix(), msg.as_str()),
    }
}

} // verus!
