//! Read-only introspection of rpm-ostree client-side state: a resilient
//! snapshot query that tolerates transient failures of the external
//! status command through bounded retry, and decodes its JSON output
//! into a typed, all-or-nothing snapshot of the system's deployments.
//!
//! The core is split as the behaviour is: `invoke` holds the retry
//! policy, `json` the document model with the trusted parse boundary,
//! `decode` the schema, and this root the error collapse and the facade.

use vstd::prelude::*;
use vstd::string::StringExecFns;

pub mod decode;
pub mod invoke;
pub mod json;

pub use decode::{Deployment, Status};

verus! {

/// Classified reason for a failed status query, kept while the two
/// components (invoker and decoder) hand results around.
#[derive(Debug)]
pub enum QueryFailure {
    /// The status command could not be launched at all; not retryable.
    SpawnFailure(String),
    /// The status command ran but still exited non-zero once the retry
    /// budget was spent; carries the captured stderr of the final attempt.
    CommandFailure(Vec<u8>),
    /// The command's stdout was not valid data matching the status schema.
    DecodeFailure(String),
}

/// Mathematical model of a `QueryFailure`.
pub enum QueryFailureV {
    SpawnFailure(Seq<char>),
    CommandFailure(Seq<u8>),
    DecodeFailure(Seq<char>),
}

impl View for QueryFailure {
    type V = QueryFailureV;

    open spec fn view(&self) -> QueryFailureV {
        match self {
            QueryFailure::SpawnFailure(m) => QueryFailureV::SpawnFailure(m@),
            QueryFailure::CommandFailure(b) => QueryFailureV::CommandFailure(b@),
            QueryFailure::DecodeFailure(m) => QueryFailureV::DecodeFailure(m@),
        }
    }
}

/// Catch-all fatal error, expected to be shown on a terminal or in logs.
/// At this outer layer the three failure kinds survive only as the text
/// of the message, not as a matchable kind.
#[derive(Debug)]
pub struct Error {
    msg: String,
}

impl View for Error {
    type V = Seq<char>;

    closed spec fn view(&self) -> Seq<char> {
        self.msg@
    }
}

/// The message a given failure collapses to at the facade boundary.
pub open spec fn spec_collapsed_message(f: QueryFailureV) -> Seq<char> {
    match f {
        QueryFailureV::SpawnFailure(_) => "failed to spawn 'rpm-ostree status'"@,
        QueryFailureV::CommandFailure(stderr) => "running 'rpm-ostree status' failed: "@
            + lossy_of(stderr),
        QueryFailureV::DecodeFailure(_) => "failed to parse 'rpm-ostree status' output"@,
    }
}

/// What `String::from_utf8_lossy` decodes a given byte sequence to.
pub uninterp spec fn lossy_of(b: Seq<u8>) -> Seq<char>;

/// Relies on `String::from_utf8_lossy`: the decoded text depends on the
/// bytes alone (invalid sequences become replacement characters).
#[verifier::external_body]
fn lossy_string(b: &Vec<u8>) -> (r: String)
    ensures
        r@ == lossy_of(b@),
{
    String::from_utf8_lossy(b).into_owned()
}

impl Error {
    /// The human-readable message this error carries.
    pub fn message(&self) -> (r: &String)
        ensures
            r@ == self@,
    {
        &self.msg
    }

    /// Collapse a classified failure into the single displayable error.
    pub fn from_failure(f: QueryFailure) -> (e: Error)
        ensures
            e@ == spec_collapsed_message(f@),
    {
        match f {
            QueryFailure::SpawnFailure(_) => Error {
                msg: String::from_str("failed to spawn 'rpm-ostree status'"),
            },
            QueryFailure::CommandFailure(stderr) => {
                let mut m = String::from_str("running 'rpm-ostree status' failed: ");
                let tail = lossy_string(&stderr);
                m.append(tail.as_str());
                Error { msg: m }
            },
            QueryFailure::DecodeFailure(_) => Error {
                msg: String::from_str("failed to parse 'rpm-ostree status' output"),
            },
        }
    }
}

/// What the whole query yields on a given sequence of attempt outcomes:
/// the decoded snapshot, or the collapsed error message.
pub open spec fn spec_query(s: Seq<invoke::AttemptV>) -> Result<decode::StatusV, Seq<char>>
    recommends
        s.len() >= 1,
{
    match invoke::spec_invoke(s) {
        Ok(bytes) => match decode::spec_decode(bytes) {
            Some(st) => Ok(st),
            None => Err("failed to parse 'rpm-ostree status' output"@),
        },
        Err(f) => Err(spec_collapsed_message(f)),
    }
}

/// Gather a snapshot of the system status.
///
/// The caller performs the external command runs itself and supplies the
/// outcome of each successive attempt, at least one, and enough of them
/// for the retry policy (a terminal outcome, or `MAX_ATTEMPTS` entries;
/// a shorter all-failing sequence reads as a command that could not be
/// retried further).  The retry policy picks the attempt to stand for the
/// run, its stdout is decoded, and any failure collapses into a single
/// displayable `Error`.
pub fn query_status(attempts: Vec<invoke::Attempt>) -> (r: Result<decode::Status, Error>)
    requires
        attempts@.len() >= 1,
    ensures
        r matches Ok(st) ==> spec_query(invoke::attempts_view(attempts@)) == Ok::<
            decode::StatusV,
            Seq<char>,
        >(st@),
        r matches Err(e) ==> spec_query(invoke::attempts_view(attempts@)) == Err::<
            decode::StatusV,
            Seq<char>,
        >(e@),
{
    let (raw, _pauses) = invoke::run_attempts(attempts);
    match raw {
        Ok(bytes) => match decode::decode(bytes.as_slice()) {
            Ok(st) => Ok(st),
            Err(f) => Err(Error::from_failure(f)),
        },
        Err(f) => Err(Error::from_failure(f)),
    }
}

} // verus!

