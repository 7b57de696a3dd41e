//! The error taxonomy of the engine.
//!
//! Every failure detected by a component bubbles unchanged to the caller:
//! a missing required target is `ConfigError`, a transport or API failure is
//! `ServiceError`, an execution that reached a failure terminal state is
//! `QueryFailed`, an unparsable result location is `InvalidResultUri`, and a
//! local filesystem failure during download is `IoError`.

use crate::text;
use vstd::prelude::*;

verus! {

/// A typed failure of the query engine.
#[derive(Debug)]
pub enum QueryError {
    /// A required configuration target (such as the database) was missing.
    ConfigError(String),
    /// The remote query service or object store reported a transport or API
    /// failure.
    ServiceError(String),
    /// The remote execution reached a failure terminal state; the payload is
    /// the service-reported reason.
    QueryFailed(String),
    /// The result location matched none of the supported address shapes.
    InvalidResultUri(String),
    /// A local filesystem failure during download.
    IoError(String),
}

impl QueryError {
    /// The user-facing text of the error: a category label followed by the
    /// detail carried by the variant.
    pub fn message(&self) -> (r: String)
        ensures
            r@ == self.message_spec(),
    {
        match self {
            QueryError::ConfigError(m) => text::concat2("configuration error: ", m.as_str()),
            QueryError::ServiceError(m) => text::concat2("service error: ", m.as_str()),
            QueryError::QueryFailed(m) => text::concat2("query failed: ", m.as_str()),
            QueryError::InvalidResultUri(m) => text::concat2(
                "invalid result location: ",
                m.as_str(),
            ),
            QueryError::IoError(m) => text::concat2("io error: ", m.as_str()),
        }
    }

    /// What `message` returns for each variant.
    pub open spec fn message_spec(&self) -> Seq<char> {
        match self {
            QueryError::ConfigError(m) => "configuration error: "@ + m@,
            QueryError::ServiceError(m) => "service error: "@ + m@,
            QueryError::QueryFailed(m) => "query failed: "@ + m@,
            QueryError::InvalidResultUri(m) => "invalid result location: "@ + m@,
            QueryError::IoError(m) => "io error: "@ + m@,
        }
    }

    /// The detail text the variant carries.
    pub fn detail(&self) -> (r: String)
        ensures
            r@ == self.detail_spec(),
    {
        match self {
            QueryError::ConfigError(m) => m.clone(),
            QueryError::ServiceError(m) => m.clone(),
            QueryError::QueryFailed(m) => m.clone(),
            QueryError::InvalidResultUri(m) => m.clone(),
            QueryError::IoError(m) => m.clone(),
        }
    }

    /// What `detail` returns for each variant.
    pub open spec fn detail_spec(&self) -> Seq<char> {
        match self {
            QueryError::ConfigError(m) => m@,
            QueryError::ServiceError(m) => m@,
            QueryError::QueryFailed(m) => m@,
            QueryError::InvalidResultUri(m) => m@,
            QueryError::IoError(m) => m@,
        }
    }
}

/// Whether an error's text looks like an authentication failure of the remote
/// service: any of the known credential-related markers occurs in it.
pub open spec fn auth_error_text_spec(s: Seq<char>) -> bool {
    ||| text::contains_seq(s, "ForbiddenException"@)
    ||| text::contains_seq(s, "AccessDenied"@)
    ||| text::contains_seq(s, "ExpiredToken"@)
    ||| text::contains_seq(s, "credentials"@)
    ||| text::contains_seq(s, "auth"@)
}

/// Whether rendered error text should be treated as an authentication
/// failure, by the markers the remote service is known to emit.
pub fn is_auth_error_text(s: &str) -> (r: bool)
    ensures
        r == auth_error_text_spec(s@),
{
    if text::contains_sub(s, "ForbiddenException") {
        return true;
    }
    if text::contains_sub(s, "AccessDenied") {
        return true;
    }
    if text::contains_sub(s, "ExpiredToken") {
        return true;
    }
    if text::contains_sub(s, "credentials") {
        return true;
    }
    text::contains_sub(s, "auth")
}

} // verus!
