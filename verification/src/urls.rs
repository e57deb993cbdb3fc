//! The URLs of a server.

use vstd::prelude::*;

use crate::checks::protocol_error;
use crate::failure::{
    failure, plain_failure, CallProofStage, FailureView, McpCallProofErrorCode, McpCallProofFailure,
};
use crate::prepared::outcome;
use crate::text::{optional_text, same_text};

verus! {

/// The parts of a URL that decisions are taken on.
#[derive(Debug)]
pub struct UrlParts {
    pub text: String,
    pub scheme: String,
    pub username: String,
    pub password: Option<String>,
    pub host: Option<String>,
    /// The port, or the one that the scheme implies.
    pub port: Option<u16>,
}

/// What a [`UrlParts`] says.
pub struct UrlView {
    pub text: Seq<char>,
    pub scheme: Seq<char>,
    pub username: Seq<char>,
    pub password: Option<Seq<char>>,
    pub host: Option<Seq<char>>,
    pub port: Option<u16>,
}

impl View for UrlParts {
    type V = UrlView;

    open spec fn view(&self) -> UrlView {
        UrlView {
            text: self.text@,
            scheme: self.scheme@,
            username: self.username@,
            password: optional_text(self.password),
            host: optional_text(self.host),
            port: self.port,
        }
    }
}

/// What an optional URL says.
pub open spec fn optional_url(url: Option<UrlParts>) -> Option<UrlView> {
    match url {
        Some(parts) => Some(parts@),
        None => None,
    }
}

/// The URL that `text` is, as `reqwest::Url::parse` reads it.
pub uninterp spec fn parsed_url(text: Seq<char>) -> Option<UrlView>;

/// The URL that `input` is when it is read relative to the URL `base`, as `reqwest::Url::join`
/// reads it.
pub uninterp spec fn joined_url(base: Seq<char>, input: Seq<char>) -> Option<UrlView>;

/// Calls `reqwest::Url::parse` and takes the parts of the URL out. What counts as a URL depends
/// on the text alone and is left to that function.
#[verifier::external_body]
fn parse_url(text: &str) -> (url: Option<UrlParts>)
    ensures
        optional_url(url) == parsed_url(text@),
{
    match reqwest::Url::parse(text) {
        Ok(url) => Some(UrlParts {
            text: url.to_string(),
            scheme: url.scheme().to_owned(),
            username: url.username().to_owned(),
            password: url.password().map(str::to_owned),
            host: url.host_str().map(str::to_owned),
            port: url.port_or_known_default(),
        }),
        Err(_) => None,
    }
}

/// Calls `reqwest::Url::join` on the URL that `base` is, and takes the parts of the URL out. What
/// it comes to depends on the two texts alone and is left to that function.
#[verifier::external_body]
fn join_url(base: &str, input: &str) -> (url: Option<UrlParts>)
    ensures
        optional_url(url) == joined_url(base@, input@),
{
    match reqwest::Url::parse(base).and_then(|base| base.join(input)) {
        Ok(url) => Some(UrlParts {
            text: url.to_string(),
            scheme: url.scheme().to_owned(),
            username: url.username().to_owned(),
            password: url.password().map(str::to_owned),
            host: url.host_str().map(str::to_owned),
            port: url.port_or_known_default(),
        }),
        Err(_) => None,
    }
}

/// Whether a URL carries no user and no password.
pub open spec fn without_credentials(url: UrlView) -> bool {
    url.username.len() == 0 && url.password is None
}

/// Whether a server may be reached at `url`.
pub open spec fn acceptable_url(url: UrlView) -> bool {
    (url.scheme == "http"@ || url.scheme == "https"@) && without_credentials(url)
}

/// What checking the URL of a server comes to.
pub open spec fn url_outcome(parsed: Option<UrlView>, transport: Seq<char>) -> Result<
    UrlView,
    FailureView,
> {
    match parsed {
        Some(url) if acceptable_url(url) => Ok(url),
        _ => Err(
            plain_failure(
                McpCallProofErrorCode::InvalidRequest,
                CallProofStage::Validate,
                transport,
            ),
        ),
    }
}

/// Whether two URLs have the same scheme, host and port.
pub open spec fn same_origin(left: UrlView, right: UrlView) -> bool {
    left.scheme == right.scheme && left.host == right.host && left.port == right.port
}

/// What the endpoint that an event stream names comes to: it must lie at the stream's own origin
/// and carry no credentials.
pub open spec fn endpoint_outcome(base: UrlView, endpoint: Option<UrlView>) -> Result<
    Seq<char>,
    FailureView,
> {
    match endpoint {
        None => Err(protocol_error(CallProofStage::Endpoint, "sse"@)),
        Some(url) => if same_origin(url, base) && without_credentials(url) {
            Ok(url.text)
        } else {
            Err(
                plain_failure(
                    McpCallProofErrorCode::RedirectRejected,
                    CallProofStage::Endpoint,
                    "sse"@,
                ),
            )
        },
    }
}

/// Checks the URL of a server once it has been read: it must be one of HTTP or HTTPS and carry no
/// credentials.
pub fn check_transport_url(parsed: Option<UrlParts>, transport: &'static str) -> (r: Result<
    UrlParts,
    McpCallProofFailure,
>)
    ensures
        outcome(r) == url_outcome(optional_url(parsed), transport@),
{
    if let Some(url) = parsed {
        if (same_text(url.scheme.as_str(), "http") || same_text(url.scheme.as_str(), "https"))
            && url.username.as_str().is_empty() && url.password.is_none() {
            return Ok(url);
        }
    }
    Err(failure(McpCallProofErrorCode::InvalidRequest, CallProofStage::Validate, transport))
}

/// Reads and checks the URL of a server.
pub fn validate_transport_url(url: &str, transport: &'static str) -> (r: Result<
    UrlParts,
    McpCallProofFailure,
>)
    ensures
        outcome(r) == url_outcome(parsed_url(url@), transport@),
{
    check_transport_url(parse_url(url), transport)
}

/// Whether two optional strings are the same.
fn same_optional(left: &Option<String>, right: &Option<String>) -> (same: bool)
    ensures
        same == (optional_text(*left) == optional_text(*right)),
{
    match (left, right) {
        (Some(a), Some(b)) => same_text(a.as_str(), b.as_str()),
        (None, None) => true,
        _ => false,
    }
}

/// Whether two optional ports are the same.
fn same_port(left: Option<u16>, right: Option<u16>) -> (same: bool)
    ensures
        same == (left == right),
{
    match (left, right) {
        (Some(a), Some(b)) => a == b,
        (None, None) => true,
        _ => false,
    }
}

/// Checks the endpoint that an event stream names once it has been read.
pub fn check_endpoint(base: &UrlParts, endpoint: Option<UrlParts>) -> (r: Result<
    String,
    McpCallProofFailure,
>)
    ensures
        outcome(r) == endpoint_outcome(base@, optional_url(endpoint)),
{
    match endpoint {
        None => Err(failure(McpCallProofErrorCode::ProtocolError, CallProofStage::Endpoint, "sse")),
        Some(url) => {
            if !same_text(url.scheme.as_str(), base.scheme.as_str())
                || !same_optional(&url.host, &base.host)
                || !same_port(url.port, base.port)
                || !url.username.as_str().is_empty() || url.password.is_some() {
                return Err(
                    failure(McpCallProofErrorCode::RedirectRejected, CallProofStage::Endpoint, "sse"),
                );
            }
            Ok(url.text)
        },
    }
}

/// The endpoint that `data` names in the event stream at `url`, whose parts are `base`.
pub fn resolve_endpoint(url: &str, base: &UrlParts, data: &str) -> (r: Result<
    String,
    McpCallProofFailure,
>)
    ensures
        outcome(r) == endpoint_outcome(base@, joined_url(url@, data@)),
{
    check_endpoint(base, join_url(url, data))
}

} // verus!
