//! Classified outcomes of one fetch, and the status line that mirrors each of them.
use vstd::prelude::*;

verus! {

/// Why a fetch did not produce a body to keep.
#[derive(Debug, Clone, PartialEq, Eq)]
pub enum FetchError {
    /// The input could not be split into a non-empty scheme and a non-empty rest;
    /// no request was sent.
    InvalidUrlFormat,
    /// The response declared a content type outside the allowed set (lower-cased);
    /// the body was not downloaded.
    Skipped(String),
    /// HTTP status 403, or a body carrying the "403 Forbidden" marker.
    Forbidden,
    /// The body looks like an anti-bot or edge-provider block page.
    BlockedByErrorPage,
    /// The request or the body download failed at the transport layer.
    TransportFailure(String),
}

/// The outcome keyword of a status line.
#[derive(Debug, Clone, Copy, PartialEq, Eq)]
pub enum StatusKind {
    Success,
    Skipped,
    Failed,
}

/// One status line: the outcome keyword and an optional detail.
#[derive(Debug, Clone, PartialEq, Eq)]
pub struct StatusReport {
    pub kind: StatusKind,
    pub detail: Option<String>,
}

/// The channel name that every status line of this fetcher carries.
pub fn channel() -> (r: &'static str)
    ensures
        r@ == "TUNNEL"@,
{
    "TUNNEL"
}

/// The keyword and detail reported for an outcome; `None` for an invalid URL,
/// which is returned to the caller without any report.
pub open spec fn report_spec(outcome: Result<String, FetchError>) -> Option<(StatusKind, Option<Seq<char>>)> {
    match outcome {
        Ok(_) => Some((StatusKind::Success, None)),
        Err(FetchError::InvalidUrlFormat) => None,
        Err(FetchError::Skipped(ct)) => Some((StatusKind::Skipped, Some(ct@))),
        Err(FetchError::Forbidden) => Some((StatusKind::Failed, Some("403 Forbidden"@))),
        Err(FetchError::BlockedByErrorPage) => Some(
            (StatusKind::Failed, Some("Cloudflare error detected"@)),
        ),
        Err(FetchError::TransportFailure(d)) => Some((StatusKind::Failed, Some(d@))),
    }
}

/// The view of a status line.
pub open spec fn report_view(r: StatusReport) -> (StatusKind, Option<Seq<char>>) {
    (
        r.kind,
        match r.detail {
            Some(d) => Some(d@),
            None => None,
        },
    )
}

/// The status line that mirrors a terminal outcome.
pub fn status_report(outcome: &Result<String, FetchError>) -> (r: Option<StatusReport>)
    ensures
        match r {
            Some(rep) => report_spec(*outcome) == Some(report_view(rep)),
            None => report_spec(*outcome) is None,
        },
{
    match outcome {
        Ok(_) => Some(StatusReport { kind: StatusKind::Success, detail: None }),
        Err(FetchError::InvalidUrlFormat) => None,
        Err(FetchError::Skipped(ct)) => Some(
            StatusReport { kind: StatusKind::Skipped, detail: Some(ct.clone()) },
        ),
        Err(FetchError::Forbidden) => Some(
            StatusReport {
                kind: StatusKind::Failed,
                detail: Some(String::from_str("403 Forbidden")),
            },
        ),
        Err(FetchError::BlockedByErrorPage) => Some(
            StatusReport {
                kind: StatusKind::Failed,
                detail: Some(String::from_str("Cloudflare error detected")),
            },
        ),
        Err(FetchError::TransportFailure(d)) => Some(
            StatusReport { kind: StatusKind::Failed, detail: Some(d.clone()) },
        ),
    }
}

} // verus!
