//! Errors of the update and download endpoints, with the HTTP status and
//! body each one is answered with.

use vstd::prelude::*;

verus! {

/// Why a request could not be answered with an update or a download.
#[derive(Debug)]
pub enum AppError {
    AppNotFound,
    InvalidChannel,
    InvalidPlatform,
    NoUpdateAvailable,
    UpstreamError(String),
    /// An internal failure, holding its message.
    Internal(String),
}

/// `e` is an upstream error with the message `msg`.
pub open spec fn is_upstream(e: AppError, msg: Seq<char>) -> bool {
    e matches AppError::UpstreamError(m) && m@ == msg
}

/// `r` failed with an upstream error with the message `msg`.
pub open spec fn fails_upstream<T>(r: Result<T, AppError>, msg: Seq<char>) -> bool {
    r matches Err(e) && is_upstream(e, msg)
}

impl AppError {
    /// The HTTP status this error is answered with.
    pub open spec fn status(&self) -> u16 {
        match self {
            AppError::AppNotFound => 404,
            AppError::InvalidChannel => 400,
            AppError::InvalidPlatform => 400,
            AppError::NoUpdateAvailable => 204,
            AppError::UpstreamError(_) => 502,
            AppError::Internal(_) => 500,
        }
    }

    /// The `error` text of the JSON body; no body for "no update".
    pub open spec fn body_text(&self) -> Option<Seq<char>> {
        match self {
            AppError::AppNotFound => Some("app not found"@),
            AppError::InvalidChannel => Some("invalid channel"@),
            AppError::InvalidPlatform => Some("invalid platform"@),
            AppError::NoUpdateAvailable => None,
            AppError::UpstreamError(_) => Some("upstream error"@),
            AppError::Internal(_) => Some("internal error"@),
        }
    }

    /// The full description of the error.
    pub open spec fn description(&self) -> Seq<char> {
        match self {
            AppError::AppNotFound => "app not found"@,
            AppError::InvalidChannel => "invalid channel"@,
            AppError::InvalidPlatform => "invalid platform"@,
            AppError::NoUpdateAvailable => "no update available"@,
            AppError::UpstreamError(m) => "upstream error: "@ + m@,
            AppError::Internal(m) => "internal error: "@ + m@,
        }
    }

    /// The HTTP status code of the response for this error.
    pub fn status_code(&self) -> (r: u16)
        ensures
            r == self.status(),
    {
        match self {
            AppError::AppNotFound => 404,
            AppError::InvalidChannel => 400,
            AppError::InvalidPlatform => 400,
            AppError::NoUpdateAvailable => 204,
            AppError::UpstreamError(_) => 502,
            AppError::Internal(_) => 500,
        }
    }

    /// The text placed under `error` in the JSON response body, or `None`
    /// where the response has no body.
    pub fn body_message(&self) -> (r: Option<String>)
        ensures
            r is Some <==> self.body_text() is Some,
            r matches Some(t) ==> self.body_text() == Some(t@),
    {
        match self {
            AppError::AppNotFound => Some("app not found".to_string()),
            AppError::InvalidChannel => Some("invalid channel".to_string()),
            AppError::InvalidPlatform => Some("invalid platform".to_string()),
            AppError::NoUpdateAvailable => None,
            AppError::UpstreamError(_) => Some("upstream error".to_string()),
            AppError::Internal(_) => Some("internal error".to_string()),
        }
    }

    /// The description of the error, as it is logged.
    pub fn to_text(&self) -> (r: String)
        ensures
            r@ == self.description(),
    {
        match self {
            AppError::AppNotFound => "app not found".to_string(),
            AppError::InvalidChannel => "invalid channel".to_string(),
            AppError::InvalidPlatform => "invalid platform".to_string(),
            AppError::NoUpdateAvailable => "no update available".to_string(),
            AppError::UpstreamError(m) => {
                let mut s = "upstream error: ".to_string();
                s.append(m.as_str());
                s
            },
            AppError::Internal(m) => {
                let mut s = "internal error: ".to_string();
                s.append(m.as_str());
                s
            },
        }
    }
}

/// Every error response carries a JSON `error` body, except the answer
/// that no update is available, which is an empty 204.
pub proof fn law_error_body_unless_no_content(e: AppError)
    ensures
        e.body_text() is None <==> e.status() == 204,
        e.body_text() is None <==> e is NoUpdateAvailable,
{
}

/// Each status answers one kind of error: 404 an unknown app, 400 an
/// invalid channel or platform, 204 the absence of an update, 502 a failure
/// of GitHub and 500 an internal failure.
pub proof fn law_status_by_kind(e: AppError)
    ensures
        e.status() == 404 <==> e is AppNotFound,
        e.status() == 400 <==> (e is InvalidChannel || e is InvalidPlatform),
        e.status() == 204 <==> e is NoUpdateAvailable,
        e.status() == 502 <==> e is UpstreamError,
        e.status() == 500 <==> e is Internal,
{
}

} // verus!
