//! GitHub releases and assets, and the decisions taken on the answers of the
//! GitHub API.

use vstd::prelude::*;
use crate::error::{AppError, fails_upstream};
use crate::version::{decimal, push_decimal};

verus! {

/// A GitHub release as returned by the Releases API.
#[derive(Debug, Clone)]
pub struct Release {
    pub tag_name: String,
    pub name: Option<String>,
    pub body: Option<String>,
    pub prerelease: bool,
    pub draft: bool,
    pub published_at: Option<String>,
    pub assets: Vec<Asset>,
}

/// A single asset attached to a release.
#[derive(Debug, Clone)]
pub struct Asset {
    pub id: u64,
    pub name: String,
    pub browser_download_url: String,
    /// MIME type reported by GitHub.
    pub content_type: String,
    pub size: u64,
    pub url: String,
}

/// A 2xx status.
pub open spec fn is_success_status(code: u16) -> bool {
    200 <= code < 300
}

/// A 3xx status.
pub open spec fn is_redirect_status(code: u16) -> bool {
    300 <= code < 400
}

/// What `canonical_reason` of `reqwest::StatusCode` gives for a code.
pub uninterp spec fn http_reason(code: u16) -> Option<Seq<char>>;

/// Calls `canonical_reason` of `reqwest::StatusCode` on the status of the
/// code (made by `from_u16`); claims that the result is the named reason
/// phrase of the code.
#[verifier::external_body]
fn canonical_reason(code: u16) -> (r: Option<String>)
    requires
        100 <= code <= 999,
    ensures
        r is Some <==> http_reason(code) is Some,
        r matches Some(t) ==> http_reason(code) == Some(t@),
{
    match reqwest::StatusCode::from_u16(code) {
        Ok(status) => match status.canonical_reason() {
            Some(t) => Some(t.to_string()),
            None => None,
        },
        Err(_) => None,
    }
}

/// The text that `Display` of a status code writes: the number, a space
/// and the reason phrase.
pub open spec fn status_display(code: u16) -> Seq<char> {
    decimal(code as nat) + " "@ + match http_reason(code) {
        Some(t) => t,
        None => "<unknown status code>"@,
    }
}

/// The display text of an HTTP status code, such as `404 Not Found`.
pub fn status_text(code: u16) -> (r: String)
    requires
        100 <= code <= 999,
    ensures
        r@ == status_display(code),
{
    let mut s = String::new();
    push_decimal(&mut s, code as u64);
    s.append(" ");
    match canonical_reason(code) {
        Some(t) => s.append(t.as_str()),
        None => s.append("<unknown status code>"),
    }
    s
}

/// The Releases API address of a repository (`owner/repo`).
pub fn releases_api_url(repo: &str) -> (r: String)
    ensures
        r@ == "https://api.github.com/repos/"@ + repo@ + "/releases?per_page=100"@,
{
    let mut s = "https://api.github.com/repos/".to_string();
    s.append(repo);
    s.append("/releases?per_page=100");
    s
}

/// The `Authorization` header value that carries the token.
pub fn bearer_value(token: &str) -> (r: String)
    ensures
        r@ == "Bearer "@ + token@,
{
    let mut s = "Bearer ".to_string();
    s.append(token);
    s
}

/// The kinds of request sent to the GitHub API.
#[derive(Debug, Clone, Copy, PartialEq, Eq, Structural)]
pub enum GithubRequest {
    /// The list of a repository's releases, as JSON.
    ReleaseList,
    /// The content of a release asset.
    AssetContent,
}

/// The media type a request asks GitHub for.
pub open spec fn accept_text(kind: GithubRequest) -> Seq<char> {
    match kind {
        GithubRequest::ReleaseList => "application/vnd.github+json"@,
        GithubRequest::AssetContent => "application/octet-stream"@,
    }
}

/// The headers of a request to the GitHub API, as (name, value) pairs: the
/// bearer token, the user agent, the accepted media type and the API
/// version.
pub fn request_headers(token: &str, kind: GithubRequest) -> (r: Vec<(String, String)>)
    ensures
        r@.len() == 4,
        r@[0].0@ == "authorization"@ && r@[0].1@ == "Bearer "@ + token@,
        r@[1].0@ == "user-agent"@ && r@[1].1@ == "shipyard/0.1"@,
        r@[2].0@ == "accept"@ && r@[2].1@ == accept_text(kind),
        r@[3].0@ == "x-github-api-version"@ && r@[3].1@ == "2022-11-28"@,
{
    let accept = match kind {
        GithubRequest::ReleaseList => "application/vnd.github+json".to_string(),
        GithubRequest::AssetContent => "application/octet-stream".to_string(),
    };
    let mut headers: Vec<(String, String)> = Vec::new();
    headers.push(("authorization".to_string(), bearer_value(token)));
    headers.push(("user-agent".to_string(), "shipyard/0.1".to_string()));
    headers.push(("accept".to_string(), accept));
    headers.push(("x-github-api-version".to_string(), "2022-11-28".to_string()));
    headers
}

/// The decision on the status of a Releases API answer: a rate limit (403
/// or 429) and any other non-2xx status are upstream errors.
pub fn check_releases_status(status: u16) -> (r: Result<(), AppError>)
    requires
        100 <= status <= 999,
    ensures
        (status == 403 || status == 429) ==> fails_upstream(r, "GitHub rate limit exceeded"@),
        !(status == 403 || status == 429) && !is_success_status(status) ==> fails_upstream(r, "GitHub returned "@ + status_display(status)),
        r is Ok <==> is_success_status(status),
{
    if status == 403 || status == 429 {
        return Err(AppError::UpstreamError("GitHub rate limit exceeded".to_string()));
    }
    if !(200 <= status && status < 300) {
        let mut m = "GitHub returned ".to_string();
        m.append(status_text(status).as_str());
        return Err(AppError::UpstreamError(m));
    }
    Ok(())
}

/// The decision on the status of the answer to a signature download: any
/// non-2xx status is an upstream error.
pub fn check_sig_status(status: u16) -> (r: Result<(), AppError>)
    requires
        100 <= status <= 999,
    ensures
        r is Ok <==> is_success_status(status),
        !is_success_status(status) ==> fails_upstream(r, "GitHub returned "@ + status_display(status) + " for sig asset"@),
{
    if !(200 <= status && status < 300) {
        let mut m = "GitHub returned ".to_string();
        m.append(status_text(status).as_str());
        m.append(" for sig asset");
        return Err(AppError::UpstreamError(m));
    }
    Ok(())
}

/// The decision on the answer to an asset download request sent without
/// following redirects: only a 3xx answer with a readable `Location` header
/// yields a target, which is that header exactly.
pub fn asset_redirect_target(status: u16, location: Option<String>) -> (r: Result<String, AppError>)
    requires
        100 <= status <= 999,
    ensures
        !is_redirect_status(status) ==> fails_upstream(r, "expected redirect for asset, got "@ + status_display(status)),
        is_redirect_status(status) && location is None ==> fails_upstream(r, "asset redirect had no usable Location header"@),
        r is Ok <==> is_redirect_status(status) && location is Some,
        r matches Ok(t) ==> location == Some(t),
{
    if !(300 <= status && status < 400) {
        let mut m = "expected redirect for asset, got ".to_string();
        m.append(status_text(status).as_str());
        return Err(AppError::UpstreamError(m));
    }
    match location {
        Some(l) => Ok(l),
        None => Err(AppError::UpstreamError("asset redirect had no usable Location header".to_string())),
    }
}

} // verus!
