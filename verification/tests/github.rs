use shipyard::error::AppError;
use shipyard::github::{
    asset_redirect_target, bearer_value, request_headers, GithubRequest, check_releases_status, check_sig_status, releases_api_url, status_text,
};

fn upstream_message<T>(r: Result<T, AppError>) -> String {
    match r {
        Err(AppError::UpstreamError(m)) => m,
        _ => panic!("expected an upstream error"),
    }
}

#[test]
fn status_text_is_code_and_reason() {
    assert_eq!(status_text(404), "404 Not Found");
    assert_eq!(status_text(200), "200 OK");
    assert_eq!(status_text(299), "299 <unknown status code>");
}

#[test]
fn releases_status_rate_limit_and_errors() {
    assert_eq!(upstream_message(check_releases_status(403)), "GitHub rate limit exceeded");
    assert_eq!(upstream_message(check_releases_status(429)), "GitHub rate limit exceeded");
    assert_eq!(upstream_message(check_releases_status(404)), "GitHub returned 404 Not Found");
    assert_eq!(upstream_message(check_releases_status(301)), "GitHub returned 301 Moved Permanently");
    assert!(check_releases_status(200).is_ok());
}

#[test]
fn sig_status_errors_name_the_status() {
    assert_eq!(
        upstream_message(check_sig_status(500)),
        "GitHub returned 500 Internal Server Error for sig asset"
    );
    assert!(check_sig_status(200).is_ok());
}

#[test]
fn redirect_location_is_returned_as_is() {
    let signed = "http://127.0.0.2:8080/sink?sig=abc".to_string();
    assert_eq!(asset_redirect_target(302, Some(signed.clone())).unwrap(), signed);
}

#[test]
fn redirect_rejects_non_redirect_status() {
    assert_eq!(
        upstream_message(asset_redirect_target(200, Some("x".to_string()))),
        "expected redirect for asset, got 200 OK"
    );
    assert!(matches!(asset_redirect_target(404, None), Err(AppError::UpstreamError(_))));
}

#[test]
fn redirect_without_location_is_an_error() {
    assert_eq!(
        upstream_message(asset_redirect_target(302, None)),
        "asset redirect had no usable Location header"
    );
}

#[test]
fn api_url_and_bearer_header() {
    assert_eq!(releases_api_url("owner/app"), "https://api.github.com/repos/owner/app/releases?per_page=100");
    assert_eq!(bearer_value("SUPER-SECRET-TOKEN"), "Bearer SUPER-SECRET-TOKEN");
}

#[test]
fn request_headers_for_each_kind() {
    let h = request_headers("T", GithubRequest::ReleaseList);
    assert_eq!(
        h,
        vec![
            ("authorization".to_string(), "Bearer T".to_string()),
            ("user-agent".to_string(), "shipyard/0.1".to_string()),
            ("accept".to_string(), "application/vnd.github+json".to_string()),
            ("x-github-api-version".to_string(), "2022-11-28".to_string()),
        ]
    );
    let h = request_headers("T", GithubRequest::AssetContent);
    assert_eq!(h[2].1, "application/octet-stream");
}
