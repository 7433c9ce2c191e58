use shipyard::error::AppError;

#[test]
fn error_statuses_and_bodies() {
    let cases = vec![
        (AppError::AppNotFound, 404, Some("app not found")),
        (AppError::InvalidChannel, 400, Some("invalid channel")),
        (AppError::InvalidPlatform, 400, Some("invalid platform")),
        (AppError::NoUpdateAvailable, 204, None),
        (AppError::UpstreamError("boom".to_string()), 502, Some("upstream error")),
        (AppError::Internal("disk".to_string()), 500, Some("internal error")),
    ];
    for (e, status, body) in cases {
        assert_eq!(e.status_code(), status);
        assert_eq!(e.body_message().as_deref(), body);
    }
}

#[test]
fn error_descriptions() {
    assert_eq!(AppError::NoUpdateAvailable.to_text(), "no update available");
    assert_eq!(AppError::AppNotFound.to_text(), "app not found");
    assert_eq!(AppError::UpstreamError("GitHub returned 404 Not Found".to_string()).to_text(), "upstream error: GitHub returned 404 Not Found");
    assert_eq!(AppError::Internal("x".to_string()).to_text(), "internal error: x");
}
