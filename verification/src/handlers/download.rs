//! `GET /v1/download/:app/:version/:platform`: resolving the request before
//! the release list is fetched.

use vstd::prelude::*;
use crate::config::{Config, has_app, is_first_app};
use crate::error::AppError;
use crate::manifest::Platform;

verus! {

/// What a download request asks for, once its path is resolved.
#[derive(Debug)]
pub struct DownloadTarget {
    /// The GitHub repository of the app.
    pub repo: String,
    pub platform: Platform,
}

/// Resolve the path of a download request: the app, then the platform.
pub fn plan_download(config: &Config, app_slug: &str, platform_str: &str) -> (r: Result<DownloadTarget, AppError>)
    ensures
        !has_app(config.apps@, app_slug@) ==> r matches Err(AppError::AppNotFound),
        has_app(config.apps@, app_slug@) && Platform::from_text(platform_str@) is None ==> r matches Err(
            AppError::InvalidPlatform,
        ),
        r is Ok <==> has_app(config.apps@, app_slug@) && Platform::from_text(platform_str@) is Some,
        r matches Ok(t) ==> {
            &&& Some(t.platform) == Platform::from_text(platform_str@)
            &&& exists|i: int| is_first_app(config.apps@, app_slug@, i) && t.repo@ == config.apps@[i].github_repo@
        },
{
    let i: usize = match config.app_index(app_slug) {
        Some(i) => i,
        None => return Err(AppError::AppNotFound),
    };
    let platform = match Platform::parse(platform_str) {
        Some(p) => p,
        None => return Err(AppError::InvalidPlatform),
    };
    Ok(DownloadTarget { repo: config.apps[i].github_repo.clone(), platform })
}

} // verus!
