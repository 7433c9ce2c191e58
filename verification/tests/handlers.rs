use shipyard::config::{AppConfig, Config, GithubConfig, ServerConfig};
use shipyard::error::AppError;
use shipyard::github::{Asset, Release};
use shipyard::handlers::download::plan_download;
use shipyard::handlers::update::{
    build_update_manifest, choose_update, find_release_by_version, plan_update, select_asset_url, UpdateChoice,
};
use shipyard::manifest::{Channel, Platform};

fn config() -> Config {
    Config {
        server: ServerConfig::default(),
        github: GithubConfig::default(),
        apps: vec![
            AppConfig {
                slug: "myapp".to_string(),
                github_repo: "owner/myapp".to_string(),
                display_name: "My App".to_string(),
            },
            AppConfig {
                slug: "myapp".to_string(),
                github_repo: "owner/other".to_string(),
                display_name: "Shadowed".to_string(),
            },
        ],
    }
}

fn asset(id: u64, name: &str) -> Asset {
    Asset {
        id,
        name: name.to_string(),
        browser_download_url: format!("https://example.com/{}", name),
        content_type: "application/octet-stream".to_string(),
        size: 10,
        url: format!("https://api.github.com/repos/owner/myapp/releases/assets/{}", id),
    }
}

fn release(tag: &str, prerelease: bool, assets: Vec<Asset>) -> Release {
    Release {
        tag_name: tag.to_string(),
        name: None,
        body: None,
        prerelease,
        draft: false,
        published_at: None,
        assets,
    }
}

fn releases() -> Vec<Release> {
    vec![
        release("v1.0.0", false, vec![asset(1, "a_1.0.0_amd64.AppImage.tar.gz"), asset(2, "a_1.0.0_amd64.AppImage.tar.gz.sig")]),
        release("v1.1.0", false, vec![asset(3, "a_1.1.0_amd64.AppImage.tar.gz"), asset(4, "a_1.1.0_amd64.AppImage.tar.gz.sig")]),
        release("v1.2.0-beta.1", true, vec![asset(5, "a_1.2.0_amd64.AppImage.tar.gz")]),
    ]
}

#[test]
fn config_defaults() {
    assert_eq!(ServerConfig::default().bind, "0.0.0.0:8080");
    assert_eq!(GithubConfig::default().cache_ttl_seconds, 60);
    let c = Config::default();
    assert_eq!(c.server.bind, "0.0.0.0:8080");
    assert_eq!(c.github.cache_ttl_seconds, 60);
    assert!(c.apps.is_empty());
}

#[test]
fn find_app_takes_first_with_slug() {
    let c = config();
    assert_eq!(c.find_app("myapp").unwrap().github_repo, "owner/myapp");
    assert!(c.find_app("nope").is_none());
}

#[test]
fn plan_update_checks_app_then_channel_then_platform() {
    let c = config();
    assert!(matches!(plan_update(&c, "nope", "bad", "bad"), Err(AppError::AppNotFound)));
    assert!(matches!(plan_update(&c, "myapp", "bad", "bad"), Err(AppError::InvalidChannel)));
    assert!(matches!(plan_update(&c, "myapp", "beta", "bad"), Err(AppError::InvalidPlatform)));
    let t = plan_update(&c, "myapp", "beta", "linux-x86_64").unwrap();
    assert_eq!(t.repo, "owner/myapp");
    assert_eq!(t.channel, Channel::Beta);
    assert_eq!(t.platform, Platform::LinuxX86_64);
}

#[test]
fn plan_download_checks_app_then_platform() {
    let c = config();
    assert!(matches!(plan_download(&c, "nope", "bad"), Err(AppError::AppNotFound)));
    assert!(matches!(plan_download(&c, "myapp", "bad"), Err(AppError::InvalidPlatform)));
    let t = plan_download(&c, "myapp", "darwin-aarch64").unwrap();
    assert_eq!(t.repo, "owner/myapp");
    assert_eq!(t.platform, Platform::DarwinAarch64);
}

fn picked(r: Result<UpdateChoice, AppError>) -> (usize, usize, String) {
    let c = r.unwrap();
    (c.release, c.signature, c.signature_url)
}

#[test]
fn choose_update_offers_latest_with_signature() {
    let rs = releases();
    let sig_url = "https://api.github.com/repos/owner/myapp/releases/assets/4".to_string();
    assert_eq!(picked(choose_update(&rs, Channel::Stable, Platform::LinuxX86_64, None)), (1, 1, sig_url.clone()));
    assert_eq!(picked(choose_update(&rs, Channel::Stable, Platform::LinuxX86_64, Some("1.0.5"))), (1, 1, sig_url.clone()));
    assert_eq!(picked(choose_update(&rs, Channel::Stable, Platform::LinuxX86_64, Some("garbage"))), (1, 1, sig_url));
}

#[test]
fn choose_update_takes_the_binarys_own_signature() {
    let rs = vec![release(
        "v1.0.0",
        false,
        vec![
            asset(1, "app_1.0.0_x64-setup.exe"),
            asset(2, "app_1.0.0_x64_en-US.msi"),
            asset(3, "app_1.0.0_x64_en-US.msi.sig"),
            asset(4, "app_1.0.0_x64-setup.exe.sig"),
        ],
    )];
    let (r, s, url) = picked(choose_update(&rs, Channel::Stable, Platform::WindowsX86_64, None));
    assert_eq!((r, s), (0, 3));
    assert_eq!(url, "https://api.github.com/repos/owner/myapp/releases/assets/4");
}

#[test]
fn choose_update_none_when_up_to_date() {
    let rs = releases();
    assert!(matches!(
        choose_update(&rs, Channel::Stable, Platform::LinuxX86_64, Some("1.1.0")),
        Err(AppError::NoUpdateAvailable)
    ));
    assert!(matches!(
        choose_update(&rs, Channel::Stable, Platform::LinuxX86_64, Some("2.0.0")),
        Err(AppError::NoUpdateAvailable)
    ));
}

#[test]
fn choose_update_none_without_assets_or_releases() {
    let rs = releases();
    // the beta channel's latest release has no signature
    assert!(matches!(
        choose_update(&rs, Channel::Beta, Platform::LinuxX86_64, None),
        Err(AppError::NoUpdateAvailable)
    ));
    assert!(matches!(
        choose_update(&rs, Channel::Stable, Platform::WindowsX86_64, None),
        Err(AppError::NoUpdateAvailable)
    ));
    assert!(matches!(choose_update(&[], Channel::Stable, Platform::LinuxX86_64, None), Err(AppError::NoUpdateAvailable)));
}

#[test]
fn manifest_points_to_download_of_same_version() {
    let mut r = release("v1.2.3", false, vec![]);
    r.body = Some("notes here".to_string());
    r.published_at = Some("2026-05-10T12:00:00Z".to_string());
    let m = build_update_manifest("https://ship.example.com", "myapp", &r, Platform::LinuxX86_64, "SIG".to_string());
    assert_eq!(m.version, "1.2.3");
    assert_eq!(m.notes, "notes here");
    assert_eq!(m.pub_date, "2026-05-10T12:00:00Z");
    assert_eq!(m.platforms.len(), 1);
    assert_eq!(m.platforms[0].0, "linux-x86_64");
    assert_eq!(m.platforms[0].1.signature, "SIG");
    assert_eq!(m.platforms[0].1.url, "https://ship.example.com/v1/download/myapp/1.2.3/linux-x86_64");
}

#[test]
fn manifest_defaults_and_unparsable_tag() {
    let r = release("vvnightly", false, vec![]);
    let m = build_update_manifest("http://0.0.0.0:8080", "app", &r, Platform::DarwinAarch64, String::new());
    assert_eq!(m.version, "nightly");
    assert_eq!(m.notes, "");
    assert_eq!(m.pub_date, "1970-01-01T00:00:00Z");
    assert_eq!(m.platforms[0].1.url, "http://0.0.0.0:8080/v1/download/app/nightly/darwin-aarch64");
}

#[test]
fn find_release_by_version_matches_tags_with_or_without_v() {
    let rs = vec![release("v1.0.0", false, vec![]), release("2.0.0", false, vec![]), release("v2.0.0", false, vec![])];
    assert_eq!(find_release_by_version(&rs, "1.0.0").unwrap().tag_name, "v1.0.0");
    assert_eq!(find_release_by_version(&rs, "2.0.0").unwrap().tag_name, "2.0.0");
    assert!(find_release_by_version(&rs, "v1.0.0").is_none());
    assert!(find_release_by_version(&rs, "3.0.0").is_none());
}

#[test]
fn select_asset_url_gives_binary_api_url() {
    let rs = releases();
    assert_eq!(
        select_asset_url(&rs, "1.1.0", Platform::LinuxX86_64).unwrap(),
        "https://api.github.com/repos/owner/myapp/releases/assets/3"
    );
    assert!(matches!(select_asset_url(&rs, "1.2.0-beta.1", Platform::LinuxX86_64), Err(AppError::NoUpdateAvailable)));
    assert!(matches!(select_asset_url(&rs, "9.9.9", Platform::LinuxX86_64), Err(AppError::NoUpdateAvailable)));
    assert!(matches!(select_asset_url(&rs, "1.1.0", Platform::DarwinX86_64), Err(AppError::NoUpdateAvailable)));
}

#[test]
fn select_asset_url_needs_the_signature() {
    let rs = vec![release("v1.0.0", false, vec![asset(7, "a_x64.app.tar.gz"), asset(8, "b_x64.app.tar.gz.sig")])];
    assert!(matches!(select_asset_url(&rs, "1.0.0", Platform::DarwinX86_64), Err(AppError::NoUpdateAvailable)));
}

#[test]
fn manifest_version_resolves_to_the_offered_release() {
    let rs = releases();
    let c = choose_update(&rs, Channel::Stable, Platform::LinuxX86_64, None).unwrap();
    let m = build_update_manifest("http://h", "myapp", &rs[c.release], Platform::LinuxX86_64, String::new());
    let found = find_release_by_version(&rs, &m.version).unwrap();
    assert_eq!(found.tag_name, rs[c.release].tag_name);
    assert_eq!(
        select_asset_url(&rs, &m.version, Platform::LinuxX86_64).unwrap(),
        "https://api.github.com/repos/owner/myapp/releases/assets/3"
    );
}
