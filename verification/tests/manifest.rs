use shipyard::github::{Asset, Release};
use shipyard::manifest::{find_assets, latest_release, latest_release_index, parse_tag, Channel, Platform};
use shipyard::version::SemVer;

fn make_release(tag: &str, prerelease: bool, draft: bool) -> Release {
    Release {
        tag_name: tag.to_string(),
        name: None,
        body: None,
        prerelease,
        draft,
        published_at: None,
        assets: vec![],
    }
}

fn asset(id: u64, name: &str) -> Asset {
    Asset {
        id,
        name: name.to_string(),
        browser_download_url: format!("https://example.com/{}", name),
        content_type: "application/octet-stream".to_string(),
        size: 10,
        url: format!("https://api.github.com/repos/owner/app/releases/assets/{}", id),
    }
}

#[test]
fn parse_tag_strips_v_prefix() {
    assert_eq!(parse_tag("v1.2.3"), Some(SemVer::new(1, 2, 3)));
    assert_eq!(parse_tag("1.2.3"), Some(SemVer::new(1, 2, 3)));
    assert!(parse_tag("not-a-version").is_none());
}

#[test]
fn latest_release_stable_skips_prerelease() {
    let releases = vec![
        make_release("v1.0.0", false, false),
        make_release("v1.1.0-beta.1", true, false),
        make_release("v0.9.0", false, false),
    ];
    let r = latest_release(&releases, Channel::Stable).unwrap();
    assert_eq!(r.tag_name, "v1.0.0");
}

#[test]
fn latest_release_beta_includes_prerelease() {
    let releases = vec![
        make_release("v1.0.0", false, false),
        make_release("v1.1.0-beta.1", true, false),
    ];
    let r = latest_release(&releases, Channel::Beta).unwrap();
    assert_eq!(r.tag_name, "v1.1.0-beta.1");
}

#[test]
fn latest_release_skips_drafts() {
    let releases = vec![
        make_release("v2.0.0", false, true), // draft
        make_release("v1.0.0", false, false),
    ];
    let r = latest_release(&releases, Channel::Stable).unwrap();
    assert_eq!(r.tag_name, "v1.0.0");
}

#[test]
fn latest_release_none_when_empty() {
    assert!(latest_release(&[], Channel::Stable).is_none());
}

#[test]
fn latest_release_respects_semver_ordering() {
    let releases = vec![
        make_release("v1.9.0", false, false),
        make_release("v1.10.0", false, false),
        make_release("v1.2.0", false, false),
    ];
    let r = latest_release(&releases, Channel::Stable).unwrap();
    assert_eq!(r.tag_name, "v1.10.0");
}

#[test]
fn platform_matches_binary_windows() {
    assert!(Platform::WindowsX86_64.matches_binary_asset("myapp_1.0.0_x64_en-US.msi"));
    assert!(Platform::WindowsX86_64.matches_binary_asset("myapp_1.0.0_x64-setup.exe"));
    assert!(!Platform::WindowsX86_64.matches_binary_asset("myapp_1.0.0_x64_en-US.msi.sig"));
    assert!(!Platform::WindowsX86_64.matches_binary_asset("myapp_1.0.0_x64-setup.exe.sig"));
}

#[test]
fn platform_matches_sig_linux() {
    assert!(Platform::LinuxX86_64.matches_sig_asset("myapp_1.0.0_amd64.AppImage.tar.gz.sig"));
    assert!(!Platform::LinuxX86_64.matches_sig_asset("myapp_1.0.0_amd64.AppImage.tar.gz"));
}

#[test]
fn find_assets_returns_pair() {
    let mut release = make_release("v1.0.0", false, false);
    release.assets = vec![
        Asset {
            id: 1,
            name: "app_1.0.0_amd64.AppImage.tar.gz".to_string(),
            browser_download_url: "https://example.com/app.tar.gz".to_string(),
            content_type: "application/gzip".to_string(),
            size: 1000,
            url: "https://api.github.com/repos/owner/app/releases/assets/1".to_string(),
        },
        Asset {
            id: 2,
            name: "app_1.0.0_amd64.AppImage.tar.gz.sig".to_string(),
            browser_download_url: "https://example.com/app.tar.gz.sig".to_string(),
            content_type: "text/plain".to_string(),
            size: 100,
            url: "https://api.github.com/repos/owner/app/releases/assets/2".to_string(),
        },
    ];

    let (bin, sig) = find_assets(&release, Platform::LinuxX86_64).unwrap();
    assert_eq!(bin.name, "app_1.0.0_amd64.AppImage.tar.gz");
    assert_eq!(sig.name, "app_1.0.0_amd64.AppImage.tar.gz.sig");
}

#[test]
fn find_assets_returns_none_when_missing() {
    let release = make_release("v1.0.0", false, false);
    assert!(find_assets(&release, Platform::LinuxX86_64).is_none());
}

#[test]
fn channel_parse_accepts_exactly_two_names() {
    assert_eq!(Channel::parse("stable"), Some(Channel::Stable));
    assert_eq!(Channel::parse("beta"), Some(Channel::Beta));
    assert_eq!(Channel::parse("nightly"), None);
    assert_eq!(Channel::parse("Stable"), None);
    assert_eq!(Channel::parse(""), None);
}

#[test]
fn platform_text_round_trips() {
    let all = [
        Platform::WindowsX86_64,
        Platform::DarwinX86_64,
        Platform::DarwinAarch64,
        Platform::LinuxX86_64,
    ];
    for p in all {
        assert_eq!(Platform::parse(p.as_str()), Some(p));
    }
    assert_eq!(Platform::WindowsX86_64.as_str(), "windows-x86_64");
    assert_eq!(Platform::DarwinX86_64.as_str(), "darwin-x86_64");
    assert_eq!(Platform::DarwinAarch64.as_str(), "darwin-aarch64");
    assert_eq!(Platform::LinuxX86_64.as_str(), "linux-x86_64");
    assert_eq!(Platform::parse("linux-arm64"), None);
}

#[test]
fn platform_sig_name_is_binary_name_with_sig() {
    let names = [
        (Platform::WindowsX86_64, "a_1.0.0_x64-setup.nsis.zip"),
        (Platform::WindowsX86_64, "a_1.0.0_x64_en-US.msi"),
        (Platform::WindowsX86_64, "a_1.0.0_x64-setup.exe"),
        (Platform::DarwinX86_64, "a_x64.app.tar.gz"),
        (Platform::DarwinAarch64, "a_aarch64.app.tar.gz"),
        (Platform::LinuxX86_64, "a_1.0.0_amd64.AppImage.tar.gz"),
    ];
    for (p, name) in names {
        assert!(p.matches_binary_asset(name));
        assert!(!p.matches_sig_asset(name));
        let sig = format!("{}.sig", name);
        assert!(p.matches_sig_asset(&sig));
        assert!(!p.matches_binary_asset(&sig));
    }
    assert!(!Platform::DarwinX86_64.matches_binary_asset("a_aarch64.app.tar.gz"));
    assert!(!Platform::LinuxX86_64.matches_binary_asset("a.AppImage"));
}

#[test]
fn latest_release_takes_last_of_equal_versions() {
    let releases = vec![
        make_release("v1.0.0", false, false),
        make_release("1.0.0", false, false),
        make_release("v0.1.0", false, false),
    ];
    assert_eq!(latest_release_index(&releases, Channel::Stable), Some(1));
}

#[test]
fn latest_release_release_beats_its_prerelease() {
    let releases = vec![
        make_release("v1.0.0", false, false),
        make_release("v1.0.0-rc.1", true, false),
        make_release("garbage", false, false),
    ];
    let r = latest_release(&releases, Channel::Beta).unwrap();
    assert_eq!(r.tag_name, "v1.0.0");
}

#[test]
fn latest_release_none_when_only_drafts_or_unparsable() {
    let releases = vec![
        make_release("v3.0.0", false, true),
        make_release("latest", false, false),
        make_release("v2.0.0-beta", true, false),
    ];
    assert!(latest_release(&releases, Channel::Stable).is_none());
    assert_eq!(latest_release(&releases, Channel::Beta).unwrap().tag_name, "v2.0.0-beta");
}

#[test]
fn find_assets_takes_first_signed_binary() {
    let mut release = make_release("v1.0.0", false, false);
    release.assets = vec![
        asset(1, "notes.txt"),
        asset(2, "a_x64.app.tar.gz.sig"),
        asset(3, "a_x64.app.tar.gz"),
        asset(4, "b_x64.app.tar.gz"),
        asset(5, "b_x64.app.tar.gz.sig"),
    ];
    let (bin, sig) = find_assets(&release, Platform::DarwinX86_64).unwrap();
    assert_eq!(bin.id, 3);
    assert_eq!(sig.id, 2);
    assert!(find_assets(&release, Platform::DarwinAarch64).is_none());
}

#[test]
fn find_assets_none_without_signature() {
    let mut release = make_release("v1.0.0", false, false);
    release.assets = vec![asset(1, "a_amd64.AppImage.tar.gz")];
    assert!(find_assets(&release, Platform::LinuxX86_64).is_none());
}

#[test]
fn beta_offers_a_release_whenever_stable_does() {
    let sets = vec![
        vec![make_release("v1.0.0", false, false)],
        vec![make_release("v1.0.0", false, true), make_release("v0.1.0", false, false)],
        vec![make_release("v2.0.0-rc.1", true, false), make_release("v1.0.0", false, false)],
    ];
    for releases in sets {
        assert!(latest_release(&releases, Channel::Stable).is_some());
        assert!(latest_release(&releases, Channel::Beta).is_some());
    }
}

#[test]
fn find_assets_pairs_each_binary_with_its_own_signature() {
    let mut release = make_release("v1.0.0", false, false);
    release.assets = vec![
        asset(1, "app_1.0.0_x64-setup.exe"),
        asset(2, "app_1.0.0_x64_en-US.msi"),
        asset(3, "app_1.0.0_x64_en-US.msi.sig"),
        asset(4, "app_1.0.0_x64-setup.exe.sig"),
    ];
    let (bin, sig) = find_assets(&release, Platform::WindowsX86_64).unwrap();
    assert_eq!(bin.name, "app_1.0.0_x64-setup.exe");
    assert_eq!(sig.name, "app_1.0.0_x64-setup.exe.sig");
}

#[test]
fn find_assets_skips_a_binary_without_its_signature() {
    let mut release = make_release("v1.0.0", false, false);
    release.assets = vec![
        asset(1, "app_1.0.0_x64-setup.exe"),
        asset(2, "app_1.0.0_x64_en-US.msi"),
        asset(3, "app_1.0.0_x64_en-US.msi.sig"),
    ];
    let (bin, sig) = find_assets(&release, Platform::WindowsX86_64).unwrap();
    assert_eq!(bin.id, 2);
    assert_eq!(sig.id, 3);
}

#[test]
fn platform_matches_nsis_windows_bundles() {
    assert!(Platform::WindowsX86_64.matches_binary_asset("myapp_1.0.0_x64-setup.nsis.zip"));
    assert!(Platform::WindowsX86_64.matches_sig_asset("myapp_1.0.0_x64-setup.nsis.zip.sig"));
    assert!(!Platform::WindowsX86_64.matches_binary_asset("myapp_1.0.0_x64-setup.nsis.zip.sig"));
    assert!(!Platform::WindowsX86_64.matches_sig_asset("myapp_1.0.0_x64-setup.nsis.zip"));
}

#[test]
fn latest_release_unchanged_by_drafts_and_non_versions() {
    let base = vec![
        make_release("v1.0.0", false, false),
        make_release("v1.2.0", false, false),
        make_release("v1.1.0", false, false),
    ];
    let mut more = base.clone();
    more.insert(0, make_release("v9.0.0", false, true));
    more.insert(2, make_release("nightly", false, false));
    more.push(make_release("v3.0.0-rc.1", true, false));
    let a = latest_release(&base, Channel::Stable).unwrap();
    let b = latest_release(&more, Channel::Stable).unwrap();
    assert_eq!(a.tag_name, b.tag_name);
}

#[test]
fn parse_tag_reads_back_version_text() {
    for text in ["1.2.3", "0.0.1-alpha.1", "10.20.30+build.7", "1.0.0-rc.1+x"] {
        let v = parse_tag(text).unwrap();
        assert_eq!(parse_tag(&v.to_text()), Some(parse_tag(text).unwrap()));
        assert_eq!(parse_tag(&format!("v{}", v.to_text())), Some(v));
    }
}
