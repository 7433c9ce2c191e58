use shipyard::version::{parse_version, version_order, SemVer};

#[test]
fn version_text_matches_semver_display() {
    assert_eq!(SemVer::new(1, 2, 3).to_text(), "1.2.3");
    assert_eq!(SemVer::new(0, 0, 0).to_text(), "0.0.0");
    assert_eq!(SemVer::new(10, 200, 18446744073709551615).to_text(), "10.200.18446744073709551615");
    assert_eq!(parse_version("1.2.3-beta.1+build.5").unwrap().to_text(), "1.2.3-beta.1+build.5");
    assert_eq!(parse_version("4.0.0+x").unwrap().to_text(), "4.0.0+x");
}

#[test]
fn parse_version_rejects_non_semver() {
    assert!(parse_version("v1.2.3").is_none());
    assert!(parse_version("1.2").is_none());
    assert!(parse_version("1.0.01").is_none());
    assert!(parse_version("").is_none());
}

#[test]
fn version_order_follows_semver_precedence() {
    let v = |s: &str| parse_version(s).unwrap();
    assert_eq!(version_order(&v("1.9.0"), &v("1.10.0")), -1);
    assert_eq!(version_order(&v("2.0.0"), &v("1.99.99")), 1);
    assert_eq!(version_order(&v("1.0.0-alpha"), &v("1.0.0")), -1);
    assert_eq!(version_order(&v("1.0.0-alpha.1"), &v("1.0.0-alpha.beta")), -1);
    assert_eq!(version_order(&v("1.0.0-beta.11"), &v("1.0.0-beta.2")), 1);
    assert_eq!(version_order(&v("1.2.3"), &v("1.2.3")), 0);
}

#[test]
fn same_as_compares_every_part() {
    let v = |s: &str| parse_version(s).unwrap();
    assert!(v("1.2.3").same_as(&SemVer::new(1, 2, 3)));
    assert!(!v("1.2.3-rc").same_as(&SemVer::new(1, 2, 3)));
    assert!(!v("1.2.3+b").same_as(&SemVer::new(1, 2, 3)));
}
