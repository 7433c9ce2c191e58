//! `GET /v1/update/:app/:channel/:platform`: which release to offer and the
//! manifest that offers it.

use vstd::prelude::*;
use crate::config::{Config, has_app, is_first_app};
use crate::error::AppError;
use crate::github::Release;
use crate::manifest::{
    Channel, Platform, PlatformEntry, UpdateManifest, build_platform_entry, find_signed_pair, has_signed_binary,
    is_first_pair, is_latest_at, latest_release_index, law_platform_text_round_trip, no_candidate, parse_tag,
    release_version, tag_version,
};
use crate::text::{ends_with, lemma_ends_with_concat};
use crate::version::{VersionParts, parse_version, semver_order, semver_parse, version_order, version_text};

verus! {

/// The query string of an update request.
#[derive(Debug)]
pub struct UpdateQuery {
    pub current_version: Option<String>,
}

/// What an update request asks for, once its path is resolved.
#[derive(Debug)]
pub struct UpdateTarget {
    /// The GitHub repository of the app.
    pub repo: String,
    pub channel: Channel,
    pub platform: Platform,
}

/// Resolve the path of an update request: the app, then the channel, then
/// the platform, each failing with its own error.
pub fn plan_update(config: &Config, app_slug: &str, channel_str: &str, platform_str: &str) -> (r: Result<
    UpdateTarget,
    AppError,
>)
    ensures
        !has_app(config.apps@, app_slug@) ==> r matches Err(AppError::AppNotFound),
        has_app(config.apps@, app_slug@) && Channel::from_text(channel_str@) is None ==> r matches Err(
            AppError::InvalidChannel,
        ),
        has_app(config.apps@, app_slug@) && Channel::from_text(channel_str@) is Some && Platform::from_text(
            platform_str@,
        ) is None ==> r matches Err(AppError::InvalidPlatform),
        r is Ok <==> has_app(config.apps@, app_slug@) && Channel::from_text(channel_str@) is Some
            && Platform::from_text(platform_str@) is Some,
        r matches Ok(t) ==> {
            &&& Some(t.channel) == Channel::from_text(channel_str@)
            &&& Some(t.platform) == Platform::from_text(platform_str@)
            &&& exists|i: int| is_first_app(config.apps@, app_slug@, i) && t.repo@ == config.apps@[i].github_repo@
        },
{
    let i: usize = match config.app_index(app_slug) {
        Some(i) => i,
        None => return Err(AppError::AppNotFound),
    };
    let channel = match Channel::parse(channel_str) {
        Some(c) => c,
        None => return Err(AppError::InvalidChannel),
    };
    let platform = match Platform::parse(platform_str) {
        Some(p) => p,
        None => return Err(AppError::InvalidPlatform),
    };
    Ok(UpdateTarget { repo: config.apps[i].github_repo.clone(), channel, platform })
}

/// The client reports a version that is at least `latest`.
pub open spec fn is_up_to_date(current: Option<&str>, latest: VersionParts) -> bool {
    current matches Some(c) && semver_parse(c@) matches Some(cv) && semver_order(cv, latest) >= 0
}

/// A client is up to date exactly when the version it reports parses and
/// does not precede `latest` in SemVer precedence; a missing or unparsable
/// version is never up to date.
pub proof fn law_up_to_date_is_precedence(current: Option<&str>, latest: VersionParts)
    ensures
        is_up_to_date(current, latest) <==> (current matches Some(c) && semver_parse(c@) matches Some(cv)
            && semver_order(cv, latest) >= 0),
        current is None ==> !is_up_to_date(current, latest),
        (current matches Some(c) && semver_parse(c@) is None) ==> !is_up_to_date(current, latest),
{
}

/// What an update request is answered with: the position of the release,
/// the position of its signature asset, and that asset's API address, from
/// which the signature text is fetched.
#[derive(Debug)]
pub struct UpdateChoice {
    pub release: usize,
    pub signature: usize,
    pub signature_url: String,
}

/// Choose what an update request is answered with: the latest release of
/// the channel and the signature file of its first binary for the platform
/// that has one. There is no update when the channel offers no release,
/// when the client's version is at least the latest one, or when the latest
/// release has no binary of the platform with its signature.
pub fn choose_update(releases: &[Release], channel: Channel, platform: Platform, current_version: Option<&str>) -> (r:
    Result<UpdateChoice, AppError>)
    ensures
        r is Err ==> r matches Err(AppError::NoUpdateAvailable),
        no_candidate(releases@, channel) ==> r is Err,
        r matches Ok(c) ==> {
            let rel = releases@[c.release as int];
            &&& is_latest_at(releases@, channel, c.release as int)
            &&& !(current_version matches Some(cur) && semver_parse(cur@) matches Some(cv) && semver_order(
                cv,
                release_version(rel),
            ) >= 0)
            &&& exists|b: int| is_first_pair(rel.assets@, platform, b, c.signature as int)
            &&& c.signature_url@ == rel.assets@[c.signature as int].url@
        },
        r is Err ==> no_candidate(releases@, channel) || exists|i: int|
            is_latest_at(releases@, channel, i) && {
                let rel = releases@[i];
                ||| (current_version matches Some(cur) && semver_parse(cur@) matches Some(cv) && semver_order(
                    cv,
                    release_version(rel),
                ) >= 0)
                ||| !has_signed_binary(rel.assets@, platform)
            },
        forall|i: int|
            #![trigger is_latest_at(releases@, channel, i)]
            is_latest_at(releases@, channel, i) && has_signed_binary(releases@[i].assets@, platform) && !(
            current_version matches Some(cur) && semver_parse(cur@) matches Some(cv) && semver_order(
                cv,
                release_version(releases@[i]),
            ) >= 0) ==> r is Ok,
{
    let ri: usize = match latest_release_index(releases, channel) {
        Some(i) => i,
        None => return Err(AppError::NoUpdateAvailable),
    };
    let release = &releases[ri];
    if let Some(current_str) = current_version {
        match (parse_version(current_str), parse_tag(release.tag_name.as_str())) {
            (Some(current), Some(latest)) => {
                if version_order(&current, &latest) >= 0 {
                    return Err(AppError::NoUpdateAvailable);
                }
            },
            _ => {},
        }
    }
    match find_signed_pair(&release.assets, platform) {
        Some(p) => {
            let url = release.assets[p.1].url.clone();
            assert(is_first_pair(releases@[ri as int].assets@, platform, p.0 as int, p.1 as int));
            assert(exists|b: int| is_first_pair(releases@[ri as int].assets@, platform, b, p.1 as int));
            Ok(UpdateChoice { release: ri, signature: p.1, signature_url: url })
        },
        None => Err(AppError::NoUpdateAvailable),
    }
}

/// A tag with all its leading `v` characters removed.
pub open spec fn trim_leading_v(tag: Seq<char>) -> Seq<char>
    decreases tag.len(),
{
    if tag.len() > 0 && tag[0] == 'v' {
        trim_leading_v(tag.skip(1))
    } else {
        tag
    }
}

/// The version text a manifest states for a release tag: the displayed
/// version where the tag parses, else the tag without leading `v`s.
pub open spec fn manifest_version_text(tag: Seq<char>) -> Seq<char> {
    match tag_version(tag) {
        Some(p) => version_text(p),
        None => trim_leading_v(tag),
    }
}

/// The download address that a manifest points the updater to.
pub open spec fn download_url_text(base_url: Seq<char>, app_slug: Seq<char>, version: Seq<char>, platform: Platform) -> Seq<char> {
    base_url + "/v1/download/"@ + app_slug + "/"@ + version + "/"@ + platform.text()
}

fn trim_start_v(tag: &str) -> (r: String)
    ensures
        r@ == trim_leading_v(tag@),
        r@.len() > 0 ==> r@[0] != 'v',
{
    let n: usize = tag.unicode_len();
    let mut k: usize = 0;
    assert(tag@.skip(0) =~= tag@);
    while k < n && tag.get_char(k) == 'v'
        invariant
            n == tag@.len(),
            k <= n,
            trim_leading_v(tag@) == trim_leading_v(tag@.skip(k as int)),
        decreases n - k,
    {
        assert(tag@.skip(k as int).skip(1) =~= tag@.skip(k + 1));
        k = k + 1;
    }
    let rest = tag.substring_char(k, n);
    assert(rest@ =~= tag@.skip(k as int));
    rest.to_string()
}

/// Build the manifest that offers `release` to the platform, with the
/// signature text already fetched.
pub fn build_update_manifest(base_url: &str, app_slug: &str, release: &Release, platform: Platform, signature: String) -> (r:
    UpdateManifest)
    ensures
        r.version@ == manifest_version_text(release.tag_name@),
        tag_version(release.tag_name@) is Some ==> semver_parse(r.version@) == tag_version(release.tag_name@),
        tag_version(release.tag_name@) matches Some(p) ==> r.version@ == version_text(p),
        r.version@.len() > 0 ==> r.version@[0] != 'v',
        r.notes@ == (match release.body {
            Some(b) => b@,
            None => Seq::<char>::empty(),
        }),
        r.pub_date@ == (match release.published_at {
            Some(d) => d@,
            None => "1970-01-01T00:00:00Z"@,
        }),
        r.platforms@.len() == 1,
        r.platforms@[0].0@ == platform.text(),
        r.platforms@[0].1.signature == signature,
        r.platforms@[0].1.url@ == download_url_text(base_url@, app_slug@, r.version@, platform),
        r.platforms@[0].1.url@ == base_url@ + "/v1/download/"@ + app_slug@ + "/"@ + r.version@ + "/"@
            + platform.text(),
        ends_with(r.platforms@[0].1.url@, "/"@ + platform.text()),
        Platform::from_text(platform.text()) == Some(platform),
        Platform::from_text(r.platforms@[0].0@) == Some(platform),
{
    let version_str = match parse_tag(release.tag_name.as_str()) {
        Some(v) => v.to_text(),
        None => trim_start_v(release.tag_name.as_str()),
    };
    let mut url = base_url.to_string();
    url.append("/v1/download/");
    url.append(app_slug);
    url.append("/");
    url.append(version_str.as_str());
    url.append("/");
    url.append(platform.as_str());
    let entry = build_platform_entry(signature, url);
    let mut platforms: Vec<(String, PlatformEntry)> = Vec::new();
    platforms.push((platform.as_str().to_string(), entry));
    let notes = match &release.body {
        Some(b) => b.clone(),
        None => String::new(),
    };
    let pub_date = match &release.published_at {
        Some(d) => d.clone(),
        None => "1970-01-01T00:00:00Z".to_string(),
    };
    proof {
        let head = base_url@ + "/v1/download/"@ + app_slug@ + "/"@ + version_str@;
        assert(url@ =~= head + ("/"@ + platform.text()));
        lemma_ends_with_concat(head, "/"@ + platform.text());
        law_platform_text_round_trip(platform, platform.text());
    }
    UpdateManifest { version: version_str, notes, pub_date, platforms }
}

/// The position of the first release whose tag stands for the given
/// version; none where the version text does not parse.
pub open spec fn is_release_of_version(rs: Seq<Release>, version: Seq<char>, i: int) -> bool {
    &&& 0 <= i < rs.len()
    &&& semver_parse(version) is Some
    &&& tag_version(rs[i].tag_name@) == semver_parse(version)
    &&& forall|j: int| #![trigger rs[j]] 0 <= j < i ==> tag_version(rs[j].tag_name@) != semver_parse(version)
}

proof fn lemma_first_release_of_version(rs: Seq<Release>, version: Seq<char>, n: int, i: int)
    requires
        0 <= i < n <= rs.len(),
        semver_parse(version) is Some,
        tag_version(rs[i].tag_name@) == semver_parse(version),
    ensures
        exists|k: int| 0 <= k <= i && is_release_of_version(rs, version, k),
    decreases n,
{
    if exists|j: int| 0 <= j < n - 1 && tag_version(rs[j].tag_name@) == semver_parse(version) {
        let j = choose|j: int| 0 <= j < n - 1 && tag_version(rs[j].tag_name@) == semver_parse(version);
        lemma_first_release_of_version(rs, version, n - 1, j);
        let k = choose|k: int| 0 <= k <= j && is_release_of_version(rs, version, k);
        if k > i {
            assert(!(tag_version(rs[i].tag_name@) != semver_parse(version)));
        }
    } else {
        assert(is_release_of_version(rs, version, n - 1));
        assert(n - 1 <= i);
    }
}

/// The version an update manifest states leads back to the release it
/// offers: where release `i` is offered and the manifest's version text
/// parses to its tag's version, the download endpoint finds a release of
/// that same version, at `i` or before it.
pub proof fn law_manifest_version_resolves(rs: Seq<Release>, i: int, version: Seq<char>)
    requires
        0 <= i < rs.len(),
        tag_version(rs[i].tag_name@) is Some,
        semver_parse(version) == tag_version(rs[i].tag_name@),
    ensures
        exists|k: int|
            0 <= k <= i && is_release_of_version(rs, version, k) && tag_version(rs[k].tag_name@) == tag_version(
                rs[i].tag_name@,
            ),
{
    lemma_first_release_of_version(rs, version, i + 1, i);
}

/// The position of the release whose tag matches `version`.
pub fn release_index_by_version(releases: &[Release], version: &str) -> (r: Option<usize>)
    ensures
        r is None <==> semver_parse(version@) is None || forall|j: int|
            #![trigger releases@[j]]
            0 <= j < releases@.len() ==> tag_version(releases@[j].tag_name@) != semver_parse(version@),
        r matches Some(i) ==> is_release_of_version(releases@, version@, i as int),
{
    let target = match parse_version(version) {
        Some(t) => t,
        None => return None,
    };
    let mut k: usize = 0;
    while k < releases.len()
        invariant
            k <= releases@.len(),
            semver_parse(version@) == Some(target@),
            forall|j: int|
                #![trigger releases@[j]]
                0 <= j < k ==> tag_version(releases@[j].tag_name@) != semver_parse(version@),
        decreases releases@.len() - k,
    {
        let found = match parse_tag(releases[k].tag_name.as_str()) {
            Some(v) => v.same_as(&target),
            None => false,
        };
        if found {
            return Some(k);
        }
        k = k + 1;
    }
    None
}

/// Find the release in `releases` whose tag matches `version` (with or
/// without a leading `v`), or `None` when absent.
pub fn find_release_by_version<'a>(releases: &'a [Release], version: &str) -> (r: Option<&'a Release>)
    ensures
        r is None <==> semver_parse(version@) is None || forall|j: int|
            #![trigger releases@[j]]
            0 <= j < releases@.len() ==> tag_version(releases@[j].tag_name@) != semver_parse(version@),
        r matches Some(x) ==> exists|i: int| is_release_of_version(releases@, version@, i) && *x == releases@[i],
{
    match release_index_by_version(releases, version) {
        Some(i) => Some(&releases[i]),
        None => None,
    }
}

/// The API address of the binary asset of the platform in the release of
/// the given version; no update where the release is missing or has no
/// binary of the platform with its signature.
pub fn select_asset_url(releases: &[Release], version: &str, platform: Platform) -> (r: Result<String, AppError>)
    ensures
        r is Err ==> r matches Err(AppError::NoUpdateAvailable),
        r matches Ok(u) ==> exists|i: int, b: int, s: int|
            is_release_of_version(releases@, version@, i) && is_first_pair(releases@[i].assets@, platform, b, s)
                && u@ == releases@[i].assets@[b].url@,
        r is Ok <==> exists|i: int|
            is_release_of_version(releases@, version@, i) && has_signed_binary(releases@[i].assets@, platform),
{
    let ri: usize = match release_index_by_version(releases, version) {
        Some(i) => i,
        None => {
            proof {
                assert forall|i: int| !is_release_of_version(releases@, version@, i) by {
                    if is_release_of_version(releases@, version@, i) {
                        assert(tag_version(releases@[i].tag_name@) == semver_parse(version@));
                    }
                }
            }
            return Err(AppError::NoUpdateAvailable);
        },
    };
    let release = &releases[ri];
    match find_signed_pair(&release.assets, platform) {
        Some(p) => Ok(release.assets[p.0].url.clone()),
        None => {
            proof {
                assert forall|i: int|
                    is_release_of_version(releases@, version@, i) implies i == ri as int by {
                    if i < ri as int {
                        assert(tag_version(releases@[i].tag_name@) == semver_parse(version@));
                    } else if i > ri as int {
                        assert(tag_version(releases@[ri as int].tag_name@) == semver_parse(version@));
                    }
                }
            }
            Err(AppError::NoUpdateAvailable)
        },
    }
}

} // verus!
