//! Channels, platforms, release selection, asset matching, and the Tauri
//! updater manifest.

use vstd::prelude::*;
use crate::github::{Asset, Release};
use crate::text::{
    ends_with, lemma_ends_with_append, lemma_ends_with_both, lemma_ends_with_split, lemma_ends_with_trans, str_ends_with,
    text_eq,
};
use crate::version::{SemVer, VersionParts, is_semver, parse_version, semver_order, semver_parse, version_order};

verus! {

/// Tauri v2 updater manifest (single-platform subset returned per request).
/// `platforms` pairs each platform key with its entry.
#[derive(Debug)]
pub struct UpdateManifest {
    pub version: String,
    pub notes: String,
    pub pub_date: String,
    pub platforms: Vec<(String, PlatformEntry)>,
}

/// The signature and download address of one platform.
#[derive(Debug)]
pub struct PlatformEntry {
    pub signature: String,
    pub url: String,
}

/// Recognized update channels.
#[derive(Debug, Clone, Copy, PartialEq, Eq, Structural)]
pub enum Channel {
    Stable,
    Beta,
}

impl Channel {
    /// The channel named by a path segment.
    pub open spec fn from_text(s: Seq<char>) -> Option<Channel> {
        if s == "stable"@ {
            Some(Channel::Stable)
        } else if s == "beta"@ {
            Some(Channel::Beta)
        } else {
            None
        }
    }

    pub fn parse(s: &str) -> (r: Option<Self>)
        ensures
            r == Channel::from_text(s@),
    {
        if text_eq(s, "stable") {
            Some(Channel::Stable)
        } else if text_eq(s, "beta") {
            Some(Channel::Beta)
        } else {
            None
        }
    }
}

/// Recognized target platforms.
#[derive(Debug, Clone, Copy, PartialEq, Eq, Hash, Structural)]
pub enum Platform {
    WindowsX86_64,
    DarwinX86_64,
    DarwinAarch64,
    LinuxX86_64,
}

impl Platform {
    /// The string form used in manifest platform keys and URL segments.
    pub open spec fn text(self) -> Seq<char> {
        match self {
            Platform::WindowsX86_64 => "windows-x86_64"@,
            Platform::DarwinX86_64 => "darwin-x86_64"@,
            Platform::DarwinAarch64 => "darwin-aarch64"@,
            Platform::LinuxX86_64 => "linux-x86_64"@,
        }
    }

    /// The platform named by a path segment.
    pub open spec fn from_text(s: Seq<char>) -> Option<Platform> {
        if s == "windows-x86_64"@ {
            Some(Platform::WindowsX86_64)
        } else if s == "darwin-x86_64"@ {
            Some(Platform::DarwinX86_64)
        } else if s == "darwin-aarch64"@ {
            Some(Platform::DarwinAarch64)
        } else if s == "linux-x86_64"@ {
            Some(Platform::LinuxX86_64)
        } else {
            None
        }
    }

    /// `name` is the file name of this platform's installer bundle.
    pub open spec fn is_binary_asset(self, name: Seq<char>) -> bool {
        match self {
            Platform::WindowsX86_64 => (ends_with(name, "_x64_en-US.msi"@) || ends_with(name, "_x64-setup.exe"@)
                || ends_with(name, "_x64-setup.nsis.zip"@))
                && !ends_with(name, ".sig"@),
            Platform::DarwinX86_64 => ends_with(name, "_x64.app.tar.gz"@) && !ends_with(name, ".sig"@),
            Platform::DarwinAarch64 => ends_with(name, "_aarch64.app.tar.gz"@) && !ends_with(name, ".sig"@),
            Platform::LinuxX86_64 => ends_with(name, "_amd64.AppImage.tar.gz"@) && !ends_with(name, ".sig"@),
        }
    }

    /// `name` is the file name of the signature of this platform's bundle.
    pub open spec fn is_sig_asset(self, name: Seq<char>) -> bool {
        match self {
            Platform::WindowsX86_64 => ends_with(name, "_x64_en-US.msi.sig"@) || ends_with(name, "_x64-setup.exe.sig"@)
                || ends_with(name, "_x64-setup.nsis.zip.sig"@),
            Platform::DarwinX86_64 => ends_with(name, "_x64.app.tar.gz.sig"@),
            Platform::DarwinAarch64 => ends_with(name, "_aarch64.app.tar.gz.sig"@),
            Platform::LinuxX86_64 => ends_with(name, "_amd64.AppImage.tar.gz.sig"@),
        }
    }

    pub fn parse(s: &str) -> (r: Option<Self>)
        ensures
            r == Platform::from_text(s@),
    {
        if text_eq(s, "windows-x86_64") {
            Some(Platform::WindowsX86_64)
        } else if text_eq(s, "darwin-x86_64") {
            Some(Platform::DarwinX86_64)
        } else if text_eq(s, "darwin-aarch64") {
            Some(Platform::DarwinAarch64)
        } else if text_eq(s, "linux-x86_64") {
            Some(Platform::LinuxX86_64)
        } else {
            None
        }
    }

    /// Return the string form used in manifest platform keys and URL segments.
    pub fn as_str(self) -> (r: &'static str)
        ensures
            r@ == self.text(),
    {
        match self {
            Platform::WindowsX86_64 => "windows-x86_64",
            Platform::DarwinX86_64 => "darwin-x86_64",
            Platform::DarwinAarch64 => "darwin-aarch64",
            Platform::LinuxX86_64 => "linux-x86_64",
        }
    }

    /// Return true if `name` matches the binary asset pattern for this platform.
    pub fn matches_binary_asset(self, name: &str) -> (r: bool)
        ensures
            r == self.is_binary_asset(name@),
    {
        match self {
            Platform::WindowsX86_64 => {
                (str_ends_with(name, "_x64_en-US.msi") || str_ends_with(name, "_x64-setup.exe")
                    || str_ends_with(name, "_x64-setup.nsis.zip"))
                    && !str_ends_with(name, ".sig")
            },
            Platform::DarwinX86_64 => str_ends_with(name, "_x64.app.tar.gz") && !str_ends_with(name, ".sig"),
            Platform::DarwinAarch64 => str_ends_with(name, "_aarch64.app.tar.gz") && !str_ends_with(name, ".sig"),
            Platform::LinuxX86_64 => {
                str_ends_with(name, "_amd64.AppImage.tar.gz") && !str_ends_with(name, ".sig")
            },
        }
    }

    /// Return true if `name` is the corresponding signature file.
    pub fn matches_sig_asset(self, name: &str) -> (r: bool)
        ensures
            r == self.is_sig_asset(name@),
            r <==> exists|b: Seq<char>| #[trigger] self.is_binary_asset(b) && name@ == b + ".sig"@,
    {
        proof {
            law_sig_is_binary_with_sig(self, name@);
        }
        match self {
            Platform::WindowsX86_64 => {
                str_ends_with(name, "_x64_en-US.msi.sig") || str_ends_with(name, "_x64-setup.exe.sig")
                    || str_ends_with(name, "_x64-setup.nsis.zip.sig")
            },
            Platform::DarwinX86_64 => str_ends_with(name, "_x64.app.tar.gz.sig"),
            Platform::DarwinAarch64 => str_ends_with(name, "_aarch64.app.tar.gz.sig"),
            Platform::LinuxX86_64 => str_ends_with(name, "_amd64.AppImage.tar.gz.sig"),
        }
    }
}

/// Every platform's text form names that platform, and a text names a
/// platform only if it is that platform's text form.
pub proof fn law_platform_text_round_trip(p: Platform, s: Seq<char>)
    ensures
        Platform::from_text(p.text()) == Some(p),
        Platform::from_text(s) == Some(p) ==> p.text() == s,
{
    reveal_strlit("windows-x86_64");
    reveal_strlit("darwin-x86_64");
    reveal_strlit("darwin-aarch64");
    reveal_strlit("linux-x86_64");
    assert("windows-x86_64"@ != "darwin-x86_64"@ && "windows-x86_64"@ != "linux-x86_64"@
        && "darwin-x86_64"@ != "darwin-aarch64"@ && "darwin-x86_64"@ != "linux-x86_64"@
        && "darwin-aarch64"@ != "linux-x86_64"@) by {
        assert("windows-x86_64"@.len() != "darwin-x86_64"@.len());
        assert("windows-x86_64"@.len() != "linux-x86_64"@.len());
        assert("darwin-x86_64"@.len() != "darwin-aarch64"@.len());
        assert("darwin-x86_64"@.len() != "linux-x86_64"@.len());
        assert("darwin-aarch64"@.len() != "linux-x86_64"@.len());
    }
    assert("windows-x86_64"@ != "darwin-aarch64"@) by {
        assert("windows-x86_64"@[0] != "darwin-aarch64"@[0]);
    }
}

proof fn lemma_sig_suffix(a: Seq<char>, b: Seq<char>)
    requires
        a == b + ".sig"@,
    ensures
        ends_with(a, ".sig"@),
{
    reveal_strlit(".sig");
    assert(a.subrange(a.len() - 4, a.len() as int) =~= ".sig"@);
}

/// No file name is both a platform's binary and its signature.
pub proof fn law_binary_and_sig_disjoint(p: Platform, name: Seq<char>)
    ensures
        !(p.is_binary_asset(name) && p.is_sig_asset(name)),
{
    reveal_strlit("_x64_en-US.msi.sig");
    reveal_strlit("_x64_en-US.msi");
    reveal_strlit("_x64-setup.exe.sig");
    reveal_strlit("_x64-setup.exe");
    reveal_strlit("_x64-setup.nsis.zip.sig");
    reveal_strlit("_x64-setup.nsis.zip");
    reveal_strlit("_x64.app.tar.gz.sig");
    reveal_strlit("_x64.app.tar.gz");
    reveal_strlit("_aarch64.app.tar.gz.sig");
    reveal_strlit("_aarch64.app.tar.gz");
    reveal_strlit("_amd64.AppImage.tar.gz.sig");
    reveal_strlit("_amd64.AppImage.tar.gz");
    reveal_strlit(".sig");
    assert("_x64_en-US.msi.sig"@ =~= "_x64_en-US.msi"@ + ".sig"@);
    lemma_sig_suffix("_x64_en-US.msi.sig"@, "_x64_en-US.msi"@);
    assert("_x64-setup.exe.sig"@ =~= "_x64-setup.exe"@ + ".sig"@);
    lemma_sig_suffix("_x64-setup.exe.sig"@, "_x64-setup.exe"@);
    assert("_x64-setup.nsis.zip.sig"@ =~= "_x64-setup.nsis.zip"@ + ".sig"@);
    lemma_sig_suffix("_x64-setup.nsis.zip.sig"@, "_x64-setup.nsis.zip"@);
    assert("_x64.app.tar.gz.sig"@ =~= "_x64.app.tar.gz"@ + ".sig"@);
    lemma_sig_suffix("_x64.app.tar.gz.sig"@, "_x64.app.tar.gz"@);
    assert("_aarch64.app.tar.gz.sig"@ =~= "_aarch64.app.tar.gz"@ + ".sig"@);
    lemma_sig_suffix("_aarch64.app.tar.gz.sig"@, "_aarch64.app.tar.gz"@);
    assert("_amd64.AppImage.tar.gz.sig"@ =~= "_amd64.AppImage.tar.gz"@ + ".sig"@);
    lemma_sig_suffix("_amd64.AppImage.tar.gz.sig"@, "_amd64.AppImage.tar.gz"@);
    if p.is_sig_asset(name) {
        match p {
            Platform::WindowsX86_64 => {
                if ends_with(name, "_x64_en-US.msi.sig"@) {
                    lemma_ends_with_trans(name, "_x64_en-US.msi.sig"@, ".sig"@);
                } else if ends_with(name, "_x64-setup.exe.sig"@) {
                    lemma_ends_with_trans(name, "_x64-setup.exe.sig"@, ".sig"@);
                } else {
                    lemma_ends_with_trans(name, "_x64-setup.nsis.zip.sig"@, ".sig"@);
                }
            },
            Platform::DarwinX86_64 => lemma_ends_with_trans(name, "_x64.app.tar.gz.sig"@, ".sig"@),
            Platform::DarwinAarch64 => lemma_ends_with_trans(name, "_aarch64.app.tar.gz.sig"@, ".sig"@),
            Platform::LinuxX86_64 => lemma_ends_with_trans(name, "_amd64.AppImage.tar.gz.sig"@, ".sig"@),
        }
    }
}

/// The signature of a platform's binary is named after it: the binary's
/// name followed by `.sig` is a signature name of the same platform.
pub proof fn law_sig_name_of_binary(p: Platform, name: Seq<char>)
    requires
        p.is_binary_asset(name),
    ensures
        p.is_sig_asset(name + ".sig"@),
{
    reveal_strlit("_x64_en-US.msi.sig");
    reveal_strlit("_x64_en-US.msi");
    reveal_strlit("_x64-setup.exe.sig");
    reveal_strlit("_x64-setup.exe");
    reveal_strlit("_x64-setup.nsis.zip.sig");
    reveal_strlit("_x64-setup.nsis.zip");
    reveal_strlit("_x64.app.tar.gz.sig");
    reveal_strlit("_x64.app.tar.gz");
    reveal_strlit("_aarch64.app.tar.gz.sig");
    reveal_strlit("_aarch64.app.tar.gz");
    reveal_strlit("_amd64.AppImage.tar.gz.sig");
    reveal_strlit("_amd64.AppImage.tar.gz");
    reveal_strlit(".sig");
    assert("_x64_en-US.msi.sig"@ =~= "_x64_en-US.msi"@ + ".sig"@);
    assert("_x64-setup.exe.sig"@ =~= "_x64-setup.exe"@ + ".sig"@);
    assert("_x64-setup.nsis.zip.sig"@ =~= "_x64-setup.nsis.zip"@ + ".sig"@);
    assert("_x64.app.tar.gz.sig"@ =~= "_x64.app.tar.gz"@ + ".sig"@);
    assert("_aarch64.app.tar.gz.sig"@ =~= "_aarch64.app.tar.gz"@ + ".sig"@);
    assert("_amd64.AppImage.tar.gz.sig"@ =~= "_amd64.AppImage.tar.gz"@ + ".sig"@);
    match p {
        Platform::WindowsX86_64 => {
            if ends_with(name, "_x64_en-US.msi"@) {
                lemma_ends_with_append(name, "_x64_en-US.msi"@, ".sig"@);
            } else if ends_with(name, "_x64-setup.exe"@) {
                lemma_ends_with_append(name, "_x64-setup.exe"@, ".sig"@);
            } else {
                lemma_ends_with_append(name, "_x64-setup.nsis.zip"@, ".sig"@);
            }
        },
        Platform::DarwinX86_64 => lemma_ends_with_append(name, "_x64.app.tar.gz"@, ".sig"@),
        Platform::DarwinAarch64 => lemma_ends_with_append(name, "_aarch64.app.tar.gz"@, ".sig"@),
        Platform::LinuxX86_64 => lemma_ends_with_append(name, "_amd64.AppImage.tar.gz"@, ".sig"@),
    }
}

proof fn lemma_suffix_not_sig(sfx: Seq<char>)
    requires
        sfx.len() >= 4,
        sfx[sfx.len() - 1] != 'g',
    ensures
        !ends_with(sfx, ".sig"@),
{
    reveal_strlit(".sig");
    if ends_with(sfx, ".sig"@) {
        assert(sfx.subrange(sfx.len() - 4, sfx.len() as int)[3] == ".sig"@[3]);
    }
}

proof fn lemma_suffix_excludes_sig(name: Seq<char>, sfx: Seq<char>)
    requires
        ends_with(name, sfx),
        sfx.len() >= 4,
        sfx[sfx.len() - 1] != 'g',
    ensures
        !ends_with(name, ".sig"@),
{
    reveal_strlit(".sig");
    lemma_suffix_not_sig(sfx);
    if ends_with(name, ".sig"@) {
        lemma_ends_with_both(name, sfx, ".sig"@);
    }
}

/// The binary names of each platform are exactly the names with that
/// platform's suffix in the asset naming table: `_x64_en-US.msi`,
/// `_x64-setup.exe` or `_x64-setup.nsis.zip` for windows-x86_64,
/// `_x64.app.tar.gz` for darwin-x86_64, `_aarch64.app.tar.gz` for
/// darwin-aarch64, and `_amd64.AppImage.tar.gz` for linux-x86_64.
pub proof fn law_binary_suffix_table(name: Seq<char>)
    ensures
        Platform::WindowsX86_64.is_binary_asset(name) <==> (ends_with(name, "_x64_en-US.msi"@) || ends_with(
            name,
            "_x64-setup.exe"@,
        ) || ends_with(name, "_x64-setup.nsis.zip"@)),
        Platform::DarwinX86_64.is_binary_asset(name) <==> ends_with(name, "_x64.app.tar.gz"@),
        Platform::DarwinAarch64.is_binary_asset(name) <==> ends_with(name, "_aarch64.app.tar.gz"@),
        Platform::LinuxX86_64.is_binary_asset(name) <==> ends_with(name, "_amd64.AppImage.tar.gz"@),
{
    reveal_strlit("_x64_en-US.msi");
    reveal_strlit("_x64-setup.exe");
    reveal_strlit("_x64-setup.nsis.zip");
    reveal_strlit("_x64.app.tar.gz");
    reveal_strlit("_aarch64.app.tar.gz");
    reveal_strlit("_amd64.AppImage.tar.gz");
    if ends_with(name, "_x64_en-US.msi"@) {
        lemma_suffix_excludes_sig(name, "_x64_en-US.msi"@);
    }
    if ends_with(name, "_x64-setup.exe"@) {
        lemma_suffix_excludes_sig(name, "_x64-setup.exe"@);
    }
    if ends_with(name, "_x64-setup.nsis.zip"@) {
        lemma_suffix_excludes_sig(name, "_x64-setup.nsis.zip"@);
    }
    if ends_with(name, "_x64.app.tar.gz"@) {
        lemma_suffix_excludes_sig(name, "_x64.app.tar.gz"@);
    }
    if ends_with(name, "_aarch64.app.tar.gz"@) {
        lemma_suffix_excludes_sig(name, "_aarch64.app.tar.gz"@);
    }
    if ends_with(name, "_amd64.AppImage.tar.gz"@) {
        lemma_suffix_excludes_sig(name, "_amd64.AppImage.tar.gz"@);
    }
}

proof fn lemma_sig_names_binary(p: Platform, name: Seq<char>, bsfx: Seq<char>)
    requires
        ends_with(name, bsfx + ".sig"@),
        forall|b: Seq<char>| ends_with(b, bsfx) ==> #[trigger] p.is_binary_asset(b),
    ensures
        exists|b: Seq<char>| #[trigger] p.is_binary_asset(b) && name == b + ".sig"@,
{
    lemma_ends_with_split(name, bsfx, ".sig"@);
    let b = name.subrange(0, name.len() - ".sig"@.len());
    assert(p.is_binary_asset(b));
}

/// The signature names of each platform are exactly its binary names
/// followed by `.sig`.
pub proof fn law_sig_is_binary_with_sig(p: Platform, name: Seq<char>)
    ensures
        p.is_sig_asset(name) <==> exists|b: Seq<char>| #[trigger] p.is_binary_asset(b) && name == b + ".sig"@,
{
    reveal_strlit(".sig");
    if exists|b: Seq<char>| #[trigger] p.is_binary_asset(b) && name == b + ".sig"@ {
        let b = choose|b: Seq<char>| #[trigger] p.is_binary_asset(b) && name == b + ".sig"@;
        law_sig_name_of_binary(p, b);
    }
    if p.is_sig_asset(name) {
        reveal_strlit("_x64_en-US.msi.sig");
        reveal_strlit("_x64_en-US.msi");
        reveal_strlit("_x64-setup.exe.sig");
        reveal_strlit("_x64-setup.exe");
        reveal_strlit("_x64-setup.nsis.zip.sig");
        reveal_strlit("_x64-setup.nsis.zip");
        reveal_strlit("_x64.app.tar.gz.sig");
        reveal_strlit("_x64.app.tar.gz");
        reveal_strlit("_aarch64.app.tar.gz.sig");
        reveal_strlit("_aarch64.app.tar.gz");
        reveal_strlit("_amd64.AppImage.tar.gz.sig");
        reveal_strlit("_amd64.AppImage.tar.gz");
        assert("_x64_en-US.msi.sig"@ =~= "_x64_en-US.msi"@ + ".sig"@);
        assert("_x64-setup.exe.sig"@ =~= "_x64-setup.exe"@ + ".sig"@);
        assert("_x64-setup.nsis.zip.sig"@ =~= "_x64-setup.nsis.zip"@ + ".sig"@);
        assert("_x64.app.tar.gz.sig"@ =~= "_x64.app.tar.gz"@ + ".sig"@);
        assert("_aarch64.app.tar.gz.sig"@ =~= "_aarch64.app.tar.gz"@ + ".sig"@);
        assert("_amd64.AppImage.tar.gz.sig"@ =~= "_amd64.AppImage.tar.gz"@ + ".sig"@);
        let bsfx = match p {
            Platform::WindowsX86_64 => if ends_with(name, "_x64_en-US.msi.sig"@) {
                "_x64_en-US.msi"@
            } else if ends_with(name, "_x64-setup.exe.sig"@) {
                "_x64-setup.exe"@
            } else {
                "_x64-setup.nsis.zip"@
            },
            Platform::DarwinX86_64 => "_x64.app.tar.gz"@,
            Platform::DarwinAarch64 => "_aarch64.app.tar.gz"@,
            Platform::LinuxX86_64 => "_amd64.AppImage.tar.gz"@,
        };
        assert forall|b: Seq<char>| ends_with(b, bsfx) implies #[trigger] p.is_binary_asset(b) by {
            law_binary_suffix_table(b);
        }
        lemma_sig_names_binary(p, name, bsfx);
    }
}

/// A tag with one leading `v` removed, if it has one.
pub open spec fn strip_v(tag: Seq<char>) -> Seq<char> {
    if tag.len() > 0 && tag[0] == 'v' {
        tag.skip(1)
    } else {
        tag
    }
}

/// The version a release tag stands for, as `parse_tag` reads it.
pub open spec fn tag_version(tag: Seq<char>) -> Option<VersionParts> {
    semver_parse(strip_v(tag))
}

/// A version read from a tag is a valid semantic version.
pub proof fn lemma_tag_version_is_semver(tag: Seq<char>)
    requires
        tag_version(tag) is Some,
    ensures
        is_semver(tag_version(tag).unwrap()),
{
    assert(semver_parse(strip_v(tag)) == Some(tag_version(tag).unwrap()));
}

/// A version's text reads back as a tag, with or without one leading `v`:
/// where a text that starts with a digit parses to `p`, the tag of that
/// text and the tag `v` followed by that text both stand for `p`.
pub proof fn law_tag_round_trip(t: Seq<char>, p: VersionParts)
    requires
        semver_parse(t) == Some(p),
        t.len() > 0,
        '0' <= t[0] <= '9',
    ensures
        tag_version(t) == Some(p),
        tag_version(seq!['v'] + t) == Some(p),
{
    assert((seq!['v'] + t).skip(1) =~= t);
}

/// Parse a tag like "v1.2.3" or "1.2.3" into a semantic version.
pub fn parse_tag(tag: &str) -> (r: Option<SemVer>)
    ensures
        r is Some <==> tag_version(tag@) is Some,
        r matches Some(v) ==> tag_version(tag@) == Some(v@),
{
    let n: usize = tag.unicode_len();
    if n > 0 && tag.get_char(0) == 'v' {
        let rest = tag.substring_char(1, n);
        assert(rest@ =~= strip_v(tag@));
        parse_version(rest)
    } else {
        parse_version(tag)
    }
}

/// A release that the channel offers: not a draft, not a pre-release on the
/// stable channel, and tagged with a version.
pub open spec fn is_candidate(r: Release, channel: Channel) -> bool {
    &&& !r.draft
    &&& (channel == Channel::Beta || !r.prerelease)
    &&& tag_version(r.tag_name@) is Some
}

/// The version of a candidate release.
pub open spec fn release_version(r: Release) -> VersionParts {
    tag_version(r.tag_name@).unwrap()
}

/// Position `i` holds the latest release of the channel: a candidate whose
/// version is at least that of every earlier candidate and above that of
/// every later one (so among equal versions the last one is taken).
pub open spec fn is_latest_at(rs: Seq<Release>, channel: Channel, i: int) -> bool {
    &&& 0 <= i < rs.len()
    &&& is_candidate(rs[i], channel)
    &&& forall|j: int|
        #![trigger rs[j]]
        0 <= j < i && is_candidate(rs[j], channel) ==> semver_order(
            release_version(rs[i]),
            release_version(rs[j]),
        ) >= 0
    &&& forall|j: int|
        #![trigger rs[j]]
        i < j < rs.len() && is_candidate(rs[j], channel) ==> semver_order(
            release_version(rs[j]),
            release_version(rs[i]),
        ) < 0
}

/// At most one position holds the latest release of a channel.
pub proof fn law_latest_is_unique(rs: Seq<Release>, channel: Channel, i: int, k: int)
    requires
        is_latest_at(rs, channel, i),
        is_latest_at(rs, channel, k),
    ensures
        i == k,
{
    if i < k {
        assert(is_candidate(rs[k], channel));
        assert(is_candidate(rs[i], channel));
    } else if k < i {
        assert(is_candidate(rs[k], channel));
        assert(is_candidate(rs[i], channel));
    }
}

/// Releases that the channel does not offer (drafts, releases with a tag
/// that is not a version, pre-releases on the stable channel) have no
/// bearing on the choice: inserting one anywhere keeps the same release
/// chosen, and keeps the channel empty when it was.
pub proof fn law_latest_ignores_non_candidates(rs: Seq<Release>, channel: Channel, k: int, x: Release)
    requires
        0 <= k <= rs.len(),
        !is_candidate(x, channel),
    ensures
        no_candidate(rs.insert(k, x), channel) == no_candidate(rs, channel),
        forall|i: int|
            #![trigger is_latest_at(rs, channel, i)]
            is_latest_at(rs, channel, i) ==> is_latest_at(rs.insert(k, x), channel, if i < k { i } else { i + 1 }),
{
    let rs2 = rs.insert(k, x);
    assert forall|j: int| 0 <= j < rs2.len() implies rs2[j] == (if j < k { rs[j] } else if j == k { x } else { rs[j - 1] }) by {}
    if no_candidate(rs, channel) {
        assert forall|j: int| 0 <= j < rs2.len() implies !is_candidate(#[trigger] rs2[j], channel) by {
            if j < k {
                assert(!is_candidate(rs[j], channel));
            } else if j > k {
                assert(!is_candidate(rs[j - 1], channel));
            }
        }
    }
    if no_candidate(rs2, channel) {
        assert forall|j: int| 0 <= j < rs.len() implies !is_candidate(#[trigger] rs[j], channel) by {
            if j < k {
                assert(!is_candidate(rs2[j], channel));
            } else {
                assert(!is_candidate(rs2[j + 1], channel));
            }
        }
    }
    assert forall|i: int|
        #![trigger is_latest_at(rs, channel, i)]
        is_latest_at(rs, channel, i) implies is_latest_at(rs2, channel, if i < k { i } else { i + 1 }) by {
        let i2 = if i < k { i } else { i + 1 };
        assert(rs2[i2] == rs[i]);
        assert forall|j: int|
            #![trigger rs2[j]]
            0 <= j < i2 && is_candidate(rs2[j], channel) implies semver_order(
                release_version(rs2[i2]),
                release_version(rs2[j]),
            ) >= 0 by {
            if j < k {
                assert(rs2[j] == rs[j]);
                assert(is_candidate(rs[j], channel));
            } else {
                assert(j > k);
                assert(rs2[j] == rs[j - 1]);
                assert(is_candidate(rs[j - 1], channel));
            }
        }
        assert forall|j: int|
            #![trigger rs2[j]]
            i2 < j < rs2.len() && is_candidate(rs2[j], channel) implies semver_order(
                release_version(rs2[j]),
                release_version(rs2[i2]),
            ) < 0 by {
            if j < k {
                assert(rs2[j] == rs[j]);
                assert(is_candidate(rs[j], channel));
            } else {
                assert(j > k);
                assert(rs2[j] == rs[j - 1]);
                assert(is_candidate(rs[j - 1], channel));
            }
        }
    }
}

/// No release is a candidate of the channel.
pub open spec fn no_candidate(rs: Seq<Release>, channel: Channel) -> bool {
    forall|j: int| #![trigger rs[j]] 0 <= j < rs.len() ==> !is_candidate(rs[j], channel)
}

/// The position of the release with the highest version among those the
/// channel offers, or `None` if it offers none.
pub fn latest_release_index(releases: &[Release], channel: Channel) -> (r: Option<usize>)
    ensures
        r is None <==> no_candidate(releases@, channel),
        r matches Some(i) ==> is_latest_at(releases@, channel, i as int),
{
    let ghost rs = releases@;
    let mut best: Option<(usize, SemVer)> = None;
    let mut k: usize = 0;
    while k < releases.len()
        invariant
            rs == releases@,
            k <= rs.len(),
            best is None <==> (forall|j: int| #![trigger rs[j]] 0 <= j < k ==> !is_candidate(rs[j], channel)),
            best matches Some(bb) ==> {
                let b: int = bb.0 as int;
                let bv = bb.1@;
                &&& 0 <= b < k
                &&& is_candidate(rs[b], channel)
                &&& release_version(rs[b]) == bv
                &&& forall|j: int|
                    #![trigger rs[j]]
                    0 <= j < b && is_candidate(rs[j], channel) ==> semver_order(bv, release_version(rs[j])) >= 0
                &&& forall|j: int|
                    #![trigger rs[j]]
                    b < j < k && is_candidate(rs[j], channel) ==> semver_order(
                        release_version(rs[j]),
                        bv,
                    ) < 0
            },
        decreases rs.len() - k,
    {
        let r = &releases[k];
        let offered = !r.draft && match channel {
            Channel::Stable => !r.prerelease,
            Channel::Beta => true,
        };
        if offered {
            match parse_tag(r.tag_name.as_str()) {
                Some(v) => {
                    let ghost prev = best;
                    best = match best {
                        None => Some((k, v)),
                        Some(bb) => {
                            let o: i8 = version_order(&bb.1, &v);
                            proof {
                                let b: int = bb.0 as int;
                                assert forall|j: int|
                                    #![trigger rs[j]]
                                    0 <= j < b && is_candidate(rs[j], channel) && o <= 0 implies semver_order(
                                        v@,
                                        release_version(rs[j]),
                                    ) >= 0 by {
                                    lemma_tag_version_is_semver(rs[j].tag_name@);
                                }
                                assert forall|j: int|
                                    #![trigger rs[j]]
                                    b < j < k && is_candidate(rs[j], channel) && o <= 0 implies semver_order(
                                        v@,
                                        release_version(rs[j]),
                                    ) >= 0 by {
                                    lemma_tag_version_is_semver(rs[j].tag_name@);
                                }
                            }
                            if o == 1 {
                                Some(bb)
                            } else {
                                Some((k, v))
                            }
                        },
                    };
                },
                None => {},
            }
        }
        k = k + 1;
    }
    match best {
        Some(bb) => Some(bb.0),
        None => None,
    }
}

/// Filter `releases` according to `channel` and return the one with the
/// highest SemVer version, or `None` if no qualifying release exists.
pub fn latest_release(releases: &[Release], channel: Channel) -> (r: Option<&Release>)
    ensures
        r is None <==> no_candidate(releases@, channel),
        r matches Some(x) ==> exists|i: int| is_latest_at(releases@, channel, i) && *x == releases@[i],
{
    match latest_release_index(releases, channel) {
        Some(i) => Some(&releases[i]),
        None => None,
    }
}

/// The release a channel offers is never a draft, and the stable channel
/// never offers a pre-release.
pub proof fn law_offered_release_is_published(rs: Seq<Release>, channel: Channel, i: int)
    requires
        is_latest_at(rs, channel, i),
    ensures
        !rs[i].draft,
        channel == Channel::Stable ==> !rs[i].prerelease,
{
}

/// The beta channel offers every published release tagged with a version,
/// pre-releases included; the stable channel offers the same releases
/// less the pre-releases.
pub proof fn law_channel_candidates(r: Release)
    ensures
        is_candidate(r, Channel::Beta) <==> !r.draft && tag_version(r.tag_name@) is Some,
        is_candidate(r, Channel::Stable) <==> is_candidate(r, Channel::Beta) && !r.prerelease,
{
}

/// Whatever the stable channel offers, the beta channel offers too: the
/// beta channel has a release whenever the stable one has.
pub proof fn law_beta_offers_whenever_stable(rs: Seq<Release>)
    requires
        !no_candidate(rs, Channel::Stable),
    ensures
        !no_candidate(rs, Channel::Beta),
{
    let j = choose|j: int| 0 <= j < rs.len() && is_candidate(#[trigger] rs[j], Channel::Stable);
    assert(is_candidate(rs[j], Channel::Beta));
}

/// The name of the signature file of an asset named `name`.
pub open spec fn sig_name(name: Seq<char>) -> Seq<char> {
    name + ".sig"@
}

/// Some asset is named `name`.
pub open spec fn has_named(assets: Seq<Asset>, name: Seq<char>) -> bool {
    exists|j: int| 0 <= j < assets.len() && (#[trigger] assets[j]).name@ == name
}

/// Position `j` holds the first asset named `name`.
pub open spec fn is_first_named(assets: Seq<Asset>, name: Seq<char>, j: int) -> bool {
    &&& 0 <= j < assets.len()
    &&& assets[j].name@ == name
    &&& forall|k: int| #![trigger assets[k]] 0 <= k < j ==> assets[k].name@ != name
}

/// The asset at `i` is a binary of the platform whose signature file (its
/// name followed by `.sig`) is among the assets.
pub open spec fn is_signed_binary(assets: Seq<Asset>, platform: Platform, i: int) -> bool {
    &&& 0 <= i < assets.len()
    &&& platform.is_binary_asset(assets[i].name@)
    &&& has_named(assets, sig_name(assets[i].name@))
}

/// Some binary of the platform comes with its signature file.
pub open spec fn has_signed_binary(assets: Seq<Asset>, platform: Platform) -> bool {
    exists|i: int| #![trigger assets[i]] is_signed_binary(assets, platform, i)
}

/// `(i, j)` is the pair the release offers the platform: the first binary
/// that comes with its signature file, and the first asset bearing that
/// signature's name.
pub open spec fn is_first_pair(assets: Seq<Asset>, platform: Platform, i: int, j: int) -> bool {
    &&& is_signed_binary(assets, platform, i)
    &&& forall|k: int| #![trigger assets[k]] 0 <= k < i ==> !is_signed_binary(assets, platform, k)
    &&& is_first_named(assets, sig_name(assets[i].name@), j)
}

/// The position of the first asset named `name`.
pub fn find_named(assets: &Vec<Asset>, name: &str) -> (r: Option<usize>)
    ensures
        r is None <==> !has_named(assets@, name@),
        r matches Some(j) ==> is_first_named(assets@, name@, j as int),
{
    let mut k: usize = 0;
    while k < assets.len()
        invariant
            k <= assets@.len(),
            forall|j: int| #![trigger assets@[j]] 0 <= j < k ==> assets@[j].name@ != name@,
        decreases assets@.len() - k,
    {
        if text_eq(assets[k].name.as_str(), name) {
            return Some(k);
        }
        k = k + 1;
    }
    None
}

/// The positions of the platform's binary and of its own signature file:
/// the first binary whose signature is present, and that signature.
pub fn find_signed_pair(assets: &Vec<Asset>, platform: Platform) -> (r: Option<(usize, usize)>)
    ensures
        r is None <==> !has_signed_binary(assets@, platform),
        r matches Some(p) ==> is_first_pair(assets@, platform, p.0 as int, p.1 as int),
{
    proof {
        reveal_strlit(".sig");
    }
    let mut k: usize = 0;
    while k < assets.len()
        invariant
            k <= assets@.len(),
            forall|i: int| #![trigger assets@[i]] 0 <= i < k ==> !is_signed_binary(assets@, platform, i),
        decreases assets@.len() - k,
    {
        let name = assets[k].name.as_str();
        if platform.matches_binary_asset(name) {
            let mut wanted = name.to_string();
            wanted.append(".sig");
            match find_named(assets, wanted.as_str()) {
                Some(j) => {
                    return Some((k, j));
                },
                None => {},
            }
        }
        k = k + 1;
    }
    None
}

/// Find the binary asset and its corresponding .sig asset for `platform` in
/// the given release's asset list.
pub fn find_assets(release: &Release, platform: Platform) -> (r: Option<(&Asset, &Asset)>)
    ensures
        r is Some <==> has_signed_binary(release.assets@, platform),
        r matches Some(p) ==> exists|i: int, j: int|
            is_first_pair(release.assets@, platform, i, j) && *p.0 == release.assets@[i] && *p.1
                == release.assets@[j],
        r matches Some(p) ==> {
            &&& platform.is_binary_asset(p.0.name@)
            &&& platform.is_sig_asset(p.1.name@)
            &&& p.1.name@ == p.0.name@ + ".sig"@
        },
{
    match find_signed_pair(&release.assets, platform) {
        None => None,
        Some(p) => {
            proof {
                law_sig_name_of_binary(platform, release.assets@[p.0 as int].name@);
            }
            Some((&release.assets[p.0], &release.assets[p.1]))
        },
    }
}

/// Build a `PlatformEntry` using an already-fetched signature string and the
/// download URL.
pub fn build_platform_entry(signature: String, download_url: String) -> (r: PlatformEntry)
    ensures
        r.signature == signature,
        r.url == download_url,
{
    PlatformEntry { signature, url: download_url }
}

} // verus!
