//! Semantic versions: parsing, ordering and display, backed by the `semver`
//! crate.

use vstd::prelude::*;

verus! {

#[verifier::external_type_specification]
#[verifier::external_body]
pub struct ExSemverVersion(semver::Version);

/// The plain parts of a semantic version: major, minor, patch, pre-release
/// text and build-metadata text.
pub type VersionParts = (u64, u64, u64, Seq<char>, Seq<char>);

/// What `semver::Version::parse` yields for a text: `None` where it returns
/// an error, else the parts of the parsed version.
pub uninterp spec fn semver_parse(text: Seq<char>) -> Option<VersionParts>;

/// The result of `Ord::cmp` of `semver::Version` on the versions with the
/// given parts: -1 for less, 0 for equal, 1 for greater.
pub uninterp spec fn semver_order(a: VersionParts, b: VersionParts) -> i8;

/// Parts that some text parses to.
pub open spec fn is_semver(p: VersionParts) -> bool {
    exists|t: Seq<char>| semver_parse(t) == Some(p)
}

/// The parts of a `semver::Version`, copied out beside it.
#[derive(Debug, PartialEq, Eq)]
struct Parsed {
    major: u64,
    minor: u64,
    patch: u64,
    pre: String,
    build: String,
    inner: semver::Version,
}

impl View for Parsed {
    type V = VersionParts;

    closed spec fn view(&self) -> VersionParts {
        (self.major, self.minor, self.patch, self.pre@, self.build@)
    }
}

/// Calls `semver::Version::parse`. Claims that the result is the named
/// `semver_parse` of the text, the parts copied out of the parsed version,
/// and that the text `Display` writes for the parsed version parses back to
/// it (the parser keeps the numbers, which have no leading zeros, and the
/// identifiers exactly as they stood, and `Display` writes them out again).
#[verifier::external_body]
fn semver_parse_text(text: &str) -> (r: Option<Parsed>)
    ensures
        r is Some <==> semver_parse(text@) is Some,
        r matches Some(v) ==> semver_parse(text@) == Some(v@),
        r matches Some(v) ==> semver_parse(version_text(v@)) == Some(v@),
{
    match semver::Version::parse(text) {
        Ok(v) => Some(Parsed {
            major: v.major,
            minor: v.minor,
            patch: v.patch,
            pre: v.pre.as_str().to_string(),
            build: v.build.as_str().to_string(),
            inner: v,
        }),
        Err(_) => None,
    }
}

/// Calls `semver::Version::new`, which its documentation equates with the
/// version of the given numbers and empty pre-release and build metadata;
/// its displayed text `major.minor.patch` parses back to it.
#[verifier::external_body]
fn semver_new(major: u64, minor: u64, patch: u64) -> (r: Parsed)
    ensures
        r@ == (major, minor, patch, Seq::<char>::empty(), Seq::<char>::empty()),
        semver_parse(version_text(r@)) == Some(r@),
{
    Parsed {
        major,
        minor,
        patch,
        pre: String::new(),
        build: String::new(),
        inner: semver::Version::new(major, minor, patch),
    }
}

/// A semantic version. Values are only made by parsing or by `SemVer::new`,
/// so the plain parts always describe the `semver::Version` held beside
/// them, and the version's text parses back to it.
#[derive(Debug, PartialEq, Eq)]
pub struct SemVer {
    parts: Parsed,
}

impl View for SemVer {
    type V = VersionParts;

    closed spec fn view(&self) -> VersionParts {
        self.parts@
    }
}

impl SemVer {
    #[verifier::type_invariant]
    spec fn text_parses_back(self) -> bool {
        semver_parse(version_text(self.parts@)) == Some(self.parts@)
    }
}

/// Parses a semantic version (no leading `v`), as `semver::Version::parse`
/// does.
pub fn parse_version(text: &str) -> (r: Option<SemVer>)
    ensures
        r is Some <==> semver_parse(text@) is Some,
        r matches Some(v) ==> semver_parse(text@) == Some(v@),
{
    match semver_parse_text(text) {
        Some(p) => Some(SemVer { parts: p }),
        None => None,
    }
}

/// Calls `Ord::cmp` on two `semver::Version` values. Claims, as the crate's
/// source shows (a derived lexicographic order over major, minor, patch,
/// pre-release and build metadata, each a total order): the result is the
/// named `semver_order`; it is -1, 0 or 1; it is 0 exactly for equal parts;
/// swapping the arguments negates it; the numbers decide first; a release
/// ranks above a pre-release of the same numbers; and the order is
/// transitive towards any other valid version.
#[verifier::external_body]
fn ordering_of(a: &SemVer, b: &SemVer) -> (r: i8)
    ensures
        r == semver_order(a@, b@),
        -1 <= r <= 1,
        (r == 0) == (a@ == b@),
        semver_order(b@, a@) == -r,
        a@.0 != b@.0 ==> r == (if a@.0 < b@.0 { -1i8 } else { 1i8 }),
        a@.0 == b@.0 && a@.1 != b@.1 ==> r == (if a@.1 < b@.1 { -1i8 } else { 1i8 }),
        a@.0 == b@.0 && a@.1 == b@.1 && a@.2 != b@.2 ==> r == (if a@.2 < b@.2 { -1i8 } else { 1i8 }),
        a@.0 == b@.0 && a@.1 == b@.1 && a@.2 == b@.2 && a@.3.len() == 0 && b@.3.len() > 0 ==> r == 1,
        a@.0 == b@.0 && a@.1 == b@.1 && a@.2 == b@.2 && a@.3.len() > 0 && b@.3.len() == 0 ==> r == -1,
        forall|c: VersionParts|
            #![trigger semver_order(b@, c)]
            is_semver(c) && semver_order(a@, c) >= 0 && r <= 0 ==> semver_order(b@, c) >= 0,
        forall|c: VersionParts|
            #![trigger semver_order(b@, c)]
            is_semver(c) && semver_order(c, a@) < 0 && r <= 0 ==> semver_order(b@, c) > 0,
{
    match a.parts.inner.cmp(&b.parts.inner) {
        std::cmp::Ordering::Less => -1,
        std::cmp::Ordering::Equal => 0,
        std::cmp::Ordering::Greater => 1,
    }
}

/// The order of two versions by semantic-version precedence (then build
/// metadata): -1, 0 or 1.
pub fn version_order(a: &SemVer, b: &SemVer) -> (r: i8)
    ensures
        r == semver_order(a@, b@),
        -1 <= r <= 1,
        (r == 0) == (a@ == b@),
        semver_order(b@, a@) == -r,
        a@.0 != b@.0 ==> r == (if a@.0 < b@.0 { -1i8 } else { 1i8 }),
        a@.0 == b@.0 && a@.1 != b@.1 ==> r == (if a@.1 < b@.1 { -1i8 } else { 1i8 }),
        a@.0 == b@.0 && a@.1 == b@.1 && a@.2 != b@.2 ==> r == (if a@.2 < b@.2 { -1i8 } else { 1i8 }),
        a@.0 == b@.0 && a@.1 == b@.1 && a@.2 == b@.2 && a@.3.len() == 0 && b@.3.len() > 0 ==> r == 1,
        a@.0 == b@.0 && a@.1 == b@.1 && a@.2 == b@.2 && a@.3.len() > 0 && b@.3.len() == 0 ==> r == -1,
        forall|c: VersionParts|
            #![trigger semver_order(b@, c)]
            is_semver(c) && semver_order(a@, c) >= 0 && r <= 0 ==> semver_order(b@, c) >= 0,
        forall|c: VersionParts|
            #![trigger semver_order(b@, c)]
            is_semver(c) && semver_order(c, a@) < 0 && r <= 0 ==> semver_order(b@, c) > 0,
{
    ordering_of(a, b)
}

/// Decimal digits of a natural number.
pub open spec fn decimal(n: nat) -> Seq<char>
    decreases n,
{
    if n < 10 {
        seq![digit_char(n)]
    } else {
        decimal(n / 10) + seq![digit_char(n % 10)]
    }
}

/// The character of a decimal digit.
pub open spec fn digit_char(d: nat) -> char {
    if d == 0 { '0' }
    else if d == 1 { '1' }
    else if d == 2 { '2' }
    else if d == 3 { '3' }
    else if d == 4 { '4' }
    else if d == 5 { '5' }
    else if d == 6 { '6' }
    else if d == 7 { '7' }
    else if d == 8 { '8' }
    else { '9' }
}

/// The text that `Display` of `semver::Version` writes:
/// `major.minor.patch`, then `-pre` and `+build` where those are not empty.
pub open spec fn version_text(p: VersionParts) -> Seq<char> {
    decimal(p.0 as nat) + seq!['.'] + decimal(p.1 as nat) + seq!['.'] + decimal(p.2 as nat)
        + (if p.3.len() == 0 { Seq::empty() } else { seq!['-'] + p.3 })
        + (if p.4.len() == 0 { Seq::empty() } else { seq!['+'] + p.4 })
}

fn digit_str(d: u64) -> (r: &'static str)
    requires
        d < 10,
    ensures
        r@ == seq![digit_char(d as nat)],
{
    proof {
        reveal_strlit("0");
        reveal_strlit("1");
        reveal_strlit("2");
        reveal_strlit("3");
        reveal_strlit("4");
        reveal_strlit("5");
        reveal_strlit("6");
        reveal_strlit("7");
        reveal_strlit("8");
        reveal_strlit("9");
    }
    if d == 0 { "0" }
    else if d == 1 { "1" }
    else if d == 2 { "2" }
    else if d == 3 { "3" }
    else if d == 4 { "4" }
    else if d == 5 { "5" }
    else if d == 6 { "6" }
    else if d == 7 { "7" }
    else if d == 8 { "8" }
    else { "9" }
}

/// Appends the decimal digits of `n` to `out`.
pub fn push_decimal(out: &mut String, n: u64)
    ensures
        final(out)@ == old(out)@ + decimal(n as nat),
    decreases n,
{
    if n >= 10 {
        push_decimal(out, n / 10);
    }
    out.append(digit_str(n % 10));
    assert(n >= 10 ==> decimal(n as nat) == decimal((n / 10) as nat) + seq![digit_char((n % 10) as nat)]);
}

/// The decimal text of a number starts with a digit.
pub proof fn lemma_decimal_starts_with_digit(n: nat)
    ensures
        decimal(n).len() > 0,
        '0' <= decimal(n)[0] <= '9',
    decreases n,
{
    if n >= 10 {
        lemma_decimal_starts_with_digit(n / 10);
    }
}

impl SemVer {
    /// The version `major.minor.patch` with no pre-release and no build
    /// metadata.
    pub fn new(major: u64, minor: u64, patch: u64) -> (r: SemVer)
        ensures
            r@ == (major, minor, patch, Seq::<char>::empty(), Seq::<char>::empty()),
    {
        SemVer { parts: semver_new(major, minor, patch) }
    }

    /// The text form of the version, as `semver` displays it. It starts
    /// with a digit and parses back to the version.
    pub fn to_text(&self) -> (r: String)
        ensures
            r@ == version_text(self@),
            semver_parse(r@) == Some(self@),
            r@.len() > 0,
            '0' <= r@[0] <= '9',
    {
        proof {
            use_type_invariant(self);
            lemma_decimal_starts_with_digit(self@.0 as nat);
            reveal_strlit(".");
            reveal_strlit("-");
            reveal_strlit("+");
        }
        let p = &self.parts;
        let mut s = String::new();
        push_decimal(&mut s, p.major);
        s.append(".");
        push_decimal(&mut s, p.minor);
        s.append(".");
        push_decimal(&mut s, p.patch);
        if !p.pre.as_str().is_empty() {
            s.append("-");
            s.append(p.pre.as_str());
        }
        if !p.build.as_str().is_empty() {
            s.append("+");
            s.append(p.build.as_str());
        }
        assert(s@ =~= version_text(self@));
        s
    }

    /// Equality of the two versions, field by field, as the derived
    /// `PartialEq` of `semver::Version` compares them.
    pub fn same_as(&self, other: &SemVer) -> (r: bool)
        ensures
            r == (self@ == other@),
    {
        let a = &self.parts;
        let b = &other.parts;
        a.major == b.major && a.minor == b.minor && a.patch == b.patch && a.pre == b.pre && a.build == b.build
    }
}

} // verus!
