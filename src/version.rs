//! Version specifiers: reserved tags and explicit semantic versions.
use vstd::prelude::*;
use vstd::string::*;
use crate::error::ParseError;
use crate::text::{eq_str, strip_vs, trim_leading_vs};

verus! {

/// The five parts of a semantic version: major, minor, patch, pre-release
/// and build metadata.
pub type VersionParts = (u64, u64, u64, Seq<char>, Seq<char>);

/// What `semver::Version::parse` gives for a text: `None` where it rejects it.
pub uninterp spec fn semver_parse(s: Seq<char>) -> Option<VersionParts>;

/// What `str::trim` leaves of a text.
pub uninterp spec fn trimmed(s: Seq<char>) -> Seq<char>;

/// The text of one decimal digit.
pub open spec fn digit_text(d: nat) -> Seq<char> {
    "0123456789"@.subrange(d as int, d + 1 as int)
}

/// The decimal notation of `n`, without leading zeros.
pub open spec fn decimal(n: nat) -> Seq<char>
    decreases n,
{
    if n < 10 {
        digit_text(n)
    } else {
        decimal(n / 10) + digit_text(n % 10)
    }
}

/// The canonical text of a semantic version:
/// `major.minor.patch`, then `-pre` and `+build` where those are not empty.
pub open spec fn version_text(p: VersionParts) -> Seq<char> {
    decimal(p.0 as nat) + "."@ + decimal(p.1 as nat) + "."@ + decimal(p.2 as nat)
        + (if p.3.len() > 0 { "-"@ + p.3 } else { Seq::empty() })
        + (if p.4.len() > 0 { "+"@ + p.4 } else { Seq::empty() })
}

/// The decimal notation of `n`.
pub fn decimal_string(n: u64) -> (r: String)
    ensures
        r@ == decimal(n as nat),
{
    let digits = "0123456789";
    proof {
        reveal_strlit("0123456789");
    }
    let mut m: u64 = n;
    let mut acc = String::new();
    while m >= 10
        invariant
            digits@ == "0123456789"@,
            digits@.len() == 10,
            decimal(n as nat) == decimal(m as nat) + acc@,
        decreases m,
    {
        let d = (m % 10) as usize;
        let piece = digits.substring_char(d, d + 1);
        let ghost old_acc = acc@;
        acc = String::from_str(piece).concat(acc.as_str());
        assert(decimal(m as nat) == decimal((m / 10) as nat) + digit_text((m % 10) as nat));
        assert(decimal(n as nat) =~= decimal((m / 10) as nat) + acc@);
        m = m / 10;
    }
    let d = m as usize;
    let r = String::from_str(digits.substring_char(d, d + 1)).concat(acc.as_str());
    r
}

/// A semantic version, held as its five parts.
pub struct SemVer {
    pub major: u64,
    pub minor: u64,
    pub patch: u64,
    pub pre: String,
    pub build: String,
}

impl SemVer {
    pub open spec fn parts(&self) -> VersionParts {
        (self.major, self.minor, self.patch, self.pre@, self.build@)
    }

    /// The canonical text of this version.
    pub open spec fn text(&self) -> Seq<char> {
        version_text(self.parts())
    }

    /// A copy of this version.
    pub fn duplicate(&self) -> (r: SemVer)
        ensures
            r.parts() == self.parts(),
    {
        SemVer {
            major: self.major,
            minor: self.minor,
            patch: self.patch,
            pre: self.pre.clone(),
            build: self.build.clone(),
        }
    }

    /// The canonical text of this version, as `semver` displays it.
    pub fn to_text(&self) -> (r: String)
        ensures
            r@ == self.text(),
    {
        proof {
            reveal_strlit(".");
            reveal_strlit("-");
            reveal_strlit("+");
        }
        let mut r = decimal_string(self.major);
        r.append(".");
        r.append(decimal_string(self.minor).as_str());
        r.append(".");
        r.append(decimal_string(self.patch).as_str());
        if self.pre.unicode_len() > 0 {
            r.append("-");
            r.append(self.pre.as_str());
        }
        if self.build.unicode_len() > 0 {
            r.append("+");
            r.append(self.build.as_str());
        }
        r
    }
}

/// Relies on `semver::Version::parse`: whether a text is accepted, and the
/// five parts of the version it denotes, depend on the text alone.
#[verifier::external_body]
pub(crate) fn parse_version(s: &str) -> (r: Option<SemVer>)
    ensures
        r is None <==> semver_parse(s@) is None,
        r is Some ==> semver_parse(s@) == Some(r->0.parts()),
{
    match semver::Version::parse(s) {
        Ok(v) => Some(SemVer {
            major: v.major,
            minor: v.minor,
            patch: v.patch,
            pre: v.pre.as_str().to_string(),
            build: v.build.as_str().to_string(),
        }),
        Err(_) => None,
    }
}

/// Relies on `str::trim`: the text left depends on the text alone.
#[verifier::external_body]
fn trim(s: &str) -> (r: &str)
    ensures
        r@ == trimmed(s@),
{
    s.trim()
}

/// The text that is read as a semantic version: surrounding whitespace and
/// leading `v`s removed.
pub open spec fn version_body(s: Seq<char>) -> Seq<char> {
    strip_vs(trimmed(s))
}

/// Reads a version as it is written by users and in the remote alias files:
/// whitespace around it and a leading `v` are ignored.
pub fn parse_surreal_version(ver_str: &str) -> (r: Result<SemVer, ParseError>)
    ensures
        semver_parse(version_body(ver_str@)) is None ==> r == Err::<SemVer, ParseError>(
            ParseError::InvalidVersion,
        ),
        semver_parse(version_body(ver_str@)) is Some ==> r is Ok && Some(r->Ok_0.parts())
            == semver_parse(version_body(ver_str@)),
{
    let body = trim_leading_vs(trim(ver_str));
    match parse_version(body) {
        Some(v) => Ok(v),
        None => Err(ParseError::InvalidVersion),
    }
}

/// A reserved tag that stands for a version looked up remotely, or for no
/// version at all.
#[derive(Debug, Clone, Copy, PartialEq, Eq, Structural)]
pub enum SpecialVer {
    NoVersion,
    Latest,
    Beta,
    Alpha,
    Nightly,
}

/// The reserved tag that a text is, if any (exact, case-sensitive match).
pub open spec fn special_of(s: Seq<char>) -> Option<SpecialVer> {
    if s == "none"@ {
        Some(SpecialVer::NoVersion)
    } else if s == "latest"@ {
        Some(SpecialVer::Latest)
    } else if s == "beta"@ {
        Some(SpecialVer::Beta)
    } else if s == "alpha"@ {
        Some(SpecialVer::Alpha)
    } else if s == "nightly"@ {
        Some(SpecialVer::Nightly)
    } else {
        None
    }
}

impl SpecialVer {
    /// The name under which a tag is stored and looked up. The beta tag's name
    /// is `leta`, as the tool has always written it.
    pub open spec fn name(self) -> Seq<char> {
        match self {
            SpecialVer::NoVersion => "none"@,
            SpecialVer::Latest => "latest"@,
            SpecialVer::Beta => "leta"@,
            SpecialVer::Alpha => "alpha"@,
            SpecialVer::Nightly => "nightly"@,
        }
    }

    /// The position of a tag in the listing order.
    pub open spec fn rank(self) -> nat {
        match self {
            SpecialVer::NoVersion => 0,
            SpecialVer::Latest => 1,
            SpecialVer::Beta => 2,
            SpecialVer::Alpha => 3,
            SpecialVer::Nightly => 4,
        }
    }

    pub fn to_name(&self) -> (r: &'static str)
        ensures
            r@ == self.name(),
    {
        match self {
            SpecialVer::NoVersion => "none",
            SpecialVer::Latest => "latest",
            SpecialVer::Beta => "leta",
            SpecialVer::Alpha => "alpha",
            SpecialVer::Nightly => "nightly",
        }
    }
}

/// The reserved tag that a text is, if any.
pub fn special_from(s: &str) -> (r: Option<SpecialVer>)
    ensures
        r == special_of(s@),
{
    if eq_str(s, "none") {
        Some(SpecialVer::NoVersion)
    } else if eq_str(s, "latest") {
        Some(SpecialVer::Latest)
    } else if eq_str(s, "beta") {
        Some(SpecialVer::Beta)
    } else if eq_str(s, "alpha") {
        Some(SpecialVer::Alpha)
    } else if eq_str(s, "nightly") {
        Some(SpecialVer::Nightly)
    } else {
        None
    }
}

/// What a user asked for: a reserved tag, or an explicit version.
pub enum VerSelection {
    Special(SpecialVer),
    Custom(SemVer),
}

/// The canonical name of what a specifier text denotes, or `None` where the
/// text is rejected.
pub open spec fn canonical_name_of(s: Seq<char>) -> Option<Seq<char>> {
    match special_of(s) {
        Some(t) => Some(t.name()),
        None => match semver_parse(version_body(s)) {
            Some(p) => Some("v"@ + version_text(p)),
            None => None,
        },
    }
}

impl VerSelection {
    /// The canonical name: a tag's name, or `v` followed by the version.
    pub open spec fn sname(&self) -> Seq<char> {
        match self {
            VerSelection::Special(t) => t.name(),
            VerSelection::Custom(v) => "v"@ + v.text(),
        }
    }

    /// Reads a specifier: one of the reserved tags, or else a semantic
    /// version, possibly after a `v`.
    pub fn parse(value: &str) -> (r: Result<VerSelection, ParseError>)
        ensures
            special_of(value@) is Some ==> r == Ok::<VerSelection, ParseError>(
                VerSelection::Special(special_of(value@)->0),
            ),
            special_of(value@) is None && semver_parse(version_body(value@)) is None ==> r
                == Err::<VerSelection, ParseError>(ParseError::InvalidVersion),
            special_of(value@) is None && semver_parse(version_body(value@)) is Some ==> r is Ok
                && r->Ok_0 is Custom && Some(r->Ok_0->Custom_0.parts()) == semver_parse(
                version_body(value@),
            ),
            r is Ok <==> canonical_name_of(value@) is Some,
            r is Ok ==> canonical_name_of(value@) == Some(r->Ok_0.sname()),
    {
        match special_from(value) {
            Some(t) => Ok(VerSelection::Special(t)),
            None => match parse_surreal_version(value) {
                Ok(v) => Ok(VerSelection::Custom(v)),
                Err(e) => Err(e),
            },
        }
    }

    /// The canonical name of this selection.
    pub fn to_sname(&self) -> (r: String)
        ensures
            r@ == self.sname(),
    {
        match self {
            VerSelection::Special(s) => String::from_str(s.to_name()),
            VerSelection::Custom(v) => String::from_str("v").concat(v.to_text().as_str()),
        }
    }

    /// The tag's name, for a reserved tag.
    pub fn to_special(&self) -> (r: Option<&'static str>)
        ensures
            match self {
                VerSelection::Special(t) => r is Some && r->0@ == t.name(),
                VerSelection::Custom(_) => r is None,
            },
    {
        match self {
            VerSelection::Special(s) => Some(s.to_name()),
            VerSelection::Custom(_) => None,
        }
    }

    /// The concrete version this selection stands for. An explicit version
    /// stands for itself; a tag stands for the version named by
    /// `alias_text`, the text published for it (see `SpecialVer::alias_url`).
    pub fn resolve_from(&self, alias_text: &str) -> (r: Result<SemVer, ParseError>)
        ensures
            match self {
                VerSelection::Custom(v) => r is Ok && r->Ok_0.parts() == v.parts(),
                VerSelection::Special(_) => match semver_parse(version_body(alias_text@)) {
                    Some(p) => r is Ok && r->Ok_0.parts() == p,
                    None => r == Err::<SemVer, ParseError>(ParseError::InvalidVersion),
                },
            },
    {
        match self {
            VerSelection::Custom(v) => Ok(v.duplicate()),
            VerSelection::Special(_) => parse_surreal_version(alias_text),
        }
    }

    /// The version itself, where it is explicit; a tag needs a remote lookup.
    pub fn to_version(&self) -> (r: Option<SemVer>)
        ensures
            match self {
                VerSelection::Special(_) => r is None,
                VerSelection::Custom(v) => r is Some && r->0.parts() == v.parts(),
            },
    {
        match self {
            VerSelection::Special(_) => None,
            VerSelection::Custom(v) => Some(v.duplicate()),
        }
    }
}

} // verus!
