use surrealvm::error::{ParseError, SVMError};
use surrealvm::version::{decimal_string, parse_surreal_version, SemVer, SpecialVer, VerSelection};

fn sname(s: &str) -> String {
    VerSelection::parse(s).ok().expect("parses").to_sname()
}

#[test]
fn explicit_versions_are_named_with_v() {
    assert_eq!(sname("1.2.3"), "v1.2.3");
    assert_eq!(sname("v1.2.3"), "v1.2.3");
    assert_eq!(sname("0.0.0"), "v0.0.0");
    assert_eq!(sname("v10.20.30-beta.1+build.5"), "v10.20.30-beta.1+build.5");
}

#[test]
fn whitespace_around_a_version_is_ignored() {
    assert_eq!(sname("  v2.0.0\n"), "v2.0.0");
}

#[test]
fn parsed_parts_come_from_semver() {
    let v = parse_surreal_version("v1.2.3-alpha.4+meta").ok().expect("parses");
    assert_eq!((v.major, v.minor, v.patch), (1, 2, 3));
    assert_eq!(v.pre, "alpha.4");
    assert_eq!(v.build, "meta");
}

#[test]
fn reserved_tags_round_trip() {
    for tag in ["none", "latest", "alpha", "nightly"] {
        assert_eq!(sname(tag), tag);
    }
}

#[test]
fn beta_is_named_leta() {
    assert_eq!(sname("beta"), "leta");
    assert!(matches!(VerSelection::parse("beta"), Ok(VerSelection::Special(SpecialVer::Beta))));
}

#[test]
fn tags_are_case_sensitive() {
    assert!(matches!(VerSelection::parse("Latest"), Err(ParseError::InvalidVersion)));
}

#[test]
fn rejects_text_that_is_no_version() {
    assert!(matches!(VerSelection::parse("not-a-version"), Err(ParseError::InvalidVersion)));
    assert!(matches!(VerSelection::parse(""), Err(ParseError::InvalidVersion)));
    assert!(matches!(VerSelection::parse("1.2"), Err(ParseError::InvalidVersion)));
    assert!(matches!(parse_surreal_version("x1.2.3"), Err(ParseError::InvalidVersion)));
}

#[test]
fn selection_accessors() {
    let custom = VerSelection::parse("1.4.0").ok().unwrap();
    assert_eq!(custom.to_special(), None);
    let v = custom.to_version().unwrap();
    assert_eq!(v.to_text(), "1.4.0");
    let latest = VerSelection::parse("latest").ok().unwrap();
    assert_eq!(latest.to_special(), Some("latest"));
    assert!(latest.to_version().is_none());
}

#[test]
fn decimal_text_of_integers() {
    assert_eq!(decimal_string(0), "0");
    assert_eq!(decimal_string(7), "7");
    assert_eq!(decimal_string(10), "10");
    assert_eq!(decimal_string(1234567890), "1234567890");
    assert_eq!(decimal_string(u64::MAX), "18446744073709551615");
}

#[test]
fn version_text_omits_empty_parts() {
    let v = SemVer { major: 3, minor: 0, patch: 12, pre: String::new(), build: "b".to_string() };
    assert_eq!(v.to_text(), "3.0.12+b");
    assert_eq!(v.duplicate().to_text(), "3.0.12+b");
}

#[test]
fn tag_names_and_alias_urls() {
    assert_eq!(SpecialVer::NoVersion.to_name(), "none");
    assert_eq!(SpecialVer::Beta.to_name(), "leta");
    assert_eq!(SpecialVer::Latest.alias_url(), "https://download.surrealdb.com/latest.txt");
    assert_eq!(SpecialVer::Nightly.alias_url(), "https://download.surrealdb.com/nightly.txt");
}

#[test]
fn errors_convert_from_messages_and_parse_errors() {
    assert!(matches!(SVMError::from("boom".to_string()), SVMError::Thrown(m) if m == "boom"));
    assert!(matches!(
        SVMError::from(ParseError::InvalidVersion),
        SVMError::Parse(ParseError::InvalidVersion)
    ));
}

#[test]
fn tags_resolve_through_the_published_text() {
    let latest = VerSelection::parse("latest").ok().unwrap();
    let v = latest.resolve_from("v2.3.4\n").ok().expect("resolves");
    assert_eq!(v.to_text(), "2.3.4");
    assert!(matches!(latest.resolve_from("<html>"), Err(ParseError::InvalidVersion)));
    let custom = VerSelection::parse("1.0.1").ok().unwrap();
    assert_eq!(custom.resolve_from("").ok().unwrap().to_text(), "1.0.1");
}
