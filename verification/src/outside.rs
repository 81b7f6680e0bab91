use crate::precedence::{version_order, VersionOrder};
use crate::version::{canonical, Version, VersionModel};
use std::cmp::Ordering;
use vstd::prelude::*;

verus! {

#[verifier::external_type_specification]
#[verifier::external_body]
pub struct ExSemverError(semver::Error);

#[verifier::external_type_specification]
#[verifier::external_body]
pub struct ExUrlParseError(url::ParseError);

/// What `Url::parse` makes of a text: the URL in its serialized form, or
/// nothing where the text is no URL.
pub uninterp spec fn url_serialization(text: Seq<char>) -> Option<Seq<char>>;

/// `semver::Version::parse`. The contract claims the grammar that the crate
/// documents: a text is accepted exactly when it is `major.minor.patch`, each
/// a number in base ten that fits in 64 bits and has no leading zero, then,
/// if present, `-` and a pre-release, then, if present, `+` and build
/// metadata, both of them dot-separated series of non-empty identifiers of
/// ASCII letters, digits and hyphens, the pre-release without leading zeros
/// in its numbers; nothing before, between or after. What is returned is the
/// version that the text spells out.
#[verifier::external_body]
pub(crate) fn semver_parse(text: &str) -> (parsed: Result<Version, semver::Error>)
    ensures
        match parsed {
            Ok(v) => v@.wf() && canonical(v@) == text@,
            Err(_) => forall|v: VersionModel| v.wf() ==> #[trigger] canonical(v) != text@,
        },
{
    match semver::Version::parse(text) {
        Ok(v) => Ok(
            Version {
                major: v.major,
                minor: v.minor,
                patch: v.patch,
                pre: v.pre.as_str().to_owned(),
                build: v.build.as_str().to_owned(),
            },
        ),
        Err(e) => Err(e),
    }
}

/// `semver::Error`'s `Display`: what the parser found wrong, in words.
/// Nothing is claimed of the wording.
#[verifier::external_body]
pub(crate) fn semver_error_text(error: &semver::Error) -> String {
    error.to_string()
}

/// `semver::Version`'s `Ord::cmp`, on the versions that `a` and `b` stand
/// for. The contract claims the total order that the crate documents: the
/// three numbers from left to right, then the pre-releases, then the build
/// metadata. A version without pre-release comes after every pre-release of
/// the same numbers. Pre-releases and build metadata go identifier by
/// identifier: numbers by their value and, among equal values, the shorter
/// first; a number before every identifier that is none; other identifiers
/// in ASCII order; a series before every series that it begins. The versions
/// are well formed, so none of the conversions can fail.
#[verifier::external_body]
pub(crate) fn semver_order(a: &Version, b: &Version) -> (order: VersionOrder)
    requires
        a@.wf(),
        b@.wf(),
    ensures
        order == version_order(a@, b@),
{
    let mut x = semver::Version::new(a.major, a.minor, a.patch);
    x.pre = semver::Prerelease::new(&a.pre).unwrap();
    x.build = semver::BuildMetadata::new(&a.build).unwrap();
    let mut y = semver::Version::new(b.major, b.minor, b.patch);
    y.pre = semver::Prerelease::new(&b.pre).unwrap();
    y.build = semver::BuildMetadata::new(&b.build).unwrap();
    match x.cmp(&y) {
        Ordering::Less => VersionOrder::Older,
        Ordering::Equal => VersionOrder::Same,
        Ordering::Greater => VersionOrder::Newer,
    }
}

/// `reqwest::Url::parse`, with the URL handed on as its serialization (the
/// text that `Url::as_str` shows).
#[verifier::external_body]
pub(crate) fn parse_url(text: &str) -> (parsed: Result<String, url::ParseError>)
    ensures
        match parsed {
            Ok(url) => url_serialization(text@) == Some(url@),
            Err(_) => url_serialization(text@) is None,
        },
{
    match reqwest::Url::parse(text) {
        Ok(url) => Ok(String::from(url)),
        Err(e) => Err(e),
    }
}

/// `url::ParseError`'s `Display`: why a text is no URL, in words. Nothing is
/// claimed of the wording.
#[verifier::external_body]
pub(crate) fn url_error_text(error: &url::ParseError) -> String {
    error.to_string()
}

} // verus!
