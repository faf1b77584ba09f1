//! Semantic-version prerelease and build-metadata identifiers, and the
//! checks that the `semver` crate makes of them.
use vstd::prelude::*;
use crate::text::{decimal, digit_char};

verus! {

#[verifier::external_type_specification]
#[verifier::external_body]
pub struct ExPrerelease(semver::Prerelease);

#[verifier::external_type_specification]
#[verifier::external_body]
pub struct ExBuildMetadata(semver::BuildMetadata);

#[verifier::external_type_specification]
#[verifier::external_body]
pub struct ExSemverError(semver::Error);

pub open spec fn is_ascii_digit(c: char) -> bool {
    '0' <= c && c <= '9'
}

/// A character allowed inside an identifier: ASCII letter, digit or `-`.
pub open spec fn is_ident_char(c: char) -> bool {
    is_ascii_digit(c) || ('a' <= c && c <= 'z') || ('A' <= c && c <= 'Z') || c == '-'
}

/// `s` is a non-empty run of identifiers separated by single dots, each
/// identifier non-empty and made of identifier characters.
pub open spec fn dotted_identifiers(s: Seq<char>) -> bool {
    &&& s.len() > 0
    &&& forall|i: int| 0 <= i < s.len() ==> is_ident_char(#[trigger] s[i]) || s[i] == '.'
    &&& s[0] != '.'
    &&& s.last() != '.'
    &&& forall|i: int| 0 <= i < s.len() - 1 && #[trigger] s[i] == '.' ==> s[i + 1] != '.'
}

/// At position `i` starts an all-digit identifier of two or more
/// characters whose first digit is `0`.
pub open spec fn leading_zero_at(s: Seq<char>, i: int) -> bool {
    &&& i == 0 || s[i - 1] == '.'
    &&& s[i] == '0'
    &&& i + 1 < s.len()
    &&& s[i + 1] != '.'
    &&& forall|j: int|
        i <= j < s.len() && (forall|k: int| i <= k <= j ==> s[k] != '.') ==> is_ascii_digit(
            #[trigger] s[j],
        )
}

/// The texts that `semver::Prerelease::new` accepts: the empty text, or
/// dotted identifiers none of which is numeric with a leading zero.
pub open spec fn prerelease_accepted(s: Seq<char>) -> bool {
    s.len() == 0 || (dotted_identifiers(s) && !exists|i: int|
        0 <= i < s.len() && #[trigger] leading_zero_at(s, i))
}

/// The texts that `semver::BuildMetadata::new` accepts: the empty text, or
/// dotted identifiers (leading zeros are allowed here).
pub open spec fn build_accepted(s: Seq<char>) -> bool {
    s.len() == 0 || dotted_identifiers(s)
}

/// Relies on `semver::Prerelease::new`: it accepts exactly the empty text and
/// dot-separated non-empty identifiers of `[0-9A-Za-z-]`, rejecting a numeric
/// identifier with a leading zero.
#[verifier::external_body]
fn parse_prerelease(text: &str) -> (r: Result<semver::Prerelease, semver::Error>)
    ensures
        r.is_ok() == prerelease_accepted(text@),
{
    semver::Prerelease::new(text)
}

/// Relies on `semver::BuildMetadata::new`: it accepts exactly the empty text
/// and dot-separated non-empty identifiers of `[0-9A-Za-z-]`.
#[verifier::external_body]
fn parse_build(text: &str) -> (r: Result<semver::BuildMetadata, semver::Error>)
    ensures
        r.is_ok() == build_accepted(text@),
{
    semver::BuildMetadata::new(text)
}

/// Whether `text` may stand as the prerelease of a version.
pub fn is_valid_prerelease(text: &str) -> (r: bool)
    ensures
        r == prerelease_accepted(text@),
{
    parse_prerelease(text).is_ok()
}

/// Whether `text` may stand as the build metadata of a version.
pub fn is_valid_build(text: &str) -> (r: bool)
    ensures
        r == build_accepted(text@),
{
    parse_build(text).is_ok()
}

pub proof fn lemma_decimal_digits(n: nat)
    ensures
        decimal(n).len() > 0,
        forall|i: int| 0 <= i < decimal(n).len() ==> is_ascii_digit(#[trigger] decimal(n)[i]),
    decreases n,
{
    if n >= 10 {
        lemma_decimal_digits(n / 10);
    }
    assert forall|d: nat| d < 10 implies is_ascii_digit(#[trigger] digit_char(d)) by {
        let ds = seq!['0', '1', '2', '3', '4', '5', '6', '7', '8', '9'];
        assert(is_ascii_digit(ds[0]) && is_ascii_digit(ds[1]) && is_ascii_digit(ds[2])
            && is_ascii_digit(ds[3]) && is_ascii_digit(ds[4]) && is_ascii_digit(ds[5])
            && is_ascii_digit(ds[6]) && is_ascii_digit(ds[7]) && is_ascii_digit(ds[8])
            && is_ascii_digit(ds[9]));
    }
}

/// A number written in decimal is always accepted as build metadata.
pub proof fn lemma_decimal_is_build(n: nat)
    ensures
        build_accepted(decimal(n)),
        decimal(n).len() > 0,
{
    lemma_decimal_digits(n);
    let s = decimal(n);
    assert(s[0] != '.');
    assert(s[s.len() - 1] != '.');
}

} // verus!
