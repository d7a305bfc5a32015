//! Calls into outside crates, each behind a single trusted item.
//!
//! Results that are functions of the arguments alone but too large to state
//! are given names (`uninterp spec fn`); every other contract states only
//! what the outside crate's source or documentation shows.

use sha2::Digest;
use unicode_normalization::UnicodeNormalization;
use vstd::prelude::*;

verus! {

/// The SHA-256 digest of a byte sequence.  Named, not defined: the digest
/// is a pure function of its input, and no short statement describes it.
pub uninterp spec fn sha256_of(bytes: Seq<u8>) -> Seq<u8>;

/// The NFC (canonical composition) normalization of a character sequence.
pub uninterp spec fn nfc_of(s: Seq<char>) -> Seq<char>;

/// Whether a pattern is a syntactically valid regular expression.
pub uninterp spec fn regex_pattern_ok(pattern: Seq<char>) -> bool;

/// Whether a regular expression pattern matches somewhere in a text.
pub uninterp spec fn regex_match(pattern: Seq<char>, text: Seq<char>) -> bool;

/// Whether a string is a syntactically valid email address.
pub uninterp spec fn email_valid(s: Seq<char>) -> bool;

/// The uppercase form of a character sequence.
pub uninterp spec fn upper_of(s: Seq<char>) -> Seq<char>;

/// Relies on sha2's `Sha256::digest`: the digest depends on the input bytes
/// alone and is always 32 bytes long.
#[verifier::external_body]
pub(crate) fn sha256_digest(bytes: &Vec<u8>) -> (r: Vec<u8>)
    ensures
        r@ == sha256_of(bytes@),
        r@.len() == 32,
{
    sha2::Sha256::digest(bytes.as_slice()).to_vec()
}

/// Relies on unicode-normalization's `nfc`: the normalized form depends on
/// the input characters alone, and an empty input stays empty.
#[verifier::external_body]
pub(crate) fn nfc_normalize(s: &str) -> (r: String)
    ensures
        r@ == nfc_of(s@),
        s@.len() == 0 ==> r@.len() == 0,
{
    s.nfc().collect::<String>()
}

/// Relies on regex's `Regex::new` and `Regex::is_match`: compilation
/// succeeds exactly on valid patterns, and a match is a function of the
/// pattern and the text alone.
#[verifier::external_body]
pub(crate) fn regex_is_match(pattern: &str, text: &str) -> (r: Option<bool>)
    ensures
        match r {
            Some(b) => regex_pattern_ok(pattern@) && b == regex_match(pattern@, text@),
            None => !regex_pattern_ok(pattern@),
        },
{
    match regex::Regex::new(pattern) {
        Ok(re) => Some(re.is_match(text)),
        Err(_) => None,
    }
}

/// Relies on email-address-parser's `EmailAddress::is_valid` with default
/// options: validity is a function of the input string alone.
#[verifier::external_body]
pub(crate) fn email_is_valid(s: &str) -> (r: bool)
    ensures
        r == email_valid(s@),
{
    email_address_parser::EmailAddress::is_valid(s, None)
}

/// Relies on uuid's `Uuid::new_v4`: a version-4 UUID is 16 random bytes.
/// The value is random, so nothing beyond its length is stated.
#[verifier::external_body]
pub(crate) fn fresh_uuid_bytes() -> (r: Vec<u8>)
    ensures
        r@.len() == 16,
{
    uuid::Uuid::new_v4().into_bytes().to_vec()
}

/// Relies on std's `String::from_utf8`: it succeeds exactly on valid UTF-8
/// input and decodes it.
#[verifier::external_body]
pub(crate) fn string_from_utf8(bytes: Vec<u8>) -> (r: Option<String>)
    ensures
        match r {
            Some(s) => vstd::utf8::valid_utf8(bytes@) && s@ == vstd::utf8::decode_utf8(bytes@),
            None => !vstd::utf8::valid_utf8(bytes@),
        },
{
    match String::from_utf8(bytes) {
        Ok(s) => Some(s),
        Err(_) => None,
    }
}

/// Relies on std's `String::push`: appends exactly one character.
#[verifier::external_body]
pub(crate) fn string_push_char(s: &mut String, c: char)
    ensures
        final(s)@ == old(s)@ + seq![c],
{
    s.push(c);
}

/// Relies on std's `str::to_uppercase`: the result depends on the input
/// characters alone.
#[verifier::external_body]
pub(crate) fn str_to_uppercase(s: &str) -> (r: String)
    ensures
        r@ == upper_of(s@),
{
    s.to_uppercase()
}

} // verus!
