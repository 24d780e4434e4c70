//! Identifiers, digests, media types and timestamps, as the outside crates
//! compute them.
use vstd::prelude::*;

verus! {

/// A character of Crockford's base-32 alphabet, in either case
/// (`0-9`, `A-Z` without `I`, `L`, `O`, `U`).
pub open spec fn is_base32_char(c: char) -> bool {
    ||| ('0' <= c && c <= '9')
    ||| ('A' <= c && c <= 'Z' && c != 'I' && c != 'L' && c != 'O' && c != 'U')
    ||| ('a' <= c && c <= 'z' && c != 'i' && c != 'l' && c != 'o' && c != 'u')
}

/// The text form of a Julid: 26 characters of Crockford's base-32 alphabet.
pub open spec fn is_julid_text(s: Seq<char>) -> bool {
    &&& s.len() == 26
    &&& forall|i: int| 0 <= i < s.len() ==> is_base32_char(#[trigger] s[i])
}

/// A lowercase hexadecimal digit.
pub open spec fn is_lower_hex_char(c: char) -> bool {
    ('0' <= c && c <= '9') || ('a' <= c && c <= 'f')
}

/// The hyphenated text form of a UUID: 36 characters, hyphens at positions
/// 8, 13, 18 and 23, lowercase hexadecimal digits elsewhere.
pub open spec fn is_uuid_text(s: Seq<char>) -> bool {
    &&& s.len() == 36
    &&& forall|i: int|
        0 <= i < 36 ==> if i == 8 || i == 13 || i == 18 || i == 23 {
            #[trigger] s[i] == '-'
        } else {
            is_lower_hex_char(s[i])
        }
}

/// The lowercase hexadecimal SHA-256 digest of `data`, as `sha256::digest`
/// gives it.
pub uninterp spec fn sha256_hex(data: Seq<u8>) -> Seq<char>;

/// The media type that `mime_guess` lists first for the extension of `path`,
/// if it knows one.
pub uninterp spec fn mime_guess_first(path: Seq<char>) -> Option<Seq<char>>;

/// The RFC 3339 text of the UTC instant `secs` seconds and `nanos`
/// nanoseconds after the Unix epoch, where chrono can represent it.
pub uninterp spec fn rfc3339_utc(secs: i64, nanos: u32) -> Option<Seq<char>>;

/// The last component of `path` as `std::path::Path::file_name` gives it.
pub uninterp spec fn path_file_name(path: Seq<char>) -> Option<Seq<char>>;

/// The view of an optional string.
pub open spec fn opt_text(s: Option<String>) -> Option<Seq<char>> {
    match s {
        Some(t) => Some(t@),
        None => None,
    }
}

/// `julid::Julid::new()` in its text form (`as_string`). Julid's source
/// encodes the 128-bit value as 26 characters of its base-32 alphabet
/// (uppercase), so the text is a valid Julid text; which id comes out depends
/// on the clock and a random number, and is not stated.
#[verifier::external_body]
pub(crate) fn fresh_julid_text() -> (s: String)
    ensures
        is_julid_text(s@),
{
    julid::Julid::new().as_string()
}

/// Whether `julid::Julid::from_str` accepts `s`. Its source accepts exactly
/// the strings of 26 bytes that are all in its base-32 lookup table, which are
/// the strings of 26 characters of Crockford's alphabet in either case.
#[verifier::external_body]
pub(crate) fn julid_parses(s: &str) -> (b: bool)
    ensures
        b == is_julid_text(s@),
{
    julid::Julid::from_str(s).is_ok()
}

/// `uuid::Uuid::new_v4().to_string()`. The `Display` of a `Uuid` is the
/// hyphenated lowercase form; the random value itself is not stated.
#[verifier::external_body]
pub(crate) fn fresh_uuid_text() -> (s: String)
    ensures
        is_uuid_text(s@),
{
    uuid::Uuid::new_v4().to_string()
}

/// `sha256::digest` of the bytes `data`: the result is named `sha256_hex`.
#[verifier::external_body]
pub(crate) fn sha256_digest(data: &[u8]) -> (s: String)
    ensures
        s@ == sha256_hex(data@),
{
    sha256::digest(data)
}

/// `mime_guess::from_path(path).first()` as text: the result is named
/// `mime_guess_first`.
#[verifier::external_body]
pub(crate) fn guess_mime(path: &str) -> (m: Option<String>)
    ensures
        opt_text(m) == mime_guess_first(path@),
{
    match mime_guess::from_path(path).first() {
        Some(mime) => Some(mime.to_string()),
        None => None,
    }
}

/// `chrono::DateTime::<Utc>::from_timestamp(secs, nanos)` formatted with
/// `to_rfc3339`: the result is named `rfc3339_utc`.
#[verifier::external_body]
pub(crate) fn format_utc(secs: i64, nanos: u32) -> (t: Option<String>)
    ensures
        opt_text(t) == rfc3339_utc(secs, nanos),
{
    match chrono::DateTime::<chrono::Utc>::from_timestamp(secs, nanos) {
        Some(instant) => Some(instant.to_rfc3339()),
        None => None,
    }
}

/// `std::path::Path::new(path).file_name()` as text: the result is named
/// `path_file_name`. A `&str` path is valid UTF-8, so its last component is
/// too.
#[verifier::external_body]
pub(crate) fn file_name_of(path: &str) -> (n: Option<String>)
    ensures
        opt_text(n) == path_file_name(path@),
{
    match std::path::Path::new(path).file_name() {
        Some(name) => Some(name.to_string_lossy().into_owned()),
        None => None,
    }
}

} // verus!
