//! Trusted boundary to the outside crates and to the few std functions
//! that vstd gives no specification.
//!
//! Every function here is `external_body`: its contract is believed, not
//! proved.  Each one makes a single outside call (a pattern match pairs
//! the compilation of the pattern with the match) and converts values;
//! nothing else happens in these bodies.

use vstd::prelude::*;
use vstd::utf8::valid_utf8;
use vstd::utf8::decode_utf8;

verus! {

/// Whether the glob pattern `p` compiles, as `glob::Pattern::new`
/// decides it.
pub uninterp spec fn glob_ok(p: Seq<char>) -> bool;

/// Whether the compiled glob pattern `p` matches the path `s`, as
/// `glob::Pattern::matches` decides it.
pub uninterp spec fn glob_match_of(p: Seq<char>, s: Seq<char>) -> bool;

/// Relies on `glob::Pattern::new` (an invalid pattern, and only an
/// invalid one, yields an error) and `glob::Pattern::matches`; both
/// depend on their string arguments alone.
#[verifier::external_body]
pub(crate) fn glob_match(pattern: &str, text: &str) -> (r: Option<bool>)
    ensures
        r is Some <==> glob_ok(pattern@),
        r matches Some(b) ==> b == glob_match_of(pattern@, text@),
{
    match glob::Pattern::new(pattern) {
        Ok(p) => Some(p.matches(text)),
        Err(_) => None,
    }
}

/// Whether the regular expression `p` compiles, as `regex::Regex::new`
/// decides it.
pub uninterp spec fn regex_ok(p: Seq<char>) -> bool;

/// Whether the regular expression `p` matches somewhere in `s`, as
/// `regex::Regex::is_match` decides it.
pub uninterp spec fn regex_match_of(p: Seq<char>, s: Seq<char>) -> bool;

/// Relies on `regex::Regex::new` (an invalid pattern, and only an
/// invalid one, yields an error) and `regex::Regex::is_match`; both
/// depend on their string arguments alone.
#[verifier::external_body]
pub(crate) fn regex_match(pattern: &str, text: &str) -> (r: Option<bool>)
    ensures
        r is Some <==> regex_ok(pattern@),
        r matches Some(b) ==> b == regex_match_of(pattern@, text@),
{
    match regex::Regex::new(pattern) {
        Ok(re) => Some(re.is_match(text)),
        Err(_) => None,
    }
}

/// The CRC32 checksum of a byte sequence, as `crc32fast::hash`
/// computes it.
pub uninterp spec fn crc32_of(bytes: Seq<u8>) -> u32;

/// Relies on `crc32fast::hash`: the checksum depends on the bytes alone.
#[verifier::external_body]
pub(crate) fn crc32(bytes: &[u8]) -> (r: u32)
    ensures
        r == crc32_of(bytes@),
{
    crc32fast::hash(bytes)
}

/// Relies on `core::str::from_utf8`: it succeeds exactly on well-formed
/// UTF-8 and returns the decoded characters.
#[verifier::external_body]
pub(crate) fn utf8_to_string(bytes: &[u8]) -> (r: Option<String>)
    ensures
        r is Some <==> valid_utf8(bytes@),
        r matches Some(s) ==> s@ == decode_utf8(bytes@),
{
    match core::str::from_utf8(bytes) {
        Ok(s) => Some(s.to_string()),
        Err(_) => None,
    }
}

/// What `str::trim` leaves of a string: the same text with leading and
/// trailing whitespace removed.
pub uninterp spec fn trim_of(s: Seq<char>) -> Seq<char>;

/// Relies on `str::trim`: the result depends on the characters alone
/// and is never longer than the input.
#[verifier::external_body]
pub(crate) fn trim(s: &str) -> (r: String)
    ensures
        r@ == trim_of(s@),
        r@.len() <= s@.len(),
        s@.len() == 0 ==> r@.len() == 0,
{
    s.trim().to_string()
}

} // verus!
