//! Checks on text that goes into HTTP headers and socket URLs.
use vstd::prelude::*;

verus! {

/// Whether the text is a URL that names a host.
pub uninterp spec fn url_with_host(s: Seq<char>) -> bool;

/// A character that may stand in an HTTP header value: a tab, or anything
/// from the space upwards but DEL (every non-ASCII character encodes to bytes
/// of 0x80 and above).
pub open spec fn header_char(c: char) -> bool {
    c == '\t' || (' ' <= c && c != '\x7f')
}

pub open spec fn valid_header_value(s: Seq<char>) -> bool {
    forall|i: int| 0 <= i < s.len() ==> header_char(#[trigger] s[i])
}

/// Relies on reqwest::header::HeaderValue::from_str, which accepts a text
/// exactly when each of its bytes is a tab or at least 32 and not 127.
#[verifier::external_body]
pub fn header_value_ok(s: &str) -> (r: bool)
    ensures
        r == valid_header_value(s@),
{
    reqwest::header::HeaderValue::from_str(s).is_ok()
}

/// Relies on url::Url::parse and url::Url::host_str: whether the text parses
/// as a URL that has a host.
#[verifier::external_body]
pub fn url_has_host(s: &str) -> (r: bool)
    ensures
        r == url_with_host(s@),
{
    match url::Url::parse(s) {
        Ok(u) => u.host_str().is_some(),
        Err(_) => false,
    }
}

} // verus!
