//! The crate's boundary to outside code: the `url` crate's parser, and the
//! two pieces of std's string handling that vstd gives no specification.
//! Each item's contract states only what the called code's source or
//! documentation shows; everything else in the crate is verified against
//! these contracts.

use vstd::prelude::*;

verus! {

/// The characters that `String::from_utf8_lossy` yields for a byte sequence:
/// its UTF-8 decoding, with invalid sequences replaced.  The result is a
/// function of the bytes alone.
pub uninterp spec fn lossy_decode(bytes: Seq<u8>) -> Seq<char>;

/// Relies on std's `String::from_utf8_lossy`: it decodes a byte buffer as
/// UTF-8, replacing invalid sequences with the replacement character, never
/// failing; an empty buffer decodes to an empty string.
#[verifier::external_body]
pub fn bytes_to_string_lossy(bytes: &Vec<u8>) -> (r: String)
    ensures
        r@ == lossy_decode(bytes@),
        bytes@.len() == 0 ==> r@.len() == 0,
{
    String::from_utf8_lossy(bytes).into_owned()
}

/// Relies on std's `String::push`: it appends the one character.
#[verifier::external_body]
pub fn push_char(s: &mut String, c: char)
    ensures
        final(s)@ == old(s)@.push(c),
{
    s.push(c);
}

/// What `url::Url::parse` yields for a string, projected to plain values:
/// `None` when the string does not parse as an absolute URL, or parses to a
/// URL that carries no host; otherwise the URL's scheme, host, explicit port
/// (`None` where the string names none, or names the scheme's default), and
/// path.  The result is a function of the characters alone.
pub uninterp spec fn url_parts(s: Seq<char>) -> Option<(Seq<char>, Seq<char>, Option<u16>, Seq<char>)>;

/// Relies on `url::Url::parse` and its accessors `scheme`, `host_str`,
/// `port` and `path`: parsing an absolute URL either fails or yields a URL
/// whose scheme, host, port and path are functions of the input alone.
#[verifier::external_body]
pub fn parse_url_parts(s: &str) -> (r: Option<(String, String, Option<u16>, String)>)
    ensures
        match r {
            Some(p) => url_parts(s@) == Some((p.0@, p.1@, p.2, p.3@)),
            None => url_parts(s@) is None,
        },
{
    match url::Url::parse(s) {
        Ok(u) => match u.host_str() {
            Some(h) => {
                Some((u.scheme().to_string(), h.to_string(), u.port(), u.path().to_string()))
            },
            None => None,
        },
        Err(_) => None,
    }
}

} // verus!
