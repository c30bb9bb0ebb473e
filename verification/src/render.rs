//! Renderings of decoded bytes that outside crates compute: lossy text,
//! pretty-printed JSON, and the annotated hex dump.

use vstd::prelude::*;
use vstd::utf8::{decode_utf8, encode_utf8, valid_utf8};

verus! {

/// The text that lossy UTF-8 decoding yields for a byte sequence; a function
/// of the bytes alone.
pub uninterp spec fn utf8_lossy_of(b: Seq<u8>) -> Seq<char>;

/// The indented re-serialization of a text that parses as JSON, `None` for a
/// text that does not; a function of the text alone.
pub uninterp spec fn json_pretty_of(s: Seq<char>) -> Option<Seq<char>>;

/// The annotated multi-column hex dump of a byte sequence (offset, hex
/// octets, printable characters); a function of the bytes alone.
pub uninterp spec fn pretty_hex_of(b: Seq<u8>) -> Seq<char>;

/// Relies on `String::from_utf8_lossy`: invalid sequences are replaced, so
/// it never fails, and valid UTF-8 is decoded losslessly.
#[verifier::external_body]
pub(crate) fn utf8_lossy(b: &[u8]) -> (r: String)
    ensures
        r@ == utf8_lossy_of(b@),
        valid_utf8(b@) ==> encode_utf8(r@) == b@,
        b@.len() == 0 ==> r@.len() == 0,
{
    String::from_utf8_lossy(b).into_owned()
}

/// Relies on `str::from_utf8`: it succeeds exactly on valid UTF-8 and
/// returns the text those bytes encode.
#[verifier::external_body]
pub(crate) fn utf8_strict(b: &[u8]) -> (r: Option<String>)
    ensures
        match r {
            Some(s) => valid_utf8(b@) && s@ == decode_utf8(b@),
            None => !valid_utf8(b@),
        },
{
    match std::str::from_utf8(b) {
        Ok(s) => Some(s.to_owned()),
        Err(_) => None,
    }
}

/// Relies on serde_json: `from_str` parses the text to a `Value` exactly
/// when it is well-formed JSON, and `to_string_pretty` re-serializes that
/// value with indentation. Both are functions of the text alone.
#[verifier::external_body]
pub(crate) fn json_reformat(s: &str) -> (r: Option<String>)
    ensures
        match r {
            Some(p) => json_pretty_of(s@) == Some(p@),
            None => json_pretty_of(s@) is None,
        },
{
    match serde_json::from_str::<serde_json::Value>(s) {
        Ok(v) => match serde_json::to_string_pretty(&v) {
            Ok(p) => Some(p),
            Err(_) => None,
        },
        Err(_) => None,
    }
}

/// Relies on `pretty_hex::pretty_hex`: the multi-line dump with addressing,
/// hex digits and ASCII column, in the crate's default format.
#[verifier::external_body]
pub(crate) fn pretty_hex_dump(b: &Vec<u8>) -> (r: String)
    ensures
        r@ == pretty_hex_of(b@),
{
    pretty_hex::pretty_hex(b)
}

} // verus!
