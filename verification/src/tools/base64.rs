//! The combined Base64 tool: one input, shown encoded (unpadded standard
//! alphabet) and decoded side by side, the decoded bytes as text or — when
//! they are not valid UTF-8 — as hexadecimal.

use vstd::prelude::*;
use vstd::utf8::{decode_utf8, encode_utf8, valid_utf8};

use crate::base64code::{
    base64_decode_standard_nopad, base64_encode_standard_nopad,
    lemma_base64_decode_nopad_of_encoding, spec_base64_decode_nopad, spec_base64_encode_nopad,
};
use crate::hexcode::{hex_encode, spec_hex_encode};
use crate::render::utf8_strict;

verus! {

/// The tool's state: its one input text.
#[derive(Clone, Debug, PartialEq)]
pub struct ToolData {
    pub input: String,
}

impl Default for ToolData {
    /// Empty input.
    fn default() -> (r: Self)
        ensures
            r.input@ == Seq::<char>::empty(),
    {
        ToolData { input: String::new() }
    }
}

/// What the tool shows: the input encoded, the input decoded, and a note
/// when decoding degraded to hexadecimal or failed.
#[derive(Clone, Debug, PartialEq)]
pub struct ToolBase64Output {
    pub encoded: String,
    pub decoded: String,
    pub error: String,
}

impl ToolData {
    /// The decoded pane for this input: the decoded bytes as text when they
    /// are valid UTF-8; as lowercase hexadecimal, with a note, when they
    /// are not; empty, with a note, when the input is no unpadded Base64
    /// text.
    pub open spec fn spec_decoded(self) -> (Seq<char>, Seq<char>) {
        match spec_base64_decode_nopad(self.input@, false) {
            Some(v) => if valid_utf8(v) {
                (decode_utf8(v), Seq::<char>::empty())
            } else {
                (spec_hex_encode(v), "Decoded data is not a valid UTF-8 string"@)
            },
            None => (Seq::<char>::empty(), "Invalid input to decode"@),
        }
    }

    /// Computes both panes from the input.
    pub fn transform(&self) -> (r: ToolBase64Output)
        ensures
            r.encoded@ == spec_base64_encode_nopad(encode_utf8(self.input@), false),
            r.decoded@ == self.spec_decoded().0,
            r.error@ == self.spec_decoded().1,
    {
        let encoded = base64_encode_standard_nopad(self.input.as_str().as_bytes());
        match base64_decode_standard_nopad(self.input.as_str()) {
            Some(v) => {
                proof {
                    lemma_base64_decode_nopad_of_encoding(self.input@, v@, false);
                }
                match utf8_strict(v.as_slice()) {
                    Some(s) => ToolBase64Output { encoded, decoded: s, error: String::new() },
                    None => ToolBase64Output {
                        encoded,
                        decoded: hex_encode(v.as_slice()),
                        error: "Decoded data is not a valid UTF-8 string".to_owned(),
                    },
                }
            },
            None => ToolBase64Output {
                encoded,
                decoded: String::new(),
                error: "Invalid input to decode".to_owned(),
            },
        }
    }
}

} // verus!
