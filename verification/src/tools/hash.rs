//! The single-algorithm hash tool: one input, the digest of one chosen
//! algorithm, shown as lowercase hexadecimal.

use vstd::prelude::*;
use vstd::utf8::encode_utf8;

use crate::digests::{hash, HashAlgo};
use crate::hexcode::{hex_encode, spec_hex_encode};

verus! {

/// The tool's state: its one input text.
#[derive(Clone, Debug, PartialEq)]
pub struct ToolData {
    pub input: String,
}

impl Default for ToolData {
    /// Empty input.
    fn default() -> (r: Self)
        ensures
            r.input@ == Seq::<char>::empty(),
    {
        ToolData { input: String::new() }
    }
}

impl ToolData {
    /// Computes the chosen algorithm's digest of the input text's bytes,
    /// as lowercase hexadecimal.
    pub fn transform(&self, algo: HashAlgo) -> (r: String)
        ensures
            r@ == spec_hex_encode(algo.spec_digest(encode_utf8(self.input@))),
    {
        let d = hash(algo, self.input.as_str().as_bytes());
        hex_encode(d.as_slice())
    }
}

} // verus!
