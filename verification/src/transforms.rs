//! The pure transforms: each tool's output as a total function of its state
//! record, recomputed from scratch on every edit.

use vstd::prelude::*;
use vstd::string::StrSliceExecFns;
use vstd::utf8::encode_utf8;

use crate::base64code::{
    base64_decode_standard, base64_encode_standard, base64_encode_urlsafe,
    lemma_base64_decode_of_encoding, spec_base64_decode, spec_base64_encode,
};
use crate::digests::{hash, HashAlgo};
use crate::hexcode::{
    hex_decode_chars, hex_encode, lemma_hex_encode_len, spec_hex_decode, spec_hex_encode,
    spec_strip_spaces, strip_spaces, valid_hex,
};
use crate::render::{
    json_pretty_of, json_reformat, pretty_hex_dump, pretty_hex_of, utf8_lossy, utf8_lossy_of,
};
use crate::state::{
    Base64DecodeOutputKind, Base64EncodeInputKind, Base64EncodeOutputKind, HashInputKind,
    ToolBase64DecodeComponentData, ToolBase64EncodeComponentData, ToolHashComponentData,
};

verus! {

/// The payload bytes a tool derives from its input text: the text's UTF-8
/// bytes, or — read as hexadecimal — the bytes its digits spell once spaces
/// and tabs are stripped; `None` when that reading fails.
pub open spec fn spec_payload(input: Seq<char>, hex: bool) -> Option<Seq<u8>> {
    if hex {
        if valid_hex(spec_strip_spaces(input)) {
            Some(spec_hex_decode(spec_strip_spaces(input)))
        } else {
            None
        }
    } else {
        Some(encode_utf8(input))
    }
}

/// Derives the payload bytes from the input text; fails exactly when the
/// text is read as hexadecimal and is malformed.
pub fn payload_from_input(input: &str, hex: bool) -> (r: Option<Vec<u8>>)
    ensures
        match r {
            Some(v) => spec_payload(input@, hex) == Some(v@),
            None => spec_payload(input@, hex) is None,
        },
{
    if hex {
        let stripped = strip_spaces(input);
        hex_decode_chars(stripped.as_slice())
    } else {
        Some(input.as_bytes_vec())
    }
}

impl ToolBase64EncodeComponentData {
    /// The encode tool's derived output: the payload's Base64 text under the
    /// chosen alphabet, or empty and invalid on malformed hexadecimal input.
    pub open spec fn spec_transform(self) -> (Seq<char>, bool) {
        match spec_payload(self.input@, self.input_kind == Base64EncodeInputKind::Hex) {
            Some(p) => (
                spec_base64_encode(p, self.output_kind == Base64EncodeOutputKind::UrlSafe),
                true,
            ),
            None => (Seq::<char>::empty(), false),
        }
    }

    /// Computes the output text and validity flag for this record.
    pub fn transform(&self) -> (r: (String, bool))
        ensures
            r.0@ == self.spec_transform().0,
            r.1 == self.spec_transform().1,
    {
        let hex = match self.input_kind {
            Base64EncodeInputKind::Utf8 => false,
            Base64EncodeInputKind::Hex => true,
        };
        match payload_from_input(self.input.as_str(), hex) {
            Some(p) => {
                let out = match self.output_kind {
                    Base64EncodeOutputKind::Standard => base64_encode_standard(p.as_slice()),
                    Base64EncodeOutputKind::UrlSafe => base64_encode_urlsafe(p.as_slice()),
                };
                (out, true)
            },
            None => (String::new(), false),
        }
    }
}

/// The rendering of decoded bytes the decode tool shows: lossy text, pretty
/// JSON falling back to the lossy text, compact hex, or the annotated dump.
pub open spec fn spec_render(b: Seq<u8>, kind: Base64DecodeOutputKind) -> Seq<char> {
    match kind {
        Base64DecodeOutputKind::Utf8 => utf8_lossy_of(b),
        Base64DecodeOutputKind::Json => {
            let s = utf8_lossy_of(b);
            match json_pretty_of(s) {
                Some(p) => p,
                None => s,
            }
        },
        Base64DecodeOutputKind::SimpleHex => spec_hex_encode(b),
        Base64DecodeOutputKind::PrettyHex => pretty_hex_of(b),
    }
}

impl ToolBase64DecodeComponentData {
    /// The decode tool's derived output: the rendering of the bytes whose
    /// canonical Base64 text the input is, or empty and invalid when the
    /// input is no such text.
    pub open spec fn spec_transform(self) -> (Seq<char>, bool) {
        match spec_base64_decode(self.input@, false) {
            Some(bytes) => (spec_render(bytes, self.output_kind), true),
            None => (Seq::<char>::empty(), false),
        }
    }

    /// Computes the output text and validity flag for this record.
    pub fn transform(&self) -> (r: (String, bool))
        ensures
            r.0@ == self.spec_transform().0,
            r.1 == self.spec_transform().1,
    {
        match base64_decode_standard(self.input.as_str()) {
            Some(bytes) => {
                proof {
                    lemma_base64_decode_of_encoding(self.input@, bytes@, false);
                }
                let rendered = match self.output_kind {
                    Base64DecodeOutputKind::Utf8 => utf8_lossy(bytes.as_slice()),
                    Base64DecodeOutputKind::Json => {
                        let s = utf8_lossy(bytes.as_slice());
                        match json_reformat(s.as_str()) {
                            Some(p) => p,
                            None => s,
                        }
                    },
                    Base64DecodeOutputKind::SimpleHex => hex_encode(bytes.as_slice()),
                    Base64DecodeOutputKind::PrettyHex => pretty_hex_dump(&bytes),
                };
                (rendered, true)
            },
            None => (String::new(), false),
        }
    }
}

/// One row of the hash tool's table: the algorithm, its shown name, its
/// digest length in bytes, and the digest as lowercase hexadecimal.
#[derive(Clone, Debug, PartialEq)]
pub struct HashRow {
    pub algo: HashAlgo,
    pub name: String,
    pub size_bytes: usize,
    pub digest_hex: String,
}

/// The algorithms of the table, in the order shown.
pub open spec fn spec_all_algos() -> Seq<HashAlgo> {
    seq![
        HashAlgo::MD5,
        HashAlgo::SHA1,
        HashAlgo::SHA224,
        HashAlgo::SHA256,
        HashAlgo::SHA384,
        HashAlgo::SHA512,
        HashAlgo::SHA512_224,
        HashAlgo::SHA512_256,
        HashAlgo::SHA3_224,
        HashAlgo::SHA3_256,
        HashAlgo::SHA3_384,
        HashAlgo::SHA3_512,
    ]
}

/// The name the table shows for an algorithm.
pub open spec fn spec_algo_name(a: HashAlgo) -> Seq<char> {
    match a {
        HashAlgo::MD5 => "MD5"@,
        HashAlgo::SHA1 => "SHA1"@,
        HashAlgo::SHA224 => "SHA2-224"@,
        HashAlgo::SHA256 => "SHA2-256"@,
        HashAlgo::SHA384 => "SHA2-384"@,
        HashAlgo::SHA512 => "SHA2-512"@,
        HashAlgo::SHA512_224 => "SHA2-512/224"@,
        HashAlgo::SHA512_256 => "SHA2-512/256"@,
        HashAlgo::SHA3_224 => "SHA3-224"@,
        HashAlgo::SHA3_256 => "SHA3-256"@,
        HashAlgo::SHA3_384 => "SHA3-384"@,
        HashAlgo::SHA3_512 => "SHA3-512"@,
    }
}

/// A row's digest text: the payload's digest in lowercase hexadecimal, or
/// empty when the payload could not be derived.
pub open spec fn spec_row_digest(a: HashAlgo, payload: Option<Seq<u8>>) -> Seq<char> {
    match payload {
        Some(p) => spec_hex_encode(a.spec_digest(p)),
        None => Seq::<char>::empty(),
    }
}

/// The algorithms of the table, in the order shown.
pub fn all_algos() -> (r: Vec<HashAlgo>)
    ensures
        r@ == spec_all_algos(),
{
    let mut v: Vec<HashAlgo> = Vec::new();
    v.push(HashAlgo::MD5);
    v.push(HashAlgo::SHA1);
    v.push(HashAlgo::SHA224);
    v.push(HashAlgo::SHA256);
    v.push(HashAlgo::SHA384);
    v.push(HashAlgo::SHA512);
    v.push(HashAlgo::SHA512_224);
    v.push(HashAlgo::SHA512_256);
    v.push(HashAlgo::SHA3_224);
    v.push(HashAlgo::SHA3_256);
    v.push(HashAlgo::SHA3_384);
    v.push(HashAlgo::SHA3_512);
    proof {
        assert(v@ =~= spec_all_algos());
    }
    v
}

/// The name the table shows for an algorithm.
pub fn algo_name(a: HashAlgo) -> (r: String)
    ensures
        r@ == spec_algo_name(a),
{
    match a {
        HashAlgo::MD5 => "MD5".to_owned(),
        HashAlgo::SHA1 => "SHA1".to_owned(),
        HashAlgo::SHA224 => "SHA2-224".to_owned(),
        HashAlgo::SHA256 => "SHA2-256".to_owned(),
        HashAlgo::SHA384 => "SHA2-384".to_owned(),
        HashAlgo::SHA512 => "SHA2-512".to_owned(),
        HashAlgo::SHA512_224 => "SHA2-512/224".to_owned(),
        HashAlgo::SHA512_256 => "SHA2-512/256".to_owned(),
        HashAlgo::SHA3_224 => "SHA3-224".to_owned(),
        HashAlgo::SHA3_256 => "SHA3-256".to_owned(),
        HashAlgo::SHA3_384 => "SHA3-384".to_owned(),
        HashAlgo::SHA3_512 => "SHA3-512".to_owned(),
    }
}

impl ToolHashComponentData {
    /// The payload bytes this record derives from its input.
    pub open spec fn spec_payload_of(self) -> Option<Seq<u8>> {
        spec_payload(self.input@, self.input_kind == HashInputKind::Hex)
    }

    /// Computes the full digest table for this record: one row per
    /// algorithm, every digest empty when the hexadecimal input is
    /// malformed, and the flag saying whether the payload was derived.
    pub fn transform(&self) -> (r: (Vec<HashRow>, bool))
        ensures
            r.1 == self.spec_payload_of() is Some,
            r.0@.len() == spec_all_algos().len(),
            forall|i: int|
                0 <= i < r.0@.len() ==> {
                    let row = #[trigger] r.0@[i];
                    &&& row.algo == spec_all_algos()[i]
                    &&& row.name@ == spec_algo_name(spec_all_algos()[i])
                    &&& row.size_bytes == spec_all_algos()[i].spec_digest_len()
                    &&& row.digest_hex@ == spec_row_digest(
                        spec_all_algos()[i],
                        self.spec_payload_of(),
                    )
                    &&& self.spec_payload_of() is Some ==> row.digest_hex@.len() == 2
                        * spec_all_algos()[i].spec_digest_len()
                },
    {
        let hex = match self.input_kind {
            HashInputKind::Utf8 => false,
            HashInputKind::Hex => true,
        };
        let payload = payload_from_input(self.input.as_str(), hex);
        let algos = all_algos();
        let mut rows: Vec<HashRow> = Vec::new();
        let n = algos.len();
        let mut i: usize = 0;
        while i < n
            invariant
                n == algos@.len(),
                algos@ == spec_all_algos(),
                i <= n,
                rows@.len() == i,
                match payload {
                    Some(v) => self.spec_payload_of() == Some(v@),
                    None => self.spec_payload_of() is None,
                },
                forall|j: int|
                    0 <= j < i ==> {
                        let row = #[trigger] rows@[j];
                        &&& row.algo == spec_all_algos()[j]
                        &&& row.name@ == spec_algo_name(spec_all_algos()[j])
                        &&& row.size_bytes == spec_all_algos()[j].spec_digest_len()
                        &&& row.digest_hex@ == spec_row_digest(
                            spec_all_algos()[j],
                            self.spec_payload_of(),
                        )
                        &&& self.spec_payload_of() is Some ==> row.digest_hex@.len() == 2
                            * spec_all_algos()[j].spec_digest_len()
                    },
            decreases n - i,
        {
            let a = algos[i];
            let digest_hex = match &payload {
                Some(p) => {
                    let d = hash(a, p.as_slice());
                    proof {
                        lemma_hex_encode_len(d@);
                    }
                    hex_encode(d.as_slice())
                },
                None => String::new(),
            };
            let row = HashRow { algo: a, name: algo_name(a), size_bytes: a.digest_len(), digest_hex };
            rows.push(row);
            i = i + 1;
        }
        let valid = payload.is_some();
        (rows, valid)
    }
}

} // verus!
