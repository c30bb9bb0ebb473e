//! The combined Base64 tool and the single-algorithm hash tool.

use devtools::digests::HashAlgo;

#[test]
fn combined_tool_encodes_without_padding() {
    let data = devtools::tools::base64::ToolData {
        input: "hello".to_string(),
    };
    let out = data.transform();
    assert_eq!(out.encoded, "aGVsbG8");
    // "hello" itself is not valid unpadded Base64 (five characters).
    assert_eq!(out.decoded, "");
    assert_eq!(out.error, "Invalid input to decode");
}

#[test]
fn combined_tool_decodes_text() {
    let data = devtools::tools::base64::ToolData {
        input: "aGVsbG8".to_string(),
    };
    let out = data.transform();
    assert_eq!(out.decoded, "hello");
    assert_eq!(out.error, "");
}

#[test]
fn combined_tool_rejects_padded_input() {
    let data = devtools::tools::base64::ToolData {
        input: "aGVsbG8=".to_string(),
    };
    let out = data.transform();
    assert_eq!(out.decoded, "");
    assert_eq!(out.error, "Invalid input to decode");
}

#[test]
fn combined_tool_falls_back_to_hex() {
    // "/w" is the unpadded encoding of the single byte 0xff, which is not
    // valid UTF-8.
    let data = devtools::tools::base64::ToolData {
        input: "/w".to_string(),
    };
    let out = data.transform();
    assert_eq!(out.decoded, "ff");
    assert_eq!(out.error, "Decoded data is not a valid UTF-8 string");
}

#[test]
fn combined_tool_empty_input() {
    let data = devtools::tools::base64::ToolData::default();
    let out = data.transform();
    assert_eq!(out.encoded, "");
    assert_eq!(out.decoded, "");
    assert_eq!(out.error, "");
}

#[test]
fn single_hash_tool_known_digests() {
    let data = devtools::tools::hash::ToolData {
        input: "abc".to_string(),
    };
    assert_eq!(
        data.transform(HashAlgo::SHA256),
        "ba7816bf8f01cfea414140de5dae2223b00361a396177a9cb410ff61f20015ad"
    );
    assert_eq!(
        data.transform(HashAlgo::SHA1),
        "a9993e364706816aba3e25717850c26c9cd0d89d"
    );
    let empty = devtools::tools::hash::ToolData::default();
    assert_eq!(empty.transform(HashAlgo::MD5), "d41d8cd98f00b204e9800998ecf8427e");
}
