//! The hash tool's digest table.

use devtools::digests::{hash, HashAlgo};
use digest::Digest;
use devtools::hexcode::hex_encode;
use devtools::state::{HashInputKind, ToolHashComponentData};

fn hash_data(input: &str, input_kind: HashInputKind) -> ToolHashComponentData {
    ToolHashComponentData {
        input: input.to_string(),
        input_kind,
    }
}

#[test]
fn md5_of_empty_input() {
    let (rows, valid) = hash_data("", HashInputKind::Utf8).transform();
    assert!(valid);
    assert_eq!(rows[0].name, "MD5");
    assert_eq!(rows[0].digest_hex, "d41d8cd98f00b204e9800998ecf8427e");
}

#[test]
fn table_shape_and_names() {
    let (rows, valid) = hash_data("abc", HashInputKind::Utf8).transform();
    assert!(valid);
    assert_eq!(rows.len(), 12);
    let names: Vec<&str> = rows.iter().map(|r| r.name.as_str()).collect();
    assert_eq!(
        names,
        [
            "MD5",
            "SHA1",
            "SHA2-224",
            "SHA2-256",
            "SHA2-384",
            "SHA2-512",
            "SHA2-512/224",
            "SHA2-512/256",
            "SHA3-224",
            "SHA3-256",
            "SHA3-384",
            "SHA3-512",
        ]
    );
    let sizes: Vec<usize> = rows.iter().map(|r| r.size_bytes).collect();
    assert_eq!(sizes, [16, 20, 28, 32, 48, 64, 28, 32, 28, 32, 48, 64]);
    for row in &rows {
        assert_eq!(row.digest_hex.len(), 2 * row.size_bytes);
    }
}

#[test]
fn known_digests() {
    let (rows, valid) = hash_data("abc", HashInputKind::Utf8).transform();
    assert!(valid);
    assert_eq!(rows[1].digest_hex, "a9993e364706816aba3e25717850c26c9cd0d89d");
    assert_eq!(
        rows[3].digest_hex,
        "ba7816bf8f01cfea414140de5dae2223b00361a396177a9cb410ff61f20015ad"
    );
    assert_eq!(
        rows[9].digest_hex,
        "3a985da74fe225b2045c172d6bd390bd855f086e3e9d525b46bfe24511431532"
    );
}

#[test]
fn rows_match_the_digest_crates() {
    let input = b"The quick brown fox jumps over the lazy dog";
    let (rows, valid) =
        hash_data("The quick brown fox jumps over the lazy dog", HashInputKind::Utf8).transform();
    assert!(valid);
    let expected: Vec<Vec<u8>> = vec![
        md5::Md5::digest(input).to_vec(),
        sha1::Sha1::digest(input).to_vec(),
        sha2::Sha224::digest(input).to_vec(),
        sha2::Sha256::digest(input).to_vec(),
        sha2::Sha384::digest(input).to_vec(),
        sha2::Sha512::digest(input).to_vec(),
        sha2::Sha512_224::digest(input).to_vec(),
        sha2::Sha512_256::digest(input).to_vec(),
        sha3::Sha3_224::digest(input).to_vec(),
        sha3::Sha3_256::digest(input).to_vec(),
        sha3::Sha3_384::digest(input).to_vec(),
        sha3::Sha3_512::digest(input).to_vec(),
    ];
    for (row, want) in rows.iter().zip(expected.iter()) {
        assert_eq!(row.digest_hex, hex_encode(want));
    }
}

#[test]
fn hex_input_matches_utf8_input() {
    // "616263" spells "abc".
    let (hex_rows, hex_valid) = hash_data("61 62 63", HashInputKind::Hex).transform();
    let (utf8_rows, utf8_valid) = hash_data("abc", HashInputKind::Utf8).transform();
    assert!(hex_valid && utf8_valid);
    for (a, b) in hex_rows.iter().zip(utf8_rows.iter()) {
        assert_eq!(a.digest_hex, b.digest_hex);
    }
}

#[test]
fn malformed_hex_empties_every_row() {
    let (rows, valid) = hash_data("0g", HashInputKind::Hex).transform();
    assert!(!valid);
    assert_eq!(rows.len(), 12);
    for row in &rows {
        assert_eq!(row.digest_hex, "");
    }
    // Names and sizes are still shown.
    assert_eq!(rows[0].name, "MD5");
    assert_eq!(rows[0].size_bytes, 16);
}

#[test]
fn hash_is_deterministic() {
    let a = hash(HashAlgo::SHA256, b"same input");
    let b = hash(HashAlgo::SHA256, b"same input");
    assert_eq!(a, b);
    assert_eq!(a.len(), 32);
}

#[test]
fn hash_lengths_match_documented_sizes() {
    let algos = devtools::transforms::all_algos();
    for algo in algos {
        let d = hash(algo, b"x");
        assert_eq!(d.len(), algo.digest_len());
    }
}
