//! The Base64 encode and decode tools, driven through their state records.

use devtools::state::{
    Base64DecodeOutputKind, Base64EncodeInputKind, Base64EncodeOutputKind,
    ToolBase64DecodeComponentData, ToolBase64EncodeComponentData,
};

fn encode_data(
    input: &str,
    input_kind: Base64EncodeInputKind,
    output_kind: Base64EncodeOutputKind,
) -> ToolBase64EncodeComponentData {
    ToolBase64EncodeComponentData {
        input: input.to_string(),
        input_kind,
        output_kind,
    }
}

fn decode_data(input: &str, output_kind: Base64DecodeOutputKind) -> ToolBase64DecodeComponentData {
    ToolBase64DecodeComponentData {
        input: input.to_string(),
        output_kind,
    }
}

#[test]
fn encode_hello_utf8_standard() {
    let (out, valid) = encode_data(
        "hello",
        Base64EncodeInputKind::Utf8,
        Base64EncodeOutputKind::Standard,
    )
    .transform();
    assert_eq!(out, "aGVsbG8=");
    assert!(valid);
}

#[test]
fn encode_hello_hex_urlsafe() {
    let (out, valid) = encode_data(
        "68656c6c6f",
        Base64EncodeInputKind::Hex,
        Base64EncodeOutputKind::UrlSafe,
    )
    .transform();
    assert_eq!(out, "aGVsbG8=");
    assert!(valid);
    assert!(!out.contains('+'));
    assert!(!out.contains('/'));
}

#[test]
fn encode_hex_with_spaces_and_tabs() {
    let (out, valid) = encode_data(
        "68 65\t6c 6c 6f",
        Base64EncodeInputKind::Hex,
        Base64EncodeOutputKind::Standard,
    )
    .transform();
    assert_eq!(out, "aGVsbG8=");
    assert!(valid);
}

#[test]
fn encode_hex_uppercase_digits() {
    let (out, valid) = encode_data(
        "FBEF",
        Base64EncodeInputKind::Hex,
        Base64EncodeOutputKind::UrlSafe,
    )
    .transform();
    assert_eq!(out, "--8=");
    assert!(valid);
    let (out_std, valid_std) = encode_data(
        "FBEF",
        Base64EncodeInputKind::Hex,
        Base64EncodeOutputKind::Standard,
    )
    .transform();
    assert_eq!(out_std, "++8=");
    assert!(valid_std);
}

#[test]
fn encode_malformed_hex_is_invalid() {
    let (out, valid) = encode_data(
        "xyz",
        Base64EncodeInputKind::Hex,
        Base64EncodeOutputKind::Standard,
    )
    .transform();
    assert_eq!(out, "");
    assert!(!valid);
}

#[test]
fn encode_odd_length_hex_is_invalid() {
    let (out, valid) = encode_data(
        "abc",
        Base64EncodeInputKind::Hex,
        Base64EncodeOutputKind::Standard,
    )
    .transform();
    assert_eq!(out, "");
    assert!(!valid);
}

#[test]
fn encode_hex_newline_is_not_a_separator() {
    let (out, valid) = encode_data(
        "de\nad",
        Base64EncodeInputKind::Hex,
        Base64EncodeOutputKind::Standard,
    )
    .transform();
    assert_eq!(out, "");
    assert!(!valid);
}

#[test]
fn encode_empty_input() {
    let (out, valid) = encode_data(
        "",
        Base64EncodeInputKind::Utf8,
        Base64EncodeOutputKind::Standard,
    )
    .transform();
    assert_eq!(out, "");
    assert!(valid);
}

#[test]
fn decode_hello_utf8() {
    let (out, valid) = decode_data("aGVsbG8=", Base64DecodeOutputKind::Utf8).transform();
    assert_eq!(out, "hello");
    assert!(valid);
}

#[test]
fn decode_invalid_characters() {
    let (out, valid) = decode_data("!!!invalid!!!", Base64DecodeOutputKind::Utf8).transform();
    assert_eq!(out, "");
    assert!(!valid);
}

#[test]
fn decode_missing_padding_is_invalid() {
    let (out, valid) = decode_data("aGVsbG8", Base64DecodeOutputKind::Utf8).transform();
    assert_eq!(out, "");
    assert!(!valid);
}

#[test]
fn decode_nonzero_trailing_bits_is_invalid() {
    let (out, valid) = decode_data("aGVsbG9=", Base64DecodeOutputKind::Utf8).transform();
    assert_eq!(out, "");
    assert!(!valid);
}

#[test]
fn decode_inner_space_is_invalid() {
    let (out, valid) = decode_data("aGVs bG8=", Base64DecodeOutputKind::Utf8).transform();
    assert_eq!(out, "");
    assert!(!valid);
}

#[test]
fn decode_urlsafe_text_fails_under_standard() {
    let (out, valid) = decode_data("--8=", Base64DecodeOutputKind::SimpleHex).transform();
    assert_eq!(out, "");
    assert!(!valid);
}

#[test]
fn decode_empty_is_valid() {
    let (out, valid) = decode_data("", Base64DecodeOutputKind::Utf8).transform();
    assert_eq!(out, "");
    assert!(valid);
}

#[test]
fn decode_simple_hex_render() {
    let (out, valid) = decode_data("aGVsbG8=", Base64DecodeOutputKind::SimpleHex).transform();
    assert_eq!(out, "68656c6c6f");
    assert!(valid);
}

#[test]
fn decode_replaces_invalid_utf8() {
    // 0xff alone is not valid UTF-8; the lossy rendering replaces it.
    let (out, valid) = decode_data("/w==", Base64DecodeOutputKind::Utf8).transform();
    assert_eq!(out, "\u{fffd}");
    assert!(valid);
}

#[test]
fn decode_json_pretty_render() {
    let engine = &base64::engine::general_purpose::STANDARD;
    let text = base64::Engine::encode(engine, "{\"a\":1}");
    let (out, valid) = decode_data(&text, Base64DecodeOutputKind::Json).transform();
    let value: serde_json::Value = serde_json::from_str("{\"a\":1}").unwrap();
    let expected = serde_json::to_string_pretty(&value).unwrap();
    assert_eq!(out, expected);
    assert!(valid);
}

#[test]
fn decode_json_fallback_on_non_json() {
    let engine = &base64::engine::general_purpose::STANDARD;
    let text = base64::Engine::encode(engine, "not json");
    let (out, valid) = decode_data(&text, Base64DecodeOutputKind::Json).transform();
    assert_eq!(out, "not json");
    assert!(valid);
}

#[test]
fn decode_pretty_hex_render() {
    let engine = &base64::engine::general_purpose::STANDARD;
    let text = base64::Engine::encode(engine, "hello");
    let (out, valid) = decode_data(&text, Base64DecodeOutputKind::PrettyHex).transform();
    let expected = pretty_hex::pretty_hex(&b"hello".to_vec());
    assert_eq!(out, expected);
    assert!(valid);
}

#[test]
fn round_trip_through_both_tools() {
    for hex_input in ["00ff10", "de", "deadbeef", "0001020304050607"] {
        let (encoded, valid) = encode_data(
            hex_input,
            Base64EncodeInputKind::Hex,
            Base64EncodeOutputKind::Standard,
        )
        .transform();
        assert!(valid);
        let (decoded, valid2) =
            decode_data(&encoded, Base64DecodeOutputKind::SimpleHex).transform();
        assert!(valid2);
        assert_eq!(decoded, hex_input);
    }
}

#[test]
fn round_trip_all_byte_values() {
    let bytes: Vec<u8> = (0u8..=255).collect();
    let hex_input = devtools::hexcode::hex_encode(&bytes);
    let (encoded, valid) = encode_data(
        &hex_input,
        Base64EncodeInputKind::Hex,
        Base64EncodeOutputKind::Standard,
    )
    .transform();
    assert!(valid);
    let engine = &base64::engine::general_purpose::STANDARD;
    assert_eq!(base64::Engine::decode(engine, &encoded).unwrap(), bytes);
    let (decoded, valid2) = decode_data(&encoded, Base64DecodeOutputKind::SimpleHex).transform();
    assert!(valid2);
    assert_eq!(decoded, hex_input);
}

#[test]
fn round_trip_urlsafe_alphabet() {
    let bytes: Vec<u8> = (0u8..=255).collect();
    let hex_input = devtools::hexcode::hex_encode(&bytes);
    let (encoded, valid) = encode_data(
        &hex_input,
        Base64EncodeInputKind::Hex,
        Base64EncodeOutputKind::UrlSafe,
    )
    .transform();
    assert!(valid);
    assert!(!encoded.contains('+'));
    assert!(!encoded.contains('/'));
    let engine = &base64::engine::general_purpose::URL_SAFE;
    assert_eq!(base64::Engine::decode(engine, &encoded).unwrap(), bytes);
}
