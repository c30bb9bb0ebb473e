//! Hexadecimal reading and writing, the root view state, and the zoom
//! shortcuts.

use devtools::hexcode::{hex_decode_chars, hex_encode, strip_spaces};
use devtools::shortcuts::{apply_zoom, zoom_action, ZoomAction, ZOOM_RESET_TENTHS};
use devtools::state::{
    Base64DecodeOutputKind, Base64EncodeInputKind, Base64EncodeOutputKind, HashInputKind,
    HomeState, ToolBase64DecodeComponentData, ToolBase64EncodeComponentData,
    ToolHashComponentData, Tools,
};

#[test]
fn strip_spaces_removes_only_spaces_and_tabs() {
    assert_eq!(strip_spaces("DE AD\tBE EF"), "DEADBEEF".chars().collect::<Vec<char>>());
    assert_eq!(strip_spaces(""), Vec::<char>::new());
    assert_eq!(strip_spaces(" \t "), Vec::<char>::new());
}

#[test]
fn hex_round_trip_lowers_digits() {
    let stripped = strip_spaces("DE AD be ef");
    let bytes = hex_decode_chars(&stripped).unwrap();
    assert_eq!(bytes, vec![0xde, 0xad, 0xbe, 0xef]);
    assert_eq!(hex_encode(&bytes), "deadbeef");
}

#[test]
fn hex_decode_rejects_odd_length() {
    assert!(hex_decode_chars(&['a', 'b', 'c']).is_none());
}

#[test]
fn hex_decode_rejects_non_digits() {
    assert!(hex_decode_chars(&['0', 'g']).is_none());
    assert!(hex_decode_chars(&['-', '1']).is_none());
}

#[test]
fn hex_encode_all_values() {
    assert_eq!(hex_encode(&[0x00, 0x0f, 0x10, 0xa5, 0xff]), "000f10a5ff");
}

#[test]
fn default_records() {
    let s = HomeState::new();
    assert_eq!(s.selected_tool, Tools::Base64Encode);
    assert_eq!(s.data_tool_base64_encode.input, "");
    assert_eq!(s.data_tool_base64_encode.input_kind, Base64EncodeInputKind::Utf8);
    assert_eq!(s.data_tool_base64_encode.output_kind, Base64EncodeOutputKind::Standard);
    assert_eq!(s.data_tool_base64_decode.input, "");
    assert_eq!(s.data_tool_base64_decode.output_kind, Base64DecodeOutputKind::Utf8);
    assert_eq!(s.data_tool_hash.input, "");
    assert_eq!(s.data_tool_hash.input_kind, HashInputKind::Utf8);
}

#[test]
fn switching_tools_preserves_each_tools_data() {
    let s = HomeState::new();
    let data = s
        .data_tool_base64_encode
        .clone()
        .with_input("some text".to_string())
        .with_output_kind(Base64EncodeOutputKind::UrlSafe);
    let s = s.update_base64_encode(data);
    let data = s
        .data_tool_base64_decode
        .clone()
        .with_input("aGVsbG8=".to_string())
        .with_output_kind(Base64DecodeOutputKind::SimpleHex);
    let s = s.update_base64_decode(data);
    let data = s
        .data_tool_hash
        .clone()
        .with_input("61 62".to_string())
        .with_input_kind(HashInputKind::Hex);
    let s = s.update_hash(data);
    let before_encode = s.data_tool_base64_encode.clone();
    let before_decode = s.data_tool_base64_decode.clone();
    let before_hash = s.data_tool_hash.clone();

    let s = s.select_tool(Tools::Hash);
    let s = s.select_tool(Tools::DateTime);
    let s = s.select_tool(Tools::Base64Encode);

    assert_eq!(s.selected_tool, Tools::Base64Encode);
    assert_eq!(s.data_tool_base64_encode, before_encode);
    assert_eq!(s.data_tool_base64_decode, before_decode);
    assert_eq!(s.data_tool_hash, before_hash);
}

#[test]
fn edits_replace_one_field_only() {
    let d = ToolBase64EncodeComponentData::default()
        .with_input_kind(Base64EncodeInputKind::Hex);
    let d2 = d.clone().with_input("ff".to_string());
    assert_eq!(d2.input, "ff");
    assert_eq!(d2.input_kind, d.input_kind);
    assert_eq!(d2.output_kind, d.output_kind);

    let h = ToolHashComponentData::default().with_input("abc".to_string());
    let h2 = h.clone().with_input_kind(HashInputKind::Hex);
    assert_eq!(h2.input, "abc");
    assert_eq!(h2.input_kind, HashInputKind::Hex);

    let dec = ToolBase64DecodeComponentData::default().with_input("x".to_string());
    let dec2 = dec.clone().with_output_kind(Base64DecodeOutputKind::PrettyHex);
    assert_eq!(dec2.input, "x");
    assert_eq!(dec2.output_kind, Base64DecodeOutputKind::PrettyHex);
}

#[test]
fn zoom_shortcut_decisions() {
    assert_eq!(zoom_action(true, "="), Some(ZoomAction::ZoomIn));
    assert_eq!(zoom_action(true, "-"), Some(ZoomAction::ZoomOut));
    assert_eq!(zoom_action(true, "0"), Some(ZoomAction::ZoomReset));
    assert_eq!(zoom_action(false, "="), None);
    assert_eq!(zoom_action(true, "a"), None);
    assert_eq!(zoom_action(true, "Shift"), None);
    assert_eq!(zoom_action(true, ""), None);
}

#[test]
fn zoom_level_steps() {
    assert_eq!(apply_zoom(10, ZoomAction::ZoomIn), 11);
    assert_eq!(apply_zoom(10, ZoomAction::ZoomOut), 9);
    assert_eq!(apply_zoom(0, ZoomAction::ZoomOut), -1);
    assert_eq!(apply_zoom(37, ZoomAction::ZoomReset), ZOOM_RESET_TENTHS);
    assert_eq!(apply_zoom(i64::MAX, ZoomAction::ZoomIn), i64::MAX);
    assert_eq!(apply_zoom(i64::MIN, ZoomAction::ZoomOut), i64::MIN);
}
