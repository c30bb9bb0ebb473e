//! Per-tool view state: immutable records replaced whole on every edit, and
//! the root state that keeps one record per tool.

use vstd::prelude::*;

verus! {

/// How the Base64 encode tool reads its input text.
#[derive(Clone, Copy, Debug, PartialEq, Eq, Structural)]
pub enum Base64EncodeInputKind {
    Utf8,
    Hex,
}

/// Which alphabet the Base64 encode tool writes.
#[derive(Clone, Copy, Debug, PartialEq, Eq, Structural)]
pub enum Base64EncodeOutputKind {
    Standard,
    UrlSafe,
}

/// How the Base64 decode tool renders the decoded bytes.
#[derive(Clone, Copy, Debug, PartialEq, Eq, Structural)]
pub enum Base64DecodeOutputKind {
    Utf8,
    Json,
    SimpleHex,
    PrettyHex,
}

/// How the hash tool reads its input text.
#[derive(Clone, Copy, Debug, PartialEq, Eq, Structural)]
pub enum HashInputKind {
    Utf8,
    Hex,
}

/// The Base64 encode tool's state: input text and the two format choices.
#[derive(Clone, Debug, PartialEq)]
pub struct ToolBase64EncodeComponentData {
    pub input: String,
    pub input_kind: Base64EncodeInputKind,
    pub output_kind: Base64EncodeOutputKind,
}

impl Default for ToolBase64EncodeComponentData {
    /// Empty input, UTF-8 reading, standard alphabet.
    fn default() -> (r: Self)
        ensures
            r.input@ == Seq::<char>::empty(),
            r.input_kind == Base64EncodeInputKind::Utf8,
            r.output_kind == Base64EncodeOutputKind::Standard,
    {
        ToolBase64EncodeComponentData {
            input: String::new(),
            input_kind: Base64EncodeInputKind::Utf8,
            output_kind: Base64EncodeOutputKind::Standard,
        }
    }
}

impl ToolBase64EncodeComponentData {
    /// The whole record rebuilt with only the input text changed.
    pub fn with_input(self, input: String) -> (r: Self)
        ensures
            r.input == input,
            r.input_kind == self.input_kind,
            r.output_kind == self.output_kind,
    {
        ToolBase64EncodeComponentData { input, ..self }
    }

    /// The whole record rebuilt with only the input kind changed.
    pub fn with_input_kind(self, input_kind: Base64EncodeInputKind) -> (r: Self)
        ensures
            r.input == self.input,
            r.input_kind == input_kind,
            r.output_kind == self.output_kind,
    {
        ToolBase64EncodeComponentData { input_kind, ..self }
    }

    /// The whole record rebuilt with only the output kind changed.
    pub fn with_output_kind(self, output_kind: Base64EncodeOutputKind) -> (r: Self)
        ensures
            r.input == self.input,
            r.input_kind == self.input_kind,
            r.output_kind == output_kind,
    {
        ToolBase64EncodeComponentData { output_kind, ..self }
    }
}

/// The Base64 decode tool's state: input text and the rendering choice.
#[derive(Clone, Debug, PartialEq)]
pub struct ToolBase64DecodeComponentData {
    pub input: String,
    pub output_kind: Base64DecodeOutputKind,
}

impl Default for ToolBase64DecodeComponentData {
    /// Empty input, UTF-8 rendering.
    fn default() -> (r: Self)
        ensures
            r.input@ == Seq::<char>::empty(),
            r.output_kind == Base64DecodeOutputKind::Utf8,
    {
        ToolBase64DecodeComponentData {
            input: String::new(),
            output_kind: Base64DecodeOutputKind::Utf8,
        }
    }
}

impl ToolBase64DecodeComponentData {
    /// The whole record rebuilt with only the input text changed.
    pub fn with_input(self, input: String) -> (r: Self)
        ensures
            r.input == input,
            r.output_kind == self.output_kind,
    {
        ToolBase64DecodeComponentData { input, ..self }
    }

    /// The whole record rebuilt with only the output kind changed.
    pub fn with_output_kind(self, output_kind: Base64DecodeOutputKind) -> (r: Self)
        ensures
            r.input == self.input,
            r.output_kind == output_kind,
    {
        ToolBase64DecodeComponentData { output_kind, ..self }
    }
}

/// The hash tool's state: input text and how it is read.
#[derive(Clone, Debug, PartialEq)]
pub struct ToolHashComponentData {
    pub input: String,
    pub input_kind: HashInputKind,
}

impl Default for ToolHashComponentData {
    /// Empty input, UTF-8 reading.
    fn default() -> (r: Self)
        ensures
            r.input@ == Seq::<char>::empty(),
            r.input_kind == HashInputKind::Utf8,
    {
        ToolHashComponentData { input: String::new(), input_kind: HashInputKind::Utf8 }
    }
}

impl ToolHashComponentData {
    /// The whole record rebuilt with only the input text changed.
    pub fn with_input(self, input: String) -> (r: Self)
        ensures
            r.input == input,
            r.input_kind == self.input_kind,
    {
        ToolHashComponentData { input, ..self }
    }

    /// The whole record rebuilt with only the input kind changed.
    pub fn with_input_kind(self, input_kind: HashInputKind) -> (r: Self)
        ensures
            r.input == self.input,
            r.input_kind == input_kind,
    {
        ToolHashComponentData { input_kind, ..self }
    }
}

/// The tools the selector offers. Only the first three carry state.
#[derive(Clone, Copy, Debug, PartialEq, Eq, Structural)]
pub enum Tools {
    Base64Encode,
    Base64Decode,
    Hash,
    Jwt,
    Certificate,
    DateTime,
    IP,
}

/// The root state: which tool is shown, and one record per tool, so that
/// switching tools keeps each tool's last input and choices.
#[derive(Clone, Debug, PartialEq)]
pub struct HomeState {
    pub selected_tool: Tools,
    pub data_tool_base64_encode: ToolBase64EncodeComponentData,
    pub data_tool_base64_decode: ToolBase64DecodeComponentData,
    pub data_tool_hash: ToolHashComponentData,
}

impl HomeState {
    /// The state after picking a tool: only the selection changes.
    pub open spec fn spec_select_tool(self, tool: Tools) -> HomeState {
        HomeState { selected_tool: tool, ..self }
    }

    /// The initial state: the encode tool shown, every record at its default.
    pub fn new() -> (r: Self)
        ensures
            r.selected_tool == Tools::Base64Encode,
            r.data_tool_base64_encode.input@ == Seq::<char>::empty(),
            r.data_tool_base64_encode.input_kind == Base64EncodeInputKind::Utf8,
            r.data_tool_base64_encode.output_kind == Base64EncodeOutputKind::Standard,
            r.data_tool_base64_decode.input@ == Seq::<char>::empty(),
            r.data_tool_base64_decode.output_kind == Base64DecodeOutputKind::Utf8,
            r.data_tool_hash.input@ == Seq::<char>::empty(),
            r.data_tool_hash.input_kind == HashInputKind::Utf8,
    {
        HomeState {
            selected_tool: Tools::Base64Encode,
            data_tool_base64_encode: Default::default(),
            data_tool_base64_decode: Default::default(),
            data_tool_hash: Default::default(),
        }
    }

    /// Shows another tool; every tool's record is kept as it is.
    pub fn select_tool(self, tool: Tools) -> (r: Self)
        ensures
            r == self.spec_select_tool(tool),
    {
        HomeState { selected_tool: tool, ..self }
    }

    /// Stores the encode tool's new record, replacing the old one whole.
    pub fn update_base64_encode(self, data: ToolBase64EncodeComponentData) -> (r: Self)
        ensures
            r.selected_tool == self.selected_tool,
            r.data_tool_base64_encode == data,
            r.data_tool_base64_decode == self.data_tool_base64_decode,
            r.data_tool_hash == self.data_tool_hash,
    {
        HomeState { data_tool_base64_encode: data, ..self }
    }

    /// Stores the decode tool's new record, replacing the old one whole.
    pub fn update_base64_decode(self, data: ToolBase64DecodeComponentData) -> (r: Self)
        ensures
            r.selected_tool == self.selected_tool,
            r.data_tool_base64_encode == self.data_tool_base64_encode,
            r.data_tool_base64_decode == data,
            r.data_tool_hash == self.data_tool_hash,
    {
        HomeState { data_tool_base64_decode: data, ..self }
    }

    /// Stores the hash tool's new record, replacing the old one whole.
    pub fn update_hash(self, data: ToolHashComponentData) -> (r: Self)
        ensures
            r.selected_tool == self.selected_tool,
            r.data_tool_base64_encode == self.data_tool_base64_encode,
            r.data_tool_base64_decode == self.data_tool_base64_decode,
            r.data_tool_hash == data,
    {
        HomeState { data_tool_hash: data, ..self }
    }
}

/// Law: switching the shown tool, any number of times, never touches any
/// tool's stored record — each keeps its last input and choices.
pub proof fn lemma_tool_switch_preserves_data(s: HomeState, a: Tools, b: Tools)
    ensures
        s.spec_select_tool(a).spec_select_tool(b).selected_tool == b,
        s.spec_select_tool(a).spec_select_tool(b).data_tool_base64_encode
            == s.data_tool_base64_encode,
        s.spec_select_tool(a).spec_select_tool(b).data_tool_base64_decode
            == s.data_tool_base64_decode,
        s.spec_select_tool(a).spec_select_tool(b).data_tool_hash == s.data_tool_hash,
{
}

} // verus!
