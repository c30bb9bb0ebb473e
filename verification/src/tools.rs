//! Single-pane tools: the combined Base64 view, and the one-algorithm hash
//! view.

pub mod base64;
pub mod hash;
