//! Developer-tool transforms: Base64 encoding and decoding, hexadecimal
//! reading and writing, cryptographic digests, and the per-tool view state
//! they are computed from.

pub mod base64code;
pub mod digests;
pub mod hexcode;
pub mod render;
pub mod shortcuts;
pub mod state;
pub mod tools;
pub mod transforms;
