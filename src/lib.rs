//! A content-inspection rule engine: per-route sets of forbidden literal
//! substrings, loaded from base64-encoded JSON arrays and matched against text.

pub mod matcher;
pub mod decode;
pub mod registry;
pub mod engine;
pub mod laws;
