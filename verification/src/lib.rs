//! Screenshot-to-text pipeline: decode a raw screenshot, bound its
//! resolution, re-encode it as a compact base64 JPEG payload, frame the
//! provider request, and decide the provider's response — with the resizing
//! policy, the wire format and the response decision rule verified.

pub mod config;
pub mod preprocess;
pub mod provider;
pub mod wire;
