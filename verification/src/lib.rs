//! Text integrity and confidentiality with machine-checked contracts:
//! keyed-hash and Ed25519 signing behind one pair of capabilities, key
//! generation for both schemes, and a nonce-prefixed envelope for
//! authenticated symmetric encryption.
//!
//! Around that core stand the smaller tools of the same command line:
//! random passwords, base64, CSV records as JSON or YAML, and the answers of
//! a file server. Every function takes and returns plain values; reading
//! and writing are left to the caller.
//!
//! The cryptography, the random sources and the serializers are those of
//! the crates this library depends on. Each call into them goes through one
//! small function whose contract is taken on trust and says so.

pub mod cli;
pub mod process;
pub mod utils;
