//! Decryption of exported Megolm-encrypted group messages with an exported
//! bundle of session keys.
//!
//! Every JSON value the library touches is modelled by [`json::JsonModel`];
//! the logic that decides what happens to each record is verified against
//! that model, while parsing, base64 and the group-session cryptography are
//! delegated to `serde_json`, `base64` and `vodozemac`.
use vstd::prelude::*;

pub mod json;
pub mod keys;
pub mod crypto;
pub mod record;
pub mod pipeline;
