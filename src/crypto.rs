//! Unpadded base64 and the Megolm group-session operations, as the record
//! logic sees them.
use vstd::prelude::*;

use base64::Engine;
use vodozemac::megolm::{ExportedSessionKey, InboundGroupSession, MegolmMessage, SessionConfig};

verus! {

/// The bytes that a text denotes in the standard base64 alphabet without
/// padding, if it is such a text.
pub uninterp spec fn base64_unpadded(s: Seq<char>) -> Option<Seq<u8>>;

/// Whether bytes are an exported Megolm session key.
pub uninterp spec fn session_key_decodes(b: Seq<u8>) -> bool;

/// The plaintext that a Megolm message decrypts to in a session freshly
/// imported from an exported key, if the message decodes and decrypts.
pub uninterp spec fn megolm_plaintext(key: Seq<u8>, message: Seq<u8>) -> Option<Seq<u8>>;

/// Why a Megolm message does not decode or decrypt in a session freshly
/// imported from an exported key.
pub uninterp spec fn megolm_refusal(key: Seq<u8>, message: Seq<u8>) -> Seq<char>;

/// Relies on `base64`'s `STANDARD_NO_PAD` engine and `Engine::decode`: the
/// decoded bytes exactly when the text is unpadded standard base64.
#[verifier::external_body]
pub(crate) fn decode_base64(s: &str) -> (r: Option<Vec<u8>>)
    ensures
        r is Some <==> base64_unpadded(s@) is Some,
        r matches Some(b) ==> base64_unpadded(s@) == Some(b@),
{
    base64::engine::general_purpose::STANDARD_NO_PAD.decode(s).ok()
}

/// Relies on `vodozemac::megolm`: `ExportedSessionKey::from_bytes` rejects
/// bytes that are no exported key; otherwise `MegolmMessage::from_bytes`
/// followed by `InboundGroupSession::decrypt`, on a session that
/// `InboundGroupSession::import` makes afresh with `SessionConfig::version_1`,
/// gives the plaintext, or an error whose `Debug` text says why. Each step
/// depends on the bytes alone.
#[verifier::external_body]
fn megolm_decrypt(session_key: &[u8], message: &[u8]) -> (r: Option<CipherOutcome>)
    ensures
        r is None <==> !session_key_decodes(session_key@),
        r matches Some(CipherOutcome::Plaintext(p)) ==> megolm_plaintext(session_key@, message@) == Some(p@),
        r matches Some(CipherOutcome::Refused(d)) ==> megolm_plaintext(session_key@, message@) is None
            && d@ == megolm_refusal(session_key@, message@),
{
    let key = ExportedSessionKey::from_bytes(session_key).ok()?;
    let message = match MegolmMessage::from_bytes(message) {
        Ok(m) => m,
        Err(e) => return Some(CipherOutcome::Refused(format!("{e:?}"))),
    };
    let mut session = InboundGroupSession::import(&key, SessionConfig::version_1());
    Some(match session.decrypt(&message) {
        Ok(d) => CipherOutcome::Plaintext(d.plaintext),
        Err(e) => CipherOutcome::Refused(format!("{e:?}")),
    })
}

/// What the group-session decryption gave for one message.
pub enum CipherOutcome {
    /// The plaintext bytes of the message.
    Plaintext(Vec<u8>),
    /// The message could not be decoded or decrypted; the text says why.
    Refused(String),
}

/// What decrypting a message with an exported key gives.
pub enum CipherModel {
    Plaintext(Seq<u8>),
    Refused(Seq<char>),
}

/// The outcome of decrypting `message` with the exported key `key`.
pub open spec fn outcome_of(key: Seq<u8>, message: Seq<u8>) -> CipherModel {
    match megolm_plaintext(key, message) {
        Some(p) => CipherModel::Plaintext(p),
        None => CipherModel::Refused(megolm_refusal(key, message)),
    }
}

impl CipherOutcome {
    /// The model of an outcome.
    pub open spec fn model(self) -> CipherModel {
        match self {
            CipherOutcome::Plaintext(p) => CipherModel::Plaintext(p@),
            CipherOutcome::Refused(d) => CipherModel::Refused(d@),
        }
    }
}

/// Decrypts a Megolm message with a session imported afresh from the bytes
/// of an exported session key; nothing where the key does not decode.
pub fn decrypt_message(session_key: &[u8], message: &[u8]) -> (r: Option<CipherOutcome>)
    ensures
        r is None <==> !session_key_decodes(session_key@),
        r matches Some(o) ==> o.model() == outcome_of(session_key@, message@),
{
    megolm_decrypt(session_key, message)
}

} // verus!
