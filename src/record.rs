//! What happens to one archived message record: pass it through, decrypt it
//! and attach the plaintext, attach a failure placeholder, or stop the run.
use vstd::prelude::*;

use crate::crypto::{
    base64_unpadded, decode_base64, decrypt_message, megolm_plaintext, megolm_refusal, outcome_of,
    session_key_decodes, CipherModel, CipherOutcome,
};
use crate::json::{
    empty_object, json_model, json_of_bytes, json_of_text, object_fields, object_insert, object_member,
    object_value, parse_json, parse_json_bytes, text_value, value_object, value_text, JsonModel, JsonObject,
};
use crate::keys::SessionKeyTable;

verus! {

/// The kinds of error that stop the whole run.
#[derive(Debug, Clone, Copy, PartialEq, Eq, Structural)]
pub enum FatalKind {
    /// The archive is not a JSON array.
    MalformedArchive,
    /// An element of the archive is not a JSON object.
    RecordNotObject,
    /// A record has no string `event_id`.
    MissingEventId,
    /// A record has no string `json` field.
    MissingJson,
    /// The `json` field is not JSON, or holds no `content` object, or its
    /// `session_id` or `ciphertext` is not a string.
    MalformedJson,
    /// The session key is not an unpadded base64 exported session key.
    BadSessionKey,
    /// The ciphertext is not unpadded base64.
    BadCiphertext,
    /// A message decrypted to something other than a UTF-8 JSON object.
    BadPlaintext,
}

/// An error that stops the whole run, with the record it arose on.
#[derive(Debug)]
pub struct FatalError {
    pub kind: FatalKind,
    /// The `event_id` of the record, empty where it has none.
    pub event_id: String,
}

/// What was done with a record, for the diagnostic stream.
#[derive(Debug)]
pub enum Notice {
    /// The content carries no `session_id` and `ciphertext`.
    NoEncryptedPayload,
    /// The table holds no key for the session.
    NoMatchingKey,
    /// The message was decrypted and its plaintext attached.
    Decrypted,
    /// The message could not be decrypted; a placeholder was attached.
    Undecryptable(String),
}

/// A record after processing, with its identifier and what was done.
#[derive(Debug)]
pub struct Processed {
    pub event_id: String,
    pub record: JsonObject,
    pub notice: Notice,
}

/// What must be done with a record, decided before any decryption.
pub enum Plan {
    /// The record is passed through unchanged.
    PassThrough(Notice),
    /// The message is decrypted with these exported key bytes.
    Decrypt { session_key: Vec<u8>, message: Vec<u8> },
}

/// The model of a [`Plan`].
pub enum PlanModel {
    Unencrypted,
    UnknownSession,
    Decrypt { session_key: Seq<u8>, message: Seq<u8> },
}

/// The text that a member of an object holds, if it is a string.
pub open spec fn text_of(m: Map<Seq<char>, JsonModel>, key: Seq<char>) -> Option<Seq<char>> {
    if m.contains_key(key) && m[key] is Str {
        Some(m[key]->Str_0)
    } else {
        None
    }
}

/// The members of the `content` object of a record's nested `json` text.
pub open spec fn content_of(nested: Option<JsonModel>) -> Option<Map<Seq<char>, JsonModel>> {
    match nested {
        Some(JsonModel::Object(o)) => {
            if o.contains_key("content"@) && o["content"@] is Object {
                Some(o["content"@]->Object_0)
            } else {
                None
            }
        },
        _ => None,
    }
}

/// The members of the `content` object of a record.
pub open spec fn record_content(rec: Map<Seq<char>, JsonModel>) -> Option<Map<Seq<char>, JsonModel>> {
    match text_of(rec, "json"@) {
        Some(t) => content_of(json_of_text(t)),
        None => None,
    }
}

/// Whether content carries an encrypted payload: both keys are present.
pub open spec fn has_payload(c: Map<Seq<char>, JsonModel>) -> bool {
    c.contains_key("session_id"@) && c.contains_key("ciphertext"@)
}

/// What must be done with a record of these members under this key table.
pub open spec fn plan_of(rec: Map<Seq<char>, JsonModel>, keys: Map<Seq<char>, Seq<char>>) -> Result<PlanModel, FatalKind> {
    if text_of(rec, "event_id"@) is None {
        Err(FatalKind::MissingEventId)
    } else if text_of(rec, "json"@) is None {
        Err(FatalKind::MissingJson)
    } else {
        let content = content_of(json_of_text(text_of(rec, "json"@)->Some_0));
        if content is None {
            Err(FatalKind::MalformedJson)
        } else {
            let c = content->Some_0;
            if !has_payload(c) {
                Ok(PlanModel::Unencrypted)
            } else if text_of(c, "session_id"@) is None {
                Err(FatalKind::MalformedJson)
            } else {
                let id = text_of(c, "session_id"@)->Some_0;
                if !keys.contains_key(id) {
                    Ok(PlanModel::UnknownSession)
                } else if text_of(c, "ciphertext"@) is None {
                    Err(FatalKind::MalformedJson)
                } else {
                    let key = base64_unpadded(keys[id]);
                    let message = base64_unpadded(text_of(c, "ciphertext"@)->Some_0);
                    if key is None {
                        Err(FatalKind::BadSessionKey)
                    } else if message is None {
                        Err(FatalKind::BadCiphertext)
                    } else {
                        Ok(PlanModel::Decrypt { session_key: key->Some_0, message: message->Some_0 })
                    }
                }
            }
        }
    }
}

/// The identifier of a record, empty where it has none.
pub open spec fn event_id_of(rec: Map<Seq<char>, JsonModel>) -> Seq<char> {
    match text_of(rec, "event_id"@) {
        Some(id) => id,
        None => Seq::empty(),
    }
}

/// A plan and its model agree.
pub open spec fn plan_agrees(p: Plan, m: PlanModel) -> bool {
    match (p, m) {
        (Plan::PassThrough(Notice::NoEncryptedPayload), PlanModel::Unencrypted) => true,
        (Plan::PassThrough(Notice::NoMatchingKey), PlanModel::UnknownSession) => true,
        (Plan::Decrypt { session_key: k, message: c }, PlanModel::Decrypt { session_key, message }) =>
            k@ == session_key && c@ == message,
        _ => false,
    }
}

/// An error of this kind arose on this record.
pub open spec fn fatal_on(e: FatalError, kind: FatalKind, rec: Map<Seq<char>, JsonModel>) -> bool {
    e.kind == kind && e.event_id@ == event_id_of(rec)
}

/// The key under which the outcome of decryption is attached.
pub open spec fn decrypted_key() -> Seq<char> {
    "content_decrypted"@
}

/// The placeholder attached where a message could not be decrypted.
pub open spec fn placeholder(detail: Seq<char>) -> JsonModel {
    JsonModel::Object(
        Map::empty()
            .insert("msgtype"@, JsonModel::Str("m.bad.encrypted"@))
            .insert("body"@, JsonModel::Str("** Unable to decrypt: DecryptionError: "@ + detail + " **"@)),
    )
}

/// The object that plaintext bytes denote, if they are a UTF-8 JSON object.
pub open spec fn plaintext_object(b: Seq<u8>) -> Option<JsonModel> {
    match json_of_bytes(b) {
        Some(JsonModel::Object(p)) => Some(JsonModel::Object(p)),
        _ => None,
    }
}

/// The plan leaves the record as it is.
pub open spec fn passes_through(p: Result<PlanModel, FatalKind>) -> bool {
    p matches Ok(m) && !(m is Decrypt)
}

/// The record of members `rec` with the outcome of decryption attached: the
/// plaintext object, or the placeholder; plaintext that is not a UTF-8 JSON
/// object is an error.
pub open spec fn outcome_result(rec: Map<Seq<char>, JsonModel>, o: CipherModel) -> Result<Map<Seq<char>, JsonModel>, FatalKind> {
    match o {
        CipherModel::Plaintext(p) => match plaintext_object(p) {
            Some(x) => Ok(rec.insert(decrypted_key(), x)),
            None => Err(FatalKind::BadPlaintext),
        },
        CipherModel::Refused(d) => Ok(rec.insert(decrypted_key(), placeholder(d))),
    }
}

/// What processing a record of members `rec` gives: its members afterwards,
/// or the kind of error that stops the run.
pub open spec fn record_result(rec: Map<Seq<char>, JsonModel>, keys: Map<Seq<char>, Seq<char>>) -> Result<Map<Seq<char>, JsonModel>, FatalKind> {
    match plan_of(rec, keys) {
        Err(k) => Err(k),
        Ok(PlanModel::Decrypt { session_key, message }) => {
            if !session_key_decodes(session_key) {
                Err(FatalKind::BadSessionKey)
            } else {
                outcome_result(rec, outcome_of(session_key, message))
            }
        },
        Ok(_) => Ok(rec),
    }
}

/// `after` is what processing a record of members `before` gives when it
/// succeeds, with the notice for a record that is passed through.
pub open spec fn record_step(before: Map<Seq<char>, JsonModel>, after: Processed, keys: Map<Seq<char>, Seq<char>>) -> bool {
    &&& after.event_id@ == event_id_of(before)
    &&& record_result(before, keys) == Ok::<Map<Seq<char>, JsonModel>, FatalKind>(object_fields(after.record))
    &&& plan_of(before, keys) == Ok::<PlanModel, FatalKind>(PlanModel::Unencrypted) ==> after.notice is NoEncryptedPayload
    &&& plan_of(before, keys) == Ok::<PlanModel, FatalKind>(PlanModel::UnknownSession) ==> after.notice is NoMatchingKey
}

/// Reads the string member of an object.
fn text_member(m: &JsonObject, key: &str) -> (r: Option<String>)
    ensures
        r is Some <==> text_of(object_fields(*m), key@) is Some,
        r matches Some(s) ==> text_of(object_fields(*m), key@) == Some(s@),
{
    match object_member(m, key) {
        Some(v) => value_text(v),
        None => None,
    }
}

/// Decides what must be done with a record: reads its identifier, parses its
/// nested `json` text, and looks its session up.
pub fn plan_record(record: &JsonObject, keys: &SessionKeyTable) -> (r: Result<Plan, FatalError>)
    ensures
        plan_of(object_fields(*record), keys@) matches Ok(m) ==> (r matches Ok(p) && plan_agrees(p, m)),
        plan_of(object_fields(*record), keys@) matches Err(k) ==> (r matches Err(e) && fatal_on(e, k, object_fields(*record))),
{
    let ghost rec = object_fields(*record);
    let event_id = match text_member(record, "event_id") {
        Some(id) => id,
        None => return Err(FatalError { kind: FatalKind::MissingEventId, event_id: String::new() }),
    };
    let nested_text = match text_member(record, "json") {
        Some(t) => t,
        None => return Err(FatalError { kind: FatalKind::MissingJson, event_id }),
    };
    let nested = match parse_json(nested_text.as_str()) {
        Some(v) => v,
        None => return Err(FatalError { kind: FatalKind::MalformedJson, event_id }),
    };
    let content = match value_object(&nested) {
        Some(o) => match object_member(o, "content") {
            Some(c) => value_object(c),
            None => None,
        },
        None => None,
    };
    let content = match content {
        Some(c) => c,
        None => return Err(FatalError { kind: FatalKind::MalformedJson, event_id }),
    };
    let id_member = object_member(content, "session_id");
    let ciphertext_member = object_member(content, "ciphertext");
    let (id_member, ciphertext_member) = match (id_member, ciphertext_member) {
        (Some(i), Some(c)) => (i, c),
        _ => return Ok(Plan::PassThrough(Notice::NoEncryptedPayload)),
    };
    let session_id = match value_text(id_member) {
        Some(i) => i,
        None => return Err(FatalError { kind: FatalKind::MalformedJson, event_id }),
    };
    let key_text = match keys.lookup(&session_id) {
        Some(k) => k,
        None => return Ok(Plan::PassThrough(Notice::NoMatchingKey)),
    };
    let ciphertext = match value_text(ciphertext_member) {
        Some(c) => c,
        None => return Err(FatalError { kind: FatalKind::MalformedJson, event_id }),
    };
    let session_key = match decode_base64(key_text.as_str()) {
        Some(b) => b,
        None => return Err(FatalError { kind: FatalKind::BadSessionKey, event_id }),
    };
    let message = match decode_base64(ciphertext.as_str()) {
        Some(b) => b,
        None => return Err(FatalError { kind: FatalKind::BadCiphertext, event_id }),
    };
    Ok(Plan::Decrypt { session_key, message })
}

/// The failure placeholder for a refusal described by `detail`.
fn placeholder_value(detail: &String) -> (r: serde_json::Value)
    ensures
        json_model(r) == placeholder(detail@),
{
    let mut body = String::from_str("** Unable to decrypt: DecryptionError: ");
    body.append(detail.as_str());
    body.append(" **");
    let mut object = empty_object();
    object_insert(&mut object, String::from_str("msgtype"), text_value(String::from_str("m.bad.encrypted")));
    object_insert(&mut object, String::from_str("body"), text_value(body));
    let r = object_value(object);
    assert(object_fields(object) == Map::<Seq<char>, JsonModel>::empty()
        .insert("msgtype"@, JsonModel::Str("m.bad.encrypted"@))
        .insert("body"@, JsonModel::Str("** Unable to decrypt: DecryptionError: "@ + detail@ + " **"@)));
    r
}

/// Attaches the outcome of decrypting a record's message under
/// `content_decrypted`: the plaintext object, or a placeholder where the
/// message could not be decrypted. Plaintext that is not a UTF-8 JSON object
/// stops the run.
pub fn apply_outcome(record: JsonObject, event_id: String, outcome: CipherOutcome) -> (r: Result<Processed, FatalError>)
    ensures
        match outcome_result(object_fields(record), outcome.model()) {
            Ok(after) => r matches Ok(out) && out.event_id == event_id && object_fields(out.record) == after,
            Err(k) => r matches Err(e) && e.kind == k && e.event_id == event_id,
        },
        outcome matches CipherOutcome::Plaintext(b) ==> match plaintext_object(b@) {
            Some(p) => r matches Ok(out) && out.event_id == event_id && out.notice is Decrypted
                && object_fields(out.record) == object_fields(record).insert(decrypted_key(), p),
            None => r matches Err(e) && e.kind == FatalKind::BadPlaintext && e.event_id == event_id,
        },
        outcome matches CipherOutcome::Refused(d) ==> (r matches Ok(out) && out.event_id == event_id
            && (out.notice matches Notice::Undecryptable(x) && x@ == d@)
            && object_fields(out.record) == object_fields(record).insert(decrypted_key(), placeholder(d@))),
{
    let mut record = record;
    match outcome {
        CipherOutcome::Plaintext(bytes) => {
            let value = match parse_json_bytes(bytes.as_slice()) {
                Some(v) => v,
                None => return Err(FatalError { kind: FatalKind::BadPlaintext, event_id }),
            };
            if value_object(&value).is_none() {
                return Err(FatalError { kind: FatalKind::BadPlaintext, event_id });
            }
            object_insert(&mut record, String::from_str("content_decrypted"), value);
            Ok(Processed { event_id, record, notice: Notice::Decrypted })
        },
        CipherOutcome::Refused(detail) => {
            let value = placeholder_value(&detail);
            object_insert(&mut record, String::from_str("content_decrypted"), value);
            Ok(Processed { event_id, record, notice: Notice::Undecryptable(detail) })
        },
    }
}

/// Processes one record: passes it through unchanged where its content has
/// no encrypted payload or its session has no key; otherwise decrypts its
/// message and attaches the plaintext, or a placeholder where the message
/// cannot be decoded or decrypted. Malformed records stop the run.
pub fn process_record(record: JsonObject, keys: &SessionKeyTable) -> (r: Result<Processed, FatalError>)
    ensures
        r matches Ok(out) ==> record_step(object_fields(record), out, keys@),
        match record_result(object_fields(record), keys@) {
            Ok(_) => r is Ok,
            Err(k) => r matches Err(e) && fatal_on(e, k, object_fields(record)),
        },
        passes_through(plan_of(object_fields(record), keys@)) ==> (r matches Ok(out) && out.record == record),
{
    let plan = match plan_record(&record, keys) {
        Ok(p) => p,
        Err(e) => return Err(e),
    };
    let event_id = match text_member(&record, "event_id") {
        Some(id) => id,
        None => String::new(),
    };
    match plan {
        Plan::PassThrough(notice) => Ok(Processed { event_id, record, notice }),
        Plan::Decrypt { session_key, message } => {
            match decrypt_message(session_key.as_slice(), message.as_slice()) {
                Some(outcome) => apply_outcome(record, event_id, outcome),
                None => Err(FatalError { kind: FatalKind::BadSessionKey, event_id }),
            }
        },
    }
}

/// A record whose content carries no `session_id` and `ciphertext` pair is
/// passed through: [`process_record`] hands back the very record it was given.
pub proof fn lemma_unencrypted_passes_through(rec: Map<Seq<char>, JsonModel>, keys: Map<Seq<char>, Seq<char>>)
    requires
        text_of(rec, "event_id"@) is Some,
        record_content(rec) matches Some(c) && !has_payload(c),
    ensures
        plan_of(rec, keys) == Ok::<PlanModel, FatalKind>(PlanModel::Unencrypted),
{
}

/// A record whose session has no key in the table is passed through:
/// [`process_record`] hands back the very record it was given.
pub proof fn lemma_unknown_session_passes_through(
    rec: Map<Seq<char>, JsonModel>,
    keys: Map<Seq<char>, Seq<char>>,
)
    requires
        text_of(rec, "event_id"@) is Some,
        record_content(rec) matches Some(c) && has_payload(c)
            && text_of(c, "session_id"@) is Some && !keys.contains_key(text_of(c, "session_id"@)->Some_0),
    ensures
        plan_of(rec, keys) == Ok::<PlanModel, FatalKind>(PlanModel::UnknownSession),
{
}

/// A record whose nested `json` text is not JSON stops the run.
pub proof fn lemma_corrupt_nested_json_is_fatal(rec: Map<Seq<char>, JsonModel>, keys: Map<Seq<char>, Seq<char>>)
    requires
        text_of(rec, "event_id"@) is Some,
        text_of(rec, "json"@) matches Some(t) && json_of_text(t) is None,
    ensures
        plan_of(rec, keys) == Err::<PlanModel, FatalKind>(FatalKind::MalformedJson),
{
}

/// A message that decrypts to a JSON object gets exactly that object
/// attached under `content_decrypted`.
pub proof fn lemma_plaintext_is_attached(
    rec: Map<Seq<char>, JsonModel>,
    keys: Map<Seq<char>, Seq<char>>,
    session_key: Seq<u8>,
    message: Seq<u8>,
    p: Seq<u8>,
)
    requires
        plan_of(rec, keys) == Ok::<PlanModel, FatalKind>(PlanModel::Decrypt { session_key, message }),
        session_key_decodes(session_key),
        megolm_plaintext(session_key, message) == Some(p),
        plaintext_object(p) is Some,
    ensures
        record_result(rec, keys) == Ok::<Map<Seq<char>, JsonModel>, FatalKind>(
            rec.insert(decrypted_key(), plaintext_object(p)->Some_0),
        ),
{
}

/// A message that cannot be decoded or decrypted does not stop the run: the
/// record gets the failure placeholder.
pub proof fn lemma_undecryptable_gets_placeholder(
    rec: Map<Seq<char>, JsonModel>,
    keys: Map<Seq<char>, Seq<char>>,
    session_key: Seq<u8>,
    message: Seq<u8>,
)
    requires
        plan_of(rec, keys) == Ok::<PlanModel, FatalKind>(PlanModel::Decrypt { session_key, message }),
        session_key_decodes(session_key),
        megolm_plaintext(session_key, message) is None,
    ensures
        record_result(rec, keys) == Ok::<Map<Seq<char>, JsonModel>, FatalKind>(
            rec.insert(decrypted_key(), placeholder(megolm_refusal(session_key, message))),
        ),
{
}

} // verus!
