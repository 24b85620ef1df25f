use base64::Engine;
use megolm_export_decrypt::crypto::{decrypt_message, CipherOutcome};
use megolm_export_decrypt::json::JsonObject;
use megolm_export_decrypt::keys::{load_session_keys, ConfigError, SessionKeyEntry, SessionKeyTable};
use megolm_export_decrypt::pipeline::{process_archive, process_element, render_batch, render_line};
use megolm_export_decrypt::record::{apply_outcome, process_record, FatalKind, Notice};
use serde_json::Value;
use vodozemac::megolm::{GroupSession, InboundGroupSession, SessionConfig};

struct Sender {
    group: GroupSession,
    exported_key: String,
}

fn sender() -> Sender {
    let group = GroupSession::new(SessionConfig::version_1());
    let inbound = InboundGroupSession::new(&group.session_key(), SessionConfig::version_1());
    let exported_key = inbound.export_at_first_known_index().to_base64();
    Sender { group, exported_key }
}

fn encrypt(s: &mut Sender, plaintext: &str) -> String {
    s.group.encrypt(plaintext).to_base64()
}

fn quoted(text: &str) -> String {
    serde_json::to_string(text).unwrap()
}

fn key_export(pairs: &[(&str, &str)]) -> String {
    let items: Vec<String> = pairs
        .iter()
        .map(|(id, key)| format!("{{\"session_id\":{},\"session_key\":{}}}", quoted(id), quoted(key)))
        .collect();
    format!("[{}]", items.join(","))
}

fn encrypted_record(event_id: &str, session_id: &str, ciphertext: &str) -> String {
    let nested = format!(
        "{{\"content\":{{\"session_id\":{},\"ciphertext\":{},\"algorithm\":\"m.megolm.v1.aes-sha2\"}}}}",
        quoted(session_id),
        quoted(ciphertext)
    );
    format!("{{\"event_id\":{},\"json\":{}}}", quoted(event_id), quoted(&nested))
}

fn plain_record(event_id: &str) -> String {
    let nested = "{\"content\":{\"msgtype\":\"m.text\",\"body\":\"plain\"}}";
    format!("{{\"event_id\":{},\"json\":{},\"room_id\":\"!r\"}}", quoted(event_id), quoted(nested))
}

fn object(text: &str) -> JsonObject {
    match serde_json::from_str::<Value>(text).unwrap() {
        Value::Object(m) => m,
        _ => panic!("not an object"),
    }
}

fn table(pairs: &[(&str, &str)]) -> SessionKeyTable {
    load_session_keys(&key_export(pairs)).unwrap()
}

#[test]
fn concrete_example() {
    let mut s = sender();
    let ciphertext = encrypt(&mut s, "{\"msgtype\":\"m.text\",\"body\":\"hi\"}");
    let keys = table(&[("S1", &s.exported_key)]);
    let record = encrypted_record("E1", "S1", &ciphertext);
    let archive = format!("[{}]", record);
    let outs = process_archive(&archive, &keys).unwrap();
    let text = render_batch(outs);
    let out: Value = serde_json::from_str(&text).unwrap();
    let mut expected = object(&record);
    expected.insert("content_decrypted".to_string(), serde_json::from_str("{\"msgtype\":\"m.text\",\"body\":\"hi\"}").unwrap());
    assert_eq!(out, Value::Array(vec![Value::Object(expected)]));
}

#[test]
fn unencrypted_record_passes_through() {
    let keys = table(&[("S1", &sender().exported_key)]);
    let record = object(&plain_record("E1"));
    let out = process_record(record.clone(), &keys).unwrap();
    assert_eq!(out.record, record);
    assert_eq!(out.event_id, "E1");
    assert!(!out.record.contains_key("content_decrypted"));
    assert!(matches!(out.notice, Notice::NoEncryptedPayload));
}

#[test]
fn unknown_session_passes_through() {
    let mut s = sender();
    let ciphertext = encrypt(&mut s, "{\"body\":\"x\"}");
    let keys = table(&[("S1", &s.exported_key)]);
    let record = object(&encrypted_record("E2", "S2", &ciphertext));
    let out = process_record(record.clone(), &keys).unwrap();
    assert_eq!(out.record, record);
    assert!(matches!(out.notice, Notice::NoMatchingKey));
}

#[test]
fn decryption_round_trip() {
    let mut s = sender();
    let plaintext = "{\"msgtype\":\"m.text\",\"body\":\"round trip \\u00e9\",\"n\":[1,2,3]}";
    let ciphertext = encrypt(&mut s, plaintext);
    let keys = table(&[("S1", &s.exported_key)]);
    let element: Value = serde_json::from_str(&encrypted_record("E3", "S1", &ciphertext)).unwrap();
    let out = process_element(element, &keys).unwrap();
    let expected: Value = serde_json::from_str(plaintext).unwrap();
    assert_eq!(out.record.get("content_decrypted"), Some(&expected));
    assert!(matches!(out.notice, Notice::Decrypted));
}

#[test]
fn corrupted_ciphertext_is_isolated() {
    let mut s = sender();
    let first = encrypt(&mut s, "{\"body\":\"one\"}");
    let second = encrypt(&mut s, "{\"body\":\"two\"}");
    let third = encrypt(&mut s, "{\"body\":\"three\"}");
    let mut bytes = vodozemac::megolm::MegolmMessage::from_base64(&second).unwrap().to_bytes();
    let middle = bytes.len() / 2;
    bytes[middle] ^= 0x01;
    let corrupted = base64::engine::general_purpose::STANDARD_NO_PAD.encode(&bytes);
    let keys = table(&[("S1", &s.exported_key)]);
    let archive = format!(
        "[{},{},{}]",
        encrypted_record("A", "S1", &first),
        encrypted_record("B", "S1", &corrupted),
        encrypted_record("C", "S1", &third)
    );
    let outs = process_archive(&archive, &keys).unwrap();
    assert_eq!(outs.len(), 3);
    assert_eq!(outs[0].record["content_decrypted"]["body"], "one");
    assert_eq!(outs[2].record["content_decrypted"]["body"], "three");
    let placeholder = &outs[1].record["content_decrypted"];
    assert_eq!(placeholder["msgtype"], "m.bad.encrypted");
    let body = placeholder["body"].as_str().unwrap();
    assert!(body.starts_with("** Unable to decrypt: DecryptionError: "));
    assert!(body.ends_with(" **"));
    assert!(matches!(outs[1].notice, Notice::Undecryptable(_)));
}

#[test]
fn wrong_key_gives_placeholder() {
    let mut s = sender();
    let other = sender();
    let ciphertext = encrypt(&mut s, "{\"body\":\"secret\"}");
    let keys = table(&[("S1", &other.exported_key)]);
    let out = process_record(object(&encrypted_record("E4", "S1", &ciphertext)), &keys).unwrap();
    assert_eq!(out.record["content_decrypted"]["msgtype"], "m.bad.encrypted");
}

#[test]
fn order_is_kept() {
    let mut s = sender();
    let keys = table(&[("S1", &s.exported_key)]);
    let mut records = Vec::new();
    for i in 0..5 {
        if i % 2 == 0 {
            let c = encrypt(&mut s, &format!("{{\"body\":\"m{}\"}}", i));
            records.push(encrypted_record(&format!("E{}", i), "S1", &c));
        } else {
            records.push(plain_record(&format!("E{}", i)));
        }
    }
    let outs = process_archive(&format!("[{}]", records.join(",")), &keys).unwrap();
    let ids: Vec<String> = outs.iter().map(|p| p.event_id.clone()).collect();
    assert_eq!(ids, vec!["E0", "E1", "E2", "E3", "E4"]);
    assert_eq!(outs[4].record["content_decrypted"]["body"], "m4");
}

#[test]
fn empty_archive() {
    let keys = table(&[]);
    let outs = process_archive("[]", &keys).unwrap();
    assert!(outs.is_empty());
    assert_eq!(render_batch(outs), "[]");
}

#[test]
fn batch_and_stream_agree() {
    let mut s = sender();
    let keys = table(&[("S1", &s.exported_key)]);
    let c = encrypt(&mut s, "{\"body\":\"same\"}");
    let records = vec![encrypted_record("E1", "S1", &c), plain_record("E2"), encrypted_record("E3", "S9", &c)];
    let batch = process_archive(&format!("[{}]", records.join(",")), &keys).unwrap();
    let stream_input = records.join("\n");
    let mut streamed = Vec::new();
    for value in serde_json::Deserializer::from_str(&stream_input).into_iter::<Value>() {
        streamed.push(process_element(value.unwrap(), &keys).unwrap());
    }
    assert_eq!(batch.len(), streamed.len());
    for (b, s) in batch.iter().zip(streamed.iter()) {
        assert_eq!(b.record, s.record);
        assert_eq!(b.event_id, s.event_id);
    }
}

#[test]
fn corrupt_nested_json_is_fatal() {
    let keys = table(&[]);
    let archive = format!("[{},{{\"event_id\":\"E2\",\"json\":\"{{not json\"}}]", plain_record("E1"));
    let e = process_archive(&archive, &keys).unwrap_err();
    assert_eq!(e.kind, FatalKind::MalformedJson);
    assert_eq!(e.event_id, "E2");
}

#[test]
fn fatal_kinds() {
    let mut s = sender();
    let keys = table(&[("S1", &s.exported_key), ("BAD", "not*base64")]);
    let kind = |text: &str| process_archive(text, &keys).unwrap_err().kind;
    assert_eq!(kind("{\"a\":1}"), FatalKind::MalformedArchive);
    assert_eq!(kind("[1"), FatalKind::MalformedArchive);
    assert_eq!(kind("[1]"), FatalKind::RecordNotObject);
    assert_eq!(kind("[{\"json\":\"{}\"}]"), FatalKind::MissingEventId);
    assert_eq!(kind("[{\"event_id\":\"E\"}]"), FatalKind::MissingJson);
    assert_eq!(kind("[{\"event_id\":\"E\",\"json\":\"{}\"}]"), FatalKind::MalformedJson);
    assert_eq!(kind("[{\"event_id\":\"E\",\"json\":\"{\\\"content\\\":{\\\"session_id\\\":1,\\\"ciphertext\\\":\\\"x\\\"}}\"}]"), FatalKind::MalformedJson);
    let c = encrypt(&mut s, "{\"body\":\"x\"}");
    assert_eq!(kind(&format!("[{}]", encrypted_record("E", "BAD", &c))), FatalKind::BadSessionKey);
    assert_eq!(kind(&format!("[{}]", encrypted_record("E", "S1", "padded=="))), FatalKind::BadCiphertext);
    let not_json = encrypt(&mut s, "hello");
    assert_eq!(kind(&format!("[{}]", encrypted_record("E", "S1", &not_json))), FatalKind::BadPlaintext);
    let array = encrypt(&mut s, "[1,2]");
    assert_eq!(kind(&format!("[{}]", encrypted_record("E", "S1", &array))), FatalKind::BadPlaintext);
}

#[test]
fn undecodable_session_key_is_fatal() {
    let mut s = sender();
    let c = encrypt(&mut s, "{\"body\":\"x\"}");
    let keys = table(&[("S1", "AAAA")]);
    let e = process_record(object(&encrypted_record("E", "S1", &c)), &keys).unwrap_err();
    assert_eq!(e.kind, FatalKind::BadSessionKey);
}

#[test]
fn key_export_loading() {
    assert_eq!(load_session_keys("not json").err(), Some(ConfigError::MalformedKeyExport));
    assert_eq!(load_session_keys("{}").err(), Some(ConfigError::MalformedKeyExport));
    assert_eq!(load_session_keys("[{\"session_id\":\"S\"}]").err(), Some(ConfigError::MalformedKeyExport));
    assert_eq!(load_session_keys("[{\"session_id\":\"S\",\"session_key\":3}]").err(), Some(ConfigError::MalformedKeyExport));
    let t = load_session_keys(&key_export(&[("A", "k1"), ("B", "k2"), ("A", "k3")])).unwrap();
    assert_eq!(t.lookup(&"A".to_string()), Some(&"k3".to_string()));
    assert_eq!(t.lookup(&"B".to_string()), Some(&"k2".to_string()));
    assert_eq!(t.lookup(&"C".to_string()), None);
}

#[test]
fn table_insert_replaces() {
    let mut t = SessionKeyTable::new();
    t.insert(SessionKeyEntry { session_id: "X".to_string(), session_key: "1".to_string() });
    t.insert(SessionKeyEntry { session_id: "X".to_string(), session_key: "2".to_string() });
    assert_eq!(t.lookup(&"X".to_string()), Some(&"2".to_string()));
    let u = SessionKeyTable::from_entries(vec![SessionKeyEntry { session_id: "Y".to_string(), session_key: "3".to_string() }]);
    assert_eq!(u.lookup(&"Y".to_string()), Some(&"3".to_string()));
}

#[test]
fn refused_outcome_attaches_placeholder() {
    let record = object(&plain_record("E9"));
    let out = apply_outcome(record.clone(), "E9".to_string(), CipherOutcome::Refused("MAC".to_string())).unwrap();
    let mut expected = record;
    expected.insert(
        "content_decrypted".to_string(),
        serde_json::from_str("{\"msgtype\":\"m.bad.encrypted\",\"body\":\"** Unable to decrypt: DecryptionError: MAC **\"}").unwrap(),
    );
    assert_eq!(out.record, expected);
}

#[test]
fn plaintext_outcome_attaches_object() {
    let record = object(&plain_record("E9"));
    let out = apply_outcome(record, "E9".to_string(), CipherOutcome::Plaintext(b"{\"k\":true}".to_vec())).unwrap();
    assert_eq!(out.record["content_decrypted"]["k"], true);
    let e = apply_outcome(object(&plain_record("E9")), "E9".to_string(), CipherOutcome::Plaintext(vec![0xff, 0xfe])).unwrap_err();
    assert_eq!(e.kind, FatalKind::BadPlaintext);
}

#[test]
fn decrypt_message_gives_plaintext() {
    let mut s = sender();
    let c = s.group.encrypt("payload").to_bytes();
    let key = vodozemac::megolm::ExportedSessionKey::from_base64(&s.exported_key).unwrap().to_bytes();
    match decrypt_message(&key, &c) {
        Some(CipherOutcome::Plaintext(p)) => assert_eq!(p, b"payload".to_vec()),
        _ => panic!("not decrypted"),
    }
    match decrypt_message(&key, &c) {
        Some(CipherOutcome::Plaintext(p)) => assert_eq!(p, b"payload".to_vec()),
        _ => panic!("second decryption differs"),
    }
    assert!(decrypt_message(&[1, 2, 3], &c).is_none());
    assert!(matches!(decrypt_message(&key, &[3, 0]), Some(CipherOutcome::Refused(_))));
}

#[test]
fn undecodable_message_gives_placeholder() {
    let mut s = sender();
    let c = encrypt(&mut s, "{\"body\":\"x\"}");
    let mut bytes = vodozemac::megolm::MegolmMessage::from_base64(&c).unwrap().to_bytes();
    bytes[0] ^= 0xff;
    let flipped = base64::engine::general_purpose::STANDARD_NO_PAD.encode(&bytes);
    let keys = table(&[("S1", &s.exported_key)]);
    let archive = format!("[{},{}]", encrypted_record("A", "S1", "AAAA"), encrypted_record("B", "S1", &flipped));
    let outs = process_archive(&archive, &keys).unwrap();
    assert_eq!(outs.len(), 2);
    for out in &outs {
        assert_eq!(out.record["content_decrypted"]["msgtype"], "m.bad.encrypted");
        assert!(matches!(out.notice, Notice::Undecryptable(_)));
    }
}

#[test]
fn unknown_session_ignores_ciphertext_shape() {
    let keys = table(&[("S1", &sender().exported_key)]);
    let nested = "{\"content\":{\"session_id\":\"S2\",\"ciphertext\":7}}";
    let record = object(&format!("{{\"event_id\":\"E5\",\"json\":{}}}", quoted(nested)));
    let out = process_record(record.clone(), &keys).unwrap();
    assert_eq!(out.record, record);
    assert!(matches!(out.notice, Notice::NoMatchingKey));
    let nested = "{\"content\":{\"session_id\":\"S1\",\"ciphertext\":7}}";
    let record = object(&format!("{{\"event_id\":\"E6\",\"json\":{}}}", quoted(nested)));
    assert_eq!(process_record(record, &keys).unwrap_err().kind, FatalKind::MalformedJson);
}

#[test]
fn line_rendering() {
    let record = object(&plain_record("E1"));
    let keys = table(&[]);
    let out = process_record(record.clone(), &keys).unwrap();
    let line = render_line(out);
    assert!(line.ends_with('\n'));
    assert!(!line[..line.len() - 1].contains('\n'));
    let back: Value = serde_json::from_str(&line).unwrap();
    assert_eq!(back, Value::Object(record));
}
