//! The table of exported session keys, from session identifier to the
//! base64 text of the key.
use vstd::prelude::*;

use crate::json::{into_elements, json_model, json_of_text, object_member, parse_json, value_object, value_text, JsonModel};

verus! {

/// One entry of a key export.
pub struct SessionKeyEntry {
    pub session_id: String,
    pub session_key: String,
}

/// The mapping that a sequence of entries denotes, read left to right: a
/// later entry for an identifier replaces an earlier one.
pub open spec fn entries_map(s: Seq<SessionKeyEntry>) -> Map<Seq<char>, Seq<char>>
    decreases s.len(),
{
    if s.len() == 0 {
        Map::empty()
    } else {
        entries_map(s.drop_last()).insert(s.last().session_id@, s.last().session_key@)
    }
}

/// An entry holds an identifier `k` from index `i` on in `s` and nowhere later.
pub open spec fn last_entry_for(s: Seq<SessionKeyEntry>, k: Seq<char>, i: int) -> bool {
    &&& 0 <= i < s.len()
    &&& s[i].session_id@ == k
    &&& forall|j: int| i < j < s.len() ==> s[j].session_id@ != k
}

/// Looking an identifier up in [`entries_map`] finds the last entry for it.
pub proof fn lemma_entries_map_lookup(s: Seq<SessionKeyEntry>, k: Seq<char>)
    ensures
        entries_map(s).contains_key(k) <==> exists|i: int| 0 <= i < s.len() && s[i].session_id@ == k,
        forall|i: int| last_entry_for(s, k, i) ==> entries_map(s)[k] == s[i].session_key@,
    decreases s.len(),
{
    if s.len() > 0 {
        let p = s.drop_last();
        lemma_entries_map_lookup(p, k);
        if s.last().session_id@ != k {
            assert forall|i: int| last_entry_for(s, k, i) implies last_entry_for(p, k, i) by {}
            if exists|i: int| 0 <= i < s.len() && s[i].session_id@ == k {
                let i = choose|i: int| 0 <= i < s.len() && s[i].session_id@ == k;
                assert(p[i].session_id@ == k);
            }
        } else {
            assert(s[s.len() - 1].session_id@ == k);
        }
        assert forall|i: int| 0 <= i < p.len() && p[i].session_id@ == k implies
            0 <= i < s.len() && s[i].session_id@ == k by {}
    }
}

/// The session keys of an export, looked up by session identifier.
pub struct SessionKeyTable {
    entries: Vec<SessionKeyEntry>,
}

/// Why a key export could not be loaded.
#[derive(Debug, PartialEq, Eq, Structural)]
pub enum ConfigError {
    /// The export is not JSON, or not an array of objects that each carry a
    /// string `session_id` and a string `session_key`.
    MalformedKeyExport,
}

impl View for SessionKeyTable {
    type V = Map<Seq<char>, Seq<char>>;

    closed spec fn view(&self) -> Map<Seq<char>, Seq<char>> {
        entries_map(self.entries@)
    }
}

impl SessionKeyTable {
    /// A table without keys.
    pub fn new() -> (t: SessionKeyTable)
        ensures
            t@ == Map::<Seq<char>, Seq<char>>::empty(),
    {
        SessionKeyTable { entries: Vec::new() }
    }

    /// Adds a key; one already held for the same identifier is replaced.
    pub fn insert(&mut self, entry: SessionKeyEntry)
        ensures
            final(self)@ == old(self)@.insert(entry.session_id@, entry.session_key@),
    {
        let ghost before = self.entries@;
        self.entries.push(entry);
        assert(self.entries@.drop_last() == before);
    }

    /// The table of a sequence of entries, read left to right.
    pub fn from_entries(entries: Vec<SessionKeyEntry>) -> (t: SessionKeyTable)
        ensures
            t@ == entries_map(entries@),
    {
        SessionKeyTable { entries }
    }

    /// The key held for a session identifier.
    pub fn lookup(&self, session_id: &String) -> (r: Option<&String>)
        ensures
            r is Some <==> self@.contains_key(session_id@),
            r matches Some(k) ==> self@[session_id@] == k@,
    {
        let mut i: usize = self.entries.len();
        while i > 0
            invariant
                i <= self.entries@.len(),
                forall|j: int| i <= j < self.entries@.len() ==> self.entries@[j].session_id@ != session_id@,
            decreases i,
        {
            i = i - 1;
            if self.entries[i].session_id == *session_id {
                proof {
                    lemma_entries_map_lookup(self.entries@, session_id@);
                    assert(last_entry_for(self.entries@, session_id@, i as int));
                }
                return Some(&self.entries[i].session_key);
            }
        }
        proof {
            lemma_entries_map_lookup(self.entries@, session_id@);
        }
        None
    }
}

/// The mapping that a sequence of identifier and key pairs denotes, read
/// left to right: a later pair for an identifier replaces an earlier one.
pub open spec fn pairs_map(s: Seq<(Seq<char>, Seq<char>)>) -> Map<Seq<char>, Seq<char>>
    decreases s.len(),
{
    if s.len() == 0 {
        Map::empty()
    } else {
        pairs_map(s.drop_last()).insert(s.last().0, s.last().1)
    }
}

/// Loads a key export: a JSON array of objects, each with a string
/// `session_id` and a string `session_key`. A later entry for an identifier
/// replaces an earlier one.
pub fn load_session_keys(export: &str) -> (r: Result<SessionKeyTable, ConfigError>)
    ensures
        r is Ok <==> (json_of_text(export@) matches Some(v) && export_entries(v) is Some),
        r matches Ok(t) ==> t@ == pairs_map(export_entries(json_of_text(export@)->Some_0)->Some_0),
{
    let parsed = match parse_json(export) {
        Some(v) => v,
        None => return Err(ConfigError::MalformedKeyExport),
    };
    let ghost model = json_model(parsed);
    let elements = match into_elements(parsed) {
        Ok(a) => a,
        Err(_) => return Err(ConfigError::MalformedKeyExport),
    };
    let ghost xs = model->Array_0;
    let mut table = SessionKeyTable::new();
    let mut i: usize = 0;
    while i < elements.len()
        invariant
            i <= elements@.len(),
            json_of_text(export@) == Some(model),
            model == JsonModel::Array(xs),
            xs == elements@.map_values(|x: serde_json::Value| json_model(x)),
            forall|j: int| 0 <= j < i ==> #[trigger] key_entry_of(xs[j]) is Some,
            table@ == pairs_map(xs.take(i as int).map_values(|x: JsonModel| key_entry_of(x)->Some_0)),
        decreases elements@.len() - i,
    {
        let element = &elements[i];
        assert(json_model(*element) == xs[i as int]);
        let (id, key) = match value_object(element) {
            Some(m) => (
                match object_member(m, "session_id") {
                    Some(x) => value_text(x),
                    None => None,
                },
                match object_member(m, "session_key") {
                    Some(x) => value_text(x),
                    None => None,
                },
            ),
            None => (None, None),
        };
        match (id, key) {
            (Some(id), Some(key)) => {
                let ghost before = xs.take(i as int).map_values(|x: JsonModel| key_entry_of(x)->Some_0);
                assert(key_entry_of(xs[i as int]) == Some((id@, key@)));
                table.insert(SessionKeyEntry { session_id: id, session_key: key });
                assert(xs.take(i + 1).map_values(|x: JsonModel| key_entry_of(x)->Some_0).drop_last() == before);
            },
            _ => {
                assert(key_entry_of(xs[i as int]) is None);
                assert(!(forall|j: int| 0 <= j < xs.len() ==> #[trigger] key_entry_of(xs[j]) is Some));
                assert(export_entries(model) is None);
                return Err(ConfigError::MalformedKeyExport);
            },
        }
        i = i + 1;
    }
    assert(xs.take(xs.len() as int) == xs);
    Ok(table)
}

/// What a key export denotes: the table, if every element of the JSON array
/// is an object with a string `session_id` and a string `session_key`.
pub open spec fn export_entries(v: JsonModel) -> Option<Seq<(Seq<char>, Seq<char>)>> {
    match v {
        JsonModel::Array(xs) => {
            if forall|i: int| 0 <= i < xs.len() ==> #[trigger] key_entry_of(xs[i]) is Some {
                Some(xs.map_values(|x: JsonModel| key_entry_of(x)->Some_0))
            } else {
                None
            }
        },
        _ => None,
    }
}

/// The identifier and key text of one element of a key export.
pub open spec fn key_entry_of(x: JsonModel) -> Option<(Seq<char>, Seq<char>)> {
    match x {
        JsonModel::Object(m) => {
            if m.contains_key("session_id"@)
                && m.contains_key("session_key"@) {
                match (m["session_id"@], m["session_key"@]) {
                    (JsonModel::Str(id), JsonModel::Str(key)) => Some((id, key)),
                    _ => None,
                }
            } else {
                None
            }
        },
        _ => None,
    }
}

} // verus!
