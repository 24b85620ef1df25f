//! The run over a whole archive: in batch, where the archive is one JSON
//! array, and in streaming, where each record is handed over on its own.
//! Both go through [`process_element`], record by record and in order.
use vstd::prelude::*;

use crate::json::{
    array_value, encode_json, into_elements, into_object, json_encoding, json_model, json_of_text, object_fields,
    object_value, parse_json, JsonModel,
};
use crate::keys::SessionKeyTable;
use crate::record::{
    event_id_of, passes_through, plan_of, process_record, record_result, record_step, FatalError, FatalKind, PlanModel,
    Processed,
};

verus! {

/// What must be done with one element of an archive.
pub open spec fn element_plan(x: JsonModel, keys: Map<Seq<char>, Seq<char>>) -> Result<PlanModel, FatalKind> {
    match x {
        JsonModel::Object(m) => plan_of(m, keys),
        _ => Err(FatalKind::RecordNotObject),
    }
}

/// The identifier of an element, empty where it has none.
pub open spec fn element_event_id(x: JsonModel) -> Seq<char> {
    match x {
        JsonModel::Object(m) => event_id_of(m),
        _ => Seq::empty(),
    }
}

/// What processing the element `x` gives: the record's members afterwards,
/// or the kind of error that stops the run.
pub open spec fn element_result(x: JsonModel, keys: Map<Seq<char>, Seq<char>>) -> Result<Map<Seq<char>, JsonModel>, FatalKind> {
    match x {
        JsonModel::Object(m) => record_result(m, keys),
        _ => Err(FatalKind::RecordNotObject),
    }
}

/// `after` is what processing the element `x` gives when it succeeds.
pub open spec fn element_step(x: JsonModel, after: Processed, keys: Map<Seq<char>, Seq<char>>) -> bool {
    x matches JsonModel::Object(m) && record_step(m, after, keys)
}

/// The error `e` is what processing the element `x` gives.
pub open spec fn element_fails(x: JsonModel, e: FatalError, keys: Map<Seq<char>, Seq<char>>) -> bool {
    &&& e.event_id@ == element_event_id(x)
    &&& element_result(x, keys) == Err::<Map<Seq<char>, JsonModel>, FatalKind>(e.kind)
}

/// Processes one element of an archive, which must be a record object.
/// Streaming calls this on each record as it is read; batch calls it on each
/// element of the array in turn.
pub fn process_element(element: serde_json::Value, keys: &SessionKeyTable) -> (r: Result<Processed, FatalError>)
    ensures
        r matches Ok(out) ==> element_step(json_model(element), out, keys@),
        r matches Err(e) ==> element_fails(json_model(element), e, keys@),
        r is Ok <==> element_result(json_model(element), keys@) is Ok,
        passes_through(element_plan(json_model(element), keys@))
            ==> (r matches Ok(out) && json_model(element) == JsonModel::Object(object_fields(out.record))),
{
    match into_object(element) {
        Ok(record) => {
            let ghost before = object_fields(record);
            let r = process_record(record, keys);
            proof {
                if r is Ok {
                    let out = r->Ok_0;
                    if passes_through(plan_of(before, keys@)) {
                        assert(out.record == record);
                    }
                }
            }
            r
        },
        Err(_) => Err(FatalError { kind: FatalKind::RecordNotObject, event_id: String::new() }),
    }
}

/// Splits an archive, a JSON array of records, into its elements.
pub fn parse_archive(archive: &str) -> (r: Result<Vec<serde_json::Value>, FatalError>)
    ensures
        r is Ok <==> json_of_text(archive@) matches Some(JsonModel::Array(_)),
        r matches Ok(vs) ==> json_of_text(archive@) == Some(
            JsonModel::Array(vs@.map_values(|v: serde_json::Value| json_model(v))),
        ),
        r matches Err(e) ==> e.kind == FatalKind::MalformedArchive,
{
    let parsed = match parse_json(archive) {
        Some(v) => v,
        None => return Err(FatalError { kind: FatalKind::MalformedArchive, event_id: String::new() }),
    };
    match into_elements(parsed) {
        Ok(vs) => Ok(vs),
        Err(_) => Err(FatalError { kind: FatalKind::MalformedArchive, event_id: String::new() }),
    }
}

/// What a successful run over elements `xs` gives: one processed record per
/// element, in the same order.
pub open spec fn run_ok(xs: Seq<JsonModel>, outs: Seq<Processed>, keys: Map<Seq<char>, Seq<char>>) -> bool {
    &&& outs.len() == xs.len()
    &&& forall|i: int| 0 <= i < xs.len() ==> #[trigger] element_step(xs[i], outs[i], keys)
}

/// The error `e` ends a run over elements `xs`: it is what the first element
/// whose processing fails gives.
pub open spec fn run_fails(xs: Seq<JsonModel>, e: FatalError, keys: Map<Seq<char>, Seq<char>>) -> bool {
    exists|i: int|
        0 <= i < xs.len() && #[trigger] element_fails(xs[i], e, keys)
            && forall|j: int| 0 <= j < i ==> #[trigger] element_result(xs[j], keys) is Ok
}

/// Processes every element of an archive in order; the first fatal error
/// ends the run, while a message that cannot be decrypted does not.
pub fn process_elements(elements: Vec<serde_json::Value>, keys: &SessionKeyTable) -> (r: Result<Vec<Processed>, FatalError>)
    ensures
        r matches Ok(outs) ==> run_ok(elements@.map_values(|v: serde_json::Value| json_model(v)), outs@, keys@),
        r matches Err(e) ==> run_fails(elements@.map_values(|v: serde_json::Value| json_model(v)), e, keys@),
        r is Ok <==> (forall|i: int| 0 <= i < elements.len()
            ==> #[trigger] element_result(json_model(elements@[i]), keys@) is Ok),
{
    let ghost xs = elements@.map_values(|v: serde_json::Value| json_model(v));
    let n = elements.len();
    let mut rest = elements;
    let mut pending: Vec<serde_json::Value> = Vec::new();
    while rest.len() > 0
        invariant
            n == elements@.len(),
            rest@.len() + pending@.len() == n,
            forall|k: int| 0 <= k < rest@.len() ==> rest@[k] == elements@[k],
            forall|k: int| 0 <= k < pending@.len() ==> pending@[k] == elements@[n - 1 - k],
        decreases rest@.len(),
    {
        match rest.pop() {
            Some(v) => pending.push(v),
            None => {},
        }
    }
    let mut outs: Vec<Processed> = Vec::new();
    let mut i: usize = 0;
    while i < n
        invariant
            n == elements@.len(),
            xs == elements@.map_values(|v: serde_json::Value| json_model(v)),
            i <= n,
            pending@.len() == n - i,
            forall|k: int| 0 <= k < pending@.len() ==> pending@[k] == elements@[n - 1 - k],
            outs@.len() == i,
            forall|j: int| 0 <= j < i ==> #[trigger] element_step(xs[j], outs@[j], keys@),
            forall|j: int| 0 <= j < i ==> #[trigger] element_result(xs[j], keys@) is Ok,
        decreases n - i,
    {
        let element = pending.pop().unwrap();
        assert(element == elements@[i as int]);
        assert(xs[i as int] == json_model(element));
        match process_element(element, keys) {
            Ok(out) => {
                outs.push(out);
            },
            Err(e) => {
                assert(element_fails(xs[i as int], e, keys@));
                assert(run_fails(xs, e, keys@));
                assert(!(element_result(json_model(elements@[i as int]), keys@) is Ok));
                return Err(e);
            },
        }
        i = i + 1;
    }
    proof {
        assert forall|i: int| 0 <= i < elements.len() implies #[trigger] element_result(json_model(elements@[i]), keys@) is Ok by {
            assert(xs[i] == json_model(elements@[i]));
        }
    }
    Ok(outs)
}

/// Runs a whole archive in batch: a JSON array of records, processed in
/// order. The archive must be a JSON array, and the first fatal error of a
/// record ends the run.
pub fn process_archive(archive: &str, keys: &SessionKeyTable) -> (r: Result<Vec<Processed>, FatalError>)
    ensures
        !(json_of_text(archive@) matches Some(JsonModel::Array(_))) ==> (r matches Err(e) && e.kind == FatalKind::MalformedArchive),
        json_of_text(archive@) matches Some(JsonModel::Array(xs)) ==> {
            &&& r matches Ok(outs) ==> run_ok(xs, outs@, keys@)
            &&& r matches Err(e) ==> run_fails(xs, e, keys@)
            &&& r is Ok <==> (forall|i: int| 0 <= i < xs.len() ==> #[trigger] element_result(xs[i], keys@) is Ok)
        },
{
    let elements = match parse_archive(archive) {
        Ok(vs) => vs,
        Err(e) => return Err(e),
    };
    let ghost xs = elements@.map_values(|v: serde_json::Value| json_model(v));
    let r = process_elements(elements, keys);
    proof {
        assert forall|i: int| 0 <= i < xs.len() implies #[trigger] xs[i] == json_model(elements@[i]) by {}
    }
    r
}

/// The records of a run, in order, as one JSON array text.
pub fn render_batch(outs: Vec<Processed>) -> (r: String)
    ensures
        r@ == json_encoding(JsonModel::Array(
            outs@.map_values(|p: Processed| JsonModel::Object(object_fields(p.record))),
        )),
{
    let n = outs.len();
    let mut rest = outs;
    let mut pending: Vec<Processed> = Vec::new();
    while rest.len() > 0
        invariant
            n == outs@.len(),
            rest@.len() + pending@.len() == n,
            forall|k: int| 0 <= k < rest@.len() ==> rest@[k] == outs@[k],
            forall|k: int| 0 <= k < pending@.len() ==> pending@[k] == outs@[n - 1 - k],
        decreases rest@.len(),
    {
        match rest.pop() {
            Some(p) => pending.push(p),
            None => {},
        }
    }
    let mut values: Vec<serde_json::Value> = Vec::new();
    let mut i: usize = 0;
    while i < n
        invariant
            n == outs@.len(),
            i <= n,
            pending@.len() == n - i,
            forall|k: int| 0 <= k < pending@.len() ==> pending@[k] == outs@[n - 1 - k],
            values@.len() == i,
            forall|j: int| 0 <= j < i ==> #[trigger] json_model(values@[j]) == JsonModel::Object(object_fields(outs@[j].record)),
        decreases n - i,
    {
        let p = pending.pop().unwrap();
        assert(p == outs@[i as int]);
        values.push(object_value(p.record));
        i = i + 1;
    }
    let array = array_value(values);
    assert(values@.map_values(|x: serde_json::Value| json_model(x))
        == outs@.map_values(|p: Processed| JsonModel::Object(object_fields(p.record))));
    encode_json(&array)
}

/// One record of a streaming run as a line of JSON text.
pub fn render_line(out: Processed) -> (r: String)
    ensures
        r@ == json_encoding(JsonModel::Object(object_fields(out.record))).push('\n'),
{
    let value = object_value(out.record);
    let mut line = encode_json(&value);
    let ghost text = line@;
    line.append("\n");
    proof {
        reveal_strlit("\n");
    }
    assert(line@ == text.push('\n'));
    line
}

/// Streaming and batch agree. Where the records of a stream are the elements
/// of a batch archive, the records that streaming emitted one by one through
/// [`process_element`] meet the batch contract of [`process_elements`], equal
/// those of any successful batch run record by record, and an error that
/// ended the stream ends the batch run too.
pub proof fn lemma_stream_meets_batch(
    xs: Seq<JsonModel>,
    outs: Seq<Processed>,
    batch: Seq<Processed>,
    e: FatalError,
    keys: Map<Seq<char>, Seq<char>>,
)
    requires
        outs.len() <= xs.len(),
        forall|i: int| 0 <= i < outs.len() ==> #[trigger] element_step(xs[i], outs[i], keys),
    ensures
        outs.len() == xs.len() ==> run_ok(xs, outs, keys),
        outs.len() < xs.len() && element_fails(xs[outs.len() as int], e, keys) ==> run_fails(xs, e, keys),
        run_ok(xs, batch, keys) ==> forall|i: int| 0 <= i < outs.len() ==>
            object_fields(#[trigger] outs[i].record) == object_fields(batch[i].record)
                && outs[i].event_id@ == batch[i].event_id@,
{
    if outs.len() < xs.len() && element_fails(xs[outs.len() as int], e, keys) {
        assert forall|j: int| 0 <= j < outs.len() implies #[trigger] element_result(xs[j], keys) is Ok by {
            assert(element_step(xs[j], outs[j], keys));
        }
    }
    if run_ok(xs, batch, keys) {
        assert forall|i: int| 0 <= i < outs.len() implies
            object_fields(#[trigger] outs[i].record) == object_fields(batch[i].record)
                && outs[i].event_id@ == batch[i].event_id@ by {
            assert(element_step(xs[i], outs[i], keys));
            assert(element_step(xs[i], batch[i], keys));
        }
    }
}

} // verus!
