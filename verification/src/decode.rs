use vstd::prelude::*;

use crate::api::{DnsRecord, DnsRecordId, RecordView};
use crate::json::{json_of, lookup_field, parse_value, spec_lookup, value_tree, JsonValue};

verus! {

/// A member that must be present and hold a string.
pub open spec fn spec_req_string(fs: Seq<(String, JsonValue)>, name: Seq<char>) -> Option<
    Seq<char>,
> {
    match spec_lookup(fs, name) {
        Some(JsonValue::Str(s)) => Some(s@),
        _ => None,
    }
}

/// A member that must be present and hold an unsigned integer that fits in
/// 32 bits.
pub open spec fn spec_req_u32(fs: Seq<(String, JsonValue)>, name: Seq<char>) -> Option<u32> {
    match spec_lookup(fs, name) {
        Some(JsonValue::UInt(u)) => if u <= u32::MAX as u64 {
            Some(u as u32)
        } else {
            None
        },
        _ => None,
    }
}

/// A member that may be absent or null; if it holds a value, the value must
/// be an unsigned integer that fits in 32 bits.  The outer `None` is a shape
/// mismatch.
pub open spec fn spec_opt_u32(fs: Seq<(String, JsonValue)>, name: Seq<char>) -> Option<
    Option<u32>,
> {
    match spec_lookup(fs, name) {
        None => Some(None),
        Some(JsonValue::Null) => Some(None),
        Some(JsonValue::UInt(u)) => if u <= u32::MAX as u64 {
            Some(Some(u as u32))
        } else {
            None
        },
        _ => None,
    }
}

/// A member that may be absent or null; if it holds a value, the value must
/// be a string.  The outer `None` is a shape mismatch.
pub open spec fn spec_opt_string(fs: Seq<(String, JsonValue)>, name: Seq<char>) -> Option<
    Option<Seq<char>>,
> {
    match spec_lookup(fs, name) {
        None => Some(None),
        Some(JsonValue::Null) => Some(None),
        Some(JsonValue::Str(s)) => Some(Some(s@)),
        _ => None,
    }
}

fn req_string_field(fs: &Vec<(String, JsonValue)>, name: &str) -> (r: Option<String>)
    ensures
        r.deep_view() == spec_req_string(fs@, name@),
{
    match lookup_field(fs, name) {
        Some(v) => match v {
            JsonValue::Str(s) => Some(s.clone()),
            _ => None,
        },
        None => None,
    }
}

fn req_u32_field(fs: &Vec<(String, JsonValue)>, name: &str) -> (r: Option<u32>)
    ensures
        r == spec_req_u32(fs@, name@),
{
    match lookup_field(fs, name) {
        Some(v) => match v {
            JsonValue::UInt(u) => {
                let u = *u;
                if u <= u32::MAX as u64 {
                    Some(u as u32)
                } else {
                    None
                }
            },
            _ => None,
        },
        None => None,
    }
}

fn opt_u32_field(fs: &Vec<(String, JsonValue)>, name: &str) -> (r: Option<Option<u32>>)
    ensures
        r == spec_opt_u32(fs@, name@),
{
    match lookup_field(fs, name) {
        Some(v) => match v {
            JsonValue::Null => Some(None),
            JsonValue::UInt(u) => {
                let u = *u;
                if u <= u32::MAX as u64 {
                    Some(Some(u as u32))
                } else {
                    None
                }
            },
            _ => None,
        },
        None => Some(None),
    }
}

fn opt_string_field(fs: &Vec<(String, JsonValue)>, name: &str) -> (r: Option<Option<String>>)
    ensures
        r.deep_view() == spec_opt_string(fs@, name@),
{
    match lookup_field(fs, name) {
        Some(v) => match v {
            JsonValue::Null => Some(None),
            JsonValue::Str(s) => Some(Some(s.clone())),
            _ => None,
        },
        None => Some(None),
    }
}

/// The record a JSON object decodes to: every required member present with
/// the right type, optional members absent, null or well-typed; other
/// members are ignored.
pub open spec fn spec_record_of(v: JsonValue) -> Option<RecordView> {
    match v {
        JsonValue::Obj(fs) => spec_record_of_fields(fs@),
        _ => None,
    }
}

pub open spec fn spec_record_of_fields(fs: Seq<(String, JsonValue)>) -> Option<RecordView> {
    match (spec_req_u32(fs, "record_id"@), spec_req_string(fs, "name"@), spec_req_u32(
        fs,
        "ttl"@,
    ), spec_req_string(fs, "data"@), spec_req_string(fs, "type"@), spec_opt_u32(
        fs,
        "priority"@,
    ), spec_opt_string(fs, "comment"@)) {
        (
            Some(record_id),
            Some(name),
            Some(ttl),
            Some(data),
            Some(record_type),
            Some(priority),
            Some(comment),
        ) => Some(
            RecordView {
                record_id: record_id,
                name: name,
                ttl: ttl,
                data: data,
                record_type: record_type,
                priority: priority,
                comment: comment,
            },
        ),
        _ => None,
    }
}

/// Decodes one element of a `records` array.
fn record_from_json(v: &JsonValue) -> (r: Option<DnsRecord>)
    ensures
        r.deep_view() == spec_record_of(*v),
{
    let fs = match v {
        JsonValue::Obj(fs) => fs,
        _ => { return None; },
    };
    let record_id = match req_u32_field(fs, "record_id") {
        Some(x) => x,
        None => { return None; },
    };
    let name = match req_string_field(fs, "name") {
        Some(x) => x,
        None => { return None; },
    };
    let ttl = match req_u32_field(fs, "ttl") {
        Some(x) => x,
        None => { return None; },
    };
    let data = match req_string_field(fs, "data") {
        Some(x) => x,
        None => { return None; },
    };
    let record_type = match req_string_field(fs, "type") {
        Some(x) => x,
        None => { return None; },
    };
    let priority = match opt_u32_field(fs, "priority") {
        Some(x) => x,
        None => { return None; },
    };
    let comment = match opt_string_field(fs, "comment") {
        Some(x) => x,
        None => { return None; },
    };
    Some(
        DnsRecord {
            record_id: DnsRecordId { id: record_id },
            name: name,
            ttl: ttl,
            data: data,
            record_type: record_type,
            priority: priority,
            comment: comment,
        },
    )
}

/// The records an array decodes to, in the order the service provided them;
/// `None` as soon as one element does not decode.
pub open spec fn spec_records_seq(elems: Seq<JsonValue>) -> Option<Seq<RecordView>>
    decreases elems.len(),
{
    if elems.len() == 0 {
        Some(Seq::empty())
    } else {
        match (spec_records_seq(elems.drop_last()), spec_record_of(elems.last())) {
            (Some(rest), Some(r)) => Some(rest.push(r)),
            _ => None,
        }
    }
}

proof fn lemma_records_seq_fails(elems: Seq<JsonValue>, i: int)
    requires
        0 <= i < elems.len(),
        spec_record_of(elems[i]) is None,
    ensures
        spec_records_seq(elems) is None,
    decreases elems.len(),
{
    if i < elems.len() - 1 {
        assert(elems.drop_last()[i] == elems[i]);
        lemma_records_seq_fails(elems.drop_last(), i);
    }
}

fn records_from_array(elems: &Vec<JsonValue>) -> (r: Option<Vec<DnsRecord>>)
    ensures
        match spec_records_seq(elems@) {
            Some(models) => r matches Some(v) && v.deep_view() == models,
            None => r is None,
        },
{
    let n = elems.len();
    let mut acc: Vec<DnsRecord> = Vec::new();
    proof {
        assert(elems@.take(0) =~= Seq::<JsonValue>::empty());
        assert(acc.deep_view() =~= Seq::<RecordView>::empty());
    }
    for i in 0..n
        invariant
            n == elems@.len(),
            spec_records_seq(elems@.take(i as int)) == Some(acc.deep_view()),
    {
        match record_from_json(&elems[i]) {
            Some(rec) => {
                let ghost prev = acc.deep_view();
                acc.push(rec);
                proof {
                    assert(elems@.take(i + 1).drop_last() =~= elems@.take(i as int));
                    assert(elems@.take(i + 1).last() == elems@[i as int]);
                    assert(acc.deep_view() =~= prev.push(rec.deep_view()));
                }
            },
            None => {
                proof {
                    lemma_records_seq_fails(elems@, i as int);
                }
                return None;
            },
        }
    }
    proof {
        assert(elems@.take(n as int) =~= elems@);
    }
    Some(acc)
}

/// What a list response body yields: the `records` array, each element
/// decoded, in service order.  `None` is a decode failure.
pub open spec fn spec_list_of(j: Option<JsonValue>) -> Option<Seq<RecordView>> {
    match j {
        Some(JsonValue::Obj(fs)) => match spec_lookup(fs@, "records"@) {
            Some(JsonValue::Arr(elems)) => spec_records_seq(elems@),
            _ => None,
        },
        _ => None,
    }
}

/// Decodes a list response body into the domain's records, keeping the
/// service's order.  `None` when the body is not JSON or not of the
/// documented shape.
pub fn decode_list_body(body: &str) -> (r: Option<Vec<DnsRecord>>)
    ensures
        match spec_list_of(json_of(body@)) {
            Some(models) => r matches Some(v) && v.deep_view() == models,
            None => r is None,
        },
{
    let parsed = match parse_value(body) {
        Some(p) => p,
        None => { return None; },
    };
    let j = value_tree(&parsed);
    let fs = match j {
        JsonValue::Obj(fs) => fs,
        _ => { return None; },
    };
    match lookup_field(&fs, "records") {
        Some(v) => match v {
            JsonValue::Arr(elems) => records_from_array(elems),
            _ => None,
        },
        None => None,
    }
}

/// The identifier a member of the create response's `record` array decodes
/// to: an object whose `id` member is an unsigned 32-bit integer.
pub open spec fn spec_id_of(v: JsonValue) -> Option<u32> {
    match v {
        JsonValue::Obj(fs) => spec_req_u32(fs@, "id"@),
        _ => None,
    }
}

/// The identifiers the create response's `record` array decodes to.
pub open spec fn spec_ids_seq(elems: Seq<JsonValue>) -> Option<Seq<u32>>
    decreases elems.len(),
{
    if elems.len() == 0 {
        Some(Seq::empty())
    } else {
        match (spec_ids_seq(elems.drop_last()), spec_id_of(elems.last())) {
            (Some(rest), Some(r)) => Some(rest.push(r)),
            _ => None,
        }
    }
}

proof fn lemma_ids_seq_fails(elems: Seq<JsonValue>, i: int)
    requires
        0 <= i < elems.len(),
        spec_id_of(elems[i]) is None,
    ensures
        spec_ids_seq(elems) is None,
    decreases elems.len(),
{
    if i < elems.len() - 1 {
        assert(elems.drop_last()[i] == elems[i]);
        lemma_ids_seq_fails(elems.drop_last(), i);
    }
}

fn id_from_json(v: &JsonValue) -> (r: Option<DnsRecordId>)
    ensures
        r.deep_view() == spec_id_of(*v),
{
    let fs = match v {
        JsonValue::Obj(fs) => fs,
        _ => { return None; },
    };
    match req_u32_field(fs, "id") {
        Some(id) => Some(DnsRecordId { id: id }),
        None => None,
    }
}

fn ids_from_array(elems: &Vec<JsonValue>) -> (r: Option<Vec<DnsRecordId>>)
    ensures
        match spec_ids_seq(elems@) {
            Some(models) => r matches Some(v) && v.deep_view() == models,
            None => r is None,
        },
{
    let n = elems.len();
    let mut acc: Vec<DnsRecordId> = Vec::new();
    proof {
        assert(elems@.take(0) =~= Seq::<JsonValue>::empty());
        assert(acc.deep_view() =~= Seq::<u32>::empty());
    }
    for i in 0..n
        invariant
            n == elems@.len(),
            spec_ids_seq(elems@.take(i as int)) == Some(acc.deep_view()),
    {
        match id_from_json(&elems[i]) {
            Some(id) => {
                let ghost prev = acc.deep_view();
                acc.push(id);
                proof {
                    assert(elems@.take(i + 1).drop_last() =~= elems@.take(i as int));
                    assert(elems@.take(i + 1).last() == elems@[i as int]);
                    assert(acc.deep_view() =~= prev.push(id.deep_view()));
                }
            },
            None => {
                proof {
                    lemma_ids_seq_fails(elems@, i as int);
                }
                return None;
            },
        }
    }
    proof {
        assert(elems@.take(n as int) =~= elems@);
    }
    Some(acc)
}

/// What a create response body yields: the identifiers under `record`, with
/// an absent or null member normalized to the empty sequence.  `None` is a
/// decode failure.
pub open spec fn spec_created_of(j: Option<JsonValue>) -> Option<Seq<u32>> {
    match j {
        Some(JsonValue::Obj(fs)) => match spec_lookup(fs@, "record"@) {
            None => Some(Seq::empty()),
            Some(JsonValue::Null) => Some(Seq::empty()),
            Some(JsonValue::Arr(elems)) => spec_ids_seq(elems@),
            _ => None,
        },
        _ => None,
    }
}

/// Decodes a create response body into the created identifiers; an absent or
/// null `record` member yields an empty vector, not an error.  `None` when
/// the body is not JSON or not of the documented shape.
pub fn decode_create_body(body: &str) -> (r: Option<Vec<DnsRecordId>>)
    ensures
        match spec_created_of(json_of(body@)) {
            Some(ids) => r matches Some(v) && v.deep_view() == ids,
            None => r is None,
        },
{
    let parsed = match parse_value(body) {
        Some(p) => p,
        None => { return None; },
    };
    let j = value_tree(&parsed);
    let fs = match j {
        JsonValue::Obj(fs) => fs,
        _ => { return None; },
    };
    match lookup_field(&fs, "record") {
        Some(v) => match v {
            JsonValue::Null => Some(Vec::new()),
            JsonValue::Arr(elems) => ids_from_array(elems),
            _ => None,
        },
        None => Some(Vec::new()),
    }
}

/// The best-effort message of a failure envelope: the `message` member when
/// the body is a JSON object holding one as a string, the empty sequence in
/// every other case.
pub open spec fn spec_envelope_message(j: Option<JsonValue>) -> Seq<char> {
    match j {
        Some(JsonValue::Obj(fs)) => match spec_lookup(fs@, "message"@) {
            Some(JsonValue::Str(s)) => s@,
            _ => Seq::empty(),
        },
        _ => Seq::empty(),
    }
}

/// Extracts the failure envelope's message from a response body, defaulting
/// to the empty string when the envelope cannot be decoded or lacks the
/// member.
pub fn envelope_message(body: &str) -> (r: String)
    ensures
        r@ == spec_envelope_message(json_of(body@)),
{
    let parsed = match parse_value(body) {
        Some(p) => p,
        None => { return String::new(); },
    };
    let j = value_tree(&parsed);
    let fs = match j {
        JsonValue::Obj(fs) => fs,
        _ => { return String::new(); },
    };
    match lookup_field(&fs, "message") {
        Some(v) => match v {
            JsonValue::Str(s) => s.clone(),
            _ => String::new(),
        },
        None => String::new(),
    }
}

} // verus!
