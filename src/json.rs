use vstd::prelude::*;

use rustc_serialize::json::Json;

use crate::clock::Timestamp;
use crate::error::ObsidianError;
use crate::text::same_text;

verus! {

/// A JSON document as the request decoders read it. Numbers with a fraction
/// or an exponent are kept only as the fact that they are such numbers.
#[derive(Debug)]
pub enum JsonValue {
    Null,
    Boolean(bool),
    I64(i64),
    U64(u64),
    Fraction,
    Text(String),
    Array(Vec<JsonValue>),
    Object(Vec<(String, JsonValue)>),
}

/// `rustc_serialize::json::Json`, a parsed document; opaque here, it is only
/// handed to the conversion into `JsonValue`.
#[verifier::external_type_specification]
#[verifier::external_body]
pub struct ExJson(Json);

/// The document that `rustc_serialize::json::Json::from_str` reads from a
/// text, if the text is JSON.
pub uninterp spec fn json_of(text: Seq<char>) -> Option<JsonValue>;

/// Relies on `rustc_serialize::json::Json::from_str`: it parses the text,
/// and what it returns depends on the text alone.
#[verifier::external_body]
pub(crate) fn parse_json(text: &str) -> (r: Option<JsonValue>)
    ensures
        r == json_of(text@),
{
    Json::from_str(text).ok().map(value_of)
}

/// Turns a parsed `rustc_serialize::json::Json` into the library's own
/// document, variant for variant; the conversion step of `parse_json`.
#[verifier::external_body]
fn value_of(j: Json) -> JsonValue {
    match j {
        Json::Null => JsonValue::Null,
        Json::Boolean(b) => JsonValue::Boolean(b),
        Json::I64(i) => JsonValue::I64(i),
        Json::U64(u) => JsonValue::U64(u),
        Json::F64(_) => JsonValue::Fraction,
        Json::String(s) => JsonValue::Text(s),
        Json::Array(a) => JsonValue::Array(a.into_iter().map(value_of).collect()),
        Json::Object(o) => JsonValue::Object(o.into_iter().map(|(k, v)| (k, value_of(v))).collect()),
    }
}

/// The value of the first member named `key`.
pub open spec fn member(fields: Seq<(String, JsonValue)>, key: Seq<char>) -> Option<JsonValue>
    decreases fields.len(),
{
    if fields.len() == 0 {
        None
    } else if fields[0].0@ == key {
        Some(fields[0].1)
    } else {
        member(fields.subrange(1, fields.len() as int), key)
    }
}

/// The value of the member `key` of an object; none for other documents.
pub open spec fn field_of(v: JsonValue, key: Seq<char>) -> Option<JsonValue> {
    match v {
        JsonValue::Object(fields) => member(fields@, key),
        _ => None,
    }
}

pub open spec fn text_of(v: Option<JsonValue>) -> Option<Seq<char>> {
    match v {
        Some(JsonValue::Text(s)) => Some(s@),
        _ => None,
    }
}

pub open spec fn usize_of(v: Option<JsonValue>) -> Option<usize> {
    match v {
        Some(JsonValue::U64(u)) => if u <= usize::MAX {
            Some(u as usize)
        } else {
            None
        },
        Some(JsonValue::I64(i)) => if 0 <= i <= usize::MAX {
            Some(i as usize)
        } else {
            None
        },
        _ => None,
    }
}

pub open spec fn i32_of(v: Option<JsonValue>) -> Option<i32> {
    match v {
        Some(JsonValue::U64(u)) => if u <= i32::MAX {
            Some(u as i32)
        } else {
            None
        },
        Some(JsonValue::I64(i)) => if i32::MIN <= i <= i32::MAX {
            Some(i as i32)
        } else {
            None
        },
        _ => None,
    }
}

/// An optional unsigned integer: absent or `null` is none.
pub open spec fn opt_usize_of(v: Option<JsonValue>) -> Option<Option<usize>> {
    match v {
        None => Some(None),
        Some(JsonValue::Null) => Some(None),
        _ => match usize_of(v) {
            Some(u) => Some(Some(u)),
            None => None,
        },
    }
}

proof fn lemma_member_skip(fields: Seq<(String, JsonValue)>, key: Seq<char>, i: int)
    requires
        0 <= i < fields.len(),
        forall|k: int| 0 <= k < i ==> fields[k].0@ != key,
    ensures
        member(fields, key) == member(fields.subrange(i, fields.len() as int), key),
    decreases i,
{
    if i > 0 {
        let rest = fields.subrange(1, fields.len() as int);
        assert forall|k: int| 0 <= k < i - 1 implies rest[k].0@ != key by {
            assert(rest[k] == fields[k + 1]);
        }
        lemma_member_skip(rest, key, i - 1);
        assert(rest.subrange(i - 1, rest.len() as int) =~= fields.subrange(i, fields.len() as int));
    } else {
        assert(fields.subrange(0, fields.len() as int) =~= fields);
    }
}

/// The member `key` of an object.
pub fn find_field<'a>(v: &'a JsonValue, key: &str) -> (r: Option<&'a JsonValue>)
    ensures
        match r {
            Some(x) => field_of(*v, key@) == Some(*x),
            None => field_of(*v, key@) is None,
        },
{
    let fields = match v {
        JsonValue::Object(fields) => fields,
        _ => return None,
    };
    let mut i: usize = 0;
    while i < fields.len()
        invariant
            *v == JsonValue::Object(*fields),
            i <= fields@.len(),
            forall|k: int| 0 <= k < i ==> fields@[k].0@ != key@,
        decreases fields.len() - i,
    {
        if same_text(fields[i].0.as_str(), key) {
            proof {
                lemma_member_skip(fields@, key@, i as int);
            }
            return Some(&fields[i].1);
        }
        i += 1;
    }
    proof {
        lemma_member_none(fields@, key@);
    }
    None
}

proof fn lemma_member_none(fields: Seq<(String, JsonValue)>, key: Seq<char>)
    requires
        forall|k: int| 0 <= k < fields.len() ==> fields[k].0@ != key,
    ensures
        member(fields, key) is None,
    decreases fields.len(),
{
    if fields.len() > 0 {
        let rest = fields.subrange(1, fields.len() as int);
        assert forall|k: int| 0 <= k < rest.len() implies rest[k].0@ != key by {
            assert(rest[k] == fields[k + 1]);
        }
        lemma_member_none(rest, key);
    }
}

/// The text held by the member `key`.
pub fn text_field(v: &JsonValue, key: &str) -> (r: Option<String>)
    ensures
        match r {
            Some(s) => text_of(field_of(*v, key@)) == Some(s@),
            None => text_of(field_of(*v, key@)) is None,
        },
{
    match find_field(v, key) {
        Some(JsonValue::Text(s)) => Some(s.clone()),
        _ => None,
    }
}

/// The unsigned integer held by the member `key`.
pub fn usize_field(v: &JsonValue, key: &str) -> (r: Option<usize>)
    ensures
        r == usize_of(field_of(*v, key@)),
{
    match find_field(v, key) {
        Some(JsonValue::U64(u)) => if *u <= usize::MAX as u64 {
            Some(*u as usize)
        } else {
            None
        },
        Some(JsonValue::I64(i)) => if 0 <= *i && *i as u64 <= usize::MAX as u64 {
            Some(*i as usize)
        } else {
            None
        },
        _ => None,
    }
}

/// The optional unsigned integer held by the member `key`; `None` if the
/// member holds something else.
pub fn opt_usize_field(v: &JsonValue, key: &str) -> (r: Option<Option<usize>>)
    ensures
        r == opt_usize_of(field_of(*v, key@)),
{
    match find_field(v, key) {
        None => Some(None),
        Some(JsonValue::Null) => Some(None),
        Some(_) => match usize_field(v, key) {
            Some(u) => Some(Some(u)),
            None => None,
        },
    }
}

/// The 32-bit integer held by the member `key`.
pub fn i32_field(v: &JsonValue, key: &str) -> (r: Option<i32>)
    ensures
        r == i32_of(field_of(*v, key@)),
{
    match find_field(v, key) {
        Some(JsonValue::U64(u)) => if *u <= i32::MAX as u64 {
            Some(*u as i32)
        } else {
            None
        },
        Some(JsonValue::I64(i)) => if i32::MIN as i64 <= *i && *i <= i32::MAX as i64 {
            Some(*i as i32)
        } else {
            None
        },
        _ => None,
    }
}

/// A record that a request body describes. Records made at reading time
/// are stamped with the time `now`.
pub trait FromJson: Sized + View {
    /// The record that a document describes, if it describes one.
    spec fn decoded(v: JsonValue, now: Timestamp) -> Option<Self::V>;

    fn from_json(v: &JsonValue, now: Timestamp) -> (r: Option<Self>)
        ensures
            match r {
                Some(x) => Self::decoded(*v, now) == Some(x@),
                None => Self::decoded(*v, now) is None,
            },
    ;
}

/// The records that the elements of an array describe, in order; elements
/// that describe none are left out.
pub open spec fn decoded_all<T: FromJson>(items: Seq<JsonValue>, now: Timestamp) -> Seq<T::V>
    decreases items.len(),
{
    if items.len() == 0 {
        Seq::empty()
    } else {
        let rest = decoded_all::<T>(items.drop_last(), now);
        match T::decoded(items.last(), now) {
            Some(x) => rest.push(x),
            None => rest,
        }
    }
}

/// The views of a sequence of records.
pub open spec fn views<T: View>(s: Seq<T>) -> Seq<T::V> {
    s.map_values(|x: T| x@)
}

/// A create body: one record, or an array of them.
#[derive(Debug)]
pub enum Payload<T> {
    One(T),
    Many(Vec<T>),
}

/// What a create body holds: the record it describes, else, for an array,
/// the records that its elements describe.
pub open spec fn payload_of<T: FromJson>(v: JsonValue, now: Timestamp) -> Option<Seq<T::V>> {
    match T::decoded(v, now) {
        Some(x) => Some(seq![x]),
        None => match v {
            JsonValue::Array(items) => Some(decoded_all::<T>(items@, now)),
            _ => None,
        },
    }
}

/// Reads a create body as a single record first and, only if that fails,
/// as an array whose elements are read one by one; an element that is not
/// a record is dropped.
pub fn decode_payload<T: FromJson>(v: &JsonValue, now: Timestamp) -> (r: Result<
    Payload<T>,
    ObsidianError,
>)
    ensures
        match r {
            Ok(Payload::One(x)) => T::decoded(*v, now) == Some(x@),
            Ok(Payload::Many(xs)) => T::decoded(*v, now) is None && payload_of::<T>(*v, now)
                == Some(views(xs@)),
            Err(e) => e == ObsidianError::ParseError && payload_of::<T>(*v, now) is None,
        },
{
    if let Some(x) = T::from_json(v, now) {
        return Ok(Payload::One(x));
    }
    let items = match v {
        JsonValue::Array(items) => items,
        _ => return Err(ObsidianError::ParseError),
    };
    let mut out: Vec<T> = Vec::new();
    let mut i: usize = 0;
    while i < items.len()
        invariant
            i <= items@.len(),
            views(out@) == decoded_all::<T>(items@.subrange(0, i as int), now),
        decreases items.len() - i,
    {
        let d = T::from_json(&items[i], now);
        let ghost old_out = out@;
        proof {
            assert(items@.subrange(0, i as int + 1).drop_last() =~= items@.subrange(0, i as int));
        }
        if let Some(x) = d {
            out.push(x);
            assert(views(out@) =~= views(old_out).push(x@));
        }
        i += 1;
    }
    assert(items@.subrange(0, items@.len() as int) =~= items@);
    Ok(Payload::Many(out))
}

/// The successes among a sequence of outcomes, in order.
pub open spec fn successes<T>(s: Seq<Result<T, ObsidianError>>) -> Seq<T>
    decreases s.len(),
{
    if s.len() == 0 {
        Seq::empty()
    } else {
        let rest = successes(s.drop_last());
        match s.last() {
            Ok(x) => rest.push(x),
            Err(_) => rest,
        }
    }
}

/// Keeps what was saved of a batch, in order, and drops the failures.
pub fn keep_saved<T>(results: Vec<Result<T, ObsidianError>>) -> (r: Vec<T>)
    ensures
        r@ == successes(results@),
{
    let ghost all = results@;
    let mut rest = results;
    let mut out: Vec<T> = Vec::new();
    let ghost done: int = 0;
    while rest.len() > 0
        invariant
            0 <= done <= all.len(),
            rest@ == all.subrange(done, all.len() as int),
            out@ == successes(all.subrange(0, done)),
        decreases rest.len(),
    {
        let x = rest.remove(0);
        proof {
            assert(x == all[done]);
            assert(all.subrange(0, done + 1).drop_last() =~= all.subrange(0, done));
            done = done + 1;
            assert(rest@ =~= all.subrange(done, all.len() as int));
        }
        match x {
            Ok(v) => out.push(v),
            Err(_) => {},
        }
    }
    assert(all.subrange(0, all.len() as int) =~= all);
    out
}

/// The record that a request body describes.
pub open spec fn body_record<T: FromJson>(body: Seq<char>, now: Timestamp) -> Option<T::V> {
    match json_of(body) {
        Some(v) => T::decoded(v, now),
        None => None,
    }
}

/// Reads a request body as one record; a body that is not JSON or does not
/// describe such a record is a parse error.
pub fn read_one<T: FromJson>(body: &str, now: Timestamp) -> (r: Result<T, ObsidianError>)
    ensures
        match r {
            Ok(x) => body_record::<T>(body@, now) == Some(x@),
            Err(e) => e == ObsidianError::ParseError && body_record::<T>(body@, now) is None,
        },
{
    let v = match parse_json(body) {
        Some(v) => v,
        None => return Err(ObsidianError::ParseError),
    };
    match T::from_json(&v, now) {
        Some(x) => Ok(x),
        None => Err(ObsidianError::ParseError),
    }
}

/// What a create body holds, as `payload_of` reads its document.
pub open spec fn body_payload<T: FromJson>(body: Seq<char>, now: Timestamp) -> Option<Seq<T::V>> {
    match json_of(body) {
        Some(v) => payload_of::<T>(v, now),
        None => None,
    }
}

/// Reads a create body that holds one record or an array of them.
pub fn read_payload<T: FromJson>(body: &str, now: Timestamp) -> (r: Result<
    Payload<T>,
    ObsidianError,
>)
    ensures
        match r {
            Ok(Payload::One(x)) => body_record::<T>(body@, now) == Some(x@) && body_payload::<T>(
                body@,
                now,
            ) == Some(seq![x@]),
            Ok(Payload::Many(xs)) => body_record::<T>(body@, now) is None && body_payload::<T>(
                body@,
                now,
            ) == Some(views(xs@)),
            Err(e) => e == ObsidianError::ParseError && body_payload::<T>(body@, now) is None,
        },
{
    let v = match parse_json(body) {
        Some(v) => v,
        None => return Err(ObsidianError::ParseError),
    };
    decode_payload::<T>(&v, now)
}

/// The records of a create body in order: the one it describes, or those
/// that the elements of its array describe; none if it holds neither.
pub fn read_all<T: FromJson>(body: &str, now: Timestamp) -> (r: Vec<T>)
    ensures
        views(r@) == match body_payload::<T>(body@, now) {
            Some(xs) => xs,
            None => Seq::empty(),
        },
{
    match read_payload::<T>(body, now) {
        Ok(Payload::One(x)) => {
            let r = vec![x];
            assert(views(r@) =~= seq![r@[0]@]);
            r
        },
        Ok(Payload::Many(xs)) => xs,
        Err(_) => {
            let r: Vec<T> = Vec::new();
            assert(views(r@) =~= Seq::<T::V>::empty());
            r
        },
    }
}

} // verus!
