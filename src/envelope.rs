//! Inbound answers: every answer is a JSON object with a boolean `success` member; when it is
//! `true`, the members named by the request carry the result.
use vstd::prelude::*;
use vstd::string::*;

use crate::error::ClientError;
use crate::request::{distinct_names, strings_view, RequestView, RpcRequest};
use serde_json::Value;
use vstd::utf8::{decode_utf8, valid_utf8};

verus! {

#[verifier::external_type_specification]
#[verifier::external_body]
pub struct ExJsonValue(serde_json::Value);

#[verifier::external_type_specification]
#[verifier::external_body]
pub struct ExJsonNumber(serde_json::Number);

#[verifier::external_type_specification]
#[verifier::external_body]
#[verifier::reject_recursive_types(K)]
#[verifier::reject_recursive_types(V)]
pub struct ExJsonMap<K, V>(serde_json::Map<K, V>);

/// The value of one member of an answer, by JSON kind. Integers are held as integers, strings
/// as strings; other numbers and nested values are kept as they were parsed.
pub enum Field {
    Null,
    Bool(bool),
    /// An integer that fits in a `u64`.
    Unsigned(u64),
    /// Any other number: negative, too large, or with a fraction or an exponent.
    Number(serde_json::Number),
    Text(String),
    Array(Vec<serde_json::Value>),
    Object(serde_json::Map<String, serde_json::Value>),
}

/// What a member's value is: its kind, and its value where it is a boolean, an integer that
/// fits in a `u64` or a string; the length of an array.
pub enum Scalar {
    Null,
    Bool(bool),
    Unsigned(nat),
    Number,
    Text(Seq<char>),
    Array(nat),
    Object,
}

/// One member of the top-level object of an answer.
pub struct Member {
    pub key: String,
    pub value: Field,
}

pub open spec fn scalar_of(f: Field) -> Scalar {
    match f {
        Field::Null => Scalar::Null,
        Field::Bool(b) => Scalar::Bool(b),
        Field::Unsigned(n) => Scalar::Unsigned(n as nat),
        Field::Number(_) => Scalar::Number,
        Field::Text(s) => Scalar::Text(s@),
        Field::Array(a) => Scalar::Array(a@.len()),
        Field::Object(_) => Scalar::Object,
    }
}

/// The members of an answer: each key with what its value is.
pub type Outline = Seq<(Seq<char>, Scalar)>;

/// The key of each member, with what its value is.
pub open spec fn outline(ms: Seq<Member>) -> Outline {
    ms.map_values(|m: Member| (m.key@, scalar_of(m.value)))
}

/// The members of the JSON object that `text` is, in the order serde_json hands them out, each
/// with its key and what its value is; `None` when `text` is not JSON or is JSON of another kind
/// than an object.
pub uninterp spec fn json_object(text: Seq<char>) -> Option<Outline>;

/// Relies on serde_json::from_str into a `serde_json::Map`, which parses `text` as a JSON
/// object, and on `Number::as_u64`, which gives the value of a number that is an integer
/// fitting in a `u64`.
#[verifier::external_body]
fn parse_object(text: &str) -> (r: Result<Vec<Member>, String>)
    ensures
        r is Err <==> json_object(text@) is None,
        r matches Ok(ms) ==> json_object(text@) == Some(outline(ms@)),
{
    match serde_json::from_str::<serde_json::Map<String, Value>>(text) {
        Ok(map) => Ok(map.into_iter().map(|(key, value)| Member { key, value: match value {
            Value::Null => Field::Null,
            Value::Bool(b) => Field::Bool(b),
            Value::Number(n) => match n.as_u64() {
                Some(u) => Field::Unsigned(u),
                None => Field::Number(n),
            },
            Value::String(s) => Field::Text(s),
            Value::Array(a) => Field::Array(a),
            Value::Object(o) => Field::Object(o),
        } }).collect()),
        Err(e) => Err(e.to_string()),
    }
}

/// The position of the first member named `key`.
pub open spec fn first_key(o: Outline, key: Seq<char>) -> Option<int>
    decreases o.len(),
{
    if o.len() == 0 {
        None
    } else {
        match first_key(o.drop_last(), key) {
            Some(i) => Some(i),
            None => if o.last().0 == key {
                Some(o.len() - 1)
            } else {
                None
            },
        }
    }
}

pub open spec fn success_key() -> Seq<char> {
    seq!['s', 'u', 'c', 'c', 'e', 's', 's']
}

/// The `success` member of an answer, if it is there and a boolean.
pub open spec fn success_flag(o: Outline) -> Option<bool> {
    match first_key(o, success_key()) {
        Some(i) => match o[i].1 {
            Scalar::Bool(b) => Some(b),
            _ => None,
        },
        None => None,
    }
}

/// Every one of `names` names a member.
pub open spec fn all_present(o: Outline, names: Seq<Seq<char>>) -> bool {
    forall|k: int| 0 <= k < names.len() ==> (#[trigger] first_key(o, names[k])) is Some
}

/// What the first member named `key` is.
pub open spec fn scalar_at(o: Outline, key: Seq<char>) -> Scalar {
    o[first_key(o, key)->Some_0].1
}

/// The value of the first member named `key` (`null` where there is none).
pub open spec fn pick(ms: Seq<Member>, key: Seq<char>) -> Field {
    match first_key(outline(ms), key) {
        Some(i) => ms[i].value,
        None => Field::Null,
    }
}

proof fn lemma_first_key_bounds(o: Outline, key: Seq<char>)
    ensures
        first_key(o, key) matches Some(i) ==> 0 <= i < o.len() && o[i].0 == key,
    decreases o.len(),
{
    if o.len() > 0 {
        lemma_first_key_bounds(o.drop_last(), key);
    }
}

proof fn lemma_first_key_prefix(o: Outline, key: Seq<char>, n: int)
    requires
        0 <= n <= o.len(),
        first_key(o.subrange(0, n), key) is Some,
    ensures
        first_key(o, key) == first_key(o.subrange(0, n), key),
    decreases o.len() - n,
{
    if n < o.len() {
        assert(o.subrange(0, n + 1).drop_last() =~= o.subrange(0, n));
        lemma_first_key_prefix(o, key, n + 1);
    } else {
        assert(o.subrange(0, n) =~= o);
    }
}

proof fn lemma_first_key_same_keys(
    a: Outline,
    b: Outline,
    key: Seq<char>,
)
    requires
        a.len() == b.len(),
        forall|j: int| 0 <= j < a.len() ==> #[trigger] a[j].0 == b[j].0,
    ensures
        first_key(a, key) == first_key(b, key),
    decreases a.len(),
{
    if a.len() > 0 {
        lemma_first_key_same_keys(a.drop_last(), b.drop_last(), key);
    }
}

/// Finds the first member named `key`.
fn find_member(ms: &Vec<Member>, key: &String) -> (r: Option<usize>)
    ensures
        match r {
            Some(i) => first_key(outline(ms@), key@) == Some(i as int),
            None => first_key(outline(ms@), key@) is None,
        },
        r matches Some(i) ==> i < ms@.len(),
{
    let ghost o = outline(ms@);
    let mut i: usize = 0;
    while i < ms.len()
        invariant
            i <= ms@.len(),
            o == outline(ms@),
            first_key(o.subrange(0, i as int), key@) is None,
        decreases ms@.len() - i,
    {
        proof {
            assert(o.subrange(0, i + 1).drop_last() =~= o.subrange(0, i as int));
            assert(o.subrange(0, i + 1).last() == o[i as int]);
        }
        if ms[i].key == *key {
            proof {
                lemma_first_key_prefix(o, key@, i + 1);
            }
            return Some(i);
        }
        i = i + 1;
    }
    proof {
        assert(o.subrange(0, ms@.len() as int) =~= o);
    }
    None
}

fn parse_failure(body: &str, cause: String) -> (e: ClientError)
    ensures
        e matches ClientError::JsonParse { body: b, cause: c } && b@ == body@ && c@ == cause@,
{
    ClientError::JsonParse { body: String::from_str(body), cause }
}

/// Decodes the members of an answer from `endpoint`.
/// - No boolean `success` member: `JsonParse`, carrying `body`.
/// - `success: false`: `Ok(None)` when `absent_on_failure`, else `RemoteOperationFailed` naming
///   `endpoint`.
/// - `success: true`: `JsonParse`, carrying `body`, when a name of `fields` names no member;
///   otherwise the value of the member named by each of `fields`, in order.
pub fn decode_members(
    members: Vec<Member>,
    endpoint: &str,
    fields: &Vec<String>,
    absent_on_failure: bool,
    body: &str,
) -> (r: Result<Option<Vec<Field>>, ClientError>)
    requires
        distinct_names(strings_view(fields@)),
    ensures
        match success_flag(outline(members@)) {
            None => r matches Err(ClientError::JsonParse { body: b, .. }) && b@ == body@,
            Some(false) => if absent_on_failure {
                r == Ok::<Option<Vec<Field>>, ClientError>(None)
            } else {
                r matches Err(ClientError::RemoteOperationFailed { endpoint: e }) && e@ == endpoint@
            },
            Some(true) => if all_present(outline(members@), strings_view(fields@)) {
                r matches Ok(Some(vals)) && vals@.len() == fields@.len() && forall|k: int|
                    0 <= k < fields@.len() ==> vals@[k] == #[trigger] pick(members@, fields@[k]@)
            } else {
                r matches Err(ClientError::JsonParse { body: b, .. }) && b@ == body@
            },
        },
{
    let ghost given = members@;
    let ghost o = outline(members@);
    proof {
        reveal_strlit("success");
    }
    let success = String::from_str("success");
    let flag = match find_member(&members, &success) {
        Some(i) => match members[i].value {
            Field::Bool(b) => Some(b),
            _ => None,
        },
        None => None,
    };
    proof {
        lemma_first_key_bounds(o, success_key());
        assert(success@ =~= success_key());
    }
    match flag {
        None => {
            proof {
                reveal_strlit("the answer has no boolean `success` member");
            }
            Err(parse_failure(body, String::from_str("the answer has no boolean `success` member")))
        },
        Some(false) => {
            if absent_on_failure {
                Ok(None)
            } else {
                Err(ClientError::RemoteOperationFailed { endpoint: String::from_str(endpoint) })
            }
        },
        Some(true) => {
            let mut held = members;
            let mut vals: Vec<Field> = Vec::new();
            let mut k: usize = 0;
            while k < fields.len()
                invariant
                    k <= fields@.len(),
                    distinct_names(strings_view(fields@)),
                    o == outline(given),
                    given == members@,
                    success_flag(o) == Some(true),
                    forall|j: int| 0 <= j < held@.len() ==> (#[trigger] held@[j]).key
                        == given[j].key,
                    held@.len() == given.len(),
                    vals@.len() == k,
                    forall|j: int| 0 <= j < k ==> (#[trigger] first_key(o, fields@[j]@)) is Some,
                    forall|j: int| 0 <= j < k ==> vals@[j] == #[trigger] pick(given, fields@[j]@),
                    forall|j: int|
                        0 <= j < given.len() && (forall|q: int|
                            0 <= q < k ==> first_key(o, fields@[q]@) != Some(j)) ==> #[trigger] held@[j]
                            == given[j],
                decreases fields@.len() - k,
            {
                proof {
                    assert forall|j: int| 0 <= j < held@.len() implies (
                    #[trigger] outline(held@)[j]).0 == o[j].0 by {
                        assert(held@[j].key == given[j].key);
                    }
                    lemma_first_key_same_keys(outline(held@), o, fields@[k as int]@);
                }
                match find_member(&held, &fields[k]) {
                    Some(i) => {
                        proof {
                            lemma_first_key_bounds(o, fields@[k as int]@);
                            assert forall|q: int| 0 <= q < k implies first_key(o, fields@[q]@)
                                != Some(i as int) by {
                                lemma_first_key_bounds(o, fields@[q]@);
                                assert(strings_view(fields@)[q] == fields@[q]@);
                                assert(strings_view(fields@)[k as int] == fields@[k as int]@);
                            }
                            assert(held@[i as int] == given[i as int]);
                        }
                        let mut taken = Field::Null;
                        std::mem::swap(&mut held[i].value, &mut taken);
                        vals.push(taken);
                    },
                    None => {
                        proof {
                            assert(strings_view(fields@)[k as int] == fields@[k as int]@);
                            assert(first_key(o, strings_view(fields@)[k as int]) is None);
                            assert(!all_present(o, strings_view(fields@)));
                            assert(success_flag(o) == Some(true));
                            reveal_strlit("the answer lacks a result member");
                        }
                        return Err(parse_failure(body, String::from_str("the answer lacks a result member")));
                    },
                }
                k = k + 1;
            }
            proof {
                assert forall|q: int| 0 <= q < strings_view(fields@).len() implies (#[trigger] first_key(
                    o,
                    strings_view(fields@)[q],
                )) is Some by {
                    assert(strings_view(fields@)[q] == fields@[q]@);
                }
            }
            Ok(Some(vals))
        },
    }
}

/// What decoding `text` as the answer to `request` gives:
/// - not a JSON object: `JsonParse`, carrying the text;
/// - no boolean `success` member: `JsonParse`, carrying the text;
/// - `success: false`: `Ok(None)` when the request reads that as "nothing found", else
///   `RemoteOperationFailed` naming the endpoint;
/// - `success: true` and a result field of the request names no member: `JsonParse`, carrying
///   the text;
/// - otherwise one value per result field of the request, in order: that of the member so named.
pub open spec fn decodes_to(
    request: RequestView,
    text: Seq<char>,
    r: Result<Option<Vec<Field>>, ClientError>,
) -> bool {
    match json_object(text) {
        None => r matches Err(ClientError::JsonParse { body: b, .. }) && b@ == text,
        Some(o) => match success_flag(o) {
            None => r matches Err(ClientError::JsonParse { body: b, .. }) && b@ == text,
            Some(false) => if request.absent_on_failure {
                r == Ok::<Option<Vec<Field>>, ClientError>(None)
            } else {
                r matches Err(ClientError::RemoteOperationFailed { endpoint: e }) && e@
                    == request.endpoint
            },
            Some(true) => if all_present(o, request.fields) {
                r matches Ok(Some(vals)) && vals@.len() == request.fields.len() && forall|k: int|
                    0 <= k < vals@.len() ==> scalar_of(#[trigger] vals@[k]) == scalar_at(
                        o,
                        request.fields[k],
                    )
            } else {
                r matches Err(ClientError::JsonParse { body: b, .. }) && b@ == text
            },
        },
    }
}

/// Decodes the answer `body` to `request`.
pub fn decode_response(request: &RpcRequest, body: &str) -> (r: Result<
    Option<Vec<Field>>,
    ClientError,
>)
    requires
        request.well_formed(),
    ensures
        decodes_to(request@, body@, r),
{
    match parse_object(body) {
        Err(cause) => Err(parse_failure(body, cause)),
        Ok(members) => {
            let ghost ms = members@;
            let r = decode_members(
                members,
                request.endpoint.as_str(),
                &request.fields,
                request.absent_on_failure,
                body,
            );
            proof {
                if let Ok(Some(vals)) = &r {
                    assert forall|k: int| 0 <= k < vals@.len() implies scalar_of(
                        #[trigger] vals@[k],
                    ) == scalar_at(outline(ms), request@.fields[k]) by {
                        assert(request@.fields[k] == request.fields@[k]@);
                        assert(vals@[k] == pick(ms, request.fields@[k]@));
                        lemma_first_key_bounds(outline(ms), request@.fields[k]);
                    }
                }
            }
            r
        },
    }
}

/// Relies on std's String::from_utf8: the bytes as a string when they are UTF-8.
#[verifier::external_body]
fn utf8_text(bytes: &Vec<u8>) -> (r: Option<String>)
    ensures
        r is Some <==> valid_utf8(bytes@),
        r matches Some(s) ==> s@ == decode_utf8(bytes@),
{
    String::from_utf8(bytes.clone()).ok()
}

/// Relies on std's String::from_utf8_lossy: the bytes as text, each invalid sequence replaced by
/// U+FFFD.
#[verifier::external_body]
fn lossy_text(bytes: &Vec<u8>) -> (r: String)
    ensures
        valid_utf8(bytes@) ==> r@ == decode_utf8(bytes@),
{
    String::from_utf8_lossy(bytes).into_owned()
}

/// Decodes the answer `body`, as read from the wire, to `request`. Bytes that are not UTF-8
/// are a `JsonParse` carrying them as text, invalid sequences replaced; otherwise their text
/// decodes as `decode_response` does it.
pub fn decode_response_bytes(request: &RpcRequest, body: Vec<u8>) -> (r: Result<
    Option<Vec<Field>>,
    ClientError,
>)
    requires
        request.well_formed(),
    ensures
        valid_utf8(body@) ==> decodes_to(request@, decode_utf8(body@), r),
        !valid_utf8(body@) ==> r matches Err(ClientError::JsonParse { .. }),
{
    match utf8_text(&body) {
        Some(text) => decode_response(request, text.as_str()),
        None => {
            let text = lossy_text(&body);
            proof {
                reveal_strlit("the answer is not UTF-8");
            }
            Err(parse_failure(text.as_str(), String::from_str("the answer is not UTF-8")))
        },
    }
}

/// Reads an integer result: the value of an integer field that fits in a `u64`; any other
/// field is a `JsonParse` carrying `body`.
pub fn unsigned_value(field: &Field, body: &str) -> (r: Result<u64, ClientError>)
    ensures
        match scalar_of(*field) {
            Scalar::Unsigned(n) => r == Ok::<u64, ClientError>(n as u64),
            _ => r matches Err(ClientError::JsonParse { body: b, .. }) && b@ == body@,
        },
{
    match field {
        Field::Unsigned(n) => Ok(*n),
        _ => {
            proof {
                reveal_strlit("the result is not a non-negative integer");
            }
            Err(parse_failure(body, String::from_str("the result is not a non-negative integer")))
        },
    }
}

} // verus!
