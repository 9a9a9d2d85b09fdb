//! The polymorphic response decoder: typed record decoding from parsed JSON,
//! the minimal error envelope, and the two-stage disambiguation that turns
//! raw response bytes into a success value or a classified failure.

use vstd::prelude::*;
use crate::json::{Json, JsonV, entries_view, seq_view, parse_json, sp_json};
use crate::text::{bytes_eq, utf8_string};
use vstd::utf8::{valid_utf8, decode_utf8};
use vstd::string::StringSliceAdditionalSpecFns;

verus! {

/// Why a value failed to decode into a typed record; the message is a
/// human-readable diagnostic with no contract on its wording.
#[derive(Debug)]
pub struct DecodeErr {
    pub message: String,
}

/// Decoding into a typed record: each record states which JSON values it
/// accepts and what they decode to, and its checked decoder succeeds exactly
/// where that specification does.
pub trait FromJson: Sized + View {
    /// The value this record decodes to on `j`, if any.
    spec fn from_json_spec(j: JsonV) -> Option<Self::V>;

    /// Decodes `j`, succeeding exactly where `from_json_spec` does.
    fn from_json(j: &Json) -> (r: Result<Self, DecodeErr>)
        ensures
            (match r {
                Ok(v) => Self::from_json_spec(j@) == Some(v@),
                Err(_) => Self::from_json_spec(j@) is None,
            });
}

// ---------------------------------------------------------------------------
// Object field access
// ---------------------------------------------------------------------------

/// The value of the first entry with key `key`, searching from index `i`.
pub open spec fn sp_lookup_from(es: Seq<(Seq<u8>, JsonV)>, key: Seq<u8>, i: int) -> Option<JsonV>
    decreases es.len() - i,
    when 0 <= i <= es.len()
{
    if i >= es.len() {
        None
    } else if es[i].0 == key {
        Some(es[i].1)
    } else {
        sp_lookup_from(es, key, i + 1)
    }
}

/// The value of the first entry with key `key`.
pub open spec fn sp_lookup(es: Seq<(Seq<u8>, JsonV)>, key: Seq<u8>) -> Option<JsonV> {
    sp_lookup_from(es, key, 0)
}

fn lookup_from<'a>(es: &'a Vec<(Vec<u8>, Json)>, key: &[u8], i: usize) -> (r: Option<&'a Json>)
    requires
        i <= es@.len(),
    ensures
        (match r {
            Some(v) => sp_lookup_from(entries_view(es@), key@, i as int) == Some(v@),
            None => sp_lookup_from(entries_view(es@), key@, i as int) is None,
        }),
    decreases es@.len() - i,
{
    if i >= es.len() {
        None
    } else if bytes_eq(es[i].0.as_slice(), key) {
        Some(&es[i].1)
    } else {
        lookup_from(es, key, i + 1)
    }
}

/// Finds the first entry with the given key, if any.
pub fn lookup<'a>(es: &'a Vec<(Vec<u8>, Json)>, key: &[u8]) -> (r: Option<&'a Json>)
    ensures
        (match r {
            Some(v) => sp_lookup(entries_view(es@), key@) == Some(v@),
            None => sp_lookup(entries_view(es@), key@) is None,
        }),
{
    lookup_from(es, key, 0)
}

/// Whether `k` is one of the allowed key names.
pub open spec fn sp_key_in(allowed: Seq<Seq<u8>>, k: Seq<u8>) -> bool {
    exists|i: int| 0 <= i < allowed.len() && allowed[i] == k
}

/// The byte strings named by a list of key literals.
pub open spec fn keys_view(a: Seq<&str>) -> Seq<Seq<u8>> {
    Seq::new(a.len(), |i: int| a[i].spec_bytes())
}

/// Strict-object well-formedness: every key is declared and no key repeats.
pub open spec fn sp_keys_ok(es: Seq<(Seq<u8>, JsonV)>, allowed: Seq<Seq<u8>>) -> bool {
    forall|i: int|
        0 <= i < es.len() ==> sp_key_in(allowed, (#[trigger] es[i]).0) && sp_lookup_from(
            es,
            es[i].0,
            i + 1,
        ) is None
}

fn key_in(allowed: &Vec<&str>, k: &[u8]) -> (r: bool)
    ensures
        r == sp_key_in(keys_view(allowed@), k@),
{
    let n = allowed.len();
    let mut i: usize = 0;
    while i < n
        invariant
            n == allowed@.len(),
            0 <= i <= n,
            forall|q: int| 0 <= q < i ==> keys_view(allowed@)[q] != k@,
        decreases n - i,
    {
        if bytes_eq(allowed[i].as_bytes(), k) {
            assert(keys_view(allowed@)[i as int] == k@);
            return true;
        }
        i = i + 1;
    }
    false
}

/// Checks that every key of the object is declared and that no key repeats:
/// the deny-unknown-fields discipline of the strict records.
pub fn keys_ok(es: &Vec<(Vec<u8>, Json)>, allowed: &Vec<&str>) -> (r: bool)
    ensures
        r == sp_keys_ok(entries_view(es@), keys_view(allowed@)),
{
    let n = es.len();
    let mut i: usize = 0;
    while i < n
        invariant
            n == es@.len(),
            0 <= i <= n,
            forall|q: int|
                0 <= q < i ==> sp_key_in(keys_view(allowed@), (#[trigger] entries_view(
                    es@,
                )[q]).0) && sp_lookup_from(entries_view(es@), entries_view(es@)[q].0, q + 1) is None,
        decreases n - i,
    {
        if !key_in(allowed, es[i].0.as_slice()) {
            proof {
                assert(!sp_key_in(keys_view(allowed@), entries_view(es@)[i as int].0));
            }
            return false;
        }
        match lookup_from(es, es[i].0.as_slice(), i + 1) {
            Some(_) => {
                proof {
                    assert(!(sp_lookup_from(
                        entries_view(es@),
                        entries_view(es@)[i as int].0,
                        i + 1,
                    ) is None));
                }
                return false;
            },
            None => {},
        }
        i = i + 1;
    }
    true
}

// ---------------------------------------------------------------------------
// Field value forms
// ---------------------------------------------------------------------------

/// The boolean a value holds, if it is a boolean.
pub open spec fn sp_as_bool(j: JsonV) -> Option<bool> {
    match j {
        JsonV::Bool(b) => Some(b),
        _ => None,
    }
}

/// The integer a value holds, if it is a number.
pub open spec fn sp_as_u64(j: JsonV) -> Option<u64> {
    match j {
        JsonV::Num(n) => Some(n),
        _ => None,
    }
}

/// The characters a value holds, if it is a string of valid UTF-8.
pub open spec fn sp_as_string(j: JsonV) -> Option<Seq<char>> {
    match j {
        JsonV::Str(b) => if valid_utf8(b) {
            Some(decode_utf8(b))
        } else {
            None
        },
        _ => None,
    }
}

/// Reads a boolean value.
pub fn as_bool(j: &Json) -> (r: Option<bool>)
    ensures
        r == sp_as_bool(j@),
{
    match j {
        Json::Bool(b) => Some(*b),
        _ => None,
    }
}

/// Reads an integer value.
pub fn as_u64(j: &Json) -> (r: Option<u64>)
    ensures
        r == sp_as_u64(j@),
{
    match j {
        Json::Num(n) => Some(*n),
        _ => None,
    }
}

/// Reads a string value as an owned `String`.
pub fn as_string(j: &Json) -> (r: Option<String>)
    ensures
        (match r {
            Some(s) => sp_as_string(j@) == Some(s@),
            None => sp_as_string(j@) is None,
        }),
{
    match j {
        Json::Str(b) => {
            let copy = vstd::slice::slice_to_vec(b.as_slice());
            utf8_string(copy)
        },
        _ => None,
    }
}

// ---------------------------------------------------------------------------
// Typed field extraction over an object's entries
// ---------------------------------------------------------------------------

/// A required boolean field.
pub open spec fn sp_req_bool(es: Seq<(Seq<u8>, JsonV)>, key: Seq<u8>) -> Option<bool> {
    match sp_lookup(es, key) {
        Some(v) => sp_as_bool(v),
        None => None,
    }
}

/// An optional boolean field; absent and `null` both read as `None`.
pub open spec fn sp_opt_bool(es: Seq<(Seq<u8>, JsonV)>, key: Seq<u8>) -> Option<Option<bool>> {
    match sp_lookup(es, key) {
        None => Some(None),
        Some(JsonV::Null) => Some(None),
        Some(v) => match sp_as_bool(v) {
            Some(b) => Some(Some(b)),
            None => None,
        },
    }
}

/// A required string field.
pub open spec fn sp_req_string(es: Seq<(Seq<u8>, JsonV)>, key: Seq<u8>) -> Option<Seq<char>> {
    match sp_lookup(es, key) {
        Some(v) => sp_as_string(v),
        None => None,
    }
}

/// An optional string field; absent and `null` both read as `None`.
pub open spec fn sp_opt_string(es: Seq<(Seq<u8>, JsonV)>, key: Seq<u8>) -> Option<
    Option<Seq<char>>,
> {
    match sp_lookup(es, key) {
        None => Some(None),
        Some(JsonV::Null) => Some(None),
        Some(v) => match sp_as_string(v) {
            Some(s) => Some(Some(s)),
            None => None,
        },
    }
}

pub(crate) fn decode_failure() -> (r: DecodeErr) {
    DecodeErr { message: "value does not match the expected shape".to_owned() }
}

/// Reads a required boolean field.
pub fn req_bool(es: &Vec<(Vec<u8>, Json)>, key: &str) -> (r: Result<bool, DecodeErr>)
    ensures
        (match r {
            Ok(b) => sp_req_bool(entries_view(es@), key.spec_bytes()) == Some(b),
            Err(_) => sp_req_bool(entries_view(es@), key.spec_bytes()) is None,
        }),
{
    match lookup(es, key.as_bytes()) {
        Some(v) => match as_bool(v) {
            Some(b) => Ok(b),
            None => Err(decode_failure()),
        },
        None => Err(decode_failure()),
    }
}

/// Reads an optional boolean field.
pub fn opt_bool(es: &Vec<(Vec<u8>, Json)>, key: &str) -> (r: Result<Option<bool>, DecodeErr>)
    ensures
        (match r {
            Ok(b) => sp_opt_bool(entries_view(es@), key.spec_bytes()) == Some(b),
            Err(_) => sp_opt_bool(entries_view(es@), key.spec_bytes()) is None,
        }),
{
    match lookup(es, key.as_bytes()) {
        None => Ok(None),
        Some(v) => match v {
            Json::Null => Ok(None),
            _ => match as_bool(v) {
                Some(b) => Ok(Some(b)),
                None => Err(decode_failure()),
            },
        },
    }
}

/// The view of an optional `String`, for relating decoded fields to their
/// specification.
pub open spec fn opt_string_view(s: Option<String>) -> Option<Seq<char>> {
    match s {
        Some(x) => Some(x@),
        None => None,
    }
}

/// Reads a required string field.
pub fn req_string(es: &Vec<(Vec<u8>, Json)>, key: &str) -> (r: Result<String, DecodeErr>)
    ensures
        (match r {
            Ok(s) => sp_req_string(entries_view(es@), key.spec_bytes()) == Some(s@),
            Err(_) => sp_req_string(entries_view(es@), key.spec_bytes()) is None,
        }),
{
    match lookup(es, key.as_bytes()) {
        Some(v) => match as_string(v) {
            Some(s) => Ok(s),
            None => Err(decode_failure()),
        },
        None => Err(decode_failure()),
    }
}

/// Reads an optional string field.
pub fn opt_string(es: &Vec<(Vec<u8>, Json)>, key: &str) -> (r: Result<Option<String>, DecodeErr>)
    ensures
        (match r {
            Ok(s) => sp_opt_string(entries_view(es@), key.spec_bytes()) == Some(opt_string_view(s)),
            Err(_) => sp_opt_string(entries_view(es@), key.spec_bytes()) is None,
        }),
{
    match lookup(es, key.as_bytes()) {
        None => Ok(None),
        Some(v) => match v {
            Json::Null => Ok(None),
            _ => match as_string(v) {
                Some(s) => Ok(Some(s)),
                None => Err(decode_failure()),
            },
        },
    }
}

// ---------------------------------------------------------------------------
// Sequences of records
// ---------------------------------------------------------------------------

/// The record values a JSON array decodes to, element by element.
pub open spec fn sp_decode_seq<T: FromJson>(items: Seq<JsonV>) -> Option<Seq<T::V>>
    decreases items.len(),
{
    if items.len() == 0 {
        Some(Seq::<T::V>::empty())
    } else {
        match T::from_json_spec(items[0]) {
            Some(v) => match sp_decode_seq::<T>(items.drop_first()) {
                Some(rest) => Some(seq![v] + rest),
                None => None,
            },
            None => None,
        }
    }
}

/// The views of the elements of a decoded vector, in order.
pub open spec fn vec_views<T: View>(s: Seq<T>) -> Seq<T::V> {
    Seq::new(s.len(), |i: int| s[i]@)
}

fn decode_vec_from<T: FromJson>(items: &Vec<Json>, i: usize) -> (r: Result<Vec<T>, DecodeErr>)
    requires
        i <= items@.len(),
    ensures
        (match r {
            Ok(v) => sp_decode_seq::<T>(seq_view(items@).skip(i as int)) == Some(vec_views(v@)),
            Err(_) => sp_decode_seq::<T>(seq_view(items@).skip(i as int)) is None,
        }),
    decreases items@.len() - i,
{
    let ghost tail = seq_view(items@).skip(i as int);
    if i >= items.len() {
        let out: Vec<T> = Vec::new();
        proof {
            assert(tail.len() == 0);
            assert(vec_views(out@) =~= Seq::<T::V>::empty());
        }
        Ok(out)
    } else {
        proof {
            assert(tail[0] == items@[i as int]@);
            assert(tail.drop_first() =~= seq_view(items@).skip(i + 1));
        }
        match T::from_json(&items[i]) {
            Ok(v) => match decode_vec_from::<T>(items, i + 1) {
                Ok(mut rest) => {
                    let ghost restv = vec_views(rest@);
                    rest.insert(0, v);
                    proof {
                        assert(vec_views(rest@) =~= seq![rest@[0]@] + restv);
                    }
                    Ok(rest)
                },
                Err(e) => Err(e),
            },
            Err(e) => Err(e),
        }
    }
}

/// Decodes every element of a JSON array into a record of type `T`,
/// succeeding exactly when every element does.
pub fn decode_vec<T: FromJson>(items: &Vec<Json>) -> (r: Result<Vec<T>, DecodeErr>)
    ensures
        (match r {
            Ok(v) => sp_decode_seq::<T>(seq_view(items@)) == Some(vec_views(v@)),
            Err(_) => sp_decode_seq::<T>(seq_view(items@)) is None,
        }),
{
    let r = decode_vec_from::<T>(items, 0);
    proof {
        assert(seq_view(items@).skip(0) =~= seq_view(items@));
    }
    r
}


/// The view of an optional value.
pub open spec fn opt_view<T: View>(o: Option<T>) -> Option<T::V> {
    match o {
        Some(x) => Some(x@),
        None => None,
    }
}

/// A required field decoding as a `T`.
pub open spec fn sp_req_field<T: FromJson>(es: Seq<(Seq<u8>, JsonV)>, key: Seq<u8>) -> Option<
    T::V,
> {
    match sp_lookup(es, key) {
        Some(v) => T::from_json_spec(v),
        None => None,
    }
}

/// An optional field decoding as a `T`; absent and `null` both read as
/// `None`.
pub open spec fn sp_opt_field<T: FromJson>(es: Seq<(Seq<u8>, JsonV)>, key: Seq<u8>) -> Option<
    Option<T::V>,
> {
    match sp_lookup(es, key) {
        None => Some(None),
        Some(JsonV::Null) => Some(None),
        Some(v) => match T::from_json_spec(v) {
            Some(x) => Some(Some(x)),
            None => None,
        },
    }
}

/// Reads a required field as a `T`.
pub fn req_field<T: FromJson>(es: &Vec<(Vec<u8>, Json)>, key: &str) -> (r: Result<T, DecodeErr>)
    ensures
        (match r {
            Ok(v) => sp_req_field::<T>(entries_view(es@), key.spec_bytes()) == Some(v@),
            Err(_) => sp_req_field::<T>(entries_view(es@), key.spec_bytes()) is None,
        }),
{
    match lookup(es, key.as_bytes()) {
        Some(v) => T::from_json(v),
        None => Err(decode_failure()),
    }
}

/// Reads an optional field as a `T`.
pub fn opt_field<T: FromJson>(es: &Vec<(Vec<u8>, Json)>, key: &str) -> (r: Result<
    Option<T>,
    DecodeErr,
>)
    ensures
        (match r {
            Ok(v) => sp_opt_field::<T>(entries_view(es@), key.spec_bytes()) == Some(opt_view(v)),
            Err(_) => sp_opt_field::<T>(entries_view(es@), key.spec_bytes()) is None,
        }),
{
    match lookup(es, key.as_bytes()) {
        None => Ok(None),
        Some(v) => match v {
            Json::Null => Ok(None),
            _ => match T::from_json(v) {
                Ok(x) => Ok(Some(x)),
                Err(e) => Err(e),
            },
        },
    }
}

/// A required field holding an array of `T` records.
pub open spec fn sp_req_vec<T: FromJson>(es: Seq<(Seq<u8>, JsonV)>, key: Seq<u8>) -> Option<
    Seq<T::V>,
> {
    match sp_lookup(es, key) {
        Some(JsonV::Arr(items)) => sp_decode_seq::<T>(items),
        _ => None,
    }
}

/// An optional field holding an array of `T` records; absent and `null`
/// both read as `None`.
pub open spec fn sp_opt_vec<T: FromJson>(es: Seq<(Seq<u8>, JsonV)>, key: Seq<u8>) -> Option<
    Option<Seq<T::V>>,
> {
    match sp_lookup(es, key) {
        None => Some(None),
        Some(JsonV::Null) => Some(None),
        Some(JsonV::Arr(items)) => match sp_decode_seq::<T>(items) {
            Some(vs) => Some(Some(vs)),
            None => None,
        },
        Some(_) => None,
    }
}

/// The views of the elements of an optional vector.
pub open spec fn opt_vec_view<T: View>(o: Option<Vec<T>>) -> Option<Seq<T::V>> {
    match o {
        Some(v) => Some(vec_views(v@)),
        None => None,
    }
}

/// Reads a required array field, decoding every element as a `T`.
pub fn req_vec<T: FromJson>(es: &Vec<(Vec<u8>, Json)>, key: &str) -> (r: Result<Vec<T>, DecodeErr>)
    ensures
        (match r {
            Ok(v) => sp_req_vec::<T>(entries_view(es@), key.spec_bytes()) == Some(vec_views(v@)),
            Err(_) => sp_req_vec::<T>(entries_view(es@), key.spec_bytes()) is None,
        }),
{
    broadcast use crate::json::lemma_view_arr;

    match lookup(es, key.as_bytes()) {
        Some(v) => match v {
            Json::Arr(items) => decode_vec::<T>(items),
            _ => Err(decode_failure()),
        },
        None => Err(decode_failure()),
    }
}

/// Reads an optional array field, decoding every element as a `T`.
pub fn opt_vec<T: FromJson>(es: &Vec<(Vec<u8>, Json)>, key: &str) -> (r: Result<
    Option<Vec<T>>,
    DecodeErr,
>)
    ensures
        (match r {
            Ok(v) => sp_opt_vec::<T>(entries_view(es@), key.spec_bytes()) == Some(opt_vec_view(v)),
            Err(_) => sp_opt_vec::<T>(entries_view(es@), key.spec_bytes()) is None,
        }),
{
    broadcast use crate::json::lemma_view_arr;

    match lookup(es, key.as_bytes()) {
        None => Ok(None),
        Some(v) => match v {
            Json::Null => Ok(None),
            Json::Arr(items) => match decode_vec::<T>(items) {
                Ok(x) => Ok(Some(x)),
                Err(e) => Err(e),
            },
            _ => Err(decode_failure()),
        },
    }
}

// ---------------------------------------------------------------------------
// The two-stage decoder
// ---------------------------------------------------------------------------

/// The minimal error envelope: the code held by the "error" field of an
/// object, when that field is a string (other fields are ignored).
pub open spec fn sp_error_code(j: JsonV) -> Option<Seq<u8>> {
    match j {
        JsonV::Obj(es) => match sp_lookup(es, "error".spec_bytes()) {
            Some(JsonV::Str(b)) => Some(b),
            _ => None,
        },
        _ => None,
    }
}

/// Reads the minimal error envelope.
pub fn error_code(j: &Json) -> (r: Option<Vec<u8>>)
    ensures
        (match r {
            Some(v) => sp_error_code(j@) == Some(v@),
            None => sp_error_code(j@) is None,
        }),
{
    broadcast use crate::json::lemma_view_obj;

    match j {
        Json::Obj(es) => match lookup(es, "error".as_bytes()) {
            Some(v) => match v {
                Json::Str(b) => Some(vstd::slice::slice_to_vec(b.as_slice())),
                _ => None,
            },
            None => None,
        },
        _ => None,
    }
}

/// A failure verdict of the decoder: either the remote service reported an
/// error code, or the bytes matched neither expected shape.
#[derive(Debug)]
pub enum DecodeFailure {
    /// The reply carried the error envelope; the code is kept verbatim.
    ErrorCode(String),
    /// The bytes matched neither the success schema nor the error envelope;
    /// carries the diagnostic.
    Malformed(String),
}

/// What `decode_response::<T>` must return for a parsed reply `j`: the
/// success schema is tried first, then the error envelope, and a reply
/// understood as neither is malformed.
pub open spec fn sp_verdict<T: FromJson>(j: JsonV) -> Result<T::V, Option<Seq<u8>>> {
    match T::from_json_spec(j) {
        Some(v) => Ok(v),
        None => match sp_error_code(j) {
            Some(code) => if valid_utf8(code) {
                Err(Some(code))
            } else {
                Err(None)
            },
            None => Err(None),
        },
    }
}

/// Decodes a parsed reply by the two-stage rule: first a strict decode into
/// the success type; on failure, the minimal error envelope, whose code is
/// classified by the caller; a reply matching neither is `Malformed`.
pub fn decode_json<T: FromJson>(j: &Json) -> (r: Result<T, DecodeFailure>)
    ensures
        (match r {
            Ok(v) => sp_verdict::<T>(j@) == Ok::<T::V, Option<Seq<u8>>>(v@),
            Err(DecodeFailure::ErrorCode(c)) => {
                &&& sp_verdict::<T>(j@) matches Err(Some(code))
                &&& c@ == decode_utf8(code)
            },
            Err(DecodeFailure::Malformed(_)) => sp_verdict::<T>(j@) == Err::<
                T::V,
                Option<Seq<u8>>,
            >(None),
        }),
{
    match T::from_json(j) {
        Ok(v) => Ok(v),
        Err(_) => match error_code(j) {
            Some(code) => match utf8_string(code) {
                Some(s) => Err(DecodeFailure::ErrorCode(s)),
                None => Err(
                    DecodeFailure::Malformed(
                        "the error code is not valid UTF-8".to_owned(),
                    ),
                ),
            },
            None => Err(
                DecodeFailure::Malformed(
                    "the reply matches neither the success schema nor the error envelope".to_owned(),
                ),
            ),
        },
    }
}


/// The verdict that the decoding pipeline owes for a whole reply body.
pub enum VerdictV<V> {
    /// The body is JSON matching the success schema, decoding to this value.
    Success(V),
    /// The body is JSON that misses the success schema but carries the error
    /// envelope with this (UTF-8) code.
    Failure(Seq<u8>),
    /// The body is not JSON, or matches neither shape.
    Malformed,
}

/// What decoding owes for raw reply bytes: parse, then the two-stage rule
/// of `sp_verdict`.
pub open spec fn sp_response<T: FromJson>(body: Seq<u8>) -> VerdictV<T::V> {
    match sp_json(body) {
        Some(j) => match sp_verdict::<T>(j) {
            Ok(v) => VerdictV::Success(v),
            Err(Some(c)) => VerdictV::Failure(c),
            Err(None) => VerdictV::Malformed,
        },
        None => VerdictV::Malformed,
    }
}

/// Decodes raw reply bytes: parses them as JSON and applies the two-stage
/// rule of `decode_json`; bytes that are not JSON are `Malformed`.
pub fn decode_response<T: FromJson>(bytes: &[u8]) -> (r: Result<T, DecodeFailure>)
    ensures
        (match r {
            Ok(v) => sp_response::<T>(bytes@) == VerdictV::Success(v@),
            Err(DecodeFailure::ErrorCode(c)) => sp_response::<T>(bytes@) matches VerdictV::Failure(
                code,
            ) && c@ == decode_utf8(code),
            Err(DecodeFailure::Malformed(_)) => sp_response::<T>(bytes@) is Malformed,
        }),
{
    match parse_json(bytes) {
        Some(j) => decode_json::<T>(&j),
        None => Err(DecodeFailure::Malformed("the reply is not JSON".to_owned())),
    }
}


// ---------------------------------------------------------------------------
// Laws of the two-stage decoder
// ---------------------------------------------------------------------------

/// A reply matching the success schema decodes to exactly that value, with
/// every field reproduced: the error envelope is never consulted for it.
pub proof fn lemma_success_decodes_exactly<T: FromJson>(j: JsonV)
    ensures
        T::from_json_spec(j) matches Some(v) ==> sp_verdict::<T>(j) == Ok::<
            T::V,
            Option<Seq<u8>>,
        >(v),
{
}

/// A reply that misses the success schema but carries the error envelope
/// yields the raw code, preserved verbatim.
pub proof fn lemma_error_code_preserved<T: FromJson>(j: JsonV, code: Seq<u8>)
    requires
        T::from_json_spec(j) is None,
        sp_error_code(j) == Some(code),
        valid_utf8(code),
    ensures
        sp_verdict::<T>(j) == Err::<T::V, Option<Seq<u8>>>(Some(code)),
{
}

/// A reply that satisfies neither the success schema nor the error envelope
/// is malformed.
pub proof fn lemma_neither_shape_is_malformed<T: FromJson>(j: JsonV)
    requires
        T::from_json_spec(j) is None,
        sp_error_code(j) is None,
    ensures
        sp_verdict::<T>(j) == Err::<T::V, Option<Seq<u8>>>(None),
{
}

} // verus!
