//! The struct-or-empty-collection codec: certain optional object-valued
//! fields arrive as an absent key, an explicit `null`, an empty array, or a
//! populated map; this adapter folds all four into an `Option` of any record
//! with a defined empty value and a map-based decoding. It also provides the
//! plain entry maps used by such fields.

use vstd::prelude::*;
use crate::json::{Json, JsonV, entries_view};
use crate::decode::{
    DecodeErr, FromJson, sp_as_string, sp_as_bool, as_string, as_bool,
};
use crate::text::str_eq;
use vstd::utf8::{valid_utf8, decode_utf8};

verus! {

/// A record with a defined empty value and a map-based decoding.
pub trait MapDecode: Sized + View {
    /// The empty value's view.
    spec fn empty_spec() -> Self::V;

    /// The value decoded from an object's entries, if any.
    spec fn from_entries_spec(es: Seq<(Seq<u8>, JsonV)>) -> Option<Self::V>;

    /// The defined empty value.
    fn empty_default() -> (r: Self)
        ensures
            r@ == Self::empty_spec();

    /// Decodes from an object's entries, succeeding exactly where
    /// `from_entries_spec` does.
    fn decode_from_map(es: &Vec<(Vec<u8>, Json)>) -> (r: Result<Self, DecodeErr>)
        ensures
            (match r {
                Ok(v) => Self::from_entries_spec(entries_view(es@)) == Some(v@),
                Err(_) => Self::from_entries_spec(entries_view(es@)) is None,
            });
}

/// What the codec yields for a field value: absent and `null` are `None`;
/// the empty array is the defined empty value; a populated array is
/// rejected, never coerced; an object decodes as a map; anything else is
/// rejected. The outer `None` is a decode error.
pub open spec fn sp_struct_or_empty<T: MapDecode>(field: Option<JsonV>) -> Option<Option<T::V>> {
    match field {
        None => Some(None),
        Some(JsonV::Null) => Some(None),
        Some(JsonV::Arr(items)) => if items.len() == 0 {
            Some(Some(T::empty_spec()))
        } else {
            None
        },
        Some(JsonV::Obj(es)) => match T::from_entries_spec(es) {
            Some(v) => Some(Some(v)),
            None => None,
        },
        Some(_) => None,
    }
}

/// The view of an optional field value.
pub open spec fn opt_json_view(field: Option<&Json>) -> Option<JsonV> {
    match field {
        Some(j) => Some(j@),
        None => None,
    }
}

/// Applies the codec to a field value, succeeding exactly where
/// `sp_struct_or_empty` does.
pub fn decode_struct_or_empty<T: MapDecode>(field: Option<&Json>) -> (r: Result<
    Option<T>,
    DecodeErr,
>)
    ensures
        (match r {
            Ok(None) => sp_struct_or_empty::<T>(opt_json_view(field)) == Some(None::<T::V>),
            Ok(Some(v)) => sp_struct_or_empty::<T>(opt_json_view(field)) == Some(Some(v@)),
            Err(_) => sp_struct_or_empty::<T>(opt_json_view(field)) is None,
        }),
{
    broadcast use {crate::json::lemma_view_arr, crate::json::lemma_view_obj};

    match field {
        None => Ok(None),
        Some(j) => match j {
            Json::Null => Ok(None),
            Json::Arr(items) => {
                if items.len() == 0 {
                    Ok(Some(T::empty_default()))
                } else {
                    Err(
                        DecodeErr {
                            message: "a populated array is not a valid map field".to_owned(),
                        },
                    )
                }
            },
            Json::Obj(es) => match T::decode_from_map(es) {
                Ok(v) => Ok(Some(v)),
                Err(e) => Err(e),
            },
            _ => Err(
                DecodeErr { message: "the field is neither a map nor an empty array".to_owned() },
            ),
        },
    }
}

// ---------------------------------------------------------------------------
// Entry lists: ordered key/value pairs decoded from an object
// ---------------------------------------------------------------------------

impl FromJson for String {
    open spec fn from_json_spec(j: JsonV) -> Option<Seq<char>> {
        sp_as_string(j)
    }

    fn from_json(j: &Json) -> (r: Result<Self, DecodeErr>) {
        match as_string(j) {
            Some(s) => Ok(s),
            None => Err(DecodeErr { message: "expected a string".to_owned() }),
        }
    }
}

impl FromJson for bool {
    open spec fn from_json_spec(j: JsonV) -> Option<bool> {
        sp_as_bool(j)
    }

    fn from_json(j: &Json) -> (r: Result<Self, DecodeErr>) {
        match as_bool(j) {
            Some(b) => Ok(b),
            None => Err(DecodeErr { message: "expected a boolean".to_owned() }),
        }
    }
}

impl FromJson for u32 {
    open spec fn from_json_spec(j: JsonV) -> Option<u32> {
        match j {
            JsonV::Num(n) => if n <= 0xffff_ffffu64 {
                Some(n as u32)
            } else {
                None
            },
            _ => None,
        }
    }

    fn from_json(j: &Json) -> (r: Result<Self, DecodeErr>) {
        match j {
            Json::Num(n) => {
                if *n <= 0xffff_ffffu64 {
                    Ok(*n as u32)
                } else {
                    Err(DecodeErr { message: "the number does not fit".to_owned() })
                }
            },
            _ => Err(DecodeErr { message: "expected a number".to_owned() }),
        }
    }
}

/// The decoded key/value pairs of an object, in wire order: every key must
/// be valid UTF-8 and every value must decode as a `T`.
pub open spec fn sp_decode_entries<T: FromJson>(es: Seq<(Seq<u8>, JsonV)>) -> Option<
    Seq<(Seq<char>, T::V)>,
>
    decreases es.len(),
{
    if es.len() == 0 {
        Some(Seq::<(Seq<char>, T::V)>::empty())
    } else if valid_utf8(es[0].0) {
        match T::from_json_spec(es[0].1) {
            Some(v) => match sp_decode_entries::<T>(es.drop_first()) {
                Some(rest) => Some(seq![(decode_utf8(es[0].0), v)] + rest),
                None => None,
            },
            None => None,
        }
    } else {
        None
    }
}

/// The views of decoded key/value pairs, in order.
pub open spec fn pair_views<T: View>(s: Seq<(String, T)>) -> Seq<(Seq<char>, T::V)> {
    Seq::new(s.len(), |i: int| (s[i].0@, s[i].1@))
}

fn decode_entries_from<T: FromJson>(es: &Vec<(Vec<u8>, Json)>, i: usize) -> (r: Result<
    Vec<(String, T)>,
    DecodeErr,
>)
    requires
        i <= es@.len(),
    ensures
        (match r {
            Ok(v) => sp_decode_entries::<T>(entries_view(es@).skip(i as int)) == Some(
                pair_views(v@),
            ),
            Err(_) => sp_decode_entries::<T>(entries_view(es@).skip(i as int)) is None,
        }),
    decreases es@.len() - i,
{
    let ghost tail = entries_view(es@).skip(i as int);
    if i >= es.len() {
        let out: Vec<(String, T)> = Vec::new();
        proof {
            assert(tail.len() == 0);
            assert(pair_views(out@) =~= Seq::<(Seq<char>, T::V)>::empty());
        }
        Ok(out)
    } else {
        proof {
            assert(tail[0] == entries_view(es@)[i as int]);
            assert(tail.drop_first() =~= entries_view(es@).skip(i + 1));
        }
        let key_bytes = vstd::slice::slice_to_vec(es[i].0.as_slice());
        match crate::text::utf8_string(key_bytes) {
            Some(key) => match T::from_json(&es[i].1) {
                Ok(v) => match decode_entries_from::<T>(es, i + 1) {
                    Ok(mut rest) => {
                        let ghost restv = pair_views(rest@);
                        rest.insert(0, (key, v));
                        proof {
                            assert(pair_views(rest@) =~= seq![(rest@[0].0@, rest@[0].1@)] + restv);
                        }
                        Ok(rest)
                    },
                    Err(e) => Err(e),
                },
                Err(e) => Err(e),
            },
            None => Err(DecodeErr { message: "a key is not valid UTF-8".to_owned() }),
        }
    }
}

/// Decodes every key/value pair of an object into `(String, T)` pairs, in
/// wire order, succeeding exactly when every pair does.
pub fn decode_entries<T: FromJson>(es: &Vec<(Vec<u8>, Json)>) -> (r: Result<
    Vec<(String, T)>,
    DecodeErr,
>)
    ensures
        (match r {
            Ok(v) => sp_decode_entries::<T>(entries_view(es@)) == Some(pair_views(v@)),
            Err(_) => sp_decode_entries::<T>(entries_view(es@)) is None,
        }),
{
    let r = decode_entries_from::<T>(es, 0);
    proof {
        assert(entries_view(es@).skip(0) =~= entries_view(es@));
    }
    r
}

/// The value of the first pair with the given key.
pub open spec fn sp_pairs_get<V>(s: Seq<(Seq<char>, V)>, key: Seq<char>, i: int) -> Option<V>
    decreases s.len() - i,
    when 0 <= i <= s.len()
{
    if i >= s.len() {
        None
    } else if s[i].0 == key {
        Some(s[i].1)
    } else {
        sp_pairs_get(s, key, i + 1)
    }
}

fn pairs_get_from<'a, T: View>(s: &'a Vec<(String, T)>, key: &str, i: usize) -> (r: Option<&'a T>)
    requires
        i <= s@.len(),
    ensures
        (match r {
            Some(v) => sp_pairs_get(pair_views(s@), key@, i as int) == Some(v@),
            None => sp_pairs_get(pair_views(s@), key@, i as int) is None,
        }),
    decreases s@.len() - i,
{
    if i >= s.len() {
        None
    } else if str_eq(s[i].0.as_str(), key) {
        Some(&s[i].1)
    } else {
        pairs_get_from(s, key, i + 1)
    }
}

/// Finds the value under `key` among decoded pairs.
pub fn pairs_get<'a, T: View>(s: &'a Vec<(String, T)>, key: &str) -> (r: Option<&'a T>)
    ensures
        (match r {
            Some(v) => sp_pairs_get(pair_views(s@), key@, 0) == Some(v@),
            None => sp_pairs_get(pair_views(s@), key@, 0) is None,
        }),
{
    pairs_get_from(s, key, 0)
}

// ---------------------------------------------------------------------------
// The concrete entry maps
// ---------------------------------------------------------------------------

/// An ordered map from string keys to string values, as decoded off the
/// wire; a repeated key resolves to its first occurrence.
#[derive(Clone, Debug)]
pub struct StringMap {
    pub entries: Vec<(String, String)>,
}

/// The view of a `StringMap`: its pairs, in order.
pub struct StringMapV {
    pub entries: Seq<(Seq<char>, Seq<char>)>,
}

impl View for StringMap {
    type V = StringMapV;

    open spec fn view(&self) -> StringMapV {
        StringMapV { entries: pair_views(self.entries@) }
    }
}

impl StringMap {
    /// The value under `key`, if any.
    pub fn get<'a>(&'a self, key: &str) -> (r: Option<&'a String>)
        ensures
            (match r {
                Some(v) => sp_pairs_get(self@.entries, key@, 0) == Some(v@),
                None => sp_pairs_get(self@.entries, key@, 0) is None,
            }),
    {
        pairs_get_from(&self.entries, key, 0)
    }

    /// The number of entries.
    pub fn len(&self) -> (r: usize)
        ensures
            r == self@.entries.len(),
    {
        self.entries.len()
    }
}

impl MapDecode for StringMap {
    open spec fn empty_spec() -> StringMapV {
        StringMapV { entries: Seq::<(Seq<char>, Seq<char>)>::empty() }
    }

    open spec fn from_entries_spec(es: Seq<(Seq<u8>, JsonV)>) -> Option<StringMapV> {
        match sp_decode_entries::<String>(es) {
            Some(pairs) => Some(StringMapV { entries: pairs }),
            None => None,
        }
    }

    fn empty_default() -> (r: Self) {
        let r = StringMap { entries: Vec::new() };
        proof {
            assert(pair_views(r.entries@) =~= Seq::<(Seq<char>, Seq<char>)>::empty());
        }
        r
    }

    fn decode_from_map(es: &Vec<(Vec<u8>, Json)>) -> (r: Result<Self, DecodeErr>) {
        match decode_entries::<String>(es) {
            Ok(entries) => Ok(StringMap { entries }),
            Err(e) => Err(e),
        }
    }
}

/// An ordered map from string keys to booleans, as decoded off the wire.
#[derive(Clone, Debug)]
pub struct BoolMap {
    pub entries: Vec<(String, bool)>,
}

/// The view of a `BoolMap`: its pairs, in order.
pub struct BoolMapV {
    pub entries: Seq<(Seq<char>, bool)>,
}

impl View for BoolMap {
    type V = BoolMapV;

    open spec fn view(&self) -> BoolMapV {
        BoolMapV { entries: pair_views(self.entries@) }
    }
}

impl BoolMap {
    /// The value under `key`, if any.
    pub fn get(&self, key: &str) -> (r: Option<&bool>)
        ensures
            (match r {
                Some(v) => sp_pairs_get(self@.entries, key@, 0) == Some(*v),
                None => sp_pairs_get(self@.entries, key@, 0) is None,
            }),
    {
        pairs_get_from(&self.entries, key, 0)
    }
}

impl MapDecode for BoolMap {
    open spec fn empty_spec() -> BoolMapV {
        BoolMapV { entries: Seq::<(Seq<char>, bool)>::empty() }
    }

    open spec fn from_entries_spec(es: Seq<(Seq<u8>, JsonV)>) -> Option<BoolMapV> {
        match sp_decode_entries::<bool>(es) {
            Some(pairs) => Some(BoolMapV { entries: pairs }),
            None => None,
        }
    }

    fn empty_default() -> (r: Self) {
        let r = BoolMap { entries: Vec::new() };
        proof {
            assert(pair_views(r.entries@) =~= Seq::<(Seq<char>, bool)>::empty());
        }
        r
    }

    fn decode_from_map(es: &Vec<(Vec<u8>, Json)>) -> (r: Result<Self, DecodeErr>) {
        match decode_entries::<bool>(es) {
            Ok(entries) => Ok(BoolMap { entries }),
            Err(e) => Err(e),
        }
    }
}

} // verus!
