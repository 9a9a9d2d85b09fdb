//! The wire document model: a JSON value, its mathematical view, and a
//! verified parser for the subset of JSON that the remote service emits:
//! objects, arrays, booleans, null, strings (with the simple escapes and
//! `\uXXXX` escapes, including surrogate pairs), and unsigned integers
//! that fit 64 bits. Numbers with a sign, a fraction or an exponent lie
//! outside the subset: a reply containing one anywhere fails to parse and
//! is reported as malformed.

use vstd::prelude::*;

verus! {

broadcast use vstd::std_specs::vec::axiom_vec_index_decreases;

/// Mathematical model of a JSON document.
pub enum JsonV {
    Null,
    Bool(bool),
    Num(u64),
    Str(Seq<u8>),
    Arr(Seq<JsonV>),
    Obj(Seq<(Seq<u8>, JsonV)>),
}

/// A parsed JSON document. Strings and object keys are kept as the raw
/// (unescaped) bytes of the wire form.
pub enum Json {
    Null,
    Bool(bool),
    Num(u64),
    Str(Vec<u8>),
    Arr(Vec<Json>),
    Obj(Vec<(Vec<u8>, Json)>),
}

/// The views of the elements of an array, in order.
pub open spec fn seq_view(s: Seq<Json>) -> Seq<JsonV> {
    Seq::new(
        s.len(),
        |i: int|
            if 0 <= i < s.len() {
                s[i]@
            } else {
                JsonV::Null
            },
    )
}

/// The views of the key/value pairs of an object, in order.
pub open spec fn entries_view(s: Seq<(Vec<u8>, Json)>) -> Seq<(Seq<u8>, JsonV)> {
    Seq::new(
        s.len(),
        |i: int|
            if 0 <= i < s.len() {
                (s[i].0@, s[i].1@)
            } else {
                (Seq::<u8>::empty(), JsonV::Null)
            },
    )
}

impl View for Json {
    type V = JsonV;

    open spec fn view(&self) -> JsonV
        decreases self,
    {
        match self {
            Json::Null => JsonV::Null,
            Json::Bool(b) => JsonV::Bool(*b),
            Json::Num(n) => JsonV::Num(*n),
            Json::Str(s) => JsonV::Str(s@),
            Json::Arr(items) => JsonV::Arr(
                Seq::new(
                    items@.len(),
                    |i: int|
                        if 0 <= i < items@.len() {
                            items@[i]@
                        } else {
                            JsonV::Null
                        },
                ),
            ),
            Json::Obj(es) => JsonV::Obj(
                Seq::new(
                    es@.len(),
                    |i: int|
                        if 0 <= i < es@.len() {
                            (es@[i].0@, es@[i].1@)
                        } else {
                            (Seq::<u8>::empty(), JsonV::Null)
                        },
                ),
            ),
        }
    }
}

/// The view of an array value is the array of the element views.
pub broadcast proof fn lemma_view_arr(items: Vec<Json>)
    ensures
        (#[trigger] Json::Arr(items)@) == JsonV::Arr(seq_view(items@)),
{
    reveal_with_fuel(<Json as View>::view, 2);
    let a = Json::Arr(items)@->Arr_0;
    let b = seq_view(items@);
    assert(a.len() == b.len());
    assert forall|i: int| 0 <= i < a.len() implies a[i] == b[i] by {}
    assert(a =~= b);
}

/// The view of an object value is the sequence of the entry views.
pub broadcast proof fn lemma_view_obj(es: Vec<(Vec<u8>, Json)>)
    ensures
        (#[trigger] Json::Obj(es)@) == JsonV::Obj(entries_view(es@)),
{
    reveal_with_fuel(<Json as View>::view, 2);
    let a = Json::Obj(es)@->Obj_0;
    let b = entries_view(es@);
    assert(a.len() == b.len());
    assert forall|i: int| 0 <= i < a.len() implies a[i] == b[i] by {}
    assert(a =~= b);
}

// ---------------------------------------------------------------------------
// The grammar, as total specification functions over the raw bytes.
//
// Each function takes the input and a cursor and yields the parsed value and
// the cursor after it, or `None` when the input does not match. The
// executable parser below mirrors these definitions exactly.
// ---------------------------------------------------------------------------

/// JSON insignificant whitespace.
pub open spec fn is_ws(b: u8) -> bool {
    b == 32 || b == 9 || b == 10 || b == 13
}

/// ASCII decimal digit.
pub open spec fn is_digit(b: u8) -> bool {
    48 <= b <= 57
}

/// The first index at or after `i` holding a non-whitespace byte.
pub open spec fn sp_ws(s: Seq<u8>, i: int) -> int
    decreases s.len() - i,
    when 0 <= i <= s.len()
{
    if i < s.len() && is_ws(s[i]) {
        sp_ws(s, i + 1)
    } else {
        i
    }
}

/// The byte named by a backslash escape, if the escape is accepted.
pub open spec fn sp_unescape(b: u8) -> Option<u8> {
    if b == 34 {
        Some(34u8)
    } else if b == 92 {
        Some(92u8)
    } else if b == 47 {
        Some(47u8)
    } else if b == 98 {
        Some(8u8)
    } else if b == 102 {
        Some(12u8)
    } else if b == 110 {
        Some(10u8)
    } else if b == 114 {
        Some(13u8)
    } else if b == 116 {
        Some(9u8)
    } else {
        None
    }
}

/// An ASCII hexadecimal digit.
pub open spec fn is_hex_digit(b: u8) -> bool {
    is_digit(b) || (97 <= b <= 102) || (65 <= b <= 70)
}

/// The value of a hexadecimal digit.
pub open spec fn hex_val(b: u8) -> int {
    if is_digit(b) {
        b - 48
    } else if 97 <= b <= 102 {
        b - 87
    } else {
        b - 55
    }
}

/// Whether four hexadecimal digits stand at `i`.
pub open spec fn hex4_ok(s: Seq<u8>, i: int) -> bool {
    &&& 0 <= i
    &&& i + 4 <= s.len()
    &&& is_hex_digit(s[i])
    &&& is_hex_digit(s[i + 1])
    &&& is_hex_digit(s[i + 2])
    &&& is_hex_digit(s[i + 3])
}

/// The value of the four hexadecimal digits at `i`.
pub open spec fn hex4(s: Seq<u8>, i: int) -> int {
    4096 * hex_val(s[i]) + 256 * hex_val(s[i + 1]) + 16 * hex_val(s[i + 2]) + hex_val(s[i + 3])
}

/// The UTF-8 encoding of one code point.
pub open spec fn utf8_bytes_of(cp: int) -> Seq<u8> {
    if cp < 0x80 {
        seq![cp as u8]
    } else if cp < 0x800 {
        seq![(192 + cp / 64) as u8, (128 + cp % 64) as u8]
    } else if cp < 0x10000 {
        seq![(224 + cp / 4096) as u8, (128 + (cp / 64) % 64) as u8, (128 + cp % 64) as u8]
    } else {
        seq![
            (240 + cp / 262144) as u8,
            (128 + (cp / 4096) % 64) as u8,
            (128 + (cp / 64) % 64) as u8,
            (128 + cp % 64) as u8,
        ]
    }
}

/// String body starting just after the opening quote: the unescaped content
/// and the cursor after the closing quote.
pub open spec fn sp_str(s: Seq<u8>, i: int) -> Option<(Seq<u8>, int)>
    decreases s.len() - i, 1int,
    when 0 <= i <= s.len()
{
    if i >= s.len() {
        None
    } else if s[i] == 34 {
        Some((Seq::<u8>::empty(), i + 1))
    } else if s[i] == 92 {
        if i + 2 <= s.len() {
            if s[i + 1] == 117 {
                sp_str_unicode(s, i)
            } else {
                match sp_unescape(s[i + 1]) {
                    Some(b) => match sp_str(s, i + 2) {
                        Some((rest, j)) => Some((seq![b] + rest, j)),
                        None => None,
                    },
                    None => None,
                }
            }
        } else {
            None
        }
    } else {
        match sp_str(s, i + 1) {
            Some((rest, j)) => Some((seq![s[i]] + rest, j)),
            None => None,
        }
    }
}

/// A `\uXXXX` escape starting at the backslash at `i`: a plain code point
/// stands alone, a high surrogate must be followed by a low surrogate, and
/// a lone surrogate is rejected; the code point joins the content in its
/// UTF-8 form.
pub open spec fn sp_str_unicode(s: Seq<u8>, i: int) -> Option<(Seq<u8>, int)>
    decreases s.len() - i, 0int,
    when 0 <= i <= s.len()
{
    if i + 6 <= s.len() && hex4_ok(s, i + 2) {
        let cp = hex4(s, i + 2);
        if 0xD800 <= cp <= 0xDBFF {
            if i + 12 <= s.len() && s[i + 6] == 92 && s[i + 7] == 117 && hex4_ok(s, i + 8) {
                let lo = hex4(s, i + 8);
                if 0xDC00 <= lo <= 0xDFFF {
                    match sp_str(s, i + 12) {
                        Some((rest, j)) => Some(
                            (utf8_bytes_of(0x10000 + (cp - 0xD800) * 0x400 + (lo - 0xDC00)) + rest, j),
                        ),
                        None => None,
                    }
                } else {
                    None
                }
            } else {
                None
            }
        } else if 0xDC00 <= cp <= 0xDFFF {
            None
        } else {
            match sp_str(s, i + 6) {
                Some((rest, j)) => Some((utf8_bytes_of(cp) + rest, j)),
                None => None,
            }
        }
    } else {
        None
    }
}

/// Digit run starting at `i`, folded onto `acc`; fails on u64 overflow.
pub open spec fn sp_num(s: Seq<u8>, i: int, acc: u64) -> Option<(u64, int)>
    decreases s.len() - i,
    when 0 <= i <= s.len()
{
    if i < s.len() && is_digit(s[i]) {
        let d = (s[i] - 48) as u64;
        if acc > (0xffff_ffff_ffff_ffffu64 - d) / 10 {
            None
        } else {
            sp_num(s, i + 1, (10 * acc + d) as u64)
        }
    } else {
        Some((acc, i))
    }
}

/// One JSON value starting exactly at `i` (no leading whitespace).
pub open spec fn sp_value(s: Seq<u8>, i: int) -> Option<(JsonV, int)>
    decreases s.len() - i, 0int,
    when 0 <= i <= s.len()
{
    if i >= s.len() {
        None
    } else if s[i] == 110 {
        if i + 4 <= s.len() && s[i + 1] == 117 && s[i + 2] == 108 && s[i + 3] == 108 {
            Some((JsonV::Null, i + 4))
        } else {
            None
        }
    } else if s[i] == 116 {
        if i + 4 <= s.len() && s[i + 1] == 114 && s[i + 2] == 117 && s[i + 3] == 101 {
            Some((JsonV::Bool(true), i + 4))
        } else {
            None
        }
    } else if s[i] == 102 {
        if i + 5 <= s.len() && s[i + 1] == 97 && s[i + 2] == 108 && s[i + 3] == 115 && s[i + 4]
            == 101 {
            Some((JsonV::Bool(false), i + 5))
        } else {
            None
        }
    } else if s[i] == 34 {
        match sp_str(s, i + 1) {
            Some((bs, j)) => Some((JsonV::Str(bs), j)),
            None => None,
        }
    } else if is_digit(s[i]) {
        match sp_num(s, i, 0u64) {
            Some((n, j)) => Some((JsonV::Num(n), j)),
            None => None,
        }
    } else if s[i] == 91 {
        sp_arr(s, i + 1)
    } else if s[i] == 123 {
        sp_obj(s, i + 1)
    } else {
        None
    }
}

/// Array tail starting just after the opening bracket.
pub open spec fn sp_arr(s: Seq<u8>, i: int) -> Option<(JsonV, int)>
    decreases s.len() - i, 2int,
    when 0 <= i <= s.len()
{
    let j = sp_ws(s, i);
    if j < i || j > s.len() {
        // sp_ws never leaves this range; the guard keeps the recursion
        // visibly well-founded
        None
    } else if j < s.len() && s[j] == 93 {
        Some((JsonV::Arr(Seq::<JsonV>::empty()), j + 1))
    } else {
        match sp_arr_items(s, j) {
            Some((items, k)) => Some((JsonV::Arr(items), k)),
            None => None,
        }
    }
}

/// One or more comma-separated array elements, ending at the closing bracket.
pub open spec fn sp_arr_items(s: Seq<u8>, i: int) -> Option<(Seq<JsonV>, int)>
    decreases s.len() - i, 1int,
    when 0 <= i <= s.len()
{
    match sp_value(s, i) {
        Some((v, j)) => {
            if j <= i || j > s.len() {
                None
            } else {
                let k = sp_ws(s, j);
                if k < j || k > s.len() {
                    None
                } else if k < s.len() && s[k] == 93 {
                    Some((seq![v], k + 1))
                } else if k < s.len() && s[k] == 44 {
                    let m = sp_ws(s, k + 1);
                    if m < k + 1 || m > s.len() {
                        None
                    } else {
                        match sp_arr_items(s, m) {
                            Some((rest, e)) => Some((seq![v] + rest, e)),
                            None => None,
                        }
                    }
                } else {
                    None
                }
            }
        },
        None => None,
    }
}

/// Object tail starting just after the opening brace.
pub open spec fn sp_obj(s: Seq<u8>, i: int) -> Option<(JsonV, int)>
    decreases s.len() - i, 2int,
    when 0 <= i <= s.len()
{
    let j = sp_ws(s, i);
    if j < i || j > s.len() {
        None
    } else if j < s.len() && s[j] == 125 {
        Some((JsonV::Obj(Seq::<(Seq<u8>, JsonV)>::empty()), j + 1))
    } else {
        match sp_obj_items(s, j) {
            Some((es, k)) => Some((JsonV::Obj(es), k)),
            None => None,
        }
    }
}

/// One or more comma-separated key/value pairs, ending at the closing brace.
pub open spec fn sp_obj_items(s: Seq<u8>, i: int) -> Option<(Seq<(Seq<u8>, JsonV)>, int)>
    decreases s.len() - i, 1int,
    when 0 <= i <= s.len()
{
    if i < s.len() && s[i] == 34 {
        match sp_str(s, i + 1) {
            Some((key, j)) => {
                if j <= i + 1 || j > s.len() {
                    None
                } else {
                    let k = sp_ws(s, j);
                    if k < j || k > s.len() {
                        None
                    } else if k < s.len() && s[k] == 58 {
                        let m = sp_ws(s, k + 1);
                        if m < k + 1 || m > s.len() {
                            None
                        } else {
                            match sp_value(s, m) {
                                Some((v, p)) => {
                                    if p <= m || p > s.len() {
                                        None
                                    } else {
                                        let q = sp_ws(s, p);
                                        if q < p || q > s.len() {
                                            None
                                        } else if q < s.len() && s[q] == 125 {
                                            Some((seq![(key, v)], q + 1))
                                        } else if q < s.len() && s[q] == 44 {
                                            let t = sp_ws(s, q + 1);
                                            if t < q + 1 || t > s.len() {
                                                None
                                            } else {
                                                match sp_obj_items(s, t) {
                                                    Some((rest, e)) => Some(
                                                        (seq![(key, v)] + rest, e),
                                                    ),
                                                    None => None,
                                                }
                                            }
                                        } else {
                                            None
                                        }
                                    }
                                },
                                None => None,
                            }
                        }
                    } else {
                        None
                    }
                }
            },
            None => None,
        }
    } else {
        None
    }
}

/// A whole document: one value, possibly surrounded by whitespace, spanning
/// the entire input.
pub open spec fn sp_json(s: Seq<u8>) -> Option<JsonV> {
    let i = sp_ws(s, 0);
    if i < 0 || i > s.len() {
        None
    } else {
        match sp_value(s, i) {
            Some((v, j)) => if 0 <= j <= s.len() && sp_ws(s, j) == s.len() {
                Some(v)
            } else {
                None
            },
            None => None,
        }
    }
}

// ---------------------------------------------------------------------------
// The executable parser, each function proved equal to its specification.
// ---------------------------------------------------------------------------

fn ws(s: &[u8], i: usize) -> (r: usize)
    requires
        i <= s@.len(),
    ensures
        r as int == sp_ws(s@, i as int),
        i <= r <= s@.len(),
    decreases s@.len() - i,
{
    if i < s.len() {
        let b = s[i];
        if b == 32 || b == 9 || b == 10 || b == 13 {
            return ws(s, i + 1);
        }
    }
    i
}

fn unescape(b: u8) -> (r: Option<u8>)
    ensures
        r == sp_unescape(b),
{
    if b == 34 {
        Some(34)
    } else if b == 92 {
        Some(92)
    } else if b == 47 {
        Some(47)
    } else if b == 98 {
        Some(8)
    } else if b == 102 {
        Some(12)
    } else if b == 110 {
        Some(10)
    } else if b == 114 {
        Some(13)
    } else if b == 116 {
        Some(9)
    } else {
        None
    }
}

fn hex_nibble(b: u8) -> (r: Option<u8>)
    ensures
        (match r {
            Some(v) => is_hex_digit(b) && v == hex_val(b),
            None => !is_hex_digit(b),
        }),
{
    if 48 <= b && b <= 57 {
        Some(b - 48)
    } else if 97 <= b && b <= 102 {
        Some(b - 87)
    } else if 65 <= b && b <= 70 {
        Some(b - 55)
    } else {
        None
    }
}

fn hex4_at(s: &[u8], i: usize) -> (r: Option<u32>)
    requires
        i + 4 <= s@.len(),
    ensures
        (match r {
            Some(v) => hex4_ok(s@, i as int) && v == hex4(s@, i as int),
            None => !hex4_ok(s@, i as int),
        }),
{
    let a = match hex_nibble(s[i]) {
        Some(v) => v,
        None => {
            return None;
        },
    };
    let b = match hex_nibble(s[i + 1]) {
        Some(v) => v,
        None => {
            return None;
        },
    };
    let c = match hex_nibble(s[i + 2]) {
        Some(v) => v,
        None => {
            return None;
        },
    };
    let d = match hex_nibble(s[i + 3]) {
        Some(v) => v,
        None => {
            return None;
        },
    };
    Some(4096 * (a as u32) + 256 * (b as u32) + 16 * (c as u32) + (d as u32))
}

fn utf8_encode_cp(cp: u32) -> (r: Vec<u8>)
    requires
        cp < 0x110000,
    ensures
        r@ == utf8_bytes_of(cp as int),
{
    let mut out: Vec<u8> = Vec::new();
    if cp < 0x80 {
        out.push(cp as u8);
        proof {
            assert(out@ =~= utf8_bytes_of(cp as int));
        }
    } else if cp < 0x800 {
        out.push((192 + cp / 64) as u8);
        out.push((128 + cp % 64) as u8);
        proof {
            assert(out@ =~= utf8_bytes_of(cp as int));
        }
    } else if cp < 0x10000 {
        out.push((224 + cp / 4096) as u8);
        out.push((128 + (cp / 64) % 64) as u8);
        out.push((128 + cp % 64) as u8);
        proof {
            assert(out@ =~= utf8_bytes_of(cp as int));
        }
    } else {
        out.push((240 + cp / 262144) as u8);
        out.push((128 + (cp / 4096) % 64) as u8);
        out.push((128 + (cp / 64) % 64) as u8);
        out.push((128 + cp % 64) as u8);
        proof {
            assert(out@ =~= utf8_bytes_of(cp as int));
        }
    }
    out
}

fn p_str_unicode(s: &[u8], i: usize) -> (r: Option<(Vec<u8>, usize)>)
    requires
        i <= s@.len(),
    ensures
        (match r {
            Some((v, j)) => sp_str_unicode(s@, i as int) == Some((v@, j as int)) && i < j
                <= s@.len(),
            None => sp_str_unicode(s@, i as int) is None,
        }),
    decreases s@.len() - i, 0int,
{
    if s.len() - i >= 6 {
        match hex4_at(s, i + 2) {
            Some(cp) => {
                if 0xD800 <= cp && cp <= 0xDBFF {
                    if s.len() - i >= 12 && s[i + 6] == 92 && s[i + 7] == 117 {
                        match hex4_at(s, i + 8) {
                            Some(lo) => {
                                if 0xDC00 <= lo && lo <= 0xDFFF {
                                    let combined = 0x10000 + (cp - 0xD800) * 0x400 + (lo - 0xDC00);
                                    match p_str(s, i + 12) {
                                        Some((rest, j)) => {
                                            let ghost tail = rest@;
                                            let mut out = utf8_encode_cp(combined);
                                            let mut rest = rest;
                                            out.append(&mut rest);
                                            proof {
                                                assert(out@ =~= utf8_bytes_of(combined as int)
                                                    + tail);
                                            }
                                            Some((out, j))
                                        },
                                        None => None,
                                    }
                                } else {
                                    None
                                }
                            },
                            None => None,
                        }
                    } else {
                        None
                    }
                } else if 0xDC00 <= cp && cp <= 0xDFFF {
                    None
                } else {
                    match p_str(s, i + 6) {
                        Some((rest, j)) => {
                            let ghost tail = rest@;
                            let mut out = utf8_encode_cp(cp);
                            let mut rest = rest;
                            out.append(&mut rest);
                            proof {
                                assert(out@ =~= utf8_bytes_of(cp as int) + tail);
                            }
                            Some((out, j))
                        },
                        None => None,
                    }
                }
            },
            None => None,
        }
    } else {
        None
    }
}

fn p_str(s: &[u8], i: usize) -> (r: Option<(Vec<u8>, usize)>)
    requires
        i <= s@.len(),
    ensures
        (match r {
            Some((v, j)) => sp_str(s@, i as int) == Some((v@, j as int)) && i < j <= s@.len(),
            None => sp_str(s@, i as int) is None,
        }),
    decreases s@.len() - i, 1int,
{
    if i >= s.len() {
        return None;
    }
    let b = s[i];
    if b == 34 {
        return Some((Vec::new(), i + 1));
    }
    if b == 92 {
        if s.len() - i >= 2 {
            if s[i + 1] == 117 {
                return p_str_unicode(s, i);
            }
            match unescape(s[i + 1]) {
                Some(c) => match p_str(s, i + 2) {
                    Some((mut v, j)) => {
                        let ghost rest = v@;
                        v.insert(0, c);
                        proof {
                            assert(v@ =~= seq![c] + rest);
                        }
                        Some((v, j))
                    },
                    None => None,
                },
                None => None,
            }
        } else {
            None
        }
    } else {
        match p_str(s, i + 1) {
            Some((mut v, j)) => {
                let ghost rest = v@;
                v.insert(0, b);
                proof {
                    assert(v@ =~= seq![b] + rest);
                }
                Some((v, j))
            },
            None => None,
        }
    }
}

fn p_num(s: &[u8], i: usize, acc: u64) -> (r: Option<(u64, usize)>)
    requires
        i <= s@.len(),
    ensures
        (match r {
            Some((n, j)) => sp_num(s@, i as int, acc) == Some((n, j as int)) && i <= j
                <= s@.len() && (i < s@.len() && is_digit(s@[i as int]) ==> i < j),
            None => sp_num(s@, i as int, acc) is None,
        }),
    decreases s@.len() - i,
{
    if i < s.len() {
        let b = s[i];
        if 48 <= b && b <= 57 {
            let d = (b - 48) as u64;
            if acc > (0xffff_ffff_ffff_ffffu64 - d) / 10 {
                return None;
            }
            return p_num(s, i + 1, 10 * acc + d);
        }
    }
    Some((acc, i))
}

fn p_value(s: &[u8], i: usize) -> (r: Option<(Json, usize)>)
    requires
        i <= s@.len(),
    ensures
        (match r {
            Some((v, j)) => sp_value(s@, i as int) == Some((v@, j as int)) && i < j <= s@.len(),
            None => sp_value(s@, i as int) is None,
        }),
    decreases s@.len() - i, 0int,
{
    if i >= s.len() {
        return None;
    }
    let b = s[i];
    if b == 110 {
        if s.len() - i >= 4 && s[i + 1] == 117 && s[i + 2] == 108 && s[i + 3] == 108 {
            Some((Json::Null, i + 4))
        } else {
            None
        }
    } else if b == 116 {
        if s.len() - i >= 4 && s[i + 1] == 114 && s[i + 2] == 117 && s[i + 3] == 101 {
            Some((Json::Bool(true), i + 4))
        } else {
            None
        }
    } else if b == 102 {
        if s.len() - i >= 5 && s[i + 1] == 97 && s[i + 2] == 108 && s[i + 3] == 115 && s[i + 4]
            == 101 {
            Some((Json::Bool(false), i + 5))
        } else {
            None
        }
    } else if b == 34 {
        match p_str(s, i + 1) {
            Some((bs, j)) => Some((Json::Str(bs), j)),
            None => None,
        }
    } else if 48 <= b && b <= 57 {
        match p_num(s, i, 0) {
            Some((n, j)) => Some((Json::Num(n), j)),
            None => None,
        }
    } else if b == 91 {
        p_arr(s, i + 1)
    } else if b == 123 {
        p_obj(s, i + 1)
    } else {
        None
    }
}

fn p_arr(s: &[u8], i: usize) -> (r: Option<(Json, usize)>)
    requires
        i <= s@.len(),
    ensures
        (match r {
            Some((v, j)) => sp_arr(s@, i as int) == Some((v@, j as int)) && i < j <= s@.len(),
            None => sp_arr(s@, i as int) is None,
        }),
    decreases s@.len() - i, 2int,
{
    broadcast use lemma_view_arr;

    let j = ws(s, i);
    if j < s.len() && s[j] == 93 {
        let items: Vec<Json> = Vec::new();
        proof {
            assert(seq_view(items@) =~= Seq::<JsonV>::empty());
        }
        Some((Json::Arr(items), j + 1))
    } else {
        match p_arr_items(s, j) {
            Some((items, k)) => Some((Json::Arr(items), k)),
            None => None,
        }
    }
}

fn p_arr_items(s: &[u8], i: usize) -> (r: Option<(Vec<Json>, usize)>)
    requires
        i <= s@.len(),
    ensures
        (match r {
            Some((v, j)) => sp_arr_items(s@, i as int) == Some((seq_view(v@), j as int)) && i < j
                <= s@.len(),
            None => sp_arr_items(s@, i as int) is None,
        }),
    decreases s@.len() - i, 1int,
{
    match p_value(s, i) {
        Some((v, j)) => {
            let k = ws(s, j);
            if k < s.len() && s[k] == 93 {
                let mut out: Vec<Json> = Vec::new();
                out.push(v);
                proof {
                    assert(seq_view(out@) =~= seq![out@[0]@]);
                }
                Some((out, k + 1))
            } else if k < s.len() && s[k] == 44 {
                let m = ws(s, k + 1);
                match p_arr_items(s, m) {
                    Some((mut rest, e)) => {
                        let ghost tail = seq_view(rest@);
                        rest.insert(0, v);
                        proof {
                            assert(seq_view(rest@) =~= seq![rest@[0]@] + tail);
                        }
                        Some((rest, e))
                    },
                    None => None,
                }
            } else {
                None
            }
        },
        None => None,
    }
}

fn p_obj(s: &[u8], i: usize) -> (r: Option<(Json, usize)>)
    requires
        i <= s@.len(),
    ensures
        (match r {
            Some((v, j)) => sp_obj(s@, i as int) == Some((v@, j as int)) && i < j <= s@.len(),
            None => sp_obj(s@, i as int) is None,
        }),
    decreases s@.len() - i, 2int,
{
    broadcast use lemma_view_obj;

    let j = ws(s, i);
    if j < s.len() && s[j] == 125 {
        let es: Vec<(Vec<u8>, Json)> = Vec::new();
        proof {
            assert(entries_view(es@) =~= Seq::<(Seq<u8>, JsonV)>::empty());
        }
        Some((Json::Obj(es), j + 1))
    } else {
        match p_obj_items(s, j) {
            Some((es, k)) => Some((Json::Obj(es), k)),
            None => None,
        }
    }
}

fn p_obj_items(s: &[u8], i: usize) -> (r: Option<(Vec<(Vec<u8>, Json)>, usize)>)
    requires
        i <= s@.len(),
    ensures
        (match r {
            Some((v, j)) => sp_obj_items(s@, i as int) == Some((entries_view(v@), j as int)) && i
                < j <= s@.len(),
            None => sp_obj_items(s@, i as int) is None,
        }),
    decreases s@.len() - i, 1int,
{
    if i < s.len() && s[i] == 34 {
        match p_str(s, i + 1) {
            Some((key, j)) => {
                let k = ws(s, j);
                if k < s.len() && s[k] == 58 {
                    let m = ws(s, k + 1);
                    match p_value(s, m) {
                        Some((v, p)) => {
                            let q = ws(s, p);
                            if q < s.len() && s[q] == 125 {
                                let mut out: Vec<(Vec<u8>, Json)> = Vec::new();
                                out.push((key, v));
                                proof {
                                    assert(entries_view(out@) =~= seq![
                                        (out@[0].0@, out@[0].1@),
                                    ]);
                                }
                                Some((out, q + 1))
                            } else if q < s.len() && s[q] == 44 {
                                let t = ws(s, q + 1);
                                match p_obj_items(s, t) {
                                    Some((mut rest, e)) => {
                                        let ghost tail = entries_view(rest@);
                                        rest.insert(0, (key, v));
                                        proof {
                                            assert(entries_view(rest@) =~= seq![
                                                (rest@[0].0@, rest@[0].1@),
                                            ] + tail);
                                        }
                                        Some((rest, e))
                                    },
                                    None => None,
                                }
                            } else {
                                None
                            }
                        },
                        None => None,
                    }
                } else {
                    None
                }
            },
            None => None,
        }
    } else {
        None
    }
}

/// Parses one whole JSON document from raw bytes; returns the value exactly
/// when the bytes match the grammar `sp_json`.
pub fn parse_json(s: &[u8]) -> (r: Option<Json>)
    ensures
        (match r {
            Some(j) => sp_json(s@) == Some(j@),
            None => sp_json(s@) is None,
        }),
{
    let i = ws(s, 0);
    match p_value(s, i) {
        Some((v, j)) => {
            let k = ws(s, j);
            if k == s.len() {
                Some(v)
            } else {
                None
            }
        },
        None => None,
    }
}

} // verus!
