//! The timestamp codec: whole seconds plus an optional microsecond fraction,
//! decoded from either an unsigned JSON number or a dotted decimal string,
//! and re-encoded exactly as the remote service expects it back.

use vstd::prelude::*;
use crate::json::{Json, JsonV};
use crate::text::{
    all_digits, dec_val, dec_str, pad_digits, pow10, parse_u32, u32_dec, pad_dec, ascii_string,
    lemma_dec_val_dec_str, lemma_dec_str_digits, lemma_dec_str_len, lemma_pad_digits,
};
use crate::decode::{FromJson, DecodeErr};
use crate::json::is_digit;
use vstd::utf8::{valid_utf8, encode_utf8};
use vstd::string::StringSliceAdditionalSpecFns;

verus! {

/// A point in time: whole seconds since the epoch, and an optional
/// sub-second fraction in microseconds, packed big-endian into three bytes.
// NOTE: the seconds counter falls apart after a few decades
#[derive(Clone, Copy, Debug)]
pub struct Timestamp {
    seconds: u32,
    micros: Option<[u8; 3]>,
}

/// The mathematical value of a timestamp: seconds, and the fraction as a
/// plain number of microseconds.
pub struct TimestampV {
    pub seconds: u32,
    pub micros: Option<u32>,
}

/// The number packed big-endian into three bytes.
pub open spec fn bytes3_val(a: Seq<u8>) -> u32
    recommends
        a.len() == 3,
{
    (a[0] * 0x1_0000 + a[1] * 0x100 + a[2]) as u32
}

impl View for Timestamp {
    type V = TimestampV;

    closed spec fn view(&self) -> TimestampV {
        TimestampV {
            seconds: self.seconds,
            micros: match self.micros {
                Some(a) => Some(bytes3_val(a@)),
                None => None,
            },
        }
    }
}

/// A fraction, when present, is a number of microseconds.
pub open spec fn wf_v(t: TimestampV) -> bool {
    match t.micros {
        Some(m) => m <= 999_999,
        None => true,
    }
}

/// Packs the low 24 bits of a number into three big-endian bytes.
pub fn u32_to_u8s(x: u32) -> (r: [u8; 3])
    ensures
        bytes3_val(r@) == x % 0x100_0000,
{
    let t1: u32 = (x >> 16u32) & 0xff;
    let t2: u32 = (x >> 8u32) & 0xff;
    let t3: u32 = x & 0xff;
    proof {
        assert(t1 < 256 && t2 < 256 && t3 < 256 && t1 * 0x1_0000 + t2 * 0x100 + t3 == x
            % 0x100_0000) by (bit_vector)
            requires
                t1 == (x >> 16u32) & 0xff && t2 == (x >> 8u32) & 0xff && t3 == x & 0xff,
        ;
    }
    let r = [t1 as u8, t2 as u8, t3 as u8];
    proof {
        assert(r@[0] == t1 as u8 && r@[1] == t2 as u8 && r@[2] == t3 as u8);
    }
    r
}

/// Reads three big-endian bytes back as a number.
pub fn u8s_to_u32(x: &[u8; 3]) -> (r: u32)
    ensures
        r == bytes3_val(x@),
{
    let a = x[0] as u32;
    let b = x[1] as u32;
    let c = x[2] as u32;
    proof {
        assert((a << 16u32) | (b << 8u32) | c == a * 0x1_0000 + b * 0x100 + c) by (bit_vector)
            requires
                a < 0x100 && b < 0x100 && c < 0x100,
        ;
    }
    (a << 16u32) | (b << 8u32) | c
}

/// The first index at or after `i` holding byte `x`.
pub open spec fn sp_find(s: Seq<u8>, x: u8, i: int) -> Option<int>
    decreases s.len() - i,
    when 0 <= i <= s.len()
{
    if i >= s.len() {
        None
    } else if s[i] == x {
        Some(i)
    } else {
        sp_find(s, x, i + 1)
    }
}

fn find_from(s: &[u8], x: u8, i: usize) -> (r: Option<usize>)
    requires
        i <= s@.len(),
    ensures
        (match r {
            Some(d) => sp_find(s@, x, i as int) == Some(d as int) && i <= d < s@.len(),
            None => sp_find(s@, x, i as int) is None,
        }),
    decreases s@.len() - i,
{
    if i >= s.len() {
        None
    } else if s[i] == x {
        Some(i)
    } else {
        find_from(s, x, i + 1)
    }
}

/// The timestamp a JSON value decodes to, if any: an unsigned number is
/// whole seconds (reduced to the 32-bit counter); a string of at most 17
/// bytes holding `<digits>.<digits>` is seconds and a microsecond fraction,
/// the fraction at most 999999; everything else is rejected.
pub open spec fn sp_timestamp(j: JsonV) -> Option<TimestampV> {
    match j {
        JsonV::Num(n) => Some(TimestampV { seconds: (n % 0x1_0000_0000) as u32, micros: None }),
        JsonV::Str(b) => if b.len() <= 17 {
            match sp_find(b, 46, 0) {
                Some(d) => {
                    let secs = b.take(d);
                    let frac = b.skip(d + 1);
                    if secs.len() > 0 && all_digits(secs) && dec_val(secs) <= 0xffff_ffffu32
                        && frac.len() > 0 && all_digits(frac) && dec_val(frac) <= 999_999 {
                        Some(
                            TimestampV {
                                seconds: dec_val(secs) as u32,
                                micros: Some(dec_val(frac) as u32),
                            },
                        )
                    } else {
                        None
                    }
                },
                None => None,
            }
        } else {
            None
        },
        _ => None,
    }
}

/// The wire form a timestamp encodes to: with a fraction, a string
/// `<seconds>.<six digits>`; without one, the bare number of seconds.
pub open spec fn sp_encode(t: TimestampV) -> JsonV {
    match t.micros {
        Some(m) => JsonV::Str(dec_str(t.seconds as int) + seq![46u8] + pad_digits(m as int, 6)),
        None => JsonV::Num(t.seconds as u64),
    }
}

/// The textual wire form: the dotted form is quoted, the bare seconds are
/// not; the asymmetry is what the remote service compares byte-for-byte.
pub open spec fn sp_wire(t: TimestampV) -> Seq<u8> {
    match t.micros {
        Some(m) => seq![34u8] + dec_str(t.seconds as int) + seq![46u8] + pad_digits(m as int, 6)
            + seq![34u8],
        None => dec_str(t.seconds as int),
    }
}


/// The bytes of the unquoted textual form: the dotted, zero-padded string
/// when a fraction is present, the bare seconds when not.
pub open spec fn sp_text_bytes(t: TimestampV) -> Seq<u8> {
    match t.micros {
        Some(m) => dec_str(t.seconds as int) + seq![46u8] + pad_digits(m as int, 6),
        None => dec_str(t.seconds as int),
    }
}

/// The characters of the unquoted textual form, as sent in wire parameters.
pub open spec fn ts_chars(t: TimestampV) -> Seq<char> {
    Seq::new(sp_text_bytes(t).len(), |i: int| sp_text_bytes(t)[i] as char)
}

impl Timestamp {
    /// Builds a timestamp from plain parts; rejects a fraction above 999999.
    pub fn new(seconds: u32, micros: Option<u32>) -> (r: Option<Timestamp>)
        ensures
            (match micros {
                Some(m) => if m <= 999_999 {
                    r matches Some(t) && t@ == (TimestampV { seconds, micros: Some(m) })
                } else {
                    r is None
                },
                None => r matches Some(t) && t@ == (TimestampV { seconds, micros: None }),
            }),
            (r matches Some(t) ==> wf_v(t@)),
    {
        match micros {
            Some(m) => {
                if m <= 999_999 {
                    Some(Timestamp { seconds, micros: Some(u32_to_u8s(m)) })
                } else {
                    None
                }
            },
            None => Some(Timestamp { seconds, micros: None }),
        }
    }

    /// The whole-seconds part.
    pub fn seconds(&self) -> (r: u32)
        ensures
            r == self@.seconds,
    {
        self.seconds
    }

    /// The microsecond fraction, if present.
    pub fn micros(&self) -> (r: Option<u32>)
        ensures
            r == self@.micros,
    {
        match &self.micros {
            Some(a) => Some(u8s_to_u32(a)),
            None => None,
        }
    }

    /// Every decoded timestamp carries a well-formed fraction.
    pub proof fn lemma_decoded_wf(j: JsonV)
        ensures
            sp_timestamp(j) matches Some(t) ==> wf_v(t),
    {
        match j {
            JsonV::Str(b) => {
                if b.len() <= 17 {
                    match sp_find(b, 46, 0) {
                        Some(d) => {
                            let frac = b.skip(d + 1);
                            if all_digits(frac) {
                                crate::text::lemma_dec_val_nonneg(frac);
                            }
                        },
                        None => {},
                    }
                }
            },
            _ => {},
        }
    }

    /// Encodes to the JSON wire value: a dotted, zero-padded string when a
    /// fraction is present, the bare seconds number when not.
    pub fn to_json(&self) -> (r: Json)
        ensures
            r@ == sp_encode(self@),
    {
        match &self.micros {
            Some(a) => {
                let m = u8s_to_u32(a);
                let mut out = u32_dec(self.seconds);
                out.push(46);
                let mut frac = pad_dec(m, 6);
                out.append(&mut frac);
                proof {
                    assert(out@ =~= dec_str(self@.seconds as int) + seq![46u8] + pad_digits(
                        self@.micros->Some_0 as int,
                        6,
                    ));
                }
                Json::Str(out)
            },
            None => Json::Num(self.seconds as u64),
        }
    }


    /// The unquoted textual form, as sent in wire parameters.
    pub fn to_text(&self) -> (r: String)
        ensures
            r@ == ts_chars(self@),
    {
        let bytes = match &self.micros {
            Some(a) => {
                let m = u8s_to_u32(a);
                let mut out = u32_dec(self.seconds);
                out.push(46);
                let mut frac = pad_dec(m, 6);
                out.append(&mut frac);
                proof {
                    assert(out@ =~= sp_text_bytes(self@));
                }
                out
            },
            None => u32_dec(self.seconds),
        };
        proof {
            lemma_dec_str_digits(self@.seconds as int);
            match self@.micros {
                Some(m) => {
                    lemma_pad_ascii(m as int, 6);
                },
                None => {},
            }
            assert(forall|i: int| 0 <= i < bytes@.len() ==> bytes@[i] < 128) by {
                lemma_dec_str_digits(self@.seconds as int);
                match self@.micros {
                    Some(m) => {
                        lemma_pad_ascii(m as int, 6);
                        let a = dec_str(self@.seconds as int);
                        let b = pad_digits(m as int, 6);
                        assert forall|i: int| 0 <= i < bytes@.len() implies bytes@[i] < 128 by {
                            if a.len() <= i < a.len() + 1 {
                            } else if a.len() + 1 <= i {
                                assert(bytes@[i] == b[i - (a.len() + 1)]);
                            }
                        }
                    },
                    None => {},
                }
            }
        }
        let r = ascii_string(&bytes);
        proof {
            assert(r@ =~= ts_chars(self@));
        }
        r
    }

    /// The exact bytes resubmitted to the remote service: the dotted form in
    /// quotes, the bare seconds without them.
    pub fn to_wire(&self) -> (r: Vec<u8>)
        ensures
            r@ == sp_wire(self@),
    {
        match &self.micros {
            Some(a) => {
                let m = u8s_to_u32(a);
                let mut out: Vec<u8> = Vec::new();
                out.push(34);
                let mut secs = u32_dec(self.seconds);
                out.append(&mut secs);
                out.push(46);
                let mut frac = pad_dec(m, 6);
                out.append(&mut frac);
                out.push(34);
                proof {
                    assert(out@ =~= seq![34u8] + dec_str(self@.seconds as int) + seq![46u8]
                        + pad_digits(self@.micros->Some_0 as int, 6) + seq![34u8]);
                }
                out
            },
            None => u32_dec(self.seconds),
        }
    }

    /// The textual wire form as a `String`.
    pub fn to_wire_string(&self) -> (r: String)
        ensures
            r@.len() == sp_wire(self@).len(),
            forall|i: int| 0 <= i < r@.len() ==> r@[i] == sp_wire(self@)[i] as char,
    {
        let bytes = self.to_wire();
        proof {
            lemma_dec_str_digits(self@.seconds as int);
            match self@.micros {
                Some(m) => {
                    lemma_wire_ascii(self@.seconds as int, m as int);
                },
                None => {},
            }
            assert(forall|i: int| 0 <= i < bytes@.len() ==> bytes@[i] < 128);
        }
        ascii_string(&bytes)
    }
}

/// Digits and punctuation of the dotted wire form are ASCII.
proof fn lemma_wire_ascii(secs: int, m: int)
    requires
        secs >= 0,
        m >= 0,
    ensures
        forall|i: int|
            0 <= i < (seq![34u8] + dec_str(secs) + seq![46u8] + pad_digits(m, 6) + seq![34u8]).len()
                ==> (seq![34u8] + dec_str(secs) + seq![46u8] + pad_digits(m, 6) + seq![34u8])[i]
                < 128,
{
    lemma_dec_str_digits(secs);
    lemma_pad_ascii(m, 6);
    let s = seq![34u8] + dec_str(secs) + seq![46u8] + pad_digits(m, 6) + seq![34u8];
    assert forall|i: int| 0 <= i < s.len() implies s[i] < 128 by {
        let a = dec_str(secs);
        let b = pad_digits(m, 6);
        if 1 <= i < 1 + a.len() {
            assert(is_digit(a[i - 1]));
        } else if 2 + a.len() <= i < 2 + a.len() + b.len() {
            assert(b[i - (2 + a.len())] < 128);
        }
    }
}

/// Zero-padded digits are ASCII.
proof fn lemma_pad_ascii(n: int, k: nat)
    requires
        n >= 0,
    ensures
        forall|i: int| 0 <= i < pad_digits(n, k).len() ==> pad_digits(n, k)[i] < 128,
    decreases k,
{
    if k > 0 {
        lemma_pad_ascii(n / 10, (k - 1) as nat);
        assert forall|i: int| 0 <= i < pad_digits(n, k).len() implies pad_digits(n, k)[i]
            < 128 by {
            let a = pad_digits(n / 10, (k - 1) as nat);
            if i < a.len() {
                assert(pad_digits(n, k)[i] == a[i]);
            }
        }
    }
}

/// The diagnostic of a rejected wire value names the offending input: its
/// UTF-8 encoding ends with the input's own bytes.
pub open spec fn names_input(msg: Seq<char>, input: Seq<u8>) -> bool {
    let enc = encode_utf8(msg);
    &&& enc.len() >= input.len()
    &&& enc.skip(enc.len() - input.len()) == input
}

/// A diagnostic that names the offending input, when the input can be
/// shown as text.
fn describe(prefix: &str, b: &[u8]) -> (r: String)
    ensures
        valid_utf8(b@) ==> encode_utf8(r@) == prefix.spec_bytes() + b@,
{
    broadcast use
        vstd::utf8::encode_utf8_valid_utf8,
        vstd::utf8::valid_utf8_concat,
        vstd::utf8::decode_utf8_encode_utf8,
    ;

    let mut bytes = vstd::slice::slice_to_vec(prefix.as_bytes());
    let mut rest = vstd::slice::slice_to_vec(b);
    bytes.append(&mut rest);
    let ghost all = bytes@;
    match crate::text::utf8_string(bytes) {
        Some(s) => s,
        None => {
            proof {
                if valid_utf8(b@) {
                    assert(valid_utf8(all));
                }
            }
            prefix.to_owned()
        },
    }
}

fn failure(prefix: &str, b: &[u8]) -> (r: DecodeErr)
    ensures
        valid_utf8(b@) ==> names_input(r.message@, b@),
{
    let m = describe(prefix, b);
    proof {
        if valid_utf8(b@) {
            let enc = encode_utf8(m@);
            assert(enc.skip(enc.len() - b@.len()) =~= b@);
        }
    }
    DecodeErr { message: m }
}

impl Timestamp {
    /// Decodes a wire value: an unsigned number is whole seconds; a dotted
    /// decimal string is seconds and a microsecond fraction; anything else
    /// is rejected, the diagnostic naming the offending string input.
    pub fn decode(j: &Json) -> (r: Result<Timestamp, DecodeErr>)
        ensures
            (match r {
                Ok(t) => sp_timestamp(j@) == Some(t@),
                Err(e) => sp_timestamp(j@) is None && (match j@ {
                    JsonV::Str(b) => valid_utf8(b) ==> names_input(e.message@, b),
                    _ => true,
                }),
            }),
    {
        match j {
            Json::Num(n) => {
                let secs = (*n % 0x1_0000_0000u64) as u32;
                Ok(Timestamp { seconds: secs, micros: None })
            },
            Json::Str(b) => {
                if b.len() > 17 {
                    return Err(
                        failure("timestamp strings hold at most 17 bytes, got: ", b.as_slice()),
                    );
                }
                match find_from(b.as_slice(), 46, 0) {
                    Some(d) => {
                        let secs_part = vstd::slice::slice_subrange(b.as_slice(), 0, d);
                        let frac_part = vstd::slice::slice_subrange(b.as_slice(), d + 1, b.len());
                        proof {
                            assert(secs_part@ =~= b@.take(d as int));
                            assert(frac_part@ =~= b@.skip(d + 1));
                        }
                        match (parse_u32(secs_part), parse_u32(frac_part)) {
                            (Some(secs), Some(frac)) => {
                                if frac <= 999_999 {
                                    Ok(Timestamp { seconds: secs, micros: Some(u32_to_u8s(frac)) })
                                } else {
                                    Err(
                                        failure(
                                            "the fraction exceeds six digits: ",
                                            b.as_slice(),
                                        ),
                                    )
                                }
                            },
                            _ => Err(
                                failure("cannot read the parts as numbers: ", b.as_slice()),
                            ),
                        }
                    },
                    None => Err(
                        failure("got a timestamp string without a dot: ", b.as_slice()),
                    ),
                }
            },
            _ => Err(DecodeErr { message: "timestamps are numbers or strings".to_owned() }),
        }
    }
}

impl FromJson for Timestamp {
    open spec fn from_json_spec(j: JsonV) -> Option<TimestampV> {
        sp_timestamp(j)
    }

    fn from_json(j: &Json) -> (r: Result<Self, DecodeErr>) {
        Timestamp::decode(j)
    }
}

/// Round trip: a well-formed timestamp decodes from its own encoding
/// unchanged — the fraction survives with its zero padding, and bare
/// seconds survive as a number.
pub proof fn lemma_timestamp_roundtrip(t: TimestampV)
    requires
        wf_v(t),
    ensures
        sp_timestamp(sp_encode(t)) == Some(t),
{
    match t.micros {
        Some(m) => {
            let a = dec_str(t.seconds as int);
            let b = pad_digits(m as int, 6);
            let s = a + seq![46u8] + b;
            lemma_dec_str_digits(t.seconds as int);
            lemma_dec_val_dec_str(t.seconds as int);
            assert(pow10(10) == 10_000_000_000) by {
                reveal_with_fuel(pow10, 11);
            }
            lemma_dec_str_len(t.seconds as int, 10);
            assert(pow10(6) == 1_000_000) by {
                reveal_with_fuel(pow10, 7);
            }
            lemma_pad_digits(m as int, 6);
            assert(s.len() <= 17);
            lemma_find_dot(a, b);
            assert(s.take(a.len() as int) =~= a);
            assert(s.skip(a.len() as int + 1) =~= b);
        },
        None => {
            assert((t.seconds as u64) % 0x1_0000_0000 == t.seconds);
        },
    }
}

/// In `<digits>.<anything>` the first dot stands right after the digits.
proof fn lemma_find_dot(a: Seq<u8>, b: Seq<u8>)
    requires
        all_digits(a),
    ensures
        sp_find(a + seq![46u8] + b, 46, 0) == Some(a.len() as int),
    decreases a.len(),
{
    let s = a + seq![46u8] + b;
    if a.len() == 0 {
        assert(s[0] == 46);
    } else {
        assert(is_digit(a[0]));
        assert(s[0] != 46);
        lemma_find_dot(a.drop_first(), b);
        assert((a.drop_first() + seq![46u8] + b) =~= s.skip(1));
        lemma_find_from_skip(s, 46, 1);
    }
}

/// Searching from index `k` mirrors searching the suffix from its start.
proof fn lemma_find_from_skip(t: Seq<u8>, x: u8, k: int)
    requires
        0 <= k <= t.len(),
    ensures
        sp_find(t, x, k) == (match sp_find(t.skip(k), x, 0) {
            Some(d) => Some(d + k),
            None => None::<int>,
        }),
    decreases t.len() - k,
{
    if k < t.len() {
        assert(t.skip(k)[0] == t[k]);
        if t[k] != x {
            lemma_find_from_skip(t, x, k + 1);
            assert(t.skip(k + 1) =~= t.skip(k).skip(1));
            lemma_find_from_skip(t.skip(k), x, 1);
        }
    }
}


// ---------------------------------------------------------------------------
// Calendar form, through chrono
// ---------------------------------------------------------------------------

/// A calendar date and time in the UTC zone, carried opaquely for display;
/// `chrono::DateTime<chrono::Utc>` cannot be declared to the verifier, so it
/// lives in a hidden field.
#[verifier::external_body]
pub struct DateTimeUtc {
    inner: chrono::DateTime<chrono::Utc>,
}

/// What chrono computes for a given seconds/nanoseconds pair: a pure
/// function of the two arguments.
pub uninterp spec fn datetime_of(secs: u32, nanos: u32) -> DateTimeUtc;

/// Relies on chrono's `DateTime::from_timestamp`: the result depends on the
/// two arguments alone, and is `Some` for every second value that fits a
/// `u32` and every nanosecond value below two billion.
#[verifier::external_body]
fn datetime_from_parts(secs: u32, nanos: u32) -> (r: DateTimeUtc)
    requires
        nanos < 1_000_000_000,
    ensures
        r == datetime_of(secs, nanos),
{
    match chrono::DateTime::from_timestamp(secs as i64, nanos) {
        Some(d) => DateTimeUtc { inner: d },
        None => DateTimeUtc { inner: chrono::DateTime::UNIX_EPOCH },
    }
}

impl DateTimeUtc {
    /// Relies on chrono's `Display` for `DateTime<Utc>`: renders the
    /// calendar form, e.g. `2009-02-13 23:31:30 UTC`. Nothing is promised
    /// of the wording.
    #[verifier::external_body]
    pub fn display(&self) -> String {
        format!("{}", self.inner)
    }
}
impl Timestamp {
    /// The calendar form, for display only: a lossy, derived view that no
    /// decoding decision depends on. As in the wire codec's history, the
    /// packed fraction is handed to the calendar library as nanoseconds.
    pub fn to_datetime(&self) -> (r: DateTimeUtc)
        ensures
            r == datetime_of(
                self@.seconds,
                match self@.micros {
                    Some(m) => m,
                    None => 0u32,
                },
            ),
    {
        let nanos = match &self.micros {
            Some(a) => u8s_to_u32(a),
            None => 0,
        };
        proof {
            assert(nanos < 1_000_000_000);
        }
        datetime_from_parts(self.seconds, nanos)
    }
}

} // verus!
