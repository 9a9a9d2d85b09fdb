//! Byte-level text utilities: slice equality, decimal numerals, and the two
//! trusted conversions between raw bytes and `String`.

use vstd::prelude::*;
use crate::json::is_digit;
use vstd::utf8::{valid_utf8, decode_utf8};

verus! {

/// Every byte of `s` is an ASCII decimal digit.
pub open spec fn all_digits(s: Seq<u8>) -> bool {
    forall|i: int| 0 <= i < s.len() ==> is_digit(#[trigger] s[i])
}

/// The numeric value of a digit string read in base ten (0 for the empty
/// string).
pub open spec fn dec_val(s: Seq<u8>) -> int
    decreases s.len(),
{
    if s.len() == 0 {
        0
    } else {
        dec_val(s.drop_last()) * 10 + (s.last() - 48)
    }
}

/// The shortest base-ten numeral of a non-negative number.
pub open spec fn dec_str(n: int) -> Seq<u8>
    decreases n,
    when n >= 0
{
    if n <= 9 {
        seq![(48 + n) as u8]
    } else {
        dec_str(n / 10) + seq![(48 + n % 10) as u8]
    }
}

/// The last `k` base-ten digits of a non-negative number, zero-padded.
pub open spec fn pad_digits(n: int, k: nat) -> Seq<u8>
    decreases k,
    when n >= 0
{
    if k == 0 {
        Seq::<u8>::empty()
    } else {
        pad_digits(n / 10, (k - 1) as nat) + seq![(48 + n % 10) as u8]
    }
}

/// 10 to the `k`.
pub open spec fn pow10(k: nat) -> int
    decreases k,
{
    if k == 0 {
        1
    } else {
        10 * pow10((k - 1) as nat)
    }
}

/// Appending a digit multiplies the value by ten and adds the digit.
pub proof fn lemma_dec_val_push(s: Seq<u8>, b: u8)
    ensures
        dec_val(s + seq![b]) == dec_val(s) * 10 + (b - 48),
{
    let t = s + seq![b];
    assert(t.drop_last() =~= s);
    assert(t.last() == b);
}

/// A digit string's value is non-negative.
pub proof fn lemma_dec_val_nonneg(s: Seq<u8>)
    requires
        all_digits(s),
    ensures
        dec_val(s) >= 0,
    decreases s.len(),
{
    if s.len() > 0 {
        assert(all_digits(s.drop_last()));
        lemma_dec_val_nonneg(s.drop_last());
    }
}

/// Extending a digit string cannot shrink its value.
pub proof fn lemma_dec_val_prefix_le(s: Seq<u8>, i: int, j: int)
    requires
        all_digits(s),
        0 <= i <= j <= s.len(),
    ensures
        dec_val(s.take(i)) <= dec_val(s.take(j)),
    decreases j - i,
{
    if i < j {
        lemma_dec_val_prefix_le(s, i, j - 1);
        let t = s.take(j);
        assert(t.drop_last() =~= s.take(j - 1));
        assert(all_digits(s.take(j - 1)));
        lemma_dec_val_nonneg(s.take(j - 1));
    }
}

/// The shortest numeral consists of digits.
pub proof fn lemma_dec_str_digits(n: int)
    requires
        n >= 0,
    ensures
        all_digits(dec_str(n)),
        dec_str(n).len() >= 1,
    decreases n,
{
    if n > 9 {
        lemma_dec_str_digits(n / 10);
    }
}

/// The shortest numeral reads back to the number it was made from.
pub proof fn lemma_dec_val_dec_str(n: int)
    requires
        n >= 0,
    ensures
        dec_val(dec_str(n)) == n,
    decreases n,
{
    if n <= 9 {
        assert(dec_str(n) =~= Seq::<u8>::empty() + seq![(48 + n) as u8]);
        lemma_dec_val_push(Seq::<u8>::empty(), (48 + n) as u8);
    } else {
        lemma_dec_val_dec_str(n / 10);
        lemma_dec_val_push(dec_str(n / 10), (48 + n % 10) as u8);
    }
}

/// A number below `pow10(k)` has a numeral of at most `k` digits.
pub proof fn lemma_dec_str_len(n: int, k: nat)
    requires
        0 <= n < pow10(k),
        k >= 1,
    ensures
        dec_str(n).len() <= k,
    decreases k,
{
    if n > 9 {
        assert(pow10(k) == 10 * pow10((k - 1) as nat));
        lemma_dec_str_len(n / 10, (k - 1) as nat);
    }
}

/// The zero-padded numeral has exactly `k` digits and reads back to the
/// number, for numbers below `pow10(k)`.
pub proof fn lemma_pad_digits(n: int, k: nat)
    requires
        0 <= n < pow10(k),
    ensures
        pad_digits(n, k).len() == k,
        all_digits(pad_digits(n, k)),
        dec_val(pad_digits(n, k)) == n,
    decreases k,
{
    if k > 0 {
        assert(pow10(k) == 10 * pow10((k - 1) as nat));
        lemma_pad_digits(n / 10, (k - 1) as nat);
        lemma_dec_val_push(pad_digits(n / 10, (k - 1) as nat), (48 + n % 10) as u8);
    } else {
        assert(pad_digits(n, k) =~= Seq::<u8>::empty());
    }
}

/// Whether two byte slices hold the same bytes.
pub fn bytes_eq(a: &[u8], b: &[u8]) -> (r: bool)
    ensures
        r <==> a@ == b@,
{
    if a.len() != b.len() {
        assert(a@ != b@) by {
            assert(a@.len() != b@.len());
        }
        return false;
    }
    let n = a.len();
    let mut i: usize = 0;
    while i < n
        invariant
            n == a@.len() == b@.len(),
            0 <= i <= n,
            forall|q: int| 0 <= q < i ==> a@[q] == b@[q],
        decreases n - i,
    {
        if a[i] != b[i] {
            return false;
        }
        i = i + 1;
    }
    proof {
        assert(a@ =~= b@);
    }
    true
}

/// Whether two string slices hold the same characters.
pub fn str_eq(a: &str, b: &str) -> (r: bool)
    ensures
        r <==> a@ == b@,
{
    let e = bytes_eq(a.as_bytes(), b.as_bytes());
    proof {
        vstd::utf8::encode_utf8_decode_utf8(a@);
        vstd::utf8::encode_utf8_decode_utf8(b@);
    }
    e
}

/// Reads a base-ten numeral; `Some` exactly for nonempty all-digit strings
/// whose value fits in a `u32`.
pub fn parse_u32(s: &[u8]) -> (r: Option<u32>)
    ensures
        (match r {
            Some(v) => s@.len() > 0 && all_digits(s@) && dec_val(s@) == v,
            None => s@.len() == 0 || !all_digits(s@) || dec_val(s@) > 0xffff_ffffu32,
        }),
{
    let n = s.len();
    if n == 0 {
        return None;
    }
    let mut acc: u32 = 0;
    let mut i: usize = 0;
    while i < n
        invariant
            n == s@.len(),
            0 <= i <= n,
            all_digits(s@.take(i as int)),
            acc == dec_val(s@.take(i as int)),
        decreases n - i,
    {
        let b = s[i];
        if b < 48 || b > 57 {
            assert(!all_digits(s@)) by {
                assert(!is_digit(s@[i as int]));
            }
            return None;
        }
        let d = b - 48;
        proof {
            assert(s@.take(i + 1).drop_last() =~= s@.take(i as int));
            assert(s@.take(i + 1).last() == s@[i as int]);
            assert(all_digits(s@.take(i + 1)));
        }
        if acc > (0xffff_ffffu32 - (d as u32)) / 10 {
            proof {
                assert(dec_val(s@.take(i + 1)) == acc * 10 + d);
                if all_digits(s@) {
                    lemma_dec_val_prefix_le(s@, i + 1, n as int);
                    assert(s@.take(n as int) =~= s@);
                }
            }
            return None;
        }
        acc = 10 * acc + (d as u32);
        i = i + 1;
    }
    proof {
        assert(s@.take(n as int) =~= s@);
    }
    Some(acc)
}

/// Writes the shortest base-ten numeral of `n`.
pub fn u32_dec(n: u32) -> (r: Vec<u8>)
    ensures
        r@ == dec_str(n as int),
    decreases n,
{
    if n <= 9 {
        let mut v: Vec<u8> = Vec::new();
        v.push(48 + (n as u8));
        proof {
            assert(v@ =~= seq![(48 + n) as u8]);
        }
        v
    } else {
        let mut v = u32_dec(n / 10);
        v.push(48 + ((n % 10) as u8));
        proof {
            assert(v@ =~= dec_str((n / 10) as int) + seq![(48 + (n as int) % 10) as u8]);
        }
        v
    }
}

/// Writes the last `k` base-ten digits of `n`, zero-padded to width `k`.
pub fn pad_dec(n: u32, k: usize) -> (r: Vec<u8>)
    ensures
        r@ == pad_digits(n as int, k as nat),
    decreases k,
{
    if k == 0 {
        let v: Vec<u8> = Vec::new();
        proof {
            assert(v@ =~= pad_digits(n as int, 0nat));
        }
        v
    } else {
        let mut v = pad_dec(n / 10, k - 1);
        v.push(48 + ((n % 10) as u8));
        proof {
            assert(v@ =~= pad_digits((n / 10) as int, (k - 1) as nat) + seq![
                (48 + (n as int) % 10) as u8,
            ]);
        }
        v
    }
}


/// The characters of the shortest base-ten numeral.
pub open spec fn dec_chars(n: int) -> Seq<char> {
    Seq::new(dec_str(n).len(), |i: int| dec_str(n)[i] as char)
}

/// Writes the shortest base-ten numeral of `n` as a `String`.
pub fn u64_string(n: u64) -> (r: String)
    ensures
        r@ == dec_chars(n as int),
{
    let bytes = u64_dec(n);
    proof {
        lemma_dec_str_digits(n as int);
        assert(forall|i: int| 0 <= i < bytes@.len() ==> bytes@[i] < 128);
    }
    let r = ascii_string(&bytes);
    proof {
        assert(r@ =~= dec_chars(n as int));
    }
    r
}

/// Writes the shortest base-ten numeral of `n`.
pub fn u64_dec(n: u64) -> (r: Vec<u8>)
    ensures
        r@ == dec_str(n as int),
    decreases n,
{
    if n <= 9 {
        let mut v: Vec<u8> = Vec::new();
        v.push(48 + (n as u8));
        proof {
            assert(v@ =~= seq![(48 + n) as u8]);
        }
        v
    } else {
        let mut v = u64_dec(n / 10);
        v.push(48 + ((n % 10) as u8));
        proof {
            assert(v@ =~= dec_str((n / 10) as int) + seq![(48 + (n as int) % 10) as u8]);
        }
        v
    }
}

/// Relies on `String::from_utf8`: ASCII bytes are valid UTF-8 and decode to
/// the code points with the same values.
#[verifier::external_body]
pub(crate) fn ascii_string(b: &Vec<u8>) -> (r: String)
    requires
        forall|i: int| 0 <= i < b@.len() ==> b@[i] < 128,
    ensures
        r@.len() == b@.len(),
        forall|i: int| 0 <= i < b@.len() ==> r@[i] == b@[i] as char,
{
    match String::from_utf8(b.clone()) {
        Ok(s) => s,
        Err(_) => String::new(),
    }
}

/// Relies on `String::from_utf8`: returns the decoded characters exactly when
/// the bytes are valid UTF-8, and fails exactly otherwise.
#[verifier::external_body]
pub(crate) fn utf8_string(b: Vec<u8>) -> (r: Option<String>)
    ensures
        (match r {
            Some(s) => valid_utf8(b@) && s@ == decode_utf8(b@),
            None => !valid_utf8(b@),
        }),
{
    match String::from_utf8(b) {
        Ok(s) => Some(s),
        Err(_) => None,
    }
}

} // verus!
