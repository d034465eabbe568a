//! Numbers of the data tables: 32-bit IEEE-754 values are kept by their bit
//! patterns, and what the readers derive from them (saturating casts to
//! small unsigned integers, comparison with zero) is computed on the bits.
//! Also the textual grammar of a decimal number as `f32::from_str` accepts it.
use vstd::prelude::*;
use vstd::arithmetic::power2::pow2;

use crate::text::find_char;

verus! {

/// The biased exponent of the single-precision value with bits `b`.
pub open spec fn f32_exponent(b: u32) -> int {
    ((b / 0x80_0000) % 256) as int
}

/// The stored mantissa of the single-precision value with bits `b`.
pub open spec fn f32_mantissa(b: u32) -> int {
    (b % 0x80_0000) as int
}

/// The sign bit of the single-precision value with bits `b`.
pub open spec fn f32_negative(b: u32) -> bool {
    b >= 0x8000_0000
}

/// What `v as u8` / `v as u16` gives for the single-precision value `v`
/// with bits `b`, `max` being the type's largest value: NaN and every
/// negative value give 0, other values are truncated toward zero and
/// saturate at `max`.
pub open spec fn f32_to_uint(b: u32, max: int) -> int {
    let e = f32_exponent(b);
    let m = f32_mantissa(b);
    if e == 255 {
        if m != 0 || f32_negative(b) {
            0
        } else {
            max
        }
    } else if f32_negative(b) || e < 127 {
        0
    } else if e > 150 {
        max
    } else {
        let t = (m + 0x80_0000) / (pow2((150 - e) as nat) as int);
        if t > max {
            max
        } else {
            t
        }
    }
}

/// Whether the single-precision value with bits `b` differs from zero
/// (`v != 0.0`): every pattern but the two zeros, NaN included.
pub open spec fn f32_nonzero(b: u32) -> bool {
    b != 0 && b != 0x8000_0000
}

/// Truncates toward zero and saturates at `max`, on the bits `b`.
fn bits_to_uint(b: u32, max: u32) -> (r: u32)
    ensures
        r == f32_to_uint(b, max as int),
{
    let e = (b / 0x80_0000) % 256;
    let m = b % 0x80_0000;
    if e == 255 {
        if m != 0 || b >= 0x8000_0000 {
            0
        } else {
            max
        }
    } else if b >= 0x8000_0000 || e < 127 {
        0
    } else if e > 150 {
        max
    } else {
        let k = 150 - e;
        let x = m + 0x80_0000;
        let t = x >> k;
        proof {
            vstd::bits::lemma_u32_shr_is_div(x, k);
        }
        if t > max {
            max
        } else {
            t
        }
    }
}

/// `v as u8` for the single-precision value with bits `b`.
pub fn f32_bits_to_u8(b: u32) -> (r: u8)
    ensures
        r == f32_to_uint(b, 255),
{
    let r = bits_to_uint(b, 255);
    r as u8
}

/// `v as u16` for the single-precision value with bits `b`.
pub fn f32_bits_to_u16(b: u32) -> (r: u16)
    ensures
        r == f32_to_uint(b, 65535),
{
    let r = bits_to_uint(b, 65535);
    r as u16
}

/// `v != 0.0` for the single-precision value with bits `b`.
pub fn f32_bits_nonzero(b: u32) -> (r: bool)
    ensures
        r == f32_nonzero(b),
{
    b != 0 && b != 0x8000_0000
}

// ---------------------------------------------------------------------------
// The decimal grammar of `f32::from_str`
// ---------------------------------------------------------------------------

/// An ASCII digit.
pub open spec fn is_digit(c: char) -> bool {
    '0' <= c && c <= '9'
}

/// Every character of `s` is an ASCII digit.
pub open spec fn all_digits(s: Seq<char>) -> bool {
    forall|i: int| 0 <= i < s.len() ==> is_digit(#[trigger] s[i])
}

/// `c` folded to ASCII lower case.
pub open spec fn ascii_lower(c: char) -> char {
    if 'A' <= c && c <= 'Z' {
        ((c as u32) + 32) as char
    } else {
        c
    }
}

/// `s` equals the lower-case ASCII word `w`, ignoring ASCII case.
pub open spec fn eq_ignore_case(s: Seq<char>, w: Seq<char>) -> bool {
    s.len() == w.len() && forall|i: int| 0 <= i < s.len() ==> ascii_lower(#[trigger] s[i]) == w[i]
}

/// `Digit+ | Digit+ '.' Digit* | Digit* '.' Digit+`.
pub open spec fn is_mantissa(m: Seq<char>) -> bool {
    match find_char(m, '.') {
        None => m.len() >= 1 && all_digits(m),
        Some(i) => m.len() >= 2 && all_digits(m.take(i)) && all_digits(m.skip(i + 1)),
    }
}

/// `Sign? Digit+`, the part of an exponent after its `e`.
pub open spec fn is_exponent_tail(x: Seq<char>) -> bool {
    if x.len() > 0 && (x[0] == '+' || x[0] == '-') {
        x.len() >= 2 && all_digits(x.drop_first())
    } else {
        x.len() >= 1 && all_digits(x)
    }
}

/// The position of the first `e` or `E`.
pub open spec fn find_exp(s: Seq<char>) -> Option<int>
    decreases s.len(),
{
    if s.len() == 0 {
        None
    } else if s[0] == 'e' || s[0] == 'E' {
        Some(0)
    } else {
        match find_exp(s.drop_first()) {
            Some(i) => Some(i + 1),
            None => None,
        }
    }
}

/// `Number ::= Mantissa Exp?` with `Exp ::= 'e' Sign? Digit+`.
pub open spec fn is_number(s: Seq<char>) -> bool {
    match find_exp(s) {
        None => is_mantissa(s),
        Some(i) => is_mantissa(s.take(i)) && is_exponent_tail(s.skip(i + 1)),
    }
}

/// The text `s` parses as an `f32`:
/// `Sign? ( 'inf' | 'infinity' | 'nan' | Number )`, the words in any case.
pub open spec fn is_float_text(s: Seq<char>) -> bool {
    let body = if s.len() > 0 && (s[0] == '+' || s[0] == '-') {
        s.drop_first()
    } else {
        s
    };
    eq_ignore_case(body, seq!['i', 'n', 'f']) || eq_ignore_case(
        body,
        seq!['i', 'n', 'f', 'i', 'n', 'i', 't', 'y'],
    ) || eq_ignore_case(body, seq!['n', 'a', 'n']) || is_number(body)
}

/// Whether every character of `v[lo..hi]` is a digit.
fn digits_between(v: &[char], lo: usize, hi: usize) -> (b: bool)
    requires
        lo <= hi <= v@.len(),
    ensures
        b == all_digits(v@.subrange(lo as int, hi as int)),
{
    let mut i = lo;
    while i < hi
        invariant
            lo <= i <= hi <= v@.len(),
            forall|k: int| lo <= k < i ==> is_digit(v@[k]),
        decreases hi - i,
    {
        if !('0' <= v[i] && v[i] <= '9') {
            assert(!is_digit(v@.subrange(lo as int, hi as int)[i - lo]));
            return false;
        }
        i = i + 1;
    }
    assert forall|k: int| 0 <= k < hi - lo implies is_digit(#[trigger] v@.subrange(lo as int, hi as int)[k]) by {
        assert(v@.subrange(lo as int, hi as int)[k] == v@[lo + k]);
    }
    true
}

/// Whether `v[lo..hi]` is a mantissa.
fn mantissa_between(v: &[char], lo: usize, hi: usize) -> (b: bool)
    requires
        lo <= hi <= v@.len(),
    ensures
        b == is_mantissa(v@.subrange(lo as int, hi as int)),
{
    let ghost m = v@.subrange(lo as int, hi as int);
    let mut i = lo;
    assert(m.skip(0) =~= m);
    while i < hi
        invariant
            lo <= i <= hi <= v@.len(),
            m == v@.subrange(lo as int, hi as int),
            forall|k: int| lo <= k < i ==> v@[k] != '.',
            find_char(m, '.') == (match find_char(m.skip(i - lo), '.') {
                Some(j) => Some(j + (i - lo)),
                None => None::<int>,
            }),
        decreases hi - i,
    {
        if v[i] == '.' {
            assert(m.skip(i - lo)[0] == '.');
            let a = digits_between(v, lo, i);
            let c = digits_between(v, i + 1, hi);
            assert(m.take(i - lo) =~= v@.subrange(lo as int, i as int));
            assert(m.skip(i - lo + 1) =~= v@.subrange(i + 1, hi as int));
            return hi - lo >= 2 && a && c;
        }
        assert(m.skip(i - lo).drop_first() =~= m.skip(i - lo + 1));
        i = i + 1;
    }
    assert(m.skip(hi - lo) =~= Seq::<char>::empty());
    hi - lo >= 1 && digits_between(v, lo, hi)
}

/// Whether `v[lo..hi]` is the part of an exponent after its `e`.
fn exponent_tail_between(v: &[char], lo: usize, hi: usize) -> (b: bool)
    requires
        lo <= hi <= v@.len(),
    ensures
        b == is_exponent_tail(v@.subrange(lo as int, hi as int)),
{
    let ghost x = v@.subrange(lo as int, hi as int);
    if lo < hi && (v[lo] == '+' || v[lo] == '-') {
        assert(x.drop_first() =~= v@.subrange(lo + 1, hi as int));
        hi - lo >= 2 && digits_between(v, lo + 1, hi)
    } else {
        hi - lo >= 1 && digits_between(v, lo, hi)
    }
}

/// Whether `v[lo..hi]` equals the lower-case ASCII word `w`, ignoring case.
fn word_between(v: &[char], lo: usize, hi: usize, w: &[char]) -> (b: bool)
    requires
        lo <= hi <= v@.len(),
    ensures
        b == eq_ignore_case(v@.subrange(lo as int, hi as int), w@),
{
    if hi - lo != w.len() {
        return false;
    }
    let mut i: usize = 0;
    while i < w.len()
        invariant
            lo <= hi <= v@.len(),
            hi - lo == w@.len(),
            i <= w@.len(),
            forall|k: int| 0 <= k < i ==> ascii_lower(v@[lo + k]) == w@[k],
        decreases w.len() - i,
    {
        let c = v[lo + i];
        let l = if 'A' <= c && c <= 'Z' {
            ((c as u32) + 32) as u8 as char
        } else {
            c
        };
        assert(l == ascii_lower(c));
        if l != w[i] {
            assert(ascii_lower(v@.subrange(lo as int, hi as int)[i as int]) != w@[i as int]);
            return false;
        }
        i = i + 1;
    }
    assert forall|k: int| 0 <= k < hi - lo implies ascii_lower(#[trigger] v@.subrange(lo as int, hi as int)[k]) == w@[k] by {
        assert(v@.subrange(lo as int, hi as int)[k] == v@[lo + k]);
    }
    true
}

/// Whether `v` is a number as `f32::from_str` reads one.
pub fn is_float(v: &[char]) -> (b: bool)
    ensures
        b == is_float_text(v@),
{
    let lo: usize = if v.len() > 0 && (v[0] == '+' || v[0] == '-') {
        1
    } else {
        0
    };
    let hi = v.len();
    let ghost body = v@.subrange(lo as int, hi as int);
    assert(body =~= (if v@.len() > 0 && (v@[0] == '+' || v@[0] == '-') {
        v@.drop_first()
    } else {
        v@
    }));
    let inf = vec!['i', 'n', 'f'];
    let infinity = vec!['i', 'n', 'f', 'i', 'n', 'i', 't', 'y'];
    let nan = vec!['n', 'a', 'n'];
    assert(inf@ =~= seq!['i', 'n', 'f']);
    assert(infinity@ =~= seq!['i', 'n', 'f', 'i', 'n', 'i', 't', 'y']);
    assert(nan@ =~= seq!['n', 'a', 'n']);
    if word_between(v, lo, hi, &inf) {
        return true;
    }
    if word_between(v, lo, hi, &infinity) {
        return true;
    }
    if word_between(v, lo, hi, &nan) {
        return true;
    }
    // the number: split at the first exponent mark
    let mut i = lo;
    assert(body.skip(0) =~= body);
    while i < hi
        invariant
            lo <= i <= hi == v@.len(),
            body == v@.subrange(lo as int, hi as int),
            is_float_text(v@) == is_number(body),
            find_exp(body) == (match find_exp(body.skip(i - lo)) {
                Some(j) => Some(j + (i - lo)),
                None => None::<int>,
            }),
        decreases hi - i,
    {
        if v[i] == 'e' || v[i] == 'E' {
            assert(body.skip(i - lo)[0] == v@[i as int]);
            assert(find_exp(body.skip(i - lo)) == Some(0int));
            assert(find_exp(body) == Some(i - lo));
            assert(body.take(i - lo) =~= v@.subrange(lo as int, i as int));
            assert(body.skip(i - lo + 1) =~= v@.subrange(i + 1, hi as int));
            let a = mantissa_between(v, lo, i);
            let c = exponent_tail_between(v, i + 1, hi);
            assert(is_number(body) == (a && c));
            return a && c;
        }
        assert(body.skip(i - lo).drop_first() =~= body.skip(i - lo + 1));
        i = i + 1;
    }
    assert(body.skip(hi - lo) =~= Seq::<char>::empty());
    mantissa_between(v, lo, hi)
}

} // verus!
