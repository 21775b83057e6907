//! Byte-level lexemes of the document format: decimal integers, milli
//! fixed-point decimals, booleans, and quoted strings with escapes.
//!
//! Every lexeme has a spec-level renderer and parser, an executable
//! counterpart proved equal to them, and a proof that parsing inverts
//! rendering; the document codec builds its round-trip on these.

use vstd::prelude::*;
use vstd::arithmetic::div_mod::lemma_fundamental_div_mod;
use vstd::arithmetic::div_mod::lemma_div_denominator;
use vstd::arithmetic::div_mod::lemma_multiply_divide_lt;

verus! {

/// Ten to the `k`.
pub open spec fn pow10(k: nat) -> nat
    decreases k,
{
    if k == 0 {
        1
    } else {
        10 * pow10((k - 1) as nat)
    }
}

pub proof fn lemma_pow10_16()
    ensures
        pow10(16) == 10000000000000000,
{
    reveal_with_fuel(pow10, 17);
}

/// Largest digit count a numeric lexeme may carry; everything the document
/// renders fits well inside it, and every accepted value fits in `i64`.
pub const MAX_DIGITS: usize = 16;

/// Decimal digits of `n`, most significant first, without leading zeros
/// (just `0` for zero).
pub open spec fn spec_digits(n: nat) -> Seq<u8>
    decreases n,
{
    if n < 10 {
        seq![(48 + n) as u8]
    } else {
        spec_digits(n / 10).push((48 + n % 10) as u8)
    }
}

/// Every byte is an ASCII digit.
pub open spec fn all_digits(s: Seq<u8>) -> bool {
    forall|i: int| 0 <= i < s.len() ==> 48 <= #[trigger] s[i] <= 57
}

pub open spec fn digit_val(b: u8) -> nat {
    if 48 <= b <= 57 {
        (b - 48) as nat
    } else {
        0
    }
}

/// Value of a digit string, most significant first.
pub open spec fn spec_digits_val(s: Seq<u8>) -> nat
    decreases s.len(),
{
    if s.len() == 0 {
        0
    } else {
        spec_digits_val(s.drop_last()) * 10 + digit_val(s.last())
    }
}

pub proof fn lemma_digits_shape(n: nat)
    ensures
        spec_digits(n).len() >= 1,
        all_digits(spec_digits(n)),
    decreases n,
{
    if n < 10 {
    } else {
        lemma_digits_shape(n / 10);
        let s = spec_digits(n / 10);
        let d = (48 + n % 10) as u8;
        assert forall|i: int| 0 <= i < s.push(d).len() implies 48 <= #[trigger] s.push(d)[i]
            <= 57 by {
            if i < s.len() {
                assert(s.push(d)[i] == s[i]);
            }
        }
    }
}

pub proof fn lemma_digits_len(n: nat, k: nat)
    requires
        1 <= k,
        n < pow10(k),
    ensures
        spec_digits(n).len() <= k,
    decreases k,
{
    if n < 10 {
    } else {
        assert(pow10(k) == 10 * pow10((k - 1) as nat));
        lemma_multiply_divide_lt(n as int, pow10((k - 1) as nat) as int, 10);
        lemma_digits_len(n / 10, (k - 1) as nat);
    }
}

pub proof fn lemma_digits_roundtrip(n: nat)
    ensures
        spec_digits_val(spec_digits(n)) == n,
    decreases n,
{
    if n < 10 {
        let s = spec_digits(n);
        assert(s == seq![(48 + n) as u8]);
        assert(s.drop_last() =~= Seq::<u8>::empty());
        assert(s.last() == (48 + n) as u8);
        assert(digit_val((48 + n) as u8) == n);
        assert(spec_digits_val(s) == spec_digits_val(s.drop_last()) * 10 + digit_val(s.last()));
        assert(spec_digits_val(Seq::<u8>::empty()) == 0);
    } else {
        lemma_digits_roundtrip(n / 10);
        let s = spec_digits(n / 10);
        let d = (48 + n % 10) as u8;
        assert(spec_digits(n) == s.push(d));
        assert(s.push(d).drop_last() =~= s);
        assert(s.push(d).last() == d);
        assert(spec_digits_val(s.push(d)) == (n / 10) * 10 + digit_val(d));
        assert(digit_val(d) == n % 10);
        lemma_fundamental_div_mod(n as int, 10);
        assert(n == 10 * (n / 10) + n % 10);
    }
}

pub proof fn lemma_digits_val_bound(s: Seq<u8>)
    ensures
        spec_digits_val(s) < pow10(s.len()),
    decreases s.len(),
{
    if s.len() == 0 {
    } else {
        lemma_digits_val_bound(s.drop_last());
        let p = pow10(s.drop_last().len());
        assert(pow10(s.len()) == 10 * p);
        assert(spec_digits_val(s.drop_last()) * 10 + digit_val(s.last()) < 10 * p) by {
            assert(spec_digits_val(s.drop_last()) <= p - 1);
            assert(spec_digits_val(s.drop_last()) * 10 <= (p - 1) * 10) by (nonlinear_arith)
                requires
                    spec_digits_val(s.drop_last()) <= p - 1,
            ;
            assert(digit_val(s.last()) <= 9);
        }
    }
}

/// A digit lexeme: between one and `MAX_DIGITS` ASCII digits.
pub open spec fn spec_parse_digits(s: Seq<u8>) -> Option<nat> {
    if 1 <= s.len() <= MAX_DIGITS && all_digits(s) {
        Some(spec_digits_val(s))
    } else {
        None
    }
}

pub proof fn lemma_parse_digits_roundtrip(n: nat)
    requires
        n < pow10(16),
    ensures
        spec_parse_digits(spec_digits(n)) == Some(n),
{
    lemma_digits_shape(n);
    lemma_digits_len(n, 16);
    lemma_digits_roundtrip(n);
}

/// A signed decimal integer: an optional leading minus sign, then digits.
pub open spec fn spec_render_int(v: int) -> Seq<u8> {
    if v < 0 {
        seq![45u8] + spec_digits((-v) as nat)
    } else {
        spec_digits(v as nat)
    }
}

pub open spec fn spec_parse_int(s: Seq<u8>) -> Option<int> {
    if s.len() >= 1 && s[0] == 45 {
        match spec_parse_digits(s.drop_first()) {
            Some(n) => Some(-(n as int)),
            None => None,
        }
    } else {
        match spec_parse_digits(s) {
            Some(n) => Some(n as int),
            None => None,
        }
    }
}

pub proof fn lemma_parse_int_roundtrip(v: int)
    requires
        -pow10(16) < v < pow10(16),
    ensures
        spec_parse_int(spec_render_int(v)) == Some(v),
{
    if v < 0 {
        lemma_digits_shape((-v) as nat);
        let s = seq![45u8] + spec_digits((-v) as nat);
        assert(s[0] == 45);
        assert(s.drop_first() =~= spec_digits((-v) as nat));
        lemma_parse_digits_roundtrip((-v) as nat);
    } else {
        lemma_digits_shape(v as nat);
        lemma_parse_digits_roundtrip(v as nat);
        assert(spec_render_int(v)[0] != 45) by {
            lemma_digits_shape(v as nat);
        }
    }
}

/// Index of the first occurrence of `t` in `s`, or `s.len()` if absent.
pub open spec fn spec_first_idx(s: Seq<u8>, t: u8) -> nat
    decreases s.len(),
{
    if s.len() == 0 {
        0
    } else if s[0] == t {
        0
    } else {
        1 + spec_first_idx(s.drop_first(), t)
    }
}

pub proof fn lemma_first_idx_le_len(s: Seq<u8>, t: u8)
    ensures
        spec_first_idx(s, t) <= s.len(),
        spec_first_idx(s, t) < s.len() ==> s[spec_first_idx(s, t) as int] == t,
    decreases s.len(),
{
    if s.len() == 0 {
    } else if s[0] == t {
    } else {
        lemma_first_idx_le_len(s.drop_first(), t);
    }
}

/// Pins the first index: if nothing before `i` is `t`, and `i` is `t` or the
/// end, then `i` is the first index.
pub proof fn lemma_first_idx_is(s: Seq<u8>, t: u8, i: int)
    requires
        0 <= i <= s.len(),
        forall|j: int| 0 <= j < i ==> s[j] != t,
        i < s.len() ==> s[i] == t,
    ensures
        spec_first_idx(s, t) == i,
    decreases s.len(),
{
    if s.len() == 0 {
    } else if s[0] == t {
        assert(i == 0);
    } else {
        assert(i >= 1);
        assert forall|j: int| 0 <= j < i - 1 implies s.drop_first()[j] != t by {
            assert(s.drop_first()[j] == s[j + 1]);
        }
        lemma_first_idx_is(s.drop_first(), t, i - 1);
    }
}

/// Milli fixed-point decimal: optional minus sign, integer digits, a dot,
/// then one to three fraction digits (rendering always emits three).
pub open spec fn spec_frac3(f: nat) -> Seq<u8>
    recommends
        f < 1000,
{
    seq![(48 + f / 100) as u8, (48 + (f / 10) % 10) as u8, (48 + f % 10) as u8]
}

pub open spec fn spec_render_milli(v: int) -> Seq<u8> {
    let a = (if v < 0 {
        -v
    } else {
        v
    }) as nat;
    let sign: Seq<u8> = if v < 0 {
        seq![45u8]
    } else {
        Seq::empty()
    };
    sign + spec_digits(a / 1000) + seq![46u8] + spec_frac3(a % 1000)
}

/// Weight of a fraction of `l` digits, in thousandths.
pub open spec fn spec_frac_scale(l: nat) -> nat {
    if l == 1 {
        100
    } else if l == 2 {
        10
    } else {
        1
    }
}

/// Unsigned part of a milli lexeme.  The integer part is capped at 13
/// digits, so every accepted magnitude stays below 10^16 thousandths.
pub open spec fn spec_parse_milli_mag(s: Seq<u8>) -> Option<nat> {
    let k = spec_first_idx(s, 46) as int;
    if k < s.len() && 1 <= k <= 13 && 1 <= s.len() - (k + 1) <= 3 {
        let ip = s.take(k);
        let fp = s.skip(k + 1);
        if all_digits(ip) && all_digits(fp) {
            Some(spec_digits_val(ip) * 1000 + spec_digits_val(fp) * spec_frac_scale(fp.len()))
        } else {
            None
        }
    } else {
        None
    }
}

pub open spec fn spec_parse_milli(s: Seq<u8>) -> Option<int> {
    if s.len() >= 1 && s[0] == 45 {
        match spec_parse_milli_mag(s.drop_first()) {
            Some(n) => Some(-(n as int)),
            None => None,
        }
    } else {
        match spec_parse_milli_mag(s) {
            Some(n) => Some(n as int),
            None => None,
        }
    }
}

pub proof fn lemma_frac3_val(f: nat)
    requires
        f < 1000,
    ensures
        spec_frac3(f).len() == 3,
        all_digits(spec_frac3(f)),
        spec_digits_val(spec_frac3(f)) == f,
{
    let b2 = (48 + f / 100) as u8;
    let b1 = (48 + (f / 10) % 10) as u8;
    let b0 = (48 + f % 10) as u8;
    let s1 = seq![b2];
    let s2 = seq![b2, b1];
    let s3 = seq![b2, b1, b0];
    assert(f / 100 <= 9);
    assert((f / 10) % 10 <= 9);
    assert(s3 == spec_frac3(f));
    assert(s3.drop_last() =~= s2);
    assert(s2.drop_last() =~= s1);
    assert(s1.drop_last() =~= Seq::<u8>::empty());
    assert(s3.last() == b0 && s2.last() == b1 && s1.last() == b2);
    assert(spec_digits_val(Seq::<u8>::empty()) == 0);
    assert(spec_digits_val(s1) == digit_val(b2));
    assert(spec_digits_val(s2) == digit_val(b2) * 10 + digit_val(b1));
    assert(spec_digits_val(s3) == (digit_val(b2) * 10 + digit_val(b1)) * 10 + digit_val(b0));
    assert(digit_val(b2) == f / 100 && digit_val(b1) == (f / 10) % 10 && digit_val(b0) == f % 10);
    lemma_div_denominator(f as int, 10, 10);
    assert((f / 10) / 10 == f / 100);
    lemma_fundamental_div_mod(f as int, 10);
    lemma_fundamental_div_mod((f / 10) as int, 10);
    assert(f == ((f / 100) * 10 + (f / 10) % 10) * 10 + f % 10);
}

pub proof fn lemma_parse_milli_mag_roundtrip(a: nat)
    requires
        a <= 1000000000000000,
    ensures
        spec_parse_milli_mag(spec_digits(a / 1000) + seq![46u8] + spec_frac3(a % 1000)) == Some(a),
{
    let ip = spec_digits(a / 1000);
    let fp = spec_frac3(a % 1000);
    let s = ip + seq![46u8] + fp;
    lemma_digits_shape(a / 1000);
    reveal_with_fuel(pow10, 14);
    lemma_digits_len(a / 1000, 13);
    lemma_frac3_val(a % 1000);
    assert forall|j: int| 0 <= j < ip.len() implies s[j] != 46 by {
        assert(s[j] == ip[j]);
    }
    assert(s[ip.len() as int] == 46);
    lemma_first_idx_is(s, 46, ip.len() as int);
    assert(s.take(ip.len() as int) =~= ip);
    assert(s.skip(ip.len() as int + 1) =~= fp);
    lemma_digits_roundtrip(a / 1000);
    lemma_fundamental_div_mod(a as int, 1000);
    assert(spec_digits_val(ip) * 1000 + spec_digits_val(fp) * spec_frac_scale(3) == a);
}

pub proof fn lemma_parse_milli_roundtrip(v: int)
    requires
        -1000000000000000 <= v <= 1000000000000000,
    ensures
        spec_parse_milli(spec_render_milli(v)) == Some(v),
{
    let a = (if v < 0 {
        -v
    } else {
        v
    }) as nat;
    let mag = spec_digits(a / 1000) + seq![46u8] + spec_frac3(a % 1000);
    lemma_parse_milli_mag_roundtrip(a);
    lemma_digits_shape(a / 1000);
    if v < 0 {
        let s = seq![45u8] + mag;
        assert(spec_render_milli(v) =~= s);
        assert(s[0] == 45);
        assert(s.drop_first() =~= mag);
    } else {
        assert(spec_render_milli(v) =~= mag);
        assert(mag[0] == spec_digits(a / 1000)[0]);
        assert(mag[0] != 45);
    }
}

/// Boolean lexeme: the bytes of `true` or `false`.
pub open spec fn spec_render_bool(b: bool) -> Seq<u8> {
    if b {
        seq![116u8, 114u8, 117u8, 101u8]
    } else {
        seq![102u8, 97u8, 108u8, 115u8, 101u8]
    }
}

pub open spec fn spec_parse_bool(s: Seq<u8>) -> Option<bool> {
    if s == spec_render_bool(true) {
        Some(true)
    } else if s == spec_render_bool(false) {
        Some(false)
    } else {
        None
    }
}

pub proof fn lemma_parse_bool_roundtrip(b: bool)
    ensures
        spec_parse_bool(spec_render_bool(b)) == Some(b),
{
    assert(spec_render_bool(true)[0] != spec_render_bool(false)[0]);
}

/// Escape of a single byte inside a quoted string: backslash pairs for the
/// quote, the backslash itself, newline, carriage return and tab; every
/// other byte stands for itself.
pub open spec fn spec_escape_byte(b: u8) -> Seq<u8> {
    if b == 34 {
        seq![92u8, 34u8]
    } else if b == 92 {
        seq![92u8, 92u8]
    } else if b == 10 {
        seq![92u8, 110u8]
    } else if b == 13 {
        seq![92u8, 114u8]
    } else if b == 9 {
        seq![92u8, 116u8]
    } else {
        seq![b]
    }
}

/// The byte an escape code stands for, if it is a known code.
pub open spec fn spec_unescape_code(c: u8) -> Option<u8> {
    if c == 34 {
        Some(34u8)
    } else if c == 92 {
        Some(92u8)
    } else if c == 110 {
        Some(10u8)
    } else if c == 114 {
        Some(13u8)
    } else if c == 116 {
        Some(9u8)
    } else {
        None
    }
}

pub open spec fn spec_escape(s: Seq<u8>) -> Seq<u8>
    decreases s.len(),
{
    if s.len() == 0 {
        Seq::empty()
    } else {
        spec_escape_byte(s[0]) + spec_escape(s.drop_first())
    }
}

/// Inverse of `spec_escape` on the content between the quotes: a raw quote
/// byte or an unknown escape code makes the content invalid.
pub open spec fn spec_unescape(s: Seq<u8>) -> Option<Seq<u8>>
    decreases s.len(),
{
    if s.len() == 0 {
        Some(Seq::empty())
    } else if s[0] == 92 {
        if s.len() >= 2 {
            match spec_unescape_code(s[1]) {
                Some(b) => match spec_unescape(s.skip(2)) {
                    Some(t) => Some(seq![b] + t),
                    None => None,
                },
                None => None,
            }
        } else {
            None
        }
    } else if s[0] == 34 {
        None
    } else {
        match spec_unescape(s.drop_first()) {
            Some(t) => Some(seq![s[0]] + t),
            None => None,
        }
    }
}

/// A quoted string lexeme.
pub open spec fn spec_render_string(s: Seq<u8>) -> Seq<u8> {
    seq![34u8] + spec_escape(s) + seq![34u8]
}

pub open spec fn spec_parse_string(s: Seq<u8>) -> Option<Seq<u8>> {
    if s.len() >= 2 && s[0] == 34 && s.last() == 34 {
        spec_unescape(s.subrange(1, s.len() - 1))
    } else {
        None
    }
}

/// Escaping distributes over appending one byte.
pub proof fn lemma_escape_append(s: Seq<u8>, b: u8)
    ensures
        spec_escape(s.push(b)) == spec_escape(s) + spec_escape_byte(b),
    decreases s.len(),
{
    if s.len() == 0 {
        assert(s.push(b)[0] == b);
        assert(s.push(b).drop_first() =~= Seq::<u8>::empty());
        assert(spec_escape(Seq::<u8>::empty()) =~= Seq::<u8>::empty());
        assert(spec_escape(s.push(b)) =~= spec_escape_byte(b));
        assert(spec_escape(s) + spec_escape_byte(b) =~= spec_escape_byte(b));
    } else {
        lemma_escape_append(s.drop_first(), b);
        assert(s.push(b).drop_first() =~= s.drop_first().push(b));
        assert(s.push(b)[0] == s[0]);
        assert(spec_escape_byte(s[0]) + (spec_escape(s.drop_first()) + spec_escape_byte(b)) =~= (
        spec_escape_byte(s[0]) + spec_escape(s.drop_first())) + spec_escape_byte(b));
    }
}

/// Escaped content never contains a newline, so a rendered string stays on
/// one line.
pub proof fn lemma_escape_no_newline(s: Seq<u8>)
    ensures
        forall|i: int| 0 <= i < spec_escape(s).len() ==> #[trigger] spec_escape(s)[i] != 10,
    decreases s.len(),
{
    if s.len() == 0 {
    } else {
        lemma_escape_no_newline(s.drop_first());
        let e = spec_escape_byte(s[0]);
        let rest = spec_escape(s.drop_first());
        assert forall|i: int| 0 <= i < spec_escape(s).len() implies #[trigger] spec_escape(s)[i]
            != 10 by {
            if i < e.len() {
                assert(spec_escape(s)[i] == e[i]);
            } else {
                assert(spec_escape(s)[i] == rest[i - e.len()]);
            }
        }
    }
}

/// Unescaping inverts escaping.
pub proof fn lemma_unescape_escape(s: Seq<u8>)
    ensures
        spec_unescape(spec_escape(s)) == Some(s),
    decreases s.len(),
{
    if s.len() == 0 {
    } else {
        lemma_unescape_escape(s.drop_first());
        let b = s[0];
        let e = spec_escape_byte(b);
        let rest = spec_escape(s.drop_first());
        let whole = spec_escape(s);
        assert(whole == e + rest);
        if b == 34 || b == 92 || b == 10 || b == 13 || b == 9 {
            assert(e.len() == 2 && e[0] == 92);
            assert(whole[0] == 92);
            assert(whole.len() >= 2 && whole[1] == e[1]);
            assert(spec_unescape_code(e[1]) == Some(b));
            assert(whole.skip(2) =~= rest);
            assert(seq![b] + s.drop_first() =~= s);
        } else {
            assert(whole[0] == b);
            assert(b != 92 && b != 34);
            assert(whole.drop_first() =~= rest);
            assert(seq![b] + s.drop_first() =~= s);
        }
    }
}

pub proof fn lemma_parse_string_roundtrip(s: Seq<u8>)
    ensures
        spec_parse_string(spec_render_string(s)) == Some(s),
{
    let r = spec_render_string(s);
    let e = spec_escape(s);
    assert(r.len() == e.len() + 2);
    assert(r[0] == 34);
    assert(r.last() == 34);
    assert(r.subrange(1, r.len() - 1) =~= e);
    lemma_unescape_escape(s);
}

pub proof fn lemma_pow10_pos(k: nat)
    ensures
        pow10(k) >= 1,
    decreases k,
{
    if k > 0 {
        lemma_pow10_pos((k - 1) as nat);
    }
}

pub proof fn lemma_pow10_mono(a: nat, b: nat)
    requires
        a <= b,
    ensures
        pow10(a) <= pow10(b),
    decreases b,
{
    if a < b {
        lemma_pow10_mono(a, (b - 1) as nat);
        lemma_pow10_pos((b - 1) as nat);
    }
}

/// Whether two byte strings are equal.
pub fn bytes_eq(a: &[u8], b: &[u8]) -> (r: bool)
    ensures
        r <==> a@ == b@,
{
    if a.len() != b.len() {
        return false;
    }
    let mut i: usize = 0;
    while i < a.len()
        invariant
            a@.len() == b@.len(),
            0 <= i <= a@.len(),
            forall|j: int| 0 <= j < i ==> a@[j] == b@[j],
        decreases a@.len() - i,
    {
        if a[i] != b[i] {
            return false;
        }
        i = i + 1;
    }
    proof {
        assert(a@ =~= b@);
    }
    true
}

/// Appends a byte string.
pub fn push_bytes(out: &mut Vec<u8>, s: &[u8])
    ensures
        final(out)@ == old(out)@ + s@,
{
    let mut i: usize = 0;
    while i < s.len()
        invariant
            0 <= i <= s@.len(),
            out@ == old(out)@ + s@.take(i as int),
        decreases s@.len() - i,
    {
        out.push(s[i]);
        proof {
            assert(s@.take(i as int + 1) =~= s@.take(i as int).push(s@[i as int]));
            assert(old(out)@ + s@.take(i as int).push(s@[i as int]) =~= (old(out)@ + s@.take(
                i as int,
            )).push(s@[i as int]));
        }
        i = i + 1;
    }
    proof {
        assert(s@.take(s@.len() as int) =~= s@);
    }
}

/// Appends the decimal digits of `n`.
pub fn push_digits(out: &mut Vec<u8>, n: u64)
    ensures
        final(out)@ == old(out)@ + spec_digits(n as nat),
    decreases n,
{
    if n < 10 {
        out.push(48 + n as u8);
        proof {
            assert(old(out)@ + spec_digits(n as nat) =~= old(out)@.push((48 + n) as u8));
        }
    } else {
        push_digits(out, n / 10);
        out.push(48 + (n % 10) as u8);
        proof {
            assert(old(out)@ + spec_digits(n as nat) =~= (old(out)@ + spec_digits(
                n as nat / 10,
            )).push((48 + n as nat % 10) as u8));
        }
    }
}

/// Appends a signed decimal integer.
pub fn push_int(out: &mut Vec<u8>, v: i64)
    requires
        v > i64::MIN,
    ensures
        final(out)@ == old(out)@ + spec_render_int(v as int),
{
    if v < 0 {
        out.push(45);
        push_digits(out, (-v) as u64);
        proof {
            assert(old(out)@ + spec_render_int(v as int) =~= (old(out)@.push(45u8)) + spec_digits(
                (-(v as int)) as nat,
            ));
        }
    } else {
        push_digits(out, v as u64);
    }
}

/// Appends a milli fixed-point decimal with exactly three fraction digits.
pub fn push_milli(out: &mut Vec<u8>, v: i64)
    requires
        -1000000000000000 <= v <= 1000000000000000,
    ensures
        final(out)@ == old(out)@ + spec_render_milli(v as int),
{
    let a: u64 = if v < 0 {
        (-v) as u64
    } else {
        v as u64
    };
    let ghost sign: Seq<u8> = if v < 0 {
        seq![45u8]
    } else {
        Seq::empty()
    };
    if v < 0 {
        out.push(45);
    }
    proof {
        assert(out@ =~= old(out)@ + sign);
    }
    push_digits(out, a / 1000);
    out.push(46);
    let f = a % 1000;
    out.push(48 + (f / 100) as u8);
    out.push(48 + ((f / 10) % 10) as u8);
    out.push(48 + (f % 10) as u8);
    proof {
        assert(a as nat == (if v < 0 {
            -(v as int)
        } else {
            v as int
        }) as nat);
        assert(old(out)@ + spec_render_milli(v as int) =~= ((((old(out)@ + sign + spec_digits(
            a as nat / 1000,
        )).push(46u8)).push((48 + (f as nat / 100)) as u8)).push(
            (48 + ((f as nat / 10) % 10)) as u8,
        )).push((48 + (f as nat % 10)) as u8));
    }
}

/// Appends a boolean lexeme.
pub fn push_bool(out: &mut Vec<u8>, b: bool)
    ensures
        final(out)@ == old(out)@ + spec_render_bool(b),
{
    if b {
        out.push(116);
        out.push(114);
        out.push(117);
        out.push(101);
    } else {
        out.push(102);
        out.push(97);
        out.push(108);
        out.push(115);
        out.push(101);
    }
    proof {
        assert(out@ =~= old(out)@ + spec_render_bool(b));
    }
}

/// Appends the escaped content of a string.
pub fn push_escaped(out: &mut Vec<u8>, s: &Vec<u8>)
    ensures
        final(out)@ == old(out)@ + spec_escape(s@),
{
    let mut i: usize = 0;
    proof {
        assert(s@.take(0) =~= Seq::<u8>::empty());
        assert(out@ =~= old(out)@ + spec_escape(s@.take(0)));
    }
    while i < s.len()
        invariant
            0 <= i <= s@.len(),
            out@ == old(out)@ + spec_escape(s@.take(i as int)),
        decreases s@.len() - i,
    {
        let b = s[i];
        if b == 34 {
            out.push(92);
            out.push(34);
        } else if b == 92 {
            out.push(92);
            out.push(92);
        } else if b == 10 {
            out.push(92);
            out.push(110);
        } else if b == 13 {
            out.push(92);
            out.push(114);
        } else if b == 9 {
            out.push(92);
            out.push(116);
        } else {
            out.push(b);
        }
        proof {
            lemma_escape_append(s@.take(i as int), b);
            assert(s@.take(i as int + 1) =~= s@.take(i as int).push(b));
            assert(out@ =~= old(out)@ + (spec_escape(s@.take(i as int)) + spec_escape_byte(b)));
        }
        i = i + 1;
    }
    proof {
        assert(s@.take(s@.len() as int) =~= s@);
    }
}

/// Appends a quoted string lexeme.
pub fn push_string(out: &mut Vec<u8>, s: &Vec<u8>)
    ensures
        final(out)@ == old(out)@ + spec_render_string(s@),
{
    out.push(34);
    push_escaped(out, s);
    out.push(34);
    proof {
        assert(old(out)@ + spec_render_string(s@) =~= ((old(out)@.push(34u8)) + spec_escape(
            s@,
        )).push(34u8));
    }
}

/// Whether every byte is an ASCII digit.
pub fn check_all_digits(s: &[u8]) -> (r: bool)
    ensures
        r == all_digits(s@),
{
    let mut i: usize = 0;
    while i < s.len()
        invariant
            0 <= i <= s@.len(),
            forall|j: int| 0 <= j < i ==> 48 <= #[trigger] s@[j] <= 57,
        decreases s@.len() - i,
    {
        let b = s[i];
        if b < 48 || b > 57 {
            return false;
        }
        i = i + 1;
    }
    true
}

/// Value of a digit string.
pub fn digits_val_exec(s: &[u8]) -> (r: u64)
    requires
        1 <= s@.len() <= MAX_DIGITS,
        all_digits(s@),
    ensures
        r == spec_digits_val(s@),
        r < 10000000000000000,
{
    let mut acc: u64 = 0;
    let mut i: usize = 0;
    proof {
        assert(s@.take(0) =~= Seq::<u8>::empty());
    }
    while i < s.len()
        invariant
            0 <= i <= s@.len() <= MAX_DIGITS,
            all_digits(s@),
            acc == spec_digits_val(s@.take(i as int)),
            acc < pow10(i as nat),
        decreases s@.len() - i,
    {
        let b = s[i];
        proof {
            assert(48 <= s@[i as int] <= 57);
            lemma_pow10_mono(i as nat + 1, 16);
            lemma_pow10_16();
            assert(s@.take(i as int + 1).drop_last() =~= s@.take(i as int));
            assert(s@.take(i as int + 1).last() == s@[i as int]);
        }
        acc = acc * 10 + (b - 48) as u64;
        i = i + 1;
    }
    proof {
        assert(s@.take(s@.len() as int) =~= s@);
        lemma_pow10_mono(s@.len(), 16);
        lemma_pow10_16();
    }
    acc
}

/// Parses a digit lexeme.
pub fn parse_digits_exec(s: &[u8]) -> (r: Option<u64>)
    ensures
        match r {
            Some(n) => spec_parse_digits(s@) == Some(n as nat) && n < 10000000000000000,
            None => spec_parse_digits(s@) is None,
        },
{
    if s.len() < 1 || s.len() > MAX_DIGITS {
        return None;
    }
    if !check_all_digits(s) {
        return None;
    }
    Some(digits_val_exec(s))
}

/// Parses a signed integer lexeme.
pub fn parse_int_exec(s: &[u8]) -> (r: Option<i64>)
    ensures
        match r {
            Some(v) => spec_parse_int(s@) == Some(v as int),
            None => spec_parse_int(s@) is None,
        },
{
    if s.len() >= 1 && s[0] == 45 {
        let rest = vstd::slice::slice_subrange(s, 1, s.len());
        proof {
            assert(rest@ =~= s@.drop_first());
        }
        match parse_digits_exec(rest) {
            Some(n) => Some(-(n as i64)),
            None => None,
        }
    } else {
        match parse_digits_exec(s) {
            Some(n) => Some(n as i64),
            None => None,
        }
    }
}

/// Index of the first occurrence of `t`, or the length if absent.
pub fn first_idx_exec(s: &[u8], t: u8) -> (r: usize)
    ensures
        r == spec_first_idx(s@, t),
{
    let mut i: usize = 0;
    while i < s.len()
        invariant
            0 <= i <= s@.len(),
            forall|j: int| 0 <= j < i ==> s@[j] != t,
        decreases s@.len() - i,
    {
        if s[i] == t {
            proof {
                lemma_first_idx_is(s@, t, i as int);
            }
            return i;
        }
        i = i + 1;
    }
    proof {
        lemma_first_idx_is(s@, t, s@.len() as int);
    }
    i
}

/// Parses the unsigned part of a milli lexeme.
fn parse_milli_mag_exec(s: &[u8]) -> (r: Option<u64>)
    ensures
        match r {
            Some(n) => spec_parse_milli_mag(s@) == Some(n as nat) && n < 10000000000001000,
            None => spec_parse_milli_mag(s@) is None,
        },
{
    let k = first_idx_exec(s, 46);
    if !(k < s.len() && 1 <= k && k <= 13 && s.len() >= k + 2 && s.len() <= k + 4) {
        return None;
    }
    let ip = vstd::slice::slice_subrange(s, 0, k);
    let fp = vstd::slice::slice_subrange(s, k + 1, s.len());
    proof {
        assert(ip@ =~= s@.take(k as int));
        assert(fp@ =~= s@.skip(k as int + 1));
    }
    if !check_all_digits(ip) || !check_all_digits(fp) {
        return None;
    }
    let ipv = digits_val_exec(ip);
    let fpv = digits_val_exec(fp);
    let scale: u64 = if fp.len() == 1 {
        100
    } else if fp.len() == 2 {
        10
    } else {
        1
    };
    proof {
        lemma_digits_val_bound(ip@);
        lemma_digits_val_bound(fp@);
        lemma_pow10_mono(ip@.len(), 13);
        reveal_with_fuel(pow10, 14);
        assert(scale as nat == spec_frac_scale(fp@.len()));
    }
    Some(ipv * 1000 + fpv * scale)
}

/// Parses a milli fixed-point lexeme.
pub fn parse_milli_exec(s: &[u8]) -> (r: Option<i64>)
    ensures
        match r {
            Some(v) => spec_parse_milli(s@) == Some(v as int),
            None => spec_parse_milli(s@) is None,
        },
{
    if s.len() >= 1 && s[0] == 45 {
        let rest = vstd::slice::slice_subrange(s, 1, s.len());
        proof {
            assert(rest@ =~= s@.drop_first());
        }
        match parse_milli_mag_exec(rest) {
            Some(n) => Some(-(n as i64)),
            None => None,
        }
    } else {
        match parse_milli_mag_exec(s) {
            Some(n) => Some(n as i64),
            None => None,
        }
    }
}

/// Parses a boolean lexeme.
pub fn parse_bool_exec(s: &[u8]) -> (r: Option<bool>)
    ensures
        match r {
            Some(b) => spec_parse_bool(s@) == Some(b),
            None => spec_parse_bool(s@) is None,
        },
{
    let t: [u8; 4] = [116, 114, 117, 101];
    let f: [u8; 5] = [102, 97, 108, 115, 101];
    proof {
        assert(t@ =~= spec_render_bool(true));
        assert(f@ =~= spec_render_bool(false));
    }
    if bytes_eq(s, t.as_slice()) {
        Some(true)
    } else if bytes_eq(s, f.as_slice()) {
        Some(false)
    } else {
        None
    }
}

/// Undoes the escapes in the content between the quotes.
fn unescape_exec(s: &[u8]) -> (r: Option<Vec<u8>>)
    ensures
        match r {
            Some(v) => spec_unescape(s@) == Some(v@),
            None => spec_unescape(s@) is None,
        },
{
    let mut out: Vec<u8> = Vec::new();
    let mut i: usize = 0;
    proof {
        assert(s@.skip(0) =~= s@);
    }
    while i < s.len()
        invariant
            0 <= i <= s@.len(),
            spec_unescape(s@) == match spec_unescape(s@.skip(i as int)) {
                Some(t) => Some(out@ + t),
                None => None::<Seq<u8>>,
            },
        decreases s@.len() - i,
    {
        let ghost rem = s@.skip(i as int);
        proof {
            assert(rem[0] == s@[i as int]);
        }
        let b = s[i];
        if b == 92 {
            if i + 1 >= s.len() {
                proof {
                    assert(rem.len() == 1);
                }
                return None;
            }
            let c = s[i + 1];
            proof {
                assert(rem[1] == s@[i as int + 1]);
            }
            let decoded: u8 = if c == 34 {
                34
            } else if c == 92 {
                92
            } else if c == 110 {
                10
            } else if c == 114 {
                13
            } else if c == 116 {
                9
            } else {
                proof {
                    assert(spec_unescape_code(rem[1]) is None);
                }
                return None;
            };
            let ghost pre = out@;
            out.push(decoded);
            proof {
                assert(spec_unescape_code(rem[1]) == Some(decoded));
                assert(rem.skip(2) =~= s@.skip(i as int + 2));
                if let Some(t) = spec_unescape(s@.skip(i as int + 2)) {
                    assert(spec_unescape(rem) == Some(seq![decoded] + t));
                    assert(pre + (seq![decoded] + t) =~= out@ + t);
                } else {
                    assert(spec_unescape(rem) is None);
                }
            }
            i = i + 2;
        } else if b == 34 {
            proof {
                assert(spec_unescape(rem) is None);
            }
            return None;
        } else {
            let ghost pre = out@;
            out.push(b);
            proof {
                assert(rem.drop_first() =~= s@.skip(i as int + 1));
                if let Some(t) = spec_unescape(s@.skip(i as int + 1)) {
                    assert(spec_unescape(rem) == Some(seq![b] + t));
                    assert(pre + (seq![b] + t) =~= out@ + t);
                } else {
                    assert(spec_unescape(rem) is None);
                }
            }
            i = i + 1;
        }
    }
    proof {
        assert(s@.skip(s@.len() as int) =~= Seq::<u8>::empty());
        assert(spec_unescape(Seq::<u8>::empty()) == Some(Seq::<u8>::empty()));
        assert(out@ + Seq::<u8>::empty() =~= out@);
    }
    Some(out)
}

/// Parses a quoted string lexeme.
pub fn parse_string_exec(s: &[u8]) -> (r: Option<Vec<u8>>)
    ensures
        match r {
            Some(v) => spec_parse_string(s@) == Some(v@),
            None => spec_parse_string(s@) is None,
        },
{
    if s.len() < 2 {
        return None;
    }
    if s[0] != 34 || s[s.len() - 1] != 34 {
        return None;
    }
    let inner = vstd::slice::slice_subrange(s, 1, s.len() - 1);
    proof {
        assert(inner@ =~= s@.subrange(1, s@.len() - 1));
    }
    unescape_exec(inner)
}

} // verus!
