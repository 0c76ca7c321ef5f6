use vstd::prelude::*;
use vstd::string::StrSliceExecFns;

verus! {

pub open spec fn is_digit(c: char) -> bool {
    '0' <= c && c <= '9'
}

pub open spec fn all_digits(s: Seq<char>) -> bool {
    forall|i: int| 0 <= i < s.len() ==> is_digit(#[trigger] s[i])
}

/// The value of a string of decimal digits.
pub open spec fn digits_value(s: Seq<char>) -> nat
    decreases s.len(),
{
    if s.len() == 0 {
        0
    } else {
        digits_value(s.drop_last()) * 10 + (s.last() as nat - '0' as nat) as nat
    }
}

/// An unsigned decimal integer: one or more digits, nothing else.
pub open spec fn uint_of(s: Seq<char>) -> Option<nat> {
    if s.len() > 0 && all_digits(s) { Some(digits_value(s)) } else { None }
}

/// The position of the first `c` in `s`, if any.
pub open spec fn index_of(s: Seq<char>, c: char) -> Option<nat>
    decreases s.len(),
{
    if s.len() == 0 {
        None
    } else {
        match index_of(s.drop_last(), c) {
            Some(k) => Some(k),
            None => if s.last() == c { Some((s.len() - 1) as nat) } else { None },
        }
    }
}

proof fn lemma_index_of(s: Seq<char>, c: char)
    ensures
        index_of(s, c) matches Some(k) ==> k < s.len() && s[k as int] == c
            && forall|j: int| 0 <= j < k ==> s[j] != c,
        index_of(s, c) is None ==> forall|j: int| 0 <= j < s.len() ==> s[j] != c,
    decreases s.len(),
{
    if s.len() > 0 {
        lemma_index_of(s.drop_last(), c);
        assert forall|j: int| 0 <= j < s.len() - 1 implies s.drop_last()[j] == s[j] by {}
    }
}

proof fn lemma_digits_value_grows(s: Seq<char>, i: int)
    requires
        0 <= i <= s.len(),
        all_digits(s),
    ensures
        digits_value(s.take(i)) <= digits_value(s),
    decreases s.len() - i,
{
    if i < s.len() {
        lemma_digits_value_grows(s, i + 1);
        assert(s.take(i + 1).drop_last() =~= s.take(i));
        assert(is_digit(s[i]));
    } else {
        assert(s.take(i) =~= s);
    }
}

/// Reads the unsigned decimal integer that `s` holds between `from` and `to`,
/// where it fits a `u64`.
pub fn parse_uint(s: &str, from: usize, to: usize) -> (r: Option<u64>)
    requires
        from <= to <= s@.len(),
    ensures
        r matches Some(v) <==> (uint_of(s@.subrange(from as int, to as int)) matches Some(x) && x <= u64::MAX),
        r matches Some(v) ==> uint_of(s@.subrange(from as int, to as int)) == Some(v as nat),
{
    let ghost t = s@.subrange(from as int, to as int);
    if from == to {
        return None;
    }
    let mut v: u64 = 0;
    let mut i: usize = from;
    while i < to
        invariant
            from <= i <= to <= s@.len(),
            t == s@.subrange(from as int, to as int),
            all_digits(t.take(i - from)),
            v as nat == digits_value(t.take(i - from)),
        decreases to - i,
    {
        let c = s.get_char(i);
        if !('0' <= c && c <= '9') {
            proof {
                assert(t[i - from] == c);
            }
            return None;
        }
        let d = (c as u32 - '0' as u32) as u64;
        proof {
            assert(t.take(i - from + 1).drop_last() =~= t.take(i - from));
            assert(t.take(i - from + 1).last() == c);
        }
        if v > (u64::MAX - d) / 10 {
            proof {
                assert(digits_value(t.take(i - from + 1)) > u64::MAX) by (nonlinear_arith)
                    requires v > (u64::MAX - d) / 10, digits_value(t.take(i - from + 1)) == v * 10 + d, d <= 9;
                if all_digits(t) {
                    lemma_digits_value_grows(t, i - from + 1);
                }
            }
            return None;
        }
        v = v * 10 + d;
        i = i + 1;
        proof {
            assert forall|j: int| 0 <= j < t.take(i - from).len() implies is_digit(#[trigger] t.take(i - from)[j]) by {
                if j < i - from - 1 {
                    assert(t.take(i - from)[j] == t.take(i - from - 1)[j]);
                }
            }
        }
    }
    proof {
        assert(t.take(to - from) =~= t);
    }
    Some(v)
}

} // verus!

verus! {

/// The position of the first `c` in `s`.
pub fn find_char(s: &str, c: char) -> (r: Option<usize>)
    ensures
        r matches Some(k) ==> index_of(s@, c) == Some(k as nat),
        r is None ==> index_of(s@, c) is None,
{
    proof { lemma_index_of(s@, c); }
    let n = s.unicode_len();
    let mut i: usize = 0;
    while i < n
        invariant
            i <= n == s@.len(),
            forall|j: int| 0 <= j < i ==> s@[j] != c,
        decreases n - i,
    {
        if s.get_char(i) == c {
            proof {
                lemma_index_of(s@, c);
                match index_of(s@, c) {
                    Some(k) => {
                        assert(s@[k as int] == c);
                        assert(s@[i as int] == c);
                        assert(!(k < i));
                        assert(!(k > i));
                    },
                    None => {},
                }
            }
            return Some(i);
        }
        i = i + 1;
    }
    proof {
        if let Some(k) = index_of(s@, c) {
            assert(s@[k as int] == c);
        }
    }
    None
}

/// A frame rate as a fraction of two integers, the denominator positive.
#[derive(Debug, Clone, Copy, PartialEq, Eq, Structural)]
pub struct FrameRate {
    pub num: i64,
    pub den: u64,
}

/// The frame rate that a probe reports when none can be read: 30/1.
pub open spec fn default_rate() -> (int, nat) {
    (30, 1)
}

pub open spec fn pow10(n: nat) -> nat
    decreases n,
{
    if n == 0 { 1 } else { 10 * pow10((n - 1) as nat) }
}

/// A decimal "digits[.digits]" (one side of the point may be empty, not both)
/// as an integer `m` and a count `k` of fraction digits: its value is m / 10^k.
pub open spec fn decimal_of(t: Seq<char>) -> Option<(nat, nat)> {
    let (w, f) = match index_of(t, '.') {
        Some(k) => (t.take(k as int), t.skip(k as int + 1)),
        None => (t, Seq::<char>::empty()),
    };
    if w.len() + f.len() > 0 && all_digits(w) && all_digits(f) {
        Some((digits_value(w) * pow10(f.len()) + digits_value(f), f.len()))
    } else {
        None
    }
}

/// `n` where it fits a `u64`, else nothing.
pub open spec fn cap(n: nat) -> Option<u64> {
    if n <= u64::MAX { Some(n as u64) } else { None }
}

fn cap_mul(x: Option<u64>, y: Option<u64>, Ghost(a): Ghost<nat>, Ghost(b): Ghost<nat>) -> (r: Option<u64>)
    requires
        x == cap(a),
        y == cap(b),
    ensures
        r == cap(a * b),
{
    match (x, y) {
        (Some(p), Some(q)) => {
            proof { assert(a * b == p * q); }
            p.checked_mul(q)
        },
        (Some(p), None) => {
            if p == 0 {
                proof { assert(a * b == 0) by (nonlinear_arith) requires a == 0; }
                Some(0)
            } else {
                proof { assert(a * b >= b) by (nonlinear_arith) requires a >= 1; }
                None
            }
        },
        (None, Some(q)) => {
            if q == 0 {
                proof { assert(a * b == 0) by (nonlinear_arith) requires b == 0; }
                Some(0)
            } else {
                proof { assert(a * b >= a) by (nonlinear_arith) requires b >= 1; }
                None
            }
        },
        (None, None) => {
            proof { assert(a * b >= a) by (nonlinear_arith) requires b >= 1; }
            None
        },
    }
}

fn cap_add(x: Option<u64>, y: Option<u64>, Ghost(a): Ghost<nat>, Ghost(b): Ghost<nat>) -> (r: Option<u64>)
    requires
        x == cap(a),
        y == cap(b),
    ensures
        r == cap(a + b),
{
    match (x, y) {
        (Some(p), Some(q)) => p.checked_add(q),
        _ => None,
    }
}

fn pow10_capped(n: usize) -> (r: Option<u64>)
    ensures
        r == cap(pow10(n as nat)),
{
    let mut p: Option<u64> = Some(1);
    let mut i: usize = 0;
    while i < n
        invariant
            i <= n,
            p == cap(pow10(i as nat)),
        decreases n - i,
    {
        p = cap_mul(p, Some(10), Ghost(pow10(i as nat)), Ghost(10));
        proof {
            assert(pow10((i + 1) as nat) == 10 * pow10(i as nat));
            assert(pow10(i as nat) * 10 == 10 * pow10(i as nat)) by (nonlinear_arith);
        }
        i = i + 1;
    }
    p
}

/// Whether `s` holds only digits between `from` and `to`.
fn digits_between(s: &str, from: usize, to: usize) -> (r: bool)
    requires
        from <= to <= s@.len(),
    ensures
        r == all_digits(s@.subrange(from as int, to as int)),
{
    let ghost t = s@.subrange(from as int, to as int);
    let mut i: usize = from;
    while i < to
        invariant
            from <= i <= to <= s@.len(),
            t == s@.subrange(from as int, to as int),
            forall|j: int| from <= j < i ==> is_digit(#[trigger] s@[j]),
        decreases to - i,
    {
        let c = s.get_char(i);
        if !('0' <= c && c <= '9') {
            proof { assert(t[i - from] == c); }
            return false;
        }
        i = i + 1;
    }
    proof {
        assert forall|j: int| 0 <= j < t.len() implies is_digit(#[trigger] t[j]) by {
            assert(t[j] == s@[from + j]);
        }
    }
    true
}

/// The value of the digits of `s` between `from` and `to`, where it fits.
fn digits_capped(s: &str, from: usize, to: usize) -> (r: Option<u64>)
    requires
        from <= to <= s@.len(),
        all_digits(s@.subrange(from as int, to as int)),
    ensures
        r == cap(digits_value(s@.subrange(from as int, to as int))),
{
    if from == to {
        proof { assert(s@.subrange(from as int, to as int).len() == 0); }
        return Some(0);
    }
    let r = parse_uint(s, from, to);
    r
}

/// Reads a decimal such as "29.97" as its digits and its count of fraction digits.
fn parse_decimal(t: &str) -> (r: Option<(Option<u64>, usize)>)
    ensures
        r is None <==> decimal_of(t@) is None,
        r matches Some((m, k)) ==> decimal_of(t@) matches Some((a, kk)) && m == cap(a) && k == kk,
{
    let n = t.unicode_len();
    let dot = find_char(t, '.');
    proof { lemma_index_of(t@, '.'); }
    let (wend, fstart) = match dot {
        Some(k) => (k, k + 1),
        None => (n, n),
    };
    let ghost w = t@.subrange(0, wend as int);
    let ghost f = t@.subrange(fstart as int, n as int);
    proof {
        match dot {
            Some(k) => {
                assert(w =~= t@.take(k as int));
                assert(f =~= t@.skip(k + 1));
            },
            None => {
                assert(w =~= t@);
                assert(f =~= Seq::<char>::empty());
            },
        }
    }
    if wend + (n - fstart) == 0 || !digits_between(t, 0, wend) || !digits_between(t, fstart, n) {
        return None;
    }
    let wv = digits_capped(t, 0, wend);
    let fv = digits_capped(t, fstart, n);
    let p = pow10_capped(n - fstart);
    let scaled = cap_mul(wv, p, Ghost(digits_value(w)), Ghost(pow10(f.len())));
    let m = cap_add(scaled, fv, Ghost(digits_value(w) * pow10(f.len())), Ghost(digits_value(f)));
    Some((m, n - fstart))
}

/// Where the exponent marker ('e' or 'E') of `t` stands: its first one.
pub open spec fn exp_index(t: Seq<char>) -> Option<nat> {
    match (index_of(t, 'e'), index_of(t, 'E')) {
        (Some(a), Some(b)) => Some(if a <= b { a } else { b }),
        (Some(a), None) => Some(a),
        (None, Some(b)) => Some(b),
        (None, None) => None,
    }
}

/// An optional leading sign: whether it is '-', and what follows it.
pub open spec fn sign_of(t: Seq<char>) -> (bool, Seq<char>) {
    if t.len() > 0 && (t[0] == '+' || t[0] == '-') { (t[0] == '-', t.skip(1)) } else { (false, t) }
}

/// An exponent: an optional sign and one or more digits, its size within `u64`.
pub open spec fn exponent_of(t: Seq<char>) -> Option<int> {
    let (neg, d) = sign_of(t);
    match uint_of(d) {
        Some(e) => if e <= u64::MAX { Some(if neg { -(e as int) } else { e as int }) } else { None },
        None => None,
    }
}

/// A number "[sign] decimal [e|E [sign] digits]" as a sign and an exact
/// fraction n / d, d a power of ten (zero is 0 / 1).
pub open spec fn number_of(t: Seq<char>) -> Option<(bool, nat, nat)> {
    let (neg, body) = sign_of(t);
    let (mant, ex) = match exp_index(body) {
        Some(x) => (body.take(x as int), exponent_of(body.skip(x as int + 1))),
        None => (body, Some(0int)),
    };
    match (decimal_of(mant), ex) {
        (Some((m, k)), Some(e)) => {
            let p = e - k;
            if m == 0 {
                Some((neg, 0nat, 1nat))
            } else if p >= 0 {
                Some((neg, m * pow10(p as nat), 1nat))
            } else {
                Some((neg, m, pow10((-p) as nat)))
            }
        },
        _ => None,
    }
}

/// The frame rate that the text "num/den" gives: two numbers around a single
/// slash, read exactly; the result is num / den as a fraction with a positive
/// denominator. Where the text is malformed, the denominator is zero, or the
/// fraction's parts do not fit (`i64` above, `u64` below), the default.
pub open spec fn frame_rate_of(s: Seq<char>) -> (int, nat) {
    match index_of(s, '/') {
        Some(k) => match (number_of(s.take(k as int)), number_of(s.skip(k as int + 1))) {
            (Some((sa, na, da)), Some((sb, nb, db))) => {
                let num = na * db;
                let den = nb * da;
                if den != 0 && num <= i64::MAX && den <= u64::MAX {
                    (if sa != sb { -(num as int) } else { num as int }, den)
                } else {
                    default_rate()
                }
            },
            _ => default_rate(),
        },
        None => default_rate(),
    }
}

/// The duration in milliseconds that a number of seconds gives, cut toward
/// zero; where the text is no number or the value does not fit, 60 seconds.
pub open spec fn duration_ms_of(s: Seq<char>) -> int {
    match number_of(s) {
        Some((neg, n, d)) => if d != 0 && n * 1000 <= u64::MAX && (n * 1000) / d <= i64::MAX {
            if neg { -(((n * 1000) / d) as int) } else { ((n * 1000) / d) as int }
        } else {
            60000
        },
        None => 60000,
    }
}

proof fn lemma_pow10_grows(i: nat, j: nat)
    requires
        i <= j,
    ensures
        pow10(i) <= pow10(j),
        pow10(i) >= 1,
    decreases j - i,
{
    if i < j {
        lemma_pow10_grows(i, (j - 1) as nat);
    } else {
        lemma_pow10_positive(i);
    }
}

proof fn lemma_pow10_positive(i: nat)
    ensures
        pow10(i) >= 1,
    decreases i,
{
    if i > 0 {
        lemma_pow10_positive((i - 1) as nat);
    }
}

proof fn lemma_pow10_large(n: nat)
    requires
        n >= 20,
    ensures
        pow10(n) > u64::MAX,
{
    assert(pow10(0) == 1);
    assert(pow10(1) == 10);
    assert(pow10(2) == 100);
    assert(pow10(3) == 1000);
    assert(pow10(4) == 10000);
    assert(pow10(5) == 100000);
    assert(pow10(6) == 1000000);
    assert(pow10(7) == 10000000);
    assert(pow10(8) == 100000000);
    assert(pow10(9) == 1000000000);
    assert(pow10(10) == 10000000000);
    assert(pow10(11) == 100000000000);
    assert(pow10(12) == 1000000000000);
    assert(pow10(13) == 10000000000000);
    assert(pow10(14) == 100000000000000);
    assert(pow10(15) == 1000000000000000);
    assert(pow10(16) == 10000000000000000);
    assert(pow10(17) == 100000000000000000);
    assert(pow10(18) == 1000000000000000000);
    assert(pow10(19) == 10000000000000000000);
    assert(pow10(20) == 100000000000000000000);
    lemma_pow10_grows(20, n);
}

/// 10^n where it fits a `u64`.
fn pow10_of(n: u128) -> (r: Option<u64>)
    ensures
        r == cap(pow10(n as nat)),
{
    if n >= 20 {
        proof { lemma_pow10_large(n as nat); }
        None
    } else {
        pow10_capped(n as usize)
    }
}

/// The position of the first exponent marker of `t`.
fn find_exp(t: &str) -> (r: Option<usize>)
    ensures
        r matches Some(x) ==> exp_index(t@) == Some(x as nat) && x < t@.len(),
        r is None ==> exp_index(t@) is None,
{
    proof {
        lemma_index_of(t@, 'e');
        lemma_index_of(t@, 'E');
    }
    match (find_char(t, 'e'), find_char(t, 'E')) {
        (Some(a), Some(b)) => Some(if a <= b { a } else { b }),
        (Some(a), None) => Some(a),
        (None, Some(b)) => Some(b),
        (None, None) => None,
    }
}

/// Splits off an optional leading sign.
fn split_sign(t: &str) -> (r: (bool, &str))
    ensures
        (r.0, r.1@) == sign_of(t@),
{
    let n = t.unicode_len();
    if n > 0 {
        let c = t.get_char(0);
        if c == '+' || c == '-' {
            let rest = t.substring_char(1, n);
            proof { assert(rest@ =~= t@.skip(1)); }
            return (c == '-', rest);
        }
    }
    (false, t)
}

/// Reads an exponent such as "3", "+10" or "-6".
fn parse_exponent(t: &str) -> (r: Option<(bool, u64)>)
    ensures
        r is None <==> exponent_of(t@) is None,
        r matches Some((neg, e)) ==> exponent_of(t@) == Some(if neg { -(e as int) } else { e as int }),
{
    let (neg, digits) = split_sign(t);
    let n = digits.unicode_len();
    proof { assert(digits@.subrange(0, n as int) =~= digits@); }
    match parse_uint(digits, 0, n) {
        Some(e) => Some((neg, e)),
        None => None,
    }
}

/// Reads a number such as "-29.97", "6e1" or "1.5E-3" as its sign and its
/// exact fraction, each part where it fits a `u64`.
pub fn parse_number(t: &str) -> (r: Option<(bool, Option<u64>, Option<u64>)>)
    ensures
        r is None <==> number_of(t@) is None,
        r matches Some((neg, n, d)) ==> number_of(t@) matches Some((neg2, a, b))
            && neg == neg2 && n == cap(a) && d == cap(b),
{
    let (neg, body) = split_sign(t);
    let len = body.unicode_len();
    let (mant, ex) = match find_exp(body) {
        Some(x) => {
            let m = body.substring_char(0, x);
            let e = body.substring_char(x + 1, len);
            proof {
                assert(m@ =~= body@.take(x as int));
                assert(e@ =~= body@.skip(x as int + 1));
            }
            (m, parse_exponent(e))
        },
        None => (body, Some((false, 0u64))),
    };
    let dec = parse_decimal(mant);
    match (dec, ex) {
        (Some((m, k)), Some((eneg, e))) => {
            let ghost (gm, gk) = decimal_of(mant@).unwrap();
            if m == Some(0u64) {
                return Some((neg, Some(0), Some(1)));
            }
            let p: i128 = if eneg { -(e as i128) } else { e as i128 } - k as i128;
            if p >= 0 {
                let pw = pow10_of(p as u128);
                let n = cap_mul(m, pw, Ghost(gm), Ghost(pow10(p as nat)));
                Some((neg, n, Some(1)))
            } else {
                let pw = pow10_of((-p) as u128);
                Some((neg, m, pw))
            }
        },
        _ => None,
    }
}

/// Reads a frame rate such as "30/1", "30000/1001", "-30/1" or "6e1/1".
pub fn parse_frame_rate(rate_str: &str) -> (r: FrameRate)
    ensures
        (r.num as int, r.den as nat) == frame_rate_of(rate_str@),
        r.den > 0,
{
    let n = rate_str.unicode_len();
    match find_char(rate_str, '/') {
        Some(k) => {
            proof { lemma_index_of(rate_str@, '/'); }
            let left = rate_str.substring_char(0, k);
            let right = rate_str.substring_char(k + 1, n);
            proof {
                assert(left@ =~= rate_str@.take(k as int));
                assert(right@ =~= rate_str@.skip(k + 1));
            }
            match (parse_number(left), parse_number(right)) {
                (Some((sa, na, da)), Some((sb, nb, db))) => {
                    let ghost (_x, gna, gda) = number_of(left@).unwrap();
                    let ghost (_y, gnb, gdb) = number_of(right@).unwrap();
                    let num = cap_mul(na, db, Ghost(gna), Ghost(gdb));
                    let den = cap_mul(nb, da, Ghost(gnb), Ghost(gda));
                    match (num, den) {
                        (Some(x), Some(y)) => if y != 0 && x <= 0x7fff_ffff_ffff_ffff {
                            let v = x as i64;
                            FrameRate { num: if sa != sb { -v } else { v }, den: y }
                        } else {
                            FrameRate { num: 30, den: 1 }
                        },
                        _ => FrameRate { num: 30, den: 1 },
                    }
                },
                _ => FrameRate { num: 30, den: 1 },
            }
        },
        None => FrameRate { num: 30, den: 1 },
    }
}

/// Reads a duration in seconds such as "60", "12.345678" or "1e2" into
/// milliseconds.
pub fn parse_duration_ms(s: &str) -> (r: i64)
    ensures
        r as int == duration_ms_of(s@),
{
    match parse_number(s) {
        Some((neg, Some(n), Some(d))) => {
            if d != 0 && n <= u64::MAX / 1000 {
                let q = n * 1000 / d;
                if q <= 0x7fff_ffff_ffff_ffff {
                    let v = q as i64;
                    if neg { -v } else { v }
                } else {
                    60000
                }
            } else {
                proof {
                    if d != 0 {
                        assert(n * 1000 > u64::MAX) by (nonlinear_arith) requires n > u64::MAX / 1000;
                    }
                }
                60000
            }
        },
        Some((neg, Some(n), None)) => {
            let ghost (_x, gn, gd) = number_of(s@).unwrap();
            if n <= u64::MAX / 1000 {
                proof {
                    assert(gn * 1000 <= u64::MAX) by (nonlinear_arith) requires gn <= u64::MAX / 1000;
                    assert((gn * 1000) / gd == 0) by (nonlinear_arith)
                        requires gn * 1000 <= u64::MAX, gd > u64::MAX;
                }
                0
            } else {
                proof {
                    assert(gn * 1000 > u64::MAX) by (nonlinear_arith) requires gn > u64::MAX / 1000;
                }
                60000
            }
        },
        Some((neg, None, _)) => {
            proof {
                let (_x, gn, gd) = number_of(s@).unwrap();
                assert(gn * 1000 > u64::MAX) by (nonlinear_arith) requires gn > u64::MAX;
            }
            60000
        },
        _ => 60000,
    }
}

} // verus!
