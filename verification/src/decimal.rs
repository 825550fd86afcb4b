//! Exact decimal numbers, as they are written in WKT and PROJJSON text.
//!
//! A number is kept as its sign, its significant digits and a power of ten,
//! so that what was written is what is compared and written back. Numbers are
//! read with the grammar of `f64::from_str` (`[+-]? digits [. digits] [e [+-]? digits]`)
//! and written in plain positional notation, as `f64`'s `Display` does.
use vstd::prelude::*;
use crate::text::{push_char, is_digit};

verus! {

/// The largest exponent literal (`e...`) that a number may carry.
pub const MAX_EXPONENT_LITERAL: u64 = 9999;

/// The largest number of characters in the digits of a number.
pub const MAX_MANTISSA_LEN: usize = 1_000_000_000;

/// A decimal number `(-1)^negative * digits * 10^exponent`.
///
/// The digits carry no leading or trailing zeros; zero has no digits and
/// exponent zero. The sign of zero is kept as written.
#[derive(Debug, PartialEq)]
pub struct Decimal {
    negative: bool,
    digits: Vec<u8>,
    exponent: i64,
}

/// The mathematical content of a [`Decimal`].
pub struct DecimalV {
    pub negative: bool,
    pub digits: Seq<u8>,
    pub exponent: int,
}

impl Decimal {
    #[verifier::type_invariant]
    spec fn inv(self) -> bool {
        &&& self.digits@.len() <= MAX_MANTISSA_LEN
        &&& -4_000_000_000 <= self.exponent <= 4_000_000_000
    }
}

impl Clone for Decimal {
    fn clone(&self) -> (r: Self)
        ensures
            r@ == self@,
    {
        proof {
            use_type_invariant(self);
        }
        Decimal { negative: self.negative, digits: self.digits.clone(), exponent: self.exponent }
    }
}

impl View for Decimal {
    type V = DecimalV;

    closed spec fn view(&self) -> DecimalV {
        DecimalV { negative: self.negative, digits: self.digits@, exponent: self.exponent as int }
    }
}

pub open spec fn digit_of(c: char) -> u8 {
    (c as u32 - '0' as u32) as u8
}

pub open spec fn char_of_digit(d: u8) -> char {
    if d == 0 {
        '0'
    } else if d == 1 {
        '1'
    } else if d == 2 {
        '2'
    } else if d == 3 {
        '3'
    } else if d == 4 {
        '4'
    } else if d == 5 {
        '5'
    } else if d == 6 {
        '6'
    } else if d == 7 {
        '7'
    } else if d == 8 {
        '8'
    } else {
        '9'
    }
}

/// The digits of `t` (made of digits and dots), dots left out.
pub open spec fn digits_of(t: Seq<char>) -> Seq<u8>
    decreases t.len(),
{
    if t.len() == 0 {
        Seq::empty()
    } else if t.last() == '.' {
        digits_of(t.drop_last())
    } else {
        digits_of(t.drop_last()).push(digit_of(t.last()))
    }
}

/// The number of dots in `t`.
pub open spec fn dots_of(t: Seq<char>) -> nat
    decreases t.len(),
{
    if t.len() == 0 {
        0
    } else if t.last() == '.' {
        dots_of(t.drop_last()) + 1
    } else {
        dots_of(t.drop_last())
    }
}

/// The number of digits after the dot of `t`.
pub open spec fn frac_len_of(t: Seq<char>) -> nat
    decreases t.len(),
{
    if t.len() == 0 || t.last() == '.' {
        0
    } else if dots_of(t.drop_last()) > 0 {
        frac_len_of(t.drop_last()) + 1
    } else {
        0
    }
}

/// The value of a run of decimal digit characters.
pub open spec fn nat_of(t: Seq<char>) -> nat
    decreases t.len(),
{
    if t.len() == 0 {
        0
    } else {
        nat_of(t.drop_last()) * 10 + digit_of(t.last()) as nat
    }
}

pub open spec fn strip_leading_zeros(d: Seq<u8>) -> Seq<u8>
    decreases d.len(),
{
    if d.len() > 0 && d[0] == 0 {
        strip_leading_zeros(d.drop_first())
    } else {
        d
    }
}

pub open spec fn trailing_zeros(d: Seq<u8>) -> nat
    decreases d.len(),
{
    if d.len() > 0 && d.last() == 0 {
        trailing_zeros(d.drop_last()) + 1
    } else {
        0
    }
}

/// The normal form of `digits * 10^exponent`.
pub open spec fn normalize(negative: bool, digits: Seq<u8>, exponent: int) -> DecimalV {
    let d = strip_leading_zeros(digits);
    let tz = trailing_zeros(d);
    if d.len() == 0 {
        DecimalV { negative, digits: Seq::empty(), exponent: 0 }
    } else {
        DecimalV { negative, digits: d.take(d.len() - tz), exponent: exponent + tz }
    }
}

pub open spec fn is_sign(c: char) -> bool {
    c == '+' || c == '-'
}

/// The end of the run of digits and dots starting at `p`.
pub open spec fn digit_dot_end(s: Seq<char>, p: int) -> int
    decreases s.len() - p,
{
    if 0 <= p < s.len() && (is_digit(s[p]) || s[p] == '.') {
        digit_dot_end(s, p + 1)
    } else {
        p
    }
}

/// The end of the run of digits starting at `p`.
pub open spec fn digit_end(s: Seq<char>, p: int) -> int
    decreases s.len() - p,
{
    if 0 <= p < s.len() && is_digit(s[p]) {
        digit_end(s, p + 1)
    } else {
        p
    }
}

/// Where the mantissa of a number token starting at `p` begins (after a sign).
pub open spec fn mant_start(s: Seq<char>, p: int) -> int {
    if 0 <= p < s.len() && is_sign(s[p]) {
        p + 1
    } else {
        p
    }
}

/// Whether the mantissa ending at `b` is followed by an exponent marker.
pub open spec fn has_exp(s: Seq<char>, b: int) -> bool {
    0 <= b < s.len() && (s[b] == 'e' || s[b] == 'E')
}

/// Where the exponent digits begin, after the marker at `b` and a sign.
pub open spec fn exp_digits_start(s: Seq<char>, b: int) -> int {
    if 0 <= b + 1 < s.len() && is_sign(s[b + 1]) {
        b + 2
    } else {
        b + 1
    }
}

/// The end of the number token starting at `p`: a sign, digits and dots, and
/// an exponent marker with a sign and digits.
pub open spec fn number_end(s: Seq<char>, p: int) -> int {
    let b = digit_dot_end(s, mant_start(s, p));
    if has_exp(s, b) {
        digit_end(s, exp_digits_start(s, b))
    } else {
        b
    }
}

/// The number written in `s[p..number_end(s, p)]`, when that token is a
/// number by the grammar of `f64::from_str` and its exponent literal and
/// length are within [`MAX_EXPONENT_LITERAL`] and [`MAX_MANTISSA_LEN`].
pub open spec fn number_value(s: Seq<char>, p: int) -> Option<DecimalV> {
    let a = mant_start(s, p);
    let b = digit_dot_end(s, a);
    let mant = s.subrange(a, b);
    let negative = a > p && s[p] == '-';
    let exp_ok = !has_exp(s, b) || digit_end(s, exp_digits_start(s, b)) > exp_digits_start(s, b);
    let e_start = exp_digits_start(s, b);
    let e_lit = if has_exp(s, b) {
        nat_of(s.subrange(e_start, digit_end(s, e_start)))
    } else {
        0
    };
    let e_neg = has_exp(s, b) && e_start == b + 2 && s[b + 1] == '-';
    if dots_of(mant) <= 1 && digits_of(mant).len() > 0 && exp_ok && e_lit <= MAX_EXPONENT_LITERAL
        && mant.len() <= MAX_MANTISSA_LEN {
        Some(
            normalize(
                negative,
                digits_of(mant),
                (if e_neg {
                    -e_lit
                } else {
                    e_lit as int
                }) - frac_len_of(mant),
            ),
        )
    } else {
        None
    }
}

/// The characters of a digit sequence.
pub open spec fn digit_text(d: Seq<u8>) -> Seq<char> {
    d.map_values(|x: u8| char_of_digit(x))
}

pub open spec fn zeros(n: nat) -> Seq<char> {
    Seq::new(n, |i: int| '0')
}

/// A number in plain positional notation, as `f64`'s `Display` writes it.
pub open spec fn decimal_text(d: DecimalV) -> Seq<char> {
    let sign = if d.negative {
        seq!['-']
    } else {
        Seq::empty()
    };
    let n = d.digits.len() as int;
    let e = d.exponent;
    let body = if n == 0 {
        seq!['0']
    } else if e >= 0 {
        digit_text(d.digits) + zeros(e as nat)
    } else if -e < n {
        digit_text(d.digits.take(n + e)) + seq!['.'] + digit_text(d.digits.skip(n + e))
    } else {
        seq!['0', '.'] + zeros((-e - n) as nat) + digit_text(d.digits)
    };
    sign + body
}

/// The value of a digit sequence.
pub open spec fn nat_of_digits(d: Seq<u8>) -> nat
    decreases d.len(),
{
    if d.len() == 0 {
        0
    } else {
        nat_of_digits(d.drop_last()) * 10 + d.last() as nat
    }
}

pub open spec fn pow10(n: nat) -> nat
    decreases n,
{
    if n == 0 {
        1
    } else {
        10 * pow10((n - 1) as nat)
    }
}

/// The magnitude of the integer part of a number.
pub open spec fn trunc_mag(d: DecimalV) -> nat {
    let n = d.digits.len() as int;
    if d.exponent >= 0 {
        nat_of_digits(d.digits) * pow10(d.exponent as nat)
    } else if n + d.exponent > 0 {
        nat_of_digits(d.digits.take(n + d.exponent))
    } else {
        0
    }
}

/// The integer part of a number, rounded toward zero.
pub open spec fn trunc(d: DecimalV) -> int {
    if d.negative {
        -trunc_mag(d)
    } else {
        trunc_mag(d) as int
    }
}

/// `x` clamped to `[lo, hi]`.
pub open spec fn clamp(x: int, lo: int, hi: int) -> int {
    if x < lo {
        lo
    } else if x > hi {
        hi
    } else {
        x
    }
}

/// `x` clamped to the range of `i32`, as a float-to-integer `as` cast does.
pub open spec fn saturate_i32(x: int) -> int {
    if x > i32::MAX {
        i32::MAX as int
    } else if x < i32::MIN {
        i32::MIN as int
    } else {
        x
    }
}

/// Whether two numbers are equal as values (zero equals negative zero).
pub open spec fn same_value(a: DecimalV, b: DecimalV) -> bool {
    (a.digits.len() == 0 && b.digits.len() == 0) || a == b
}

/// The decimal digits of `n`, most significant first; none for zero.
pub open spec fn digits_of_nat(n: nat) -> Seq<u8>
    decreases n,
{
    if n == 0 {
        Seq::empty()
    } else {
        digits_of_nat(n / 10).push((n % 10) as u8)
    }
}

/// The number equal to the integer `k`.
pub open spec fn of_int(k: int) -> DecimalV {
    normalize(k < 0, digits_of_nat((if k < 0 { -k } else { k }) as nat), 0)
}

proof fn lemma_digit_dot_end(s: Seq<char>, p: int)
    requires
        0 <= p <= s.len(),
    ensures
        p <= digit_dot_end(s, p) <= s.len(),
        forall|i: int| p <= i < digit_dot_end(s, p) ==> is_digit(#[trigger] s[i]) || s[i] == '.',
    decreases s.len() - p,
{
    if p < s.len() && (is_digit(s[p]) || s[p] == '.') {
        lemma_digit_dot_end(s, p + 1);
    }
}

proof fn lemma_digit_end(s: Seq<char>, p: int)
    requires
        0 <= p <= s.len(),
    ensures
        p <= digit_end(s, p) <= s.len(),
        forall|i: int| p <= i < digit_end(s, p) ==> is_digit(#[trigger] s[i]),
    decreases s.len() - p,
{
    if p < s.len() && is_digit(s[p]) {
        lemma_digit_end(s, p + 1);
    }
}

fn digit_char(d: u8) -> (c: char)
    ensures
        c == char_of_digit(d),
{
    if d == 0 {
        '0'
    } else if d == 1 {
        '1'
    } else if d == 2 {
        '2'
    } else if d == 3 {
        '3'
    } else if d == 4 {
        '4'
    } else if d == 5 {
        '5'
    } else if d == 6 {
        '6'
    } else if d == 7 {
        '7'
    } else if d == 8 {
        '8'
    } else {
        '9'
    }
}

fn digit_value(c: char) -> (d: u8)
    requires
        is_digit(c),
    ensures
        d == digit_of(c),
        d < 10,
{
    ((c as u32) - ('0' as u32)) as u8
}

/// Normalize `digits * 10^exponent`.
fn normalize_exec(negative: bool, digits: Vec<u8>, exponent: i64) -> (r: Decimal)
    requires
        -2_000_000_000 <= exponent <= 2_000_000_000,
        digits@.len() <= MAX_MANTISSA_LEN,
    ensures
        r@ == normalize(negative, digits@, exponent as int),
{
    let n = digits.len();
    let mut a: usize = 0;
    assert(digits@.skip(0) =~= digits@);
    while a < n && digits[a] == 0
        invariant
            a <= n,
            n == digits@.len(),
            strip_leading_zeros(digits@.skip(a as int)) == strip_leading_zeros(digits@),
        decreases n - a,
    {
        assert(digits@.skip(a as int).drop_first() =~= digits@.skip(a + 1));
        a = a + 1;
    }
    assert(strip_leading_zeros(digits@.skip(a as int)) == digits@.skip(a as int));
    let ghost d = digits@.skip(a as int);
    let mut b: usize = n;
    assert(d.take(n - a) =~= d);
    while b > a && digits[b - 1] == 0
        invariant
            a <= b <= n,
            n == digits@.len(),
            d == digits@.skip(a as int),
            trailing_zeros(d) == trailing_zeros(d.take(b - a)) + (n - b),
        decreases b - a,
    {
        assert(d.take(b - a).drop_last() =~= d.take(b - a - 1));
        b = b - 1;
    }
    assert(d.take(b - a) =~= d.take(b - a)) by {
        if b > a {
            assert(d.take(b - a).last() != 0);
        }
    };
    if a == n {
        assert(d.len() == 0);
        return Decimal { negative, digits: Vec::new(), exponent: 0 };
    }
    let mut out: Vec<u8> = Vec::new();
    let mut i = a;
    while i < b
        invariant
            a <= i <= b <= n,
            n == digits@.len(),
            out@ =~= digits@.subrange(a as int, i as int),
        decreases b - i,
    {
        out.push(digits[i]);
        i = i + 1;
    }
    proof {
        assert(trailing_zeros(d.take(b - a)) == 0) by {
            if b > a {
                assert(d.take(b - a).last() != 0);
            }
        };
        assert(out@ =~= d.take(d.len() - trailing_zeros(d)));
    }
    Decimal { negative, digits: out, exponent: exponent + ((n - b) as i64) }
}

impl Decimal {
    /// Read the number token `s[p..]` (see [`number_end`]), returning the
    /// number and the end of the token; `None` when the token is not a number.
    pub(crate) fn read(s: &[char], p: usize) -> (r: Option<(Decimal, usize)>)
        requires
            p <= s@.len(),
        ensures
            match number_value(s@, p as int) {
                Some(v) => r matches Some((d, e)) && d@ == v && e == number_end(s@, p as int),
                None => r is None,
            },
            r matches Some((d, e)) ==> p < e <= s@.len(),
    {
        let ghost sq = s@;
        let n = s.len();
        let a = if p < n && (s[p] == '+' || s[p] == '-') {
            p + 1
        } else {
            p
        };
        let negative = a > p && s[p] == '-';
        proof {
            lemma_digit_dot_end(sq, a as int);
        }
        let mut digits: Vec<u8> = Vec::new();
        let mut dots: usize = 0;
        let mut frac: usize = 0;
        let mut b = a;
        while b < n && (('0' <= s[b] && s[b] <= '9') || s[b] == '.')
            invariant
                a <= b <= n,
                n == sq.len(),
                s@ == sq,
                digit_dot_end(sq, b as int) == digit_dot_end(sq, a as int),
                digits@ == digits_of(sq.subrange(a as int, b as int)),
                dots == dots_of(sq.subrange(a as int, b as int)),
                frac == frac_len_of(sq.subrange(a as int, b as int)),
                dots <= b - a,
                frac <= b - a,
                digits@.len() <= b - a,
            decreases n - b,
        {
            let ghost t = sq.subrange(a as int, b + 1);
            assert(t.drop_last() =~= sq.subrange(a as int, b as int));
            if s[b] == '.' {
                dots = dots + 1;
                frac = 0;
            } else {
                digits.push(digit_value(s[b]));
                if dots > 0 {
                    frac = frac + 1;
                }
            }
            b = b + 1;
        }
        assert(digit_dot_end(sq, b as int) == b);
        assert(mant_start(sq, p as int) == a);
        if dots > 1 || digits.len() == 0 || b - a > MAX_MANTISSA_LEN {
            return None;
        }
        let mut e_neg = false;
        let mut e_lit: u64 = 0;
        let mut end = b;
        if b < n && (s[b] == 'e' || s[b] == 'E') {
            let c = if b + 1 < n && (s[b + 1] == '+' || s[b + 1] == '-') {
                b + 2
            } else {
                b + 1
            };
            e_neg = c > b + 1 && s[b + 1] == '-';
            proof {
                lemma_digit_end(sq, c as int);
            }
            let mut q = c;
            while q < n && '0' <= s[q] && s[q] <= '9'
                invariant
                    c <= q <= n,
                    b < n,
                    digit_dot_end(sq, b as int) == b,
                    digit_dot_end(sq, mant_start(sq, p as int)) == b,
                    has_exp(sq, b as int),
                    exp_digits_start(sq, b as int) == c,
                    n == sq.len(),
                    s@ == sq,
                    digit_end(sq, q as int) == digit_end(sq, c as int),
                    e_lit == nat_of(sq.subrange(c as int, q as int)),
                    e_lit <= MAX_EXPONENT_LITERAL,
                decreases n - q,
            {
                let ghost t = sq.subrange(c as int, q + 1);
                assert(t.drop_last() =~= sq.subrange(c as int, q as int));
                e_lit = e_lit * 10 + (digit_value(s[q]) as u64);
                if e_lit > MAX_EXPONENT_LITERAL {
                    proof {
                        lemma_digit_end(sq, q + 1);
                        lemma_nat_of_prefix(sq.subrange(c as int, digit_end(sq, c as int)), (q + 1 - c) as int);
                        assert(sq.subrange(c as int, digit_end(sq, c as int)).take(q + 1 - c) =~= t);
                        assert(e_lit == nat_of(t));
                        assert(digit_dot_end(sq, b as int) == b);
                        assert(has_exp(sq, b as int));
                        assert(exp_digits_start(sq, b as int) == c);
                        assert(nat_of(sq.subrange(c as int, digit_end(sq, c as int))) > MAX_EXPONENT_LITERAL);
                        assert(number_value(sq, p as int) is None);
                    }
                    return None;
                }
                q = q + 1;
            }
            if q == c {
                return None;
            }
            end = q;
        }
        let exponent: i64 = if e_neg {
            -(e_lit as i64)
        } else {
            e_lit as i64
        } - (frac as i64);
        let d = normalize_exec(negative, digits, exponent);
        Some((d, end))
    }
}

/// A prefix of a digit run has a value no larger than the whole run.
proof fn lemma_nat_of_prefix(t: Seq<char>, k: int)
    requires
        0 <= k <= t.len(),
    ensures
        nat_of(t.take(k)) <= nat_of(t),
    decreases t.len(),
{
    if k < t.len() {
        assert(t.drop_last().take(k) =~= t.take(k));
        lemma_nat_of_prefix(t.drop_last(), k);
    } else {
        assert(t.take(k) =~= t);
    }
}


/// The value `v` capped at `u32::MAX + 1`.
pub open spec fn capped(v: nat) -> nat {
    if v > 0x1_0000_0000 {
        0x1_0000_0000
    } else {
        v
    }
}

pub proof fn lemma_capped_step(x: nat, d: nat)
    ensures
        capped(10 * capped(x) + d) == capped(10 * x + d),
{
}

proof fn lemma_pow10_pos(n: nat)
    ensures
        pow10(n) >= 1,
    decreases n,
{
    if n > 0 {
        lemma_pow10_pos((n - 1) as nat);
    }
}

proof fn lemma_shift_zero(x: nat, j: nat)
    ensures
        x * pow10(j + 1) == 10 * (x * pow10(j)),
{
    assert(pow10(j + 1) == 10 * pow10(j));
    assert(x * (10 * pow10(j)) == 10 * (x * pow10(j))) by (nonlinear_arith);
}

proof fn lemma_capped_stays(x: nat, j: nat, k: nat)
    requires
        j <= k,
        capped(x * pow10(j)) == 0x1_0000_0000 || x == 0,
    ensures
        capped(x * pow10(k)) == capped(x * pow10(j)),
    decreases k - j,
{
    if j < k {
        lemma_shift_zero(x, j);
        lemma_capped_stays(x, j + 1, k);
    }
}

impl Decimal {
    /// Append the number, in plain positional notation, to `out`.
    pub fn write_text(&self, out: &mut String)
        ensures
            final(out)@ == old(out)@ + decimal_text(self@),
    {
        proof {
            use_type_invariant(self);
        }
        let ghost start = out@;
        if self.negative {
            push_char(out, '-');
        }
        let ghost signed = out@;
        let n = self.digits.len();
        if n == 0 {
            push_char(out, '0');
        } else if self.exponent >= 0 {
            push_digits(out, &self.digits, 0, n);
            push_zeros(out, self.exponent as u64);
            proof {
                assert(self.digits@.subrange(0, n as int) =~= self.digits@);
            }
        } else if (n as i64) + self.exponent > 0 {
            let k = ((n as i64) + self.exponent) as usize;
            push_digits(out, &self.digits, 0, k);
            push_char(out, '.');
            push_digits(out, &self.digits, k, n);
            proof {
                assert(self.digits@.subrange(0, k as int) =~= self.digits@.take(k as int));
                assert(self.digits@.subrange(k as int, n as int) =~= self.digits@.skip(k as int));
            }
        } else {
            push_char(out, '0');
            push_char(out, '.');
            push_zeros(out, (-self.exponent - (n as i64)) as u64);
            push_digits(out, &self.digits, 0, n);
            proof {
                assert(self.digits@.subrange(0, n as int) =~= self.digits@);
            }
        }
        proof {
            let d = self@;
            assert(d.digits == self.digits@ && d.exponent == self.exponent as int && d.negative
                == self.negative);
            assert(out@ =~= old(out)@ + decimal_text(d));
        }
    }

    /// The number as text, in plain positional notation.
    pub fn to_text(&self) -> (r: String)
        ensures
            r@ == decimal_text(self@),
    {
        let mut out = String::new();
        self.write_text(&mut out);
        proof {
            assert(out@ =~= decimal_text(self@));
        }
        out
    }

    /// The magnitude of the integer part, capped at `u32::MAX + 1`.
    fn int_magnitude_capped(&self) -> (r: u64)
        ensures
            r == capped(trunc_mag(self@)),
    {
        proof {
            use_type_invariant(self);
        }
        let n = self.digits.len();
        let e = self.exponent;
        let m: usize = if e >= 0 {
            n
        } else if (n as i64) + e > 0 {
            ((n as i64) + e) as usize
        } else {
            0
        };
        let mut acc: u64 = 0;
        let mut i: usize = 0;
        while i < m
            invariant
                i <= m <= n,
                n == self.digits@.len(),
                acc == capped(nat_of_digits(self.digits@.take(i as int))),
            decreases m - i,
        {
            assert(self.digits@.take(i + 1).drop_last() =~= self.digits@.take(i as int));
            let d = self.digits[i];
            proof {
                lemma_capped_step(nat_of_digits(self.digits@.take(i as int)), d as nat);
            }
            let v = acc * 10 + (d as u64);
            acc = if v > 0x1_0000_0000 {
                0x1_0000_0000
            } else {
                v
            };
            i = i + 1;
        }
        let ghost x = nat_of_digits(self.digits@.take(m as int));
        if e > 0 {
            let mut j: u64 = 0;
            assert(x * pow10(0) == x) by {
                assert(pow10(0) == 1);
            }
            while j < (e as u64) && acc != 0 && acc != 0x1_0000_0000
                invariant
                    j <= e,
                    acc == capped(x * pow10(j as nat)),
                decreases e - j,
            {
                proof {
                    lemma_shift_zero(x, j as nat);
                    lemma_capped_step(x * pow10(j as nat), 0);
                }
                let v = acc * 10;
                acc = if v > 0x1_0000_0000 {
                    0x1_0000_0000
                } else {
                    v
                };
                j = j + 1;
            }
            proof {
                if j < e {
                    if acc == 0 {
                        lemma_pow10_pos(j as nat);
                        assert(x == 0) by (nonlinear_arith)
                            requires
                                capped(x * pow10(j as nat)) == 0,
                                pow10(j as nat) >= 1,
                        ;
                    }
                    lemma_capped_stays(x, j as nat, e as nat);
                }
            }
        } else {
            assert(x * pow10(0) == x) by {
                assert(pow10(0) == 1);
            }
        }
        proof {
            assert(m == n ==> self.digits@.take(m as int) =~= self.digits@);
            assert(self@.digits == self.digits@ && self@.exponent == e as int);
        }
        acc
    }

    /// The integer part, rounded toward zero and clamped to the range of
    /// `i32`, as the cast `value as i32` of the number does.
    pub fn to_i32_saturating(&self) -> (r: i32)
        ensures
            r as int == saturate_i32(trunc(self@)),
    {
        let m = self.int_magnitude_capped();
        if self.negative {
            if m >= 0x8000_0000 {
                i32::MIN
            } else {
                -(m as i32)
            }
        } else {
            if m >= 0x8000_0000 {
                i32::MAX
            } else {
                m as i32
            }
        }
    }

    /// The integer part clamped to `0..=255`, as the cast `value as u8` does.
    pub fn to_u8_saturating(&self) -> (r: u8)
        ensures
            r as int == clamp(trunc(self@), 0, 255),
    {
        let m = self.int_magnitude_capped();
        if self.negative {
            0
        } else if m > 255 {
            255
        } else {
            m as u8
        }
    }

    /// The integer part clamped to the range of `u32`, as the cast `value as u32` does.
    pub fn to_u32_saturating(&self) -> (r: u32)
        ensures
            r as int == clamp(trunc(self@), 0, u32::MAX as int),
    {
        let m = self.int_magnitude_capped();
        if self.negative {
            0
        } else if m > 0xFFFF_FFFF {
            0xFFFF_FFFF
        } else {
            m as u32
        }
    }

    /// Whether the two numbers have the same value (zero equals negative zero).
    pub fn same_value_as(&self, other: &Decimal) -> (r: bool)
        ensures
            r == same_value(self@, other@),
    {
        if self.digits.len() == 0 && other.digits.len() == 0 {
            return true;
        }
        if self.negative != other.negative || self.exponent != other.exponent
            || self.digits.len() != other.digits.len() {
            return false;
        }
        let mut i: usize = 0;
        while i < self.digits.len()
            invariant
                i <= self.digits@.len(),
                self.digits@.len() == other.digits@.len(),
                forall|k: int| 0 <= k < i ==> self.digits@[k] == other.digits@[k],
            decreases self.digits@.len() - i,
        {
            if self.digits[i] != other.digits[i] {
                return false;
            }
            i = i + 1;
        }
        assert(self.digits@ =~= other.digits@);
        true
    }

    /// Whether the number is zero.
    pub fn is_zero(&self) -> (r: bool)
        ensures
            r == (self@.digits.len() == 0),
    {
        self.digits.len() == 0
    }

    /// The number equal to `k`.
    pub fn from_i32(k: i32) -> (r: Decimal)
        ensures
            r@ == of_int(k as int),
    {
        let negative = k < 0;
        let m: u64 = if k < 0 {
            (-(k as i64)) as u64
        } else {
            k as u64
        };
        let digits = nat_digits(m);
        proof {
            lemma_digits_len(m as nat);
            assert(m as int == (if (k as int) < 0 { -(k as int) } else { k as int }));
        }
        normalize_exec(negative, digits, 0)
    }
}

impl Decimal {
    /// The number `m * 10^exponent`.
    pub fn from_scaled(m: u64, exponent: i16) -> (r: Decimal)
        ensures
            r@ == normalize(false, digits_of_nat(m as nat), exponent as int),
    {
        let digits = nat_digits(m);
        proof {
            assert(pow10(20) == 100000000000000000000nat) by {
                reveal_with_fuel(pow10, 21);
            }
            lemma_digits_len_bound(m as nat, 20);
        }
        normalize_exec(false, digits, exponent as i64)
    }
}

/// The decimal digits of `m0`, most significant first; none for zero.
fn nat_digits(m0: u64) -> (r: Vec<u8>)
    ensures
        r@ == digits_of_nat(m0 as nat),
{
    let mut m = m0;
    let mut rev: Vec<u8> = Vec::new();
    while m > 0
        invariant
            m <= m0,
            digits_of_nat(m0 as nat) =~= digits_of_nat(m as nat) + rev@.reverse(),
        decreases m,
    {
        proof {
            assert(digits_of_nat(m as nat) == digits_of_nat((m / 10) as nat).push((m % 10) as u8));
            assert(rev@.push((m % 10) as u8).reverse() =~= seq![(m % 10) as u8] + rev@.reverse());
        }
        rev.push((m % 10) as u8);
        m = m / 10;
    }
    let mut digits: Vec<u8> = Vec::new();
    let mut i = rev.len();
    while i > 0
        invariant
            i <= rev@.len(),
            digits@ =~= rev@.reverse().take(rev@.len() - i),
        decreases i,
    {
        i = i - 1;
        digits.push(rev[i]);
    }
    proof {
        assert(digits@ =~= digits_of_nat(m0 as nat));
    }
    digits
}

/// A natural number written in decimal, as integer `Display` writes it.
pub open spec fn nat_text(n: nat) -> Seq<char> {
    if n == 0 {
        seq!['0']
    } else {
        digit_text(digits_of_nat(n))
    }
}

/// Append `n` written in decimal.
pub fn push_nat(out: &mut String, n: u64)
    ensures
        final(out)@ == old(out)@ + nat_text(n as nat),
{
    if n == 0 {
        push_char(out, '0');
        return;
    }
    let digits = nat_digits(n);
    push_digits(out, &digits, 0, digits.len());
    proof {
        assert(digits@.subrange(0, digits@.len() as int) =~= digits@);
    }
}

proof fn lemma_digits_len_bound(n: nat, k: nat)
    requires
        n < pow10(k),
    ensures
        digits_of_nat(n).len() <= k,
    decreases k,
{
    if n > 0 {
        assert(k > 0);
        assert(n / 10 < pow10((k - 1) as nat)) by (nonlinear_arith)
            requires
                n < pow10(k),
                pow10(k) == 10 * pow10((k - 1) as nat),
        ;
        lemma_digits_len_bound(n / 10, (k - 1) as nat);
    }
}

pub(crate) proof fn lemma_digits_len(n: nat)
    ensures
        digits_of_nat(n).len() <= 1 + n / 10,
    decreases n,
{
    if n > 0 {
        lemma_digits_len(n / 10);
        assert((n / 10) / 10 + 1 <= 1 + n / 10 || n / 10 == 0);
    }
}

/// Append `digits[a..b]` as characters.
fn push_digits(out: &mut String, digits: &Vec<u8>, a: usize, b: usize)
    requires
        a <= b <= digits@.len(),
    ensures
        final(out)@ == old(out)@ + digit_text(digits@.subrange(a as int, b as int)),
{
    let mut i = a;
    while i < b
        invariant
            a <= i <= b <= digits@.len(),
            out@ =~= old(out)@ + digit_text(digits@.subrange(a as int, i as int)),
        decreases b - i,
    {
        let c = digit_char(digits[i]);
        push_char(out, c);
        proof {
            assert(digit_text(digits@.subrange(a as int, i + 1)) =~= digit_text(
                digits@.subrange(a as int, i as int),
            ).push(c));
        }
        i = i + 1;
    }
}

/// Append `k` zeros.
fn push_zeros(out: &mut String, k: u64)
    ensures
        final(out)@ == old(out)@ + zeros(k as nat),
{
    let mut i: u64 = 0;
    while i < k
        invariant
            i <= k,
            out@ =~= old(out)@ + zeros(i as nat),
        decreases k - i,
    {
        push_char(out, '0');
        assert(zeros((i + 1) as nat) =~= zeros(i as nat).push('0'));
        i = i + 1;
    }
}

} // verus!
