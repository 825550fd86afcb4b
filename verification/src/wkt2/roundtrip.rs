//! Reading back what the WKT2 writer writes: each node, from quoted texts and
//! numbers up to base geodetic CRSs and conversions, is read as the value it
//! was written from, where that value is one the reader can give (its texts
//! hold no `"`, its numbers are in normal form).
use vstd::prelude::*;
use crate::decimal::{
    char_of_digit, decimal_text, digit_dot_end, digit_of, digit_text, digits_of, dots_of,
    frac_len_of, has_exp, mant_start, normalize, number_end, number_value, strip_leading_zeros,
    trailing_zeros, zeros, DecimalV, MAX_MANTISSA_LEN,
};
use crate::error::ParseErrorV;
use crate::crs::{BaseGeodeticCrsKeyword, DatumKeyword, UnitKeyword};
use crate::model::{
    AuthorityIdV, BaseGeodeticCrsV, BBoxV, DatumEnsembleV, DatumV, DeformationModelV, DynamicCrsV, EllipsoidV, EnsembleMemberV,
    GeodeticReferenceFrameV,
    IdentifierV, MapProjectionMethodV, MapProjectionParameterV, MapProjectionV, MeridianV, PrimeMeridianV, TemporalExtentV, UnitV, UsageV, VerticalExtentV,
};
use crate::wkt2::parse_crs::{
    is_pm_kw, sp_base_geodetic, sp_base_items, sp_dynamic_opt, sp_geo_datum, with_pm, BaseRest,
};
use crate::wkt2::parse_cs::{sp_conversion, sp_conversion_items, sp_meridian, sp_method, sp_parameter, ConversionRest};
use crate::wkt2::parse_datum::{
    datum_kw_of, sp_dynamic, sp_ellipsoid, sp_ensemble, sp_ensemble_items, sp_frame_items,
    sp_geodetic_frame, sp_member, sp_prime_meridian, EnsembleRest, FrameRest,
};
use crate::text::{
    is_digit, is_upper, is_ws, sp_at_close, sp_kw_number, sp_datetime_or_text, sp_item_end, sp_open_among, sp_trim, sp_close, sp_expect, sp_item_start, sp_keyword,
    sp_kw_quoted, sp_number, sp_number_or_text, sp_open_kw, sp_peek, sp_peek_kw, sp_quote_end,
    sp_quoted, sp_skip_ws, sp_upper_end, sp_ws_char_ws,
};
use crate::wkt2::parse_meta::{
    is_unit_kw, sp_bbox, sp_id_items, sp_id_node, sp_ids_items, sp_textent, sp_unit,
    sp_unit_ids_items, sp_unit_items, sp_usage, sp_usage_items, sp_vextent, unit_kw_of, IdRest,
    UnitRest, UsageRest,
};
use crate::wkt2::writer::{
    base_geodetic_kw_text, datum_kw_text, unit_kw_text, wr_aid, wr_base_geodetic, wr_datum, wr_opt_dynamic,
    wr_opt_pm, wr_anchor, wr_bbox, wr_conversion, wr_dynamic, wr_each,
    wr_ellipsoid, wr_ensemble, wr_grf, wr_id, wr_ids, wr_member, wr_members, wr_meridian, wr_method, wr_model, wr_opt_unit, wr_parameter, wr_parameters,
    wr_pm, wr_quoted, wr_temporal_value, wr_textent, wr_unit, wr_usage, wr_vextent,
};

verus! {

/// Whether `t` holds no `"`, so that it can be written between quotes.
pub open spec fn quotable(t: Seq<char>) -> bool {
    forall|i: int| 0 <= i < t.len() ==> t[i] != '"'
}

/// Whether a number is in the normal form the reader gives: digits below
/// ten, no leading or trailing zero digit, and zero with exponent zero.
pub open spec fn normal_decimal(d: DecimalV) -> bool {
    &&& forall|i: int| 0 <= i < d.digits.len() ==> d.digits[i] < 10
    &&& d.digits.len() > 0 ==> d.digits[0] != 0 && d.digits.last() != 0
    &&& d.digits.len() == 0 ==> d.exponent == 0
}

/// Whether `c` can go on a number token (so that it must not follow one).
pub open spec fn continues_number(c: char) -> bool {
    is_digit(c) || c == '.' || c == 'e' || c == 'E'
}

pub(crate) proof fn lemma_quote_end(s: Seq<char>, p: int, e: int)
    requires
        0 <= p <= e < s.len(),
        s[e] == '"',
        forall|i: int| p <= i < e ==> s[i] != '"',
    ensures
        sp_quote_end(s, p) == e,
    decreases e - p,
{
    if p < e {
        lemma_quote_end(s, p + 1, e);
    }
}

/// A text written between quotes is read back as that text, and the reader
/// stops right after the closing quote, whatever follows.
pub proof fn law_quoted_reads_back(acc: Seq<char>, t: Seq<char>, rest: Seq<char>)
    requires
        quotable(t),
    ensures
        sp_quoted(wr_quoted(acc, t) + rest, acc.len() as int) == Ok::<(Seq<char>, int), crate::error::ParseErrorV>(
            (t, wr_quoted(acc, t).len() as int),
        ),
{
    let s = wr_quoted(acc, t) + rest;
    let p = acc.len() as int;
    assert(s[p] == '"');
    assert forall|i: int| p + 1 <= i < p + 1 + t.len() implies s[i] != '"' by {
        assert(s[i] == t[i - p - 1]);
    }
    assert(s[p + 1 + t.len()] == '"');
    lemma_quote_end(s, p + 1, p + 1 + t.len());
    assert(s.subrange(p + 1, p + 1 + t.len()) =~= t);
}

pub(crate) proof fn lemma_digits_of_concat(a: Seq<char>, b: Seq<char>)
    ensures
        digits_of(a + b) == digits_of(a) + digits_of(b),
        dots_of(a + b) == dots_of(a) + dots_of(b),
    decreases b.len(),
{
    if b.len() == 0 {
        assert(a + b =~= a);
        assert(digits_of(a) + digits_of(b) =~= digits_of(a));
    } else {
        lemma_digits_of_concat(a, b.drop_last());
        assert((a + b).drop_last() =~= a + b.drop_last());
        assert((a + b).last() == b.last());
        assert(digits_of(a) + digits_of(b) =~= (digits_of(a) + digits_of(b.drop_last())).push(
            digit_of(b.last()),
        ) || b.last() == '.');
        if b.last() == '.' {
            assert(digits_of(a) + digits_of(b) =~= digits_of(a) + digits_of(b.drop_last()));
        }
    }
}

pub(crate) proof fn lemma_digit_round(x: u8)
    requires
        x < 10,
    ensures
        digit_of(char_of_digit(x)) == x,
        is_digit(char_of_digit(x)),
        char_of_digit(x) == '0' <==> x == 0,
{
}

pub(crate) proof fn lemma_digit_text(d: Seq<u8>)
    requires
        forall|i: int| 0 <= i < d.len() ==> d[i] < 10,
    ensures
        digits_of(digit_text(d)) == d,
        dots_of(digit_text(d)) == 0,
        forall|i: int| 0 <= i < d.len() ==> is_digit(#[trigger] digit_text(d)[i]),
        digit_text(d).len() == d.len(),
    decreases d.len(),
{
    if d.len() > 0 {
        lemma_digit_text(d.drop_last());
        assert(digit_text(d).drop_last() =~= digit_text(d.drop_last()));
        assert(digit_text(d).last() == char_of_digit(d.last()));
        lemma_digit_round(d.last());
        assert(digits_of(digit_text(d)) =~= d.drop_last().push(d.last()));
        assert forall|i: int| 0 <= i < d.len() implies is_digit(#[trigger] digit_text(d)[i]) by {
            lemma_digit_round(d[i]);
        }
    }
}

pub(crate) proof fn lemma_single(c: char)
    ensures
        digits_of(seq![c]) == (if c == '.' { Seq::<u8>::empty() } else { seq![digit_of(c)] }),
        dots_of(seq![c]) == (if c == '.' { 1nat } else { 0nat }),
{
    reveal_with_fuel(digits_of, 2);
    reveal_with_fuel(dots_of, 2);
    assert(seq![c].drop_last() =~= Seq::<char>::empty());
    assert(seq![c].last() == c);
    assert(Seq::<u8>::empty().push(digit_of(c)) =~= seq![digit_of(c)]);
}

pub(crate) proof fn lemma_zeros(n: nat)
    ensures
        digits_of(zeros(n)) == Seq::new(n, |i: int| 0u8),
        dots_of(zeros(n)) == 0,
        zeros(n).len() == n,
        forall|i: int| 0 <= i < n ==> #[trigger] zeros(n)[i] == '0',
    decreases n,
{
    if n > 0 {
        lemma_zeros((n - 1) as nat);
        assert(zeros(n).drop_last() =~= zeros((n - 1) as nat));
        assert(Seq::new(n, |i: int| 0u8) =~= Seq::new((n - 1) as nat, |i: int| 0u8).push(0u8));
    }
}

pub(crate) proof fn lemma_no_dots_frac(t: Seq<char>)
    requires
        dots_of(t) == 0,
    ensures
        frac_len_of(t) == 0,
{
    if t.len() > 0 && t.last() != '.' {
        assert(dots_of(t.drop_last()) == 0);
    }
}

/// After a text whose last character is the one dot, each further digit
/// counts once.
pub(crate) proof fn lemma_frac_after_dot(a: Seq<char>, b: Seq<char>)
    requires
        a.len() > 0,
        a.last() == '.',
        dots_of(b) == 0,
    ensures
        frac_len_of(a + b) == b.len(),
        dots_of(a + b) == dots_of(a),
    decreases b.len(),
{
    lemma_digits_of_concat(a, b);
    if b.len() == 0 {
        assert(a + b =~= a);
    } else {
        assert(b.last() != '.') by {
            if b.last() == '.' {
                assert(dots_of(b) == dots_of(b.drop_last()) + 1);
            }
        }
        assert(dots_of(b.drop_last()) == 0);
        lemma_frac_after_dot(a, b.drop_last());
        assert((a + b).drop_last() =~= a + b.drop_last());
        lemma_digits_of_concat(a, b.drop_last());
        assert(dots_of(a) > 0);
    }
}

pub(crate) proof fn lemma_strip_zeros(k: nat, d: Seq<u8>)
    requires
        d.len() == 0 || d[0] != 0,
    ensures
        strip_leading_zeros(Seq::new(k, |i: int| 0u8) + d) == d,
    decreases k,
{
    let z = Seq::new(k, |i: int| 0u8);
    if k == 0 {
        assert(z + d =~= d);
    } else {
        assert((z + d).drop_first() =~= Seq::new((k - 1) as nat, |i: int| 0u8) + d);
        lemma_strip_zeros((k - 1) as nat, d);
    }
}

pub(crate) proof fn lemma_trailing_zeros(d: Seq<u8>, k: nat)
    requires
        d.len() > 0,
        d.last() != 0,
    ensures
        trailing_zeros(d + Seq::new(k, |i: int| 0u8)) == k,
    decreases k,
{
    let z = Seq::new(k, |i: int| 0u8);
    if k == 0 {
        assert(d + z =~= d);
    } else {
        assert((d + z).drop_last() =~= d + Seq::new((k - 1) as nat, |i: int| 0u8));
        lemma_trailing_zeros(d, (k - 1) as nat);
    }
}

pub(crate) proof fn lemma_digit_dot_end(s: Seq<char>, a: int, b: int)
    requires
        0 <= a <= b <= s.len(),
        forall|i: int| a <= i < b ==> is_digit(s[i]) || s[i] == '.',
        b < s.len() ==> !continues_number(s[b]),
    ensures
        digit_dot_end(s, a) == b,
    decreases b - a,
{
    if a < b {
        lemma_digit_dot_end(s, a + 1, b);
    }
}

/// What the reader needs of a mantissa text: it starts with a digit, holds
/// digits and at most one dot, and reads as the number `d`.
pub open spec fn body_reads_as(body: Seq<char>, d: DecimalV) -> bool {
    &&& body.len() > 0
    &&& is_digit(body[0])
    &&& forall|i: int| 0 <= i < body.len() ==> is_digit(body[i]) || body[i] == '.'
    &&& dots_of(body) <= 1
    &&& digits_of(body).len() > 0
    &&& normalize(d.negative, digits_of(body), -(frac_len_of(body) as int)) == d
}

pub(crate) proof fn lemma_body_zero(d: DecimalV, body: Seq<char>)
    requires
        normal_decimal(d),
        d.digits.len() == 0,
        body == seq!['0'],
    ensures
        body_reads_as(body, d),
{
    lemma_single('0');
    assert(digits_of(body) =~= seq![0u8]);
    lemma_no_dots_frac(body);
    assert(seq![0u8].drop_first() =~= Seq::<u8>::empty());
    reveal_with_fuel(strip_leading_zeros, 2);
    assert(strip_leading_zeros(seq![0u8]) =~= Seq::<u8>::empty());
    assert(d.digits =~= Seq::<u8>::empty());
}

#[verifier::spinoff_prover]
pub(crate) proof fn lemma_body_int(d: DecimalV, body: Seq<char>)
    requires
        normal_decimal(d),
        d.digits.len() > 0,
        d.exponent >= 0,
        body == digit_text(d.digits) + zeros(d.exponent as nat),
    ensures
        body_reads_as(body, d),
{
    let n = d.digits.len() as int;
    let e = d.exponent;
    let dt = digit_text(d.digits);
    let zs = zeros(e as nat);
    lemma_digit_text(d.digits);
    lemma_zeros(e as nat);
    lemma_digits_of_concat(dt, zs);
    lemma_no_dots_frac(body);
    lemma_digit_round(d.digits[0]);
    assert(body[0] == dt[0]);
    assert forall|i: int| 0 <= i < body.len() implies is_digit(body[i]) || body[i] == '.' by {
        if i < n {
            assert(body[i] == dt[i]);
        } else {
            assert(body[i] == zs[i - n]);
        }
    }
    let ds = d.digits + Seq::new(e as nat, |i: int| 0u8);
    assert(digits_of(body) == ds);
    lemma_strip_zeros(0, ds);
    assert(Seq::new(0, |i: int| 0u8) + ds =~= ds);
    assert(ds[0] == d.digits[0]);
    lemma_trailing_zeros(d.digits, e as nat);
    assert(ds.take(ds.len() - e) =~= d.digits);
    let r = normalize(d.negative, ds, 0);
    assert(r.digits == d.digits);
    assert(r.exponent == e);
}

#[verifier::spinoff_prover]
pub(crate) proof fn lemma_body_mid(d: DecimalV, body: Seq<char>)
    requires
        normal_decimal(d),
        d.digits.len() > 0,
        d.exponent < 0,
        -d.exponent < d.digits.len(),
        body == digit_text(d.digits.take(d.digits.len() + d.exponent)) + seq!['.'] + digit_text(
            d.digits.skip(d.digits.len() + d.exponent),
        ),
    ensures
        body_reads_as(body, d),
{
    let n = d.digits.len() as int;
    let e = d.exponent;
    let m = n + e;
    let hi = d.digits.take(m);
    let lo = d.digits.skip(m);
    let ht = digit_text(hi);
    let lt = digit_text(lo);
    lemma_digit_text(hi);
    lemma_digit_text(lo);
    lemma_single('.');
    lemma_digits_of_concat(ht, seq!['.']);
    lemma_digits_of_concat(ht + seq!['.'], lt);
    lemma_frac_after_dot(ht + seq!['.'], lt);
    assert(hi + lo =~= d.digits);
    assert(digits_of(body) =~= d.digits);
    lemma_digit_round(d.digits[0]);
    assert(body[0] == ht[0]);
    assert forall|i: int| 0 <= i < body.len() implies is_digit(body[i]) || body[i] == '.' by {
        if i < m {
            assert(body[i] == ht[i]);
        } else if i > m {
            assert(body[i] == lt[i - m - 1]);
        }
    }
    lemma_strip_zeros(0, d.digits);
    assert(Seq::new(0, |i: int| 0u8) + d.digits =~= d.digits);
    lemma_trailing_zeros(d.digits, 0);
    assert(d.digits + Seq::new(0, |i: int| 0u8) =~= d.digits);
    assert(d.digits.take(n) =~= d.digits);
    assert(frac_len_of(body) == lt.len());
    let r = normalize(d.negative, d.digits, e);
    assert(r.digits == d.digits);
    assert(r.exponent == e);
}

#[verifier::spinoff_prover]
pub(crate) proof fn lemma_body_small(d: DecimalV, body: Seq<char>)
    requires
        normal_decimal(d),
        d.digits.len() > 0,
        -d.exponent >= d.digits.len(),
        body == seq!['0', '.'] + zeros((-d.exponent - d.digits.len()) as nat) + digit_text(d.digits),
    ensures
        body_reads_as(body, d),
{
    let n = d.digits.len() as int;
    let e = d.exponent;
    let k = (-e - n) as nat;
    let zs = zeros(k);
    let dt = digit_text(d.digits);
    let head = seq!['0', '.'];
    lemma_zeros(k);
    lemma_digit_text(d.digits);
    lemma_single('0');
    lemma_single('.');
    assert(head =~= seq!['0'] + seq!['.']);
    lemma_digits_of_concat(seq!['0'], seq!['.']);
    assert(digits_of(head) =~= seq![0u8]);
    lemma_digits_of_concat(head, zs);
    lemma_digits_of_concat(head + zs, dt);
    lemma_digits_of_concat(zs, dt);
    assert(head + zs + dt =~= head + (zs + dt));
    lemma_frac_after_dot(head, zs + dt);
    assert(body[0] == '0');
    assert forall|i: int| 0 <= i < body.len() implies is_digit(body[i]) || body[i] == '.' by {
        if i >= 2 + k {
            assert(body[i] == dt[i - 2 - k]);
        } else if i >= 2 {
            assert(body[i] == zs[i - 2]);
        }
    }
    let ds = seq![0u8] + Seq::new(k, |i: int| 0u8) + d.digits;
    assert(digits_of(body) =~= ds);
    assert(seq![0u8] + Seq::new(k, |i: int| 0u8) =~= Seq::new(k + 1, |i: int| 0u8));
    lemma_strip_zeros(k + 1, d.digits);
    lemma_trailing_zeros(d.digits, 0);
    assert(d.digits + Seq::new(0, |i: int| 0u8) =~= d.digits);
    assert(d.digits.take(n) =~= d.digits);
    assert((zs + dt).len() == k + n);
    let r = normalize(d.negative, ds, e);
    assert(r.digits == d.digits);
    assert(r.exponent == e);
}

/// The mantissa text `decimal_text` writes after the sign reads as the
/// number it was written from.
pub(crate) proof fn lemma_body(d: DecimalV, body: Seq<char>)
    requires
        normal_decimal(d),
        body == (if d.negative { decimal_text(d).drop_first() } else { decimal_text(d) }),
    ensures
        body_reads_as(body, d),
{
    let n = d.digits.len() as int;
    let e = d.exponent;
    let t = decimal_text(d);
    let sign = if d.negative { seq!['-'] } else { Seq::<char>::empty() };
    let core = if n == 0 {
        seq!['0']
    } else if e >= 0 {
        digit_text(d.digits) + zeros(e as nat)
    } else if -e < n {
        digit_text(d.digits.take(n + e)) + seq!['.'] + digit_text(d.digits.skip(n + e))
    } else {
        seq!['0', '.'] + zeros((-e - n) as nat) + digit_text(d.digits)
    };
    assert(t == sign + core);
    assert(body =~= core);
    if n == 0 {
        lemma_body_zero(d, body);
    } else if e >= 0 {
        lemma_body_int(d, body);
    } else if -e < n {
        lemma_body_mid(d, body);
    } else {
        lemma_body_small(d, body);
    }
}

/// A number written by the writer is read back as that number, and the
/// reader stops right after it, where the next character cannot continue a
/// number.
#[verifier::spinoff_prover]
pub proof fn law_number_reads_back(acc: Seq<char>, d: DecimalV, rest: Seq<char>)
    requires
        normal_decimal(d),
        decimal_text(d).len() <= MAX_MANTISSA_LEN,
        rest.len() > 0 ==> !continues_number(rest[0]),
    ensures
        sp_number(acc + decimal_text(d) + rest, acc.len() as int) == Ok::<(DecimalV, int), crate::error::ParseErrorV>(
            (d, (acc.len() + decimal_text(d).len()) as int),
        ),
{
    let s = acc + decimal_text(d) + rest;
    let p = acc.len() as int;
    let t = decimal_text(d);
    let body = if d.negative { t.drop_first() } else { t };
    lemma_body(d, body);
    let a = if d.negative { p + 1 } else { p };
    let b = p + t.len();
    assert(t.len() == (a - p) + body.len()) by {
        if d.negative {
            assert(t[0] == '-');
        }
    }
    assert(mant_start(s, p) == a) by {
        if d.negative {
            assert(s[p] == t[0]);
        } else {
            assert(s[p] == body[0]);
        }
    }
    assert forall|i: int| a <= i < b implies is_digit(s[i]) || s[i] == '.' by {
        assert(s[i] == body[i - a]);
    }
    if b < s.len() {
        assert(s[b] == rest[0]);
    }
    lemma_digit_dot_end(s, a, b);
    assert(s.subrange(a, b) =~= body);
    assert(!has_exp(s, b));
    assert(number_end(s, p) == b);
    assert(number_value(s, p) == Some(d)) by {
        if d.negative {
            assert(s[p] == '-');
        }
    }
}

/// `w` stands in `s` at `p`.
pub open spec fn at(s: Seq<char>, p: int, w: Seq<char>) -> bool {
    0 <= p && p + w.len() <= s.len() && s.subrange(p, p + w.len()) == w
}

/// `t` between double quotes.
pub open spec fn quoted(t: Seq<char>) -> Seq<char> {
    seq!['"'] + t + seq!['"']
}

pub(crate) proof fn lemma_at_char(s: Seq<char>, p: int, w: Seq<char>, i: int)
    requires
        at(s, p, w),
        0 <= i < w.len(),
    ensures
        s[p + i] == w[i],
{
    assert(s.subrange(p, p + w.len())[i] == s[p + i]);
}

pub(crate) proof fn lemma_quoted_at(s: Seq<char>, p: int, t: Seq<char>)
    requires
        quotable(t),
        at(s, p, quoted(t)),
    ensures
        sp_quoted(s, p) == Ok::<(Seq<char>, int), ParseErrorV>((t, p + t.len() + 2)),
{
    let w = quoted(t);
    lemma_at_char(s, p, w, 0);
    lemma_at_char(s, p, w, (t.len() + 1) as int);
    assert forall|i: int| p + 1 <= i < p + 1 + t.len() implies s[i] != '"' by {
        lemma_at_char(s, p, w, i - p);
        assert(w[i - p] == t[i - p - 1]);
    }
    lemma_quote_end(s, p + 1, p + 1 + t.len());
    assert(s.subrange(p + 1, p + 1 + t.len()) =~= s.subrange(p, p + w.len()).subrange(1, (1 + t.len()) as int));
    assert(w.subrange(1, (1 + t.len()) as int) =~= t);
}

/// Whether a number can be written and read back.
pub open spec fn writable_number(d: DecimalV) -> bool {
    normal_decimal(d) && decimal_text(d).len() <= MAX_MANTISSA_LEN
}

pub(crate) proof fn lemma_number_at(s: Seq<char>, p: int, d: DecimalV)
    requires
        writable_number(d),
        at(s, p, decimal_text(d)),
        p + decimal_text(d).len() < s.len() ==> !continues_number(s[p + decimal_text(d).len()]),
    ensures
        sp_number(s, p) == Ok::<(DecimalV, int), ParseErrorV>((d, p + decimal_text(d).len())),
        s[p] != '"' && !is_ws(s[p]) && !is_upper(s[p]),
{
    let t = decimal_text(d);
    let acc = s.subrange(0, p);
    let rest = s.subrange(p + t.len(), s.len() as int);
    assert(s =~= acc + t + rest);
    if rest.len() > 0 {
        assert(rest[0] == s[p + t.len()]);
    }
    law_number_reads_back(acc, d, rest);
    let body = if d.negative { t.drop_first() } else { t };
    lemma_body(d, body);
    lemma_at_char(s, p, t, 0);
    if !d.negative {
        assert(t[0] == body[0]);
    }
}

/// The text of an authority's code or version.
#[verifier::opaque]
pub open spec fn aid_text(a: AuthorityIdV) -> Seq<char> {
    match a {
        AuthorityIdV::Number(d) => decimal_text(d),
        AuthorityIdV::Text(t) => quoted(t),
    }
}

/// Whether a code or version can be written and read back.
pub open spec fn writable_aid(a: AuthorityIdV) -> bool {
    match a {
        AuthorityIdV::Number(d) => writable_number(d),
        AuthorityIdV::Text(t) => quotable(t),
    }
}

pub(crate) proof fn lemma_aid_at(s: Seq<char>, p: int, a: AuthorityIdV)
    requires
        writable_aid(a),
        at(s, p, aid_text(a)),
        p + aid_text(a).len() < s.len(),
        s[p + aid_text(a).len()] == ',' || s[p + aid_text(a).len()] == ']',
    ensures
        sp_number_or_text(s, p) == Ok::<(AuthorityIdV, int), ParseErrorV>((a, p + aid_text(a).len())),
        aid_text(a).len() > 0,
        !is_ws(s[p]) && !is_upper(s[p]),
{
    reveal(aid_text);
    match a {
        AuthorityIdV::Number(d) => {
            lemma_number_at(s, p, d);
            let body = if d.negative { decimal_text(d).drop_first() } else { decimal_text(d) };
            lemma_body(d, body);
        },
        AuthorityIdV::Text(t) => {
            lemma_at_char(s, p, quoted(t), 0);
            lemma_quoted_at(s, p, t);
        },
    }
}

pub(crate) proof fn lemma_wr_quoted(acc: Seq<char>, t: Seq<char>)
    ensures
        wr_quoted(acc, t) == acc + quoted(t),
{
    assert(wr_quoted(acc, t) =~= acc + quoted(t));
}

pub(crate) proof fn lemma_wr_aid(acc: Seq<char>, a: AuthorityIdV)
    ensures
        wr_aid(acc, a) == acc + aid_text(a),
{
    reveal(aid_text);
    match a {
        AuthorityIdV::Number(d) => {},
        AuthorityIdV::Text(t) => {
            lemma_wr_quoted(acc, t);
        },
    }
}

pub open spec fn version_text(v: Option<AuthorityIdV>) -> Seq<char> {
    match v {
        Some(v) => seq![','] + aid_text(v),
        None => Seq::empty(),
    }
}

pub open spec fn citation_text(c: Option<Seq<char>>) -> Seq<char> {
    match c {
        Some(c) => ",CITATION["@ + quoted(c) + seq![']'],
        None => Seq::empty(),
    }
}

pub open spec fn uri_text(u: Option<Seq<char>>) -> Seq<char> {
    match u {
        Some(u) => ",URI["@ + quoted(u) + seq![']'],
        None => Seq::empty(),
    }
}

/// The optional items of an identifier node and its closing bracket.
pub open spec fn id_tail(id: IdentifierV) -> Seq<char> {
    version_text(id.version) + citation_text(id.citation) + uri_text(id.uri) + seq![']']
}

/// The text of an identifier node.
pub open spec fn id_text(id: IdentifierV) -> Seq<char> {
    "ID["@ + quoted(id.authority_name) + seq![','] + aid_text(id.authority_unique_id) + id_tail(id)
}

/// Whether an identifier can be written and read back: its texts hold no
/// `"` and its numbers are in normal form.
pub open spec fn writable_id(id: IdentifierV) -> bool {
    &&& quotable(id.authority_name)
    &&& writable_aid(id.authority_unique_id)
    &&& (id.version matches Some(v) ==> writable_aid(v))
    &&& (id.citation matches Some(c) ==> quotable(c))
    &&& (id.uri matches Some(u) ==> quotable(u))
}

pub(crate) proof fn lemma_wr_id_head(acc: Seq<char>, id: IdentifierV)
    ensures
        wr_aid(wr_quoted(acc + "ID["@, id.authority_name).push(','), id.authority_unique_id) == acc + (
        "ID["@ + quoted(id.authority_name) + seq![','] + aid_text(id.authority_unique_id)),
{
    let x0 = wr_quoted(acc + "ID["@, id.authority_name).push(',');
    lemma_wr_quoted(acc + "ID["@, id.authority_name);
    assert(x0 =~= acc + ("ID["@ + quoted(id.authority_name) + seq![',']));
    lemma_wr_aid(x0, id.authority_unique_id);
    assert(x0 + aid_text(id.authority_unique_id) =~= acc + ("ID["@ + quoted(id.authority_name) + seq![',']
        + aid_text(id.authority_unique_id)));
}

pub(crate) proof fn lemma_assoc(x: Seq<char>, y: Seq<char>, z: Seq<char>)
    ensures
        (x + y) + z == x + (y + z),
{
    assert((x + y) + z =~= x + (y + z));
}

/// Appending an optional piece, as the writer does with a `match`.
pub(crate) proof fn lemma_step(acc: Seq<char>, x: Seq<char>, a: Seq<char>, piece: Seq<char>, b: Seq<char>)
    requires
        a == acc + x,
        b == a + piece,
    ensures
        b == acc + (x + piece),
{
    lemma_assoc(acc, x, piece);
}

#[verifier::spinoff_prover]
#[verifier::rlimit(30)]
pub(crate) proof fn lemma_wr_id(acc: Seq<char>, id: IdentifierV)
    ensures
        wr_id(acc, id) == acc + id_text(id),
{
    let head = "ID["@ + quoted(id.authority_name) + seq![','] + aid_text(id.authority_unique_id);
    let a0 = wr_aid(wr_quoted(acc + "ID["@, id.authority_name).push(','), id.authority_unique_id);
    lemma_wr_id_head(acc, id);
    let vt = version_text(id.version);
    let ct = citation_text(id.citation);
    let ut = uri_text(id.uri);
    let a1 = match id.version {
        Some(v) => wr_aid(a0.push(','), v),
        None => a0,
    };
    assert(a1 == a0 + vt) by {
        match id.version {
            Some(v) => {
                lemma_wr_aid(a0.push(','), v);
                assert(a0.push(',') + aid_text(v) =~= a0 + vt);
            },
            None => {
                assert(a0 =~= a0 + vt);
            },
        }
    }
    lemma_step(acc, head, a0, vt, a1);
    let a2 = match id.citation {
        Some(c) => wr_quoted(a1 + ",CITATION["@, c).push(']'),
        None => a1,
    };
    assert(a2 == a1 + ct) by {
        match id.citation {
            Some(c) => {
                lemma_wr_quoted(a1 + ",CITATION["@, c);
                assert((a1 + ",CITATION["@ + quoted(c)).push(']') =~= a1 + ct);
            },
            None => {
                assert(a1 =~= a1 + ct);
            },
        }
    }
    lemma_step(acc, head + vt, a1, ct, a2);
    let a3 = match id.uri {
        Some(u) => wr_quoted(a2 + ",URI["@, u).push(']'),
        None => a2,
    };
    assert(a3 == a2 + ut) by {
        match id.uri {
            Some(u) => {
                lemma_wr_quoted(a2 + ",URI["@, u);
                assert((a2 + ",URI["@ + quoted(u)).push(']') =~= a2 + ut);
            },
            None => {
                assert(a2 =~= a2 + ut);
            },
        }
    }
    lemma_step(acc, head + vt + ct, a2, ut, a3);
    assert(a3.push(']') =~= a3 + seq![']']);
    lemma_step(acc, head + vt + ct + ut, a3, seq![']'], a3.push(']'));
    assert(wr_id(acc, id) == a3.push(']'));
    assert(head + vt + ct + ut + seq![']'] =~= id_text(id));
}

pub(crate) proof fn lemma_skip_none(s: Seq<char>, p: int)
    requires
        0 <= p < s.len(),
        !is_ws(s[p]),
    ensures
        sp_skip_ws(s, p) == p,
{
}

pub(crate) proof fn lemma_upper_run(s: Seq<char>, p: int, e: int)
    requires
        0 <= p <= e < s.len(),
        forall|i: int| p <= i < e ==> is_upper(s[i]),
        !is_upper(s[e]),
    ensures
        sp_upper_end(s, p) == e,
    decreases e - p,
{
    if p < e {
        lemma_upper_run(s, p + 1, e);
    }
}

/// A keyword and its opening bracket, followed by a non-space, are read as
/// the keyword.
pub(crate) proof fn lemma_open_kw_at(s: Seq<char>, p: int, lit: Seq<char>)
    requires
        lit.len() > 0,
        forall|i: int| 0 <= i < lit.len() ==> is_upper(lit[i]),
        at(s, p, lit + seq!['[']),
        p + lit.len() + 1 < s.len(),
        !is_ws(s[p + lit.len() + 1]),
    ensures
        sp_open_kw(s, p, lit) == Ok::<int, ParseErrorV>(p + lit.len() + 1),
        sp_peek_kw(s, p) == lit,
        sp_keyword(s, p) == Ok::<(Seq<char>, int), ParseErrorV>((lit, p + lit.len())),
{
    let w = lit + seq!['['];
    assert forall|i: int| p <= i < p + lit.len() implies is_upper(s[i]) by {
        lemma_at_char(s, p, w, i - p);
    }
    lemma_at_char(s, p, w, lit.len() as int);
    lemma_upper_run(s, p, p + lit.len());
    assert(s.subrange(p, p + lit.len()) =~= s.subrange(p, p + w.len()).subrange(0, lit.len() as int));
    assert(w.subrange(0, lit.len() as int) =~= lit);
    lemma_skip_none(s, p + lit.len());
    lemma_skip_none(s, p + lit.len() + 1);
}

pub(crate) proof fn lemma_at_split(s: Seq<char>, p: int, a: Seq<char>, b: Seq<char>)
    requires
        at(s, p, a + b),
    ensures
        at(s, p, a),
        at(s, p + a.len(), b),
{
    assert(s.subrange(p, p + a.len()) =~= s.subrange(p, p + (a + b).len()).subrange(0, a.len() as int));
    assert(s.subrange(p + a.len(), p + a.len() + b.len()) =~= s.subrange(p, p + (a + b).len()).subrange(
        a.len() as int,
        (a + b).len() as int,
    ));
    assert((a + b).subrange(0, a.len() as int) =~= a);
    assert((a + b).subrange(a.len() as int, (a + b).len() as int) =~= b);
}

pub(crate) proof fn lemma_kw_texts()
    ensures
        "ID["@ == "ID"@ + seq!['['],
        ",CITATION["@ == seq![','] + ("CITATION"@ + seq!['[']),
        ",URI["@ == seq![','] + ("URI"@ + seq!['[']),
        forall|i: int| 0 <= i < 2 ==> is_upper(#[trigger] "ID"@[i]),
        forall|i: int| 0 <= i < 8 ==> is_upper(#[trigger] "CITATION"@[i]),
        forall|i: int| 0 <= i < 3 ==> is_upper(#[trigger] "URI"@[i]),
        "ID"@.len() == 2,
        "CITATION"@.len() == 8,
        "URI"@.len() == 3,
{
    reveal_strlit("ID[");
    reveal_strlit("ID");
    reveal_strlit(",CITATION[");
    reveal_strlit("CITATION");
    reveal_strlit(",URI[");
    reveal_strlit("URI");
    assert("ID["@ =~= "ID"@ + seq!['[']);
    assert(",CITATION["@ =~= seq![','] + ("CITATION"@ + seq!['[']));
    assert(",URI["@ =~= seq![','] + ("URI"@ + seq!['[']));
}

/// `KEYWORD["text"]` is read as the text.
pub(crate) proof fn lemma_kw_quoted_at(s: Seq<char>, p: int, lit: Seq<char>, t: Seq<char>)
    requires
        lit.len() > 0,
        forall|i: int| 0 <= i < lit.len() ==> is_upper(lit[i]),
        quotable(t),
        at(s, p, lit + seq!['['] + quoted(t) + seq![']']),
    ensures
        sp_kw_quoted(s, p, lit) == Ok::<(Seq<char>, int), ParseErrorV>(
            (t, p + lit.len() + t.len() + 4),
        ),
        sp_peek_kw(s, p) == lit,
{
    let q = p + lit.len() + 1;
    lemma_at_split(s, p, lit + seq!['['] + quoted(t), seq![']']);
    lemma_at_split(s, p, lit + seq!['['], quoted(t));
    lemma_at_char(s, q, quoted(t), 0);
    lemma_open_kw_at(s, p, lit);
    lemma_quoted_at(s, q, t);
    lemma_at_char(s, q + t.len() + 2, seq![']'], 0);
    lemma_skip_none(s, q + t.len() + 2);
}

pub(crate) proof fn lemma_item_start_at(s: Seq<char>, p: int)
    requires
        0 <= p < s.len() - 1,
        s[p] == ',',
        !is_ws(s[p + 1]),
    ensures
        sp_item_start(s, p) == Ok::<int, ParseErrorV>(p + 1),
        !sp_at_close(s, p),
{
    lemma_skip_none(s, p);
    lemma_skip_none(s, p + 1);
}

pub(crate) proof fn lemma_items_close(s: Seq<char>, p: int, st: IdRest)
    requires
        0 <= p < s.len(),
        s[p] == ']',
    ensures
        sp_id_items(s, p, st) == Ok::<(IdRest, int), ParseErrorV>((st, p)),
{
    lemma_skip_none(s, p);
}

#[verifier::spinoff_prover]
pub(crate) proof fn lemma_items_version(s: Seq<char>, p: int, st: IdRest, v: AuthorityIdV)
    requires
        writable_aid(v),
        at(s, p, seq![','] + aid_text(v)),
        p + 1 + aid_text(v).len() < s.len(),
        s[p + 1 + aid_text(v).len()] == ',' || s[p + 1 + aid_text(v).len()] == ']',
    ensures
        sp_id_items(s, p, st) == sp_id_items(s, p + 1 + aid_text(v).len(), (Some(v), st.1, st.2)),
{
    lemma_kw_texts();
    lemma_at_split(s, p, seq![','], aid_text(v));
    lemma_at_char(s, p, seq![','], 0);
    lemma_aid_at(s, p + 1, v);
    lemma_item_start_at(s, p);
    assert(s.subrange(p + 1, p + 1) =~= Seq::<char>::empty());
    assert(sp_peek_kw(s, p + 1) =~= Seq::<char>::empty());
    assert(Seq::<char>::empty() != "CITATION"@);
    assert(Seq::<char>::empty() != "URI"@);
}

#[verifier::spinoff_prover]
pub(crate) proof fn lemma_items_citation(s: Seq<char>, p: int, st: IdRest, c: Seq<char>)
    requires
        quotable(c),
        at(s, p, citation_text(Some(c))),
    ensures
        sp_id_items(s, p, st) == sp_id_items(s, p + citation_text(Some(c)).len(), (st.0, Some(c), st.2)),
{
    lemma_kw_texts();
    let node = "CITATION"@ + seq!['['] + quoted(c) + seq![']'];
    assert(citation_text(Some(c)) =~= seq![','] + node);
    lemma_at_split(s, p, seq![','], node);
    lemma_at_char(s, p, seq![','], 0);
    lemma_at_char(s, p + 1, node, 0);
    lemma_item_start_at(s, p);
    lemma_kw_quoted_at(s, p + 1, "CITATION"@, c);
}

#[verifier::spinoff_prover]
pub(crate) proof fn lemma_items_uri(s: Seq<char>, p: int, st: IdRest, u: Seq<char>)
    requires
        quotable(u),
        at(s, p, uri_text(Some(u))),
    ensures
        sp_id_items(s, p, st) == sp_id_items(s, p + uri_text(Some(u)).len(), (st.0, st.1, Some(u))),
{
    lemma_kw_texts();
    let node = "URI"@ + seq!['['] + quoted(u) + seq![']'];
    assert(uri_text(Some(u)) =~= seq![','] + node);
    lemma_at_split(s, p, seq![','], node);
    lemma_at_char(s, p, seq![','], 0);
    lemma_at_char(s, p + 1, node, 0);
    lemma_item_start_at(s, p);
    lemma_kw_quoted_at(s, p + 1, "URI"@, u);
    assert("URI"@ != "CITATION"@);
}

/// The first character of a text and what follows it, when it is not empty.
pub(crate) proof fn lemma_first_of(a: Seq<char>, b: Seq<char>)
    requires
        a.len() > 0,
    ensures
        (a + b)[0] == a[0],
{
}

/// The identifier items, from the version to the closing bracket, are read as
/// the identifier's version, citation and URI.
#[verifier::spinoff_prover]
#[verifier::rlimit(30)]
pub(crate) proof fn lemma_id_tail(s: Seq<char>, p: int, id: IdentifierV)
    requires
        writable_id(id),
        at(s, p, id_tail(id)),
    ensures
        sp_id_items(s, p, (None, None, None)) == Ok::<(IdRest, int), ParseErrorV>(
            ((id.version, id.citation, id.uri), p + id_tail(id).len() - 1),
        ),
{
    lemma_kw_texts();
    let vt = version_text(id.version);
    let ct = citation_text(id.citation);
    let ut = uri_text(id.uri);
    let cl = seq![']'];
    assert(id_tail(id) =~= vt + (ct + (ut + cl)));
    lemma_at_split(s, p, vt, ct + (ut + cl));
    let p1 = p + vt.len();
    lemma_at_split(s, p1, ct, ut + cl);
    let p2 = p1 + ct.len();
    lemma_at_split(s, p2, ut, cl);
    let p3 = p2 + ut.len();
    lemma_at_char(s, p3, cl, 0);
    lemma_items_close(s, p3, (id.version, id.citation, id.uri));
    match id.uri {
        Some(u) => {
            lemma_items_uri(s, p2, (id.version, id.citation, None), u);
        },
        None => {},
    }
    match id.citation {
        Some(c) => {
            lemma_items_citation(s, p1, (id.version, None, None), c);
        },
        None => {},
    }
    match id.version {
        Some(v) => {
            lemma_at_char(s, p1, ct + (ut + cl), 0);
            lemma_id_after_version(id);
            lemma_items_version(s, p, (None, None, None), v);
        },
        None => {},
    }
}

/// After an identifier's version come a comma or the closing bracket.
pub(crate) proof fn lemma_id_after_version(id: IdentifierV)
    ensures
        ({
            let t = citation_text(id.citation) + (uri_text(id.uri) + seq![']']);
            t.len() > 0 && (t[0] == ',' || t[0] == ']')
        }),
{
    lemma_kw_texts();
    let ct = citation_text(id.citation);
    let ut = uri_text(id.uri);
    let cl = seq![']'];
    if ct.len() > 0 {
        lemma_first_of(ct, ut + cl);
        assert(ct[0] == ",CITATION["@[0]);
    } else if ut.len() > 0 {
        assert(ct + (ut + cl) =~= ut + cl);
        lemma_first_of(ut, cl);
        assert(ut[0] == ",URI["@[0]);
    } else {
        assert(ct + (ut + cl) =~= cl);
    }
}

/// The identifier items start with a comma or the closing bracket, and end
/// with that bracket.
pub(crate) proof fn lemma_id_tail_ends(id: IdentifierV)
    ensures
        id_tail(id).len() > 0,
        id_tail(id)[0] == ',' || id_tail(id)[0] == ']',
        id_tail(id)[id_tail(id).len() - 1] == ']',
{
    lemma_kw_texts();
    let vt = version_text(id.version);
    let ct = citation_text(id.citation);
    let ut = uri_text(id.uri);
    let tail = id_tail(id);
    assert(tail =~= vt + (ct + (ut + seq![']'])));
    if vt.len() > 0 {
        lemma_first_of(vt, ct + (ut + seq![']']));
    } else if ct.len() > 0 {
        assert(tail =~= ct + (ut + seq![']']));
        lemma_first_of(ct, ut + seq![']']);
        assert(ct[0] == ",CITATION["@[0]);
    } else if ut.len() > 0 {
        assert(tail =~= ut + seq![']']);
        lemma_first_of(ut, seq![']']);
        assert(ut[0] == ",URI["@[0]);
    } else {
        assert(tail =~= seq![']']);
    }
}

/// An identifier node standing at `p` is read as the identifier.
#[verifier::spinoff_prover]
pub(crate) proof fn lemma_id_node_at(s: Seq<char>, p: int, id: IdentifierV)
    requires
        writable_id(id),
        at(s, p, id_text(id)),
    ensures
        sp_id_node(s, p) == Ok::<(IdentifierV, int), ParseErrorV>((id, p + id_text(id).len())),
{
    lemma_kw_texts();
    let name = id.authority_name;
    let uid = id.authority_unique_id;
    let w = id_text(id);
    let tail = id_tail(id);
    assert(w =~= ("ID"@ + seq!['[']) + (quoted(name) + (seq![','] + (aid_text(uid) + tail))));
    lemma_at_split(s, p, "ID"@ + seq!['['], quoted(name) + (seq![','] + (aid_text(uid) + tail)));
    let p1 = p + 3;
    lemma_at_split(s, p1, quoted(name), seq![','] + (aid_text(uid) + tail));
    let p2 = p1 + name.len() + 2;
    lemma_at_split(s, p2, seq![','], aid_text(uid) + tail);
    let p3 = p2 + 1;
    lemma_at_split(s, p3, aid_text(uid), tail);
    let p4 = p3 + aid_text(uid).len();
    lemma_id_tail_ends(id);
    lemma_at_char(s, p1, quoted(name), 0);
    lemma_at_char(s, p2, seq![','], 0);
    lemma_at_char(s, p4, tail, 0);
    let p5 = p4 + tail.len() - 1;
    lemma_at_char(s, p4, tail, tail.len() - 1);
    lemma_open_kw_at(s, p, "ID"@);
    lemma_quoted_at(s, p1, name);
    lemma_aid_at(s, p3, uid);
    lemma_skip_none(s, p2);
    lemma_skip_none(s, p3);
    lemma_id_tail(s, p4, id);
    lemma_skip_none(s, p5);
    assert(p5 + 1 == p + w.len());
}

/// An identifier written by the writer is read back as that identifier, and
/// the reader stops right after its closing bracket, whatever follows.
pub proof fn law_id_reads_back(acc: Seq<char>, id: IdentifierV, rest: Seq<char>)
    requires
        writable_id(id),
    ensures
        sp_id_node(wr_id(acc, id) + rest, acc.len() as int) == Ok::<(IdentifierV, int), ParseErrorV>(
            (id, wr_id(acc, id).len() as int),
        ),
{
    lemma_wr_id(acc, id);
    let s = wr_id(acc, id) + rest;
    let p = acc.len() as int;
    let w = id_text(id);
    assert(s.subrange(p, p + w.len()) =~= w);
    lemma_id_node_at(s, p, id);
}

/// The text of a list of identifiers, each after a comma.
pub open spec fn ids_text(ids: Seq<IdentifierV>) -> Seq<char>
    decreases ids.len(),
{
    if ids.len() == 0 {
        Seq::empty()
    } else {
        ids_text(ids.drop_last()) + (seq![','] + id_text(ids.last()))
    }
}

#[verifier::spinoff_prover]
pub(crate) proof fn lemma_wr_ids(acc: Seq<char>, ids: Seq<IdentifierV>)
    ensures
        wr_ids(acc, ids) == acc + ids_text(ids),
    decreases ids.len(),
{
    let f = |a: Seq<char>, id: IdentifierV| wr_id(a, id);
    if ids.len() == 0 {
        assert(acc + ids_text(ids) =~= acc);
    } else {
        lemma_wr_ids(acc, ids.drop_last());
        let x = wr_each(acc, ids.drop_last(), f);
        assert(x == wr_ids(acc, ids.drop_last()));
        lemma_wr_id(x.push(','), ids.last());
        assert(x.push(',') =~= x + seq![',']);
        lemma_assoc(x, seq![','], id_text(ids.last()));
        lemma_assoc(acc, ids_text(ids.drop_last()), seq![','] + id_text(ids.last()));
    }
}

/// Whether every identifier of a list can be written and read back.
pub open spec fn writable_ids(ids: Seq<IdentifierV>) -> bool {
    forall|i: int| 0 <= i < ids.len() ==> writable_id(#[trigger] ids[i])
}

/// The text of a unit's optional conversion factor.
pub open spec fn factor_text(f: Option<DecimalV>) -> Seq<char> {
    match f {
        Some(f) => seq![','] + decimal_text(f),
        None => Seq::empty(),
    }
}

/// The text of a unit node.
pub open spec fn unit_text(u: UnitV) -> Seq<char> {
    unit_kw_text(u.keyword) + seq!['['] + quoted(u.name) + factor_text(u.conversion_factor) + ids_text(
        u.identifiers,
    ) + seq![']']
}

/// Whether a unit can be written and read back.
pub open spec fn writable_unit(u: UnitV) -> bool {
    &&& quotable(u.name)
    &&& (u.conversion_factor matches Some(f) ==> writable_number(f))
    &&& writable_ids(u.identifiers)
}

#[verifier::spinoff_prover]
pub(crate) proof fn lemma_wr_unit(acc: Seq<char>, u: UnitV)
    ensures
        wr_unit(acc, u) == acc + unit_text(u),
{
    let kt = unit_kw_text(u.keyword);
    let a0 = wr_quoted((acc + kt).push('['), u.name);
    lemma_wr_quoted((acc + kt).push('['), u.name);
    let head = kt + seq!['['] + quoted(u.name);
    assert(a0 =~= acc + head);
    let ft = factor_text(u.conversion_factor);
    let a1 = match u.conversion_factor {
        Some(f) => a0.push(',') + decimal_text(f),
        None => a0,
    };
    assert(a1 == a0 + ft) by {
        match u.conversion_factor {
            Some(f) => {
                assert(a0.push(',') + decimal_text(f) =~= a0 + ft);
            },
            None => {
                assert(a0 =~= a0 + ft);
            },
        }
    }
    lemma_step(acc, head, a0, ft, a1);
    lemma_wr_ids(a1, u.identifiers);
    let it = ids_text(u.identifiers);
    lemma_step(acc, head + ft, a1, it, wr_ids(a1, u.identifiers));
    let a2 = wr_ids(a1, u.identifiers);
    assert(a2.push(']') =~= a2 + seq![']']);
    lemma_step(acc, head + ft + it, a2, seq![']'], a2.push(']'));
    assert(head + ft + it + seq![']'] =~= unit_text(u));
}

/// The six unit keywords are runs of uppercase letters that the reader takes
/// for unit keywords, each naming its own keyword.
pub(crate) proof fn lemma_unit_kw(k: UnitKeyword)
    ensures
        unit_kw_text(k).len() > 0,
        forall|i: int| 0 <= i < unit_kw_text(k).len() ==> is_upper(#[trigger] unit_kw_text(k)[i]),
        is_unit_kw(unit_kw_text(k)),
        unit_kw_of(unit_kw_text(k)) == k,
{
    reveal_strlit("ANGLEUNIT");
    reveal_strlit("LENGTHUNIT");
    reveal_strlit("PARAMETRICUNIT");
    reveal_strlit("SCALEUNIT");
    reveal_strlit("TIMEUNIT");
    reveal_strlit("TEMPORALQUANTITY");
    reveal_strlit("UNIT");
    let a = "ANGLEUNIT"@;
    let l = "LENGTHUNIT"@;
    let m = "PARAMETRICUNIT"@;
    let c = "SCALEUNIT"@;
    let t = "TIMEUNIT"@;
    let u = "UNIT"@;
    assert(a.len() == 9 && l.len() == 10 && m.len() == 14 && c.len() == 9 && t.len() == 8 && u.len() == 4);
    assert(a[0] != c[0]);
    match k {
        UnitKeyword::AngleUnit => {},
        UnitKeyword::LengthUnit => {
            assert(l != a);
        },
        UnitKeyword::ParametricUnit => {
            assert(m != a && m != l);
        },
        UnitKeyword::ScaleUnit => {
            assert(c != a && c != l && c != m);
        },
        UnitKeyword::TimeUnit => {
            assert(t != a && t != l && t != m && t != c && t != u);
        },
        UnitKeyword::Unit => {
            assert(u != a && u != l && u != m && u != c);
        },
    }
}

/// The identifiers of a unit, each after a comma, from the `k`-th on, are
/// read into the unit's state.
#[verifier::spinoff_prover]
pub(crate) proof fn lemma_unit_ids(s: Seq<char>, p: int, ids: Seq<IdentifierV>, k: int, f: Option<DecimalV>)
    requires
        writable_ids(ids),
        0 <= k <= ids.len(),
        at(s, p, ids_text(ids) + seq![']']),
    ensures
        sp_unit_items(s, p + ids_text(ids.take(k)).len(), (f, ids.take(k))) == Ok::<(UnitRest, int), ParseErrorV>(
            ((f, ids), p + ids_text(ids).len()),
        ),
    decreases ids.len() - k,
{
    lemma_kw_texts();
    let q = p + ids_text(ids.take(k)).len();
    if k == ids.len() {
        assert(ids.take(k) =~= ids);
        lemma_at_split(s, p, ids_text(ids), seq![']']);
        lemma_at_char(s, p + ids_text(ids).len(), seq![']'], 0);
        lemma_skip_none(s, q);
    } else {
        let id = ids[k];
        assert(writable_id(id));
        let t1 = ids.take(k + 1);
        assert(t1.drop_last() =~= ids.take(k));
        assert(t1.last() == id);
        let piece = seq![','] + id_text(id);
        assert(ids_text(t1) == ids_text(ids.take(k)) + piece);
        lemma_ids_prefix(ids, k + 1);
        let after = ids_text(ids).subrange(ids_text(t1).len() as int, ids_text(ids).len() as int);
        let b = ids_text(t1);
        assert(ids_text(ids) =~= ids_text(ids).subrange(0, b.len() as int) + after);
        assert(ids_text(ids) =~= ids_text(ids.take(k)) + (piece + after));
        assert(ids_text(ids) + seq![']'] =~= ids_text(ids.take(k)) + (piece + (after + seq![']'])));
        lemma_at_split(s, p, ids_text(ids.take(k)), piece + (after + seq![']']));
        lemma_at_split(s, q, piece, after + seq![']']);
        lemma_at_split(s, q, seq![','], id_text(id));
        lemma_at_char(s, q, seq![','], 0);
        let w = id_text(id);
        assert(w =~= ("ID"@ + seq!['[']) + (w.subrange(3, w.len() as int)));
        lemma_at_split(s, q + 1, "ID"@ + seq!['['], w.subrange(3, w.len() as int));
        lemma_at_char(s, q + 1, "ID"@ + seq!['['], 0);
        lemma_at_char(s, q + 1, w, 3);
        assert(w[3] == '"');
        lemma_item_start_at(s, q);
        lemma_open_kw_at(s, q + 1, "ID"@);
        lemma_id_node_at(s, q + 1, id);
        lemma_unit_ids(s, p, ids, k + 1, f);
        assert(ids.take(k).push(id) =~= t1);
    }
}

/// The text of the first `k` identifiers is where the text of all begins.
#[verifier::spinoff_prover]
pub(crate) proof fn lemma_ids_prefix(ids: Seq<IdentifierV>, k: int)
    requires
        0 <= k <= ids.len(),
    ensures
        ids_text(ids.take(k)).len() <= ids_text(ids).len(),
        ids_text(ids).subrange(0, ids_text(ids.take(k)).len() as int) == ids_text(ids.take(k)),
    decreases ids.len() - k,
{
    if k == ids.len() {
        assert(ids.take(k) =~= ids);
        assert(ids_text(ids).subrange(0, ids_text(ids).len() as int) =~= ids_text(ids));
    } else {
        lemma_ids_prefix(ids, k + 1);
        let t1 = ids.take(k + 1);
        assert(t1.drop_last() =~= ids.take(k));
        let a = ids_text(ids.take(k));
        let b = ids_text(t1);
        assert(b == a + (seq![','] + id_text(t1.last())));
        assert(ids_text(ids).subrange(0, a.len() as int) =~= ids_text(ids).subrange(0, b.len() as int).subrange(
            0,
            a.len() as int,
        ));
        assert(b.subrange(0, a.len() as int) =~= a);
    }
}

/// A unit node standing at `p` is read as the unit.
#[verifier::rlimit(40)]
#[verifier::spinoff_prover]
pub(crate) proof fn lemma_unit_at(s: Seq<char>, p: int, u: UnitV)
    requires
        writable_unit(u),
        at(s, p, unit_text(u)),
    ensures
        sp_unit(s, p) == Ok::<(UnitV, int), ParseErrorV>((u, p + unit_text(u).len())),
{
    let kt = unit_kw_text(u.keyword);
    lemma_unit_kw(u.keyword);
    let ft = factor_text(u.conversion_factor);
    let it = ids_text(u.identifiers);
    let w = unit_text(u);
    assert(w =~= (kt + seq!['[']) + (quoted(u.name) + (ft + (it + seq![']']))));
    lemma_at_split(s, p, kt + seq!['['], quoted(u.name) + (ft + (it + seq![']'])));
    let p1 = p + kt.len() + 1;
    lemma_at_split(s, p1, quoted(u.name), ft + (it + seq![']']));
    let p2 = p1 + u.name.len() + 2;
    lemma_at_split(s, p2, ft, it + seq![']']);
    let p3 = p2 + ft.len();
    lemma_at_char(s, p1, quoted(u.name), 0);
    lemma_open_kw_at(s, p, kt);
    assert(sp_keyword(s, p) == Ok::<(Seq<char>, int), ParseErrorV>((kt, p + kt.len())));
    lemma_quoted_at(s, p1, u.name);
    assert(it.len() == 0 ==> it + seq![']'] =~= seq![']']);
    lemma_at_char(s, p3, it + seq![']'], 0);
    assert((it + seq![']'])[0] == ',' || (it + seq![']'])[0] == ']') by {
        if it.len() > 0 {
            lemma_ids_first(u.identifiers);
            lemma_first_of(it, seq![']']);
        }
    }
    lemma_unit_ids(s, p3, u.identifiers, 0, u.conversion_factor);
    assert(u.identifiers.take(0) =~= Seq::<IdentifierV>::empty());
    match u.conversion_factor {
        Some(f) => {
            lemma_at_split(s, p2, seq![','], decimal_text(f));
            lemma_at_char(s, p2, seq![','], 0);
            lemma_number_at(s, p2 + 1, f);
            lemma_item_start_at(s, p2);
            assert(s.subrange(p2 + 1, p2 + 1) =~= Seq::<char>::empty());
            assert(sp_peek_kw(s, p2 + 1).len() == 0);
            assert(sp_unit_items(s, p2, (None, Seq::empty())) == sp_unit_items(
                s,
                p3,
                (Some(f), Seq::empty()),
            ));
        },
        None => {},
    }
    let p4 = p3 + it.len();
    lemma_at_char(s, p3, it + seq![']'], it.len() as int);
    lemma_skip_none(s, p4);
    assert(p4 + 1 == p + w.len());
}

/// A list of identifiers, when it is not empty, starts with a comma.
pub(crate) proof fn lemma_ids_first(ids: Seq<IdentifierV>)
    requires
        ids.len() > 0,
    ensures
        ids_text(ids).len() > 0,
        ids_text(ids)[0] == ',',
    decreases ids.len(),
{
    if ids.drop_last().len() > 0 {
        lemma_ids_first(ids.drop_last());
        lemma_first_of(ids_text(ids.drop_last()), seq![','] + id_text(ids.last()));
    } else {
        assert(ids_text(ids.drop_last()) =~= Seq::<char>::empty());
        assert(ids_text(ids) =~= seq![','] + id_text(ids.last()));
    }
}

/// A unit written by the writer is read back as that unit, and the reader
/// stops right after its closing bracket, whatever follows.
pub proof fn law_unit_reads_back(acc: Seq<char>, u: UnitV, rest: Seq<char>)
    requires
        writable_unit(u),
    ensures
        sp_unit(wr_unit(acc, u) + rest, acc.len() as int) == Ok::<(UnitV, int), ParseErrorV>(
            (u, wr_unit(acc, u).len() as int),
        ),
{
    lemma_wr_unit(acc, u);
    let s = wr_unit(acc, u) + rest;
    let p = acc.len() as int;
    let w = unit_text(u);
    assert(s.subrange(p, p + w.len()) =~= w);
    lemma_unit_at(s, p, u);
}

pub(crate) proof fn lemma_ws_char_ws_at(s: Seq<char>, p: int, c: char)
    requires
        0 <= p < s.len() - 1,
        s[p] == c,
        !is_ws(c),
        !is_ws(s[p + 1]),
    ensures
        sp_ws_char_ws(s, p, c) == Ok::<int, ParseErrorV>(p + 1),
{
    lemma_skip_none(s, p);
    lemma_skip_none(s, p + 1);
}

/// Whether the four corners of a bounding box can be written and read back.
pub open spec fn writable_bbox(b: BBoxV) -> bool {
    &&& writable_number(b.lower_left_latitude)
    &&& writable_number(b.lower_left_longitude)
    &&& writable_number(b.upper_right_latitude)
    &&& writable_number(b.upper_right_longitude)
}

/// The text of a bounding box node.
pub open spec fn bbox_text(b: BBoxV) -> Seq<char> {
    "BBOX"@ + seq!['['] + decimal_text(b.lower_left_latitude) + seq![','] + decimal_text(
        b.lower_left_longitude,
    ) + seq![','] + decimal_text(b.upper_right_latitude) + seq![','] + decimal_text(
        b.upper_right_longitude,
    ) + seq![']']
}

pub(crate) proof fn lemma_bbox_kw()
    ensures
        "BBOX["@ == "BBOX"@ + seq!['['],
        "BBOX"@.len() == 4,
        forall|i: int| 0 <= i < 4 ==> is_upper(#[trigger] "BBOX"@[i]),
{
    reveal_strlit("BBOX[");
    reveal_strlit("BBOX");
    assert("BBOX["@ =~= "BBOX"@ + seq!['[']);
}

#[verifier::spinoff_prover]
pub(crate) proof fn lemma_wr_bbox(acc: Seq<char>, b: BBoxV)
    ensures
        wr_bbox(acc, b) == acc + bbox_text(b),
{
    lemma_bbox_kw();
    let d0 = decimal_text(b.lower_left_latitude);
    let d1 = decimal_text(b.lower_left_longitude);
    let d2 = decimal_text(b.upper_right_latitude);
    let d3 = decimal_text(b.upper_right_longitude);
    let a0 = (acc + "BBOX["@ + d0).push(',');
    let a1 = (a0 + d1).push(',');
    let a2 = (a1 + d2).push(',');
    let a3 = (a2 + d3).push(']');
    let x0 = "BBOX"@ + seq!['['] + d0 + seq![','];
    assert(a0 =~= acc + x0);
    assert(a1 =~= a0 + (d1 + seq![',']));
    lemma_step(acc, x0, a0, d1 + seq![','], a1);
    assert(a2 =~= a1 + (d2 + seq![',']));
    lemma_step(acc, x0 + (d1 + seq![',']), a1, d2 + seq![','], a2);
    assert(a3 =~= a2 + (d3 + seq![']']));
    lemma_step(acc, x0 + (d1 + seq![',']) + (d2 + seq![',']), a2, d3 + seq![']'], a3);
    assert(x0 + (d1 + seq![',']) + (d2 + seq![',']) + (d3 + seq![']']) =~= bbox_text(b));
}

/// A number followed by `c`, standing at `p`, is read, and `c` after it.
pub(crate) proof fn lemma_number_then(s: Seq<char>, p: int, d: DecimalV, c: char, tail: Seq<char>)
    requires
        writable_number(d),
        c == ',' || c == ']',
        at(s, p, decimal_text(d) + (seq![c] + tail)),
    ensures
        sp_number(s, p) == Ok::<(DecimalV, int), ParseErrorV>((d, p + decimal_text(d).len())),
        s[p + decimal_text(d).len()] == c,
        at(s, p + decimal_text(d).len() + 1, tail),
        !is_ws(s[p]),
{
    lemma_at_split(s, p, decimal_text(d), seq![c] + tail);
    lemma_at_split(s, p + decimal_text(d).len(), seq![c], tail);
    lemma_at_char(s, p + decimal_text(d).len(), seq![c], 0);
    lemma_number_at(s, p, d);
}

/// A bounding box node standing at `p` is read as the bounding box.
#[verifier::spinoff_prover]
pub(crate) proof fn lemma_bbox_at(s: Seq<char>, p: int, b: BBoxV)
    requires
        writable_bbox(b),
        at(s, p, bbox_text(b)),
    ensures
        sp_bbox(s, p) == Ok::<(BBoxV, int), ParseErrorV>((b, p + bbox_text(b).len())),
{
    lemma_bbox_kw();
    let d0 = decimal_text(b.lower_left_latitude);
    let d1 = decimal_text(b.lower_left_longitude);
    let d2 = decimal_text(b.upper_right_latitude);
    let d3 = decimal_text(b.upper_right_longitude);
    let t3 = d3 + seq![']'];
    let t2 = d2 + (seq![','] + t3);
    let t1 = d1 + (seq![','] + t2);
    let t0 = d0 + (seq![','] + t1);
    assert(bbox_text(b) =~= ("BBOX"@ + seq!['[']) + t0);
    lemma_at_split(s, p, "BBOX"@ + seq!['['], t0);
    let q0 = p + 5;
    lemma_number_then(s, q0, b.lower_left_latitude, ',', t1);
    let q1 = q0 + d0.len() + 1;
    lemma_number_then(s, q1, b.lower_left_longitude, ',', t2);
    let q2 = q1 + d1.len() + 1;
    lemma_number_then(s, q2, b.upper_right_latitude, ',', t3);
    let q3 = q2 + d2.len() + 1;
    assert(t3 =~= d3 + (seq![']'] + Seq::<char>::empty()));
    lemma_number_then(s, q3, b.upper_right_longitude, ']', Seq::empty());
    lemma_open_kw_at(s, p, "BBOX"@);
    lemma_ws_char_ws_at(s, q0 + d0.len(), ',');
    lemma_ws_char_ws_at(s, q1 + d1.len(), ',');
    lemma_ws_char_ws_at(s, q2 + d2.len(), ',');
    lemma_skip_none(s, q3 + d3.len());
    assert(q3 + d3.len() + 1 == p + bbox_text(b).len());
}

/// A bounding box written by the writer is read back as that bounding box.
pub proof fn law_bbox_reads_back(acc: Seq<char>, b: BBoxV, rest: Seq<char>)
    requires
        writable_bbox(b),
    ensures
        sp_bbox(wr_bbox(acc, b) + rest, acc.len() as int) == Ok::<(BBoxV, int), ParseErrorV>(
            (b, wr_bbox(acc, b).len() as int),
        ),
{
    lemma_wr_bbox(acc, b);
    let s = wr_bbox(acc, b) + rest;
    let p = acc.len() as int;
    let w = bbox_text(b);
    assert(s.subrange(p, p + w.len()) =~= w);
    lemma_bbox_at(s, p, b);
}

/// The text of an optional unit, after a comma.
pub open spec fn opt_unit_text(u: Option<UnitV>) -> Seq<char> {
    match u {
        Some(u) => seq![','] + unit_text(u),
        None => Seq::empty(),
    }
}

/// The text of a vertical extent node.
pub open spec fn vextent_text(v: VerticalExtentV) -> Seq<char> {
    "VERTICALEXTENT"@ + seq!['['] + decimal_text(v.minimum_height) + seq![','] + decimal_text(
        v.maximum_height,
    ) + opt_unit_text(v.unit) + seq![']']
}

/// Whether a vertical extent can be written and read back.
pub open spec fn writable_vextent(v: VerticalExtentV) -> bool {
    &&& writable_number(v.minimum_height)
    &&& writable_number(v.maximum_height)
    &&& (v.unit matches Some(u) ==> writable_unit(u))
}

pub(crate) proof fn lemma_extent_kws()
    ensures
        "VERTICALEXTENT["@ == "VERTICALEXTENT"@ + seq!['['],
        "TIMEEXTENT["@ == "TIMEEXTENT"@ + seq!['['],
        "USAGE[SCOPE["@ == "USAGE"@ + seq!['['] + ("SCOPE"@ + seq!['[']),
        ",AREA["@ == seq![','] + ("AREA"@ + seq!['[']),
        "VERTICALEXTENT"@.len() == 14,
        "TIMEEXTENT"@.len() == 10,
        "USAGE"@.len() == 5,
        "SCOPE"@.len() == 5,
        "AREA"@.len() == 4,
        "BBOX"@.len() == 4,
        "AREA"@[0] != "BBOX"@[0],
        forall|i: int| 0 <= i < 14 ==> is_upper(#[trigger] "VERTICALEXTENT"@[i]),
        forall|i: int| 0 <= i < 10 ==> is_upper(#[trigger] "TIMEEXTENT"@[i]),
        forall|i: int| 0 <= i < 5 ==> is_upper(#[trigger] "USAGE"@[i]),
        forall|i: int| 0 <= i < 5 ==> is_upper(#[trigger] "SCOPE"@[i]),
        forall|i: int| 0 <= i < 4 ==> is_upper(#[trigger] "AREA"@[i]),
{
    reveal_strlit("VERTICALEXTENT[");
    reveal_strlit("VERTICALEXTENT");
    reveal_strlit("TIMEEXTENT[");
    reveal_strlit("TIMEEXTENT");
    reveal_strlit("USAGE[SCOPE[");
    reveal_strlit("USAGE");
    reveal_strlit("SCOPE");
    reveal_strlit(",AREA[");
    reveal_strlit("AREA");
    reveal_strlit("BBOX");
    assert("VERTICALEXTENT["@ =~= "VERTICALEXTENT"@ + seq!['[']);
    assert("TIMEEXTENT["@ =~= "TIMEEXTENT"@ + seq!['[']);
    assert("USAGE[SCOPE["@ =~= "USAGE"@ + seq!['['] + ("SCOPE"@ + seq!['[']));
    assert(",AREA["@ =~= seq![','] + ("AREA"@ + seq!['[']));
}

#[verifier::spinoff_prover]
pub(crate) proof fn lemma_wr_vextent(acc: Seq<char>, v: VerticalExtentV)
    ensures
        wr_vextent(acc, v) == acc + vextent_text(v),
{
    lemma_extent_kws();
    let d0 = decimal_text(v.minimum_height);
    let d1 = decimal_text(v.maximum_height);
    let x = (acc + "VERTICALEXTENT["@ + d0).push(',') + d1;
    let head = "VERTICALEXTENT"@ + seq!['['] + d0 + seq![','] + d1;
    assert(x =~= acc + head);
    let ut = opt_unit_text(v.unit);
    let y = wr_opt_unit(x, v.unit);
    assert(y == x + ut) by {
        match v.unit {
            Some(u) => {
                lemma_wr_unit(x.push(','), u);
                assert(x.push(',') + unit_text(u) =~= x + ut);
            },
            None => {
                assert(x =~= x + ut);
            },
        }
    }
    lemma_step(acc, head, x, ut, y);
    assert(y.push(']') =~= y + seq![']']);
    lemma_step(acc, head + ut, y, seq![']'], y.push(']'));
    assert(head + ut + seq![']'] =~= vextent_text(v));
}

/// A vertical extent node standing at `p` is read as the extent.
#[verifier::rlimit(30)]
#[verifier::spinoff_prover]
pub(crate) proof fn lemma_vextent_at(s: Seq<char>, p: int, v: VerticalExtentV)
    requires
        writable_vextent(v),
        at(s, p, vextent_text(v)),
    ensures
        sp_vextent(s, p) == Ok::<(VerticalExtentV, int), ParseErrorV>((v, p + vextent_text(v).len())),
{
    lemma_extent_kws();
    let d0 = decimal_text(v.minimum_height);
    let d1 = decimal_text(v.maximum_height);
    let ut = opt_unit_text(v.unit);
    let t1 = ut + seq![']'];
    let c1 = if v.unit is Some { ',' } else { ']' };
    let t1r = t1.subrange(1, t1.len() as int);
    assert(t1 =~= seq![c1] + t1r) by {
        match v.unit {
            Some(u) => {
                assert(t1[0] == ',');
            },
            None => {
                assert(t1 =~= seq![']']);
            },
        }
    }
    let t0 = d0 + (seq![','] + (d1 + (seq![c1] + t1r)));
    assert(vextent_text(v) =~= ("VERTICALEXTENT"@ + seq!['[']) + t0);
    lemma_at_split(s, p, "VERTICALEXTENT"@ + seq!['['], t0);
    let q0 = p + 15;
    lemma_number_then(s, q0, v.minimum_height, ',', d1 + (seq![c1] + t1r));
    let q1 = q0 + d0.len() + 1;
    lemma_number_then(s, q1, v.maximum_height, c1, t1r);
    let q2 = q1 + d1.len();
    lemma_open_kw_at(s, p, "VERTICALEXTENT"@);
    lemma_ws_char_ws_at(s, q0 + d0.len(), ',');
    lemma_skip_none(s, q2);
    match v.unit {
        Some(u) => {
            assert(t1r =~= unit_text(u) + seq![']']);
            lemma_at_split(s, q2 + 1, unit_text(u), seq![']']);
            lemma_unit_kw(u.keyword);
            lemma_at_char(s, q2 + 1, unit_text(u), 0);
            assert(unit_text(u)[0] == unit_kw_text(u.keyword)[0]);
            lemma_ws_char_ws_at(s, q2, ',');
            lemma_unit_at(s, q2 + 1, u);
            let q5 = q2 + 1 + unit_text(u).len();
            lemma_at_char(s, q5, seq![']'], 0);
            lemma_skip_none(s, q5);
            assert(q5 + 1 == p + vextent_text(v).len());
        },
        None => {
            assert(q2 + 1 == p + vextent_text(v).len());
        },
    }
}

/// Whether a temporal extent value can be written and read back: one
/// written bare (it starts with a digit) holds no `,` or `]` and has no
/// surrounding whitespace; one written quoted holds no `"`.
pub open spec fn writable_temporal(t: Seq<char>) -> bool {
    if t.len() > 0 && is_digit(t[0]) {
        &&& forall|i: int| 0 <= i < t.len() ==> t[i] != ',' && t[i] != ']'
        &&& sp_trim(t) == t
    } else {
        quotable(t)
    }
}

/// The text of a temporal extent value.
pub open spec fn temporal_text(t: Seq<char>) -> Seq<char> {
    if t.len() > 0 && is_digit(t[0]) {
        t
    } else {
        quoted(t)
    }
}

pub(crate) proof fn lemma_item_end(s: Seq<char>, p: int, e: int)
    requires
        0 <= p <= e < s.len(),
        s[e] == ',' || s[e] == ']',
        forall|i: int| p <= i < e ==> s[i] != ',' && s[i] != ']',
    ensures
        sp_item_end(s, p) == e,
    decreases e - p,
{
    if p < e {
        lemma_item_end(s, p + 1, e);
    }
}

/// A temporal value followed by `,` or `]`, standing at `p`, is read.
pub(crate) proof fn lemma_temporal_at(s: Seq<char>, p: int, t: Seq<char>)
    requires
        writable_temporal(t),
        at(s, p, temporal_text(t)),
        p + temporal_text(t).len() < s.len(),
        s[p + temporal_text(t).len()] == ',' || s[p + temporal_text(t).len()] == ']',
    ensures
        sp_datetime_or_text(s, p) == Ok::<(Seq<char>, int), ParseErrorV>((t, p + temporal_text(t).len())),
        !is_ws(s[p]),
{
    lemma_at_char(s, p, temporal_text(t), 0);
    if t.len() > 0 && is_digit(t[0]) {
        assert forall|i: int| p <= i < p + t.len() implies s[i] != ',' && s[i] != ']' by {
            lemma_at_char(s, p, t, i - p);
        }
        lemma_item_end(s, p, p + t.len());
        assert(s.subrange(p, p + t.len()) == t);
    } else {
        lemma_quoted_at(s, p, t);
    }
}

/// The text of a temporal extent node.
pub open spec fn textent_text(t: TemporalExtentV) -> Seq<char> {
    "TIMEEXTENT"@ + seq!['['] + temporal_text(t.start) + seq![','] + temporal_text(t.end) + seq![']']
}

pub(crate) proof fn lemma_wr_temporal(acc: Seq<char>, t: Seq<char>)
    ensures
        wr_temporal_value(acc, t) == acc + temporal_text(t),
{
    if !(t.len() > 0 && is_digit(t[0])) {
        lemma_wr_quoted(acc, t);
    }
}

pub(crate) proof fn lemma_wr_textent(acc: Seq<char>, t: TemporalExtentV)
    ensures
        wr_textent(acc, t) == acc + textent_text(t),
{
    lemma_extent_kws();
    let x = acc + "TIMEEXTENT["@;
    lemma_wr_temporal(x, t.start);
    let y = wr_temporal_value(x, t.start).push(',');
    lemma_wr_temporal(y, t.end);
    assert(wr_temporal_value(y, t.end).push(']') =~= acc + textent_text(t));
}

/// A temporal extent node standing at `p` is read as the extent.
#[verifier::spinoff_prover]
pub(crate) proof fn lemma_textent_at(s: Seq<char>, p: int, t: TemporalExtentV)
    requires
        writable_temporal(t.start),
        writable_temporal(t.end),
        at(s, p, textent_text(t)),
    ensures
        sp_textent(s, p) == Ok::<(TemporalExtentV, int), ParseErrorV>((t, p + textent_text(t).len())),
{
    lemma_extent_kws();
    let a = temporal_text(t.start);
    let b = temporal_text(t.end);
    let rest = a + (seq![','] + (b + seq![']']));
    assert(textent_text(t) =~= ("TIMEEXTENT"@ + seq!['[']) + rest);
    lemma_at_split(s, p, "TIMEEXTENT"@ + seq!['['], rest);
    let q0 = p + 11;
    lemma_at_split(s, q0, a, seq![','] + (b + seq![']']));
    lemma_at_split(s, q0 + a.len(), seq![','], b + seq![']']);
    lemma_at_split(s, q0 + a.len() + 1, b, seq![']']);
    lemma_at_char(s, q0 + a.len(), seq![','], 0);
    let q2 = q0 + a.len() + 1;
    lemma_at_char(s, q2 + b.len(), seq![']'], 0);
    lemma_temporal_at(s, q0, t.start);
    lemma_temporal_at(s, q2, t.end);
    lemma_open_kw_at(s, p, "TIMEEXTENT"@);
    lemma_ws_char_ws_at(s, q0 + a.len(), ',');
    lemma_skip_none(s, q2 + b.len());
    assert(q2 + b.len() + 1 == p + textent_text(t).len());
}

pub open spec fn area_text(a: Option<Seq<char>>) -> Seq<char> {
    match a {
        Some(a) => ",AREA["@ + quoted(a) + seq![']'],
        None => Seq::empty(),
    }
}

pub open spec fn opt_bbox_text(b: Option<BBoxV>) -> Seq<char> {
    match b {
        Some(b) => seq![','] + bbox_text(b),
        None => Seq::empty(),
    }
}

pub open spec fn opt_vextent_text(v: Option<VerticalExtentV>) -> Seq<char> {
    match v {
        Some(v) => seq![','] + vextent_text(v),
        None => Seq::empty(),
    }
}

pub open spec fn opt_textent_text(t: Option<TemporalExtentV>) -> Seq<char> {
    match t {
        Some(t) => seq![','] + textent_text(t),
        None => Seq::empty(),
    }
}

/// The optional items of a usage node and its closing bracket.
pub open spec fn usage_tail(u: UsageV) -> Seq<char> {
    area_text(u.area) + opt_bbox_text(u.bbox) + opt_vextent_text(u.vertical_extent) + opt_textent_text(
        u.temporal_extent,
    ) + seq![']']
}

/// The text of a usage node.
pub open spec fn usage_text(u: UsageV) -> Seq<char> {
    "USAGE[SCOPE["@ + quoted(u.scope) + seq![']'] + area_text(u.area) + opt_bbox_text(u.bbox)
        + opt_vextent_text(u.vertical_extent) + opt_textent_text(u.temporal_extent) + seq![']']
}

/// Whether a usage can be written and read back.
pub open spec fn writable_usage(u: UsageV) -> bool {
    &&& quotable(u.scope)
    &&& (u.area matches Some(a) ==> quotable(a))
    &&& (u.bbox matches Some(b) ==> writable_bbox(b))
    &&& (u.vertical_extent matches Some(v) ==> writable_vextent(v))
    &&& (u.temporal_extent matches Some(t) ==> writable_temporal(t.start) && writable_temporal(t.end))
}

pub(crate) proof fn lemma_wr_area(a0: Seq<char>, area: Option<Seq<char>>)
    ensures
        (match area {
            Some(t) => wr_quoted(a0 + ",AREA["@, t).push(']'),
            None => a0,
        }) == a0 + area_text(area),
{
    match area {
        Some(t) => {
            lemma_wr_quoted(a0 + ",AREA["@, t);
            assert((a0 + ",AREA["@ + quoted(t)).push(']') =~= a0 + area_text(area));
        },
        None => {
            assert(a0 =~= a0 + area_text(area));
        },
    }
}

pub(crate) proof fn lemma_wr_opt_bbox(a1: Seq<char>, b: Option<BBoxV>)
    ensures
        (match b {
            Some(b) => wr_bbox(a1.push(','), b),
            None => a1,
        }) == a1 + opt_bbox_text(b),
{
    match b {
        Some(x) => {
            lemma_wr_bbox(a1.push(','), x);
            assert(a1.push(',') + bbox_text(x) =~= a1 + opt_bbox_text(b));
        },
        None => {
            assert(a1 =~= a1 + opt_bbox_text(b));
        },
    }
}

pub(crate) proof fn lemma_wr_opt_vextent(a2: Seq<char>, v: Option<VerticalExtentV>)
    ensures
        (match v {
            Some(v) => wr_vextent(a2.push(','), v),
            None => a2,
        }) == a2 + opt_vextent_text(v),
{
    match v {
        Some(x) => {
            lemma_wr_vextent(a2.push(','), x);
            assert(a2.push(',') + vextent_text(x) =~= a2 + opt_vextent_text(v));
        },
        None => {
            assert(a2 =~= a2 + opt_vextent_text(v));
        },
    }
}

pub(crate) proof fn lemma_wr_opt_textent(a3: Seq<char>, t: Option<TemporalExtentV>)
    ensures
        (match t {
            Some(t) => wr_textent(a3.push(','), t),
            None => a3,
        }) == a3 + opt_textent_text(t),
{
    match t {
        Some(x) => {
            lemma_wr_textent(a3.push(','), x);
            assert(a3.push(',') + textent_text(x) =~= a3 + opt_textent_text(t));
        },
        None => {
            assert(a3 =~= a3 + opt_textent_text(t));
        },
    }
}

#[verifier::spinoff_prover]
#[verifier::rlimit(30)]
pub(crate) proof fn lemma_wr_usage(acc: Seq<char>, u: UsageV)
    ensures
        wr_usage(acc, u) == acc + usage_text(u),
{
    let a0 = wr_quoted(acc + "USAGE[SCOPE["@, u.scope).push(']');
    lemma_wr_quoted(acc + "USAGE[SCOPE["@, u.scope);
    let head = "USAGE[SCOPE["@ + quoted(u.scope) + seq![']'];
    assert(a0 =~= acc + head);
    let at0 = area_text(u.area);
    let a1 = match u.area {
        Some(t) => wr_quoted(a0 + ",AREA["@, t).push(']'),
        None => a0,
    };
    lemma_wr_area(a0, u.area);
    lemma_step(acc, head, a0, at0, a1);
    let bt = opt_bbox_text(u.bbox);
    let a2 = match u.bbox {
        Some(b) => wr_bbox(a1.push(','), b),
        None => a1,
    };
    lemma_wr_opt_bbox(a1, u.bbox);
    lemma_step(acc, head + at0, a1, bt, a2);
    let vt = opt_vextent_text(u.vertical_extent);
    let a3 = match u.vertical_extent {
        Some(v) => wr_vextent(a2.push(','), v),
        None => a2,
    };
    lemma_wr_opt_vextent(a2, u.vertical_extent);
    lemma_step(acc, head + at0 + bt, a2, vt, a3);
    let tt = opt_textent_text(u.temporal_extent);
    let a4 = match u.temporal_extent {
        Some(t) => wr_textent(a3.push(','), t),
        None => a3,
    };
    lemma_wr_opt_textent(a3, u.temporal_extent);
    lemma_step(acc, head + at0 + bt + vt, a3, tt, a4);
    assert(a4.push(']') =~= a4 + seq![']']);
    lemma_step(acc, head + at0 + bt + vt + tt, a4, seq![']'], a4.push(']'));
    assert(wr_usage(acc, u) == a4.push(']'));
}

pub(crate) proof fn lemma_usage_items_close(s: Seq<char>, p: int, st: UsageRest)
    requires
        0 <= p < s.len(),
        s[p] == ']',
    ensures
        sp_usage_items(s, p, st) == Ok::<(UsageRest, int), ParseErrorV>((st, p)),
{
    lemma_skip_none(s, p);
}

#[verifier::spinoff_prover]
pub(crate) proof fn lemma_usage_items_area(s: Seq<char>, p: int, st: UsageRest, a: Seq<char>)
    requires
        quotable(a),
        at(s, p, area_text(Some(a))),
    ensures
        sp_usage_items(s, p, st) == sp_usage_items(s, p + area_text(Some(a)).len(), (Some(a), st.1, st.2, st.3)),
{
    lemma_extent_kws();
    let node = "AREA"@ + seq!['['] + quoted(a) + seq![']'];
    assert(area_text(Some(a)) =~= seq![','] + node);
    lemma_at_split(s, p, seq![','], node);
    lemma_at_char(s, p, seq![','], 0);
    lemma_at_char(s, p + 1, node, 0);
    lemma_item_start_at(s, p);
    lemma_kw_quoted_at(s, p + 1, "AREA"@, a);
}

#[verifier::spinoff_prover]
pub(crate) proof fn lemma_usage_items_bbox(s: Seq<char>, p: int, st: UsageRest, b: BBoxV)
    requires
        writable_bbox(b),
        at(s, p, opt_bbox_text(Some(b))),
    ensures
        sp_usage_items(s, p, st) == sp_usage_items(s, p + opt_bbox_text(Some(b)).len(), (st.0, Some(b), st.2, st.3)),
{
    lemma_extent_kws();
    lemma_bbox_kw();
    let node = bbox_text(b);
    lemma_at_split(s, p, seq![','], node);
    lemma_at_char(s, p, seq![','], 0);
    lemma_at_char(s, p + 1, node, 0);
    let d0 = decimal_text(b.lower_left_latitude);
    assert(node =~= ("BBOX"@ + seq!['[']) + (d0 + node.subrange((5 + d0.len()) as int, node.len() as int)));
    lemma_at_split(s, p + 1, "BBOX"@ + seq!['['], d0 + node.subrange((5 + d0.len()) as int, node.len() as int));
    lemma_at_split(s, p + 6, d0, node.subrange((5 + d0.len()) as int, node.len() as int));
    lemma_at_char(s, p + 6 + d0.len(), node.subrange((5 + d0.len()) as int, node.len() as int), 0);
    assert(node[(5 + d0.len()) as int] == ',');
    lemma_number_at(s, p + 6, b.lower_left_latitude);
    lemma_item_start_at(s, p);
    lemma_open_kw_at(s, p + 1, "BBOX"@);
    lemma_bbox_at(s, p + 1, b);
}

#[verifier::spinoff_prover]
pub(crate) proof fn lemma_usage_items_vextent(s: Seq<char>, p: int, st: UsageRest, v: VerticalExtentV)
    requires
        writable_vextent(v),
        at(s, p, opt_vextent_text(Some(v))),
    ensures
        sp_usage_items(s, p, st) == sp_usage_items(s, p + opt_vextent_text(Some(v)).len(), (st.0, st.1, Some(v), st.3)),
{
    lemma_extent_kws();
    lemma_bbox_kw();
    let node = vextent_text(v);
    lemma_at_split(s, p, seq![','], node);
    lemma_at_char(s, p, seq![','], 0);
    lemma_at_char(s, p + 1, node, 0);
    let d0 = decimal_text(v.minimum_height);
    let r = node.subrange((15 + d0.len()) as int, node.len() as int);
    assert(node =~= ("VERTICALEXTENT"@ + seq!['[']) + (d0 + r));
    lemma_at_split(s, p + 1, "VERTICALEXTENT"@ + seq!['['], d0 + r);
    lemma_at_split(s, p + 16, d0, r);
    lemma_at_char(s, p + 16 + d0.len(), r, 0);
    assert(node[(15 + d0.len()) as int] == ',');
    lemma_number_at(s, p + 16, v.minimum_height);
    lemma_item_start_at(s, p);
    lemma_open_kw_at(s, p + 1, "VERTICALEXTENT"@);
    lemma_vextent_at(s, p + 1, v);
    assert("VERTICALEXTENT"@ != "AREA"@ && "VERTICALEXTENT"@ != "BBOX"@);
}

#[verifier::spinoff_prover]
pub(crate) proof fn lemma_usage_items_textent(s: Seq<char>, p: int, st: UsageRest, t: TemporalExtentV)
    requires
        writable_temporal(t.start),
        writable_temporal(t.end),
        at(s, p, opt_textent_text(Some(t))),
    ensures
        sp_usage_items(s, p, st) == sp_usage_items(s, p + opt_textent_text(Some(t)).len(), (st.0, st.1, st.2, Some(t))),
{
    lemma_extent_kws();
    let node = textent_text(t);
    lemma_at_split(s, p, seq![','], node);
    lemma_at_char(s, p, seq![','], 0);
    lemma_at_char(s, p + 1, node, 0);
    let a = temporal_text(t.start);
    let r = node.subrange((11 + a.len()) as int, node.len() as int);
    assert(node =~= ("TIMEEXTENT"@ + seq!['[']) + (a + r));
    lemma_at_split(s, p + 1, "TIMEEXTENT"@ + seq!['['], a + r);
    lemma_at_split(s, p + 12, a, r);
    lemma_at_char(s, p + 12 + a.len(), r, 0);
    assert(node[(11 + a.len()) as int] == ',');
    lemma_temporal_at(s, p + 12, t.start);
    lemma_item_start_at(s, p);
    lemma_open_kw_at(s, p + 1, "TIMEEXTENT"@);
    lemma_textent_at(s, p + 1, t);
    assert("TIMEEXTENT"@ != "AREA"@ && "TIMEEXTENT"@ != "BBOX"@ && "TIMEEXTENT"@ != "VERTICALEXTENT"@);
}

/// The usage items, from the area to the closing bracket, are read as the
/// usage's area and extents.
#[verifier::rlimit(40)]
#[verifier::spinoff_prover]
pub(crate) proof fn lemma_usage_tail(s: Seq<char>, p: int, u: UsageV)
    requires
        writable_usage(u),
        at(s, p, usage_tail(u)),
    ensures
        sp_usage_items(s, p, (None, None, None, None)) == Ok::<(UsageRest, int), ParseErrorV>(
            ((u.area, u.bbox, u.vertical_extent, u.temporal_extent), p + usage_tail(u).len() - 1),
        ),
{
    let at0 = area_text(u.area);
    let bt = opt_bbox_text(u.bbox);
    let vt = opt_vextent_text(u.vertical_extent);
    let tt = opt_textent_text(u.temporal_extent);
    let cl = seq![']'];
    assert(usage_tail(u) =~= at0 + (bt + (vt + (tt + cl))));
    lemma_at_split(s, p, at0, bt + (vt + (tt + cl)));
    let p1 = p + at0.len();
    lemma_at_split(s, p1, bt, vt + (tt + cl));
    let p2 = p1 + bt.len();
    lemma_at_split(s, p2, vt, tt + cl);
    let p3 = p2 + vt.len();
    lemma_at_split(s, p3, tt, cl);
    let p4 = p3 + tt.len();
    lemma_at_char(s, p4, cl, 0);
    let fin = (u.area, u.bbox, u.vertical_extent, u.temporal_extent);
    lemma_usage_items_close(s, p4, fin);
    match u.temporal_extent {
        Some(t) => {
            lemma_usage_items_textent(s, p3, (u.area, u.bbox, u.vertical_extent, None), t);
        },
        None => {},
    }
    match u.vertical_extent {
        Some(v) => {
            lemma_usage_items_vextent(s, p2, (u.area, u.bbox, None, None), v);
        },
        None => {},
    }
    match u.bbox {
        Some(b) => {
            lemma_usage_items_bbox(s, p1, (u.area, None, None, None), b);
        },
        None => {},
    }
    match u.area {
        Some(a) => {
            lemma_usage_items_area(s, p, (None, None, None, None), a);
        },
        None => {},
    }
}

/// A usage node standing at `p` is read as the usage.
#[verifier::rlimit(30)]
#[verifier::spinoff_prover]
pub(crate) proof fn lemma_usage_at(s: Seq<char>, p: int, u: UsageV)
    requires
        writable_usage(u),
        at(s, p, usage_text(u)),
    ensures
        sp_usage(s, p) == Ok::<(UsageV, int), ParseErrorV>((u, p + usage_text(u).len())),
{
    lemma_extent_kws();
    let scope = "SCOPE"@ + seq!['['] + quoted(u.scope) + seq![']'];
    let tail = usage_tail(u);
    assert(usage_text(u) =~= ("USAGE"@ + seq!['[']) + (scope + tail));
    lemma_at_split(s, p, "USAGE"@ + seq!['['], scope + tail);
    lemma_at_split(s, p + 6, scope, tail);
    lemma_at_char(s, p + 6, scope, 0);
    lemma_open_kw_at(s, p, "USAGE"@);
    lemma_kw_quoted_at(s, p + 6, "SCOPE"@, u.scope);
    let q1 = p + 6 + scope.len();
    lemma_usage_tail(s, q1, u);
    let q2 = q1 + tail.len() - 1;
    assert(tail[tail.len() - 1] == ']');
    lemma_at_char(s, q1, tail, tail.len() - 1);
    lemma_skip_none(s, q2);
    assert(q2 + 1 == p + usage_text(u).len());
}

/// A usage written by the writer is read back as that usage, and the reader
/// stops right after its closing bracket, whatever follows.
pub proof fn law_usage_reads_back(acc: Seq<char>, u: UsageV, rest: Seq<char>)
    requires
        writable_usage(u),
    ensures
        sp_usage(wr_usage(acc, u) + rest, acc.len() as int) == Ok::<(UsageV, int), ParseErrorV>(
            (u, wr_usage(acc, u).len() as int),
        ),
{
    lemma_wr_usage(acc, u);
    let s = wr_usage(acc, u) + rest;
    let p = acc.len() as int;
    let w = usage_text(u);
    assert(s.subrange(p, p + w.len()) =~= w);
    lemma_usage_at(s, p, u);
}

/// An identifier node after a comma, at `q`, in a list written by the
/// writer: the comma starts an item, and the node is read.
#[verifier::spinoff_prover]
pub(crate) proof fn lemma_id_item_at(s: Seq<char>, q: int, id: IdentifierV)
    requires
        writable_id(id),
        at(s, q, seq![','] + id_text(id)),
    ensures
        sp_item_start(s, q) == Ok::<int, ParseErrorV>(q + 1),
        !sp_at_close(s, q),
        sp_peek_kw(s, q + 1) == "ID"@,
        sp_id_node(s, q + 1) == Ok::<(IdentifierV, int), ParseErrorV>((id, q + 1 + id_text(id).len())),
{
    lemma_kw_texts();
    lemma_at_split(s, q, seq![','], id_text(id));
    lemma_at_char(s, q, seq![','], 0);
    let w = id_text(id);
    assert(w =~= ("ID"@ + seq!['[']) + (w.subrange(3, w.len() as int)));
    lemma_at_split(s, q + 1, "ID"@ + seq!['['], w.subrange(3, w.len() as int));
    lemma_at_char(s, q + 1, "ID"@ + seq!['['], 0);
    lemma_at_char(s, q + 1, w, 3);
    assert(w[3] == '"');
    lemma_item_start_at(s, q);
    lemma_open_kw_at(s, q + 1, "ID"@);
    lemma_id_node_at(s, q + 1, id);
}

/// The `k`-th item of a list of identifiers, with what comes after it.
#[verifier::spinoff_prover]
pub(crate) proof fn lemma_ids_split(s: Seq<char>, p: int, ids: Seq<IdentifierV>, k: int)
    requires
        0 <= k < ids.len(),
        at(s, p, ids_text(ids) + seq![']']),
    ensures
        at(s, p + ids_text(ids.take(k)).len(), seq![','] + id_text(ids[k])),
        ids_text(ids.take(k + 1)).len() == ids_text(ids.take(k)).len() + 1 + id_text(ids[k]).len(),
        ids_text(ids.take(k + 1)).len() <= ids_text(ids).len(),
{
    let t1 = ids.take(k + 1);
    assert(t1.drop_last() =~= ids.take(k));
    assert(t1.last() == ids[k]);
    let piece = seq![','] + id_text(ids[k]);
    lemma_ids_prefix(ids, k + 1);
    let b = ids_text(t1);
    let after = ids_text(ids).subrange(b.len() as int, ids_text(ids).len() as int);
    assert(ids_text(ids) =~= ids_text(ids).subrange(0, b.len() as int) + after);
    assert(ids_text(ids) + seq![']'] =~= ids_text(ids.take(k)) + (piece + (after + seq![']'])));
    lemma_at_split(s, p, ids_text(ids.take(k)), piece + (after + seq![']']));
    lemma_at_split(s, p + ids_text(ids.take(k)).len(), piece, after + seq![']']);
}

/// The end of a list of identifiers is its closing bracket.
pub(crate) proof fn lemma_ids_close(s: Seq<char>, p: int, ids: Seq<IdentifierV>)
    requires
        at(s, p, ids_text(ids) + seq![']']),
    ensures
        s[p + ids_text(ids).len()] == ']',
        sp_skip_ws(s, p + ids_text(ids).len()) == p + ids_text(ids).len(),
{
    lemma_at_split(s, p, ids_text(ids), seq![']']);
    lemma_at_char(s, p + ids_text(ids).len(), seq![']'], 0);
    lemma_skip_none(s, p + ids_text(ids).len());
}

/// Identifiers after a unit's place are read, from the `k`-th on.
#[verifier::spinoff_prover]
pub(crate) proof fn lemma_unit_ids_ids(s: Seq<char>, p: int, ids: Seq<IdentifierV>, k: int, u: Option<UnitV>)
    requires
        writable_ids(ids),
        0 <= k <= ids.len(),
        at(s, p, ids_text(ids) + seq![']']),
    ensures
        sp_unit_ids_items(s, p + ids_text(ids.take(k)).len(), (u, ids.take(k))) == Ok::<
            ((Option<UnitV>, Seq<IdentifierV>), int),
            ParseErrorV,
        >(((u, ids), p + ids_text(ids).len())),
    decreases ids.len() - k,
{
    if k == ids.len() {
        assert(ids.take(k) =~= ids);
        lemma_ids_close(s, p, ids);
    } else {
        let q = p + ids_text(ids.take(k)).len();
        assert(writable_id(ids[k]));
        lemma_ids_split(s, p, ids, k);
        lemma_id_item_at(s, q, ids[k]);
        lemma_kw_texts();
        reveal_strlit("ANGLEUNIT");
        reveal_strlit("LENGTHUNIT");
        reveal_strlit("PARAMETRICUNIT");
        reveal_strlit("SCALEUNIT");
        reveal_strlit("TIMEUNIT");
        reveal_strlit("TEMPORALQUANTITY");
        reveal_strlit("UNIT");
        assert(!is_unit_kw("ID"@));
        lemma_unit_ids_ids(s, p, ids, k + 1, u);
        assert(ids.take(k).push(ids[k]) =~= ids.take(k + 1));
    }
}

/// An optional unit and identifiers, then the closing bracket, are read.
#[verifier::rlimit(30)]
#[verifier::spinoff_prover]
pub(crate) proof fn lemma_unit_ids_at(s: Seq<char>, p: int, u: Option<UnitV>, ids: Seq<IdentifierV>)
    requires
        u matches Some(x) ==> writable_unit(x),
        writable_ids(ids),
        at(s, p, opt_unit_text(u) + ids_text(ids) + seq![']']),
    ensures
        sp_unit_ids_items(s, p, (None, Seq::empty())) == Ok::<
            ((Option<UnitV>, Seq<IdentifierV>), int),
            ParseErrorV,
        >(((u, ids), p + opt_unit_text(u).len() + ids_text(ids).len())),
{
    let ut = opt_unit_text(u);
    assert(ut + ids_text(ids) + seq![']'] =~= ut + (ids_text(ids) + seq![']']));
    lemma_at_split(s, p, ut, ids_text(ids) + seq![']']);
    let p1 = p + ut.len();
    lemma_unit_ids_ids(s, p1, ids, 0, u);
    assert(ids.take(0) =~= Seq::<IdentifierV>::empty());
    match u {
        Some(x) => {
            lemma_at_split(s, p, seq![','], unit_text(x));
            lemma_at_char(s, p, seq![','], 0);
            lemma_unit_kw(x.keyword);
            lemma_at_char(s, p + 1, unit_text(x), 0);
            assert(unit_text(x)[0] == unit_kw_text(x.keyword)[0]);
            lemma_item_start_at(s, p);
            let kt = unit_kw_text(x.keyword);
            assert(unit_text(x) =~= (kt + seq!['[']) + unit_text(x).subrange((kt.len() + 1) as int, unit_text(x).len() as int));
            lemma_at_split(s, p + 1, kt + seq!['['], unit_text(x).subrange((kt.len() + 1) as int, unit_text(x).len() as int));
            lemma_at_char(s, p + 1, unit_text(x), (kt.len() + 1) as int);
            assert(unit_text(x)[(kt.len() + 1) as int] == '"');
            lemma_open_kw_at(s, p + 1, kt);
            lemma_unit_at(s, p + 1, x);
        },
        None => {},
    }
}

/// The text of an ellipsoid node.
pub open spec fn ellipsoid_text(e: EllipsoidV) -> Seq<char> {
    "ELLIPSOID"@ + seq!['['] + quoted(e.name) + seq![','] + decimal_text(e.semi_major_axis) + seq![',']
        + decimal_text(e.inverse_flattening) + opt_unit_text(e.unit) + ids_text(e.identifiers) + seq![']']
}

/// Whether an ellipsoid can be written and read back.
pub open spec fn writable_ellipsoid(e: EllipsoidV) -> bool {
    &&& quotable(e.name)
    &&& writable_number(e.semi_major_axis)
    &&& writable_number(e.inverse_flattening)
    &&& (e.unit matches Some(u) ==> writable_unit(u))
    &&& writable_ids(e.identifiers)
}

pub(crate) proof fn lemma_node_kws()
    ensures
        "ELLIPSOID["@ == "ELLIPSOID"@ + seq!['['],
        "PRIMEM["@ == "PRIMEM"@ + seq!['['],
        "PARAMETER["@ == "PARAMETER"@ + seq!['['],
        "METHOD["@ == "METHOD"@ + seq!['['],
        "ELLIPSOID"@.len() == 9,
        "PRIMEM"@.len() == 6,
        "PARAMETER"@.len() == 9,
        "METHOD"@.len() == 6,
        forall|i: int| 0 <= i < 9 ==> is_upper(#[trigger] "ELLIPSOID"@[i]),
        forall|i: int| 0 <= i < 6 ==> is_upper(#[trigger] "PRIMEM"@[i]),
        forall|i: int| 0 <= i < 9 ==> is_upper(#[trigger] "PARAMETER"@[i]),
        forall|i: int| 0 <= i < 6 ==> is_upper(#[trigger] "METHOD"@[i]),
{
    reveal_strlit("ELLIPSOID[");
    reveal_strlit("ELLIPSOID");
    reveal_strlit("PRIMEM[");
    reveal_strlit("PRIMEM");
    reveal_strlit("PARAMETER[");
    reveal_strlit("PARAMETER");
    reveal_strlit("METHOD[");
    reveal_strlit("METHOD");
    assert("ELLIPSOID["@ =~= "ELLIPSOID"@ + seq!['[']);
    assert("PRIMEM["@ =~= "PRIMEM"@ + seq!['[']);
    assert("PARAMETER["@ =~= "PARAMETER"@ + seq!['[']);
    assert("METHOD["@ =~= "METHOD"@ + seq!['[']);
}

/// `acc`, an optional unit, identifiers and the closing bracket, as the
/// writer writes them after a node's fixed parts.
pub(crate) proof fn lemma_wr_unit_ids_close(acc: Seq<char>, x: Seq<char>, a0: Seq<char>, u: Option<UnitV>, ids: Seq<IdentifierV>)
    requires
        a0 == acc + x,
    ensures
        wr_ids(wr_opt_unit(a0, u), ids).push(']') == acc + (x + opt_unit_text(u) + ids_text(ids) + seq![']']),
{
    let ut = opt_unit_text(u);
    let a1 = wr_opt_unit(a0, u);
    assert(a1 == a0 + ut) by {
        match u {
            Some(v) => {
                lemma_wr_unit(a0.push(','), v);
                assert(a0.push(',') + unit_text(v) =~= a0 + ut);
            },
            None => {
                assert(a0 =~= a0 + ut);
            },
        }
    }
    lemma_step(acc, x, a0, ut, a1);
    lemma_wr_ids(a1, ids);
    let a2 = wr_ids(a1, ids);
    lemma_step(acc, x + ut, a1, ids_text(ids), a2);
    assert(a2.push(']') =~= a2 + seq![']']);
    lemma_step(acc, x + ut + ids_text(ids), a2, seq![']'], a2.push(']'));
}

pub(crate) proof fn lemma_wr_ellipsoid(acc: Seq<char>, e: EllipsoidV)
    ensures
        wr_ellipsoid(acc, e) == acc + ellipsoid_text(e),
{
    lemma_node_kws();
    let q0 = wr_quoted(acc + "ELLIPSOID["@, e.name);
    lemma_wr_quoted(acc + "ELLIPSOID["@, e.name);
    let a0 = (q0.push(',') + decimal_text(e.semi_major_axis)).push(',') + decimal_text(e.inverse_flattening);
    let x = "ELLIPSOID"@ + seq!['['] + quoted(e.name) + seq![','] + decimal_text(e.semi_major_axis) + seq![',']
        + decimal_text(e.inverse_flattening);
    assert(a0 =~= acc + x);
    lemma_wr_unit_ids_close(acc, x, a0, e.unit, e.identifiers);
}

/// What follows a node's fixed parts starts with a comma or its closing
/// bracket.
pub(crate) proof fn lemma_unit_ids_first(u: Option<UnitV>, ids: Seq<IdentifierV>)
    ensures
        (opt_unit_text(u) + ids_text(ids) + seq![']'])[0] == ',' || (opt_unit_text(u) + ids_text(ids)
            + seq![']'])[0] == ']',
{
    let ut = opt_unit_text(u);
    let it = ids_text(ids);
    let tail = ut + it + seq![']'];
    if ut.len() > 0 {
        assert(tail[0] == ut[0]);
    } else if it.len() > 0 {
        lemma_ids_first(ids);
        assert(tail[0] == it[0]);
    } else {
        assert(tail =~= seq![']']);
    }
}

/// An ellipsoid node standing at `p` is read as the ellipsoid.
#[verifier::spinoff_prover]
#[verifier::rlimit(60)]
pub(crate) proof fn lemma_ellipsoid_at(s: Seq<char>, p: int, e: EllipsoidV)
    requires
        writable_ellipsoid(e),
        at(s, p, ellipsoid_text(e)),
    ensures
        sp_ellipsoid(s, p) == Ok::<(EllipsoidV, int), ParseErrorV>((e, p + ellipsoid_text(e).len())),
{
    lemma_node_kws();
    let d0 = decimal_text(e.semi_major_axis);
    let d1 = decimal_text(e.inverse_flattening);
    let ut = opt_unit_text(e.unit);
    let it = ids_text(e.identifiers);
    let tail = ut + it + seq![']'];
    lemma_unit_ids_first(e.unit, e.identifiers);
    let c1 = tail[0];
    let tr = tail.subrange(1, tail.len() as int);
    assert(tail =~= seq![c1] + tr);
    let t0 = quoted(e.name) + (seq![','] + (d0 + (seq![','] + (d1 + (seq![c1] + tr)))));
    assert(ellipsoid_text(e) =~= ("ELLIPSOID"@ + seq!['[']) + t0);
    lemma_at_split(s, p, "ELLIPSOID"@ + seq!['['], t0);
    let p1 = p + 10;
    lemma_at_split(s, p1, quoted(e.name), seq![','] + (d0 + (seq![','] + (d1 + (seq![c1] + tr)))));
    lemma_at_char(s, p1, quoted(e.name), 0);
    let p2 = p1 + e.name.len() + 2;
    lemma_at_split(s, p2, seq![','], d0 + (seq![','] + (d1 + (seq![c1] + tr))));
    lemma_at_char(s, p2, seq![','], 0);
    lemma_number_then(s, p2 + 1, e.semi_major_axis, ',', d1 + (seq![c1] + tr));
    let p3 = p2 + 1 + d0.len();
    lemma_number_then(s, p3 + 1, e.inverse_flattening, c1, tr);
    let p4 = p3 + 1 + d1.len();
    lemma_open_kw_at(s, p, "ELLIPSOID"@);
    lemma_quoted_at(s, p1, e.name);
    lemma_ws_char_ws_at(s, p2, ',');
    lemma_ws_char_ws_at(s, p3, ',');
    assert(at(s, p4, tail)) by {
        lemma_at_split(s, p3 + 1, d1, seq![c1] + tr);
        assert(seq![c1] + tr =~= tail);
    }
    lemma_unit_ids_at(s, p4, e.unit, e.identifiers);
    let p5 = p4 + ut.len() + it.len();
    lemma_at_char(s, p4, tail, (ut.len() + it.len()) as int);
    lemma_skip_none(s, p5);
    assert(p5 + 1 == p + ellipsoid_text(e).len());
}

/// An ellipsoid written by the writer is read back as that ellipsoid.
pub proof fn law_ellipsoid_reads_back(acc: Seq<char>, e: EllipsoidV, rest: Seq<char>)
    requires
        writable_ellipsoid(e),
    ensures
        sp_ellipsoid(wr_ellipsoid(acc, e) + rest, acc.len() as int) == Ok::<(EllipsoidV, int), ParseErrorV>(
            (e, wr_ellipsoid(acc, e).len() as int),
        ),
{
    lemma_wr_ellipsoid(acc, e);
    let s = wr_ellipsoid(acc, e) + rest;
    let p = acc.len() as int;
    let w = ellipsoid_text(e);
    assert(s.subrange(p, p + w.len()) =~= w);
    lemma_ellipsoid_at(s, p, e);
}

/// The text of a node made of a keyword, a name, a number, an optional
/// unit and identifiers, as prime meridians and parameters are written.
pub open spec fn named_value_text(kw: Seq<char>, name: Seq<char>, d: DecimalV, u: Option<UnitV>, ids: Seq<
    IdentifierV,
>) -> Seq<char> {
    kw + seq!['['] + quoted(name) + seq![','] + decimal_text(d) + opt_unit_text(u) + ids_text(ids) + seq![
        ']',
    ]
}

/// The steps of reading a node of [`named_value_text`]'s shape.
#[verifier::spinoff_prover]
#[verifier::rlimit(40)]
pub(crate) proof fn lemma_named_value_at(
    s: Seq<char>,
    p: int,
    kw: Seq<char>,
    name: Seq<char>,
    d: DecimalV,
    u: Option<UnitV>,
    ids: Seq<IdentifierV>,
)
    requires
        kw.len() > 0,
        forall|i: int| 0 <= i < kw.len() ==> is_upper(kw[i]),
        quotable(name),
        writable_number(d),
        u matches Some(x) ==> writable_unit(x),
        writable_ids(ids),
        at(s, p, named_value_text(kw, name, d, u, ids)),
    ensures
        ({
            let p1 = p + kw.len() + 1;
            let p2 = p1 + name.len() + 2;
            let p4 = p2 + 1 + decimal_text(d).len();
            let p5 = p4 + opt_unit_text(u).len() + ids_text(ids).len();
            &&& sp_keyword(s, p) == Ok::<(Seq<char>, int), ParseErrorV>((kw, p + kw.len()))
            &&& sp_ws_char_ws(s, p + kw.len(), '[') == Ok::<int, ParseErrorV>(p1)
            &&& sp_open_kw(s, p, kw) == Ok::<int, ParseErrorV>(p1)
            &&& sp_quoted(s, p1) == Ok::<(Seq<char>, int), ParseErrorV>((name, p2))
            &&& sp_ws_char_ws(s, p2, ',') == Ok::<int, ParseErrorV>(p2 + 1)
            &&& sp_number(s, p2 + 1) == Ok::<(DecimalV, int), ParseErrorV>((d, p4))
            &&& sp_unit_ids_items(s, p4, (None, Seq::empty())) == Ok::<
                ((Option<UnitV>, Seq<IdentifierV>), int),
                ParseErrorV,
            >(((u, ids), p5))
            &&& sp_close(s, p5) == Ok::<int, ParseErrorV>(p5 + 1)
            &&& p5 + 1 == p + named_value_text(kw, name, d, u, ids).len()
        }),
{
    let dt = decimal_text(d);
    let ut = opt_unit_text(u);
    let it = ids_text(ids);
    let tail = ut + it + seq![']'];
    lemma_unit_ids_first(u, ids);
    let c1 = tail[0];
    let tr = tail.subrange(1, tail.len() as int);
    assert(tail =~= seq![c1] + tr);
    let t0 = quoted(name) + (seq![','] + (dt + (seq![c1] + tr)));
    assert(named_value_text(kw, name, d, u, ids) =~= (kw + seq!['[']) + t0);
    lemma_at_split(s, p, kw + seq!['['], t0);
    let p1 = p + kw.len() + 1;
    lemma_at_split(s, p1, quoted(name), seq![','] + (dt + (seq![c1] + tr)));
    lemma_at_char(s, p1, quoted(name), 0);
    let p2 = p1 + name.len() + 2;
    lemma_at_split(s, p2, seq![','], dt + (seq![c1] + tr));
    lemma_at_char(s, p2, seq![','], 0);
    lemma_number_then(s, p2 + 1, d, c1, tr);
    let p4 = p2 + 1 + dt.len();
    lemma_open_kw_at(s, p, kw);
    lemma_quoted_at(s, p1, name);
    lemma_ws_char_ws_at(s, p2, ',');
    assert(at(s, p4, tail)) by {
        lemma_at_split(s, p2 + 1, dt, seq![c1] + tr);
    }
    lemma_unit_ids_at(s, p4, u, ids);
    let p5 = p4 + ut.len() + it.len();
    lemma_at_char(s, p4, tail, (ut.len() + it.len()) as int);
    lemma_skip_none(s, p5);
}

/// A prime meridian node standing at `p` is read as the prime meridian.
#[verifier::spinoff_prover]
pub(crate) proof fn lemma_pm_at(s: Seq<char>, p: int, m: PrimeMeridianV)
    requires
        quotable(m.name),
        writable_number(m.irm_longitude),
        m.unit matches Some(x) ==> writable_unit(x),
        writable_ids(m.identifiers),
        at(s, p, named_value_text("PRIMEM"@, m.name, m.irm_longitude, m.unit, m.identifiers)),
    ensures
        sp_prime_meridian(s, p) == Ok::<(PrimeMeridianV, int), ParseErrorV>(
            (m, p + named_value_text("PRIMEM"@, m.name, m.irm_longitude, m.unit, m.identifiers).len()),
        ),
{
    lemma_node_kws();
    lemma_named_value_at(s, p, "PRIMEM"@, m.name, m.irm_longitude, m.unit, m.identifiers);
}

/// A prime meridian written by the writer is read back as that prime
/// meridian.
pub proof fn law_prime_meridian_reads_back(acc: Seq<char>, m: PrimeMeridianV, rest: Seq<char>)
    requires
        quotable(m.name),
        writable_number(m.irm_longitude),
        m.unit matches Some(x) ==> writable_unit(x),
        writable_ids(m.identifiers),
    ensures
        sp_prime_meridian(wr_pm(acc, m) + rest, acc.len() as int) == Ok::<(PrimeMeridianV, int), ParseErrorV>(
            (m, wr_pm(acc, m).len() as int),
        ),
{
    lemma_node_kws();
    let q0 = wr_quoted(acc + "PRIMEM["@, m.name);
    lemma_wr_quoted(acc + "PRIMEM["@, m.name);
    let a0 = q0.push(',') + decimal_text(m.irm_longitude);
    let x = "PRIMEM"@ + seq!['['] + quoted(m.name) + seq![','] + decimal_text(m.irm_longitude);
    assert(a0 =~= acc + x);
    lemma_wr_unit_ids_close(acc, x, a0, m.unit, m.identifiers);
    let w = named_value_text("PRIMEM"@, m.name, m.irm_longitude, m.unit, m.identifiers);
    assert(x + opt_unit_text(m.unit) + ids_text(m.identifiers) + seq![']'] =~= w);
    let s = wr_pm(acc, m) + rest;
    let p = acc.len() as int;
    assert(s.subrange(p, p + w.len()) =~= w);
    lemma_pm_at(s, p, m);
}

/// A parameter node standing at `p` is read as the parameter.
#[verifier::spinoff_prover]
pub(crate) proof fn lemma_parameter_at(s: Seq<char>, p: int, m: MapProjectionParameterV)
    requires
        quotable(m.name),
        writable_number(m.value),
        m.unit matches Some(x) ==> writable_unit(x),
        writable_ids(m.identifiers),
        at(s, p, named_value_text("PARAMETER"@, m.name, m.value, m.unit, m.identifiers)),
    ensures
        sp_parameter(s, p) == Ok::<(MapProjectionParameterV, int), ParseErrorV>(
            (m, p + named_value_text("PARAMETER"@, m.name, m.value, m.unit, m.identifiers).len()),
        ),
{
    lemma_node_kws();
    lemma_named_value_at(s, p, "PARAMETER"@, m.name, m.value, m.unit, m.identifiers);
}

pub(crate) proof fn lemma_wr_parameter(acc: Seq<char>, m: MapProjectionParameterV)
    ensures
        wr_parameter(acc, m) == acc + param_text(m),
{
    lemma_node_kws();
    let q0 = wr_quoted(acc + "PARAMETER["@, m.name);
    lemma_wr_quoted(acc + "PARAMETER["@, m.name);
    let a0 = q0.push(',') + decimal_text(m.value);
    let x = "PARAMETER"@ + seq!['['] + quoted(m.name) + seq![','] + decimal_text(m.value);
    assert(a0 =~= acc + x);
    lemma_wr_unit_ids_close(acc, x, a0, m.unit, m.identifiers);
    assert(x + opt_unit_text(m.unit) + ids_text(m.identifiers) + seq![']'] =~= param_text(m));
}

/// The text of a parameter node.
pub open spec fn param_text(m: MapProjectionParameterV) -> Seq<char> {
    named_value_text("PARAMETER"@, m.name, m.value, m.unit, m.identifiers)
}

/// Whether a parameter can be written and read back.
pub open spec fn writable_param(m: MapProjectionParameterV) -> bool {
    &&& quotable(m.name)
    &&& writable_number(m.value)
    &&& (m.unit matches Some(x) ==> writable_unit(x))
    &&& writable_ids(m.identifiers)
}

/// A parameter written by the writer is read back as that parameter.
#[verifier::spinoff_prover]
pub proof fn law_parameter_reads_back(acc: Seq<char>, m: MapProjectionParameterV, rest: Seq<char>)
    requires
        writable_param(m),
    ensures
        sp_parameter(wr_parameter(acc, m) + rest, acc.len() as int) == Ok::<
            (MapProjectionParameterV, int),
            ParseErrorV,
        >((m, wr_parameter(acc, m).len() as int)),
{
    lemma_wr_parameter(acc, m);
    let w = param_text(m);
    let s = wr_parameter(acc, m) + rest;
    let p = acc.len() as int;
    assert(s.subrange(p, p + w.len()) =~= w);
    lemma_parameter_at(s, p, m);
}

/// Identifiers after a method's name are read, from the `k`-th on.
#[verifier::spinoff_prover]
pub(crate) proof fn lemma_ids_items(s: Seq<char>, p: int, ids: Seq<IdentifierV>, k: int)
    requires
        writable_ids(ids),
        0 <= k <= ids.len(),
        at(s, p, ids_text(ids) + seq![']']),
    ensures
        sp_ids_items(s, p + ids_text(ids.take(k)).len(), ids.take(k)) == Ok::<(Seq<IdentifierV>, int), ParseErrorV>(
            (ids, p + ids_text(ids).len()),
        ),
    decreases ids.len() - k,
{
    if k == ids.len() {
        assert(ids.take(k) =~= ids);
        lemma_ids_close(s, p, ids);
    } else {
        let q = p + ids_text(ids.take(k)).len();
        assert(writable_id(ids[k]));
        lemma_ids_split(s, p, ids, k);
        lemma_id_item_at(s, q, ids[k]);
        lemma_ids_items(s, p, ids, k + 1);
        assert(ids.take(k).push(ids[k]) =~= ids.take(k + 1));
    }
}

/// The text of a method node.
pub open spec fn method_text(m: MapProjectionMethodV) -> Seq<char> {
    "METHOD"@ + seq!['['] + quoted(m.name) + ids_text(m.identifiers) + seq![']']
}

/// Whether a method can be written and read back.
pub open spec fn writable_method(m: MapProjectionMethodV) -> bool {
    quotable(m.name) && writable_ids(m.identifiers)
}

pub(crate) proof fn lemma_wr_method(acc: Seq<char>, m: MapProjectionMethodV)
    ensures
        wr_method(acc, m) == acc + method_text(m),
{
    lemma_node_kws();
    let a0 = wr_quoted(acc + "METHOD["@, m.name);
    lemma_wr_quoted(acc + "METHOD["@, m.name);
    let x = "METHOD"@ + seq!['['] + quoted(m.name);
    assert(a0 =~= acc + x);
    lemma_wr_ids(a0, m.identifiers);
    let a1 = wr_ids(a0, m.identifiers);
    lemma_step(acc, x, a0, ids_text(m.identifiers), a1);
    assert(a1.push(']') =~= a1 + seq![']']);
    lemma_step(acc, x + ids_text(m.identifiers), a1, seq![']'], a1.push(']'));
}

/// A method node standing at `p` is read as the method.
#[verifier::spinoff_prover]
pub(crate) proof fn lemma_method_at(s: Seq<char>, p: int, m: MapProjectionMethodV)
    requires
        writable_method(m),
        at(s, p, method_text(m)),
    ensures
        sp_method(s, p) == Ok::<(MapProjectionMethodV, int), ParseErrorV>((m, p + method_text(m).len())),
{
    lemma_node_kws();
    let it = ids_text(m.identifiers);
    let t0 = quoted(m.name) + (it + seq![']']);
    assert(method_text(m) =~= ("METHOD"@ + seq!['[']) + t0);
    lemma_at_split(s, p, "METHOD"@ + seq!['['], t0);
    let p1 = p + 7;
    lemma_at_split(s, p1, quoted(m.name), it + seq![']']);
    lemma_at_char(s, p1, quoted(m.name), 0);
    lemma_open_kw_at(s, p, "METHOD"@);
    lemma_quoted_at(s, p1, m.name);
    let p2 = p1 + m.name.len() + 2;
    lemma_ids_items(s, p2, m.identifiers, 0);
    assert(m.identifiers.take(0) =~= Seq::<IdentifierV>::empty());
    lemma_ids_close(s, p2, m.identifiers);
    assert(p2 + it.len() + 1 == p + method_text(m).len());
}

/// A method written by the writer is read back as that method.
pub proof fn law_method_reads_back(acc: Seq<char>, m: MapProjectionMethodV, rest: Seq<char>)
    requires
        writable_method(m),
    ensures
        sp_method(wr_method(acc, m) + rest, acc.len() as int) == Ok::<(MapProjectionMethodV, int), ParseErrorV>(
            (m, wr_method(acc, m).len() as int),
        ),
{
    lemma_wr_method(acc, m);
    let w = method_text(m);
    let s = wr_method(acc, m) + rest;
    let p = acc.len() as int;
    assert(s.subrange(p, p + w.len()) =~= w);
    lemma_method_at(s, p, m);
}

/// The text of a list of parameters, each after a comma.
pub open spec fn params_text(xs: Seq<MapProjectionParameterV>) -> Seq<char>
    decreases xs.len(),
{
    if xs.len() == 0 {
        Seq::empty()
    } else {
        params_text(xs.drop_last()) + (seq![','] + param_text(xs.last()))
    }
}

/// Whether every parameter of a list can be written and read back.
pub open spec fn writable_params(xs: Seq<MapProjectionParameterV>) -> bool {
    forall|i: int| 0 <= i < xs.len() ==> writable_param(#[trigger] xs[i])
}

#[verifier::spinoff_prover]
pub(crate) proof fn lemma_wr_parameters(acc: Seq<char>, xs: Seq<MapProjectionParameterV>)
    ensures
        wr_parameters(acc, xs) == acc + params_text(xs),
    decreases xs.len(),
{
    let f = |a: Seq<char>, x: MapProjectionParameterV| wr_parameter(a, x);
    if xs.len() == 0 {
        assert(acc + params_text(xs) =~= acc);
    } else {
        lemma_wr_parameters(acc, xs.drop_last());
        let x = wr_each(acc, xs.drop_last(), f);
        assert(x == wr_parameters(acc, xs.drop_last()));
        lemma_wr_parameter(x.push(','), xs.last());
        assert(x.push(',') =~= x + seq![',']);
        lemma_assoc(x, seq![','], param_text(xs.last()));
        lemma_assoc(acc, params_text(xs.drop_last()), seq![','] + param_text(xs.last()));
    }
}

#[verifier::spinoff_prover]
pub(crate) proof fn lemma_params_prefix(xs: Seq<MapProjectionParameterV>, k: int)
    requires
        0 <= k <= xs.len(),
    ensures
        params_text(xs.take(k)).len() <= params_text(xs).len(),
        params_text(xs).subrange(0, params_text(xs.take(k)).len() as int) == params_text(xs.take(k)),
    decreases xs.len() - k,
{
    if k == xs.len() {
        assert(xs.take(k) =~= xs);
        assert(params_text(xs).subrange(0, params_text(xs).len() as int) =~= params_text(xs));
    } else {
        lemma_params_prefix(xs, k + 1);
        let t1 = xs.take(k + 1);
        assert(t1.drop_last() =~= xs.take(k));
        let a = params_text(xs.take(k));
        let b = params_text(t1);
        assert(b == a + (seq![','] + param_text(t1.last())));
        assert(params_text(xs).subrange(0, a.len() as int) =~= params_text(xs).subrange(0, b.len() as int).subrange(
            0,
            a.len() as int,
        ));
        assert(b.subrange(0, a.len() as int) =~= a);
    }
}

/// The `k`-th parameter of a list, with what comes after the list.
#[verifier::spinoff_prover]
pub(crate) proof fn lemma_params_split(s: Seq<char>, p: int, xs: Seq<MapProjectionParameterV>, k: int, after: Seq<char>)
    requires
        0 <= k < xs.len(),
        at(s, p, params_text(xs) + after),
    ensures
        at(s, p + params_text(xs.take(k)).len(), seq![','] + param_text(xs[k])),
        params_text(xs.take(k + 1)).len() == params_text(xs.take(k)).len() + 1 + param_text(xs[k]).len(),
{
    let t1 = xs.take(k + 1);
    assert(t1.drop_last() =~= xs.take(k));
    assert(t1.last() == xs[k]);
    let piece = seq![','] + param_text(xs[k]);
    lemma_params_prefix(xs, k + 1);
    let b = params_text(t1);
    let rest = params_text(xs).subrange(b.len() as int, params_text(xs).len() as int);
    assert(params_text(xs) =~= params_text(xs).subrange(0, b.len() as int) + rest);
    assert(params_text(xs) + after =~= params_text(xs.take(k)) + (piece + (rest + after)));
    lemma_at_split(s, p, params_text(xs.take(k)), piece + (rest + after));
    lemma_at_split(s, p + params_text(xs.take(k)).len(), piece, rest + after);
}

/// Identifiers of a conversion after its parameters are read, from the
/// `k`-th on.
#[verifier::spinoff_prover]
pub(crate) proof fn lemma_conv_ids(s: Seq<char>, p: int, ids: Seq<IdentifierV>, k: int, xs: Seq<MapProjectionParameterV>)
    requires
        writable_ids(ids),
        0 <= k <= ids.len(),
        at(s, p, ids_text(ids) + seq![']']),
    ensures
        sp_conversion_items(s, p + ids_text(ids.take(k)).len(), (xs, ids.take(k))) == Ok::<
            (ConversionRest, int),
            ParseErrorV,
        >(((xs, ids), p + ids_text(ids).len())),
    decreases ids.len() - k,
{
    if k == ids.len() {
        assert(ids.take(k) =~= ids);
        lemma_ids_close(s, p, ids);
    } else {
        let q = p + ids_text(ids.take(k)).len();
        assert(writable_id(ids[k]));
        lemma_ids_split(s, p, ids, k);
        lemma_id_item_at(s, q, ids[k]);
        lemma_node_kws();
        lemma_kw_texts();
        assert("ID"@ != "PARAMETER"@);
        lemma_conv_ids(s, p, ids, k + 1, xs);
        assert(ids.take(k).push(ids[k]) =~= ids.take(k + 1));
    }
}

/// A parameter node after a comma, at `q`: the comma starts an item, and
/// the node is read.
#[verifier::spinoff_prover]
pub(crate) proof fn lemma_param_item_at(s: Seq<char>, q: int, x: MapProjectionParameterV)
    requires
        writable_param(x),
        at(s, q, seq![','] + param_text(x)),
    ensures
        sp_item_start(s, q) == Ok::<int, ParseErrorV>(q + 1),
        !sp_at_close(s, q),
        sp_peek_kw(s, q + 1) == "PARAMETER"@,
        sp_parameter(s, q + 1) == Ok::<(MapProjectionParameterV, int), ParseErrorV>(
            (x, q + 1 + param_text(x).len()),
        ),
{
    lemma_node_kws();
    lemma_at_split(s, q, seq![','], param_text(x));
    lemma_at_char(s, q, seq![','], 0);
    let w = param_text(x);
    assert(w =~= ("PARAMETER"@ + seq!['[']) + (w.subrange(10, w.len() as int)));
    lemma_at_split(s, q + 1, "PARAMETER"@ + seq!['['], w.subrange(10, w.len() as int));
    lemma_at_char(s, q + 1, "PARAMETER"@ + seq!['['], 0);
    lemma_at_char(s, q + 1, w, 10);
    assert(w[10] == '"');
    lemma_item_start_at(s, q);
    lemma_open_kw_at(s, q + 1, "PARAMETER"@);
    lemma_parameter_at(s, q + 1, x);
}

/// The parameters of a conversion, from the `k`-th on, then its
/// identifiers, are read.
#[verifier::spinoff_prover]
#[verifier::rlimit(30)]
pub(crate) proof fn lemma_conv_params(
    s: Seq<char>,
    p: int,
    xs: Seq<MapProjectionParameterV>,
    k: int,
    ids: Seq<IdentifierV>,
)
    requires
        writable_params(xs),
        writable_ids(ids),
        0 <= k <= xs.len(),
        at(s, p, params_text(xs) + (ids_text(ids) + seq![']'])),
    ensures
        sp_conversion_items(s, p + params_text(xs.take(k)).len(), (xs.take(k), Seq::empty())) == Ok::<
            (ConversionRest, int),
            ParseErrorV,
        >(((xs, ids), p + params_text(xs).len() + ids_text(ids).len())),
    decreases xs.len() - k,
{
    if k == xs.len() {
        assert(xs.take(k) =~= xs);
        lemma_at_split(s, p, params_text(xs), ids_text(ids) + seq![']']);
        lemma_conv_ids(s, p + params_text(xs).len(), ids, 0, xs);
        assert(ids.take(0) =~= Seq::<IdentifierV>::empty());
    } else {
        let q = p + params_text(xs.take(k)).len();
        assert(writable_param(xs[k]));
        lemma_params_split(s, p, xs, k, ids_text(ids) + seq![']']);
        lemma_param_item_at(s, q, xs[k]);
        lemma_conv_params(s, p, xs, k + 1, ids);
        assert(xs.take(k).push(xs[k]) =~= xs.take(k + 1));
    }
}

/// The text of a conversion node under the keyword `kw`.
pub open spec fn conversion_text(kw: Seq<char>, m: MapProjectionV) -> Seq<char> {
    kw + seq!['['] + quoted(m.name) + seq![','] + method_text(m.method) + params_text(m.parameters)
        + ids_text(m.identifiers) + seq![']']
}

/// Whether a conversion can be written and read back.
pub open spec fn writable_conversion(m: MapProjectionV) -> bool {
    &&& quotable(m.name)
    &&& writable_method(m.method)
    &&& writable_params(m.parameters)
    &&& writable_ids(m.identifiers)
}

#[verifier::spinoff_prover]
pub(crate) proof fn lemma_wr_conversion(acc: Seq<char>, kw: Seq<char>, m: MapProjectionV)
    ensures
        wr_conversion(acc, kw + seq!['['], m) == acc + conversion_text(kw, m),
{
    let lit = kw + seq!['['];
    let q0 = wr_quoted(acc + lit, m.name).push(',');
    lemma_wr_quoted(acc + lit, m.name);
    let x0 = kw + seq!['['] + quoted(m.name) + seq![','];
    assert(q0 =~= acc + x0);
    lemma_wr_method(q0, m.method);
    let a0 = wr_method(q0, m.method);
    lemma_step(acc, x0, q0, method_text(m.method), a0);
    lemma_wr_parameters(a0, m.parameters);
    let a1 = wr_parameters(a0, m.parameters);
    lemma_step(acc, x0 + method_text(m.method), a0, params_text(m.parameters), a1);
    lemma_wr_ids(a1, m.identifiers);
    let a2 = wr_ids(a1, m.identifiers);
    lemma_step(acc, x0 + method_text(m.method) + params_text(m.parameters), a1, ids_text(m.identifiers), a2);
    assert(a2.push(']') =~= a2 + seq![']']);
    lemma_step(
        acc,
        x0 + method_text(m.method) + params_text(m.parameters) + ids_text(m.identifiers),
        a2,
        seq![']'],
        a2.push(']'),
    );
}

/// A conversion node standing at `p` is read as the conversion.
#[verifier::spinoff_prover]
#[verifier::rlimit(30)]
pub(crate) proof fn lemma_conversion_at(s: Seq<char>, p: int, kw: Seq<char>, m: MapProjectionV)
    requires
        kw.len() > 0,
        forall|i: int| 0 <= i < kw.len() ==> is_upper(kw[i]),
        writable_conversion(m),
        at(s, p, conversion_text(kw, m)),
    ensures
        sp_conversion(s, p, kw) == Ok::<(MapProjectionV, int), ParseErrorV>((m, p + conversion_text(kw, m).len())),
{
    lemma_node_kws();
    let mt = method_text(m.method);
    let pt = params_text(m.parameters);
    let it = ids_text(m.identifiers);
    let t2 = pt + (it + seq![']']);
    let t0 = quoted(m.name) + (seq![','] + (mt + t2));
    assert(conversion_text(kw, m) =~= (kw + seq!['[']) + t0);
    lemma_at_split(s, p, kw + seq!['['], t0);
    let p1 = p + kw.len() + 1;
    lemma_at_split(s, p1, quoted(m.name), seq![','] + (mt + t2));
    lemma_at_char(s, p1, quoted(m.name), 0);
    let p2 = p1 + m.name.len() + 2;
    lemma_at_split(s, p2, seq![','], mt + t2);
    lemma_at_char(s, p2, seq![','], 0);
    lemma_at_split(s, p2 + 1, mt, t2);
    lemma_at_char(s, p2 + 1, mt, 0);
    assert(mt[0] == "METHOD"@[0]);
    lemma_open_kw_at(s, p, kw);
    lemma_quoted_at(s, p1, m.name);
    lemma_ws_char_ws_at(s, p2, ',');
    lemma_method_at(s, p2 + 1, m.method);
    let p3 = p2 + 1 + mt.len();
    lemma_conv_params(s, p3, m.parameters, 0, m.identifiers);
    assert(m.parameters.take(0) =~= Seq::<MapProjectionParameterV>::empty());
    let p4 = p3 + pt.len() + it.len();
    lemma_at_split(s, p3, pt, it + seq![']']);
    lemma_ids_close(s, p3 + pt.len(), m.identifiers);
    assert(p4 + 1 == p + conversion_text(kw, m).len());
}

pub(crate) proof fn lemma_conversion_kw(kw: Seq<char>)
    requires
        kw == "CONVERSION"@ || kw == "DERIVINGCONVERSION"@,
    ensures
        kw.len() > 0,
        forall|i: int| 0 <= i < kw.len() ==> is_upper(kw[i]),
{
    reveal_strlit("CONVERSION");
    reveal_strlit("DERIVINGCONVERSION");
}

/// A conversion written by the writer under `kw` is read back as that
/// conversion.
pub proof fn law_conversion_reads_back(acc: Seq<char>, kw: Seq<char>, m: MapProjectionV, rest: Seq<char>)
    requires
        kw == "CONVERSION"@ || kw == "DERIVINGCONVERSION"@,
        writable_conversion(m),
    ensures
        sp_conversion(wr_conversion(acc, kw + seq!['['], m) + rest, acc.len() as int, kw) == Ok::<
            (MapProjectionV, int),
            ParseErrorV,
        >((m, wr_conversion(acc, kw + seq!['['], m).len() as int)),
{
    lemma_conversion_kw(kw);
    lemma_wr_conversion(acc, kw, m);
    let w = conversion_text(kw, m);
    let s = wr_conversion(acc, kw + seq!['['], m) + rest;
    let p = acc.len() as int;
    assert(s.subrange(p, p + w.len()) =~= w);
    lemma_conversion_at(s, p, kw, m);
}

/// `KEYWORD[number]` is read as the number.
#[verifier::spinoff_prover]
pub(crate) proof fn lemma_kw_number_at(s: Seq<char>, p: int, lit: Seq<char>, d: DecimalV)
    requires
        lit.len() > 0,
        forall|i: int| 0 <= i < lit.len() ==> is_upper(lit[i]),
        writable_number(d),
        at(s, p, lit + seq!['['] + decimal_text(d) + seq![']']),
    ensures
        sp_kw_number(s, p, lit) == Ok::<(DecimalV, int), ParseErrorV>(
            (d, p + lit.len() + decimal_text(d).len() + 2),
        ),
        sp_peek_kw(s, p) == lit,
{
    let q = p + lit.len() + 1;
    assert(lit + seq!['['] + decimal_text(d) + seq![']'] =~= (lit + seq!['[']) + (decimal_text(d) + (seq![']']
        + Seq::<char>::empty())));
    lemma_at_split(s, p, lit + seq!['['], decimal_text(d) + (seq![']'] + Seq::<char>::empty()));
    lemma_number_then(s, q, d, ']', Seq::empty());
    lemma_open_kw_at(s, p, lit);
    lemma_skip_none(s, q + decimal_text(d).len());
}

/// The text of a deformation model, after its comma, when there is one.
pub open spec fn model_text(m: Option<DeformationModelV>) -> Seq<char> {
    match m {
        Some(m) => seq![','] + ("MODEL"@ + seq!['['] + quoted(m.name) + ids_text(m.identifiers) + seq![']']),
        None => Seq::empty(),
    }
}

/// The text of a dynamic node.
pub open spec fn dynamic_text(d: DynamicCrsV) -> Seq<char> {
    "DYNAMIC"@ + seq!['['] + "FRAMEEPOCH"@ + seq!['['] + decimal_text(d.frame_reference_epoch) + seq![']']
        + model_text(d.deformation_model) + seq![']']
}

/// Whether a dynamic node can be written and read back.
pub open spec fn writable_dynamic(d: DynamicCrsV) -> bool {
    &&& writable_number(d.frame_reference_epoch)
    &&& (d.deformation_model matches Some(m) ==> quotable(m.name) && writable_ids(m.identifiers))
}

pub(crate) proof fn lemma_datum_kws()
    ensures
        "DYNAMIC[FRAMEEPOCH["@ == "DYNAMIC"@ + seq!['['] + "FRAMEEPOCH"@ + seq!['['],
        "MODEL["@ == "MODEL"@ + seq!['['],
        ",ANCHOR["@ == seq![','] + ("ANCHOR"@ + seq!['[']),
        ",ANCHOREPOCH["@ == seq![','] + ("ANCHOREPOCH"@ + seq!['[']),
        "DYNAMIC"@.len() == 7,
        "FRAMEEPOCH"@.len() == 10,
        "MODEL"@.len() == 5,
        "ANCHOR"@.len() == 6,
        "ANCHOREPOCH"@.len() == 11,
        forall|i: int| 0 <= i < 7 ==> is_upper(#[trigger] "DYNAMIC"@[i]),
        forall|i: int| 0 <= i < 10 ==> is_upper(#[trigger] "FRAMEEPOCH"@[i]),
        forall|i: int| 0 <= i < 5 ==> is_upper(#[trigger] "MODEL"@[i]),
        forall|i: int| 0 <= i < 6 ==> is_upper(#[trigger] "ANCHOR"@[i]),
        forall|i: int| 0 <= i < 11 ==> is_upper(#[trigger] "ANCHOREPOCH"@[i]),
{
    reveal_strlit("DYNAMIC[FRAMEEPOCH[");
    reveal_strlit("DYNAMIC");
    reveal_strlit("FRAMEEPOCH");
    reveal_strlit("MODEL[");
    reveal_strlit("MODEL");
    reveal_strlit(",ANCHOR[");
    reveal_strlit("ANCHOR");
    reveal_strlit(",ANCHOREPOCH[");
    reveal_strlit("ANCHOREPOCH");
    assert("DYNAMIC[FRAMEEPOCH["@ =~= "DYNAMIC"@ + seq!['['] + "FRAMEEPOCH"@ + seq!['[']);
    assert("MODEL["@ =~= "MODEL"@ + seq!['[']);
    assert(",ANCHOR["@ =~= seq![','] + ("ANCHOR"@ + seq!['[']));
    assert(",ANCHOREPOCH["@ =~= seq![','] + ("ANCHOREPOCH"@ + seq!['[']));
}

#[verifier::spinoff_prover]
pub(crate) proof fn lemma_wr_dynamic(acc: Seq<char>, d: DynamicCrsV)
    ensures
        wr_dynamic(acc, d) == acc + dynamic_text(d),
{
    lemma_datum_kws();
    let dt = decimal_text(d.frame_reference_epoch);
    let a0 = (acc + "DYNAMIC[FRAMEEPOCH["@ + dt).push(']');
    let x = "DYNAMIC"@ + seq!['['] + "FRAMEEPOCH"@ + seq!['['] + dt + seq![']'];
    assert(a0 =~= acc + x);
    let mt = model_text(d.deformation_model);
    let a1 = match d.deformation_model {
        Some(m) => wr_model(a0.push(','), m),
        None => a0,
    };
    assert(a1 == a0 + mt) by {
        match d.deformation_model {
            Some(m) => {
                let b = a0.push(',');
                lemma_wr_quoted(b + "MODEL["@, m.name);
                let c = wr_quoted(b + "MODEL["@, m.name);
                lemma_wr_ids(c, m.identifiers);
                assert(wr_ids(c, m.identifiers).push(']') =~= a0 + mt);
            },
            None => {
                assert(a0 =~= a0 + mt);
            },
        }
    }
    lemma_step(acc, x, a0, mt, a1);
    assert(a1.push(']') =~= a1 + seq![']']);
    lemma_step(acc, x + mt, a1, seq![']'], a1.push(']'));
}

/// A dynamic node standing at `p` is read as the dynamic node.
#[verifier::spinoff_prover]
#[verifier::rlimit(40)]
pub(crate) proof fn lemma_dynamic_at(s: Seq<char>, p: int, d: DynamicCrsV)
    requires
        writable_dynamic(d),
        at(s, p, dynamic_text(d)),
    ensures
        sp_dynamic(s, p) == Ok::<(DynamicCrsV, int), ParseErrorV>((d, p + dynamic_text(d).len())),
{
    lemma_datum_kws();
    let dt = decimal_text(d.frame_reference_epoch);
    let ep = "FRAMEEPOCH"@ + seq!['['] + dt + seq![']'];
    let mt = model_text(d.deformation_model);
    let t0 = ep + (mt + seq![']']);
    assert(dynamic_text(d) =~= ("DYNAMIC"@ + seq!['[']) + t0);
    lemma_at_split(s, p, "DYNAMIC"@ + seq!['['], t0);
    let q = p + 8;
    lemma_at_split(s, q, ep, mt + seq![']']);
    lemma_at_char(s, q, ep, 0);
    lemma_open_kw_at(s, p, "DYNAMIC"@);
    lemma_kw_number_at(s, q, "FRAMEEPOCH"@, d.frame_reference_epoch);
    let q1 = q + ep.len();
    lemma_at_char(s, q1, mt + seq![']'], 0);
    match d.deformation_model {
        Some(m) => {
            let node = "MODEL"@ + seq!['['] + quoted(m.name) + ids_text(m.identifiers) + seq![']'];
            assert(mt + seq![']'] =~= seq![','] + (node + seq![']']));
            lemma_at_split(s, q1, seq![','], node + seq![']']);
            lemma_at_split(s, q1 + 1, node, seq![']']);
            lemma_at_char(s, q1 + 1, node, 0);
            assert(node =~= ("MODEL"@ + seq!['[']) + (quoted(m.name) + (ids_text(m.identifiers) + seq![']'])));
            lemma_at_split(s, q1 + 1, "MODEL"@ + seq!['['], quoted(m.name) + (ids_text(m.identifiers) + seq![']']));
            let q4 = q1 + 7;
            lemma_at_split(s, q4, quoted(m.name), ids_text(m.identifiers) + seq![']']);
            lemma_at_char(s, q4, quoted(m.name), 0);
            lemma_skip_none(s, q1);
            lemma_ws_char_ws_at(s, q1, ',');
            lemma_open_kw_at(s, q1 + 1, "MODEL"@);
            lemma_quoted_at(s, q4, m.name);
            let q5 = q4 + m.name.len() + 2;
            lemma_ids_items(s, q5, m.identifiers, 0);
            assert(m.identifiers.take(0) =~= Seq::<IdentifierV>::empty());
            lemma_ids_close(s, q5, m.identifiers);
            let q7 = q5 + ids_text(m.identifiers).len() + 1;
            lemma_at_char(s, q1 + 1 + node.len(), seq![']'], 0);
            lemma_skip_none(s, q7);
            assert(q7 + 1 == p + dynamic_text(d).len());
        },
        None => {
            lemma_skip_none(s, q1);
            assert(q1 + 1 == p + dynamic_text(d).len());
        },
    }
}

/// A dynamic node written by the writer is read back as that node.
pub proof fn law_dynamic_reads_back(acc: Seq<char>, d: DynamicCrsV, rest: Seq<char>)
    requires
        writable_dynamic(d),
    ensures
        sp_dynamic(wr_dynamic(acc, d) + rest, acc.len() as int) == Ok::<(DynamicCrsV, int), ParseErrorV>(
            (d, wr_dynamic(acc, d).len() as int),
        ),
{
    lemma_wr_dynamic(acc, d);
    let w = dynamic_text(d);
    let s = wr_dynamic(acc, d) + rest;
    let p = acc.len() as int;
    assert(s.subrange(p, p + w.len()) =~= w);
    lemma_dynamic_at(s, p, d);
}

pub open spec fn anchor_text(a: Option<Seq<char>>) -> Seq<char> {
    match a {
        Some(t) => ",ANCHOR["@ + quoted(t) + seq![']'],
        None => Seq::empty(),
    }
}

pub open spec fn anchor_epoch_text(e: Option<DecimalV>) -> Seq<char> {
    match e {
        Some(d) => ",ANCHOREPOCH["@ + decimal_text(d) + seq![']'],
        None => Seq::empty(),
    }
}

/// The text of a geodetic reference frame node (its prime meridian is
/// written beside it, not in it).
pub open spec fn frame_text(f: GeodeticReferenceFrameV) -> Seq<char> {
    datum_kw_text(f.keyword) + seq!['['] + quoted(f.name) + seq![','] + ellipsoid_text(f.ellipsoid)
        + anchor_text(f.anchor) + anchor_epoch_text(f.anchor_epoch) + ids_text(f.identifiers) + seq![']']
}

/// Whether a reference frame can be written and read back.
pub open spec fn writable_frame(f: GeodeticReferenceFrameV) -> bool {
    &&& quotable(f.name)
    &&& writable_ellipsoid(f.ellipsoid)
    &&& (f.anchor matches Some(a) ==> quotable(a))
    &&& (f.anchor_epoch matches Some(e) ==> writable_number(e))
    &&& writable_ids(f.identifiers)
}

pub(crate) proof fn lemma_wr_anchor(acc: Seq<char>, a: Option<Seq<char>>, e: Option<DecimalV>)
    ensures
        wr_anchor(acc, a, e) == acc + (anchor_text(a) + anchor_epoch_text(e)),
{
    let a0 = match a {
        Some(t) => wr_quoted(acc + ",ANCHOR["@, t).push(']'),
        None => acc,
    };
    assert(a0 == acc + anchor_text(a)) by {
        match a {
            Some(t) => {
                lemma_wr_quoted(acc + ",ANCHOR["@, t);
                assert((acc + ",ANCHOR["@ + quoted(t)).push(']') =~= acc + anchor_text(a));
            },
            None => {
                assert(acc =~= acc + anchor_text(a));
            },
        }
    }
    match e {
        Some(d) => {
            assert((a0 + ",ANCHOREPOCH["@ + decimal_text(d)).push(']') =~= a0 + anchor_epoch_text(e));
        },
        None => {
            assert(a0 =~= a0 + anchor_epoch_text(e));
        },
    }
    lemma_assoc(acc, anchor_text(a), anchor_epoch_text(e));
}

#[verifier::spinoff_prover]
pub(crate) proof fn lemma_wr_frame(acc: Seq<char>, f: GeodeticReferenceFrameV)
    ensures
        wr_grf(acc, f) == acc + frame_text(f),
{
    let kt = datum_kw_text(f.keyword);
    let q0 = wr_quoted((acc + kt).push('['), f.name).push(',');
    lemma_wr_quoted((acc + kt).push('['), f.name);
    let x0 = kt + seq!['['] + quoted(f.name) + seq![','];
    assert(q0 =~= acc + x0);
    lemma_wr_ellipsoid(q0, f.ellipsoid);
    let a0 = wr_ellipsoid(q0, f.ellipsoid);
    lemma_step(acc, x0, q0, ellipsoid_text(f.ellipsoid), a0);
    let an = anchor_text(f.anchor) + anchor_epoch_text(f.anchor_epoch);
    lemma_wr_anchor(a0, f.anchor, f.anchor_epoch);
    let a1 = wr_anchor(a0, f.anchor, f.anchor_epoch);
    lemma_step(acc, x0 + ellipsoid_text(f.ellipsoid), a0, an, a1);
    lemma_wr_ids(a1, f.identifiers);
    let a2 = wr_ids(a1, f.identifiers);
    lemma_step(acc, x0 + ellipsoid_text(f.ellipsoid) + an, a1, ids_text(f.identifiers), a2);
    assert(a2.push(']') =~= a2 + seq![']']);
    lemma_step(acc, x0 + ellipsoid_text(f.ellipsoid) + an + ids_text(f.identifiers), a2, seq![']'], a2.push(']'));
    assert(x0 + ellipsoid_text(f.ellipsoid) + an + ids_text(f.identifiers) + seq![']'] =~= frame_text(f));
}

/// Identifiers of a reference frame are read, from the `k`-th on.
#[verifier::spinoff_prover]
pub(crate) proof fn lemma_frame_ids(
    s: Seq<char>,
    p: int,
    ids: Seq<IdentifierV>,
    k: int,
    a: Option<Seq<char>>,
    e: Option<DecimalV>,
)
    requires
        writable_ids(ids),
        0 <= k <= ids.len(),
        at(s, p, ids_text(ids) + seq![']']),
    ensures
        sp_frame_items(s, p + ids_text(ids.take(k)).len(), (a, e, ids.take(k))) == Ok::<(FrameRest, int), ParseErrorV>(
            ((a, e, ids), p + ids_text(ids).len()),
        ),
    decreases ids.len() - k,
{
    if k == ids.len() {
        assert(ids.take(k) =~= ids);
        lemma_ids_close(s, p, ids);
    } else {
        let q = p + ids_text(ids.take(k)).len();
        assert(writable_id(ids[k]));
        lemma_ids_split(s, p, ids, k);
        lemma_id_item_at(s, q, ids[k]);
        lemma_datum_kws();
        lemma_kw_texts();
        assert("ID"@ != "ANCHOR"@ && "ID"@ != "ANCHOREPOCH"@);
        lemma_frame_ids(s, p, ids, k + 1, a, e);
        assert(ids.take(k).push(ids[k]) =~= ids.take(k + 1));
    }
}

/// The items of a reference frame after its ellipsoid are read.
#[verifier::spinoff_prover]
#[verifier::rlimit(30)]
pub(crate) proof fn lemma_frame_items_at(s: Seq<char>, p: int, f: GeodeticReferenceFrameV)
    requires
        writable_frame(f),
        at(s, p, anchor_text(f.anchor) + anchor_epoch_text(f.anchor_epoch) + ids_text(f.identifiers) + seq![']']),
    ensures
        sp_frame_items(s, p, (None, None, Seq::empty())) == Ok::<(FrameRest, int), ParseErrorV>(
            (
                (f.anchor, f.anchor_epoch, f.identifiers),
                p + anchor_text(f.anchor).len() + anchor_epoch_text(f.anchor_epoch).len() + ids_text(
                    f.identifiers,
                ).len(),
            ),
        ),
{
    lemma_datum_kws();
    let at0 = anchor_text(f.anchor);
    let et = anchor_epoch_text(f.anchor_epoch);
    let it = ids_text(f.identifiers);
    let cl = seq![']'];
    assert(at0 + et + it + cl =~= at0 + (et + (it + cl)));
    lemma_at_split(s, p, at0, et + (it + cl));
    let p1 = p + at0.len();
    lemma_at_split(s, p1, et, it + cl);
    let p2 = p1 + et.len();
    lemma_frame_ids(s, p2, f.identifiers, 0, f.anchor, f.anchor_epoch);
    assert(f.identifiers.take(0) =~= Seq::<IdentifierV>::empty());
    match f.anchor_epoch {
        Some(d) => {
            let node = "ANCHOREPOCH"@ + seq!['['] + decimal_text(d) + seq![']'];
            assert(et =~= seq![','] + node);
            lemma_at_split(s, p1, seq![','], node);
            lemma_at_char(s, p1, seq![','], 0);
            lemma_at_char(s, p1 + 1, node, 0);
            lemma_item_start_at(s, p1);
            lemma_kw_number_at(s, p1 + 1, "ANCHOREPOCH"@, d);
            assert("ANCHOREPOCH"@ != "ANCHOR"@);
            assert(sp_frame_items(s, p1, (f.anchor, None, Seq::empty())) == sp_frame_items(
                s,
                p2,
                (f.anchor, f.anchor_epoch, Seq::empty()),
            ));
        },
        None => {},
    }
    match f.anchor {
        Some(t) => {
            let node = "ANCHOR"@ + seq!['['] + quoted(t) + seq![']'];
            assert(at0 =~= seq![','] + node);
            lemma_at_split(s, p, seq![','], node);
            lemma_at_char(s, p, seq![','], 0);
            lemma_at_char(s, p + 1, node, 0);
            lemma_item_start_at(s, p);
            lemma_kw_quoted_at(s, p + 1, "ANCHOR"@, t);
            assert(sp_frame_items(s, p, (None, None, Seq::empty())) == sp_frame_items(
                s,
                p1,
                (f.anchor, None, Seq::empty()),
            ));
        },
        None => {},
    }
}

pub(crate) proof fn lemma_datum_kw(k: DatumKeyword)
    ensures
        datum_kw_text(k).len() > 0,
        forall|i: int| 0 <= i < datum_kw_text(k).len() ==> is_upper(#[trigger] datum_kw_text(k)[i]),
        datum_kw_text(k) == "DATUM"@ || datum_kw_text(k) == "TRF"@ || datum_kw_text(k) == "GEODETICDATUM"@,
        datum_kw_of(datum_kw_text(k)) == k,
{
    reveal_strlit("DATUM");
    reveal_strlit("TRF");
    reveal_strlit("GEODETICDATUM");
    assert("DATUM"@.len() == 5 && "TRF"@.len() == 3 && "GEODETICDATUM"@.len() == 13);
}

/// The steps of reading a reference frame node standing at `p`.
#[verifier::spinoff_prover]
#[verifier::rlimit(40)]
pub(crate) proof fn lemma_frame_steps(s: Seq<char>, p: int, f: GeodeticReferenceFrameV)
    requires
        writable_frame(f),
        at(s, p, frame_text(f)),
    ensures
        ({
            let kt = datum_kw_text(f.keyword);
            let p1 = p + kt.len() + 1;
            let p2 = p1 + f.name.len() + 2;
            let p3 = p2 + 1 + ellipsoid_text(f.ellipsoid).len();
            let p4 = p + frame_text(f).len() - 1;
            &&& sp_open_among(s, p, "DATUM"@, "TRF"@, "GEODETICDATUM"@) == Ok::<(Seq<char>, int), ParseErrorV>(
                (kt, p1),
            )
            &&& sp_quoted(s, p1) == Ok::<(Seq<char>, int), ParseErrorV>((f.name, p2))
            &&& sp_ws_char_ws(s, p2, ',') == Ok::<int, ParseErrorV>(p2 + 1)
            &&& sp_ellipsoid(s, p2 + 1) == Ok::<(EllipsoidV, int), ParseErrorV>((f.ellipsoid, p3))
            &&& sp_frame_items(s, p3, (None, None, Seq::empty())) == Ok::<(FrameRest, int), ParseErrorV>(
                ((f.anchor, f.anchor_epoch, f.identifiers), p4),
            )
            &&& sp_close(s, p4) == Ok::<int, ParseErrorV>(p4 + 1)
        }),
{
    let kt = datum_kw_text(f.keyword);
    lemma_datum_kw(f.keyword);
    lemma_node_kws();
    let et = ellipsoid_text(f.ellipsoid);
    let tail = anchor_text(f.anchor) + anchor_epoch_text(f.anchor_epoch) + ids_text(f.identifiers) + seq![']'];
    let t0 = quoted(f.name) + (seq![','] + (et + tail));
    assert(frame_text(f) =~= (kt + seq!['[']) + t0);
    lemma_at_split(s, p, kt + seq!['['], t0);
    let p1 = p + kt.len() + 1;
    lemma_at_split(s, p1, quoted(f.name), seq![','] + (et + tail));
    lemma_at_char(s, p1, quoted(f.name), 0);
    let p2 = p1 + f.name.len() + 2;
    lemma_at_split(s, p2, seq![','], et + tail);
    lemma_at_char(s, p2, seq![','], 0);
    lemma_at_split(s, p2 + 1, et, tail);
    lemma_at_char(s, p2 + 1, et, 0);
    assert(et[0] == "ELLIPSOID"@[0]);
    lemma_open_kw_at(s, p, kt);
    lemma_quoted_at(s, p1, f.name);
    lemma_ws_char_ws_at(s, p2, ',');
    lemma_ellipsoid_at(s, p2 + 1, f.ellipsoid);
    let p3 = p2 + 1 + et.len();
    lemma_frame_items_at(s, p3, f);
    let p4 = p3 + tail.len() - 1;
    lemma_at_char(s, p3, tail, tail.len() - 1);
    lemma_skip_none(s, p4);
}

/// A reference frame node standing at `p` is read as the frame, without a
/// prime meridian.
#[verifier::spinoff_prover]
pub(crate) proof fn lemma_frame_at(s: Seq<char>, p: int, f: GeodeticReferenceFrameV)
    requires
        writable_frame(f),
        at(s, p, frame_text(f)),
    ensures
        sp_geodetic_frame(s, p) == Ok::<(GeodeticReferenceFrameV, int), ParseErrorV>(
            (GeodeticReferenceFrameV { prime_meridian: None, ..f }, p + frame_text(f).len()),
        ),
{
    lemma_datum_kw(f.keyword);
    lemma_frame_steps(s, p, f);
}

/// A reference frame written by the writer is read back as that frame; its
/// prime meridian, which the writer puts beside it, is not part of it.
pub proof fn law_frame_reads_back(acc: Seq<char>, f: GeodeticReferenceFrameV, rest: Seq<char>)
    requires
        writable_frame(f),
    ensures
        sp_geodetic_frame(wr_grf(acc, f) + rest, acc.len() as int) == Ok::<
            (GeodeticReferenceFrameV, int),
            ParseErrorV,
        >((GeodeticReferenceFrameV { prime_meridian: None, ..f }, wr_grf(acc, f).len() as int)),
{
    lemma_wr_frame(acc, f);
    let w = frame_text(f);
    let s = wr_grf(acc, f) + rest;
    let p = acc.len() as int;
    assert(s.subrange(p, p + w.len()) =~= w);
    lemma_frame_at(s, p, f);
}

/// The text of an ensemble member node.
pub open spec fn member_text(m: EnsembleMemberV) -> Seq<char> {
    "MEMBER"@ + seq!['['] + quoted(m.name) + ids_text(m.identifiers) + seq![']']
}

/// The text of a list of members, each after a comma.
pub open spec fn members_text(ms: Seq<EnsembleMemberV>) -> Seq<char>
    decreases ms.len(),
{
    if ms.len() == 0 {
        Seq::empty()
    } else {
        members_text(ms.drop_last()) + (seq![','] + member_text(ms.last()))
    }
}

/// Whether a member can be written and read back.
pub open spec fn writable_member(m: EnsembleMemberV) -> bool {
    quotable(m.name) && writable_ids(m.identifiers)
}

/// Whether every member of a list can be written and read back.
pub open spec fn writable_members(ms: Seq<EnsembleMemberV>) -> bool {
    forall|i: int| 0 <= i < ms.len() ==> writable_member(#[trigger] ms[i])
}

pub open spec fn opt_ellipsoid_text(e: Option<EllipsoidV>) -> Seq<char> {
    match e {
        Some(e) => seq![','] + ellipsoid_text(e),
        None => Seq::empty(),
    }
}

/// The text of a datum ensemble node (its prime meridian is written beside
/// it, not in it).
pub open spec fn ensemble_text(e: DatumEnsembleV) -> Seq<char> {
    "ENSEMBLE"@ + seq!['['] + quoted(e.name) + members_text(e.members) + opt_ellipsoid_text(e.ellipsoid)
        + ",ENSEMBLEACCURACY["@ + decimal_text(e.accuracy) + seq![']'] + ids_text(e.identifiers) + seq![']']
}

/// Whether a datum ensemble can be written and read back.
pub open spec fn writable_ensemble(e: DatumEnsembleV) -> bool {
    &&& quotable(e.name)
    &&& writable_members(e.members)
    &&& (e.ellipsoid matches Some(el) ==> writable_ellipsoid(el))
    &&& writable_number(e.accuracy)
    &&& writable_ids(e.identifiers)
}

pub(crate) proof fn lemma_ensemble_kws()
    ensures
        "ENSEMBLE["@ == "ENSEMBLE"@ + seq!['['],
        "MEMBER["@ == "MEMBER"@ + seq!['['],
        ",ENSEMBLEACCURACY["@ == seq![','] + ("ENSEMBLEACCURACY"@ + seq!['[']),
        "ENSEMBLE"@.len() == 8,
        "MEMBER"@.len() == 6,
        "ENSEMBLEACCURACY"@.len() == 16,
        "SPHEROID"@.len() == 8,
        "ELLIPSOID"@ != "MEMBER"@,
        "ENSEMBLEACCURACY"@ != "MEMBER"@ && "ENSEMBLEACCURACY"@ != "ELLIPSOID"@ && "ENSEMBLEACCURACY"@ != "SPHEROID"@,
        "ID"@ != "MEMBER"@ && "ID"@ != "ELLIPSOID"@ && "ID"@ != "SPHEROID"@ && "ID"@ != "ENSEMBLEACCURACY"@,
        forall|i: int| 0 <= i < 8 ==> is_upper(#[trigger] "ENSEMBLE"@[i]),
        forall|i: int| 0 <= i < 6 ==> is_upper(#[trigger] "MEMBER"@[i]),
        forall|i: int| 0 <= i < 16 ==> is_upper(#[trigger] "ENSEMBLEACCURACY"@[i]),
{
    reveal_strlit("ENSEMBLE[");
    reveal_strlit("ENSEMBLE");
    reveal_strlit("MEMBER[");
    reveal_strlit("MEMBER");
    reveal_strlit(",ENSEMBLEACCURACY[");
    reveal_strlit("ENSEMBLEACCURACY");
    reveal_strlit("SPHEROID");
    reveal_strlit("ELLIPSOID");
    reveal_strlit("ID");
    assert("ENSEMBLE["@ =~= "ENSEMBLE"@ + seq!['[']);
    assert("MEMBER["@ =~= "MEMBER"@ + seq!['[']);
    assert(",ENSEMBLEACCURACY["@ =~= seq![','] + ("ENSEMBLEACCURACY"@ + seq!['[']));
    assert("ELLIPSOID"@.len() == 9);
    assert("ID"@.len() == 2);
}

pub(crate) proof fn lemma_wr_member(acc: Seq<char>, m: EnsembleMemberV)
    ensures
        wr_member(acc, m) == acc + member_text(m),
{
    lemma_ensemble_kws();
    let a0 = wr_quoted(acc + "MEMBER["@, m.name);
    lemma_wr_quoted(acc + "MEMBER["@, m.name);
    let x = "MEMBER"@ + seq!['['] + quoted(m.name);
    assert(a0 =~= acc + x);
    lemma_wr_ids(a0, m.identifiers);
    let a1 = wr_ids(a0, m.identifiers);
    lemma_step(acc, x, a0, ids_text(m.identifiers), a1);
    assert(a1.push(']') =~= a1 + seq![']']);
    lemma_step(acc, x + ids_text(m.identifiers), a1, seq![']'], a1.push(']'));
}

#[verifier::spinoff_prover]
pub(crate) proof fn lemma_wr_members(acc: Seq<char>, ms: Seq<EnsembleMemberV>)
    ensures
        wr_members(acc, ms) == acc + members_text(ms),
    decreases ms.len(),
{
    let f = |a: Seq<char>, x: EnsembleMemberV| wr_member(a, x);
    if ms.len() == 0 {
        assert(acc + members_text(ms) =~= acc);
    } else {
        lemma_wr_members(acc, ms.drop_last());
        let x = wr_each(acc, ms.drop_last(), f);
        assert(x == wr_members(acc, ms.drop_last()));
        lemma_wr_member(x.push(','), ms.last());
        assert(x.push(',') =~= x + seq![',']);
        lemma_assoc(x, seq![','], member_text(ms.last()));
        lemma_assoc(acc, members_text(ms.drop_last()), seq![','] + member_text(ms.last()));
    }
}

pub(crate) proof fn lemma_wr_opt_ellipsoid(a0: Seq<char>, e: Option<EllipsoidV>)
    ensures
        (match e {
            Some(el) => wr_ellipsoid(a0.push(','), el),
            None => a0,
        }) == a0 + opt_ellipsoid_text(e),
{
    match e {
        Some(el) => {
            lemma_wr_ellipsoid(a0.push(','), el);
            assert(a0.push(',') + ellipsoid_text(el) =~= a0 + opt_ellipsoid_text(e));
        },
        None => {
            assert(a0 =~= a0 + opt_ellipsoid_text(e));
        },
    }
}

#[verifier::spinoff_prover]
#[verifier::rlimit(30)]
pub(crate) proof fn lemma_wr_ensemble(acc: Seq<char>, e: DatumEnsembleV)
    ensures
        wr_ensemble(acc, e) == acc + ensemble_text(e),
{
    lemma_ensemble_kws();
    let q0 = wr_quoted(acc + "ENSEMBLE["@, e.name);
    lemma_wr_quoted(acc + "ENSEMBLE["@, e.name);
    let x0 = "ENSEMBLE"@ + seq!['['] + quoted(e.name);
    assert(q0 =~= acc + x0);
    lemma_wr_members(q0, e.members);
    let a0 = wr_members(q0, e.members);
    let mt = members_text(e.members);
    lemma_step(acc, x0, q0, mt, a0);
    let et = opt_ellipsoid_text(e.ellipsoid);
    let a1 = match e.ellipsoid {
        Some(el) => wr_ellipsoid(a0.push(','), el),
        None => a0,
    };
    lemma_wr_opt_ellipsoid(a0, e.ellipsoid);
    lemma_step(acc, x0 + mt, a0, et, a1);
    let act = ",ENSEMBLEACCURACY["@ + decimal_text(e.accuracy) + seq![']'];
    let a2 = (a1 + ",ENSEMBLEACCURACY["@ + decimal_text(e.accuracy)).push(']');
    assert(a2 =~= a1 + act);
    lemma_step(acc, x0 + mt + et, a1, act, a2);
    lemma_wr_ids(a2, e.identifiers);
    let a3 = wr_ids(a2, e.identifiers);
    lemma_step(acc, x0 + mt + et + act, a2, ids_text(e.identifiers), a3);
    assert(a3.push(']') =~= a3 + seq![']']);
    lemma_step(acc, x0 + mt + et + act + ids_text(e.identifiers), a3, seq![']'], a3.push(']'));
    assert(x0 + mt + et + act + ids_text(e.identifiers) + seq![']'] =~= ensemble_text(e));
}

/// A member node standing at `p` is read as the member.
#[verifier::spinoff_prover]
pub(crate) proof fn lemma_member_at(s: Seq<char>, p: int, m: EnsembleMemberV)
    requires
        quotable(m.name),
        writable_ids(m.identifiers),
        at(s, p, member_text(m)),
    ensures
        sp_member(s, p) == Ok::<(EnsembleMemberV, int), ParseErrorV>((m, p + member_text(m).len())),
        sp_peek_kw(s, p) == "MEMBER"@,
{
    lemma_ensemble_kws();
    let it = ids_text(m.identifiers);
    let t0 = quoted(m.name) + (it + seq![']']);
    assert(member_text(m) =~= ("MEMBER"@ + seq!['[']) + t0);
    lemma_at_split(s, p, "MEMBER"@ + seq!['['], t0);
    let p1 = p + 7;
    lemma_at_split(s, p1, quoted(m.name), it + seq![']']);
    lemma_at_char(s, p1, quoted(m.name), 0);
    lemma_open_kw_at(s, p, "MEMBER"@);
    lemma_quoted_at(s, p1, m.name);
    let p2 = p1 + m.name.len() + 2;
    lemma_ids_items(s, p2, m.identifiers, 0);
    assert(m.identifiers.take(0) =~= Seq::<IdentifierV>::empty());
    lemma_ids_close(s, p2, m.identifiers);
}

#[verifier::spinoff_prover]
pub(crate) proof fn lemma_members_prefix(ms: Seq<EnsembleMemberV>, k: int)
    requires
        0 <= k <= ms.len(),
    ensures
        members_text(ms.take(k)).len() <= members_text(ms).len(),
        members_text(ms).subrange(0, members_text(ms.take(k)).len() as int) == members_text(ms.take(k)),
    decreases ms.len() - k,
{
    if k == ms.len() {
        assert(ms.take(k) =~= ms);
        assert(members_text(ms).subrange(0, members_text(ms).len() as int) =~= members_text(ms));
    } else {
        lemma_members_prefix(ms, k + 1);
        let t1 = ms.take(k + 1);
        assert(t1.drop_last() =~= ms.take(k));
        let a = members_text(ms.take(k));
        let b = members_text(t1);
        assert(b == a + (seq![','] + member_text(t1.last())));
        assert(members_text(ms).subrange(0, a.len() as int) =~= members_text(ms).subrange(0, b.len() as int).subrange(
            0,
            a.len() as int,
        ));
        assert(b.subrange(0, a.len() as int) =~= a);
    }
}

/// The ensemble items after the members: ellipsoid, accuracy, identifiers.
pub open spec fn ensemble_rest_text(e: DatumEnsembleV) -> Seq<char> {
    opt_ellipsoid_text(e.ellipsoid) + ",ENSEMBLEACCURACY["@ + decimal_text(e.accuracy) + seq![']'] + ids_text(
        e.identifiers,
    ) + seq![']']
}

/// Identifiers of an ensemble are read, from the `k`-th on.
#[verifier::spinoff_prover]
pub(crate) proof fn lemma_ensemble_ids(s: Seq<char>, p: int, ids: Seq<IdentifierV>, k: int, st: EnsembleRest)
    requires
        writable_ids(ids),
        0 <= k <= ids.len(),
        at(s, p, ids_text(ids) + seq![']']),
    ensures
        sp_ensemble_items(s, p + ids_text(ids.take(k)).len(), (st.0, st.1, st.2, ids.take(k))) == Ok::<
            (EnsembleRest, int),
            ParseErrorV,
        >(((st.0, st.1, st.2, ids), p + ids_text(ids).len())),
    decreases ids.len() - k,
{
    if k == ids.len() {
        assert(ids.take(k) =~= ids);
        lemma_ids_close(s, p, ids);
    } else {
        let q = p + ids_text(ids.take(k)).len();
        assert(writable_id(ids[k]));
        lemma_ids_split(s, p, ids, k);
        lemma_id_item_at(s, q, ids[k]);
        lemma_ensemble_kws();
        lemma_ensemble_ids(s, p, ids, k + 1, st);
        assert(ids.take(k).push(ids[k]) =~= ids.take(k + 1));
    }
}

/// An ellipsoid item of an ensemble is read into its state.
#[verifier::spinoff_prover]
pub(crate) proof fn lemma_ens_item_ellipsoid(s: Seq<char>, p: int, st: EnsembleRest, el: EllipsoidV)
    requires
        writable_ellipsoid(el),
        at(s, p, seq![','] + ellipsoid_text(el)),
    ensures
        sp_ensemble_items(s, p, st) == sp_ensemble_items(s, p + 1 + ellipsoid_text(el).len(), (st.0, Some(el), st.2, st.3)),
{
    lemma_ensemble_kws();
    lemma_node_kws();
    lemma_at_split(s, p, seq![','], ellipsoid_text(el));
    lemma_at_char(s, p, seq![','], 0);
    let w = ellipsoid_text(el);
    lemma_at_char(s, p + 1, w, 0);
    assert(w =~= ("ELLIPSOID"@ + seq!['[']) + w.subrange(10, w.len() as int));
    lemma_at_split(s, p + 1, "ELLIPSOID"@ + seq!['['], w.subrange(10, w.len() as int));
    lemma_at_char(s, p + 1, w, 10);
    assert(w[10] == '"');
    lemma_item_start_at(s, p);
    lemma_open_kw_at(s, p + 1, "ELLIPSOID"@);
    lemma_ellipsoid_at(s, p + 1, el);
}

/// The accuracy item of an ensemble is read into its state.
#[verifier::spinoff_prover]
pub(crate) proof fn lemma_ens_item_accuracy(s: Seq<char>, p: int, st: EnsembleRest, d: DecimalV)
    requires
        writable_number(d),
        at(s, p, ",ENSEMBLEACCURACY["@ + decimal_text(d) + seq![']']),
    ensures
        sp_ensemble_items(s, p, st) == sp_ensemble_items(
            s,
            p + (",ENSEMBLEACCURACY["@ + decimal_text(d) + seq![']']).len(),
            (st.0, st.1, Some(d), st.3),
        ),
{
    lemma_ensemble_kws();
    let anode = "ENSEMBLEACCURACY"@ + seq!['['] + decimal_text(d) + seq![']'];
    assert(",ENSEMBLEACCURACY["@ + decimal_text(d) + seq![']'] =~= seq![','] + anode);
    lemma_at_split(s, p, seq![','], anode);
    lemma_at_char(s, p, seq![','], 0);
    lemma_at_char(s, p + 1, anode, 0);
    lemma_item_start_at(s, p);
    lemma_kw_number_at(s, p + 1, "ENSEMBLEACCURACY"@, d);
}

/// The ensemble items after its members are read.
#[verifier::spinoff_prover]
#[verifier::rlimit(30)]
pub(crate) proof fn lemma_ensemble_rest(s: Seq<char>, p: int, e: DatumEnsembleV)
    requires
        writable_ensemble(e),
        at(s, p, ensemble_rest_text(e)),
    ensures
        sp_ensemble_items(s, p, (e.members, None, None, Seq::empty())) == Ok::<(EnsembleRest, int), ParseErrorV>(
            ((e.members, e.ellipsoid, Some(e.accuracy), e.identifiers), p + ensemble_rest_text(e).len() - 1),
        ),
{
    let et = opt_ellipsoid_text(e.ellipsoid);
    let act = ",ENSEMBLEACCURACY["@ + decimal_text(e.accuracy) + seq![']'];
    let it = ids_text(e.identifiers);
    assert(ensemble_rest_text(e) =~= et + (act + (it + seq![']'])));
    lemma_at_split(s, p, et, act + (it + seq![']']));
    let p1 = p + et.len();
    lemma_at_split(s, p1, act, it + seq![']']);
    let p2 = p1 + act.len();
    lemma_ensemble_ids(s, p2, e.identifiers, 0, (e.members, e.ellipsoid, Some(e.accuracy), Seq::empty()));
    assert(e.identifiers.take(0) =~= Seq::<IdentifierV>::empty());
    lemma_ens_item_accuracy(s, p1, (e.members, e.ellipsoid, None, Seq::empty()), e.accuracy);
    match e.ellipsoid {
        Some(el) => {
            lemma_ens_item_ellipsoid(s, p, (e.members, None, None, Seq::empty()), el);
        },
        None => {},
    }
}

/// The members of an ensemble, from the `k`-th on, then the rest of its
/// items, are read.
#[verifier::spinoff_prover]
#[verifier::rlimit(30)]
pub(crate) proof fn lemma_ensemble_members(s: Seq<char>, p: int, e: DatumEnsembleV, k: int)
    requires
        writable_ensemble(e),
        0 <= k <= e.members.len(),
        at(s, p, members_text(e.members) + ensemble_rest_text(e)),
    ensures
        sp_ensemble_items(s, p + members_text(e.members.take(k)).len(), (e.members.take(k), None, None, Seq::empty()))
            == Ok::<(EnsembleRest, int), ParseErrorV>(
            (
                (e.members, e.ellipsoid, Some(e.accuracy), e.identifiers),
                p + members_text(e.members).len() + ensemble_rest_text(e).len() - 1,
            ),
        ),
    decreases e.members.len() - k,
{
    let ms = e.members;
    if k == ms.len() {
        assert(ms.take(k) =~= ms);
        lemma_at_split(s, p, members_text(ms), ensemble_rest_text(e));
        lemma_ensemble_rest(s, p + members_text(ms).len(), e);
    } else {
        let q = p + members_text(ms.take(k)).len();
        let m = ms[k];
        assert(writable_member(ms[k]));
        let t1 = ms.take(k + 1);
        assert(t1.drop_last() =~= ms.take(k));
        assert(t1.last() == m);
        let piece = seq![','] + member_text(m);
        lemma_members_prefix(ms, k + 1);
        let b = members_text(t1);
        let after = members_text(ms).subrange(b.len() as int, members_text(ms).len() as int);
        assert(members_text(ms) =~= members_text(ms).subrange(0, b.len() as int) + after);
        assert(members_text(ms) + ensemble_rest_text(e) =~= members_text(ms.take(k)) + (piece + (after
            + ensemble_rest_text(e))));
        lemma_at_split(s, p, members_text(ms.take(k)), piece + (after + ensemble_rest_text(e)));
        lemma_at_split(s, q, piece, after + ensemble_rest_text(e));
        lemma_at_split(s, q, seq![','], member_text(m));
        lemma_at_char(s, q, seq![','], 0);
        lemma_at_char(s, q + 1, member_text(m), 0);
        lemma_ensemble_kws();
        lemma_item_start_at(s, q);
        lemma_member_at(s, q + 1, m);
        lemma_ensemble_members(s, p, e, k + 1);
        assert(ms.take(k).push(m) =~= t1);
    }
}

/// The steps of reading a datum ensemble node standing at `p`.
#[verifier::spinoff_prover]
#[verifier::rlimit(60)]
pub(crate) proof fn lemma_ensemble_steps(s: Seq<char>, p: int, e: DatumEnsembleV)
    requires
        writable_ensemble(e),
        at(s, p, ensemble_text(e)),
    ensures
        ({
            let p1 = p + 9;
            let p2 = p1 + e.name.len() + 2;
            let p3 = p + ensemble_text(e).len() - 1;
            &&& sp_open_kw(s, p, "ENSEMBLE"@) == Ok::<int, ParseErrorV>(p1)
            &&& sp_peek_kw(s, p) == "ENSEMBLE"@
            &&& sp_quoted(s, p1) == Ok::<(Seq<char>, int), ParseErrorV>((e.name, p2))
            &&& sp_ensemble_items(s, p2, (Seq::empty(), None, None, Seq::empty())) == Ok::<
                (EnsembleRest, int),
                ParseErrorV,
            >(((e.members, e.ellipsoid, Some(e.accuracy), e.identifiers), p3))
            &&& sp_close(s, p3) == Ok::<int, ParseErrorV>(p3 + 1)
        }),
{
    lemma_ensemble_kws();
    let mt = members_text(e.members);
    let rt = ensemble_rest_text(e);
    let t0 = quoted(e.name) + (mt + rt);
    assert(ensemble_text(e) =~= ("ENSEMBLE"@ + seq!['[']) + t0);
    lemma_at_split(s, p, "ENSEMBLE"@ + seq!['['], t0);
    let p1 = p + 9;
    lemma_at_split(s, p1, quoted(e.name), mt + rt);
    lemma_at_char(s, p1, quoted(e.name), 0);
    lemma_open_kw_at(s, p, "ENSEMBLE"@);
    lemma_quoted_at(s, p1, e.name);
    let p2 = p1 + e.name.len() + 2;
    lemma_ensemble_members(s, p2, e, 0);
    assert(e.members.take(0) =~= Seq::<EnsembleMemberV>::empty());
    let p3 = p2 + mt.len() + rt.len() - 1;
    assert(rt[rt.len() - 1] == ']');
    lemma_at_split(s, p2, mt, rt);
    lemma_at_char(s, p2 + mt.len(), rt, rt.len() - 1);
    lemma_skip_none(s, p3);
    assert(p3 + 1 == p + ensemble_text(e).len());
}

/// A datum ensemble node standing at `p` is read as the ensemble, without a
/// prime meridian.
#[verifier::spinoff_prover]
pub(crate) proof fn lemma_ensemble_at(s: Seq<char>, p: int, e: DatumEnsembleV)
    requires
        writable_ensemble(e),
        at(s, p, ensemble_text(e)),
    ensures
        sp_ensemble(s, p) == Ok::<(DatumEnsembleV, int), ParseErrorV>(
            (DatumEnsembleV { prime_meridian: None, ..e }, p + ensemble_text(e).len()),
        ),
        sp_peek_kw(s, p) == "ENSEMBLE"@,
{
    lemma_ensemble_steps(s, p, e);
}

/// A datum ensemble written by the writer is read back as that ensemble; its
/// prime meridian, which the writer puts beside it, is not part of it.
pub proof fn law_ensemble_reads_back(acc: Seq<char>, e: DatumEnsembleV, rest: Seq<char>)
    requires
        writable_ensemble(e),
    ensures
        sp_ensemble(wr_ensemble(acc, e) + rest, acc.len() as int) == Ok::<(DatumEnsembleV, int), ParseErrorV>(
            (DatumEnsembleV { prime_meridian: None, ..e }, wr_ensemble(acc, e).len() as int),
        ),
{
    lemma_wr_ensemble(acc, e);
    let w = ensemble_text(e);
    let s = wr_ensemble(acc, e) + rest;
    let p = acc.len() as int;
    assert(s.subrange(p, p + w.len()) =~= w);
    lemma_ensemble_at(s, p, e);
}

/// The text of a prime meridian node.
pub open spec fn pm_text(m: PrimeMeridianV) -> Seq<char> {
    named_value_text("PRIMEM"@, m.name, m.irm_longitude, m.unit, m.identifiers)
}

/// Whether a prime meridian can be written and read back.
pub open spec fn writable_pm(m: PrimeMeridianV) -> bool {
    &&& quotable(m.name)
    &&& writable_number(m.irm_longitude)
    &&& (m.unit matches Some(x) ==> writable_unit(x))
    &&& writable_ids(m.identifiers)
}

pub open spec fn opt_pm_text(m: Option<PrimeMeridianV>) -> Seq<char> {
    match m {
        Some(m) => seq![','] + pm_text(m),
        None => Seq::empty(),
    }
}

/// The prime meridian of a datum.
pub open spec fn datum_pm(d: DatumV) -> Option<PrimeMeridianV> {
    match d {
        DatumV::ReferenceFrame(f) => f.prime_meridian,
        DatumV::Ensemble(e) => e.prime_meridian,
    }
}

/// The text of a datum node, without its prime meridian.
pub open spec fn datum_node_text(d: DatumV) -> Seq<char> {
    match d {
        DatumV::ReferenceFrame(f) => frame_text(f),
        DatumV::Ensemble(e) => ensemble_text(e),
    }
}

/// The datum without its prime meridian, as its node alone is read.
pub open spec fn datum_alone(d: DatumV) -> DatumV {
    match d {
        DatumV::ReferenceFrame(f) => DatumV::ReferenceFrame(GeodeticReferenceFrameV { prime_meridian: None, ..f }),
        DatumV::Ensemble(e) => DatumV::Ensemble(DatumEnsembleV { prime_meridian: None, ..e }),
    }
}

/// Whether a datum and its prime meridian can be written and read back.
pub open spec fn writable_datum(d: DatumV) -> bool {
    &&& match d {
        DatumV::ReferenceFrame(f) => writable_frame(f),
        DatumV::Ensemble(e) => writable_ensemble(e),
    }
    &&& (datum_pm(d) matches Some(m) ==> writable_pm(m))
}

pub open spec fn opt_dynamic_text(d: Option<DynamicCrsV>) -> Seq<char> {
    match d {
        Some(d) => seq![','] + dynamic_text(d),
        None => Seq::empty(),
    }
}

/// The text of a base geodetic CRS node.
pub open spec fn base_text(b: BaseGeodeticCrsV) -> Seq<char> {
    base_geodetic_kw_text(b.keyword) + seq!['['] + quoted(b.name) + opt_dynamic_text(b.dynamic) + seq![',']
        + datum_node_text(b.datum) + opt_pm_text(datum_pm(b.datum)) + opt_unit_text(b.ellipsoidal_cs_unit)
        + ids_text(b.identifiers) + seq![']']
}

/// Whether a base geodetic CRS can be written and read back.
pub open spec fn writable_base(b: BaseGeodeticCrsV) -> bool {
    &&& quotable(b.name)
    &&& (b.dynamic matches Some(d) ==> writable_dynamic(d))
    &&& writable_datum(b.datum)
    &&& (b.ellipsoidal_cs_unit matches Some(u) ==> writable_unit(u))
    &&& writable_ids(b.identifiers)
}

pub(crate) proof fn lemma_wr_pm(acc: Seq<char>, m: PrimeMeridianV)
    ensures
        wr_pm(acc, m) == acc + pm_text(m),
{
    lemma_node_kws();
    let q0 = wr_quoted(acc + "PRIMEM["@, m.name);
    lemma_wr_quoted(acc + "PRIMEM["@, m.name);
    let a0 = q0.push(',') + decimal_text(m.irm_longitude);
    let x = "PRIMEM"@ + seq!['['] + quoted(m.name) + seq![','] + decimal_text(m.irm_longitude);
    assert(a0 =~= acc + x);
    lemma_wr_unit_ids_close(acc, x, a0, m.unit, m.identifiers);
    assert(x + opt_unit_text(m.unit) + ids_text(m.identifiers) + seq![']'] =~= pm_text(m));
}

pub(crate) proof fn lemma_wr_opt_pm(acc: Seq<char>, m: Option<PrimeMeridianV>)
    ensures
        wr_opt_pm(acc, m) == acc + opt_pm_text(m),
{
    match m {
        Some(x) => {
            lemma_wr_pm(acc.push(','), x);
            assert(acc.push(',') + pm_text(x) =~= acc + opt_pm_text(m));
        },
        None => {
            assert(acc =~= acc + opt_pm_text(m));
        },
    }
}

#[verifier::spinoff_prover]
pub(crate) proof fn lemma_wr_datum_frame(acc: Seq<char>, f: GeodeticReferenceFrameV)
    ensures
        wr_opt_pm(wr_grf(acc.push(','), f), f.prime_meridian) == acc + (seq![','] + frame_text(f) + opt_pm_text(
            f.prime_meridian,
        )),
{
    let b = acc.push(',');
    lemma_wr_frame(b, f);
    lemma_wr_opt_pm(wr_grf(b, f), f.prime_meridian);
    assert(b =~= acc + seq![',']);
    lemma_assoc(acc, seq![','], frame_text(f));
    lemma_assoc(acc, seq![','] + frame_text(f), opt_pm_text(f.prime_meridian));
}

#[verifier::spinoff_prover]
pub(crate) proof fn lemma_wr_datum_ensemble(acc: Seq<char>, e: DatumEnsembleV)
    ensures
        wr_opt_pm(wr_ensemble(acc.push(','), e), e.prime_meridian) == acc + (seq![','] + ensemble_text(e)
            + opt_pm_text(e.prime_meridian)),
{
    let b = acc.push(',');
    lemma_wr_ensemble(b, e);
    lemma_wr_opt_pm(wr_ensemble(b, e), e.prime_meridian);
    assert(b =~= acc + seq![',']);
    lemma_assoc(acc, seq![','], ensemble_text(e));
    lemma_assoc(acc, seq![','] + ensemble_text(e), opt_pm_text(e.prime_meridian));
}

#[verifier::spinoff_prover]
pub(crate) proof fn lemma_wr_datum(acc: Seq<char>, d: DatumV)
    ensures
        wr_datum(acc, d) == acc + (seq![','] + datum_node_text(d) + opt_pm_text(datum_pm(d))),
{
    match d {
        DatumV::ReferenceFrame(f) => {
            lemma_wr_datum_frame(acc, f);
        },
        DatumV::Ensemble(e) => {
            lemma_wr_datum_ensemble(acc, e);
        },
    }
}

pub(crate) proof fn lemma_wr_opt_dynamic(acc: Seq<char>, d: Option<DynamicCrsV>)
    ensures
        wr_opt_dynamic(acc, d) == acc + opt_dynamic_text(d),
{
    match d {
        Some(x) => {
            lemma_wr_dynamic(acc.push(','), x);
            assert(acc.push(',') + dynamic_text(x) =~= acc + opt_dynamic_text(d));
        },
        None => {
            assert(acc =~= acc + opt_dynamic_text(d));
        },
    }
}

#[verifier::spinoff_prover]
#[verifier::rlimit(30)]
pub(crate) proof fn lemma_wr_base(acc: Seq<char>, b: BaseGeodeticCrsV)
    ensures
        wr_base_geodetic(acc, b) == acc + base_text(b),
{
    let kt = base_geodetic_kw_text(b.keyword);
    let a0 = wr_quoted((acc + kt).push('['), b.name);
    lemma_wr_quoted((acc + kt).push('['), b.name);
    let x0 = kt + seq!['['] + quoted(b.name);
    assert(a0 =~= acc + x0);
    let dy = opt_dynamic_text(b.dynamic);
    lemma_wr_opt_dynamic(a0, b.dynamic);
    let a1 = wr_opt_dynamic(a0, b.dynamic);
    lemma_step(acc, x0, a0, dy, a1);
    let dn = seq![','] + datum_node_text(b.datum) + opt_pm_text(datum_pm(b.datum));
    lemma_wr_datum(a1, b.datum);
    let a2 = wr_datum(a1, b.datum);
    lemma_step(acc, x0 + dy, a1, dn, a2);
    let a3 = wr_opt_unit(a2, b.ellipsoidal_cs_unit);
    lemma_wr_unit_ids_close(acc, x0 + dy + dn, a2, b.ellipsoidal_cs_unit, b.identifiers);
    assert(x0 + dy + dn + opt_unit_text(b.ellipsoidal_cs_unit) + ids_text(b.identifiers) + seq![']'] =~= base_text(b));
}

pub(crate) proof fn lemma_base_kws()
    ensures
        "PRIMEM"@ != "PRIMEMERIDIAN"@ ==> true,
        is_pm_kw("PRIMEM"@),
        !is_pm_kw("ID"@),
        "DYNAMIC"@ != "ENSEMBLE"@,
        "DATUM"@ != "ENSEMBLE"@ && "TRF"@ != "ENSEMBLE"@ && "GEODETICDATUM"@ != "ENSEMBLE"@,
        "BASEGEODCRS"@ != "BASEGEOGCRS"@,
        "BASEGEODCRS"@.len() == 11 && "BASEGEOGCRS"@.len() == 11,
        forall|i: int| 0 <= i < 11 ==> is_upper(#[trigger] "BASEGEODCRS"@[i]),
        forall|i: int| 0 <= i < 11 ==> is_upper(#[trigger] "BASEGEOGCRS"@[i]),
        forall|k: UnitKeyword| !is_pm_kw(#[trigger] unit_kw_text(k)),
        "DYNAMIC"@ != "DATUM"@,
{
    reveal_strlit("PRIMEM");
    reveal_strlit("PRIMEMERIDIAN");
    reveal_strlit("ID");
    reveal_strlit("DYNAMIC");
    reveal_strlit("ENSEMBLE");
    reveal_strlit("DATUM");
    reveal_strlit("TRF");
    reveal_strlit("GEODETICDATUM");
    reveal_strlit("BASEGEODCRS");
    reveal_strlit("BASEGEOGCRS");
    reveal_strlit("ANGLEUNIT");
    reveal_strlit("LENGTHUNIT");
    reveal_strlit("PARAMETRICUNIT");
    reveal_strlit("SCALEUNIT");
    reveal_strlit("TIMEUNIT");
    reveal_strlit("UNIT");
    assert("BASEGEODCRS"@[7] != "BASEGEOGCRS"@[7]);
    assert("ID"@.len() == 2 && "PRIMEM"@.len() == 6 && "PRIMEMERIDIAN"@.len() == 13);
    assert("DYNAMIC"@.len() == 7 && "ENSEMBLE"@.len() == 8 && "DATUM"@.len() == 5);
    assert forall|k: UnitKeyword| !is_pm_kw(#[trigger] unit_kw_text(k)) by {
        assert(unit_kw_text(k)[0] != 'P' || unit_kw_text(k).len() == 14);
    }
}

pub(crate) proof fn lemma_base_kw(k: BaseGeodeticCrsKeyword)
    ensures
        base_geodetic_kw_text(k) == "BASEGEODCRS"@ || base_geodetic_kw_text(k) == "BASEGEOGCRS"@,
        (if base_geodetic_kw_text(k) == "BASEGEODCRS"@ {
            BaseGeodeticCrsKeyword::BaseGeodCrs
        } else {
            BaseGeodeticCrsKeyword::BaseGeogCrs
        }) == k,
        base_geodetic_kw_text(k).len() == 11,
        forall|i: int| 0 <= i < 11 ==> is_upper(#[trigger] base_geodetic_kw_text(k)[i]),
{
    lemma_base_kws();
}

/// Identifiers of a base geodetic CRS are read, from the `k`-th on.
#[verifier::spinoff_prover]
pub(crate) proof fn lemma_base_ids(s: Seq<char>, p: int, ids: Seq<IdentifierV>, k: int, d: DatumV, u: Option<UnitV>)
    requires
        writable_ids(ids),
        0 <= k <= ids.len(),
        at(s, p, ids_text(ids) + seq![']']),
    ensures
        sp_base_items(s, p + ids_text(ids.take(k)).len(), (d, u, ids.take(k))) == Ok::<(BaseRest, int), ParseErrorV>(
            ((d, u, ids), p + ids_text(ids).len()),
        ),
    decreases ids.len() - k,
{
    if k == ids.len() {
        assert(ids.take(k) =~= ids);
        lemma_ids_close(s, p, ids);
    } else {
        let q = p + ids_text(ids.take(k)).len();
        assert(writable_id(ids[k]));
        lemma_ids_split(s, p, ids, k);
        lemma_id_item_at(s, q, ids[k]);
        lemma_base_kws();
        lemma_id_not_unit();
        lemma_base_ids(s, p, ids, k + 1, d, u);
        assert(ids.take(k).push(ids[k]) =~= ids.take(k + 1));
    }
}

pub(crate) proof fn lemma_id_not_unit()
    ensures
        !is_unit_kw("ID"@),
        !is_pm_kw("ID"@),
        "DYNAMIC"@ != "DATUM"@ && "DYNAMIC"@ != "TRF"@ && "DYNAMIC"@ != "GEODETICDATUM"@
            && "DYNAMIC"@ != "ENSEMBLE"@,
{
    reveal_strlit("ANGLEUNIT");
    reveal_strlit("LENGTHUNIT");
    reveal_strlit("PARAMETRICUNIT");
    reveal_strlit("SCALEUNIT");
    reveal_strlit("TIMEUNIT");
    reveal_strlit("TEMPORALQUANTITY");
    reveal_strlit("UNIT");
    reveal_strlit("ID");
    reveal_strlit("PRIMEM");
    reveal_strlit("PRIMEMERIDIAN");
    reveal_strlit("DYNAMIC");
    reveal_strlit("DATUM");
    reveal_strlit("TRF");
    reveal_strlit("GEODETICDATUM");
    reveal_strlit("ENSEMBLE");
    assert("ID"@.len() == 2 && "UNIT"@.len() == 4 && "PRIMEM"@.len() == 6);
    assert("DYNAMIC"@.len() == 7 && "DATUM"@.len() == 5 && "TRF"@.len() == 3 && "ENSEMBLE"@.len() == 8);
}

/// A unit node after a comma, at `q`: the comma starts an item, and the
/// node is read.
#[verifier::spinoff_prover]
pub(crate) proof fn lemma_unit_item_at(s: Seq<char>, q: int, x: UnitV)
    requires
        writable_unit(x),
        at(s, q, seq![','] + unit_text(x)),
    ensures
        sp_item_start(s, q) == Ok::<int, ParseErrorV>(q + 1),
        !sp_at_close(s, q),
        sp_peek_kw(s, q + 1) == unit_kw_text(x.keyword),
        sp_unit(s, q + 1) == Ok::<(UnitV, int), ParseErrorV>((x, q + 1 + unit_text(x).len())),
{
    lemma_at_split(s, q, seq![','], unit_text(x));
    lemma_at_char(s, q, seq![','], 0);
    lemma_unit_kw(x.keyword);
    lemma_at_char(s, q + 1, unit_text(x), 0);
    assert(unit_text(x)[0] == unit_kw_text(x.keyword)[0]);
    lemma_item_start_at(s, q);
    let kt = unit_kw_text(x.keyword);
    assert(unit_text(x) =~= (kt + seq!['[']) + unit_text(x).subrange((kt.len() + 1) as int, unit_text(x).len() as int));
    lemma_at_split(s, q + 1, kt + seq!['['], unit_text(x).subrange((kt.len() + 1) as int, unit_text(x).len() as int));
    lemma_at_char(s, q + 1, unit_text(x), (kt.len() + 1) as int);
    assert(unit_text(x)[(kt.len() + 1) as int] == '"');
    lemma_open_kw_at(s, q + 1, kt);
    lemma_unit_at(s, q + 1, x);
}

/// A prime meridian node after a comma, at `q`: the comma starts an item,
/// and the node is read.
#[verifier::spinoff_prover]
pub(crate) proof fn lemma_pm_item_at(s: Seq<char>, q: int, m: PrimeMeridianV)
    requires
        writable_pm(m),
        at(s, q, seq![','] + pm_text(m)),
    ensures
        sp_item_start(s, q) == Ok::<int, ParseErrorV>(q + 1),
        !sp_at_close(s, q),
        sp_peek_kw(s, q + 1) == "PRIMEM"@,
        sp_prime_meridian(s, q + 1) == Ok::<(PrimeMeridianV, int), ParseErrorV>((m, q + 1 + pm_text(m).len())),
{
    lemma_node_kws();
    lemma_at_split(s, q, seq![','], pm_text(m));
    lemma_at_char(s, q, seq![','], 0);
    let w = pm_text(m);
    assert(w =~= ("PRIMEM"@ + seq!['[']) + w.subrange(7, w.len() as int));
    lemma_at_split(s, q + 1, "PRIMEM"@ + seq!['['], w.subrange(7, w.len() as int));
    lemma_at_char(s, q + 1, "PRIMEM"@ + seq!['['], 0);
    lemma_at_char(s, q + 1, w, 7);
    assert(w[7] == '"');
    lemma_item_start_at(s, q);
    lemma_open_kw_at(s, q + 1, "PRIMEM"@);
    lemma_pm_at(s, q + 1, m);
}

/// A unit item of a base geodetic CRS is read into its state.
#[verifier::spinoff_prover]
pub(crate) proof fn lemma_base_unit_step(s: Seq<char>, p: int, st: BaseRest, u: UnitV)
    requires
        writable_unit(u),
        at(s, p, seq![','] + unit_text(u)),
    ensures
        sp_base_items(s, p, st) == sp_base_items(s, p + 1 + unit_text(u).len(), (st.0, Some(u), st.2)),
{
    lemma_unit_item_at(s, p, u);
    lemma_unit_kw(u.keyword);
    lemma_base_kws();
    assert(!is_pm_kw(unit_kw_text(u.keyword)));
}

/// A prime meridian item of a base geodetic CRS is read into its state.
#[verifier::spinoff_prover]
pub(crate) proof fn lemma_base_pm_step(s: Seq<char>, p: int, st: BaseRest, m: PrimeMeridianV)
    requires
        writable_pm(m),
        at(s, p, seq![','] + pm_text(m)),
    ensures
        sp_base_items(s, p, st) == sp_base_items(s, p + 1 + pm_text(m).len(), (with_pm(st.0, m), st.1, st.2)),
{
    lemma_pm_item_at(s, p, m);
    lemma_base_kws();
}

/// The items of a base geodetic CRS after its datum are read.
#[verifier::spinoff_prover]
#[verifier::rlimit(30)]
pub(crate) proof fn lemma_base_items_at(s: Seq<char>, p: int, b: BaseGeodeticCrsV)
    requires
        writable_base(b),
        at(s, p, opt_pm_text(datum_pm(b.datum)) + opt_unit_text(b.ellipsoidal_cs_unit) + ids_text(b.identifiers)
            + seq![']']),
    ensures
        sp_base_items(s, p, (datum_alone(b.datum), None, Seq::empty())) == Ok::<(BaseRest, int), ParseErrorV>(
            (
                (b.datum, b.ellipsoidal_cs_unit, b.identifiers),
                p + opt_pm_text(datum_pm(b.datum)).len() + opt_unit_text(b.ellipsoidal_cs_unit).len() + ids_text(
                    b.identifiers,
                ).len(),
            ),
        ),
{
    let pt = opt_pm_text(datum_pm(b.datum));
    let ut = opt_unit_text(b.ellipsoidal_cs_unit);
    let it = ids_text(b.identifiers);
    assert(pt + ut + it + seq![']'] =~= pt + (ut + (it + seq![']'])));
    lemma_at_split(s, p, pt, ut + (it + seq![']']));
    let p1 = p + pt.len();
    lemma_at_split(s, p1, ut, it + seq![']']);
    let p2 = p1 + ut.len();
    lemma_base_ids(s, p2, b.identifiers, 0, b.datum, b.ellipsoidal_cs_unit);
    assert(b.identifiers.take(0) =~= Seq::<IdentifierV>::empty());
    match b.ellipsoidal_cs_unit {
        Some(u) => {
            lemma_base_unit_step(s, p1, (b.datum, None, Seq::empty()), u);
        },
        None => {},
    }
    match datum_pm(b.datum) {
        Some(m) => {
            lemma_base_pm_step(s, p, (datum_alone(b.datum), None, Seq::empty()), m);
            assert(with_pm(datum_alone(b.datum), m) == b.datum);
        },
        None => {
            assert(datum_alone(b.datum) == b.datum);
        },
    }
}

/// A datum node standing at `p` is read as the datum without its prime
/// meridian.
#[verifier::spinoff_prover]
pub(crate) proof fn lemma_datum_at(s: Seq<char>, p: int, d: DatumV)
    requires
        writable_datum(d),
        at(s, p, datum_node_text(d)),
    ensures
        sp_geo_datum(s, p) == Ok::<(DatumV, int), ParseErrorV>((datum_alone(d), p + datum_node_text(d).len())),
        datum_node_text(d).len() > 0,
        !is_ws(s[p]),
        sp_peek_kw(s, p) != "DYNAMIC"@,
{
    lemma_base_kws();
    match d {
        DatumV::ReferenceFrame(f) => {
            lemma_datum_kw(f.keyword);
            lemma_frame_steps(s, p, f);
            lemma_frame_at(s, p, f);
            let kt = datum_kw_text(f.keyword);
            assert(frame_text(f) =~= (kt + seq!['[']) + frame_text(f).subrange((kt.len() + 1) as int, frame_text(f).len() as int));
            lemma_at_split(s, p, kt + seq!['['], frame_text(f).subrange((kt.len() + 1) as int, frame_text(f).len() as int));
            lemma_at_char(s, p, kt + seq!['['], 0);
            lemma_at_char(s, p, frame_text(f), kt.len() as int);
            lemma_at_char(s, p, frame_text(f), (kt.len() + 1) as int);
            assert(frame_text(f)[(kt.len() + 1) as int] == '"');
            lemma_open_kw_at(s, p, kt);
            lemma_id_not_unit();
            assert(kt != "ENSEMBLE"@);
        },
        DatumV::Ensemble(e) => {
            lemma_ensemble_at(s, p, e);
            lemma_ensemble_kws();
            lemma_id_not_unit();
            lemma_at_char(s, p, ensemble_text(e), 0);
        },
    }
}

/// The optional dynamic node of a base CRS, after the comma that follows its
/// name, is read, up to the start of the datum.
#[verifier::spinoff_prover]
#[verifier::rlimit(30)]
pub(crate) proof fn lemma_dynamic_opt_at(s: Seq<char>, q: int, dy: Option<DynamicCrsV>, d: DatumV)
    requires
        dy matches Some(x) ==> writable_dynamic(x),
        writable_datum(d),
        at(s, q, (match dy {
            Some(x) => dynamic_text(x) + seq![','],
            None => Seq::empty(),
        }) + datum_node_text(d)),
    ensures
        ({
            let k = match dy {
                Some(x) => dynamic_text(x).len() + 1,
                None => 0,
            };
            &&& sp_dynamic_opt(s, q) == Ok::<(Option<DynamicCrsV>, int), ParseErrorV>((dy, q + k))
            &&& at(s, q + k, datum_node_text(d))
        }),
        !is_ws(s[q]),
{
    lemma_datum_kws();
    lemma_id_not_unit();
    match dy {
        Some(x) => {
            let dt = dynamic_text(x);
            assert(dt + seq![','] + datum_node_text(d) =~= dt + (seq![','] + datum_node_text(d)));
            lemma_at_split(s, q, dt, seq![','] + datum_node_text(d));
            lemma_at_split(s, q + dt.len(), seq![','], datum_node_text(d));
            lemma_at_char(s, q + dt.len(), seq![','], 0);
            lemma_datum_at(s, q + dt.len() + 1, d);
            lemma_dynamic_at(s, q, x);
            let w = dt;
            assert(w =~= ("DYNAMIC"@ + seq!['[']) + w.subrange(8, w.len() as int));
            lemma_at_split(s, q, "DYNAMIC"@ + seq!['['], w.subrange(8, w.len() as int));
            lemma_at_char(s, q, w, 8);
            lemma_at_char(s, q, w, 0);
            assert(w[8] == 'F') by {
                reveal_strlit("FRAMEEPOCH");
            }
            lemma_open_kw_at(s, q, "DYNAMIC"@);
            lemma_ws_char_ws_at(s, q + dt.len(), ',');
        },
        None => {
            assert(Seq::<char>::empty() + datum_node_text(d) =~= datum_node_text(d));
            lemma_datum_at(s, q, d);
        },
    }
}

/// What follows a base geodetic CRS's name: its optional dynamic node, its
/// datum, and its trailing items.
pub open spec fn base_after_name(b: BaseGeodeticCrsV) -> Seq<char> {
    (match b.dynamic {
        Some(x) => dynamic_text(x) + seq![','],
        None => Seq::empty(),
    }) + datum_node_text(b.datum) + (opt_pm_text(datum_pm(b.datum)) + opt_unit_text(b.ellipsoidal_cs_unit)
        + ids_text(b.identifiers) + seq![']'])
}

/// The steps of reading what follows a base geodetic CRS's name.
#[verifier::spinoff_prover]
#[verifier::rlimit(40)]
pub(crate) proof fn lemma_base_after_name(s: Seq<char>, q4: int, b: BaseGeodeticCrsV)
    requires
        writable_base(b),
        at(s, q4, base_after_name(b)),
    ensures
        ({
            let k = match b.dynamic {
                Some(x) => dynamic_text(x).len() + 1,
                None => 0,
            };
            let q5 = q4 + k;
            let q6 = q5 + datum_node_text(b.datum).len();
            let q7 = q4 + base_after_name(b).len() - 1;
            &&& sp_dynamic_opt(s, q4) == Ok::<(Option<DynamicCrsV>, int), ParseErrorV>((b.dynamic, q5))
            &&& sp_geo_datum(s, q5) == Ok::<(DatumV, int), ParseErrorV>((datum_alone(b.datum), q6))
            &&& sp_base_items(s, q6, (datum_alone(b.datum), None, Seq::empty())) == Ok::<(BaseRest, int), ParseErrorV>(
                ((b.datum, b.ellipsoidal_cs_unit, b.identifiers), q7),
            )
            &&& sp_close(s, q7) == Ok::<int, ParseErrorV>(q7 + 1)
            &&& !is_ws(s[q4])
        }),
{
    let dyt = match b.dynamic {
        Some(x) => dynamic_text(x) + seq![','],
        None => Seq::empty(),
    };
    let dn = datum_node_text(b.datum);
    let rest = opt_pm_text(datum_pm(b.datum)) + opt_unit_text(b.ellipsoidal_cs_unit) + ids_text(b.identifiers)
        + seq![']'];
    lemma_at_split(s, q4, dyt + dn, rest);
    lemma_dynamic_opt_at(s, q4, b.dynamic, b.datum);
    let q5 = q4 + dyt.len();
    lemma_datum_at(s, q5, b.datum);
    let q6 = q5 + dn.len();
    lemma_base_items_at(s, q6, b);
    let q7 = q6 + rest.len() - 1;
    lemma_at_char(s, q6, rest, rest.len() - 1);
    lemma_skip_none(s, q7);
}

pub(crate) proof fn lemma_base_shape(
    kt: Seq<char>,
    lb: Seq<char>,
    qn: Seq<char>,
    odt: Seq<char>,
    c: Seq<char>,
    dyt: Seq<char>,
    dn: Seq<char>,
    pm: Seq<char>,
    u: Seq<char>,
    ids: Seq<char>,
    cl: Seq<char>,
)
    requires
        odt + c == c + dyt,
    ensures
        kt + lb + qn + odt + c + dn + pm + u + ids + cl == (kt + lb) + (qn + (c + ((dyt + dn) + (pm + u + ids
            + cl)))),
{
    assert(kt + lb + qn + odt + c == kt + lb + qn + (odt + c)) by {
        lemma_assoc(kt + lb + qn, odt, c);
    }
    assert(kt + lb + qn + odt + c + dn + pm + u + ids + cl =~= (kt + lb) + (qn + (c + ((dyt + dn) + (pm + u + ids
        + cl)))));
}

pub(crate) proof fn lemma_base_text_split(b: BaseGeodeticCrsV)
    ensures
        base_text(b) == (base_geodetic_kw_text(b.keyword) + seq!['[']) + (quoted(b.name) + (seq![',']
            + base_after_name(b))),
{
    let dyt = match b.dynamic {
        Some(x) => dynamic_text(x) + seq![','],
        None => Seq::empty(),
    };
    let odt = opt_dynamic_text(b.dynamic);
    assert(odt + seq![','] == seq![','] + dyt) by {
        match b.dynamic {
            Some(x) => {
                lemma_assoc(seq![','], dynamic_text(x), seq![',']);
            },
            None => {
                assert(odt + seq![','] =~= seq![','] + dyt);
            },
        }
    }
    lemma_base_shape(
        base_geodetic_kw_text(b.keyword),
        seq!['['],
        quoted(b.name),
        odt,
        seq![','],
        dyt,
        datum_node_text(b.datum),
        opt_pm_text(datum_pm(b.datum)),
        opt_unit_text(b.ellipsoidal_cs_unit),
        ids_text(b.identifiers),
        seq![']'],
    );
}

/// The steps of reading a base geodetic CRS node standing at `p`.
#[verifier::spinoff_prover]
#[verifier::rlimit(40)]
pub(crate) proof fn lemma_base_steps(s: Seq<char>, p: int, b: BaseGeodeticCrsV)
    requires
        writable_base(b),
        at(s, p, base_text(b)),
    ensures
        ({
            let kt = base_geodetic_kw_text(b.keyword);
            let p1 = p + 12;
            let p2 = p1 + b.name.len() + 2;
            &&& sp_keyword(s, p) == Ok::<(Seq<char>, int), ParseErrorV>((kt, p + 11))
            &&& sp_ws_char_ws(s, p + 11, '[') == Ok::<int, ParseErrorV>(p1)
            &&& sp_quoted(s, p1) == Ok::<(Seq<char>, int), ParseErrorV>((b.name, p2))
            &&& sp_ws_char_ws(s, p2, ',') == Ok::<int, ParseErrorV>(p2 + 1)
            &&& at(s, p2 + 1, base_after_name(b))
            &&& p2 + 1 + base_after_name(b).len() == p + base_text(b).len()
        }),
{
    let kt = base_geodetic_kw_text(b.keyword);
    lemma_base_kw(b.keyword);
    let ba = base_after_name(b);
    lemma_base_text_split(b);
    lemma_at_split(s, p, kt + seq!['['], quoted(b.name) + (seq![','] + ba));
    let p1 = p + 12;
    lemma_at_split(s, p1, quoted(b.name), seq![','] + ba);
    lemma_at_char(s, p1, quoted(b.name), 0);
    let p2 = p1 + b.name.len() + 2;
    lemma_at_split(s, p2, seq![','], ba);
    lemma_at_char(s, p2, seq![','], 0);
    lemma_base_after_name(s, p2 + 1, b);
    lemma_open_kw_at(s, p, kt);
    lemma_quoted_at(s, p1, b.name);
    lemma_ws_char_ws_at(s, p2, ',');
}

/// A base geodetic CRS node standing at `p` is read as the base CRS.
#[verifier::spinoff_prover]
#[verifier::rlimit(40)]
pub(crate) proof fn lemma_base_at(s: Seq<char>, p: int, b: BaseGeodeticCrsV)
    requires
        writable_base(b),
        at(s, p, base_text(b)),
    ensures
        sp_base_geodetic(s, p) == Ok::<(BaseGeodeticCrsV, int), ParseErrorV>((b, p + base_text(b).len())),
{
    lemma_base_kw(b.keyword);
    lemma_base_steps(s, p, b);
    let p2 = p + 12 + b.name.len() + 2;
    lemma_base_after_name(s, p2 + 1, b);
}

/// A base geodetic CRS written by the writer is read back as that base CRS.
pub proof fn law_base_geodetic_reads_back(acc: Seq<char>, b: BaseGeodeticCrsV, rest: Seq<char>)
    requires
        writable_base(b),
    ensures
        sp_base_geodetic(wr_base_geodetic(acc, b) + rest, acc.len() as int) == Ok::<
            (BaseGeodeticCrsV, int),
            ParseErrorV,
        >((b, wr_base_geodetic(acc, b).len() as int)),
{
    lemma_wr_base(acc, b);
    let w = base_text(b);
    let s = wr_base_geodetic(acc, b) + rest;
    let p = acc.len() as int;
    assert(s.subrange(p, p + w.len()) =~= w);
    lemma_base_at(s, p, b);
}

pub(crate) proof fn lemma_meridian_kw()
    ensures
        "MERIDIAN["@ == "MERIDIAN"@ + seq!['['],
        "MERIDIAN"@.len() == 8,
        forall|i: int| 0 <= i < 8 ==> is_upper(#[trigger] "MERIDIAN"@[i]),
{
    reveal_strlit("MERIDIAN[");
    reveal_strlit("MERIDIAN");
    assert("MERIDIAN["@ =~= "MERIDIAN"@ + seq!['[']);
}

/// The text of a meridian node.
pub open spec fn meridian_text(m: MeridianV) -> Seq<char> {
    "MERIDIAN"@ + seq!['['] + decimal_text(m.value) + seq![','] + unit_text(m.unit) + seq![']']
}

/// A meridian node standing at `p` is read as the meridian.
#[verifier::spinoff_prover]
pub(crate) proof fn lemma_meridian_at(s: Seq<char>, p: int, m: MeridianV)
    requires
        writable_number(m.value),
        writable_unit(m.unit),
        at(s, p, meridian_text(m)),
    ensures
        sp_meridian(s, p) == Ok::<(MeridianV, int), ParseErrorV>((m, p + meridian_text(m).len())),
        sp_peek_kw(s, p) == "MERIDIAN"@,
{
    lemma_meridian_kw();
    let dt = decimal_text(m.value);
    let ut = unit_text(m.unit);
    let t0 = dt + (seq![','] + (ut + seq![']']));
    assert(meridian_text(m) =~= ("MERIDIAN"@ + seq!['[']) + t0);
    lemma_at_split(s, p, "MERIDIAN"@ + seq!['['], t0);
    let q0 = p + 9;
    lemma_number_then(s, q0, m.value, ',', ut + seq![']']);
    lemma_open_kw_at(s, p, "MERIDIAN"@);
    let q1 = q0 + dt.len();
    lemma_at_split(s, q1 + 1, ut, seq![']']);
    lemma_unit_kw(m.unit.keyword);
    lemma_at_char(s, q1 + 1, ut, 0);
    assert(ut[0] == unit_kw_text(m.unit.keyword)[0]);
    lemma_ws_char_ws_at(s, q1, ',');
    lemma_unit_at(s, q1 + 1, m.unit);
    let q2 = q1 + 1 + ut.len();
    lemma_at_char(s, q2, seq![']'], 0);
    lemma_skip_none(s, q2);
    assert(q2 + 1 == p + meridian_text(m).len());
}

/// A meridian written by the writer is read back as that meridian.
pub proof fn law_meridian_reads_back(acc: Seq<char>, m: MeridianV, rest: Seq<char>)
    requires
        writable_number(m.value),
        writable_unit(m.unit),
    ensures
        sp_meridian(wr_meridian(acc, m) + rest, acc.len() as int) == Ok::<(MeridianV, int), ParseErrorV>(
            (m, wr_meridian(acc, m).len() as int),
        ),
{
    lemma_meridian_kw();
    let a0 = (acc + "MERIDIAN["@ + decimal_text(m.value)).push(',');
    lemma_wr_unit(a0, m.unit);
    assert(wr_meridian(acc, m) =~= acc + meridian_text(m));
    let s = wr_meridian(acc, m) + rest;
    let p = acc.len() as int;
    assert(s.subrange(p, p + meridian_text(m).len()) =~= meridian_text(m));
    lemma_meridian_at(s, p, m);
}

} // verus!
