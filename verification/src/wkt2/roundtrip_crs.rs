//! Reading back what the WKT2 writer writes, from coordinate systems and
//! their axes up to whole CRSs.
use vstd::prelude::*;
use crate::crs::{CsType, RangeMeaning, UnitKeyword};
use crate::decimal::{
    char_of_digit, decimal_text, digit_text, digits_of_nat, nat_of_digits, nat_text, normalize,
    pow10, strip_leading_zeros, trailing_zeros, trunc, zeros, DecimalV, MAX_MANTISSA_LEN,
};
use crate::error::ParseErrorV;
use crate::model::{
    AxisV, CoordinateSystemV, CrsV, DatumV, DynamicCrsV, GeodCrsV, GeogCrsV, GeoidModelV, IdentifierV, MeridianV,
    PrimeMeridianV, UnitV, UsageV,
};
use crate::crs::{GeodCrsKeyword, GeogCrsKeyword};
use crate::wkt2::parse_crs::{
    is_pm_kw, sp_crs_text, sp_geo_parts, sp_geod, sp_geodetic_body, sp_geog, sp_single_crs, with_pm, GeoPartsV,
};
use crate::wkt2::parse_datum::sp_prime_meridian;
use crate::wkt2::roundtrip::{
    datum_alone, datum_node_text, datum_pm, dynamic_text, lemma_datum_at, lemma_dynamic_opt_at, lemma_node_kws,
    lemma_pm_item_at, lemma_wr_datum, lemma_wr_opt_dynamic, opt_dynamic_text, opt_pm_text, pm_text,
    writable_datum, writable_dynamic, writable_pm, base_text, conversion_text, lemma_base_at, lemma_base_kw,
    lemma_conversion_at, lemma_conversion_kw, lemma_wr_base, lemma_wr_conversion, writable_base,
    writable_conversion,
};
use crate::model::ProjectedCrsV;
use crate::model::{
    BaseVertCrsV, DatumEnsembleV, MapProjectionV, VertCrsSourceV, VertCrsV, VerticalDatumV,
    VerticalReferenceFrameV,
};
use crate::crs::{VertCrsKeyword, VerticalReferenceFrameKeyword};
use crate::wkt2::parse_crs::{sp_base_vert, sp_dynamic_opt, sp_vert, sp_vert_datum, sp_vert_source};
use crate::wkt2::parse_datum::{sp_dynamic, sp_ensemble, sp_frame_items, sp_vertical_frame, vrf_kw_of, FrameRest};
use crate::wkt2::roundtrip::{
    anchor_epoch_text, anchor_text, ensemble_text, lemma_datum_kws, lemma_dynamic_at, lemma_ensemble_at,
    lemma_frame_ids, lemma_wr_anchor, lemma_wr_dynamic, lemma_wr_ensemble, writable_ensemble,
};
use crate::wkt2::writer::{
    vert_kw_text, vrf_kw_text, wr_anchor, wr_base_vert, wr_dynamic, wr_ensemble, wr_vdatum, wr_vert, wr_vert_source,
    wr_vrf,
};
use crate::wkt2::parse_crs::{sp_crs_at, sp_projected};
use crate::wkt2::parse_crs::sp_base_geodetic;
use crate::wkt2::parse_cs::sp_conversion;
use crate::text::{sp_keyword, sp_quoted, sp_ws_char_ws};
use crate::wkt2::parse_crs::{cs_of, empty_tail, sp_cs_and_tail, sp_crs_items, sp_geoid_model, CrsTailV};
use crate::wkt2::parse_meta::{sp_id_node, sp_usage};
use crate::text::sp_kw_quoted;
use crate::text::{
    is_alpha, is_digit, is_upper, is_ws, sp_alpha_end, sp_at_close, sp_identifier, sp_item_start,
    sp_kw_number, sp_peek_kw, sp_skip_ws,
};
use crate::wkt2::parse_cs::{
    bare_axis, cs_type_of, dimension_of, order_of, sp_axis, sp_axis_items, sp_cs_header,
};
use crate::wkt2::parse_meta::{is_unit_kw, sp_range_meaning};
use crate::wkt2::roundtrip::{
    at, id_text, ids_text, lemma_assoc, lemma_at_char, lemma_at_split, lemma_id_item_at, lemma_id_not_unit,
    lemma_ids_close, lemma_ids_first, lemma_ids_items, lemma_ids_split, lemma_item_start_at,
    lemma_kw_number_at, lemma_meridian_at, lemma_number_then, lemma_open_kw_at, lemma_quoted_at,
    lemma_skip_none, lemma_unit_item_at, lemma_kw_quoted_at, lemma_usage_at, lemma_extent_kws, usage_text,
    writable_usage, lemma_wr_quoted, lemma_wr_unit, lemma_wr_ids, lemma_wr_usage, lemma_unit_kw, lemma_ws_char_ws_at, meridian_text,
    normal_decimal, opt_unit_text, quotable, quoted, unit_text, writable_id, writable_ids,
    writable_number, writable_unit,
};
use crate::wkt2::writer::{
    geod_kw_text, geog_kw_text, wkt2_text, wr_projected, wr_base_geodetic, wr_conversion, base_geodetic_kw_text, wr_crs, wr_datum, wr_geod, wr_geog, wr_opt_dynamic,
    cs_type_text, range_meaning_text, unit_kw_text, wr_axis, wr_axes, wr_crs_tail, wr_cs, wr_ids, wr_meridian,
    wr_opt_unit, wr_quoted, wr_remark, wr_usage, wr_usages, wr_geoid, wr_geoids,
};

verus! {

/// The number that a whole number's text reads as.
pub open spec fn nat_dec(n: nat) -> DecimalV {
    normalize(false, digits_of_nat(n), 0)
}

/// `k` zero digits.
pub open spec fn zero_digits(k: nat) -> Seq<u8> {
    Seq::new(k, |i: int| 0u8)
}

pub(crate) proof fn lemma_digits_of_nat(n: nat)
    ensures
        forall|i: int| 0 <= i < digits_of_nat(n).len() ==> #[trigger] digits_of_nat(n)[i] < 10,
        n > 0 ==> digits_of_nat(n).len() > 0 && digits_of_nat(n)[0] != 0,
        n == 0 ==> digits_of_nat(n).len() == 0,
        nat_of_digits(digits_of_nat(n)) == n,
    decreases n,
{
    if n > 0 {
        lemma_digits_of_nat(n / 10);
        let d = digits_of_nat(n);
        assert(d == digits_of_nat(n / 10).push((n % 10) as u8));
        assert(d.drop_last() =~= digits_of_nat(n / 10));
        if n / 10 == 0 {
            assert(d[0] == (n % 10) as u8);
        }
    }
}

pub(crate) proof fn lemma_tz_split(d: Seq<u8>)
    requires
        d.len() > 0,
        d[0] != 0,
    ensures
        trailing_zeros(d) < d.len(),
        d =~= d.take(d.len() - trailing_zeros(d)) + zero_digits(trailing_zeros(d)),
        d.take(d.len() - trailing_zeros(d)).last() != 0,
    decreases d.len(),
{
    if d.last() == 0 {
        assert(d.len() > 1);
        let e = d.drop_last();
        assert(e[0] == d[0]);
        lemma_tz_split(e);
        let t = trailing_zeros(e);
        assert(trailing_zeros(d) == t + 1);
        assert(d.take(d.len() - (t + 1)) =~= e.take(e.len() - t));
        assert(zero_digits(t + 1) =~= zero_digits(t).push(0u8));
        assert(d =~= e.push(0u8));
    } else {
        assert(trailing_zeros(d) == 0);
        assert(d.take(d.len() as int) =~= d);
    }
}

pub(crate) proof fn lemma_nat_of_zeros(e: Seq<u8>, k: nat)
    ensures
        nat_of_digits(e + zero_digits(k)) == nat_of_digits(e) * pow10(k),
    decreases k,
{
    let z = zero_digits(k);
    if k == 0 {
        assert(e + z =~= e);
        assert(pow10(0) == 1);
        assert(nat_of_digits(e) * 1 == nat_of_digits(e));
    } else {
        lemma_nat_of_zeros(e, (k - 1) as nat);
        let b = pow10((k - 1) as nat);
        assert((e + z).drop_last() =~= e + zero_digits((k - 1) as nat));
        assert((e + z).last() == 0u8);
        assert(nat_of_digits((e + z).drop_last()) == nat_of_digits(e) * b);
        assert(nat_of_digits(e + z) == nat_of_digits((e + z).drop_last()) * 10 + (e + z).last() as nat);
        let a = nat_of_digits(e);
        assert(pow10(k) == 10 * b);
        assert(a * b * 10 == a * (10 * b)) by (nonlinear_arith);
        assert(nat_of_digits(e + z) == a * b * 10);
    }
}

/// A whole number is written as the text of the number it reads as, and
/// that number's integer part is the whole number.
pub(crate) proof fn lemma_nat_dec(n: nat)
    requires
        n <= u32::MAX,
    ensures
        writable_number(nat_dec(n)),
        decimal_text(nat_dec(n)) == nat_text(n),
        trunc(nat_dec(n)) == n,
{
    lemma_digits_of_nat(n);
    let d = digits_of_nat(n);
    if n == 0 {
        assert(strip_leading_zeros(d) =~= d);
        assert(decimal_text(nat_dec(n)) =~= seq!['0']);
    } else {
        assert(strip_leading_zeros(d) == d);
        lemma_tz_split(d);
        let tz = trailing_zeros(d);
        let e = d.take(d.len() - tz);
        let z = zero_digits(tz);
        assert(nat_dec(n) == DecimalV { negative: false, digits: e, exponent: tz as int });
        assert(e[0] == d[0]);
        assert(digit_text(d) =~= digit_text(e) + zeros(tz)) by {
            assert forall|i: int| 0 <= i < d.len() implies #[trigger] digit_text(d)[i] == (digit_text(e)
                + zeros(tz))[i] by {
                if i >= e.len() {
                    assert(d[i] == z[i - e.len()]);
                } else {
                    assert(d[i] == e[i]);
                }
            }
        }
        lemma_nat_of_zeros(e, tz);
        crate::decimal::lemma_digits_len(n);
        assert(n / 10 <= 429496729);
    }
}

proof fn lemma_alpha_run(s: Seq<char>, p: int, e: int)
    requires
        0 <= p <= e < s.len(),
        forall|i: int| p <= i < e ==> is_alpha(s[i]),
        !is_alpha(s[e]),
    ensures
        sp_alpha_end(s, p) == e,
    decreases e - p,
{
    if p < e {
        lemma_alpha_run(s, p + 1, e);
    }
}

/// A word of letters followed by a character that is not a letter is read
/// as that word.
pub(crate) proof fn lemma_word_at(s: Seq<char>, p: int, w: Seq<char>, c: char)
    requires
        w.len() > 0,
        forall|i: int| 0 <= i < w.len() ==> is_alpha(#[trigger] w[i]),
        !is_alpha(c),
        at(s, p, w + seq![c]),
    ensures
        sp_identifier(s, p) == Ok::<(Seq<char>, int), ParseErrorV>((w, p + w.len())),
{
    assert forall|i: int| p <= i < p + w.len() implies is_alpha(s[i]) by {
        lemma_at_char(s, p, w + seq![c], i - p);
    }
    lemma_at_char(s, p, w + seq![c], w.len() as int);
    lemma_alpha_run(s, p, p + w.len());
    lemma_at_split(s, p, w, seq![c]);
}

pub(crate) proof fn lemma_cs_type(t: CsType)
    ensures
        cs_type_of(cs_type_text(t)) == Some(t),
        cs_type_text(t).len() > 0,
        forall|i: int| 0 <= i < cs_type_text(t).len() ==> is_alpha(#[trigger] cs_type_text(t)[i]),
{
    reveal_strlit("affine");
    reveal_strlit("Cartesian");
    reveal_strlit("cylindrical");
    reveal_strlit("ellipsoidal");
    reveal_strlit("linear");
    reveal_strlit("parametric");
    reveal_strlit("polar");
    reveal_strlit("spherical");
    reveal_strlit("vertical");
    reveal_strlit("temporalCount");
    reveal_strlit("temporalMeasure");
    reveal_strlit("ordinal");
    reveal_strlit("temporalDateTime");
    let w = cs_type_text(t);
    assert(w.len() > 0);
    assert(w[0] != "affine"@[0] ==> w != "affine"@);
    assert(w[0] != "Cartesian"@[0] ==> w != "Cartesian"@);
    assert(w[0] != "cylindrical"@[0] ==> w != "cylindrical"@);
    assert(w[0] != "ellipsoidal"@[0] ==> w != "ellipsoidal"@);
    assert(w[0] != "linear"@[0] ==> w != "linear"@);
    assert(w[1] != "parametric"@[1] ==> w != "parametric"@);
    assert(w[1] != "polar"@[1] ==> w != "polar"@);
    assert(w[0] != "spherical"@[0] ==> w != "spherical"@);
    assert(w[0] != "vertical"@[0] ==> w != "vertical"@);
    assert(w.len() != "temporalCount"@.len() ==> w != "temporalCount"@);
    assert(w.len() != "temporalMeasure"@.len() ==> w != "temporalMeasure"@);
    assert(w[0] != "ordinal"@[0] ==> w != "ordinal"@);
}

/// The text of a `CS` header node.
#[verifier::opaque]
pub open spec fn cs_header_text(t: CsType, dim: u8, ids: Seq<IdentifierV>) -> Seq<char> {
    "CS"@ + seq!['['] + cs_type_text(t) + seq![','] + nat_text(dim as nat) + ids_text(ids) + seq![']']
}

/// A `CS` header node standing at `p` is read as its type, dimension and
/// identifiers.
#[verifier::spinoff_prover]
#[verifier::rlimit(30)]
pub(crate) proof fn lemma_cs_header_at(s: Seq<char>, p: int, t: CsType, dim: u8, ids: Seq<IdentifierV>)
    requires
        writable_ids(ids),
        at(s, p, cs_header_text(t, dim, ids)),
    ensures
        sp_cs_header(s, p) == Ok::<((CsType, u8, Seq<IdentifierV>), int), ParseErrorV>(
            ((t, dim, ids), p + cs_header_text(t, dim, ids).len()),
        ),
{
    reveal(cs_header_text);
    reveal_strlit("CS");
    assert("CS"@.len() == 2 && is_alpha('C') && "CS"@[0] == 'C' && "CS"@[1] == 'S');
    lemma_cs_type(t);
    lemma_nat_dec(dim as nat);
    let d = nat_dec(dim as nat);
    let ct = cs_type_text(t);
    let nt = nat_text(dim as nat);
    let it = ids_text(ids);
    let c1 = if ids.len() > 0 { ',' } else { ']' };
    if ids.len() > 0 {
        lemma_ids_first(ids);
    }
    let tr = (it + seq![']']).subrange(1, (it + seq![']']).len() as int);
    assert(it + seq![']'] =~= seq![c1] + tr);
    let w = cs_header_text(t, dim, ids);
    assert(w =~= ("CS"@ + seq!['[']) + (ct + seq![','] + (nt + (seq![c1] + tr))));
    lemma_at_split(s, p, "CS"@ + seq!['['], ct + seq![','] + (nt + (seq![c1] + tr)));
    let q = p + 3;
    lemma_at_split(s, q, ct + seq![','], nt + (seq![c1] + tr));
    lemma_at_char(s, q, ct + seq![','], 0);
    lemma_open_kw_at(s, p, "CS"@);
    lemma_word_at(s, q, ct, ',');
    let q1 = q + ct.len();
    lemma_at_char(s, q, ct + seq![','], ct.len() as int);
    let q2 = q1 + 1;
    lemma_number_then(s, q2, d, c1, tr);
    lemma_ws_char_ws_at(s, q1, ',');
    let q3 = q2 + nt.len();
    assert(at(s, q3, it + seq![']'])) by {
        lemma_at_split(s, q2, nt, seq![c1] + tr);
    }
    lemma_ids_items(s, q3, ids, 0);
    assert(ids.take(0) =~= Seq::<IdentifierV>::empty());
    lemma_ids_close(s, q3, ids);
    assert(dimension_of(d) == dim);
    assert(q3 + it.len() + 1 == p + w.len());
}

/// The keywords of an axis's items: their spelling and that they differ.
pub(crate) proof fn lemma_axis_kws()
    ensures
        "MERIDIAN"@.len() == 8,
        "BEARING"@.len() == 7,
        "ORDER"@.len() == 5,
        "AXISMINVALUE"@.len() == 12,
        "AXISMAXVALUE"@.len() == 12,
        "RANGEMEANING"@.len() == 12,
        "AXIS"@.len() == 4,
        forall|i: int| 0 <= i < 7 ==> is_upper(#[trigger] "BEARING"@[i]),
        forall|i: int| 0 <= i < 5 ==> is_upper(#[trigger] "ORDER"@[i]),
        forall|i: int| 0 <= i < 12 ==> is_upper(#[trigger] "AXISMINVALUE"@[i]),
        forall|i: int| 0 <= i < 12 ==> is_upper(#[trigger] "AXISMAXVALUE"@[i]),
        forall|i: int| 0 <= i < 12 ==> is_upper(#[trigger] "RANGEMEANING"@[i]),
        forall|i: int| 0 <= i < 4 ==> is_upper(#[trigger] "AXIS"@[i]),
        "BEARING"@ != "MERIDIAN"@,
        "ORDER"@ != "MERIDIAN"@ && "ORDER"@ != "BEARING"@,
        !is_unit_kw("AXISMINVALUE"@) && !is_unit_kw("AXISMAXVALUE"@) && !is_unit_kw("RANGEMEANING"@)
            && !is_unit_kw("ID"@),
        "AXISMINVALUE"@ != "MERIDIAN"@ && "AXISMINVALUE"@ != "BEARING"@ && "AXISMINVALUE"@ != "ORDER"@,
        "AXISMAXVALUE"@ != "MERIDIAN"@ && "AXISMAXVALUE"@ != "BEARING"@ && "AXISMAXVALUE"@ != "ORDER"@
            && "AXISMAXVALUE"@ != "AXISMINVALUE"@,
        "RANGEMEANING"@ != "MERIDIAN"@ && "RANGEMEANING"@ != "BEARING"@ && "RANGEMEANING"@ != "ORDER"@
            && "RANGEMEANING"@ != "AXISMINVALUE"@ && "RANGEMEANING"@ != "AXISMAXVALUE"@,
        "ID"@ != "MERIDIAN"@ && "ID"@ != "BEARING"@ && "ID"@ != "ORDER"@ && "ID"@ != "AXISMINVALUE"@
            && "ID"@ != "AXISMAXVALUE"@ && "ID"@ != "RANGEMEANING"@,
        forall|k: UnitKeyword| #[trigger] unit_kw_text(k) != "MERIDIAN"@ && unit_kw_text(k) != "BEARING"@
            && unit_kw_text(k) != "ORDER"@,
{
    reveal_strlit("MERIDIAN");
    reveal_strlit("BEARING");
    reveal_strlit("ORDER");
    reveal_strlit("AXISMINVALUE");
    reveal_strlit("AXISMAXVALUE");
    reveal_strlit("RANGEMEANING");
    reveal_strlit("AXIS");
    reveal_strlit("ID");
    reveal_strlit("ANGLEUNIT");
    reveal_strlit("LENGTHUNIT");
    reveal_strlit("PARAMETRICUNIT");
    reveal_strlit("SCALEUNIT");
    reveal_strlit("TIMEUNIT");
    reveal_strlit("TEMPORALQUANTITY");
    reveal_strlit("UNIT");
    lemma_id_not_unit();
    assert("MERIDIAN"@.len() == 8 && "BEARING"@.len() == 7 && "ORDER"@.len() == 5);
    assert("AXISMINVALUE"@.len() == 12 && "AXISMAXVALUE"@.len() == 12 && "RANGEMEANING"@.len() == 12);
    assert("AXISMINVALUE"@[5] != "AXISMAXVALUE"@[5]);
    assert("AXISMINVALUE"@[0] != "RANGEMEANING"@[0]);
    assert("ANGLEUNIT"@.len() == 9 && "LENGTHUNIT"@.len() == 10 && "PARAMETRICUNIT"@.len() == 14);
    assert("SCALEUNIT"@.len() == 9 && "TIMEUNIT"@.len() == 8 && "TEMPORALQUANTITY"@.len() == 16);
    assert("UNIT"@.len() == 4 && "ID"@.len() == 2);
    assert("TIMEUNIT"@[0] != "MERIDIAN"@[0]);
}

/// An optional `,KEYWORD[number]` item.
#[verifier::opaque]
pub open spec fn opt_kw_number_text(lit: Seq<char>, d: Option<DecimalV>) -> Seq<char> {
    match d {
        Some(v) => seq![','] + (lit + seq!['['] + decimal_text(v) + seq![']']),
        None => Seq::empty(),
    }
}

#[verifier::opaque]
pub open spec fn opt_meridian_text(m: Option<MeridianV>) -> Seq<char> {
    match m {
        Some(x) => seq![','] + meridian_text(x),
        None => Seq::empty(),
    }
}

#[verifier::opaque]
pub open spec fn opt_order_text(o: Option<u32>) -> Seq<char> {
    match o {
        Some(n) => seq![','] + ("ORDER"@ + seq!['['] + nat_text(n as nat) + seq![']']),
        None => Seq::empty(),
    }
}

#[verifier::opaque]
pub open spec fn opt_range_text(r: Option<RangeMeaning>) -> Seq<char> {
    match r {
        Some(x) => seq![','] + range_meaning_text(x),
        None => Seq::empty(),
    }
}

/// The items of an axis after its direction.
pub open spec fn axis_items_text(x: AxisV) -> Seq<char> {
    opt_meridian_text(x.meridian) + opt_kw_number_text("BEARING"@, x.bearing) + opt_order_text(x.order)
        + opt_unit_text(x.unit) + opt_kw_number_text("AXISMINVALUE"@, x.axis_min_value)
        + opt_kw_number_text("AXISMAXVALUE"@, x.axis_max_value) + opt_range_text(x.range_meaning)
        + ids_text(x.identifiers)
}

/// The text of an axis node.
#[verifier::opaque]
pub open spec fn axis_text(x: AxisV) -> Seq<char> {
    "AXIS"@ + seq!['['] + quoted(x.name_abbrev) + seq![','] + x.direction + axis_items_text(x) + seq![']']
}

/// Whether an optional number can be written and read back.
pub open spec fn writable_opt_number(d: Option<DecimalV>) -> bool {
    d matches Some(v) ==> writable_number(v)
}

/// Whether an axis can be written and read back: its name holds no `"`, its
/// direction is a word of letters, and its parts can be.
pub open spec fn writable_axis(x: AxisV) -> bool {
    &&& quotable(x.name_abbrev)
    &&& x.direction.len() > 0
    &&& forall|i: int| 0 <= i < x.direction.len() ==> is_alpha(#[trigger] x.direction[i])
    &&& (x.meridian matches Some(m) ==> writable_number(m.value) && writable_unit(m.unit))
    &&& writable_opt_number(x.bearing)
    &&& (x.unit matches Some(u) ==> writable_unit(u))
    &&& writable_opt_number(x.axis_min_value)
    &&& writable_opt_number(x.axis_max_value)
    &&& writable_ids(x.identifiers)
}

/// A `,KEYWORD[number]` item of an axis is read into the axis, for a
/// keyword among `BEARING`, `ORDER`, `AXISMINVALUE`, `AXISMAXVALUE`.
#[verifier::spinoff_prover]
pub(crate) proof fn lemma_kw_number_item(s: Seq<char>, p: int, lit: Seq<char>, d: DecimalV)
    requires
        lit.len() > 0,
        forall|i: int| 0 <= i < lit.len() ==> is_upper(lit[i]),
        writable_number(d),
        at(s, p, seq![','] + (lit + seq!['['] + decimal_text(d) + seq![']'])),
    ensures
        sp_item_start(s, p) == Ok::<int, ParseErrorV>(p + 1),
        !sp_at_close(s, p),
        sp_peek_kw(s, p + 1) == lit,
        sp_kw_number(s, p + 1, lit) == Ok::<(DecimalV, int), ParseErrorV>(
            (d, p + 1 + lit.len() + decimal_text(d).len() + 2),
        ),
{
    let w = lit + seq!['['] + decimal_text(d) + seq![']'];
    lemma_at_split(s, p, seq![','], w);
    lemma_at_char(s, p, seq![','], 0);
    lemma_at_char(s, p + 1, w, 0);
    lemma_item_start_at(s, p);
    lemma_kw_number_at(s, p + 1, lit, d);
}

/// The text after a meridian item's comma, with its keyword.
#[verifier::spinoff_prover]
pub(crate) proof fn lemma_meridian_item(s: Seq<char>, p: int, m: MeridianV)
    requires
        writable_number(m.value),
        writable_unit(m.unit),
        at(s, p, seq![','] + meridian_text(m)),
    ensures
        sp_item_start(s, p) == Ok::<int, ParseErrorV>(p + 1),
        !sp_at_close(s, p),
        sp_peek_kw(s, p + 1) == "MERIDIAN"@,
        crate::wkt2::parse_cs::sp_meridian(s, p + 1) == Ok::<(MeridianV, int), ParseErrorV>(
            (m, p + 1 + meridian_text(m).len()),
        ),
{
    reveal_strlit("MERIDIAN");
    lemma_at_split(s, p, seq![','], meridian_text(m));
    lemma_at_char(s, p, seq![','], 0);
    lemma_at_char(s, p + 1, meridian_text(m), 0);
    lemma_item_start_at(s, p);
    lemma_meridian_at(s, p + 1, m);
}

/// A `RANGEMEANING` node is read as its value.
#[verifier::spinoff_prover]
pub(crate) proof fn lemma_range_item(s: Seq<char>, p: int, r: RangeMeaning)
    requires
        at(s, p, seq![','] + range_meaning_text(r)),
    ensures
        sp_item_start(s, p) == Ok::<int, ParseErrorV>(p + 1),
        !sp_at_close(s, p),
        sp_peek_kw(s, p + 1) == "RANGEMEANING"@,
        sp_range_meaning(s, p + 1) == Ok::<(RangeMeaning, int), ParseErrorV>(
            (r, p + 1 + range_meaning_text(r).len()),
        ),
{
    reveal_strlit("RANGEMEANING");
    reveal_strlit("RANGEMEANING[exact]");
    reveal_strlit("RANGEMEANING[wraparound]");
    reveal_strlit("exact");
    reveal_strlit("wraparound");
    let v = match r {
        RangeMeaning::Exact => "exact"@,
        RangeMeaning::Wraparound => "wraparound"@,
    };
    let w = range_meaning_text(r);
    assert(w =~= ("RANGEMEANING"@ + seq!['[']) + (v + seq![']']));
    assert("exact"@ != "wraparound"@);
    lemma_at_split(s, p, seq![','], w);
    lemma_at_char(s, p, seq![','], 0);
    lemma_at_char(s, p + 1, w, 0);
    lemma_item_start_at(s, p);
    lemma_at_split(s, p + 1, "RANGEMEANING"@ + seq!['['], v + seq![']']);
    lemma_at_char(s, p + 14, v + seq![']'], 0);
    lemma_open_kw_at(s, p + 1, "RANGEMEANING"@);
    lemma_word_at(s, p + 14, v, ']');
    lemma_at_char(s, p + 14, v + seq![']'], v.len() as int);
    lemma_skip_none(s, p + 14 + v.len());
}

/// The identifiers of an axis, from the `k`-th on, are read into the axis.
#[verifier::spinoff_prover]
pub(crate) proof fn lemma_axis_ids(s: Seq<char>, p: int, ids: Seq<IdentifierV>, k: int, st: AxisV)
    requires
        writable_ids(ids),
        0 <= k <= ids.len(),
        at(s, p, ids_text(ids) + seq![']']),
    ensures
        sp_axis_items(s, p + ids_text(ids.take(k)).len(), AxisV { identifiers: ids.take(k), ..st })
            == Ok::<(AxisV, int), ParseErrorV>(
            (AxisV { identifiers: ids, ..st }, p + ids_text(ids).len()),
        ),
    decreases ids.len() - k,
{
    if k == ids.len() {
        assert(ids.take(k) =~= ids);
        lemma_ids_close(s, p, ids);
    } else {
        let q = p + ids_text(ids.take(k)).len();
        assert(writable_id(ids[k]));
        lemma_ids_split(s, p, ids, k);
        lemma_id_item_at(s, q, ids[k]);
        lemma_axis_kws();
        lemma_axis_ids(s, p, ids, k + 1, st);
        assert(ids.take(k).push(ids[k]) =~= ids.take(k + 1));
    }
}

#[verifier::spinoff_prover]
pub(crate) proof fn lemma_axis_meridian_step(s: Seq<char>, p: int, st: AxisV, m: Option<MeridianV>)
    requires
        st.meridian is None,
        m matches Some(x) ==> writable_number(x.value) && writable_unit(x.unit),
        at(s, p, opt_meridian_text(m)),
    ensures
        sp_axis_items(s, p, st) == sp_axis_items(s, p + opt_meridian_text(m).len(), AxisV { meridian: m, ..st }),
{
    reveal(opt_meridian_text);
    match m {
        Some(x) => {
            lemma_meridian_item(s, p, x);
        },
        None => {
            assert(AxisV { meridian: m, ..st } == st);
        },
    }
}

#[verifier::spinoff_prover]
pub(crate) proof fn lemma_axis_bearing_step(s: Seq<char>, p: int, st: AxisV, b: Option<DecimalV>)
    requires
        st.bearing is None,
        writable_opt_number(b),
        at(s, p, opt_kw_number_text("BEARING"@, b)),
    ensures
        sp_axis_items(s, p, st) == sp_axis_items(
            s,
            p + opt_kw_number_text("BEARING"@, b).len(),
            AxisV { bearing: b, ..st },
        ),
{
    reveal(opt_kw_number_text);
    lemma_axis_kws();
    match b {
        Some(x) => {
            lemma_kw_number_item(s, p, "BEARING"@, x);
        },
        None => {
            assert(AxisV { bearing: b, ..st } == st);
        },
    }
}

#[verifier::spinoff_prover]
pub(crate) proof fn lemma_axis_order_step(s: Seq<char>, p: int, st: AxisV, o: Option<u32>)
    requires
        st.order is None,
        at(s, p, opt_order_text(o)),
    ensures
        sp_axis_items(s, p, st) == sp_axis_items(s, p + opt_order_text(o).len(), AxisV { order: o, ..st }),
{
    reveal(opt_order_text);
    lemma_axis_kws();
    match o {
        Some(n) => {
            lemma_nat_dec(n as nat);
            let d = nat_dec(n as nat);
            lemma_kw_number_item(s, p, "ORDER"@, d);
            assert(order_of(d) == n);
        },
        None => {
            assert(AxisV { order: o, ..st } == st);
        },
    }
}

#[verifier::spinoff_prover]
pub(crate) proof fn lemma_axis_unit_step(s: Seq<char>, p: int, st: AxisV, u: Option<UnitV>)
    requires
        st.unit is None,
        u matches Some(x) ==> writable_unit(x),
        at(s, p, opt_unit_text(u)),
    ensures
        sp_axis_items(s, p, st) == sp_axis_items(s, p + opt_unit_text(u).len(), AxisV { unit: u, ..st }),
{
    lemma_axis_kws();
    match u {
        Some(x) => {
            lemma_unit_item_at(s, p, x);
            lemma_unit_kw(x.keyword);
            assert(unit_kw_text(x.keyword) != "MERIDIAN"@);
        },
        None => {
            assert(AxisV { unit: u, ..st } == st);
        },
    }
}

#[verifier::spinoff_prover]
pub(crate) proof fn lemma_axis_min_step(s: Seq<char>, p: int, st: AxisV, v: Option<DecimalV>)
    requires
        st.axis_min_value is None,
        writable_opt_number(v),
        at(s, p, opt_kw_number_text("AXISMINVALUE"@, v)),
    ensures
        sp_axis_items(s, p, st) == sp_axis_items(
            s,
            p + opt_kw_number_text("AXISMINVALUE"@, v).len(),
            AxisV { axis_min_value: v, ..st },
        ),
{
    reveal(opt_kw_number_text);
    lemma_axis_kws();
    match v {
        Some(x) => {
            lemma_kw_number_item(s, p, "AXISMINVALUE"@, x);
        },
        None => {
            assert(AxisV { axis_min_value: v, ..st } == st);
        },
    }
}

#[verifier::spinoff_prover]
pub(crate) proof fn lemma_axis_max_step(s: Seq<char>, p: int, st: AxisV, v: Option<DecimalV>)
    requires
        st.axis_max_value is None,
        writable_opt_number(v),
        at(s, p, opt_kw_number_text("AXISMAXVALUE"@, v)),
    ensures
        sp_axis_items(s, p, st) == sp_axis_items(
            s,
            p + opt_kw_number_text("AXISMAXVALUE"@, v).len(),
            AxisV { axis_max_value: v, ..st },
        ),
{
    reveal(opt_kw_number_text);
    lemma_axis_kws();
    match v {
        Some(x) => {
            lemma_kw_number_item(s, p, "AXISMAXVALUE"@, x);
        },
        None => {
            assert(AxisV { axis_max_value: v, ..st } == st);
        },
    }
}

#[verifier::spinoff_prover]
pub(crate) proof fn lemma_axis_range_step(s: Seq<char>, p: int, st: AxisV, r: Option<RangeMeaning>)
    requires
        st.range_meaning is None,
        at(s, p, opt_range_text(r)),
    ensures
        sp_axis_items(s, p, st) == sp_axis_items(
            s,
            p + opt_range_text(r).len(),
            AxisV { range_meaning: r, ..st },
        ),
{
    reveal(opt_range_text);
    lemma_axis_kws();
    match r {
        Some(x) => {
            lemma_range_item(s, p, x);
        },
        None => {
            assert(AxisV { range_meaning: r, ..st } == st);
        },
    }
}

/// The items of an axis after its direction are read into the axis.
#[verifier::spinoff_prover]
#[verifier::rlimit(60)]
pub(crate) proof fn lemma_axis_items_at(s: Seq<char>, p: int, x: AxisV)
    requires
        writable_axis(x),
        at(s, p, axis_items_text(x) + seq![']']),
    ensures
        sp_axis_items(s, p, bare_axis(x.name_abbrev, x.direction)) == Ok::<(AxisV, int), ParseErrorV>(
            (x, p + axis_items_text(x).len()),
        ),
{
    let t1 = opt_meridian_text(x.meridian);
    let t2 = opt_kw_number_text("BEARING"@, x.bearing);
    let t3 = opt_order_text(x.order);
    let t4 = opt_unit_text(x.unit);
    let t5 = opt_kw_number_text("AXISMINVALUE"@, x.axis_min_value);
    let t6 = opt_kw_number_text("AXISMAXVALUE"@, x.axis_max_value);
    let t7 = opt_range_text(x.range_meaning);
    let it = ids_text(x.identifiers);
    let b7 = t1 + t2 + t3 + t4 + t5 + t6 + t7;
    lemma_assoc(b7, it, seq![']']);
    lemma_at_split(s, p, b7, it + seq![']']);
    let b6 = t1 + t2 + t3 + t4 + t5 + t6;
    lemma_at_split(s, p, b6, t7);
    let b5 = t1 + t2 + t3 + t4 + t5;
    lemma_at_split(s, p, b5, t6);
    let b4 = t1 + t2 + t3 + t4;
    lemma_at_split(s, p, b4, t5);
    let b3 = t1 + t2 + t3;
    lemma_at_split(s, p, b3, t4);
    lemma_at_split(s, p, t1 + t2, t3);
    lemma_at_split(s, p, t1, t2);
    let p1 = p + t1.len();
    let p2 = p1 + t2.len();
    let p3 = p2 + t3.len();
    let p4 = p3 + t4.len();
    let p5 = p4 + t5.len();
    let p6 = p5 + t6.len();
    let p7 = p6 + t7.len();
    let st0 = bare_axis(x.name_abbrev, x.direction);
    let st1 = AxisV { meridian: x.meridian, ..st0 };
    let st2 = AxisV { bearing: x.bearing, ..st1 };
    let st3 = AxisV { order: x.order, ..st2 };
    let st4 = AxisV { unit: x.unit, ..st3 };
    let st5 = AxisV { axis_min_value: x.axis_min_value, ..st4 };
    let st6 = AxisV { axis_max_value: x.axis_max_value, ..st5 };
    let st7 = AxisV { range_meaning: x.range_meaning, ..st6 };
    lemma_axis_meridian_step(s, p, st0, x.meridian);
    lemma_axis_bearing_step(s, p1, st1, x.bearing);
    lemma_axis_order_step(s, p2, st2, x.order);
    lemma_axis_unit_step(s, p3, st3, x.unit);
    lemma_axis_min_step(s, p4, st4, x.axis_min_value);
    lemma_axis_max_step(s, p5, st5, x.axis_max_value);
    lemma_axis_range_step(s, p6, st6, x.range_meaning);
    lemma_axis_ids(s, p7, x.identifiers, 0, st7);
    assert(x.identifiers.take(0) =~= Seq::<IdentifierV>::empty());
    assert(AxisV { identifiers: Seq::<IdentifierV>::empty(), ..st7 } == st7);
    assert(AxisV { identifiers: x.identifiers, ..st7 } == x);
}

/// An axis node standing at `p` is read as the axis.
#[verifier::spinoff_prover]
#[verifier::rlimit(30)]
pub(crate) proof fn lemma_axis_at(s: Seq<char>, p: int, x: AxisV)
    requires
        writable_axis(x),
        at(s, p, axis_text(x)),
    ensures
        sp_axis(s, p) == Ok::<(AxisV, int), ParseErrorV>((x, p + axis_text(x).len())),
        sp_peek_kw(s, p) == "AXIS"@,
        !is_ws(s[p]),
{
    reveal(axis_text);
    lemma_axis_kws();
    let it = axis_items_text(x);
    let c = (it + seq![']'])[0];
    assert(c == ',' || c == ']') by {
        reveal(opt_meridian_text);
        reveal(opt_kw_number_text);
        reveal(opt_order_text);
        reveal(opt_range_text);
        if x.meridian is Some || x.bearing is Some || x.order is Some || x.unit is Some
            || x.axis_min_value is Some || x.axis_max_value is Some || x.range_meaning is Some {
        } else if x.identifiers.len() > 0 {
            lemma_ids_first(x.identifiers);
        }
        assert(it.len() > 0 ==> c == it[0]);
    }
    let t0 = quoted(x.name_abbrev) + (seq![','] + (x.direction + (it + seq![']'])));
    assert(axis_text(x) =~= ("AXIS"@ + seq!['[']) + t0);
    lemma_at_split(s, p, "AXIS"@ + seq!['['], t0);
    let p1 = p + 5;
    lemma_at_split(s, p1, quoted(x.name_abbrev), seq![','] + (x.direction + (it + seq![']'])));
    lemma_at_char(s, p1, quoted(x.name_abbrev), 0);
    lemma_open_kw_at(s, p, "AXIS"@);
    lemma_quoted_at(s, p1, x.name_abbrev);
    let p2 = p1 + x.name_abbrev.len() + 2;
    lemma_at_split(s, p2, seq![','], x.direction + (it + seq![']']));
    lemma_at_char(s, p2, seq![','], 0);
    let p3 = p2 + 1;
    lemma_at_char(s, p3, x.direction + (it + seq![']']), 0);
    lemma_ws_char_ws_at(s, p2, ',');
    lemma_at_split(s, p3, x.direction, it + seq![']']);
    lemma_at_char(s, p3 + x.direction.len(), it + seq![']'], 0);
    assert(x.direction + seq![c] =~= (x.direction + (it + seq![']'])).subrange(0, (x.direction.len() + 1) as int));
    assert(at(s, p3, x.direction + seq![c])) by {
        assert(x.direction + (it + seq![']']) =~= (x.direction + seq![c]) + (it + seq![']']).subrange(
            1,
            (it + seq![']']).len() as int,
        ));
        lemma_at_split(s, p3, x.direction + seq![c], (it + seq![']']).subrange(1, (it + seq![']']).len() as int));
    }
    lemma_word_at(s, p3, x.direction, c);
    let p4 = p3 + x.direction.len();
    lemma_axis_items_at(s, p4, x);
    let p5 = p4 + it.len();
    lemma_at_char(s, p4, it + seq![']'], it.len() as int);
    lemma_skip_none(s, p5);
    assert(p5 + 1 == p + axis_text(x).len());
}

/// The texts of the items of a list, each after a comma.
#[verifier::opaque]
pub open spec fn each_text<T>(xs: Seq<T>, g: spec_fn(T) -> Seq<char>) -> Seq<char>
    decreases xs.len(),
{
    if xs.len() == 0 {
        Seq::empty()
    } else {
        each_text(xs.drop_last(), g) + (seq![','] + g(xs.last()))
    }
}

pub(crate) proof fn lemma_each_prefix<T>(xs: Seq<T>, g: spec_fn(T) -> Seq<char>, j: int)
    requires
        0 <= j <= xs.len(),
    ensures
        each_text(xs.take(j), g).len() <= each_text(xs, g).len(),
        each_text(xs, g).subrange(0, each_text(xs.take(j), g).len() as int) == each_text(xs.take(j), g),
    decreases xs.len(),
{
    reveal(each_text);
    if j == xs.len() {
        assert(xs.take(j) =~= xs);
        assert(each_text(xs, g).subrange(0, each_text(xs, g).len() as int) =~= each_text(xs, g));
    } else {
        lemma_each_prefix(xs.drop_last(), g, j);
        assert(xs.drop_last().take(j) =~= xs.take(j));
        let a = each_text(xs.drop_last(), g);
        let b = seq![','] + g(xs.last());
        assert((a + b).subrange(0, each_text(xs.take(j), g).len() as int) =~= a.subrange(
            0,
            each_text(xs.take(j), g).len() as int,
        ));
    }
}

/// The `k`-th item of a list standing at `p`, after the ones before it.
pub(crate) proof fn lemma_each_split<T>(s: Seq<char>, p: int, xs: Seq<T>, g: spec_fn(T) -> Seq<char>, k: int)
    requires
        0 <= k < xs.len(),
        at(s, p, each_text(xs, g)),
    ensures
        at(s, p + each_text(xs.take(k), g).len(), seq![','] + g(xs[k])),
        each_text(xs.take(k + 1), g).len() == each_text(xs.take(k), g).len() + 1 + g(xs[k]).len(),
        each_text(xs.take(k + 1), g).len() <= each_text(xs, g).len(),
{
    reveal(each_text);
    let t1 = xs.take(k + 1);
    assert(t1.drop_last() =~= xs.take(k));
    assert(t1.last() == xs[k]);
    lemma_each_prefix(xs, g, k + 1);
    let w = each_text(xs, g);
    let b = each_text(t1, g);
    let piece = seq![','] + g(xs[k]);
    assert(b == each_text(xs.take(k), g) + piece);
    let a = each_text(xs.take(k), g);
    assert(s.subrange(p + a.len(), p + a.len() + piece.len()) =~= w.subrange(0, b.len() as int).subrange(
        a.len() as int,
        b.len() as int,
    ));
    assert(b.subrange(a.len() as int, b.len() as int) =~= piece);
}

/// The writer's loop over a list writes each item's text after a comma.
pub(crate) proof fn lemma_wr_each<T>(
    acc: Seq<char>,
    xs: Seq<T>,
    f: spec_fn(Seq<char>, T) -> Seq<char>,
    g: spec_fn(T) -> Seq<char>,
)
    requires
        forall|a: Seq<char>, x: T| #[trigger] f(a, x) == a + g(x),
    ensures
        crate::wkt2::writer::wr_each(acc, xs, f) == acc + each_text(xs, g),
    decreases xs.len(),
{
    reveal(each_text);
    if xs.len() == 0 {
        assert(acc + each_text(xs, g) =~= acc);
    } else {
        lemma_wr_each(acc, xs.drop_last(), f, g);
        let x = crate::wkt2::writer::wr_each(acc, xs.drop_last(), f);
        assert(f(x.push(','), xs.last()) == x.push(',') + g(xs.last()));
        assert(x.push(',') + g(xs.last()) =~= acc + each_text(xs, g));
    }
}

pub open spec fn id_fn() -> spec_fn(IdentifierV) -> Seq<char> {
    |i: IdentifierV| id_text(i)
}

pub open spec fn axis_fn() -> spec_fn(AxisV) -> Seq<char> {
    |a: AxisV| axis_text(a)
}

pub open spec fn usage_fn() -> spec_fn(UsageV) -> Seq<char> {
    |u: UsageV| usage_text(u)
}

pub(crate) proof fn lemma_ids_each(ids: Seq<IdentifierV>)
    ensures
        ids_text(ids) == each_text(ids, id_fn()),
    decreases ids.len(),
{
    reveal(each_text);
    if ids.len() > 0 {
        lemma_ids_each(ids.drop_last());
    }
}

/// The text of an optional remark item.
pub open spec fn remark_text(r: Option<Seq<char>>) -> Seq<char> {
    match r {
        Some(t) => seq![','] + ("REMARK"@ + seq!['['] + quoted(t) + seq![']']),
        None => Seq::empty(),
    }
}

/// The keywords of a CRS's trailing items differ from one another.
pub(crate) proof fn lemma_tail_kws()
    ensures
        "REMARK"@.len() == 6,
        "GEOIDMODEL"@.len() == 10,
        forall|i: int| 0 <= i < 6 ==> is_upper(#[trigger] "REMARK"@[i]),
        forall|i: int| 0 <= i < 10 ==> is_upper(#[trigger] "GEOIDMODEL"@[i]),
        !is_unit_kw("AXIS"@) && !is_unit_kw("GEOIDMODEL"@) && !is_unit_kw("USAGE"@) && !is_unit_kw("ID"@)
            && !is_unit_kw("REMARK"@),
        "GEOIDMODEL"@ != "AXIS"@,
        "USAGE"@ != "AXIS"@ && "USAGE"@ != "GEOIDMODEL"@,
        "ID"@ != "AXIS"@ && "ID"@ != "GEOIDMODEL"@ && "ID"@ != "USAGE"@,
        "REMARK"@ != "AXIS"@ && "REMARK"@ != "GEOIDMODEL"@ && "REMARK"@ != "USAGE"@ && "REMARK"@ != "ID"@,
        forall|k: UnitKeyword| #[trigger] unit_kw_text(k) != "AXIS"@,
{
    reveal_strlit("REMARK");
    reveal_strlit("GEOIDMODEL");
    reveal_strlit("AXIS");
    reveal_strlit("USAGE");
    reveal_strlit("ID");
    reveal_strlit("ANGLEUNIT");
    reveal_strlit("LENGTHUNIT");
    reveal_strlit("PARAMETRICUNIT");
    reveal_strlit("SCALEUNIT");
    reveal_strlit("TIMEUNIT");
    reveal_strlit("TEMPORALQUANTITY");
    reveal_strlit("UNIT");
    assert("REMARK"@.len() == 6 && "GEOIDMODEL"@.len() == 10 && "AXIS"@.len() == 4 && "USAGE"@.len() == 5);
    assert("ID"@.len() == 2 && "ANGLEUNIT"@.len() == 9 && "LENGTHUNIT"@.len() == 10);
    assert("PARAMETRICUNIT"@.len() == 14 && "SCALEUNIT"@.len() == 9 && "TIMEUNIT"@.len() == 8);
    assert("TEMPORALQUANTITY"@.len() == 16 && "UNIT"@.len() == 4);
    assert("GEOIDMODEL"@[0] != "LENGTHUNIT"@[0]);
    assert("AXIS"@[0] != "UNIT"@[0]);
}

/// An axis item of a CRS is read into its tail.
#[verifier::spinoff_prover]
pub(crate) proof fn lemma_tail_axis_step(s: Seq<char>, q: int, vert: bool, st: CrsTailV, a: AxisV)
    requires
        writable_axis(a),
        at(s, q, seq![','] + axis_text(a)),
    ensures
        sp_crs_items(s, q, vert, st) == sp_crs_items(
            s,
            q + 1 + axis_text(a).len(),
            vert,
            CrsTailV { axes: st.axes.push(a), ..st },
        ),
{
    lemma_at_split(s, q, seq![','], axis_text(a));
    lemma_at_char(s, q, seq![','], 0);
    lemma_axis_at(s, q + 1, a);
    reveal_strlit("AXIS");
    lemma_item_start_at(s, q);
}

/// A unit item of a CRS is read into its tail.
#[verifier::spinoff_prover]
pub(crate) proof fn lemma_tail_unit_step(s: Seq<char>, q: int, vert: bool, st: CrsTailV, u: Option<UnitV>)
    requires
        u matches Some(x) ==> writable_unit(x),
        st.cs_unit is None,
        at(s, q, opt_unit_text(u)),
    ensures
        sp_crs_items(s, q, vert, st) == sp_crs_items(s, q + opt_unit_text(u).len(), vert, CrsTailV { cs_unit: u, ..st }),
{
    lemma_tail_kws();
    match u {
        Some(x) => {
            lemma_unit_item_at(s, q, x);
            lemma_unit_kw(x.keyword);
            assert(unit_kw_text(x.keyword) != "AXIS"@);
        },
        None => {
            assert(CrsTailV { cs_unit: u, ..st } == st);
        },
    }
}

/// A usage item of a CRS is read into its tail.
#[verifier::spinoff_prover]
pub(crate) proof fn lemma_tail_usage_step(s: Seq<char>, q: int, vert: bool, st: CrsTailV, u: UsageV)
    requires
        writable_usage(u),
        at(s, q, seq![','] + usage_text(u)),
    ensures
        sp_crs_items(s, q, vert, st) == sp_crs_items(
            s,
            q + 1 + usage_text(u).len(),
            vert,
            CrsTailV { usages: st.usages.push(u), ..st },
        ),
{
    lemma_tail_kws();
    lemma_extent_kws();
    let w = usage_text(u);
    lemma_at_split(s, q, seq![','], w);
    lemma_at_char(s, q, seq![','], 0);
    assert(w =~= ("USAGE"@ + seq!['[']) + w.subrange(6, w.len() as int));
    lemma_at_split(s, q + 1, "USAGE"@ + seq!['['], w.subrange(6, w.len() as int));
    lemma_at_char(s, q + 1, w, 0);
    lemma_at_char(s, q + 1, w, 6);
    assert(w[6] == "SCOPE"@[0]);
    assert(is_upper("SCOPE"@[0]));
    lemma_item_start_at(s, q);
    lemma_open_kw_at(s, q + 1, "USAGE"@);
    lemma_usage_at(s, q + 1, u);
}

/// An identifier item of a CRS is read into its tail.
#[verifier::spinoff_prover]
pub(crate) proof fn lemma_tail_id_step(s: Seq<char>, q: int, vert: bool, st: CrsTailV, id: IdentifierV)
    requires
        writable_id(id),
        at(s, q, seq![','] + id_text(id)),
    ensures
        sp_crs_items(s, q, vert, st) == sp_crs_items(
            s,
            q + 1 + id_text(id).len(),
            vert,
            CrsTailV { identifiers: st.identifiers.push(id), ..st },
        ),
{
    lemma_tail_kws();
    lemma_id_item_at(s, q, id);
}

/// A remark item of a CRS is read into its tail.
#[verifier::spinoff_prover]
pub(crate) proof fn lemma_tail_remark_step(s: Seq<char>, q: int, vert: bool, st: CrsTailV, r: Option<Seq<char>>)
    requires
        r matches Some(t) ==> quotable(t),
        st.remark is None,
        at(s, q, remark_text(r)),
    ensures
        sp_crs_items(s, q, vert, st) == sp_crs_items(s, q + remark_text(r).len(), vert, CrsTailV { remark: r, ..st }),
{
    lemma_tail_kws();
    match r {
        Some(t) => {
            let w = "REMARK"@ + seq!['['] + quoted(t) + seq![']'];
            lemma_at_split(s, q, seq![','], w);
            lemma_at_char(s, q, seq![','], 0);
            lemma_at_char(s, q + 1, w, 0);
            lemma_item_start_at(s, q);
            lemma_kw_quoted_at(s, q + 1, "REMARK"@, t);
        },
        None => {
            assert(CrsTailV { remark: r, ..st } == st);
        },
    }
}

/// The axes of a CRS, from the `k`-th on, are read into its tail.
#[verifier::spinoff_prover]
pub(crate) proof fn lemma_tail_axes(s: Seq<char>, p: int, xs: Seq<AxisV>, k: int, vert: bool, st: CrsTailV)
    requires
        forall|i: int| 0 <= i < xs.len() ==> writable_axis(#[trigger] xs[i]),
        0 <= k <= xs.len(),
        at(s, p, each_text(xs, axis_fn())),
    ensures
        sp_crs_items(s, p + each_text(xs.take(k), axis_fn()).len(), vert, CrsTailV { axes: xs.take(k), ..st })
            == sp_crs_items(s, p + each_text(xs, axis_fn()).len(), vert, CrsTailV { axes: xs, ..st }),
    decreases xs.len() - k,
{
    if k == xs.len() {
        assert(xs.take(k) =~= xs);
    } else {
        lemma_each_split(s, p, xs, axis_fn(), k);
        let q = p + each_text(xs.take(k), axis_fn()).len();
        lemma_tail_axis_step(s, q, vert, CrsTailV { axes: xs.take(k), ..st }, xs[k]);
        assert(xs.take(k).push(xs[k]) =~= xs.take(k + 1));
        lemma_tail_axes(s, p, xs, k + 1, vert, st);
    }
}

/// The usages of a CRS, from the `k`-th on, are read into its tail.
#[verifier::spinoff_prover]
pub(crate) proof fn lemma_tail_usages(s: Seq<char>, p: int, us: Seq<UsageV>, k: int, vert: bool, st: CrsTailV)
    requires
        forall|i: int| 0 <= i < us.len() ==> writable_usage(#[trigger] us[i]),
        0 <= k <= us.len(),
        at(s, p, each_text(us, usage_fn())),
    ensures
        sp_crs_items(s, p + each_text(us.take(k), usage_fn()).len(), vert, CrsTailV { usages: us.take(k), ..st })
            == sp_crs_items(s, p + each_text(us, usage_fn()).len(), vert, CrsTailV { usages: us, ..st }),
    decreases us.len() - k,
{
    if k == us.len() {
        assert(us.take(k) =~= us);
    } else {
        lemma_each_split(s, p, us, usage_fn(), k);
        let q = p + each_text(us.take(k), usage_fn()).len();
        lemma_tail_usage_step(s, q, vert, CrsTailV { usages: us.take(k), ..st }, us[k]);
        assert(us.take(k).push(us[k]) =~= us.take(k + 1));
        lemma_tail_usages(s, p, us, k + 1, vert, st);
    }
}

/// The identifiers of a CRS, from the `k`-th on, are read into its tail.
#[verifier::spinoff_prover]
pub(crate) proof fn lemma_tail_ids(s: Seq<char>, p: int, ids: Seq<IdentifierV>, k: int, vert: bool, st: CrsTailV)
    requires
        writable_ids(ids),
        0 <= k <= ids.len(),
        at(s, p, each_text(ids, id_fn())),
    ensures
        sp_crs_items(s, p + each_text(ids.take(k), id_fn()).len(), vert, CrsTailV { identifiers: ids.take(k), ..st })
            == sp_crs_items(s, p + each_text(ids, id_fn()).len(), vert, CrsTailV { identifiers: ids, ..st }),
    decreases ids.len() - k,
{
    if k == ids.len() {
        assert(ids.take(k) =~= ids);
    } else {
        lemma_each_split(s, p, ids, id_fn(), k);
        let q = p + each_text(ids.take(k), id_fn()).len();
        assert(writable_id(ids[k]));
        lemma_tail_id_step(s, q, vert, CrsTailV { identifiers: ids.take(k), ..st }, ids[k]);
        assert(ids.take(k).push(ids[k]) =~= ids.take(k + 1));
        lemma_tail_ids(s, p, ids, k + 1, vert, st);
    }
}

/// The text of a geoid model node.
pub open spec fn geoid_text(g: GeoidModelV) -> Seq<char> {
    "GEOIDMODEL"@ + seq!['['] + quoted(g.name) + ids_text(g.identifiers) + seq![']']
}

pub open spec fn geoid_fn() -> spec_fn(GeoidModelV) -> Seq<char> {
    |g: GeoidModelV| geoid_text(g)
}

/// Whether geoid models can be written and read back.
pub open spec fn writable_geoids(gs: Seq<GeoidModelV>) -> bool {
    forall|i: int| 0 <= i < gs.len() ==> quotable(#[trigger] gs[i].name) && writable_ids(gs[i].identifiers)
}

pub(crate) proof fn lemma_no_geoids()
    ensures
        writable_geoids(Seq::<GeoidModelV>::empty()),
{
}

/// A geoid model node standing at `p` is read as the model.
#[verifier::spinoff_prover]
pub(crate) proof fn lemma_geoid_at(s: Seq<char>, p: int, g: GeoidModelV)
    requires
        quotable(g.name),
        writable_ids(g.identifiers),
        at(s, p, geoid_text(g)),
    ensures
        sp_geoid_model(s, p) == Ok::<(GeoidModelV, int), ParseErrorV>((g, p + geoid_text(g).len())),
        sp_peek_kw(s, p) == "GEOIDMODEL"@,
        !is_ws(s[p]),
{
    lemma_tail_kws();
    let it = ids_text(g.identifiers);
    let t0 = quoted(g.name) + (it + seq![']']);
    assert(geoid_text(g) =~= ("GEOIDMODEL"@ + seq!['[']) + t0);
    lemma_at_split(s, p, "GEOIDMODEL"@ + seq!['['], t0);
    let p1 = p + 11;
    lemma_at_split(s, p1, quoted(g.name), it + seq![']']);
    lemma_at_char(s, p1, quoted(g.name), 0);
    lemma_at_char(s, p, "GEOIDMODEL"@ + seq!['['], 0);
    lemma_open_kw_at(s, p, "GEOIDMODEL"@);
    lemma_quoted_at(s, p1, g.name);
    let p2 = p1 + g.name.len() + 2;
    lemma_ids_items(s, p2, g.identifiers, 0);
    assert(g.identifiers.take(0) =~= Seq::<IdentifierV>::empty());
    lemma_ids_close(s, p2, g.identifiers);
}

/// A geoid model item of a vertical CRS is read into its tail.
#[verifier::spinoff_prover]
pub(crate) proof fn lemma_tail_geoid_step(s: Seq<char>, q: int, st: CrsTailV, g: GeoidModelV)
    requires
        quotable(g.name),
        writable_ids(g.identifiers),
        at(s, q, seq![','] + geoid_text(g)),
    ensures
        sp_crs_items(s, q, true, st) == sp_crs_items(
            s,
            q + 1 + geoid_text(g).len(),
            true,
            CrsTailV { geoid_models: st.geoid_models.push(g), ..st },
        ),
{
    lemma_tail_kws();
    lemma_at_split(s, q, seq![','], geoid_text(g));
    lemma_at_char(s, q, seq![','], 0);
    lemma_geoid_at(s, q + 1, g);
    lemma_item_start_at(s, q);
}

/// The geoid models of a vertical CRS, from the `k`-th on, are read into its
/// tail.
#[verifier::spinoff_prover]
pub(crate) proof fn lemma_tail_geoids(s: Seq<char>, p: int, gs: Seq<GeoidModelV>, k: int, st: CrsTailV)
    requires
        writable_geoids(gs),
        0 <= k <= gs.len(),
        at(s, p, each_text(gs, geoid_fn())),
    ensures
        sp_crs_items(s, p + each_text(gs.take(k), geoid_fn()).len(), true, CrsTailV { geoid_models: gs.take(k), ..st })
            == sp_crs_items(s, p + each_text(gs, geoid_fn()).len(), true, CrsTailV { geoid_models: gs, ..st }),
    decreases gs.len() - k,
{
    if k == gs.len() {
        assert(gs.take(k) =~= gs);
    } else {
        lemma_each_split(s, p, gs, geoid_fn(), k);
        let q = p + each_text(gs.take(k), geoid_fn()).len();
        assert(quotable(gs[k].name) && writable_ids(gs[k].identifiers));
        lemma_tail_geoid_step(s, q, CrsTailV { geoid_models: gs.take(k), ..st }, gs[k]);
        assert(gs.take(k).push(gs[k]) =~= gs.take(k + 1));
        lemma_tail_geoids(s, p, gs, k + 1, st);
    }
}

/// The writer writes a geoid model as its node text.
pub(crate) proof fn lemma_wr_geoid(acc: Seq<char>, g: GeoidModelV)
    ensures
        wr_geoid(acc, g) == acc + geoid_text(g),
{
    reveal_strlit("GEOIDMODEL[");
    reveal_strlit("GEOIDMODEL");
    let a0 = wr_quoted(acc + "GEOIDMODEL["@, g.name);
    lemma_wr_quoted(acc + "GEOIDMODEL["@, g.name);
    lemma_wr_ids(a0, g.identifiers);
    assert(wr_ids(a0, g.identifiers).push(']') =~= acc + geoid_text(g));
}

/// The writer writes geoid models, each after a comma.
pub(crate) proof fn lemma_wr_geoids(acc: Seq<char>, gs: Seq<GeoidModelV>)
    ensures
        wr_geoids(acc, gs) == acc + each_text(gs, geoid_fn()),
{
    let f = |a: Seq<char>, g: GeoidModelV| wr_geoid(a, g);
    assert forall|a: Seq<char>, g: GeoidModelV| #[trigger] f(a, g) == a + geoid_fn()(g) by {
        lemma_wr_geoid(a, g);
    }
    lemma_wr_each(acc, gs, f, geoid_fn());
}

/// The items of a CRS after its `CS` header: axes, unit, geoid models,
/// usages, identifiers and remark, and the closing `]`.
#[verifier::opaque]
pub open spec fn crs_items_text(
    c: CoordinateSystemV,
    gs: Seq<GeoidModelV>,
    us: Seq<UsageV>,
    ids: Seq<IdentifierV>,
    r: Option<Seq<char>>,
) -> Seq<char> {
    each_text(c.axes, axis_fn()) + opt_unit_text(c.cs_unit) + each_text(gs, geoid_fn()) + each_text(us, usage_fn())
        + each_text(ids, id_fn()) + remark_text(r) + seq![']']
}

/// The text of a coordinate system and the rest of a CRS after it.
#[verifier::opaque]
pub open spec fn cs_tail_text(
    c: CoordinateSystemV,
    gs: Seq<GeoidModelV>,
    us: Seq<UsageV>,
    ids: Seq<IdentifierV>,
    r: Option<Seq<char>>,
) -> Seq<char> {
    cs_header_text(c.cs_type, c.dimension, c.identifiers) + crs_items_text(c, gs, us, ids, r)
}

/// Whether a coordinate system can be written and read back.
pub open spec fn writable_cs(c: CoordinateSystemV) -> bool {
    &&& writable_ids(c.identifiers)
    &&& forall|i: int| 0 <= i < c.axes.len() ==> writable_axis(#[trigger] c.axes[i])
    &&& (c.cs_unit matches Some(u) ==> writable_unit(u))
}

/// Whether the usages, identifiers and remark of a CRS can be written and
/// read back.
pub open spec fn writable_tail(us: Seq<UsageV>, ids: Seq<IdentifierV>, r: Option<Seq<char>>) -> bool {
    &&& forall|i: int| 0 <= i < us.len() ==> writable_usage(#[trigger] us[i])
    &&& writable_ids(ids)
    &&& (r matches Some(t) ==> quotable(t))
}

/// The tail read from a CRS without geoid models.
pub open spec fn tail_of(
    c: CoordinateSystemV,
    gs: Seq<GeoidModelV>,
    us: Seq<UsageV>,
    ids: Seq<IdentifierV>,
    r: Option<Seq<char>>,
) -> CrsTailV {
    CrsTailV {
        axes: c.axes,
        cs_unit: c.cs_unit,
        geoid_models: gs,
        usages: us,
        identifiers: ids,
        remark: r,
    }
}

/// The items of a CRS after its `CS` header are read.
/// The axes, unit and geoid models of a CRS are read into its tail.
#[verifier::spinoff_prover]
#[verifier::rlimit(40)]
pub(crate) proof fn lemma_crs_items_head(
    s: Seq<char>,
    p: int,
    vert: bool,
    c: CoordinateSystemV,
    gs: Seq<GeoidModelV>,
)
    requires
        writable_cs(c),
        writable_geoids(gs),
        vert || gs.len() == 0,
        at(s, p, each_text(c.axes, axis_fn()) + opt_unit_text(c.cs_unit) + each_text(gs, geoid_fn())),
    ensures
        sp_crs_items(s, p, vert, empty_tail()) == sp_crs_items(
            s,
            p + (each_text(c.axes, axis_fn()) + opt_unit_text(c.cs_unit) + each_text(gs, geoid_fn())).len(),
            vert,
            CrsTailV { axes: c.axes, cs_unit: c.cs_unit, geoid_models: gs, ..empty_tail() },
        ),
{
    let t1 = each_text(c.axes, axis_fn());
    let t2 = opt_unit_text(c.cs_unit);
    let tg = each_text(gs, geoid_fn());
    lemma_at_split(s, p, t1 + t2, tg);
    lemma_at_split(s, p, t1, t2);
    let p1 = p + t1.len();
    let p2 = p1 + t2.len();
    let st0 = empty_tail();
    let st1 = CrsTailV { axes: c.axes, ..st0 };
    let st2 = CrsTailV { cs_unit: c.cs_unit, ..st1 };
    lemma_tail_axes(s, p, c.axes, 0, vert, st0);
    assert(c.axes.take(0) =~= Seq::<AxisV>::empty());
    lemma_each_empty(axis_fn());
    lemma_each_empty(geoid_fn());
    assert(CrsTailV { axes: c.axes.take(0), ..st0 } == st0);
    lemma_tail_unit_step(s, p1, vert, st1, c.cs_unit);
    if vert {
        lemma_tail_geoids(s, p2, gs, 0, st2);
        assert(gs.take(0) =~= Seq::<GeoidModelV>::empty());
        assert(CrsTailV { geoid_models: gs.take(0), ..st2 } == st2);
    } else {
        assert(gs =~= Seq::<GeoidModelV>::empty());
    }
    assert(CrsTailV { geoid_models: gs, ..st2 } == CrsTailV {
        axes: c.axes,
        cs_unit: c.cs_unit,
        geoid_models: gs,
        ..empty_tail()
    });
}

/// The usages, identifiers and remark of a CRS, and its `]`, are read into
/// its tail.
#[verifier::spinoff_prover]
#[verifier::rlimit(40)]
pub(crate) proof fn lemma_crs_items_rest(
    s: Seq<char>,
    q: int,
    vert: bool,
    st: CrsTailV,
    us: Seq<UsageV>,
    ids: Seq<IdentifierV>,
    r: Option<Seq<char>>,
)
    requires
        writable_tail(us, ids, r),
        st.usages.len() == 0,
        st.identifiers.len() == 0,
        st.remark is None,
        at(s, q, each_text(us, usage_fn()) + each_text(ids, id_fn()) + remark_text(r) + seq![']']),
    ensures
        sp_crs_items(s, q, vert, st) == Ok::<(CrsTailV, int), ParseErrorV>(
            (
                CrsTailV { usages: us, identifiers: ids, remark: r, ..st },
                q + (each_text(us, usage_fn()) + each_text(ids, id_fn()) + remark_text(r)).len(),
            ),
        ),
{
    let t3 = each_text(us, usage_fn());
    let t4 = each_text(ids, id_fn());
    let t5 = remark_text(r);
    lemma_at_split(s, q, t3 + t4 + t5, seq![']']);
    lemma_at_split(s, q, t3 + t4, t5);
    lemma_at_split(s, q, t3, t4);
    let p3 = q + t3.len();
    let p4 = p3 + t4.len();
    let p5 = p4 + t5.len();
    let st3 = CrsTailV { usages: us, ..st };
    let st4 = CrsTailV { identifiers: ids, ..st3 };
    let st5 = CrsTailV { remark: r, ..st4 };
    lemma_each_empty(usage_fn());
    lemma_each_empty(id_fn());
    lemma_tail_usages(s, q, us, 0, vert, st);
    assert(us.take(0) =~= Seq::<UsageV>::empty());
    assert(st.usages =~= Seq::<UsageV>::empty());
    assert(CrsTailV { usages: us.take(0), ..st } == st);
    lemma_tail_ids(s, p3, ids, 0, vert, st3);
    assert(ids.take(0) =~= Seq::<IdentifierV>::empty());
    assert(st.identifiers =~= Seq::<IdentifierV>::empty());
    assert(CrsTailV { identifiers: ids.take(0), ..st3 } == st3);
    lemma_tail_remark_step(s, p4, vert, st4, r);
    lemma_at_char(s, p5, seq![']'], 0);
    lemma_skip_none(s, p5);
    assert(sp_at_close(s, p5));
    assert(sp_crs_items(s, p5, vert, st5) == Ok::<(CrsTailV, int), ParseErrorV>((st5, p5)));
}

/// The items of a CRS after its `CS` header are read.
#[verifier::spinoff_prover]
#[verifier::rlimit(40)]
pub(crate) proof fn lemma_crs_items_at(
    s: Seq<char>,
    p: int,
    vert: bool,
    c: CoordinateSystemV,
    gs: Seq<GeoidModelV>,
    us: Seq<UsageV>,
    ids: Seq<IdentifierV>,
    r: Option<Seq<char>>,
)
    requires
        writable_cs(c),
        writable_geoids(gs),
        vert || gs.len() == 0,
        writable_tail(us, ids, r),
        at(s, p, crs_items_text(c, gs, us, ids, r)),
    ensures
        sp_crs_items(s, p, vert, empty_tail()) == Ok::<(CrsTailV, int), ParseErrorV>(
            (tail_of(c, gs, us, ids, r), p + crs_items_text(c, gs, us, ids, r).len() - 1),
        ),
        crs_items_text(c, gs, us, ids, r).len() >= 1,
        s[p + crs_items_text(c, gs, us, ids, r).len() - 1] == ']',
{
    reveal(crs_items_text);
    let h = each_text(c.axes, axis_fn()) + opt_unit_text(c.cs_unit) + each_text(gs, geoid_fn());
    let t = each_text(us, usage_fn()) + each_text(ids, id_fn()) + remark_text(r) + seq![']'];
    assert(crs_items_text(c, gs, us, ids, r) =~= h + t);
    lemma_at_split(s, p, h, t);
    lemma_crs_items_head(s, p, vert, c, gs);
    let st = CrsTailV { axes: c.axes, cs_unit: c.cs_unit, geoid_models: gs, ..empty_tail() };
    lemma_crs_items_rest(s, p + h.len(), vert, st, us, ids, r);
    lemma_at_char(s, p + h.len(), t, t.len() - 1);
}

/// A coordinate system and the rest of a CRS after it are read.
#[verifier::spinoff_prover]
#[verifier::rlimit(30)]
pub(crate) proof fn lemma_cs_and_tail_at(
    s: Seq<char>,
    p: int,
    vert: bool,
    c: CoordinateSystemV,
    gs: Seq<GeoidModelV>,
    us: Seq<UsageV>,
    ids: Seq<IdentifierV>,
    r: Option<Seq<char>>,
)
    requires
        writable_cs(c),
        writable_geoids(gs),
        vert || gs.len() == 0,
        writable_tail(us, ids, r),
        at(s, p, cs_tail_text(c, gs, us, ids, r)),
    ensures
        sp_cs_and_tail(s, p, vert) == Ok::<((CoordinateSystemV, CrsTailV), int), ParseErrorV>(
            ((c, tail_of(c, gs, us, ids, r)), p + cs_tail_text(c, gs, us, ids, r).len()),
        ),
        sp_peek_kw(s, p) == "CS"@,
        !is_ws(s[p]),
{
    reveal(cs_tail_text);
    reveal(cs_header_text);
    let h = cs_header_text(c.cs_type, c.dimension, c.identifiers);
    let it = crs_items_text(c, gs, us, ids, r);
    lemma_at_split(s, p, h, it);
    lemma_cs_header_at(s, p, c.cs_type, c.dimension, c.identifiers);
    lemma_crs_items_at(s, p + h.len(), vert, c, gs, us, ids, r);
    let q = p + h.len() + it.len() - 1;
    lemma_skip_none(s, q);
    reveal_strlit("CS");
    lemma_cs_type(c.cs_type);
    assert(h =~= ("CS"@ + seq!['[']) + h.subrange(3, h.len() as int));
    lemma_at_split(s, p, "CS"@ + seq!['['], h.subrange(3, h.len() as int));
    lemma_at_split(s, p, h, it);
    lemma_at_char(s, p, h, 3);
    lemma_at_char(s, p, h, 0);
    assert(h[3] == cs_type_text(c.cs_type)[0]);
    lemma_open_kw_at(s, p, "CS"@);
    assert(cs_of((c.cs_type, c.dimension, c.identifiers), tail_of(c, gs, us, ids, r)) == c);
}

pub(crate) proof fn lemma_each_empty<T>(g: spec_fn(T) -> Seq<char>)
    ensures
        each_text(Seq::<T>::empty(), g) == Seq::<char>::empty(),
{
    reveal(each_text);
}

pub(crate) proof fn lemma_wr_kw_number(a: Seq<char>, litc: Seq<char>, lit: Seq<char>, d: Option<DecimalV>)
    requires
        litc == seq![','] + (lit + seq!['[']),
    ensures
        (match d {
            Some(v) => (a + litc + decimal_text(v)).push(']'),
            None => a,
        }) == a + opt_kw_number_text(lit, d),
{
    reveal(opt_kw_number_text);
    match d {
        Some(v) => {
            assert((a + litc + decimal_text(v)).push(']') =~= a + opt_kw_number_text(lit, d));
        },
        None => {
            assert(a =~= a + opt_kw_number_text(lit, d));
        },
    }
}

pub(crate) proof fn lemma_wr_order(a: Seq<char>, o: Option<u32>)
    ensures
        (match o {
            Some(n) => (a + ",ORDER["@ + nat_text(n as nat)).push(']'),
            None => a,
        }) == a + opt_order_text(o),
{
    reveal(opt_order_text);
    reveal_strlit(",ORDER[");
    reveal_strlit("ORDER");
    match o {
        Some(n) => {
            assert((a + ",ORDER["@ + nat_text(n as nat)).push(']') =~= a + opt_order_text(o));
        },
        None => {
            assert(a =~= a + opt_order_text(o));
        },
    }
}

pub(crate) proof fn lemma_wr_opt_meridian(a: Seq<char>, m: Option<MeridianV>)
    ensures
        (match m {
            Some(x) => wr_meridian(a.push(','), x),
            None => a,
        }) == a + opt_meridian_text(m),
{
    reveal(opt_meridian_text);
    reveal_strlit("MERIDIAN[");
    reveal_strlit("MERIDIAN");
    match m {
        Some(x) => {
            lemma_wr_unit((a.push(',') + "MERIDIAN["@ + decimal_text(x.value)).push(','), x.unit);
            assert(wr_meridian(a.push(','), x) =~= a + opt_meridian_text(m));
        },
        None => {
            assert(a =~= a + opt_meridian_text(m));
        },
    }
}

pub(crate) proof fn lemma_wr_opt_range(a: Seq<char>, r: Option<RangeMeaning>)
    ensures
        (match r {
            Some(x) => a.push(',') + range_meaning_text(x),
            None => a,
        }) == a + opt_range_text(r),
{
    reveal(opt_range_text);
    match r {
        Some(x) => {
            assert(a.push(',') + range_meaning_text(x) =~= a + opt_range_text(r));
        },
        None => {
            assert(a =~= a + opt_range_text(r));
        },
    }
}

pub(crate) proof fn lemma_wr_opt_unit(a: Seq<char>, u: Option<UnitV>)
    ensures
        wr_opt_unit(a, u) == a + opt_unit_text(u),
{
    match u {
        Some(x) => {
            lemma_wr_unit(a.push(','), x);
            assert(wr_opt_unit(a, u) =~= a + opt_unit_text(u));
        },
        None => {
            assert(wr_opt_unit(a, u) =~= a + opt_unit_text(u));
        },
    }
}

pub(crate) proof fn lemma_concat_axis(
    acc: Seq<char>,
    h: Seq<char>,
    t1: Seq<char>,
    t2: Seq<char>,
    t3: Seq<char>,
    t4: Seq<char>,
    t5: Seq<char>,
    t6: Seq<char>,
    t7: Seq<char>,
    t8: Seq<char>,
)
    ensures
        (acc + h + t1 + t2 + t3 + t4 + t5 + t6 + t7 + t8).push(']') == acc + (h + (t1 + t2 + t3 + t4 + t5 + t6
            + t7 + t8) + seq![']']),
{
    assert((acc + h + t1 + t2 + t3 + t4 + t5 + t6 + t7 + t8).push(']') =~= acc + (h + (t1 + t2 + t3 + t4 + t5
        + t6 + t7 + t8) + seq![']']));
}

/// A coordinate system's text starts with the keyword `CS`.
pub(crate) proof fn lemma_cs_start(
    s: Seq<char>,
    p: int,
    c: CoordinateSystemV,
    gs: Seq<GeoidModelV>,
    us: Seq<UsageV>,
    ids: Seq<IdentifierV>,
    r: Option<Seq<char>>,
)
    requires
        at(s, p, cs_tail_text(c, gs, us, ids, r)),
    ensures
        sp_peek_kw(s, p) == "CS"@,
        !is_ws(s[p]),
        p + 3 < s.len(),
{
    reveal(cs_tail_text);
    reveal(cs_header_text);
    reveal_strlit("CS");
    lemma_cs_type(c.cs_type);
    let h = cs_header_text(c.cs_type, c.dimension, c.identifiers);
    let w = cs_tail_text(c, gs, us, ids, r);
    assert(w =~= ("CS"@ + seq!['[']) + w.subrange(3, w.len() as int));
    lemma_at_split(s, p, "CS"@ + seq!['['], w.subrange(3, w.len() as int));
    lemma_at_char(s, p, w, 3);
    lemma_at_char(s, p, w, 0);
    assert(w[3] == cs_type_text(c.cs_type)[0]);
    lemma_open_kw_at(s, p, "CS"@);
}

/// The writer writes an axis as its node text.
#[verifier::spinoff_prover]
pub(crate) proof fn lemma_wr_axis(acc: Seq<char>, x: AxisV)
    ensures
        wr_axis(acc, x) == acc + axis_text(x),
{
    reveal(axis_text);
    reveal_strlit("AXIS[");
    reveal_strlit("AXIS");
    reveal_strlit(",BEARING[");
    reveal_strlit("BEARING");
    reveal_strlit(",AXISMINVALUE[");
    reveal_strlit("AXISMINVALUE");
    reveal_strlit(",AXISMAXVALUE[");
    reveal_strlit("AXISMAXVALUE");
    lemma_wr_quoted(acc + "AXIS["@, x.name_abbrev);
    let a0 = wr_quoted(acc + "AXIS["@, x.name_abbrev).push(',') + x.direction;
    let h = "AXIS"@ + seq!['['] + quoted(x.name_abbrev) + seq![','] + x.direction;
    assert(a0 =~= acc + h);
    let a1 = match x.meridian {
        Some(m) => wr_meridian(a0.push(','), m),
        None => a0,
    };
    lemma_wr_opt_meridian(a0, x.meridian);
    let a2 = match x.bearing {
        Some(b) => (a1 + ",BEARING["@ + decimal_text(b)).push(']'),
        None => a1,
    };
    assert(",BEARING["@ =~= seq![','] + ("BEARING"@ + seq!['[']));
    lemma_wr_kw_number(a1, ",BEARING["@, "BEARING"@, x.bearing);
    let a3 = match x.order {
        Some(o) => (a2 + ",ORDER["@ + nat_text(o as nat)).push(']'),
        None => a2,
    };
    lemma_wr_order(a2, x.order);
    let a4 = wr_opt_unit(a3, x.unit);
    lemma_wr_opt_unit(a3, x.unit);
    let a5 = match x.axis_min_value {
        Some(v) => (a4 + ",AXISMINVALUE["@ + decimal_text(v)).push(']'),
        None => a4,
    };
    assert(",AXISMINVALUE["@ =~= seq![','] + ("AXISMINVALUE"@ + seq!['[']));
    lemma_wr_kw_number(a4, ",AXISMINVALUE["@, "AXISMINVALUE"@, x.axis_min_value);
    let a6 = match x.axis_max_value {
        Some(v) => (a5 + ",AXISMAXVALUE["@ + decimal_text(v)).push(']'),
        None => a5,
    };
    assert(",AXISMAXVALUE["@ =~= seq![','] + ("AXISMAXVALUE"@ + seq!['[']));
    lemma_wr_kw_number(a5, ",AXISMAXVALUE["@, "AXISMAXVALUE"@, x.axis_max_value);
    let a7 = match x.range_meaning {
        Some(r) => a6.push(',') + range_meaning_text(r),
        None => a6,
    };
    lemma_wr_opt_range(a6, x.range_meaning);
    lemma_wr_ids(a7, x.identifiers);
    assert(wr_axis(acc, x) == wr_ids(a7, x.identifiers).push(']'));
    lemma_concat_axis(
        acc,
        h,
        opt_meridian_text(x.meridian),
        opt_kw_number_text("BEARING"@, x.bearing),
        opt_order_text(x.order),
        opt_unit_text(x.unit),
        opt_kw_number_text("AXISMINVALUE"@, x.axis_min_value),
        opt_kw_number_text("AXISMAXVALUE"@, x.axis_max_value),
        opt_range_text(x.range_meaning),
        ids_text(x.identifiers),
    );
}

/// The writer writes a coordinate system as its header, its axes and its unit.
pub(crate) proof fn lemma_wr_cs(acc: Seq<char>, c: CoordinateSystemV)
    ensures
        wr_cs(acc, c) == acc + cs_header_text(c.cs_type, c.dimension, c.identifiers) + each_text(c.axes, axis_fn())
            + opt_unit_text(c.cs_unit),
{
    reveal(cs_header_text);
    reveal_strlit("CS[");
    reveal_strlit("CS");
    let a0 = (acc + "CS["@ + cs_type_text(c.cs_type)).push(',') + nat_text(c.dimension as nat);
    lemma_wr_ids(a0, c.identifiers);
    let a1 = wr_ids(a0, c.identifiers).push(']');
    assert(a1 =~= acc + cs_header_text(c.cs_type, c.dimension, c.identifiers));
    let f = |a: Seq<char>, x: AxisV| wr_axis(a, x);
    assert forall|a: Seq<char>, x: AxisV| #[trigger] f(a, x) == a + axis_fn()(x) by {
        lemma_wr_axis(a, x);
    }
    lemma_wr_each(a1, c.axes, f, axis_fn());
    let a2 = wr_axes(a1, c.axes);
    assert(a2 == a1 + each_text(c.axes, axis_fn()));
    match c.cs_unit {
        Some(u) => {
            lemma_wr_unit(a2.push(','), u);
            assert(wr_opt_unit(a2, c.cs_unit) =~= a2 + opt_unit_text(c.cs_unit));
        },
        None => {
            assert(wr_opt_unit(a2, c.cs_unit) =~= a2 + opt_unit_text(c.cs_unit));
        },
    }
}

/// The writer writes the usages, identifiers and remark of a CRS, and its `]`.
pub(crate) proof fn lemma_wr_crs_tail(acc: Seq<char>, us: Seq<UsageV>, ids: Seq<IdentifierV>, r: Option<Seq<char>>)
    ensures
        wr_crs_tail(acc, us, ids, r) == acc + each_text(us, usage_fn()) + each_text(ids, id_fn()) + remark_text(r)
            + seq![']'],
{
    reveal_strlit(",REMARK[");
    reveal_strlit("REMARK");
    let f = |a: Seq<char>, u: UsageV| wr_usage(a, u);
    assert forall|a: Seq<char>, u: UsageV| #[trigger] f(a, u) == a + usage_fn()(u) by {
        lemma_wr_usage(a, u);
    }
    lemma_wr_each(acc, us, f, usage_fn());
    let a0 = wr_usages(acc, us);
    assert(a0 == acc + each_text(us, usage_fn()));
    lemma_wr_ids(a0, ids);
    lemma_ids_each(ids);
    let a1 = wr_ids(a0, ids);
    match r {
        Some(t) => {
            lemma_wr_quoted(a1 + ",REMARK["@, t);
            assert(wr_remark(a1, r) =~= a1 + remark_text(r));
        },
        None => {
            assert(wr_remark(a1, r) =~= a1 + remark_text(r));
        },
    }
    assert(wr_remark(a1, r).push(']') =~= acc + each_text(us, usage_fn()) + each_text(ids, id_fn()) + remark_text(r)
        + seq![']']);
}

/// What follows a geographic or geodetic CRS's name and comma, up to its
/// `CS`: the optional dynamic node, the datum, and its prime meridian.
#[verifier::opaque]
pub open spec fn geo_body_text(dy: Option<DynamicCrsV>, d: DatumV) -> Seq<char> {
    (match dy {
        Some(x) => dynamic_text(x) + seq![','],
        None => Seq::empty(),
    }) + datum_node_text(d) + opt_pm_text(datum_pm(d)) + seq![',']
}

/// The datum part of a geographic or geodetic CRS is read.
#[verifier::spinoff_prover]
#[verifier::rlimit(100)]
pub(crate) proof fn lemma_geodetic_body_at(
    s: Seq<char>,
    q: int,
    dy: Option<DynamicCrsV>,
    d: DatumV,
    c: CoordinateSystemV,
    us: Seq<UsageV>,
    ids: Seq<IdentifierV>,
    r: Option<Seq<char>>,
)
    requires
        dy matches Some(x) ==> writable_dynamic(x),
        writable_datum(d),
        writable_cs(c),
        writable_tail(us, ids, r),
        at(s, q, geo_body_text(dy, d) + cs_tail_text(c, Seq::empty(), us, ids, r)),
    ensures
        sp_geodetic_body(s, q) == Ok::<((Option<DynamicCrsV>, DatumV), int), ParseErrorV>(
            ((dy, d), q + geo_body_text(dy, d).len()),
        ),
        !is_ws(s[q]),
{
    reveal(geo_body_text);
    let dyt = match dy {
        Some(x) => dynamic_text(x) + seq![','],
        None => Seq::<char>::empty(),
    };
    let dn = datum_node_text(d);
    let pt = opt_pm_text(datum_pm(d));
    let ct = cs_tail_text(c, Seq::empty(), us, ids, r);
    lemma_at_split(s, q, geo_body_text(dy, d), ct);
    lemma_at_split(s, q, dyt + dn + pt, seq![',']);
    lemma_at_split(s, q, dyt + dn, pt);
    lemma_dynamic_opt_at(s, q, dy, d);
    let q1 = q + dyt.len();
    lemma_datum_at(s, q1, d);
    let q2 = q1 + dn.len();
    let qe = q + geo_body_text(dy, d).len();
    lemma_cs_start(s, qe, c, Seq::empty(), us, ids, r);
    lemma_at_char(s, qe - 1, seq![','], 0);
    lemma_base_kws_here();
    match datum_pm(d) {
        Some(m) => {
            lemma_pm_item_at(s, q2, m);
            lemma_node_kws();
            lemma_at_split(s, q2, seq![','], pm_text(m));
            lemma_at_char(s, q2 + 1, pm_text(m), 0);
            assert(pm_text(m)[0] == "PRIMEM"@[0]);
            lemma_at_char(s, q2, seq![','], 0);
            lemma_ws_char_ws_at(s, q2, ',');
            lemma_ws_char_ws_at(s, qe - 1, ',');
            assert(with_pm(datum_alone(d), m) == d);
        },
        None => {
            assert(pt.len() == 0);
            lemma_ws_char_ws_at(s, q2, ',');
            assert(datum_alone(d) == d);
        },
    }
}

pub(crate) proof fn lemma_base_kws_here()
    ensures
        is_pm_kw("PRIMEM"@),
        !is_pm_kw("CS"@),
        forall|i: int| 0 <= i < 6 ==> is_upper(#[trigger] "PRIMEM"@[i]),
{
    reveal_strlit("PRIMEM");
    reveal_strlit("PRIMEMERIDIAN");
    reveal_strlit("CS");
    assert("CS"@.len() == 2 && "PRIMEM"@.len() == 6 && "PRIMEMERIDIAN"@.len() == 13);
}

/// Whether the parts of a geographic or geodetic CRS can be written and
/// read back.
pub open spec fn writable_geo(
    name: Seq<char>,
    dy: Option<DynamicCrsV>,
    d: DatumV,
    c: CoordinateSystemV,
    us: Seq<UsageV>,
    ids: Seq<IdentifierV>,
    r: Option<Seq<char>>,
) -> bool {
    &&& quotable(name)
    &&& (dy matches Some(x) ==> writable_dynamic(x))
    &&& writable_datum(d)
    &&& writable_cs(c)
    &&& writable_tail(us, ids, r)
}

/// The text of a geographic or geodetic CRS after its keyword and `[`.
#[verifier::opaque]
pub open spec fn geo_parts_text(
    name: Seq<char>,
    dy: Option<DynamicCrsV>,
    d: DatumV,
    c: CoordinateSystemV,
    us: Seq<UsageV>,
    ids: Seq<IdentifierV>,
    r: Option<Seq<char>>,
) -> Seq<char> {
    quoted(name) + seq![','] + geo_body_text(dy, d) + cs_tail_text(c, Seq::empty(), us, ids, r)
}

/// The parts of a geographic or geodetic CRS are read.
#[verifier::spinoff_prover]
#[verifier::rlimit(80)]
pub(crate) proof fn lemma_geo_parts_at(
    s: Seq<char>,
    q: int,
    name: Seq<char>,
    dy: Option<DynamicCrsV>,
    d: DatumV,
    c: CoordinateSystemV,
    us: Seq<UsageV>,
    ids: Seq<IdentifierV>,
    r: Option<Seq<char>>,
)
    requires
        writable_geo(name, dy, d, c, us, ids, r),
        at(s, q, geo_parts_text(name, dy, d, c, us, ids, r)),
    ensures
        sp_geo_parts(s, q) == Ok::<(GeoPartsV, int), ParseErrorV>(
            (
                GeoPartsV { name, dynamic: dy, datum: d, coordinate_system: c, tail: tail_of(c, Seq::empty(), us, ids, r) },
                q + geo_parts_text(name, dy, d, c, us, ids, r).len(),
            ),
        ),
        s[q] == '"',
{
    reveal(geo_parts_text);
    let b = geo_body_text(dy, d);
    let ct = cs_tail_text(c, Seq::empty(), us, ids, r);
    let w = geo_parts_text(name, dy, d, c, us, ids, r);
    assert(w =~= quoted(name) + (seq![','] + (b + ct)));
    lemma_at_split(s, q, quoted(name), seq![','] + (b + ct));
    lemma_at_char(s, q, quoted(name), 0);
    lemma_quoted_at(s, q, name);
    let q1 = q + name.len() + 2;
    lemma_at_split(s, q1, seq![','], b + ct);
    lemma_at_char(s, q1, seq![','], 0);
    lemma_geodetic_body_at(s, q1 + 1, dy, d, c, us, ids, r);
    lemma_ws_char_ws_at(s, q1, ',');
    lemma_at_split(s, q1 + 1, b, ct);
    lemma_cs_and_tail_at(s, q1 + 1 + b.len(), false, c, Seq::empty(), us, ids, r);
    lemma_no_geoids();
}

/// The text of a geographic CRS node.
#[verifier::opaque]
pub open spec fn geog_text(c: GeogCrsV) -> Seq<char> {
    geog_kw_text(c.keyword) + seq!['['] + geo_parts_text(
        c.name,
        c.dynamic,
        c.datum,
        c.coordinate_system,
        c.usages,
        c.identifiers,
        c.remark,
    )
}

/// The text of a geodetic CRS node.
#[verifier::opaque]
pub open spec fn geod_text(c: GeodCrsV) -> Seq<char> {
    geod_kw_text(c.keyword) + seq!['['] + geo_parts_text(
        c.name,
        c.dynamic,
        c.datum,
        c.coordinate_system,
        c.usages,
        c.identifiers,
        c.remark,
    )
}

pub(crate) proof fn lemma_geo_kws()
    ensures
        "GEOGCRS"@ != "GEOGRAPHICCRS"@,
        "GEODCRS"@ != "GEODETICCRS"@,
        forall|k: GeogCrsKeyword| #![trigger geog_kw_text(k)] geog_kw_text(k).len() > 0 && forall|i: int|
            0 <= i < geog_kw_text(k).len() ==> is_upper(#[trigger] geog_kw_text(k)[i]),
        forall|k: GeodCrsKeyword| #![trigger geod_kw_text(k)] geod_kw_text(k).len() > 0 && forall|i: int|
            0 <= i < geod_kw_text(k).len() ==> is_upper(#[trigger] geod_kw_text(k)[i]),
        "GEOGCRS"@.len() == 7 && "GEOGRAPHICCRS"@.len() == 13 && "GEODCRS"@.len() == 7
            && "GEODETICCRS"@.len() == 11,
        "PROJCRS"@.len() == 7 && "VERTCRS"@.len() == 7 && "VERTICALCRS"@.len() == 11
            && "COMPOUNDCRS"@.len() == 11,
        "GEOGCRS"@ != "PROJCRS"@ && "GEOGRAPHICCRS"@ != "PROJCRS"@,
        "GEODCRS"@ != "PROJCRS"@ && "GEODETICCRS"@ != "PROJCRS"@,
        "GEODCRS"@ != "GEOGCRS"@ && "GEODCRS"@ != "GEOGRAPHICCRS"@ && "GEODETICCRS"@ != "GEOGCRS"@
            && "GEODETICCRS"@ != "GEOGRAPHICCRS"@,
{
    reveal_strlit("GEOGCRS");
    reveal_strlit("GEOGRAPHICCRS");
    reveal_strlit("GEODCRS");
    reveal_strlit("GEODETICCRS");
    reveal_strlit("PROJCRS");
    reveal_strlit("VERTCRS");
    reveal_strlit("VERTICALCRS");
    reveal_strlit("COMPOUNDCRS");
    assert("GEOGCRS"@.len() == 7 && "GEOGRAPHICCRS"@.len() == 13 && "GEODCRS"@.len() == 7);
    assert("GEODETICCRS"@.len() == 11 && "PROJCRS"@.len() == 7);
    assert("GEOGCRS"@[3] != "GEODCRS"@[3]);
    assert("GEOGCRS"@[0] != "PROJCRS"@[0]);
    assert("GEODCRS"@[0] != "PROJCRS"@[0]);
}

/// A geographic CRS node standing at `p` is read as the CRS.
#[verifier::spinoff_prover]
#[verifier::rlimit(80)]
pub(crate) proof fn lemma_geog_at(s: Seq<char>, p: int, c: GeogCrsV)
    requires
        writable_geo(c.name, c.dynamic, c.datum, c.coordinate_system, c.usages, c.identifiers, c.remark),
        at(s, p, geog_text(c)),
    ensures
        sp_geog(s, p) == Ok::<(GeogCrsV, int), ParseErrorV>((c, p + geog_text(c).len())),
        sp_peek_kw(s, p) == geog_kw_text(c.keyword),
        !is_ws(s[p]),
{
    reveal(geog_text);
    reveal(sp_geog);
    lemma_geo_kws();
    let kt = geog_kw_text(c.keyword);
    let g = geo_parts_text(c.name, c.dynamic, c.datum, c.coordinate_system, c.usages, c.identifiers, c.remark);
    lemma_at_split(s, p, kt + seq!['['], g);
    let q = p + kt.len() + 1;
    lemma_geo_parts_at(s, q, c.name, c.dynamic, c.datum, c.coordinate_system, c.usages, c.identifiers, c.remark);
    lemma_open_kw_at(s, p, kt);
    lemma_at_char(s, p, kt + seq!['['], 0);
    lemma_at_char(s, p, kt + seq!['['], kt.len() as int);
    lemma_skip_none(s, p);
    lemma_ws_char_ws_at(s, p + kt.len(), '[');
}

/// A geodetic CRS node standing at `p` is read as the CRS.
#[verifier::spinoff_prover]
#[verifier::rlimit(80)]
pub(crate) proof fn lemma_geod_at(s: Seq<char>, p: int, c: GeodCrsV)
    requires
        writable_geo(c.name, c.dynamic, c.datum, c.coordinate_system, c.usages, c.identifiers, c.remark),
        at(s, p, geod_text(c)),
    ensures
        sp_geod(s, p) == Ok::<(GeodCrsV, int), ParseErrorV>((c, p + geod_text(c).len())),
        sp_peek_kw(s, p) == geod_kw_text(c.keyword),
        !is_ws(s[p]),
{
    reveal(geod_text);
    reveal(sp_geod);
    lemma_geo_kws();
    let kt = geod_kw_text(c.keyword);
    let g = geo_parts_text(c.name, c.dynamic, c.datum, c.coordinate_system, c.usages, c.identifiers, c.remark);
    lemma_at_split(s, p, kt + seq!['['], g);
    let q = p + kt.len() + 1;
    lemma_geo_parts_at(s, q, c.name, c.dynamic, c.datum, c.coordinate_system, c.usages, c.identifiers, c.remark);
    lemma_open_kw_at(s, p, kt);
    lemma_at_char(s, p, kt + seq!['['], 0);
    lemma_at_char(s, p, kt + seq!['['], kt.len() as int);
    lemma_skip_none(s, p);
    lemma_ws_char_ws_at(s, p + kt.len(), '[');
}

pub(crate) proof fn lemma_odt(dy: Option<DynamicCrsV>)
    ensures
        opt_dynamic_text(dy) + seq![','] == seq![','] + (match dy {
            Some(x) => dynamic_text(x) + seq![','],
            None => Seq::<char>::empty(),
        }),
{
    match dy {
        Some(x) => {
            lemma_assoc(seq![','], dynamic_text(x), seq![',']);
        },
        None => {
            assert(opt_dynamic_text(dy) + seq![','] =~= seq![','] + Seq::<char>::empty());
        },
    }
}

/// The writer writes a geographic or geodetic CRS's keyword, name and datum
/// part.
#[verifier::spinoff_prover]
#[verifier::rlimit(40)]
pub(crate) proof fn lemma_wr_geo_head(acc: Seq<char>, kt: Seq<char>, name: Seq<char>, dy: Option<DynamicCrsV>, d: DatumV)
    ensures
        wr_datum(wr_opt_dynamic(wr_quoted((acc + kt).push('['), name), dy), d).push(',') == acc + (kt + seq!['['])
            + (quoted(name) + seq![','] + geo_body_text(dy, d)),
{
    reveal(geo_body_text);
    let a0 = wr_quoted((acc + kt).push('['), name);
    lemma_wr_quoted((acc + kt).push('['), name);
    let a1 = wr_opt_dynamic(a0, dy);
    lemma_wr_opt_dynamic(a0, dy);
    lemma_wr_datum(a1, d);
    lemma_odt(dy);
    let odt = opt_dynamic_text(dy);
    let dyt = match dy {
        Some(x) => dynamic_text(x) + seq![','],
        None => Seq::<char>::empty(),
    };
    let dn = datum_node_text(d);
    let pt = opt_pm_text(datum_pm(d));
    let lhs = (acc + kt).push('[') + quoted(name) + odt + (seq![','] + dn + pt) + seq![','];
    assert(lhs =~= (acc + kt).push('[') + quoted(name) + (odt + seq![',']) + dn + pt + seq![',']);
    assert(lhs =~= acc + (kt + seq!['[']) + (quoted(name) + seq![','] + (dyt + dn + pt + seq![','])));
}

/// The writer writes a coordinate system and the rest of a CRS after it.
#[verifier::spinoff_prover]
pub(crate) proof fn lemma_wr_cs_tail(
    a: Seq<char>,
    c: CoordinateSystemV,
    gs: Seq<GeoidModelV>,
    us: Seq<UsageV>,
    ids: Seq<IdentifierV>,
    r: Option<Seq<char>>,
)
    ensures
        wr_crs_tail(wr_geoids(wr_cs(a, c), gs), us, ids, r) == a + cs_tail_text(c, gs, us, ids, r),
{
    reveal(cs_tail_text);
    reveal(crs_items_text);
    lemma_wr_cs(a, c);
    let a3 = wr_cs(a, c);
    lemma_wr_geoids(a3, gs);
    let a4 = wr_geoids(a3, gs);
    lemma_wr_crs_tail(a4, us, ids, r);
    let h = cs_header_text(c.cs_type, c.dimension, c.identifiers);
    let ax = each_text(c.axes, axis_fn());
    let u = opt_unit_text(c.cs_unit);
    let g = each_text(gs, geoid_fn());
    let t1 = each_text(us, usage_fn());
    let t2 = each_text(ids, id_fn());
    let t3 = remark_text(r);
    assert(a + h + ax + u + g + t1 + t2 + t3 + seq![']'] =~= a + (h + (ax + u + g + t1 + t2 + t3 + seq![']'])));
}

/// Without geoid models, the writer writes the rest of a CRS straight after
/// its coordinate system.
pub(crate) proof fn lemma_wr_no_geoids(a: Seq<char>)
    ensures
        wr_geoids(a, Seq::<GeoidModelV>::empty()) == a,
{
}

/// The writer writes a geographic CRS as its node text.
#[verifier::spinoff_prover]
pub(crate) proof fn lemma_wr_geog(acc: Seq<char>, c: GeogCrsV)
    ensures
        wr_geog(acc, c) == acc + geog_text(c),
{
    reveal(geog_text);
    reveal(geo_parts_text);
    let kt = geog_kw_text(c.keyword);
    lemma_wr_geo_head(acc, kt, c.name, c.dynamic, c.datum);
    let x = wr_datum(wr_opt_dynamic(wr_quoted((acc + kt).push('['), c.name), c.dynamic), c.datum).push(',');
    lemma_wr_cs_tail(x, c.coordinate_system, Seq::empty(), c.usages, c.identifiers, c.remark);
    lemma_wr_no_geoids(wr_cs(x, c.coordinate_system));
    let b = quoted(c.name) + seq![','] + geo_body_text(c.dynamic, c.datum);
    let t = cs_tail_text(c.coordinate_system, Seq::empty(), c.usages, c.identifiers, c.remark);
    assert(acc + (kt + seq!['[']) + b + t =~= acc + (kt + seq!['['] + (b + t)));
}

/// The writer writes a geodetic CRS as its node text.
#[verifier::spinoff_prover]
pub(crate) proof fn lemma_wr_geod(acc: Seq<char>, c: GeodCrsV)
    ensures
        wr_geod(acc, c) == acc + geod_text(c),
{
    reveal(geod_text);
    reveal(geo_parts_text);
    let kt = geod_kw_text(c.keyword);
    lemma_wr_geo_head(acc, kt, c.name, c.dynamic, c.datum);
    let x = wr_datum(wr_opt_dynamic(wr_quoted((acc + kt).push('['), c.name), c.dynamic), c.datum).push(',');
    lemma_wr_cs_tail(x, c.coordinate_system, Seq::empty(), c.usages, c.identifiers, c.remark);
    lemma_wr_no_geoids(wr_cs(x, c.coordinate_system));
    let b = quoted(c.name) + seq![','] + geo_body_text(c.dynamic, c.datum);
    let t = cs_tail_text(c.coordinate_system, Seq::empty(), c.usages, c.identifiers, c.remark);
    assert(acc + (kt + seq!['[']) + b + t =~= acc + (kt + seq!['['] + (b + t)));
}

/// The text of a base geodetic CRS node.
#[verifier::opaque]
pub open spec fn base_node(b: crate::model::BaseGeodeticCrsV) -> Seq<char> {
    base_text(b)
}

/// The text of a `CONVERSION` node.
#[verifier::opaque]
pub open spec fn conv_node(m: crate::model::MapProjectionV) -> Seq<char> {
    conversion_text("CONVERSION"@, m)
}

pub(crate) proof fn lemma_wr_base_node(acc: Seq<char>, b: crate::model::BaseGeodeticCrsV)
    ensures
        wr_base_geodetic(acc, b) == acc + base_node(b),
{
    reveal(base_node);
    lemma_wr_base(acc, b);
}

pub(crate) proof fn lemma_wr_conv_node(acc: Seq<char>, m: crate::model::MapProjectionV)
    ensures
        wr_conversion(acc, "CONVERSION["@, m) == acc + conv_node(m),
{
    reveal(conv_node);
    reveal_strlit("CONVERSION[");
    reveal_strlit("CONVERSION");
    assert("CONVERSION["@ =~= "CONVERSION"@ + seq!['[']);
    lemma_wr_conversion(acc, "CONVERSION"@, m);
}

/// The text of a projected CRS node.
#[verifier::opaque]
pub open spec fn proj_text(c: ProjectedCrsV) -> Seq<char> {
    "PROJCRS"@ + seq!['['] + quoted(c.name) + seq![','] + base_node(c.base_geodetic_crs) + seq![',']
        + conv_node(c.map_projection) + seq![','] + cs_tail_text(
        c.coordinate_system,
        Seq::empty(),
        c.usages,
        c.identifiers,
        c.remark,
    )
}

/// Whether a projected CRS can be written and read back.
pub open spec fn writable_projected(c: ProjectedCrsV) -> bool {
    &&& quotable(c.name)
    &&& writable_base(c.base_geodetic_crs)
    &&& writable_conversion(c.map_projection)
    &&& writable_cs(c.coordinate_system)
    &&& writable_tail(c.usages, c.identifiers, c.remark)
}

/// A base geodetic CRS after a comma: the comma is read, then the base CRS.
#[verifier::spinoff_prover]
#[verifier::rlimit(40)]
pub(crate) proof fn lemma_comma_base(s: Seq<char>, q: int, b: crate::model::BaseGeodeticCrsV)
    requires
        writable_base(b),
        at(s, q, seq![','] + base_node(b)),
    ensures
        sp_ws_char_ws(s, q, ',') == Ok::<int, ParseErrorV>(q + 1),
        sp_base_geodetic(s, q + 1) == Ok::<(crate::model::BaseGeodeticCrsV, int), ParseErrorV>(
            (b, q + 1 + base_node(b).len()),
        ),
{
    reveal(base_node);
    lemma_at_split(s, q, seq![','], base_text(b));
    lemma_at_char(s, q, seq![','], 0);
    lemma_at_char(s, q + 1, base_text(b), 0);
    lemma_base_kw(b.keyword);
    assert(base_text(b)[0] == base_geodetic_kw_text(b.keyword)[0]);
    lemma_ws_char_ws_at(s, q, ',');
    lemma_base_at(s, q + 1, b);
}

/// A conversion after a comma: the comma is read, then the conversion.
#[verifier::spinoff_prover]
#[verifier::rlimit(40)]
pub(crate) proof fn lemma_comma_conversion(s: Seq<char>, q: int, m: crate::model::MapProjectionV)
    requires
        writable_conversion(m),
        at(s, q, seq![','] + conv_node(m)),
    ensures
        sp_ws_char_ws(s, q, ',') == Ok::<int, ParseErrorV>(q + 1),
        sp_conversion(s, q + 1, "CONVERSION"@) == Ok::<(crate::model::MapProjectionV, int), ParseErrorV>(
            (m, q + 1 + conv_node(m).len()),
        ),
{
    reveal(conv_node);
    lemma_conversion_kw("CONVERSION"@);
    lemma_at_split(s, q, seq![','], conversion_text("CONVERSION"@, m));
    lemma_at_char(s, q, seq![','], 0);
    lemma_at_char(s, q + 1, conversion_text("CONVERSION"@, m), 0);
    lemma_ws_char_ws_at(s, q, ',');
    lemma_conversion_at(s, q + 1, "CONVERSION"@, m);
}

/// A coordinate system and the rest of a CRS after a comma.
#[verifier::spinoff_prover]
pub(crate) proof fn lemma_comma_cs(
    s: Seq<char>,
    q: int,
    vert: bool,
    c: CoordinateSystemV,
    gs: Seq<GeoidModelV>,
    us: Seq<UsageV>,
    ids: Seq<IdentifierV>,
    r: Option<Seq<char>>,
)
    requires
        writable_cs(c),
        writable_geoids(gs),
        vert || gs.len() == 0,
        writable_tail(us, ids, r),
        at(s, q, seq![','] + cs_tail_text(c, gs, us, ids, r)),
    ensures
        sp_ws_char_ws(s, q, ',') == Ok::<int, ParseErrorV>(q + 1),
        sp_cs_and_tail(s, q + 1, vert) == Ok::<((CoordinateSystemV, CrsTailV), int), ParseErrorV>(
            ((c, tail_of(c, gs, us, ids, r)), q + 1 + cs_tail_text(c, gs, us, ids, r).len()),
        ),
{
    lemma_at_split(s, q, seq![','], cs_tail_text(c, gs, us, ids, r));
    lemma_at_char(s, q, seq![','], 0);
    lemma_cs_start(s, q + 1, c, gs, us, ids, r);
    lemma_ws_char_ws_at(s, q, ',');
    lemma_cs_and_tail_at(s, q + 1, vert, c, gs, us, ids, r);
}

/// The pieces of a projected CRS node standing at `p`.
#[verifier::spinoff_prover]
#[verifier::rlimit(40)]
pub(crate) proof fn lemma_proj_split(s: Seq<char>, p: int, c: ProjectedCrsV)
    requires
        at(s, p, proj_text(c)),
    ensures
        ({
            let qn = quoted(c.name);
            let bt = seq![','] + base_node(c.base_geodetic_crs);
            let mt = seq![','] + conv_node(c.map_projection);
            let ct = seq![','] + cs_tail_text(c.coordinate_system, Seq::empty(), c.usages, c.identifiers, c.remark);
            let q3 = p + 8 + qn.len();
            let q5 = q3 + bt.len();
            let q7 = q5 + mt.len();
            &&& at(s, p, "PROJCRS"@ + seq!['['])
            &&& at(s, p + 8, qn)
            &&& at(s, q3, bt)
            &&& at(s, q5, mt)
            &&& at(s, q7, ct)
            &&& p + proj_text(c).len() == q7 + ct.len()
        }),
{
    reveal(proj_text);
    let qn = quoted(c.name);
    let bt = seq![','] + base_node(c.base_geodetic_crs);
    let mt = seq![','] + conv_node(c.map_projection);
    let ct = seq![','] + cs_tail_text(c.coordinate_system, Seq::empty(), c.usages, c.identifiers, c.remark);
    let k = "PROJCRS"@ + seq!['['];
    assert(proj_text(c) =~= k + qn + bt + mt + ct);
    lemma_at_split(s, p, k + qn + bt + mt, ct);
    lemma_at_split(s, p, k + qn + bt, mt);
    lemma_at_split(s, p, k + qn, bt);
    lemma_at_split(s, p, k, qn);
    reveal_strlit("PROJCRS");
    assert(k.len() == 8);
}

/// The keyword of a projected CRS and its `[` are read.
#[verifier::spinoff_prover]
pub(crate) proof fn lemma_proj_kw(s: Seq<char>, p: int)
    requires
        at(s, p, "PROJCRS"@ + seq!['[']),
        p + 8 < s.len(),
        !is_ws(s[p + 8]),
    ensures
        sp_skip_ws(s, p) == p,
        sp_keyword(s, p) == Ok::<(Seq<char>, int), ParseErrorV>(("PROJCRS"@, p + 7)),
        sp_ws_char_ws(s, p + 7, '[') == Ok::<int, ParseErrorV>(p + 8),
        sp_peek_kw(s, p) == "PROJCRS"@,
        !is_ws(s[p]),
{
    reveal_strlit("PROJCRS");
    assert(forall|i: int| 0 <= i < 7 ==> is_upper(#[trigger] "PROJCRS"@[i]));
    assert("PROJCRS"@.len() == 7);
    lemma_open_kw_at(s, p, "PROJCRS"@);
    lemma_at_char(s, p, "PROJCRS"@ + seq!['['], 0);
    lemma_at_char(s, p, "PROJCRS"@ + seq!['['], 7);
    lemma_skip_none(s, p);
    lemma_ws_char_ws_at(s, p + 7, '[');
}

/// A projected CRS node standing at `p` is read as the CRS.
#[verifier::spinoff_prover]
#[verifier::rlimit(60)]
pub(crate) proof fn lemma_projected_at(s: Seq<char>, p: int, c: ProjectedCrsV)
    requires
        writable_projected(c),
        at(s, p, proj_text(c)),
    ensures
        sp_projected(s, p) == Ok::<(ProjectedCrsV, int), ParseErrorV>((c, p + proj_text(c).len())),
        sp_peek_kw(s, p) == "PROJCRS"@,
        !is_ws(s[p]),
{
    reveal(sp_projected);
    lemma_proj_split(s, p, c);
    let qn = quoted(c.name);
    let q3 = p + 8 + qn.len();
    let q5 = q3 + 1 + base_node(c.base_geodetic_crs).len();
    let q7 = q5 + 1 + conv_node(c.map_projection).len();
    lemma_at_char(s, p + 8, qn, 0);
    lemma_proj_kw(s, p);
    lemma_quoted_at(s, p + 8, c.name);
    lemma_comma_base(s, q3, c.base_geodetic_crs);
    lemma_comma_conversion(s, q5, c.map_projection);
    lemma_comma_cs(s, q7, false, c.coordinate_system, Seq::empty(), c.usages, c.identifiers, c.remark);
    lemma_no_geoids();
}

/// The writer writes a projected CRS as its node text.
#[verifier::spinoff_prover]
#[verifier::rlimit(60)]
pub(crate) proof fn lemma_wr_projected(acc: Seq<char>, c: ProjectedCrsV)
    ensures
        wr_projected(acc, c) == acc + proj_text(c),
{
    reveal(proj_text);
    reveal_strlit("PROJCRS[");
    reveal_strlit("PROJCRS");
    assert("PROJCRS["@ =~= "PROJCRS"@ + seq!['[']);
    let q0 = wr_quoted(acc + "PROJCRS["@, c.name).push(',');
    lemma_wr_quoted(acc + "PROJCRS["@, c.name);
    let a0 = wr_base_geodetic(q0, c.base_geodetic_crs);
    lemma_wr_base_node(q0, c.base_geodetic_crs);
    let a1 = wr_conversion(a0.push(','), "CONVERSION["@, c.map_projection);
    lemma_wr_conv_node(a0.push(','), c.map_projection);
    lemma_wr_cs_tail(a1.push(','), c.coordinate_system, Seq::empty(), c.usages, c.identifiers, c.remark);
    lemma_wr_no_geoids(wr_cs(a1.push(','), c.coordinate_system));
    let qn = quoted(c.name);
    let b = base_node(c.base_geodetic_crs);
    let m = conv_node(c.map_projection);
    let t = cs_tail_text(c.coordinate_system, Seq::empty(), c.usages, c.identifiers, c.remark);
    assert(q0 =~= acc + ("PROJCRS"@ + seq!['['] + qn + seq![',']));
    assert(a1.push(',') + t =~= acc + ("PROJCRS"@ + seq!['['] + qn + seq![','] + b + seq![','] + m + seq![','] + t));
}

/// The text of a vertical reference frame node.
pub open spec fn vrf_text(f: VerticalReferenceFrameV) -> Seq<char> {
    vrf_kw_text(f.keyword) + seq!['['] + quoted(f.name) + anchor_text(f.anchor) + anchor_epoch_text(
        f.anchor_epoch,
    ) + ids_text(f.identifiers) + seq![']']
}

/// Whether a vertical reference frame can be written and read back.
pub open spec fn writable_vrf(f: VerticalReferenceFrameV) -> bool {
    &&& quotable(f.name)
    &&& (f.anchor matches Some(a) ==> quotable(a))
    &&& (f.anchor_epoch matches Some(e) ==> writable_number(e))
    &&& writable_ids(f.identifiers)
}

/// The text of a vertical datum node.
pub open spec fn vdatum_text(d: VerticalDatumV) -> Seq<char> {
    match d {
        VerticalDatumV::ReferenceFrame(f) => vrf_text(f),
        VerticalDatumV::Ensemble(e) => ensemble_text(e),
    }
}

/// Whether a vertical datum can be written and read back: an ensemble has
/// no prime meridian here, which the reader would not give.
pub open spec fn writable_vdatum(d: VerticalDatumV) -> bool {
    match d {
        VerticalDatumV::ReferenceFrame(f) => writable_vrf(f),
        VerticalDatumV::Ensemble(e) => writable_ensemble(e) && e.prime_meridian is None,
    }
}

pub(crate) proof fn lemma_vert_kws()
    ensures
        forall|k: VerticalReferenceFrameKeyword| #![trigger vrf_kw_text(k)] {
            &&& vrf_kw_text(k).len() > 0
            &&& forall|i: int| 0 <= i < vrf_kw_text(k).len() ==> is_upper(#[trigger] vrf_kw_text(k)[i])
            &&& (vrf_kw_text(k) == "VDATUM"@ || vrf_kw_text(k) == "VRF"@ || vrf_kw_text(k) == "VERTICALDATUM"@)
            &&& vrf_kw_of(vrf_kw_text(k)) == k
            &&& vrf_kw_text(k) != "ENSEMBLE"@
            &&& vrf_kw_text(k) != "DYNAMIC"@
            &&& vrf_kw_text(k) != "BASEVERTCRS"@
        },
        forall|k: VertCrsKeyword| #![trigger vert_kw_text(k)] {
            &&& vert_kw_text(k).len() > 0
            &&& forall|i: int| 0 <= i < vert_kw_text(k).len() ==> is_upper(#[trigger] vert_kw_text(k)[i])
            &&& (vert_kw_text(k) == "VERTCRS"@ || vert_kw_text(k) == "VERTICALCRS"@)
            &&& (if vert_kw_text(k) == "VERTCRS"@ { VertCrsKeyword::VertCrs } else { VertCrsKeyword::VerticalCrs }) == k
        },
        "ENSEMBLE"@ != "BASEVERTCRS"@,
        "DYNAMIC"@ != "BASEVERTCRS"@,
        "ENSEMBLE"@ != "DYNAMIC"@,
        "BASEVERTCRS"@.len() == 11,
        forall|i: int| 0 <= i < 11 ==> is_upper(#[trigger] "BASEVERTCRS"@[i]),
        "VERTCRS"@ != "VERTICALCRS"@,
        "VERTCRS"@ != "PROJCRS"@ && "VERTCRS"@ != "GEOGCRS"@ && "VERTCRS"@ != "GEOGRAPHICCRS"@
            && "VERTCRS"@ != "GEODCRS"@ && "VERTCRS"@ != "GEODETICCRS"@,
        "VERTICALCRS"@ != "PROJCRS"@ && "VERTICALCRS"@ != "GEOGCRS"@ && "VERTICALCRS"@ != "GEOGRAPHICCRS"@
            && "VERTICALCRS"@ != "GEODCRS"@ && "VERTICALCRS"@ != "GEODETICCRS"@,
{
    reveal_strlit("VDATUM");
    reveal_strlit("VRF");
    reveal_strlit("VERTICALDATUM");
    reveal_strlit("ENSEMBLE");
    reveal_strlit("DYNAMIC");
    reveal_strlit("BASEVERTCRS");
    reveal_strlit("VERTCRS");
    reveal_strlit("VERTICALCRS");
    reveal_strlit("PROJCRS");
    reveal_strlit("GEOGCRS");
    reveal_strlit("GEOGRAPHICCRS");
    reveal_strlit("GEODCRS");
    reveal_strlit("GEODETICCRS");
    assert("VDATUM"@.len() == 6 && "VRF"@.len() == 3 && "VERTICALDATUM"@.len() == 13);
    assert("ENSEMBLE"@.len() == 8 && "DYNAMIC"@.len() == 7 && "BASEVERTCRS"@.len() == 11);
    assert("VERTCRS"@.len() == 7 && "VERTICALCRS"@.len() == 11 && "PROJCRS"@.len() == 7);
    assert("GEOGCRS"@.len() == 7 && "GEOGRAPHICCRS"@.len() == 13 && "GEODCRS"@.len() == 7);
    assert("GEODETICCRS"@.len() == 11);
    assert("VERTCRS"@[0] != "PROJCRS"@[0] && "VERTCRS"@[0] != "GEOGCRS"@[0]);
    assert("VERTICALCRS"@[0] != "GEODETICCRS"@[0]);
    assert("VERTICALDATUM"@[0] != "GEOGRAPHICCRS"@[0]);
}

/// The anchor, anchor epoch and identifiers of a frame are read.
#[verifier::spinoff_prover]
#[verifier::rlimit(30)]
pub(crate) proof fn lemma_anchor_items_at(
    s: Seq<char>,
    p: int,
    a: Option<Seq<char>>,
    e: Option<DecimalV>,
    ids: Seq<IdentifierV>,
)
    requires
        a matches Some(t) ==> quotable(t),
        e matches Some(d) ==> writable_number(d),
        writable_ids(ids),
        at(s, p, anchor_text(a) + anchor_epoch_text(e) + ids_text(ids) + seq![']']),
    ensures
        sp_frame_items(s, p, (None, None, Seq::empty())) == Ok::<(FrameRest, int), ParseErrorV>(
            ((a, e, ids), p + anchor_text(a).len() + anchor_epoch_text(e).len() + ids_text(ids).len()),
        ),
{
    lemma_datum_kws();
    let at0 = anchor_text(a);
    let et = anchor_epoch_text(e);
    let it = ids_text(ids);
    let cl = seq![']'];
    assert(at0 + et + it + cl =~= at0 + (et + (it + cl)));
    lemma_at_split(s, p, at0, et + (it + cl));
    let p1 = p + at0.len();
    lemma_at_split(s, p1, et, it + cl);
    let p2 = p1 + et.len();
    lemma_frame_ids(s, p2, ids, 0, a, e);
    assert(ids.take(0) =~= Seq::<IdentifierV>::empty());
    match e {
        Some(d) => {
            let node = "ANCHOREPOCH"@ + seq!['['] + decimal_text(d) + seq![']'];
            assert(et =~= seq![','] + node);
            lemma_at_split(s, p1, seq![','], node);
            lemma_at_char(s, p1, seq![','], 0);
            lemma_at_char(s, p1 + 1, node, 0);
            lemma_item_start_at(s, p1);
            lemma_kw_number_at(s, p1 + 1, "ANCHOREPOCH"@, d);
            assert("ANCHOREPOCH"@ != "ANCHOR"@);
            assert(sp_frame_items(s, p1, (a, None, Seq::empty())) == sp_frame_items(s, p2, (a, e, Seq::empty())));
        },
        None => {},
    }
    match a {
        Some(t) => {
            let node = "ANCHOR"@ + seq!['['] + quoted(t) + seq![']'];
            assert(at0 =~= seq![','] + node);
            lemma_at_split(s, p, seq![','], node);
            lemma_at_char(s, p, seq![','], 0);
            lemma_at_char(s, p + 1, node, 0);
            lemma_item_start_at(s, p);
            lemma_kw_quoted_at(s, p + 1, "ANCHOR"@, t);
            assert(sp_frame_items(s, p, (None, None, Seq::empty())) == sp_frame_items(s, p1, (a, None, Seq::empty())));
        },
        None => {},
    }
}

/// A vertical reference frame node standing at `p` is read as the frame.
#[verifier::spinoff_prover]
#[verifier::rlimit(30)]
pub(crate) proof fn lemma_vrf_at(s: Seq<char>, p: int, f: VerticalReferenceFrameV)
    requires
        writable_vrf(f),
        at(s, p, vrf_text(f)),
    ensures
        sp_vertical_frame(s, p) == Ok::<(VerticalReferenceFrameV, int), ParseErrorV>((f, p + vrf_text(f).len())),
        sp_peek_kw(s, p) == vrf_kw_text(f.keyword),
        !is_ws(s[p]),
{
    lemma_vert_kws();
    let kt = vrf_kw_text(f.keyword);
    let tail = anchor_text(f.anchor) + anchor_epoch_text(f.anchor_epoch) + ids_text(f.identifiers) + seq![']'];
    let t0 = quoted(f.name) + tail;
    assert(vrf_text(f) =~= (kt + seq!['[']) + t0);
    lemma_at_split(s, p, kt + seq!['['], t0);
    let p1 = p + kt.len() + 1;
    lemma_at_split(s, p1, quoted(f.name), tail);
    lemma_at_char(s, p1, quoted(f.name), 0);
    lemma_at_char(s, p, kt + seq!['['], 0);
    lemma_at_char(s, p, kt + seq!['['], kt.len() as int);
    lemma_open_kw_at(s, p, kt);
    lemma_ws_char_ws_at(s, p + kt.len(), '[');
    lemma_quoted_at(s, p1, f.name);
    let p2 = p1 + f.name.len() + 2;
    lemma_anchor_items_at(s, p2, f.anchor, f.anchor_epoch, f.identifiers);
    let p3 = p2 + tail.len() - 1;
    lemma_at_char(s, p2, tail, tail.len() - 1);
    lemma_skip_none(s, p3);
}

/// A vertical datum node standing at `p` is read as the datum.
#[verifier::spinoff_prover]
pub(crate) proof fn lemma_vdatum_at(s: Seq<char>, p: int, d: VerticalDatumV)
    requires
        writable_vdatum(d),
        at(s, p, vdatum_text(d)),
    ensures
        sp_vert_datum(s, p) == Ok::<(VerticalDatumV, int), ParseErrorV>((d, p + vdatum_text(d).len())),
        sp_peek_kw(s, p) != "DYNAMIC"@,
        sp_peek_kw(s, p) != "BASEVERTCRS"@,
        !is_ws(s[p]),
        vdatum_text(d).len() > 0,
{
    lemma_vert_kws();
    match d {
        VerticalDatumV::ReferenceFrame(f) => {
            lemma_vrf_at(s, p, f);
        },
        VerticalDatumV::Ensemble(e) => {
            lemma_ensemble_at(s, p, e);
            assert(DatumEnsembleV { prime_meridian: None, ..e } == e);
            reveal_strlit("ENSEMBLE");
            lemma_at_char(s, p, ensemble_text(e), 0);
        },
    }
}

/// The optional dynamic node before a vertical datum.
pub open spec fn vdyn_text(dy: Option<DynamicCrsV>) -> Seq<char> {
    match dy {
        Some(x) => dynamic_text(x) + seq![','],
        None => Seq::empty(),
    }
}

/// An optional dynamic node and a vertical datum are read.
#[verifier::spinoff_prover]
#[verifier::rlimit(30)]
pub(crate) proof fn lemma_vdyn_datum_at(s: Seq<char>, q: int, dy: Option<DynamicCrsV>, d: VerticalDatumV)
    requires
        dy matches Some(x) ==> writable_dynamic(x),
        writable_vdatum(d),
        at(s, q, vdyn_text(dy) + vdatum_text(d)),
    ensures
        sp_dynamic_opt(s, q) == Ok::<(Option<DynamicCrsV>, int), ParseErrorV>((dy, q + vdyn_text(dy).len())),
        sp_vert_datum(s, q + vdyn_text(dy).len()) == Ok::<(VerticalDatumV, int), ParseErrorV>(
            (d, q + vdyn_text(dy).len() + vdatum_text(d).len()),
        ),
        sp_peek_kw(s, q) != "BASEVERTCRS"@,
        !is_ws(s[q]),
{
    lemma_vert_kws();
    lemma_datum_kws();
    match dy {
        Some(x) => {
            let dt = dynamic_text(x);
            assert(vdyn_text(dy) + vdatum_text(d) =~= dt + (seq![','] + vdatum_text(d)));
            lemma_at_split(s, q, dt, seq![','] + vdatum_text(d));
            lemma_at_split(s, q + dt.len(), seq![','], vdatum_text(d));
            lemma_at_char(s, q + dt.len(), seq![','], 0);
            lemma_vdatum_at(s, q + dt.len() + 1, d);
            lemma_dynamic_at(s, q, x);
            assert(dt =~= ("DYNAMIC"@ + seq!['[']) + dt.subrange(8, dt.len() as int));
            lemma_at_split(s, q, "DYNAMIC"@ + seq!['['], dt.subrange(8, dt.len() as int));
            lemma_at_char(s, q, dt, 8);
            lemma_at_char(s, q, dt, 0);
            assert(dt[8] == 'F') by {
                reveal_strlit("FRAMEEPOCH");
            }
            lemma_open_kw_at(s, q, "DYNAMIC"@);
            lemma_ws_char_ws_at(s, q + dt.len(), ',');
        },
        None => {
            assert(vdyn_text(dy) + vdatum_text(d) =~= vdatum_text(d));
            lemma_vdatum_at(s, q, d);
        },
    }
}

/// The text of a base vertical CRS node.
#[verifier::opaque]
pub open spec fn base_vert_text(b: BaseVertCrsV) -> Seq<char> {
    "BASEVERTCRS"@ + seq!['['] + quoted(b.name) + seq![','] + vdd_text(b.dynamic, b.datum) + ids_text(
        b.identifiers,
    ) + seq![']']
}

/// Whether a base vertical CRS can be written and read back.
pub open spec fn writable_base_vert(b: BaseVertCrsV) -> bool {
    &&& quotable(b.name)
    &&& (b.dynamic matches Some(x) ==> writable_dynamic(x))
    &&& writable_vdatum(b.datum)
    &&& writable_ids(b.identifiers)
}

/// An optional dynamic node and a vertical datum are read.
#[verifier::spinoff_prover]
pub(crate) proof fn lemma_vdd_at(s: Seq<char>, q: int, dy: Option<DynamicCrsV>, d: VerticalDatumV)
    requires
        dy matches Some(x) ==> writable_dynamic(x),
        writable_vdatum(d),
        at(s, q, vdd_text(dy, d)),
    ensures
        sp_dynamic_opt(s, q) matches Ok((dy2, k)) && dy2 == dy && sp_vert_datum(s, k) == Ok::<
            (VerticalDatumV, int),
            ParseErrorV,
        >((d, q + vdd_text(dy, d).len())),
        sp_peek_kw(s, q) != "BASEVERTCRS"@,
        !is_ws(s[q]),
{
    reveal(vdd_text);
    lemma_vdyn_datum_at(s, q, dy, d);
}

/// A base vertical CRS node standing at `p` is read as the base CRS.
#[verifier::spinoff_prover]
#[verifier::rlimit(40)]
pub(crate) proof fn lemma_base_vert_at(s: Seq<char>, p: int, b: BaseVertCrsV)
    requires
        writable_base_vert(b),
        at(s, p, base_vert_text(b)),
    ensures
        sp_base_vert(s, p) == Ok::<(BaseVertCrsV, int), ParseErrorV>((b, p + base_vert_text(b).len())),
        sp_peek_kw(s, p) == "BASEVERTCRS"@,
        !is_ws(s[p]),
{
    reveal(base_vert_text);
    lemma_vert_kws();
    let dd = vdd_text(b.dynamic, b.datum);
    let it = ids_text(b.identifiers);
    let t0 = quoted(b.name) + (seq![','] + (dd + (it + seq![']'])));
    assert(base_vert_text(b) =~= ("BASEVERTCRS"@ + seq!['[']) + t0);
    lemma_at_split(s, p, "BASEVERTCRS"@ + seq!['['], t0);
    let p1 = p + 12;
    lemma_at_split(s, p1, quoted(b.name), seq![','] + (dd + (it + seq![']'])));
    lemma_at_char(s, p1, quoted(b.name), 0);
    lemma_at_char(s, p, "BASEVERTCRS"@ + seq!['['], 0);
    lemma_open_kw_at(s, p, "BASEVERTCRS"@);
    lemma_quoted_at(s, p1, b.name);
    let p2 = p1 + b.name.len() + 2;
    lemma_at_split(s, p2, seq![','], dd + (it + seq![']']));
    lemma_at_char(s, p2, seq![','], 0);
    lemma_at_split(s, p2 + 1, dd, it + seq![']']);
    lemma_vdd_at(s, p2 + 1, b.dynamic, b.datum);
    lemma_ws_char_ws_at(s, p2, ',');
    let p4 = p2 + 1 + dd.len();
    lemma_ids_items(s, p4, b.identifiers, 0);
    assert(b.identifiers.take(0) =~= Seq::<IdentifierV>::empty());
    lemma_ids_close(s, p4, b.identifiers);
}

/// The text of a `DERIVINGCONVERSION` node.
#[verifier::opaque]
pub open spec fn dconv_node(m: MapProjectionV) -> Seq<char> {
    conversion_text("DERIVINGCONVERSION"@, m)
}

/// The text of a base vertical CRS and its deriving conversion.
#[verifier::opaque]
pub open spec fn derived_text(b: BaseVertCrsV, m: MapProjectionV) -> Seq<char> {
    base_vert_text(b) + seq![','] + dconv_node(m)
}

/// The text of a vertical CRS's dynamic node and datum.
#[verifier::opaque]
pub open spec fn vdd_text(dy: Option<DynamicCrsV>, d: VerticalDatumV) -> Seq<char> {
    vdyn_text(dy) + vdatum_text(d)
}

/// The text of where a vertical CRS's datum comes from.
pub open spec fn vsource_text(src: VertCrsSourceV) -> Seq<char> {
    match src {
        VertCrsSourceV::Datum { dynamic, datum } => vdd_text(dynamic, datum),
        VertCrsSourceV::Derived { base_vert_crs, deriving_conversion } => derived_text(
            base_vert_crs,
            deriving_conversion,
        ),
    }
}

/// Whether the source of a vertical CRS can be written and read back.
pub open spec fn writable_vsource(src: VertCrsSourceV) -> bool {
    match src {
        VertCrsSourceV::Datum { dynamic, datum } => (dynamic matches Some(x) ==> writable_dynamic(x))
            && writable_vdatum(datum),
        VertCrsSourceV::Derived { base_vert_crs, deriving_conversion } => writable_base_vert(base_vert_crs)
            && writable_conversion(deriving_conversion),
    }
}

/// A base vertical CRS and its deriving conversion are read.
#[verifier::spinoff_prover]
#[verifier::rlimit(40)]
pub(crate) proof fn lemma_derived_at(s: Seq<char>, q: int, b: BaseVertCrsV, m: MapProjectionV)
    requires
        writable_base_vert(b),
        writable_conversion(m),
        at(s, q, derived_text(b, m)),
    ensures
        sp_vert_source(s, q) == Ok::<(VertCrsSourceV, int), ParseErrorV>(
            (VertCrsSourceV::Derived { base_vert_crs: b, deriving_conversion: m }, q + derived_text(b, m).len()),
        ),
        !is_ws(s[q]),
{
    reveal(derived_text);
    reveal(dconv_node);
    let bt = base_vert_text(b);
    let ct = conversion_text("DERIVINGCONVERSION"@, m);
    lemma_at_split(s, q, bt + seq![','], ct);
    lemma_at_split(s, q, bt, seq![',']);
    lemma_base_vert_at(s, q, b);
    lemma_at_char(s, q + bt.len(), seq![','], 0);
    lemma_conversion_kw("DERIVINGCONVERSION"@);
    lemma_at_char(s, q + bt.len() + 1, ct, 0);
    lemma_ws_char_ws_at(s, q + bt.len(), ',');
    lemma_conversion_at(s, q + bt.len() + 1, "DERIVINGCONVERSION"@, m);
}

/// The source of a vertical CRS is read.
#[verifier::spinoff_prover]
pub(crate) proof fn lemma_vsource_at(s: Seq<char>, q: int, src: VertCrsSourceV)
    requires
        writable_vsource(src),
        at(s, q, vsource_text(src)),
    ensures
        sp_vert_source(s, q) == Ok::<(VertCrsSourceV, int), ParseErrorV>((src, q + vsource_text(src).len())),
        !is_ws(s[q]),
{
    match src {
        VertCrsSourceV::Datum { dynamic, datum } => {
            lemma_vdd_at(s, q, dynamic, datum);
        },
        VertCrsSourceV::Derived { base_vert_crs, deriving_conversion } => {
            lemma_derived_at(s, q, base_vert_crs, deriving_conversion);
        },
    }
}

/// The text of a vertical CRS node.
#[verifier::opaque]
pub open spec fn vert_text(c: VertCrsV) -> Seq<char> {
    vert_kw_text(c.keyword) + seq!['['] + quoted(c.name) + seq![','] + vsource_text(c.source) + seq![',']
        + cs_tail_text(c.coordinate_system, c.geoid_models, c.usages, c.identifiers, c.remark)
}

/// Whether a vertical CRS can be written and read back.
pub open spec fn writable_vert(c: VertCrsV) -> bool {
    &&& quotable(c.name)
    &&& writable_vsource(c.source)
    &&& writable_cs(c.coordinate_system)
    &&& writable_geoids(c.geoid_models)
    &&& writable_tail(c.usages, c.identifiers, c.remark)
}

/// The pieces of a vertical CRS node standing at `p`.
#[verifier::spinoff_prover]
#[verifier::rlimit(40)]
pub(crate) proof fn lemma_vert_split(s: Seq<char>, p: int, c: VertCrsV)
    requires
        at(s, p, vert_text(c)),
    ensures
        ({
            let kt = vert_kw_text(c.keyword);
            let qn = quoted(c.name);
            let st = seq![','] + vsource_text(c.source);
            let ct = seq![','] + cs_tail_text(c.coordinate_system, c.geoid_models, c.usages, c.identifiers, c.remark);
            let q2 = p + kt.len() + 1;
            let q3 = q2 + qn.len();
            let q5 = q3 + st.len();
            &&& at(s, p, kt + seq!['['])
            &&& at(s, q2, qn)
            &&& at(s, q3, st)
            &&& at(s, q5, ct)
            &&& p + vert_text(c).len() == q5 + ct.len()
        }),
{
    reveal(vert_text);
    let kt = vert_kw_text(c.keyword);
    let qn = quoted(c.name);
    let st = seq![','] + vsource_text(c.source);
    let ct = seq![','] + cs_tail_text(c.coordinate_system, c.geoid_models, c.usages, c.identifiers, c.remark);
    let k = kt + seq!['['];
    assert(vert_text(c) =~= k + qn + st + ct);
    lemma_at_split(s, p, k + qn + st, ct);
    lemma_at_split(s, p, k + qn, st);
    lemma_at_split(s, p, k, qn);
}

/// A vertical CRS node standing at `p` is read as the CRS.
#[verifier::spinoff_prover]
#[verifier::rlimit(60)]
pub(crate) proof fn lemma_vert_at(s: Seq<char>, p: int, c: VertCrsV)
    requires
        writable_vert(c),
        at(s, p, vert_text(c)),
    ensures
        sp_vert(s, p) == Ok::<(VertCrsV, int), ParseErrorV>((c, p + vert_text(c).len())),
        sp_peek_kw(s, p) == vert_kw_text(c.keyword),
        !is_ws(s[p]),
{
    reveal(sp_vert);
    lemma_vert_kws();
    lemma_vert_split(s, p, c);
    let kt = vert_kw_text(c.keyword);
    let qn = quoted(c.name);
    let q2 = p + kt.len() + 1;
    let q3 = q2 + qn.len();
    let st = seq![','] + vsource_text(c.source);
    let q5 = q3 + st.len();
    lemma_at_char(s, q2, qn, 0);
    lemma_at_char(s, p, kt + seq!['['], 0);
    lemma_at_char(s, p, kt + seq!['['], kt.len() as int);
    lemma_open_kw_at(s, p, kt);
    lemma_skip_none(s, p);
    lemma_ws_char_ws_at(s, p + kt.len(), '[');
    lemma_quoted_at(s, q2, c.name);
    lemma_at_split(s, q3, seq![','], vsource_text(c.source));
    lemma_at_char(s, q3, seq![','], 0);
    lemma_vsource_at(s, q3 + 1, c.source);
    lemma_ws_char_ws_at(s, q3, ',');
    lemma_comma_cs(s, q5, true, c.coordinate_system, c.geoid_models, c.usages, c.identifiers, c.remark);
}

pub(crate) proof fn lemma_cat_vrf(
    acc: Seq<char>,
    kt: Seq<char>,
    q: Seq<char>,
    an: Seq<char>,
    ep: Seq<char>,
    it: Seq<char>,
)
    ensures
        (acc + kt).push('[') + q + (an + ep) + it + seq![']'] == acc + (kt + seq!['['] + q + an + ep + it + seq![']']),
{
    assert((acc + kt).push('[') + q + (an + ep) + it + seq![']'] =~= acc + (kt + seq!['['] + q + an + ep + it
        + seq![']']));
}

/// The writer writes a vertical reference frame as its node text.
#[verifier::spinoff_prover]
pub(crate) proof fn lemma_wr_vrf(acc: Seq<char>, f: VerticalReferenceFrameV)
    ensures
        wr_vrf(acc, f) == acc + vrf_text(f),
{
    let kt = vrf_kw_text(f.keyword);
    let a0 = wr_quoted((acc + kt).push('['), f.name);
    lemma_wr_quoted((acc + kt).push('['), f.name);
    lemma_wr_anchor(a0, f.anchor, f.anchor_epoch);
    let a1 = wr_anchor(a0, f.anchor, f.anchor_epoch);
    lemma_wr_ids(a1, f.identifiers);
    let it = ids_text(f.identifiers);
    assert(wr_ids(a1, f.identifiers).push(']') == wr_ids(a1, f.identifiers) + seq![']']) by {
        assert(wr_ids(a1, f.identifiers).push(']') =~= wr_ids(a1, f.identifiers) + seq![']']);
    }
    lemma_cat_vrf(acc, kt, quoted(f.name), anchor_text(f.anchor), anchor_epoch_text(f.anchor_epoch), it);
}

/// The writer writes a vertical datum after a comma.
pub(crate) proof fn lemma_wr_vdatum(acc: Seq<char>, d: VerticalDatumV)
    ensures
        wr_vdatum(acc, d) == acc + (seq![','] + vdatum_text(d)),
{
    match d {
        VerticalDatumV::ReferenceFrame(f) => {
            lemma_wr_vrf(acc.push(','), f);
            assert(acc.push(',') + vrf_text(f) =~= acc + (seq![','] + vdatum_text(d)));
        },
        VerticalDatumV::Ensemble(e) => {
            lemma_wr_ensemble(acc.push(','), e);
            assert(acc.push(',') + ensemble_text(e) =~= acc + (seq![','] + vdatum_text(d)));
        },
    }
}

pub(crate) proof fn lemma_cat_vdd(acc: Seq<char>, odt: Seq<char>, dyn_t: Seq<char>, v: Seq<char>)
    requires
        odt + seq![','] == seq![','] + dyn_t,
    ensures
        acc + odt + (seq![','] + v) == acc + (seq![','] + (dyn_t + v)),
{
    assert(acc + odt + (seq![','] + v) =~= acc + (odt + seq![',']) + v);
    assert(acc + (seq![','] + dyn_t) + v =~= acc + (seq![','] + (dyn_t + v)));
}

/// The writer writes an optional dynamic node and a vertical datum.
pub(crate) proof fn lemma_wr_vdd(acc: Seq<char>, dy: Option<DynamicCrsV>, d: VerticalDatumV)
    ensures
        wr_vdatum(wr_opt_dynamic(acc, dy), d) == acc + (seq![','] + vdd_text(dy, d)),
{
    reveal(vdd_text);
    lemma_wr_opt_dynamic(acc, dy);
    lemma_wr_vdatum(wr_opt_dynamic(acc, dy), d);
    lemma_odt(dy);
    lemma_cat_vdd(acc, opt_dynamic_text(dy), vdyn_text(dy), vdatum_text(d));
}

pub(crate) proof fn lemma_cat_bv(acc: Seq<char>, k: Seq<char>, q: Seq<char>, vd: Seq<char>, it: Seq<char>)
    ensures
        (acc + k + q + (seq![','] + vd) + it).push(']') == acc + (k + q + seq![','] + vd + it + seq![']']),
{
    assert((acc + k + q + (seq![','] + vd) + it).push(']') =~= acc + (k + q + seq![','] + vd + it + seq![']']));
}

/// The writer writes a base vertical CRS as its node text.
#[verifier::spinoff_prover]
pub(crate) proof fn lemma_wr_base_vert(acc: Seq<char>, b: BaseVertCrsV)
    ensures
        wr_base_vert(acc, b) == acc + base_vert_text(b),
{
    reveal(base_vert_text);
    reveal_strlit("BASEVERTCRS[");
    reveal_strlit("BASEVERTCRS");
    assert("BASEVERTCRS["@ =~= "BASEVERTCRS"@ + seq!['[']);
    let a0 = wr_quoted(acc + "BASEVERTCRS["@, b.name);
    lemma_wr_quoted(acc + "BASEVERTCRS["@, b.name);
    lemma_wr_vdd(a0, b.dynamic, b.datum);
    let a1 = wr_vdatum(wr_opt_dynamic(a0, b.dynamic), b.datum);
    lemma_wr_ids(a1, b.identifiers);
    lemma_cat_bv(acc, "BASEVERTCRS"@ + seq!['['], quoted(b.name), vdd_text(b.dynamic, b.datum), ids_text(b.identifiers));
}

pub(crate) proof fn lemma_wr_dconv(acc: Seq<char>, m: MapProjectionV)
    ensures
        wr_conversion(acc, "DERIVINGCONVERSION["@, m) == acc + dconv_node(m),
{
    reveal(dconv_node);
    reveal_strlit("DERIVINGCONVERSION[");
    reveal_strlit("DERIVINGCONVERSION");
    assert("DERIVINGCONVERSION["@ =~= "DERIVINGCONVERSION"@ + seq!['[']);
    lemma_wr_conversion(acc, "DERIVINGCONVERSION"@, m);
}

/// The writer writes the source of a vertical CRS after a comma.
#[verifier::spinoff_prover]
pub(crate) proof fn lemma_wr_vsource(acc: Seq<char>, src: VertCrsSourceV)
    ensures
        wr_vert_source(acc, src) == acc + (seq![','] + vsource_text(src)),
{
    match src {
        VertCrsSourceV::Datum { dynamic, datum } => {
            lemma_wr_vdd(acc, dynamic, datum);
        },
        VertCrsSourceV::Derived { base_vert_crs, deriving_conversion } => {
            reveal(derived_text);
            lemma_wr_base_vert(acc.push(','), base_vert_crs);
            let a1 = wr_base_vert(acc.push(','), base_vert_crs).push(',');
            lemma_wr_dconv(a1, deriving_conversion);
            let bt = base_vert_text(base_vert_crs);
            let ct = dconv_node(deriving_conversion);
            assert(acc.push(',') + bt + seq![','] + ct =~= acc + (seq![','] + (bt + seq![','] + ct)));
            assert(a1 =~= acc.push(',') + bt + seq![',']);
        },
    }
}

/// The writer writes a vertical CRS as its node text.
#[verifier::spinoff_prover]
#[verifier::rlimit(40)]
pub(crate) proof fn lemma_wr_vert(acc: Seq<char>, c: VertCrsV)
    ensures
        wr_vert(acc, c) == acc + vert_text(c),
{
    reveal(vert_text);
    let kt = vert_kw_text(c.keyword);
    let x0 = wr_quoted((acc + kt).push('['), c.name);
    lemma_wr_quoted((acc + kt).push('['), c.name);
    lemma_wr_vsource(x0, c.source);
    let a0 = wr_vert_source(x0, c.source);
    lemma_wr_cs_tail(a0.push(','), c.coordinate_system, c.geoid_models, c.usages, c.identifiers, c.remark);
    let qn = quoted(c.name);
    let vs = vsource_text(c.source);
    let t = cs_tail_text(c.coordinate_system, c.geoid_models, c.usages, c.identifiers, c.remark);
    assert(a0.push(',') + t =~= acc + (kt + seq!['['] + qn + seq![','] + vs + seq![','] + t));
}

} // verus!
