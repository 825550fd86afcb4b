//! Reading back what the WKT2 writer writes for a compound CRS, and the
//! read-back law for a whole CRS of any kind.
use vstd::prelude::*;
use crate::error::ParseErrorV;
use crate::model::{CompoundCrsV, CrsV, IdentifierV, SingleCrsV, UsageV};
use crate::text::{
    is_upper, is_ws, sp_at_close, sp_close, sp_bracket_scan, sp_bracketed_node, sp_item_start, sp_keyword, sp_peek_kw,
    sp_quote_end, sp_skip_ws, sp_upper_end, sp_ws_char_ws,
};
use crate::wkt2::parse_crs::{
    ends_with_crs, is_component_kw, sp_component, sp_component_kw, sp_compound, sp_compound_items, sp_crs_text,
    sp_single_crs, CompoundRest,
};
use crate::wkt2::parse_meta::{sp_id_node, sp_usage};
use crate::text::sp_kw_quoted;
use crate::wkt2::roundtrip::{
    at, id_text, lemma_at_char, lemma_at_split, lemma_extent_kws, lemma_id_item_at, lemma_item_start_at,
    lemma_kw_quoted_at, lemma_open_kw_at, lemma_quoted_at, lemma_skip_none, lemma_usage_at, lemma_wr_quoted,
    lemma_ws_char_ws_at, quotable, quoted, usage_text, writable_id, writable_usage,
};
use crate::wkt2::roundtrip_crs::{
    each_text, geod_text, geog_text, id_fn, lemma_each_empty, lemma_each_split, lemma_geo_kws, lemma_geod_at,
    lemma_geog_at, lemma_projected_at, lemma_vert_at, lemma_vert_kws, lemma_wr_crs_tail, lemma_wr_each,
    lemma_wr_geod, lemma_wr_geog, lemma_wr_projected, lemma_wr_vert, proj_text, remark_text, usage_fn, vert_text,
    writable_geo, writable_projected, writable_tail, writable_vert,
};
use crate::wkt2::writer::{wkt2_text, wr_compound, wr_components, wr_quoted, wr_single};

verus! {

proof fn lemma_upper_shift(raw: Seq<char>, s: Seq<char>, off: int, i: int)
    requires
        at(s, off, raw),
        0 <= i <= raw.len(),
        sp_upper_end(raw, i) < raw.len(),
    ensures
        sp_upper_end(s, off + i) == off + sp_upper_end(raw, i),
    decreases raw.len() - i,
{
    lemma_at_char(s, off, raw, i);
    if is_upper(raw[i]) {
        lemma_upper_shift(raw, s, off, i + 1);
    }
}

proof fn lemma_ws_shift(raw: Seq<char>, s: Seq<char>, off: int, i: int)
    requires
        at(s, off, raw),
        0 <= i <= raw.len(),
        sp_skip_ws(raw, i) < raw.len(),
    ensures
        sp_skip_ws(s, off + i) == off + sp_skip_ws(raw, i),
    decreases raw.len() - i,
{
    lemma_at_char(s, off, raw, i);
    if is_ws(raw[i]) {
        lemma_ws_shift(raw, s, off, i + 1);
    }
}

proof fn lemma_quote_shift(raw: Seq<char>, s: Seq<char>, off: int, i: int)
    requires
        at(s, off, raw),
        0 <= i <= raw.len(),
        sp_quote_end(raw, i) < raw.len(),
    ensures
        sp_quote_end(s, off + i) == off + sp_quote_end(raw, i),
    decreases raw.len() - i,
{
    lemma_at_char(s, off, raw, i);
    if raw[i] != '"' {
        lemma_quote_shift(raw, s, off, i + 1);
    }
}

proof fn lemma_scan_shift(raw: Seq<char>, s: Seq<char>, off: int, i: int, depth: nat)
    requires
        at(s, off, raw),
        0 <= i,
        sp_bracket_scan(raw, i, depth) is Some,
    ensures
        sp_bracket_scan(s, off + i, depth) == Some(off + sp_bracket_scan(raw, i, depth)->0),
    decreases raw.len() - i,
{
    lemma_at_char(s, off, raw, i);
    if raw[i] == '[' {
        lemma_scan_shift(raw, s, off, i + 1, depth + 1);
    } else if raw[i] == ']' {
        if depth != 1 {
            lemma_scan_shift(raw, s, off, i + 1, (depth - 1) as nat);
        }
    } else if raw[i] == '"' {
        let q = sp_quote_end(raw, i + 1);
        crate::text::lemma_quote_end(raw, i + 1);
        lemma_quote_shift(raw, s, off, i + 1);
        lemma_scan_shift(raw, s, off, q + 1, depth);
    } else {
        lemma_scan_shift(raw, s, off, i + 1, depth);
    }
}

/// Whether `raw` is one whole bracketed node, as the reader keeps an
/// unsupported component: its text, from its keyword to its closing
/// bracket.
pub open spec fn raw_node(raw: Seq<char>) -> bool {
    sp_bracketed_node(raw, 0) == Ok::<(Seq<char>, int), ParseErrorV>((raw, raw.len() as int))
}

/// A raw node standing at `off` is read as its own text.
proof fn lemma_raw_at(s: Seq<char>, off: int, raw: Seq<char>)
    requires
        raw_node(raw),
        at(s, off, raw),
    ensures
        sp_bracketed_node(s, off) == Ok::<(Seq<char>, int), ParseErrorV>((raw, off + raw.len())),
        sp_peek_kw(s, off) == sp_peek_kw(raw, 0),
        !is_ws(s[off]),
        raw.len() > 0,
{
    let e = sp_upper_end(raw, 0);
    let r0 = sp_skip_ws(raw, e);
    assert(e > 0);
    assert(r0 < raw.len());
    assert(e <= r0) by {
        crate::text::lemma_skip_ws(raw, e);
    }
    lemma_upper_shift(raw, s, off, 0);
    lemma_ws_shift(raw, s, off, e);
    lemma_at_char(s, off, raw, r0);
    lemma_scan_shift(raw, s, off, r0 + 1, 1);
    assert(s.subrange(off, off + e) =~= raw.subrange(0, e));
    assert(s.subrange(off, off + raw.len()) == raw);
    lemma_at_char(s, off, raw, 0);
    crate::text::lemma_upper_end(raw, 0);
    assert(is_upper(raw[0]));
}

/// The text of a compound CRS component, as the writer writes it.
pub open spec fn single_text(x: SingleCrsV) -> Seq<char> {
    match x {
        SingleCrsV::ProjectedCrs(c) => proj_text(c),
        SingleCrsV::GeogCrs(c) => geog_text(c),
        SingleCrsV::GeodCrs(c) => geod_text(c),
        SingleCrsV::VertCrs(c) => vert_text(c),
        SingleCrsV::Other(raw) => raw,
    }
}

pub open spec fn single_fn() -> spec_fn(SingleCrsV) -> Seq<char> {
    |x: SingleCrsV| single_text(x)
}

/// Whether a compound CRS component can be written and read back; a
/// component kept as raw text must be one whole node whose keyword ends in
/// `CRS` and is not one of a supported kind.
pub open spec fn writable_single(x: SingleCrsV) -> bool {
    match x {
        SingleCrsV::ProjectedCrs(c) => writable_projected(c),
        SingleCrsV::GeogCrs(c) => writable_geo(
            c.name,
            c.dynamic,
            c.datum,
            c.coordinate_system,
            c.usages,
            c.identifiers,
            c.remark,
        ),
        SingleCrsV::GeodCrs(c) => writable_geo(
            c.name,
            c.dynamic,
            c.datum,
            c.coordinate_system,
            c.usages,
            c.identifiers,
            c.remark,
        ),
        SingleCrsV::VertCrs(c) => writable_vert(c),
        SingleCrsV::Other(raw) => raw_node(raw) && ends_with_crs(sp_peek_kw(raw, 0)) && !is_component_kw(
            sp_peek_kw(raw, 0),
        ),
    }
}

proof fn lemma_compound_kws()
    ensures
        !is_component_kw("USAGE"@) && !is_component_kw("ID"@) && !is_component_kw("REMARK"@),
        forall|k: Seq<char>| ends_with_crs(k) ==> k != "USAGE"@ && k != "ID"@ && k != "REMARK"@,
        "COMPOUNDCRS"@.len() == 11,
        forall|i: int| 0 <= i < 11 ==> is_upper(#[trigger] "COMPOUNDCRS"@[i]),
        "COMPOUNDCRS"@ != "PROJCRS"@ && "COMPOUNDCRS"@ != "GEOGCRS"@ && "COMPOUNDCRS"@ != "GEOGRAPHICCRS"@
            && "COMPOUNDCRS"@ != "GEODCRS"@ && "COMPOUNDCRS"@ != "GEODETICCRS"@ && "COMPOUNDCRS"@ != "VERTCRS"@
            && "COMPOUNDCRS"@ != "VERTICALCRS"@,
{
    reveal_strlit("USAGE");
    reveal_strlit("ID");
    reveal_strlit("REMARK");
    reveal_strlit("CRS");
    reveal_strlit("COMPOUNDCRS");
    reveal_strlit("PROJCRS");
    reveal_strlit("GEOGCRS");
    reveal_strlit("GEOGRAPHICCRS");
    reveal_strlit("GEODCRS");
    reveal_strlit("GEODETICCRS");
    reveal_strlit("VERTCRS");
    reveal_strlit("VERTICALCRS");
    assert("USAGE"@.len() == 5 && "ID"@.len() == 2 && "REMARK"@.len() == 6 && "CRS"@.len() == 3);
    assert("COMPOUNDCRS"@.len() == 11 && "PROJCRS"@.len() == 7 && "GEOGCRS"@.len() == 7);
    assert("GEOGRAPHICCRS"@.len() == 13 && "GEODCRS"@.len() == 7 && "GEODETICCRS"@.len() == 11);
    assert("VERTCRS"@.len() == 7 && "VERTICALCRS"@.len() == 11);
    assert("COMPOUNDCRS"@[0] != "GEODETICCRS"@[0] && "COMPOUNDCRS"@[0] != "VERTICALCRS"@[0]);
    assert forall|k: Seq<char>| ends_with_crs(k) implies k != "USAGE"@ && k != "ID"@ && k != "REMARK"@ by {
        if k == "USAGE"@ {
            assert(k.subrange(2, 5)[0] == 'A');
        }
        if k == "REMARK"@ {
            assert(k.subrange(3, 6)[0] == 'A');
        }
    }
}

/// A compound CRS component standing at `q` is read as the component.
#[verifier::spinoff_prover]
#[verifier::rlimit(40)]
pub(crate) proof fn lemma_component_at(s: Seq<char>, q: int, x: SingleCrsV)
    requires
        writable_single(x),
        at(s, q, single_text(x)),
    ensures
        sp_component_kw(s, q, sp_peek_kw(s, q)) == Ok::<(SingleCrsV, int), ParseErrorV>(
            (x, q + single_text(x).len()),
        ),
        !is_ws(s[q]),
        x is Other ==> !is_component_kw(sp_peek_kw(s, q)) && ends_with_crs(sp_peek_kw(s, q)),
        !(x is Other) ==> is_component_kw(sp_peek_kw(s, q)),
        q < s.len(),
{
    lemma_geo_kws();
    lemma_vert_kws();
    lemma_component_kw_at(s, q, x);
    assert(q < s.len()) by {
        crate::text::lemma_upper_end(s, q);
        if q == s.len() {
            assert(sp_peek_kw(s, q).len() == 0);
            reveal_strlit("PROJCRS");
            reveal_strlit("GEOGCRS");
            reveal_strlit("GEOGRAPHICCRS");
            reveal_strlit("GEODCRS");
            reveal_strlit("GEODETICCRS");
            reveal_strlit("VERTCRS");
            reveal_strlit("VERTICALCRS");
        }
    }
}

proof fn lemma_component_kw_at(s: Seq<char>, q: int, x: SingleCrsV)
    requires
        writable_single(x),
        at(s, q, single_text(x)),
    ensures
        sp_component_kw(s, q, sp_peek_kw(s, q)) == Ok::<(SingleCrsV, int), ParseErrorV>(
            (x, q + single_text(x).len()),
        ),
        !is_ws(s[q]),
        x is Other ==> !is_component_kw(sp_peek_kw(s, q)) && ends_with_crs(sp_peek_kw(s, q)),
        !(x is Other) ==> is_component_kw(sp_peek_kw(s, q)),
{
    lemma_geo_kws();
    lemma_vert_kws();
    match x {
        SingleCrsV::ProjectedCrs(c) => {
            lemma_projected_at(s, q, c);
        },
        SingleCrsV::GeogCrs(c) => {
            lemma_geog_at(s, q, c);
        },
        SingleCrsV::GeodCrs(c) => {
            lemma_geod_at(s, q, c);
        },
        SingleCrsV::VertCrs(c) => {
            lemma_vert_at(s, q, c);
        },
        SingleCrsV::Other(raw) => {
            lemma_raw_at(s, q, raw);
        },
    }
}

/// A component item of a compound CRS is read into its state.
#[verifier::spinoff_prover]
proof fn lemma_comp_step(s: Seq<char>, q: int, st: CompoundRest, x: SingleCrsV)
    requires
        writable_single(x),
        at(s, q, seq![','] + single_text(x)),
    ensures
        sp_compound_items(s, q, st) == sp_compound_items(
            s,
            q + 1 + single_text(x).len(),
            (st.0.push(x), st.1, st.2, st.3),
        ),
{
    lemma_compound_kws();
    lemma_at_split(s, q, seq![','], single_text(x));
    lemma_at_char(s, q, seq![','], 0);
    lemma_component_at(s, q + 1, x);
    lemma_item_start_at(s, q);
}

proof fn lemma_comp_usage_step(s: Seq<char>, q: int, st: CompoundRest, u: UsageV)
    requires
        writable_usage(u),
        at(s, q, seq![','] + usage_text(u)),
    ensures
        sp_compound_items(s, q, st) == sp_compound_items(
            s,
            q + 1 + usage_text(u).len(),
            (st.0, st.1.push(u), st.2, st.3),
        ),
{
    lemma_compound_kws();
    lemma_extent_kws();
    let w = usage_text(u);
    lemma_at_split(s, q, seq![','], w);
    lemma_at_char(s, q, seq![','], 0);
    assert(w =~= ("USAGE"@ + seq!['[']) + w.subrange(6, w.len() as int));
    lemma_at_split(s, q + 1, "USAGE"@ + seq!['['], w.subrange(6, w.len() as int));
    lemma_at_char(s, q + 1, w, 0);
    lemma_at_char(s, q + 1, w, 6);
    assert(w[6] == "SCOPE"@[0]);
    assert(is_upper("SCOPE"@[0]));
    reveal_strlit("USAGE");
    assert(w.len() > 6);
    assert(q + 1 + w.len() <= s.len());
    lemma_item_start_at(s, q);
    lemma_open_kw_at(s, q + 1, "USAGE"@);
    lemma_usage_at(s, q + 1, u);
}

proof fn lemma_comp_id_step(s: Seq<char>, q: int, st: CompoundRest, id: IdentifierV)
    requires
        writable_id(id),
        at(s, q, seq![','] + id_text(id)),
    ensures
        sp_compound_items(s, q, st) == sp_compound_items(
            s,
            q + 1 + id_text(id).len(),
            (st.0, st.1, st.2.push(id), st.3),
        ),
{
    lemma_compound_kws();
    reveal_strlit("USAGE");
    reveal_strlit("ID");
    assert("USAGE"@.len() == 5 && "ID"@.len() == 2);
    lemma_id_item_at(s, q, id);
}

proof fn lemma_comp_remark_step(s: Seq<char>, q: int, st: CompoundRest, r: Option<Seq<char>>)
    requires
        r matches Some(t) ==> quotable(t),
        st.3 is None,
        at(s, q, remark_text(r)),
    ensures
        sp_compound_items(s, q, st) == sp_compound_items(s, q + remark_text(r).len(), (st.0, st.1, st.2, r)),
{
    lemma_compound_kws();
    reveal_strlit("USAGE");
    reveal_strlit("ID");
    reveal_strlit("REMARK");
    assert("USAGE"@.len() == 5 && "ID"@.len() == 2 && "REMARK"@.len() == 6);
    assert(forall|i: int| 0 <= i < 6 ==> is_upper(#[trigger] "REMARK"@[i]));
    match r {
        Some(t) => {
            let w = "REMARK"@ + seq!['['] + quoted(t) + seq![']'];
            lemma_at_split(s, q, seq![','], w);
            lemma_at_char(s, q, seq![','], 0);
            lemma_at_char(s, q + 1, w, 0);
            lemma_item_start_at(s, q);
            lemma_kw_quoted_at(s, q + 1, "REMARK"@, t);
        },
        None => {
            assert((st.0, st.1, st.2, r) == st);
        },
    }
}

/// The components of a compound CRS, from the `k`-th on, are read.
#[verifier::spinoff_prover]
proof fn lemma_comps(s: Seq<char>, p: int, xs: Seq<SingleCrsV>, k: int, st: CompoundRest)
    requires
        forall|i: int| 0 <= i < xs.len() ==> writable_single(#[trigger] xs[i]),
        0 <= k <= xs.len(),
        at(s, p, each_text(xs, single_fn())),
    ensures
        sp_compound_items(s, p + each_text(xs.take(k), single_fn()).len(), (xs.take(k), st.1, st.2, st.3))
            == sp_compound_items(s, p + each_text(xs, single_fn()).len(), (xs, st.1, st.2, st.3)),
    decreases xs.len() - k,
{
    if k == xs.len() {
        assert(xs.take(k) =~= xs);
    } else {
        lemma_each_split(s, p, xs, single_fn(), k);
        let q = p + each_text(xs.take(k), single_fn()).len();
        lemma_comp_step(s, q, (xs.take(k), st.1, st.2, st.3), xs[k]);
        assert(xs.take(k).push(xs[k]) =~= xs.take(k + 1));
        lemma_comps(s, p, xs, k + 1, st);
    }
}

#[verifier::spinoff_prover]
proof fn lemma_comp_usages(s: Seq<char>, p: int, us: Seq<UsageV>, k: int, st: CompoundRest)
    requires
        forall|i: int| 0 <= i < us.len() ==> writable_usage(#[trigger] us[i]),
        0 <= k <= us.len(),
        at(s, p, each_text(us, usage_fn())),
    ensures
        sp_compound_items(s, p + each_text(us.take(k), usage_fn()).len(), (st.0, us.take(k), st.2, st.3))
            == sp_compound_items(s, p + each_text(us, usage_fn()).len(), (st.0, us, st.2, st.3)),
    decreases us.len() - k,
{
    if k == us.len() {
        assert(us.take(k) =~= us);
    } else {
        lemma_each_split(s, p, us, usage_fn(), k);
        let q = p + each_text(us.take(k), usage_fn()).len();
        lemma_comp_usage_step(s, q, (st.0, us.take(k), st.2, st.3), us[k]);
        assert(us.take(k).push(us[k]) =~= us.take(k + 1));
        lemma_comp_usages(s, p, us, k + 1, st);
    }
}

#[verifier::spinoff_prover]
proof fn lemma_comp_ids(s: Seq<char>, p: int, ids: Seq<IdentifierV>, k: int, st: CompoundRest)
    requires
        crate::wkt2::roundtrip::writable_ids(ids),
        0 <= k <= ids.len(),
        at(s, p, each_text(ids, id_fn())),
    ensures
        sp_compound_items(s, p + each_text(ids.take(k), id_fn()).len(), (st.0, st.1, ids.take(k), st.3))
            == sp_compound_items(s, p + each_text(ids, id_fn()).len(), (st.0, st.1, ids, st.3)),
    decreases ids.len() - k,
{
    if k == ids.len() {
        assert(ids.take(k) =~= ids);
    } else {
        lemma_each_split(s, p, ids, id_fn(), k);
        let q = p + each_text(ids.take(k), id_fn()).len();
        assert(writable_id(ids[k]));
        lemma_comp_id_step(s, q, (st.0, st.1, ids.take(k), st.3), ids[k]);
        assert(ids.take(k).push(ids[k]) =~= ids.take(k + 1));
        lemma_comp_ids(s, p, ids, k + 1, st);
    }
}

/// The text of a compound CRS node, as the writer writes it.
#[verifier::opaque]
pub open spec fn compound_text(c: CompoundCrsV) -> Seq<char> {
    "COMPOUNDCRS"@ + seq!['['] + quoted(c.name) + each_text(c.components, single_fn()) + each_text(
        c.usages,
        usage_fn(),
    ) + each_text(c.identifiers, id_fn()) + remark_text(c.remark) + seq![']']
}

/// Whether a compound CRS can be written and read back: its name holds no
/// `"`, it has at least two components, each of which can be, and so can
/// its usages, identifiers and remark.
pub open spec fn writable_compound(c: CompoundCrsV) -> bool {
    &&& quotable(c.name)
    &&& c.components.len() >= 2
    &&& forall|i: int| 0 <= i < c.components.len() ==> writable_single(#[trigger] c.components[i])
    &&& writable_tail(c.usages, c.identifiers, c.remark)
}

proof fn lemma_compound_split(s: Seq<char>, p: int, c: CompoundCrsV)
    requires
        at(s, p, compound_text(c)),
    ensures
        ({
            let kt = "COMPOUNDCRS"@;
            let qn = quoted(c.name);
            let e = each_text(c.components, single_fn());
            let rest = each_text(c.usages, usage_fn()) + each_text(c.identifiers, id_fn()) + remark_text(
                c.remark,
            ) + seq![']'];
            let q2 = p + kt.len() + 1;
            let q3 = q2 + qn.len();
            let q4 = q3 + e.len();
            &&& at(s, p, kt + seq!['['])
            &&& at(s, q2, qn)
            &&& at(s, q3, e)
            &&& at(s, q4, rest)
            &&& p + compound_text(c).len() == q4 + rest.len()
        }),
{
    reveal(compound_text);
    let kt = "COMPOUNDCRS"@;
    let qn = quoted(c.name);
    let e = each_text(c.components, single_fn());
    let rest = each_text(c.usages, usage_fn()) + each_text(c.identifiers, id_fn()) + remark_text(c.remark)
        + seq![']'];
    let k = kt + seq!['['];
    assert(compound_text(c) =~= k + qn + e + rest);
    lemma_at_split(s, p, k + qn + e, rest);
    lemma_at_split(s, p, k + qn, e);
    lemma_at_split(s, p, k, qn);
}

/// The usages, identifiers and remark of a compound CRS, and its closing
/// bracket, are read.
#[verifier::spinoff_prover]
proof fn lemma_compound_tail_at(
    s: Seq<char>,
    q: int,
    st: CompoundRest,
    us: Seq<UsageV>,
    ids: Seq<IdentifierV>,
    r: Option<Seq<char>>,
)
    requires
        writable_tail(us, ids, r),
        st.1.len() == 0,
        st.2.len() == 0,
        st.3 is None,
        at(s, q, each_text(us, usage_fn()) + each_text(ids, id_fn()) + remark_text(r) + seq![']']),
    ensures
        ({
            let n = (each_text(us, usage_fn()) + each_text(ids, id_fn()) + remark_text(r)).len();
            &&& sp_compound_items(s, q, st) == Ok::<(CompoundRest, int), ParseErrorV>(
                ((st.0, us, ids, r), q + n),
            )
            &&& sp_close(s, q + n) == Ok::<int, ParseErrorV>(q + n + 1)
        }),
{
    let t3 = each_text(us, usage_fn());
    let t4 = each_text(ids, id_fn());
    let t5 = remark_text(r);
    lemma_at_split(s, q, t3 + t4 + t5, seq![']']);
    lemma_at_split(s, q, t3 + t4, t5);
    lemma_at_split(s, q, t3, t4);
    let p3 = q + t3.len();
    let p4 = p3 + t4.len();
    let p5 = p4 + t5.len();
    let st3: CompoundRest = (st.0, us, st.2, st.3);
    let st4: CompoundRest = (st.0, us, ids, st.3);
    let st5: CompoundRest = (st.0, us, ids, r);
    lemma_each_empty(usage_fn());
    lemma_each_empty(id_fn());
    lemma_comp_usages(s, q, us, 0, st);
    assert(st.1 =~= Seq::<UsageV>::empty());
    assert(st.2 =~= Seq::<IdentifierV>::empty());
    assert(us.take(0) =~= st.1);
    assert((st.0, us.take(0), st.2, st.3) == st);
    lemma_comp_ids(s, p3, ids, 0, st3);
    assert(ids.take(0) =~= st.2);
    assert((st3.0, st3.1, ids.take(0), st3.3) == st3);
    lemma_comp_remark_step(s, p4, st4, r);
    lemma_at_char(s, p5, seq![']'], 0);
    lemma_skip_none(s, p5);
    assert(sp_at_close(s, p5));
    assert(sp_compound_items(s, p5, st5) == Ok::<(CompoundRest, int), ParseErrorV>((st5, p5)));
    assert(sp_compound_items(s, q, st) == sp_compound_items(s, p3, st3));
    assert(sp_compound_items(s, p3, st3) == sp_compound_items(s, p4, st4));
    assert(sp_compound_items(s, p4, st4) == sp_compound_items(s, p5, st5));
    assert(sp_close(s, p5) == Ok::<int, ParseErrorV>(p5 + 1));
}

/// A compound CRS node standing at `p` is read as the compound CRS.
#[verifier::spinoff_prover]
#[verifier::rlimit(60)]
pub(crate) proof fn lemma_compound_at(s: Seq<char>, p: int, c: CompoundCrsV)
    requires
        writable_compound(c),
        at(s, p, compound_text(c)),
    ensures
        sp_compound(s, p) == Ok::<(CompoundCrsV, int), ParseErrorV>((c, p + compound_text(c).len())),
        sp_peek_kw(s, p) == "COMPOUNDCRS"@,
        !is_ws(s[p]),
{
    reveal(sp_compound);
    lemma_compound_kws();
    lemma_compound_split(s, p, c);
    let kt = "COMPOUNDCRS"@;
    let qn = quoted(c.name);
    let xs = c.components;
    let e = each_text(xs, single_fn());
    let q2 = p + 12;
    let q3 = q2 + qn.len();
    lemma_at_char(s, q2, qn, 0);
    lemma_at_char(s, p, kt + seq!['['], 0);
    lemma_at_char(s, p, kt + seq!['['], 11);
    lemma_open_kw_at(s, p, kt);
    lemma_skip_none(s, p);
    lemma_ws_char_ws_at(s, p + 11, '[');
    lemma_quoted_at(s, q2, c.name);
    lemma_each_empty(single_fn());
    assert(xs.take(0) =~= Seq::<SingleCrsV>::empty());
    lemma_each_split(s, q3, xs, single_fn(), 0);
    lemma_each_split(s, q3, xs, single_fn(), 1);
    let x0 = xs[0];
    let x1 = xs[1];
    assert(writable_single(x0));
    assert(writable_single(x1));
    let q4 = q3 + 1;
    let q5 = q4 + single_text(x0).len();
    let q6 = q5 + 1;
    lemma_at_split(s, q3, seq![','], single_text(x0));
    lemma_at_char(s, q3, seq![','], 0);
    lemma_component_at(s, q4, x0);
    lemma_ws_char_ws_at(s, q3, ',');
    lemma_skip_none(s, q4);
    lemma_at_split(s, q5, seq![','], single_text(x1));
    lemma_at_char(s, q5, seq![','], 0);
    lemma_component_at(s, q6, x1);
    lemma_ws_char_ws_at(s, q5, ',');
    lemma_skip_none(s, q6);
    let st: CompoundRest = (seq![x0, x1], Seq::empty(), Seq::empty(), None);
    assert(xs.take(2) =~= seq![x0, x1]);
    lemma_comps(s, q3, xs, 2, st);
    let q8 = q3 + e.len();
    lemma_compound_tail_at(s, q8, (xs, Seq::empty(), Seq::empty(), None), c.usages, c.identifiers, c.remark);
}

proof fn lemma_wr_single(acc: Seq<char>, x: SingleCrsV)
    ensures
        wr_single(acc, x) == acc + single_text(x),
{
    match x {
        SingleCrsV::ProjectedCrs(c) => lemma_wr_projected(acc, c),
        SingleCrsV::GeogCrs(c) => lemma_wr_geog(acc, c),
        SingleCrsV::GeodCrs(c) => lemma_wr_geod(acc, c),
        SingleCrsV::VertCrs(c) => lemma_wr_vert(acc, c),
        SingleCrsV::Other(_) => {},
    }
}

/// The writer writes a compound CRS as its node text.
pub(crate) proof fn lemma_wr_compound(acc: Seq<char>, c: CompoundCrsV)
    ensures
        wr_compound(acc, c) == acc + compound_text(c),
{
    reveal(compound_text);
    reveal_strlit("COMPOUNDCRS[");
    reveal_strlit("COMPOUNDCRS");
    assert("COMPOUNDCRS["@ =~= "COMPOUNDCRS"@ + seq!['[']);
    let a = wr_quoted(acc + "COMPOUNDCRS["@, c.name);
    lemma_wr_quoted(acc + "COMPOUNDCRS["@, c.name);
    let f = |a: Seq<char>, x: SingleCrsV| wr_single(a, x);
    assert forall|b: Seq<char>, x: SingleCrsV| #[trigger] f(b, x) == b + single_fn()(x) by {
        lemma_wr_single(b, x);
    }
    lemma_wr_each(a, c.components, f, single_fn());
    let a1 = wr_components(a, c.components);
    assert(a1 == a + each_text(c.components, single_fn()));
    lemma_wr_crs_tail(a1, c.usages, c.identifiers, c.remark);
    assert(wr_compound(acc, c) =~= acc + compound_text(c));
}


/// Whether the writer's text of a CRS is one the reader gives back: its
/// texts hold no `"`, its numbers are in normal form, its axis directions
/// are words of letters, a vertical datum ensemble has no prime meridian,
/// and a compound CRS component kept as raw text is one whole node whose
/// keyword ends in `CRS`.
pub open spec fn writable_crs(c: CrsV) -> bool {
    match c {
        CrsV::ProjectedCrs(x) => writable_projected(x),
        CrsV::GeogCrs(x) => writable_geo(
            x.name,
            x.dynamic,
            x.datum,
            x.coordinate_system,
            x.usages,
            x.identifiers,
            x.remark,
        ),
        CrsV::GeodCrs(x) => writable_geo(
            x.name,
            x.dynamic,
            x.datum,
            x.coordinate_system,
            x.usages,
            x.identifiers,
            x.remark,
        ),
        CrsV::VertCrs(x) => writable_vert(x),
        CrsV::CompoundCrs(x) => writable_compound(x),
    }
}

/// The text of a CRS node, as the writer writes it.
pub open spec fn crs_node_text(c: CrsV) -> Seq<char> {
    match c {
        CrsV::ProjectedCrs(x) => proj_text(x),
        CrsV::GeogCrs(x) => geog_text(x),
        CrsV::GeodCrs(x) => geod_text(x),
        CrsV::VertCrs(x) => vert_text(x),
        CrsV::CompoundCrs(x) => compound_text(x),
    }
}

/// A CRS node standing at `p` is read as the CRS.
#[verifier::spinoff_prover]
#[verifier::rlimit(40)]
pub(crate) proof fn lemma_single_crs_at(s: Seq<char>, p: int, c: CrsV)
    requires
        writable_crs(c),
        at(s, p, crs_node_text(c)),
    ensures
        sp_single_crs(s, p) == Ok::<(CrsV, int), ParseErrorV>((c, p + crs_node_text(c).len())),
{
    lemma_geo_kws();
    match c {
        CrsV::ProjectedCrs(x) => {
            lemma_projected_at(s, p, x);
            lemma_skip_none(s, p);
        },
        CrsV::GeogCrs(x) => {
            lemma_geog_at(s, p, x);
            lemma_skip_none(s, p);
        },
        CrsV::GeodCrs(x) => {
            lemma_geod_at(s, p, x);
            lemma_skip_none(s, p);
        },
        CrsV::VertCrs(x) => {
            lemma_vert_kws();
            lemma_vert_at(s, p, x);
            lemma_skip_none(s, p);
        },
        CrsV::CompoundCrs(x) => {
            lemma_vert_kws();
            lemma_compound_kws();
            lemma_compound_at(s, p, x);
            lemma_skip_none(s, p);
        },
    }
}

pub(crate) proof fn lemma_wr_crs_node(c: CrsV)
    requires
        writable_crs(c),
    ensures
        wkt2_text(c) == crs_node_text(c),
{
    let e = Seq::<char>::empty();
    match c {
        CrsV::ProjectedCrs(x) => {
            lemma_wr_projected(e, x);
            assert(e + proj_text(x) =~= proj_text(x));
        },
        CrsV::GeogCrs(x) => {
            lemma_wr_geog(e, x);
            assert(e + geog_text(x) =~= geog_text(x));
        },
        CrsV::GeodCrs(x) => {
            lemma_wr_geod(e, x);
            assert(e + geod_text(x) =~= geod_text(x));
        },
        CrsV::VertCrs(x) => {
            lemma_wr_vert(e, x);
            assert(e + vert_text(x) =~= vert_text(x));
        },
        CrsV::CompoundCrs(x) => {
            lemma_wr_compound(e, x);
            assert(e + compound_text(x) =~= compound_text(x));
        },
    }
}

/// Reading the WKT2 text the writer writes for a CRS gives that CRS back.
pub proof fn law_crs_reads_back(c: CrsV)
    requires
        writable_crs(c),
    ensures
        sp_crs_text(wkt2_text(c)) == Ok::<CrsV, ParseErrorV>(c),
{
    lemma_wr_crs_node(c);
    let s = wkt2_text(c);
    assert(s.subrange(0, s.len() as int) =~= s);
    lemma_single_crs_at(s, 0, c);
}

} // verus!
