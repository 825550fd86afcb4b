//! Name normalization for WKT1: ESRI and GDAL spellings of datum, ellipsoid,
//! unit and CRS names brought to their EPSG spelling.
use vstd::prelude::*;
use crate::text::{chars_of, is_digit, is_upper, push_char, str_eq};

verus! {

/// An alias table: ESRI name, official EPSG name, EPSG code.
pub type AliasTable = Vec<(&'static str, &'static str, i32)>;

/// The mathematical content of an alias table.
pub open spec fn table_v(t: Seq<(&'static str, &'static str, i32)>) -> Seq<(Seq<char>, Seq<char>, i32)> {
    t.map_values(|e: (&'static str, &'static str, i32)| (e.0@, e.1@, e.2))
}

pub open spec fn is_lower(c: char) -> bool {
    'a' <= c && c <= 'z'
}

pub open spec fn is_ascii_alnum(c: char) -> bool {
    is_upper(c) || is_lower(c) || is_digit(c)
}

/// ASCII lowercase of one character.
pub open spec fn lower(c: char) -> char {
    if is_upper(c) {
        ((c as u32) + 32) as char
    } else {
        c
    }
}

/// ASCII lowercase of a text.
pub open spec fn lower_text(t: Seq<char>) -> Seq<char> {
    t.map_values(|c: char| lower(c))
}

/// A text with every `_` replaced by a space.
pub open spec fn underscores_to_spaces_v(t: Seq<char>) -> Seq<char> {
    t.map_values(|c: char| if c == '_' { ' ' } else { c })
}

/// Whether `t` ends with `suffix`.
pub open spec fn ends_with(t: Seq<char>, suffix: Seq<char>) -> bool {
    t.len() >= suffix.len() && t.subrange(t.len() - suffix.len(), t.len() as int) == suffix
}

/// Whether `t` starts with `prefix`.
pub open spec fn starts_with(t: Seq<char>, prefix: Seq<char>) -> bool {
    t.len() >= prefix.len() && t.subrange(0, prefix.len() as int) == prefix
}

/// `t` without the suffix ` ensemble`, when it has it.
pub open spec fn strip_ensemble_suffix_v(t: Seq<char>) -> Seq<char> {
    if ends_with(t, " ensemble"@) {
        t.subrange(0, t.len() - 9)
    } else {
        t
    }
}

/// `t` without `prefix`, when it starts with it.
pub open spec fn strip_prefix_v(t: Seq<char>, prefix: Seq<char>) -> Seq<char> {
    if starts_with(t, prefix) {
        t.subrange(prefix.len() as int, t.len() as int)
    } else {
        t
    }
}

pub open spec fn alnum_pred() -> spec_fn(char) -> bool {
    |c: char| is_ascii_alnum(c)
}

/// A name reduced to its lowercase ASCII letters and digits.
pub open spec fn normalized(t: Seq<char>) -> Seq<char> {
    lower_text(t.filter(alnum_pred()))
}

/// Whether two names are equal when case and every character that is not an
/// ASCII letter or digit are ignored.
pub open spec fn eq_normalized_v(a: Seq<char>, b: Seq<char>) -> bool {
    normalized(a) == normalized(b)
}

/// The entry of an alias table whose ESRI name is `name`: the first one,
/// which in a sorted table without duplicates is the only one.
pub open spec fn alias_lookup_v(t: Seq<(Seq<char>, Seq<char>, i32)>, name: Seq<char>) -> Option<
    (Seq<char>, i32),
>
    decreases t.len(),
{
    if t.len() == 0 {
        None
    } else if t[0].0 == name {
        Some((strip_ensemble_suffix_v(t[0].1), t[0].2))
    } else {
        alias_lookup_v(t.skip(1), name)
    }
}

/// Scan a table from `hit` on: the official name (without its ensemble
/// suffix) and code whose normalized form matches `name`, or `None` when
/// none does or when two entries with different codes do.
pub open spec fn scan_v(
    t: Seq<(Seq<char>, Seq<char>, i32)>,
    name: Seq<char>,
    hit: Option<(Seq<char>, i32)>,
) -> Option<(Seq<char>, i32)>
    decreases t.len(),
{
    if t.len() == 0 {
        hit
    } else {
        let base = strip_ensemble_suffix_v(t[0].1);
        if eq_normalized_v(t[0].1, name) || eq_normalized_v(base, name) {
            match hit {
                Some((_, prev)) => if prev != t[0].2 {
                    None
                } else {
                    scan_v(t.skip(1), name, Some((base, t[0].2)))
                },
                None => scan_v(t.skip(1), name, Some((base, t[0].2))),
            }
        } else {
            scan_v(t.skip(1), name, hit)
        }
    }
}

pub open spec fn normalized_scan_v(t: Seq<(Seq<char>, Seq<char>, i32)>, name: Seq<char>) -> Option<
    (Seq<char>, i32),
> {
    scan_v(t, name, None)
}

/// Whether a table entry's official name, with or without its ensemble
/// suffix, matches `name` once normalized.
pub open spec fn scan_pred(name: Seq<char>) -> spec_fn((Seq<char>, Seq<char>, i32)) -> bool {
    |e: (Seq<char>, Seq<char>, i32)| eq_normalized_v(e.1, name) || eq_normalized_v(
        strip_ensemble_suffix_v(e.1),
        name,
    )
}

/// The entries of a table that match `name` once normalized, in table order.
pub open spec fn scan_hits(t: Seq<(Seq<char>, Seq<char>, i32)>, name: Seq<char>) -> Seq<
    (Seq<char>, Seq<char>, i32),
> {
    t.filter(scan_pred(name))
}

/// Whether two of the entries carry different codes.
pub open spec fn codes_differ(hs: Seq<(Seq<char>, Seq<char>, i32)>) -> bool {
    exists|i: int, j: int| 0 <= i < hs.len() && 0 <= j < hs.len() && #[trigger] hs[i].2 != #[trigger] hs[j].2
}

/// What a scan from `hit` on gives, stated over the matching entries.
pub open spec fn scan_outcome(hs: Seq<(Seq<char>, Seq<char>, i32)>, hit: Option<(Seq<char>, i32)>) -> Option<
    (Seq<char>, i32),
> {
    if hs.len() == 0 {
        hit
    } else if codes_differ(hs) || (hit matches Some((_, c)) && hs[0].2 != c) {
        None
    } else {
        Some((strip_ensemble_suffix_v(hs.last().1), hs.last().2))
    }
}

proof fn lemma_scan(t: Seq<(Seq<char>, Seq<char>, i32)>, name: Seq<char>, hit: Option<(Seq<char>, i32)>)
    ensures
        scan_v(t, name, hit) == scan_outcome(scan_hits(t, name), hit),
    decreases t.len(),
{
    if t.len() > 0 {
        let e = t[0];
        let rest = t.skip(1);
        assert(t =~= seq![e] + rest);
        rest.lemma_filter_prepend(e, scan_pred(name));
        let hs = scan_hits(t, name);
        let hr = scan_hits(rest, name);
        let base = strip_ensemble_suffix_v(e.1);
        if eq_normalized_v(e.1, name) || eq_normalized_v(base, name) {
            assert(hs =~= seq![e] + hr);
            assert(hs[0] == e);
            if hit matches Some((_, prev)) && prev != e.2 {
            } else {
                lemma_scan(rest, name, Some((base, e.2)));
                if hr.len() == 0 {
                    assert(!codes_differ(hs)) by {
                        assert forall|i: int, j: int| 0 <= i < hs.len() && 0 <= j < hs.len() implies hs[i].2 == hs[j].2 by {}
                    }
                } else {
                    assert(hs.last() == hr.last());
                    if codes_differ(hr) {
                        let (i, j) = choose|i: int, j: int|
                            0 <= i < hr.len() && 0 <= j < hr.len() && #[trigger] hr[i].2 != #[trigger] hr[j].2;
                        assert(hs[i + 1] == hr[i] && hs[j + 1] == hr[j]);
                        assert(codes_differ(hs));
                    } else if hr[0].2 != e.2 {
                        assert(hs[1] == hr[0]);
                        assert(hs[0].2 != hs[1].2);
                        assert(codes_differ(hs));
                    } else {
                        assert forall|i: int, j: int| 0 <= i < hs.len() && 0 <= j < hs.len() implies hs[i].2 == hs[j].2 by {
                            if i > 0 {
                                assert(hs[i] == hr[i - 1]);
                                assert(hr[i - 1].2 == hr[0].2);
                            }
                            if j > 0 {
                                assert(hs[j] == hr[j - 1]);
                                assert(hr[j - 1].2 == hr[0].2);
                            }
                        }
                        assert(!codes_differ(hs));
                    }
                }
            }
        } else {
            assert(hs =~= hr);
            lemma_scan(rest, name, hit);
        }
    } else {
        assert(scan_hits(t, name) =~= Seq::empty());
    }
}

/// The scan of an alias table by normalized name gives nothing when no
/// entry matches, and nothing when matching entries carry different codes
/// (no guess between them); otherwise it gives the official name (without
/// its ensemble suffix) of the last matching entry, with their one code.
pub proof fn law_normalized_scan(t: Seq<(Seq<char>, Seq<char>, i32)>, name: Seq<char>)
    ensures
        scan_hits(t, name).len() == 0 ==> normalized_scan_v(t, name) is None,
        codes_differ(scan_hits(t, name)) ==> normalized_scan_v(t, name) is None,
        scan_hits(t, name).len() > 0 && !codes_differ(scan_hits(t, name)) ==> normalized_scan_v(t, name)
            == Some((strip_ensemble_suffix_v(scan_hits(t, name).last().1), scan_hits(t, name).last().2)),
{
    lemma_scan(t, name, None);
}

/// A datum name brought to its official spelling through an alias table,
/// with the EPSG code when the table identified it.
pub open spec fn normalize_datum_name_v(t: Seq<(Seq<char>, Seq<char>, i32)>, name: Seq<char>) -> (
    Seq<char>,
    Option<i32>,
) {
    match alias_lookup_v(t, name) {
        Some((o, c)) => (o, Some(c)),
        None => match alias_lookup_v(t, "D_"@ + name) {
            Some((o, c)) => (o, Some(c)),
            None => {
                let stripped = strip_prefix_v(name, "D_"@);
                match normalized_scan_v(t, stripped) {
                    Some((o, c)) => (o, Some(c)),
                    None => (underscores_to_spaces_v(stripped), None),
                }
            },
        },
    }
}

/// An ellipsoid name brought to its official spelling.
pub open spec fn normalize_ellipsoid_name_v(t: Seq<(Seq<char>, Seq<char>, i32)>, name: Seq<char>) -> (
    Seq<char>,
    Option<i32>,
) {
    match alias_lookup_v(t, name) {
        Some((o, c)) => (o, Some(c)),
        None => match normalized_scan_v(t, name) {
            Some((o, c)) => (o, Some(c)),
            None => (underscores_to_spaces_v(name), None),
        },
    }
}

/// The official spelling of a unit name found in a table of lowercase
/// spellings.
pub open spec fn builtin_unit_v(t: Seq<(Seq<char>, Seq<char>)>, lower_name: Seq<char>) -> Option<
    Seq<char>,
>
    decreases t.len(),
{
    if t.len() == 0 {
        None
    } else if t[0].0 == lower_name {
        Some(t[0].1)
    } else {
        builtin_unit_v(t.skip(1), lower_name)
    }
}

/// A unit name brought to its official spelling: through the unit alias
/// table, else through the built-in spellings, else unchanged.
pub open spec fn normalize_unit_name_v(
    aliases: Seq<(Seq<char>, Seq<char>, i32)>,
    builtins: Seq<(Seq<char>, Seq<char>)>,
    name: Seq<char>,
) -> Seq<char> {
    match alias_lookup_v(aliases, name) {
        Some((o, _)) => o,
        None => match builtin_unit_v(builtins, lower_text(name)) {
            Some(o) => o,
            None => name,
        },
    }
}

/// An ESRI geographic CRS name cleaned up: `GCS_WGS_1984` becomes `WGS 1984`.
pub open spec fn normalize_geogcs_name_v(name: Seq<char>) -> Seq<char> {
    underscores_to_spaces_v(strip_prefix_v(name, "GCS_"@))
}

fn lower_char(c: char) -> (r: char)
    ensures
        r == lower(c),
{
    if 'A' <= c && c <= 'Z' {
        ((c as u8) + 32) as char
    } else {
        c
    }
}

/// The ASCII lowercase of a text.
pub fn to_lower(t: &str) -> (r: String)
    ensures
        r@ == lower_text(t@),
{
    let cs = chars_of(t);
    let mut out = String::new();
    let mut i: usize = 0;
    while i < cs.len()
        invariant
            i <= cs@.len(),
            cs@ == t@,
            out@ == lower_text(t@.take(i as int)),
        decreases cs@.len() - i,
    {
        push_char(&mut out, lower_char(cs[i]));
        proof {
            assert(lower_text(t@.take(i + 1)) =~= lower_text(t@.take(i as int)).push(lower(t@[i as int])));
        }
        i = i + 1;
    }
    assert(t@.take(i as int) =~= t@);
    out
}

/// `t` with every `_` replaced by a space.
pub fn underscores_to_spaces(t: &str) -> (r: String)
    ensures
        r@ == underscores_to_spaces_v(t@),
{
    let cs = chars_of(t);
    let mut out = String::new();
    let mut i: usize = 0;
    while i < cs.len()
        invariant
            i <= cs@.len(),
            cs@ == t@,
            out@ == underscores_to_spaces_v(t@.take(i as int)),
        decreases cs@.len() - i,
    {
        let c = cs[i];
        push_char(
            &mut out,
            if c == '_' {
                ' '
            } else {
                c
            },
        );
        proof {
            assert(underscores_to_spaces_v(t@.take(i + 1)) =~= underscores_to_spaces_v(
                t@.take(i as int),
            ).push(if c == '_' { ' ' } else { c }));
        }
        i = i + 1;
    }
    assert(t@.take(i as int) =~= t@);
    out
}

/// The characters `t[a..b]` as a string.
fn slice_text(t: &str, a: usize, b: usize) -> (r: String)
    requires
        a <= b <= t@.len(),
    ensures
        r@ == t@.subrange(a as int, b as int),
{
    let cs = chars_of(t);
    crate::text::string_of(cs.as_slice(), a, b)
}

/// Whether `t` ends with `suffix`.
pub fn text_ends_with(t: &str, suffix: &str) -> (r: bool)
    ensures
        r == ends_with(t@, suffix@),
{
    let cs = chars_of(t);
    let n = cs.len();
    let m = suffix.unicode_len();
    if n < m {
        return false;
    }
    crate::text::span_is(cs.as_slice(), n - m, n, suffix)
}

/// Whether `t` starts with `prefix`.
pub fn text_starts_with(t: &str, prefix: &str) -> (r: bool)
    ensures
        r == starts_with(t@, prefix@),
{
    let cs = chars_of(t);
    let m = prefix.unicode_len();
    if cs.len() < m {
        return false;
    }
    crate::text::span_is(cs.as_slice(), 0, m, prefix)
}

/// `name` without the suffix ` ensemble`.
pub fn strip_ensemble_suffix(name: &str) -> (r: String)
    ensures
        r@ == strip_ensemble_suffix_v(name@),
{
    proof {
        reveal_strlit(" ensemble");
    }
    if text_ends_with(name, " ensemble") {
        slice_text(name, 0, name.unicode_len() - 9)
    } else {
        slice_text(name, 0, name.unicode_len())
    }
}

/// `name` without `prefix`.
pub fn strip_prefix(name: &str, prefix: &str) -> (r: String)
    ensures
        r@ == strip_prefix_v(name@, prefix@),
{
    if text_starts_with(name, prefix) {
        slice_text(name, prefix.unicode_len(), name.unicode_len())
    } else {
        slice_text(name, 0, name.unicode_len())
    }
}

/// The lowercase ASCII letters and digits of a name.
fn normalized_chars(t: &str) -> (r: Vec<char>)
    ensures
        r@ == normalized(t@),
{
    let cs = chars_of(t);
    let mut out: Vec<char> = Vec::new();
    let mut i: usize = 0;
    while i < cs.len()
        invariant
            i <= cs@.len(),
            cs@ == t@,
            out@ == normalized(t@.take(i as int)),
        decreases cs@.len() - i,
    {
        let c = cs[i];
        proof {
            assert(t@.take(i + 1) =~= t@.take(i as int).push(c));
            t@.take(i as int).lemma_filter_push(c, alnum_pred());
        }
        if ('A' <= c && c <= 'Z') || ('a' <= c && c <= 'z') || ('0' <= c && c <= '9') {
            out.push(lower_char(c));
            proof {
                assert(normalized(t@.take(i + 1)) =~= normalized(t@.take(i as int)).push(lower(c)));
            }
        } else {
            proof {
                assert(normalized(t@.take(i + 1)) =~= normalized(t@.take(i as int)));
            }
        }
        i = i + 1;
    }
    assert(t@.take(i as int) =~= t@);
    out
}

/// Whether two names are equal ignoring case and every character that is
/// not an ASCII letter or digit (`"Lambert_Conic_Conformal_(1SP)"` matches
/// `"Lambert Conic Conformal (1SP)"`).
pub fn eq_normalized(a: &str, b: &str) -> (r: bool)
    ensures
        r == eq_normalized_v(a@, b@),
{
    let x = normalized_chars(a);
    let y = normalized_chars(b);
    if x.len() != y.len() {
        return false;
    }
    let mut i: usize = 0;
    while i < x.len()
        invariant
            i <= x@.len(),
            x@.len() == y@.len(),
            x@ == normalized(a@),
            y@ == normalized(b@),
            forall|j: int| 0 <= j < i ==> x@[j] == y@[j],
        decreases x@.len() - i,
    {
        if x[i] != y[i] {
            assert(x@[i as int] != y@[i as int]);
            return false;
        }
        i = i + 1;
    }
    assert(x@ =~= y@);
    true
}

/// The official name (without its ensemble suffix) and code of the entry
/// whose ESRI name is `name`.
pub fn alias_lookup(table: &AliasTable, name: &str) -> (r: Option<(String, i32)>)
    ensures
        match alias_lookup_v(table_v(table@), name@) {
            Some((o, c)) => r matches Some((x, k)) && x@ == o && k == c,
            None => r is None,
        },
{
    let ghost tv = table_v(table@);
    let mut i: usize = 0;
    assert(tv.skip(0) =~= tv);
    while i < table.len()
        invariant
            i <= table@.len(),
            tv == table_v(table@),
            alias_lookup_v(tv, name@) == alias_lookup_v(tv.skip(i as int), name@),
        decreases table@.len() - i,
    {
        let (esri, official, code) = table[i];
        proof {
            assert(tv.skip(i as int)[0] == (esri@, official@, code));
            assert(tv.skip(i as int).skip(1) =~= tv.skip(i + 1));
        }
        if str_eq(esri, name) {
            return Some((strip_ensemble_suffix(official), code));
        }
        i = i + 1;
    }
    None
}

/// The unique official name whose normalized form matches `name`.
pub fn normalized_scan(table: &AliasTable, name: &str) -> (r: Option<(String, i32)>)
    ensures
        match normalized_scan_v(table_v(table@), name@) {
            Some((o, c)) => r matches Some((x, k)) && x@ == o && k == c,
            None => r is None,
        },
{
    let ghost tv = table_v(table@);
    let mut hit: Option<(String, i32)> = None;
    let mut i: usize = 0;
    assert(tv.skip(0) =~= tv);
    while i < table.len()
        invariant
            i <= table@.len(),
            tv == table_v(table@),
            scan_v(tv, name@, None) == scan_v(
                tv.skip(i as int),
                name@,
                match hit {
                    Some((x, k)) => Some((x@, k)),
                    None => None,
                },
            ),
        decreases table@.len() - i,
    {
        let (_, official, code) = table[i];
        proof {
            assert(tv.skip(i as int)[0] == (table@[i as int].0@, official@, code));
            assert(tv.skip(i as int).skip(1) =~= tv.skip(i + 1));
        }
        let base = strip_ensemble_suffix(official);
        if eq_normalized(official, name) || eq_normalized(base.as_str(), name) {
            match &hit {
                Some((_, prev)) => {
                    if *prev != code {
                        return None;
                    }
                },
                None => {},
            }
            hit = Some((base, code));
        }
        i = i + 1;
    }
    hit
}

/// A datum name brought to its official spelling, with the EPSG code when
/// the alias table identified it.
pub fn normalize_datum_name(table: &AliasTable, name: &str) -> (r: (String, Option<i32>))
    ensures
        r.0@ == normalize_datum_name_v(table_v(table@), name@).0,
        r.1 == normalize_datum_name_v(table_v(table@), name@).1,
{
    if let Some((official, code)) = alias_lookup(table, name) {
        return (official, Some(code));
    }
    let mut prefixed = String::new();
    crate::text::push_str(&mut prefixed, "D_");
    crate::text::push_str(&mut prefixed, name);
    if let Some((official, code)) = alias_lookup(table, prefixed.as_str()) {
        return (official, Some(code));
    }
    let stripped = strip_prefix(name, "D_");
    if let Some((official, code)) = normalized_scan(table, stripped.as_str()) {
        return (official, Some(code));
    }
    (underscores_to_spaces(stripped.as_str()), None)
}

/// An ellipsoid name brought to its official spelling.
pub fn normalize_ellipsoid_name(table: &AliasTable, name: &str) -> (r: (String, Option<i32>))
    ensures
        r.0@ == normalize_ellipsoid_name_v(table_v(table@), name@).0,
        r.1 == normalize_ellipsoid_name_v(table_v(table@), name@).1,
{
    if let Some((official, code)) = alias_lookup(table, name) {
        return (official, Some(code));
    }
    if let Some((official, code)) = normalized_scan(table, name) {
        return (official, Some(code));
    }
    (underscores_to_spaces(name), None)
}

/// The official spellings of units that the unit alias table lacks.
pub open spec fn builtins_v(t: Seq<(&'static str, &'static str)>) -> Seq<(Seq<char>, Seq<char>)> {
    t.map_values(|e: (&'static str, &'static str)| (e.0@, e.1@))
}

/// A unit name brought to its official spelling.
pub fn normalize_unit_name(
    aliases: &AliasTable,
    builtins: &Vec<(&'static str, &'static str)>,
    name: &str,
) -> (r: String)
    ensures
        r@ == normalize_unit_name_v(table_v(aliases@), builtins_v(builtins@), name@),
{
    if let Some((official, _)) = alias_lookup(aliases, name) {
        return official;
    }
    let lower = to_lower(name);
    let ghost bv = builtins_v(builtins@);
    let mut i: usize = 0;
    assert(bv.skip(0) =~= bv);
    while i < builtins.len()
        invariant
            i <= builtins@.len(),
            bv == builtins_v(builtins@),
            lower@ == lower_text(name@),
            alias_lookup_v(table_v(aliases@), name@) is None,
            builtin_unit_v(bv, lower@) == builtin_unit_v(bv.skip(i as int), lower@),
        decreases builtins@.len() - i,
    {
        let (from, to) = builtins[i];
        proof {
            assert(bv.skip(i as int)[0] == (from@, to@));
            assert(bv.skip(i as int).skip(1) =~= bv.skip(i + 1));
        }
        if str_eq(lower.as_str(), from) {
            let r = slice_text(to, 0, to.unicode_len());
            assert(r@ =~= to@);
            return r;
        }
        i = i + 1;
    }
    let r = slice_text(name, 0, name.unicode_len());
    assert(r@ =~= name@);
    r
}

/// An ESRI geographic CRS name cleaned up: `GCS_WGS_1984` becomes `WGS 1984`.
pub fn normalize_geogcs_name(name: &str) -> (r: String)
    ensures
        r@ == normalize_geogcs_name_v(name@),
{
    let stripped = strip_prefix(name, "GCS_");
    underscores_to_spaces(stripped.as_str())
}

} // verus!
