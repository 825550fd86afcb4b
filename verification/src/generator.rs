//! The decisions of the definitions generator: which files hold a
//! definition, the EPSG code a file name carries, and the order in which the
//! entries are stored.
use vstd::prelude::*;
use crate::definitions::{i32_text_v, parse_i32};
use crate::text::{chars_of, span_is};

verus! {

/// Whether `t` starts with `pre`.
pub open spec fn has_prefix(t: Seq<char>, pre: Seq<char>) -> bool {
    pre.len() <= t.len() && t.subrange(0, pre.len() as int) == pre
}

/// Whether `t` ends with `suf`.
pub open spec fn has_suffix(t: Seq<char>, suf: Seq<char>) -> bool {
    suf.len() <= t.len() && t.subrange(t.len() - suf.len(), t.len() as int) == suf
}

pub open spec fn file_prefix() -> Seq<char> {
    seq!['E', 'P', 'S', 'G', '-', 'C', 'R', 'S', '-']
}

pub open spec fn file_suffix() -> Seq<char> {
    seq!['.', 'w', 'k', 't']
}

/// The code that a definition file's name carries: the text between
/// `EPSG-CRS-` and `.wkt`, read as an `i32`.
pub open spec fn file_code(name: Seq<char>) -> Option<i32> {
    if has_prefix(name, file_prefix()) && has_suffix(name.subrange(9, name.len() as int), file_suffix()) {
        i32_text_v(name.subrange(9, name.len() - 4))
    } else {
        None
    }
}

/// Whether a file name names a definition file: it starts with `EPSG-CRS-`
/// and ends with `.wkt`.
pub fn is_definition_file_name(name: &str) -> (r: bool)
    ensures
        r == (has_prefix(name@, file_prefix()) && has_suffix(name@, file_suffix())),
{
    proof {
        reveal_strlit("EPSG-CRS-");
        reveal_strlit(".wkt");
    }
    assert("EPSG-CRS-"@ =~= file_prefix());
    assert(".wkt"@ =~= file_suffix());
    let cs = chars_of(name);
    let n = cs.len();
    if n < 9 {
        return false;
    }
    span_is(cs.as_slice(), 0, 9, "EPSG-CRS-") && span_is(cs.as_slice(), n - 4, n, ".wkt")
}

/// The code that a definition file's name carries (`EPSG-CRS-4326.wkt`
/// carries 4326), or `None` where the name does not have that shape or the
/// text between the two parts is no `i32`.
pub fn definition_file_code(name: &str) -> (r: Option<i32>)
    ensures
        r == file_code(name@),
{
    proof {
        reveal_strlit("EPSG-CRS-");
        reveal_strlit(".wkt");
    }
    assert("EPSG-CRS-"@ =~= file_prefix());
    assert(".wkt"@ =~= file_suffix());
    let cs = chars_of(name);
    let n = cs.len();
    if n < 13 {
        assert(!has_prefix(name@, file_prefix()) || !has_suffix(name@.subrange(9, n as int), file_suffix()));
        return None;
    }
    if !span_is(cs.as_slice(), 0, 9, "EPSG-CRS-") {
        return None;
    }
    assert(name@.subrange(9, n as int).subrange(n - 9 - 4, n - 9) =~= name@.subrange(n - 4, n as int));
    if !span_is(cs.as_slice(), n - 4, n, ".wkt") {
        return None;
    }
    parse_i32(&cs, 9, n - 4)
}

/// Whether the codes of the entries never decrease.
pub open spec fn sorted_by_code(es: Seq<(i32, String, String)>) -> bool {
    forall|i: int, j: int| 0 <= i < j < es.len() ==> es[i].0 <= es[j].0
}

/// Whether an entry has the code `c`.
pub open spec fn code_is(c: i32) -> spec_fn((i32, String, String)) -> bool {
    |e: (i32, String, String)| e.0 == c
}

/// The entries with the code `c`, in their order.
pub open spec fn with_code(es: Seq<(i32, String, String)>, c: i32) -> Seq<(i32, String, String)> {
    es.filter(code_is(c))
}

proof fn lemma_with_code_single(e: (i32, String, String), c: i32)
    ensures
        with_code(seq![e], c) == (if e.0 == c {
            seq![e]
        } else {
            Seq::<(i32, String, String)>::empty()
        }),
{
    reveal(Seq::filter);
    assert(seq![e].drop_last() =~= Seq::<(i32, String, String)>::empty());
    assert(Seq::<(i32, String, String)>::empty().filter(code_is(c)) =~= Seq::empty());
    assert(with_code(seq![e], c) =~= (if e.0 == c {
        seq![e]
    } else {
        Seq::<(i32, String, String)>::empty()
    }));
}

/// Taking the first entry of `r0` into `o0` at `j`, past every entry of a
/// smaller or equal code, keeps the entries of each code in their order.
proof fn lemma_stable_step(o0: Seq<(i32, String, String)>, j: int, r0: Seq<(i32, String, String)>, c: i32)
    requires
        0 <= j <= o0.len(),
        r0.len() > 0,
        forall|k: int| j <= k < o0.len() ==> o0[k].0 > r0[0].0,
    ensures
        with_code(o0.insert(j, r0[0]), c) + with_code(r0.remove(0), c) == with_code(o0, c)
            + with_code(r0, c),
{
    let e = r0[0];
    let p = code_is(c);
    let a = o0.subrange(0, j);
    let b = o0.subrange(j, o0.len() as int);
    let rest = r0.remove(0);
    assert(o0 =~= a + b);
    assert(o0.insert(j, e) =~= (a + seq![e]) + b);
    assert(r0 =~= seq![e] + rest);
    Seq::filter_distributes_over_add(a + seq![e], b, p);
    Seq::filter_distributes_over_add(a, seq![e], p);
    Seq::filter_distributes_over_add(a, b, p);
    Seq::filter_distributes_over_add(seq![e], rest, p);
    lemma_with_code_single(e, c);
    if e.0 == c {
        assert(b.all(|x: (i32, String, String)| !p(x)));
        b.lemma_all_neg_filter_empty(p);
        assert(b.filter(p) =~= Seq::empty());
    }
    assert(with_code(o0.insert(j, e), c) + with_code(rest, c) =~= with_code(o0, c) + with_code(r0, c));
}

/// The entries, sorted by code; entries of one code keep their order.
pub fn sort_by_code(entries: Vec<(i32, String, String)>) -> (r: Vec<(i32, String, String)>)
    ensures
        sorted_by_code(r@),
        r@.to_multiset() == entries@.to_multiset(),
        forall|c: i32| #[trigger] with_code(r@, c) == with_code(entries@, c),
{
    broadcast use vstd::seq_lib::group_to_multiset_ensures;

    let mut rest = entries;
    let mut out: Vec<(i32, String, String)> = Vec::new();
    let ghost all = rest@;
    while rest.len() > 0
        invariant
            sorted_by_code(out@),
            out@.to_multiset().add(rest@.to_multiset()) == all.to_multiset(),
            forall|c: i32| #[trigger] with_code(out@, c) + with_code(rest@, c) == with_code(all, c),
        decreases rest@.len(),
    {
        let ghost r0 = rest@;
        let e = rest.remove(0);
        let mut j = out.len();
        while j > 0 && out[j - 1].0 > e.0
            invariant
                j <= out@.len(),
                forall|k: int| j <= k < out@.len() ==> out@[k].0 > e.0,
            decreases j,
        {
            j = j - 1;
        }
        let ghost o0 = out@;
        out.insert(j, e);
        proof {
            vstd::seq_lib::to_multiset_remove(r0, 0);
            vstd::seq_lib::to_multiset_insert(o0, j as int, r0[0]);
            assert(r0[0] == r0[0]);
            vstd::seq_lib::to_multiset_contains(r0, r0[0]);
            assert(r0.to_multiset().contains(r0[0]));
            assert(out@.to_multiset().add(rest@.to_multiset()) =~= all.to_multiset());
            assert forall|c: i32| #[trigger] with_code(out@, c) + with_code(rest@, c) == with_code(all, c) by {
                lemma_stable_step(o0, j as int, r0, c);
            }
            assert forall|a: int, b: int| 0 <= a < b < out@.len() implies out@[a].0 <= out@[b].0 by {
                if j > 0 && a < j && b == j {
                    assert(o0[j - 1].0 <= e.0);
                    assert(o0[a].0 <= o0[j - 1].0 || a == j - 1);
                }
            }
        }
    }
    assert(rest@.to_multiset() =~= vstd::multiset::Multiset::empty());
    assert(out@.to_multiset() =~= all.to_multiset());
    assert forall|c: i32| #[trigger] with_code(out@, c) == with_code(all, c) by {
        assert(with_code(rest@, c).len() == 0);
        assert(with_code(out@, c) + with_code(rest@, c) =~= with_code(out@, c));
    }
    out
}

} // verus!
