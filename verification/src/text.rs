//! Character-level scanning shared by the WKT parsers.
//!
//! Every scanning step is stated as a spec function over the input characters
//! and a position; the parser's methods are proved to compute exactly that.
use vstd::prelude::*;
use crate::error::{ParseError, ParseErrorV};
use crate::decimal::{Decimal, DecimalV, number_value, number_end};
use crate::crs::AuthorityId;
use crate::model::AuthorityIdV;

verus! {

/// The result of a spec parsing step: the value and the position after it.
pub type SRes<T> = Result<(T, int), ParseErrorV>;

/// ASCII whitespace as `u8::is_ascii_whitespace` defines it.
pub open spec fn is_ws(c: char) -> bool {
    c == ' ' || c == '\t' || c == '\n' || c == '\x0C' || c == '\r'
}

pub open spec fn is_upper(c: char) -> bool {
    'A' <= c && c <= 'Z'
}

pub open spec fn is_alpha(c: char) -> bool {
    ('A' <= c && c <= 'Z') || ('a' <= c && c <= 'z')
}

pub open spec fn is_digit(c: char) -> bool {
    '0' <= c && c <= '9'
}

/// The first position at or after `p` that is not ASCII whitespace.
pub open spec fn sp_skip_ws(s: Seq<char>, p: int) -> int
    decreases s.len() - p,
{
    if 0 <= p < s.len() && is_ws(s[p]) {
        sp_skip_ws(s, p + 1)
    } else {
        p
    }
}

/// The end of the run of uppercase ASCII letters starting at `p`.
pub open spec fn sp_upper_end(s: Seq<char>, p: int) -> int
    decreases s.len() - p,
{
    if 0 <= p < s.len() && is_upper(s[p]) {
        sp_upper_end(s, p + 1)
    } else {
        p
    }
}

/// The end of the run of ASCII letters starting at `p`.
pub open spec fn sp_alpha_end(s: Seq<char>, p: int) -> int
    decreases s.len() - p,
{
    if 0 <= p < s.len() && is_alpha(s[p]) {
        sp_alpha_end(s, p + 1)
    } else {
        p
    }
}

/// The first `"` at or after `p`, or the end of the input.
pub open spec fn sp_quote_end(s: Seq<char>, p: int) -> int
    decreases s.len() - p,
{
    if 0 <= p < s.len() && s[p] != '"' {
        sp_quote_end(s, p + 1)
    } else {
        p
    }
}

/// The character at `p`, if any.
pub open spec fn sp_peek(s: Seq<char>, p: int) -> Option<char> {
    if 0 <= p < s.len() {
        Some(s[p])
    } else {
        None
    }
}

/// Consume the character `c` at `p`.
pub open spec fn sp_expect(s: Seq<char>, p: int, c: char) -> Result<int, ParseErrorV> {
    match sp_peek(s, p) {
        Some(x) => if x == c {
            Ok(p + 1)
        } else {
            Err(ParseErrorV::UnexpectedChar { expected: c, found: x, pos: p })
        },
        None => Err(ParseErrorV::UnexpectedEnd),
    }
}

/// The uppercase keyword starting at `p` (empty when there is none).
pub open spec fn sp_peek_kw(s: Seq<char>, p: int) -> Seq<char> {
    s.subrange(p, sp_upper_end(s, p))
}

/// Consume an uppercase keyword.
pub open spec fn sp_keyword(s: Seq<char>, p: int) -> SRes<Seq<char>> {
    let e = sp_upper_end(s, p);
    if e == p {
        Err(ParseErrorV::ExpectedKeyword { pos: p })
    } else {
        Ok((s.subrange(p, e), e))
    }
}

/// Consume an unquoted identifier made of ASCII letters.
pub open spec fn sp_identifier(s: Seq<char>, p: int) -> SRes<Seq<char>> {
    let e = sp_alpha_end(s, p);
    if e == p {
        Err(ParseErrorV::ExpectedKeyword { pos: p })
    } else {
        Ok((s.subrange(p, e), e))
    }
}

/// Consume a `"`-delimited string; the value is the text between the quotes.
pub open spec fn sp_quoted(s: Seq<char>, p: int) -> SRes<Seq<char>> {
    match sp_expect(s, p, '"') {
        Err(e) => Err(e),
        Ok(q) => {
            let e = sp_quote_end(s, q);
            if e < s.len() {
                Ok((s.subrange(q, e), e + 1))
            } else {
                Err(ParseErrorV::UnterminatedString { pos: p })
            }
        },
    }
}

/// Skip whitespace, then consume `c`, then skip whitespace.
pub open spec fn sp_ws_char_ws(s: Seq<char>, p: int, c: char) -> Result<int, ParseErrorV> {
    match sp_expect(s, sp_skip_ws(s, p), c) {
        Err(e) => Err(e),
        Ok(q) => Ok(sp_skip_ws(s, q)),
    }
}

/// The step into the next trailing item: whitespace, a comma, whitespace.
pub open spec fn sp_item_start(s: Seq<char>, p: int) -> Result<int, ParseErrorV> {
    match sp_expect(s, sp_skip_ws(s, p), ',') {
        Err(e) => Err(e),
        Ok(q) => Ok(sp_skip_ws(s, q)),
    }
}

/// Skip whitespace, then consume `]`.
pub open spec fn sp_close(s: Seq<char>, p: int) -> Result<int, ParseErrorV> {
    sp_expect(s, sp_skip_ws(s, p), ']')
}

/// Whether the trailing-item loop at `p` has reached its closing `]`.
pub open spec fn sp_at_close(s: Seq<char>, p: int) -> bool {
    sp_peek(s, sp_skip_ws(s, p)) == Some(']')
}

/// The scan of a bracketed node's body: `p` is just after an opening bracket
/// and `depth` brackets are open. Quoted text is skipped whole. The result is
/// the position after the bracket that closes the node.
pub open spec fn sp_bracket_scan(s: Seq<char>, p: int, depth: nat) -> Option<int>
    decreases s.len() - p,
{
    if p < 0 || p >= s.len() || depth == 0 {
        None
    } else if s[p] == '[' {
        sp_bracket_scan(s, p + 1, depth + 1)
    } else if s[p] == ']' {
        if depth == 1 {
            Some(p + 1)
        } else {
            sp_bracket_scan(s, p + 1, (depth - 1) as nat)
        }
    } else if s[p] == '"' {
        let q = sp_quote_end(s, p + 1);
        if q >= s.len() {
            None
        } else {
            proof {
                lemma_quote_end(s, p + 1);
            }
            sp_bracket_scan(s, q + 1, depth)
        }
    } else {
        sp_bracket_scan(s, p + 1, depth)
    }
}

/// Consume a whole `KEYWORD[...]` node; the value is its raw text.
pub open spec fn sp_bracketed_node(s: Seq<char>, p: int) -> SRes<Seq<char>> {
    match sp_keyword(s, p) {
        Err(e) => Err(e),
        Ok((_, q)) => match sp_expect(s, sp_skip_ws(s, q), '[') {
            Err(e) => Err(e),
            Ok(r) => match sp_bracket_scan(s, r, 1) {
                Some(e) => Ok((s.subrange(p, e), e)),
                None => Err(ParseErrorV::UnexpectedEnd),
            },
        },
    }
}

/// Unicode `White_Space`, which `str::trim` removes.
pub open spec fn is_unicode_ws(c: char) -> bool {
    ('\u{9}' <= c && c <= '\u{d}') || c == ' ' || c == '\u{85}' || c == '\u{a0}' || c == '\u{1680}'
        || ('\u{2000}' <= c && c <= '\u{200a}') || c == '\u{2028}' || c == '\u{2029}' || c
        == '\u{202f}' || c == '\u{205f}' || c == '\u{3000}'
}

/// The first position in `[a, b)` that is not Unicode whitespace (or `b`).
pub open spec fn sp_trim_start(t: Seq<char>, a: int, b: int) -> int
    decreases b - a,
{
    if a < b && 0 <= a < t.len() && is_unicode_ws(t[a]) {
        sp_trim_start(t, a + 1, b)
    } else {
        a
    }
}

/// The end of `[a, b)` once trailing Unicode whitespace is removed.
pub open spec fn sp_trim_end(t: Seq<char>, a: int, b: int) -> int
    decreases b - a,
{
    if a < b && 0 <= b - 1 < t.len() && is_unicode_ws(t[b - 1]) {
        sp_trim_end(t, a, b - 1)
    } else {
        b
    }
}

/// `str::trim`: the text without leading and trailing Unicode whitespace.
pub open spec fn sp_trim(t: Seq<char>) -> Seq<char> {
    let a = sp_trim_start(t, 0, t.len() as int);
    t.subrange(a, sp_trim_end(t, a, t.len() as int))
}

/// The first `,` or `]` at or after `p`, or the end of the input.
pub open spec fn sp_item_end(s: Seq<char>, p: int) -> int
    decreases s.len() - p,
{
    if 0 <= p < s.len() && s[p] != ',' && s[p] != ']' {
        sp_item_end(s, p + 1)
    } else {
        p
    }
}

/// A date-time written bare (e.g. `2013-01-01`) or a quoted text.
pub open spec fn sp_datetime_or_text(s: Seq<char>, p: int) -> SRes<Seq<char>> {
    if sp_peek(s, p) == Some('"') {
        sp_quoted(s, p)
    } else {
        let e = sp_item_end(s, p);
        if e == p {
            Err(ParseErrorV::UnexpectedEnd)
        } else {
            Ok((sp_trim(s.subrange(p, e)), e))
        }
    }
}

/// Consume a number token.
pub open spec fn sp_number(s: Seq<char>, p: int) -> SRes<DecimalV> {
    match number_value(s, p) {
        Some(v) => Ok((v, number_end(s, p))),
        None => Err(ParseErrorV::UnexpectedEnd),
    }
}

/// A quoted text, or else a number.
pub open spec fn sp_number_or_text(s: Seq<char>, p: int) -> SRes<AuthorityIdV> {
    if sp_peek(s, p) == Some('"') {
        match sp_quoted(s, p) {
            Ok((t, q)) => Ok((AuthorityIdV::Text(t), q)),
            Err(e) => Err(e),
        }
    } else {
        match sp_number(s, p) {
            Ok((d, q)) => Ok((AuthorityIdV::Number(d), q)),
            Err(e) => Err(e),
        }
    }
}

/// Consume the keyword `lit` and the opening bracket after it.
pub open spec fn sp_open_kw(s: Seq<char>, p: int, lit: Seq<char>) -> Result<int, ParseErrorV> {
    match sp_keyword(s, p) {
        Err(e) => Err(e),
        Ok((k, q)) => if k == lit {
            sp_ws_char_ws(s, q, '[')
        } else {
            Err(ParseErrorV::ExpectedKeyword { pos: p })
        },
    }
}

/// Consume one of the keywords `a`, `b`, `c` and the opening bracket after
/// it, returning the keyword.
pub open spec fn sp_open_among(
    s: Seq<char>,
    p: int,
    a: Seq<char>,
    b: Seq<char>,
    c: Seq<char>,
) -> SRes<Seq<char>> {
    match sp_keyword(s, p) {
        Err(e) => Err(e),
        Ok((k, q)) => if k == a || k == b || k == c {
            match sp_ws_char_ws(s, q, '[') {
                Err(e) => Err(e),
                Ok(q1) => Ok((k, q1)),
            }
        } else {
            Err(ParseErrorV::ExpectedKeyword { pos: p })
        },
    }
}

/// `lit["text"]`.
pub open spec fn sp_kw_quoted(s: Seq<char>, p: int, lit: Seq<char>) -> SRes<Seq<char>> {
    match sp_open_kw(s, p, lit) {
        Err(e) => Err(e),
        Ok(q) => match sp_quoted(s, q) {
            Err(e) => Err(e),
            Ok((v, q2)) => match sp_close(s, q2) {
                Err(e) => Err(e),
                Ok(q3) => Ok((v, q3)),
            },
        },
    }
}

/// `lit[number]`.
pub open spec fn sp_kw_number(s: Seq<char>, p: int, lit: Seq<char>) -> SRes<DecimalV> {
    match sp_open_kw(s, p, lit) {
        Err(e) => Err(e),
        Ok(q) => match sp_number(s, q) {
            Err(e) => Err(e),
            Ok((v, q2)) => match sp_close(s, q2) {
                Err(e) => Err(e),
                Ok(q3) => Ok((v, q3)),
            },
        },
    }
}

/// A character that may continue a WKT1 keyword (`VERT_CS`, `TOWGS84`).
pub open spec fn is_kw1_char(c: char) -> bool {
    is_upper(c) || is_digit(c) || c == '_'
}

/// The end of the run of WKT1 keyword characters starting at `p`.
pub open spec fn sp_kw1_rest_end(s: Seq<char>, p: int) -> int
    decreases s.len() - p,
{
    if 0 <= p < s.len() && is_kw1_char(s[p]) {
        sp_kw1_rest_end(s, p + 1)
    } else {
        p
    }
}

/// The end of the WKT1 keyword at `p`: an uppercase letter, then uppercase
/// letters, digits and underscores.
pub open spec fn sp_kw1_end(s: Seq<char>, p: int) -> int {
    if 0 <= p < s.len() && is_upper(s[p]) {
        sp_kw1_rest_end(s, p + 1)
    } else {
        p
    }
}

/// The WKT1 keyword at `p` (empty when there is none).
pub open spec fn sp_peek_kw1(s: Seq<char>, p: int) -> Seq<char> {
    s.subrange(p, sp_kw1_end(s, p))
}

/// Consume the WKT1 keyword `lit` and the opening bracket after it.
pub open spec fn sp_open_kw1(s: Seq<char>, p: int, lit: Seq<char>) -> Result<int, ParseErrorV> {
    let e = sp_kw1_end(s, p);
    if e == p {
        Err(ParseErrorV::ExpectedKeyword { pos: p })
    } else if s.subrange(p, e) == lit {
        sp_ws_char_ws(s, e, '[')
    } else {
        Err(ParseErrorV::ExpectedKeyword { pos: p })
    }
}

/// Skip a whole WKT1 `KEYWORD[...]` node.
pub open spec fn sp_skip_node1(s: Seq<char>, p: int) -> Result<int, ParseErrorV> {
    let e = sp_kw1_end(s, p);
    if e == p {
        Err(ParseErrorV::ExpectedKeyword { pos: p })
    } else {
        match sp_expect(s, sp_skip_ws(s, e), '[') {
            Err(err) => Err(err),
            Ok(r) => match sp_bracket_scan(s, r, 1) {
                Some(q) => Ok(q),
                None => Err(ParseErrorV::UnexpectedEnd),
            },
        }
    }
}

/// The WKT1 keyword at `p` lies within the text.
pub proof fn lemma_kw1_end(s: Seq<char>, p: int)
    requires
        0 <= p <= s.len(),
    ensures
        p <= sp_kw1_end(s, p) <= s.len(),
        sp_peek_kw1(s, p).len() == sp_kw1_end(s, p) - p,
{
    if p < s.len() && is_upper(s[p]) {
        lemma_kw1_rest_end(s, p + 1);
    }
}

pub proof fn lemma_kw1_rest_end(s: Seq<char>, p: int)
    requires
        0 <= p <= s.len(),
    ensures
        p <= sp_kw1_rest_end(s, p) <= s.len(),
    decreases s.len() - p,
{
    if p < s.len() && is_kw1_char(s[p]) {
        lemma_kw1_rest_end(s, p + 1);
    }
}

pub proof fn lemma_skip_ws(s: Seq<char>, p: int)
    requires
        0 <= p <= s.len(),
    ensures
        p <= sp_skip_ws(s, p) <= s.len(),
        forall|i: int| p <= i < sp_skip_ws(s, p) ==> is_ws(#[trigger] s[i]),
        sp_skip_ws(s, p) < s.len() ==> !is_ws(s[sp_skip_ws(s, p)]),
    decreases s.len() - p,
{
    if p < s.len() && is_ws(s[p]) {
        lemma_skip_ws(s, p + 1);
    }
}

pub proof fn lemma_upper_end(s: Seq<char>, p: int)
    requires
        0 <= p <= s.len(),
    ensures
        p <= sp_upper_end(s, p) <= s.len(),
        forall|i: int| p <= i < sp_upper_end(s, p) ==> is_upper(#[trigger] s[i]),
        sp_upper_end(s, p) < s.len() ==> !is_upper(s[sp_upper_end(s, p)]),
    decreases s.len() - p,
{
    if p < s.len() && is_upper(s[p]) {
        lemma_upper_end(s, p + 1);
    }
}

pub proof fn lemma_alpha_end(s: Seq<char>, p: int)
    requires
        0 <= p <= s.len(),
    ensures
        p <= sp_alpha_end(s, p) <= s.len(),
        forall|i: int| p <= i < sp_alpha_end(s, p) ==> is_alpha(#[trigger] s[i]),
        sp_alpha_end(s, p) < s.len() ==> !is_alpha(s[sp_alpha_end(s, p)]),
    decreases s.len() - p,
{
    if p < s.len() && is_alpha(s[p]) {
        lemma_alpha_end(s, p + 1);
    }
}

pub proof fn lemma_quote_end(s: Seq<char>, p: int)
    requires
        0 <= p <= s.len(),
    ensures
        p <= sp_quote_end(s, p) <= s.len(),
        forall|i: int| p <= i < sp_quote_end(s, p) ==> #[trigger] s[i] != '"',
        sp_quote_end(s, p) < s.len() ==> s[sp_quote_end(s, p)] == '"',
    decreases s.len() - p,
{
    if p < s.len() && s[p] != '"' {
        lemma_quote_end(s, p + 1);
    }
}

pub proof fn lemma_item_end(s: Seq<char>, p: int)
    requires
        0 <= p <= s.len(),
    ensures
        p <= sp_item_end(s, p) <= s.len(),
    decreases s.len() - p,
{
    if p < s.len() && s[p] != ',' && s[p] != ']' {
        lemma_item_end(s, p + 1);
    }
}

pub proof fn lemma_bracket_scan(s: Seq<char>, p: int, depth: nat)
    requires
        0 <= p,
    ensures
        sp_bracket_scan(s, p, depth) matches Some(e) ==> p < e <= s.len(),
    decreases s.len() - p,
{
    if p >= 0 && p < s.len() && depth != 0 {
        if s[p] == '[' {
            lemma_bracket_scan(s, p + 1, depth + 1);
        } else if s[p] == ']' {
            if depth != 1 {
                lemma_bracket_scan(s, p + 1, (depth - 1) as nat);
            }
        } else if s[p] == '"' {
            lemma_quote_end(s, p + 1);
            let q = sp_quote_end(s, p + 1);
            if q < s.len() {
                lemma_bracket_scan(s, q + 1, depth);
            }
        } else {
            lemma_bracket_scan(s, p + 1, depth);
        }
    }
}

pub fn is_ws_char(c: char) -> (r: bool)
    ensures
        r == is_ws(c),
{
    c == ' ' || c == '\t' || c == '\n' || c == '\x0C' || c == '\r'
}

pub fn is_unicode_ws_char(c: char) -> (r: bool)
    ensures
        r == is_unicode_ws(c),
{
    ('\u{9}' <= c && c <= '\u{d}') || c == ' ' || c == '\u{85}' || c == '\u{a0}' || c == '\u{1680}'
        || ('\u{2000}' <= c && c <= '\u{200a}') || c == '\u{2028}' || c == '\u{2029}' || c
        == '\u{202f}' || c == '\u{205f}' || c == '\u{3000}'
}

/// The characters of a string.
#[verifier::external_body]
pub(crate) fn chars_of(s: &str) -> (r: Vec<char>)
    ensures
        r@ == s@,
{
    s.chars().collect()
}

/// The string made of `v[a..b]`.
#[verifier::external_body]
pub(crate) fn string_of(v: &[char], a: usize, b: usize) -> (r: String)
    requires
        a <= b <= v@.len(),
    ensures
        r@ == v@.subrange(a as int, b as int),
{
    v[a..b].iter().collect()
}

/// Append one character to a string.
#[verifier::external_body]
pub(crate) fn push_char(s: &mut String, c: char)
    ensures
        final(s)@ == old(s)@.push(c),
{
    s.push(c)
}

/// Append a string to a string.
pub(crate) fn push_str(s: &mut String, t: &str)
    ensures
        final(s)@ == old(s)@ + t@,
{
    s.append(t);
}

/// Whether two strings are equal.
pub fn str_eq(a: &str, b: &str) -> (r: bool)
    ensures
        r == (a@ == b@),
{
    let n = a.unicode_len();
    if n != b.unicode_len() {
        return false;
    }
    let mut i: usize = 0;
    while i < n
        invariant
            i <= n,
            n == a@.len(),
            n == b@.len(),
            forall|j: int| 0 <= j < i ==> a@[j] == b@[j],
        decreases n - i,
    {
        if a.get_char(i) != b.get_char(i) {
            return false;
        }
        i = i + 1;
    }
    assert(a@ =~= b@);
    true
}

/// Whether `v[a..b]` spells `lit`.
pub fn span_is(v: &[char], a: usize, b: usize, lit: &str) -> (r: bool)
    requires
        a <= b <= v@.len(),
    ensures
        r == (v@.subrange(a as int, b as int) == lit@),
{
    let n = lit.unicode_len();
    if b - a != n {
        return false;
    }
    let mut i: usize = 0;
    while i < n
        invariant
            i <= n,
            n == lit@.len(),
            b - a == n,
            a <= b <= v@.len(),
            forall|j: int| 0 <= j < i ==> v@[a + j] == lit@[j],
        decreases n - i,
    {
        if v[a + i] != lit.get_char(i) {
            assert(v@.subrange(a as int, b as int)[i as int] != lit@[i as int]);
            return false;
        }
        i = i + 1;
    }
    assert(v@.subrange(a as int, b as int) =~= lit@);
    true
}

/// The number of bytes that UTF-8 takes for `c`.
pub open spec fn utf8_width(c: char) -> nat {
    let v = c as u32;
    if v < 0x80 {
        1
    } else if v < 0x800 {
        2
    } else if v < 0x10000 {
        3
    } else {
        4
    }
}

/// The number of bytes that UTF-8 takes for `t`.
pub open spec fn utf8_len(t: Seq<char>) -> nat
    decreases t.len(),
{
    if t.len() == 0 {
        0
    } else {
        utf8_len(t.drop_last()) + utf8_width(t.last())
    }
}

/// The byte offset of character position `pos` in the UTF-8 encoding of `s`
/// (positions past the end count as the end), saturated at `usize::MAX`.
pub open spec fn byte_pos(s: Seq<char>, pos: int) -> int {
    let k = if pos < 0 {
        0
    } else if pos > s.len() {
        s.len() as int
    } else {
        pos
    };
    let n = utf8_len(s.take(k));
    if n > usize::MAX {
        usize::MAX as int
    } else {
        n as int
    }
}

/// The error with each character position turned into a byte offset.
pub open spec fn err_at_bytes(s: Seq<char>, e: ParseErrorV) -> ParseErrorV {
    match e {
        ParseErrorV::UnexpectedChar { expected, found, pos } => ParseErrorV::UnexpectedChar {
            expected,
            found,
            pos: byte_pos(s, pos),
        },
        ParseErrorV::UnexpectedKeyword { keyword, pos } => ParseErrorV::UnexpectedKeyword {
            keyword,
            pos: byte_pos(s, pos),
        },
        ParseErrorV::ExpectedKeyword { pos } => ParseErrorV::ExpectedKeyword {
            pos: byte_pos(s, pos),
        },
        ParseErrorV::UnterminatedString { pos } => ParseErrorV::UnterminatedString {
            pos: byte_pos(s, pos),
        },
        ParseErrorV::TrailingInput { pos } => ParseErrorV::TrailingInput { pos: byte_pos(s, pos) },
        ParseErrorV::LossyWkt1Node { keyword, pos } => ParseErrorV::LossyWkt1Node {
            keyword,
            pos: byte_pos(s, pos),
        },
        ParseErrorV::UnsupportedWkt1Node { keyword, pos } => ParseErrorV::UnsupportedWkt1Node {
            keyword,
            pos: byte_pos(s, pos),
        },
        ParseErrorV::MissingWkt1Node { keyword, parent, pos } => ParseErrorV::MissingWkt1Node {
            keyword,
            parent,
            pos: byte_pos(s, pos),
        },
        other => other,
    }
}

fn utf8_width_exec(c: char) -> (r: usize)
    ensures
        r == utf8_width(c),
{
    let v = c as u32;
    if v < 0x80 {
        1
    } else if v < 0x800 {
        2
    } else if v < 0x10000 {
        3
    } else {
        4
    }
}

/// The byte offset of character position `pos` of `chars`.
pub fn byte_offset(chars: &[char], pos: usize) -> (r: usize)
    ensures
        r == byte_pos(chars@, pos as int),
{
    let stop = if pos > chars.len() {
        chars.len()
    } else {
        pos
    };
    let mut acc: usize = 0;
    let mut i: usize = 0;
    assert(chars@.take(0) =~= Seq::<char>::empty());
    while i < stop
        invariant
            i <= stop <= chars@.len(),
            acc == (if utf8_len(chars@.take(i as int)) > usize::MAX {
                usize::MAX as int
            } else {
                utf8_len(chars@.take(i as int)) as int
            }),
        decreases stop - i,
    {
        let w = utf8_width_exec(chars[i]);
        proof {
            assert(chars@.take(i + 1).drop_last() =~= chars@.take(i as int));
            assert(chars@.take(i + 1).last() == chars@[i as int]);
        }
        acc = if acc > usize::MAX - w {
            usize::MAX
        } else {
            acc + w
        };
        i = i + 1;
    }
    acc
}

/// A parser over the characters of an input, with a current position.
pub struct Parser {
    pub(crate) input: Vec<char>,
    pub(crate) pos: usize,
}

impl Parser {
    /// A parser at the start of `input`.
    pub fn new(input: &str) -> (r: Self)
        ensures
            r.s() == input@,
            r.p() == 0,
            r.wf(),
    {
        Parser { input: chars_of(input), pos: 0 }
    }

    pub open spec fn wf(&self) -> bool {
        0 <= self.p() <= self.s().len()
    }

    pub closed spec fn s(&self) -> Seq<char> {
        self.input@
    }

    pub closed spec fn p(&self) -> int {
        self.pos as int
    }

    /// The current position.
    pub(crate) fn pos(&self) -> (r: usize)
        ensures
            r == self.p(),
    {
        self.pos
    }

    pub(crate) fn skip_whitespace(&mut self)
        requires
            old(self).wf(),
        ensures
            final(self).wf(),
            final(self).s() == old(self).s(),
            old(self).p() <= final(self).p(),
            final(self).p() == sp_skip_ws(old(self).s(), old(self).p()),
    {
        proof {
            lemma_skip_ws(self.s(), self.p());
        }
        while self.pos < self.input.len() && is_ws_char(self.input[self.pos])
            invariant
                self.wf(),
                self.s() == old(self).s(),
                sp_skip_ws(self.s(), self.p()) == sp_skip_ws(old(self).s(), old(self).p()),
                old(self).p() <= self.p(),
            decreases self.input.len() - self.pos,
        {
            self.pos = self.pos + 1;
        }
    }

    pub(crate) fn peek_char(&self) -> (r: Option<char>)
        requires
            self.wf(),
        ensures
            r == sp_peek(self.s(), self.p()),
    {
        if self.pos < self.input.len() {
            Some(self.input[self.pos])
        } else {
            None
        }
    }

    pub(crate) fn expect_char(&mut self, expected: char) -> (r: Result<(), ParseError>)
        requires
            old(self).wf(),
        ensures
            final(self).wf(),
            final(self).s() == old(self).s(),
            old(self).p() <= final(self).p(),
            match sp_expect(old(self).s(), old(self).p(), expected) {
                Ok(q) => r is Ok && final(self).p() == q,
                Err(e) => r matches Err(x) && x@ == e,
            },
            r is Err ==> final(self).p() == old(self).p(),
    {
        if self.pos < self.input.len() {
            let c = self.input[self.pos];
            if c == expected {
                self.pos = self.pos + 1;
                Ok(())
            } else {
                Err(ParseError::UnexpectedChar { expected, found: c, pos: self.pos })
            }
        } else {
            Err(ParseError::UnexpectedEnd)
        }
    }

    /// The end of the uppercase keyword at the current position.
    pub(crate) fn keyword_end(&self) -> (r: usize)
        requires
            self.wf(),
        ensures
            r == sp_upper_end(self.s(), self.p()),
            self.pos <= r <= self.input@.len(),
    {
        proof {
            lemma_upper_end(self.s(), self.p());
        }
        let mut e = self.pos;
        while e < self.input.len() && 'A' <= self.input[e] && self.input[e] <= 'Z'
            invariant
                self.pos <= e <= self.input@.len(),
                sp_upper_end(self.s(), e as int) == sp_upper_end(self.s(), self.p()),
            decreases self.input.len() - e,
        {
            e = e + 1;
        }
        e
    }

    /// Whether `input[a..b]` spells `lit`.
    pub(crate) fn span_is_lit(&self, a: usize, b: usize, lit: &str) -> (r: bool)
        requires
            a <= b <= self.s().len(),
        ensures
            r == (self.s().subrange(a as int, b as int) == lit@),
    {
        span_is(&self.input, a, b, lit)
    }

    /// Whether the keyword at the current position is `lit`.
    pub(crate) fn peek_is(&self, lit: &str) -> (r: bool)
        requires
            self.wf(),
        ensures
            r == (sp_peek_kw(self.s(), self.p()) == lit@),
    {
        let e = self.keyword_end();
        span_is(&self.input, self.pos, e, lit)
    }

    /// Consume an uppercase keyword, returning where it starts and ends.
    pub(crate) fn keyword_span(&mut self) -> (r: Result<(usize, usize), ParseError>)
        requires
            old(self).wf(),
        ensures
            final(self).wf(),
            final(self).s() == old(self).s(),
            old(self).p() <= final(self).p(),
            match sp_keyword(old(self).s(), old(self).p()) {
                Ok((k, q)) => r matches Ok((a, b)) && a == old(self).pos && b == q && a < b
                    && b <= old(self).s().len() && final(self).p() == q && k == old(
                    self,
                ).s().subrange(a as int, b as int),
                Err(e) => r matches Err(x) && x@ == e,
            },
    {
        let start = self.pos;
        let e = self.keyword_end();
        if e == start {
            return Err(ParseError::ExpectedKeyword { pos: start });
        }
        self.pos = e;
        Ok((start, e))
    }

    /// Consume an uppercase keyword.
    pub(crate) fn parse_keyword(&mut self) -> (r: Result<String, ParseError>)
        requires
            old(self).wf(),
        ensures
            final(self).wf(),
            final(self).s() == old(self).s(),
            old(self).p() <= final(self).p(),
            match sp_keyword(old(self).s(), old(self).p()) {
                Ok((k, q)) => r matches Ok(x) && x@ == k && final(self).p() == q,
                Err(e) => r matches Err(x) && x@ == e,
            },
    {
        let (a, b) = self.keyword_span()?;
        Ok(string_of(&self.input, a, b))
    }

    /// Consume an identifier made of ASCII letters.
    pub(crate) fn parse_identifier(&mut self) -> (r: Result<String, ParseError>)
        requires
            old(self).wf(),
        ensures
            final(self).wf(),
            final(self).s() == old(self).s(),
            old(self).p() <= final(self).p(),
            match sp_identifier(old(self).s(), old(self).p()) {
                Ok((k, q)) => r matches Ok(x) && x@ == k && final(self).p() == q,
                Err(e) => r matches Err(x) && x@ == e,
            },
    {
        proof {
            lemma_alpha_end(self.s(), self.p());
        }
        let start = self.pos;
        let mut e = self.pos;
        while e < self.input.len() && (('A' <= self.input[e] && self.input[e] <= 'Z') || ('a'
            <= self.input[e] && self.input[e] <= 'z'))
            invariant
                self.pos <= e <= self.input@.len(),
                sp_alpha_end(self.s(), e as int) == sp_alpha_end(self.s(), self.p()),
            decreases self.input.len() - e,
        {
            e = e + 1;
        }
        if e == start {
            return Err(ParseError::ExpectedKeyword { pos: start });
        }
        self.pos = e;
        Ok(string_of(&self.input, start, e))
    }

    /// Consume a quoted string, returning its content.
    pub(crate) fn parse_quoted_string(&mut self) -> (r: Result<String, ParseError>)
        requires
            old(self).wf(),
        ensures
            final(self).wf(),
            final(self).s() == old(self).s(),
            old(self).p() <= final(self).p(),
            match sp_quoted(old(self).s(), old(self).p()) {
                Ok((k, q)) => r matches Ok(x) && x@ == k && final(self).p() == q,
                Err(e) => r matches Err(x) && x@ == e,
            },
    {
        let start = self.pos;
        self.expect_char('"')?;
        proof {
            lemma_quote_end(self.s(), self.p());
        }
        let content_start = self.pos;
        let mut e = self.pos;
        while e < self.input.len() && self.input[e] != '"'
            invariant
                content_start <= e <= self.input@.len(),
                sp_quote_end(self.s(), e as int) == sp_quote_end(self.s(), content_start as int),
            decreases self.input.len() - e,
        {
            e = e + 1;
        }
        if e < self.input.len() {
            let s = string_of(&self.input, content_start, e);
            self.pos = e + 1;
            Ok(s)
        } else {
            Err(ParseError::UnterminatedString { pos: start })
        }
    }

    /// Skip whitespace, consume `c`, skip whitespace.
    pub(crate) fn ws_char_ws(&mut self, c: char) -> (r: Result<(), ParseError>)
        requires
            old(self).wf(),
        ensures
            final(self).wf(),
            final(self).s() == old(self).s(),
            old(self).p() <= final(self).p(),
            match sp_ws_char_ws(old(self).s(), old(self).p(), c) {
                Ok(q) => r is Ok && final(self).p() == q,
                Err(e) => r matches Err(x) && x@ == e,
            },
    {
        self.skip_whitespace();
        self.expect_char(c)?;
        self.skip_whitespace();
        Ok(())
    }

    /// Skip whitespace and consume the closing `]` of a node.
    pub(crate) fn close(&mut self) -> (r: Result<(), ParseError>)
        requires
            old(self).wf(),
        ensures
            final(self).wf(),
            final(self).s() == old(self).s(),
            old(self).p() <= final(self).p(),
            match sp_close(old(self).s(), old(self).p()) {
                Ok(q) => r is Ok && final(self).p() == q,
                Err(e) => r matches Err(x) && x@ == e,
            },
    {
        self.skip_whitespace();
        self.expect_char(']')
    }

    /// Whether a trailing-item loop has reached its `]` (after whitespace).
    pub(crate) fn at_close(&self) -> (r: bool)
        requires
            self.wf(),
        ensures
            r == sp_at_close(self.s(), self.p()),
    {
        proof {
            lemma_skip_ws(self.s(), self.p());
        }
        let mut q = self.pos;
        while q < self.input.len() && is_ws_char(self.input[q])
            invariant
                self.pos <= q <= self.input@.len(),
                sp_skip_ws(self.s(), q as int) == sp_skip_ws(self.s(), self.p()),
            decreases self.input.len() - q,
        {
            q = q + 1;
        }
        q < self.input.len() && self.input[q] == ']'
    }

    /// The text of `input[a..b]`.
    pub(crate) fn text_between(&self, a: usize, b: usize) -> (r: String)
        requires
            a <= b <= self.s().len(),
        ensures
            r@ == self.s().subrange(a as int, b as int),
    {
        string_of(&self.input, a, b)
    }

    /// The error with each character position turned into a byte offset of the input.
    pub(crate) fn error_at_bytes(&self, e: ParseError) -> (r: ParseError)
        ensures
            r@ == err_at_bytes(self.s(), e@),
    {
        let s = self.input.as_slice();
        match e {
            ParseError::UnexpectedChar { expected, found, pos } => ParseError::UnexpectedChar {
                expected,
                found,
                pos: byte_offset(s, pos),
            },
            ParseError::UnexpectedKeyword { keyword, pos } => ParseError::UnexpectedKeyword {
                keyword,
                pos: byte_offset(s, pos),
            },
            ParseError::ExpectedKeyword { pos } => ParseError::ExpectedKeyword {
                pos: byte_offset(s, pos),
            },
            ParseError::UnterminatedString { pos } => ParseError::UnterminatedString {
                pos: byte_offset(s, pos),
            },
            ParseError::TrailingInput { pos } => ParseError::TrailingInput {
                pos: byte_offset(s, pos),
            },
            ParseError::LossyWkt1Node { keyword, pos } => ParseError::LossyWkt1Node {
                keyword,
                pos: byte_offset(s, pos),
            },
            ParseError::UnsupportedWkt1Node { keyword, pos } => ParseError::UnsupportedWkt1Node {
                keyword,
                pos: byte_offset(s, pos),
            },
            ParseError::MissingWkt1Node { keyword, parent, pos } => ParseError::MissingWkt1Node {
                keyword,
                parent,
                pos: byte_offset(s, pos),
            },
            other => other,
        }
    }

    /// The end of the WKT1 keyword at the current position.
    pub(crate) fn kw1_end(&self) -> (r: usize)
        requires
            self.wf(),
        ensures
            r == sp_kw1_end(self.s(), self.p()),
            self.pos <= r <= self.input@.len(),
    {
        if self.pos >= self.input.len() || !('A' <= self.input[self.pos] && self.input[self.pos]
            <= 'Z') {
            return self.pos;
        }
        proof {
            lemma_kw1_rest_end(self.s(), self.p() + 1);
        }
        let mut e = self.pos + 1;
        while e < self.input.len() && (('A' <= self.input[e] && self.input[e] <= 'Z') || ('0'
            <= self.input[e] && self.input[e] <= '9') || self.input[e] == '_')
            invariant
                self.pos < e <= self.input@.len(),
                sp_kw1_rest_end(self.s(), e as int) == sp_kw1_rest_end(self.s(), self.p() + 1),
            decreases self.input.len() - e,
        {
            e = e + 1;
        }
        e
    }

    /// Whether the WKT1 keyword at the current position is `lit`.
    pub(crate) fn peek_kw1_is(&self, lit: &str) -> (r: bool)
        requires
            self.wf(),
        ensures
            r == (sp_peek_kw1(self.s(), self.p()) == lit@),
    {
        let e = self.kw1_end();
        span_is(&self.input, self.pos, e, lit)
    }

    /// The WKT1 keyword at the current position (empty when there is none).
    pub(crate) fn peek_kw1_text(&self) -> (r: String)
        requires
            self.wf(),
        ensures
            r@ == sp_peek_kw1(self.s(), self.p()),
    {
        let e = self.kw1_end();
        string_of(&self.input, self.pos, e)
    }

    /// Consume the WKT1 keyword `lit` and the opening bracket after it.
    pub(crate) fn open_kw1(&mut self, lit: &str) -> (r: Result<(), ParseError>)
        requires
            old(self).wf(),
        ensures
            final(self).wf(),
            final(self).s() == old(self).s(),
            old(self).p() <= final(self).p(),
            match sp_open_kw1(old(self).s(), old(self).p(), lit@) {
                Ok(q) => r is Ok && final(self).p() == q,
                Err(e) => r matches Err(x) && x@ == e,
            },
    {
        let start = self.pos;
        let e = self.kw1_end();
        if e == start || !span_is(&self.input, start, e, lit) {
            return Err(ParseError::ExpectedKeyword { pos: start });
        }
        self.pos = e;
        self.ws_char_ws('[')
    }

    /// Skip a whole WKT1 `KEYWORD[...]` node.
    pub(crate) fn skip_node1(&mut self) -> (r: Result<(), ParseError>)
        requires
            old(self).wf(),
        ensures
            final(self).wf(),
            final(self).s() == old(self).s(),
            old(self).p() <= final(self).p(),
            match sp_skip_node1(old(self).s(), old(self).p()) {
                Ok(q) => r is Ok && final(self).p() == q,
                Err(e) => r matches Err(x) && x@ == e,
            },
    {
        let start = self.pos;
        let e = self.kw1_end();
        if e == start {
            return Err(ParseError::ExpectedKeyword { pos: start });
        }
        self.pos = e;
        proof {
            lemma_skip_ws(self.s(), self.p());
        }
        self.skip_whitespace();
        self.expect_char('[')?;
        let ghost s = self.s();
        let ghost r0 = self.p();
        let mut p = self.pos;
        let mut depth: usize = 1;
        proof {
            lemma_bracket_scan(s, r0, 1);
        }
        loop
            invariant
                self.wf(),
                self.s() == s,
                s == old(self).s(),
                old(self).p() <= self.p(),
                start < r0 <= p <= s.len(),
                start == old(self).p(),
                1 <= depth <= p,
                sp_bracket_scan(s, p as int, depth as nat) == sp_bracket_scan(s, r0, 1),
                sp_skip_node1(old(self).s(), old(self).p()) == (match sp_bracket_scan(s, r0, 1) {
                    Some(q) => Ok(q),
                    None => Err(ParseErrorV::UnexpectedEnd),
                }),
            decreases s.len() - p,
        {
            if p >= self.input.len() {
                return Err(ParseError::UnexpectedEnd);
            }
            let c = self.input[p];
            if c == '[' {
                depth = depth + 1;
                p = p + 1;
            } else if c == ']' {
                if depth == 1 {
                    self.pos = p + 1;
                    return Ok(());
                }
                depth = depth - 1;
                p = p + 1;
            } else if c == '"' {
                proof {
                    lemma_quote_end(s, p + 1);
                }
                let mut q = p + 1;
                while q < self.input.len() && self.input[q] != '"'
                    invariant
                        p + 1 <= q <= s.len(),
                        self.s() == s,
                        sp_quote_end(s, q as int) == sp_quote_end(s, p + 1),
                    decreases s.len() - q,
                {
                    q = q + 1;
                }
                if q >= self.input.len() {
                    return Err(ParseError::UnexpectedEnd);
                }
                p = q + 1;
            } else {
                p = p + 1;
            }
        }
    }

    /// Whether the input has been read to its end.
    pub(crate) fn at_end(&self) -> (r: bool)
        requires
            self.wf(),
        ensures
            r == (self.p() >= self.s().len()),
    {
        self.pos >= self.input.len()
    }

    /// Whether an uppercase keyword starts at the current position.
    pub(crate) fn peek_has_keyword(&self) -> (r: bool)
        requires
            self.wf(),
        ensures
            r == (sp_peek_kw(self.s(), self.p()).len() > 0),
    {
        self.keyword_end() > self.pos
    }

    /// Skip whitespace, then consume the `,` that starts a trailing item and
    /// the whitespace after it.
    pub(crate) fn item_start(&mut self) -> (r: Result<(), ParseError>)
        requires
            old(self).wf(),
        ensures
            final(self).wf(),
            final(self).s() == old(self).s(),
            old(self).p() <= final(self).p(),
            match sp_item_start(old(self).s(), old(self).p()) {
                Ok(q) => r is Ok && final(self).p() == q && old(self).p() < q,
                Err(e) => r matches Err(x) && x@ == e,
            },
    {
        proof {
            lemma_skip_ws(self.s(), self.p());
        }
        self.skip_whitespace();
        self.expect_char(',')?;
        proof {
            lemma_skip_ws(self.s(), self.p());
        }
        self.skip_whitespace();
        Ok(())
    }

    /// Consume a whole `KEYWORD[...]` node and return its raw text.
    pub(crate) fn parse_bracketed_node(&mut self) -> (r: Result<String, ParseError>)
        requires
            old(self).wf(),
        ensures
            final(self).wf(),
            final(self).s() == old(self).s(),
            old(self).p() <= final(self).p(),
            match sp_bracketed_node(old(self).s(), old(self).p()) {
                Ok((k, q)) => r matches Ok(x) && x@ == k && final(self).p() == q,
                Err(e) => r matches Err(x) && x@ == e,
            },
    {
        let start = self.pos;
        self.keyword_span()?;
        proof {
            lemma_skip_ws(self.s(), self.p());
        }
        self.skip_whitespace();
        self.expect_char('[')?;
        let ghost s = self.s();
        let ghost r0 = self.p();
        let mut p = self.pos;
        let mut depth: usize = 1;
        proof {
            lemma_bracket_scan(s, r0, 1);
        }
        loop
            invariant
                self.wf(),
                self.s() == s,
                s == old(self).s(),
                old(self).p() <= self.p(),
                start < r0 <= p <= s.len(),
                start == old(self).p(),
                1 <= depth <= p,
                sp_bracket_scan(s, p as int, depth as nat) == sp_bracket_scan(s, r0, 1),
                sp_bracketed_node(old(self).s(), old(self).p()) == (match sp_bracket_scan(
                    s,
                    r0,
                    1,
                ) {
                    Some(e) => Ok((s.subrange(start as int, e), e)),
                    None => Err(ParseErrorV::UnexpectedEnd),
                }),
            decreases s.len() - p,
        {
            if p >= self.input.len() {
                return Err(ParseError::UnexpectedEnd);
            }
            let c = self.input[p];
            if c == '[' {
                depth = depth + 1;
                p = p + 1;
            } else if c == ']' {
                if depth == 1 {
                    self.pos = p + 1;
                    return Ok(string_of(&self.input, start, p + 1));
                }
                depth = depth - 1;
                p = p + 1;
            } else if c == '"' {
                proof {
                    lemma_quote_end(s, p + 1);
                }
                let mut q = p + 1;
                while q < self.input.len() && self.input[q] != '"'
                    invariant
                        p + 1 <= q <= s.len(),
                        self.s() == s,
                        sp_quote_end(s, q as int) == sp_quote_end(s, p + 1),
                    decreases s.len() - q,
                {
                    q = q + 1;
                }
                if q >= self.input.len() {
                    return Err(ParseError::UnexpectedEnd);
                }
                p = q + 1;
            } else {
                p = p + 1;
            }
        }
    }

    /// Consume a number token.
    pub(crate) fn parse_number(&mut self) -> (r: Result<Decimal, ParseError>)
        requires
            old(self).wf(),
        ensures
            final(self).wf(),
            final(self).s() == old(self).s(),
            old(self).p() <= final(self).p(),
            match sp_number(old(self).s(), old(self).p()) {
                Ok((k, q)) => r matches Ok(x) && x@ == k && final(self).p() == q,
                Err(e) => r matches Err(x) && x@ == e,
            },
    {
        match Decimal::read(self.input.as_slice(), self.pos) {
            Some((d, e)) => {
                self.pos = e;
                Ok(d)
            },
            None => Err(ParseError::UnexpectedEnd),
        }
    }

    /// A number, or a quoted text.
    pub(crate) fn parse_number_or_text(&mut self) -> (r: Result<AuthorityId, ParseError>)
        requires
            old(self).wf(),
        ensures
            final(self).wf(),
            final(self).s() == old(self).s(),
            old(self).p() <= final(self).p(),
            match sp_number_or_text(old(self).s(), old(self).p()) {
                Ok((k, q)) => r matches Ok(x) && x@ == k && final(self).p() == q,
                Err(e) => r matches Err(x) && x@ == e,
            },
    {
        if self.peek_char() == Some('"') {
            Ok(AuthorityId::Text(self.parse_quoted_string()?))
        } else {
            Ok(AuthorityId::Number(self.parse_number()?))
        }
    }

    /// Consume `lit` followed by an opening bracket.
    pub(crate) fn open_kw(&mut self, lit: &str) -> (r: Result<(), ParseError>)
        requires
            old(self).wf(),
        ensures
            final(self).wf(),
            final(self).s() == old(self).s(),
            old(self).p() <= final(self).p(),
            match sp_open_kw(old(self).s(), old(self).p(), lit@) {
                Ok(q) => r is Ok && final(self).p() == q,
                Err(e) => r matches Err(x) && x@ == e,
            },
    {
        let start = self.pos;
        let (a, b) = self.keyword_span()?;
        if !span_is(&self.input, a, b, lit) {
            return Err(ParseError::ExpectedKeyword { pos: start });
        }
        self.ws_char_ws('[')
    }

    /// Consume one of the keywords `a`, `b`, `c` and the opening bracket after
    /// it; the result tells which keyword it was (0, 1 or 2).
    pub(crate) fn open_among(&mut self, a: &str, b: &str, c: &str) -> (r: Result<u8, ParseError>)
        requires
            old(self).wf(),
        ensures
            final(self).wf(),
            final(self).s() == old(self).s(),
            old(self).p() <= final(self).p(),
            match sp_open_among(old(self).s(), old(self).p(), a@, b@, c@) {
                Ok((k, q)) => r matches Ok(i) && final(self).p() == q && (if k == a@ {
                    i == 0
                } else if k == b@ {
                    i == 1
                } else {
                    i == 2
                }),
                Err(e) => r matches Err(x) && x@ == e,
            },
    {
        let start = self.pos;
        let (x, y) = self.keyword_span()?;
        let which = if span_is(&self.input, x, y, a) {
            0
        } else if span_is(&self.input, x, y, b) {
            1
        } else if span_is(&self.input, x, y, c) {
            2
        } else {
            return Err(ParseError::ExpectedKeyword { pos: start });
        };
        self.ws_char_ws('[')?;
        Ok(which)
    }

    /// `lit["text"]`.
    pub(crate) fn parse_keyword_quoted_string(&mut self, lit: &str) -> (r: Result<String, ParseError>)
        requires
            old(self).wf(),
        ensures
            final(self).wf(),
            final(self).s() == old(self).s(),
            old(self).p() <= final(self).p(),
            match sp_kw_quoted(old(self).s(), old(self).p(), lit@) {
                Ok((k, q)) => r matches Ok(x) && x@ == k && final(self).p() == q,
                Err(e) => r matches Err(x) && x@ == e,
            },
    {
        self.open_kw(lit)?;
        let v = self.parse_quoted_string()?;
        self.close()?;
        Ok(v)
    }

    /// `lit[number]`.
    pub(crate) fn parse_keyword_number(&mut self, lit: &str) -> (r: Result<Decimal, ParseError>)
        requires
            old(self).wf(),
        ensures
            final(self).wf(),
            final(self).s() == old(self).s(),
            old(self).p() <= final(self).p(),
            match sp_kw_number(old(self).s(), old(self).p(), lit@) {
                Ok((k, q)) => r matches Ok(x) && x@ == k && final(self).p() == q,
                Err(e) => r matches Err(x) && x@ == e,
            },
    {
        self.open_kw(lit)?;
        let v = self.parse_number()?;
        self.close()?;
        Ok(v)
    }

    /// A date-time written bare, or a quoted text.
    pub(crate) fn parse_datetime_or_text(&mut self) -> (r: Result<String, ParseError>)
        requires
            old(self).wf(),
        ensures
            final(self).wf(),
            final(self).s() == old(self).s(),
            old(self).p() <= final(self).p(),
            match sp_datetime_or_text(old(self).s(), old(self).p()) {
                Ok((k, q)) => r matches Ok(x) && x@ == k && final(self).p() == q,
                Err(e) => r matches Err(x) && x@ == e,
            },
    {
        if self.peek_char() == Some('"') {
            return self.parse_quoted_string();
        }
        proof {
            lemma_item_end(self.s(), self.p());
        }
        let start = self.pos;
        let mut e = self.pos;
        while e < self.input.len() && self.input[e] != ',' && self.input[e] != ']'
            invariant
                start <= e <= self.input@.len(),
                self.pos == start,
                sp_item_end(self.s(), e as int) == sp_item_end(self.s(), start as int),
            decreases self.input.len() - e,
        {
            e = e + 1;
        }
        if e == start {
            return Err(ParseError::UnexpectedEnd);
        }
        let ghost t = self.s().subrange(start as int, e as int);
        let mut a = start;
        while a < e && is_unicode_ws_char(self.input[a])
            invariant
                start <= a <= e <= self.input@.len(),
                sp_trim_start(t, a - start, e - start) == sp_trim_start(t, 0, e - start),
                t == self.s().subrange(start as int, e as int),
            decreases e - a,
        {
            a = a + 1;
        }
        let mut b = e;
        while a < b && is_unicode_ws_char(self.input[b - 1])
            invariant
                start <= a <= b <= e <= self.input@.len(),
                a - start == sp_trim_start(t, 0, e - start),
                sp_trim_end(t, a - start, b - start) == sp_trim_end(t, a - start, e - start),
                t == self.s().subrange(start as int, e as int),
            decreases b - a,
        {
            b = b - 1;
        }
        proof {
            assert(t.subrange(a - start, b - start) =~= self.s().subrange(a as int, b as int));
        }
        self.pos = e;
        Ok(string_of(&self.input, a, b))
    }
}

} // verus!
