//! WKT2 nodes shared by every CRS: identifiers, units, usages and extents.
use vstd::prelude::*;
use crate::crs::{
    AuthorityId, BBox, Identifier, RangeMeaning, TemporalExtent, Unit, UnitKeyword, Usage,
    VerticalExtent,
};
use crate::decimal::{Decimal, DecimalV};
use crate::error::{ParseError, ParseErrorV};
use crate::model::{
    AuthorityIdV, BBoxV, IdentifierV, TemporalExtentV, UnitV, UsageV, VerticalExtentV, ids_v, opt_aid,
    opt_dec, opt_text, opt_unit,
};
use crate::text::{
    Parser, SRes, sp_at_close, sp_item_start, sp_close, sp_datetime_or_text, sp_identifier, sp_keyword,
    sp_kw_quoted, sp_number, sp_number_or_text, sp_peek, sp_peek_kw, sp_quoted, sp_skip_ws,
    sp_ws_char_ws,
};

verus! {

/// Whether the next trailing item is an `ID[...]`-like keyword node.
pub open spec fn is_unit_kw(k: Seq<char>) -> bool {
    k == "ANGLEUNIT"@ || k == "LENGTHUNIT"@ || k == "PARAMETRICUNIT"@ || k == "SCALEUNIT"@ || k
        == "TIMEUNIT"@ || k == "TEMPORALQUANTITY"@ || k == "UNIT"@
}

pub open spec fn unit_kw_of(k: Seq<char>) -> UnitKeyword {
    if k == "ANGLEUNIT"@ {
        UnitKeyword::AngleUnit
    } else if k == "LENGTHUNIT"@ {
        UnitKeyword::LengthUnit
    } else if k == "PARAMETRICUNIT"@ {
        UnitKeyword::ParametricUnit
    } else if k == "SCALEUNIT"@ {
        UnitKeyword::ScaleUnit
    } else if k == "UNIT"@ {
        UnitKeyword::Unit
    } else {
        UnitKeyword::TimeUnit
    }
}

/// The optional parts of an identifier: version, citation, URI.
pub type IdRest = (Option<AuthorityIdV>, Option<Seq<char>>, Option<Seq<char>>);

/// The trailing items of `ID[...]`.
pub open spec fn sp_id_items(s: Seq<char>, p: int, st: IdRest) -> SRes<IdRest>
    decreases s.len() - p,
{
    if p < 0 || p > s.len() {
        Err(ParseErrorV::UnexpectedEnd)
    } else if sp_at_close(s, p) {
        Ok((st, sp_skip_ws(s, p)))
    } else {
        match sp_item_start(s, p) {
            Err(e) => Err(e),
            Ok(q) => {
                let kw = sp_peek_kw(s, q);
                let step: SRes<IdRest> = if kw == "CITATION"@ {
                    match sp_kw_quoted(s, q, "CITATION"@) {
                        Err(e) => Err(e),
                        Ok((c, q2)) => Ok(((st.0, Some(c), st.2), q2)),
                    }
                } else if kw == "URI"@ {
                    match sp_kw_quoted(s, q, "URI"@) {
                        Err(e) => Err(e),
                        Ok((u, q2)) => Ok(((st.0, st.1, Some(u)), q2)),
                    }
                } else {
                    match sp_number_or_text(s, q) {
                        Err(e) => Err(e),
                        Ok((v, q2)) => Ok(((Some(v), st.1, st.2), q2)),
                    }
                };
                match step {
                    Err(e) => Err(e),
                    Ok((st2, q2)) => if p < q2 <= s.len() {
                        sp_id_items(s, q2, st2)
                    } else {
                        Err(ParseErrorV::UnexpectedEnd)
                    },
                }
            },
        }
    }
}

/// `ID["authority", code {, version} {, CITATION[...]} {, URI[...]}]`.
pub open spec fn sp_id_node(s: Seq<char>, p: int) -> SRes<IdentifierV> {
    match crate::text::sp_open_kw(s, p, "ID"@) {
        Err(e) => Err(e),
        Ok(q) => match sp_quoted(s, q) {
            Err(e) => Err(e),
            Ok((name, q1)) => match sp_ws_char_ws(s, q1, ',') {
                Err(e) => Err(e),
                Ok(q2) => match sp_number_or_text(s, q2) {
                    Err(e) => Err(e),
                    Ok((code, q3)) => match sp_id_items(s, q3, (None, None, None)) {
                        Err(e) => Err(e),
                        Ok((rest, q4)) => match sp_close(s, q4) {
                            Err(e) => Err(e),
                            Ok(q5) => Ok(
                                (
                                    IdentifierV {
                                        authority_name: name,
                                        authority_unique_id: code,
                                        version: rest.0,
                                        citation: rest.1,
                                        uri: rest.2,
                                    },
                                    q5,
                                ),
                            ),
                        },
                    },
                },
            },
        },
    }
}

/// Trailing items that must all be `ID[...]` nodes.
pub open spec fn sp_ids_items(s: Seq<char>, p: int, st: Seq<IdentifierV>) -> SRes<Seq<IdentifierV>>
    decreases s.len() - p,
{
    if p < 0 || p > s.len() {
        Err(ParseErrorV::UnexpectedEnd)
    } else if sp_at_close(s, p) {
        Ok((st, sp_skip_ws(s, p)))
    } else {
        match sp_item_start(s, p) {
            Err(e) => Err(e),
            Ok(q) => match sp_id_node(s, q) {
                Err(e) => Err(e),
                Ok((id, q2)) => if p < q2 <= s.len() {
                    sp_ids_items(s, q2, st.push(id))
                } else {
                    Err(ParseErrorV::UnexpectedEnd)
                },
            },
        }
    }
}

/// The optional parts of a unit: conversion factor and identifiers.
pub type UnitRest = (Option<DecimalV>, Seq<IdentifierV>);

/// The trailing items of a unit: an identifier wherever a keyword starts,
/// a conversion factor otherwise.
pub open spec fn sp_unit_items(s: Seq<char>, p: int, st: UnitRest) -> SRes<UnitRest>
    decreases s.len() - p,
{
    if p < 0 || p > s.len() {
        Err(ParseErrorV::UnexpectedEnd)
    } else if sp_at_close(s, p) {
        Ok((st, sp_skip_ws(s, p)))
    } else {
        match sp_item_start(s, p) {
            Err(e) => Err(e),
            Ok(q) => {
                let step: SRes<UnitRest> = if sp_peek_kw(s, q).len() > 0 {
                    match sp_id_node(s, q) {
                        Err(e) => Err(e),
                        Ok((id, q2)) => Ok(((st.0, st.1.push(id)), q2)),
                    }
                } else {
                    match sp_number(s, q) {
                        Err(e) => Err(e),
                        Ok((f, q2)) => Ok(((Some(f), st.1), q2)),
                    }
                };
                match step {
                    Err(e) => Err(e),
                    Ok((st2, q2)) => if p < q2 <= s.len() {
                        sp_unit_items(s, q2, st2)
                    } else {
                        Err(ParseErrorV::UnexpectedEnd)
                    },
                }
            },
        }
    }
}

/// A unit node: `ANGLEUNIT`, `LENGTHUNIT`, ..., `UNIT`.
pub open spec fn sp_unit(s: Seq<char>, p: int) -> SRes<UnitV> {
    match sp_keyword(s, p) {
        Err(e) => Err(e),
        Ok((k, q)) => if !is_unit_kw(k) {
            Err(ParseErrorV::ExpectedKeyword { pos: p })
        } else {
            match sp_ws_char_ws(s, q, '[') {
                Err(e) => Err(e),
                Ok(q1) => match sp_quoted(s, q1) {
                    Err(e) => Err(e),
                    Ok((name, q2)) => match sp_unit_items(s, q2, (None, Seq::empty())) {
                        Err(e) => Err(e),
                        Ok((rest, q3)) => match sp_close(s, q3) {
                            Err(e) => Err(e),
                            Ok(q4) => Ok(
                                (
                                    UnitV {
                                        keyword: unit_kw_of(k),
                                        name,
                                        conversion_factor: rest.0,
                                        identifiers: rest.1,
                                    },
                                    q4,
                                ),
                            ),
                        },
                    },
                },
            }
        },
    }
}

/// Trailing items made of an optional unit and identifiers; other nodes are skipped.
pub open spec fn sp_unit_ids_items(
    s: Seq<char>,
    p: int,
    st: (Option<UnitV>, Seq<IdentifierV>),
) -> SRes<(Option<UnitV>, Seq<IdentifierV>)>
    decreases s.len() - p,
{
    if p < 0 || p > s.len() {
        Err(ParseErrorV::UnexpectedEnd)
    } else if sp_at_close(s, p) {
        Ok((st, sp_skip_ws(s, p)))
    } else {
        match sp_item_start(s, p) {
            Err(e) => Err(e),
            Ok(q) => {
                let kw = sp_peek_kw(s, q);
                let step: SRes<(Option<UnitV>, Seq<IdentifierV>)> = if is_unit_kw(kw) {
                    match sp_unit(s, q) {
                        Err(e) => Err(e),
                        Ok((u, q2)) => Ok(((Some(u), st.1), q2)),
                    }
                } else if kw == "ID"@ {
                    match sp_id_node(s, q) {
                        Err(e) => Err(e),
                        Ok((id, q2)) => Ok(((st.0, st.1.push(id)), q2)),
                    }
                } else {
                    match crate::text::sp_bracketed_node(s, q) {
                        Err(e) => Err(e),
                        Ok((_, q2)) => Ok((st, q2)),
                    }
                };
                match step {
                    Err(e) => Err(e),
                    Ok((st2, q2)) => if p < q2 <= s.len() {
                        sp_unit_ids_items(s, q2, st2)
                    } else {
                        Err(ParseErrorV::UnexpectedEnd)
                    },
                }
            },
        }
    }
}

/// `BBOX[lat, lon, lat, lon]`.
pub open spec fn sp_bbox(s: Seq<char>, p: int) -> SRes<BBoxV> {
    match crate::text::sp_open_kw(s, p, "BBOX"@) {
        Err(e) => Err(e),
        Ok(q) => match sp_number(s, q) {
            Err(e) => Err(e),
            Ok((a, q1)) => match sp_ws_char_ws(s, q1, ',') {
                Err(e) => Err(e),
                Ok(q2) => match sp_number(s, q2) {
                    Err(e) => Err(e),
                    Ok((b, q3)) => match sp_ws_char_ws(s, q3, ',') {
                        Err(e) => Err(e),
                        Ok(q4) => match sp_number(s, q4) {
                            Err(e) => Err(e),
                            Ok((c, q5)) => match sp_ws_char_ws(s, q5, ',') {
                                Err(e) => Err(e),
                                Ok(q6) => match sp_number(s, q6) {
                                    Err(e) => Err(e),
                                    Ok((d, q7)) => match sp_close(s, q7) {
                                        Err(e) => Err(e),
                                        Ok(q8) => Ok(
                                            (
                                                BBoxV {
                                                    lower_left_latitude: a,
                                                    lower_left_longitude: b,
                                                    upper_right_latitude: c,
                                                    upper_right_longitude: d,
                                                },
                                                q8,
                                            ),
                                        ),
                                    },
                                },
                            },
                        },
                    },
                },
            },
        },
    }
}

/// `VERTICALEXTENT[min, max {, unit}]`.
pub open spec fn sp_vextent(s: Seq<char>, p: int) -> SRes<VerticalExtentV> {
    match crate::text::sp_open_kw(s, p, "VERTICALEXTENT"@) {
        Err(e) => Err(e),
        Ok(q) => match sp_number(s, q) {
            Err(e) => Err(e),
            Ok((a, q1)) => match sp_ws_char_ws(s, q1, ',') {
                Err(e) => Err(e),
                Ok(q2) => match sp_number(s, q2) {
                    Err(e) => Err(e),
                    Ok((b, q3)) => {
                        let unit: SRes<Option<UnitV>> = if sp_at_close(s, q3) {
                            Ok((None, sp_skip_ws(s, q3)))
                        } else {
                            match sp_ws_char_ws(s, sp_skip_ws(s, q3), ',') {
                                Err(e) => Err(e),
                                Ok(q4) => match sp_unit(s, q4) {
                                    Err(e) => Err(e),
                                    Ok((u, q5)) => Ok((Some(u), q5)),
                                },
                            }
                        };
                        match unit {
                            Err(e) => Err(e),
                            Ok((u, q5)) => match sp_close(s, q5) {
                                Err(e) => Err(e),
                                Ok(q6) => Ok(
                                    (
                                        VerticalExtentV {
                                            minimum_height: a,
                                            maximum_height: b,
                                            unit: u,
                                        },
                                        q6,
                                    ),
                                ),
                            },
                        }
                    },
                },
            },
        },
    }
}

/// `TIMEEXTENT[start, end]`.
pub open spec fn sp_textent(s: Seq<char>, p: int) -> SRes<TemporalExtentV> {
    match crate::text::sp_open_kw(s, p, "TIMEEXTENT"@) {
        Err(e) => Err(e),
        Ok(q) => match sp_datetime_or_text(s, q) {
            Err(e) => Err(e),
            Ok((a, q1)) => match sp_ws_char_ws(s, q1, ',') {
                Err(e) => Err(e),
                Ok(q2) => match sp_datetime_or_text(s, q2) {
                    Err(e) => Err(e),
                    Ok((b, q3)) => match sp_close(s, q3) {
                        Err(e) => Err(e),
                        Ok(q4) => Ok((TemporalExtentV { start: a, end: b }, q4)),
                    },
                },
            },
        },
    }
}

pub type UsageRest = (
    Option<Seq<char>>,
    Option<BBoxV>,
    Option<VerticalExtentV>,
    Option<TemporalExtentV>,
);

/// The trailing items of `USAGE[...]`.
pub open spec fn sp_usage_items(s: Seq<char>, p: int, st: UsageRest) -> SRes<UsageRest>
    decreases s.len() - p,
{
    if p < 0 || p > s.len() {
        Err(ParseErrorV::UnexpectedEnd)
    } else if sp_at_close(s, p) {
        Ok((st, sp_skip_ws(s, p)))
    } else {
        match sp_item_start(s, p) {
            Err(e) => Err(e),
            Ok(q) => {
                let kw = sp_peek_kw(s, q);
                let step: SRes<UsageRest> = if kw == "AREA"@ {
                    match sp_kw_quoted(s, q, "AREA"@) {
                        Err(e) => Err(e),
                        Ok((a, q2)) => Ok(((Some(a), st.1, st.2, st.3), q2)),
                    }
                } else if kw == "BBOX"@ {
                    match sp_bbox(s, q) {
                        Err(e) => Err(e),
                        Ok((b, q2)) => Ok(((st.0, Some(b), st.2, st.3), q2)),
                    }
                } else if kw == "VERTICALEXTENT"@ {
                    match sp_vextent(s, q) {
                        Err(e) => Err(e),
                        Ok((v, q2)) => Ok(((st.0, st.1, Some(v), st.3), q2)),
                    }
                } else if kw == "TIMEEXTENT"@ {
                    match sp_textent(s, q) {
                        Err(e) => Err(e),
                        Ok((t, q2)) => Ok(((st.0, st.1, st.2, Some(t)), q2)),
                    }
                } else {
                    match crate::text::sp_bracketed_node(s, q) {
                        Err(e) => Err(e),
                        Ok((_, q2)) => Ok((st, q2)),
                    }
                };
                match step {
                    Err(e) => Err(e),
                    Ok((st2, q2)) => if p < q2 <= s.len() {
                        sp_usage_items(s, q2, st2)
                    } else {
                        Err(ParseErrorV::UnexpectedEnd)
                    },
                }
            },
        }
    }
}

/// `USAGE[SCOPE[...] {, AREA[...]} {, BBOX[...]} {, VERTICALEXTENT[...]} {, TIMEEXTENT[...]}]`.
pub open spec fn sp_usage(s: Seq<char>, p: int) -> SRes<UsageV> {
    match crate::text::sp_open_kw(s, p, "USAGE"@) {
        Err(e) => Err(e),
        Ok(q) => match sp_kw_quoted(s, q, "SCOPE"@) {
            Err(e) => Err(e),
            Ok((scope, q1)) => match sp_usage_items(s, q1, (None, None, None, None)) {
                Err(e) => Err(e),
                Ok((rest, q2)) => match sp_close(s, q2) {
                    Err(e) => Err(e),
                    Ok(q3) => Ok(
                        (
                            UsageV {
                                scope,
                                area: rest.0,
                                bbox: rest.1,
                                vertical_extent: rest.2,
                                temporal_extent: rest.3,
                            },
                            q3,
                        ),
                    ),
                },
            },
        },
    }
}

/// `RANGEMEANING[exact|wraparound]`.
pub open spec fn sp_range_meaning(s: Seq<char>, p: int) -> SRes<RangeMeaning> {
    match crate::text::sp_open_kw(s, p, "RANGEMEANING"@) {
        Err(e) => Err(e),
        Ok(q) => match sp_identifier(s, q) {
            Err(e) => Err(e),
            Ok((v, q1)) => if v == "exact"@ || v == "wraparound"@ {
                match sp_close(s, q1) {
                    Err(e) => Err(e),
                    Ok(q2) => Ok(
                        (
                            if v == "exact"@ {
                                RangeMeaning::Exact
                            } else {
                                RangeMeaning::Wraparound
                            },
                            q2,
                        ),
                    ),
                }
            } else {
                Err(ParseErrorV::UnexpectedKeyword { keyword: v, pos: q1 - v.len() })
            },
        },
    }
}

impl Parser {
    /// Whether the keyword at the current position names a unit node.
    pub(crate) fn peek_unit_keyword(&self) -> (r: bool)
        requires
            self.wf(),
        ensures
            r == is_unit_kw(sp_peek_kw(self.s(), self.p())),
    {
        self.peek_is("ANGLEUNIT") || self.peek_is("LENGTHUNIT") || self.peek_is("PARAMETRICUNIT")
            || self.peek_is("SCALEUNIT") || self.peek_is("TIMEUNIT") || self.peek_is(
            "TEMPORALQUANTITY",
        ) || self.peek_is("UNIT")
    }

    /// `ID[...]`.
    #[verifier::loop_isolation(false)]
    pub(crate) fn parse_identifier_node(&mut self) -> (r: Result<Identifier, ParseError>)
        requires
            old(self).wf(),
        ensures
            final(self).wf(),
            final(self).s() == old(self).s(),
            old(self).p() <= final(self).p(),
            match sp_id_node(old(self).s(), old(self).p()) {
                Ok((v, q)) => r matches Ok(x) && x@ == v && final(self).p() == q,
                Err(e) => r matches Err(x) && x@ == e,
            },
    {
        self.open_kw("ID")?;
        let authority_name = self.parse_quoted_string()?;
        self.ws_char_ws(',')?;
        let authority_unique_id = self.parse_number_or_text()?;
        let ghost s = self.s();
        let ghost p0 = self.p();
        let mut version: Option<AuthorityId> = None;
        let mut citation: Option<String> = None;
        let mut uri: Option<String> = None;
        loop
            invariant
                sp_id_items(s, p0, (None, None, None)) == sp_id_items(
                    s,
                    self.p(),
                    (opt_aid(version), opt_text(citation), opt_text(uri)),
                ),
                self.wf(),
                self.s() == s,
                s == old(self).s(),
                old(self).p() <= self.p(),
            decreases s.len() - self.p(),
        {
            if self.at_close() {
                self.skip_whitespace();
                break;
            }
            self.item_start()?;
            if self.peek_is("CITATION") {
                citation = Some(self.parse_keyword_quoted_string("CITATION")?);
            } else if self.peek_is("URI") {
                uri = Some(self.parse_keyword_quoted_string("URI")?);
            } else {
                version = Some(self.parse_number_or_text()?);
            }
        }
        self.close()?;
        Ok(Identifier { authority_name, authority_unique_id, version, citation, uri })
    }

    /// Trailing `ID[...]` nodes up to the closing bracket.
    #[verifier::loop_isolation(false)]
    pub(crate) fn trailing_identifiers(&mut self) -> (r: Result<Vec<Identifier>, ParseError>)
        requires
            old(self).wf(),
        ensures
            final(self).wf(),
            final(self).s() == old(self).s(),
            old(self).p() <= final(self).p(),
            match sp_ids_items(old(self).s(), old(self).p(), Seq::empty()) {
                Ok((v, q)) => r matches Ok(x) && ids_v(x) == v && final(self).p() == q,
                Err(e) => r matches Err(x) && x@ == e,
            },
    {
        let ghost s = self.s();
        let ghost p0 = self.p();
        let mut ids: Vec<Identifier> = Vec::new();
        proof {
            assert(ids_v(ids) =~= Seq::<IdentifierV>::empty());
        }
        loop
            invariant
                sp_ids_items(s, p0, Seq::empty()) == sp_ids_items(s, self.p(), ids_v(ids)),
                self.wf(),
                self.s() == s,
                s == old(self).s(),
                old(self).p() <= self.p(),
                p0 == old(self).p(),
            decreases s.len() - self.p(),
        {
            if self.at_close() {
                self.skip_whitespace();
                break;
            }
            self.item_start()?;
            let id = self.parse_identifier_node()?;
            let ghost before = ids_v(ids);
            ids.push(id);
            proof {
                assert(ids_v(ids) =~= before.push(id@));
            }
        }
        Ok(ids)
    }

    /// A unit node.
    #[verifier::loop_isolation(false)]
    pub(crate) fn parse_unit(&mut self) -> (r: Result<Unit, ParseError>)
        requires
            old(self).wf(),
        ensures
            final(self).wf(),
            final(self).s() == old(self).s(),
            old(self).p() <= final(self).p(),
            match sp_unit(old(self).s(), old(self).p()) {
                Ok((v, q)) => r matches Ok(x) && x@ == v && final(self).p() == q,
                Err(e) => r matches Err(x) && x@ == e,
            },
    {
        let start = self.pos();
        let (a, b) = self.keyword_span()?;
        let keyword = if self.span_is_lit(a, b, "ANGLEUNIT") {
            UnitKeyword::AngleUnit
        } else if self.span_is_lit(a, b, "LENGTHUNIT") {
            UnitKeyword::LengthUnit
        } else if self.span_is_lit(a, b, "PARAMETRICUNIT") {
            UnitKeyword::ParametricUnit
        } else if self.span_is_lit(a, b, "SCALEUNIT") {
            UnitKeyword::ScaleUnit
        } else if self.span_is_lit(a, b, "UNIT") {
            UnitKeyword::Unit
        } else if self.span_is_lit(a, b, "TIMEUNIT") || self.span_is_lit(a, b, "TEMPORALQUANTITY") {
            UnitKeyword::TimeUnit
        } else {
            return Err(ParseError::ExpectedKeyword { pos: start });
        };
        self.ws_char_ws('[')?;
        let name = self.parse_quoted_string()?;
        let ghost s = self.s();
        let ghost p0 = self.p();
        let mut conversion_factor: Option<Decimal> = None;
        let mut identifiers: Vec<Identifier> = Vec::new();
        proof {
            assert(ids_v(identifiers) =~= Seq::<IdentifierV>::empty());
        }
        loop
            invariant
                sp_unit_items(s, p0, (None, Seq::empty())) == sp_unit_items(
                    s,
                    self.p(),
                    (opt_dec(conversion_factor), ids_v(identifiers)),
                ),
                self.wf(),
                self.s() == s,
                s == old(self).s(),
                old(self).p() <= self.p(),
            decreases s.len() - self.p(),
        {
            if self.at_close() {
                self.skip_whitespace();
                break;
            }
            self.item_start()?;
            if self.peek_has_keyword() {
                let id = self.parse_identifier_node()?;
                let ghost before = ids_v(identifiers);
                identifiers.push(id);
                proof {
                    assert(ids_v(identifiers) =~= before.push(id@));
                }
            } else {
                conversion_factor = Some(self.parse_number()?);
            }
        }
        self.close()?;
        Ok(Unit { keyword, name, conversion_factor, identifiers })
    }

    /// Trailing items holding an optional unit and identifiers.
    #[verifier::loop_isolation(false)]
    pub(crate) fn parse_trailing_unit_and_identifiers(&mut self) -> (r: Result<
        (Option<Unit>, Vec<Identifier>),
        ParseError,
    >)
        requires
            old(self).wf(),
        ensures
            final(self).wf(),
            final(self).s() == old(self).s(),
            old(self).p() <= final(self).p(),
            match sp_unit_ids_items(old(self).s(), old(self).p(), (None, Seq::empty())) {
                Ok((v, q)) => r matches Ok((u, ids)) && opt_unit(u) == v.0 && ids_v(ids) == v.1
                    && final(self).p() == q,
                Err(e) => r matches Err(x) && x@ == e,
            },
    {
        let ghost s = self.s();
        let ghost p0 = self.p();
        let mut unit: Option<Unit> = None;
        let mut identifiers: Vec<Identifier> = Vec::new();
        proof {
            assert(ids_v(identifiers) =~= Seq::<IdentifierV>::empty());
        }
        loop
            invariant
                sp_unit_ids_items(s, p0, (None, Seq::empty())) == sp_unit_ids_items(
                    s,
                    self.p(),
                    (opt_unit(unit), ids_v(identifiers)),
                ),
                self.wf(),
                self.s() == s,
                s == old(self).s(),
                old(self).p() <= self.p(),
                p0 == old(self).p(),
            decreases s.len() - self.p(),
        {
            if self.at_close() {
                self.skip_whitespace();
                break;
            }
            self.item_start()?;
            if self.peek_unit_keyword() {
                unit = Some(self.parse_unit()?);
            } else if self.peek_is("ID") {
                let id = self.parse_identifier_node()?;
                let ghost before = ids_v(identifiers);
                identifiers.push(id);
                proof {
                    assert(ids_v(identifiers) =~= before.push(id@));
                }
            } else {
                self.parse_bracketed_node()?;
            }
        }
        Ok((unit, identifiers))
    }

    /// `BBOX[...]`.
    pub(crate) fn parse_bbox(&mut self) -> (r: Result<BBox, ParseError>)
        requires
            old(self).wf(),
        ensures
            final(self).wf(),
            final(self).s() == old(self).s(),
            old(self).p() <= final(self).p(),
            match sp_bbox(old(self).s(), old(self).p()) {
                Ok((v, q)) => r matches Ok(x) && x@ == v && final(self).p() == q,
                Err(e) => r matches Err(x) && x@ == e,
            },
    {
        self.open_kw("BBOX")?;
        let lower_left_latitude = self.parse_number()?;
        self.ws_char_ws(',')?;
        let lower_left_longitude = self.parse_number()?;
        self.ws_char_ws(',')?;
        let upper_right_latitude = self.parse_number()?;
        self.ws_char_ws(',')?;
        let upper_right_longitude = self.parse_number()?;
        self.close()?;
        Ok(
            BBox {
                lower_left_latitude,
                lower_left_longitude,
                upper_right_latitude,
                upper_right_longitude,
            },
        )
    }

    /// `VERTICALEXTENT[...]`.
    pub(crate) fn parse_vertical_extent(&mut self) -> (r: Result<VerticalExtent, ParseError>)
        requires
            old(self).wf(),
        ensures
            final(self).wf(),
            final(self).s() == old(self).s(),
            old(self).p() <= final(self).p(),
            match sp_vextent(old(self).s(), old(self).p()) {
                Ok((v, q)) => r matches Ok(x) && x@ == v && final(self).p() == q,
                Err(e) => r matches Err(x) && x@ == e,
            },
    {
        self.open_kw("VERTICALEXTENT")?;
        let minimum_height = self.parse_number()?;
        self.ws_char_ws(',')?;
        let maximum_height = self.parse_number()?;
        self.skip_whitespace();
        let unit = if self.peek_char() == Some(']') {
            None
        } else {
            self.ws_char_ws(',')?;
            Some(self.parse_unit()?)
        };
        self.close()?;
        Ok(VerticalExtent { minimum_height, maximum_height, unit })
    }

    /// `TIMEEXTENT[...]`.
    pub(crate) fn parse_temporal_extent(&mut self) -> (r: Result<TemporalExtent, ParseError>)
        requires
            old(self).wf(),
        ensures
            final(self).wf(),
            final(self).s() == old(self).s(),
            old(self).p() <= final(self).p(),
            match sp_textent(old(self).s(), old(self).p()) {
                Ok((v, q)) => r matches Ok(x) && x@ == v && final(self).p() == q,
                Err(e) => r matches Err(x) && x@ == e,
            },
    {
        self.open_kw("TIMEEXTENT")?;
        let start = self.parse_datetime_or_text()?;
        self.ws_char_ws(',')?;
        let end = self.parse_datetime_or_text()?;
        self.close()?;
        Ok(TemporalExtent { start, end })
    }

    /// `USAGE[...]`.
    #[verifier::loop_isolation(false)]
    pub(crate) fn parse_usage(&mut self) -> (r: Result<Usage, ParseError>)
        requires
            old(self).wf(),
        ensures
            final(self).wf(),
            final(self).s() == old(self).s(),
            old(self).p() <= final(self).p(),
            match sp_usage(old(self).s(), old(self).p()) {
                Ok((v, q)) => r matches Ok(x) && x@ == v && final(self).p() == q,
                Err(e) => r matches Err(x) && x@ == e,
            },
    {
        self.open_kw("USAGE")?;
        let scope = self.parse_keyword_quoted_string("SCOPE")?;
        let ghost s = self.s();
        let ghost p0 = self.p();
        let mut area: Option<String> = None;
        let mut bbox: Option<BBox> = None;
        let mut vertical_extent: Option<VerticalExtent> = None;
        let mut temporal_extent: Option<TemporalExtent> = None;
        loop
            invariant
                sp_usage_items(s, p0, (None, None, None, None)) == sp_usage_items(
                    s,
                    self.p(),
                    (
                        opt_text(area),
                        match bbox {
                            Some(b) => Some(b@),
                            None => None,
                        },
                        match vertical_extent {
                            Some(v) => Some(v@),
                            None => None,
                        },
                        match temporal_extent {
                            Some(t) => Some(t@),
                            None => None,
                        },
                    ),
                ),
                self.wf(),
                self.s() == s,
                s == old(self).s(),
                old(self).p() <= self.p(),
            decreases s.len() - self.p(),
        {
            if self.at_close() {
                self.skip_whitespace();
                break;
            }
            self.item_start()?;
            if self.peek_is("AREA") {
                area = Some(self.parse_keyword_quoted_string("AREA")?);
            } else if self.peek_is("BBOX") {
                bbox = Some(self.parse_bbox()?);
            } else if self.peek_is("VERTICALEXTENT") {
                vertical_extent = Some(self.parse_vertical_extent()?);
            } else if self.peek_is("TIMEEXTENT") {
                temporal_extent = Some(self.parse_temporal_extent()?);
            } else {
                self.parse_bracketed_node()?;
            }
        }
        self.close()?;
        Ok(Usage { scope, area, bbox, vertical_extent, temporal_extent })
    }

    /// `RANGEMEANING[...]`.
    pub(crate) fn parse_range_meaning(&mut self) -> (r: Result<RangeMeaning, ParseError>)
        requires
            old(self).wf(),
        ensures
            final(self).wf(),
            final(self).s() == old(self).s(),
            old(self).p() <= final(self).p(),
            match sp_range_meaning(old(self).s(), old(self).p()) {
                Ok((v, q)) => r matches Ok(x) && x == v && final(self).p() == q,
                Err(e) => r matches Err(x) && x@ == e,
            },
    {
        self.open_kw("RANGEMEANING")?;
        let start = self.pos();
        let value = self.parse_identifier()?;
        let end = self.pos();
        let rm = if self.span_is_lit(start, end, "exact") {
            RangeMeaning::Exact
        } else if self.span_is_lit(start, end, "wraparound") {
            RangeMeaning::Wraparound
        } else {
            return Err(ParseError::UnexpectedKeyword { keyword: value, pos: start });
        };
        self.close()?;
        Ok(rm)
    }
}

} // verus!
