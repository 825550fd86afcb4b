//! WKT2 coordinate systems and map projections: `CS`, `AXIS`, `MERIDIAN`,
//! `CONVERSION`, `METHOD` and `PARAMETER`.
use vstd::prelude::*;
use crate::crs::{
    Axis, CsType, Identifier, MapProjection, MapProjectionMethod, MapProjectionParameter, Meridian,
    RangeMeaning, Unit,
};
use crate::decimal::{Decimal, DecimalV, clamp, trunc};
use crate::error::{ParseError, ParseErrorV};
use crate::model::{
    AxisV, IdentifierV, MapProjectionMethodV, MapProjectionParameterV, MapProjectionV, MeridianV,
    UnitV, ids_v, opt_dec, opt_unit,
};
use crate::text::{
    Parser, SRes, sp_at_close, sp_bracketed_node, sp_close, sp_identifier, sp_item_start,
    sp_kw_number, sp_number, sp_open_among, sp_open_kw, sp_peek_kw, sp_quoted, sp_skip_ws,
    sp_ws_char_ws,
};
use crate::wkt2::parse_meta::{
    is_unit_kw, sp_id_node, sp_ids_items, sp_range_meaning, sp_unit, sp_unit_ids_items,
};

verus! {

/// The coordinate system type named by a `CS` node.
pub open spec fn cs_type_of(t: Seq<char>) -> Option<CsType> {
    if t == "affine"@ {
        Some(CsType::Affine)
    } else if t == "Cartesian"@ {
        Some(CsType::Cartesian)
    } else if t == "cylindrical"@ {
        Some(CsType::Cylindrical)
    } else if t == "ellipsoidal"@ {
        Some(CsType::Ellipsoidal)
    } else if t == "linear"@ {
        Some(CsType::Linear)
    } else if t == "parametric"@ {
        Some(CsType::Parametric)
    } else if t == "polar"@ {
        Some(CsType::Polar)
    } else if t == "spherical"@ {
        Some(CsType::Spherical)
    } else if t == "vertical"@ {
        Some(CsType::Vertical)
    } else if t == "temporalCount"@ {
        Some(CsType::TemporalCount)
    } else if t == "temporalMeasure"@ {
        Some(CsType::TemporalMeasure)
    } else if t == "ordinal"@ {
        Some(CsType::Ordinal)
    } else if t == "temporalDateTime"@ {
        Some(CsType::TemporalDateTime)
    } else {
        None
    }
}

/// A number read as a dimension: its integer part clamped to `0..=255`.
pub open spec fn dimension_of(d: DecimalV) -> u8 {
    clamp(trunc(d), 0, 255) as u8
}

/// A number read as an axis order: its integer part clamped to the range of `u32`.
pub open spec fn order_of(d: DecimalV) -> u32 {
    clamp(trunc(d), 0, u32::MAX as int) as u32
}

/// `CS[type, dimension {, ID}]`.
pub open spec fn sp_cs_header(s: Seq<char>, p: int) -> SRes<(CsType, u8, Seq<IdentifierV>)> {
    match sp_open_kw(s, p, "CS"@) {
        Err(e) => Err(e),
        Ok(q) => match sp_identifier(s, q) {
            Err(e) => Err(e),
            Ok((t, q1)) => match cs_type_of(t) {
                None => Err(ParseErrorV::UnexpectedKeyword { keyword: t, pos: q1 - t.len() }),
                Some(ct) => match sp_ws_char_ws(s, q1, ',') {
                    Err(e) => Err(e),
                    Ok(q2) => match sp_number(s, q2) {
                        Err(e) => Err(e),
                        Ok((d, q3)) => match sp_ids_items(s, q3, Seq::empty()) {
                            Err(e) => Err(e),
                            Ok((ids, q4)) => match sp_close(s, q4) {
                                Err(e) => Err(e),
                                Ok(q5) => Ok(((ct, dimension_of(d), ids), q5)),
                            },
                        },
                    },
                },
            },
        },
    }
}

/// `MERIDIAN[value, unit]`.
pub open spec fn sp_meridian(s: Seq<char>, p: int) -> SRes<MeridianV> {
    match sp_open_kw(s, p, "MERIDIAN"@) {
        Err(e) => Err(e),
        Ok(q) => match sp_number(s, q) {
            Err(e) => Err(e),
            Ok((v, q1)) => match sp_ws_char_ws(s, q1, ',') {
                Err(e) => Err(e),
                Ok(q2) => match sp_unit(s, q2) {
                    Err(e) => Err(e),
                    Ok((u, q3)) => match sp_close(s, q3) {
                        Err(e) => Err(e),
                        Ok(q4) => Ok((MeridianV { value: v, unit: u }, q4)),
                    },
                },
            },
        },
    }
}

/// One trailing item of an axis, starting at `q` (just after its comma),
/// folded into the axis read so far.
pub open spec fn sp_axis_step(s: Seq<char>, q: int, st: AxisV) -> SRes<AxisV> {
    let kw = sp_peek_kw(s, q);
    if kw == "MERIDIAN"@ {
        match sp_meridian(s, q) {
            Err(e) => Err(e),
            Ok((m, q2)) => Ok((AxisV { meridian: Some(m), ..st }, q2)),
        }
    } else if kw == "BEARING"@ {
        match sp_kw_number(s, q, "BEARING"@) {
            Err(e) => Err(e),
            Ok((b, q2)) => Ok((AxisV { bearing: Some(b), ..st }, q2)),
        }
    } else if kw == "ORDER"@ {
        match sp_kw_number(s, q, "ORDER"@) {
            Err(e) => Err(e),
            Ok((o, q2)) => Ok((AxisV { order: Some(order_of(o)), ..st }, q2)),
        }
    } else if is_unit_kw(kw) {
        match sp_unit(s, q) {
            Err(e) => Err(e),
            Ok((u, q2)) => Ok((AxisV { unit: Some(u), ..st }, q2)),
        }
    } else if kw == "AXISMINVALUE"@ {
        match sp_kw_number(s, q, "AXISMINVALUE"@) {
            Err(e) => Err(e),
            Ok((v, q2)) => Ok((AxisV { axis_min_value: Some(v), ..st }, q2)),
        }
    } else if kw == "AXISMAXVALUE"@ {
        match sp_kw_number(s, q, "AXISMAXVALUE"@) {
            Err(e) => Err(e),
            Ok((v, q2)) => Ok((AxisV { axis_max_value: Some(v), ..st }, q2)),
        }
    } else if kw == "RANGEMEANING"@ {
        match sp_range_meaning(s, q) {
            Err(e) => Err(e),
            Ok((rm, q2)) => Ok((AxisV { range_meaning: Some(rm), ..st }, q2)),
        }
    } else if kw == "ID"@ {
        match sp_id_node(s, q) {
            Err(e) => Err(e),
            Ok((id, q2)) => Ok((AxisV { identifiers: st.identifiers.push(id), ..st }, q2)),
        }
    } else {
        match sp_bracketed_node(s, q) {
            Err(e) => Err(e),
            Ok((_, q2)) => Ok((st, q2)),
        }
    }
}

/// The trailing items of an axis, folded into the axis read so far.
pub open spec fn sp_axis_items(s: Seq<char>, p: int, st: AxisV) -> SRes<AxisV>
    decreases s.len() - p,
{
    if p < 0 || p > s.len() {
        Err(ParseErrorV::UnexpectedEnd)
    } else if sp_at_close(s, p) {
        Ok((st, sp_skip_ws(s, p)))
    } else {
        match sp_item_start(s, p) {
            Err(e) => Err(e),
            Ok(q) => match sp_axis_step(s, q, st) {
                Err(e) => Err(e),
                Ok((st2, q2)) => if p < q2 <= s.len() {
                    sp_axis_items(s, q2, st2)
                } else {
                    Err(ParseErrorV::UnexpectedEnd)
                },
            },
        }
    }
}

/// An axis with a name and a direction and nothing else yet.
pub open spec fn bare_axis(name: Seq<char>, direction: Seq<char>) -> AxisV {
    AxisV {
        name_abbrev: name,
        direction,
        meridian: None,
        bearing: None,
        order: None,
        unit: None,
        axis_min_value: None,
        axis_max_value: None,
        range_meaning: None,
        identifiers: Seq::empty(),
    }
}

/// `AXIS["name (abbrev)", direction {, ...}]`.
pub open spec fn sp_axis(s: Seq<char>, p: int) -> SRes<AxisV> {
    match sp_open_kw(s, p, "AXIS"@) {
        Err(e) => Err(e),
        Ok(q) => match sp_quoted(s, q) {
            Err(e) => Err(e),
            Ok((name, q1)) => match sp_ws_char_ws(s, q1, ',') {
                Err(e) => Err(e),
                Ok(q2) => match sp_identifier(s, q2) {
                    Err(e) => Err(e),
                    Ok((dir, q3)) => match sp_axis_items(s, q3, bare_axis(name, dir)) {
                        Err(e) => Err(e),
                        Ok((a, q4)) => match sp_close(s, q4) {
                            Err(e) => Err(e),
                            Ok(q5) => Ok((a, q5)),
                        },
                    },
                },
            },
        },
    }
}

/// `METHOD|PROJECTION["name" {, ID}]`.
pub open spec fn sp_method(s: Seq<char>, p: int) -> SRes<MapProjectionMethodV> {
    match sp_open_among(s, p, "METHOD"@, "PROJECTION"@, "PROJECTION"@) {
        Err(e) => Err(e),
        Ok((_, q)) => match sp_quoted(s, q) {
            Err(e) => Err(e),
            Ok((name, q1)) => match sp_ids_items(s, q1, Seq::empty()) {
                Err(e) => Err(e),
                Ok((ids, q2)) => match sp_close(s, q2) {
                    Err(e) => Err(e),
                    Ok(q3) => Ok((MapProjectionMethodV { name, identifiers: ids }, q3)),
                },
            },
        },
    }
}

/// `PARAMETER["name", value {, unit} {, ID}]`.
pub open spec fn sp_parameter(s: Seq<char>, p: int) -> SRes<MapProjectionParameterV> {
    match sp_open_kw(s, p, "PARAMETER"@) {
        Err(e) => Err(e),
        Ok(q) => match sp_quoted(s, q) {
            Err(e) => Err(e),
            Ok((name, q1)) => match sp_ws_char_ws(s, q1, ',') {
                Err(e) => Err(e),
                Ok(q2) => match sp_number(s, q2) {
                    Err(e) => Err(e),
                    Ok((v, q3)) => match sp_unit_ids_items(s, q3, (None, Seq::empty())) {
                        Err(e) => Err(e),
                        Ok((rest, q4)) => match sp_close(s, q4) {
                            Err(e) => Err(e),
                            Ok(q5) => Ok(
                                (
                                    MapProjectionParameterV {
                                        name,
                                        value: v,
                                        unit: rest.0,
                                        identifiers: rest.1,
                                    },
                                    q5,
                                ),
                            ),
                        },
                    },
                },
            },
        },
    }
}

/// The parameters and identifiers of a conversion.
pub type ConversionRest = (Seq<MapProjectionParameterV>, Seq<IdentifierV>);

/// The trailing items of a conversion.
pub open spec fn sp_conversion_items(s: Seq<char>, p: int, st: ConversionRest) -> SRes<
    ConversionRest,
>
    decreases s.len() - p,
{
    if p < 0 || p > s.len() {
        Err(ParseErrorV::UnexpectedEnd)
    } else if sp_at_close(s, p) {
        Ok((st, sp_skip_ws(s, p)))
    } else {
        match sp_item_start(s, p) {
            Err(e) => Err(e),
            Ok(q) => {
                let kw = sp_peek_kw(s, q);
                let step: SRes<ConversionRest> = if kw == "PARAMETER"@ {
                    match sp_parameter(s, q) {
                        Err(e) => Err(e),
                        Ok((x, q2)) => Ok(((st.0.push(x), st.1), q2)),
                    }
                } else if kw == "ID"@ {
                    match sp_id_node(s, q) {
                        Err(e) => Err(e),
                        Ok((id, q2)) => Ok(((st.0, st.1.push(id)), q2)),
                    }
                } else {
                    match sp_bracketed_node(s, q) {
                        Err(e) => Err(e),
                        Ok((_, q2)) => Ok((st, q2)),
                    }
                };
                match step {
                    Err(e) => Err(e),
                    Ok((st2, q2)) => if p < q2 <= s.len() {
                        sp_conversion_items(s, q2, st2)
                    } else {
                        Err(ParseErrorV::UnexpectedEnd)
                    },
                }
            },
        }
    }
}

/// `lit["name", METHOD[...] {, PARAMETER} {, ID}]`, where `lit` is
/// `CONVERSION` or `DERIVINGCONVERSION`.
pub open spec fn sp_conversion(s: Seq<char>, p: int, lit: Seq<char>) -> SRes<MapProjectionV> {
    match sp_open_kw(s, p, lit) {
        Err(e) => Err(e),
        Ok(q) => match sp_quoted(s, q) {
            Err(e) => Err(e),
            Ok((name, q1)) => match sp_ws_char_ws(s, q1, ',') {
                Err(e) => Err(e),
                Ok(q2) => match sp_method(s, q2) {
                    Err(e) => Err(e),
                    Ok((m, q3)) => match sp_conversion_items(s, q3, (Seq::empty(), Seq::empty())) {
                        Err(e) => Err(e),
                        Ok((rest, q4)) => match sp_close(s, q4) {
                            Err(e) => Err(e),
                            Ok(q5) => Ok(
                                (
                                    MapProjectionV {
                                        name,
                                        method: m,
                                        parameters: rest.0,
                                        identifiers: rest.1,
                                    },
                                    q5,
                                ),
                            ),
                        },
                    },
                },
            },
        },
    }
}

impl Parser {
    /// `CS[type, dimension {, ID}]`.
    pub(crate) fn parse_cs_header(&mut self) -> (r: Result<(CsType, u8, Vec<Identifier>), ParseError>)
        requires
            old(self).wf(),
        ensures
            final(self).wf(),
            final(self).s() == old(self).s(),
            old(self).p() <= final(self).p(),
            match sp_cs_header(old(self).s(), old(self).p()) {
                Ok((v, q)) => r matches Ok((ct, d, ids)) && ct == v.0 && d == v.1 && ids_v(ids)
                    == v.2 && final(self).p() == q,
                Err(e) => r matches Err(x) && x@ == e,
            },
    {
        self.open_kw("CS")?;
        let start = self.pos();
        let t = self.parse_identifier()?;
        let end = self.pos();
        let ct = if self.span_is_lit(start, end, "affine") {
            CsType::Affine
        } else if self.span_is_lit(start, end, "Cartesian") {
            CsType::Cartesian
        } else if self.span_is_lit(start, end, "cylindrical") {
            CsType::Cylindrical
        } else if self.span_is_lit(start, end, "ellipsoidal") {
            CsType::Ellipsoidal
        } else if self.span_is_lit(start, end, "linear") {
            CsType::Linear
        } else if self.span_is_lit(start, end, "parametric") {
            CsType::Parametric
        } else if self.span_is_lit(start, end, "polar") {
            CsType::Polar
        } else if self.span_is_lit(start, end, "spherical") {
            CsType::Spherical
        } else if self.span_is_lit(start, end, "vertical") {
            CsType::Vertical
        } else if self.span_is_lit(start, end, "temporalCount") {
            CsType::TemporalCount
        } else if self.span_is_lit(start, end, "temporalMeasure") {
            CsType::TemporalMeasure
        } else if self.span_is_lit(start, end, "ordinal") {
            CsType::Ordinal
        } else if self.span_is_lit(start, end, "temporalDateTime") {
            CsType::TemporalDateTime
        } else {
            return Err(ParseError::UnexpectedKeyword { keyword: t, pos: start });
        };
        self.ws_char_ws(',')?;
        let d = self.parse_number()?;
        let dimension = d.to_u8_saturating();
        let identifiers = self.trailing_identifiers()?;
        self.close()?;
        Ok((ct, dimension, identifiers))
    }

    /// `MERIDIAN[value, unit]`.
    pub(crate) fn parse_meridian(&mut self) -> (r: Result<Meridian, ParseError>)
        requires
            old(self).wf(),
        ensures
            final(self).wf(),
            final(self).s() == old(self).s(),
            old(self).p() <= final(self).p(),
            match sp_meridian(old(self).s(), old(self).p()) {
                Ok((v, q)) => r matches Ok(x) && x@ == v && final(self).p() == q,
                Err(e) => r matches Err(x) && x@ == e,
            },
    {
        self.open_kw("MERIDIAN")?;
        let value = self.parse_number()?;
        self.ws_char_ws(',')?;
        let unit = self.parse_unit()?;
        self.close()?;
        Ok(Meridian { value, unit })
    }

    /// One trailing item of an axis, folded into `axis`.
    fn parse_axis_item(&mut self, axis: &mut Axis) -> (r: Result<(), ParseError>)
        requires
            old(self).wf(),
        ensures
            final(self).wf(),
            final(self).s() == old(self).s(),
            old(self).p() <= final(self).p(),
            match sp_axis_step(old(self).s(), old(self).p(), old(axis)@) {
                Ok((v, q)) => r is Ok && final(axis)@ == v && final(self).p() == q,
                Err(e) => r matches Err(x) && x@ == e,
            },
    {
        if self.peek_is("MERIDIAN") {
            axis.meridian = Some(self.parse_meridian()?);
        } else if self.peek_is("BEARING") {
            axis.bearing = Some(self.parse_keyword_number("BEARING")?);
        } else if self.peek_is("ORDER") {
            let o = self.parse_keyword_number("ORDER")?;
            axis.order = Some(o.to_u32_saturating());
        } else if self.peek_unit_keyword() {
            axis.unit = Some(self.parse_unit()?);
        } else if self.peek_is("AXISMINVALUE") {
            axis.axis_min_value = Some(self.parse_keyword_number("AXISMINVALUE")?);
        } else if self.peek_is("AXISMAXVALUE") {
            axis.axis_max_value = Some(self.parse_keyword_number("AXISMAXVALUE")?);
        } else if self.peek_is("RANGEMEANING") {
            axis.range_meaning = Some(self.parse_range_meaning()?);
        } else if self.peek_is("ID") {
            let id = self.parse_identifier_node()?;
            let ghost before = axis@;
            axis.identifiers.push(id);
            proof {
                assert(ids_v(axis.identifiers) =~= before.identifiers.push(id@));
            }
        } else {
            self.parse_bracketed_node()?;
        }
        Ok(())
    }

    /// `AXIS["name (abbrev)", direction {, ...}]`.
    #[verifier::loop_isolation(false)]
    pub(crate) fn parse_axis(&mut self) -> (r: Result<Axis, ParseError>)
        requires
            old(self).wf(),
        ensures
            final(self).wf(),
            final(self).s() == old(self).s(),
            old(self).p() <= final(self).p(),
            match sp_axis(old(self).s(), old(self).p()) {
                Ok((v, q)) => r matches Ok(x) && x@ == v && final(self).p() == q,
                Err(e) => r matches Err(x) && x@ == e,
            },
    {
        self.open_kw("AXIS")?;
        let name_abbrev = self.parse_quoted_string()?;
        self.ws_char_ws(',')?;
        let direction = self.parse_identifier()?;
        let ghost s = self.s();
        let ghost p0 = self.p();
        let mut axis = Axis {
            name_abbrev,
            direction,
            meridian: None,
            bearing: None,
            order: None,
            unit: None,
            axis_min_value: None,
            axis_max_value: None,
            range_meaning: None,
            identifiers: Vec::new(),
        };
        proof {
            assert(ids_v(axis.identifiers) =~= Seq::<IdentifierV>::empty());
            assert(axis@ == bare_axis(axis.name_abbrev@, axis.direction@));
        }
        let ghost init = axis@;
        loop
            invariant
                sp_axis_items(s, p0, init) == sp_axis_items(s, self.p(), axis@),
                self.wf(),
                self.s() == s,
                s == old(self).s(),
                old(self).p() <= self.p(),
            decreases s.len() - self.p(),
        {
            if self.at_close() {
                self.skip_whitespace();
                break;
            }
            self.item_start()?;
            self.parse_axis_item(&mut axis)?;
        }
        self.close()?;
        Ok(axis)
    }

    /// `METHOD|PROJECTION["name" {, ID}]`.
    pub(crate) fn parse_map_projection_method(&mut self) -> (r: Result<
        MapProjectionMethod,
        ParseError,
    >)
        requires
            old(self).wf(),
        ensures
            final(self).wf(),
            final(self).s() == old(self).s(),
            old(self).p() <= final(self).p(),
            match sp_method(old(self).s(), old(self).p()) {
                Ok((v, q)) => r matches Ok(x) && x@ == v && final(self).p() == q,
                Err(e) => r matches Err(x) && x@ == e,
            },
    {
        self.open_among("METHOD", "PROJECTION", "PROJECTION")?;
        let name = self.parse_quoted_string()?;
        let identifiers = self.trailing_identifiers()?;
        self.close()?;
        Ok(MapProjectionMethod { name, identifiers })
    }

    /// `PARAMETER["name", value {, unit} {, ID}]`.
    pub(crate) fn parse_map_projection_parameter(&mut self) -> (r: Result<
        MapProjectionParameter,
        ParseError,
    >)
        requires
            old(self).wf(),
        ensures
            final(self).wf(),
            final(self).s() == old(self).s(),
            old(self).p() <= final(self).p(),
            match sp_parameter(old(self).s(), old(self).p()) {
                Ok((v, q)) => r matches Ok(x) && x@ == v && final(self).p() == q,
                Err(e) => r matches Err(x) && x@ == e,
            },
    {
        self.open_kw("PARAMETER")?;
        let name = self.parse_quoted_string()?;
        self.ws_char_ws(',')?;
        let value = self.parse_number()?;
        let (unit, identifiers) = self.parse_trailing_unit_and_identifiers()?;
        self.close()?;
        Ok(MapProjectionParameter { name, value, unit, identifiers })
    }

    /// `CONVERSION[...]` or `DERIVINGCONVERSION[...]`, as `lit` says.
    #[verifier::loop_isolation(false)]
    pub(crate) fn parse_conversion(&mut self, lit: &str) -> (r: Result<MapProjection, ParseError>)
        requires
            old(self).wf(),
        ensures
            final(self).wf(),
            final(self).s() == old(self).s(),
            old(self).p() <= final(self).p(),
            match sp_conversion(old(self).s(), old(self).p(), lit@) {
                Ok((v, q)) => r matches Ok(x) && x@ == v && final(self).p() == q,
                Err(e) => r matches Err(x) && x@ == e,
            },
    {
        self.open_kw(lit)?;
        let name = self.parse_quoted_string()?;
        self.ws_char_ws(',')?;
        let method = self.parse_map_projection_method()?;
        let ghost s = self.s();
        let ghost p0 = self.p();
        let mut parameters: Vec<MapProjectionParameter> = Vec::new();
        let mut identifiers: Vec<Identifier> = Vec::new();
        proof {
            assert(ids_v(identifiers) =~= Seq::<IdentifierV>::empty());
            assert(parameters@.map_values(|x: MapProjectionParameter| x@) =~= Seq::<
                MapProjectionParameterV,
            >::empty());
        }
        loop
            invariant
                sp_conversion_items(s, p0, (Seq::empty(), Seq::empty())) == sp_conversion_items(
                    s,
                    self.p(),
                    (parameters@.map_values(|x: MapProjectionParameter| x@), ids_v(identifiers)),
                ),
                self.wf(),
                self.s() == s,
                s == old(self).s(),
                old(self).p() <= self.p(),
            decreases s.len() - self.p(),
        {
            if self.at_close() {
                self.skip_whitespace();
                break;
            }
            self.item_start()?;
            if self.peek_is("PARAMETER") {
                let x = self.parse_map_projection_parameter()?;
                let ghost before = parameters@.map_values(|x: MapProjectionParameter| x@);
                parameters.push(x);
                proof {
                    assert(parameters@.map_values(|x: MapProjectionParameter| x@) =~= before.push(
                        x@,
                    ));
                }
            } else if self.peek_is("ID") {
                let id = self.parse_identifier_node()?;
                let ghost before = ids_v(identifiers);
                identifiers.push(id);
                proof {
                    assert(ids_v(identifiers) =~= before.push(id@));
                }
            } else {
                self.parse_bracketed_node()?;
            }
        }
        self.close()?;
        Ok(MapProjection { name, method, parameters, identifiers })
    }
}

} // verus!
