//! WKT2 CRS nodes: `PROJCRS`, `GEOGCRS`, `GEODCRS`, `VERTCRS`, `COMPOUNDCRS`
//! and the base CRSs they refer to.
use vstd::prelude::*;
use crate::crs::{
    Axis, BaseGeodeticCrs, BaseGeodeticCrsKeyword, BaseVertCrs, CompoundCrs, CoordinateSystem,
    Crs, Datum, DynamicCrs, GeodCrs, GeodCrsKeyword, GeogCrs, GeogCrsKeyword, GeoidModel,
    Identifier, ProjectedCrs, SingleCrs, Unit, Usage, VertCrs, VertCrsKeyword, VertCrsSource,
    VerticalDatum,
};
use crate::error::{ParseError, ParseErrorV};
use crate::model::{
    AxisV, BaseGeodeticCrsV, BaseVertCrsV, CompoundCrsV, CoordinateSystemV, CrsV, DatumEnsembleV,
    DatumV, DynamicCrsV, GeodCrsV, GeodeticReferenceFrameV, GeogCrsV, GeoidModelV, IdentifierV,
    PrimeMeridianV, ProjectedCrsV, SingleCrsV, UnitV, UsageV, VertCrsSourceV, VertCrsV,
    VerticalDatumV, ids_v, opt_dynamic, opt_text, opt_unit, usages_v,
};
use crate::text::{
    push_str, Parser, SRes, sp_at_close, sp_bracketed_node, sp_close, sp_item_start, sp_keyword,
    sp_kw_quoted, sp_open_kw, sp_peek_kw, sp_quoted, sp_skip_ws, sp_ws_char_ws,
};
use crate::wkt2::parse_cs::{sp_axis, sp_conversion, sp_cs_header};
use crate::wkt2::parse_datum::{
    sp_dynamic, sp_ensemble, sp_geodetic_frame, sp_prime_meridian, sp_vertical_frame,
};
use crate::wkt2::parse_meta::{is_unit_kw, sp_id_node, sp_ids_items, sp_unit, sp_usage};

verus! {

/// Whether a keyword names a prime meridian node.
pub open spec fn is_pm_kw(k: Seq<char>) -> bool {
    k == "PRIMEM"@ || k == "PRIMEMERIDIAN"@
}

/// The datum with its prime meridian set to `pm`.
pub open spec fn with_pm(d: DatumV, pm: PrimeMeridianV) -> DatumV {
    match d {
        DatumV::ReferenceFrame(rf) => DatumV::ReferenceFrame(
            GeodeticReferenceFrameV { prime_meridian: Some(pm), ..rf },
        ),
        DatumV::Ensemble(e) => DatumV::Ensemble(DatumEnsembleV { prime_meridian: Some(pm), ..e }),
    }
}

/// An optional `DYNAMIC[...]` node followed by its comma.
pub open spec fn sp_dynamic_opt(s: Seq<char>, q: int) -> SRes<Option<DynamicCrsV>> {
    if sp_peek_kw(s, q) == "DYNAMIC"@ {
        match sp_dynamic(s, q) {
            Err(e) => Err(e),
            Ok((d, q1)) => match sp_ws_char_ws(s, q1, ',') {
                Err(e) => Err(e),
                Ok(q2) => Ok((Some(d), q2)),
            },
        }
    } else {
        Ok((None, q))
    }
}

/// A geodetic datum: an `ENSEMBLE[...]`, or else a reference frame.
pub open spec fn sp_geo_datum(s: Seq<char>, q: int) -> SRes<DatumV> {
    if sp_peek_kw(s, q) == "ENSEMBLE"@ {
        match sp_ensemble(s, q) {
            Err(e) => Err(e),
            Ok((e, q1)) => Ok((DatumV::Ensemble(e), q1)),
        }
    } else {
        match sp_geodetic_frame(s, q) {
            Err(e) => Err(e),
            Ok((rf, q1)) => Ok((DatumV::ReferenceFrame(rf), q1)),
        }
    }
}

/// A vertical datum: an `ENSEMBLE[...]`, or else a vertical reference frame.
pub open spec fn sp_vert_datum(s: Seq<char>, q: int) -> SRes<VerticalDatumV> {
    if sp_peek_kw(s, q) == "ENSEMBLE"@ {
        match sp_ensemble(s, q) {
            Err(e) => Err(e),
            Ok((e, q1)) => Ok((VerticalDatumV::Ensemble(e), q1)),
        }
    } else {
        match sp_vertical_frame(s, q) {
            Err(e) => Err(e),
            Ok((rf, q1)) => Ok((VerticalDatumV::ReferenceFrame(rf), q1)),
        }
    }
}

/// The datum part of a geographic or geodetic CRS, from just after the comma
/// that follows its name up to just after the comma before its `CS`: an
/// optional dynamic node, the datum, and an optional prime meridian.
pub open spec fn sp_geodetic_body(s: Seq<char>, q: int) -> SRes<(Option<DynamicCrsV>, DatumV)> {
    match sp_dynamic_opt(s, q) {
        Err(e) => Err(e),
        Ok((dy, q1)) => match sp_geo_datum(s, q1) {
            Err(e) => Err(e),
            Ok((dt, q2)) => match sp_ws_char_ws(s, q2, ',') {
                Err(e) => Err(e),
                Ok(q3) => if is_pm_kw(sp_peek_kw(s, q3)) {
                    match sp_prime_meridian(s, q3) {
                        Err(e) => Err(e),
                        Ok((pm, q4)) => match sp_ws_char_ws(s, q4, ',') {
                            Err(e) => Err(e),
                            Ok(q5) => Ok(((dy, with_pm(dt, pm)), q5)),
                        },
                    }
                } else {
                    Ok(((dy, dt), q3))
                },
            },
        },
    }
}

/// What follows the `CS[...]` node of a CRS.
pub struct CrsTailV {
    pub axes: Seq<AxisV>,
    pub cs_unit: Option<UnitV>,
    pub geoid_models: Seq<GeoidModelV>,
    pub usages: Seq<UsageV>,
    pub identifiers: Seq<IdentifierV>,
    pub remark: Option<Seq<char>>,
}

pub open spec fn empty_tail() -> CrsTailV {
    CrsTailV {
        axes: Seq::empty(),
        cs_unit: None,
        geoid_models: Seq::empty(),
        usages: Seq::empty(),
        identifiers: Seq::empty(),
        remark: None,
    }
}

/// `GEOIDMODEL["name" {, ID}]`.
pub open spec fn sp_geoid_model(s: Seq<char>, p: int) -> SRes<GeoidModelV> {
    match sp_open_kw(s, p, "GEOIDMODEL"@) {
        Err(e) => Err(e),
        Ok(q) => match sp_quoted(s, q) {
            Err(e) => Err(e),
            Ok((name, q1)) => match sp_ids_items(s, q1, Seq::empty()) {
                Err(e) => Err(e),
                Ok((ids, q2)) => match sp_close(s, q2) {
                    Err(e) => Err(e),
                    Ok(q3) => Ok((GeoidModelV { name, identifiers: ids }, q3)),
                },
            },
        },
    }
}

/// One trailing item of a CRS, starting at `q` (just after its comma).
/// Geoid models are read only when `vert` holds.
pub open spec fn sp_crs_step(s: Seq<char>, q: int, vert: bool, st: CrsTailV) -> SRes<CrsTailV> {
    let kw = sp_peek_kw(s, q);
    if kw == "AXIS"@ {
        match sp_axis(s, q) {
            Err(e) => Err(e),
            Ok((a, q2)) => Ok((CrsTailV { axes: st.axes.push(a), ..st }, q2)),
        }
    } else if is_unit_kw(kw) {
        match sp_unit(s, q) {
            Err(e) => Err(e),
            Ok((u, q2)) => Ok((CrsTailV { cs_unit: Some(u), ..st }, q2)),
        }
    } else if vert && kw == "GEOIDMODEL"@ {
        match sp_geoid_model(s, q) {
            Err(e) => Err(e),
            Ok((g, q2)) => Ok((CrsTailV { geoid_models: st.geoid_models.push(g), ..st }, q2)),
        }
    } else if kw == "USAGE"@ {
        match sp_usage(s, q) {
            Err(e) => Err(e),
            Ok((u, q2)) => Ok((CrsTailV { usages: st.usages.push(u), ..st }, q2)),
        }
    } else if kw == "ID"@ {
        match sp_id_node(s, q) {
            Err(e) => Err(e),
            Ok((id, q2)) => Ok((CrsTailV { identifiers: st.identifiers.push(id), ..st }, q2)),
        }
    } else if kw == "REMARK"@ {
        match sp_kw_quoted(s, q, "REMARK"@) {
            Err(e) => Err(e),
            Ok((r, q2)) => Ok((CrsTailV { remark: Some(r), ..st }, q2)),
        }
    } else {
        match sp_bracketed_node(s, q) {
            Err(e) => Err(e),
            Ok((_, q2)) => Ok((st, q2)),
        }
    }
}

/// The trailing items of a CRS after its `CS[...]` node.
pub open spec fn sp_crs_items(s: Seq<char>, p: int, vert: bool, st: CrsTailV) -> SRes<CrsTailV>
    decreases s.len() - p,
{
    if p < 0 || p > s.len() {
        Err(ParseErrorV::UnexpectedEnd)
    } else if sp_at_close(s, p) {
        Ok((st, sp_skip_ws(s, p)))
    } else {
        match sp_item_start(s, p) {
            Err(e) => Err(e),
            Ok(q) => match sp_crs_step(s, q, vert, st) {
                Err(e) => Err(e),
                Ok((st2, q2)) => if p < q2 <= s.len() {
                    sp_crs_items(s, q2, vert, st2)
                } else {
                    Err(ParseErrorV::UnexpectedEnd)
                },
            },
        }
    }
}

/// The coordinate system made of a `CS` header and the axes and unit after it.
pub open spec fn cs_of(h: (crate::crs::CsType, u8, Seq<IdentifierV>), t: CrsTailV) -> CoordinateSystemV {
    CoordinateSystemV {
        cs_type: h.0,
        dimension: h.1,
        identifiers: h.2,
        axes: t.axes,
        cs_unit: t.cs_unit,
    }
}

/// `CS[...]` and the trailing items of a CRS, up to and including its `]`.
pub open spec fn sp_cs_and_tail(s: Seq<char>, q: int, vert: bool) -> SRes<(CoordinateSystemV, CrsTailV)> {
    match sp_cs_header(s, q) {
        Err(e) => Err(e),
        Ok((h, q1)) => match sp_crs_items(s, q1, vert, empty_tail()) {
            Err(e) => Err(e),
            Ok((t, q2)) => match sp_close(s, q2) {
                Err(e) => Err(e),
                Ok(q3) => Ok(((cs_of(h, t), t), q3)),
            },
        },
    }
}

/// The state of the trailing items of a base geodetic CRS: the datum (which
/// a prime meridian updates), the ellipsoidal unit and the identifiers.
pub type BaseRest = (DatumV, Option<UnitV>, Seq<IdentifierV>);

pub open spec fn sp_base_step(s: Seq<char>, q: int, st: BaseRest) -> SRes<BaseRest> {
    let kw = sp_peek_kw(s, q);
    if is_pm_kw(kw) {
        match sp_prime_meridian(s, q) {
            Err(e) => Err(e),
            Ok((pm, q2)) => Ok(((with_pm(st.0, pm), st.1, st.2), q2)),
        }
    } else if is_unit_kw(kw) {
        match sp_unit(s, q) {
            Err(e) => Err(e),
            Ok((u, q2)) => Ok(((st.0, Some(u), st.2), q2)),
        }
    } else if kw == "ID"@ {
        match sp_id_node(s, q) {
            Err(e) => Err(e),
            Ok((id, q2)) => Ok(((st.0, st.1, st.2.push(id)), q2)),
        }
    } else {
        match sp_bracketed_node(s, q) {
            Err(e) => Err(e),
            Ok((_, q2)) => Ok((st, q2)),
        }
    }
}

pub open spec fn sp_base_items(s: Seq<char>, p: int, st: BaseRest) -> SRes<BaseRest>
    decreases s.len() - p,
{
    if p < 0 || p > s.len() {
        Err(ParseErrorV::UnexpectedEnd)
    } else if sp_at_close(s, p) {
        Ok((st, sp_skip_ws(s, p)))
    } else {
        match sp_item_start(s, p) {
            Err(e) => Err(e),
            Ok(q) => match sp_base_step(s, q, st) {
                Err(e) => Err(e),
                Ok((st2, q2)) => if p < q2 <= s.len() {
                    sp_base_items(s, q2, st2)
                } else {
                    Err(ParseErrorV::UnexpectedEnd)
                },
            },
        }
    }
}

/// `BASEGEODCRS|BASEGEOGCRS["name", {DYNAMIC,} datum {, ...}]`.
pub open spec fn sp_base_geodetic(s: Seq<char>, p: int) -> SRes<BaseGeodeticCrsV> {
    match sp_keyword(s, p) {
        Err(e) => Err(e),
        Ok((k, q1)) => if k == "BASEGEODCRS"@ || k == "BASEGEOGCRS"@ {
            match sp_ws_char_ws(s, q1, '[') {
                Err(e) => Err(e),
                Ok(q2) => match sp_quoted(s, q2) {
                    Err(e) => Err(e),
                    Ok((name, q3)) => match sp_ws_char_ws(s, q3, ',') {
                        Err(e) => Err(e),
                        Ok(q4) => match sp_dynamic_opt(s, q4) {
                            Err(e) => Err(e),
                            Ok((dy, q5)) => match sp_geo_datum(s, q5) {
                                Err(e) => Err(e),
                                Ok((dt, q6)) => match sp_base_items(s, q6, (dt, None, Seq::empty())) {
                                    Err(e) => Err(e),
                                    Ok((st, q7)) => match sp_close(s, q7) {
                                        Err(e) => Err(e),
                                        Ok(q8) => Ok(
                                            (
                                                BaseGeodeticCrsV {
                                                    keyword: if k == "BASEGEODCRS"@ {
                                                        BaseGeodeticCrsKeyword::BaseGeodCrs
                                                    } else {
                                                        BaseGeodeticCrsKeyword::BaseGeogCrs
                                                    },
                                                    name,
                                                    dynamic: dy,
                                                    datum: st.0,
                                                    ellipsoidal_cs_unit: st.1,
                                                    identifiers: st.2,
                                                },
                                                q8,
                                            ),
                                        ),
                                    },
                                },
                            },
                        },
                    },
                },
            }
        } else {
            Err(ParseErrorV::ExpectedKeyword { pos: p })
        },
    }
}

/// `PROJCRS[...]`; `PROJECTEDCRS` is recognised and refused.
#[verifier::opaque]
pub open spec fn sp_projected(s: Seq<char>, p: int) -> SRes<ProjectedCrsV> {
    let q0 = sp_skip_ws(s, p);
    match sp_keyword(s, q0) {
        Err(e) => Err(e),
        Ok((k, q1)) => if k == "PROJCRS"@ {
            match sp_ws_char_ws(s, q1, '[') {
                Err(e) => Err(e),
                Ok(q2) => match sp_quoted(s, q2) {
                    Err(e) => Err(e),
                    Ok((name, q3)) => match sp_ws_char_ws(s, q3, ',') {
                        Err(e) => Err(e),
                        Ok(q4) => match sp_base_geodetic(s, q4) {
                            Err(e) => Err(e),
                            Ok((b, q5)) => match sp_ws_char_ws(s, q5, ',') {
                                Err(e) => Err(e),
                                Ok(q6) => match sp_conversion(s, q6, "CONVERSION"@) {
                                    Err(e) => Err(e),
                                    Ok((mp, q7)) => match sp_ws_char_ws(s, q7, ',') {
                                        Err(e) => Err(e),
                                        Ok(q8) => match sp_cs_and_tail(s, q8, false) {
                                            Err(e) => Err(e),
                                            Ok(((cs, t), q9)) => Ok(
                                                (
                                                    ProjectedCrsV {
                                                        name,
                                                        base_geodetic_crs: b,
                                                        map_projection: mp,
                                                        coordinate_system: cs,
                                                        usages: t.usages,
                                                        identifiers: t.identifiers,
                                                        remark: t.remark,
                                                    },
                                                    q9,
                                                ),
                                            ),
                                        },
                                    },
                                },
                            },
                        },
                    },
                },
            }
        } else if k == "PROJECTEDCRS"@ {
            Err(ParseErrorV::UnexpectedKeyword { keyword: k, pos: q0 })
        } else {
            Err(ParseErrorV::ExpectedKeyword { pos: q0 })
        },
    }
}

/// The parts of a geographic or geodetic CRS, from its name to its `]`.
pub struct GeoPartsV {
    pub name: Seq<char>,
    pub dynamic: Option<DynamicCrsV>,
    pub datum: DatumV,
    pub coordinate_system: CoordinateSystemV,
    pub tail: CrsTailV,
}

pub open spec fn sp_geo_parts(s: Seq<char>, q: int) -> SRes<GeoPartsV> {
    match sp_quoted(s, q) {
        Err(e) => Err(e),
        Ok((name, q1)) => match sp_ws_char_ws(s, q1, ',') {
            Err(e) => Err(e),
            Ok(q2) => match sp_geodetic_body(s, q2) {
                Err(e) => Err(e),
                Ok(((dy, dt), q3)) => match sp_cs_and_tail(s, q3, false) {
                    Err(e) => Err(e),
                    Ok(((cs, t), q4)) => Ok(
                        (
                            GeoPartsV {
                                name,
                                dynamic: dy,
                                datum: dt,
                                coordinate_system: cs,
                                tail: t,
                            },
                            q4,
                        ),
                    ),
                },
            },
        },
    }
}

/// `GEOGCRS|GEOGRAPHICCRS[...]`.
#[verifier::opaque]
pub open spec fn sp_geog(s: Seq<char>, p: int) -> SRes<GeogCrsV> {
    let q0 = sp_skip_ws(s, p);
    match sp_keyword(s, q0) {
        Err(e) => Err(e),
        Ok((k, q1)) => if k == "GEOGCRS"@ || k == "GEOGRAPHICCRS"@ {
            match sp_ws_char_ws(s, q1, '[') {
                Err(e) => Err(e),
                Ok(q2) => match sp_geo_parts(s, q2) {
                    Err(e) => Err(e),
                    Ok((g, q3)) => Ok(
                        (
                            GeogCrsV {
                                keyword: if k == "GEOGCRS"@ {
                                    GeogCrsKeyword::GeogCrs
                                } else {
                                    GeogCrsKeyword::GeographicCrs
                                },
                                name: g.name,
                                dynamic: g.dynamic,
                                datum: g.datum,
                                coordinate_system: g.coordinate_system,
                                usages: g.tail.usages,
                                identifiers: g.tail.identifiers,
                                remark: g.tail.remark,
                            },
                            q3,
                        ),
                    ),
                },
            }
        } else {
            Err(ParseErrorV::ExpectedKeyword { pos: q0 })
        },
    }
}

/// `GEODCRS|GEODETICCRS[...]`.
#[verifier::opaque]
pub open spec fn sp_geod(s: Seq<char>, p: int) -> SRes<GeodCrsV> {
    let q0 = sp_skip_ws(s, p);
    match sp_keyword(s, q0) {
        Err(e) => Err(e),
        Ok((k, q1)) => if k == "GEODCRS"@ || k == "GEODETICCRS"@ {
            match sp_ws_char_ws(s, q1, '[') {
                Err(e) => Err(e),
                Ok(q2) => match sp_geo_parts(s, q2) {
                    Err(e) => Err(e),
                    Ok((g, q3)) => Ok(
                        (
                            GeodCrsV {
                                keyword: if k == "GEODCRS"@ {
                                    GeodCrsKeyword::GeodCrs
                                } else {
                                    GeodCrsKeyword::GeodeticCrs
                                },
                                name: g.name,
                                dynamic: g.dynamic,
                                datum: g.datum,
                                coordinate_system: g.coordinate_system,
                                usages: g.tail.usages,
                                identifiers: g.tail.identifiers,
                                remark: g.tail.remark,
                            },
                            q3,
                        ),
                    ),
                },
            }
        } else {
            Err(ParseErrorV::ExpectedKeyword { pos: q0 })
        },
    }
}

/// `BASEVERTCRS["name", {DYNAMIC,} datum {, ID}]`.
pub open spec fn sp_base_vert(s: Seq<char>, p: int) -> SRes<BaseVertCrsV> {
    match sp_open_kw(s, p, "BASEVERTCRS"@) {
        Err(e) => Err(e),
        Ok(q) => match sp_quoted(s, q) {
            Err(e) => Err(e),
            Ok((name, q1)) => match sp_ws_char_ws(s, q1, ',') {
                Err(e) => Err(e),
                Ok(q2) => match sp_dynamic_opt(s, q2) {
                    Err(e) => Err(e),
                    Ok((dy, q3)) => match sp_vert_datum(s, q3) {
                        Err(e) => Err(e),
                        Ok((dt, q4)) => match sp_ids_items(s, q4, Seq::empty()) {
                            Err(e) => Err(e),
                            Ok((ids, q5)) => match sp_close(s, q5) {
                                Err(e) => Err(e),
                                Ok(q6) => Ok(
                                    (
                                        BaseVertCrsV {
                                            name,
                                            dynamic: dy,
                                            datum: dt,
                                            identifiers: ids,
                                        },
                                        q6,
                                    ),
                                ),
                            },
                        },
                    },
                },
            },
        },
    }
}

/// Where a vertical CRS's datum comes from: a base vertical CRS and a
/// deriving conversion, or a datum of its own.
pub open spec fn sp_vert_source(s: Seq<char>, q: int) -> SRes<VertCrsSourceV> {
    if sp_peek_kw(s, q) == "BASEVERTCRS"@ {
        match sp_base_vert(s, q) {
            Err(e) => Err(e),
            Ok((b, q1)) => match sp_ws_char_ws(s, q1, ',') {
                Err(e) => Err(e),
                Ok(q2) => match sp_conversion(s, q2, "DERIVINGCONVERSION"@) {
                    Err(e) => Err(e),
                    Ok((c, q3)) => Ok(
                        (VertCrsSourceV::Derived { base_vert_crs: b, deriving_conversion: c }, q3),
                    ),
                },
            },
        }
    } else {
        match sp_dynamic_opt(s, q) {
            Err(e) => Err(e),
            Ok((dy, q1)) => match sp_vert_datum(s, q1) {
                Err(e) => Err(e),
                Ok((dt, q2)) => Ok((VertCrsSourceV::Datum { dynamic: dy, datum: dt }, q2)),
            },
        }
    }
}

/// `VERTCRS|VERTICALCRS[...]`.
#[verifier::opaque]
pub open spec fn sp_vert(s: Seq<char>, p: int) -> SRes<VertCrsV> {
    let q0 = sp_skip_ws(s, p);
    match sp_keyword(s, q0) {
        Err(e) => Err(e),
        Ok((k, q1)) => if k == "VERTCRS"@ || k == "VERTICALCRS"@ {
            match sp_ws_char_ws(s, q1, '[') {
                Err(e) => Err(e),
                Ok(q2) => match sp_quoted(s, q2) {
                    Err(e) => Err(e),
                    Ok((name, q3)) => match sp_ws_char_ws(s, q3, ',') {
                        Err(e) => Err(e),
                        Ok(q4) => match sp_vert_source(s, q4) {
                            Err(e) => Err(e),
                            Ok((src, q5)) => match sp_ws_char_ws(s, q5, ',') {
                                Err(e) => Err(e),
                                Ok(q6) => match sp_cs_and_tail(s, q6, true) {
                                    Err(e) => Err(e),
                                    Ok(((cs, t), q7)) => Ok(
                                        (
                                            VertCrsV {
                                                keyword: if k == "VERTCRS"@ {
                                                    VertCrsKeyword::VertCrs
                                                } else {
                                                    VertCrsKeyword::VerticalCrs
                                                },
                                                name,
                                                source: src,
                                                coordinate_system: cs,
                                                geoid_models: t.geoid_models,
                                                usages: t.usages,
                                                identifiers: t.identifiers,
                                                remark: t.remark,
                                            },
                                            q7,
                                        ),
                                    ),
                                },
                            },
                        },
                    },
                },
            }
        } else {
            Err(ParseErrorV::ExpectedKeyword { pos: q0 })
        },
    }
}

/// Whether a keyword names a CRS that a compound CRS can hold as a parsed component.
pub open spec fn is_component_kw(k: Seq<char>) -> bool {
    k == "PROJCRS"@ || k == "GEOGCRS"@ || k == "GEOGRAPHICCRS"@ || k == "GEODCRS"@ || k
        == "GEODETICCRS"@ || k == "VERTCRS"@ || k == "VERTICALCRS"@
}

/// Whether a keyword ends with `CRS`.
pub open spec fn ends_with_crs(k: Seq<char>) -> bool {
    k.len() >= 3 && k.subrange(k.len() - 3, k.len() as int) == "CRS"@
}

/// A compound CRS component at `q`, given the keyword there: one of the
/// supported CRS kinds, or else the raw text of the node.
pub open spec fn sp_component_kw(s: Seq<char>, q: int, kw: Seq<char>) -> SRes<SingleCrsV> {
    if kw == "PROJCRS"@ {
        match sp_projected(s, q) {
            Err(e) => Err(e),
            Ok((c, q1)) => Ok((SingleCrsV::ProjectedCrs(c), q1)),
        }
    } else if kw == "GEOGCRS"@ || kw == "GEOGRAPHICCRS"@ {
        match sp_geog(s, q) {
            Err(e) => Err(e),
            Ok((c, q1)) => Ok((SingleCrsV::GeogCrs(c), q1)),
        }
    } else if kw == "GEODCRS"@ || kw == "GEODETICCRS"@ {
        match sp_geod(s, q) {
            Err(e) => Err(e),
            Ok((c, q1)) => Ok((SingleCrsV::GeodCrs(c), q1)),
        }
    } else if kw == "VERTCRS"@ || kw == "VERTICALCRS"@ {
        match sp_vert(s, q) {
            Err(e) => Err(e),
            Ok((c, q1)) => Ok((SingleCrsV::VertCrs(c), q1)),
        }
    } else {
        match sp_bracketed_node(s, q) {
            Err(e) => Err(e),
            Ok((raw, q1)) => Ok((SingleCrsV::Other(raw), q1)),
        }
    }
}

/// A compound CRS component, after optional whitespace.
pub open spec fn sp_component(s: Seq<char>, p: int) -> SRes<SingleCrsV> {
    let q = sp_skip_ws(s, p);
    sp_component_kw(s, q, sp_peek_kw(s, q))
}

/// The state of the trailing items of a compound CRS.
pub type CompoundRest = (Seq<SingleCrsV>, Seq<UsageV>, Seq<IdentifierV>, Option<Seq<char>>);

/// One trailing item of a compound CRS. A node whose keyword ends in `CRS`
/// but is not a supported kind is kept as a component holding the node's
/// raw text, from its keyword to its closing bracket.
pub open spec fn sp_compound_step(s: Seq<char>, q: int, st: CompoundRest) -> SRes<CompoundRest> {
    let kw = sp_peek_kw(s, q);
    if is_component_kw(kw) {
        match sp_component_kw(s, q, kw) {
            Err(e) => Err(e),
            Ok((c, q2)) => Ok(((st.0.push(c), st.1, st.2, st.3), q2)),
        }
    } else if kw == "USAGE"@ {
        match sp_usage(s, q) {
            Err(e) => Err(e),
            Ok((u, q2)) => Ok(((st.0, st.1.push(u), st.2, st.3), q2)),
        }
    } else if kw == "ID"@ {
        match sp_id_node(s, q) {
            Err(e) => Err(e),
            Ok((id, q2)) => Ok(((st.0, st.1, st.2.push(id), st.3), q2)),
        }
    } else if kw == "REMARK"@ {
        match sp_kw_quoted(s, q, "REMARK"@) {
            Err(e) => Err(e),
            Ok((r, q2)) => Ok(((st.0, st.1, st.2, Some(r)), q2)),
        }
    } else if ends_with_crs(kw) {
        match sp_bracketed_node(s, q) {
            Err(e) => Err(e),
            Ok((raw, q2)) => Ok(((st.0.push(SingleCrsV::Other(raw)), st.1, st.2, st.3), q2)),
        }
    } else {
        match sp_bracketed_node(s, q) {
            Err(e) => Err(e),
            Ok((_, q2)) => Ok((st, q2)),
        }
    }
}

pub open spec fn sp_compound_items(s: Seq<char>, p: int, st: CompoundRest) -> SRes<CompoundRest>
    decreases s.len() - p,
{
    if p < 0 || p > s.len() {
        Err(ParseErrorV::UnexpectedEnd)
    } else if sp_at_close(s, p) {
        Ok((st, sp_skip_ws(s, p)))
    } else {
        match sp_item_start(s, p) {
            Err(e) => Err(e),
            Ok(q) => match sp_compound_step(s, q, st) {
                Err(e) => Err(e),
                Ok((st2, q2)) => if p < q2 <= s.len() {
                    sp_compound_items(s, q2, st2)
                } else {
                    Err(ParseErrorV::UnexpectedEnd)
                },
            },
        }
    }
}

/// `COMPOUNDCRS["name", component, component {, ...}]`.
#[verifier::opaque]
pub open spec fn sp_compound(s: Seq<char>, p: int) -> SRes<CompoundCrsV> {
    let q0 = sp_skip_ws(s, p);
    match sp_keyword(s, q0) {
        Err(e) => Err(e),
        Ok((k, q1)) => if k == "COMPOUNDCRS"@ {
            match sp_ws_char_ws(s, q1, '[') {
                Err(e) => Err(e),
                Ok(q2) => match sp_quoted(s, q2) {
                    Err(e) => Err(e),
                    Ok((name, q3)) => match sp_ws_char_ws(s, q3, ',') {
                        Err(e) => Err(e),
                        Ok(q4) => match sp_component(s, q4) {
                            Err(e) => Err(e),
                            Ok((c1, q5)) => match sp_ws_char_ws(s, q5, ',') {
                                Err(e) => Err(e),
                                Ok(q6) => match sp_component(s, q6) {
                                    Err(e) => Err(e),
                                    Ok((c2, q7)) => match sp_compound_items(
                                        s,
                                        q7,
                                        (seq![c1, c2], Seq::empty(), Seq::empty(), None),
                                    ) {
                                        Err(e) => Err(e),
                                        Ok((st, q8)) => match sp_close(s, q8) {
                                            Err(e) => Err(e),
                                            Ok(q9) => Ok(
                                                (
                                                    CompoundCrsV {
                                                        name,
                                                        components: st.0,
                                                        usages: st.1,
                                                        identifiers: st.2,
                                                        remark: st.3,
                                                    },
                                                    q9,
                                                ),
                                            ),
                                        },
                                    },
                                },
                            },
                        },
                    },
                },
            }
        } else {
            Err(ParseErrorV::ExpectedKeyword { pos: q0 })
        },
    }
}

/// A CRS of any supported kind, after optional whitespace.
pub open spec fn sp_single_crs(s: Seq<char>, p: int) -> SRes<CrsV> {
    let q = sp_skip_ws(s, p);
    let kw = sp_peek_kw(s, q);
    if kw == "PROJCRS"@ {
        match sp_projected(s, q) {
            Err(e) => Err(e),
            Ok((c, q1)) => Ok((CrsV::ProjectedCrs(c), q1)),
        }
    } else if kw == "GEOGCRS"@ || kw == "GEOGRAPHICCRS"@ {
        match sp_geog(s, q) {
            Err(e) => Err(e),
            Ok((c, q1)) => Ok((CrsV::GeogCrs(c), q1)),
        }
    } else if kw == "GEODCRS"@ || kw == "GEODETICCRS"@ {
        match sp_geod(s, q) {
            Err(e) => Err(e),
            Ok((c, q1)) => Ok((CrsV::GeodCrs(c), q1)),
        }
    } else if kw == "VERTCRS"@ || kw == "VERTICALCRS"@ {
        match sp_vert(s, q) {
            Err(e) => Err(e),
            Ok((c, q1)) => Ok((CrsV::VertCrs(c), q1)),
        }
    } else if kw == "COMPOUNDCRS"@ {
        match sp_compound(s, q) {
            Err(e) => Err(e),
            Ok((c, q1)) => Ok((CrsV::CompoundCrs(c), q1)),
        }
    } else {
        Err(ParseErrorV::ExpectedKeyword { pos: q })
    }
}

/// One CRS from `p`, then nothing but whitespace.
/// Positions in errors count characters.
pub open spec fn sp_crs_at(s: Seq<char>, p: int) -> Result<CrsV, ParseErrorV> {
    match sp_single_crs(s, p) {
        Err(e) => Err(e),
        Ok((c, q)) => {
            let q1 = sp_skip_ws(s, q);
            if q1 < s.len() {
                Err(ParseErrorV::TrailingInput { pos: q1 })
            } else {
                Ok(c)
            }
        },
    }
}

/// A whole WKT2 text: one CRS, then nothing but whitespace.
/// Positions in errors count characters.
pub open spec fn sp_crs_text(s: Seq<char>) -> Result<CrsV, ParseErrorV> {
    sp_crs_at(s, 0)
}

/// What follows the `CS[...]` node of a CRS, as read.
pub struct CrsTail {
    pub axes: Vec<Axis>,
    pub cs_unit: Option<Unit>,
    pub geoid_models: Vec<GeoidModel>,
    pub usages: Vec<Usage>,
    pub identifiers: Vec<Identifier>,
    pub remark: Option<String>,
}

impl View for CrsTail {
    type V = CrsTailV;

    open spec fn view(&self) -> CrsTailV {
        CrsTailV {
            axes: self.axes@.map_values(|a: Axis| a@),
            cs_unit: opt_unit(self.cs_unit),
            geoid_models: self.geoid_models@.map_values(|g: GeoidModel| g@),
            usages: usages_v(self.usages),
            identifiers: ids_v(self.identifiers),
            remark: opt_text(self.remark),
        }
    }
}

/// Set the prime meridian of a datum.
fn set_prime_meridian(d: &mut Datum, pm: crate::crs::PrimeMeridian)
    ensures
        final(d)@ == with_pm(old(d)@, pm@),
{
    match d {
        Datum::ReferenceFrame(rf) => {
            rf.prime_meridian = Some(pm);
        },
        Datum::Ensemble(e) => {
            e.prime_meridian = Some(pm);
        },
    }
}

impl Parser {
    /// An optional `DYNAMIC[...]` node and the comma after it.
    fn parse_dynamic_opt(&mut self) -> (r: Result<Option<DynamicCrs>, ParseError>)
        requires
            old(self).wf(),
        ensures
            final(self).wf(),
            final(self).s() == old(self).s(),
            old(self).p() <= final(self).p(),
            match sp_dynamic_opt(old(self).s(), old(self).p()) {
                Ok((v, q)) => r matches Ok(x) && opt_dynamic(x) == v && final(self).p() == q,
                Err(e) => r matches Err(x) && x@ == e,
            },
    {
        if self.peek_is("DYNAMIC") {
            let d = self.parse_dynamic_crs()?;
            self.ws_char_ws(',')?;
            Ok(Some(d))
        } else {
            Ok(None)
        }
    }

    /// A geodetic datum: an ensemble or a reference frame.
    fn parse_geo_datum(&mut self) -> (r: Result<Datum, ParseError>)
        requires
            old(self).wf(),
        ensures
            final(self).wf(),
            final(self).s() == old(self).s(),
            old(self).p() <= final(self).p(),
            match sp_geo_datum(old(self).s(), old(self).p()) {
                Ok((v, q)) => r matches Ok(x) && x@ == v && final(self).p() == q,
                Err(e) => r matches Err(x) && x@ == e,
            },
    {
        if self.peek_is("ENSEMBLE") {
            Ok(Datum::Ensemble(self.parse_datum_ensemble()?))
        } else {
            Ok(Datum::ReferenceFrame(self.parse_geodetic_reference_frame()?))
        }
    }

    /// A vertical datum: an ensemble or a vertical reference frame.
    fn parse_vert_datum(&mut self) -> (r: Result<VerticalDatum, ParseError>)
        requires
            old(self).wf(),
        ensures
            final(self).wf(),
            final(self).s() == old(self).s(),
            old(self).p() <= final(self).p(),
            match sp_vert_datum(old(self).s(), old(self).p()) {
                Ok((v, q)) => r matches Ok(x) && x@ == v && final(self).p() == q,
                Err(e) => r matches Err(x) && x@ == e,
            },
    {
        if self.peek_is("ENSEMBLE") {
            Ok(VerticalDatum::Ensemble(Box::new(self.parse_datum_ensemble()?)))
        } else {
            Ok(VerticalDatum::ReferenceFrame(self.parse_vertical_reference_frame()?))
        }
    }

    /// The dynamic node, datum and prime meridian of a geographic or geodetic CRS.
    fn parse_geodetic_body(&mut self) -> (r: Result<(Option<DynamicCrs>, Datum), ParseError>)
        requires
            old(self).wf(),
        ensures
            final(self).wf(),
            final(self).s() == old(self).s(),
            old(self).p() <= final(self).p(),
            match sp_geodetic_body(old(self).s(), old(self).p()) {
                Ok((v, q)) => r matches Ok((dy, dt)) && opt_dynamic(dy) == v.0 && dt@ == v.1
                    && final(self).p() == q,
                Err(e) => r matches Err(x) && x@ == e,
            },
    {
        let dynamic = self.parse_dynamic_opt()?;
        let mut datum = self.parse_geo_datum()?;
        self.ws_char_ws(',')?;
        if self.peek_is("PRIMEM") || self.peek_is("PRIMEMERIDIAN") {
            let pm = self.parse_prime_meridian()?;
            set_prime_meridian(&mut datum, pm);
            self.ws_char_ws(',')?;
        }
        Ok((dynamic, datum))
    }

    /// `GEOIDMODEL["name" {, ID}]`.
    fn parse_geoid_model(&mut self) -> (r: Result<GeoidModel, ParseError>)
        requires
            old(self).wf(),
        ensures
            final(self).wf(),
            final(self).s() == old(self).s(),
            old(self).p() <= final(self).p(),
            match sp_geoid_model(old(self).s(), old(self).p()) {
                Ok((v, q)) => r matches Ok(x) && x@ == v && final(self).p() == q,
                Err(e) => r matches Err(x) && x@ == e,
            },
    {
        self.open_kw("GEOIDMODEL")?;
        let name = self.parse_quoted_string()?;
        let identifiers = self.trailing_identifiers()?;
        self.close()?;
        Ok(GeoidModel { name, identifiers })
    }

    /// One trailing item of a CRS, folded into `tail`.
    fn parse_crs_item(&mut self, vert: bool, tail: &mut CrsTail) -> (r: Result<(), ParseError>)
        requires
            old(self).wf(),
        ensures
            final(self).wf(),
            final(self).s() == old(self).s(),
            old(self).p() <= final(self).p(),
            match sp_crs_step(old(self).s(), old(self).p(), vert, old(tail)@) {
                Ok((v, q)) => r is Ok && final(tail)@ == v && final(self).p() == q,
                Err(e) => r matches Err(x) && x@ == e,
            },
    {
        let ghost before = tail@;
        if self.peek_is("AXIS") {
            let a = self.parse_axis()?;
            tail.axes.push(a);
            proof {
                assert(tail@.axes =~= before.axes.push(a@));
            }
        } else if self.peek_unit_keyword() {
            tail.cs_unit = Some(self.parse_unit()?);
        } else if vert && self.peek_is("GEOIDMODEL") {
            let g = self.parse_geoid_model()?;
            tail.geoid_models.push(g);
            proof {
                assert(tail@.geoid_models =~= before.geoid_models.push(g@));
            }
        } else if self.peek_is("USAGE") {
            let u = self.parse_usage()?;
            tail.usages.push(u);
            proof {
                assert(tail@.usages =~= before.usages.push(u@));
            }
        } else if self.peek_is("ID") {
            let id = self.parse_identifier_node()?;
            tail.identifiers.push(id);
            proof {
                assert(tail@.identifiers =~= before.identifiers.push(id@));
            }
        } else if self.peek_is("REMARK") {
            tail.remark = Some(self.parse_keyword_quoted_string("REMARK")?);
        } else {
            self.parse_bracketed_node()?;
        }
        Ok(())
    }

    /// The trailing items of a CRS after its `CS[...]` node.
    #[verifier::loop_isolation(false)]
    fn parse_crs_tail(&mut self, vert: bool) -> (r: Result<CrsTail, ParseError>)
        requires
            old(self).wf(),
        ensures
            final(self).wf(),
            final(self).s() == old(self).s(),
            old(self).p() <= final(self).p(),
            match sp_crs_items(old(self).s(), old(self).p(), vert, empty_tail()) {
                Ok((v, q)) => r matches Ok(t) && t@ == v && final(self).p() == q,
                Err(e) => r matches Err(x) && x@ == e,
            },
    {
        let ghost s = self.s();
        let ghost p0 = self.p();
        let mut tail = CrsTail {
            axes: Vec::new(),
            cs_unit: None,
            geoid_models: Vec::new(),
            usages: Vec::new(),
            identifiers: Vec::new(),
            remark: None,
        };
        proof {
            assert(tail@.axes =~= Seq::<AxisV>::empty());
            assert(tail@.geoid_models =~= Seq::<GeoidModelV>::empty());
            assert(tail@.usages =~= Seq::<UsageV>::empty());
            assert(tail@.identifiers =~= Seq::<IdentifierV>::empty());
            assert(tail@ == empty_tail());
        }
        loop
            invariant
                sp_crs_items(s, p0, vert, empty_tail()) == sp_crs_items(s, self.p(), vert, tail@),
                self.wf(),
                self.s() == s,
                s == old(self).s(),
                old(self).p() <= self.p(),
            decreases s.len() - self.p(),
        {
            if self.at_close() {
                self.skip_whitespace();
                break;
            }
            self.item_start()?;
            self.parse_crs_item(vert, &mut tail)?;
        }
        Ok(tail)
    }

    /// `CS[...]` and the trailing items of a CRS, up to and including its `]`.
    /// The axes and unit go to the coordinate system; the rest of the tail is
    /// returned beside it.
    fn parse_cs_and_tail(&mut self, vert: bool) -> (r: Result<(CoordinateSystem, CrsTail), ParseError>)
        requires
            old(self).wf(),
        ensures
            final(self).wf(),
            final(self).s() == old(self).s(),
            old(self).p() <= final(self).p(),
            match sp_cs_and_tail(old(self).s(), old(self).p(), vert) {
                Ok((v, q)) => r matches Ok((cs, t)) && cs@ == v.0 && t@.geoid_models
                    == v.1.geoid_models && t@.usages == v.1.usages && t@.identifiers
                    == v.1.identifiers && t@.remark == v.1.remark && final(self).p() == q,
                Err(e) => r matches Err(x) && x@ == e,
            },
    {
        let (cs_type, dimension, cs_identifiers) = self.parse_cs_header()?;
        let tail = self.parse_crs_tail(vert)?;
        self.close()?;
        let CrsTail { axes, cs_unit, geoid_models, usages, identifiers, remark } = tail;
        let cs = CoordinateSystem { cs_type, dimension, identifiers: cs_identifiers, axes, cs_unit };
        Ok(
            (
                cs,
                CrsTail {
                    axes: Vec::new(),
                    cs_unit: None,
                    geoid_models,
                    usages,
                    identifiers,
                    remark,
                },
            ),
        )
    }

    /// One trailing item of a base geodetic CRS.
    fn parse_base_item(
        &mut self,
        datum: &mut Datum,
        unit: &mut Option<Unit>,
        identifiers: &mut Vec<Identifier>,
    ) -> (r: Result<(), ParseError>)
        requires
            old(self).wf(),
        ensures
            final(self).wf(),
            final(self).s() == old(self).s(),
            old(self).p() <= final(self).p(),
            match sp_base_step(
                old(self).s(),
                old(self).p(),
                (old(datum)@, opt_unit(*old(unit)), ids_v(*old(identifiers))),
            ) {
                Ok((v, q)) => r is Ok && final(datum)@ == v.0 && opt_unit(*final(unit)) == v.1
                    && ids_v(*final(identifiers)) == v.2 && final(self).p() == q,
                Err(e) => r matches Err(x) && x@ == e,
            },
    {
        if self.peek_is("PRIMEM") || self.peek_is("PRIMEMERIDIAN") {
            let pm = self.parse_prime_meridian()?;
            set_prime_meridian(datum, pm);
        } else if self.peek_unit_keyword() {
            *unit = Some(self.parse_unit()?);
        } else if self.peek_is("ID") {
            let id = self.parse_identifier_node()?;
            let ghost before = ids_v(*identifiers);
            identifiers.push(id);
            proof {
                assert(ids_v(*identifiers) =~= before.push(id@));
            }
        } else {
            self.parse_bracketed_node()?;
        }
        Ok(())
    }

    /// `BASEGEODCRS|BASEGEOGCRS[...]`.
    #[verifier::loop_isolation(false)]
    pub(crate) fn parse_base_geodetic_crs(&mut self) -> (r: Result<BaseGeodeticCrs, ParseError>)
        requires
            old(self).wf(),
        ensures
            final(self).wf(),
            final(self).s() == old(self).s(),
            old(self).p() <= final(self).p(),
            match sp_base_geodetic(old(self).s(), old(self).p()) {
                Ok((v, q)) => r matches Ok(x) && x@ == v && final(self).p() == q,
                Err(e) => r matches Err(x) && x@ == e,
            },
    {
        let start = self.pos();
        let (a, b) = self.keyword_span()?;
        let keyword = if self.span_is_lit(a, b, "BASEGEODCRS") {
            BaseGeodeticCrsKeyword::BaseGeodCrs
        } else if self.span_is_lit(a, b, "BASEGEOGCRS") {
            BaseGeodeticCrsKeyword::BaseGeogCrs
        } else {
            return Err(ParseError::ExpectedKeyword { pos: start });
        };
        self.ws_char_ws('[')?;
        let name = self.parse_quoted_string()?;
        self.ws_char_ws(',')?;
        let dynamic = self.parse_dynamic_opt()?;
        let mut datum = self.parse_geo_datum()?;
        let ghost s = self.s();
        let ghost p0 = self.p();
        let ghost d0 = datum@;
        let mut unit: Option<Unit> = None;
        let mut identifiers: Vec<Identifier> = Vec::new();
        proof {
            assert(ids_v(identifiers) =~= Seq::<IdentifierV>::empty());
        }
        loop
            invariant
                sp_base_items(s, p0, (d0, None, Seq::empty())) == sp_base_items(
                    s,
                    self.p(),
                    (datum@, opt_unit(unit), ids_v(identifiers)),
                ),
                self.wf(),
                self.s() == s,
                s == old(self).s(),
                old(self).p() <= self.p(),
            decreases s.len() - self.p(),
        {
            if self.at_close() {
                self.skip_whitespace();
                break;
            }
            self.item_start()?;
            self.parse_base_item(&mut datum, &mut unit, &mut identifiers)?;
        }
        self.close()?;
        Ok(
            BaseGeodeticCrs {
                keyword,
                name,
                dynamic,
                datum,
                ellipsoidal_cs_unit: unit,
                identifiers,
            },
        )
    }

    /// `PROJCRS[...]`, where more may follow.
    fn parse_projected_crs_node(&mut self) -> (r: Result<ProjectedCrs, ParseError>)
        requires
            old(self).wf(),
        ensures
            final(self).wf(),
            final(self).s() == old(self).s(),
            old(self).p() <= final(self).p(),
            match sp_projected(old(self).s(), old(self).p()) {
                Ok((v, q)) => r matches Ok(x) && x@ == v && final(self).p() == q,
                Err(e) => r matches Err(x) && x@ == e,
            },
    {
        proof {
            reveal(sp_projected);
        }
        self.skip_whitespace();
        let start = self.pos();
        let (a, b) = self.keyword_span()?;
        if !self.span_is_lit(a, b, "PROJCRS") {
            if self.span_is_lit(a, b, "PROJECTEDCRS") {
                let keyword = self.text_between(a, b);
                return Err(ParseError::UnexpectedKeyword { keyword, pos: start });
            }
            return Err(ParseError::ExpectedKeyword { pos: start });
        }
        self.ws_char_ws('[')?;
        let name = self.parse_quoted_string()?;
        self.ws_char_ws(',')?;
        let base_geodetic_crs = self.parse_base_geodetic_crs()?;
        self.ws_char_ws(',')?;
        let map_projection = self.parse_conversion("CONVERSION")?;
        self.ws_char_ws(',')?;
        let (coordinate_system, tail) = self.parse_cs_and_tail(false)?;
        Ok(
            ProjectedCrs {
                name,
                base_geodetic_crs,
                map_projection,
                coordinate_system,
                usages: tail.usages,
                identifiers: tail.identifiers,
                remark: tail.remark,
            },
        )
    }

    /// The name, datum, coordinate system and tail of a geographic or geodetic CRS.
    fn parse_geo_parts(&mut self) -> (r: Result<
        (String, Option<DynamicCrs>, Datum, CoordinateSystem, CrsTail),
        ParseError,
    >)
        requires
            old(self).wf(),
        ensures
            final(self).wf(),
            final(self).s() == old(self).s(),
            old(self).p() <= final(self).p(),
            match sp_geo_parts(old(self).s(), old(self).p()) {
                Ok((v, q)) => r matches Ok((n, dy, dt, cs, t)) && n@ == v.name && opt_dynamic(dy)
                    == v.dynamic && dt@ == v.datum && cs@ == v.coordinate_system && t@.usages
                    == v.tail.usages && t@.identifiers == v.tail.identifiers && t@.remark
                    == v.tail.remark && final(self).p() == q,
                Err(e) => r matches Err(x) && x@ == e,
            },
    {
        let name = self.parse_quoted_string()?;
        self.ws_char_ws(',')?;
        let (dynamic, datum) = self.parse_geodetic_body()?;
        let (cs, tail) = self.parse_cs_and_tail(false)?;
        Ok((name, dynamic, datum, cs, tail))
    }

    /// `GEOGCRS|GEOGRAPHICCRS[...]`.
    pub fn parse_geog_crs(&mut self) -> (r: Result<GeogCrs, ParseError>)
        requires
            old(self).wf(),
        ensures
            final(self).wf(),
            final(self).s() == old(self).s(),
            old(self).p() <= final(self).p(),
            match sp_geog(old(self).s(), old(self).p()) {
                Ok((v, q)) => r matches Ok(x) && x@ == v && final(self).p() == q,
                Err(e) => r matches Err(x) && x@ == e,
            },
    {
        proof {
            reveal(sp_geog);
        }
        self.skip_whitespace();
        let start = self.pos();
        let (a, b) = self.keyword_span()?;
        let keyword = if self.span_is_lit(a, b, "GEOGCRS") {
            GeogCrsKeyword::GeogCrs
        } else if self.span_is_lit(a, b, "GEOGRAPHICCRS") {
            GeogCrsKeyword::GeographicCrs
        } else {
            return Err(ParseError::ExpectedKeyword { pos: start });
        };
        self.ws_char_ws('[')?;
        let (name, dynamic, datum, coordinate_system, tail) = self.parse_geo_parts()?;
        Ok(
            GeogCrs {
                keyword,
                name,
                dynamic,
                datum,
                coordinate_system,
                usages: tail.usages,
                identifiers: tail.identifiers,
                remark: tail.remark,
            },
        )
    }

    /// `GEODCRS|GEODETICCRS[...]`.
    pub fn parse_geod_crs(&mut self) -> (r: Result<GeodCrs, ParseError>)
        requires
            old(self).wf(),
        ensures
            final(self).wf(),
            final(self).s() == old(self).s(),
            old(self).p() <= final(self).p(),
            match sp_geod(old(self).s(), old(self).p()) {
                Ok((v, q)) => r matches Ok(x) && x@ == v && final(self).p() == q,
                Err(e) => r matches Err(x) && x@ == e,
            },
    {
        proof {
            reveal(sp_geod);
        }
        self.skip_whitespace();
        let start = self.pos();
        let (a, b) = self.keyword_span()?;
        let keyword = if self.span_is_lit(a, b, "GEODCRS") {
            GeodCrsKeyword::GeodCrs
        } else if self.span_is_lit(a, b, "GEODETICCRS") {
            GeodCrsKeyword::GeodeticCrs
        } else {
            return Err(ParseError::ExpectedKeyword { pos: start });
        };
        self.ws_char_ws('[')?;
        let (name, dynamic, datum, coordinate_system, tail) = self.parse_geo_parts()?;
        Ok(
            GeodCrs {
                keyword,
                name,
                dynamic,
                datum,
                coordinate_system,
                usages: tail.usages,
                identifiers: tail.identifiers,
                remark: tail.remark,
            },
        )
    }

    /// `BASEVERTCRS[...]`.
    fn parse_base_vert_crs(&mut self) -> (r: Result<BaseVertCrs, ParseError>)
        requires
            old(self).wf(),
        ensures
            final(self).wf(),
            final(self).s() == old(self).s(),
            old(self).p() <= final(self).p(),
            match sp_base_vert(old(self).s(), old(self).p()) {
                Ok((v, q)) => r matches Ok(x) && x@ == v && final(self).p() == q,
                Err(e) => r matches Err(x) && x@ == e,
            },
    {
        self.open_kw("BASEVERTCRS")?;
        let name = self.parse_quoted_string()?;
        self.ws_char_ws(',')?;
        let dynamic = self.parse_dynamic_opt()?;
        let datum = self.parse_vert_datum()?;
        let identifiers = self.trailing_identifiers()?;
        self.close()?;
        Ok(BaseVertCrs { name, dynamic, datum, identifiers })
    }

    /// The source of a vertical CRS's datum.
    fn parse_vert_source(&mut self) -> (r: Result<VertCrsSource, ParseError>)
        requires
            old(self).wf(),
        ensures
            final(self).wf(),
            final(self).s() == old(self).s(),
            old(self).p() <= final(self).p(),
            match sp_vert_source(old(self).s(), old(self).p()) {
                Ok((v, q)) => r matches Ok(x) && x@ == v && final(self).p() == q,
                Err(e) => r matches Err(x) && x@ == e,
            },
    {
        if self.peek_is("BASEVERTCRS") {
            let base_vert_crs = self.parse_base_vert_crs()?;
            self.ws_char_ws(',')?;
            let deriving_conversion = self.parse_conversion("DERIVINGCONVERSION")?;
            Ok(VertCrsSource::Derived { base_vert_crs, deriving_conversion })
        } else {
            let dynamic = self.parse_dynamic_opt()?;
            let datum = self.parse_vert_datum()?;
            Ok(VertCrsSource::Datum { dynamic, datum })
        }
    }

    /// `VERTCRS|VERTICALCRS[...]`.
    pub fn parse_vert_crs(&mut self) -> (r: Result<VertCrs, ParseError>)
        requires
            old(self).wf(),
        ensures
            final(self).wf(),
            final(self).s() == old(self).s(),
            old(self).p() <= final(self).p(),
            match sp_vert(old(self).s(), old(self).p()) {
                Ok((v, q)) => r matches Ok(x) && x@ == v && final(self).p() == q,
                Err(e) => r matches Err(x) && x@ == e,
            },
    {
        proof {
            reveal(sp_vert);
        }
        self.skip_whitespace();
        let start = self.pos();
        let (a, b) = self.keyword_span()?;
        let keyword = if self.span_is_lit(a, b, "VERTCRS") {
            VertCrsKeyword::VertCrs
        } else if self.span_is_lit(a, b, "VERTICALCRS") {
            VertCrsKeyword::VerticalCrs
        } else {
            return Err(ParseError::ExpectedKeyword { pos: start });
        };
        self.ws_char_ws('[')?;
        let name = self.parse_quoted_string()?;
        self.ws_char_ws(',')?;
        let source = self.parse_vert_source()?;
        self.ws_char_ws(',')?;
        let (coordinate_system, tail) = self.parse_cs_and_tail(true)?;
        Ok(
            VertCrs {
                keyword,
                name,
                source,
                coordinate_system,
                geoid_models: tail.geoid_models,
                usages: tail.usages,
                identifiers: tail.identifiers,
                remark: tail.remark,
            },
        )
    }

    /// A compound CRS component at the current position, chosen by the
    /// keyword there.
    fn parse_component_here(&mut self) -> (r: Result<SingleCrs, ParseError>)
        requires
            old(self).wf(),
        ensures
            final(self).wf(),
            final(self).s() == old(self).s(),
            old(self).p() <= final(self).p(),
            match sp_component_kw(old(self).s(), old(self).p(), sp_peek_kw(old(self).s(), old(self).p())) {
                Ok((v, q)) => r matches Ok(x) && x@ == v && final(self).p() == q,
                Err(e) => r matches Err(x) && x@ == e,
            },
    {
        if self.peek_is("PROJCRS") {
            Ok(SingleCrs::ProjectedCrs(Box::new(self.parse_projected_crs_node()?)))
        } else if self.peek_is("GEOGCRS") || self.peek_is("GEOGRAPHICCRS") {
            Ok(SingleCrs::GeogCrs(Box::new(self.parse_geog_crs()?)))
        } else if self.peek_is("GEODCRS") || self.peek_is("GEODETICCRS") {
            Ok(SingleCrs::GeodCrs(Box::new(self.parse_geod_crs()?)))
        } else if self.peek_is("VERTCRS") || self.peek_is("VERTICALCRS") {
            Ok(SingleCrs::VertCrs(Box::new(self.parse_vert_crs()?)))
        } else {
            Ok(SingleCrs::Other(self.parse_bracketed_node()?))
        }
    }

    /// A compound CRS component, after optional whitespace.
    fn parse_single_crs_component(&mut self) -> (r: Result<SingleCrs, ParseError>)
        requires
            old(self).wf(),
        ensures
            final(self).wf(),
            final(self).s() == old(self).s(),
            old(self).p() <= final(self).p(),
            match sp_component(old(self).s(), old(self).p()) {
                Ok((v, q)) => r matches Ok(x) && x@ == v && final(self).p() == q,
                Err(e) => r matches Err(x) && x@ == e,
            },
    {
        self.skip_whitespace();
        self.parse_component_here()
    }

    /// Whether the keyword at the current position ends with `CRS`.
    fn peek_ends_with_crs(&self) -> (r: bool)
        requires
            self.wf(),
        ensures
            r == ends_with_crs(sp_peek_kw(self.s(), self.p())),
    {
        let e = self.keyword_end();
        let a = self.pos();
        proof {
            crate::text::lemma_upper_end(self.s(), self.p());
        }
        if e - a < 3 {
            return false;
        }
        let r = self.span_is_lit(e - 3, e, "CRS");
        proof {
            let k = sp_peek_kw(self.s(), self.p());
            assert(k.subrange(k.len() - 3, k.len() as int) =~= self.s().subrange(
                e - 3,
                e as int,
            ));
        }
        r
    }

    /// One trailing item of a compound CRS.
    fn parse_compound_item(
        &mut self,
        components: &mut Vec<SingleCrs>,
        usages: &mut Vec<Usage>,
        identifiers: &mut Vec<Identifier>,
        remark: &mut Option<String>,
    ) -> (r: Result<(), ParseError>)
        requires
            old(self).wf(),
        ensures
            final(self).wf(),
            final(self).s() == old(self).s(),
            old(self).p() <= final(self).p(),
            match sp_compound_step(
                old(self).s(),
                old(self).p(),
                (
                    old(components)@.map_values(|c: SingleCrs| c@),
                    usages_v(*old(usages)),
                    ids_v(*old(identifiers)),
                    opt_text(*old(remark)),
                ),
            ) {
                Ok((v, q)) => r is Ok && final(components)@.map_values(|c: SingleCrs| c@) == v.0
                    && usages_v(*final(usages)) == v.1 && ids_v(*final(identifiers)) == v.2
                    && opt_text(*final(remark)) == v.3 && final(self).p() == q,
                Err(e) => r matches Err(x) && x@ == e,
            },
    {
        let ghost cs0 = components@.map_values(|c: SingleCrs| c@);
        if self.peek_is("PROJCRS") || self.peek_is("GEOGCRS") || self.peek_is("GEOGRAPHICCRS")
            || self.peek_is("GEODCRS") || self.peek_is("GEODETICCRS") || self.peek_is("VERTCRS")
            || self.peek_is("VERTICALCRS") {
            let c = self.parse_component_here()?;
            components.push(c);
            proof {
                assert(components@.map_values(|c: SingleCrs| c@) =~= cs0.push(c@));
            }
        } else if self.peek_is("USAGE") {
            let u = self.parse_usage()?;
            let ghost before = usages_v(*usages);
            usages.push(u);
            proof {
                assert(usages_v(*usages) =~= before.push(u@));
            }
        } else if self.peek_is("ID") {
            let id = self.parse_identifier_node()?;
            let ghost before = ids_v(*identifiers);
            identifiers.push(id);
            proof {
                assert(ids_v(*identifiers) =~= before.push(id@));
            }
        } else if self.peek_is("REMARK") {
            *remark = Some(self.parse_keyword_quoted_string("REMARK")?);
        } else if self.peek_ends_with_crs() {
            let raw = self.parse_bracketed_node()?;
            let c = SingleCrs::Other(raw);
            components.push(c);
            proof {
                assert(components@.map_values(|c: SingleCrs| c@) =~= cs0.push(c@));
            }
        } else {
            self.parse_bracketed_node()?;
        }
        Ok(())
    }

    /// `COMPOUNDCRS[...]`.
    #[verifier::loop_isolation(false)]
    pub fn parse_compound_crs(&mut self) -> (r: Result<CompoundCrs, ParseError>)
        requires
            old(self).wf(),
        ensures
            final(self).wf(),
            final(self).s() == old(self).s(),
            old(self).p() <= final(self).p(),
            match sp_compound(old(self).s(), old(self).p()) {
                Ok((v, q)) => r matches Ok(x) && x@ == v && final(self).p() == q,
                Err(e) => r matches Err(x) && x@ == e,
            },
    {
        proof {
            reveal(sp_compound);
        }
        self.skip_whitespace();
        let start = self.pos();
        let (a, b) = self.keyword_span()?;
        if !self.span_is_lit(a, b, "COMPOUNDCRS") {
            return Err(ParseError::ExpectedKeyword { pos: start });
        }
        self.ws_char_ws('[')?;
        let name = self.parse_quoted_string()?;
        self.ws_char_ws(',')?;
        let first = self.parse_single_crs_component()?;
        self.ws_char_ws(',')?;
        let second = self.parse_single_crs_component()?;
        let ghost s = self.s();
        let ghost p0 = self.p();
        let ghost c0 = seq![first@, second@];
        let mut components: Vec<SingleCrs> = Vec::new();
        components.push(first);
        components.push(second);
        let mut usages: Vec<Usage> = Vec::new();
        let mut identifiers: Vec<Identifier> = Vec::new();
        let mut remark: Option<String> = None;
        proof {
            assert(components@.map_values(|c: SingleCrs| c@) =~= c0);
            assert(usages_v(usages) =~= Seq::<UsageV>::empty());
            assert(ids_v(identifiers) =~= Seq::<IdentifierV>::empty());
        }
        loop
            invariant
                sp_compound_items(s, p0, (c0, Seq::empty(), Seq::empty(), None))
                    == sp_compound_items(
                    s,
                    self.p(),
                    (
                        components@.map_values(|c: SingleCrs| c@),
                        usages_v(usages),
                        ids_v(identifiers),
                        opt_text(remark),
                    ),
                ),
                self.wf(),
                self.s() == s,
                s == old(self).s(),
                old(self).p() <= self.p(),
            decreases s.len() - self.p(),
        {
            if self.at_close() {
                self.skip_whitespace();
                break;
            }
            self.item_start()?;
            self.parse_compound_item(&mut components, &mut usages, &mut identifiers, &mut remark)?;
        }
        self.close()?;
        Ok(CompoundCrs { name, components, usages, identifiers, remark })
    }

    /// A CRS of any supported kind, after optional whitespace.
    fn parse_single_crs(&mut self) -> (r: Result<Crs, ParseError>)
        requires
            old(self).wf(),
        ensures
            final(self).wf(),
            final(self).s() == old(self).s(),
            old(self).p() <= final(self).p(),
            match sp_single_crs(old(self).s(), old(self).p()) {
                Ok((v, q)) => r matches Ok(x) && x@ == v && final(self).p() == q,
                Err(e) => r matches Err(x) && x@ == e,
            },
    {
        self.skip_whitespace();
        if self.peek_is("PROJCRS") {
            Ok(Crs::ProjectedCrs(Box::new(self.parse_projected_crs_node()?)))
        } else if self.peek_is("GEOGCRS") || self.peek_is("GEOGRAPHICCRS") {
            Ok(Crs::GeogCrs(Box::new(self.parse_geog_crs()?)))
        } else if self.peek_is("GEODCRS") || self.peek_is("GEODETICCRS") {
            Ok(Crs::GeodCrs(Box::new(self.parse_geod_crs()?)))
        } else if self.peek_is("VERTCRS") || self.peek_is("VERTICALCRS") {
            Ok(Crs::VertCrs(Box::new(self.parse_vert_crs()?)))
        } else if self.peek_is("COMPOUNDCRS") {
            Ok(Crs::CompoundCrs(Box::new(self.parse_compound_crs()?)))
        } else {
            Err(ParseError::ExpectedKeyword { pos: self.pos() })
        }
    }

    /// A whole projected CRS text: `PROJCRS[...]`, then nothing but
    /// whitespace up to the end of the input. Positions in errors count
    /// characters.
    pub fn parse_projected_crs(&mut self) -> (r: Result<ProjectedCrs, ParseError>)
        requires
            old(self).wf(),
        ensures
            final(self).wf(),
            final(self).s() == old(self).s(),
            match sp_projected(old(self).s(), old(self).p()) {
                Ok((v, q)) => if sp_skip_ws(old(self).s(), q) < old(self).s().len() {
                    r matches Err(x) && x@ == (ParseErrorV::TrailingInput { pos: sp_skip_ws(old(self).s(), q) })
                } else {
                    r matches Ok(x) && x@ == v
                },
                Err(e) => r matches Err(x) && x@ == e,
            },
    {
        let crs = self.parse_projected_crs_node()?;
        self.skip_whitespace();
        if !self.at_end() {
            return Err(ParseError::TrailingInput { pos: self.pos() });
        }
        Ok(crs)
    }

    /// One CRS, then nothing but whitespace up to the end of the input.
    /// Positions in errors count characters.
    pub fn parse_crs(&mut self) -> (r: Result<Crs, ParseError>)
        requires
            old(self).wf(),
        ensures
            final(self).wf(),
            final(self).s() == old(self).s(),
            match sp_crs_at(old(self).s(), old(self).p()) {
                Ok(v) => r matches Ok(x) && x@ == v,
                Err(e) => r matches Err(x) && x@ == e,
            },
    {
        let crs = self.parse_single_crs()?;
        self.skip_whitespace();
        if !self.at_end() {
            return Err(ParseError::TrailingInput { pos: self.pos() });
        }
        Ok(crs)
    }
}

} // verus!
