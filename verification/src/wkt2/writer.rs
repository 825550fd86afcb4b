//! WKT2 text from the CRS model.
//!
//! Every writer appends to an accumulated text; its spec function `wr_*`
//! takes that text and returns it with the node appended. The preferred
//! WKT2 keywords are written (`ELLIPSOID`, `METHOD`, `PRIMEM`), except where
//! the model records which keyword was read.
use vstd::prelude::*;
use crate::crs::{
    AuthorityId, Axis, BBox, BaseGeodeticCrs, BaseGeodeticCrsKeyword, BaseVertCrs, CompoundCrs,
    CoordinateSystem, Crs, CsType, Datum, DatumEnsemble, DatumKeyword, DeformationModel,
    DynamicCrs, Ellipsoid, EnsembleMember, GeodCrs, GeodCrsKeyword, GeodeticReferenceFrame,
    GeogCrs, GeogCrsKeyword, GeoidModel, Identifier, MapProjection, MapProjectionMethod,
    MapProjectionParameter, Meridian, PrimeMeridian, ProjectedCrs, RangeMeaning, SingleCrs,
    TemporalExtent, Unit, UnitKeyword, Usage, VertCrs, VertCrsKeyword, VertCrsSource,
    VerticalDatum, VerticalExtent, VerticalReferenceFrame, VerticalReferenceFrameKeyword,
};
use crate::decimal::{decimal_text, nat_text, push_nat};
use crate::model::{ids_v};
use crate::model::{
    AuthorityIdV, AxisV, BBoxV, BaseGeodeticCrsV, BaseVertCrsV, CompoundCrsV, CoordinateSystemV,
    CrsV, DatumEnsembleV, DatumV, DeformationModelV, DynamicCrsV, EllipsoidV, EnsembleMemberV,
    GeodCrsV, GeodeticReferenceFrameV, GeogCrsV, GeoidModelV, IdentifierV, MapProjectionMethodV,
    MapProjectionParameterV, MapProjectionV, MeridianV, PrimeMeridianV, ProjectedCrsV,
    SingleCrsV, TemporalExtentV, UnitV, UsageV, VertCrsSourceV, VertCrsV, VerticalDatumV,
    VerticalExtentV, VerticalReferenceFrameV,
};
use crate::text::{is_digit, push_char, push_str};

verus! {

/// `acc` followed by `t` in double quotes.
pub open spec fn wr_quoted(acc: Seq<char>, t: Seq<char>) -> Seq<char> {
    (acc.push('"') + t).push('"')
}

/// `acc` followed by `,` and each item, written by `f`.
pub open spec fn wr_each<T>(acc: Seq<char>, xs: Seq<T>, f: spec_fn(Seq<char>, T) -> Seq<char>) -> Seq<
    char,
>
    decreases xs.len(),
{
    if xs.len() == 0 {
        acc
    } else {
        f(wr_each(acc, xs.drop_last(), f).push(','), xs.last())
    }
}

pub open spec fn wr_aid(acc: Seq<char>, a: AuthorityIdV) -> Seq<char> {
    match a {
        AuthorityIdV::Number(d) => acc + decimal_text(d),
        AuthorityIdV::Text(t) => wr_quoted(acc, t),
    }
}

/// `ID["authority", code {, version} {, CITATION[...]} {, URI[...]}]`.
pub open spec fn wr_id(acc: Seq<char>, id: IdentifierV) -> Seq<char> {
    let a0 = wr_aid(wr_quoted(acc + "ID["@, id.authority_name).push(','), id.authority_unique_id);
    let a1 = match id.version {
        Some(v) => wr_aid(a0.push(','), v),
        None => a0,
    };
    let a2 = match id.citation {
        Some(c) => wr_quoted(a1 + ",CITATION["@, c).push(']'),
        None => a1,
    };
    let a3 = match id.uri {
        Some(u) => wr_quoted(a2 + ",URI["@, u).push(']'),
        None => a2,
    };
    a3.push(']')
}

pub open spec fn wr_ids(acc: Seq<char>, ids: Seq<IdentifierV>) -> Seq<char> {
    wr_each(acc, ids, |a: Seq<char>, id: IdentifierV| wr_id(a, id))
}

pub open spec fn unit_kw_text(k: UnitKeyword) -> Seq<char> {
    match k {
        UnitKeyword::AngleUnit => "ANGLEUNIT"@,
        UnitKeyword::LengthUnit => "LENGTHUNIT"@,
        UnitKeyword::ParametricUnit => "PARAMETRICUNIT"@,
        UnitKeyword::ScaleUnit => "SCALEUNIT"@,
        UnitKeyword::TimeUnit => "TIMEUNIT"@,
        UnitKeyword::Unit => "UNIT"@,
    }
}

/// `KEYWORD["name" {, factor} {, ID}]`.
pub open spec fn wr_unit(acc: Seq<char>, u: UnitV) -> Seq<char> {
    let a0 = wr_quoted((acc + unit_kw_text(u.keyword)).push('['), u.name);
    let a1 = match u.conversion_factor {
        Some(f) => a0.push(',') + decimal_text(f),
        None => a0,
    };
    wr_ids(a1, u.identifiers).push(']')
}

/// `acc`, then `,` and the unit when there is one.
pub open spec fn wr_opt_unit(acc: Seq<char>, u: Option<UnitV>) -> Seq<char> {
    match u {
        Some(u) => wr_unit(acc.push(','), u),
        None => acc,
    }
}

pub open spec fn wr_bbox(acc: Seq<char>, b: BBoxV) -> Seq<char> {
    let a0 = (acc + "BBOX["@ + decimal_text(b.lower_left_latitude)).push(',');
    let a1 = (a0 + decimal_text(b.lower_left_longitude)).push(',');
    let a2 = (a1 + decimal_text(b.upper_right_latitude)).push(',');
    (a2 + decimal_text(b.upper_right_longitude)).push(']')
}

pub open spec fn wr_vextent(acc: Seq<char>, v: VerticalExtentV) -> Seq<char> {
    wr_opt_unit(
        (acc + "VERTICALEXTENT["@ + decimal_text(v.minimum_height)).push(',') + decimal_text(
            v.maximum_height,
        ),
        v.unit,
    ).push(']')
}

/// A temporal extent value: bare when it starts with an ASCII digit, quoted otherwise.
pub open spec fn wr_temporal_value(acc: Seq<char>, t: Seq<char>) -> Seq<char> {
    if t.len() > 0 && is_digit(t[0]) {
        acc + t
    } else {
        wr_quoted(acc, t)
    }
}

pub open spec fn wr_textent(acc: Seq<char>, t: TemporalExtentV) -> Seq<char> {
    wr_temporal_value(wr_temporal_value(acc + "TIMEEXTENT["@, t.start).push(','), t.end).push(']')
}

/// `USAGE[SCOPE[...] {, AREA[...]} {, BBOX[...]} {, VERTICALEXTENT[...]} {, TIMEEXTENT[...]}]`.
pub open spec fn wr_usage(acc: Seq<char>, u: UsageV) -> Seq<char> {
    let a0 = wr_quoted(acc + "USAGE[SCOPE["@, u.scope).push(']');
    let a1 = match u.area {
        Some(t) => wr_quoted(a0 + ",AREA["@, t).push(']'),
        None => a0,
    };
    let a2 = match u.bbox {
        Some(b) => wr_bbox(a1.push(','), b),
        None => a1,
    };
    let a3 = match u.vertical_extent {
        Some(v) => wr_vextent(a2.push(','), v),
        None => a2,
    };
    let a4 = match u.temporal_extent {
        Some(t) => wr_textent(a3.push(','), t),
        None => a3,
    };
    a4.push(']')
}

pub open spec fn wr_usages(acc: Seq<char>, us: Seq<UsageV>) -> Seq<char> {
    wr_each(acc, us, |a: Seq<char>, u: UsageV| wr_usage(a, u))
}

/// `acc`, then `,REMARK["..."]` when there is a remark.
pub open spec fn wr_remark(acc: Seq<char>, r: Option<Seq<char>>) -> Seq<char> {
    match r {
        Some(t) => wr_quoted(acc + ",REMARK["@, t).push(']'),
        None => acc,
    }
}

pub open spec fn wr_meridian(acc: Seq<char>, m: MeridianV) -> Seq<char> {
    wr_unit((acc + "MERIDIAN["@ + decimal_text(m.value)).push(','), m.unit).push(']')
}

pub open spec fn range_meaning_text(r: RangeMeaning) -> Seq<char> {
    match r {
        RangeMeaning::Exact => "RANGEMEANING[exact]"@,
        RangeMeaning::Wraparound => "RANGEMEANING[wraparound]"@,
    }
}

/// `AXIS["name", direction {, ...}]`.
pub open spec fn wr_axis(acc: Seq<char>, x: AxisV) -> Seq<char> {
    let a0 = wr_quoted(acc + "AXIS["@, x.name_abbrev).push(',') + x.direction;
    let a1 = match x.meridian {
        Some(m) => wr_meridian(a0.push(','), m),
        None => a0,
    };
    let a2 = match x.bearing {
        Some(b) => (a1 + ",BEARING["@ + decimal_text(b)).push(']'),
        None => a1,
    };
    let a3 = match x.order {
        Some(o) => (a2 + ",ORDER["@ + nat_text(o as nat)).push(']'),
        None => a2,
    };
    let a4 = wr_opt_unit(a3, x.unit);
    let a5 = match x.axis_min_value {
        Some(v) => (a4 + ",AXISMINVALUE["@ + decimal_text(v)).push(']'),
        None => a4,
    };
    let a6 = match x.axis_max_value {
        Some(v) => (a5 + ",AXISMAXVALUE["@ + decimal_text(v)).push(']'),
        None => a5,
    };
    let a7 = match x.range_meaning {
        Some(r) => a6.push(',') + range_meaning_text(r),
        None => a6,
    };
    wr_ids(a7, x.identifiers).push(']')
}

pub open spec fn cs_type_text(t: CsType) -> Seq<char> {
    match t {
        CsType::Affine => "affine"@,
        CsType::Cartesian => "Cartesian"@,
        CsType::Cylindrical => "cylindrical"@,
        CsType::Ellipsoidal => "ellipsoidal"@,
        CsType::Linear => "linear"@,
        CsType::Parametric => "parametric"@,
        CsType::Polar => "polar"@,
        CsType::Spherical => "spherical"@,
        CsType::Vertical => "vertical"@,
        CsType::TemporalCount => "temporalCount"@,
        CsType::TemporalMeasure => "temporalMeasure"@,
        CsType::Ordinal => "ordinal"@,
        CsType::TemporalDateTime => "temporalDateTime"@,
    }
}

pub open spec fn wr_axes(acc: Seq<char>, xs: Seq<AxisV>) -> Seq<char> {
    wr_each(acc, xs, |a: Seq<char>, x: AxisV| wr_axis(a, x))
}

/// `CS[type, dimension {, ID}]`, then the axes and the unit as siblings.
pub open spec fn wr_cs(acc: Seq<char>, c: CoordinateSystemV) -> Seq<char> {
    let a0 = ((acc + "CS["@ + cs_type_text(c.cs_type)).push(',') + nat_text(c.dimension as nat));
    let a1 = wr_ids(a0, c.identifiers).push(']');
    let a2 = wr_axes(a1, c.axes);
    wr_opt_unit(a2, c.cs_unit)
}

pub open spec fn wr_method(acc: Seq<char>, m: MapProjectionMethodV) -> Seq<char> {
    wr_ids(wr_quoted(acc + "METHOD["@, m.name), m.identifiers).push(']')
}

pub open spec fn wr_parameter(acc: Seq<char>, p: MapProjectionParameterV) -> Seq<char> {
    let a0 = wr_quoted(acc + "PARAMETER["@, p.name).push(',') + decimal_text(p.value);
    wr_ids(wr_opt_unit(a0, p.unit), p.identifiers).push(']')
}

pub open spec fn wr_parameters(acc: Seq<char>, xs: Seq<MapProjectionParameterV>) -> Seq<char> {
    wr_each(acc, xs, |a: Seq<char>, x: MapProjectionParameterV| wr_parameter(a, x))
}

/// `lit["name", METHOD[...] {, PARAMETER} {, ID}]`; `lit` ends with `[`.
pub open spec fn wr_conversion(acc: Seq<char>, lit: Seq<char>, m: MapProjectionV) -> Seq<char> {
    let a0 = wr_method(wr_quoted(acc + lit, m.name).push(','), m.method);
    let a1 = wr_parameters(a0, m.parameters);
    wr_ids(a1, m.identifiers).push(']')
}

pub open spec fn wr_model(acc: Seq<char>, m: DeformationModelV) -> Seq<char> {
    wr_ids(wr_quoted(acc + "MODEL["@, m.name), m.identifiers).push(']')
}

pub open spec fn wr_dynamic(acc: Seq<char>, d: DynamicCrsV) -> Seq<char> {
    let a0 = (acc + "DYNAMIC[FRAMEEPOCH["@ + decimal_text(d.frame_reference_epoch)).push(']');
    let a1 = match d.deformation_model {
        Some(m) => wr_model(a0.push(','), m),
        None => a0,
    };
    a1.push(']')
}

/// `acc`, then `,` and the dynamic node when there is one.
pub open spec fn wr_opt_dynamic(acc: Seq<char>, d: Option<DynamicCrsV>) -> Seq<char> {
    match d {
        Some(d) => wr_dynamic(acc.push(','), d),
        None => acc,
    }
}

pub open spec fn wr_ellipsoid(acc: Seq<char>, e: EllipsoidV) -> Seq<char> {
    let a0 = (wr_quoted(acc + "ELLIPSOID["@, e.name).push(',') + decimal_text(e.semi_major_axis)).push(
        ',',
    ) + decimal_text(e.inverse_flattening);
    wr_ids(wr_opt_unit(a0, e.unit), e.identifiers).push(']')
}

pub open spec fn wr_pm(acc: Seq<char>, p: PrimeMeridianV) -> Seq<char> {
    let a0 = wr_quoted(acc + "PRIMEM["@, p.name).push(',') + decimal_text(p.irm_longitude);
    wr_ids(wr_opt_unit(a0, p.unit), p.identifiers).push(']')
}

pub open spec fn datum_kw_text(k: DatumKeyword) -> Seq<char> {
    match k {
        DatumKeyword::Datum => "DATUM"@,
        DatumKeyword::Trf => "TRF"@,
        DatumKeyword::GeodeticDatum => "GEODETICDATUM"@,
    }
}

/// `acc`, then `,ANCHOR["..."]` and `,ANCHOREPOCH[...]` when present.
pub open spec fn wr_anchor(acc: Seq<char>, a: Option<Seq<char>>, e: Option<crate::decimal::DecimalV>) -> Seq<char> {
    let a0 = match a {
        Some(t) => wr_quoted(acc + ",ANCHOR["@, t).push(']'),
        None => acc,
    };
    match e {
        Some(d) => (a0 + ",ANCHOREPOCH["@ + decimal_text(d)).push(']'),
        None => a0,
    }
}

/// A geodetic reference frame; its prime meridian is written by the parent.
pub open spec fn wr_grf(acc: Seq<char>, f: GeodeticReferenceFrameV) -> Seq<char> {
    let a0 = wr_ellipsoid(wr_quoted((acc + datum_kw_text(f.keyword)).push('['), f.name).push(','), f.ellipsoid);
    wr_ids(wr_anchor(a0, f.anchor, f.anchor_epoch), f.identifiers).push(']')
}

pub open spec fn wr_member(acc: Seq<char>, m: EnsembleMemberV) -> Seq<char> {
    wr_ids(wr_quoted(acc + "MEMBER["@, m.name), m.identifiers).push(']')
}

pub open spec fn wr_members(acc: Seq<char>, xs: Seq<EnsembleMemberV>) -> Seq<char> {
    wr_each(acc, xs, |a: Seq<char>, x: EnsembleMemberV| wr_member(a, x))
}

/// A datum ensemble; its prime meridian is written by the parent.
pub open spec fn wr_ensemble(acc: Seq<char>, e: DatumEnsembleV) -> Seq<char> {
    let a0 = wr_members(wr_quoted(acc + "ENSEMBLE["@, e.name), e.members);
    let a1 = match e.ellipsoid {
        Some(el) => wr_ellipsoid(a0.push(','), el),
        None => a0,
    };
    let a2 = (a1 + ",ENSEMBLEACCURACY["@ + decimal_text(e.accuracy)).push(']');
    wr_ids(a2, e.identifiers).push(']')
}

/// `acc`, then `,` and the prime meridian when there is one.
pub open spec fn wr_opt_pm(acc: Seq<char>, p: Option<PrimeMeridianV>) -> Seq<char> {
    match p {
        Some(p) => wr_pm(acc.push(','), p),
        None => acc,
    }
}

/// `,` and a geodetic datum, then `,` and its prime meridian as a sibling.
pub open spec fn wr_datum(acc: Seq<char>, d: DatumV) -> Seq<char> {
    match d {
        DatumV::ReferenceFrame(f) => wr_opt_pm(wr_grf(acc.push(','), f), f.prime_meridian),
        DatumV::Ensemble(e) => wr_opt_pm(wr_ensemble(acc.push(','), e), e.prime_meridian),
    }
}

pub open spec fn base_geodetic_kw_text(k: BaseGeodeticCrsKeyword) -> Seq<char> {
    match k {
        BaseGeodeticCrsKeyword::BaseGeodCrs => "BASEGEODCRS"@,
        BaseGeodeticCrsKeyword::BaseGeogCrs => "BASEGEOGCRS"@,
    }
}

pub open spec fn wr_base_geodetic(acc: Seq<char>, b: BaseGeodeticCrsV) -> Seq<char> {
    let a0 = wr_quoted((acc + base_geodetic_kw_text(b.keyword)).push('['), b.name);
    let a1 = wr_datum(wr_opt_dynamic(a0, b.dynamic), b.datum);
    wr_ids(wr_opt_unit(a1, b.ellipsoidal_cs_unit), b.identifiers).push(']')
}

/// The usages, identifiers and remark of a CRS, and its closing `]`.
pub open spec fn wr_crs_tail(
    acc: Seq<char>,
    us: Seq<UsageV>,
    ids: Seq<IdentifierV>,
    r: Option<Seq<char>>,
) -> Seq<char> {
    wr_remark(wr_ids(wr_usages(acc, us), ids), r).push(']')
}

pub open spec fn wr_projected(acc: Seq<char>, c: ProjectedCrsV) -> Seq<char> {
    let a0 = wr_base_geodetic(wr_quoted(acc + "PROJCRS["@, c.name).push(','), c.base_geodetic_crs);
    let a1 = wr_cs(wr_conversion(a0.push(','), "CONVERSION["@, c.map_projection).push(','), c.coordinate_system);
    wr_crs_tail(a1, c.usages, c.identifiers, c.remark)
}

pub open spec fn geog_kw_text(k: GeogCrsKeyword) -> Seq<char> {
    match k {
        GeogCrsKeyword::GeogCrs => "GEOGCRS"@,
        GeogCrsKeyword::GeographicCrs => "GEOGRAPHICCRS"@,
    }
}

pub open spec fn geod_kw_text(k: GeodCrsKeyword) -> Seq<char> {
    match k {
        GeodCrsKeyword::GeodCrs => "GEODCRS"@,
        GeodCrsKeyword::GeodeticCrs => "GEODETICCRS"@,
    }
}

pub open spec fn wr_geog(acc: Seq<char>, c: GeogCrsV) -> Seq<char> {
    let a0 = wr_quoted((acc + geog_kw_text(c.keyword)).push('['), c.name);
    let a1 = wr_cs(wr_datum(wr_opt_dynamic(a0, c.dynamic), c.datum).push(','), c.coordinate_system);
    wr_crs_tail(a1, c.usages, c.identifiers, c.remark)
}

pub open spec fn wr_geod(acc: Seq<char>, c: GeodCrsV) -> Seq<char> {
    let a0 = wr_quoted((acc + geod_kw_text(c.keyword)).push('['), c.name);
    let a1 = wr_cs(wr_datum(wr_opt_dynamic(a0, c.dynamic), c.datum).push(','), c.coordinate_system);
    wr_crs_tail(a1, c.usages, c.identifiers, c.remark)
}

pub open spec fn vrf_kw_text(k: VerticalReferenceFrameKeyword) -> Seq<char> {
    match k {
        VerticalReferenceFrameKeyword::VDatum => "VDATUM"@,
        VerticalReferenceFrameKeyword::Vrf => "VRF"@,
        VerticalReferenceFrameKeyword::VerticalDatum => "VERTICALDATUM"@,
    }
}

pub open spec fn wr_vrf(acc: Seq<char>, f: VerticalReferenceFrameV) -> Seq<char> {
    let a0 = wr_quoted((acc + vrf_kw_text(f.keyword)).push('['), f.name);
    wr_ids(wr_anchor(a0, f.anchor, f.anchor_epoch), f.identifiers).push(']')
}

/// `,` and a vertical datum.
pub open spec fn wr_vdatum(acc: Seq<char>, d: VerticalDatumV) -> Seq<char> {
    match d {
        VerticalDatumV::ReferenceFrame(f) => wr_vrf(acc.push(','), f),
        VerticalDatumV::Ensemble(e) => wr_ensemble(acc.push(','), e),
    }
}

pub open spec fn wr_base_vert(acc: Seq<char>, b: BaseVertCrsV) -> Seq<char> {
    let a0 = wr_quoted(acc + "BASEVERTCRS["@, b.name);
    wr_ids(wr_vdatum(wr_opt_dynamic(a0, b.dynamic), b.datum), b.identifiers).push(']')
}

pub open spec fn wr_geoid(acc: Seq<char>, g: GeoidModelV) -> Seq<char> {
    wr_ids(wr_quoted(acc + "GEOIDMODEL["@, g.name), g.identifiers).push(']')
}

pub open spec fn wr_geoids(acc: Seq<char>, xs: Seq<GeoidModelV>) -> Seq<char> {
    wr_each(acc, xs, |a: Seq<char>, x: GeoidModelV| wr_geoid(a, x))
}

pub open spec fn vert_kw_text(k: VertCrsKeyword) -> Seq<char> {
    match k {
        VertCrsKeyword::VertCrs => "VERTCRS"@,
        VertCrsKeyword::VerticalCrs => "VERTICALCRS"@,
    }
}

pub open spec fn wr_vert_source(acc: Seq<char>, src: VertCrsSourceV) -> Seq<char> {
    match src {
        VertCrsSourceV::Datum { dynamic, datum } => wr_vdatum(wr_opt_dynamic(acc, dynamic), datum),
        VertCrsSourceV::Derived { base_vert_crs, deriving_conversion } => wr_conversion(
            wr_base_vert(acc.push(','), base_vert_crs).push(','),
            "DERIVINGCONVERSION["@,
            deriving_conversion,
        ),
    }
}

pub open spec fn wr_vert(acc: Seq<char>, c: VertCrsV) -> Seq<char> {
    let a0 = wr_vert_source(wr_quoted((acc + vert_kw_text(c.keyword)).push('['), c.name), c.source);
    let a1 = wr_cs(a0.push(','), c.coordinate_system);
    let a2 = wr_geoids(a1, c.geoid_models);
    wr_crs_tail(a2, c.usages, c.identifiers, c.remark)
}

pub open spec fn wr_single(acc: Seq<char>, c: SingleCrsV) -> Seq<char> {
    match c {
        SingleCrsV::ProjectedCrs(x) => wr_projected(acc, x),
        SingleCrsV::GeogCrs(x) => wr_geog(acc, x),
        SingleCrsV::GeodCrs(x) => wr_geod(acc, x),
        SingleCrsV::VertCrs(x) => wr_vert(acc, x),
        SingleCrsV::Other(raw) => acc + raw,
    }
}

pub open spec fn wr_components(acc: Seq<char>, xs: Seq<SingleCrsV>) -> Seq<char> {
    wr_each(acc, xs, |a: Seq<char>, x: SingleCrsV| wr_single(a, x))
}

pub open spec fn wr_compound(acc: Seq<char>, c: CompoundCrsV) -> Seq<char> {
    let a0 = wr_components(wr_quoted(acc + "COMPOUNDCRS["@, c.name), c.components);
    wr_crs_tail(a0, c.usages, c.identifiers, c.remark)
}

pub open spec fn wr_crs(acc: Seq<char>, c: CrsV) -> Seq<char> {
    match c {
        CrsV::ProjectedCrs(x) => wr_projected(acc, x),
        CrsV::GeogCrs(x) => wr_geog(acc, x),
        CrsV::GeodCrs(x) => wr_geod(acc, x),
        CrsV::VertCrs(x) => wr_vert(acc, x),
        CrsV::CompoundCrs(x) => wr_compound(acc, x),
    }
}

/// The WKT2 text of a CRS.
pub open spec fn wkt2_text(c: CrsV) -> Seq<char> {
    wr_crs(Seq::empty(), c)
}

fn write_quoted(out: &mut String, t: &String)
    ensures
        final(out)@ == wr_quoted(old(out)@, t@),
{
    push_char(out, '"');
    push_str(out, t.as_str());
    push_char(out, '"');
}

impl AuthorityId {
    fn write_wkt2(&self, out: &mut String)
        ensures
            final(out)@ == wr_aid(old(out)@, self@),
    {
        match self {
            AuthorityId::Number(d) => d.write_text(out),
            AuthorityId::Text(t) => write_quoted(out, t),
        }
    }
}

impl Identifier {
    fn write_wkt2(&self, out: &mut String)
        ensures
            final(out)@ == wr_id(old(out)@, self@),
    {
        push_str(out, "ID[");
        write_quoted(out, &self.authority_name);
        push_char(out, ',');
        self.authority_unique_id.write_wkt2(out);
        match &self.version {
            Some(v) => {
                push_char(out, ',');
                v.write_wkt2(out);
            },
            None => {},
        }
        match &self.citation {
            Some(c) => {
                push_str(out, ",CITATION[");
                write_quoted(out, c);
                push_char(out, ']');
            },
            None => {},
        }
        match &self.uri {
            Some(u) => {
                push_str(out, ",URI[");
                write_quoted(out, u);
                push_char(out, ']');
            },
            None => {},
        }
        push_char(out, ']');
    }
}

fn write_ids(out: &mut String, ids: &Vec<Identifier>)
    ensures
        final(out)@ == wr_ids(old(out)@, ids_v(*ids)),
{
    let ghost xs = ids_v(*ids);
    let mut i: usize = 0;
    assert(xs.take(0) =~= Seq::<IdentifierV>::empty());
    while i < ids.len()
        invariant
            i <= ids@.len(),
            xs == ids_v(*ids),
            out@ == wr_ids(old(out)@, xs.take(i as int)),
        decreases ids@.len() - i,
    {
        let ghost prev = out@;
        push_char(out, ',');
        ids[i].write_wkt2(out);
        proof {
            assert(xs.take(i + 1).drop_last() =~= xs.take(i as int));
            assert(xs.take(i + 1).last() == ids@[i as int]@);
            assert(out@ == wr_id(prev.push(','), ids@[i as int]@));
        }
        i = i + 1;
    }
    assert(xs.take(i as int) =~= xs);
}

pub fn unit_keyword_text(k: UnitKeyword) -> (r: &'static str)
    ensures
        r@ == unit_kw_text(k),
{
    match k {
        UnitKeyword::AngleUnit => "ANGLEUNIT",
        UnitKeyword::LengthUnit => "LENGTHUNIT",
        UnitKeyword::ParametricUnit => "PARAMETRICUNIT",
        UnitKeyword::ScaleUnit => "SCALEUNIT",
        UnitKeyword::TimeUnit => "TIMEUNIT",
        UnitKeyword::Unit => "UNIT",
    }
}

impl Unit {
    fn write_wkt2(&self, out: &mut String)
        ensures
            final(out)@ == wr_unit(old(out)@, self@),
    {
        push_str(out, unit_keyword_text(self.keyword));
        push_char(out, '[');
        write_quoted(out, &self.name);
        match &self.conversion_factor {
            Some(f) => {
                push_char(out, ',');
                f.write_text(out);
            },
            None => {},
        }
        write_ids(out, &self.identifiers);
        push_char(out, ']');
    }
}

fn write_opt_unit(out: &mut String, u: &Option<Unit>)
    ensures
        final(out)@ == wr_opt_unit(old(out)@, crate::model::opt_unit(*u)),
{
    match u {
        Some(u) => {
            push_char(out, ',');
            u.write_wkt2(out);
        },
        None => {},
    }
}

impl BBox {
    fn write_wkt2(&self, out: &mut String)
        ensures
            final(out)@ == wr_bbox(old(out)@, self@),
    {
        push_str(out, "BBOX[");
        self.lower_left_latitude.write_text(out);
        push_char(out, ',');
        self.lower_left_longitude.write_text(out);
        push_char(out, ',');
        self.upper_right_latitude.write_text(out);
        push_char(out, ',');
        self.upper_right_longitude.write_text(out);
        push_char(out, ']');
    }
}

impl VerticalExtent {
    fn write_wkt2(&self, out: &mut String)
        ensures
            final(out)@ == wr_vextent(old(out)@, self@),
    {
        push_str(out, "VERTICALEXTENT[");
        self.minimum_height.write_text(out);
        push_char(out, ',');
        self.maximum_height.write_text(out);
        write_opt_unit(out, &self.unit);
        push_char(out, ']');
    }
}

fn write_temporal_value(out: &mut String, t: &String)
    ensures
        final(out)@ == wr_temporal_value(old(out)@, t@),
{
    let starts_with_digit = t.as_str().unicode_len() > 0 && {
        let c = t.as_str().get_char(0);
        '0' <= c && c <= '9'
    };
    if starts_with_digit {
        push_str(out, t.as_str());
    } else {
        write_quoted(out, t);
    }
}

impl TemporalExtent {
    fn write_wkt2(&self, out: &mut String)
        ensures
            final(out)@ == wr_textent(old(out)@, self@),
    {
        push_str(out, "TIMEEXTENT[");
        write_temporal_value(out, &self.start);
        push_char(out, ',');
        write_temporal_value(out, &self.end);
        push_char(out, ']');
    }
}

impl Usage {
    fn write_wkt2(&self, out: &mut String)
        ensures
            final(out)@ == wr_usage(old(out)@, self@),
    {
        push_str(out, "USAGE[SCOPE[");
        write_quoted(out, &self.scope);
        push_char(out, ']');
        match &self.area {
            Some(t) => {
                push_str(out, ",AREA[");
                write_quoted(out, t);
                push_char(out, ']');
            },
            None => {},
        }
        match &self.bbox {
            Some(b) => {
                push_char(out, ',');
                b.write_wkt2(out);
            },
            None => {},
        }
        match &self.vertical_extent {
            Some(v) => {
                push_char(out, ',');
                v.write_wkt2(out);
            },
            None => {},
        }
        match &self.temporal_extent {
            Some(t) => {
                push_char(out, ',');
                t.write_wkt2(out);
            },
            None => {},
        }
        push_char(out, ']');
    }
}

fn write_usages(out: &mut String, us: &Vec<Usage>)
    ensures
        final(out)@ == wr_usages(old(out)@, crate::model::usages_v(*us)),
{
    let ghost xs = crate::model::usages_v(*us);
    let mut i: usize = 0;
    assert(xs.take(0) =~= Seq::<UsageV>::empty());
    while i < us.len()
        invariant
            i <= us@.len(),
            xs == crate::model::usages_v(*us),
            out@ == wr_usages(old(out)@, xs.take(i as int)),
        decreases us@.len() - i,
    {
        let ghost prev = out@;
        push_char(out, ',');
        us[i].write_wkt2(out);
        proof {
            assert(xs.take(i + 1).drop_last() =~= xs.take(i as int));
            assert(xs.take(i + 1).last() == us@[i as int]@);
            assert(out@ == wr_usage(prev.push(','), us@[i as int]@));
        }
        i = i + 1;
    }
    assert(xs.take(i as int) =~= xs);
}

fn write_remark(out: &mut String, r: &Option<String>)
    ensures
        final(out)@ == wr_remark(old(out)@, crate::model::opt_text(*r)),
{
    match r {
        Some(t) => {
            push_str(out, ",REMARK[");
            write_quoted(out, t);
            push_char(out, ']');
        },
        None => {},
    }
}

impl Meridian {
    fn write_wkt2(&self, out: &mut String)
        ensures
            final(out)@ == wr_meridian(old(out)@, self@),
    {
        push_str(out, "MERIDIAN[");
        self.value.write_text(out);
        push_char(out, ',');
        self.unit.write_wkt2(out);
        push_char(out, ']');
    }
}

impl Axis {
    fn write_wkt2(&self, out: &mut String)
        ensures
            final(out)@ == wr_axis(old(out)@, self@),
    {
        push_str(out, "AXIS[");
        write_quoted(out, &self.name_abbrev);
        push_char(out, ',');
        push_str(out, self.direction.as_str());
        match &self.meridian {
            Some(m) => {
                push_char(out, ',');
                m.write_wkt2(out);
            },
            None => {},
        }
        match &self.bearing {
            Some(b) => {
                push_str(out, ",BEARING[");
                b.write_text(out);
                push_char(out, ']');
            },
            None => {},
        }
        match self.order {
            Some(o) => {
                push_str(out, ",ORDER[");
                push_nat(out, o as u64);
                push_char(out, ']');
            },
            None => {},
        }
        write_opt_unit(out, &self.unit);
        match &self.axis_min_value {
            Some(v) => {
                push_str(out, ",AXISMINVALUE[");
                v.write_text(out);
                push_char(out, ']');
            },
            None => {},
        }
        match &self.axis_max_value {
            Some(v) => {
                push_str(out, ",AXISMAXVALUE[");
                v.write_text(out);
                push_char(out, ']');
            },
            None => {},
        }
        match self.range_meaning {
            Some(r) => {
                push_char(out, ',');
                push_str(
                    out,
                    match r {
                        RangeMeaning::Exact => "RANGEMEANING[exact]",
                        RangeMeaning::Wraparound => "RANGEMEANING[wraparound]",
                    },
                );
            },
            None => {},
        }
        write_ids(out, &self.identifiers);
        push_char(out, ']');
    }
}

fn write_axes(out: &mut String, v: &Vec<Axis>)
    ensures
        final(out)@ == wr_axes(old(out)@, v@.map_values(|x: Axis| x@)),
{
    let ghost xs = v@.map_values(|x: Axis| x@);
    let mut i: usize = 0;
    assert(xs.take(0) =~= Seq::<AxisV>::empty());
    while i < v.len()
        invariant
            i <= v@.len(),
            xs == v@.map_values(|x: Axis| x@),
            out@ == wr_axes(old(out)@, xs.take(i as int)),
        decreases v@.len() - i,
    {
        let ghost prev = out@;
        push_char(out, ',');
        v[i].write_wkt2(out);
        proof {
            assert(xs.take(i + 1).drop_last() =~= xs.take(i as int));
            assert(xs.take(i + 1).last() == v@[i as int]@);
            assert(out@ == wr_axis(prev.push(','), v@[i as int]@));
        }
        i = i + 1;
    }
    assert(xs.take(i as int) =~= xs);
}

pub fn cs_type_name(t: CsType) -> (r: &'static str)
    ensures
        r@ == cs_type_text(t),
{
    match t {
        CsType::Affine => "affine",
        CsType::Cartesian => "Cartesian",
        CsType::Cylindrical => "cylindrical",
        CsType::Ellipsoidal => "ellipsoidal",
        CsType::Linear => "linear",
        CsType::Parametric => "parametric",
        CsType::Polar => "polar",
        CsType::Spherical => "spherical",
        CsType::Vertical => "vertical",
        CsType::TemporalCount => "temporalCount",
        CsType::TemporalMeasure => "temporalMeasure",
        CsType::Ordinal => "ordinal",
        CsType::TemporalDateTime => "temporalDateTime",
    }
}

impl CoordinateSystem {
    fn write_wkt2(&self, out: &mut String)
        ensures
            final(out)@ == wr_cs(old(out)@, self@),
    {
        push_str(out, "CS[");
        push_str(out, cs_type_name(self.cs_type));
        push_char(out, ',');
        push_nat(out, self.dimension as u64);
        write_ids(out, &self.identifiers);
        push_char(out, ']');
        write_axes(out, &self.axes);
        write_opt_unit(out, &self.cs_unit);
    }
}

impl MapProjectionMethod {
    fn write_wkt2(&self, out: &mut String)
        ensures
            final(out)@ == wr_method(old(out)@, self@),
    {
        push_str(out, "METHOD[");
        write_quoted(out, &self.name);
        write_ids(out, &self.identifiers);
        push_char(out, ']');
    }
}

impl MapProjectionParameter {
    fn write_wkt2(&self, out: &mut String)
        ensures
            final(out)@ == wr_parameter(old(out)@, self@),
    {
        push_str(out, "PARAMETER[");
        write_quoted(out, &self.name);
        push_char(out, ',');
        self.value.write_text(out);
        write_opt_unit(out, &self.unit);
        write_ids(out, &self.identifiers);
        push_char(out, ']');
    }
}

fn write_parameters(out: &mut String, v: &Vec<MapProjectionParameter>)
    ensures
        final(out)@ == wr_parameters(old(out)@, v@.map_values(|x: MapProjectionParameter| x@)),
{
    let ghost xs = v@.map_values(|x: MapProjectionParameter| x@);
    let mut i: usize = 0;
    assert(xs.take(0) =~= Seq::<MapProjectionParameterV>::empty());
    while i < v.len()
        invariant
            i <= v@.len(),
            xs == v@.map_values(|x: MapProjectionParameter| x@),
            out@ == wr_parameters(old(out)@, xs.take(i as int)),
        decreases v@.len() - i,
    {
        let ghost prev = out@;
        push_char(out, ',');
        v[i].write_wkt2(out);
        proof {
            assert(xs.take(i + 1).drop_last() =~= xs.take(i as int));
            assert(xs.take(i + 1).last() == v@[i as int]@);
            assert(out@ == wr_parameter(prev.push(','), v@[i as int]@));
        }
        i = i + 1;
    }
    assert(xs.take(i as int) =~= xs);
}

impl MapProjection {
    /// The node opened by `lit` (`"CONVERSION["` or `"DERIVINGCONVERSION["`).
    fn write_wkt2_as(&self, lit: &str, out: &mut String)
        ensures
            final(out)@ == wr_conversion(old(out)@, lit@, self@),
    {
        push_str(out, lit);
        write_quoted(out, &self.name);
        push_char(out, ',');
        self.method.write_wkt2(out);
        write_parameters(out, &self.parameters);
        write_ids(out, &self.identifiers);
        push_char(out, ']');
    }
}

impl DeformationModel {
    fn write_wkt2(&self, out: &mut String)
        ensures
            final(out)@ == wr_model(old(out)@, self@),
    {
        push_str(out, "MODEL[");
        write_quoted(out, &self.name);
        write_ids(out, &self.identifiers);
        push_char(out, ']');
    }
}

impl DynamicCrs {
    fn write_wkt2(&self, out: &mut String)
        ensures
            final(out)@ == wr_dynamic(old(out)@, self@),
    {
        push_str(out, "DYNAMIC[FRAMEEPOCH[");
        self.frame_reference_epoch.write_text(out);
        push_char(out, ']');
        match &self.deformation_model {
            Some(m) => {
                push_char(out, ',');
                m.write_wkt2(out);
            },
            None => {},
        }
        push_char(out, ']');
    }
}

fn write_opt_dynamic(out: &mut String, d: &Option<DynamicCrs>)
    ensures
        final(out)@ == wr_opt_dynamic(old(out)@, crate::model::opt_dynamic(*d)),
{
    match d {
        Some(d) => {
            push_char(out, ',');
            d.write_wkt2(out);
        },
        None => {},
    }
}

impl Ellipsoid {
    fn write_wkt2(&self, out: &mut String)
        ensures
            final(out)@ == wr_ellipsoid(old(out)@, self@),
    {
        push_str(out, "ELLIPSOID[");
        write_quoted(out, &self.name);
        push_char(out, ',');
        self.semi_major_axis.write_text(out);
        push_char(out, ',');
        self.inverse_flattening.write_text(out);
        write_opt_unit(out, &self.unit);
        write_ids(out, &self.identifiers);
        push_char(out, ']');
    }
}

impl PrimeMeridian {
    fn write_wkt2(&self, out: &mut String)
        ensures
            final(out)@ == wr_pm(old(out)@, self@),
    {
        push_str(out, "PRIMEM[");
        write_quoted(out, &self.name);
        push_char(out, ',');
        self.irm_longitude.write_text(out);
        write_opt_unit(out, &self.unit);
        write_ids(out, &self.identifiers);
        push_char(out, ']');
    }
}

fn write_anchor(out: &mut String, a: &Option<String>, e: &Option<crate::decimal::Decimal>)
    ensures
        final(out)@ == wr_anchor(old(out)@, crate::model::opt_text(*a), crate::model::opt_dec(*e)),
{
    match a {
        Some(t) => {
            push_str(out, ",ANCHOR[");
            write_quoted(out, t);
            push_char(out, ']');
        },
        None => {},
    }
    match e {
        Some(d) => {
            push_str(out, ",ANCHOREPOCH[");
            d.write_text(out);
            push_char(out, ']');
        },
        None => {},
    }
}

impl GeodeticReferenceFrame {
    fn write_wkt2(&self, out: &mut String)
        ensures
            final(out)@ == wr_grf(old(out)@, self@),
    {
        push_str(
            out,
            match self.keyword {
                DatumKeyword::Datum => "DATUM",
                DatumKeyword::Trf => "TRF",
                DatumKeyword::GeodeticDatum => "GEODETICDATUM",
            },
        );
        push_char(out, '[');
        write_quoted(out, &self.name);
        push_char(out, ',');
        self.ellipsoid.write_wkt2(out);
        write_anchor(out, &self.anchor, &self.anchor_epoch);
        write_ids(out, &self.identifiers);
        push_char(out, ']');
    }
}

impl EnsembleMember {
    fn write_wkt2(&self, out: &mut String)
        ensures
            final(out)@ == wr_member(old(out)@, self@),
    {
        push_str(out, "MEMBER[");
        write_quoted(out, &self.name);
        write_ids(out, &self.identifiers);
        push_char(out, ']');
    }
}

fn write_members(out: &mut String, v: &Vec<EnsembleMember>)
    ensures
        final(out)@ == wr_members(old(out)@, v@.map_values(|x: EnsembleMember| x@)),
{
    let ghost xs = v@.map_values(|x: EnsembleMember| x@);
    let mut i: usize = 0;
    assert(xs.take(0) =~= Seq::<EnsembleMemberV>::empty());
    while i < v.len()
        invariant
            i <= v@.len(),
            xs == v@.map_values(|x: EnsembleMember| x@),
            out@ == wr_members(old(out)@, xs.take(i as int)),
        decreases v@.len() - i,
    {
        let ghost prev = out@;
        push_char(out, ',');
        v[i].write_wkt2(out);
        proof {
            assert(xs.take(i + 1).drop_last() =~= xs.take(i as int));
            assert(xs.take(i + 1).last() == v@[i as int]@);
            assert(out@ == wr_member(prev.push(','), v@[i as int]@));
        }
        i = i + 1;
    }
    assert(xs.take(i as int) =~= xs);
}

impl DatumEnsemble {
    fn write_wkt2(&self, out: &mut String)
        ensures
            final(out)@ == wr_ensemble(old(out)@, self@),
    {
        push_str(out, "ENSEMBLE[");
        write_quoted(out, &self.name);
        write_members(out, &self.members);
        match &self.ellipsoid {
            Some(e) => {
                push_char(out, ',');
                e.write_wkt2(out);
            },
            None => {},
        }
        push_str(out, ",ENSEMBLEACCURACY[");
        self.accuracy.write_text(out);
        push_char(out, ']');
        write_ids(out, &self.identifiers);
        push_char(out, ']');
    }
}

fn write_opt_pm(out: &mut String, p: &Option<PrimeMeridian>)
    ensures
        final(out)@ == wr_opt_pm(old(out)@, crate::model::opt_pm(*p)),
{
    match p {
        Some(p) => {
            push_char(out, ',');
            p.write_wkt2(out);
        },
        None => {},
    }
}

impl Datum {
    fn write_wkt2(&self, out: &mut String)
        ensures
            final(out)@ == wr_datum(old(out)@, self@),
    {
        match self {
            Datum::ReferenceFrame(f) => {
                push_char(out, ',');
                f.write_wkt2(out);
                write_opt_pm(out, &f.prime_meridian);
            },
            Datum::Ensemble(e) => {
                push_char(out, ',');
                e.write_wkt2(out);
                write_opt_pm(out, &e.prime_meridian);
            },
        }
    }
}

impl BaseGeodeticCrs {
    fn write_wkt2(&self, out: &mut String)
        ensures
            final(out)@ == wr_base_geodetic(old(out)@, self@),
    {
        push_str(
            out,
            match self.keyword {
                BaseGeodeticCrsKeyword::BaseGeodCrs => "BASEGEODCRS",
                BaseGeodeticCrsKeyword::BaseGeogCrs => "BASEGEOGCRS",
            },
        );
        push_char(out, '[');
        write_quoted(out, &self.name);
        write_opt_dynamic(out, &self.dynamic);
        self.datum.write_wkt2(out);
        write_opt_unit(out, &self.ellipsoidal_cs_unit);
        write_ids(out, &self.identifiers);
        push_char(out, ']');
    }
}

fn write_crs_tail(out: &mut String, us: &Vec<Usage>, ids: &Vec<Identifier>, r: &Option<String>)
    ensures
        final(out)@ == wr_crs_tail(
            old(out)@,
            crate::model::usages_v(*us),
            ids_v(*ids),
            crate::model::opt_text(*r),
        ),
{
    write_usages(out, us);
    write_ids(out, ids);
    write_remark(out, r);
    push_char(out, ']');
}

impl ProjectedCrs {
    fn write_wkt2(&self, out: &mut String)
        ensures
            final(out)@ == wr_projected(old(out)@, self@),
    {
        push_str(out, "PROJCRS[");
        write_quoted(out, &self.name);
        push_char(out, ',');
        self.base_geodetic_crs.write_wkt2(out);
        push_char(out, ',');
        self.map_projection.write_wkt2_as("CONVERSION[", out);
        push_char(out, ',');
        self.coordinate_system.write_wkt2(out);
        write_crs_tail(out, &self.usages, &self.identifiers, &self.remark);
    }
}

impl GeogCrs {
    fn write_wkt2(&self, out: &mut String)
        ensures
            final(out)@ == wr_geog(old(out)@, self@),
    {
        push_str(
            out,
            match self.keyword {
                GeogCrsKeyword::GeogCrs => "GEOGCRS",
                GeogCrsKeyword::GeographicCrs => "GEOGRAPHICCRS",
            },
        );
        push_char(out, '[');
        write_quoted(out, &self.name);
        write_opt_dynamic(out, &self.dynamic);
        self.datum.write_wkt2(out);
        push_char(out, ',');
        self.coordinate_system.write_wkt2(out);
        write_crs_tail(out, &self.usages, &self.identifiers, &self.remark);
    }
}

impl GeodCrs {
    fn write_wkt2(&self, out: &mut String)
        ensures
            final(out)@ == wr_geod(old(out)@, self@),
    {
        push_str(
            out,
            match self.keyword {
                GeodCrsKeyword::GeodCrs => "GEODCRS",
                GeodCrsKeyword::GeodeticCrs => "GEODETICCRS",
            },
        );
        push_char(out, '[');
        write_quoted(out, &self.name);
        write_opt_dynamic(out, &self.dynamic);
        self.datum.write_wkt2(out);
        push_char(out, ',');
        self.coordinate_system.write_wkt2(out);
        write_crs_tail(out, &self.usages, &self.identifiers, &self.remark);
    }
}

impl VerticalReferenceFrame {
    fn write_wkt2(&self, out: &mut String)
        ensures
            final(out)@ == wr_vrf(old(out)@, self@),
    {
        push_str(
            out,
            match self.keyword {
                VerticalReferenceFrameKeyword::VDatum => "VDATUM",
                VerticalReferenceFrameKeyword::Vrf => "VRF",
                VerticalReferenceFrameKeyword::VerticalDatum => "VERTICALDATUM",
            },
        );
        push_char(out, '[');
        write_quoted(out, &self.name);
        write_anchor(out, &self.anchor, &self.anchor_epoch);
        write_ids(out, &self.identifiers);
        push_char(out, ']');
    }
}

impl VerticalDatum {
    fn write_wkt2(&self, out: &mut String)
        ensures
            final(out)@ == wr_vdatum(old(out)@, self@),
    {
        push_char(out, ',');
        match self {
            VerticalDatum::ReferenceFrame(f) => f.write_wkt2(out),
            VerticalDatum::Ensemble(e) => e.write_wkt2(out),
        }
    }
}

impl BaseVertCrs {
    fn write_wkt2(&self, out: &mut String)
        ensures
            final(out)@ == wr_base_vert(old(out)@, self@),
    {
        push_str(out, "BASEVERTCRS[");
        write_quoted(out, &self.name);
        write_opt_dynamic(out, &self.dynamic);
        self.datum.write_wkt2(out);
        write_ids(out, &self.identifiers);
        push_char(out, ']');
    }
}

impl GeoidModel {
    fn write_wkt2(&self, out: &mut String)
        ensures
            final(out)@ == wr_geoid(old(out)@, self@),
    {
        push_str(out, "GEOIDMODEL[");
        write_quoted(out, &self.name);
        write_ids(out, &self.identifiers);
        push_char(out, ']');
    }
}

fn write_geoids(out: &mut String, v: &Vec<GeoidModel>)
    ensures
        final(out)@ == wr_geoids(old(out)@, v@.map_values(|x: GeoidModel| x@)),
{
    let ghost xs = v@.map_values(|x: GeoidModel| x@);
    let mut i: usize = 0;
    assert(xs.take(0) =~= Seq::<GeoidModelV>::empty());
    while i < v.len()
        invariant
            i <= v@.len(),
            xs == v@.map_values(|x: GeoidModel| x@),
            out@ == wr_geoids(old(out)@, xs.take(i as int)),
        decreases v@.len() - i,
    {
        let ghost prev = out@;
        push_char(out, ',');
        v[i].write_wkt2(out);
        proof {
            assert(xs.take(i + 1).drop_last() =~= xs.take(i as int));
            assert(xs.take(i + 1).last() == v@[i as int]@);
            assert(out@ == wr_geoid(prev.push(','), v@[i as int]@));
        }
        i = i + 1;
    }
    assert(xs.take(i as int) =~= xs);
}

impl VertCrsSource {
    fn write_wkt2(&self, out: &mut String)
        ensures
            final(out)@ == wr_vert_source(old(out)@, self@),
    {
        match self {
            VertCrsSource::Datum { dynamic, datum } => {
                write_opt_dynamic(out, dynamic);
                datum.write_wkt2(out);
            },
            VertCrsSource::Derived { base_vert_crs, deriving_conversion } => {
                push_char(out, ',');
                base_vert_crs.write_wkt2(out);
                push_char(out, ',');
                deriving_conversion.write_wkt2_as("DERIVINGCONVERSION[", out);
            },
        }
    }
}

impl VertCrs {
    fn write_wkt2(&self, out: &mut String)
        ensures
            final(out)@ == wr_vert(old(out)@, self@),
    {
        push_str(
            out,
            match self.keyword {
                VertCrsKeyword::VertCrs => "VERTCRS",
                VertCrsKeyword::VerticalCrs => "VERTICALCRS",
            },
        );
        push_char(out, '[');
        write_quoted(out, &self.name);
        self.source.write_wkt2(out);
        push_char(out, ',');
        self.coordinate_system.write_wkt2(out);
        write_geoids(out, &self.geoid_models);
        write_crs_tail(out, &self.usages, &self.identifiers, &self.remark);
    }
}

impl SingleCrs {
    fn write_wkt2(&self, out: &mut String)
        ensures
            final(out)@ == wr_single(old(out)@, self@),
    {
        match self {
            SingleCrs::ProjectedCrs(c) => c.write_wkt2(out),
            SingleCrs::GeogCrs(c) => c.write_wkt2(out),
            SingleCrs::GeodCrs(c) => c.write_wkt2(out),
            SingleCrs::VertCrs(c) => c.write_wkt2(out),
            SingleCrs::Other(raw) => push_str(out, raw.as_str()),
        }
    }
}

fn write_components(out: &mut String, v: &Vec<SingleCrs>)
    ensures
        final(out)@ == wr_components(old(out)@, v@.map_values(|x: SingleCrs| x@)),
{
    let ghost xs = v@.map_values(|x: SingleCrs| x@);
    let mut i: usize = 0;
    assert(xs.take(0) =~= Seq::<SingleCrsV>::empty());
    while i < v.len()
        invariant
            i <= v@.len(),
            xs == v@.map_values(|x: SingleCrs| x@),
            out@ == wr_components(old(out)@, xs.take(i as int)),
        decreases v@.len() - i,
    {
        let ghost prev = out@;
        push_char(out, ',');
        v[i].write_wkt2(out);
        proof {
            assert(xs.take(i + 1).drop_last() =~= xs.take(i as int));
            assert(xs.take(i + 1).last() == v@[i as int]@);
            assert(out@ == wr_single(prev.push(','), v@[i as int]@));
        }
        i = i + 1;
    }
    assert(xs.take(i as int) =~= xs);
}

impl CompoundCrs {
    fn write_wkt2(&self, out: &mut String)
        ensures
            final(out)@ == wr_compound(old(out)@, self@),
    {
        push_str(out, "COMPOUNDCRS[");
        write_quoted(out, &self.name);
        write_components(out, &self.components);
        write_crs_tail(out, &self.usages, &self.identifiers, &self.remark);
    }
}

impl Crs {
    /// Serialize this CRS to a WKT2 string.
    pub fn to_wkt2(&self) -> (r: String)
        ensures
            r@ == wkt2_text(self@),
    {
        let mut out = String::new();
        match self {
            Crs::ProjectedCrs(c) => c.write_wkt2(&mut out),
            Crs::GeogCrs(c) => c.write_wkt2(&mut out),
            Crs::GeodCrs(c) => c.write_wkt2(&mut out),
            Crs::VertCrs(c) => c.write_wkt2(&mut out),
            Crs::CompoundCrs(c) => c.write_wkt2(&mut out),
        }
        out
    }
}

} // verus!
