//! PROJJSON text from the CRS model (the JSON encoding of WKT2:2019, schema
//! v0.7). Each `pj_*` spec function gives the JSON text of a node; objects
//! list their members in a fixed order, numbers are written in plain
//! positional notation, and the well-known units `metre`, `degree` and
//! `unity` are written as their short names.
use vstd::prelude::*;
use crate::crs::{
    AuthorityId, Axis, BBox, BaseGeodeticCrs, BaseGeodeticCrsKeyword, CoordinateSystem, Crs,
    CsType, Datum, DatumEnsemble, DeformationModel, DynamicCrs, Ellipsoid, EnsembleMember,
    GeodeticReferenceFrame, GeodCrs, GeogCrs, GeoidModel, Identifier, MapProjection,
    MapProjectionMethod, MapProjectionParameter, Meridian, PrimeMeridian, ProjectedCrs,
    RangeMeaning, SingleCrs, TemporalExtent, Unit, UnitKeyword, Usage, VertCrs, VertCrsSource,
    VerticalDatum, VerticalExtent, VerticalReferenceFrame, BaseVertCrs, CompoundCrs,
};
use crate::decimal::{decimal_text, digits_of_nat, normalize, of_int, same_value, Decimal, DecimalV};
use crate::model::{
    AuthorityIdV, AxisV, BBoxV, BaseGeodeticCrsV, CoordinateSystemV, CrsV, DatumEnsembleV, DatumV,
    DeformationModelV, DynamicCrsV, EllipsoidV, EnsembleMemberV, GeodeticReferenceFrameV,
    GeogCrsV, IdentifierV, MapProjectionMethodV, MapProjectionParameterV, MapProjectionV,
    MeridianV, PrimeMeridianV, ProjectedCrsV, TemporalExtentV, UnitV, UsageV, VerticalExtentV,
    GeodCrsV, VertCrsV, VertCrsSourceV, BaseVertCrsV, VerticalDatumV, VerticalReferenceFrameV,
    GeoidModelV, CompoundCrsV, SingleCrsV,
};
use crate::model::{ids_v, opt_text, opt_unit, usages_v};
use crate::text::{
    chars_of, is_unicode_ws_char, push_char, push_str, sp_trim, sp_trim_end, sp_trim_start,
    str_eq, string_of,
};
use crate::wkt2::writer::cs_type_name;

verus! {

/// A hexadecimal digit.
pub open spec fn hex_digit_v(n: int) -> char {
    if n == 0 {
        '0'
    } else if n == 1 {
        '1'
    } else if n == 2 {
        '2'
    } else if n == 3 {
        '3'
    } else if n == 4 {
        '4'
    } else if n == 5 {
        '5'
    } else if n == 6 {
        '6'
    } else if n == 7 {
        '7'
    } else if n == 8 {
        '8'
    } else if n == 9 {
        '9'
    } else if n == 10 {
        'a'
    } else if n == 11 {
        'b'
    } else if n == 12 {
        'c'
    } else if n == 13 {
        'd'
    } else if n == 14 {
        'e'
    } else {
        'f'
    }
}

/// A character inside a JSON string: quote, backslash and control
/// characters escaped.
pub open spec fn esc_char(c: char) -> Seq<char> {
    if c == '"' {
        seq!['\\', '"']
    } else if c == '\\' {
        seq!['\\', '\\']
    } else if c == '\n' {
        seq!['\\', 'n']
    } else if c == '\r' {
        seq!['\\', 'r']
    } else if c == '\t' {
        seq!['\\', 't']
    } else if (c as u32) < 0x20 {
        seq!['\\', 'u', '0', '0', hex_digit_v((c as u32) as int / 16), hex_digit_v((c as u32) as int % 16)]
    } else {
        seq![c]
    }
}

/// The characters of a text inside a JSON string.
pub open spec fn esc_text(t: Seq<char>) -> Seq<char>
    decreases t.len(),
{
    if t.len() == 0 {
        Seq::empty()
    } else {
        esc_text(t.drop_last()) + esc_char(t.last())
    }
}

/// A JSON string.
pub open spec fn js_string(t: Seq<char>) -> Seq<char> {
    seq!['"'] + esc_text(t) + seq!['"']
}

/// `"key":value`.
pub open spec fn js_member(m: (Seq<char>, Seq<char>)) -> Seq<char> {
    js_string(m.0) + seq![':'] + m.1
}

/// Members separated by commas.
pub open spec fn js_members(ms: Seq<(Seq<char>, Seq<char>)>) -> Seq<char>
    decreases ms.len(),
{
    if ms.len() == 0 {
        Seq::empty()
    } else if ms.len() == 1 {
        js_member(ms[0])
    } else {
        js_members(ms.drop_last()) + seq![','] + js_member(ms.last())
    }
}

/// A JSON object with the given members, in order.
pub open spec fn js_object(ms: Seq<(Seq<char>, Seq<char>)>) -> Seq<char> {
    seq!['{'] + js_members(ms) + seq!['}']
}

/// Values separated by commas.
pub open spec fn js_items(vs: Seq<Seq<char>>) -> Seq<char>
    decreases vs.len(),
{
    if vs.len() == 0 {
        Seq::empty()
    } else if vs.len() == 1 {
        vs[0]
    } else {
        js_items(vs.drop_last()) + seq![','] + vs.last()
    }
}

/// A JSON array of the given values.
pub open spec fn js_array(vs: Seq<Seq<char>>) -> Seq<char> {
    seq!['['] + js_items(vs) + seq![']']
}

/// The member `key` when there is a value; none otherwise.
pub open spec fn opt_member(k: Seq<char>, v: Option<Seq<char>>) -> Seq<(Seq<char>, Seq<char>)> {
    match v {
        Some(x) => seq![(k, x)],
        None => Seq::empty(),
    }
}

/// A code or version.
pub open spec fn pj_aid(a: AuthorityIdV) -> Seq<char> {
    match a {
        AuthorityIdV::Number(d) => decimal_text(d),
        AuthorityIdV::Text(t) => js_string(t),
    }
}

/// An identifier.
pub open spec fn pj_id(id: IdentifierV) -> Seq<char> {
    js_object(
        seq![("authority"@, js_string(id.authority_name)), ("code"@, pj_aid(id.authority_unique_id))]
            + opt_member(
            "version"@,
            match id.version {
                Some(v) => Some(pj_aid(v)),
                None => None,
            },
        ) + opt_member(
            "authority_citation"@,
            match id.citation {
                Some(c) => Some(js_string(c)),
                None => None,
            },
        ) + opt_member(
            "uri"@,
            match id.uri {
                Some(u) => Some(js_string(u)),
                None => None,
            },
        ),
    )
}

/// `id` for one identifier, `ids` for more, nothing for none.
pub open spec fn ids_members(ids: Seq<IdentifierV>) -> Seq<(Seq<char>, Seq<char>)> {
    if ids.len() == 0 {
        Seq::empty()
    } else if ids.len() == 1 {
        seq![("id"@, pj_id(ids[0]))]
    } else {
        seq![("ids"@, js_array(ids.map_values(|i: IdentifierV| pj_id(i))))]
    }
}

/// A node with one identifier carries it as `id`; with more, all of them in
/// order as `ids`; with none, neither.
pub proof fn law_ids_member(ids: Seq<IdentifierV>)
    ensures
        ids.len() == 0 ==> ids_members(ids) == Seq::<(Seq<char>, Seq<char>)>::empty(),
        ids.len() == 1 ==> ids_members(ids) == seq![("id"@, pj_id(ids[0]))],
        ids.len() > 1 ==> ids_members(ids).len() == 1 && ids_members(ids)[0].0 == "ids"@ && ids_members(
            ids,
        )[0].1 == js_array(Seq::new(ids.len(), |i: int| pj_id(ids[i]))),
{
    if ids.len() > 1 {
        assert(ids.map_values(|i: IdentifierV| pj_id(i)) =~= Seq::new(ids.len(), |i: int| pj_id(ids[i])));
    }
}

/// The conversion factor of the degree.
pub open spec fn degree_factor() -> DecimalV {
    normalize(false, digits_of_nat(174532925199433nat), -16)
}

/// Whether a conversion factor is present and has the given value.
pub open spec fn factor_is(f: Option<DecimalV>, v: DecimalV) -> bool {
    match f {
        Some(d) => same_value(d, v),
        None => false,
    }
}

/// The PROJJSON type name of a unit.
pub open spec fn unit_type_text(k: UnitKeyword) -> Seq<char> {
    match k {
        UnitKeyword::AngleUnit => "AngularUnit"@,
        UnitKeyword::LengthUnit => "LinearUnit"@,
        UnitKeyword::ScaleUnit => "ScaleUnit"@,
        UnitKeyword::TimeUnit => "TimeUnit"@,
        UnitKeyword::ParametricUnit => "ParametricUnit"@,
        UnitKeyword::Unit => "Unit"@,
    }
}

/// A unit: the short name for the metre, the degree and unity with their
/// usual factors, else an object.
pub open spec fn pj_unit(u: UnitV) -> Seq<char> {
    if u.name == "metre"@ && factor_is(u.conversion_factor, of_int(1)) {
        js_string("metre"@)
    } else if u.name == "degree"@ && factor_is(u.conversion_factor, degree_factor()) {
        js_string("degree"@)
    } else if u.name == "unity"@ && factor_is(u.conversion_factor, of_int(1)) {
        js_string("unity"@)
    } else {
        js_object(
            seq![("type"@, js_string(unit_type_text(u.keyword))), ("name"@, js_string(u.name))]
                + opt_member(
                "conversion_factor"@,
                match u.conversion_factor {
                    Some(f) => Some(decimal_text(f)),
                    None => None,
                },
            ) + ids_members(u.identifiers),
        )
    }
}

/// The unit as an optional member value.
pub open spec fn opt_unit_text(u: Option<UnitV>) -> Option<Seq<char>> {
    match u {
        Some(x) => Some(pj_unit(x)),
        None => None,
    }
}

/// A number, or `{"value": number, "unit": unit}` when it has a unit.
pub open spec fn pj_value_unit(v: DecimalV, u: Option<UnitV>) -> Seq<char> {
    match u {
        Some(x) => js_object(seq![("value"@, decimal_text(v)), ("unit"@, pj_unit(x))]),
        None => decimal_text(v),
    }
}

pub open spec fn pj_ellipsoid(e: EllipsoidV) -> Seq<char> {
    js_object(
        seq![
            ("name"@, js_string(e.name)),
            ("semi_major_axis"@, pj_value_unit(e.semi_major_axis, e.unit)),
            ("inverse_flattening"@, decimal_text(e.inverse_flattening)),
        ] + ids_members(e.identifiers),
    )
}

pub open spec fn pj_prime_meridian(p: PrimeMeridianV) -> Seq<char> {
    js_object(
        seq![("name"@, js_string(p.name)), ("longitude"@, pj_value_unit(p.irm_longitude, p.unit))]
            + ids_members(p.identifiers),
    )
}

/// A reference frame; dynamic when the CRS is.
pub open spec fn pj_frame(f: GeodeticReferenceFrameV, dynamic: Option<DynamicCrsV>) -> Seq<char> {
    js_object(
        match dynamic {
            Some(d) => seq![
                ("type"@, js_string("DynamicGeodeticReferenceFrame"@)),
                ("frame_reference_epoch"@, decimal_text(d.frame_reference_epoch)),
            ],
            None => seq![("type"@, js_string("GeodeticReferenceFrame"@))],
        } + seq![("name"@, js_string(f.name))] + opt_member(
            "anchor"@,
            match f.anchor {
                Some(a) => Some(js_string(a)),
                None => None,
            },
        ) + opt_member(
            "anchor_epoch"@,
            match f.anchor_epoch {
                Some(e) => Some(decimal_text(e)),
                None => None,
            },
        ) + seq![("ellipsoid"@, pj_ellipsoid(f.ellipsoid))] + opt_member(
            "prime_meridian"@,
            match f.prime_meridian {
                Some(p) => Some(pj_prime_meridian(p)),
                None => None,
            },
        ) + ids_members(f.identifiers),
    )
}

/// A name with its identifiers: an ensemble member or a deformation model.
pub open spec fn pj_named(name: Seq<char>, ids: Seq<IdentifierV>) -> Seq<char> {
    js_object(seq![("name"@, js_string(name))] + ids_members(ids))
}

pub open spec fn pj_ensemble(e: DatumEnsembleV) -> Seq<char> {
    js_object(
        seq![
            ("type"@, js_string("DatumEnsemble"@)),
            ("name"@, js_string(e.name)),
            ("members"@, js_array(e.members.map_values(|m: EnsembleMemberV| pj_named(m.name, m.identifiers)))),
        ] + opt_member(
            "ellipsoid"@,
            match e.ellipsoid {
                Some(x) => Some(pj_ellipsoid(x)),
                None => None,
            },
        ) + seq![("accuracy"@, js_string(decimal_text(e.accuracy)))] + ids_members(e.identifiers),
    )
}

/// `datum` or `datum_ensemble`.
pub open spec fn datum_members(d: DatumV, dynamic: Option<DynamicCrsV>) -> Seq<(Seq<char>, Seq<char>)> {
    match d {
        DatumV::ReferenceFrame(f) => seq![("datum"@, pj_frame(f, dynamic))],
        DatumV::Ensemble(e) => seq![("datum_ensemble"@, pj_ensemble(e))],
    }
}

/// `deformation_models`, which PROJJSON keeps on the CRS, not in the datum.
pub open spec fn deformation_members(dynamic: Option<DynamicCrsV>) -> Seq<(Seq<char>, Seq<char>)> {
    match dynamic {
        Some(d) => match d.deformation_model {
            Some(m) => seq![("deformation_models"@, js_array(seq![pj_named(m.name, m.identifiers)]))],
            None => Seq::empty(),
        },
        None => Seq::empty(),
    }
}

pub open spec fn pj_base_crs(b: BaseGeodeticCrsV) -> Seq<char> {
    js_object(
        seq![
            (
                "type"@,
                js_string(
                    match b.keyword {
                        BaseGeodeticCrsKeyword::BaseGeogCrs => "GeographicCRS"@,
                        BaseGeodeticCrsKeyword::BaseGeodCrs => "GeodeticCRS"@,
                    },
                ),
            ),
            ("name"@, js_string(b.name)),
        ] + datum_members(b.datum, b.dynamic) + deformation_members(b.dynamic) + ids_members(
            b.identifiers,
        ),
    )
}

pub open spec fn pj_parameter(p: MapProjectionParameterV) -> Seq<char> {
    js_object(
        seq![("name"@, js_string(p.name)), ("value"@, decimal_text(p.value))] + opt_member(
            "unit"@,
            opt_unit_text(p.unit),
        ) + ids_members(p.identifiers),
    )
}

pub open spec fn pj_conversion(m: MapProjectionV) -> Seq<char> {
    js_object(
        seq![("name"@, js_string(m.name)), ("method"@, pj_named(m.method.name, m.method.identifiers))]
            + (if m.parameters.len() == 0 {
            Seq::empty()
        } else {
            seq![
                (
                    "parameters"@,
                    js_array(m.parameters.map_values(|p: MapProjectionParameterV| pj_parameter(p))),
                ),
            ]
        }) + ids_members(m.identifiers),
    )
}

/// The last position of `c` in `t`.
pub open spec fn last_index_of(t: Seq<char>, c: char) -> Option<int>
    decreases t.len(),
{
    if t.len() == 0 {
        None
    } else if t.last() == c {
        Some(t.len() - 1)
    } else {
        last_index_of(t.drop_last(), c)
    }
}

/// The first position at or after `p` of `c` in `t`.
pub open spec fn index_of_from(t: Seq<char>, p: int, c: char) -> Option<int>
    decreases t.len() - p,
{
    if p < 0 || p >= t.len() {
        None
    } else if t[p] == c {
        Some(p)
    } else {
        index_of_from(t, p + 1, c)
    }
}

/// An axis name split as `name (abbreviation)`: the name before the last
/// `(`, trimmed, and the text up to the `)` after it; the whole text and no
/// abbreviation when there is no such pair.
pub open spec fn split_axis_name(t: Seq<char>) -> (Seq<char>, Seq<char>) {
    match last_index_of(t, '(') {
        Some(a) => match index_of_from(t, a, ')') {
            Some(b) => (sp_trim(t.subrange(0, a)), t.subrange(a + 1, b)),
            None => (t, Seq::empty()),
        },
        None => (t, Seq::empty()),
    }
}

/// An axis; it carries the coordinate system's unit when it has none of its own.
pub open spec fn pj_axis(a: AxisV, cs_unit: Option<UnitV>) -> Seq<char> {
    js_object(axis_members(a, cs_unit))
}

/// The members of an axis object.
pub open spec fn axis_members(a: AxisV, cs_unit: Option<UnitV>) -> Seq<(Seq<char>, Seq<char>)> {
    let (name, abbrev) = split_axis_name(a.name_abbrev);
    (
        seq![
            ("name"@, js_string(name)),
            ("abbreviation"@, js_string(abbrev)),
            ("direction"@, js_string(a.direction)),
        ] + opt_member(
            "unit"@,
            opt_unit_text(
                if a.unit is Some {
                    a.unit
                } else {
                    cs_unit
                },
            ),
        ) + opt_member(
            "meridian"@,
            match a.meridian {
                Some(m) => Some(
                    js_object(seq![("longitude"@, decimal_text(m.value)), ("unit"@, pj_unit(m.unit))]),
                ),
                None => None,
            },
        ) + opt_member(
            "minimum_value"@,
            match a.axis_min_value {
                Some(v) => Some(decimal_text(v)),
                None => None,
            },
        ) + opt_member(
            "maximum_value"@,
            match a.axis_max_value {
                Some(v) => Some(decimal_text(v)),
                None => None,
            },
        ) + opt_member(
            "range_meaning"@,
            match a.range_meaning {
                Some(RangeMeaning::Exact) => Some(js_string("exact"@)),
                Some(RangeMeaning::Wraparound) => Some(js_string("wraparound"@)),
                None => None,
            },
        ) + ids_members(a.identifiers)
    )
}

/// No unit of the model is lost on an axis: an axis with a unit of its own
/// is written with a `unit` member holding that unit, whatever the
/// coordinate system's unit is, just as a unitless axis is written under
/// it; an axis without one is written with the coordinate system's unit, as
/// if that unit were its own.
pub proof fn law_axis_unit(a: AxisV, cs_unit: Option<UnitV>, u: UnitV)
    ensures
        a.unit == Some(u) ==> axis_members(a, cs_unit).contains(("unit"@, pj_unit(u))),
        a.unit is None && cs_unit == Some(u) ==> axis_members(a, cs_unit).contains(("unit"@, pj_unit(u))),
        a.unit == Some(u) ==> pj_axis(a, cs_unit) == pj_axis(AxisV { unit: None, ..a }, Some(u)),
        a.unit == Some(u) ==> pj_axis(a, cs_unit) == pj_axis(a, None),
        a.unit is None ==> pj_axis(a, cs_unit) == pj_axis(AxisV { unit: cs_unit, ..a }, None),
{
    if a.unit == Some(u) || (a.unit is None && cs_unit == Some(u)) {
        assert(axis_members(a, cs_unit)[3] == ("unit"@, pj_unit(u)));
    }
}

pub open spec fn pj_cs(c: CoordinateSystemV) -> Seq<char> {
    js_object(
        seq![
            ("subtype"@, js_string(crate::wkt2::writer::cs_type_text(c.cs_type))),
            ("axis"@, js_array(c.axes.map_values(|a: AxisV| pj_axis(a, c.cs_unit)))),
        ] + ids_members(c.identifiers),
    )
}

pub open spec fn pj_usage(u: UsageV) -> Seq<char> {
    js_object(
        seq![("scope"@, js_string(u.scope))] + opt_member(
            "area"@,
            match u.area {
                Some(a) => Some(js_string(a)),
                None => None,
            },
        ) + opt_member(
            "bbox"@,
            match u.bbox {
                Some(b) => Some(
                    js_object(
                        seq![
                            ("south_latitude"@, decimal_text(b.lower_left_latitude)),
                            ("west_longitude"@, decimal_text(b.lower_left_longitude)),
                            ("north_latitude"@, decimal_text(b.upper_right_latitude)),
                            ("east_longitude"@, decimal_text(b.upper_right_longitude)),
                        ],
                    ),
                ),
                None => None,
            },
        ) + opt_member(
            "vertical_extent"@,
            match u.vertical_extent {
                Some(v) => Some(
                    js_object(
                        seq![
                            ("minimum"@, decimal_text(v.minimum_height)),
                            ("maximum"@, decimal_text(v.maximum_height)),
                        ] + opt_member("unit"@, opt_unit_text(v.unit)),
                    ),
                ),
                None => None,
            },
        ) + opt_member(
            "temporal_extent"@,
            match u.temporal_extent {
                Some(t) => Some(
                    js_object(seq![("start"@, js_string(t.start)), ("end"@, js_string(t.end))]),
                ),
                None => None,
            },
        ),
    )
}

/// `usages` when there are any.
pub open spec fn usages_members(us: Seq<UsageV>) -> Seq<(Seq<char>, Seq<char>)> {
    if us.len() == 0 {
        Seq::empty()
    } else {
        seq![("usages"@, js_array(us.map_values(|u: UsageV| pj_usage(u))))]
    }
}

/// `remarks` when there is one.
pub open spec fn remark_members(r: Option<Seq<char>>) -> Seq<(Seq<char>, Seq<char>)> {
    opt_member(
        "remarks"@,
        match r {
            Some(x) => Some(js_string(x)),
            None => None,
        },
    )
}

/// The schema a PROJJSON text declares.
pub open spec fn schema_member() -> (Seq<char>, Seq<char>) {
    ("$schema"@, js_string("https://proj.org/schemas/v0.7/projjson.schema.json"@))
}

/// The members of a projected CRS object, after `$schema`.
pub open spec fn projected_body(c: ProjectedCrsV) -> Seq<(Seq<char>, Seq<char>)> {
    seq![
        ("type"@, js_string("ProjectedCRS"@)),
        ("name"@, js_string(c.name)),
        ("base_crs"@, pj_base_crs(c.base_geodetic_crs)),
        ("conversion"@, pj_conversion(c.map_projection)),
        ("coordinate_system"@, pj_cs(c.coordinate_system)),
    ] + usages_members(c.usages) + remark_members(c.remark) + ids_members(c.identifiers)
}

/// The members of a geographic or geodetic CRS object, after `$schema`;
/// `kind` is its PROJJSON type name.
pub open spec fn geodetic_body(
    kind: Seq<char>,
    name: Seq<char>,
    datum: DatumV,
    dynamic: Option<DynamicCrsV>,
    cs: CoordinateSystemV,
    usages: Seq<UsageV>,
    remark: Option<Seq<char>>,
    ids: Seq<IdentifierV>,
) -> Seq<(Seq<char>, Seq<char>)> {
    seq![("type"@, js_string(kind)), ("name"@, js_string(name))] + datum_members(datum, dynamic)
        + deformation_members(dynamic) + seq![("coordinate_system"@, pj_cs(cs))] + usages_members(
        usages,
    ) + remark_members(remark) + ids_members(ids)
}

pub open spec fn geographic_body(c: GeogCrsV) -> Seq<(Seq<char>, Seq<char>)> {
    geodetic_body(
        "GeographicCRS"@,
        c.name,
        c.datum,
        c.dynamic,
        c.coordinate_system,
        c.usages,
        c.remark,
        c.identifiers,
    )
}

pub open spec fn geod_body(c: GeodCrsV) -> Seq<(Seq<char>, Seq<char>)> {
    geodetic_body(
        "GeodeticCRS"@,
        c.name,
        c.datum,
        c.dynamic,
        c.coordinate_system,
        c.usages,
        c.remark,
        c.identifiers,
    )
}

/// A vertical reference frame; dynamic when the CRS is.
pub open spec fn pj_vframe(f: VerticalReferenceFrameV, dynamic: Option<DynamicCrsV>) -> Seq<char> {
    js_object(
        match dynamic {
            Some(d) => seq![
                ("type"@, js_string("DynamicVerticalReferenceFrame"@)),
                ("frame_reference_epoch"@, decimal_text(d.frame_reference_epoch)),
            ],
            None => seq![("type"@, js_string("VerticalReferenceFrame"@))],
        } + seq![("name"@, js_string(f.name))] + opt_member(
            "anchor"@,
            match f.anchor {
                Some(a) => Some(js_string(a)),
                None => None,
            },
        ) + opt_member(
            "anchor_epoch"@,
            match f.anchor_epoch {
                Some(e) => Some(decimal_text(e)),
                None => None,
            },
        ) + ids_members(f.identifiers),
    )
}

/// `datum` or `datum_ensemble` of a vertical CRS.
pub open spec fn vdatum_members(d: VerticalDatumV, dynamic: Option<DynamicCrsV>) -> Seq<
    (Seq<char>, Seq<char>),
> {
    match d {
        VerticalDatumV::ReferenceFrame(f) => seq![("datum"@, pj_vframe(f, dynamic))],
        VerticalDatumV::Ensemble(e) => seq![("datum_ensemble"@, pj_ensemble(e))],
    }
}

/// The base CRS of a derived vertical CRS.
pub open spec fn pj_base_vert(b: BaseVertCrsV) -> Seq<char> {
    js_object(
        seq![("type"@, js_string("VerticalCRS"@)), ("name"@, js_string(b.name))] + vdatum_members(
            b.datum,
            b.dynamic,
        ) + deformation_members(b.dynamic) + ids_members(b.identifiers),
    )
}

/// `geoid_model` for one model, `geoid_models` for more.
pub open spec fn geoid_members(gs: Seq<GeoidModelV>) -> Seq<(Seq<char>, Seq<char>)> {
    if gs.len() == 0 {
        Seq::empty()
    } else if gs.len() == 1 {
        seq![("geoid_model"@, pj_named(gs[0].name, gs[0].identifiers))]
    } else {
        seq![
            (
                "geoid_models"@,
                js_array(gs.map_values(|g: GeoidModelV| pj_named(g.name, g.identifiers))),
            ),
        ]
    }
}

/// The leading members of a vertical CRS object: a `VerticalCRS` with its
/// datum, or a `DerivedVerticalCRS` with its base CRS and deriving
/// conversion.
pub open spec fn vertical_head_members(c: VertCrsV) -> Seq<(Seq<char>, Seq<char>)> {
    match c.source {
        VertCrsSourceV::Datum { dynamic, datum } => seq![
            ("type"@, js_string("VerticalCRS"@)),
            ("name"@, js_string(c.name)),
        ] + vdatum_members(datum, dynamic) + deformation_members(dynamic),
        VertCrsSourceV::Derived { base_vert_crs, deriving_conversion } => seq![
            ("type"@, js_string("DerivedVerticalCRS"@)),
            ("name"@, js_string(c.name)),
            ("base_crs"@, pj_base_vert(base_vert_crs)),
            ("conversion"@, pj_conversion(deriving_conversion)),
        ],
    }
}

/// The members of a vertical CRS object, after `$schema`.
pub open spec fn vertical_body(c: VertCrsV) -> Seq<(Seq<char>, Seq<char>)> {
    vertical_head_members(c) + seq![("coordinate_system"@, pj_cs(c.coordinate_system))]
        + geoid_members(c.geoid_models) + usages_members(c.usages) + remark_members(c.remark)
        + ids_members(c.identifiers)
}

/// A component of a compound CRS: the component's object without
/// `$schema`; a component kept as raw text is written as a JSON string.
pub open spec fn pj_component(s: SingleCrsV) -> Seq<char> {
    match s {
        SingleCrsV::ProjectedCrs(c) => js_object(projected_body(c)),
        SingleCrsV::GeogCrs(c) => js_object(geographic_body(c)),
        SingleCrsV::GeodCrs(c) => js_object(geod_body(c)),
        SingleCrsV::VertCrs(c) => js_object(vertical_body(c)),
        SingleCrsV::Other(t) => js_string(t),
    }
}

pub open spec fn compound_body(c: CompoundCrsV) -> Seq<(Seq<char>, Seq<char>)> {
    seq![
        ("type"@, js_string("CompoundCRS"@)),
        ("name"@, js_string(c.name)),
        ("components"@, js_array(c.components.map_values(|s: SingleCrsV| pj_component(s)))),
    ] + usages_members(c.usages) + remark_members(c.remark) + ids_members(c.identifiers)
}

/// The PROJJSON text of a projected CRS.
pub open spec fn pj_projected(c: ProjectedCrsV) -> Seq<char> {
    js_object(seq![schema_member()] + projected_body(c))
}

/// The PROJJSON text of a geographic CRS.
pub open spec fn pj_geographic(c: GeogCrsV) -> Seq<char> {
    js_object(seq![schema_member()] + geographic_body(c))
}

/// The PROJJSON text of a geodetic CRS.
pub open spec fn pj_geodetic(c: GeodCrsV) -> Seq<char> {
    js_object(seq![schema_member()] + geod_body(c))
}

/// The PROJJSON text of a vertical CRS.
pub open spec fn pj_vertical(c: VertCrsV) -> Seq<char> {
    js_object(seq![schema_member()] + vertical_body(c))
}

/// The PROJJSON text of a compound CRS.
pub open spec fn pj_compound(c: CompoundCrsV) -> Seq<char> {
    js_object(seq![schema_member()] + compound_body(c))
}

/// The PROJJSON text of a CRS of any kind.
pub open spec fn pj_crs(c: CrsV) -> Seq<char> {
    match c {
        CrsV::ProjectedCrs(x) => pj_projected(x),
        CrsV::GeogCrs(x) => pj_geographic(x),
        CrsV::GeodCrs(x) => pj_geodetic(x),
        CrsV::VertCrs(x) => pj_vertical(x),
        CrsV::CompoundCrs(x) => pj_compound(x),
    }
}

/// The PROJJSON `type` of a CRS: the name of its kind.
pub open spec fn crs_type_name(c: CrsV) -> Seq<char> {
    match c {
        CrsV::ProjectedCrs(_) => "ProjectedCRS"@,
        CrsV::GeogCrs(_) => "GeographicCRS"@,
        CrsV::GeodCrs(_) => "GeodeticCRS"@,
        CrsV::VertCrs(x) => match x.source {
            VertCrsSourceV::Datum { .. } => "VerticalCRS"@,
            VertCrsSourceV::Derived { .. } => "DerivedVerticalCRS"@,
        },
        CrsV::CompoundCrs(_) => "CompoundCRS"@,
    }
}

/// The members of the PROJJSON object of a CRS, after `$schema`.
pub open spec fn crs_body(c: CrsV) -> Seq<(Seq<char>, Seq<char>)> {
    match c {
        CrsV::ProjectedCrs(x) => projected_body(x),
        CrsV::GeogCrs(x) => geographic_body(x),
        CrsV::GeodCrs(x) => geod_body(x),
        CrsV::VertCrs(x) => vertical_body(x),
        CrsV::CompoundCrs(x) => compound_body(x),
    }
}

/// The PROJJSON text of a CRS of any of the five kinds is one object whose
/// first member is `$schema` and whose second is `type`, naming the kind.
pub proof fn law_crs_type_member(c: CrsV)
    ensures
        pj_crs(c) == js_object(
            seq![schema_member(), ("type"@, js_string(crs_type_name(c)))] + crs_body(c).drop_first(),
        ),
{
    let t = ("type"@, js_string(crs_type_name(c)));
    lemma_type_first(c);
    lemma_cons_first(schema_member(), t, crs_body(c));
    assert(pj_crs(c) == js_object(seq![schema_member()] + crs_body(c)));
}

proof fn lemma_cons_first(m: (Seq<char>, Seq<char>), t: (Seq<char>, Seq<char>), b: Seq<(Seq<char>, Seq<char>)>)
    requires
        b.len() > 0,
        b[0] == t,
    ensures
        seq![m] + b == seq![m, t] + b.drop_first(),
{
    assert(seq![m] + b =~= seq![m, t] + b.drop_first());
}

proof fn lemma_type_first(c: CrsV)
    ensures
        crs_body(c).len() > 0,
        crs_body(c)[0] == ("type"@, js_string(crs_type_name(c))),
{
    match c {
        CrsV::ProjectedCrs(x) => lemma_first_projected(x),
        CrsV::GeogCrs(x) => lemma_first_geodetic(
            "GeographicCRS"@, x.name, x.datum, x.dynamic, x.coordinate_system, x.usages, x.remark, x.identifiers,
        ),
        CrsV::GeodCrs(x) => lemma_first_geodetic(
            "GeodeticCRS"@, x.name, x.datum, x.dynamic, x.coordinate_system, x.usages, x.remark, x.identifiers,
        ),
        CrsV::VertCrs(x) => lemma_first_vertical(x),
        CrsV::CompoundCrs(x) => lemma_first_compound(x),
    }
}

proof fn lemma_first_of(h: Seq<(Seq<char>, Seq<char>)>, r: Seq<(Seq<char>, Seq<char>)>)
    requires
        h.len() > 0,
    ensures
        (h + r).len() > 0,
        (h + r)[0] == h[0],
{
}

#[verifier::spinoff_prover]
proof fn lemma_first_projected(x: ProjectedCrsV)
    ensures
        projected_body(x).len() > 0,
        projected_body(x)[0] == ("type"@, js_string("ProjectedCRS"@)),
{
    let h = seq![
        ("type"@, js_string("ProjectedCRS"@)),
        ("name"@, js_string(x.name)),
        ("base_crs"@, pj_base_crs(x.base_geodetic_crs)),
        ("conversion"@, pj_conversion(x.map_projection)),
        ("coordinate_system"@, pj_cs(x.coordinate_system)),
    ];
    lemma_first_of(h, usages_members(x.usages));
    let a = h + usages_members(x.usages);
    lemma_first_of(a, remark_members(x.remark));
    let b = a + remark_members(x.remark);
    lemma_first_of(b, ids_members(x.identifiers));
}

#[verifier::spinoff_prover]
proof fn lemma_first_geodetic(
    kind: Seq<char>,
    name: Seq<char>,
    datum: DatumV,
    dynamic: Option<DynamicCrsV>,
    cs: CoordinateSystemV,
    usages: Seq<UsageV>,
    remark: Option<Seq<char>>,
    ids: Seq<IdentifierV>,
)
    ensures
        geodetic_body(kind, name, datum, dynamic, cs, usages, remark, ids).len() > 0,
        geodetic_body(kind, name, datum, dynamic, cs, usages, remark, ids)[0] == ("type"@, js_string(kind)),
{
    let h = seq![("type"@, js_string(kind)), ("name"@, js_string(name))];
    lemma_first_of(h, datum_members(datum, dynamic));
    let a = h + datum_members(datum, dynamic);
    lemma_first_of(a, deformation_members(dynamic));
    let b = a + deformation_members(dynamic);
    lemma_first_of(b, seq![("coordinate_system"@, pj_cs(cs))]);
    let d = b + seq![("coordinate_system"@, pj_cs(cs))];
    lemma_first_of(d, usages_members(usages));
    let e = d + usages_members(usages);
    lemma_first_of(e, remark_members(remark));
    let f = e + remark_members(remark);
    lemma_first_of(f, ids_members(ids));
}

#[verifier::spinoff_prover]
proof fn lemma_first_vertical(x: VertCrsV)
    ensures
        vertical_body(x).len() > 0,
        vertical_body(x)[0] == ("type"@, js_string(crs_type_name(CrsV::VertCrs(x)))),
{
    let h = vertical_head_members(x);
    match x.source {
        VertCrsSourceV::Datum { dynamic, datum } => {
            let h0 = seq![("type"@, js_string("VerticalCRS"@)), ("name"@, js_string(x.name))];
            lemma_first_of(h0, vdatum_members(datum, dynamic));
            lemma_first_of(h0 + vdatum_members(datum, dynamic), deformation_members(dynamic));
        },
        VertCrsSourceV::Derived { .. } => {},
    }
    assert(h.len() > 0 && h[0] == ("type"@, js_string(crs_type_name(CrsV::VertCrs(x)))));
    lemma_first_of(h, seq![("coordinate_system"@, pj_cs(x.coordinate_system))]);
    let a = h + seq![("coordinate_system"@, pj_cs(x.coordinate_system))];
    lemma_first_of(a, geoid_members(x.geoid_models));
    let b = a + geoid_members(x.geoid_models);
    lemma_first_of(b, usages_members(x.usages));
    let d = b + usages_members(x.usages);
    lemma_first_of(d, remark_members(x.remark));
    let e = d + remark_members(x.remark);
    lemma_first_of(e, ids_members(x.identifiers));
}

#[verifier::spinoff_prover]
proof fn lemma_first_compound(x: CompoundCrsV)
    ensures
        compound_body(x).len() > 0,
        compound_body(x)[0] == ("type"@, js_string("CompoundCRS"@)),
{
    let h = seq![
        ("type"@, js_string("CompoundCRS"@)),
        ("name"@, js_string(x.name)),
        ("components"@, js_array(x.components.map_values(|s: SingleCrsV| pj_component(s)))),
    ];
    lemma_first_of(h, usages_members(x.usages));
    let a = h + usages_members(x.usages);
    lemma_first_of(a, remark_members(x.remark));
    let b = a + remark_members(x.remark);
    lemma_first_of(b, ids_members(x.identifiers));
}

/// The members as texts.
pub open spec fn members_v(ms: Seq<(String, String)>) -> Seq<(Seq<char>, Seq<char>)> {
    ms.map_values(|m: (String, String)| (m.0@, m.1@))
}

fn hex_digit(n: u32) -> (r: char)
    requires
        n < 16,
    ensures
        r == hex_digit_v(n as int),
{
    if n == 0 {
        '0'
    } else if n == 1 {
        '1'
    } else if n == 2 {
        '2'
    } else if n == 3 {
        '3'
    } else if n == 4 {
        '4'
    } else if n == 5 {
        '5'
    } else if n == 6 {
        '6'
    } else if n == 7 {
        '7'
    } else if n == 8 {
        '8'
    } else if n == 9 {
        '9'
    } else if n == 10 {
        'a'
    } else if n == 11 {
        'b'
    } else if n == 12 {
        'c'
    } else if n == 13 {
        'd'
    } else if n == 14 {
        'e'
    } else {
        'f'
    }
}

fn push_escaped(out: &mut String, c: char)
    ensures
        final(out)@ == old(out)@ + esc_char(c),
{
    if c == '"' {
        push_char(out, '\\');
        push_char(out, '"');
    } else if c == '\\' {
        push_char(out, '\\');
        push_char(out, '\\');
    } else if c == '\n' {
        push_char(out, '\\');
        push_char(out, 'n');
    } else if c == '\r' {
        push_char(out, '\\');
        push_char(out, 'r');
    } else if c == '\t' {
        push_char(out, '\\');
        push_char(out, 't');
    } else if (c as u32) < 0x20 {
        let n = c as u32;
        push_char(out, '\\');
        push_char(out, 'u');
        push_char(out, '0');
        push_char(out, '0');
        push_char(out, hex_digit(n / 16));
        push_char(out, hex_digit(n % 16));
    } else {
        push_char(out, c);
    }
    proof {
        assert(final(out)@ =~= old(out)@ + esc_char(c));
    }
}

/// A text as a JSON string.
fn json_string(t: &str) -> (r: String)
    ensures
        r@ == js_string(t@),
{
    let cs = chars_of(t);
    let mut out = String::new();
    push_char(&mut out, '"');
    let mut i: usize = 0;
    assert(cs@.take(0) =~= Seq::<char>::empty());
    while i < cs.len()
        invariant
            i <= cs@.len(),
            cs@ == t@,
            out@ == seq!['"'] + esc_text(cs@.take(i as int)),
        decreases cs@.len() - i,
    {
        push_escaped(&mut out, cs[i]);
        proof {
            assert(cs@.take(i + 1).drop_last() =~= cs@.take(i as int));
            assert(cs@.take(i + 1).last() == cs@[i as int]);
        }
        i = i + 1;
    }
    push_char(&mut out, '"');
    assert(cs@.take(cs@.len() as int) =~= cs@);
    out
}

/// A JSON object of the members, in order.
fn object_text(ms: &Vec<(String, String)>) -> (r: String)
    ensures
        r@ == js_object(members_v(ms@)),
{
    let ghost v = members_v(ms@);
    let mut out = String::new();
    push_char(&mut out, '{');
    let mut i: usize = 0;
    assert(v.take(0) =~= Seq::<(Seq<char>, Seq<char>)>::empty());
    while i < ms.len()
        invariant
            i <= ms@.len(),
            v == members_v(ms@),
            out@ == seq!['{'] + js_members(v.take(i as int)),
        decreases ms@.len() - i,
    {
        let ghost before = out@;
        if i > 0 {
            push_char(&mut out, ',');
        }
        let k = json_string(ms[i].0.as_str());
        push_str(&mut out, k.as_str());
        push_char(&mut out, ':');
        push_str(&mut out, ms[i].1.as_str());
        proof {
            let w = v.take(i + 1);
            assert(w.drop_last() =~= v.take(i as int));
            assert(w.last() == v[i as int]);
            assert(v[i as int] == (ms@[i as int].0@, ms@[i as int].1@));
            if i == 0 {
                assert(out@ =~= seq!['{'] + js_members(w));
            } else {
                assert(out@ =~= seq!['{'] + js_members(w));
            }
        }
        i = i + 1;
    }
    push_char(&mut out, '}');
    assert(v.take(v.len() as int) =~= v);
    out
}

/// A JSON array of the values, in order.
fn array_text(vs: &Vec<String>) -> (r: String)
    ensures
        r@ == js_array(vs@.map_values(|x: String| x@)),
{
    let ghost v = vs@.map_values(|x: String| x@);
    let mut out = String::new();
    push_char(&mut out, '[');
    let mut i: usize = 0;
    assert(v.take(0) =~= Seq::<Seq<char>>::empty());
    while i < vs.len()
        invariant
            i <= vs@.len(),
            v == vs@.map_values(|x: String| x@),
            out@ == seq!['['] + js_items(v.take(i as int)),
        decreases vs@.len() - i,
    {
        if i > 0 {
            push_char(&mut out, ',');
        }
        push_str(&mut out, vs[i].as_str());
        proof {
            let w = v.take(i + 1);
            assert(w.drop_last() =~= v.take(i as int));
            assert(w.last() == v[i as int]);
            assert(out@ =~= seq!['['] + js_items(w));
        }
        i = i + 1;
    }
    push_char(&mut out, ']');
    assert(v.take(v.len() as int) =~= v);
    out
}

fn member(ms: &mut Vec<(String, String)>, k: &str, v: String)
    ensures
        members_v(final(ms)@) == members_v(old(ms)@).push((k@, v@)),
{
    let key = crate::wkt1::mappings::own(k);
    ms.push((key, v));
    assert(members_v(ms@) =~= members_v(old(ms)@).push((k@, v@)));
}

fn opt_member_push(ms: &mut Vec<(String, String)>, k: &str, v: Option<String>)
    ensures
        members_v(final(ms)@) == members_v(old(ms)@) + opt_member(k@, opt_text(v)),
{
    match v {
        Some(x) => {
            member(ms, k, x);
            assert(members_v(ms@) =~= members_v(old(ms)@) + opt_member(k@, opt_text(v)));
        },
        None => {
            assert(members_v(ms@) =~= members_v(old(ms)@) + opt_member(k@, opt_text(v)));
        },
    }
}

fn aid_json(a: &AuthorityId) -> (r: String)
    ensures
        r@ == pj_aid(a@),
{
    match a {
        AuthorityId::Number(d) => d.to_text(),
        AuthorityId::Text(t) => json_string(t.as_str()),
    }
}

fn opt_string_json(t: &Option<String>) -> (r: Option<String>)
    ensures
        opt_text(r) == match opt_text(*t) {
            Some(x) => Some(js_string(x)),
            None => None,
        },
{
    match t {
        Some(x) => Some(json_string(x.as_str())),
        None => None,
    }
}

fn opt_decimal_json(d: &Option<Decimal>) -> (r: Option<String>)
    ensures
        opt_text(r) == match crate::model::opt_dec(*d) {
            Some(x) => Some(decimal_text(x)),
            None => None,
        },
{
    match d {
        Some(x) => Some(x.to_text()),
        None => None,
    }
}

fn id_json(id: &Identifier) -> (r: String)
    ensures
        r@ == pj_id(id@),
{
    let mut ms: Vec<(String, String)> = Vec::new();
    member(&mut ms, "authority", json_string(id.authority_name.as_str()));
    member(&mut ms, "code", aid_json(&id.authority_unique_id));
    let version = match &id.version {
        Some(v) => Some(aid_json(v)),
        None => None,
    };
    opt_member_push(&mut ms, "version", version);
    opt_member_push(&mut ms, "authority_citation", opt_string_json(&id.citation));
    opt_member_push(&mut ms, "uri", opt_string_json(&id.uri));
    proof {
        let iv = id@;
        assert(members_v(ms@) =~= seq![
            ("authority"@, js_string(iv.authority_name)),
            ("code"@, pj_aid(iv.authority_unique_id)),
        ] + opt_member(
            "version"@,
            match iv.version {
                Some(v) => Some(pj_aid(v)),
                None => None,
            },
        ) + opt_member(
            "authority_citation"@,
            match iv.citation {
                Some(c) => Some(js_string(c)),
                None => None,
            },
        ) + opt_member(
            "uri"@,
            match iv.uri {
                Some(u) => Some(js_string(u)),
                None => None,
            },
        ));
    }
    object_text(&ms)
}

fn push_ids(ms: &mut Vec<(String, String)>, ids: &Vec<Identifier>)
    ensures
        members_v(final(ms)@) == members_v(old(ms)@) + ids_members(ids_v(*ids)),
{
    let ghost iv = ids_v(*ids);
    if ids.len() == 0 {
        assert(members_v(ms@) =~= members_v(old(ms)@) + ids_members(iv));
    } else if ids.len() == 1 {
        member(ms, "id", id_json(&ids[0]));
        assert(members_v(ms@) =~= members_v(old(ms)@) + ids_members(iv));
    } else {
        let mut vs: Vec<String> = Vec::new();
        let mut i: usize = 0;
        while i < ids.len()
            invariant
                i <= ids@.len(),
                iv == ids_v(*ids),
                vs@.len() == i,
                forall|j: int| 0 <= j < i ==> (#[trigger] vs@[j])@ == pj_id(iv[j]),
            decreases ids@.len() - i,
        {
            vs.push(id_json(&ids[i]));
            i = i + 1;
        }
        assert(vs@.map_values(|x: String| x@) =~= iv.map_values(|i: IdentifierV| pj_id(i)));
        member(ms, "ids", array_text(&vs));
        assert(members_v(ms@) =~= members_v(old(ms)@) + ids_members(iv));
    }
}

/// Whether a conversion factor is present and has the given value.
fn factor_is_value(f: &Option<Decimal>, v: &Decimal) -> (r: bool)
    ensures
        r == factor_is(crate::model::opt_dec(*f), v@),
{
    match f {
        Some(d) => d.same_value_as(v),
        None => false,
    }
}

fn unit_type_str(k: UnitKeyword) -> (r: &'static str)
    ensures
        r@ == unit_type_text(k),
{
    match k {
        UnitKeyword::AngleUnit => "AngularUnit",
        UnitKeyword::LengthUnit => "LinearUnit",
        UnitKeyword::ScaleUnit => "ScaleUnit",
        UnitKeyword::TimeUnit => "TimeUnit",
        UnitKeyword::ParametricUnit => "ParametricUnit",
        UnitKeyword::Unit => "Unit",
    }
}

fn unit_json(u: &Unit) -> (r: String)
    ensures
        r@ == pj_unit(u@),
{
    let one = Decimal::from_i32(1);
    let degree = Decimal::from_scaled(174532925199433, -16);
    if str_eq(u.name.as_str(), "metre") && factor_is_value(&u.conversion_factor, &one) {
        return json_string("metre");
    }
    if str_eq(u.name.as_str(), "degree") && factor_is_value(&u.conversion_factor, &degree) {
        return json_string("degree");
    }
    if str_eq(u.name.as_str(), "unity") && factor_is_value(&u.conversion_factor, &one) {
        return json_string("unity");
    }
    let mut ms: Vec<(String, String)> = Vec::new();
    member(&mut ms, "type", json_string(unit_type_str(u.keyword)));
    member(&mut ms, "name", json_string(u.name.as_str()));
    opt_member_push(&mut ms, "conversion_factor", opt_decimal_json(&u.conversion_factor));
    push_ids(&mut ms, &u.identifiers);
    proof {
        let v = u@;
        assert(members_v(ms@) =~= seq![("type"@, js_string(unit_type_text(v.keyword))), ("name"@, js_string(v.name))]
            + opt_member(
            "conversion_factor"@,
            match v.conversion_factor {
                Some(f) => Some(decimal_text(f)),
                None => None,
            },
        ) + ids_members(v.identifiers));
    }
    object_text(&ms)
}

fn opt_unit_json(u: &Option<Unit>) -> (r: Option<String>)
    ensures
        opt_text(r) == opt_unit_text(opt_unit(*u)),
{
    match u {
        Some(x) => Some(unit_json(x)),
        None => None,
    }
}

fn value_unit_json(v: &Decimal, u: &Option<Unit>) -> (r: String)
    ensures
        r@ == pj_value_unit(v@, opt_unit(*u)),
{
    match u {
        Some(x) => {
            let mut ms: Vec<(String, String)> = Vec::new();
            member(&mut ms, "value", v.to_text());
            member(&mut ms, "unit", unit_json(x));
            assert(members_v(ms@) =~= seq![("value"@, decimal_text(v@)), ("unit"@, pj_unit(x@))]);
            object_text(&ms)
        },
        None => v.to_text(),
    }
}

fn ellipsoid_json(e: &Ellipsoid) -> (r: String)
    ensures
        r@ == pj_ellipsoid(e@),
{
    let mut ms: Vec<(String, String)> = Vec::new();
    member(&mut ms, "name", json_string(e.name.as_str()));
    member(&mut ms, "semi_major_axis", value_unit_json(&e.semi_major_axis, &e.unit));
    member(&mut ms, "inverse_flattening", e.inverse_flattening.to_text());
    push_ids(&mut ms, &e.identifiers);
    proof {
        let v = e@;
        assert(members_v(ms@) =~= seq![
            ("name"@, js_string(v.name)),
            ("semi_major_axis"@, pj_value_unit(v.semi_major_axis, v.unit)),
            ("inverse_flattening"@, decimal_text(v.inverse_flattening)),
        ] + ids_members(v.identifiers));
    }
    object_text(&ms)
}

fn prime_meridian_json(pm: &PrimeMeridian) -> (r: String)
    ensures
        r@ == pj_prime_meridian(pm@),
{
    let mut ms: Vec<(String, String)> = Vec::new();
    member(&mut ms, "name", json_string(pm.name.as_str()));
    member(&mut ms, "longitude", value_unit_json(&pm.irm_longitude, &pm.unit));
    push_ids(&mut ms, &pm.identifiers);
    proof {
        let v = pm@;
        assert(members_v(ms@) =~= seq![("name"@, js_string(v.name)), ("longitude"@, pj_value_unit(v.irm_longitude, v.unit))]
            + ids_members(v.identifiers));
    }
    object_text(&ms)
}

fn frame_json(f: &GeodeticReferenceFrame, dynamic: &Option<DynamicCrs>) -> (r: String)
    ensures
        r@ == pj_frame(f@, crate::model::opt_dynamic(*dynamic)),
{
    let mut ms: Vec<(String, String)> = Vec::new();
    match dynamic {
        Some(d) => {
            member(&mut ms, "type", json_string("DynamicGeodeticReferenceFrame"));
            member(&mut ms, "frame_reference_epoch", d.frame_reference_epoch.to_text());
        },
        None => {
            member(&mut ms, "type", json_string("GeodeticReferenceFrame"));
        },
    }
    member(&mut ms, "name", json_string(f.name.as_str()));
    opt_member_push(&mut ms, "anchor", opt_string_json(&f.anchor));
    opt_member_push(&mut ms, "anchor_epoch", opt_decimal_json(&f.anchor_epoch));
    member(&mut ms, "ellipsoid", ellipsoid_json(&f.ellipsoid));
    let pm = match &f.prime_meridian {
        Some(p) => Some(prime_meridian_json(p)),
        None => None,
    };
    opt_member_push(&mut ms, "prime_meridian", pm);
    push_ids(&mut ms, &f.identifiers);
    proof {
        let v = f@;
        let dv = crate::model::opt_dynamic(*dynamic);
        assert(members_v(ms@) =~= match dv {
            Some(d) => seq![
                ("type"@, js_string("DynamicGeodeticReferenceFrame"@)),
                ("frame_reference_epoch"@, decimal_text(d.frame_reference_epoch)),
            ],
            None => seq![("type"@, js_string("GeodeticReferenceFrame"@))],
        } + seq![("name"@, js_string(v.name))] + opt_member(
            "anchor"@,
            match v.anchor {
                Some(a) => Some(js_string(a)),
                None => None,
            },
        ) + opt_member(
            "anchor_epoch"@,
            match v.anchor_epoch {
                Some(e) => Some(decimal_text(e)),
                None => None,
            },
        ) + seq![("ellipsoid"@, pj_ellipsoid(v.ellipsoid))] + opt_member(
            "prime_meridian"@,
            match v.prime_meridian {
                Some(p) => Some(pj_prime_meridian(p)),
                None => None,
            },
        ) + ids_members(v.identifiers));
    }
    object_text(&ms)
}

fn named_json(name: &String, ids: &Vec<Identifier>) -> (r: String)
    ensures
        r@ == pj_named(name@, ids_v(*ids)),
{
    let mut ms: Vec<(String, String)> = Vec::new();
    member(&mut ms, "name", json_string(name.as_str()));
    push_ids(&mut ms, ids);
    assert(members_v(ms@) =~= seq![("name"@, js_string(name@))] + ids_members(ids_v(*ids)));
    object_text(&ms)
}

fn ensemble_json(e: &DatumEnsemble) -> (r: String)
    ensures
        r@ == pj_ensemble(e@),
{
    let ghost ev = e@;
    let mut vs: Vec<String> = Vec::new();
    let mut i: usize = 0;
    while i < e.members.len()
        invariant
            i <= e.members@.len(),
            ev == e@,
            vs@.len() == i,
            forall|j: int| 0 <= j < i ==> (#[trigger] vs@[j])@ == pj_named(ev.members[j].name, ev.members[j].identifiers),
        decreases e.members@.len() - i,
    {
        vs.push(named_json(&e.members[i].name, &e.members[i].identifiers));
        i = i + 1;
    }
    assert(vs@.map_values(|x: String| x@) =~= ev.members.map_values(|m: EnsembleMemberV| pj_named(m.name, m.identifiers)));
    let mut ms: Vec<(String, String)> = Vec::new();
    member(&mut ms, "type", json_string("DatumEnsemble"));
    member(&mut ms, "name", json_string(e.name.as_str()));
    member(&mut ms, "members", array_text(&vs));
    let ell = match &e.ellipsoid {
        Some(x) => Some(ellipsoid_json(x)),
        None => None,
    };
    opt_member_push(&mut ms, "ellipsoid", ell);
    let acc = e.accuracy.to_text();
    member(&mut ms, "accuracy", json_string(acc.as_str()));
    push_ids(&mut ms, &e.identifiers);
    proof {
        assert(members_v(ms@) =~= seq![
            ("type"@, js_string("DatumEnsemble"@)),
            ("name"@, js_string(ev.name)),
            ("members"@, js_array(ev.members.map_values(|m: EnsembleMemberV| pj_named(m.name, m.identifiers)))),
        ] + opt_member(
            "ellipsoid"@,
            match ev.ellipsoid {
                Some(x) => Some(pj_ellipsoid(x)),
                None => None,
            },
        ) + seq![("accuracy"@, js_string(decimal_text(ev.accuracy)))] + ids_members(ev.identifiers));
    }
    object_text(&ms)
}

fn push_datum(ms: &mut Vec<(String, String)>, d: &Datum, dynamic: &Option<DynamicCrs>)
    ensures
        members_v(final(ms)@) == members_v(old(ms)@) + datum_members(d@, crate::model::opt_dynamic(*dynamic)),
{
    match d {
        Datum::ReferenceFrame(f) => member(ms, "datum", frame_json(f, dynamic)),
        Datum::Ensemble(e) => member(ms, "datum_ensemble", ensemble_json(e)),
    }
    assert(members_v(ms@) =~= members_v(old(ms)@) + datum_members(d@, crate::model::opt_dynamic(*dynamic)));
}

fn push_deformation(ms: &mut Vec<(String, String)>, dynamic: &Option<DynamicCrs>)
    ensures
        members_v(final(ms)@) == members_v(old(ms)@) + deformation_members(crate::model::opt_dynamic(*dynamic)),
{
    if let Some(d) = dynamic {
        if let Some(m) = &d.deformation_model {
            let mut vs: Vec<String> = Vec::new();
            vs.push(named_json(&m.name, &m.identifiers));
            assert(vs@.map_values(|x: String| x@) =~= seq![pj_named(m@.name, m@.identifiers)]);
            member(ms, "deformation_models", array_text(&vs));
        }
    }
    assert(members_v(ms@) =~= members_v(old(ms)@) + deformation_members(crate::model::opt_dynamic(*dynamic)));
}

fn base_crs_json(b: &BaseGeodeticCrs) -> (r: String)
    ensures
        r@ == pj_base_crs(b@),
{
    let mut ms: Vec<(String, String)> = Vec::new();
    let t = match b.keyword {
        BaseGeodeticCrsKeyword::BaseGeogCrs => "GeographicCRS",
        BaseGeodeticCrsKeyword::BaseGeodCrs => "GeodeticCRS",
    };
    member(&mut ms, "type", json_string(t));
    member(&mut ms, "name", json_string(b.name.as_str()));
    push_datum(&mut ms, &b.datum, &b.dynamic);
    push_deformation(&mut ms, &b.dynamic);
    push_ids(&mut ms, &b.identifiers);
    proof {
        let v = b@;
        assert(members_v(ms@) =~= seq![
            (
                "type"@,
                js_string(
                    match v.keyword {
                        BaseGeodeticCrsKeyword::BaseGeogCrs => "GeographicCRS"@,
                        BaseGeodeticCrsKeyword::BaseGeodCrs => "GeodeticCRS"@,
                    },
                ),
            ),
            ("name"@, js_string(v.name)),
        ] + datum_members(v.datum, v.dynamic) + deformation_members(v.dynamic) + ids_members(v.identifiers));
    }
    object_text(&ms)
}

fn parameter_json(p: &MapProjectionParameter) -> (r: String)
    ensures
        r@ == pj_parameter(p@),
{
    let mut ms: Vec<(String, String)> = Vec::new();
    member(&mut ms, "name", json_string(p.name.as_str()));
    member(&mut ms, "value", p.value.to_text());
    opt_member_push(&mut ms, "unit", opt_unit_json(&p.unit));
    push_ids(&mut ms, &p.identifiers);
    proof {
        let v = p@;
        assert(members_v(ms@) =~= seq![("name"@, js_string(v.name)), ("value"@, decimal_text(v.value))]
            + opt_member("unit"@, opt_unit_text(v.unit)) + ids_members(v.identifiers));
    }
    object_text(&ms)
}

fn conversion_json(m: &MapProjection) -> (r: String)
    ensures
        r@ == pj_conversion(m@),
{
    let ghost mv = m@;
    let mut ms: Vec<(String, String)> = Vec::new();
    member(&mut ms, "name", json_string(m.name.as_str()));
    member(&mut ms, "method", named_json(&m.method.name, &m.method.identifiers));
    if m.parameters.len() > 0 {
        let mut vs: Vec<String> = Vec::new();
        let mut i: usize = 0;
        while i < m.parameters.len()
            invariant
                i <= m.parameters@.len(),
                mv == m@,
                vs@.len() == i,
                forall|j: int| 0 <= j < i ==> (#[trigger] vs@[j])@ == pj_parameter(mv.parameters[j]),
            decreases m.parameters@.len() - i,
        {
            vs.push(parameter_json(&m.parameters[i]));
            i = i + 1;
        }
        assert(vs@.map_values(|x: String| x@) =~= mv.parameters.map_values(|p: MapProjectionParameterV| pj_parameter(p)));
        member(&mut ms, "parameters", array_text(&vs));
    }
    push_ids(&mut ms, &m.identifiers);
    proof {
        assert(members_v(ms@) =~= seq![("name"@, js_string(mv.name)), ("method"@, pj_named(mv.method.name, mv.method.identifiers))]
            + (if mv.parameters.len() == 0 {
            Seq::empty()
        } else {
            seq![
                (
                    "parameters"@,
                    js_array(mv.parameters.map_values(|p: MapProjectionParameterV| pj_parameter(p))),
                ),
            ]
        }) + ids_members(mv.identifiers));
    }
    object_text(&ms)
}

/// The last position of `c` in the characters.
fn last_index(cs: &Vec<char>, c: char) -> (r: Option<usize>)
    ensures
        match last_index_of(cs@, c) {
            Some(i) => r == Some(i as usize),
            None => r is None,
        },
{
    let mut i = cs.len();
    assert(cs@.take(i as int) =~= cs@);
    while i > 0
        invariant
            i <= cs@.len(),
            last_index_of(cs@, c) == last_index_of(cs@.take(i as int), c),
        decreases i,
    {
        assert(cs@.take(i as int).drop_last() =~= cs@.take(i - 1));
        if cs[i - 1] == c {
            return Some(i - 1);
        }
        i = i - 1;
    }
    None
}

/// The first position at or after `a` of `c` in the characters.
fn index_from(cs: &Vec<char>, a: usize, c: char) -> (r: Option<usize>)
    ensures
        match index_of_from(cs@, a as int, c) {
            Some(i) => r == Some(i as usize),
            None => r is None,
        },
{
    let mut i = a;
    while i < cs.len()
        invariant
            a <= i,
            index_of_from(cs@, a as int, c) == index_of_from(cs@, i as int, c),
        decreases cs@.len() - i,
    {
        if cs[i] == c {
            return Some(i);
        }
        i = i + 1;
    }
    None
}

/// The characters in `[a, b)` without leading and trailing Unicode whitespace.
fn trimmed(cs: &Vec<char>, a0: usize, b0: usize) -> (r: String)
    requires
        a0 <= b0 <= cs@.len(),
    ensures
        r@ == sp_trim(cs@.subrange(a0 as int, b0 as int)),
{
    let ghost t = cs@.subrange(a0 as int, b0 as int);
    let mut a = a0;
    while a < b0 && is_unicode_ws_char(cs[a])
        invariant
            a0 <= a <= b0 <= cs@.len(),
            sp_trim_start(t, a - a0, b0 - a0) == sp_trim_start(t, 0, b0 - a0),
            t == cs@.subrange(a0 as int, b0 as int),
        decreases b0 - a,
    {
        a = a + 1;
    }
    let mut b = b0;
    while a < b && is_unicode_ws_char(cs[b - 1])
        invariant
            a0 <= a <= b <= b0 <= cs@.len(),
            a - a0 == sp_trim_start(t, 0, b0 - a0),
            sp_trim_end(t, a - a0, b - a0) == sp_trim_end(t, a - a0, b0 - a0),
            t == cs@.subrange(a0 as int, b0 as int),
        decreases b - a,
    {
        b = b - 1;
    }
    proof {
        assert(t.subrange(a - a0, b - a0) =~= cs@.subrange(a as int, b as int));
    }
    string_of(cs.as_slice(), a, b)
}

/// `name (abbreviation)` split into its two parts.
fn split_name(t: &String) -> (r: (String, String))
    ensures
        r.0@ == split_axis_name(t@).0,
        r.1@ == split_axis_name(t@).1,
{
    let cs = chars_of(t.as_str());
    assert(cs@ == t@);
    proof {
        lemma_last_index_in(cs@, '(');
    }
    if let Some(a) = last_index(&cs, '(') {
        proof {
            lemma_index_from_in(cs@, a as int, ')');
        }
        if let Some(b) = index_from(&cs, a, ')') {
            assert(cs@[a as int] == '(');
            assert(a < b < cs@.len());
            let name = trimmed(&cs, 0, a);
            let abbrev = string_of(cs.as_slice(), a + 1, b);
            return (name, abbrev);
        }
    }
    (string_of(cs.as_slice(), 0, cs.len()), String::new())
}

proof fn lemma_last_index_in(t: Seq<char>, c: char)
    ensures
        last_index_of(t, c) matches Some(i) ==> 0 <= i < t.len() && t[i] == c,
    decreases t.len(),
{
    if t.len() > 0 && t.last() != c {
        lemma_last_index_in(t.drop_last(), c);
    }
}

proof fn lemma_index_from_in(t: Seq<char>, p: int, c: char)
    ensures
        index_of_from(t, p, c) matches Some(i) ==> p <= i < t.len() && t[i] == c,
    decreases t.len() - p,
{
    if 0 <= p < t.len() && t[p] != c {
        lemma_index_from_in(t, p + 1, c);
    }
}

#[verifier::rlimit(60)]
#[verifier::spinoff_prover]
fn axis_json(a: &Axis, cs_unit: &Option<Unit>) -> (r: String)
    ensures
        r@ == pj_axis(a@, opt_unit(*cs_unit)),
{
    let (name, abbrev) = split_name(&a.name_abbrev);
    let mut ms: Vec<(String, String)> = Vec::new();
    member(&mut ms, "name", json_string(name.as_str()));
    member(&mut ms, "abbreviation", json_string(abbrev.as_str()));
    member(&mut ms, "direction", json_string(a.direction.as_str()));
    let unit = if a.unit.is_some() {
        opt_unit_json(&a.unit)
    } else {
        opt_unit_json(cs_unit)
    };
    opt_member_push(&mut ms, "unit", unit);
    let meridian = match &a.meridian {
        Some(m) => {
            let mut mm: Vec<(String, String)> = Vec::new();
            member(&mut mm, "longitude", m.value.to_text());
            member(&mut mm, "unit", unit_json(&m.unit));
            assert(members_v(mm@) =~= seq![("longitude"@, decimal_text(m@.value)), ("unit"@, pj_unit(m@.unit))]);
            Some(object_text(&mm))
        },
        None => None,
    };
    opt_member_push(&mut ms, "meridian", meridian);
    opt_member_push(&mut ms, "minimum_value", opt_decimal_json(&a.axis_min_value));
    opt_member_push(&mut ms, "maximum_value", opt_decimal_json(&a.axis_max_value));
    let rm = match a.range_meaning {
        Some(RangeMeaning::Exact) => Some(json_string("exact")),
        Some(RangeMeaning::Wraparound) => Some(json_string("wraparound")),
        None => None,
    };
    opt_member_push(&mut ms, "range_meaning", rm);
    push_ids(&mut ms, &a.identifiers);
    proof {
        let v = a@;
        let (n, ab) = split_axis_name(v.name_abbrev);
        assert(members_v(ms@) =~= seq![
            ("name"@, js_string(n)),
            ("abbreviation"@, js_string(ab)),
            ("direction"@, js_string(v.direction)),
        ] + opt_member(
            "unit"@,
            opt_unit_text(
                if v.unit is Some {
                    v.unit
                } else {
                    opt_unit(*cs_unit)
                },
            ),
        ) + opt_member(
            "meridian"@,
            match v.meridian {
                Some(m) => Some(
                    js_object(seq![("longitude"@, decimal_text(m.value)), ("unit"@, pj_unit(m.unit))]),
                ),
                None => None,
            },
        ) + opt_member(
            "minimum_value"@,
            match v.axis_min_value {
                Some(x) => Some(decimal_text(x)),
                None => None,
            },
        ) + opt_member(
            "maximum_value"@,
            match v.axis_max_value {
                Some(x) => Some(decimal_text(x)),
                None => None,
            },
        ) + opt_member(
            "range_meaning"@,
            match v.range_meaning {
                Some(RangeMeaning::Exact) => Some(js_string("exact"@)),
                Some(RangeMeaning::Wraparound) => Some(js_string("wraparound"@)),
                None => None,
            },
        ) + ids_members(v.identifiers));
    }
    object_text(&ms)
}

fn cs_json(c: &CoordinateSystem) -> (r: String)
    ensures
        r@ == pj_cs(c@),
{
    let ghost cv = c@;
    let mut vs: Vec<String> = Vec::new();
    let mut i: usize = 0;
    while i < c.axes.len()
        invariant
            i <= c.axes@.len(),
            cv == c@,
            vs@.len() == i,
            forall|j: int| 0 <= j < i ==> (#[trigger] vs@[j])@ == pj_axis(cv.axes[j], cv.cs_unit),
        decreases c.axes@.len() - i,
    {
        vs.push(axis_json(&c.axes[i], &c.cs_unit));
        i = i + 1;
    }
    assert(vs@.map_values(|x: String| x@) =~= cv.axes.map_values(|a: AxisV| pj_axis(a, cv.cs_unit)));
    let mut ms: Vec<(String, String)> = Vec::new();
    member(&mut ms, "subtype", json_string(cs_type_name(c.cs_type)));
    member(&mut ms, "axis", array_text(&vs));
    push_ids(&mut ms, &c.identifiers);
    assert(members_v(ms@) =~= seq![
        ("subtype"@, js_string(crate::wkt2::writer::cs_type_text(cv.cs_type))),
        ("axis"@, js_array(cv.axes.map_values(|a: AxisV| pj_axis(a, cv.cs_unit)))),
    ] + ids_members(cv.identifiers));
    object_text(&ms)
}

fn usage_json(u: &Usage) -> (r: String)
    ensures
        r@ == pj_usage(u@),
{
    let mut ms: Vec<(String, String)> = Vec::new();
    member(&mut ms, "scope", json_string(u.scope.as_str()));
    opt_member_push(&mut ms, "area", opt_string_json(&u.area));
    let bbox = match &u.bbox {
        Some(b) => {
            let mut bm: Vec<(String, String)> = Vec::new();
            member(&mut bm, "south_latitude", b.lower_left_latitude.to_text());
            member(&mut bm, "west_longitude", b.lower_left_longitude.to_text());
            member(&mut bm, "north_latitude", b.upper_right_latitude.to_text());
            member(&mut bm, "east_longitude", b.upper_right_longitude.to_text());
            assert(members_v(bm@) =~= seq![
                ("south_latitude"@, decimal_text(b@.lower_left_latitude)),
                ("west_longitude"@, decimal_text(b@.lower_left_longitude)),
                ("north_latitude"@, decimal_text(b@.upper_right_latitude)),
                ("east_longitude"@, decimal_text(b@.upper_right_longitude)),
            ]);
            Some(object_text(&bm))
        },
        None => None,
    };
    opt_member_push(&mut ms, "bbox", bbox);
    let vext = match &u.vertical_extent {
        Some(v) => {
            let mut vm: Vec<(String, String)> = Vec::new();
            member(&mut vm, "minimum", v.minimum_height.to_text());
            member(&mut vm, "maximum", v.maximum_height.to_text());
            opt_member_push(&mut vm, "unit", opt_unit_json(&v.unit));
            assert(members_v(vm@) =~= seq![
                ("minimum"@, decimal_text(v@.minimum_height)),
                ("maximum"@, decimal_text(v@.maximum_height)),
            ] + opt_member("unit"@, opt_unit_text(v@.unit)));
            Some(object_text(&vm))
        },
        None => None,
    };
    opt_member_push(&mut ms, "vertical_extent", vext);
    let text = match &u.temporal_extent {
        Some(t) => {
            let mut tm: Vec<(String, String)> = Vec::new();
            member(&mut tm, "start", json_string(t.start.as_str()));
            member(&mut tm, "end", json_string(t.end.as_str()));
            assert(members_v(tm@) =~= seq![("start"@, js_string(t@.start)), ("end"@, js_string(t@.end))]);
            Some(object_text(&tm))
        },
        None => None,
    };
    opt_member_push(&mut ms, "temporal_extent", text);
    proof {
        let v = u@;
        assert(members_v(ms@) =~= seq![("scope"@, js_string(v.scope))] + opt_member(
            "area"@,
            match v.area {
                Some(a) => Some(js_string(a)),
                None => None,
            },
        ) + opt_member(
            "bbox"@,
            match v.bbox {
                Some(b) => Some(
                    js_object(
                        seq![
                            ("south_latitude"@, decimal_text(b.lower_left_latitude)),
                            ("west_longitude"@, decimal_text(b.lower_left_longitude)),
                            ("north_latitude"@, decimal_text(b.upper_right_latitude)),
                            ("east_longitude"@, decimal_text(b.upper_right_longitude)),
                        ],
                    ),
                ),
                None => None,
            },
        ) + opt_member(
            "vertical_extent"@,
            match v.vertical_extent {
                Some(x) => Some(
                    js_object(
                        seq![
                            ("minimum"@, decimal_text(x.minimum_height)),
                            ("maximum"@, decimal_text(x.maximum_height)),
                        ] + opt_member("unit"@, opt_unit_text(x.unit)),
                    ),
                ),
                None => None,
            },
        ) + opt_member(
            "temporal_extent"@,
            match v.temporal_extent {
                Some(t) => Some(
                    js_object(seq![("start"@, js_string(t.start)), ("end"@, js_string(t.end))]),
                ),
                None => None,
            },
        ));
    }
    object_text(&ms)
}

fn push_usages(ms: &mut Vec<(String, String)>, us: &Vec<Usage>)
    ensures
        members_v(final(ms)@) == members_v(old(ms)@) + usages_members(usages_v(*us)),
{
    let ghost uv = usages_v(*us);
    if us.len() > 0 {
        let mut vs: Vec<String> = Vec::new();
        let mut i: usize = 0;
        while i < us.len()
            invariant
                i <= us@.len(),
                uv == usages_v(*us),
                vs@.len() == i,
                forall|j: int| 0 <= j < i ==> (#[trigger] vs@[j])@ == pj_usage(uv[j]),
            decreases us@.len() - i,
        {
            vs.push(usage_json(&us[i]));
            i = i + 1;
        }
        assert(vs@.map_values(|x: String| x@) =~= uv.map_values(|u: UsageV| pj_usage(u)));
        member(ms, "usages", array_text(&vs));
    }
    assert(members_v(ms@) =~= members_v(old(ms)@) + usages_members(uv));
}

fn push_remark(ms: &mut Vec<(String, String)>, r: &Option<String>)
    ensures
        members_v(final(ms)@) == members_v(old(ms)@) + remark_members(opt_text(*r)),
{
    opt_member_push(ms, "remarks", opt_string_json(r));
}

fn push_schema(ms: &mut Vec<(String, String)>)
    ensures
        members_v(final(ms)@) == members_v(old(ms)@).push(schema_member()),
{
    member(ms, "$schema", json_string("https://proj.org/schemas/v0.7/projjson.schema.json"));
}

proof fn lemma_push_is_add<T>(s: Seq<T>, x: T)
    ensures
        s.push(x) == s + seq![x],
{
    assert(s.push(x) =~= s + seq![x]);
}

#[verifier::spinoff_prover]
fn projected_members(c: &ProjectedCrs) -> (r: Vec<(String, String)>)
    ensures
        members_v(r@) == projected_body(c@),
{
    let mut ms: Vec<(String, String)> = Vec::new();
    assert(members_v(ms@) =~= Seq::empty());
    member(&mut ms, "type", json_string("ProjectedCRS"));
    member(&mut ms, "name", json_string(c.name.as_str()));
    member(&mut ms, "base_crs", base_crs_json(&c.base_geodetic_crs));
    member(&mut ms, "conversion", conversion_json(&c.map_projection));
    member(&mut ms, "coordinate_system", cs_json(&c.coordinate_system));
    push_usages(&mut ms, &c.usages);
    push_remark(&mut ms, &c.remark);
    push_ids(&mut ms, &c.identifiers);
    ms
}

#[verifier::spinoff_prover]
fn geodetic_members(
    kind: &str,
    name: &String,
    datum: &Datum,
    dynamic: &Option<DynamicCrs>,
    cs: &CoordinateSystem,
    usages: &Vec<Usage>,
    remark: &Option<String>,
    ids: &Vec<Identifier>,
) -> (r: Vec<(String, String)>)
    ensures
        members_v(r@) == geodetic_body(
            kind@,
            name@,
            datum@,
            crate::model::opt_dynamic(*dynamic),
            cs@,
            usages_v(*usages),
            opt_text(*remark),
            ids_v(*ids),
        ),
{
    let mut ms: Vec<(String, String)> = Vec::new();
    assert(members_v(ms@) =~= Seq::empty());
    member(&mut ms, "type", json_string(kind));
    member(&mut ms, "name", json_string(name.as_str()));
    push_datum(&mut ms, datum, dynamic);
    push_deformation(&mut ms, dynamic);
    let ghost before_cs = members_v(ms@);
    member(&mut ms, "coordinate_system", cs_json(cs));
    proof {
        lemma_push_is_add(before_cs, ("coordinate_system"@, pj_cs(cs@)));
    }
    push_usages(&mut ms, usages);
    push_remark(&mut ms, remark);
    push_ids(&mut ms, ids);
    ms
}

fn geographic_members(c: &GeogCrs) -> (r: Vec<(String, String)>)
    ensures
        members_v(r@) == geographic_body(c@),
{
    geodetic_members(
        "GeographicCRS",
        &c.name,
        &c.datum,
        &c.dynamic,
        &c.coordinate_system,
        &c.usages,
        &c.remark,
        &c.identifiers,
    )
}

fn geod_members(c: &GeodCrs) -> (r: Vec<(String, String)>)
    ensures
        members_v(r@) == geod_body(c@),
{
    geodetic_members(
        "GeodeticCRS",
        &c.name,
        &c.datum,
        &c.dynamic,
        &c.coordinate_system,
        &c.usages,
        &c.remark,
        &c.identifiers,
    )
}

fn vframe_json(f: &VerticalReferenceFrame, dynamic: &Option<DynamicCrs>) -> (r: String)
    ensures
        r@ == pj_vframe(f@, crate::model::opt_dynamic(*dynamic)),
{
    let mut ms: Vec<(String, String)> = Vec::new();
    match dynamic {
        Some(d) => {
            member(&mut ms, "type", json_string("DynamicVerticalReferenceFrame"));
            member(&mut ms, "frame_reference_epoch", d.frame_reference_epoch.to_text());
        },
        None => {
            member(&mut ms, "type", json_string("VerticalReferenceFrame"));
        },
    }
    member(&mut ms, "name", json_string(f.name.as_str()));
    opt_member_push(&mut ms, "anchor", opt_string_json(&f.anchor));
    opt_member_push(&mut ms, "anchor_epoch", opt_decimal_json(&f.anchor_epoch));
    push_ids(&mut ms, &f.identifiers);
    proof {
        let v = f@;
        let dv = crate::model::opt_dynamic(*dynamic);
        assert(members_v(ms@) =~= match dv {
            Some(d) => seq![
                ("type"@, js_string("DynamicVerticalReferenceFrame"@)),
                ("frame_reference_epoch"@, decimal_text(d.frame_reference_epoch)),
            ],
            None => seq![("type"@, js_string("VerticalReferenceFrame"@))],
        } + seq![("name"@, js_string(v.name))] + opt_member(
            "anchor"@,
            match v.anchor {
                Some(a) => Some(js_string(a)),
                None => None,
            },
        ) + opt_member(
            "anchor_epoch"@,
            match v.anchor_epoch {
                Some(e) => Some(decimal_text(e)),
                None => None,
            },
        ) + ids_members(v.identifiers));
    }
    object_text(&ms)
}

fn push_vdatum(ms: &mut Vec<(String, String)>, d: &VerticalDatum, dynamic: &Option<DynamicCrs>)
    ensures
        members_v(final(ms)@) == members_v(old(ms)@) + vdatum_members(
            d@,
            crate::model::opt_dynamic(*dynamic),
        ),
{
    match d {
        VerticalDatum::ReferenceFrame(f) => member(ms, "datum", vframe_json(f, dynamic)),
        VerticalDatum::Ensemble(e) => member(ms, "datum_ensemble", ensemble_json(e)),
    }
    assert(members_v(ms@) =~= members_v(old(ms)@) + vdatum_members(
        d@,
        crate::model::opt_dynamic(*dynamic),
    ));
}

#[verifier::spinoff_prover]
fn base_vert_json(b: &BaseVertCrs) -> (r: String)
    ensures
        r@ == pj_base_vert(b@),
{
    let ghost v = b@;
    let mut ms: Vec<(String, String)> = Vec::new();
    assert(members_v(ms@) =~= Seq::empty());
    member(&mut ms, "type", json_string("VerticalCRS"));
    member(&mut ms, "name", json_string(b.name.as_str()));
    assert(members_v(ms@) == seq![("type"@, js_string("VerticalCRS"@)), ("name"@, js_string(v.name))]);
    push_vdatum(&mut ms, &b.datum, &b.dynamic);
    push_deformation(&mut ms, &b.dynamic);
    push_ids(&mut ms, &b.identifiers);
    object_text(&ms)
}

fn push_geoids(ms: &mut Vec<(String, String)>, gs: &Vec<GeoidModel>)
    ensures
        members_v(final(ms)@) == members_v(old(ms)@) + geoid_members(
            gs@.map_values(|g: GeoidModel| g@),
        ),
{
    let ghost gv = gs@.map_values(|g: GeoidModel| g@);
    if gs.len() == 1 {
        member(ms, "geoid_model", named_json(&gs[0].name, &gs[0].identifiers));
    } else if gs.len() > 1 {
        let mut vs: Vec<String> = Vec::new();
        let mut i: usize = 0;
        while i < gs.len()
            invariant
                i <= gs@.len(),
                gv == gs@.map_values(|g: GeoidModel| g@),
                vs@.len() == i,
                forall|j: int| 0 <= j < i ==> (#[trigger] vs@[j])@ == pj_named(gv[j].name, gv[j].identifiers),
            decreases gs@.len() - i,
        {
            vs.push(named_json(&gs[i].name, &gs[i].identifiers));
            i = i + 1;
        }
        assert(vs@.map_values(|x: String| x@) =~= gv.map_values(|g: GeoidModelV| pj_named(g.name, g.identifiers)));
        member(ms, "geoid_models", array_text(&vs));
    }
    assert(members_v(ms@) =~= members_v(old(ms)@) + geoid_members(gv));
}

#[verifier::spinoff_prover]
fn vertical_head(c: &VertCrs) -> (r: Vec<(String, String)>)
    ensures
        members_v(r@) == vertical_head_members(c@),
{
    let mut ms: Vec<(String, String)> = Vec::new();
    assert(members_v(ms@) =~= Seq::empty());
    match &c.source {
        VertCrsSource::Datum { dynamic, datum } => {
            member(&mut ms, "type", json_string("VerticalCRS"));
            member(&mut ms, "name", json_string(c.name.as_str()));
            assert(members_v(ms@) == seq![
                ("type"@, js_string("VerticalCRS"@)),
                ("name"@, js_string(c@.name)),
            ]);
            push_vdatum(&mut ms, datum, dynamic);
            push_deformation(&mut ms, dynamic);
        },
        VertCrsSource::Derived { base_vert_crs, deriving_conversion } => {
            member(&mut ms, "type", json_string("DerivedVerticalCRS"));
            member(&mut ms, "name", json_string(c.name.as_str()));
            member(&mut ms, "base_crs", base_vert_json(base_vert_crs));
            member(&mut ms, "conversion", conversion_json(deriving_conversion));
            assert(members_v(ms@) == seq![
                ("type"@, js_string("DerivedVerticalCRS"@)),
                ("name"@, js_string(c@.name)),
                ("base_crs"@, pj_base_vert(base_vert_crs@)),
                ("conversion"@, pj_conversion(deriving_conversion@)),
            ]);
        },
    }
    ms
}

#[verifier::spinoff_prover]
fn vertical_members(c: &VertCrs) -> (r: Vec<(String, String)>)
    ensures
        members_v(r@) == vertical_body(c@),
{
    let mut ms = vertical_head(c);
    let ghost before_cs = members_v(ms@);
    member(&mut ms, "coordinate_system", cs_json(&c.coordinate_system));
    proof {
        lemma_push_is_add(before_cs, ("coordinate_system"@, pj_cs(c@.coordinate_system)));
    }
    assert(c@.geoid_models =~= c.geoid_models@.map_values(|g: GeoidModel| g@));
    push_geoids(&mut ms, &c.geoid_models);
    push_usages(&mut ms, &c.usages);
    push_remark(&mut ms, &c.remark);
    push_ids(&mut ms, &c.identifiers);
    ms
}

#[verifier::spinoff_prover]
#[verifier::rlimit(40)]
fn component_json(s: &SingleCrs) -> (r: String)
    ensures
        r@ == pj_component(s@),
{
    match s {
        SingleCrs::ProjectedCrs(c) => object_text(&projected_members(c)),
        SingleCrs::GeogCrs(c) => object_text(&geographic_members(c)),
        SingleCrs::GeodCrs(c) => object_text(&geod_members(c)),
        SingleCrs::VertCrs(c) => object_text(&vertical_members(c)),
        SingleCrs::Other(t) => json_string(t.as_str()),
    }
}

#[verifier::spinoff_prover]
fn compound_members(c: &CompoundCrs) -> (r: Vec<(String, String)>)
    ensures
        members_v(r@) == compound_body(c@),
{
    let ghost v = c@;
    let mut vs: Vec<String> = Vec::new();
    let mut i: usize = 0;
    while i < c.components.len()
        invariant
            i <= c.components@.len(),
            v == c@,
            vs@.len() == i,
            forall|j: int| 0 <= j < i ==> (#[trigger] vs@[j])@ == pj_component(v.components[j]),
        decreases c.components@.len() - i,
    {
        vs.push(component_json(&c.components[i]));
        i = i + 1;
    }
    assert(vs@.map_values(|x: String| x@) =~= v.components.map_values(|s: SingleCrsV| pj_component(s)));
    let mut ms: Vec<(String, String)> = Vec::new();
    assert(members_v(ms@) =~= Seq::empty());
    member(&mut ms, "type", json_string("CompoundCRS"));
    member(&mut ms, "name", json_string(c.name.as_str()));
    member(&mut ms, "components", array_text(&vs));
    push_usages(&mut ms, &c.usages);
    push_remark(&mut ms, &c.remark);
    push_ids(&mut ms, &c.identifiers);
    ms
}

/// The object of the given members, with `$schema` first.
fn schema_object(body: Vec<(String, String)>) -> (r: String)
    ensures
        r@ == js_object(seq![schema_member()] + members_v(body@)),
{
    let ghost b = body@;
    let mut body = body;
    let mut ms: Vec<(String, String)> = Vec::new();
    push_schema(&mut ms);
    let ghost s0 = ms@;
    ms.append(&mut body);
    assert(members_v(ms@) =~= members_v(s0) + members_v(b));
    assert(members_v(s0) =~= seq![schema_member()]);
    object_text(&ms)
}

impl ProjectedCrs {
    /// The PROJJSON text of this projected CRS.
    pub fn to_projjson(&self) -> (r: String)
        ensures
            r@ == pj_projected(self@),
    {
        schema_object(projected_members(self))
    }
}

impl GeogCrs {
    /// The PROJJSON text of this geographic CRS.
    pub fn to_projjson(&self) -> (r: String)
        ensures
            r@ == pj_geographic(self@),
    {
        schema_object(geographic_members(self))
    }
}

impl GeodCrs {
    /// The PROJJSON text of this geodetic CRS.
    pub fn to_projjson(&self) -> (r: String)
        ensures
            r@ == pj_geodetic(self@),
    {
        schema_object(geod_members(self))
    }
}

impl VertCrs {
    /// The PROJJSON text of this vertical CRS.
    pub fn to_projjson(&self) -> (r: String)
        ensures
            r@ == pj_vertical(self@),
    {
        schema_object(vertical_members(self))
    }
}

impl CompoundCrs {
    /// The PROJJSON text of this compound CRS; its components are written
    /// without `$schema`.
    pub fn to_projjson(&self) -> (r: String)
        ensures
            r@ == pj_compound(self@),
    {
        schema_object(compound_members(self))
    }
}

impl Crs {
    /// The PROJJSON text of this CRS.
    pub fn to_projjson(&self) -> (r: String)
        ensures
            r@ == pj_crs(self@),
    {
        match self {
            Crs::ProjectedCrs(c) => c.to_projjson(),
            Crs::GeogCrs(c) => c.to_projjson(),
            Crs::GeodCrs(c) => c.to_projjson(),
            Crs::VertCrs(c) => c.to_projjson(),
            Crs::CompoundCrs(c) => c.to_projjson(),
        }
    }
}

} // verus!
