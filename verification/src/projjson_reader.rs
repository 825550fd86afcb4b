//! PROJJSON read into a projected CRS. Each `rd_*` spec function gives the
//! value a JSON node reads to, or the error the reader reports for it; an
//! absent optional member is no error, a present one that does not read is.
use vstd::prelude::*;
use crate::crs::{
    AuthorityId, Axis, BBox, BaseGeodeticCrs, BaseGeodeticCrsKeyword, CoordinateSystem, CsType,
    Datum, DatumEnsemble, DatumKeyword, DeformationModel, DynamicCrs, Ellipsoid, EnsembleMember,
    GeodeticReferenceFrame, Identifier, MapProjection, MapProjectionMethod, MapProjectionParameter,
    Meridian, PrimeMeridian, ProjectedCrs, RangeMeaning, TemporalExtent, Unit, UnitKeyword, Usage,
    VerticalExtent,
};
use crate::decimal::{digits_of_nat, normalize, of_int, Decimal, DecimalV};
use crate::error::{ParseError, ParseErrorV};
use crate::json::{get, jget, jv, json_parse_result, jvs, ojv, parse_json, JsonV, JsonValue};
use crate::model::{
    ids_v, opt_dec, opt_text, opt_unit, usages_v, AuthorityIdV, AxisV, BBoxV, BaseGeodeticCrsV,
    CoordinateSystemV, DatumEnsembleV, DatumV, DeformationModelV, DynamicCrsV, EllipsoidV,
    EnsembleMemberV, GeodeticReferenceFrameV, IdentifierV, MapProjectionMethodV,
    MapProjectionParameterV, MapProjectionV, MeridianV, PrimeMeridianV, ProjectedCrsV,
    TemporalExtentV, UnitV, UsageV, VerticalExtentV,
};
use crate::text::{push_str, str_eq};
use crate::wkt1::mappings::{decimal_of, decimal_of_text, own};

verus! {

/// A PROJJSON error with the given message.
pub open spec fn json_err(m: Seq<char>) -> ParseErrorV {
    ParseErrorV::InvalidJson { message: m }
}

/// The text of a JSON string.
pub open spec fn as_text(v: Option<JsonV>) -> Option<Seq<char>> {
    match v {
        Some(JsonV::Text(t)) => Some(t),
        _ => None,
    }
}

/// The value of a JSON number.
pub open spec fn as_number(v: Option<JsonV>) -> Option<DecimalV> {
    match v {
        Some(JsonV::Number(t)) => decimal_of_text(t),
        _ => None,
    }
}

/// The items of a JSON array.
pub open spec fn as_array(v: Option<JsonV>) -> Option<Seq<JsonV>> {
    match v {
        Some(JsonV::Array(a)) => Some(a),
        _ => None,
    }
}

/// A string member that must be there.
pub open spec fn rd_str(v: JsonV, key: Seq<char>) -> Result<Seq<char>, ParseErrorV> {
    match as_text(jget(v, key)) {
        Some(t) => Ok(t),
        None => Err(json_err("missing or invalid string field '"@ + key + "'"@)),
    }
}

/// A number member that must be there.
pub open spec fn rd_num(v: JsonV, key: Seq<char>) -> Result<DecimalV, ParseErrorV> {
    match as_number(jget(v, key)) {
        Some(d) => Ok(d),
        None => Err(json_err("missing or invalid number field '"@ + key + "'"@)),
    }
}

/// Each item read by `f`; the first error stops the reading.
pub open spec fn rd_all<T>(xs: Seq<JsonV>, f: spec_fn(JsonV) -> Result<T, ParseErrorV>) -> Result<
    Seq<T>,
    ParseErrorV,
>
    decreases xs.len(),
{
    if xs.len() == 0 {
        Ok(Seq::empty())
    } else {
        match rd_all(xs.drop_last(), f) {
            Err(e) => Err(e),
            Ok(ys) => match f(xs.last()) {
                Err(e) => Err(e),
                Ok(y) => Ok(ys.push(y)),
            },
        }
    }
}

/// A code or version: a string or a number.
pub open spec fn rd_code(v: JsonV) -> Option<AuthorityIdV> {
    match v {
        JsonV::Text(t) => Some(AuthorityIdV::Text(t)),
        JsonV::Number(t) => match decimal_of_text(t) {
            Some(d) => Some(AuthorityIdV::Number(d)),
            None => None,
        },
        _ => None,
    }
}

/// An identifier object.
pub open spec fn rd_id(v: JsonV) -> Result<IdentifierV, ParseErrorV> {
    match rd_str(v, "authority"@) {
        Err(e) => Err(e),
        Ok(authority) => match jget(v, "code"@) {
            None => Err(json_err("id missing 'code'"@)),
            Some(c) => match rd_code(c) {
                None => Err(json_err("id 'code' must be string or number"@)),
                Some(code) => Ok(
                    IdentifierV {
                        authority_name: authority,
                        authority_unique_id: code,
                        version: match jget(v, "version"@) {
                            Some(JsonV::Text(t)) => Some(AuthorityIdV::Text(t)),
                            Some(x) => Some(
                                AuthorityIdV::Number(
                                    match as_number(Some(x)) {
                                        Some(d) => d,
                                        None => of_int(0),
                                    },
                                ),
                            ),
                            None => None,
                        },
                        citation: as_text(jget(v, "authority_citation"@)),
                        uri: as_text(jget(v, "uri"@)),
                    },
                ),
            },
        },
    }
}

/// `id` (one identifier) or `ids` (an array of them); none when neither is there.
pub open spec fn rd_ids(v: JsonV) -> Result<Seq<IdentifierV>, ParseErrorV> {
    match jget(v, "id"@) {
        Some(x) => match rd_id(x) {
            Err(e) => Err(e),
            Ok(id) => Ok(seq![id]),
        },
        None => match as_array(jget(v, "ids"@)) {
            Some(a) => rd_all(a, id_reader()),
            None => Ok(Seq::empty()),
        },
    }
}

/// The conversion factor of the degree.
pub open spec fn degree_factor_v() -> DecimalV {
    normalize(false, digits_of_nat(174532925199433nat), -16)
}

/// A unit of the given kind, name and factor, without identifiers.
pub open spec fn plain_unit(k: UnitKeyword, name: Seq<char>, f: DecimalV) -> UnitV {
    UnitV { keyword: k, name, conversion_factor: Some(f), identifiers: Seq::empty() }
}

/// The unit kind of a PROJJSON unit type.
pub open spec fn unit_kind(t: Seq<char>) -> Option<UnitKeyword> {
    if t == "AngularUnit"@ {
        Some(UnitKeyword::AngleUnit)
    } else if t == "LinearUnit"@ {
        Some(UnitKeyword::LengthUnit)
    } else if t == "ScaleUnit"@ {
        Some(UnitKeyword::ScaleUnit)
    } else if t == "TimeUnit"@ {
        Some(UnitKeyword::TimeUnit)
    } else if t == "ParametricUnit"@ {
        Some(UnitKeyword::ParametricUnit)
    } else if t == "Unit"@ {
        Some(UnitKeyword::Unit)
    } else {
        None
    }
}

/// A unit: one of the short names `metre`, `degree`, `unity`, or an object.
pub open spec fn rd_unit(v: JsonV) -> Result<UnitV, ParseErrorV> {
    match v {
        JsonV::Text(s) => if s == "metre"@ {
            Ok(plain_unit(UnitKeyword::LengthUnit, "metre"@, of_int(1)))
        } else if s == "degree"@ {
            Ok(plain_unit(UnitKeyword::AngleUnit, "degree"@, degree_factor_v()))
        } else if s == "unity"@ {
            Ok(plain_unit(UnitKeyword::ScaleUnit, "unity"@, of_int(1)))
        } else {
            Err(json_err("unknown unit shorthand '"@ + s + "'"@))
        },
        _ => match rd_str(v, "type"@) {
            Err(e) => Err(e),
            Ok(t) => match unit_kind(t) {
                None => Err(json_err("unknown unit type '"@ + t + "'"@)),
                Some(k) => match rd_str(v, "name"@) {
                    Err(e) => Err(e),
                    Ok(name) => match rd_ids(v) {
                        Err(e) => Err(e),
                        Ok(ids) => Ok(
                            UnitV {
                                keyword: k,
                                name,
                                conversion_factor: as_number(jget(v, "conversion_factor"@)),
                                identifiers: ids,
                            },
                        ),
                    },
                },
            },
        },
    }
}

/// An optional member read by `f`.
pub open spec fn rd_opt<T>(v: Option<JsonV>, f: spec_fn(JsonV) -> Result<T, ParseErrorV>) -> Result<
    Option<T>,
    ParseErrorV,
> {
    match v {
        Some(x) => match f(x) {
            Err(e) => Err(e),
            Ok(y) => Ok(Some(y)),
        },
        None => Ok(None),
    }
}

/// A member that is a number, or `{"value": number, "unit": unit}`.
pub open spec fn rd_value_unit(v: JsonV, key: Seq<char>) -> Result<(DecimalV, Option<UnitV>), ParseErrorV> {
    match jget(v, key) {
        None => Err(json_err("missing field '"@ + key + "'"@)),
        Some(field) => match as_number(Some(field)) {
            Some(n) => Ok((n, None)),
            None => if field is Object {
                match rd_num(field, "value"@) {
                    Err(e) => Err(e),
                    Ok(value) => match jget(field, "unit"@) {
                        None => Err(json_err("value_and_unit '"@ + key + "' missing 'unit'"@)),
                        Some(u) => match rd_unit(u) {
                            Err(e) => Err(e),
                            Ok(unit) => Ok((value, Some(unit))),
                        },
                    },
                }
            } else {
                Err(json_err("field '"@ + key + "' must be a number or object"@))
            },
        },
    }
}

pub open spec fn rd_ellipsoid(v: JsonV) -> Result<EllipsoidV, ParseErrorV> {
    match rd_str(v, "name"@) {
        Err(e) => Err(e),
        Ok(name) => match rd_value_unit(v, "semi_major_axis"@) {
            Err(e) => Err(e),
            Ok((a, unit)) => match rd_num(v, "inverse_flattening"@) {
                Err(e) => Err(e),
                Ok(rf) => match rd_ids(v) {
                    Err(e) => Err(e),
                    Ok(ids) => Ok(
                        EllipsoidV {
                            name,
                            semi_major_axis: a,
                            inverse_flattening: rf,
                            unit,
                            identifiers: ids,
                        },
                    ),
                },
            },
        },
    }
}

pub open spec fn rd_prime_meridian(v: JsonV) -> Result<PrimeMeridianV, ParseErrorV> {
    match rd_str(v, "name"@) {
        Err(e) => Err(e),
        Ok(name) => match rd_value_unit(v, "longitude"@) {
            Err(e) => Err(e),
            Ok((lon, unit)) => match rd_ids(v) {
                Err(e) => Err(e),
                Ok(ids) => Ok(PrimeMeridianV { name, irm_longitude: lon, unit, identifiers: ids }),
            },
        },
    }
}

/// A reference frame, with the dynamic CRS it makes when its type is
/// `DynamicGeodeticReferenceFrame`.
pub open spec fn rd_frame(v: JsonV) -> Result<(GeodeticReferenceFrameV, Option<DynamicCrsV>), ParseErrorV> {
    let is_dynamic = as_text(jget(v, "type"@)) == Some("DynamicGeodeticReferenceFrame"@);
    match rd_str(v, "name"@) {
        Err(e) => Err(e),
        Ok(name) => match jget(v, "ellipsoid"@) {
            None => Err(json_err("datum missing 'ellipsoid'"@)),
            Some(ev) => match rd_ellipsoid(ev) {
                Err(e) => Err(e),
                Ok(ellipsoid) => match rd_opt(jget(v, "prime_meridian"@), prime_meridian_reader()) {
                    Err(e) => Err(e),
                    Ok(pm) => match rd_ids(v) {
                        Err(e) => Err(e),
                        Ok(ids) => {
                            let rf = GeodeticReferenceFrameV {
                                keyword: DatumKeyword::Datum,
                                name,
                                ellipsoid,
                                anchor: as_text(jget(v, "anchor"@)),
                                anchor_epoch: as_number(jget(v, "anchor_epoch"@)),
                                identifiers: ids,
                                prime_meridian: pm,
                            };
                            if is_dynamic {
                                match rd_num(v, "frame_reference_epoch"@) {
                                    Err(e) => Err(e),
                                    Ok(ep) => Ok(
                                        (rf, Some(DynamicCrsV { frame_reference_epoch: ep, deformation_model: None })),
                                    ),
                                }
                            } else {
                                Ok((rf, None))
                            }
                        },
                    },
                },
            },
        },
    }
}

/// A name with identifiers: an ensemble member or a deformation model.
pub open spec fn rd_named(v: JsonV) -> Result<(Seq<char>, Seq<IdentifierV>), ParseErrorV> {
    match rd_str(v, "name"@) {
        Err(e) => Err(e),
        Ok(name) => match rd_ids(v) {
            Err(e) => Err(e),
            Ok(ids) => Ok((name, ids)),
        },
    }
}

pub open spec fn rd_member(v: JsonV) -> Result<EnsembleMemberV, ParseErrorV> {
    match rd_named(v) {
        Err(e) => Err(e),
        Ok((name, ids)) => Ok(EnsembleMemberV { name, identifiers: ids }),
    }
}

pub open spec fn rd_ensemble(v: JsonV) -> Result<DatumEnsembleV, ParseErrorV> {
    match rd_str(v, "name"@) {
        Err(e) => Err(e),
        Ok(name) => match as_array(jget(v, "members"@)) {
            None => Err(json_err("datum_ensemble missing 'members'"@)),
            Some(ms) => match rd_all(ms, member_reader()) {
                Err(e) => Err(e),
                Ok(members) => match rd_opt(jget(v, "ellipsoid"@), ellipsoid_reader()) {
                    Err(e) => Err(e),
                    Ok(ellipsoid) => match rd_str(v, "accuracy"@) {
                        Err(e) => Err(e),
                        Ok(acc) => match decimal_of_text(acc) {
                            None => Err(json_err("invalid accuracy '"@ + acc + "'"@)),
                            Some(accuracy) => match rd_ids(v) {
                                Err(e) => Err(e),
                                Ok(ids) => Ok(
                                    DatumEnsembleV {
                                        name,
                                        members,
                                        ellipsoid,
                                        accuracy,
                                        identifiers: ids,
                                        prime_meridian: None,
                                    },
                                ),
                            },
                        },
                    },
                },
            },
        },
    }
}

/// The keyword of a base CRS type; `GeographicCRS` when the type is absent.
pub open spec fn base_kind(t: Option<Seq<char>>) -> Result<BaseGeodeticCrsKeyword, ParseErrorV> {
    let s = match t {
        Some(x) => x,
        None => "GeographicCRS"@,
    };
    if s == "GeographicCRS"@ {
        Ok(BaseGeodeticCrsKeyword::BaseGeogCrs)
    } else if s == "GeodeticCRS"@ {
        Ok(BaseGeodeticCrsKeyword::BaseGeodCrs)
    } else {
        Err(json_err("unknown base_crs type '"@ + s + "'"@))
    }
}

/// The datum of a base CRS and the dynamic CRS it makes.
pub open spec fn rd_base_datum(v: JsonV) -> Result<(DatumV, Option<DynamicCrsV>), ParseErrorV> {
    match jget(v, "datum"@) {
        Some(d) => match rd_frame(d) {
            Err(e) => Err(e),
            Ok((rf, dynamic)) => Ok((DatumV::ReferenceFrame(rf), dynamic)),
        },
        None => match jget(v, "datum_ensemble"@) {
            Some(de) => match rd_ensemble(de) {
                Err(e) => Err(e),
                Ok(ens) => Ok((DatumV::Ensemble(ens), None)),
            },
            None => Err(json_err("base_crs must have either 'datum' or 'datum_ensemble'"@)),
        },
    }
}

/// The dynamic CRS once the first of the CRS's `deformation_models` is
/// taken in: it replaces the frame's model, or makes a dynamic CRS of epoch 0.
pub open spec fn with_models(v: JsonV, dynamic: Option<DynamicCrsV>) -> Result<Option<DynamicCrsV>, ParseErrorV> {
    match as_array(jget(v, "deformation_models"@)) {
        Some(models) => {
            let model: Result<Option<DeformationModelV>, ParseErrorV> = if models.len() == 0 {
                Ok(None)
            } else {
                match rd_named(models[0]) {
                    Err(e) => Err(e),
                    Ok((name, ids)) => Ok(Some(DeformationModelV { name, identifiers: ids })),
                }
            };
            match model {
                Err(e) => Err(e),
                Ok(m) => match dynamic {
                    Some(d) => Ok(Some(DynamicCrsV { deformation_model: m, ..d })),
                    None => match m {
                        Some(dm) => Ok(Some(DynamicCrsV { frame_reference_epoch: of_int(0), deformation_model: Some(dm) })),
                        None => Ok(None),
                    },
                },
            }
        },
        None => Ok(dynamic),
    }
}

pub open spec fn rd_base_crs(v: JsonV) -> Result<BaseGeodeticCrsV, ParseErrorV> {
    match base_kind(as_text(jget(v, "type"@))) {
        Err(e) => Err(e),
        Ok(keyword) => match rd_str(v, "name"@) {
            Err(e) => Err(e),
            Ok(name) => match rd_base_datum(v) {
                Err(e) => Err(e),
                Ok((datum, dynamic)) => match with_models(v, dynamic) {
                    Err(e) => Err(e),
                    Ok(dynamic) => match rd_ids(v) {
                        Err(e) => Err(e),
                        Ok(ids) => Ok(
                            BaseGeodeticCrsV {
                                keyword,
                                name,
                                dynamic,
                                datum,
                                ellipsoidal_cs_unit: None,
                                identifiers: ids,
                            },
                        ),
                    },
                },
            },
        },
    }
}

pub open spec fn rd_parameter(v: JsonV) -> Result<MapProjectionParameterV, ParseErrorV> {
    match rd_str(v, "name"@) {
        Err(e) => Err(e),
        Ok(name) => match rd_num(v, "value"@) {
            Err(e) => Err(e),
            Ok(value) => match rd_opt(jget(v, "unit"@), unit_reader()) {
                Err(e) => Err(e),
                Ok(unit) => match rd_ids(v) {
                    Err(e) => Err(e),
                    Ok(ids) => Ok(MapProjectionParameterV { name, value, unit, identifiers: ids }),
                },
            },
        },
    }
}

pub open spec fn rd_conversion(v: JsonV) -> Result<MapProjectionV, ParseErrorV> {
    match rd_str(v, "name"@) {
        Err(e) => Err(e),
        Ok(name) => match jget(v, "method"@) {
            None => Err(json_err("conversion missing 'method'"@)),
            Some(mv) => match rd_named(mv) {
                Err(e) => Err(e),
                Ok((mname, mids)) => match (match as_array(jget(v, "parameters"@)) {
                    Some(a) => rd_all(a, parameter_reader()),
                    None => Ok(Seq::empty()),
                }) {
                    Err(e) => Err(e),
                    Ok(params) => match rd_ids(v) {
                        Err(e) => Err(e),
                        Ok(ids) => Ok(
                            MapProjectionV {
                                name,
                                method: MapProjectionMethodV { name: mname, identifiers: mids },
                                parameters: params,
                                identifiers: ids,
                            },
                        ),
                    },
                },
            },
        },
    }
}

/// The coordinate system type of a PROJJSON subtype.
pub open spec fn cs_kind(t: Seq<char>) -> Option<CsType> {
    if t == "affine"@ {
        Some(CsType::Affine)
    } else if t == "Cartesian"@ {
        Some(CsType::Cartesian)
    } else if t == "cylindrical"@ {
        Some(CsType::Cylindrical)
    } else if t == "ellipsoidal"@ {
        Some(CsType::Ellipsoidal)
    } else if t == "linear"@ {
        Some(CsType::Linear)
    } else if t == "parametric"@ {
        Some(CsType::Parametric)
    } else if t == "polar"@ {
        Some(CsType::Polar)
    } else if t == "spherical"@ {
        Some(CsType::Spherical)
    } else if t == "vertical"@ {
        Some(CsType::Vertical)
    } else if t == "TemporalCount"@ {
        Some(CsType::TemporalCount)
    } else if t == "TemporalMeasure"@ {
        Some(CsType::TemporalMeasure)
    } else if t == "ordinal"@ {
        Some(CsType::Ordinal)
    } else if t == "TemporalDateTime"@ {
        Some(CsType::TemporalDateTime)
    } else {
        None
    }
}

pub open spec fn rd_meridian(v: JsonV) -> Result<MeridianV, ParseErrorV> {
    match rd_num(v, "longitude"@) {
        Err(e) => Err(e),
        Ok(value) => match jget(v, "unit"@) {
            None => Err(json_err("meridian missing 'unit'"@)),
            Some(u) => match rd_unit(u) {
                Err(e) => Err(e),
                Ok(unit) => Ok(MeridianV { value, unit }),
            },
        },
    }
}

/// `name (abbreviation)`, or the name alone when the abbreviation is empty.
pub open spec fn name_with_abbrev(name: Seq<char>, abbrev: Seq<char>) -> Seq<char> {
    if abbrev.len() == 0 {
        name
    } else {
        name + " ("@ + abbrev + ")"@
    }
}

pub open spec fn rd_axis(v: JsonV) -> Result<AxisV, ParseErrorV> {
    match rd_str(v, "name"@) {
        Err(e) => Err(e),
        Ok(name) => {
            let abbrev = match as_text(jget(v, "abbreviation"@)) {
                Some(a) => a,
                None => Seq::empty(),
            };
            match rd_str(v, "direction"@) {
                Err(e) => Err(e),
                Ok(direction) => match rd_opt(jget(v, "unit"@), unit_reader()) {
                    Err(e) => Err(e),
                    Ok(unit) => match rd_opt(jget(v, "meridian"@), meridian_reader()) {
                        Err(e) => Err(e),
                        Ok(meridian) => match rd_ids(v) {
                            Err(e) => Err(e),
                            Ok(ids) => Ok(
                                AxisV {
                                    name_abbrev: name_with_abbrev(name, abbrev),
                                    direction,
                                    meridian,
                                    bearing: None,
                                    order: None,
                                    unit,
                                    axis_min_value: as_number(jget(v, "minimum_value"@)),
                                    axis_max_value: as_number(jget(v, "maximum_value"@)),
                                    range_meaning: match as_text(jget(v, "range_meaning"@)) {
                                        Some(s) => Some(
                                            if s == "exact"@ {
                                                RangeMeaning::Exact
                                            } else {
                                                RangeMeaning::Wraparound
                                            },
                                        ),
                                        None => None,
                                    },
                                    identifiers: ids,
                                },
                            ),
                        },
                    },
                },
            }
        },
    }
}

pub open spec fn rd_cs(v: JsonV) -> Result<CoordinateSystemV, ParseErrorV> {
    match rd_str(v, "subtype"@) {
        Err(e) => Err(e),
        Ok(subtype) => match cs_kind(subtype) {
            None => Err(json_err("unknown CS subtype '"@ + subtype + "'"@)),
            Some(cs_type) => match as_array(jget(v, "axis"@)) {
                None => Err(json_err("coordinate_system missing 'axis'"@)),
                Some(a) => match rd_all(a, axis_reader()) {
                    Err(e) => Err(e),
                    Ok(axes) => match rd_ids(v) {
                        Err(e) => Err(e),
                        Ok(ids) => Ok(
                            CoordinateSystemV {
                                cs_type,
                                dimension: (axes.len() % 256) as u8,
                                identifiers: ids,
                                axes,
                                cs_unit: None,
                            },
                        ),
                    },
                },
            },
        },
    }
}

pub open spec fn rd_bbox(v: JsonV) -> Result<BBoxV, ParseErrorV> {
    match rd_num(v, "south_latitude"@) {
        Err(e) => Err(e),
        Ok(s) => match rd_num(v, "west_longitude"@) {
            Err(e) => Err(e),
            Ok(w) => match rd_num(v, "north_latitude"@) {
                Err(e) => Err(e),
                Ok(n) => match rd_num(v, "east_longitude"@) {
                    Err(e) => Err(e),
                    Ok(e) => Ok(
                        BBoxV {
                            lower_left_latitude: s,
                            lower_left_longitude: w,
                            upper_right_latitude: n,
                            upper_right_longitude: e,
                        },
                    ),
                },
            },
        },
    }
}

/// A PROJJSON bounding box is read member by member: it is read when its
/// four members are numbers, and then its lower-left corner is the south
/// latitude and the west longitude, its upper-right corner the north
/// latitude and the east longitude.
pub proof fn law_bbox_members(v: JsonV)
    ensures
        rd_bbox(v) is Ok <==> (as_number(jget(v, "south_latitude"@)) is Some && as_number(
            jget(v, "west_longitude"@),
        ) is Some && as_number(jget(v, "north_latitude"@)) is Some && as_number(jget(v, "east_longitude"@))
            is Some),
        rd_bbox(v) matches Ok(b) ==> {
            &&& as_number(jget(v, "south_latitude"@)) == Some(b.lower_left_latitude)
            &&& as_number(jget(v, "west_longitude"@)) == Some(b.lower_left_longitude)
            &&& as_number(jget(v, "north_latitude"@)) == Some(b.upper_right_latitude)
            &&& as_number(jget(v, "east_longitude"@)) == Some(b.upper_right_longitude)
        },
{
}

pub open spec fn rd_vertical_extent(v: JsonV) -> Result<VerticalExtentV, ParseErrorV> {
    match rd_num(v, "minimum"@) {
        Err(e) => Err(e),
        Ok(lo) => match rd_num(v, "maximum"@) {
            Err(e) => Err(e),
            Ok(hi) => match rd_opt(jget(v, "unit"@), unit_reader()) {
                Err(e) => Err(e),
                Ok(unit) => Ok(VerticalExtentV { minimum_height: lo, maximum_height: hi, unit }),
            },
        },
    }
}

pub open spec fn rd_temporal_extent(v: JsonV) -> Result<TemporalExtentV, ParseErrorV> {
    match rd_str(v, "start"@) {
        Err(e) => Err(e),
        Ok(start) => match rd_str(v, "end"@) {
            Err(e) => Err(e),
            Ok(end) => Ok(TemporalExtentV { start, end }),
        },
    }
}

pub open spec fn rd_usage(v: JsonV) -> Result<UsageV, ParseErrorV> {
    match rd_opt(jget(v, "bbox"@), bbox_reader()) {
        Err(e) => Err(e),
        Ok(bbox) => match rd_opt(jget(v, "vertical_extent"@), vertical_extent_reader()) {
            Err(e) => Err(e),
            Ok(vext) => match rd_opt(jget(v, "temporal_extent"@), temporal_extent_reader()) {
                Err(e) => Err(e),
                Ok(text) => Ok(
                    UsageV {
                        scope: match as_text(jget(v, "scope"@)) {
                            Some(s) => s,
                            None => Seq::empty(),
                        },
                        area: as_text(jget(v, "area"@)),
                        bbox,
                        vertical_extent: vext,
                        temporal_extent: text,
                    },
                ),
            },
        },
    }
}

/// `usages` (an array), or one usage written flat in the object itself.
pub open spec fn rd_usages(v: JsonV) -> Result<Seq<UsageV>, ParseErrorV> {
    match as_array(jget(v, "usages"@)) {
        Some(a) => rd_all(a, usage_reader()),
        None => if jget(v, "scope"@) is Some || jget(v, "area"@) is Some || jget(v, "bbox"@) is Some {
            match rd_usage(v) {
                Err(e) => Err(e),
                Ok(u) => Ok(seq![u]),
            }
        } else {
            Ok(Seq::empty())
        },
    }
}

/// A PROJJSON projected CRS.
pub open spec fn rd_projected(v: JsonV) -> Result<ProjectedCrsV, ParseErrorV> {
    match rd_str(v, "name"@) {
        Err(e) => Err(e),
        Ok(name) => match jget(v, "base_crs"@) {
            None => Err(json_err("missing 'base_crs'"@)),
            Some(b) => match rd_base_crs(b) {
                Err(e) => Err(e),
                Ok(base) => match jget(v, "conversion"@) {
                    None => Err(json_err("missing 'conversion'"@)),
                    Some(c) => match rd_conversion(c) {
                        Err(e) => Err(e),
                        Ok(conversion) => match jget(v, "coordinate_system"@) {
                            None => Err(json_err("missing 'coordinate_system'"@)),
                            Some(csv) => match rd_cs(csv) {
                                Err(e) => Err(e),
                                Ok(cs) => match rd_usages(v) {
                                    Err(e) => Err(e),
                                    Ok(usages) => match rd_ids(v) {
                                        Err(e) => Err(e),
                                        Ok(ids) => Ok(
                                            ProjectedCrsV {
                                                name,
                                                base_geodetic_crs: base,
                                                map_projection: conversion,
                                                coordinate_system: cs,
                                                usages,
                                                identifiers: ids,
                                                remark: as_text(jget(v, "remarks"@)),
                                            },
                                        ),
                                    },
                                },
                            },
                        },
                    },
                },
            },
        },
    }
}

/// `rd_id` as a function value.
pub open spec fn id_reader() -> spec_fn(JsonV) -> Result<IdentifierV, ParseErrorV> {
    |x: JsonV| rd_id(x)
}

/// `rd_member` as a function value.
pub open spec fn member_reader() -> spec_fn(JsonV) -> Result<EnsembleMemberV, ParseErrorV> {
    |x: JsonV| rd_member(x)
}

/// `rd_parameter` as a function value.
pub open spec fn parameter_reader() -> spec_fn(JsonV) -> Result<MapProjectionParameterV, ParseErrorV> {
    |x: JsonV| rd_parameter(x)
}

/// `rd_axis` as a function value.
pub open spec fn axis_reader() -> spec_fn(JsonV) -> Result<AxisV, ParseErrorV> {
    |x: JsonV| rd_axis(x)
}

/// `rd_usage` as a function value.
pub open spec fn usage_reader() -> spec_fn(JsonV) -> Result<UsageV, ParseErrorV> {
    |x: JsonV| rd_usage(x)
}

/// `rd_unit` as a function value.
pub open spec fn unit_reader() -> spec_fn(JsonV) -> Result<UnitV, ParseErrorV> {
    |x: JsonV| rd_unit(x)
}

/// `rd_prime_meridian` as a function value.
pub open spec fn prime_meridian_reader() -> spec_fn(JsonV) -> Result<PrimeMeridianV, ParseErrorV> {
    |x: JsonV| rd_prime_meridian(x)
}

/// `rd_ellipsoid` as a function value.
pub open spec fn ellipsoid_reader() -> spec_fn(JsonV) -> Result<EllipsoidV, ParseErrorV> {
    |x: JsonV| rd_ellipsoid(x)
}

/// `rd_meridian` as a function value.
pub open spec fn meridian_reader() -> spec_fn(JsonV) -> Result<MeridianV, ParseErrorV> {
    |x: JsonV| rd_meridian(x)
}

/// `rd_bbox` as a function value.
pub open spec fn bbox_reader() -> spec_fn(JsonV) -> Result<BBoxV, ParseErrorV> {
    |x: JsonV| rd_bbox(x)
}

/// `rd_vertical_extent` as a function value.
pub open spec fn vertical_extent_reader() -> spec_fn(JsonV) -> Result<VerticalExtentV, ParseErrorV> {
    |x: JsonV| rd_vertical_extent(x)
}

/// `rd_temporal_extent` as a function value.
pub open spec fn temporal_extent_reader() -> spec_fn(JsonV) -> Result<TemporalExtentV, ParseErrorV> {
    |x: JsonV| rd_temporal_extent(x)
}

/// What a PROJJSON text reads to: a JSON syntax error, or the projected CRS
/// its value reads to.
pub open spec fn projjson_result(input: Seq<char>) -> Result<ProjectedCrsV, ParseErrorV> {
    match json_parse_result(input) {
        Err(m) => Err(json_err("JSON syntax error: "@ + m)),
        Ok(v) => rd_projected(v),
    }
}

/// A PROJJSON error with the message `a`, `b`, `c` in a row.
fn json_error(a: &str, b: &str, c: &str) -> (r: ParseError)
    ensures
        r@ == json_err(a@ + b@ + c@),
{
    let mut m = String::new();
    push_str(&mut m, a);
    push_str(&mut m, b);
    push_str(&mut m, c);
    assert(m@ =~= a@ + b@ + c@);
    ParseError::InvalidJson { message: m }
}

/// A PROJJSON error with the message `a`.
fn json_error1(a: &str) -> (r: ParseError)
    ensures
        r@ == json_err(a@),
{
    ParseError::InvalidJson { message: own(a) }
}

fn text_of(v: Option<&JsonValue>) -> (r: Option<String>)
    ensures
        opt_text(r) == as_text(ojv(v)),
{
    match v {
        Some(JsonValue::Text(t)) => Some(t.clone()),
        _ => None,
    }
}

fn number_of(v: Option<&JsonValue>) -> (r: Option<Decimal>)
    ensures
        opt_dec(r) == as_number(ojv(v)),
{
    match v {
        Some(JsonValue::Number(t)) => decimal_of(t.as_str()),
        _ => None,
    }
}

fn array_of(v: Option<&JsonValue>) -> (r: Option<&Vec<JsonValue>>)
    ensures
        match as_array(ojv(v)) {
            Some(a) => r matches Some(x) && jvs(x@) == a,
            None => r is None,
        },
{
    match v {
        Some(JsonValue::Array(a)) => {
            assert(jvs(a@) =~= as_array(ojv(v)).unwrap());
            Some(a)
        },
        _ => None,
    }
}

fn read_str(v: &JsonValue, key: &str) -> (r: Result<String, ParseError>)
    ensures
        match rd_str(jv(*v), key@) {
            Ok(x) => r matches Ok(y) && y@ == x,
            Err(e) => r matches Err(y) && y@ == e,
        },
{
    match text_of(get(v, key)) {
        Some(t) => Ok(t),
        None => Err(json_error("missing or invalid string field '", key, "'")),
    }
}

fn read_num(v: &JsonValue, key: &str) -> (r: Result<Decimal, ParseError>)
    ensures
        match rd_num(jv(*v), key@) {
            Ok(x) => r matches Ok(y) && y@ == x,
            Err(e) => r matches Err(y) && y@ == e,
        },
{
    match number_of(get(v, key)) {
        Some(d) => Ok(d),
        None => Err(json_error("missing or invalid number field '", key, "'")),
    }
}

proof fn lemma_rd_all_prefix_err<T>(xs: Seq<JsonV>, f: spec_fn(JsonV) -> Result<T, ParseErrorV>, k: int)
    requires
        0 <= k <= xs.len(),
        rd_all(xs.take(k), f) is Err,
    ensures
        rd_all(xs, f) == rd_all(xs.take(k), f),
    decreases xs.len() - k,
{
    if k == xs.len() {
        assert(xs.take(k) =~= xs);
    } else {
        assert(xs.take(k + 1).drop_last() =~= xs.take(k));
        lemma_rd_all_prefix_err(xs, f, k + 1);
    }
}

proof fn lemma_rd_all_step<T>(xs: Seq<JsonV>, f: spec_fn(JsonV) -> Result<T, ParseErrorV>, k: int)
    requires
        0 <= k < xs.len(),
    ensures
        rd_all(xs.take(k + 1), f) == match rd_all(xs.take(k), f) {
            Err(e) => Err(e),
            Ok(ys) => match f(xs[k]) {
                Err(e) => Err(e),
                Ok(y) => Ok(ys.push(y)),
            },
        },
{
    assert(xs.take(k + 1).drop_last() =~= xs.take(k));
    assert(xs.take(k + 1).last() == xs[k]);
}

fn read_code(v: &JsonValue) -> (r: Option<AuthorityId>)
    ensures
        match rd_code(jv(*v)) {
            Some(x) => r matches Some(y) && y@ == x,
            None => r is None,
        },
{
    match v {
        JsonValue::Text(t) => Some(AuthorityId::Text(t.clone())),
        JsonValue::Number(t) => match decimal_of(t.as_str()) {
            Some(d) => Some(AuthorityId::Number(d)),
            None => None,
        },
        _ => None,
    }
}

fn read_id(v: &JsonValue) -> (r: Result<Identifier, ParseError>)
    ensures
        match rd_id(jv(*v)) {
            Ok(x) => r matches Ok(y) && y@ == x,
            Err(e) => r matches Err(y) && y@ == e,
        },
{
    let authority_name = read_str(v, "authority")?;
    let c = match get(v, "code") {
        Some(c) => c,
        None => {
            return Err(json_error1("id missing 'code'"));
        },
    };
    let authority_unique_id = match read_code(c) {
        Some(a) => a,
        None => {
            return Err(json_error1("id 'code' must be string or number"));
        },
    };
    let version = match get(v, "version") {
        Some(JsonValue::Text(t)) => Some(AuthorityId::Text(t.clone())),
        Some(x) => Some(
            AuthorityId::Number(
                match number_of(Some(x)) {
                    Some(d) => d,
                    None => Decimal::from_i32(0),
                },
            ),
        ),
        None => None,
    };
    let citation = text_of(get(v, "authority_citation"));
    let uri = text_of(get(v, "uri"));
    proof {
        reveal_strlit("");
    }
    Ok(Identifier { authority_name, authority_unique_id, version, citation, uri })
}

#[verifier::loop_isolation(false)]
fn read_ids(v: &JsonValue) -> (r: Result<Vec<Identifier>, ParseError>)
    ensures
        match rd_ids(jv(*v)) {
            Ok(x) => r matches Ok(y) && ids_v(y) == x,
            Err(e) => r matches Err(y) && y@ == e,
        },
{
    if let Some(x) = get(v, "id") {
        let id = read_id(x)?;
        let mut out: Vec<Identifier> = Vec::new();
        out.push(id);
        assert(ids_v(out) =~= seq![id@]);
        return Ok(out);
    }
    match array_of(get(v, "ids")) {
        Some(a) => {
            let ghost av = jvs(a@);
            let ghost f = id_reader();
            let mut out: Vec<Identifier> = Vec::new();
            let mut i: usize = 0;
            assert(av.take(0) =~= Seq::<JsonV>::empty());
            assert(ids_v(out) =~= Seq::<IdentifierV>::empty());
            while i < a.len()
                invariant
                    i <= a@.len(),
                    av == jvs(a@),
                    f == id_reader(),
                    rd_all(av.take(i as int), f) == Ok::<Seq<IdentifierV>, ParseErrorV>(ids_v(out)),
                decreases a@.len() - i,
            {
                proof {
                    lemma_rd_all_step(av, f, i as int);
                }
                match read_id(&a[i]) {
                    Ok(id) => {
                        let ghost before = ids_v(out);
                        out.push(id);
                        assert(ids_v(out) =~= before.push(id@));
                    },
                    Err(e) => {
                        proof {
                            lemma_rd_all_prefix_err(av, f, i + 1);
                        }
                        return Err(e);
                    },
                }
                i = i + 1;
            }
            assert(av.take(av.len() as int) =~= av);
            Ok(out)
        },
        None => {
            let out: Vec<Identifier> = Vec::new();
            assert(ids_v(out) =~= Seq::<IdentifierV>::empty());
            Ok(out)
        },
    }
}

fn plain_unit_of(k: UnitKeyword, name: &str, f: Decimal) -> (r: Unit)
    ensures
        r@ == plain_unit(k, name@, f@),
{
    let identifiers: Vec<Identifier> = Vec::new();
    assert(ids_v(identifiers) =~= Seq::<IdentifierV>::empty());
    Unit { keyword: k, name: own(name), conversion_factor: Some(f), identifiers }
}

fn unit_kind_of(t: &String) -> (r: Option<UnitKeyword>)
    ensures
        r == unit_kind(t@),
{
    if str_eq(t.as_str(), "AngularUnit") {
        Some(UnitKeyword::AngleUnit)
    } else if str_eq(t.as_str(), "LinearUnit") {
        Some(UnitKeyword::LengthUnit)
    } else if str_eq(t.as_str(), "ScaleUnit") {
        Some(UnitKeyword::ScaleUnit)
    } else if str_eq(t.as_str(), "TimeUnit") {
        Some(UnitKeyword::TimeUnit)
    } else if str_eq(t.as_str(), "ParametricUnit") {
        Some(UnitKeyword::ParametricUnit)
    } else if str_eq(t.as_str(), "Unit") {
        Some(UnitKeyword::Unit)
    } else {
        None
    }
}

fn read_unit(v: &JsonValue) -> (r: Result<Unit, ParseError>)
    ensures
        match rd_unit(jv(*v)) {
            Ok(x) => r matches Ok(y) && y@ == x,
            Err(e) => r matches Err(y) && y@ == e,
        },
{
    if let JsonValue::Text(s) = v {
        if str_eq(s.as_str(), "metre") {
            return Ok(plain_unit_of(UnitKeyword::LengthUnit, "metre", Decimal::from_i32(1)));
        } else if str_eq(s.as_str(), "degree") {
            return Ok(plain_unit_of(UnitKeyword::AngleUnit, "degree", Decimal::from_scaled(174532925199433, -16)));
        } else if str_eq(s.as_str(), "unity") {
            return Ok(plain_unit_of(UnitKeyword::ScaleUnit, "unity", Decimal::from_i32(1)));
        } else {
            return Err(json_error("unknown unit shorthand '", s.as_str(), "'"));
        }
    }
    let t = read_str(v, "type")?;
    let keyword = match unit_kind_of(&t) {
        Some(k) => k,
        None => {
            return Err(json_error("unknown unit type '", t.as_str(), "'"));
        },
    };
    let name = read_str(v, "name")?;
    let identifiers = read_ids(v)?;
    Ok(Unit { keyword, name, conversion_factor: number_of(get(v, "conversion_factor")), identifiers })
}

fn read_opt_unit(v: Option<&JsonValue>) -> (r: Result<Option<Unit>, ParseError>)
    ensures
        match rd_opt(ojv(v), unit_reader()) {
            Ok(x) => r matches Ok(y) && opt_unit(y) == x,
            Err(e) => r matches Err(y) && y@ == e,
        },
{
    match v {
        Some(x) => Ok(Some(read_unit(x)?)),
        None => Ok(None),
    }
}

fn read_value_unit(v: &JsonValue, key: &str) -> (r: Result<(Decimal, Option<Unit>), ParseError>)
    ensures
        match rd_value_unit(jv(*v), key@) {
            Ok(x) => r matches Ok(y) && y.0@ == x.0 && opt_unit(y.1) == x.1,
            Err(e) => r matches Err(y) && y@ == e,
        },
{
    let field = match get(v, key) {
        Some(f) => f,
        None => {
            return Err(json_error("missing field '", key, "'"));
        },
    };
    if let Some(n) = number_of(Some(field)) {
        return Ok((n, None));
    }
    if let JsonValue::Object(_) = field {
        let value = read_num(field, "value")?;
        let unit_v = match get(field, "unit") {
            Some(u) => u,
            None => {
                return Err(json_error("value_and_unit '", key, "' missing 'unit'"));
            },
        };
        let unit = read_unit(unit_v)?;
        Ok((value, Some(unit)))
    } else {
        Err(json_error("field '", key, "' must be a number or object"))
    }
}

fn read_ellipsoid(v: &JsonValue) -> (r: Result<Ellipsoid, ParseError>)
    ensures
        match rd_ellipsoid(jv(*v)) {
            Ok(x) => r matches Ok(y) && y@ == x,
            Err(e) => r matches Err(y) && y@ == e,
        },
{
    let name = read_str(v, "name")?;
    let (semi_major_axis, unit) = read_value_unit(v, "semi_major_axis")?;
    let inverse_flattening = read_num(v, "inverse_flattening")?;
    let identifiers = read_ids(v)?;
    Ok(Ellipsoid { name, semi_major_axis, inverse_flattening, unit, identifiers })
}

fn read_prime_meridian(v: &JsonValue) -> (r: Result<PrimeMeridian, ParseError>)
    ensures
        match rd_prime_meridian(jv(*v)) {
            Ok(x) => r matches Ok(y) && y@ == x,
            Err(e) => r matches Err(y) && y@ == e,
        },
{
    let name = read_str(v, "name")?;
    let (irm_longitude, unit) = read_value_unit(v, "longitude")?;
    let identifiers = read_ids(v)?;
    Ok(PrimeMeridian { name, irm_longitude, unit, identifiers })
}

fn read_frame(v: &JsonValue) -> (r: Result<(GeodeticReferenceFrame, Option<DynamicCrs>), ParseError>)
    ensures
        match rd_frame(jv(*v)) {
            Ok(x) => r matches Ok(y) && y.0@ == x.0 && crate::model::opt_dynamic(y.1) == x.1,
            Err(e) => r matches Err(y) && y@ == e,
        },
{
    let type_text = text_of(get(v, "type"));
    let is_dynamic = match &type_text {
        Some(t) => str_eq(t.as_str(), "DynamicGeodeticReferenceFrame"),
        None => false,
    };
    let name = read_str(v, "name")?;
    let ev = match get(v, "ellipsoid") {
        Some(e) => e,
        None => {
            return Err(json_error1("datum missing 'ellipsoid'"));
        },
    };
    let ellipsoid = read_ellipsoid(ev)?;
    let prime_meridian = match get(v, "prime_meridian") {
        Some(x) => Some(read_prime_meridian(x)?),
        None => None,
    };
    let identifiers = read_ids(v)?;
    let rf = GeodeticReferenceFrame {
        keyword: DatumKeyword::Datum,
        name,
        ellipsoid,
        anchor: text_of(get(v, "anchor")),
        anchor_epoch: number_of(get(v, "anchor_epoch")),
        identifiers,
        prime_meridian,
    };
    proof {
        reveal_strlit("");
    }
    if is_dynamic {
        let ep = read_num(v, "frame_reference_epoch")?;
        Ok((rf, Some(DynamicCrs { frame_reference_epoch: ep, deformation_model: None })))
    } else {
        Ok((rf, None))
    }
}

fn read_named(v: &JsonValue) -> (r: Result<(String, Vec<Identifier>), ParseError>)
    ensures
        match rd_named(jv(*v)) {
            Ok(x) => r matches Ok(y) && y.0@ == x.0 && ids_v(y.1) == x.1,
            Err(e) => r matches Err(y) && y@ == e,
        },
{
    let name = read_str(v, "name")?;
    let ids = read_ids(v)?;
    Ok((name, ids))
}

#[verifier::loop_isolation(false)]
fn read_ensemble(v: &JsonValue) -> (r: Result<DatumEnsemble, ParseError>)
    ensures
        match rd_ensemble(jv(*v)) {
            Ok(x) => r matches Ok(y) && y@ == x,
            Err(e) => r matches Err(y) && y@ == e,
        },
{
    let name = read_str(v, "name")?;
    let a = match array_of(get(v, "members")) {
        Some(a) => a,
        None => {
            return Err(json_error1("datum_ensemble missing 'members'"));
        },
    };
    let ghost av = jvs(a@);
    let ghost f = member_reader();
    let mut members: Vec<EnsembleMember> = Vec::new();
    let mut i: usize = 0;
    assert(av.take(0) =~= Seq::<JsonV>::empty());
    assert(members@.map_values(|m: EnsembleMember| m@) =~= Seq::<EnsembleMemberV>::empty());
    while i < a.len()
        invariant
            i <= a@.len(),
            av == jvs(a@),
            f == member_reader(),
            rd_all(av.take(i as int), f) == Ok::<Seq<EnsembleMemberV>, ParseErrorV>(
                members@.map_values(|m: EnsembleMember| m@),
            ),
        decreases a@.len() - i,
    {
        proof {
            lemma_rd_all_step(av, f, i as int);
        }
        match read_named(&a[i]) {
            Ok((n, ids)) => {
                let m = EnsembleMember { name: n, identifiers: ids };
                let ghost before = members@.map_values(|m: EnsembleMember| m@);
                members.push(m);
                assert(members@.map_values(|m: EnsembleMember| m@) =~= before.push(m@));
            },
            Err(e) => {
                proof {
                    lemma_rd_all_prefix_err(av, f, i + 1);
                }
                return Err(e);
            },
        }
        i = i + 1;
    }
    assert(av.take(av.len() as int) =~= av);
    let ellipsoid = match get(v, "ellipsoid") {
        Some(x) => Some(read_ellipsoid(x)?),
        None => None,
    };
    let acc = read_str(v, "accuracy")?;
    let accuracy = match decimal_of(acc.as_str()) {
        Some(d) => d,
        None => {
            return Err(json_error("invalid accuracy '", acc.as_str(), "'"));
        },
    };
    let identifiers = read_ids(v)?;
    Ok(DatumEnsemble { name, members, ellipsoid, accuracy, identifiers, prime_meridian: None })
}

fn read_base_datum(v: &JsonValue) -> (r: Result<(Datum, Option<DynamicCrs>), ParseError>)
    ensures
        match rd_base_datum(jv(*v)) {
            Ok(x) => r matches Ok(y) && y.0@ == x.0 && crate::model::opt_dynamic(y.1) == x.1,
            Err(e) => r matches Err(y) && y@ == e,
        },
{
    if let Some(d) = get(v, "datum") {
        let (rf, dynamic) = read_frame(d)?;
        return Ok((Datum::ReferenceFrame(rf), dynamic));
    }
    if let Some(de) = get(v, "datum_ensemble") {
        let ens = read_ensemble(de)?;
        return Ok((Datum::Ensemble(ens), None));
    }
    Err(json_error1("base_crs must have either 'datum' or 'datum_ensemble'"))
}

fn read_models(v: &JsonValue, dynamic: Option<DynamicCrs>) -> (r: Result<Option<DynamicCrs>, ParseError>)
    ensures
        match with_models(jv(*v), crate::model::opt_dynamic(dynamic)) {
            Ok(x) => r matches Ok(y) && crate::model::opt_dynamic(y) == x,
            Err(e) => r matches Err(y) && y@ == e,
        },
{
    match array_of(get(v, "deformation_models")) {
        Some(models) => {
            let model = if models.len() == 0 {
                None
            } else {
                let (name, identifiers) = read_named(&models[0])?;
                Some(DeformationModel { name, identifiers })
            };
            match dynamic {
                Some(d) => Ok(Some(DynamicCrs { frame_reference_epoch: d.frame_reference_epoch, deformation_model: model })),
                None => match model {
                    Some(dm) => Ok(Some(DynamicCrs { frame_reference_epoch: Decimal::from_i32(0), deformation_model: Some(dm) })),
                    None => Ok(None),
                },
            }
        },
        None => Ok(dynamic),
    }
}

fn read_base_crs(v: &JsonValue) -> (r: Result<BaseGeodeticCrs, ParseError>)
    ensures
        match rd_base_crs(jv(*v)) {
            Ok(x) => r matches Ok(y) && y@ == x,
            Err(e) => r matches Err(y) && y@ == e,
        },
{
    let type_text = text_of(get(v, "type"));
    let keyword = match &type_text {
        None => BaseGeodeticCrsKeyword::BaseGeogCrs,
        Some(t) => if str_eq(t.as_str(), "GeographicCRS") {
            BaseGeodeticCrsKeyword::BaseGeogCrs
        } else if str_eq(t.as_str(), "GeodeticCRS") {
            BaseGeodeticCrsKeyword::BaseGeodCrs
        } else {
            return Err(json_error("unknown base_crs type '", t.as_str(), "'"));
        },
    };
    let name = read_str(v, "name")?;
    let (datum, dynamic) = read_base_datum(v)?;
    let dynamic = read_models(v, dynamic)?;
    let identifiers = read_ids(v)?;
    Ok(BaseGeodeticCrs { keyword, name, dynamic, datum, ellipsoidal_cs_unit: None, identifiers })
}

fn read_parameter(v: &JsonValue) -> (r: Result<MapProjectionParameter, ParseError>)
    ensures
        match rd_parameter(jv(*v)) {
            Ok(x) => r matches Ok(y) && y@ == x,
            Err(e) => r matches Err(y) && y@ == e,
        },
{
    let name = read_str(v, "name")?;
    let value = read_num(v, "value")?;
    let unit = read_opt_unit(get(v, "unit"))?;
    let identifiers = read_ids(v)?;
    Ok(MapProjectionParameter { name, value, unit, identifiers })
}

#[verifier::loop_isolation(false)]
fn read_conversion(v: &JsonValue) -> (r: Result<MapProjection, ParseError>)
    ensures
        match rd_conversion(jv(*v)) {
            Ok(x) => r matches Ok(y) && y@ == x,
            Err(e) => r matches Err(y) && y@ == e,
        },
{
    let name = read_str(v, "name")?;
    let mv = match get(v, "method") {
        Some(m) => m,
        None => {
            return Err(json_error1("conversion missing 'method'"));
        },
    };
    let (mname, mids) = read_named(mv)?;
    let mut parameters: Vec<MapProjectionParameter> = Vec::new();
    assert(parameters@.map_values(|p: MapProjectionParameter| p@) =~= Seq::<MapProjectionParameterV>::empty());
    if let Some(a) = array_of(get(v, "parameters")) {
        let ghost av = jvs(a@);
        let ghost f = parameter_reader();
        let mut i: usize = 0;
        assert(av.take(0) =~= Seq::<JsonV>::empty());
        while i < a.len()
            invariant
                i <= a@.len(),
                av == jvs(a@),
                f == parameter_reader(),
                rd_all(av.take(i as int), f) == Ok::<Seq<MapProjectionParameterV>, ParseErrorV>(
                    parameters@.map_values(|p: MapProjectionParameter| p@),
                ),
            decreases a@.len() - i,
        {
            proof {
                lemma_rd_all_step(av, f, i as int);
            }
            match read_parameter(&a[i]) {
                Ok(p) => {
                    let ghost before = parameters@.map_values(|p: MapProjectionParameter| p@);
                    parameters.push(p);
                    assert(parameters@.map_values(|p: MapProjectionParameter| p@) =~= before.push(p@));
                },
                Err(e) => {
                    proof {
                        lemma_rd_all_prefix_err(av, f, i + 1);
                    }
                    return Err(e);
                },
            }
            i = i + 1;
        }
        assert(av.take(av.len() as int) =~= av);
    }
    let identifiers = read_ids(v)?;
    Ok(
        MapProjection {
            name,
            method: MapProjectionMethod { name: mname, identifiers: mids },
            parameters,
            identifiers,
        },
    )
}

fn cs_kind_of(t: &String) -> (r: Option<CsType>)
    ensures
        r == cs_kind(t@),
{
    let s = t.as_str();
    if str_eq(s, "affine") {
        Some(CsType::Affine)
    } else if str_eq(s, "Cartesian") {
        Some(CsType::Cartesian)
    } else if str_eq(s, "cylindrical") {
        Some(CsType::Cylindrical)
    } else if str_eq(s, "ellipsoidal") {
        Some(CsType::Ellipsoidal)
    } else if str_eq(s, "linear") {
        Some(CsType::Linear)
    } else if str_eq(s, "parametric") {
        Some(CsType::Parametric)
    } else if str_eq(s, "polar") {
        Some(CsType::Polar)
    } else if str_eq(s, "spherical") {
        Some(CsType::Spherical)
    } else if str_eq(s, "vertical") {
        Some(CsType::Vertical)
    } else if str_eq(s, "TemporalCount") {
        Some(CsType::TemporalCount)
    } else if str_eq(s, "TemporalMeasure") {
        Some(CsType::TemporalMeasure)
    } else if str_eq(s, "ordinal") {
        Some(CsType::Ordinal)
    } else if str_eq(s, "TemporalDateTime") {
        Some(CsType::TemporalDateTime)
    } else {
        None
    }
}

fn read_meridian(v: &JsonValue) -> (r: Result<Meridian, ParseError>)
    ensures
        match rd_meridian(jv(*v)) {
            Ok(x) => r matches Ok(y) && y@ == x,
            Err(e) => r matches Err(y) && y@ == e,
        },
{
    let value = read_num(v, "longitude")?;
    let uv = match get(v, "unit") {
        Some(u) => u,
        None => {
            return Err(json_error1("meridian missing 'unit'"));
        },
    };
    let unit = read_unit(uv)?;
    Ok(Meridian { value, unit })
}

fn read_axis(v: &JsonValue) -> (r: Result<Axis, ParseError>)
    ensures
        match rd_axis(jv(*v)) {
            Ok(x) => r matches Ok(y) && y@ == x,
            Err(e) => r matches Err(y) && y@ == e,
        },
{
    let name = read_str(v, "name")?;
    let abbrev = match text_of(get(v, "abbreviation")) {
        Some(a) => a,
        None => String::new(),
    };
    let name_abbrev = if abbrev.as_str().unicode_len() == 0 {
        name
    } else {
        let mut t = name;
        push_str(&mut t, " (");
        push_str(&mut t, abbrev.as_str());
        push_str(&mut t, ")");
        t
    };
    let direction = read_str(v, "direction")?;
    let unit = read_opt_unit(get(v, "unit"))?;
    let meridian = match get(v, "meridian") {
        Some(x) => Some(read_meridian(x)?),
        None => None,
    };
    let identifiers = read_ids(v)?;
    let range_meaning = match text_of(get(v, "range_meaning")) {
        Some(s) => Some(
            if str_eq(s.as_str(), "exact") {
                RangeMeaning::Exact
            } else {
                RangeMeaning::Wraparound
            },
        ),
        None => None,
    };
    Ok(
        Axis {
            name_abbrev,
            direction,
            meridian,
            bearing: None,
            order: None,
            unit,
            axis_min_value: number_of(get(v, "minimum_value")),
            axis_max_value: number_of(get(v, "maximum_value")),
            range_meaning,
            identifiers,
        },
    )
}

#[verifier::loop_isolation(false)]
fn read_cs(v: &JsonValue) -> (r: Result<CoordinateSystem, ParseError>)
    ensures
        match rd_cs(jv(*v)) {
            Ok(x) => r matches Ok(y) && y@ == x,
            Err(e) => r matches Err(y) && y@ == e,
        },
{
    let subtype = read_str(v, "subtype")?;
    let cs_type = match cs_kind_of(&subtype) {
        Some(k) => k,
        None => {
            return Err(json_error("unknown CS subtype '", subtype.as_str(), "'"));
        },
    };
    let a = match array_of(get(v, "axis")) {
        Some(a) => a,
        None => {
            return Err(json_error1("coordinate_system missing 'axis'"));
        },
    };
    let ghost av = jvs(a@);
    let ghost f = axis_reader();
    let mut axes: Vec<Axis> = Vec::new();
    let mut i: usize = 0;
    assert(av.take(0) =~= Seq::<JsonV>::empty());
    assert(axes@.map_values(|x: Axis| x@) =~= Seq::<AxisV>::empty());
    while i < a.len()
        invariant
            i <= a@.len(),
            axes@.len() == i,
            av == jvs(a@),
            f == axis_reader(),
            rd_all(av.take(i as int), f) == Ok::<Seq<AxisV>, ParseErrorV>(axes@.map_values(|x: Axis| x@)),
        decreases a@.len() - i,
    {
        proof {
            lemma_rd_all_step(av, f, i as int);
        }
        match read_axis(&a[i]) {
            Ok(x) => {
                let ghost before = axes@.map_values(|x: Axis| x@);
                axes.push(x);
                assert(axes@.map_values(|x: Axis| x@) =~= before.push(x@));
            },
            Err(e) => {
                proof {
                    lemma_rd_all_prefix_err(av, f, i + 1);
                }
                return Err(e);
            },
        }
        i = i + 1;
    }
    assert(av.take(av.len() as int) =~= av);
    let identifiers = read_ids(v)?;
    let n = axes.len();
    let dimension = (n % 256) as u8;
    Ok(CoordinateSystem { cs_type, dimension, identifiers, axes, cs_unit: None })
}

fn read_bbox(v: &JsonValue) -> (r: Result<BBox, ParseError>)
    ensures
        match rd_bbox(jv(*v)) {
            Ok(x) => r matches Ok(y) && y@ == x,
            Err(e) => r matches Err(y) && y@ == e,
        },
{
    let lower_left_latitude = read_num(v, "south_latitude")?;
    let lower_left_longitude = read_num(v, "west_longitude")?;
    let upper_right_latitude = read_num(v, "north_latitude")?;
    let upper_right_longitude = read_num(v, "east_longitude")?;
    Ok(BBox { lower_left_latitude, lower_left_longitude, upper_right_latitude, upper_right_longitude })
}

fn read_vertical_extent(v: &JsonValue) -> (r: Result<VerticalExtent, ParseError>)
    ensures
        match rd_vertical_extent(jv(*v)) {
            Ok(x) => r matches Ok(y) && y@ == x,
            Err(e) => r matches Err(y) && y@ == e,
        },
{
    let minimum_height = read_num(v, "minimum")?;
    let maximum_height = read_num(v, "maximum")?;
    let unit = read_opt_unit(get(v, "unit"))?;
    Ok(VerticalExtent { minimum_height, maximum_height, unit })
}

fn read_temporal_extent(v: &JsonValue) -> (r: Result<TemporalExtent, ParseError>)
    ensures
        match rd_temporal_extent(jv(*v)) {
            Ok(x) => r matches Ok(y) && y@ == x,
            Err(e) => r matches Err(y) && y@ == e,
        },
{
    let start = read_str(v, "start")?;
    let end = read_str(v, "end")?;
    Ok(TemporalExtent { start, end })
}

fn read_usage(v: &JsonValue) -> (r: Result<Usage, ParseError>)
    ensures
        match rd_usage(jv(*v)) {
            Ok(x) => r matches Ok(y) && y@ == x,
            Err(e) => r matches Err(y) && y@ == e,
        },
{
    let bbox = match get(v, "bbox") {
        Some(x) => Some(read_bbox(x)?),
        None => None,
    };
    let vertical_extent = match get(v, "vertical_extent") {
        Some(x) => Some(read_vertical_extent(x)?),
        None => None,
    };
    let temporal_extent = match get(v, "temporal_extent") {
        Some(x) => Some(read_temporal_extent(x)?),
        None => None,
    };
    let scope = match text_of(get(v, "scope")) {
        Some(s) => s,
        None => String::new(),
    };
    Ok(Usage { scope, area: text_of(get(v, "area")), bbox, vertical_extent, temporal_extent })
}

#[verifier::loop_isolation(false)]
fn read_usages(v: &JsonValue) -> (r: Result<Vec<Usage>, ParseError>)
    ensures
        match rd_usages(jv(*v)) {
            Ok(x) => r matches Ok(y) && usages_v(y) == x,
            Err(e) => r matches Err(y) && y@ == e,
        },
{
    let mut out: Vec<Usage> = Vec::new();
    assert(usages_v(out) =~= Seq::<UsageV>::empty());
    if let Some(a) = array_of(get(v, "usages")) {
        let ghost av = jvs(a@);
        let ghost f = usage_reader();
        let mut i: usize = 0;
        assert(av.take(0) =~= Seq::<JsonV>::empty());
        while i < a.len()
            invariant
                i <= a@.len(),
                av == jvs(a@),
                f == usage_reader(),
                rd_all(av.take(i as int), f) == Ok::<Seq<UsageV>, ParseErrorV>(usages_v(out)),
            decreases a@.len() - i,
        {
            proof {
                lemma_rd_all_step(av, f, i as int);
            }
            match read_usage(&a[i]) {
                Ok(u) => {
                    let ghost before = usages_v(out);
                    out.push(u);
                    assert(usages_v(out) =~= before.push(u@));
                },
                Err(e) => {
                    proof {
                        lemma_rd_all_prefix_err(av, f, i + 1);
                    }
                    return Err(e);
                },
            }
            i = i + 1;
        }
        assert(av.take(av.len() as int) =~= av);
        return Ok(out);
    }
    if get(v, "scope").is_some() || get(v, "area").is_some() || get(v, "bbox").is_some() {
        let u = read_usage(v)?;
        out.push(u);
        assert(usages_v(out) =~= seq![u@]);
    }
    Ok(out)
}

/// The projected CRS that a parsed PROJJSON value describes.
pub fn read_projected(v: &JsonValue) -> (r: Result<ProjectedCrs, ParseError>)
    ensures
        match rd_projected(jv(*v)) {
            Ok(x) => r matches Ok(y) && y@ == x,
            Err(e) => r matches Err(y) && y@ == e,
        },
{
    let name = read_str(v, "name")?;
    let b = match get(v, "base_crs") {
        Some(b) => b,
        None => {
            return Err(json_error1("missing 'base_crs'"));
        },
    };
    let base_geodetic_crs = read_base_crs(b)?;
    let c = match get(v, "conversion") {
        Some(c) => c,
        None => {
            return Err(json_error1("missing 'conversion'"));
        },
    };
    let map_projection = read_conversion(c)?;
    let csv = match get(v, "coordinate_system") {
        Some(c) => c,
        None => {
            return Err(json_error1("missing 'coordinate_system'"));
        },
    };
    let coordinate_system = read_cs(csv)?;
    let usages = read_usages(v)?;
    let identifiers = read_ids(v)?;
    Ok(
        ProjectedCrs {
            name,
            base_geodetic_crs,
            map_projection,
            coordinate_system,
            usages,
            identifiers,
            remark: text_of(get(v, "remarks")),
        },
    )
}

/// Parse a PROJJSON text into a projected CRS.
pub fn parse_projjson(input: &str) -> (r: Result<ProjectedCrs, ParseError>)
    ensures
        match projjson_result(input@) {
            Ok(x) => r matches Ok(y) && y@ == x,
            Err(e) => r matches Err(y) && y@ == e,
        },
{
    match parse_json(input) {
        Ok(v) => read_projected(&v),
        Err(m) => {
            proof {
                reveal_strlit("");
            }
            Err(json_error("JSON syntax error: ", m.as_str(), ""))
        },
    }
}

} // verus!
