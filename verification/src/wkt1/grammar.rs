//! What the WKT1 reader gives back for a text, stated over the model's view.
//! Each `sp1_*` function reads one node at a character position and returns
//! the node's value and the position after it, or the error the reader
//! reports. The tables are a parameter: the reading of names and projection
//! methods depends on them.
use vstd::prelude::*;
use crate::crs::{
    BaseGeodeticCrsKeyword, CsType, DatumKeyword, GeodCrsKeyword, GeogCrsKeyword, UnitKeyword,
    VertCrsKeyword, VerticalReferenceFrameKeyword,
};
use crate::decimal::{digits_of_nat, normalize, of_int, same_value, DecimalV};
use crate::error::ParseErrorV;
use crate::model::{
    AuthorityIdV, AxisV, BaseGeodeticCrsV, CompoundCrsV, CoordinateSystemV, CrsV, DatumV,
    EllipsoidV, GeodCrsV, GeodeticReferenceFrameV, GeogCrsV, IdentifierV, MapProjectionMethodV,
    MapProjectionParameterV, MapProjectionV, PrimeMeridianV, ProjectedCrsV, SingleCrsV, UnitV,
    VertCrsSourceV, VertCrsV, VerticalDatumV, VerticalReferenceFrameV,
};
use crate::text::{
    sp_at_close, sp_close, sp_identifier, sp_item_start, sp_number, sp_open_kw1, sp_peek, sp_peek_kw1,
    sp_quoted, sp_skip_node1, sp_skip_ws, sp_ws_char_ws, SRes,
};
use crate::wkt1::mappings::{
    decimal_of_text, eq_ignore_case, resolve_method_v, MethodContext, ResolvedParamV, TablesV,
    UnitType,
};
use crate::wkt1::names::{
    normalize_datum_name_v, normalize_ellipsoid_name_v, normalize_geogcs_name_v,
    normalize_unit_name_v, lower_text,
};

verus! {

/// The content of every table the WKT1 reader consults.
pub struct Wkt1TablesV {
    pub mappings: TablesV,
    pub geodetic_datums: Seq<(Seq<char>, Seq<char>, i32)>,
    pub vertical_datums: Seq<(Seq<char>, Seq<char>, i32)>,
    pub ellipsoids: Seq<(Seq<char>, Seq<char>, i32)>,
    pub units: Seq<(Seq<char>, Seq<char>, i32)>,
    pub builtin_units: Seq<(Seq<char>, Seq<char>)>,
}

/// The degree, with the conversion factor EPSG gives it.
pub open spec fn degree_unit_v() -> UnitV {
    UnitV {
        keyword: UnitKeyword::AngleUnit,
        name: "degree"@,
        conversion_factor: Some(normalize(false, digits_of_nat(174532925199433nat), -16)),
        identifiers: Seq::empty(),
    }
}

/// The unity scale unit.
pub open spec fn unity_unit_v() -> UnitV {
    UnitV {
        keyword: UnitKeyword::ScaleUnit,
        name: "unity"@,
        conversion_factor: Some(of_int(1)),
        identifiers: Seq::empty(),
    }
}

/// `ID["EPSG", code]`.
pub open spec fn epsg_id_v(code: i32) -> IdentifierV {
    IdentifierV {
        authority_name: "EPSG"@,
        authority_unique_id: AuthorityIdV::Number(of_int(code as int)),
        version: None,
        citation: None,
        uri: None,
    }
}

/// The identifiers as read, or the EPSG code a name lookup found when none were read.
pub open spec fn ids_or_code(ids: Seq<IdentifierV>, code: Option<i32>) -> Seq<IdentifierV> {
    if ids.len() == 0 {
        match code {
            Some(c) => seq![epsg_id_v(c)],
            None => ids,
        }
    } else {
        ids
    }
}

/// An axis with only a name, a direction and an order.
pub open spec fn axis_v(name: Seq<char>, direction: Seq<char>, order: Option<u32>) -> AxisV {
    AxisV {
        name_abbrev: name,
        direction,
        meridian: None,
        bearing: None,
        order,
        unit: None,
        axis_min_value: None,
        axis_max_value: None,
        range_meaning: None,
        identifiers: Seq::empty(),
    }
}

/// The axes with their order numbers set from 1.
pub open spec fn numbered_v(axes: Seq<AxisV>) -> Seq<AxisV> {
    Seq::new(axes.len(), |i: int| AxisV { order: Some((i + 1) as u32), ..axes[i] })
}

/// The explicit axes numbered, or the defaults numbered when there are none;
/// any other count than two is refused.
pub open spec fn axes_or_default_v(axes: Seq<AxisV>, defaults: Seq<AxisV>, pos: int) -> Result<
    Seq<AxisV>,
    ParseErrorV,
> {
    if axes.len() == 0 {
        Ok(numbered_v(defaults))
    } else if axes.len() == 2 {
        Ok(numbered_v(axes))
    } else {
        Err(ParseErrorV::UnsupportedWkt1Node { keyword: "AXIS"@, pos })
    }
}

/// An axis with its order number set to `n`.
pub open spec fn with_order(a: AxisV, n: int) -> AxisV {
    AxisV { order: Some(n as u32), ..a }
}

/// The axes of a WKT1 coordinate system: the two defaults when none are
/// given, the two given ones in input order otherwise, each numbered from 1;
/// any other count of axes is refused as an unsupported `AXIS` node.
pub proof fn law_axes_or_default(axes: Seq<AxisV>, defaults: Seq<AxisV>, pos: int)
    ensures
        axes.len() == 0 ==> (axes_or_default_v(axes, defaults, pos) matches Ok(r) && r.len()
            == defaults.len() && forall|i: int|
            0 <= i < r.len() ==> #[trigger] r[i] == with_order(defaults[i], i + 1)),
        axes.len() == 2 ==> (axes_or_default_v(axes, defaults, pos) matches Ok(r) && r.len() == 2
            && forall|i: int| 0 <= i < 2 ==> #[trigger] r[i] == with_order(axes[i], i + 1)),
        axes.len() != 0 && axes.len() != 2 ==> axes_or_default_v(axes, defaults, pos) == (Err::<
            Seq<AxisV>,
            ParseErrorV,
        >(ParseErrorV::UnsupportedWkt1Node { keyword: "AXIS"@, pos })),
{
}

/// A unit that must be present in a node.
pub open spec fn require_unit_v(unit: Option<UnitV>, parent: Seq<char>, pos: int) -> Result<
    UnitV,
    ParseErrorV,
> {
    match unit {
        Some(u) => Ok(u),
        None => Err(ParseErrorV::MissingWkt1Node { keyword: "UNIT"@, parent, pos }),
    }
}

/// A node that only the lossy reader skips.
pub open spec fn sp1_lossy_node(s: Seq<char>, p: int, lossy: bool, keyword: Seq<char>) -> Result<
    int,
    ParseErrorV,
> {
    if lossy {
        sp_skip_node1(s, p)
    } else {
        Err(ParseErrorV::LossyWkt1Node { keyword, pos: p })
    }
}

/// The error for a keyword that may not stand where it stands.
pub open spec fn unexpected_v(s: Seq<char>, p: int) -> ParseErrorV {
    ParseErrorV::UnexpectedKeyword { keyword: sp_peek_kw1(s, p), pos: p }
}

/// The code of an `AUTHORITY`: a number when the whole text reads as one.
pub open spec fn authority_code_v(code: Seq<char>) -> AuthorityIdV {
    match decimal_of_text(code) {
        Some(n) => AuthorityIdV::Number(n),
        None => AuthorityIdV::Text(code),
    }
}

/// `AUTHORITY["name","code"]`.
pub open spec fn sp1_authority(s: Seq<char>, p: int) -> SRes<IdentifierV> {
    match sp_open_kw1(s, p, "AUTHORITY"@) {
        Err(e) => Err(e),
        Ok(q) => match sp_quoted(s, q) {
            Err(e) => Err(e),
            Ok((name, q1)) => match sp_ws_char_ws(s, q1, ',') {
                Err(e) => Err(e),
                Ok(q2) => match sp_quoted(s, q2) {
                    Err(e) => Err(e),
                    Ok((code, q3)) => match sp_close(s, q3) {
                        Err(e) => Err(e),
                        Ok(q4) => Ok(
                            (
                                IdentifierV {
                                    authority_name: name,
                                    authority_unique_id: authority_code_v(code),
                                    version: None,
                                    citation: None,
                                    uri: None,
                                },
                                q4,
                            ),
                        ),
                    },
                },
            },
        },
    }
}

/// Trailing `AUTHORITY[...]` items up to the closing bracket, appended to `ids`.
pub open spec fn sp1_auth_items(s: Seq<char>, p: int, ids: Seq<IdentifierV>) -> SRes<Seq<IdentifierV>>
    decreases s.len() - p,
{
    if p < 0 || p > s.len() {
        Err(ParseErrorV::UnexpectedEnd)
    } else if sp_at_close(s, p) {
        Ok((ids, sp_skip_ws(s, p)))
    } else {
        match sp_item_start(s, p) {
            Err(e) => Err(e),
            Ok(q) => if sp_peek_kw1(s, q) == "AUTHORITY"@ {
                match sp1_authority(s, q) {
                    Err(e) => Err(e),
                    Ok((id, q2)) => if p < q2 <= s.len() {
                        sp1_auth_items(s, q2, ids.push(id))
                    } else {
                        Err(ParseErrorV::UnexpectedEnd)
                    },
                }
            } else {
                Err(unexpected_v(s, q))
            },
        }
    }
}

/// `UNIT["name",factor {,AUTHORITY}]` read as a unit of kind `keyword`.
pub open spec fn sp1_unit(s: Seq<char>, p: int, w: Wkt1TablesV, keyword: UnitKeyword) -> SRes<UnitV> {
    match sp_open_kw1(s, p, "UNIT"@) {
        Err(e) => Err(e),
        Ok(q) => match sp_quoted(s, q) {
            Err(e) => Err(e),
            Ok((name, q1)) => match sp_ws_char_ws(s, q1, ',') {
                Err(e) => Err(e),
                Ok(q2) => match sp_number(s, q2) {
                    Err(e) => Err(e),
                    Ok((factor, q3)) => match sp1_auth_items(s, q3, Seq::empty()) {
                        Err(e) => Err(e),
                        Ok((ids, q4)) => match sp_close(s, q4) {
                            Err(e) => Err(e),
                            Ok(q5) => Ok(
                                (
                                    UnitV {
                                        keyword,
                                        name: normalize_unit_name_v(w.units, w.builtin_units, name),
                                        conversion_factor: Some(factor),
                                        identifiers: ids,
                                    },
                                    q5,
                                ),
                            ),
                        },
                    },
                },
            },
        },
    }
}

/// The WKT2 direction of a WKT1 axis direction keyword.
pub open spec fn axis_direction_v(d: Seq<char>) -> Seq<char> {
    if eq_ignore_case(d, "NORTH"@) {
        "north"@
    } else if eq_ignore_case(d, "SOUTH"@) {
        "south"@
    } else if eq_ignore_case(d, "EAST"@) {
        "east"@
    } else if eq_ignore_case(d, "WEST"@) {
        "west"@
    } else if eq_ignore_case(d, "UP"@) {
        "up"@
    } else if eq_ignore_case(d, "DOWN"@) {
        "down"@
    } else {
        "unspecified"@
    }
}

/// The six compass and vertical direction keywords of WKT1.
pub open spec fn is_wkt1_direction_word(w: Seq<char>) -> bool {
    w == "NORTH"@ || w == "SOUTH"@ || w == "EAST"@ || w == "WEST"@ || w == "UP"@ || w == "DOWN"@
}

proof fn lemma_direction_words_lower()
    ensures
        lower_text("NORTH"@) == "north"@,
        lower_text("SOUTH"@) == "south"@,
        lower_text("EAST"@) == "east"@,
        lower_text("WEST"@) == "west"@,
        lower_text("UP"@) == "up"@,
        lower_text("DOWN"@) == "down"@,
{
    reveal_strlit("NORTH");
    reveal_strlit("SOUTH");
    reveal_strlit("EAST");
    reveal_strlit("WEST");
    reveal_strlit("UP");
    reveal_strlit("DOWN");
    reveal_strlit("north");
    reveal_strlit("south");
    reveal_strlit("east");
    reveal_strlit("west");
    reveal_strlit("up");
    reveal_strlit("down");
    assert(lower_text("NORTH"@) =~= "north"@);
    assert(lower_text("SOUTH"@) =~= "south"@);
    assert(lower_text("EAST"@) =~= "east"@);
    assert(lower_text("WEST"@) =~= "west"@);
    assert(lower_text("UP"@) =~= "up"@);
    assert(lower_text("DOWN"@) =~= "down"@);
}

/// A WKT1 axis direction keeps the meaning of its keyword, whatever its
/// case: a keyword that equals, ignoring case, one of `NORTH`, `SOUTH`,
/// `EAST`, `WEST`, `UP`, `DOWN` gives that word in lower case (so `SOUTH`
/// gives `south`, never `north`), and any other keyword gives
/// `unspecified`.
pub proof fn law_axis_direction_keeps_meaning(d: Seq<char>, w: Seq<char>)
    requires
        is_wkt1_direction_word(w),
    ensures
        eq_ignore_case(d, w) ==> axis_direction_v(d) == lower_text(w),
        (forall|x: Seq<char>| #[trigger] is_wkt1_direction_word(x) ==> !eq_ignore_case(d, x)) ==> axis_direction_v(d)
            == "unspecified"@,
{
    lemma_direction_words_lower();
    reveal_strlit("north");
    reveal_strlit("south");
    reveal_strlit("east");
    reveal_strlit("west");
    reveal_strlit("up");
    reveal_strlit("down");
    assert("north"@ != "south"@ && "north"@ != "east"@ && "north"@ != "west"@ && "north"@ != "up"@ && "north"@
        != "down"@) by {
        assert("north"@[0] != "south"@[0] && "north"@[0] != "east"@[0] && "north"@[0] != "west"@[0]);
        assert("north"@.len() != "up"@.len() && "north"@.len() != "down"@.len());
    }
    assert("south"@ != "east"@ && "south"@ != "west"@ && "south"@ != "up"@ && "south"@ != "down"@) by {
        assert("south"@[0] != "east"@[0] && "south"@[0] != "west"@[0]);
        assert("south"@.len() != "up"@.len() && "south"@.len() != "down"@.len());
    }
    assert("east"@ != "west"@ && "east"@ != "up"@ && "east"@ != "down"@) by {
        assert("east"@[0] != "west"@[0] && "east"@[0] != "down"@[0]);
        assert("east"@.len() != "up"@.len());
    }
    assert("west"@ != "up"@ && "west"@ != "down"@) by {
        assert("west"@[0] != "down"@[0]);
        assert("west"@.len() != "up"@.len());
    }
    assert("up"@ != "down"@) by {
        assert("up"@.len() != "down"@.len());
    }
    if !(forall|x: Seq<char>| #[trigger] is_wkt1_direction_word(x) ==> !eq_ignore_case(d, x)) {
    } else {
        assert(is_wkt1_direction_word("NORTH"@) && is_wkt1_direction_word("SOUTH"@) && is_wkt1_direction_word(
            "EAST"@,
        ));
        assert(is_wkt1_direction_word("WEST"@) && is_wkt1_direction_word("UP"@) && is_wkt1_direction_word(
            "DOWN"@,
        ));
        assert(!eq_ignore_case(d, "NORTH"@) && !eq_ignore_case(d, "SOUTH"@) && !eq_ignore_case(d, "EAST"@));
        assert(!eq_ignore_case(d, "WEST"@) && !eq_ignore_case(d, "UP"@) && !eq_ignore_case(d, "DOWN"@));
    }
}

/// `AXIS["name",DIRECTION]`.
pub open spec fn sp1_axis(s: Seq<char>, p: int) -> SRes<AxisV> {
    match sp_open_kw1(s, p, "AXIS"@) {
        Err(e) => Err(e),
        Ok(q) => match sp_quoted(s, q) {
            Err(e) => Err(e),
            Ok((name, q1)) => match sp_ws_char_ws(s, q1, ',') {
                Err(e) => Err(e),
                Ok(q2) => match sp_identifier(s, q2) {
                    Err(e) => Err(e),
                    Ok((d, q3)) => match sp_close(s, q3) {
                        Err(e) => Err(e),
                        Ok(q4) => Ok((axis_v(name, axis_direction_v(d), None), q4)),
                    },
                },
            },
        },
    }
}

/// The keyword a `SPHEROID` or `ELLIPSOID` node opens with.
pub open spec fn spheroid_kw(s: Seq<char>, p: int) -> Seq<char> {
    if sp_peek_kw1(s, p) == "SPHEROID"@ {
        "SPHEROID"@
    } else {
        "ELLIPSOID"@
    }
}

/// `SPHEROID|ELLIPSOID["name",a,rf {,AUTHORITY}]`, the name normalized.
#[verifier::opaque]
pub open spec fn sp1_spheroid(s: Seq<char>, p: int, w: Wkt1TablesV) -> SRes<EllipsoidV> {
    match sp_open_kw1(s, p, spheroid_kw(s, p)) {
        Err(e) => Err(e),
        Ok(q) => match sp_quoted(s, q) {
            Err(e) => Err(e),
            Ok((raw, q1)) => match sp_ws_char_ws(s, q1, ',') {
                Err(e) => Err(e),
                Ok(q2) => match sp_number(s, q2) {
                    Err(e) => Err(e),
                    Ok((a, q3)) => match sp_ws_char_ws(s, q3, ',') {
                        Err(e) => Err(e),
                        Ok(q4) => match sp_number(s, q4) {
                            Err(e) => Err(e),
                            Ok((rf, q5)) => match sp1_auth_items(s, q5, Seq::empty()) {
                                Err(e) => Err(e),
                                Ok((ids, q6)) => match sp_close(s, q6) {
                                    Err(e) => Err(e),
                                    Ok(q7) => {
                                        let n = normalize_ellipsoid_name_v(w.ellipsoids, raw);
                                        Ok(
                                            (
                                                EllipsoidV {
                                                    name: n.0,
                                                    semi_major_axis: a,
                                                    inverse_flattening: rf,
                                                    unit: None,
                                                    identifiers: ids_or_code(ids, n.1),
                                                },
                                                q7,
                                            ),
                                        )
                                    },
                                },
                            },
                        },
                    },
                },
            },
        },
    }
}

/// `PRIMEM["name",longitude {,AUTHORITY}]`; the longitude is in degrees.
pub open spec fn sp1_primem(s: Seq<char>, p: int) -> SRes<PrimeMeridianV> {
    match sp_open_kw1(s, p, "PRIMEM"@) {
        Err(e) => Err(e),
        Ok(q) => match sp_quoted(s, q) {
            Err(e) => Err(e),
            Ok((name, q1)) => match sp_ws_char_ws(s, q1, ',') {
                Err(e) => Err(e),
                Ok(q2) => match sp_number(s, q2) {
                    Err(e) => Err(e),
                    Ok((lon, q3)) => match sp1_auth_items(s, q3, Seq::empty()) {
                        Err(e) => Err(e),
                        Ok((ids, q4)) => match sp_close(s, q4) {
                            Err(e) => Err(e),
                            Ok(q5) => Ok(
                                (
                                    PrimeMeridianV {
                                        name,
                                        irm_longitude: lon,
                                        unit: Some(degree_unit_v()),
                                        identifiers: ids,
                                    },
                                    q5,
                                ),
                            ),
                        },
                    },
                },
            },
        },
    }
}

/// The trailing items of a `DATUM`: `AUTHORITY`, and `TOWGS84` (lossy only).
pub open spec fn sp1_datum_items(s: Seq<char>, p: int, lossy: bool, ids: Seq<IdentifierV>) -> SRes<
    Seq<IdentifierV>,
>
    decreases s.len() - p,
{
    if p < 0 || p > s.len() {
        Err(ParseErrorV::UnexpectedEnd)
    } else if sp_at_close(s, p) {
        Ok((ids, sp_skip_ws(s, p)))
    } else {
        match sp_item_start(s, p) {
            Err(e) => Err(e),
            Ok(q) => {
                let kw = sp_peek_kw1(s, q);
                let step: SRes<Seq<IdentifierV>> = if kw == "AUTHORITY"@ {
                    match sp1_authority(s, q) {
                        Err(e) => Err(e),
                        Ok((id, q2)) => Ok((ids.push(id), q2)),
                    }
                } else if kw == "TOWGS84"@ {
                    match sp1_lossy_node(s, q, lossy, "TOWGS84"@) {
                        Err(e) => Err(e),
                        Ok(q2) => Ok((ids, q2)),
                    }
                } else {
                    Err(unexpected_v(s, q))
                };
                match step {
                    Err(e) => Err(e),
                    Ok((ids2, q2)) => if p < q2 <= s.len() {
                        sp1_datum_items(s, q2, lossy, ids2)
                    } else {
                        Err(ParseErrorV::UnexpectedEnd)
                    },
                }
            },
        }
    }
}

/// `DATUM["name",SPHEROID[...] {,TOWGS84[...]} {,AUTHORITY}]`, the name normalized.
#[verifier::opaque]
pub open spec fn sp1_datum(s: Seq<char>, p: int, w: Wkt1TablesV, lossy: bool) -> SRes<
    GeodeticReferenceFrameV,
> {
    match sp_open_kw1(s, p, "DATUM"@) {
        Err(e) => Err(e),
        Ok(q) => match sp_quoted(s, q) {
            Err(e) => Err(e),
            Ok((raw, q1)) => match sp_ws_char_ws(s, q1, ',') {
                Err(e) => Err(e),
                Ok(q2) => match sp1_spheroid(s, q2, w) {
                    Err(e) => Err(e),
                    Ok((ellipsoid, q3)) => match sp1_datum_items(s, q3, lossy, Seq::empty()) {
                        Err(e) => Err(e),
                        Ok((ids, q4)) => match sp_close(s, q4) {
                            Err(e) => Err(e),
                            Ok(q5) => {
                                let n = normalize_datum_name_v(w.geodetic_datums, raw);
                                Ok(
                                    (
                                        GeodeticReferenceFrameV {
                                            keyword: DatumKeyword::Datum,
                                            name: n.0,
                                            ellipsoid,
                                            anchor: None,
                                            anchor_epoch: None,
                                            identifiers: ids_or_code(ids, n.1),
                                            prime_meridian: None,
                                        },
                                        q5,
                                    ),
                                )
                            },
                        },
                    },
                },
            },
        },
    }
}

/// `LINUNIT["name",factor]`, a length unit.
pub open spec fn sp1_linunit(s: Seq<char>, p: int, w: Wkt1TablesV) -> SRes<UnitV> {
    match sp_open_kw1(s, p, "LINUNIT"@) {
        Err(e) => Err(e),
        Ok(q) => match sp_quoted(s, q) {
            Err(e) => Err(e),
            Ok((name, q1)) => match sp_ws_char_ws(s, q1, ',') {
                Err(e) => Err(e),
                Ok(q2) => match sp_number(s, q2) {
                    Err(e) => Err(e),
                    Ok((factor, q3)) => match sp_close(s, q3) {
                        Err(e) => Err(e),
                        Ok(q4) => Ok(
                            (
                                UnitV {
                                    keyword: UnitKeyword::LengthUnit,
                                    name: normalize_unit_name_v(w.units, w.builtin_units, name),
                                    conversion_factor: Some(factor),
                                    identifiers: Seq::empty(),
                                },
                                q4,
                            ),
                        ),
                    },
                },
            },
        },
    }
}

/// Keywords of nodes that carry what the model cannot hold; the lossy
/// reader skips them, the strict one refuses them.
pub open spec fn is_lossy_kw(kw: Seq<char>) -> bool {
    kw == "TOWGS84"@ || kw == "EXTENSION"@ || kw == "METADATA"@
}

/// What the trailing items of a `GEOGCS` or `GEOCCS` have set so far.
pub struct GeoItemsV {
    pub datum: GeodeticReferenceFrameV,
    pub unit: Option<UnitV>,
    pub linear_unit: Option<UnitV>,
    pub axes: Seq<AxisV>,
    pub identifiers: Seq<IdentifierV>,
}

/// The state before any trailing item.
pub open spec fn geo_items_start(datum: GeodeticReferenceFrameV) -> GeoItemsV {
    GeoItemsV {
        datum,
        unit: None,
        linear_unit: None,
        axes: Seq::empty(),
        identifiers: Seq::empty(),
    }
}

/// One trailing item of a `GEOGCS` (`geocentric` false) or a `GEOCCS`
/// (`geocentric` true), read at `q`: `PRIMEM` sets the datum's prime
/// meridian, `UNIT` the angle unit (length unit for `GEOCCS`), `LINUNIT`
/// (`GEOGCS` only) the ellipsoidal height unit; `AXIS` and `AUTHORITY`
/// accumulate; the lossy nodes are skipped or refused.
pub open spec fn sp1_geo_item(
    s: Seq<char>,
    q: int,
    w: Wkt1TablesV,
    lossy: bool,
    geocentric: bool,
    st: GeoItemsV,
) -> SRes<GeoItemsV> {
    let kw = sp_peek_kw1(s, q);
    if kw == "PRIMEM"@ {
        match sp1_primem(s, q) {
            Err(e) => Err(e),
            Ok((pm, q2)) => Ok(
                (
                    GeoItemsV {
                        datum: GeodeticReferenceFrameV { prime_meridian: Some(pm), ..st.datum },
                        ..st
                    },
                    q2,
                ),
            ),
        }
    } else if kw == "UNIT"@ {
        let k = if geocentric {
            UnitKeyword::LengthUnit
        } else {
            UnitKeyword::AngleUnit
        };
        match sp1_unit(s, q, w, k) {
            Err(e) => Err(e),
            Ok((u, q2)) => Ok((GeoItemsV { unit: Some(u), ..st }, q2)),
        }
    } else if kw == "LINUNIT"@ && !geocentric {
        match sp1_linunit(s, q, w) {
            Err(e) => Err(e),
            Ok((u, q2)) => Ok((GeoItemsV { linear_unit: Some(u), ..st }, q2)),
        }
    } else if kw == "AXIS"@ {
        match sp1_axis(s, q) {
            Err(e) => Err(e),
            Ok((a, q2)) => Ok((GeoItemsV { axes: st.axes.push(a), ..st }, q2)),
        }
    } else if kw == "AUTHORITY"@ {
        match sp1_authority(s, q) {
            Err(e) => Err(e),
            Ok((id, q2)) => Ok((GeoItemsV { identifiers: st.identifiers.push(id), ..st }, q2)),
        }
    } else if is_lossy_kw(kw) {
        match sp1_lossy_node(s, q, lossy, kw) {
            Err(e) => Err(e),
            Ok(q2) => Ok((st, q2)),
        }
    } else {
        Err(unexpected_v(s, q))
    }
}

/// The trailing items of a `GEOGCS` or `GEOCCS` up to its closing bracket.
pub open spec fn sp1_geo_items(
    s: Seq<char>,
    p: int,
    w: Wkt1TablesV,
    lossy: bool,
    geocentric: bool,
    st: GeoItemsV,
) -> SRes<GeoItemsV>
    decreases s.len() - p,
{
    if p < 0 || p > s.len() {
        Err(ParseErrorV::UnexpectedEnd)
    } else if sp_at_close(s, p) {
        Ok((st, sp_skip_ws(s, p)))
    } else {
        match sp_item_start(s, p) {
            Err(e) => Err(e),
            Ok(q) => match sp1_geo_item(s, q, w, lossy, geocentric, st) {
                Err(e) => Err(e),
                Ok((st2, q2)) => if p < q2 <= s.len() {
                    sp1_geo_items(s, q2, w, lossy, geocentric, st2)
                } else {
                    Err(ParseErrorV::UnexpectedEnd)
                },
            },
        }
    }
}

/// The content of a `GEOGCS[...]` node.
pub struct GeogcsV {
    pub name: Seq<char>,
    pub datum: GeodeticReferenceFrameV,
    pub angle_unit: Option<UnitV>,
    pub linear_unit: Option<UnitV>,
    pub axes: Seq<AxisV>,
    pub identifiers: Seq<IdentifierV>,
}

/// `GEOGCS["name",DATUM[...] {,PRIMEM} {,UNIT} {,LINUNIT} {,AXIS} {,AUTHORITY}]`,
/// the name normalized.
#[verifier::opaque]
pub open spec fn sp1_geogcs(s: Seq<char>, p: int, w: Wkt1TablesV, lossy: bool) -> SRes<GeogcsV> {
    match sp_open_kw1(s, p, "GEOGCS"@) {
        Err(e) => Err(e),
        Ok(q) => match sp_quoted(s, q) {
            Err(e) => Err(e),
            Ok((raw, q1)) => match sp_ws_char_ws(s, q1, ',') {
                Err(e) => Err(e),
                Ok(q2) => match sp1_datum(s, q2, w, lossy) {
                    Err(e) => Err(e),
                    Ok((datum, q3)) => match sp1_geo_items(s, q3, w, lossy, false, geo_items_start(datum)) {
                        Err(e) => Err(e),
                        Ok((st, q4)) => match sp_close(s, q4) {
                            Err(e) => Err(e),
                            Ok(q5) => Ok(
                                (
                                    GeogcsV {
                                        name: normalize_geogcs_name_v(raw),
                                        datum: st.datum,
                                        angle_unit: st.unit,
                                        linear_unit: st.linear_unit,
                                        axes: st.axes,
                                        identifiers: st.identifiers,
                                    },
                                    q5,
                                ),
                            ),
                        },
                    },
                },
            },
        },
    }
}

/// Whether an axis direction is vertical.
pub open spec fn is_vertical_v(d: Seq<char>) -> bool {
    d == "up"@ || d == "down"@
}

/// The axes of a geographic 3D CRS, each with its unit: the vertical one the
/// height unit, the others the angle unit.
pub open spec fn with_units_v(axes: Seq<AxisV>, angle: UnitV, height: UnitV) -> Seq<AxisV> {
    Seq::new(
        axes.len(),
        |i: int|
            AxisV {
                unit: Some(
                    if is_vertical_v(axes[i].direction) {
                        height
                    } else {
                        angle
                    },
                ),
                ..axes[i]
            },
    )
}

/// The default axes of a geographic 2D CRS.
pub open spec fn lat_lon_axes() -> Seq<AxisV> {
    seq![axis_v("Latitude (lat)"@, "north"@, None), axis_v("Longitude (lon)"@, "east"@, None)]
}

/// The default axes of a geographic 3D CRS.
pub open spec fn lat_lon_h_axes() -> Seq<AxisV> {
    seq![
        axis_v("Latitude (lat)"@, "north"@, None),
        axis_v("Longitude (lon)"@, "east"@, None),
        axis_v("Ellipsoidal height (h)"@, "up"@, None),
    ]
}

/// The coordinate system of a geographic CRS read from a `GEOGCS` at `pos`:
/// a `LINUNIT` makes it 3D, with the units on the axes.
pub open spec fn geographic_cs_v(
    angle_unit: Option<UnitV>,
    linear_unit: Option<UnitV>,
    axes: Seq<AxisV>,
    pos: int,
) -> Result<CoordinateSystemV, ParseErrorV> {
    match require_unit_v(angle_unit, "GEOGCS"@, pos) {
        Err(e) => Err(e),
        Ok(au) => match linear_unit {
            Some(lu) => if axes.len() == 0 || axes.len() == 3 {
                let a = if axes.len() == 0 {
                    lat_lon_h_axes()
                } else {
                    axes
                };
                Ok(
                    CoordinateSystemV {
                        cs_type: CsType::Ellipsoidal,
                        dimension: 3,
                        identifiers: Seq::empty(),
                        axes: with_units_v(numbered_v(a), au, lu),
                        cs_unit: None,
                    },
                )
            } else {
                Err(ParseErrorV::UnsupportedWkt1Node { keyword: "AXIS"@, pos })
            },
            None => match axes_or_default_v(axes, lat_lon_axes(), pos) {
                Err(e) => Err(e),
                Ok(a) => Ok(
                    CoordinateSystemV {
                        cs_type: CsType::Ellipsoidal,
                        dimension: 2,
                        identifiers: Seq::empty(),
                        axes: a,
                        cs_unit: Some(au),
                    },
                ),
            },
        },
    }
}

/// A top-level `GEOGCS`: a geographic CRS.
#[verifier::opaque]
pub open spec fn sp1_top_geogcs(s: Seq<char>, p: int, w: Wkt1TablesV, lossy: bool) -> SRes<GeogCrsV> {
    match sp1_geogcs(s, p, w, lossy) {
        Err(e) => Err(e),
        Ok((g, q)) => match geographic_cs_v(g.angle_unit, g.linear_unit, g.axes, p) {
            Err(e) => Err(e),
            Ok(cs) => Ok(
                (
                    GeogCrsV {
                        keyword: GeogCrsKeyword::GeogCrs,
                        name: g.name,
                        dynamic: None,
                        datum: DatumV::ReferenceFrame(g.datum),
                        coordinate_system: cs,
                        usages: Seq::empty(),
                        identifiers: g.identifiers,
                        remark: None,
                    },
                    q,
                ),
            ),
        },
    }
}

/// Name of geocentric axis `i`.
pub open spec fn geocentric_name(i: int) -> Seq<char> {
    if i == 0 {
        "Geocentric X (X)"@
    } else if i == 1 {
        "Geocentric Y (Y)"@
    } else {
        "Geocentric Z (Z)"@
    }
}

/// Direction of geocentric axis `i`.
pub open spec fn geocentric_direction(i: int) -> Seq<char> {
    if i == 0 {
        "geocentricX"@
    } else if i == 1 {
        "geocentricY"@
    } else {
        "geocentricZ"@
    }
}

/// The three geocentric axes: the names as written where there are axes, the
/// directions from the position (OGC 01-009 writes X and Y as `OTHER`).
pub open spec fn geocentric_axes_v(axes: Seq<AxisV>) -> Seq<AxisV> {
    Seq::new(
        3,
        |i: int|
            axis_v(
                if i < axes.len() {
                    axes[i].name_abbrev
                } else {
                    geocentric_name(i)
                },
                geocentric_direction(i),
                Some((i + 1) as u32),
            ),
    )
}

/// `GEOCCS["name",DATUM[...] {,PRIMEM} {,UNIT} {,AXIS} {,AUTHORITY}]`: a
/// geodetic CRS with a Cartesian coordinate system.
#[verifier::opaque]
pub open spec fn sp1_geoccs(s: Seq<char>, p: int, w: Wkt1TablesV, lossy: bool) -> SRes<GeodCrsV> {
    match sp_open_kw1(s, p, "GEOCCS"@) {
        Err(e) => Err(e),
        Ok(q) => match sp_quoted(s, q) {
            Err(e) => Err(e),
            Ok((name, q1)) => match sp_ws_char_ws(s, q1, ',') {
                Err(e) => Err(e),
                Ok(q2) => match sp1_datum(s, q2, w, lossy) {
                    Err(e) => Err(e),
                    Ok((datum, q3)) => match sp1_geo_items(s, q3, w, lossy, true, geo_items_start(datum)) {
                        Err(e) => Err(e),
                        Ok((st, q4)) => if st.axes.len() != 0 && st.axes.len() != 3 {
                            Err(ParseErrorV::UnsupportedWkt1Node { keyword: "AXIS"@, pos: p })
                        } else {
                            match require_unit_v(st.unit, "GEOCCS"@, p) {
                                Err(e) => Err(e),
                                Ok(u) => match sp_close(s, q4) {
                                    Err(e) => Err(e),
                                    Ok(q5) => Ok(
                                        (
                                            GeodCrsV {
                                                keyword: GeodCrsKeyword::GeodCrs,
                                                name,
                                                dynamic: None,
                                                datum: DatumV::ReferenceFrame(st.datum),
                                                coordinate_system: CoordinateSystemV {
                                                    cs_type: CsType::Cartesian,
                                                    dimension: 3,
                                                    identifiers: Seq::empty(),
                                                    axes: geocentric_axes_v(st.axes),
                                                    cs_unit: Some(u),
                                                },
                                                usages: Seq::empty(),
                                                identifiers: st.identifiers,
                                                remark: None,
                                            },
                                            q5,
                                        ),
                                    ),
                                },
                            }
                        },
                    },
                },
            },
        },
    }
}

/// `PROJECTION["name" {,AUTHORITY}]`: the name; an authority is read and dropped.
pub open spec fn sp1_projection(s: Seq<char>, p: int) -> SRes<Seq<char>> {
    match sp_open_kw1(s, p, "PROJECTION"@) {
        Err(e) => Err(e),
        Ok(q) => match sp_quoted(s, q) {
            Err(e) => Err(e),
            Ok((name, q1)) => match sp1_auth_items(s, q1, Seq::empty()) {
                Err(e) => Err(e),
                Ok((_, q2)) => match sp_close(s, q2) {
                    Err(e) => Err(e),
                    Ok(q3) => Ok((name, q3)),
                },
            },
        },
    }
}

/// `PARAMETER["name",value {,AUTHORITY}]`; an authority is read and dropped.
pub open spec fn sp1_parameter(s: Seq<char>, p: int) -> SRes<(Seq<char>, DecimalV)> {
    match sp_open_kw1(s, p, "PARAMETER"@) {
        Err(e) => Err(e),
        Ok(q) => match sp_quoted(s, q) {
            Err(e) => Err(e),
            Ok((name, q1)) => match sp_ws_char_ws(s, q1, ',') {
                Err(e) => Err(e),
                Ok(q2) => match sp_number(s, q2) {
                    Err(e) => Err(e),
                    Ok((v, q3)) => match sp1_auth_items(s, q3, Seq::empty()) {
                        Err(e) => Err(e),
                        Ok((_, q4)) => match sp_close(s, q4) {
                            Err(e) => Err(e),
                            Ok(q5) => Ok(((name, v), q5)),
                        },
                    },
                },
            },
        },
    }
}

/// What the trailing items of a `PROJCS` have set so far.
pub struct ProjItemsV {
    pub projection: Option<Seq<char>>,
    pub params: Seq<(Seq<char>, DecimalV)>,
    pub unit: Option<UnitV>,
    pub axes: Seq<AxisV>,
    pub identifiers: Seq<IdentifierV>,
}

/// The state before any trailing item of a `PROJCS`.
pub open spec fn proj_items_start() -> ProjItemsV {
    ProjItemsV {
        projection: None,
        params: Seq::empty(),
        unit: None,
        axes: Seq::empty(),
        identifiers: Seq::empty(),
    }
}

/// One trailing item of a `PROJCS`, read at `q`.
pub open spec fn sp1_proj_item(s: Seq<char>, q: int, w: Wkt1TablesV, lossy: bool, st: ProjItemsV) -> SRes<
    ProjItemsV,
> {
    let kw = sp_peek_kw1(s, q);
    if kw == "PROJECTION"@ {
        match sp1_projection(s, q) {
            Err(e) => Err(e),
            Ok((n, q2)) => Ok((ProjItemsV { projection: Some(n), ..st }, q2)),
        }
    } else if kw == "PARAMETER"@ {
        match sp1_parameter(s, q) {
            Err(e) => Err(e),
            Ok((pv, q2)) => Ok((ProjItemsV { params: st.params.push(pv), ..st }, q2)),
        }
    } else if kw == "UNIT"@ {
        match sp1_unit(s, q, w, UnitKeyword::LengthUnit) {
            Err(e) => Err(e),
            Ok((u, q2)) => Ok((ProjItemsV { unit: Some(u), ..st }, q2)),
        }
    } else if kw == "AXIS"@ {
        match sp1_axis(s, q) {
            Err(e) => Err(e),
            Ok((a, q2)) => Ok((ProjItemsV { axes: st.axes.push(a), ..st }, q2)),
        }
    } else if kw == "AUTHORITY"@ {
        match sp1_authority(s, q) {
            Err(e) => Err(e),
            Ok((id, q2)) => Ok((ProjItemsV { identifiers: st.identifiers.push(id), ..st }, q2)),
        }
    } else if is_lossy_kw(kw) {
        match sp1_lossy_node(s, q, lossy, kw) {
            Err(e) => Err(e),
            Ok(q2) => Ok((st, q2)),
        }
    } else {
        Err(unexpected_v(s, q))
    }
}

/// The trailing items of a `PROJCS` up to its closing bracket.
pub open spec fn sp1_proj_items(s: Seq<char>, p: int, w: Wkt1TablesV, lossy: bool, st: ProjItemsV) -> SRes<
    ProjItemsV,
>
    decreases s.len() - p,
{
    if p < 0 || p > s.len() {
        Err(ParseErrorV::UnexpectedEnd)
    } else if sp_at_close(s, p) {
        Ok((st, sp_skip_ws(s, p)))
    } else {
        match sp_item_start(s, p) {
            Err(e) => Err(e),
            Ok(q) => match sp1_proj_item(s, q, w, lossy, st) {
                Err(e) => Err(e),
                Ok((st2, q2)) => if p < q2 <= s.len() {
                    sp1_proj_items(s, q2, w, lossy, st2)
                } else {
                    Err(ParseErrorV::UnexpectedEnd)
                },
            },
        }
    }
}

/// Whether an axis points south or west.
pub open spec fn any_south_west_v(axes: Seq<AxisV>) -> bool {
    exists|i: int| 0 <= i < axes.len() && (axes[i].direction == "south"@ || axes[i].direction == "west"@)
}

/// The default axes of a projected CRS.
pub open spec fn east_north_axes() -> Seq<AxisV> {
    seq![axis_v("Easting (E)"@, "east"@, None), axis_v("Northing (N)"@, "north"@, None)]
}

/// `ID["EPSG", code]` for a nonzero code; none for 0.
pub open spec fn code_ids(code: i32) -> Seq<IdentifierV> {
    if code != 0 {
        seq![epsg_id_v(code)]
    } else {
        Seq::empty()
    }
}

/// A resolved projection parameter with the unit its kind calls for.
pub open spec fn param_v(rp: ResolvedParamV, angle: UnitV, linear: UnitV) -> MapProjectionParameterV {
    MapProjectionParameterV {
        name: rp.epsg_name,
        value: rp.value,
        unit: Some(
            match rp.unit_type {
                UnitType::Angular => angle,
                UnitType::Linear => linear,
                UnitType::Scale => unity_unit_v(),
                UnitType::Unitless => unity_unit_v(),
            },
        ),
        identifiers: code_ids(rp.epsg_code),
    }
}

/// The projected CRS built from a read `PROJCS` at `pos`: axes, then the
/// method (resolved through the tables, with the enclosing CRS as context),
/// then the two units, are checked in that order.
pub open spec fn projcs_v(
    name: Seq<char>,
    g: GeogcsV,
    st: ProjItemsV,
    w: Wkt1TablesV,
    pos: int,
) -> Result<ProjectedCrsV, ParseErrorV> {
    match axes_or_default_v(st.axes, east_north_axes(), pos) {
        Err(e) => Err(e),
        Ok(axes) => match st.projection {
            None => Err(
                ParseErrorV::MissingWkt1Node { keyword: "PROJECTION"@, parent: "PROJCS"@, pos },
            ),
            Some(pn) => {
                let ctx = MethodContext {
                    is_sphere: g.datum.ellipsoid.inverse_flattening.digits.len() == 0,
                    south_west_oriented: any_south_west_v(axes),
                };
                match resolve_method_v(w.mappings, pn, st.params, ctx) {
                    Err(e) => Err(e),
                    Ok(m) => match require_unit_v(g.angle_unit, "GEOGCS"@, pos) {
                        Err(e) => Err(e),
                        Ok(au) => match require_unit_v(st.unit, "PROJCS"@, pos) {
                            Err(e) => Err(e),
                            Ok(lu) => Ok(
                                ProjectedCrsV {
                                    name,
                                    base_geodetic_crs: BaseGeodeticCrsV {
                                        keyword: BaseGeodeticCrsKeyword::BaseGeogCrs,
                                        name: g.name,
                                        dynamic: None,
                                        datum: DatumV::ReferenceFrame(g.datum),
                                        ellipsoidal_cs_unit: Some(au),
                                        identifiers: g.identifiers,
                                    },
                                    map_projection: MapProjectionV {
                                        name: "unnamed"@,
                                        method: MapProjectionMethodV {
                                            name: m.epsg_name,
                                            identifiers: code_ids(m.epsg_code),
                                        },
                                        parameters: m.params.map_values(
                                            |rp: ResolvedParamV| param_v(rp, au, lu),
                                        ),
                                        identifiers: Seq::empty(),
                                    },
                                    coordinate_system: CoordinateSystemV {
                                        cs_type: CsType::Cartesian,
                                        dimension: 2,
                                        identifiers: Seq::empty(),
                                        axes,
                                        cs_unit: Some(lu),
                                    },
                                    usages: Seq::empty(),
                                    identifiers: st.identifiers,
                                    remark: None,
                                },
                            ),
                        },
                    },
                }
            },
        },
    }
}

/// `PROJCS["name",GEOGCS[...],PROJECTION[...] {,PARAMETER} ,UNIT {,AXIS} {,AUTHORITY}]`.
#[verifier::opaque]
pub open spec fn sp1_projcs(s: Seq<char>, p: int, w: Wkt1TablesV, lossy: bool) -> SRes<ProjectedCrsV> {
    match sp_open_kw1(s, p, "PROJCS"@) {
        Err(e) => Err(e),
        Ok(q) => match sp_quoted(s, q) {
            Err(e) => Err(e),
            Ok((name, q1)) => match sp_ws_char_ws(s, q1, ',') {
                Err(e) => Err(e),
                Ok(q2) => match sp1_geogcs(s, q2, w, lossy) {
                    Err(e) => Err(e),
                    Ok((g, q3)) => match sp1_proj_items(s, q3, w, lossy, proj_items_start()) {
                        Err(e) => Err(e),
                        Ok((st, q4)) => match projcs_v(name, g, st, w, p) {
                            Err(e) => Err(e),
                            Ok(c) => match sp_close(s, q4) {
                                Err(e) => Err(e),
                                Ok(q5) => Ok((c, q5)),
                            },
                        },
                    },
                },
            },
        },
    }
}

/// The keyword a vertical datum node opens with.
pub open spec fn vert_datum_kw(s: Seq<char>, p: int) -> Seq<char> {
    if sp_peek_kw1(s, p) == "VERT_DATUM"@ {
        "VERT_DATUM"@
    } else if sp_peek_kw1(s, p) == "VDATUM"@ {
        "VDATUM"@
    } else {
        "VERTICALDATUM"@
    }
}

/// Whether a keyword opens a vertical datum.
pub open spec fn is_vert_datum_kw(kw: Seq<char>) -> bool {
    kw == "VERT_DATUM"@ || kw == "VDATUM"@ || kw == "VERTICALDATUM"@
}

/// The trailing items of a vertical datum: `AUTHORITY`, and a datum type
/// number, read and dropped.
pub open spec fn sp1_vdatum_items(s: Seq<char>, p: int, ids: Seq<IdentifierV>) -> SRes<Seq<IdentifierV>>
    decreases s.len() - p,
{
    if p < 0 || p > s.len() {
        Err(ParseErrorV::UnexpectedEnd)
    } else if sp_at_close(s, p) {
        Ok((ids, sp_skip_ws(s, p)))
    } else {
        match sp_item_start(s, p) {
            Err(e) => Err(e),
            Ok(q) => {
                let step: SRes<Seq<IdentifierV>> = if sp_peek_kw1(s, q) == "AUTHORITY"@ {
                    match sp1_authority(s, q) {
                        Err(e) => Err(e),
                        Ok((id, q2)) => Ok((ids.push(id), q2)),
                    }
                } else if sp_peek_kw1(s, q).len() == 0 {
                    match sp_number(s, q) {
                        Err(e) => Err(e),
                        Ok((_, q2)) => Ok((ids, q2)),
                    }
                } else {
                    Err(unexpected_v(s, q))
                };
                match step {
                    Err(e) => Err(e),
                    Ok((ids2, q2)) => if p < q2 <= s.len() {
                        sp1_vdatum_items(s, q2, ids2)
                    } else {
                        Err(ParseErrorV::UnexpectedEnd)
                    },
                }
            },
        }
    }
}

/// `VERT_DATUM|VDATUM|VERTICALDATUM["name" {,datum-type} {,AUTHORITY}]`: the
/// name and the identifiers.
pub open spec fn sp1_vert_datum(s: Seq<char>, p: int) -> SRes<(Seq<char>, Seq<IdentifierV>)> {
    match sp_open_kw1(s, p, vert_datum_kw(s, p)) {
        Err(e) => Err(e),
        Ok(q) => match sp_quoted(s, q) {
            Err(e) => Err(e),
            Ok((name, q1)) => match sp1_vdatum_items(s, q1, Seq::empty()) {
                Err(e) => Err(e),
                Ok((ids, q2)) => match sp_close(s, q2) {
                    Err(e) => Err(e),
                    Ok(q3) => Ok(((name, ids), q3)),
                },
            },
        },
    }
}

/// `PARAMETER["name",value]` of an ESRI `VERTCS`.
pub open spec fn sp1_vert_parameter(s: Seq<char>, p: int) -> SRes<(Seq<char>, DecimalV)> {
    match sp_open_kw1(s, p, "PARAMETER"@) {
        Err(e) => Err(e),
        Ok(q) => match sp_quoted(s, q) {
            Err(e) => Err(e),
            Ok((name, q1)) => match sp_ws_char_ws(s, q1, ',') {
                Err(e) => Err(e),
                Ok(q2) => match sp_number(s, q2) {
                    Err(e) => Err(e),
                    Ok((v, q3)) => match sp_close(s, q3) {
                        Err(e) => Err(e),
                        Ok(q4) => Ok(((name, v), q4)),
                    },
                },
            },
        },
    }
}

/// What the trailing items of a `VERT_CS` have set so far.
pub struct VertItemsV {
    pub datum_name: Option<Seq<char>>,
    pub datum_identifiers: Seq<IdentifierV>,
    pub from_geodetic_datum: bool,
    pub unit: Option<UnitV>,
    pub axes: Seq<AxisV>,
    pub identifiers: Seq<IdentifierV>,
    pub direction_down: bool,
}

/// The state before any trailing item of a `VERT_CS`.
pub open spec fn vert_items_start() -> VertItemsV {
    VertItemsV {
        datum_name: None,
        datum_identifiers: Seq::empty(),
        from_geodetic_datum: false,
        unit: None,
        axes: Seq::empty(),
        identifiers: Seq::empty(),
        direction_down: false,
    }
}

/// An ESRI `PARAMETER` of a `VERTCS`, read to `q`: a nonzero
/// `Vertical_Shift` only the lossy reader accepts (and drops); `Direction` is
/// +1 (up) or -1 (down); any other name is refused.
pub open spec fn vert_parameter_step(
    name: Seq<char>,
    value: DecimalV,
    q: int,
    lossy: bool,
    st: VertItemsV,
) -> SRes<VertItemsV> {
    if name == "Vertical_Shift"@ {
        if value.digits.len() != 0 && !lossy {
            Err(ParseErrorV::LossyWkt1Node { keyword: "PARAMETER[\"Vertical_Shift\"]"@, pos: q })
        } else {
            Ok((st, q))
        }
    } else if name == "Direction"@ {
        let up = same_value(value, of_int(1));
        let down = same_value(value, of_int(-1));
        if !up && !down {
            Err(
                ParseErrorV::UnsupportedParameterValue {
                    method: "VERTCS"@,
                    name: "Direction"@,
                    value,
                },
            )
        } else {
            Ok((VertItemsV { direction_down: down, ..st }, q))
        }
    } else {
        Err(ParseErrorV::UnknownParameter { method: "VERTCS"@, name })
    }
}

/// One trailing item of a `VERT_CS`, read at `q`. A geodetic `DATUM` (ESRI
/// ellipsoidal heights) gives its name, not its identifiers.
pub open spec fn sp1_vert_item(s: Seq<char>, q: int, w: Wkt1TablesV, lossy: bool, st: VertItemsV) -> SRes<
    VertItemsV,
> {
    let kw = sp_peek_kw1(s, q);
    if is_vert_datum_kw(kw) {
        match sp1_vert_datum(s, q) {
            Err(e) => Err(e),
            Ok((d, q2)) => Ok(
                (VertItemsV { datum_name: Some(d.0), datum_identifiers: d.1, ..st }, q2),
            ),
        }
    } else if kw == "DATUM"@ {
        match sp1_datum(s, q, w, lossy) {
            Err(e) => Err(e),
            Ok((d, q2)) => Ok(
                (VertItemsV { datum_name: Some(d.name), from_geodetic_datum: true, ..st }, q2),
            ),
        }
    } else if kw == "PARAMETER"@ {
        match sp1_vert_parameter(s, q) {
            Err(e) => Err(e),
            Ok((pv, q2)) => vert_parameter_step(pv.0, pv.1, q2, lossy, st),
        }
    } else if kw == "UNIT"@ {
        match sp1_unit(s, q, w, UnitKeyword::LengthUnit) {
            Err(e) => Err(e),
            Ok((u, q2)) => Ok((VertItemsV { unit: Some(u), ..st }, q2)),
        }
    } else if kw == "AXIS"@ {
        match sp1_axis(s, q) {
            Err(e) => Err(e),
            Ok((a, q2)) => Ok((VertItemsV { axes: st.axes.push(a), ..st }, q2)),
        }
    } else if kw == "AUTHORITY"@ {
        match sp1_authority(s, q) {
            Err(e) => Err(e),
            Ok((id, q2)) => Ok((VertItemsV { identifiers: st.identifiers.push(id), ..st }, q2)),
        }
    } else if kw == "EXTENSION"@ || kw == "METADATA"@ {
        match sp1_lossy_node(s, q, lossy, kw) {
            Err(e) => Err(e),
            Ok(q2) => Ok((st, q2)),
        }
    } else {
        Err(unexpected_v(s, q))
    }
}

/// The trailing items of a `VERT_CS` up to its closing bracket.
pub open spec fn sp1_vert_items(s: Seq<char>, p: int, w: Wkt1TablesV, lossy: bool, st: VertItemsV) -> SRes<
    VertItemsV,
>
    decreases s.len() - p,
{
    if p < 0 || p > s.len() {
        Err(ParseErrorV::UnexpectedEnd)
    } else if sp_at_close(s, p) {
        Ok((st, sp_skip_ws(s, p)))
    } else {
        match sp_item_start(s, p) {
            Err(e) => Err(e),
            Ok(q) => match sp1_vert_item(s, q, w, lossy, st) {
                Err(e) => Err(e),
                Ok((st2, q2)) => if p < q2 <= s.len() {
                    sp1_vert_items(s, q2, w, lossy, st2)
                } else {
                    Err(ParseErrorV::UnexpectedEnd)
                },
            },
        }
    }
}

/// The keyword a vertical CRS opens with.
pub open spec fn vert_cs_kw(s: Seq<char>, p: int) -> Seq<char> {
    if sp_peek_kw1(s, p) == "VERT_CS"@ {
        "VERT_CS"@
    } else {
        "VERTCS"@
    }
}

/// The one axis of a vertical CRS: the first one written (unnumbered), or
/// depth when the direction is down, or an ellipsoidal or gravity-related height.
pub open spec fn vert_axis_v(st: VertItemsV) -> AxisV {
    if st.axes.len() > 0 {
        AxisV { order: None, ..st.axes[0] }
    } else if st.direction_down {
        axis_v("Depth (D)"@, "down"@, None)
    } else if st.from_geodetic_datum {
        axis_v("Ellipsoidal height (h)"@, "up"@, None)
    } else {
        axis_v("Gravity-related height (H)"@, "up"@, None)
    }
}

/// The vertical datum's name and code: a vertical datum's name normalized
/// through the tables; a geodetic datum's name as it was read.
pub open spec fn vert_datum_name_v(st: VertItemsV, raw: Seq<char>, w: Wkt1TablesV) -> (Seq<char>, Option<i32>) {
    if st.from_geodetic_datum {
        (raw, None)
    } else {
        normalize_datum_name_v(w.vertical_datums, raw)
    }
}

/// `VERT_CS|VERTCS["name",VERT_DATUM[...] {,PARAMETER} ,UNIT {,AXIS} {,AUTHORITY}]`.
#[verifier::opaque]
pub open spec fn sp1_vert_cs(s: Seq<char>, p: int, w: Wkt1TablesV, lossy: bool) -> SRes<VertCrsV> {
    match sp_open_kw1(s, p, vert_cs_kw(s, p)) {
        Err(e) => Err(e),
        Ok(q) => match sp_quoted(s, q) {
            Err(e) => Err(e),
            Ok((name, q1)) => match sp1_vert_items(s, q1, w, lossy, vert_items_start()) {
                Err(e) => Err(e),
                Ok((st, q2)) => match st.datum_name {
                    None => Err(ParseErrorV::ExpectedKeyword { pos: q2 }),
                    Some(raw) => match require_unit_v(st.unit, "VERT_CS"@, p) {
                        Err(e) => Err(e),
                        Ok(u) => match sp_close(s, q2) {
                            Err(e) => Err(e),
                            Ok(q3) => {
                                let d = vert_datum_name_v(st, raw, w);
                                Ok(
                                    (
                                        VertCrsV {
                                            keyword: VertCrsKeyword::VertCrs,
                                            name,
                                            source: VertCrsSourceV::Datum {
                                                dynamic: None,
                                                datum: VerticalDatumV::ReferenceFrame(
                                                    VerticalReferenceFrameV {
                                                        keyword: VerticalReferenceFrameKeyword::VDatum,
                                                        name: d.0,
                                                        anchor: None,
                                                        anchor_epoch: None,
                                                        identifiers: ids_or_code(st.datum_identifiers, d.1),
                                                    },
                                                ),
                                            },
                                            coordinate_system: CoordinateSystemV {
                                                cs_type: CsType::Vertical,
                                                dimension: 1,
                                                identifiers: Seq::empty(),
                                                axes: seq![vert_axis_v(st)],
                                                cs_unit: Some(u),
                                            },
                                            geoid_models: Seq::empty(),
                                            usages: Seq::empty(),
                                            identifiers: st.identifiers,
                                            remark: None,
                                        },
                                        q3,
                                    ),
                                )
                            },
                        },
                    },
                },
            },
        },
    }
}

/// A CRS as a compound CRS component; a compound CRS may not nest (ISO 19111).
pub open spec fn into_single_v(c: CrsV, pos: int) -> Result<SingleCrsV, ParseErrorV> {
    match c {
        CrsV::ProjectedCrs(x) => Ok(SingleCrsV::ProjectedCrs(x)),
        CrsV::GeogCrs(x) => Ok(SingleCrsV::GeogCrs(x)),
        CrsV::GeodCrs(x) => Ok(SingleCrsV::GeodCrs(x)),
        CrsV::VertCrs(x) => Ok(SingleCrsV::VertCrs(x)),
        CrsV::CompoundCrs(_) => Err(ParseErrorV::UnsupportedWkt1Node { keyword: "COMPD_CS"@, pos }),
    }
}

/// Keywords of WKT1 constructs the model has no place for.
pub open spec fn is_unsupported_kw(kw: Seq<char>) -> bool {
    kw == "LOCAL_CS"@ || kw == "FITTED_CS"@ || kw == "PARAM_MT"@ || kw == "CONCAT_MT"@
        || kw == "INVERSE_MT"@ || kw == "PASSTHROUGH_MT"@
}

/// Any WKT1 CRS, after optional whitespace.
pub open spec fn sp1_crs(s: Seq<char>, p: int, w: Wkt1TablesV, lossy: bool) -> SRes<CrsV>
    decreases s.len() - p, 2int,
{
    let q = sp_skip_ws(s, p);
    if !(p <= q <= s.len()) {
        Err(ParseErrorV::UnexpectedEnd)
    } else {
        let kw = sp_peek_kw1(s, q);
        if kw == "PROJCS"@ {
            match sp1_projcs(s, q, w, lossy) {
                Err(e) => Err(e),
                Ok((c, q2)) => Ok((CrsV::ProjectedCrs(c), q2)),
            }
        } else if kw == "GEOGCS"@ {
            match sp1_top_geogcs(s, q, w, lossy) {
                Err(e) => Err(e),
                Ok((c, q2)) => Ok((CrsV::GeogCrs(c), q2)),
            }
        } else if kw == "GEOCCS"@ {
            match sp1_geoccs(s, q, w, lossy) {
                Err(e) => Err(e),
                Ok((c, q2)) => Ok((CrsV::GeodCrs(c), q2)),
            }
        } else if kw == "VERT_CS"@ || kw == "VERTCS"@ {
            match sp1_vert_cs(s, q, w, lossy) {
                Err(e) => Err(e),
                Ok((c, q2)) => Ok((CrsV::VertCrs(c), q2)),
            }
        } else if kw == "COMPD_CS"@ {
            match sp1_compd(s, q, w, lossy) {
                Err(e) => Err(e),
                Ok((c, q2)) => Ok((CrsV::CompoundCrs(c), q2)),
            }
        } else if is_unsupported_kw(kw) {
            Err(ParseErrorV::UnsupportedWkt1Node { keyword: kw, pos: q })
        } else {
            Err(ParseErrorV::ExpectedKeyword { pos: q })
        }
    }
}

/// `COMPD_CS["name",CRS,CRS {,AUTHORITY}]`.
pub open spec fn sp1_compd(s: Seq<char>, p: int, w: Wkt1TablesV, lossy: bool) -> SRes<CompoundCrsV>
    decreases s.len() - p, 1int,
{
    match sp_open_kw1(s, p, "COMPD_CS"@) {
        Err(e) => Err(e),
        Ok(q) => match sp_quoted(s, q) {
            Err(e) => Err(e),
            Ok((name, q1)) => if p <= q1 <= s.len() {
                match sp1_compd_items(s, q1, w, lossy, Seq::empty(), Seq::empty()) {
                    Err(e) => Err(e),
                    Ok((st, q2)) => match sp_close(s, q2) {
                        Err(e) => Err(e),
                        Ok(q3) => Ok(
                            (
                                CompoundCrsV {
                                    name,
                                    components: st.0,
                                    usages: Seq::empty(),
                                    identifiers: st.1,
                                    remark: None,
                                },
                                q3,
                            ),
                        ),
                    },
                }
            } else {
                Err(ParseErrorV::UnexpectedEnd)
            },
        },
    }
}

/// The items of a `COMPD_CS` up to its closing bracket: components and
/// `AUTHORITY` nodes.
pub open spec fn sp1_compd_items(
    s: Seq<char>,
    p: int,
    w: Wkt1TablesV,
    lossy: bool,
    comps: Seq<SingleCrsV>,
    ids: Seq<IdentifierV>,
) -> SRes<(Seq<SingleCrsV>, Seq<IdentifierV>)>
    decreases s.len() - p, 0int,
{
    if p < 0 || p > s.len() {
        Err(ParseErrorV::UnexpectedEnd)
    } else if sp_at_close(s, p) {
        Ok(((comps, ids), sp_skip_ws(s, p)))
    } else {
        match sp_item_start(s, p) {
            Err(e) => Err(e),
            Ok(q) => if p < q <= s.len() {
                let step: SRes<(Seq<SingleCrsV>, Seq<IdentifierV>)> = if sp_peek_kw1(s, q)
                    == "AUTHORITY"@ {
                    match sp1_authority(s, q) {
                        Err(e) => Err(e),
                        Ok((id, q2)) => Ok(((comps, ids.push(id)), q2)),
                    }
                } else {
                    match sp1_crs(s, q, w, lossy) {
                        Err(e) => Err(e),
                        Ok((c, q2)) => match into_single_v(c, q) {
                            Err(e) => Err(e),
                            Ok(sc) => Ok(((comps.push(sc), ids), q2)),
                        },
                    }
                };
                match step {
                    Err(e) => Err(e),
                    Ok((st2, q2)) => if p < q2 <= s.len() {
                        sp1_compd_items(s, q2, w, lossy, st2.0, st2.1)
                    } else {
                        Err(ParseErrorV::UnexpectedEnd)
                    },
                }
            } else {
                Err(ParseErrorV::UnexpectedEnd)
            },
        }
    }
}

/// The name of a compound CRS component.
pub open spec fn single_name_v(c: SingleCrsV) -> Seq<char> {
    match c {
        SingleCrsV::ProjectedCrs(x) => x.name,
        SingleCrsV::GeogCrs(x) => x.name,
        SingleCrsV::GeodCrs(x) => x.name,
        SingleCrsV::VertCrs(x) => x.name,
        SingleCrsV::Other(r) => r,
    }
}

/// The names of the components joined with `" + "`.
pub open spec fn joined_names(c: Seq<SingleCrsV>) -> Seq<char>
    decreases c.len(),
{
    if c.len() == 0 {
        Seq::empty()
    } else if c.len() == 1 {
        single_name_v(c[0])
    } else {
        joined_names(c.drop_last()) + " + "@ + single_name_v(c.last())
    }
}

/// The name of an ESRI compound CRS keeps the name of every component, in
/// order: one component gives its own name, and the names of two nonempty
/// runs of components are joined with `" + "` between them.
pub proof fn law_joined_names(a: Seq<SingleCrsV>, b: Seq<SingleCrsV>, x: SingleCrsV)
    requires
        a.len() > 0,
        b.len() > 0,
    ensures
        joined_names(seq![x]) == single_name_v(x),
        joined_names(a + b) == joined_names(a) + " + "@ + joined_names(b),
        joined_names(a + b).len() == joined_names(a).len() + 3 + joined_names(b).len(),
    decreases b.len(),
{
    reveal_strlit(" + ");
    assert(" + "@.len() == 3);
    if b.len() == 1 {
        assert((a + b).drop_last() =~= a);
        assert((a + b).last() == b[0]);
    } else {
        law_joined_names(a, b.drop_last(), x);
        assert((a + b).drop_last() =~= a + b.drop_last());
        assert((a + b).last() == b.last());
        assert(joined_names(a + b) =~= joined_names(a) + " + "@ + joined_names(b));
    }
}

/// The further CRSs of an ESRI compound CRS, each after a comma, at `p`
/// (after whitespace); ends where no comma follows.
pub open spec fn sp1_esri_tail(s: Seq<char>, p: int, w: Wkt1TablesV, lossy: bool, comps: Seq<SingleCrsV>) -> SRes<
    Seq<SingleCrsV>,
>
    decreases s.len() - p,
{
    if p < 0 || p > s.len() {
        Err(ParseErrorV::UnexpectedEnd)
    } else if sp_peek(s, p) != Some(',') {
        Ok((comps, p))
    } else {
        match sp_item_start(s, p) {
            Err(e) => Err(e),
            Ok(q) => match sp1_crs(s, q, w, lossy) {
                Err(e) => Err(e),
                Ok((c, q2)) => match into_single_v(c, p) {
                    Err(e) => Err(e),
                    Ok(sc) => {
                        let q3 = sp_skip_ws(s, q2);
                        if p < q3 <= s.len() {
                            sp1_esri_tail(s, q3, w, lossy, comps.push(sc))
                        } else {
                            Err(ParseErrorV::UnexpectedEnd)
                        }
                    },
                },
            },
        }
    }
}

/// A whole WKT1 text from `p`: one CRS, or ESRI's compound form (a
/// horizontal CRS, then further CRSs after commas, with no `COMPD_CS`
/// around them), then nothing but whitespace. Positions count characters.
pub open spec fn sp1_text(s: Seq<char>, p: int, w: Wkt1TablesV, lossy: bool) -> Result<CrsV, ParseErrorV> {
    let q0 = sp_skip_ws(s, p);
    match sp1_crs(s, q0, w, lossy) {
        Err(e) => Err(e),
        Ok((c, q1)) => {
            let q2 = sp_skip_ws(s, q1);
            if sp_peek(s, q2) == Some(',') {
                match into_single_v(c, q0) {
                    Err(e) => Err(e),
                    Ok(head) => match sp1_esri_tail(s, q2, w, lossy, seq![head]) {
                        Err(e) => Err(e),
                        Ok((comps, q3)) => if sp_peek(s, q3) is Some {
                            Err(ParseErrorV::TrailingInput { pos: q3 })
                        } else {
                            Ok(
                                CrsV::CompoundCrs(
                                    CompoundCrsV {
                                        name: joined_names(comps),
                                        components: comps,
                                        usages: Seq::empty(),
                                        identifiers: Seq::empty(),
                                        remark: None,
                                    },
                                ),
                            )
                        },
                    },
                }
            } else if sp_peek(s, q2) is Some {
                Err(ParseErrorV::TrailingInput { pos: q2 })
            } else {
                Ok(c)
            }
        },
    }
}


proof fn lemma_datum_items_lossy(s: Seq<char>, p: int, ids: Seq<IdentifierV>)
    requires
        sp1_datum_items(s, p, false, ids) is Ok,
    ensures
        sp1_datum_items(s, p, true, ids) == sp1_datum_items(s, p, false, ids),
    decreases s.len() - p,
{
    if 0 <= p <= s.len() && !sp_at_close(s, p) {
        if let Ok(q) = sp_item_start(s, p) {
            if sp_peek_kw1(s, q) == "AUTHORITY"@ {
                if let Ok((id, q2)) = sp1_authority(s, q) {
                    if p < q2 <= s.len() {
                        lemma_datum_items_lossy(s, q2, ids.push(id));
                    }
                }
            }
        }
    }
}

proof fn lemma_datum_lossy(s: Seq<char>, p: int, w: Wkt1TablesV)
    requires
        sp1_datum(s, p, w, false) is Ok,
    ensures
        sp1_datum(s, p, w, true) == sp1_datum(s, p, w, false),
{
    reveal(sp1_datum);
    if let Ok(q) = sp_open_kw1(s, p, "DATUM"@) {
        if let Ok((_, q1)) = sp_quoted(s, q) {
            if let Ok(q2) = sp_ws_char_ws(s, q1, ',') {
                if let Ok((_, q3)) = sp1_spheroid(s, q2, w) {
                    lemma_datum_items_lossy(s, q3, Seq::empty());
                }
            }
        }
    }
}

proof fn lemma_geo_items_lossy(s: Seq<char>, p: int, w: Wkt1TablesV, geocentric: bool, st: GeoItemsV)
    requires
        sp1_geo_items(s, p, w, false, geocentric, st) is Ok,
    ensures
        sp1_geo_items(s, p, w, true, geocentric, st) == sp1_geo_items(s, p, w, false, geocentric, st),
    decreases s.len() - p,
{
    if 0 <= p <= s.len() && !sp_at_close(s, p) {
        if let Ok(q) = sp_item_start(s, p) {
            assert(sp1_geo_item(s, q, w, true, geocentric, st) == sp1_geo_item(s, q, w, false, geocentric, st));
            if let Ok((st2, q2)) = sp1_geo_item(s, q, w, false, geocentric, st) {
                if p < q2 <= s.len() {
                    lemma_geo_items_lossy(s, q2, w, geocentric, st2);
                }
            }
        }
    }
}

proof fn lemma_geogcs_lossy(s: Seq<char>, p: int, w: Wkt1TablesV)
    requires
        sp1_geogcs(s, p, w, false) is Ok,
    ensures
        sp1_geogcs(s, p, w, true) == sp1_geogcs(s, p, w, false),
{
    reveal(sp1_geogcs);
    if let Ok(q) = sp_open_kw1(s, p, "GEOGCS"@) {
        if let Ok((_, q1)) = sp_quoted(s, q) {
            if let Ok(q2) = sp_ws_char_ws(s, q1, ',') {
                lemma_datum_lossy(s, q2, w);
                if let Ok((d, q3)) = sp1_datum(s, q2, w, false) {
                    lemma_geo_items_lossy(s, q3, w, false, geo_items_start(d));
                }
            }
        }
    }
}

proof fn lemma_geoccs_lossy(s: Seq<char>, p: int, w: Wkt1TablesV)
    requires
        sp1_geoccs(s, p, w, false) is Ok,
    ensures
        sp1_geoccs(s, p, w, true) == sp1_geoccs(s, p, w, false),
{
    reveal(sp1_geoccs);
    if let Ok(q) = sp_open_kw1(s, p, "GEOCCS"@) {
        if let Ok((_, q1)) = sp_quoted(s, q) {
            if let Ok(q2) = sp_ws_char_ws(s, q1, ',') {
                lemma_datum_lossy(s, q2, w);
                if let Ok((d, q3)) = sp1_datum(s, q2, w, false) {
                    lemma_geo_items_lossy(s, q3, w, true, geo_items_start(d));
                }
            }
        }
    }
}

proof fn lemma_proj_items_lossy(s: Seq<char>, p: int, w: Wkt1TablesV, st: ProjItemsV)
    requires
        sp1_proj_items(s, p, w, false, st) is Ok,
    ensures
        sp1_proj_items(s, p, w, true, st) == sp1_proj_items(s, p, w, false, st),
    decreases s.len() - p,
{
    if 0 <= p <= s.len() && !sp_at_close(s, p) {
        if let Ok(q) = sp_item_start(s, p) {
            assert(sp1_proj_item(s, q, w, true, st) == sp1_proj_item(s, q, w, false, st));
            if let Ok((st2, q2)) = sp1_proj_item(s, q, w, false, st) {
                if p < q2 <= s.len() {
                    lemma_proj_items_lossy(s, q2, w, st2);
                }
            }
        }
    }
}

proof fn lemma_projcs_lossy(s: Seq<char>, p: int, w: Wkt1TablesV)
    requires
        sp1_projcs(s, p, w, false) is Ok,
    ensures
        sp1_projcs(s, p, w, true) == sp1_projcs(s, p, w, false),
{
    reveal(sp1_projcs);
    if let Ok(q) = sp_open_kw1(s, p, "PROJCS"@) {
        if let Ok((_, q1)) = sp_quoted(s, q) {
            if let Ok(q2) = sp_ws_char_ws(s, q1, ',') {
                lemma_geogcs_lossy(s, q2, w);
                if let Ok((_, q3)) = sp1_geogcs(s, q2, w, false) {
                    lemma_proj_items_lossy(s, q3, w, proj_items_start());
                }
            }
        }
    }
}

proof fn lemma_vert_item_lossy(s: Seq<char>, q: int, w: Wkt1TablesV, st: VertItemsV)
    requires
        sp1_vert_item(s, q, w, false, st) is Ok,
    ensures
        sp1_vert_item(s, q, w, true, st) == sp1_vert_item(s, q, w, false, st),
{
    let kw = sp_peek_kw1(s, q);
    if !is_vert_datum_kw(kw) && kw == "DATUM"@ {
        lemma_datum_lossy(s, q, w);
    }
}

proof fn lemma_vert_items_lossy(s: Seq<char>, p: int, w: Wkt1TablesV, st: VertItemsV)
    requires
        sp1_vert_items(s, p, w, false, st) is Ok,
    ensures
        sp1_vert_items(s, p, w, true, st) == sp1_vert_items(s, p, w, false, st),
    decreases s.len() - p,
{
    if 0 <= p <= s.len() && !sp_at_close(s, p) {
        if let Ok(q) = sp_item_start(s, p) {
            lemma_vert_item_lossy(s, q, w, st);
            if let Ok((st2, q2)) = sp1_vert_item(s, q, w, false, st) {
                if p < q2 <= s.len() {
                    lemma_vert_items_lossy(s, q2, w, st2);
                }
            }
        }
    }
}

proof fn lemma_vert_cs_lossy(s: Seq<char>, p: int, w: Wkt1TablesV)
    requires
        sp1_vert_cs(s, p, w, false) is Ok,
    ensures
        sp1_vert_cs(s, p, w, true) == sp1_vert_cs(s, p, w, false),
{
    reveal(sp1_vert_cs);
    if let Ok(q) = sp_open_kw1(s, p, vert_cs_kw(s, p)) {
        if let Ok((_, q1)) = sp_quoted(s, q) {
            lemma_vert_items_lossy(s, q1, w, vert_items_start());
        }
    }
}

proof fn lemma_crs_lossy(s: Seq<char>, p: int, w: Wkt1TablesV)
    requires
        sp1_crs(s, p, w, false) is Ok,
    ensures
        sp1_crs(s, p, w, true) == sp1_crs(s, p, w, false),
    decreases s.len() - p, 2int,
{
    let q = sp_skip_ws(s, p);
    if p <= q <= s.len() {
        let kw = sp_peek_kw1(s, q);
        if kw == "PROJCS"@ {
            lemma_projcs_lossy(s, q, w);
        } else if kw == "GEOGCS"@ {
            reveal(sp1_top_geogcs);
            lemma_geogcs_lossy(s, q, w);
        } else if kw == "GEOCCS"@ {
            lemma_geoccs_lossy(s, q, w);
        } else if kw == "VERT_CS"@ || kw == "VERTCS"@ {
            lemma_vert_cs_lossy(s, q, w);
        } else if kw == "COMPD_CS"@ {
            lemma_compd_lossy(s, q, w);
        }
    }
}

proof fn lemma_compd_lossy(s: Seq<char>, p: int, w: Wkt1TablesV)
    requires
        sp1_compd(s, p, w, false) is Ok,
    ensures
        sp1_compd(s, p, w, true) == sp1_compd(s, p, w, false),
    decreases s.len() - p, 1int,
{
    if let Ok(q) = sp_open_kw1(s, p, "COMPD_CS"@) {
        if let Ok((_, q1)) = sp_quoted(s, q) {
            if p <= q1 <= s.len() {
                lemma_compd_items_lossy(s, q1, w, Seq::empty(), Seq::empty());
            }
        }
    }
}

proof fn lemma_compd_items_lossy(
    s: Seq<char>,
    p: int,
    w: Wkt1TablesV,
    comps: Seq<SingleCrsV>,
    ids: Seq<IdentifierV>,
)
    requires
        sp1_compd_items(s, p, w, false, comps, ids) is Ok,
    ensures
        sp1_compd_items(s, p, w, true, comps, ids) == sp1_compd_items(s, p, w, false, comps, ids),
    decreases s.len() - p, 0int,
{
    if 0 <= p <= s.len() && !sp_at_close(s, p) {
        if let Ok(q) = sp_item_start(s, p) {
            if p < q <= s.len() {
                if sp_peek_kw1(s, q) == "AUTHORITY"@ {
                    if let Ok((id, q2)) = sp1_authority(s, q) {
                        if p < q2 <= s.len() {
                            lemma_compd_items_lossy(s, q2, w, comps, ids.push(id));
                        }
                    }
                } else {
                    if let Ok((c, q2)) = sp1_crs(s, q, w, false) {
                        lemma_crs_lossy(s, q, w);
                        if let Ok(sc) = into_single_v(c, q) {
                            if p < q2 <= s.len() {
                                lemma_compd_items_lossy(s, q2, w, comps.push(sc), ids);
                            }
                        }
                    }
                }
            }
        }
    }
}

proof fn lemma_esri_tail_lossy(s: Seq<char>, p: int, w: Wkt1TablesV, comps: Seq<SingleCrsV>)
    requires
        sp1_esri_tail(s, p, w, false, comps) is Ok,
    ensures
        sp1_esri_tail(s, p, w, true, comps) == sp1_esri_tail(s, p, w, false, comps),
    decreases s.len() - p,
{
    if 0 <= p <= s.len() && sp_peek(s, p) == Some(',') {
        if let Ok(q) = sp_item_start(s, p) {
            if let Ok((c, q2)) = sp1_crs(s, q, w, false) {
                lemma_crs_lossy(s, q, w);
                if let Ok(sc) = into_single_v(c, p) {
                    let q3 = sp_skip_ws(s, q2);
                    if p < q3 <= s.len() {
                        lemma_esri_tail_lossy(s, q3, w, comps.push(sc));
                    }
                }
            }
        }
    }
}

/// Whatever the strict WKT1 reader accepts, the lossy reader reads to the
/// same CRS: the lossy reader differs only in skipping, instead of refusing,
/// the nodes that the model cannot hold.
pub proof fn law_lossy_accepts_what_strict_accepts(s: Seq<char>, p: int, w: Wkt1TablesV)
    requires
        sp1_text(s, p, w, false) is Ok,
    ensures
        sp1_text(s, p, w, true) == sp1_text(s, p, w, false),
{
    let q0 = sp_skip_ws(s, p);
    lemma_crs_lossy(s, q0, w);
    if let Ok((c, q1)) = sp1_crs(s, q0, w, false) {
        let q2 = sp_skip_ws(s, q1);
        if sp_peek(s, q2) == Some(',') {
            if let Ok(head) = into_single_v(c, q0) {
                lemma_esri_tail_lossy(s, q2, w, seq![head]);
            }
        }
    }
}

} // verus!
