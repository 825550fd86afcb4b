//! WKT1 (GDAL and ESRI dialects) read into the CRS model.
//!
//! Deviations from OGC 01-009, as GDAL and ESRI practise them: `PRIMEM`
//! longitudes are read as degrees whatever the GEOGCS unit, and missing axes
//! are filled in in EPSG order (latitude, longitude; easting, northing).
use vstd::prelude::*;
use crate::crs::{
    AuthorityId, Axis, BaseGeodeticCrs, BaseGeodeticCrsKeyword, CompoundCrs, CoordinateSystem,
    Crs, CsType, Datum, Ellipsoid, GeodCrs, GeodCrsKeyword, GeodeticReferenceFrame, GeogCrs,
    GeogCrsKeyword, Identifier, MapProjection, MapProjectionMethod, MapProjectionParameter,
    GeoidModel, PrimeMeridian, ProjectedCrs, SingleCrs, Unit, UnitKeyword, Usage, VertCrs, VertCrsKeyword,
    VertCrsSource, VerticalDatum, VerticalReferenceFrame, VerticalReferenceFrameKeyword,
};
use crate::crs::DatumKeyword;
use crate::decimal::{Decimal, DecimalV};
use crate::error::ParseError;
use crate::text::{push_str, str_eq, Parser};
use crate::wkt1::esri_alias_data::{
    builtin_units, builtin_units_entries, ellipsoid_aliases, ellipsoid_aliases_entries,
    geodetic_datum_aliases, geodetic_datum_aliases_entries, unit_aliases, unit_aliases_entries,
    vertical_datum_aliases, vertical_datum_aliases_entries,
};
use crate::wkt1::mappings::{
    decimal_of, eq_ignore_ascii_case, input_v, own, resolve_method, MappingTables, MethodContext,
    ResolvedMethod, ResolvedParam, ResolvedParamV, TablesV, UnitType,
};
use crate::wkt1::mappings_data::{
    epsg_method_names, epsg_method_names_v, epsg_param_names, epsg_param_names_v, esri_methods,
    esri_methods_v, gdal_methods, gdal_methods_v, param_unit_types, param_unit_types_v,
};
use crate::wkt1::grammar::{Wkt1TablesV,degree_unit_v,unity_unit_v,epsg_id_v,ids_or_code,axis_v,numbered_v,axes_or_default_v,require_unit_v,sp1_lossy_node,unexpected_v,authority_code_v,sp1_authority,sp1_auth_items,sp1_unit,axis_direction_v,sp1_axis,spheroid_kw,sp1_spheroid,sp1_primem,sp1_datum_items,sp1_datum,sp1_linunit,is_lossy_kw,GeoItemsV,geo_items_start,sp1_geo_item,sp1_geo_items,GeogcsV,sp1_geogcs,is_vertical_v,with_units_v,lat_lon_axes,lat_lon_h_axes,geographic_cs_v,sp1_top_geogcs,geocentric_name,geocentric_direction,geocentric_axes_v,sp1_geoccs,sp1_projection,sp1_parameter,ProjItemsV,proj_items_start,sp1_proj_item,sp1_proj_items,any_south_west_v,east_north_axes,code_ids,param_v,projcs_v,sp1_projcs,vert_datum_kw,is_vert_datum_kw,sp1_vdatum_items,sp1_vert_datum,sp1_vert_parameter,VertItemsV,vert_items_start,vert_parameter_step,sp1_vert_item,sp1_vert_items,vert_cs_kw,vert_axis_v,vert_datum_name_v,sp1_vert_cs,into_single_v,is_unsupported_kw,sp1_crs,sp1_compd,sp1_compd_items,single_name_v,joined_names,sp1_esri_tail,sp1_text};
use crate::model::{ids_v, opt_text, opt_unit, usages_v, AxisV, GeoidModelV, IdentifierV, SingleCrsV, UsageV};
use crate::text::{lemma_kw1_end, sp_peek_kw1, SRes};
use crate::error::ParseErrorV;
use crate::wkt1::names::{table_v, builtins_v, 
    normalize_datum_name, normalize_ellipsoid_name, normalize_geogcs_name, normalize_unit_name,
    AliasTable,
};

verus! {

/// Every table the WKT1 reader consults.
pub struct Wkt1Tables {
    pub mappings: MappingTables,
    pub geodetic_datums: AliasTable,
    pub vertical_datums: AliasTable,
    pub ellipsoids: AliasTable,
    pub units: AliasTable,
    pub builtin_units: Vec<(&'static str, &'static str)>,
}

impl View for Wkt1Tables {
    type V = Wkt1TablesV;

    open spec fn view(&self) -> Wkt1TablesV {
        Wkt1TablesV {
            mappings: self.mappings@,
            geodetic_datums: table_v(self.geodetic_datums@),
            vertical_datums: table_v(self.vertical_datums@),
            ellipsoids: table_v(self.ellipsoids@),
            units: table_v(self.units@),
            builtin_units: builtins_v(self.builtin_units@),
        }
    }
}

/// The content of the tables this library ships.
pub open spec fn shipped_tables_v() -> Wkt1TablesV {
    Wkt1TablesV {
        mappings: TablesV {
            gdal: gdal_methods_v(),
            esri: esri_methods_v(),
            epsg_methods: epsg_method_names_v(),
            epsg_params: epsg_param_names_v(),
            unit_types: param_unit_types_v(),
        },
        geodetic_datums: table_v(geodetic_datum_aliases_entries()),
        vertical_datums: table_v(vertical_datum_aliases_entries()),
        ellipsoids: table_v(ellipsoid_aliases_entries()),
        units: table_v(unit_aliases_entries()),
        builtin_units: builtins_v(builtin_units_entries()),
    }
}

/// The tables this library ships.
pub fn wkt1_tables() -> (r: Wkt1Tables)
    ensures
        r@ == shipped_tables_v(),
{
    Wkt1Tables {
        mappings: MappingTables {
            gdal: gdal_methods(),
            esri: esri_methods(),
            epsg_methods: epsg_method_names(),
            epsg_params: epsg_param_names(),
            unit_types: param_unit_types(),
        },
        geodetic_datums: geodetic_datum_aliases(),
        vertical_datums: vertical_datum_aliases(),
        ellipsoids: ellipsoid_aliases(),
        units: unit_aliases(),
        builtin_units: builtin_units(),
    }
}

/// The parser-state facts every node reader keeps.
pub open spec fn advanced(before: Parser, after: Parser) -> bool {
    &&& after.wf()
    &&& after.s() == before.s()
    &&& before.p() <= after.p()
}

fn copy_text(t: &String) -> (r: String)
    ensures
        r@ == t@,
{
    t.clone()
}

fn copy_opt_text(t: &Option<String>) -> (r: Option<String>)
    ensures
        opt_text(r) == opt_text(*t),
{
    match t {
        Some(x) => Some(copy_text(x)),
        None => None,
    }
}

fn copy_authority_id(a: &AuthorityId) -> (r: AuthorityId)
    ensures
        r@ == a@,
{
    match a {
        AuthorityId::Number(d) => AuthorityId::Number(d.clone()),
        AuthorityId::Text(t) => AuthorityId::Text(copy_text(t)),
    }
}

fn copy_identifier(i: &Identifier) -> (r: Identifier)
    ensures
        r@ == i@,
{
    Identifier {
        authority_name: copy_text(&i.authority_name),
        authority_unique_id: copy_authority_id(&i.authority_unique_id),
        version: match &i.version {
            Some(v) => Some(copy_authority_id(v)),
            None => None,
        },
        citation: copy_opt_text(&i.citation),
        uri: copy_opt_text(&i.uri),
    }
}

fn copy_identifiers(v: &Vec<Identifier>) -> (r: Vec<Identifier>)
    ensures
        ids_v(r) == ids_v(*v),
{
    let mut out: Vec<Identifier> = Vec::new();
    let mut i: usize = 0;
    while i < v.len()
        invariant
            i <= v@.len(),
            out@.len() == i,
            forall|j: int| 0 <= j < i ==> (#[trigger] out@[j])@ == v@[j]@,
        decreases v@.len() - i,
    {
        out.push(copy_identifier(&v[i]));
        i = i + 1;
    }
    assert(ids_v(out) =~= ids_v(*v));
    out
}

fn copy_unit(u: &Unit) -> (r: Unit)
    ensures
        r@ == u@,
{
    Unit {
        keyword: u.keyword,
        name: copy_text(&u.name),
        conversion_factor: match &u.conversion_factor {
            Some(d) => Some(d.clone()),
            None => None,
        },
        identifiers: copy_identifiers(&u.identifiers),
    }
}

/// The degree, with the conversion factor EPSG gives it.
fn degree_unit() -> (r: Unit)
    ensures
        r@ == degree_unit_v(),
{
    let identifiers: Vec<Identifier> = Vec::new();
    assert(ids_v(identifiers) =~= Seq::<IdentifierV>::empty());
    Unit {
        keyword: UnitKeyword::AngleUnit,
        name: own("degree"),
        conversion_factor: Some(Decimal::from_scaled(174532925199433, -16)),
        identifiers,
    }
}

/// The unity scale unit.
fn scale_unity_unit() -> (r: Unit)
    ensures
        r@ == unity_unit_v(),
{
    let identifiers: Vec<Identifier> = Vec::new();
    assert(ids_v(identifiers) =~= Seq::<IdentifierV>::empty());
    Unit {
        keyword: UnitKeyword::ScaleUnit,
        name: own("unity"),
        conversion_factor: Some(Decimal::from_i32(1)),
        identifiers,
    }
}

/// `ID["EPSG", code]`.
fn epsg_identifier(code: i32) -> (r: Identifier)
    ensures
        r@ == epsg_id_v(code),
{
    Identifier {
        authority_name: own("EPSG"),
        authority_unique_id: AuthorityId::Number(Decimal::from_i32(code)),
        version: None,
        citation: None,
        uri: None,
    }
}

fn make_axis(name: &str, direction: &str, order: Option<u32>) -> (r: Axis)
    ensures
        r@ == axis_v(name@, direction@, order),
{
    let identifiers: Vec<Identifier> = Vec::new();
    assert(ids_v(identifiers) =~= Seq::<IdentifierV>::empty());
    Axis {
        name_abbrev: own(name),
        direction: own(direction),
        meridian: None,
        bearing: None,
        order,
        unit: None,
        axis_min_value: None,
        axis_max_value: None,
        range_meaning: None,
        identifiers,
    }
}

/// Number the axes from 1 in their order.
fn numbered(axes: Vec<Axis>) -> (r: Vec<Axis>)
    ensures
        r@.map_values(|a: Axis| a@) == numbered_v(axes@.map_values(|a: Axis| a@)),
{
    let ghost orig = axes@.map_values(|a: Axis| a@);
    let mut out: Vec<Axis> = Vec::new();
    let mut axes = axes;
    let n = axes.len();
    while axes.len() > 0
        invariant
            out@.len() + axes@.len() == n,
            n == orig.len(),
            forall|i: int| 0 <= i < axes@.len() ==> (#[trigger] axes@[i])@ == orig[out@.len() + i],
            forall|i: int| 0 <= i < out@.len() ==> (#[trigger] out@[i])@ == numbered_v(orig)[i],
        decreases axes@.len(),
    {
        let ghost before = axes@;
        let mut a = axes.remove(0);
        let k = out.len();
        assert(k < n);
        assert(a@ == orig[k as int]) by {
            assert(before[0] == a);
        }
        assert forall|i: int| 0 <= i < axes@.len() implies (#[trigger] axes@[i])@ == orig[out@.len() + 1 + i] by {
            assert(axes@[i] == before[i + 1]);
        }
        a.order = Some((k + 1) as u32);
        out.push(a);
    }
    assert(out@.map_values(|a: Axis| a@) =~= numbered_v(orig));
    out
}

/// The explicit axes numbered, or the defaults when there are none; any
/// other count than two is refused.
fn axes_or_default(axes: Vec<Axis>, defaults: Vec<Axis>, pos: usize) -> (r: Result<Vec<Axis>, ParseError>)
    ensures
        match axes_or_default_v(axes@.map_values(|a: Axis| a@), defaults@.map_values(|a: Axis| a@), pos as int) {
            Ok(v) => r matches Ok(x) && x@.map_values(|a: Axis| a@) == v,
            Err(e) => r matches Err(x) && x@ == e,
        },
{
    if axes.len() == 0 {
        Ok(numbered(defaults))
    } else if axes.len() == 2 {
        Ok(numbered(axes))
    } else {
        Err(ParseError::UnsupportedWkt1Node { keyword: own("AXIS"), pos })
    }
}

fn require_unit(unit: Option<Unit>, parent: &str, pos: usize) -> (r: Result<Unit, ParseError>)
    ensures
        match require_unit_v(opt_unit(unit), parent@, pos as int) {
            Ok(v) => r matches Ok(x) && x@ == v,
            Err(e) => r matches Err(x) && x@ == e,
        },
{
    match unit {
        Some(u) => Ok(u),
        None => Err(ParseError::MissingWkt1Node { keyword: own("UNIT"), parent: own(parent), pos }),
    }
}

/// The EPSG code a name lookup found, as the only identifier when none were read.
fn add_code_if_none(ids: &mut Vec<Identifier>, code: Option<i32>)
    ensures
        ids_v(*final(ids)) == ids_or_code(ids_v(*old(ids)), code),
{
    if ids.len() == 0 {
        if let Some(c) = code {
            ids.push(epsg_identifier(c));
            assert(ids_v(*ids) =~= seq![epsg_id_v(c)]);
        }
    }
}

/// Skip a node in lossy mode; refuse it in strict mode.
fn lossy_node(p: &mut Parser, lossy: bool, keyword: &str) -> (r: Result<(), ParseError>)
    requires
        old(p).wf(),
    ensures
        advanced(*old(p), *final(p)),
        match sp1_lossy_node(old(p).s(), old(p).p(), lossy, keyword@) {
            Ok(q) => r is Ok && final(p).p() == q,
            Err(e) => r matches Err(x) && x@ == e,
        },
        !lossy ==> r is Err && final(p).p() == old(p).p(),
{
    if lossy {
        p.skip_node1()
    } else {
        Err(ParseError::LossyWkt1Node { keyword: own(keyword), pos: p.pos() })
    }
}

fn unexpected_here(p: &Parser) -> (r: ParseError)
    requires
        p.wf(),
    ensures
        r@ == unexpected_v(p.s(), p.p()),
{
    ParseError::UnexpectedKeyword { keyword: p.peek_kw1_text(), pos: p.pos() }
}

/// `AUTHORITY["name","code"]`; the code is a number when the whole text reads as one.
fn parse_authority(p: &mut Parser) -> (r: Result<Identifier, ParseError>)
    requires
        old(p).wf(),
    ensures
        advanced(*old(p), *final(p)),
        match sp1_authority(old(p).s(), old(p).p()) {
            Ok((v, q)) => r matches Ok(x) && x@ == v && final(p).p() == q,
            Err(e) => r matches Err(x) && x@ == e,
        },
{
    p.open_kw1("AUTHORITY")?;
    let authority_name = p.parse_quoted_string()?;
    p.ws_char_ws(',')?;
    let code = p.parse_quoted_string()?;
    p.close()?;
    let authority_unique_id = match decimal_of(code.as_str()) {
        Some(n) => AuthorityId::Number(n),
        None => AuthorityId::Text(code),
    };
    Ok(Identifier { authority_name, authority_unique_id, version: None, citation: None, uri: None })
}

/// Trailing `AUTHORITY[...]` nodes, the only trailing nodes WKT1 allows on leaves.
#[verifier::loop_isolation(false)]
fn trailing_authorities(p: &mut Parser) -> (r: Result<Vec<Identifier>, ParseError>)
    requires
        old(p).wf(),
    ensures
        advanced(*old(p), *final(p)),
        match sp1_auth_items(old(p).s(), old(p).p(), Seq::empty()) {
            Ok((v, q)) => r matches Ok(x) && ids_v(x) == v && final(p).p() == q,
            Err(e) => r matches Err(x) && x@ == e,
        },
{
    let ghost s = p.s();
    let ghost p0 = p.p();
    let mut identifiers: Vec<Identifier> = Vec::new();
    assert(ids_v(identifiers) =~= Seq::<IdentifierV>::empty());
    loop
        invariant
            p.wf(),
            p.s() == s,
            s == old(p).s(),
            p0 == old(p).p(),
            old(p).p() <= p.p(),
            sp1_auth_items(s, p0, Seq::empty()) == sp1_auth_items(s, p.p(), ids_v(identifiers)),
        decreases s.len() - p.p(),
    {
        if p.at_close() {
            p.skip_whitespace();
            break;
        }
        p.item_start()?;
        if p.peek_kw1_is("AUTHORITY") {
            let id = parse_authority(p)?;
            let ghost before = ids_v(identifiers);
            identifiers.push(id);
            assert(ids_v(identifiers) =~= before.push(id@));
        } else {
            return Err(unexpected_here(p));
        }
    }
    Ok(identifiers)
}

/// `UNIT["name",factor {,AUTHORITY}]`: the name normalized, the factor as written.
fn parse_unit(p: &mut Parser, t: &Wkt1Tables, keyword: UnitKeyword) -> (r: Result<Unit, ParseError>)
    requires
        old(p).wf(),
    ensures
        advanced(*old(p), *final(p)),
        match sp1_unit(old(p).s(), old(p).p(), t@, keyword) {
            Ok((v, q)) => r matches Ok(x) && x@ == v && final(p).p() == q,
            Err(e) => r matches Err(x) && x@ == e,
        },
{
    p.open_kw1("UNIT")?;
    let name = p.parse_quoted_string()?;
    p.ws_char_ws(',')?;
    let factor = p.parse_number()?;
    let identifiers = trailing_authorities(p)?;
    p.close()?;
    Ok(
        Unit {
            keyword,
            name: normalize_unit_name(&t.units, &t.builtin_units, name.as_str()),
            conversion_factor: Some(factor),
            identifiers,
        },
    )
}

/// The WKT2 direction of a WKT1 axis direction keyword.
fn axis_direction(d: &str) -> (r: &'static str)
    ensures
        r@ == axis_direction_v(d@),
{
    if eq_ignore_ascii_case(d, "NORTH") {
        "north"
    } else if eq_ignore_ascii_case(d, "SOUTH") {
        "south"
    } else if eq_ignore_ascii_case(d, "EAST") {
        "east"
    } else if eq_ignore_ascii_case(d, "WEST") {
        "west"
    } else if eq_ignore_ascii_case(d, "UP") {
        "up"
    } else if eq_ignore_ascii_case(d, "DOWN") {
        "down"
    } else {
        "unspecified"
    }
}

/// `AXIS["name",DIRECTION]`.
fn parse_axis(p: &mut Parser) -> (r: Result<Axis, ParseError>)
    requires
        old(p).wf(),
    ensures
        advanced(*old(p), *final(p)),
        match sp1_axis(old(p).s(), old(p).p()) {
            Ok((v, q)) => r matches Ok(x) && x@ == v && final(p).p() == q,
            Err(e) => r matches Err(x) && x@ == e,
        },
{
    p.open_kw1("AXIS")?;
    let name = p.parse_quoted_string()?;
    p.ws_char_ws(',')?;
    let direction = p.parse_identifier()?;
    p.close()?;
    Ok(make_axis(name.as_str(), axis_direction(direction.as_str()), None))
}

/// `SPHEROID|ELLIPSOID["name",a,rf {,AUTHORITY}]`.
fn parse_spheroid(p: &mut Parser, t: &Wkt1Tables) -> (r: Result<Ellipsoid, ParseError>)
    requires
        old(p).wf(),
    ensures
        advanced(*old(p), *final(p)),
        match sp1_spheroid(old(p).s(), old(p).p(), t@) {
            Ok((v, q)) => r matches Ok(x) && x@ == v && final(p).p() == q,
            Err(e) => r matches Err(x) && x@ == e,
        },
{
    proof {
        reveal(sp1_spheroid);
    }
    if p.peek_kw1_is("SPHEROID") {
        p.open_kw1("SPHEROID")?;
    } else {
        p.open_kw1("ELLIPSOID")?;
    }
    let raw_name = p.parse_quoted_string()?;
    p.ws_char_ws(',')?;
    let semi_major_axis = p.parse_number()?;
    p.ws_char_ws(',')?;
    let inverse_flattening = p.parse_number()?;
    let mut identifiers = trailing_authorities(p)?;
    p.close()?;
    let (name, code) = normalize_ellipsoid_name(&t.ellipsoids, raw_name.as_str());
    add_code_if_none(&mut identifiers, code);
    Ok(Ellipsoid { name, semi_major_axis, inverse_flattening, unit: None, identifiers })
}

/// `PRIMEM["name",longitude {,AUTHORITY}]`; the longitude is in degrees.
fn parse_primem(p: &mut Parser) -> (r: Result<PrimeMeridian, ParseError>)
    requires
        old(p).wf(),
    ensures
        advanced(*old(p), *final(p)),
        match sp1_primem(old(p).s(), old(p).p()) {
            Ok((v, q)) => r matches Ok(x) && x@ == v && final(p).p() == q,
            Err(e) => r matches Err(x) && x@ == e,
        },
{
    p.open_kw1("PRIMEM")?;
    let name = p.parse_quoted_string()?;
    p.ws_char_ws(',')?;
    let irm_longitude = p.parse_number()?;
    let identifiers = trailing_authorities(p)?;
    p.close()?;
    Ok(PrimeMeridian { name, irm_longitude, unit: Some(degree_unit()), identifiers })
}

/// `DATUM["name",SPHEROID[...] {,TOWGS84[...]} {,AUTHORITY}]`.
#[verifier::loop_isolation(false)]
fn parse_datum(p: &mut Parser, t: &Wkt1Tables, lossy: bool) -> (r: Result<GeodeticReferenceFrame, ParseError>)
    requires
        old(p).wf(),
    ensures
        advanced(*old(p), *final(p)),
        match sp1_datum(old(p).s(), old(p).p(), t@, lossy) {
            Ok((v, q)) => r matches Ok(x) && x@ == v && final(p).p() == q,
            Err(e) => r matches Err(x) && x@ == e,
        },
{
    proof {
        reveal(sp1_datum);
    }
    p.open_kw1("DATUM")?;
    let raw_name = p.parse_quoted_string()?;
    p.ws_char_ws(',')?;
    let ellipsoid = parse_spheroid(p, t)?;
    let ghost s = p.s();
    let ghost p0 = p.p();
    let mut identifiers: Vec<Identifier> = Vec::new();
    assert(ids_v(identifiers) =~= Seq::<IdentifierV>::empty());
    loop
        invariant
            p.wf(),
            p.s() == s,
            s == old(p).s(),
            old(p).p() <= p0 <= p.p(),
            sp1_datum_items(s, p0, lossy, Seq::empty()) == sp1_datum_items(s, p.p(), lossy, ids_v(identifiers)),
        decreases s.len() - p.p(),
    {
        if p.at_close() {
            p.skip_whitespace();
            break;
        }
        p.item_start()?;
        if p.peek_kw1_is("AUTHORITY") {
            let id = parse_authority(p)?;
            let ghost before = ids_v(identifiers);
            identifiers.push(id);
            assert(ids_v(identifiers) =~= before.push(id@));
        } else if p.peek_kw1_is("TOWGS84") {
            lossy_node(p, lossy, "TOWGS84")?;
        } else {
            return Err(unexpected_here(p));
        }
    }
    p.close()?;
    let (name, code) = normalize_datum_name(&t.geodetic_datums, raw_name.as_str());
    add_code_if_none(&mut identifiers, code);
    Ok(
        GeodeticReferenceFrame {
            keyword: DatumKeyword::Datum,
            name,
            ellipsoid,
            anchor: None,
            anchor_epoch: None,
            identifiers,
            prime_meridian: None,
        },
    )
}

/// Whether the keyword at the current position names a node that only the
/// lossy reader may skip.
fn peek_lossy_kw(p: &Parser) -> (r: bool)
    requires
        p.wf(),
    ensures
        r == is_lossy_kw(sp_peek_kw1(p.s(), p.p())),
{
    p.peek_kw1_is("TOWGS84") || p.peek_kw1_is("EXTENSION") || p.peek_kw1_is("METADATA")
}

/// `LINUNIT["name",factor]`.
fn parse_linunit(p: &mut Parser, t: &Wkt1Tables) -> (r: Result<Unit, ParseError>)
    requires
        old(p).wf(),
    ensures
        advanced(*old(p), *final(p)),
        match sp1_linunit(old(p).s(), old(p).p(), t@) {
            Ok((v, q)) => r matches Ok(x) && x@ == v && final(p).p() == q,
            Err(e) => r matches Err(x) && x@ == e,
        },
{
    p.open_kw1("LINUNIT")?;
    let name = p.parse_quoted_string()?;
    p.ws_char_ws(',')?;
    let factor = p.parse_number()?;
    p.close()?;
    let identifiers: Vec<Identifier> = Vec::new();
    assert(ids_v(identifiers) =~= Seq::<IdentifierV>::empty());
    Ok(
        Unit {
            keyword: UnitKeyword::LengthUnit,
            name: normalize_unit_name(&t.units, &t.builtin_units, name.as_str()),
            conversion_factor: Some(factor),
            identifiers,
        },
    )
}

/// The contents of a `GEOGCS[...]` node.
struct Geogcs {
    name: String,
    datum: GeodeticReferenceFrame,
    angle_unit: Option<Unit>,
    /// ESRI `LINUNIT`: present only for a geographic 3D CRS, the unit of its
    /// ellipsoidal height axis.
    linear_unit: Option<Unit>,
    axes: Vec<Axis>,
    identifiers: Vec<Identifier>,
}

impl View for Geogcs {
    type V = GeogcsV;

    closed spec fn view(&self) -> GeogcsV {
        GeogcsV {
            name: self.name@,
            datum: self.datum@,
            angle_unit: opt_unit(self.angle_unit),
            linear_unit: opt_unit(self.linear_unit),
            axes: self.axes@.map_values(|a: Axis| a@),
            identifiers: ids_v(self.identifiers),
        }
    }
}

/// What the trailing items of a `GEOGCS` or `GEOCCS` have set so far.
struct GeoItems {
    datum: GeodeticReferenceFrame,
    unit: Option<Unit>,
    linear_unit: Option<Unit>,
    axes: Vec<Axis>,
    identifiers: Vec<Identifier>,
}

impl View for GeoItems {
    type V = GeoItemsV;

    closed spec fn view(&self) -> GeoItemsV {
        GeoItemsV {
            datum: self.datum@,
            unit: opt_unit(self.unit),
            linear_unit: opt_unit(self.linear_unit),
            axes: self.axes@.map_values(|a: Axis| a@),
            identifiers: ids_v(self.identifiers),
        }
    }
}

/// One trailing item of a `GEOGCS` or a `GEOCCS`, at the keyword.
fn parse_geo_item(
    p: &mut Parser,
    t: &Wkt1Tables,
    lossy: bool,
    geocentric: bool,
    st: &mut GeoItems,
) -> (r: Result<(), ParseError>)
    requires
        old(p).wf(),
    ensures
        advanced(*old(p), *final(p)),
        match sp1_geo_item(old(p).s(), old(p).p(), t@, lossy, geocentric, old(st)@) {
            Ok((v, q)) => r is Ok && final(st)@ == v && final(p).p() == q,
            Err(e) => r matches Err(x) && x@ == e,
        },
{
    if p.peek_kw1_is("PRIMEM") {
        let pm = parse_primem(p)?;
        st.datum.prime_meridian = Some(pm);
    } else if p.peek_kw1_is("UNIT") {
        let k = if geocentric {
            UnitKeyword::LengthUnit
        } else {
            UnitKeyword::AngleUnit
        };
        let u = parse_unit(p, t, k)?;
        st.unit = Some(u);
    } else if p.peek_kw1_is("LINUNIT") && !geocentric {
        let u = parse_linunit(p, t)?;
        st.linear_unit = Some(u);
    } else if p.peek_kw1_is("AXIS") {
        let a = parse_axis(p)?;
        let ghost before = st.axes@.map_values(|a: Axis| a@);
        st.axes.push(a);
        assert(st.axes@.map_values(|a: Axis| a@) =~= before.push(a@));
    } else if p.peek_kw1_is("AUTHORITY") {
        let id = parse_authority(p)?;
        let ghost before = ids_v(st.identifiers);
        st.identifiers.push(id);
        assert(ids_v(st.identifiers) =~= before.push(id@));
    } else if peek_lossy_kw(p) {
        let kw = p.peek_kw1_text();
        lossy_node(p, lossy, kw.as_str())?;
    } else {
        return Err(unexpected_here(p));
    }
    Ok(())
}

/// The trailing items of a `GEOGCS` or a `GEOCCS` up to its closing bracket.
#[verifier::loop_isolation(false)]
fn parse_geo_items(
    p: &mut Parser,
    t: &Wkt1Tables,
    lossy: bool,
    geocentric: bool,
    datum: GeodeticReferenceFrame,
) -> (r: Result<GeoItems, ParseError>)
    requires
        old(p).wf(),
    ensures
        advanced(*old(p), *final(p)),
        match sp1_geo_items(old(p).s(), old(p).p(), t@, lossy, geocentric, geo_items_start(datum@)) {
            Ok((v, q)) => r matches Ok(x) && x@ == v && final(p).p() == q,
            Err(e) => r matches Err(x) && x@ == e,
        },
{
    let ghost s = p.s();
    let ghost p0 = p.p();
    let mut st = GeoItems {
        datum,
        unit: None,
        linear_unit: None,
        axes: Vec::new(),
        identifiers: Vec::new(),
    };
    assert(st@ == geo_items_start(datum@)) by {
        assert(st.axes@.map_values(|a: Axis| a@) =~= Seq::<AxisV>::empty());
        assert(ids_v(st.identifiers) =~= Seq::<IdentifierV>::empty());
    }
    loop
        invariant
            p.wf(),
            p.s() == s,
            s == old(p).s(),
            old(p).p() <= p0 <= p.p(),
            sp1_geo_items(s, p0, t@, lossy, geocentric, geo_items_start(datum@)) == sp1_geo_items(
                s,
                p.p(),
                t@,
                lossy,
                geocentric,
                st@,
            ),
        decreases s.len() - p.p(),
    {
        if p.at_close() {
            p.skip_whitespace();
            break;
        }
        p.item_start()?;
        parse_geo_item(p, t, lossy, geocentric, &mut st)?;
    }
    Ok(st)
}

fn parse_geogcs(p: &mut Parser, t: &Wkt1Tables, lossy: bool) -> (r: Result<Geogcs, ParseError>)
    requires
        old(p).wf(),
    ensures
        advanced(*old(p), *final(p)),
        match sp1_geogcs(old(p).s(), old(p).p(), t@, lossy) {
            Ok((v, q)) => r matches Ok(x) && x@ == v && final(p).p() == q,
            Err(e) => r matches Err(x) && x@ == e,
        },
{
    proof {
        reveal(sp1_geogcs);
    }
    p.open_kw1("GEOGCS")?;
    let raw_name = p.parse_quoted_string()?;
    p.ws_char_ws(',')?;
    let datum = parse_datum(p, t, lossy)?;
    let st = parse_geo_items(p, t, lossy, false, datum)?;
    p.close()?;
    Ok(
        Geogcs {
            name: normalize_geogcs_name(raw_name.as_str()),
            datum: st.datum,
            angle_unit: st.unit,
            linear_unit: st.linear_unit,
            axes: st.axes,
            identifiers: st.identifiers,
        },
    )
}

fn is_vertical_direction(d: &String) -> (r: bool)
    ensures
        r == is_vertical_v(d@),
{
    str_eq(d.as_str(), "up") || str_eq(d.as_str(), "down")
}

/// The axes, each with its unit: the height unit on a vertical axis, the
/// angle unit on the others.
fn with_units(axes: Vec<Axis>, angle: &Unit, height: &Unit) -> (r: Vec<Axis>)
    ensures
        r@.map_values(|a: Axis| a@) == with_units_v(axes@.map_values(|a: Axis| a@), angle@, height@),
{
    let ghost orig = axes@.map_values(|a: Axis| a@);
    let ghost target = with_units_v(orig, angle@, height@);
    let mut out: Vec<Axis> = Vec::new();
    let mut axes = axes;
    let n = axes.len();
    while axes.len() > 0
        invariant
            out@.len() + axes@.len() == n,
            n == orig.len(),
            target == with_units_v(orig, angle@, height@),
            forall|i: int| 0 <= i < axes@.len() ==> (#[trigger] axes@[i])@ == orig[out@.len() + i],
            forall|i: int| 0 <= i < out@.len() ==> (#[trigger] out@[i])@ == target[i],
        decreases axes@.len(),
    {
        let ghost before = axes@;
        let mut a = axes.remove(0);
        let k = out.len();
        assert(a@ == orig[k as int]) by {
            assert(before[0] == a);
        }
        assert forall|i: int| 0 <= i < axes@.len() implies (#[trigger] axes@[i])@ == orig[out@.len() + 1 + i] by {
            assert(axes@[i] == before[i + 1]);
        }
        let u = if is_vertical_direction(&a.direction) {
            copy_unit(height)
        } else {
            copy_unit(angle)
        };
        a.unit = Some(u);
        out.push(a);
    }
    assert(out@.map_values(|a: Axis| a@) =~= target);
    out
}

/// The coordinate system of a geographic CRS read from a `GEOGCS` at `pos`.
fn geographic_cs(angle_unit: Option<Unit>, linear_unit: Option<Unit>, axes: Vec<Axis>, pos: usize) -> (r: Result<
    CoordinateSystem,
    ParseError,
>)
    ensures
        match geographic_cs_v(opt_unit(angle_unit), opt_unit(linear_unit), axes@.map_values(|a: Axis| a@), pos as int) {
            Ok(v) => r matches Ok(x) && x@ == v,
            Err(e) => r matches Err(x) && x@ == e,
        },
{
    let au = require_unit(angle_unit, "GEOGCS", pos)?;
    let identifiers: Vec<Identifier> = Vec::new();
    assert(ids_v(identifiers) =~= Seq::<IdentifierV>::empty());
    // An ESRI LINUNIT marks a geographic 3D CRS: the height axis carries
    // LINUNIT and the angular axes carry UNIT, each on the axis itself.
    if let Some(lu) = linear_unit {
        let axes = if axes.len() == 0 {
            let v = vec![
                make_axis("Latitude (lat)", "north", None),
                make_axis("Longitude (lon)", "east", None),
                make_axis("Ellipsoidal height (h)", "up", None),
            ];
            assert(v@.map_values(|a: Axis| a@) =~= lat_lon_h_axes());
            v
        } else if axes.len() == 3 {
            axes
        } else {
            return Err(ParseError::UnsupportedWkt1Node { keyword: own("AXIS"), pos });
        };
        let numbered_axes = numbered(axes);
        let out = with_units(numbered_axes, &au, &lu);
        return Ok(
            CoordinateSystem {
                cs_type: CsType::Ellipsoidal,
                dimension: 3,
                identifiers,
                axes: out,
                cs_unit: None,
            },
        );
    }
    let defaults = vec![make_axis("Latitude (lat)", "north", None), make_axis("Longitude (lon)", "east", None)];
    assert(defaults@.map_values(|a: Axis| a@) =~= lat_lon_axes());
    let axes = axes_or_default(axes, defaults, pos)?;
    Ok(
        CoordinateSystem {
            cs_type: CsType::Ellipsoidal,
            dimension: 2,
            identifiers,
            axes,
            cs_unit: Some(au),
        },
    )
}

fn parse_top_level_geogcs(p: &mut Parser, t: &Wkt1Tables, lossy: bool) -> (r: Result<GeogCrs, ParseError>)
    requires
        old(p).wf(),
    ensures
        advanced(*old(p), *final(p)),
        match sp1_top_geogcs(old(p).s(), old(p).p(), t@, lossy) {
            Ok((v, q)) => r matches Ok(x) && x@ == v && final(p).p() == q,
            Err(e) => r matches Err(x) && x@ == e,
        },
{
    proof {
        reveal(sp1_top_geogcs);
    }
    let pos = p.pos();
    let g = parse_geogcs(p, t, lossy)?;
    let Geogcs { name, datum, angle_unit, linear_unit, axes, identifiers } = g;
    let coordinate_system = geographic_cs(angle_unit, linear_unit, axes, pos)?;
    let usages: Vec<Usage> = Vec::new();
    assert(usages_v(usages) =~= Seq::<UsageV>::empty());
    Ok(
        GeogCrs {
            keyword: GeogCrsKeyword::GeogCrs,
            name,
            dynamic: None,
            datum: Datum::ReferenceFrame(datum),
            coordinate_system,
            usages,
            identifiers,
            remark: None,
        },
    )
}

fn geocentric_name_text(i: usize) -> (r: &'static str)
    ensures
        r@ == geocentric_name(i as int),
{
    if i == 0 {
        "Geocentric X (X)"
    } else if i == 1 {
        "Geocentric Y (Y)"
    } else {
        "Geocentric Z (Z)"
    }
}

fn geocentric_direction_text(i: usize) -> (r: &'static str)
    ensures
        r@ == geocentric_direction(i as int),
{
    if i == 0 {
        "geocentricX"
    } else if i == 1 {
        "geocentricY"
    } else {
        "geocentricZ"
    }
}

/// The three geocentric axes.
fn geocentric_axes(axes: &Vec<Axis>) -> (r: Vec<Axis>)
    ensures
        r@.map_values(|a: Axis| a@) == geocentric_axes_v(axes@.map_values(|a: Axis| a@)),
{
    let ghost target = geocentric_axes_v(axes@.map_values(|a: Axis| a@));
    let mut out: Vec<Axis> = Vec::new();
    let mut i: usize = 0;
    while i < 3
        invariant
            i <= 3,
            out@.len() == i,
            target == geocentric_axes_v(axes@.map_values(|a: Axis| a@)),
            forall|j: int| 0 <= j < i ==> (#[trigger] out@[j])@ == target[j],
        decreases 3 - i,
    {
        let a = if i < axes.len() {
            make_axis(axes[i].name_abbrev.as_str(), geocentric_direction_text(i), Some((i + 1) as u32))
        } else {
            make_axis(geocentric_name_text(i), geocentric_direction_text(i), Some((i + 1) as u32))
        };
        out.push(a);
        i = i + 1;
    }
    assert(out@.map_values(|a: Axis| a@) =~= target);
    out
}

/// `GEOCCS[...]`. OGC 01-009 got the geocentric axis directions wrong (X and
/// Y are written `OTHER`), so the directions come from the axis position.
fn parse_geoccs(p: &mut Parser, t: &Wkt1Tables, lossy: bool) -> (r: Result<GeodCrs, ParseError>)
    requires
        old(p).wf(),
    ensures
        advanced(*old(p), *final(p)),
        match sp1_geoccs(old(p).s(), old(p).p(), t@, lossy) {
            Ok((v, q)) => r matches Ok(x) && x@ == v && final(p).p() == q,
            Err(e) => r matches Err(x) && x@ == e,
        },
{
    proof {
        reveal(sp1_geoccs);
    }
    let start = p.pos();
    p.open_kw1("GEOCCS")?;
    let name = p.parse_quoted_string()?;
    p.ws_char_ws(',')?;
    let datum = parse_datum(p, t, lossy)?;
    let st = parse_geo_items(p, t, lossy, true, datum)?;
    let GeoItems { datum, unit, linear_unit: _, axes, identifiers } = st;
    if axes.len() != 0 && axes.len() != 3 {
        return Err(ParseError::UnsupportedWkt1Node { keyword: own("AXIS"), pos: start });
    }
    let out = geocentric_axes(&axes);
    let cs_unit = require_unit(unit, "GEOCCS", start)?;
    p.close()?;
    let cs_identifiers: Vec<Identifier> = Vec::new();
    assert(ids_v(cs_identifiers) =~= Seq::<IdentifierV>::empty());
    let usages: Vec<Usage> = Vec::new();
    assert(usages_v(usages) =~= Seq::<UsageV>::empty());
    Ok(
        GeodCrs {
            keyword: GeodCrsKeyword::GeodCrs,
            name,
            dynamic: None,
            datum: Datum::ReferenceFrame(datum),
            coordinate_system: CoordinateSystem {
                cs_type: CsType::Cartesian,
                dimension: 3,
                identifiers: cs_identifiers,
                axes: out,
                cs_unit: Some(cs_unit),
            },
            usages,
            identifiers,
            remark: None,
        },
    )
}

/// `PROJECTION["name" {,AUTHORITY}]`; an authority is discarded, as the
/// method tables, not the string, say which method it is.
fn parse_projection(p: &mut Parser) -> (r: Result<String, ParseError>)
    requires
        old(p).wf(),
    ensures
        advanced(*old(p), *final(p)),
        match sp1_projection(old(p).s(), old(p).p()) {
            Ok((v, q)) => r matches Ok(x) && x@ == v && final(p).p() == q,
            Err(e) => r matches Err(x) && x@ == e,
        },
{
    p.open_kw1("PROJECTION")?;
    let name = p.parse_quoted_string()?;
    trailing_authorities(p)?;
    p.close()?;
    Ok(name)
}

/// `PARAMETER["name",value {,AUTHORITY}]`.
fn parse_parameter(p: &mut Parser) -> (r: Result<(String, Decimal), ParseError>)
    requires
        old(p).wf(),
    ensures
        advanced(*old(p), *final(p)),
        match sp1_parameter(old(p).s(), old(p).p()) {
            Ok((v, q)) => r matches Ok(x) && x.0@ == v.0 && x.1@ == v.1 && final(p).p() == q,
            Err(e) => r matches Err(x) && x@ == e,
        },
{
    p.open_kw1("PARAMETER")?;
    let name = p.parse_quoted_string()?;
    p.ws_char_ws(',')?;
    let value = p.parse_number()?;
    trailing_authorities(p)?;
    p.close()?;
    Ok((name, value))
}

fn any_south_west(axes: &Vec<Axis>) -> (r: bool)
    ensures
        r == any_south_west_v(axes@.map_values(|a: Axis| a@)),
{
    let ghost v = axes@.map_values(|a: Axis| a@);
    let mut i: usize = 0;
    while i < axes.len()
        invariant
            i <= axes@.len(),
            v == axes@.map_values(|a: Axis| a@),
            forall|j: int| 0 <= j < i ==> !(v[j].direction == "south"@ || v[j].direction == "west"@),
        decreases axes@.len() - i,
    {
        if str_eq(axes[i].direction.as_str(), "south") || str_eq(axes[i].direction.as_str(), "west") {
            assert(v[i as int].direction == axes@[i as int].direction@);
            return true;
        }
        i = i + 1;
    }
    false
}

/// What the trailing items of a `PROJCS` have set so far.
struct ProjItems {
    projection: Option<String>,
    params: Vec<(String, Decimal)>,
    unit: Option<Unit>,
    axes: Vec<Axis>,
    identifiers: Vec<Identifier>,
}

impl View for ProjItems {
    type V = ProjItemsV;

    closed spec fn view(&self) -> ProjItemsV {
        ProjItemsV {
            projection: opt_text(self.projection),
            params: input_v(self.params@),
            unit: opt_unit(self.unit),
            axes: self.axes@.map_values(|a: Axis| a@),
            identifiers: ids_v(self.identifiers),
        }
    }
}

/// One trailing item of a `PROJCS`, at the keyword.
fn parse_proj_item(p: &mut Parser, t: &Wkt1Tables, lossy: bool, st: &mut ProjItems) -> (r: Result<(), ParseError>)
    requires
        old(p).wf(),
    ensures
        advanced(*old(p), *final(p)),
        match sp1_proj_item(old(p).s(), old(p).p(), t@, lossy, old(st)@) {
            Ok((v, q)) => r is Ok && final(st)@ == v && final(p).p() == q,
            Err(e) => r matches Err(x) && x@ == e,
        },
{
    if p.peek_kw1_is("PROJECTION") {
        let n = parse_projection(p)?;
        st.projection = Some(n);
    } else if p.peek_kw1_is("PARAMETER") {
        let pv = parse_parameter(p)?;
        let ghost before = input_v(st.params@);
        let ghost item = (pv.0@, pv.1@);
        st.params.push(pv);
        assert(input_v(st.params@) =~= before.push(item));
    } else if p.peek_kw1_is("UNIT") {
        let u = parse_unit(p, t, UnitKeyword::LengthUnit)?;
        st.unit = Some(u);
    } else if p.peek_kw1_is("AXIS") {
        let a = parse_axis(p)?;
        let ghost before = st.axes@.map_values(|a: Axis| a@);
        st.axes.push(a);
        assert(st.axes@.map_values(|a: Axis| a@) =~= before.push(a@));
    } else if p.peek_kw1_is("AUTHORITY") {
        let id = parse_authority(p)?;
        let ghost before = ids_v(st.identifiers);
        st.identifiers.push(id);
        assert(ids_v(st.identifiers) =~= before.push(id@));
    } else if peek_lossy_kw(p) {
        let kw = p.peek_kw1_text();
        lossy_node(p, lossy, kw.as_str())?;
    } else {
        return Err(unexpected_here(p));
    }
    Ok(())
}

/// The trailing items of a `PROJCS` up to its closing bracket.
#[verifier::loop_isolation(false)]
fn parse_proj_items(p: &mut Parser, t: &Wkt1Tables, lossy: bool) -> (r: Result<ProjItems, ParseError>)
    requires
        old(p).wf(),
    ensures
        advanced(*old(p), *final(p)),
        match sp1_proj_items(old(p).s(), old(p).p(), t@, lossy, proj_items_start()) {
            Ok((v, q)) => r matches Ok(x) && x@ == v && final(p).p() == q,
            Err(e) => r matches Err(x) && x@ == e,
        },
{
    let ghost s = p.s();
    let ghost p0 = p.p();
    let mut st = ProjItems {
        projection: None,
        params: Vec::new(),
        unit: None,
        axes: Vec::new(),
        identifiers: Vec::new(),
    };
    assert(st@ == proj_items_start()) by {
        assert(input_v(st.params@) =~= Seq::<(Seq<char>, DecimalV)>::empty());
        assert(st.axes@.map_values(|a: Axis| a@) =~= Seq::<AxisV>::empty());
        assert(ids_v(st.identifiers) =~= Seq::<IdentifierV>::empty());
    }
    loop
        invariant
            p.wf(),
            p.s() == s,
            s == old(p).s(),
            old(p).p() <= p0 <= p.p(),
            sp1_proj_items(s, p0, t@, lossy, proj_items_start()) == sp1_proj_items(s, p.p(), t@, lossy, st@),
        decreases s.len() - p.p(),
    {
        if p.at_close() {
            p.skip_whitespace();
            break;
        }
        p.item_start()?;
        parse_proj_item(p, t, lossy, &mut st)?;
    }
    Ok(st)
}

/// `ID["EPSG", code]` for a nonzero code; none for 0.
fn code_identifiers(code: i32) -> (r: Vec<Identifier>)
    ensures
        ids_v(r) == code_ids(code),
{
    let mut v: Vec<Identifier> = Vec::new();
    if code != 0 {
        v.push(epsg_identifier(code));
        assert(ids_v(v) =~= seq![epsg_id_v(code)]);
    } else {
        assert(ids_v(v) =~= Seq::<IdentifierV>::empty());
    }
    v
}

/// A resolved parameter with the unit its kind calls for.
fn projection_parameter(rp: ResolvedParam, angle: &Unit, linear: &Unit) -> (r: MapProjectionParameter)
    ensures
        r@ == param_v(rp@, angle@, linear@),
{
    let unit = match rp.unit_type {
        UnitType::Angular => copy_unit(angle),
        UnitType::Linear => copy_unit(linear),
        UnitType::Scale => scale_unity_unit(),
        UnitType::Unitless => scale_unity_unit(),
    };
    MapProjectionParameter {
        name: rp.epsg_name,
        value: rp.value,
        unit: Some(unit),
        identifiers: code_identifiers(rp.epsg_code),
    }
}

fn projection_parameters(params: Vec<ResolvedParam>, angle: &Unit, linear: &Unit) -> (r: Vec<MapProjectionParameter>)
    ensures
        r@.map_values(|x: MapProjectionParameter| x@) == params@.map_values(|rp: ResolvedParam| rp@).map_values(
            |rp: ResolvedParamV| param_v(rp, angle@, linear@),
        ),
{
    let ghost orig = params@.map_values(|rp: ResolvedParam| rp@);
    let ghost target = orig.map_values(|rp: ResolvedParamV| param_v(rp, angle@, linear@));
    let mut out: Vec<MapProjectionParameter> = Vec::new();
    let mut params = params;
    let n = params.len();
    while params.len() > 0
        invariant
            out@.len() + params@.len() == n,
            n == orig.len(),
            target == orig.map_values(|rp: ResolvedParamV| param_v(rp, angle@, linear@)),
            forall|i: int| 0 <= i < params@.len() ==> (#[trigger] params@[i])@ == orig[out@.len() + i],
            forall|i: int| 0 <= i < out@.len() ==> (#[trigger] out@[i])@ == target[i],
        decreases params@.len(),
    {
        let ghost before = params@;
        let rp = params.remove(0);
        let k = out.len();
        assert(rp@ == orig[k as int]) by {
            assert(before[0] == rp);
        }
        assert forall|i: int| 0 <= i < params@.len() implies (#[trigger] params@[i])@ == orig[out@.len() + 1 + i] by {
            assert(params@[i] == before[i + 1]);
        }
        out.push(projection_parameter(rp, angle, linear));
    }
    assert(out@.map_values(|x: MapProjectionParameter| x@) =~= target);
    out
}

/// The projected CRS built from a read `PROJCS` at `pos`.
fn build_projcs(name: String, g: Geogcs, st: ProjItems, t: &Wkt1Tables, pos: usize) -> (r: Result<ProjectedCrs, ParseError>)
    ensures
        match projcs_v(name@, g@, st@, t@, pos as int) {
            Ok(v) => r matches Ok(x) && x@ == v,
            Err(e) => r matches Err(x) && x@ == e,
        },
{
    let ghost gv = g@;
    let ghost sv = st@;
    let ProjItems { projection, params: raw_params, unit: length_unit, axes, identifiers } = st;
    let Geogcs { name: geog_name, datum, angle_unit, linear_unit: _, axes: _, identifiers: geog_ids } = g;
    let defaults = vec![make_axis("Easting (E)", "east", None), make_axis("Northing (N)", "north", None)];
    assert(defaults@.map_values(|a: Axis| a@) =~= east_north_axes());
    let axes = axes_or_default(axes, defaults, pos)?;
    let projection_name = match projection {
        Some(n) => n,
        None => {
            return Err(
                ParseError::MissingWkt1Node {
                    keyword: own("PROJECTION"),
                    parent: own("PROJCS"),
                    pos,
                },
            );
        },
    };
    // WKT1 cannot say which variant of a method a CRS uses, so the
    // enclosing CRS supplies the discriminators.
    let context = MethodContext {
        is_sphere: datum.ellipsoid.inverse_flattening.is_zero(),
        south_west_oriented: any_south_west(&axes),
    };
    let resolved = resolve_method(&t.mappings, projection_name.as_str(), &raw_params, context)?;
    let angle_unit = require_unit(angle_unit, "GEOGCS", pos)?;
    let linear_unit = require_unit(length_unit, "PROJCS", pos)?;
    let ResolvedMethod { epsg_name, epsg_code, params } = resolved;
    let parameters = projection_parameters(params, &angle_unit, &linear_unit);
    let method_identifiers = code_identifiers(epsg_code);
    let empty_ids: Vec<Identifier> = Vec::new();
    assert(ids_v(empty_ids) =~= Seq::<IdentifierV>::empty());
    let cs_ids: Vec<Identifier> = Vec::new();
    assert(ids_v(cs_ids) =~= Seq::<IdentifierV>::empty());
    let usages: Vec<Usage> = Vec::new();
    assert(usages_v(usages) =~= Seq::<UsageV>::empty());
    let r = ProjectedCrs {
        name,
        base_geodetic_crs: BaseGeodeticCrs {
            keyword: BaseGeodeticCrsKeyword::BaseGeogCrs,
            name: geog_name,
            dynamic: None,
            datum: Datum::ReferenceFrame(datum),
            ellipsoidal_cs_unit: Some(angle_unit),
            identifiers: geog_ids,
        },
        map_projection: MapProjection {
            name: own("unnamed"),
            method: MapProjectionMethod { name: epsg_name, identifiers: method_identifiers },
            parameters,
            identifiers: empty_ids,
        },
        coordinate_system: CoordinateSystem {
            cs_type: CsType::Cartesian,
            dimension: 2,
            identifiers: cs_ids,
            axes,
            cs_unit: Some(linear_unit),
        },
        usages,
        identifiers,
        remark: None,
    };
    Ok(r)
}

fn parse_projcs(p: &mut Parser, t: &Wkt1Tables, lossy: bool) -> (r: Result<ProjectedCrs, ParseError>)
    requires
        old(p).wf(),
    ensures
        advanced(*old(p), *final(p)),
        match sp1_projcs(old(p).s(), old(p).p(), t@, lossy) {
            Ok((v, q)) => r matches Ok(x) && x@ == v && final(p).p() == q,
            Err(e) => r matches Err(x) && x@ == e,
        },
{
    proof {
        reveal(sp1_projcs);
    }
    let start = p.pos();
    p.open_kw1("PROJCS")?;
    let name = p.parse_quoted_string()?;
    p.ws_char_ws(',')?;
    let geogcs = parse_geogcs(p, t, lossy)?;
    let st = parse_proj_items(p, t, lossy)?;
    let c = build_projcs(name, geogcs, st, t, start)?;
    p.close()?;
    Ok(c)
}

/// `VERT_DATUM|VDATUM|VERTICALDATUM["name" {,datum-type} {,AUTHORITY}]`.
#[verifier::loop_isolation(false)]
fn parse_vert_datum(p: &mut Parser) -> (r: Result<(String, Vec<Identifier>), ParseError>)
    requires
        old(p).wf(),
    ensures
        advanced(*old(p), *final(p)),
        match sp1_vert_datum(old(p).s(), old(p).p()) {
            Ok((v, q)) => r matches Ok(x) && x.0@ == v.0 && ids_v(x.1) == v.1 && final(p).p() == q,
            Err(e) => r matches Err(x) && x@ == e,
        },
{
    if p.peek_kw1_is("VERT_DATUM") {
        p.open_kw1("VERT_DATUM")?;
    } else if p.peek_kw1_is("VDATUM") {
        p.open_kw1("VDATUM")?;
    } else {
        p.open_kw1("VERTICALDATUM")?;
    }
    let name = p.parse_quoted_string()?;
    let ghost s = p.s();
    let ghost p0 = p.p();
    let mut ids: Vec<Identifier> = Vec::new();
    assert(ids_v(ids) =~= Seq::<IdentifierV>::empty());
    loop
        invariant
            p.wf(),
            p.s() == s,
            s == old(p).s(),
            old(p).p() <= p0 <= p.p(),
            sp1_vdatum_items(s, p0, Seq::empty()) == sp1_vdatum_items(s, p.p(), ids_v(ids)),
        decreases s.len() - p.p(),
    {
        if p.at_close() {
            p.skip_whitespace();
            break;
        }
        p.item_start()?;
        if p.peek_kw1_is("AUTHORITY") {
            let id = parse_authority(p)?;
            let ghost before = ids_v(ids);
            ids.push(id);
            assert(ids_v(ids) =~= before.push(id@));
        } else if p.kw1_end() == p.pos() {
            // The datum type number (OGC 01-009), read and dropped.
            p.parse_number()?;
        } else {
            proof {
                lemma_kw1_end(p.s(), p.p());
            }
            return Err(unexpected_here(p));
        }
    }
    p.close()?;
    Ok((name, ids))
}

/// `PARAMETER["name",value]` of an ESRI `VERTCS`.
fn parse_vert_parameter(p: &mut Parser) -> (r: Result<(String, Decimal), ParseError>)
    requires
        old(p).wf(),
    ensures
        advanced(*old(p), *final(p)),
        match sp1_vert_parameter(old(p).s(), old(p).p()) {
            Ok((v, q)) => r matches Ok(x) && x.0@ == v.0 && x.1@ == v.1 && final(p).p() == q,
            Err(e) => r matches Err(x) && x@ == e,
        },
{
    p.open_kw1("PARAMETER")?;
    let name = p.parse_quoted_string()?;
    p.ws_char_ws(',')?;
    let value = p.parse_number()?;
    p.close()?;
    Ok((name, value))
}

/// What the trailing items of a `VERT_CS` have set so far.
struct VertItems {
    datum_name: Option<String>,
    datum_identifiers: Vec<Identifier>,
    from_geodetic_datum: bool,
    unit: Option<Unit>,
    axes: Vec<Axis>,
    identifiers: Vec<Identifier>,
    direction_down: bool,
}

impl View for VertItems {
    type V = VertItemsV;

    closed spec fn view(&self) -> VertItemsV {
        VertItemsV {
            datum_name: opt_text(self.datum_name),
            datum_identifiers: ids_v(self.datum_identifiers),
            from_geodetic_datum: self.from_geodetic_datum,
            unit: opt_unit(self.unit),
            axes: self.axes@.map_values(|a: Axis| a@),
            identifiers: ids_v(self.identifiers),
            direction_down: self.direction_down,
        }
    }
}

/// One trailing item of a `VERT_CS`, at the keyword.
fn parse_vert_item(p: &mut Parser, t: &Wkt1Tables, lossy: bool, st: &mut VertItems) -> (r: Result<(), ParseError>)
    requires
        old(p).wf(),
    ensures
        advanced(*old(p), *final(p)),
        match sp1_vert_item(old(p).s(), old(p).p(), t@, lossy, old(st)@) {
            Ok((v, q)) => r is Ok && final(st)@ == v && final(p).p() == q,
            Err(e) => r matches Err(x) && x@ == e,
        },
{
    if p.peek_kw1_is("VERT_DATUM") || p.peek_kw1_is("VDATUM") || p.peek_kw1_is("VERTICALDATUM") {
        let (n, ids) = parse_vert_datum(p)?;
        st.datum_name = Some(n);
        st.datum_identifiers = ids;
    } else if p.peek_kw1_is("DATUM") {
        // An ESRI ellipsoidal-height VERTCS names a geodetic datum: its
        // name carries over, its identifiers do not.
        let datum = parse_datum(p, t, lossy)?;
        st.datum_name = Some(datum.name);
        st.from_geodetic_datum = true;
    } else if p.peek_kw1_is("PARAMETER") {
        let (pname, value) = parse_vert_parameter(p)?;
        if str_eq(pname.as_str(), "Vertical_Shift") {
            if !value.is_zero() && !lossy {
                return Err(
                    ParseError::LossyWkt1Node {
                        keyword: own("PARAMETER[\"Vertical_Shift\"]"),
                        pos: p.pos(),
                    },
                );
            }
        } else if str_eq(pname.as_str(), "Direction") {
            // ESRI defines only +1 (up) and -1 (down).
            let up = value.same_value_as(&Decimal::from_i32(1));
            let down = value.same_value_as(&Decimal::from_i32(-1));
            if !up && !down {
                return Err(
                    ParseError::UnsupportedParameterValue {
                        method: own("VERTCS"),
                        name: own("Direction"),
                        value,
                    },
                );
            }
            st.direction_down = down;
        } else {
            return Err(ParseError::UnknownParameter { method: own("VERTCS"), name: pname });
        }
    } else if p.peek_kw1_is("UNIT") {
        let u = parse_unit(p, t, UnitKeyword::LengthUnit)?;
        st.unit = Some(u);
    } else if p.peek_kw1_is("AXIS") {
        let a = parse_axis(p)?;
        let ghost before = st.axes@.map_values(|a: Axis| a@);
        st.axes.push(a);
        assert(st.axes@.map_values(|a: Axis| a@) =~= before.push(a@));
    } else if p.peek_kw1_is("AUTHORITY") {
        let id = parse_authority(p)?;
        let ghost before = ids_v(st.identifiers);
        st.identifiers.push(id);
        assert(ids_v(st.identifiers) =~= before.push(id@));
    } else if p.peek_kw1_is("EXTENSION") || p.peek_kw1_is("METADATA") {
        let kw = p.peek_kw1_text();
        lossy_node(p, lossy, kw.as_str())?;
    } else {
        return Err(unexpected_here(p));
    }
    Ok(())
}

/// The trailing items of a `VERT_CS` up to its closing bracket.
#[verifier::loop_isolation(false)]
fn parse_vert_items(p: &mut Parser, t: &Wkt1Tables, lossy: bool) -> (r: Result<VertItems, ParseError>)
    requires
        old(p).wf(),
    ensures
        advanced(*old(p), *final(p)),
        match sp1_vert_items(old(p).s(), old(p).p(), t@, lossy, vert_items_start()) {
            Ok((v, q)) => r matches Ok(x) && x@ == v && final(p).p() == q,
            Err(e) => r matches Err(x) && x@ == e,
        },
{
    let ghost s = p.s();
    let ghost p0 = p.p();
    let mut st = VertItems {
        datum_name: None,
        datum_identifiers: Vec::new(),
        from_geodetic_datum: false,
        unit: None,
        axes: Vec::new(),
        identifiers: Vec::new(),
        direction_down: false,
    };
    assert(st@ == vert_items_start()) by {
        assert(ids_v(st.datum_identifiers) =~= Seq::<IdentifierV>::empty());
        assert(st.axes@.map_values(|a: Axis| a@) =~= Seq::<AxisV>::empty());
        assert(ids_v(st.identifiers) =~= Seq::<IdentifierV>::empty());
    }
    loop
        invariant
            p.wf(),
            p.s() == s,
            s == old(p).s(),
            old(p).p() <= p0 <= p.p(),
            sp1_vert_items(s, p0, t@, lossy, vert_items_start()) == sp1_vert_items(s, p.p(), t@, lossy, st@),
        decreases s.len() - p.p(),
    {
        if p.at_close() {
            p.skip_whitespace();
            break;
        }
        p.item_start()?;
        parse_vert_item(p, t, lossy, &mut st)?;
    }
    Ok(st)
}

fn parse_vert_cs(p: &mut Parser, t: &Wkt1Tables, lossy: bool) -> (r: Result<VertCrs, ParseError>)
    requires
        old(p).wf(),
    ensures
        advanced(*old(p), *final(p)),
        match sp1_vert_cs(old(p).s(), old(p).p(), t@, lossy) {
            Ok((v, q)) => r matches Ok(x) && x@ == v && final(p).p() == q,
            Err(e) => r matches Err(x) && x@ == e,
        },
{
    proof {
        reveal(sp1_vert_cs);
    }
    let start = p.pos();
    if p.peek_kw1_is("VERT_CS") {
        p.open_kw1("VERT_CS")?;
    } else {
        p.open_kw1("VERTCS")?;
    }
    let name = p.parse_quoted_string()?;
    let st = parse_vert_items(p, t, lossy)?;
    let ghost sv = st@;
    let VertItems {
        datum_name,
        datum_identifiers,
        from_geodetic_datum,
        unit,
        axes,
        identifiers,
        direction_down,
    } = st;
    let raw_datum_name = match datum_name {
        Some(n) => n,
        None => {
            return Err(ParseError::ExpectedKeyword { pos: p.pos() });
        },
    };
    let cs_unit = require_unit(unit, "VERT_CS", start)?;
    p.close()?;
    let (datum_official, datum_code) = if from_geodetic_datum {
        (raw_datum_name, None)
    } else {
        normalize_datum_name(&t.vertical_datums, raw_datum_name.as_str())
    };
    let mut datum_identifiers = datum_identifiers;
    add_code_if_none(&mut datum_identifiers, datum_code);
    let mut axes = axes;
    let axis = if axes.len() > 0 {
        let mut a = axes.remove(0);
        a.order = None;
        a
    } else if direction_down {
        make_axis("Depth (D)", "down", None)
    } else if from_geodetic_datum {
        make_axis("Ellipsoidal height (h)", "up", None)
    } else {
        make_axis("Gravity-related height (H)", "up", None)
    };
    assert(axis@ == vert_axis_v(sv));
    let cs_axes = vec![axis];
    assert(cs_axes@.map_values(|a: Axis| a@) =~= seq![vert_axis_v(sv)]);
    let cs_ids: Vec<Identifier> = Vec::new();
    assert(ids_v(cs_ids) =~= Seq::<IdentifierV>::empty());
    let geoid_models: Vec<GeoidModel> = Vec::new();
    assert(geoid_models@.map_values(|g: GeoidModel| g@) =~= Seq::<GeoidModelV>::empty());
    let usages: Vec<Usage> = Vec::new();
    assert(usages_v(usages) =~= Seq::<UsageV>::empty());
    Ok(
        VertCrs {
            keyword: VertCrsKeyword::VertCrs,
            name,
            source: VertCrsSource::Datum {
                dynamic: None,
                datum: VerticalDatum::ReferenceFrame(
                    VerticalReferenceFrame {
                        keyword: VerticalReferenceFrameKeyword::VDatum,
                        name: datum_official,
                        anchor: None,
                        anchor_epoch: None,
                        identifiers: datum_identifiers,
                    },
                ),
            },
            coordinate_system: CoordinateSystem {
                cs_type: CsType::Vertical,
                dimension: 1,
                identifiers: cs_ids,
                axes: cs_axes,
                cs_unit: Some(cs_unit),
            },
            geoid_models,
            usages,
            identifiers,
            remark: None,
        },
    )
}

/// A compound CRS component: nested compound CRSs are not allowed (ISO 19111).
fn into_single_crs(crs: Crs, pos: usize) -> (r: Result<SingleCrs, ParseError>)
    ensures
        match into_single_v(crs@, pos as int) {
            Ok(v) => r matches Ok(x) && x@ == v,
            Err(e) => r matches Err(x) && x@ == e,
        },
{
    match crs {
        Crs::ProjectedCrs(c) => Ok(SingleCrs::ProjectedCrs(c)),
        Crs::GeogCrs(c) => Ok(SingleCrs::GeogCrs(c)),
        Crs::GeodCrs(c) => Ok(SingleCrs::GeodCrs(c)),
        Crs::VertCrs(c) => Ok(SingleCrs::VertCrs(c)),
        Crs::CompoundCrs(_) => Err(ParseError::UnsupportedWkt1Node { keyword: own("COMPD_CS"), pos }),
    }
}

#[verifier::loop_isolation(false)]
fn parse_compd_cs(p: &mut Parser, t: &Wkt1Tables, lossy: bool) -> (r: Result<CompoundCrs, ParseError>)
    requires
        old(p).wf(),
    ensures
        advanced(*old(p), *final(p)),
        match sp1_compd(old(p).s(), old(p).p(), t@, lossy) {
            Ok((v, q)) => r matches Ok(x) && x@ == v && final(p).p() == q,
            Err(e) => r matches Err(x) && x@ == e,
        },
    decreases old(p).s().len() - old(p).p(), 1nat,
{
    p.open_kw1("COMPD_CS")?;
    let name = p.parse_quoted_string()?;
    let ghost s = p.s();
    let ghost p0 = p.p();
    let mut components: Vec<SingleCrs> = Vec::new();
    let mut identifiers: Vec<Identifier> = Vec::new();
    assert(components@.map_values(|c: SingleCrs| c@) =~= Seq::<SingleCrsV>::empty());
    assert(ids_v(identifiers) =~= Seq::<IdentifierV>::empty());
    loop
        invariant
            p.wf(),
            p.s() == s,
            s == old(p).s(),
            old(p).p() <= p0 <= p.p(),
            sp1_compd_items(s, p0, t@, lossy, Seq::empty(), Seq::empty()) == sp1_compd_items(
                s,
                p.p(),
                t@,
                lossy,
                components@.map_values(|c: SingleCrs| c@),
                ids_v(identifiers),
            ),
        decreases s.len() - p.p(),
    {
        if p.at_close() {
            p.skip_whitespace();
            break;
        }
        p.item_start()?;
        if p.peek_kw1_is("AUTHORITY") {
            let id = parse_authority(p)?;
            let ghost before = ids_v(identifiers);
            identifiers.push(id);
            assert(ids_v(identifiers) =~= before.push(id@));
        } else {
            let pos = p.pos();
            let component = parse_crs(p, t, lossy)?;
            let sc = into_single_crs(component, pos)?;
            let ghost before = components@.map_values(|c: SingleCrs| c@);
            components.push(sc);
            assert(components@.map_values(|c: SingleCrs| c@) =~= before.push(sc@));
        }
    }
    p.close()?;
    let usages: Vec<Usage> = Vec::new();
    assert(usages_v(usages) =~= Seq::<UsageV>::empty());
    Ok(CompoundCrs { name, components, usages, identifiers, remark: None })
}

/// Any WKT1 CRS, after optional whitespace.
fn parse_crs(p: &mut Parser, t: &Wkt1Tables, lossy: bool) -> (r: Result<Crs, ParseError>)
    requires
        old(p).wf(),
    ensures
        advanced(*old(p), *final(p)),
        match sp1_crs(old(p).s(), old(p).p(), t@, lossy) {
            Ok((v, q)) => r matches Ok(x) && x@ == v && final(p).p() == q,
            Err(e) => r matches Err(x) && x@ == e,
        },
    decreases old(p).s().len() - old(p).p(), 2nat,
{
    p.skip_whitespace();
    if p.peek_kw1_is("PROJCS") {
        Ok(Crs::ProjectedCrs(Box::new(parse_projcs(p, t, lossy)?)))
    } else if p.peek_kw1_is("GEOGCS") {
        Ok(Crs::GeogCrs(Box::new(parse_top_level_geogcs(p, t, lossy)?)))
    } else if p.peek_kw1_is("GEOCCS") {
        Ok(Crs::GeodCrs(Box::new(parse_geoccs(p, t, lossy)?)))
    } else if p.peek_kw1_is("VERT_CS") || p.peek_kw1_is("VERTCS") {
        Ok(Crs::VertCrs(Box::new(parse_vert_cs(p, t, lossy)?)))
    } else if p.peek_kw1_is("COMPD_CS") {
        Ok(Crs::CompoundCrs(Box::new(parse_compd_cs(p, t, lossy)?)))
    } else if p.peek_kw1_is("LOCAL_CS") || p.peek_kw1_is("FITTED_CS") || p.peek_kw1_is("PARAM_MT")
        || p.peek_kw1_is("CONCAT_MT") || p.peek_kw1_is("INVERSE_MT") || p.peek_kw1_is(
        "PASSTHROUGH_MT",
    ) {
        Err(ParseError::UnsupportedWkt1Node { keyword: p.peek_kw1_text(), pos: p.pos() })
    } else {
        Err(ParseError::ExpectedKeyword { pos: p.pos() })
    }
}

fn single_crs_name(c: &SingleCrs) -> (r: &String)
    ensures
        r@ == single_name_v(c@),
{
    match c {
        SingleCrs::ProjectedCrs(x) => &x.name,
        SingleCrs::GeogCrs(x) => &x.name,
        SingleCrs::GeodCrs(x) => &x.name,
        SingleCrs::VertCrs(x) => &x.name,
        SingleCrs::Other(raw) => raw,
    }
}

/// The names of the components joined with `" + "`.
fn join_names(components: &Vec<SingleCrs>) -> (r: String)
    ensures
        r@ == joined_names(components@.map_values(|c: SingleCrs| c@)),
{
    let ghost v = components@.map_values(|c: SingleCrs| c@);
    let mut name = String::new();
    let mut i: usize = 0;
    assert(v.take(0) =~= Seq::<SingleCrsV>::empty());
    while i < components.len()
        invariant
            i <= components@.len(),
            v == components@.map_values(|c: SingleCrs| c@),
            name@ == joined_names(v.take(i as int)),
        decreases components@.len() - i,
    {
        let ghost before = name@;
        if i > 0 {
            push_str(&mut name, " + ");
        }
        push_str(&mut name, single_crs_name(&components[i]).as_str());
        proof {
            assert(v.take(i + 1).drop_last() =~= v.take(i as int));
            assert(v.take(i + 1).last() == v[i as int]);
            if i == 0 {
                assert(before =~= Seq::<char>::empty());
                assert(name@ =~= single_name_v(v[0]));
            } else {
                assert(name@ =~= before + " + "@ + single_name_v(v[i as int]));
            }
        }
        i = i + 1;
    }
    assert(v.take(v.len() as int) =~= v);
    name
}

/// A complete WKT1 string. ESRI writes a compound CRS without a `COMPD_CS`
/// wrapper, as a horizontal CRS followed by a vertical one after a comma.
/// Positions in errors count characters.
#[verifier::loop_isolation(false)]
#[verifier::rlimit(40)]
pub fn parse(p: &mut Parser, t: &Wkt1Tables, lossy: bool) -> (r: Result<Crs, ParseError>)
    requires
        old(p).wf(),
    ensures
        final(p).wf(),
        final(p).s() == old(p).s(),
        match sp1_text(old(p).s(), old(p).p(), t@, lossy) {
            Ok(v) => r matches Ok(x) && x@ == v,
            Err(e) => r matches Err(x) && x@ == e,
        },
{
    p.skip_whitespace();
    let head_pos = p.pos();
    let crs = parse_crs(p, t, lossy)?;
    p.skip_whitespace();
    if p.peek_char() == Some(',') {
        let head = into_single_crs(crs, head_pos)?;
        let mut components: Vec<SingleCrs> = Vec::new();
        components.push(head);
        assert(components@.map_values(|c: SingleCrs| c@) =~= seq![head@]);
        let ghost s = p.s();
        let ghost p0 = p.p();
        let ghost h = head@;
        while p.peek_char() == Some(',')
            invariant
                p.wf(),
                p.s() == s,
                s == old(p).s(),
                p0 <= p.p(),
                sp1_esri_tail(s, p0, t@, lossy, seq![h]) == sp1_esri_tail(
                    s,
                    p.p(),
                    t@,
                    lossy,
                    components@.map_values(|c: SingleCrs| c@),
                ),
            decreases s.len() - p.p(),
        {
            let pos = p.pos();
            p.item_start()?;
            let next = parse_crs(p, t, lossy)?;
            let sc = into_single_crs(next, pos)?;
            let ghost before = components@.map_values(|c: SingleCrs| c@);
            components.push(sc);
            assert(components@.map_values(|c: SingleCrs| c@) =~= before.push(sc@));
            p.skip_whitespace();
        }
        if p.peek_char().is_some() {
            return Err(ParseError::TrailingInput { pos: p.pos() });
        }
        let name = join_names(&components);
        let identifiers: Vec<Identifier> = Vec::new();
        assert(ids_v(identifiers) =~= Seq::<IdentifierV>::empty());
        let usages: Vec<Usage> = Vec::new();
        assert(usages_v(usages) =~= Seq::<UsageV>::empty());
        return Ok(
            Crs::CompoundCrs(
                Box::new(CompoundCrs { name, components, usages, identifiers, remark: None }),
            ),
        );
    }
    if p.peek_char().is_some() {
        return Err(ParseError::TrailingInput { pos: p.pos() });
    }
    Ok(crs)
}

} // verus!
