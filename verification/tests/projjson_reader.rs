use epsg_utils::crs::{AuthorityId, BaseGeodeticCrsKeyword, CsType, Datum, RangeMeaning, UnitKeyword};
use epsg_utils::{parse_projjson, parse_wkt2, Crs, ParseError};

fn num(d: &epsg_utils::decimal::Decimal) -> f64 {
    d.to_text().parse::<f64>().unwrap()
}

fn projected(wkt: &str) -> epsg_utils::ProjectedCrs {
    match parse_wkt2(wkt).unwrap() {
        Crs::ProjectedCrs(c) => *c,
        _ => panic!("expected a projected CRS"),
    }
}

const UTM: &str = r#"PROJCRS["WGS 84 / UTM zone 31N",
    BASEGEOGCRS["WGS 84",
        DATUM["World Geodetic System 1984",
            ELLIPSOID["WGS 84",6378137,298.257223563,LENGTHUNIT["metre",1]]],
        PRIMEM["Greenwich",0,ANGLEUNIT["degree",0.0174532925199433]]],
    CONVERSION["UTM zone 31N",
        METHOD["Transverse Mercator",ID["EPSG",9807]],
        PARAMETER["Latitude of natural origin",0,ANGLEUNIT["degree",0.0174532925199433],ID["EPSG",8801]],
        PARAMETER["Scale factor at natural origin",0.9996,SCALEUNIT["unity",1],ID["EPSG",8805]],
        PARAMETER["False easting",500000,LENGTHUNIT["metre",1],ID["EPSG",8806]]],
    CS[Cartesian,2],
        AXIS["easting (E)",east,ORDER[1],LENGTHUNIT["metre",1]],
        AXIS["northing (N)",north,ORDER[2],LENGTHUNIT["metre",1]],
    USAGE[SCOPE["Engineering survey"],AREA["Between 0°E and 6°E"],BBOX[0,0,84,6]],
    REMARK["A remark."],
    ID["EPSG",32631]]"#;

#[test]
fn projjson_reads_back_what_it_writes() {
    let crs = projected(UTM);
    let text = crs.to_projjson();
    let back = parse_projjson(&text).unwrap();
    assert_eq!(back.name, "WGS 84 / UTM zone 31N");
    assert_eq!(back.base_geodetic_crs.keyword, BaseGeodeticCrsKeyword::BaseGeogCrs);
    assert_eq!(back.base_geodetic_crs.name, "WGS 84");
    match &back.base_geodetic_crs.datum {
        Datum::ReferenceFrame(rf) => {
            assert_eq!(rf.name, "World Geodetic System 1984");
            assert_eq!(num(&rf.ellipsoid.semi_major_axis), 6378137.0);
            assert_eq!(num(&rf.ellipsoid.inverse_flattening), 298.257223563);
            assert_eq!(rf.ellipsoid.unit.as_ref().unwrap().name, "metre");
            let pm = rf.prime_meridian.as_ref().unwrap();
            assert_eq!(pm.name, "Greenwich");
            assert_eq!(pm.unit.as_ref().unwrap().keyword, UnitKeyword::AngleUnit);
        }
        _ => panic!("expected a reference frame"),
    }
    let mp = &back.map_projection;
    assert_eq!(mp.method.name, "Transverse Mercator");
    assert_eq!(mp.parameters.len(), 3);
    assert_eq!(mp.parameters[1].name, "Scale factor at natural origin");
    assert_eq!(num(&mp.parameters[1].value), 0.9996);
    assert_eq!(mp.parameters[1].unit.as_ref().unwrap().name, "unity");
    assert_eq!(back.coordinate_system.cs_type, CsType::Cartesian);
    assert_eq!(back.coordinate_system.dimension, 2);
    assert_eq!(back.coordinate_system.axes[0].name_abbrev, "easting (E)");
    assert_eq!(back.coordinate_system.axes[1].direction, "north");
    assert_eq!(back.usages.len(), 1);
    assert_eq!(back.usages[0].scope, "Engineering survey");
    assert_eq!(back.usages[0].area.as_deref(), Some("Between 0°E and 6°E"));
    assert_eq!(back.identifiers.len(), 1);
    match &back.identifiers[0].authority_unique_id {
        AuthorityId::Number(n) => assert_eq!(num(n), 32631.0),
        AuthorityId::Text(_) => panic!("expected a number code"),
    }
    assert!(back.remark.is_some());
}

#[test]
fn projjson_syntax_error() {
    let err = parse_projjson("{ not json").unwrap_err();
    match err {
        ParseError::InvalidJson { message } => assert!(message.starts_with("JSON syntax error: ")),
        other => panic!("unexpected error {other:?}"),
    }
}

#[test]
fn projjson_missing_members() {
    assert_eq!(
        parse_projjson("{}").unwrap_err(),
        ParseError::InvalidJson { message: "missing or invalid string field 'name'".to_string() }
    );
    assert_eq!(
        parse_projjson(r#"{"name":"x"}"#).unwrap_err(),
        ParseError::InvalidJson { message: "missing 'base_crs'".to_string() }
    );
    assert_eq!(
        parse_projjson(r#"{"name":"x","base_crs":{"type":"Other","name":"b"}}"#).unwrap_err(),
        ParseError::InvalidJson { message: "unknown base_crs type 'Other'".to_string() }
    );
    assert_eq!(
        parse_projjson(r#"{"name":"x","base_crs":{"name":"b"}}"#).unwrap_err(),
        ParseError::InvalidJson {
            message: "base_crs must have either 'datum' or 'datum_ensemble'".to_string()
        }
    );
}

#[test]
fn projjson_units_and_axes() {
    let text = r#"{
        "type": "ProjectedCRS",
        "name": "p",
        "base_crs": {"name": "g", "datum": {"type": "DynamicGeodeticReferenceFrame",
            "name": "d", "frame_reference_epoch": 2010.5,
            "ellipsoid": {"name": "e", "semi_major_axis": 6378137, "inverse_flattening": 298.257}},
            "deformation_models": [{"name": "velocity grid"}]},
        "conversion": {"name": "c", "method": {"name": "m"},
            "parameters": [{"name": "k", "value": 1e-3, "unit": {"type": "ScaleUnit", "name": "ppm", "conversion_factor": 1e-6}}]},
        "coordinate_system": {"subtype": "Cartesian", "axis": [
            {"name": "Easting", "abbreviation": "X", "direction": "east", "unit": "metre",
             "minimum_value": -10, "maximum_value": 10, "range_meaning": "exact"},
            {"name": "Northing", "direction": "north", "unit": "degree"}]}
    }"#;
    let c = parse_projjson(text).unwrap();
    let d = c.base_geodetic_crs.dynamic.as_ref().unwrap();
    assert_eq!(num(&d.frame_reference_epoch), 2010.5);
    assert_eq!(d.deformation_model.as_ref().unwrap().name, "velocity grid");
    let p = &c.map_projection.parameters[0];
    assert_eq!(num(&p.value), 0.001);
    let u = p.unit.as_ref().unwrap();
    assert_eq!(u.keyword, UnitKeyword::ScaleUnit);
    assert_eq!(num(u.conversion_factor.as_ref().unwrap()), 1e-6);
    let a = &c.coordinate_system.axes;
    assert_eq!(a[0].name_abbrev, "Easting (X)");
    assert_eq!(a[0].range_meaning, Some(RangeMeaning::Exact));
    assert_eq!(num(a[0].axis_min_value.as_ref().unwrap()), -10.0);
    assert_eq!(a[1].name_abbrev, "Northing");
    assert_eq!(a[1].unit.as_ref().unwrap().keyword, UnitKeyword::AngleUnit);
    assert_eq!(num(a[1].unit.as_ref().unwrap().conversion_factor.as_ref().unwrap()), 0.0174532925199433);
}

#[test]
fn projjson_unknown_unit_shorthand() {
    let text = r#"{"name": "p",
        "base_crs": {"name": "g", "datum": {"name": "d",
            "ellipsoid": {"name": "e", "semi_major_axis": 1, "inverse_flattening": 0}}},
        "conversion": {"name": "c", "method": {"name": "m"}},
        "coordinate_system": {"subtype": "Cartesian", "axis": [{"name": "E", "direction": "east", "unit": "foot"}]}}"#;
    assert_eq!(
        parse_projjson(text).unwrap_err(),
        ParseError::InvalidJson { message: "unknown unit shorthand 'foot'".to_string() }
    );
}

#[test]
fn projjson_text_escapes_strings() {
    let crs = projected(
        r#"PROJCRS["a\b",
            BASEGEOGCRS["x", DATUM["d", ELLIPSOID["e",6378137,298.257]]],
            CONVERSION["y", METHOD["m"]],
            CS[Cartesian, 2]]"#,
    );
    let text = crs.to_projjson();
    assert!(text.contains(r#""name":"a\\b""#));
    let v: serde_json::Value = serde_json::from_str(&text).unwrap();
    assert_eq!(v["name"], "a\\b");
}

#[test]
fn projjson_for_geographic_crs() {
    let g = parse_wkt2(
        r#"GEOGCRS["WGS 84", DATUM["d", ELLIPSOID["e",6378137,298.257223563]],
            CS[ellipsoidal,2], AXIS["latitude",north], AXIS["longitude",east],
            ANGLEUNIT["degree",0.0174532925199433]]"#,
    )
    .unwrap();
    let v: serde_json::Value = serde_json::from_str(&g.to_projjson()).unwrap();
    assert_eq!(v["type"], "GeographicCRS");
    assert_eq!(v["coordinate_system"]["axis"][0]["unit"], "degree");
}
