use std::io::Write;

use epsg_utils::crs::{AuthorityId, Crs};
use epsg_utils::definitions::header_fits;
use epsg_utils::generator::{definition_file_code, is_definition_file_name, sort_by_code};
use epsg_utils::store_writer::encode_store;
use epsg_utils::{
    epsg_to_projjson, epsg_to_wkt2, parse_wkt1, parse_wkt2, ChunkedStore, ParseError,
    Wkt2Definitions,
};

#[test]
fn to_epsg_found() {
    let crs = parse_wkt2(
        r#"PROJCRS["test",
            BASEGEOGCRS["x",DATUM["d",ELLIPSOID["e",6378137,298.257]]],
            CONVERSION["y",METHOD["m"]],
            CS[Cartesian,2],
            ID["EPSG",32631]]"#,
    )
    .unwrap();
    assert_eq!(crs.to_epsg(), Some(32631));
}

#[test]
fn to_epsg_not_found() {
    let crs = parse_wkt2(
        r#"PROJCRS["test",
            BASEGEOGCRS["x",DATUM["d",ELLIPSOID["e",6378137,298.257]]],
            CONVERSION["y",METHOD["m"]],
            CS[Cartesian,2]]"#,
    )
    .unwrap();
    assert_eq!(crs.to_epsg(), None);
}

#[test]
fn to_epsg_takes_the_first_epsg_identifier() {
    let crs = parse_wkt2(
        r#"GEOGCRS["g",DATUM["d",ELLIPSOID["e",6378137,298.257]],CS[ellipsoidal,2],
            ID["ESRI",1],ID["EPSG","text"],ID["EPSG",4326],ID["EPSG",4979]]"#,
    )
    .unwrap();
    assert_eq!(crs.to_epsg(), Some(4326));
}

#[test]
fn to_epsg_truncates_and_saturates() {
    let crs = parse_wkt2(
        r#"VERTCRS["v",VDATUM["d"],CS[vertical,1],ID["EPSG",5714.9]]"#,
    )
    .unwrap();
    assert_eq!(crs.to_epsg(), Some(5714));
    let crs = parse_wkt2(
        r#"VERTCRS["v",VDATUM["d"],CS[vertical,1],ID["EPSG",1e12]]"#,
    )
    .unwrap();
    assert_eq!(crs.to_epsg(), Some(i32::MAX));
}

fn gz(data: &[u8]) -> Vec<u8> {
    let mut e = flate2::write::GzEncoder::new(Vec::new(), flate2::Compression::default());
    e.write_all(data).unwrap();
    e.finish().unwrap()
}

fn le32(v: &mut Vec<u8>, x: u32) {
    v.extend_from_slice(&x.to_le_bytes());
}

/// A chunked store holding the given chunks, each a list of (code, text).
fn chunked(chunks: &[&[(i32, &str)]]) -> Vec<u8> {
    let mut compressed: Vec<Vec<u8>> = Vec::new();
    let mut entries: Vec<(i32, u32, u32, u32)> = Vec::new();
    for (id, chunk) in chunks.iter().enumerate() {
        let mut text = String::new();
        for (code, t) in chunk.iter() {
            entries.push((*code, id as u32, text.len() as u32, t.len() as u32));
            text.push_str(t);
        }
        compressed.push(gz(text.as_bytes()));
    }
    let mut out = Vec::new();
    le32(&mut out, chunks.len() as u32);
    le32(&mut out, entries.len() as u32);
    let mut offset = 0u32;
    for c in &compressed {
        le32(&mut out, offset);
        le32(&mut out, c.len() as u32);
        offset += c.len() as u32;
    }
    for (code, chunk, off, len) in &entries {
        out.extend_from_slice(&code.to_le_bytes());
        le32(&mut out, *chunk);
        le32(&mut out, *off);
        le32(&mut out, *len);
    }
    for c in &compressed {
        out.extend_from_slice(c);
    }
    out
}

#[test]
fn chunked_store_finds_each_entry() {
    let data = chunked(&[
        &[(-5, "minus five"), (4326, "{\"name\":\"WGS 84\"}")],
        &[(6678, "JGD2011 / Japan Plane Rectangular CS X"), (32631, "utm")],
    ]);
    assert!(header_fits(&data));
    let store = ChunkedStore::new(data);
    assert_eq!(store.lookup(-5).as_deref(), Some("minus five"));
    assert_eq!(store.lookup(4326).as_deref(), Some("{\"name\":\"WGS 84\"}"));
    assert_eq!(
        epsg_to_projjson(&store, 6678).unwrap(),
        "JGD2011 / Japan Plane Rectangular CS X"
    );
    assert_eq!(store.lookup(32631).as_deref(), Some("utm"));
    assert_eq!(store.lookup(4327), None);
    assert_eq!(
        epsg_to_projjson(&store, 99999),
        Err(ParseError::UnknownEpsgCode { code: 99999 })
    );
}

#[test]
fn chunked_store_header_must_fit() {
    assert!(!header_fits(&vec![1, 0, 0]));
    // One chunk and one entry announced, but no room for them.
    assert!(!header_fits(&vec![1, 0, 0, 0, 1, 0, 0, 0]));
    assert!(header_fits(&vec![0, 0, 0, 0, 0, 0, 0, 0]));
    let empty = ChunkedStore::new(vec![0, 0, 0, 0, 0, 0, 0, 0]);
    assert_eq!(empty.lookup(4326), None);
}

#[test]
fn chunked_store_with_a_broken_chunk_reads_nothing() {
    let mut data = chunked(&[&[(4326, "x")]]);
    let n = data.len();
    // The checksum at the end of the gzip stream no longer matches.
    data[n - 8] ^= 0xff;
    let store = ChunkedStore::new(data);
    assert_eq!(store.lookup(4326), None);
}

#[test]
fn wkt2_definitions_lines() {
    let text = "4326\tGEOGCRS[\"WGS 84\"]\r\nnot a line\n+12\tplus\n-7\tminus\n99999999999\ttoo big\n4326\tlater\n";
    let defs = Wkt2Definitions::from_gz(&gz(text.as_bytes())).unwrap();
    assert_eq!(epsg_to_wkt2(&defs, 4326).unwrap(), "later");
    assert_eq!(epsg_to_wkt2(&defs, 12).unwrap(), "plus");
    assert_eq!(epsg_to_wkt2(&defs, -7).unwrap(), "minus");
    assert_eq!(
        epsg_to_wkt2(&defs, 99999),
        Err(ParseError::UnknownEpsgCode { code: 99999 })
    );
    let defs = Wkt2Definitions::from_text("6678\tPROJCRS[\"JGD2011 / Japan Plane Rectangular CS X\"]\r\n");
    assert_eq!(
        epsg_to_wkt2(&defs, 6678).unwrap(),
        "PROJCRS[\"JGD2011 / Japan Plane Rectangular CS X\"]"
    );
    assert!(Wkt2Definitions::from_gz(&vec![1, 2, 3]).is_none());
}

#[test]
fn error_messages() {
    assert_eq!(ParseError::UnexpectedEnd.message(), "unexpected end of input");
    assert_eq!(
        ParseError::UnexpectedChar { expected: '[', found: '(', pos: 7 }.message(),
        "expected '[', found '(' at position 7"
    );
    assert_eq!(
        ParseError::UnknownEpsgCode { code: -42 }.message(),
        "unknown EPSG code: -42"
    );
    assert_eq!(
        ParseError::UnknownParameter { method: "M".to_string(), name: "p".to_string() }.message(),
        "unknown parameter 'p' for projection method 'M'"
    );
    let err = parse_wkt1(r#"LOCAL_CS["x"]"#).unwrap_err();
    assert_eq!(err.message(), "unsupported WKT1 construct 'LOCAL_CS' at position 0");
}

#[test]
fn error_positions_are_byte_offsets() {
    // "é" takes two bytes: the stray character after the CRS is at byte 67.
    let wkt = "VERTCRS[\"héight\",VDATUM[\"d\"],CS[vertical,1],AXIS[\"h\",up]]  x";
    match parse_wkt2(wkt) {
        Err(ParseError::TrailingInput { pos }) => assert_eq!(pos, wkt.find('x').unwrap()),
        other => panic!("expected TrailingInput, got {other:?}"),
    }
}

#[test]
fn numbers_are_kept_as_written() {
    let crs = parse_wkt2(
        r#"GEOGCRS["g",DATUM["d",ELLIPSOID["e",6378137.000,298.257223563]],CS[ellipsoidal,2],ID["EPSG",4326]]"#,
    )
    .unwrap();
    let wkt = crs.to_wkt2();
    assert!(wkt.contains("ELLIPSOID[\"e\",6378137,298.257223563]"), "{wkt}");
    let Crs::GeogCrs(g) = crs else { panic!() };
    assert_eq!(
        g.identifiers[0].authority_unique_id,
        parse_id_number("4326")
    );
}

fn parse_id_number(code: &str) -> AuthorityId {
    let crs = parse_wkt2(&format!(
        r#"GEOGCRS["g",DATUM["d",ELLIPSOID["e",1,1]],CS[ellipsoidal,2],ID["EPSG",{code}]]"#
    ))
    .unwrap();
    let Crs::GeogCrs(g) = crs else { panic!() };
    g.identifiers[0].authority_unique_id.clone()
}

#[test]
fn encoded_store_reads_back_its_entries() {
    let mut entries: Vec<(i32, String)> = Vec::new();
    for i in 0..150 {
        entries.push((-20 + 7 * i, format!("definition number {i}: ü")));
    }
    let bytes = encode_store(&entries).unwrap();
    assert!(header_fits(&bytes));
    // 150 entries make three chunks of at most 64 entries.
    assert_eq!(u32::from_le_bytes([bytes[0], bytes[1], bytes[2], bytes[3]]), 3);
    assert_eq!(u32::from_le_bytes([bytes[4], bytes[5], bytes[6], bytes[7]]), 150);
    let store = ChunkedStore::new(bytes);
    for (code, text) in &entries {
        assert_eq!(store.lookup(*code).as_deref(), Some(text.as_str()));
    }
    assert_eq!(store.lookup(-19), None);
    assert_eq!(store.lookup(10_000), None);
}

#[test]
fn encoded_store_of_nothing() {
    let bytes = encode_store(&Vec::new()).unwrap();
    assert_eq!(bytes, vec![0, 0, 0, 0, 0, 0, 0, 0]);
    let store = ChunkedStore::new(bytes);
    assert_eq!(store.lookup(4326), None);
}

#[test]
fn lossy_reads_what_strict_reads() {
    let wkt = r#"GEOGCS["GCS_WGS_1984",DATUM["D_WGS_1984",SPHEROID["WGS_1984",6378137.0,298.257223563]],PRIMEM["Greenwich",0.0],UNIT["Degree",0.0174532925199433]]"#;
    let strict = epsg_utils::parse_wkt1(wkt).unwrap();
    let lossy = epsg_utils::parse_wkt1_lossy(wkt).unwrap();
    assert_eq!(strict, lossy);
}

#[test]
fn definition_file_names_and_codes() {
    assert!(is_definition_file_name("EPSG-CRS-4326.wkt"));
    assert!(!is_definition_file_name("EPSG-CRS-4326.txt"));
    assert!(!is_definition_file_name("README.md"));
    assert_eq!(definition_file_code("EPSG-CRS-4326.wkt"), Some(4326));
    assert_eq!(definition_file_code("EPSG-CRS-+6678.wkt"), Some(6678));
    assert_eq!(definition_file_code("EPSG-CRS--12.wkt"), Some(-12));
    assert_eq!(definition_file_code("EPSG-CRS-12a.wkt"), None);
    assert_eq!(definition_file_code("EPSG-CRS-.wkt"), None);
    assert_eq!(definition_file_code("EPSG-CRS-99999999999.wkt"), None);
    assert_eq!(definition_file_code("EPSG-CRS-4326.txt"), None);
}

#[test]
fn entries_sorted_by_code() {
    let es = vec![
        (32631, "b".to_string(), "B".to_string()),
        (4326, "a".to_string(), "A".to_string()),
        (6678, "c".to_string(), "C".to_string()),
    ];
    let sorted = sort_by_code(es);
    let codes: Vec<i32> = sorted.iter().map(|e| e.0).collect();
    assert_eq!(codes, vec![4326, 6678, 32631]);
    assert_eq!(sorted[0].1, "a");
    assert_eq!(sorted[2].2, "B");
}

#[test]
fn epsg_to_wkt2_unknown() {
    let defs = Wkt2Definitions::from_text("4326\tGEOGCRS[\"WGS 84\"]\n6678\tPROJCRS[\"JGD2011 / Japan Plane Rectangular CS X\"]\n");
    assert!(matches!(
        epsg_to_wkt2(&defs, 99999),
        Err(ParseError::UnknownEpsgCode { code: 99999 })
    ));
}

#[test]
fn epsg_to_projjson_unknown() {
    let bytes = encode_store(&vec![
        (4326, "{\"type\":\"GeographicCRS\"}".to_string()),
        (6678, "{\"type\":\"ProjectedCRS\"}".to_string()),
    ])
    .unwrap();
    assert!(header_fits(&bytes));
    let store = ChunkedStore::new(bytes);
    assert!(matches!(
        epsg_to_projjson(&store, 99999),
        Err(ParseError::UnknownEpsgCode { code: 99999 })
    ));
}

#[test]
fn sort_by_code_keeps_equal_codes_in_order() {
    let es = vec![
        (2, "first".to_string(), "x".to_string()),
        (1, "one".to_string(), "y".to_string()),
        (2, "second".to_string(), "z".to_string()),
        (2, "third".to_string(), "w".to_string()),
    ];
    let sorted = sort_by_code(es);
    let names: Vec<&str> = sorted.iter().map(|e| e.1.as_str()).collect();
    assert_eq!(names, vec!["one", "first", "second", "third"]);
}
