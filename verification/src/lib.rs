//! Parsing, writing and lookup of EPSG coordinate reference system definitions.
use vstd::prelude::*;

pub mod crs;
pub mod decimal;
pub mod definitions;
pub mod epsg;
pub mod generator;
pub mod error;
pub mod model;
pub mod projjson;
pub mod json;
pub mod projjson_reader;
pub mod store_writer;
pub mod text;
pub mod wkt1;
pub mod wkt2;

pub use crate::crs::{CompoundCrs, Crs, GeodCrs, GeogCrs, ProjectedCrs, VertCrs};
pub use crate::definitions::{epsg_to_projjson, epsg_to_wkt2, ChunkedStore, Wkt2Definitions};
pub use crate::error::ParseError;
pub use crate::projjson_reader::parse_projjson;
pub use crate::text::Parser;
pub use crate::wkt1::parser::{wkt1_tables, Wkt1Tables};
use crate::wkt1::grammar::sp1_text;
use crate::wkt1::parser::shipped_tables_v;
use crate::text::err_at_bytes;

verus! {

/// Parse a WKT2 string into a [`Crs`]. Error positions are byte offsets.
pub fn parse_wkt2(input: &str) -> (r: Result<Crs, ParseError>)
    ensures
        match crate::wkt2::parse_crs::sp_crs_text(input@) {
            Ok(v) => r matches Ok(x) && x@ == v,
            Err(e) => r matches Err(x) && x@ == crate::text::err_at_bytes(input@, e),
        },
{
    let mut p = Parser::new(input);
    match p.parse_crs() {
        Ok(c) => Ok(c),
        Err(e) => Err(p.error_at_bytes(e)),
    }
}

/// Parse a WKT1 string (GDAL or ESRI dialect) with the given name and method
/// tables; `lossy` drops the nodes that the CRS model cannot hold, such as
/// `TOWGS84` or `EXTENSION`, which are otherwise refused. Error positions are
/// byte offsets.
pub fn parse_wkt1_with(input: &str, tables: &Wkt1Tables, lossy: bool) -> (r: Result<Crs, ParseError>)
    ensures
        match sp1_text(input@, 0, tables@, lossy) {
            Ok(v) => r matches Ok(x) && x@ == v,
            Err(e) => r matches Err(x) && x@ == err_at_bytes(input@, e),
        },
{
    let mut p = Parser::new(input);
    match crate::wkt1::parser::parse(&mut p, tables, lossy) {
        Ok(c) => Ok(c),
        Err(e) => Err(p.error_at_bytes(e)),
    }
}

/// Parse a WKT1 string (GDAL or ESRI dialect) with the tables this library
/// ships. Nodes that the CRS model cannot hold, such as `TOWGS84` or
/// `EXTENSION`, are refused. Error positions are byte offsets.
pub fn parse_wkt1(input: &str) -> (r: Result<Crs, ParseError>)
    ensures
        match sp1_text(input@, 0, shipped_tables_v(), false) {
            Ok(v) => r matches Ok(x) && x@ == v,
            Err(e) => r matches Err(x) && x@ == err_at_bytes(input@, e),
        },
{
    let t = wkt1_tables();
    parse_wkt1_with(input, &t, false)
}

/// Parse a WKT1 string (GDAL or ESRI dialect) with the tables this library
/// ships, dropping the nodes that the CRS model cannot hold. Error positions
/// are byte offsets.
pub fn parse_wkt1_lossy(input: &str) -> (r: Result<Crs, ParseError>)
    ensures
        match sp1_text(input@, 0, shipped_tables_v(), true) {
            Ok(v) => r matches Ok(x) && x@ == v,
            Err(e) => r matches Err(x) && x@ == err_at_bytes(input@, e),
        },
{
    let t = wkt1_tables();
    parse_wkt1_with(input, &t, true)
}

} // verus!
