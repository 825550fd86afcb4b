pub mod parse_datum;
pub mod parse_meta;
pub mod parse_cs;
pub mod parse_crs;
pub mod writer;
pub mod roundtrip;
pub mod roundtrip_crs;
pub mod roundtrip_compound;
