//! ESRI spellings of EPSG names, as written to `.prj` files, with the
//! official EPSG name and code of each. Each table is sorted by its ESRI
//! name, without duplicates. The tables hold the entries this library
//! recognises; names outside them fall back to spelling normalization.
use vstd::prelude::*;
use crate::wkt1::names::AliasTable;

verus! {

/// The entries of [`geodetic_datum_aliases`].
pub open spec fn geodetic_datum_aliases_entries() -> Seq<(&'static str, &'static str, i32)> {
    seq![
        ("D_Amersfoort", "Amersfoort", 6289i32),
        ("D_Deutsches_Hauptdreiecksnetz", "Deutsches Hauptdreiecksnetz", 6314i32),
        ("D_Iraqi_Geospatial_Reference_System", "Iraqi Geospatial Reference System", 1029i32),
        ("D_NAD_1983_2011", "NAD83 (National Spatial Reference System 2011)", 1116i32),
        ("D_NTF_Paris", "Nouvelle Triangulation Francaise (Paris)", 6807i32),
        ("D_North_American_1927", "North American Datum 1927", 6267i32),
        ("D_North_American_1983", "North American Datum 1983", 6269i32),
        ("D_OSGB_1936", "Ordnance Survey of Great Britain 1936", 6277i32),
        ("D_WGS_1984", "World Geodetic System 1984 ensemble", 6326i32),
    ]
}

/// The entries of [`vertical_datum_aliases`].
pub open spec fn vertical_datum_aliases_entries() -> Seq<(&'static str, &'static str, i32)> {
    seq![
        ("EGM2008_Geoid", "EGM2008 geoid", 1027i32),
        ("Mean_Sea_Level", "Mean Sea Level", 5100i32),
        ("North_American_Vertical_Datum_1988", "North American Vertical Datum 1988", 5103i32),
        ("Ordnance_Datum_Newlyn", "Ordnance Datum Newlyn", 5101i32),
    ]
}

/// The entries of [`ellipsoid_aliases`].
pub open spec fn ellipsoid_aliases_entries() -> Seq<(&'static str, &'static str, i32)> {
    seq![
        ("Airy_1830", "Airy 1830", 7001i32),
        ("Bessel_1841", "Bessel 1841", 7004i32),
        ("Clarke_1866", "Clarke 1866", 7008i32),
        ("Clarke_1880_IGN", "Clarke 1880 (IGN)", 7011i32),
        ("GRS_1980", "GRS 1980", 7019i32),
        ("WGS_1984", "WGS 84", 7030i32),
    ]
}

/// The entries of [`unit_aliases`].
pub open spec fn unit_aliases_entries() -> Seq<(&'static str, &'static str, i32)> {
    seq![
        ("Foot", "foot", 9002i32),
        ("Foot_US", "US survey foot", 9003i32),
        ("Kilometer", "kilometre", 9036i32),
        ("Meter", "metre", 9001i32),
    ]
}

/// The entries of [`builtin_units`].
pub open spec fn builtin_units_entries() -> Seq<(&'static str, &'static str)> {
    seq![
        ("degree", "degree"),
        ("foot", "foot"),
        ("grad", "grad"),
        ("gradian", "grad"),
        ("kilometer", "kilometre"),
        ("kilometre", "kilometre"),
        ("link", "link"),
        ("meter", "metre"),
        ("metre", "metre"),
        ("radian", "radian"),
        ("unity", "unity"),
        ("us survey foot", "US survey foot"),
    ]
}

/// Geodetic datums.
pub fn geodetic_datum_aliases() -> (r: AliasTable)
    ensures
        r@ == geodetic_datum_aliases_entries(),
{
    vec![
        ("D_Amersfoort", "Amersfoort", 6289),
        ("D_Deutsches_Hauptdreiecksnetz", "Deutsches Hauptdreiecksnetz", 6314),
        ("D_Iraqi_Geospatial_Reference_System", "Iraqi Geospatial Reference System", 1029),
        ("D_NAD_1983_2011", "NAD83 (National Spatial Reference System 2011)", 1116),
        ("D_NTF_Paris", "Nouvelle Triangulation Francaise (Paris)", 6807),
        ("D_North_American_1927", "North American Datum 1927", 6267),
        ("D_North_American_1983", "North American Datum 1983", 6269),
        ("D_OSGB_1936", "Ordnance Survey of Great Britain 1936", 6277),
        ("D_WGS_1984", "World Geodetic System 1984 ensemble", 6326),
    ]
}

/// Vertical datums.
pub fn vertical_datum_aliases() -> (r: AliasTable)
    ensures
        r@ == vertical_datum_aliases_entries(),
{
    vec![
        ("EGM2008_Geoid", "EGM2008 geoid", 1027),
        ("Mean_Sea_Level", "Mean Sea Level", 5100),
        ("North_American_Vertical_Datum_1988", "North American Vertical Datum 1988", 5103),
        ("Ordnance_Datum_Newlyn", "Ordnance Datum Newlyn", 5101),
    ]
}

/// Ellipsoids.
pub fn ellipsoid_aliases() -> (r: AliasTable)
    ensures
        r@ == ellipsoid_aliases_entries(),
{
    vec![
        ("Airy_1830", "Airy 1830", 7001),
        ("Bessel_1841", "Bessel 1841", 7004),
        ("Clarke_1866", "Clarke 1866", 7008),
        ("Clarke_1880_IGN", "Clarke 1880 (IGN)", 7011),
        ("GRS_1980", "GRS 1980", 7019),
        ("WGS_1984", "WGS 84", 7030),
    ]
}

/// Linear units.
pub fn unit_aliases() -> (r: AliasTable)
    ensures
        r@ == unit_aliases_entries(),
{
    vec![
        ("Foot", "foot", 9002),
        ("Foot_US", "US survey foot", 9003),
        ("Kilometer", "kilometre", 9036),
        ("Meter", "metre", 9001),
    ]
}

/// Well-known unit spellings that the unit alias table lacks (it holds
/// linear units only), keyed by their lowercase form.
pub fn builtin_units() -> (r: Vec<(&'static str, &'static str)>) 
    ensures
        r@ == builtin_units_entries(),
{
    vec![
        ("degree", "degree"),
        ("foot", "foot"),
        ("grad", "grad"),
        ("gradian", "grad"),
        ("kilometer", "kilometre"),
        ("kilometre", "kilometre"),
        ("link", "link"),
        ("meter", "metre"),
        ("metre", "metre"),
        ("radian", "radian"),
        ("unity", "unity"),
        ("us survey foot", "US survey foot"),
    ]
}

} // verus!
