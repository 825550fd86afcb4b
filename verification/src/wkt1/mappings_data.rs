//! The WKT1 projection method tables: how GDAL and ESRI name each EPSG
//! method and its parameters. The tables hold the methods this library
//! recognises; a method outside them is looked up by its EPSG name.
use vstd::prelude::*;
use crate::wkt1::mappings::{
    EsriMethodMapping, EsriMethodMappingV, EsriParamMapping, EsriParamMappingV, MethodMapping,
    MethodMappingV, ParamMapping, ParamMappingV, UnitType,
};

verus! {

/// A GDAL parameter spelling, as a value.
pub open spec fn gdal_param_v(wkt1_name: Seq<char>, epsg_name: Seq<char>, epsg_code: i32, unit_type: UnitType) -> ParamMappingV {
    ParamMappingV { wkt1_name, epsg_name, epsg_code, unit_type }
}

/// A GDAL method spelling, as a value.
pub open spec fn gdal_method_v(wkt1_name: Seq<char>, epsg_name: Seq<char>, epsg_code: i32, params: Seq<ParamMappingV>) -> MethodMappingV {
    MethodMappingV { wkt1_name, epsg_name, epsg_code, params }
}

pub open spec fn lat_nat_v(w: Seq<char>) -> ParamMappingV {
    gdal_param_v(w, "Latitude of natural origin"@, 8801, UnitType::Angular)
}

pub open spec fn lon_nat_v(w: Seq<char>) -> ParamMappingV {
    gdal_param_v(w, "Longitude of natural origin"@, 8802, UnitType::Angular)
}

pub open spec fn k_nat_v() -> ParamMappingV {
    gdal_param_v("scale_factor"@, "Scale factor at natural origin"@, 8805, UnitType::Scale)
}

pub open spec fn fe_v() -> ParamMappingV {
    gdal_param_v("false_easting"@, "False easting"@, 8806, UnitType::Linear)
}

pub open spec fn fn_v() -> ParamMappingV {
    gdal_param_v("false_northing"@, "False northing"@, 8807, UnitType::Linear)
}

/// The parameters of the Krovak methods.
pub open spec fn krovak_params_v() -> Seq<ParamMappingV> {
    seq![
        gdal_param_v("latitude_of_center"@, "Latitude of projection centre"@, 8811, UnitType::Angular),
        gdal_param_v("longitude_of_center"@, "Longitude of origin"@, 8833, UnitType::Angular),
        gdal_param_v("azimuth"@, "Co-latitude of cone axis"@, 1036, UnitType::Angular),
        gdal_param_v("pseudo_standard_parallel_1"@, "Latitude of pseudo standard parallel"@, 8818, UnitType::Angular),
        gdal_param_v("scale_factor"@, "Scale factor on pseudo standard parallel"@, 8819, UnitType::Scale),
        fe_v(),
        fn_v(),
    ]
}

/// The GDAL table.
pub open spec fn gdal_methods_v() -> Seq<MethodMappingV> {
    seq![
        gdal_method_v(
            "Transverse_Mercator"@,
            "Transverse Mercator"@,
            9807,
            seq![lat_nat_v("latitude_of_origin"@), lon_nat_v("central_meridian"@), k_nat_v(), fe_v(), fn_v()],
        ),
        gdal_method_v(
            "Mercator_1SP"@,
            "Mercator (variant A)"@,
            9804,
            seq![lat_nat_v("latitude_of_origin"@), lon_nat_v("central_meridian"@), k_nat_v(), fe_v(), fn_v()],
        ),
        gdal_method_v(
            "Mercator_2SP"@,
            "Mercator (variant B)"@,
            9805,
            seq![
                gdal_param_v("standard_parallel_1"@, "Latitude of 1st standard parallel"@, 8823, UnitType::Angular),
                lon_nat_v("central_meridian"@),
                fe_v(),
                fn_v(),
            ],
        ),
        gdal_method_v(
            "Popular_Visualisation_Pseudo_Mercator"@,
            "Popular Visualisation Pseudo Mercator"@,
            1024,
            seq![lat_nat_v("latitude_of_origin"@), lon_nat_v("central_meridian"@), fe_v(), fn_v()],
        ),
        gdal_method_v(
            "Lambert_Conformal_Conic_1SP"@,
            "Lambert Conic Conformal (1SP)"@,
            9801,
            seq![lat_nat_v("latitude_of_origin"@), lon_nat_v("central_meridian"@), k_nat_v(), fe_v(), fn_v()],
        ),
        gdal_method_v(
            "Lambert_Conformal_Conic_2SP"@,
            "Lambert Conic Conformal (2SP)"@,
            9802,
            seq![
                gdal_param_v("latitude_of_origin"@, "Latitude of false origin"@, 8821, UnitType::Angular),
                gdal_param_v("central_meridian"@, "Longitude of false origin"@, 8822, UnitType::Angular),
                gdal_param_v("standard_parallel_1"@, "Latitude of 1st standard parallel"@, 8823, UnitType::Angular),
                gdal_param_v("standard_parallel_2"@, "Latitude of 2nd standard parallel"@, 8824, UnitType::Angular),
                gdal_param_v("false_easting"@, "Easting at false origin"@, 8826, UnitType::Linear),
                gdal_param_v("false_northing"@, "Northing at false origin"@, 8827, UnitType::Linear),
            ],
        ),
        gdal_method_v(
            "Albers_Conic_Equal_Area"@,
            "Albers Equal Area"@,
            9822,
            seq![
                gdal_param_v("latitude_of_center"@, "Latitude of false origin"@, 8821, UnitType::Angular),
                gdal_param_v("longitude_of_center"@, "Longitude of false origin"@, 8822, UnitType::Angular),
                gdal_param_v("standard_parallel_1"@, "Latitude of 1st standard parallel"@, 8823, UnitType::Angular),
                gdal_param_v("standard_parallel_2"@, "Latitude of 2nd standard parallel"@, 8824, UnitType::Angular),
                gdal_param_v("false_easting"@, "Easting at false origin"@, 8826, UnitType::Linear),
                gdal_param_v("false_northing"@, "Northing at false origin"@, 8827, UnitType::Linear),
            ],
        ),
        gdal_method_v(
            "Lambert_Azimuthal_Equal_Area"@,
            "Lambert Azimuthal Equal Area"@,
            9820,
            seq![lat_nat_v("latitude_of_center"@), lon_nat_v("longitude_of_center"@), fe_v(), fn_v()],
        ),
        gdal_method_v(
            "Polar_Stereographic"@,
            "Polar Stereographic (variant A)"@,
            9810,
            seq![lat_nat_v("latitude_of_origin"@), lon_nat_v("central_meridian"@), k_nat_v(), fe_v(), fn_v()],
        ),
        gdal_method_v(
            "Polar_Stereographic"@,
            "Polar Stereographic (variant B)"@,
            9829,
            seq![
                gdal_param_v("latitude_of_origin"@, "Latitude of standard parallel"@, 8832, UnitType::Angular),
                gdal_param_v("central_meridian"@, "Longitude of origin"@, 8833, UnitType::Angular),
                fe_v(),
                fn_v(),
            ],
        ),
        gdal_method_v(
            "Oblique_Stereographic"@,
            "Oblique Stereographic"@,
            9809,
            seq![lat_nat_v("latitude_of_origin"@), lon_nat_v("central_meridian"@), k_nat_v(), fe_v(), fn_v()],
        ),
        gdal_method_v(
            "Stereographic"@,
            "Stereographic"@,
            0,
            seq![lat_nat_v("latitude_of_origin"@), lon_nat_v("central_meridian"@), k_nat_v(), fe_v(), fn_v()],
        ),
        gdal_method_v(
            "Equirectangular"@,
            "Equidistant Cylindrical"@,
            1028,
            seq![
                gdal_param_v("standard_parallel_1"@, "Latitude of 1st standard parallel"@, 8823, UnitType::Angular),
                lat_nat_v("latitude_of_origin"@),
                lon_nat_v("central_meridian"@),
                fe_v(),
                fn_v(),
            ],
        ),
        gdal_method_v(
            "Equirectangular"@,
            "Equidistant Cylindrical (Spherical)"@,
            1029,
            seq![
                gdal_param_v("standard_parallel_1"@, "Latitude of 1st standard parallel"@, 8823, UnitType::Angular),
                lat_nat_v("latitude_of_origin"@),
                lon_nat_v("central_meridian"@),
                fe_v(),
                fn_v(),
            ],
        ),
        gdal_method_v("Krovak"@, "Krovak"@, 9819, krovak_params_v()),
        gdal_method_v("Krovak"@, "Krovak (North Orientated)"@, 1041, krovak_params_v())
    ]
}

/// An ESRI parameter spelling with an EPSG equivalent, as a value.
pub open spec fn esri_param_v(esri_name: Seq<char>, epsg_name: Seq<char>, epsg_code: i32) -> EsriParamMappingV {
    EsriParamMappingV { esri_name, epsg_name, epsg_code, fixed_value: ""@ }
}

/// An ESRI parameter accepted only at a fixed value, as a value.
pub open spec fn fixed_v(esri_name: Seq<char>, value: Seq<char>) -> EsriParamMappingV {
    EsriParamMappingV { esri_name, epsg_name: ""@, epsg_code: 0, fixed_value: value }
}

/// An ESRI method spelling, as a value.
pub open spec fn esri_method_v(esri_name: Seq<char>, epsg_name: Seq<char>, epsg_code: i32, params: Seq<EsriParamMappingV>) -> EsriMethodMappingV {
    EsriMethodMappingV { esri_name, epsg_name, epsg_code, params }
}

/// The ESRI parameters of the natural-origin methods.
pub open spec fn natural_origin_params_v() -> Seq<EsriParamMappingV> {
    seq![
        esri_param_v("False_Easting"@, "False easting"@, 8806),
        esri_param_v("False_Northing"@, "False northing"@, 8807),
        esri_param_v("Central_Meridian"@, "Longitude of natural origin"@, 8802),
        esri_param_v("Scale_Factor"@, "Scale factor at natural origin"@, 8805),
        esri_param_v("Latitude_Of_Origin"@, "Latitude of natural origin"@, 8801),
    ]
}

/// The ESRI table.
pub open spec fn esri_methods_v() -> Seq<EsriMethodMappingV> {
    seq![
        esri_method_v("Transverse_Mercator"@, "Transverse Mercator"@, 9807, natural_origin_params_v()),
        esri_method_v("Gauss_Kruger"@, "Transverse Mercator"@, 9807, natural_origin_params_v()),
        esri_method_v(
            "Mercator_Auxiliary_Sphere"@,
            "Popular Visualisation Pseudo Mercator"@,
            1024,
            seq![
                esri_param_v("False_Easting"@, "False easting"@, 8806),
                esri_param_v("False_Northing"@, "False northing"@, 8807),
                esri_param_v("Central_Meridian"@, "Longitude of natural origin"@, 8802),
                esri_param_v("Standard_Parallel_1"@, "Latitude of natural origin"@, 8801),
                fixed_v("Auxiliary_Sphere_Type"@, "0.0"@),
            ],
        ),
        esri_method_v(
            "Mercator"@,
            "Mercator (variant B)"@,
            9805,
            seq![
                esri_param_v("False_Easting"@, "False easting"@, 8806),
                esri_param_v("False_Northing"@, "False northing"@, 8807),
                esri_param_v("Central_Meridian"@, "Longitude of natural origin"@, 8802),
                esri_param_v("Standard_Parallel_1"@, "Latitude of 1st standard parallel"@, 8823),
            ],
        ),
        esri_method_v(
            "Lambert_Conformal_Conic"@,
            "Lambert Conic Conformal (1SP)"@,
            9801,
            seq![
                esri_param_v("False_Easting"@, "False easting"@, 8806),
                esri_param_v("False_Northing"@, "False northing"@, 8807),
                esri_param_v("Central_Meridian"@, "Longitude of natural origin"@, 8802),
                esri_param_v("Standard_Parallel_1"@, "Latitude of natural origin"@, 8801),
                esri_param_v("Scale_Factor"@, "Scale factor at natural origin"@, 8805),
                esri_param_v("Latitude_Of_Origin"@, "Latitude of natural origin"@, 8801),
            ],
        ),
        esri_method_v(
            "Lambert_Conformal_Conic"@,
            "Lambert Conic Conformal (2SP)"@,
            9802,
            seq![
                esri_param_v("False_Easting"@, "Easting at false origin"@, 8826),
                esri_param_v("False_Northing"@, "Northing at false origin"@, 8827),
                esri_param_v("Central_Meridian"@, "Longitude of false origin"@, 8822),
                esri_param_v("Standard_Parallel_1"@, "Latitude of 1st standard parallel"@, 8823),
                esri_param_v("Standard_Parallel_2"@, "Latitude of 2nd standard parallel"@, 8824),
                fixed_v("Scale_Factor"@, "1.0"@),
                esri_param_v("Latitude_Of_Origin"@, "Latitude of false origin"@, 8821),
            ],
        ),
        esri_method_v("Stereographic"@, "Stereographic"@, 0, natural_origin_params_v()),
        esri_method_v("Double_Stereographic"@, "Oblique Stereographic"@, 9809, natural_origin_params_v())
    ]
}

/// The EPSG method names with their codes.
pub open spec fn epsg_method_names_v() -> Seq<(Seq<char>, i32)> {
    seq![
        ("Albers Equal Area"@, 9822),
        ("Equidistant Cylindrical"@, 1028),
        ("Equidistant Cylindrical (Spherical)"@, 1029),
        ("Krovak"@, 9819),
        ("Krovak (North Orientated)"@, 1041),
        ("Lambert Azimuthal Equal Area"@, 9820),
        ("Lambert Conic Conformal (1SP)"@, 9801),
        ("Lambert Conic Conformal (2SP)"@, 9802),
        ("Lambert Conic Conformal (West Orientated)"@, 9826),
        ("Mercator (variant A)"@, 9804),
        ("Mercator (variant B)"@, 9805),
        ("Oblique Stereographic"@, 9809),
        ("Polar Stereographic (variant A)"@, 9810),
        ("Polar Stereographic (variant B)"@, 9829),
        ("Popular Visualisation Pseudo Mercator"@, 1024),
        ("Transverse Mercator"@, 9807),
        ("Transverse Mercator (South Orientated)"@, 9808),
    ]
}

/// The EPSG parameter names with their codes.
pub open spec fn epsg_param_names_v() -> Seq<(Seq<char>, i32)> {
    seq![
        ("Co-latitude of cone axis"@, 1036),
        ("Latitude of natural origin"@, 8801),
        ("Longitude of natural origin"@, 8802),
        ("Scale factor at natural origin"@, 8805),
        ("False easting"@, 8806),
        ("False northing"@, 8807),
        ("Latitude of projection centre"@, 8811),
        ("Latitude of pseudo standard parallel"@, 8818),
        ("Scale factor on pseudo standard parallel"@, 8819),
        ("Latitude of false origin"@, 8821),
        ("Longitude of false origin"@, 8822),
        ("Latitude of 1st standard parallel"@, 8823),
        ("Latitude of 2nd standard parallel"@, 8824),
        ("Easting at false origin"@, 8826),
        ("Northing at false origin"@, 8827),
        ("Latitude of standard parallel"@, 8832),
        ("Longitude of origin"@, 8833),
    ]
}

/// The unit type of each EPSG parameter code.
pub open spec fn param_unit_types_v() -> Seq<(i32, UnitType)> {
    seq![
        (1036i32, UnitType::Angular),
        (8801i32, UnitType::Angular),
        (8802i32, UnitType::Angular),
        (8805i32, UnitType::Scale),
        (8806i32, UnitType::Linear),
        (8807i32, UnitType::Linear),
        (8811i32, UnitType::Angular),
        (8818i32, UnitType::Angular),
        (8819i32, UnitType::Scale),
        (8821i32, UnitType::Angular),
        (8822i32, UnitType::Angular),
        (8823i32, UnitType::Angular),
        (8824i32, UnitType::Angular),
        (8826i32, UnitType::Linear),
        (8827i32, UnitType::Linear),
        (8832i32, UnitType::Angular),
        (8833i32, UnitType::Angular),
    ]
}

fn p(wkt1_name: &'static str, epsg_name: &'static str, epsg_code: i32, unit_type: UnitType) -> (r: ParamMapping)
    ensures
        r.wkt1_name == wkt1_name,
        r.epsg_name == epsg_name,
        r.epsg_code == epsg_code,
        r.unit_type == unit_type,
{
    ParamMapping { wkt1_name, epsg_name, epsg_code, unit_type }
}

fn lat_nat(w: &'static str) -> (r: ParamMapping)
    ensures
        r@ == lat_nat_v(w@),
{
    p(w, "Latitude of natural origin", 8801, UnitType::Angular)
}

fn lon_nat(w: &'static str) -> (r: ParamMapping)
    ensures
        r@ == lon_nat_v(w@),
{
    p(w, "Longitude of natural origin", 8802, UnitType::Angular)
}

fn k_nat() -> (r: ParamMapping)
    ensures
        r@ == k_nat_v(),
{
    p("scale_factor", "Scale factor at natural origin", 8805, UnitType::Scale)
}

fn fe() -> (r: ParamMapping)
    ensures
        r@ == fe_v(),
{
    p("false_easting", "False easting", 8806, UnitType::Linear)
}

fn fn_() -> (r: ParamMapping)
    ensures
        r@ == fn_v(),
{
    p("false_northing", "False northing", 8807, UnitType::Linear)
}

fn m(wkt1_name: &'static str, epsg_name: &'static str, epsg_code: i32, params: Vec<ParamMapping>) -> (r: MethodMapping)
    ensures
        r@ == gdal_method_v(wkt1_name@, epsg_name@, epsg_code, params@.map_values(|x: ParamMapping| x@)),
{
    MethodMapping { wkt1_name, epsg_name, epsg_code, params }
}

/// The GDAL spellings of methods and parameters.
pub fn gdal_methods() -> (r: Vec<MethodMapping>)
    ensures
    r@.map_values(|x: MethodMapping| x@) == gdal_methods_v(),
{
    let mut t: Vec<MethodMapping> = Vec::new();
    let x0 = m(
        "Transverse_Mercator",
        "Transverse Mercator",
        9807,
        vec![lat_nat("latitude_of_origin"), lon_nat("central_meridian"), k_nat(), fe(), fn_()],
    );
    assert(x0@.params =~= seq![lat_nat_v("latitude_of_origin"@), lon_nat_v("central_meridian"@), k_nat_v(), fe_v(), fn_v()]);
    assert(gdal_methods_v()[0] == gdal_method_v(
        "Transverse_Mercator"@,
        "Transverse Mercator"@,
        9807,
        seq![lat_nat_v("latitude_of_origin"@), lon_nat_v("central_meridian"@), k_nat_v(), fe_v(), fn_v()],
    ));
    assert(x0@ =~~= gdal_methods_v()[0]);
    t.push(x0);
    let x1 = m(
        "Mercator_1SP",
        "Mercator (variant A)",
        9804,
        vec![lat_nat("latitude_of_origin"), lon_nat("central_meridian"), k_nat(), fe(), fn_()],
    );
    assert(x1@.params =~= seq![lat_nat_v("latitude_of_origin"@), lon_nat_v("central_meridian"@), k_nat_v(), fe_v(), fn_v()]);
    assert(gdal_methods_v()[1] == gdal_method_v(
        "Mercator_1SP"@,
        "Mercator (variant A)"@,
        9804,
        seq![lat_nat_v("latitude_of_origin"@), lon_nat_v("central_meridian"@), k_nat_v(), fe_v(), fn_v()],
    ));
    assert(x1@ =~~= gdal_methods_v()[1]);
    t.push(x1);
    let x2 = m(
        "Mercator_2SP",
        "Mercator (variant B)",
        9805,
        vec![
            p("standard_parallel_1", "Latitude of 1st standard parallel", 8823, UnitType::Angular),
            lon_nat("central_meridian"),
            fe(),
            fn_(),
        ],
    );
    assert(x2@.params =~= seq![
            gdal_param_v("standard_parallel_1"@, "Latitude of 1st standard parallel"@, 8823, UnitType::Angular),
            lon_nat_v("central_meridian"@),
            fe_v(),
            fn_v(),
        ]);
    assert(gdal_methods_v()[2] == gdal_method_v(
        "Mercator_2SP"@,
        "Mercator (variant B)"@,
        9805,
        seq![
            gdal_param_v("standard_parallel_1"@, "Latitude of 1st standard parallel"@, 8823, UnitType::Angular),
            lon_nat_v("central_meridian"@),
            fe_v(),
            fn_v(),
        ],
    ));
    assert(x2@ =~~= gdal_methods_v()[2]);
    t.push(x2);
    let x3 = m(
        "Popular_Visualisation_Pseudo_Mercator",
        "Popular Visualisation Pseudo Mercator",
        1024,
        vec![lat_nat("latitude_of_origin"), lon_nat("central_meridian"), fe(), fn_()],
    );
    assert(x3@.params =~= seq![lat_nat_v("latitude_of_origin"@), lon_nat_v("central_meridian"@), fe_v(), fn_v()]);
    assert(gdal_methods_v()[3] == gdal_method_v(
        "Popular_Visualisation_Pseudo_Mercator"@,
        "Popular Visualisation Pseudo Mercator"@,
        1024,
        seq![lat_nat_v("latitude_of_origin"@), lon_nat_v("central_meridian"@), fe_v(), fn_v()],
    ));
    assert(x3@ =~~= gdal_methods_v()[3]);
    t.push(x3);
    let x4 = m(
        "Lambert_Conformal_Conic_1SP",
        "Lambert Conic Conformal (1SP)",
        9801,
        vec![lat_nat("latitude_of_origin"), lon_nat("central_meridian"), k_nat(), fe(), fn_()],
    );
    assert(x4@.params =~= seq![lat_nat_v("latitude_of_origin"@), lon_nat_v("central_meridian"@), k_nat_v(), fe_v(), fn_v()]);
    assert(gdal_methods_v()[4] == gdal_method_v(
        "Lambert_Conformal_Conic_1SP"@,
        "Lambert Conic Conformal (1SP)"@,
        9801,
        seq![lat_nat_v("latitude_of_origin"@), lon_nat_v("central_meridian"@), k_nat_v(), fe_v(), fn_v()],
    ));
    assert(x4@ =~~= gdal_methods_v()[4]);
    t.push(x4);
    let x5 = m(
        "Lambert_Conformal_Conic_2SP",
        "Lambert Conic Conformal (2SP)",
        9802,
        vec![
            p("latitude_of_origin", "Latitude of false origin", 8821, UnitType::Angular),
            p("central_meridian", "Longitude of false origin", 8822, UnitType::Angular),
            p("standard_parallel_1", "Latitude of 1st standard parallel", 8823, UnitType::Angular),
            p("standard_parallel_2", "Latitude of 2nd standard parallel", 8824, UnitType::Angular),
            p("false_easting", "Easting at false origin", 8826, UnitType::Linear),
            p("false_northing", "Northing at false origin", 8827, UnitType::Linear),
        ],
    );
    assert(x5@.params =~= seq![
            gdal_param_v("latitude_of_origin"@, "Latitude of false origin"@, 8821, UnitType::Angular),
            gdal_param_v("central_meridian"@, "Longitude of false origin"@, 8822, UnitType::Angular),
            gdal_param_v("standard_parallel_1"@, "Latitude of 1st standard parallel"@, 8823, UnitType::Angular),
            gdal_param_v("standard_parallel_2"@, "Latitude of 2nd standard parallel"@, 8824, UnitType::Angular),
            gdal_param_v("false_easting"@, "Easting at false origin"@, 8826, UnitType::Linear),
            gdal_param_v("false_northing"@, "Northing at false origin"@, 8827, UnitType::Linear),
        ]);
    assert(gdal_methods_v()[5] == gdal_method_v(
        "Lambert_Conformal_Conic_2SP"@,
        "Lambert Conic Conformal (2SP)"@,
        9802,
        seq![
            gdal_param_v("latitude_of_origin"@, "Latitude of false origin"@, 8821, UnitType::Angular),
            gdal_param_v("central_meridian"@, "Longitude of false origin"@, 8822, UnitType::Angular),
            gdal_param_v("standard_parallel_1"@, "Latitude of 1st standard parallel"@, 8823, UnitType::Angular),
            gdal_param_v("standard_parallel_2"@, "Latitude of 2nd standard parallel"@, 8824, UnitType::Angular),
            gdal_param_v("false_easting"@, "Easting at false origin"@, 8826, UnitType::Linear),
            gdal_param_v("false_northing"@, "Northing at false origin"@, 8827, UnitType::Linear),
        ],
    ));
    assert(x5@ =~~= gdal_methods_v()[5]);
    t.push(x5);
    let x6 = m(
        "Albers_Conic_Equal_Area",
        "Albers Equal Area",
        9822,
        vec![
            p("latitude_of_center", "Latitude of false origin", 8821, UnitType::Angular),
            p("longitude_of_center", "Longitude of false origin", 8822, UnitType::Angular),
            p("standard_parallel_1", "Latitude of 1st standard parallel", 8823, UnitType::Angular),
            p("standard_parallel_2", "Latitude of 2nd standard parallel", 8824, UnitType::Angular),
            p("false_easting", "Easting at false origin", 8826, UnitType::Linear),
            p("false_northing", "Northing at false origin", 8827, UnitType::Linear),
        ],
    );
    assert(x6@.params =~= seq![
            gdal_param_v("latitude_of_center"@, "Latitude of false origin"@, 8821, UnitType::Angular),
            gdal_param_v("longitude_of_center"@, "Longitude of false origin"@, 8822, UnitType::Angular),
            gdal_param_v("standard_parallel_1"@, "Latitude of 1st standard parallel"@, 8823, UnitType::Angular),
            gdal_param_v("standard_parallel_2"@, "Latitude of 2nd standard parallel"@, 8824, UnitType::Angular),
            gdal_param_v("false_easting"@, "Easting at false origin"@, 8826, UnitType::Linear),
            gdal_param_v("false_northing"@, "Northing at false origin"@, 8827, UnitType::Linear),
        ]);
    assert(gdal_methods_v()[6] == gdal_method_v(
        "Albers_Conic_Equal_Area"@,
        "Albers Equal Area"@,
        9822,
        seq![
            gdal_param_v("latitude_of_center"@, "Latitude of false origin"@, 8821, UnitType::Angular),
            gdal_param_v("longitude_of_center"@, "Longitude of false origin"@, 8822, UnitType::Angular),
            gdal_param_v("standard_parallel_1"@, "Latitude of 1st standard parallel"@, 8823, UnitType::Angular),
            gdal_param_v("standard_parallel_2"@, "Latitude of 2nd standard parallel"@, 8824, UnitType::Angular),
            gdal_param_v("false_easting"@, "Easting at false origin"@, 8826, UnitType::Linear),
            gdal_param_v("false_northing"@, "Northing at false origin"@, 8827, UnitType::Linear),
        ],
    ));
    assert(x6@ =~~= gdal_methods_v()[6]);
    t.push(x6);
    let x7 = m(
        "Lambert_Azimuthal_Equal_Area",
        "Lambert Azimuthal Equal Area",
        9820,
        vec![lat_nat("latitude_of_center"), lon_nat("longitude_of_center"), fe(), fn_()],
    );
    assert(x7@.params =~= seq![lat_nat_v("latitude_of_center"@), lon_nat_v("longitude_of_center"@), fe_v(), fn_v()]);
    assert(gdal_methods_v()[7] == gdal_method_v(
        "Lambert_Azimuthal_Equal_Area"@,
        "Lambert Azimuthal Equal Area"@,
        9820,
        seq![lat_nat_v("latitude_of_center"@), lon_nat_v("longitude_of_center"@), fe_v(), fn_v()],
    ));
    assert(x7@ =~~= gdal_methods_v()[7]);
    t.push(x7);
    let x8 = m(
        "Polar_Stereographic",
        "Polar Stereographic (variant A)",
        9810,
        vec![lat_nat("latitude_of_origin"), lon_nat("central_meridian"), k_nat(), fe(), fn_()],
    );
    assert(x8@.params =~= seq![lat_nat_v("latitude_of_origin"@), lon_nat_v("central_meridian"@), k_nat_v(), fe_v(), fn_v()]);
    assert(gdal_methods_v()[8] == gdal_method_v(
        "Polar_Stereographic"@,
        "Polar Stereographic (variant A)"@,
        9810,
        seq![lat_nat_v("latitude_of_origin"@), lon_nat_v("central_meridian"@), k_nat_v(), fe_v(), fn_v()],
    ));
    assert(x8@ =~~= gdal_methods_v()[8]);
    t.push(x8);
    let x9 = m(
        "Polar_Stereographic",
        "Polar Stereographic (variant B)",
        9829,
        vec![
            p("latitude_of_origin", "Latitude of standard parallel", 8832, UnitType::Angular),
            p("central_meridian", "Longitude of origin", 8833, UnitType::Angular),
            fe(),
            fn_(),
        ],
    );
    assert(x9@.params =~= seq![
            gdal_param_v("latitude_of_origin"@, "Latitude of standard parallel"@, 8832, UnitType::Angular),
            gdal_param_v("central_meridian"@, "Longitude of origin"@, 8833, UnitType::Angular),
            fe_v(),
            fn_v(),
        ]);
    assert(gdal_methods_v()[9] == gdal_method_v(
        "Polar_Stereographic"@,
        "Polar Stereographic (variant B)"@,
        9829,
        seq![
            gdal_param_v("latitude_of_origin"@, "Latitude of standard parallel"@, 8832, UnitType::Angular),
            gdal_param_v("central_meridian"@, "Longitude of origin"@, 8833, UnitType::Angular),
            fe_v(),
            fn_v(),
        ],
    ));
    assert(x9@ =~~= gdal_methods_v()[9]);
    t.push(x9);
    let x10 = m(
        "Oblique_Stereographic",
        "Oblique Stereographic",
        9809,
        vec![lat_nat("latitude_of_origin"), lon_nat("central_meridian"), k_nat(), fe(), fn_()],
    );
    assert(x10@.params =~= seq![lat_nat_v("latitude_of_origin"@), lon_nat_v("central_meridian"@), k_nat_v(), fe_v(), fn_v()]);
    assert(gdal_methods_v()[10] == gdal_method_v(
        "Oblique_Stereographic"@,
        "Oblique Stereographic"@,
        9809,
        seq![lat_nat_v("latitude_of_origin"@), lon_nat_v("central_meridian"@), k_nat_v(), fe_v(), fn_v()],
    ));
    assert(x10@ =~~= gdal_methods_v()[10]);
    t.push(x10);
    let x11 = m(
        "Stereographic",
        "Stereographic",
        0,
        vec![lat_nat("latitude_of_origin"), lon_nat("central_meridian"), k_nat(), fe(), fn_()],
    );
    assert(x11@.params =~= seq![lat_nat_v("latitude_of_origin"@), lon_nat_v("central_meridian"@), k_nat_v(), fe_v(), fn_v()]);
    assert(gdal_methods_v()[11] == gdal_method_v(
        "Stereographic"@,
        "Stereographic"@,
        0,
        seq![lat_nat_v("latitude_of_origin"@), lon_nat_v("central_meridian"@), k_nat_v(), fe_v(), fn_v()],
    ));
    assert(x11@ =~~= gdal_methods_v()[11]);
    t.push(x11);
    let x12 = m(
        "Equirectangular",
        "Equidistant Cylindrical",
        1028,
        vec![
            p("standard_parallel_1", "Latitude of 1st standard parallel", 8823, UnitType::Angular),
            lat_nat("latitude_of_origin"),
            lon_nat("central_meridian"),
            fe(),
            fn_(),
        ],
    );
    assert(x12@.params =~= seq![
            gdal_param_v("standard_parallel_1"@, "Latitude of 1st standard parallel"@, 8823, UnitType::Angular),
            lat_nat_v("latitude_of_origin"@),
            lon_nat_v("central_meridian"@),
            fe_v(),
            fn_v(),
        ]);
    assert(gdal_methods_v()[12] == gdal_method_v(
        "Equirectangular"@,
        "Equidistant Cylindrical"@,
        1028,
        seq![
            gdal_param_v("standard_parallel_1"@, "Latitude of 1st standard parallel"@, 8823, UnitType::Angular),
            lat_nat_v("latitude_of_origin"@),
            lon_nat_v("central_meridian"@),
            fe_v(),
            fn_v(),
        ],
    ));
    assert(x12@ =~~= gdal_methods_v()[12]);
    t.push(x12);
    let x13 = m(
        "Equirectangular",
        "Equidistant Cylindrical (Spherical)",
        1029,
        vec![
            p("standard_parallel_1", "Latitude of 1st standard parallel", 8823, UnitType::Angular),
            lat_nat("latitude_of_origin"),
            lon_nat("central_meridian"),
            fe(),
            fn_(),
        ],
    );
    assert(x13@.params =~= seq![
            gdal_param_v("standard_parallel_1"@, "Latitude of 1st standard parallel"@, 8823, UnitType::Angular),
            lat_nat_v("latitude_of_origin"@),
            lon_nat_v("central_meridian"@),
            fe_v(),
            fn_v(),
        ]);
    assert(gdal_methods_v()[13] == gdal_method_v(
        "Equirectangular"@,
        "Equidistant Cylindrical (Spherical)"@,
        1029,
        seq![
            gdal_param_v("standard_parallel_1"@, "Latitude of 1st standard parallel"@, 8823, UnitType::Angular),
            lat_nat_v("latitude_of_origin"@),
            lon_nat_v("central_meridian"@),
            fe_v(),
            fn_v(),
        ],
    ));
    assert(x13@ =~~= gdal_methods_v()[13]);
    t.push(x13);
    let x14 = m("Krovak", "Krovak", 9819, krovak_params());
    assert(x14@.params =~= krovak_params_v());
    assert(gdal_methods_v()[14] == gdal_method_v("Krovak"@, "Krovak"@, 9819, krovak_params_v()));
    assert(x14@ =~~= gdal_methods_v()[14]);
    t.push(x14);
    let x15 = m("Krovak", "Krovak (North Orientated)", 1041, krovak_params());
    assert(x15@.params =~= krovak_params_v());
    assert(gdal_methods_v()[15] == gdal_method_v("Krovak"@, "Krovak (North Orientated)"@, 1041, krovak_params_v()));
    assert(x15@ =~~= gdal_methods_v()[15]);
    t.push(x15);

    assert(t@.map_values(|x: MethodMapping| x@) =~= gdal_methods_v());
    t
}

fn krovak_params() -> (r: Vec<ParamMapping>)
    ensures
        r@.map_values(|x: ParamMapping| x@) == krovak_params_v(),
{
    vec![
        p("latitude_of_center", "Latitude of projection centre", 8811, UnitType::Angular),
        p("longitude_of_center", "Longitude of origin", 8833, UnitType::Angular),
        p("azimuth", "Co-latitude of cone axis", 1036, UnitType::Angular),
        p("pseudo_standard_parallel_1", "Latitude of pseudo standard parallel", 8818, UnitType::Angular),
        p("scale_factor", "Scale factor on pseudo standard parallel", 8819, UnitType::Scale),
        fe(),
        fn_(),
    ]
}

fn e(esri_name: &'static str, epsg_name: &'static str, epsg_code: i32) -> (r: EsriParamMapping)
    ensures
        r.esri_name == esri_name,
        r.epsg_name == epsg_name,
        r.epsg_code == epsg_code,
        r@ == esri_param_v(esri_name@, epsg_name@, epsg_code),
{
    EsriParamMapping { esri_name, epsg_name, epsg_code, fixed_value: "" }
}

fn fixed(esri_name: &'static str, value: &'static str) -> (r: EsriParamMapping)
    ensures
        r@ == fixed_v(esri_name@, value@),
{
    EsriParamMapping { esri_name, epsg_name: "", epsg_code: 0, fixed_value: value }
}

fn natural_origin_params() -> (r: Vec<EsriParamMapping>)
    ensures
        r@.map_values(|x: EsriParamMapping| x@) == natural_origin_params_v(),
{
    vec![
        e("False_Easting", "False easting", 8806),
        e("False_Northing", "False northing", 8807),
        e("Central_Meridian", "Longitude of natural origin", 8802),
        e("Scale_Factor", "Scale factor at natural origin", 8805),
        e("Latitude_Of_Origin", "Latitude of natural origin", 8801),
    ]
}

fn em(esri_name: &'static str, epsg_name: &'static str, epsg_code: i32, params: Vec<EsriParamMapping>) -> (r: EsriMethodMapping)
    ensures
        r@ == esri_method_v(esri_name@, epsg_name@, epsg_code, params@.map_values(|x: EsriParamMapping| x@)),
{
    EsriMethodMapping { esri_name, epsg_name, epsg_code, params }
}

/// The ESRI spellings of methods and parameters. A parameter with no EPSG
/// name is accepted only at its fixed value, and dropped.
pub fn esri_methods() -> (r: Vec<EsriMethodMapping>)
    ensures
    r@.map_values(|x: EsriMethodMapping| x@) == esri_methods_v(),
{
    let mut t: Vec<EsriMethodMapping> = Vec::new();
    let x0 = em("Transverse_Mercator", "Transverse Mercator", 9807, natural_origin_params());
    assert(x0@.params =~= natural_origin_params_v());
    assert(esri_methods_v()[0] == esri_method_v("Transverse_Mercator"@, "Transverse Mercator"@, 9807, natural_origin_params_v()));
    assert(x0@ =~~= esri_methods_v()[0]);
    t.push(x0);
    let x1 = em("Gauss_Kruger", "Transverse Mercator", 9807, natural_origin_params());
    assert(x1@.params =~= natural_origin_params_v());
    assert(esri_methods_v()[1] == esri_method_v("Gauss_Kruger"@, "Transverse Mercator"@, 9807, natural_origin_params_v()));
    assert(x1@ =~~= esri_methods_v()[1]);
    t.push(x1);
    let x2 = em(
        "Mercator_Auxiliary_Sphere",
        "Popular Visualisation Pseudo Mercator",
        1024,
        vec![
            e("False_Easting", "False easting", 8806),
            e("False_Northing", "False northing", 8807),
            e("Central_Meridian", "Longitude of natural origin", 8802),
            e("Standard_Parallel_1", "Latitude of natural origin", 8801),
            fixed("Auxiliary_Sphere_Type", "0.0"),
        ],
    );
    assert(x2@.params =~= seq![
            esri_param_v("False_Easting"@, "False easting"@, 8806),
            esri_param_v("False_Northing"@, "False northing"@, 8807),
            esri_param_v("Central_Meridian"@, "Longitude of natural origin"@, 8802),
            esri_param_v("Standard_Parallel_1"@, "Latitude of natural origin"@, 8801),
            fixed_v("Auxiliary_Sphere_Type"@, "0.0"@),
        ]);
    assert(esri_methods_v()[2] == esri_method_v(
        "Mercator_Auxiliary_Sphere"@,
        "Popular Visualisation Pseudo Mercator"@,
        1024,
        seq![
            esri_param_v("False_Easting"@, "False easting"@, 8806),
            esri_param_v("False_Northing"@, "False northing"@, 8807),
            esri_param_v("Central_Meridian"@, "Longitude of natural origin"@, 8802),
            esri_param_v("Standard_Parallel_1"@, "Latitude of natural origin"@, 8801),
            fixed_v("Auxiliary_Sphere_Type"@, "0.0"@),
        ],
    ));
    assert(x2@ =~~= esri_methods_v()[2]);
    t.push(x2);
    let x3 = em(
        "Mercator",
        "Mercator (variant B)",
        9805,
        vec![
            e("False_Easting", "False easting", 8806),
            e("False_Northing", "False northing", 8807),
            e("Central_Meridian", "Longitude of natural origin", 8802),
            e("Standard_Parallel_1", "Latitude of 1st standard parallel", 8823),
        ],
    );
    assert(x3@.params =~= seq![
            esri_param_v("False_Easting"@, "False easting"@, 8806),
            esri_param_v("False_Northing"@, "False northing"@, 8807),
            esri_param_v("Central_Meridian"@, "Longitude of natural origin"@, 8802),
            esri_param_v("Standard_Parallel_1"@, "Latitude of 1st standard parallel"@, 8823),
        ]);
    assert(esri_methods_v()[3] == esri_method_v(
        "Mercator"@,
        "Mercator (variant B)"@,
        9805,
        seq![
            esri_param_v("False_Easting"@, "False easting"@, 8806),
            esri_param_v("False_Northing"@, "False northing"@, 8807),
            esri_param_v("Central_Meridian"@, "Longitude of natural origin"@, 8802),
            esri_param_v("Standard_Parallel_1"@, "Latitude of 1st standard parallel"@, 8823),
        ],
    ));
    assert(x3@ =~~= esri_methods_v()[3]);
    t.push(x3);
    let x4 = em(
        "Lambert_Conformal_Conic",
        "Lambert Conic Conformal (1SP)",
        9801,
        vec![
            e("False_Easting", "False easting", 8806),
            e("False_Northing", "False northing", 8807),
            e("Central_Meridian", "Longitude of natural origin", 8802),
            e("Standard_Parallel_1", "Latitude of natural origin", 8801),
            e("Scale_Factor", "Scale factor at natural origin", 8805),
            e("Latitude_Of_Origin", "Latitude of natural origin", 8801),
        ],
    );
    assert(x4@.params =~= seq![
            esri_param_v("False_Easting"@, "False easting"@, 8806),
            esri_param_v("False_Northing"@, "False northing"@, 8807),
            esri_param_v("Central_Meridian"@, "Longitude of natural origin"@, 8802),
            esri_param_v("Standard_Parallel_1"@, "Latitude of natural origin"@, 8801),
            esri_param_v("Scale_Factor"@, "Scale factor at natural origin"@, 8805),
            esri_param_v("Latitude_Of_Origin"@, "Latitude of natural origin"@, 8801),
        ]);
    assert(esri_methods_v()[4] == esri_method_v(
        "Lambert_Conformal_Conic"@,
        "Lambert Conic Conformal (1SP)"@,
        9801,
        seq![
            esri_param_v("False_Easting"@, "False easting"@, 8806),
            esri_param_v("False_Northing"@, "False northing"@, 8807),
            esri_param_v("Central_Meridian"@, "Longitude of natural origin"@, 8802),
            esri_param_v("Standard_Parallel_1"@, "Latitude of natural origin"@, 8801),
            esri_param_v("Scale_Factor"@, "Scale factor at natural origin"@, 8805),
            esri_param_v("Latitude_Of_Origin"@, "Latitude of natural origin"@, 8801),
        ],
    ));
    assert(x4@ =~~= esri_methods_v()[4]);
    t.push(x4);
    let x5 = em(
        "Lambert_Conformal_Conic",
        "Lambert Conic Conformal (2SP)",
        9802,
        vec![
            e("False_Easting", "Easting at false origin", 8826),
            e("False_Northing", "Northing at false origin", 8827),
            e("Central_Meridian", "Longitude of false origin", 8822),
            e("Standard_Parallel_1", "Latitude of 1st standard parallel", 8823),
            e("Standard_Parallel_2", "Latitude of 2nd standard parallel", 8824),
            fixed("Scale_Factor", "1.0"),
            e("Latitude_Of_Origin", "Latitude of false origin", 8821),
        ],
    );
    assert(x5@.params =~= seq![
            esri_param_v("False_Easting"@, "Easting at false origin"@, 8826),
            esri_param_v("False_Northing"@, "Northing at false origin"@, 8827),
            esri_param_v("Central_Meridian"@, "Longitude of false origin"@, 8822),
            esri_param_v("Standard_Parallel_1"@, "Latitude of 1st standard parallel"@, 8823),
            esri_param_v("Standard_Parallel_2"@, "Latitude of 2nd standard parallel"@, 8824),
            fixed_v("Scale_Factor"@, "1.0"@),
            esri_param_v("Latitude_Of_Origin"@, "Latitude of false origin"@, 8821),
        ]);
    assert(esri_methods_v()[5] == esri_method_v(
        "Lambert_Conformal_Conic"@,
        "Lambert Conic Conformal (2SP)"@,
        9802,
        seq![
            esri_param_v("False_Easting"@, "Easting at false origin"@, 8826),
            esri_param_v("False_Northing"@, "Northing at false origin"@, 8827),
            esri_param_v("Central_Meridian"@, "Longitude of false origin"@, 8822),
            esri_param_v("Standard_Parallel_1"@, "Latitude of 1st standard parallel"@, 8823),
            esri_param_v("Standard_Parallel_2"@, "Latitude of 2nd standard parallel"@, 8824),
            fixed_v("Scale_Factor"@, "1.0"@),
            esri_param_v("Latitude_Of_Origin"@, "Latitude of false origin"@, 8821),
        ],
    ));
    assert(x5@ =~~= esri_methods_v()[5]);
    t.push(x5);
    let x6 = em("Stereographic", "Stereographic", 0, natural_origin_params());
    assert(x6@.params =~= natural_origin_params_v());
    assert(esri_methods_v()[6] == esri_method_v("Stereographic"@, "Stereographic"@, 0, natural_origin_params_v()));
    assert(x6@ =~~= esri_methods_v()[6]);
    t.push(x6);
    let x7 = em("Double_Stereographic", "Oblique Stereographic", 9809, natural_origin_params());
    assert(x7@.params =~= natural_origin_params_v());
    assert(esri_methods_v()[7] == esri_method_v("Double_Stereographic"@, "Oblique Stereographic"@, 9809, natural_origin_params_v()));
    assert(x7@ =~~= esri_methods_v()[7]);
    t.push(x7);

    assert(t@.map_values(|x: EsriMethodMapping| x@) =~= esri_methods_v());
    t
}

/// EPSG method names with their codes.
pub fn epsg_method_names() -> (r: Vec<(&'static str, i32)>)
    ensures
        r@.map_values(|x: (&'static str, i32)| (x.0@, x.1)) == epsg_method_names_v(),
{
    vec![
        ("Albers Equal Area", 9822),
        ("Equidistant Cylindrical", 1028),
        ("Equidistant Cylindrical (Spherical)", 1029),
        ("Krovak", 9819),
        ("Krovak (North Orientated)", 1041),
        ("Lambert Azimuthal Equal Area", 9820),
        ("Lambert Conic Conformal (1SP)", 9801),
        ("Lambert Conic Conformal (2SP)", 9802),
        ("Lambert Conic Conformal (West Orientated)", 9826),
        ("Mercator (variant A)", 9804),
        ("Mercator (variant B)", 9805),
        ("Oblique Stereographic", 9809),
        ("Polar Stereographic (variant A)", 9810),
        ("Polar Stereographic (variant B)", 9829),
        ("Popular Visualisation Pseudo Mercator", 1024),
        ("Transverse Mercator", 9807),
        ("Transverse Mercator (South Orientated)", 9808),
    ]
}

/// EPSG parameter names with their codes.
pub fn epsg_param_names() -> (r: Vec<(&'static str, i32)>)
    ensures
        r@.map_values(|x: (&'static str, i32)| (x.0@, x.1)) == epsg_param_names_v(),
{
    vec![
        ("Co-latitude of cone axis", 1036),
        ("Latitude of natural origin", 8801),
        ("Longitude of natural origin", 8802),
        ("Scale factor at natural origin", 8805),
        ("False easting", 8806),
        ("False northing", 8807),
        ("Latitude of projection centre", 8811),
        ("Latitude of pseudo standard parallel", 8818),
        ("Scale factor on pseudo standard parallel", 8819),
        ("Latitude of false origin", 8821),
        ("Longitude of false origin", 8822),
        ("Latitude of 1st standard parallel", 8823),
        ("Latitude of 2nd standard parallel", 8824),
        ("Easting at false origin", 8826),
        ("Northing at false origin", 8827),
        ("Latitude of standard parallel", 8832),
        ("Longitude of origin", 8833),
    ]
}

/// The unit type of each EPSG parameter code, sorted by code.
pub fn param_unit_types() -> (r: Vec<(i32, UnitType)>)
    ensures
        r@ == param_unit_types_v(),
{
    vec![
        (1036, UnitType::Angular),
        (8801, UnitType::Angular),
        (8802, UnitType::Angular),
        (8805, UnitType::Scale),
        (8806, UnitType::Linear),
        (8807, UnitType::Linear),
        (8811, UnitType::Angular),
        (8818, UnitType::Angular),
        (8819, UnitType::Scale),
        (8821, UnitType::Angular),
        (8822, UnitType::Angular),
        (8823, UnitType::Angular),
        (8824, UnitType::Angular),
        (8826, UnitType::Linear),
        (8827, UnitType::Linear),
        (8832, UnitType::Angular),
        (8833, UnitType::Angular),
    ]
}

} // verus!
