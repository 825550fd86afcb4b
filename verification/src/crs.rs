//! The coordinate reference system model that the parsers produce and the
//! writers consume, with its mathematical view.
use vstd::prelude::*;
use crate::decimal::{Decimal, DecimalV};

verus! {

/// A top-level coordinate reference system.
#[derive(Debug, Clone, PartialEq)]
pub enum Crs {
    ProjectedCrs(Box<ProjectedCrs>),
    GeogCrs(Box<GeogCrs>),
    GeodCrs(Box<GeodCrs>),
    VertCrs(Box<VertCrs>),
    CompoundCrs(Box<CompoundCrs>),
}

/// The keyword used for a geographic CRS.
#[derive(Debug, Clone, Copy, PartialEq, Eq)]
pub enum GeogCrsKeyword {
    GeogCrs,
    GeographicCrs,
}

/// A geographic coordinate reference system (`GEOGCRS`).
#[derive(Debug, Clone, PartialEq)]
pub struct GeogCrs {
    pub keyword: GeogCrsKeyword,
    pub name: String,
    pub dynamic: Option<DynamicCrs>,
    pub datum: Datum,
    pub coordinate_system: CoordinateSystem,
    pub usages: Vec<Usage>,
    pub identifiers: Vec<Identifier>,
    pub remark: Option<String>,
}

/// The keyword used for a geodetic CRS.
#[derive(Debug, Clone, Copy, PartialEq, Eq)]
pub enum GeodCrsKeyword {
    GeodCrs,
    GeodeticCrs,
}

/// A geodetic coordinate reference system (`GEODCRS`).
#[derive(Debug, Clone, PartialEq)]
pub struct GeodCrs {
    pub keyword: GeodCrsKeyword,
    pub name: String,
    pub dynamic: Option<DynamicCrs>,
    pub datum: Datum,
    pub coordinate_system: CoordinateSystem,
    pub usages: Vec<Usage>,
    pub identifiers: Vec<Identifier>,
    pub remark: Option<String>,
}

/// The keyword used for a vertical CRS.
#[derive(Debug, Clone, Copy, PartialEq, Eq)]
pub enum VertCrsKeyword {
    VertCrs,
    VerticalCrs,
}

/// A vertical coordinate reference system (`VERTCRS`).
#[derive(Debug, Clone, PartialEq)]
pub struct VertCrs {
    pub keyword: VertCrsKeyword,
    pub name: String,
    pub source: VertCrsSource,
    pub coordinate_system: CoordinateSystem,
    pub geoid_models: Vec<GeoidModel>,
    pub usages: Vec<Usage>,
    pub identifiers: Vec<Identifier>,
    pub remark: Option<String>,
}

/// Whether a vertical CRS stands on a datum or derives from a base vertical CRS.
#[derive(Debug, Clone, PartialEq)]
pub enum VertCrsSource {
    Datum { dynamic: Option<DynamicCrs>, datum: VerticalDatum },
    Derived { base_vert_crs: BaseVertCrs, deriving_conversion: MapProjection },
}

/// The base vertical CRS of a derived vertical CRS (`BASEVERTCRS`).
#[derive(Debug, Clone, PartialEq)]
pub struct BaseVertCrs {
    pub name: String,
    pub dynamic: Option<DynamicCrs>,
    pub datum: VerticalDatum,
    pub identifiers: Vec<Identifier>,
}

/// A vertical reference frame or a datum ensemble.
#[derive(Debug, Clone, PartialEq)]
pub enum VerticalDatum {
    ReferenceFrame(VerticalReferenceFrame),
    Ensemble(Box<DatumEnsemble>),
}

/// The keyword used for a vertical reference frame.
#[derive(Debug, Clone, Copy, PartialEq, Eq)]
pub enum VerticalReferenceFrameKeyword {
    VDatum,
    Vrf,
    VerticalDatum,
}

/// A vertical reference frame (`VDATUM`, `VRF`, `VERTICALDATUM`).
#[derive(Debug, Clone, PartialEq)]
pub struct VerticalReferenceFrame {
    pub keyword: VerticalReferenceFrameKeyword,
    pub name: String,
    pub anchor: Option<String>,
    pub anchor_epoch: Option<Decimal>,
    pub identifiers: Vec<Identifier>,
}

/// A geoid model of a vertical CRS (`GEOIDMODEL`).
#[derive(Debug, Clone, PartialEq)]
pub struct GeoidModel {
    pub name: String,
    pub identifiers: Vec<Identifier>,
}

/// A compound coordinate reference system (`COMPOUNDCRS`).
#[derive(Debug, Clone, PartialEq)]
pub struct CompoundCrs {
    pub name: String,
    pub components: Vec<SingleCrs>,
    pub usages: Vec<Usage>,
    pub identifiers: Vec<Identifier>,
    pub remark: Option<String>,
}

/// A component of a compound CRS.
#[derive(Debug, Clone, PartialEq)]
pub enum SingleCrs {
    ProjectedCrs(Box<ProjectedCrs>),
    GeogCrs(Box<GeogCrs>),
    GeodCrs(Box<GeodCrs>),
    VertCrs(Box<VertCrs>),
    /// An unsupported CRS type, kept as raw WKT text.
    Other(String),
}

/// A projected coordinate reference system (`PROJCRS`).
#[derive(Debug, Clone, PartialEq)]
pub struct ProjectedCrs {
    pub name: String,
    pub base_geodetic_crs: BaseGeodeticCrs,
    pub map_projection: MapProjection,
    pub coordinate_system: CoordinateSystem,
    pub usages: Vec<Usage>,
    pub identifiers: Vec<Identifier>,
    pub remark: Option<String>,
}

/// A coordinate system: type, dimension, axes and an optional shared unit.
#[derive(Debug, Clone, PartialEq)]
pub struct CoordinateSystem {
    pub cs_type: CsType,
    pub dimension: u8,
    pub identifiers: Vec<Identifier>,
    pub axes: Vec<Axis>,
    pub cs_unit: Option<Unit>,
}

/// The type of a coordinate system.
#[derive(Debug, Clone, Copy, PartialEq, Eq)]
pub enum CsType {
    Affine,
    Cartesian,
    Cylindrical,
    Ellipsoidal,
    Linear,
    Parametric,
    Polar,
    Spherical,
    Vertical,
    TemporalCount,
    TemporalMeasure,
    Ordinal,
    TemporalDateTime,
}

/// One axis of a coordinate system (`AXIS`).
#[derive(Debug, Clone, PartialEq)]
pub struct Axis {
    pub name_abbrev: String,
    pub direction: String,
    pub meridian: Option<Meridian>,
    pub bearing: Option<Decimal>,
    pub order: Option<u32>,
    pub unit: Option<Unit>,
    pub axis_min_value: Option<Decimal>,
    pub axis_max_value: Option<Decimal>,
    pub range_meaning: Option<RangeMeaning>,
    pub identifiers: Vec<Identifier>,
}

/// The meridian from which an axis direction is measured (`MERIDIAN`).
#[derive(Debug, Clone, PartialEq)]
pub struct Meridian {
    pub value: Decimal,
    pub unit: Unit,
}

/// How the range between an axis' minimum and maximum is read (`RANGEMEANING`).
#[derive(Debug, Clone, Copy, PartialEq, Eq)]
pub enum RangeMeaning {
    Exact,
    Wraparound,
}

/// A map projection applied to a base CRS (`CONVERSION`).
#[derive(Debug, Clone, PartialEq)]
pub struct MapProjection {
    pub name: String,
    pub method: MapProjectionMethod,
    pub parameters: Vec<MapProjectionParameter>,
    pub identifiers: Vec<Identifier>,
}

/// The method of a map projection (`METHOD`).
#[derive(Debug, Clone, PartialEq)]
pub struct MapProjectionMethod {
    pub name: String,
    pub identifiers: Vec<Identifier>,
}

/// One parameter of a map projection (`PARAMETER`).
#[derive(Debug, Clone, PartialEq)]
pub struct MapProjectionParameter {
    pub name: String,
    pub value: Decimal,
    pub unit: Option<Unit>,
    pub identifiers: Vec<Identifier>,
}

/// The keyword used for the base CRS of a projected CRS.
#[derive(Debug, Clone, Copy, PartialEq, Eq)]
pub enum BaseGeodeticCrsKeyword {
    BaseGeodCrs,
    BaseGeogCrs,
}

/// The base geodetic or geographic CRS of a projected CRS.
#[derive(Debug, Clone, PartialEq)]
pub struct BaseGeodeticCrs {
    pub keyword: BaseGeodeticCrsKeyword,
    pub name: String,
    pub dynamic: Option<DynamicCrs>,
    pub datum: Datum,
    pub ellipsoidal_cs_unit: Option<Unit>,
    pub identifiers: Vec<Identifier>,
}

/// The attributes of a dynamic CRS (`DYNAMIC`).
#[derive(Debug, Clone, PartialEq)]
pub struct DynamicCrs {
    pub frame_reference_epoch: Decimal,
    pub deformation_model: Option<DeformationModel>,
}

/// A deformation model or velocity grid (`MODEL`).
#[derive(Debug, Clone, PartialEq)]
pub struct DeformationModel {
    pub name: String,
    pub identifiers: Vec<Identifier>,
}

/// A geodetic reference frame or a datum ensemble.
#[derive(Debug, Clone, PartialEq)]
pub enum Datum {
    ReferenceFrame(GeodeticReferenceFrame),
    Ensemble(DatumEnsemble),
}

/// The keyword used for a geodetic reference frame.
#[derive(Debug, Clone, Copy, PartialEq, Eq)]
pub enum DatumKeyword {
    Datum,
    Trf,
    GeodeticDatum,
}

/// A geodetic reference frame (`DATUM`, `TRF`, `GEODETICDATUM`).
#[derive(Debug, Clone, PartialEq)]
pub struct GeodeticReferenceFrame {
    pub keyword: DatumKeyword,
    pub name: String,
    pub ellipsoid: Ellipsoid,
    pub anchor: Option<String>,
    pub anchor_epoch: Option<Decimal>,
    pub identifiers: Vec<Identifier>,
    /// Written as a sibling after the datum node.
    pub prime_meridian: Option<PrimeMeridian>,
}

/// A prime meridian (`PRIMEM`).
#[derive(Debug, Clone, PartialEq)]
pub struct PrimeMeridian {
    pub name: String,
    pub irm_longitude: Decimal,
    pub unit: Option<Unit>,
    pub identifiers: Vec<Identifier>,
}

/// A reference ellipsoid (`ELLIPSOID`).
#[derive(Debug, Clone, PartialEq)]
pub struct Ellipsoid {
    pub name: String,
    pub semi_major_axis: Decimal,
    pub inverse_flattening: Decimal,
    pub unit: Option<Unit>,
    pub identifiers: Vec<Identifier>,
}

/// A datum ensemble (`ENSEMBLE`).
#[derive(Debug, Clone, PartialEq)]
pub struct DatumEnsemble {
    pub name: String,
    pub members: Vec<EnsembleMember>,
    pub ellipsoid: Option<Ellipsoid>,
    pub accuracy: Decimal,
    pub identifiers: Vec<Identifier>,
    pub prime_meridian: Option<PrimeMeridian>,
}

/// A member of a datum ensemble (`MEMBER`).
#[derive(Debug, Clone, PartialEq)]
pub struct EnsembleMember {
    pub name: String,
    pub identifiers: Vec<Identifier>,
}

/// An identifier given by an authority (`ID`).
#[derive(Debug, Clone, PartialEq)]
pub struct Identifier {
    pub authority_name: String,
    pub authority_unique_id: AuthorityId,
    pub version: Option<AuthorityId>,
    pub citation: Option<String>,
    pub uri: Option<String>,
}

/// A numeric or textual authority code.
#[derive(Debug, Clone, PartialEq)]
pub enum AuthorityId {
    Number(Decimal),
    Text(String),
}

/// The keyword used for a unit.
#[derive(Debug, Clone, Copy, PartialEq, Eq)]
pub enum UnitKeyword {
    AngleUnit,
    LengthUnit,
    ParametricUnit,
    ScaleUnit,
    TimeUnit,
    Unit,
}

/// A scope-extent pairing (`USAGE`).
#[derive(Debug, Clone, PartialEq)]
pub struct Usage {
    pub scope: String,
    pub area: Option<String>,
    pub bbox: Option<BBox>,
    pub vertical_extent: Option<VerticalExtent>,
    pub temporal_extent: Option<TemporalExtent>,
}

/// A geographic bounding box (`BBOX`).
#[derive(Debug, Clone, PartialEq)]
pub struct BBox {
    pub lower_left_latitude: Decimal,
    pub lower_left_longitude: Decimal,
    pub upper_right_latitude: Decimal,
    pub upper_right_longitude: Decimal,
}

/// A vertical range of applicability (`VERTICALEXTENT`).
#[derive(Debug, Clone, PartialEq)]
pub struct VerticalExtent {
    pub minimum_height: Decimal,
    pub maximum_height: Decimal,
    pub unit: Option<Unit>,
}

/// A temporal range of applicability (`TIMEEXTENT`).
#[derive(Debug, Clone, PartialEq)]
pub struct TemporalExtent {
    pub start: String,
    pub end: String,
}

/// A unit of measurement (`ANGLEUNIT`, `LENGTHUNIT`, ..., `UNIT`).
#[derive(Debug, Clone, PartialEq)]
pub struct Unit {
    pub keyword: UnitKeyword,
    pub name: String,
    pub conversion_factor: Option<Decimal>,
    pub identifiers: Vec<Identifier>,
}

} // verus!
