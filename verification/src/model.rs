//! The mathematical view of the CRS model: text as `Seq<char>`, lists as
//! `Seq`, numbers as [`DecimalV`]. Contracts and laws are stated over it.
use vstd::prelude::*;
use crate::decimal::{Decimal, DecimalV};
use crate::crs::{
    AuthorityId, Axis, BBox, BaseGeodeticCrs, BaseGeodeticCrsKeyword, BaseVertCrs, CompoundCrs, CoordinateSystem,
    Crs, CsType, Datum, DatumEnsemble, DatumKeyword, DeformationModel, DynamicCrs, Ellipsoid,
    EnsembleMember, GeodCrs, GeodCrsKeyword, GeodeticReferenceFrame, GeogCrs, GeogCrsKeyword,
    GeoidModel, Identifier, MapProjection, MapProjectionMethod, MapProjectionParameter, Meridian,
    PrimeMeridian, ProjectedCrs, RangeMeaning, SingleCrs, TemporalExtent, Unit, UnitKeyword, Usage,
    VertCrs, VertCrsKeyword, VertCrsSource, VerticalDatum, VerticalExtent, VerticalReferenceFrame,
    VerticalReferenceFrameKeyword,
};

verus! {

pub open spec fn opt_text(o: Option<String>) -> Option<Seq<char>> {
    match o {
        Some(s) => Some(s@),
        None => None,
    }
}

pub open spec fn opt_dec(o: Option<Decimal>) -> Option<DecimalV> {
    match o {
        Some(d) => Some(d@),
        None => None,
    }
}

pub struct IdentifierV {
    pub authority_name: Seq<char>,
    pub authority_unique_id: AuthorityIdV,
    pub version: Option<AuthorityIdV>,
    pub citation: Option<Seq<char>>,
    pub uri: Option<Seq<char>>,
}

pub enum AuthorityIdV {
    Number(DecimalV),
    Text(Seq<char>),
}

impl View for AuthorityId {
    type V = AuthorityIdV;

    open spec fn view(&self) -> AuthorityIdV {
        match self {
            AuthorityId::Number(d) => AuthorityIdV::Number(d@),
            AuthorityId::Text(s) => AuthorityIdV::Text(s@),
        }
    }
}

pub open spec fn opt_aid(o: Option<AuthorityId>) -> Option<AuthorityIdV> {
    match o {
        Some(a) => Some(a@),
        None => None,
    }
}

impl View for Identifier {
    type V = IdentifierV;

    open spec fn view(&self) -> IdentifierV {
        IdentifierV {
            authority_name: self.authority_name@,
            authority_unique_id: self.authority_unique_id@,
            version: opt_aid(self.version),
            citation: opt_text(self.citation),
            uri: opt_text(self.uri),
        }
    }
}

pub open spec fn ids_v(v: Vec<Identifier>) -> Seq<IdentifierV> {
    v@.map_values(|i: Identifier| i@)
}

pub struct UnitV {
    pub keyword: UnitKeyword,
    pub name: Seq<char>,
    pub conversion_factor: Option<DecimalV>,
    pub identifiers: Seq<IdentifierV>,
}

impl View for Unit {
    type V = UnitV;

    open spec fn view(&self) -> UnitV {
        UnitV {
            keyword: self.keyword,
            name: self.name@,
            conversion_factor: opt_dec(self.conversion_factor),
            identifiers: ids_v(self.identifiers),
        }
    }
}

pub open spec fn opt_unit(o: Option<Unit>) -> Option<UnitV> {
    match o {
        Some(u) => Some(u@),
        None => None,
    }
}

pub struct TemporalExtentV {
    pub start: Seq<char>,
    pub end: Seq<char>,
}

pub struct BBoxV {
    pub lower_left_latitude: DecimalV,
    pub lower_left_longitude: DecimalV,
    pub upper_right_latitude: DecimalV,
    pub upper_right_longitude: DecimalV,
}

pub struct VerticalExtentV {
    pub minimum_height: DecimalV,
    pub maximum_height: DecimalV,
    pub unit: Option<UnitV>,
}

pub struct UsageV {
    pub scope: Seq<char>,
    pub area: Option<Seq<char>>,
    pub bbox: Option<BBoxV>,
    pub vertical_extent: Option<VerticalExtentV>,
    pub temporal_extent: Option<TemporalExtentV>,
}

impl View for TemporalExtent {
    type V = TemporalExtentV;

    open spec fn view(&self) -> TemporalExtentV {
        TemporalExtentV { start: self.start@, end: self.end@ }
    }
}

impl View for BBox {
    type V = BBoxV;

    open spec fn view(&self) -> BBoxV {
        BBoxV {
            lower_left_latitude: self.lower_left_latitude@,
            lower_left_longitude: self.lower_left_longitude@,
            upper_right_latitude: self.upper_right_latitude@,
            upper_right_longitude: self.upper_right_longitude@,
        }
    }
}

impl View for VerticalExtent {
    type V = VerticalExtentV;

    open spec fn view(&self) -> VerticalExtentV {
        VerticalExtentV {
            minimum_height: self.minimum_height@,
            maximum_height: self.maximum_height@,
            unit: opt_unit(self.unit),
        }
    }
}

impl View for Usage {
    type V = UsageV;

    open spec fn view(&self) -> UsageV {
        UsageV {
            scope: self.scope@,
            area: opt_text(self.area),
            bbox: match self.bbox {
                Some(b) => Some(b@),
                None => None,
            },
            vertical_extent: match self.vertical_extent {
                Some(v) => Some(v@),
                None => None,
            },
            temporal_extent: match self.temporal_extent {
                Some(t) => Some(t@),
                None => None,
            },
        }
    }
}

pub open spec fn usages_v(v: Vec<Usage>) -> Seq<UsageV> {
    v@.map_values(|u: Usage| u@)
}

pub struct MeridianV {
    pub value: DecimalV,
    pub unit: UnitV,
}

impl View for Meridian {
    type V = MeridianV;

    open spec fn view(&self) -> MeridianV {
        MeridianV { value: self.value@, unit: self.unit@ }
    }
}

pub struct AxisV {
    pub name_abbrev: Seq<char>,
    pub direction: Seq<char>,
    pub meridian: Option<MeridianV>,
    pub bearing: Option<DecimalV>,
    pub order: Option<u32>,
    pub unit: Option<UnitV>,
    pub axis_min_value: Option<DecimalV>,
    pub axis_max_value: Option<DecimalV>,
    pub range_meaning: Option<RangeMeaning>,
    pub identifiers: Seq<IdentifierV>,
}

impl View for Axis {
    type V = AxisV;

    open spec fn view(&self) -> AxisV {
        AxisV {
            name_abbrev: self.name_abbrev@,
            direction: self.direction@,
            meridian: match self.meridian {
                Some(m) => Some(m@),
                None => None,
            },
            bearing: opt_dec(self.bearing),
            order: self.order,
            unit: opt_unit(self.unit),
            axis_min_value: opt_dec(self.axis_min_value),
            axis_max_value: opt_dec(self.axis_max_value),
            range_meaning: self.range_meaning,
            identifiers: ids_v(self.identifiers),
        }
    }
}

pub struct CoordinateSystemV {
    pub cs_type: CsType,
    pub dimension: u8,
    pub identifiers: Seq<IdentifierV>,
    pub axes: Seq<AxisV>,
    pub cs_unit: Option<UnitV>,
}

impl View for CoordinateSystem {
    type V = CoordinateSystemV;

    open spec fn view(&self) -> CoordinateSystemV {
        CoordinateSystemV {
            cs_type: self.cs_type,
            dimension: self.dimension,
            identifiers: ids_v(self.identifiers),
            axes: self.axes@.map_values(|a: Axis| a@),
            cs_unit: opt_unit(self.cs_unit),
        }
    }
}

pub struct MapProjectionMethodV {
    pub name: Seq<char>,
    pub identifiers: Seq<IdentifierV>,
}

pub struct MapProjectionParameterV {
    pub name: Seq<char>,
    pub value: DecimalV,
    pub unit: Option<UnitV>,
    pub identifiers: Seq<IdentifierV>,
}

pub struct MapProjectionV {
    pub name: Seq<char>,
    pub method: MapProjectionMethodV,
    pub parameters: Seq<MapProjectionParameterV>,
    pub identifiers: Seq<IdentifierV>,
}

impl View for MapProjectionMethod {
    type V = MapProjectionMethodV;

    open spec fn view(&self) -> MapProjectionMethodV {
        MapProjectionMethodV { name: self.name@, identifiers: ids_v(self.identifiers) }
    }
}

impl View for MapProjectionParameter {
    type V = MapProjectionParameterV;

    open spec fn view(&self) -> MapProjectionParameterV {
        MapProjectionParameterV {
            name: self.name@,
            value: self.value@,
            unit: opt_unit(self.unit),
            identifiers: ids_v(self.identifiers),
        }
    }
}

impl View for MapProjection {
    type V = MapProjectionV;

    open spec fn view(&self) -> MapProjectionV {
        MapProjectionV {
            name: self.name@,
            method: self.method@,
            parameters: self.parameters@.map_values(|p: MapProjectionParameter| p@),
            identifiers: ids_v(self.identifiers),
        }
    }
}

pub struct DeformationModelV {
    pub name: Seq<char>,
    pub identifiers: Seq<IdentifierV>,
}

pub struct DynamicCrsV {
    pub frame_reference_epoch: DecimalV,
    pub deformation_model: Option<DeformationModelV>,
}

impl View for DeformationModel {
    type V = DeformationModelV;

    open spec fn view(&self) -> DeformationModelV {
        DeformationModelV { name: self.name@, identifiers: ids_v(self.identifiers) }
    }
}

impl View for DynamicCrs {
    type V = DynamicCrsV;

    open spec fn view(&self) -> DynamicCrsV {
        DynamicCrsV {
            frame_reference_epoch: self.frame_reference_epoch@,
            deformation_model: match self.deformation_model {
                Some(m) => Some(m@),
                None => None,
            },
        }
    }
}

pub open spec fn opt_dynamic(o: Option<DynamicCrs>) -> Option<DynamicCrsV> {
    match o {
        Some(d) => Some(d@),
        None => None,
    }
}

pub struct PrimeMeridianV {
    pub name: Seq<char>,
    pub irm_longitude: DecimalV,
    pub unit: Option<UnitV>,
    pub identifiers: Seq<IdentifierV>,
}

impl View for PrimeMeridian {
    type V = PrimeMeridianV;

    open spec fn view(&self) -> PrimeMeridianV {
        PrimeMeridianV {
            name: self.name@,
            irm_longitude: self.irm_longitude@,
            unit: opt_unit(self.unit),
            identifiers: ids_v(self.identifiers),
        }
    }
}

pub open spec fn opt_pm(o: Option<PrimeMeridian>) -> Option<PrimeMeridianV> {
    match o {
        Some(p) => Some(p@),
        None => None,
    }
}

pub struct EllipsoidV {
    pub name: Seq<char>,
    pub semi_major_axis: DecimalV,
    pub inverse_flattening: DecimalV,
    pub unit: Option<UnitV>,
    pub identifiers: Seq<IdentifierV>,
}

impl View for Ellipsoid {
    type V = EllipsoidV;

    open spec fn view(&self) -> EllipsoidV {
        EllipsoidV {
            name: self.name@,
            semi_major_axis: self.semi_major_axis@,
            inverse_flattening: self.inverse_flattening@,
            unit: opt_unit(self.unit),
            identifiers: ids_v(self.identifiers),
        }
    }
}

pub struct EnsembleMemberV {
    pub name: Seq<char>,
    pub identifiers: Seq<IdentifierV>,
}

impl View for EnsembleMember {
    type V = EnsembleMemberV;

    open spec fn view(&self) -> EnsembleMemberV {
        EnsembleMemberV { name: self.name@, identifiers: ids_v(self.identifiers) }
    }
}

pub struct DatumEnsembleV {
    pub name: Seq<char>,
    pub members: Seq<EnsembleMemberV>,
    pub ellipsoid: Option<EllipsoidV>,
    pub accuracy: DecimalV,
    pub identifiers: Seq<IdentifierV>,
    pub prime_meridian: Option<PrimeMeridianV>,
}

impl View for DatumEnsemble {
    type V = DatumEnsembleV;

    open spec fn view(&self) -> DatumEnsembleV {
        DatumEnsembleV {
            name: self.name@,
            members: self.members@.map_values(|m: EnsembleMember| m@),
            ellipsoid: match self.ellipsoid {
                Some(e) => Some(e@),
                None => None,
            },
            accuracy: self.accuracy@,
            identifiers: ids_v(self.identifiers),
            prime_meridian: opt_pm(self.prime_meridian),
        }
    }
}

pub struct GeodeticReferenceFrameV {
    pub keyword: DatumKeyword,
    pub name: Seq<char>,
    pub ellipsoid: EllipsoidV,
    pub anchor: Option<Seq<char>>,
    pub anchor_epoch: Option<DecimalV>,
    pub identifiers: Seq<IdentifierV>,
    pub prime_meridian: Option<PrimeMeridianV>,
}

impl View for GeodeticReferenceFrame {
    type V = GeodeticReferenceFrameV;

    open spec fn view(&self) -> GeodeticReferenceFrameV {
        GeodeticReferenceFrameV {
            keyword: self.keyword,
            name: self.name@,
            ellipsoid: self.ellipsoid@,
            anchor: opt_text(self.anchor),
            anchor_epoch: opt_dec(self.anchor_epoch),
            identifiers: ids_v(self.identifiers),
            prime_meridian: opt_pm(self.prime_meridian),
        }
    }
}

pub enum DatumV {
    ReferenceFrame(GeodeticReferenceFrameV),
    Ensemble(DatumEnsembleV),
}

impl View for Datum {
    type V = DatumV;

    open spec fn view(&self) -> DatumV {
        match self {
            Datum::ReferenceFrame(rf) => DatumV::ReferenceFrame(rf@),
            Datum::Ensemble(e) => DatumV::Ensemble(e@),
        }
    }
}

pub struct BaseGeodeticCrsV {
    pub keyword: BaseGeodeticCrsKeyword,
    pub name: Seq<char>,
    pub dynamic: Option<DynamicCrsV>,
    pub datum: DatumV,
    pub ellipsoidal_cs_unit: Option<UnitV>,
    pub identifiers: Seq<IdentifierV>,
}

impl View for BaseGeodeticCrs {
    type V = BaseGeodeticCrsV;

    open spec fn view(&self) -> BaseGeodeticCrsV {
        BaseGeodeticCrsV {
            keyword: self.keyword,
            name: self.name@,
            dynamic: opt_dynamic(self.dynamic),
            datum: self.datum@,
            ellipsoidal_cs_unit: opt_unit(self.ellipsoidal_cs_unit),
            identifiers: ids_v(self.identifiers),
        }
    }
}

pub struct ProjectedCrsV {
    pub name: Seq<char>,
    pub base_geodetic_crs: BaseGeodeticCrsV,
    pub map_projection: MapProjectionV,
    pub coordinate_system: CoordinateSystemV,
    pub usages: Seq<UsageV>,
    pub identifiers: Seq<IdentifierV>,
    pub remark: Option<Seq<char>>,
}

impl View for ProjectedCrs {
    type V = ProjectedCrsV;

    open spec fn view(&self) -> ProjectedCrsV {
        ProjectedCrsV {
            name: self.name@,
            base_geodetic_crs: self.base_geodetic_crs@,
            map_projection: self.map_projection@,
            coordinate_system: self.coordinate_system@,
            usages: usages_v(self.usages),
            identifiers: ids_v(self.identifiers),
            remark: opt_text(self.remark),
        }
    }
}

pub struct GeogCrsV {
    pub keyword: GeogCrsKeyword,
    pub name: Seq<char>,
    pub dynamic: Option<DynamicCrsV>,
    pub datum: DatumV,
    pub coordinate_system: CoordinateSystemV,
    pub usages: Seq<UsageV>,
    pub identifiers: Seq<IdentifierV>,
    pub remark: Option<Seq<char>>,
}

impl View for GeogCrs {
    type V = GeogCrsV;

    open spec fn view(&self) -> GeogCrsV {
        GeogCrsV {
            keyword: self.keyword,
            name: self.name@,
            dynamic: opt_dynamic(self.dynamic),
            datum: self.datum@,
            coordinate_system: self.coordinate_system@,
            usages: usages_v(self.usages),
            identifiers: ids_v(self.identifiers),
            remark: opt_text(self.remark),
        }
    }
}

pub struct GeodCrsV {
    pub keyword: GeodCrsKeyword,
    pub name: Seq<char>,
    pub dynamic: Option<DynamicCrsV>,
    pub datum: DatumV,
    pub coordinate_system: CoordinateSystemV,
    pub usages: Seq<UsageV>,
    pub identifiers: Seq<IdentifierV>,
    pub remark: Option<Seq<char>>,
}

impl View for GeodCrs {
    type V = GeodCrsV;

    open spec fn view(&self) -> GeodCrsV {
        GeodCrsV {
            keyword: self.keyword,
            name: self.name@,
            dynamic: opt_dynamic(self.dynamic),
            datum: self.datum@,
            coordinate_system: self.coordinate_system@,
            usages: usages_v(self.usages),
            identifiers: ids_v(self.identifiers),
            remark: opt_text(self.remark),
        }
    }
}

pub struct VerticalReferenceFrameV {
    pub keyword: VerticalReferenceFrameKeyword,
    pub name: Seq<char>,
    pub anchor: Option<Seq<char>>,
    pub anchor_epoch: Option<DecimalV>,
    pub identifiers: Seq<IdentifierV>,
}

impl View for VerticalReferenceFrame {
    type V = VerticalReferenceFrameV;

    open spec fn view(&self) -> VerticalReferenceFrameV {
        VerticalReferenceFrameV {
            keyword: self.keyword,
            name: self.name@,
            anchor: opt_text(self.anchor),
            anchor_epoch: opt_dec(self.anchor_epoch),
            identifiers: ids_v(self.identifiers),
        }
    }
}

pub enum VerticalDatumV {
    ReferenceFrame(VerticalReferenceFrameV),
    Ensemble(DatumEnsembleV),
}

impl View for VerticalDatum {
    type V = VerticalDatumV;

    open spec fn view(&self) -> VerticalDatumV {
        match self {
            VerticalDatum::ReferenceFrame(rf) => VerticalDatumV::ReferenceFrame(rf@),
            VerticalDatum::Ensemble(e) => VerticalDatumV::Ensemble((**e)@),
        }
    }
}

pub struct BaseVertCrsV {
    pub name: Seq<char>,
    pub dynamic: Option<DynamicCrsV>,
    pub datum: VerticalDatumV,
    pub identifiers: Seq<IdentifierV>,
}

impl View for BaseVertCrs {
    type V = BaseVertCrsV;

    open spec fn view(&self) -> BaseVertCrsV {
        BaseVertCrsV {
            name: self.name@,
            dynamic: opt_dynamic(self.dynamic),
            datum: self.datum@,
            identifiers: ids_v(self.identifiers),
        }
    }
}

pub enum VertCrsSourceV {
    Datum { dynamic: Option<DynamicCrsV>, datum: VerticalDatumV },
    Derived { base_vert_crs: BaseVertCrsV, deriving_conversion: MapProjectionV },
}

impl View for VertCrsSource {
    type V = VertCrsSourceV;

    open spec fn view(&self) -> VertCrsSourceV {
        match self {
            VertCrsSource::Datum { dynamic, datum } => VertCrsSourceV::Datum {
                dynamic: opt_dynamic(*dynamic),
                datum: datum@,
            },
            VertCrsSource::Derived { base_vert_crs, deriving_conversion } =>
                VertCrsSourceV::Derived {
                base_vert_crs: base_vert_crs@,
                deriving_conversion: deriving_conversion@,
            },
        }
    }
}

pub struct GeoidModelV {
    pub name: Seq<char>,
    pub identifiers: Seq<IdentifierV>,
}

impl View for GeoidModel {
    type V = GeoidModelV;

    open spec fn view(&self) -> GeoidModelV {
        GeoidModelV { name: self.name@, identifiers: ids_v(self.identifiers) }
    }
}

pub struct VertCrsV {
    pub keyword: VertCrsKeyword,
    pub name: Seq<char>,
    pub source: VertCrsSourceV,
    pub coordinate_system: CoordinateSystemV,
    pub geoid_models: Seq<GeoidModelV>,
    pub usages: Seq<UsageV>,
    pub identifiers: Seq<IdentifierV>,
    pub remark: Option<Seq<char>>,
}

impl View for VertCrs {
    type V = VertCrsV;

    open spec fn view(&self) -> VertCrsV {
        VertCrsV {
            keyword: self.keyword,
            name: self.name@,
            source: self.source@,
            coordinate_system: self.coordinate_system@,
            geoid_models: self.geoid_models@.map_values(|g: GeoidModel| g@),
            usages: usages_v(self.usages),
            identifiers: ids_v(self.identifiers),
            remark: opt_text(self.remark),
        }
    }
}

pub enum SingleCrsV {
    ProjectedCrs(ProjectedCrsV),
    GeogCrs(GeogCrsV),
    GeodCrs(GeodCrsV),
    VertCrs(VertCrsV),
    Other(Seq<char>),
}

impl View for SingleCrs {
    type V = SingleCrsV;

    open spec fn view(&self) -> SingleCrsV {
        match self {
            SingleCrs::ProjectedCrs(c) => SingleCrsV::ProjectedCrs((**c)@),
            SingleCrs::GeogCrs(c) => SingleCrsV::GeogCrs((**c)@),
            SingleCrs::GeodCrs(c) => SingleCrsV::GeodCrs((**c)@),
            SingleCrs::VertCrs(c) => SingleCrsV::VertCrs((**c)@),
            SingleCrs::Other(s) => SingleCrsV::Other(s@),
        }
    }
}

pub struct CompoundCrsV {
    pub name: Seq<char>,
    pub components: Seq<SingleCrsV>,
    pub usages: Seq<UsageV>,
    pub identifiers: Seq<IdentifierV>,
    pub remark: Option<Seq<char>>,
}

impl View for CompoundCrs {
    type V = CompoundCrsV;

    open spec fn view(&self) -> CompoundCrsV {
        CompoundCrsV {
            name: self.name@,
            components: self.components@.map_values(|c: SingleCrs| c@),
            usages: usages_v(self.usages),
            identifiers: ids_v(self.identifiers),
            remark: opt_text(self.remark),
        }
    }
}

pub enum CrsV {
    ProjectedCrs(ProjectedCrsV),
    GeogCrs(GeogCrsV),
    GeodCrs(GeodCrsV),
    VertCrs(VertCrsV),
    CompoundCrs(CompoundCrsV),
}

impl View for Crs {
    type V = CrsV;

    open spec fn view(&self) -> CrsV {
        match self {
            Crs::ProjectedCrs(c) => CrsV::ProjectedCrs((**c)@),
            Crs::GeogCrs(c) => CrsV::GeogCrs((**c)@),
            Crs::GeodCrs(c) => CrsV::GeodCrs((**c)@),
            Crs::VertCrs(c) => CrsV::VertCrs((**c)@),
            Crs::CompoundCrs(c) => CrsV::CompoundCrs((**c)@),
        }
    }
}

} // verus!
