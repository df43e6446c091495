//! Localized display names for feature-type tables.
//!
//! Each known feature type maps to a fixed human-readable file name; an
//! unknown type falls back to a deterministic derived name.

use vstd::prelude::*;

use crate::sink::GpkgSink;
use crate::strutil;

verus! {

/// The display/file name a feature-type table is materialized under.
pub open spec fn display_name(t: Seq<char>) -> Seq<char> {
    if t == "bldg:Building"@ {
        "PLATEAU建築物"@
    } else if t == "luse:LandUse"@ {
        "PLATEAU土地利用"@
    } else if t == "urf:UrbanPlanningArea"@ {
        "PLATEAU都市計画区域"@
    } else if t == "urf:QuasiUrbanPlanningArea"@ {
        "PLATEAU準都市計画区域"@
    } else if t == "urf:AreaClassification"@ {
        "PLATEAU区域区分"@
    } else if t == "urf:DistrictsAndZones"@ {
        "PLATEAU地域地区"@
    } else if t == "urf:UseDistrict"@ {
        "PLATEAU用途地域"@
    } else if t == "urf:SpecialUseDistrict"@ {
        "PLATEAU特別用途地区"@
    } else if t == "urf:SpecialUseRestrictionDistrict"@ {
        "PLATEAU特定用途制限地域"@
    } else if t == "urf:ExceptionalFloorAreaRateDistrict"@ {
        "PLATEAU特例容積率適用地区"@
    } else if t == "urf:HighRiseResidentialAttractionDistrict"@ {
        "PLATEAU高層住居誘導地区"@
    } else if t == "urf:HeightControlDistrict"@ {
        "PLATEAU高度地区"@
    } else if t == "urf:HighLevelUseDistrict"@ {
        "PLATEAU高度利用地区"@
    } else if t == "urf:SpecifiedBlock"@ {
        "PLATEAU特定街区"@
    } else if t == "urf:SpecialUrbanRenaissanceDistrict"@ {
        "PLATEAU都市再生特別地区"@
    } else if t == "urf:HousingControlArea"@ {
        "PLATEAU居住調整地域"@
    } else if t == "urf:ResidentialEnvironmentImprovementDistrict"@ {
        "PLATEAU居住環境向上用途誘導地区"@
    } else if t == "urf:SpecialUseAttractionDistrict"@ {
        "PLATEAU特定用途誘導地区"@
    } else if t == "urf:FirePreventionDistrict"@ {
        "PLATEAU防火地域又は準防火地域"@
    } else if t == "urf:SpecifiedDisasterPreventionBlockImprovementZone"@ {
        "PLATEAU特定防災街区整備地区"@
    } else if t == "urf:LandscapeZone"@ {
        "PLATEAU景観地区"@
    } else if t == "urf:ScenicDistrict"@ {
        "PLATEAU風致地区"@
    } else if t == "urf:ParkingPlaceDevelopmentZone"@ {
        "PLATEAU駐車場整備地区"@
    } else if t == "urf:PortZone"@ {
        "PLATEAU臨港地区"@
    } else if t == "urf:SpecialZoneForPreservationOfHistoricalLandscape"@ {
        "PLATEAU歴史的風土特別保存地区"@
    } else if t == "urf:ZoneForPreservationOfHistoricalLandscape"@ {
        "PLATEAU風土保存地区"@
    } else if t == "urf:GreenSpaceConservationDistrict"@ {
        "PLATEAU緑地保全地域"@
    } else if t == "urf:SpecialGreenSpaceConservationDistrict"@ {
        "PLATEAU特別緑地保全地域"@
    } else if t == "urf:TreePlantingDistrict"@ {
        "PLATEAU緑化地域"@
    } else if t == "urf:DistributionBusinessZone"@ {
        "PLATEAU流通業務地区"@
    } else if t == "urf:ProductiveGreenZone"@ {
        "PLATEAU生産緑地地区"@
    } else if t == "urf:ConservationZoneForClustersOfTraditionalStructures"@ {
        "PLATEAU伝統的建造物群保存地区"@
    } else if t == "urf:AircraftNoiseControlZoneurf:AircraftNoiseControlZone"@ {
        "PLATEAU防止特別地区"@
    } else if t == "urf:ProjectPromotionArea"@ {
        "PLATEAU促進区域"@
    } else if t == "urf:UrbanRedevelopmentPromotionArea"@ {
        "PLATEAU市街地再開発促進区域"@
    } else if t == "urf:LandReadjustmentPromotionArea"@ {
        "PLATEAU土地区画整理促進区域"@
    } else if t == "urf:ResidentialBlockConstructionPromotionArea"@ {
        "PLATEAU住宅街区整備促進区域"@
    } else if t == "urf:LandReadjustmentPromotionAreasForCoreBusinessUrbanDevelopment"@ {
        "PLATEAU拠点業務市街地整備土地区画整理促進区域"@
    } else if t == "urf:UnusedLandUsePromotionArea"@ {
        "PLATEAU遊休土地転換利用促進地区"@
    } else if t == "urf:UrbanDisasterRecoveryPromotionArea"@ {
        "PLATEAU被災市街地復興推進地域"@
    } else if t == "urf:UrbanFacility"@ {
        "PLATEAU都市施設"@
    } else if t == "urf:TrafficFacility"@ {
        "PLATEAU交通施設"@
    } else if t == "urf:OpenSpaceForPublicUse"@ {
        "PLATEAU公共空地"@
    } else if t == "urf:SupplyFacility,"@ {
        "PLATEAU供給施設及び処理施設"@
    } else if t == "urf:TreatmentFacility"@ {
        "PLATEAU供給施設及び処理施設"@
    } else if t == "urf:Waterway"@ {
        "PLATEAU水路"@
    } else if t == "urf:EducationalAndCulturalFacility"@ {
        "PLATEAU教育文化施設"@
    } else if t == "urf:MedicalFacility"@ {
        "PLATEAU医療施設及び社会福祉施設"@
    } else if t == "urf:SocialWelfareFacility"@ {
        "PLATEAU医療施設及び社会福祉施設"@
    } else if t == "urf:MarketsSlaughterhousesCrematoria"@ {
        "PLATEAU市場、と畜場、火葬場"@
    } else if t == "urf:CollectiveHousingFacilities"@ {
        "PLATEAU一団地の住宅施設"@
    } else if t == "urf:CollectiveGovernmentAndPublicOfficeFacilities"@ {
        "PLATEAU一団地の官公庁施設"@
    } else if t == "urf:DistributionBusinessPark"@ {
        "PLATEAU流通業務団地"@
    } else if t == "urf:CollectiveFacilitiesForTsunamiDisasterPrevention"@ {
        "PLATEAU一団地の津波防災拠点市街地形成施設"@
    } else if t == "urf:CollectiveFacilitiesForReconstructionAndRevitalization"@ {
        "PLATEAU一団地の復興再生拠点市街地形成施設"@
    } else if t == "urf:CollectiveFacilitiesForReconstruction"@ {
        "PLATEAU一団地の復興拠点市街地形成施設"@
    } else if t == "urf:CollectiveUrbanDisasterPreventionFacilities"@ {
        "PLATEAU一団地の都市安全確保拠点施設"@
    } else if t == "urf:UrbanFacilityStipulatedByCabinetOrder"@ {
        "PLATEAU政令で定める都市施設"@
    } else if t == "urf:TelecommunicationFacility"@ {
        "PLATEAU電気通信施設"@
    } else if t == "urf:WindProtectionFacility"@ {
        "PLATEAU防風施設"@
    } else if t == "urf:FireProtectionFacility"@ {
        "PLATEAU防火施設"@
    } else if t == "urf:TideFacility"@ {
        "PLATEAU防潮施設"@
    } else if t == "urf:FloodPreventionFacility"@ {
        "PLATEAU防水施設"@
    } else if t == "urf:SnowProtectionFacility"@ {
        "PLATEAU防雪施設"@
    } else if t == "urf:SandControlFacility"@ {
        "PLATEAU防砂施設"@
    } else if t == "urf:UrbanDevelopmentProject"@ {
        "PLATEAU市街地開発事業"@
    } else if t == "urf:LandReadjustmentProject"@ {
        "PLATEAU土地区画整理事業"@
    } else if t == "urf:NewHousingAndUrbanDevelopmentProject"@ {
        "PLATEAU新住宅市街地開発事業"@
    } else if t == "urf:IndustrialParkDevelopmentProject"@ {
        "PLATEAU工業団地造成事業"@
    } else if t == "urf:UrbanRedevelopmentProject"@ {
        "PLATEAU市街地再開発事業"@
    } else if t == "urf:NewUrbanInfrastructureProject"@ {
        "PLATEAU新都市基盤整備事業"@
    } else if t == "urf:ResidentialBlockConstructionProject"@ {
        "PLATEAU住宅街区整備事業"@
    } else if t == "urf:DisasterPreventionBlockImprovementProject"@ {
        "PLATEAU防災街区整備事業"@
    } else if t == "urf:UrbanRenewalProject"@ {
        "PLATEAU市街地改造事業"@
    } else if t == "urf:ScheduledAreaForUrbanDevelopmentProject"@ {
        "PLATEAU市街地開発事業等の予定区域"@
    } else if t == "urf:ScheduledAreaForNewHousingAndUrbanDevelopmentProjects"@ {
        "PLATEAU新住宅市街地開発事業の予定区域"@
    } else if t == "urf:ScheduledAreaForIndustrialParkDevelopmentProjects"@ {
        "PLATEAU工業団地造成事業の予定区域"@
    } else if t == "urf:ScheduledAreaForNewUrbanInfrastructureProjects"@ {
        "PLATEAU新都市基盤整備事業の予定区域"@
    } else if t == "urf:ScheduledAreaForCollectiveHousingFacilities"@ {
        "PLATEAU一団地の住宅施設の予定区域"@
    } else if t == "urf:ScheduledAreaForCollectiveGovernmentAndPublicOfficeFacilities"@ {
        "PLATEAU一団地の官公庁施設の予定区域"@
    } else if t == "urf:ScheduledAreaForDistributionBusinessPark"@ {
        "PLATEAU流通業務団地の予定区域"@
    } else if t == "urf:DistrictPlan"@ {
        "PLATEAU地区計画"@
    } else if t == "urf:DistrictDevelopmentPlan"@ {
        "PLATEAU地区整備計画"@
    } else if t == "urf:DistrictFacilityurf:DistrictFacility"@ {
        "PLATEAU地区施設"@
    } else if t == "urf:RoadsideDistrictPlan"@ {
        "PLATEAU沿道地区計画"@
    } else if t == "urf:RoadsideDistrictImprovementPlan"@ {
        "PLATEAU沿道地区整備計画"@
    } else if t == "urf:RoadsideDistrictFacility"@ {
        "PLATEAU沿道地区施設"@
    } else if t == "urf:RuralDistrictPlan"@ {
        "PLATEAU集落地区計画"@
    } else if t == "urf:RuralDistrictImprovementPlan"@ {
        "PLATEAU集落地整備計画"@
    } else if t == "urf:RuralDistrictFacility"@ {
        "PLATEAU集落施設"@
    } else if t == "urf:HistoricSceneryMaintenanceAndImprovementDistrictPlan"@ {
        "PLATEAU歴史的風致維持向上地区計画"@
    } else if t == "urf:DistrictImprovementPlanForHistoricSceneryMaintenanceAndImprovementDistrict"@ {
        "PLATEAU歴史的風致維持向上地区整備計画"@
    } else if t == "urf:DisasterPreventionBlockImprovementZonePlan"@ {
        "PLATEAU防災街区整備地区計画"@
    } else if t == "urf:SpecifiedBuildingZoneImprovementPlan"@ {
        "PLATEAU特定建築物地区整備計画"@
    } else if t == "urf:DistrictImprovementPlanForDisasterPreventionBlockImprovementZonePlan"@ {
        "PLATEAU防災街区整備地区整備計画"@
    } else if t == "urf:ZonalDisasterPreventionFacility"@ {
        "PLATEAU地区防災施設"@
    } else if t == "urf:ThreeDimensionalExtent"@ {
        "PLATEAU立体的な範囲"@
    } else if t == "urf:Boundary"@ {
        "PLATEAU境界"@
    } else if t == "urf:UrbanFunctionAttractionArea"@ {
        "PLATEAU都市機能誘導区域"@
    } else if t == "urf:ResidenceAttractionArea"@ {
        "PLATEAU居住誘導区域"@
    } else {
        "PLATEAU"@ + t
    }
}

impl GpkgSink {
    /// Derive the localized file name for a feature-type table.
    #[verifier::rlimit(60)]
    pub fn convert_filename(table_name: &str) -> (r: String)
        ensures
            r@ == display_name(table_name@),
    {
        if strutil::str_eq(table_name, "bldg:Building") {
            String::from_str("PLATEAU建築物")
        } else if strutil::str_eq(table_name, "luse:LandUse") {
            String::from_str("PLATEAU土地利用")
        } else if strutil::str_eq(table_name, "urf:UrbanPlanningArea") {
            String::from_str("PLATEAU都市計画区域")
        } else if strutil::str_eq(table_name, "urf:QuasiUrbanPlanningArea") {
            String::from_str("PLATEAU準都市計画区域")
        } else if strutil::str_eq(table_name, "urf:AreaClassification") {
            String::from_str("PLATEAU区域区分")
        } else if strutil::str_eq(table_name, "urf:DistrictsAndZones") {
            String::from_str("PLATEAU地域地区")
        } else if strutil::str_eq(table_name, "urf:UseDistrict") {
            String::from_str("PLATEAU用途地域")
        } else if strutil::str_eq(table_name, "urf:SpecialUseDistrict") {
            String::from_str("PLATEAU特別用途地区")
        } else if strutil::str_eq(table_name, "urf:SpecialUseRestrictionDistrict") {
            String::from_str("PLATEAU特定用途制限地域")
        } else if strutil::str_eq(table_name, "urf:ExceptionalFloorAreaRateDistrict") {
            String::from_str("PLATEAU特例容積率適用地区")
        } else if strutil::str_eq(table_name, "urf:HighRiseResidentialAttractionDistrict") {
            String::from_str("PLATEAU高層住居誘導地区")
        } else if strutil::str_eq(table_name, "urf:HeightControlDistrict") {
            String::from_str("PLATEAU高度地区")
        } else if strutil::str_eq(table_name, "urf:HighLevelUseDistrict") {
            String::from_str("PLATEAU高度利用地区")
        } else if strutil::str_eq(table_name, "urf:SpecifiedBlock") {
            String::from_str("PLATEAU特定街区")
        } else if strutil::str_eq(table_name, "urf:SpecialUrbanRenaissanceDistrict") {
            String::from_str("PLATEAU都市再生特別地区")
        } else if strutil::str_eq(table_name, "urf:HousingControlArea") {
            String::from_str("PLATEAU居住調整地域")
        } else if strutil::str_eq(table_name, "urf:ResidentialEnvironmentImprovementDistrict") {
            String::from_str("PLATEAU居住環境向上用途誘導地区")
        } else if strutil::str_eq(table_name, "urf:SpecialUseAttractionDistrict") {
            String::from_str("PLATEAU特定用途誘導地区")
        } else if strutil::str_eq(table_name, "urf:FirePreventionDistrict") {
            String::from_str("PLATEAU防火地域又は準防火地域")
        } else if strutil::str_eq(table_name, "urf:SpecifiedDisasterPreventionBlockImprovementZone") {
            String::from_str("PLATEAU特定防災街区整備地区")
        } else if strutil::str_eq(table_name, "urf:LandscapeZone") {
            String::from_str("PLATEAU景観地区")
        } else if strutil::str_eq(table_name, "urf:ScenicDistrict") {
            String::from_str("PLATEAU風致地区")
        } else if strutil::str_eq(table_name, "urf:ParkingPlaceDevelopmentZone") {
            String::from_str("PLATEAU駐車場整備地区")
        } else if strutil::str_eq(table_name, "urf:PortZone") {
            String::from_str("PLATEAU臨港地区")
        } else if strutil::str_eq(table_name, "urf:SpecialZoneForPreservationOfHistoricalLandscape") {
            String::from_str("PLATEAU歴史的風土特別保存地区")
        } else if strutil::str_eq(table_name, "urf:ZoneForPreservationOfHistoricalLandscape") {
            String::from_str("PLATEAU風土保存地区")
        } else if strutil::str_eq(table_name, "urf:GreenSpaceConservationDistrict") {
            String::from_str("PLATEAU緑地保全地域")
        } else if strutil::str_eq(table_name, "urf:SpecialGreenSpaceConservationDistrict") {
            String::from_str("PLATEAU特別緑地保全地域")
        } else if strutil::str_eq(table_name, "urf:TreePlantingDistrict") {
            String::from_str("PLATEAU緑化地域")
        } else if strutil::str_eq(table_name, "urf:DistributionBusinessZone") {
            String::from_str("PLATEAU流通業務地区")
        } else if strutil::str_eq(table_name, "urf:ProductiveGreenZone") {
            String::from_str("PLATEAU生産緑地地区")
        } else if strutil::str_eq(table_name, "urf:ConservationZoneForClustersOfTraditionalStructures") {
            String::from_str("PLATEAU伝統的建造物群保存地区")
        } else if strutil::str_eq(table_name, "urf:AircraftNoiseControlZoneurf:AircraftNoiseControlZone") {
            String::from_str("PLATEAU防止特別地区")
        } else if strutil::str_eq(table_name, "urf:ProjectPromotionArea") {
            String::from_str("PLATEAU促進区域")
        } else if strutil::str_eq(table_name, "urf:UrbanRedevelopmentPromotionArea") {
            String::from_str("PLATEAU市街地再開発促進区域")
        } else if strutil::str_eq(table_name, "urf:LandReadjustmentPromotionArea") {
            String::from_str("PLATEAU土地区画整理促進区域")
        } else if strutil::str_eq(table_name, "urf:ResidentialBlockConstructionPromotionArea") {
            String::from_str("PLATEAU住宅街区整備促進区域")
        } else if strutil::str_eq(table_name, "urf:LandReadjustmentPromotionAreasForCoreBusinessUrbanDevelopment") {
            String::from_str("PLATEAU拠点業務市街地整備土地区画整理促進区域")
        } else if strutil::str_eq(table_name, "urf:UnusedLandUsePromotionArea") {
            String::from_str("PLATEAU遊休土地転換利用促進地区")
        } else if strutil::str_eq(table_name, "urf:UrbanDisasterRecoveryPromotionArea") {
            String::from_str("PLATEAU被災市街地復興推進地域")
        } else if strutil::str_eq(table_name, "urf:UrbanFacility") {
            String::from_str("PLATEAU都市施設")
        } else if strutil::str_eq(table_name, "urf:TrafficFacility") {
            String::from_str("PLATEAU交通施設")
        } else if strutil::str_eq(table_name, "urf:OpenSpaceForPublicUse") {
            String::from_str("PLATEAU公共空地")
        } else if strutil::str_eq(table_name, "urf:SupplyFacility,") {
            String::from_str("PLATEAU供給施設及び処理施設")
        } else if strutil::str_eq(table_name, "urf:TreatmentFacility") {
            String::from_str("PLATEAU供給施設及び処理施設")
        } else if strutil::str_eq(table_name, "urf:Waterway") {
            String::from_str("PLATEAU水路")
        } else if strutil::str_eq(table_name, "urf:EducationalAndCulturalFacility") {
            String::from_str("PLATEAU教育文化施設")
        } else if strutil::str_eq(table_name, "urf:MedicalFacility") {
            String::from_str("PLATEAU医療施設及び社会福祉施設")
        } else if strutil::str_eq(table_name, "urf:SocialWelfareFacility") {
            String::from_str("PLATEAU医療施設及び社会福祉施設")
        } else if strutil::str_eq(table_name, "urf:MarketsSlaughterhousesCrematoria") {
            String::from_str("PLATEAU市場、と畜場、火葬場")
        } else if strutil::str_eq(table_name, "urf:CollectiveHousingFacilities") {
            String::from_str("PLATEAU一団地の住宅施設")
        } else if strutil::str_eq(table_name, "urf:CollectiveGovernmentAndPublicOfficeFacilities") {
            String::from_str("PLATEAU一団地の官公庁施設")
        } else if strutil::str_eq(table_name, "urf:DistributionBusinessPark") {
            String::from_str("PLATEAU流通業務団地")
        } else if strutil::str_eq(table_name, "urf:CollectiveFacilitiesForTsunamiDisasterPrevention") {
            String::from_str("PLATEAU一団地の津波防災拠点市街地形成施設")
        } else if strutil::str_eq(table_name, "urf:CollectiveFacilitiesForReconstructionAndRevitalization") {
            String::from_str("PLATEAU一団地の復興再生拠点市街地形成施設")
        } else if strutil::str_eq(table_name, "urf:CollectiveFacilitiesForReconstruction") {
            String::from_str("PLATEAU一団地の復興拠点市街地形成施設")
        } else if strutil::str_eq(table_name, "urf:CollectiveUrbanDisasterPreventionFacilities") {
            String::from_str("PLATEAU一団地の都市安全確保拠点施設")
        } else if strutil::str_eq(table_name, "urf:UrbanFacilityStipulatedByCabinetOrder") {
            String::from_str("PLATEAU政令で定める都市施設")
        } else if strutil::str_eq(table_name, "urf:TelecommunicationFacility") {
            String::from_str("PLATEAU電気通信施設")
        } else if strutil::str_eq(table_name, "urf:WindProtectionFacility") {
            String::from_str("PLATEAU防風施設")
        } else if strutil::str_eq(table_name, "urf:FireProtectionFacility") {
            String::from_str("PLATEAU防火施設")
        } else if strutil::str_eq(table_name, "urf:TideFacility") {
            String::from_str("PLATEAU防潮施設")
        } else if strutil::str_eq(table_name, "urf:FloodPreventionFacility") {
            String::from_str("PLATEAU防水施設")
        } else if strutil::str_eq(table_name, "urf:SnowProtectionFacility") {
            String::from_str("PLATEAU防雪施設")
        } else if strutil::str_eq(table_name, "urf:SandControlFacility") {
            String::from_str("PLATEAU防砂施設")
        } else if strutil::str_eq(table_name, "urf:UrbanDevelopmentProject") {
            String::from_str("PLATEAU市街地開発事業")
        } else if strutil::str_eq(table_name, "urf:LandReadjustmentProject") {
            String::from_str("PLATEAU土地区画整理事業")
        } else if strutil::str_eq(table_name, "urf:NewHousingAndUrbanDevelopmentProject") {
            String::from_str("PLATEAU新住宅市街地開発事業")
        } else if strutil::str_eq(table_name, "urf:IndustrialParkDevelopmentProject") {
            String::from_str("PLATEAU工業団地造成事業")
        } else if strutil::str_eq(table_name, "urf:UrbanRedevelopmentProject") {
            String::from_str("PLATEAU市街地再開発事業")
        } else if strutil::str_eq(table_name, "urf:NewUrbanInfrastructureProject") {
            String::from_str("PLATEAU新都市基盤整備事業")
        } else if strutil::str_eq(table_name, "urf:ResidentialBlockConstructionProject") {
            String::from_str("PLATEAU住宅街区整備事業")
        } else if strutil::str_eq(table_name, "urf:DisasterPreventionBlockImprovementProject") {
            String::from_str("PLATEAU防災街区整備事業")
        } else if strutil::str_eq(table_name, "urf:UrbanRenewalProject") {
            String::from_str("PLATEAU市街地改造事業")
        } else if strutil::str_eq(table_name, "urf:ScheduledAreaForUrbanDevelopmentProject") {
            String::from_str("PLATEAU市街地開発事業等の予定区域")
        } else if strutil::str_eq(table_name, "urf:ScheduledAreaForNewHousingAndUrbanDevelopmentProjects") {
            String::from_str("PLATEAU新住宅市街地開発事業の予定区域")
        } else if strutil::str_eq(table_name, "urf:ScheduledAreaForIndustrialParkDevelopmentProjects") {
            String::from_str("PLATEAU工業団地造成事業の予定区域")
        } else if strutil::str_eq(table_name, "urf:ScheduledAreaForNewUrbanInfrastructureProjects") {
            String::from_str("PLATEAU新都市基盤整備事業の予定区域")
        } else if strutil::str_eq(table_name, "urf:ScheduledAreaForCollectiveHousingFacilities") {
            String::from_str("PLATEAU一団地の住宅施設の予定区域")
        } else if strutil::str_eq(table_name, "urf:ScheduledAreaForCollectiveGovernmentAndPublicOfficeFacilities") {
            String::from_str("PLATEAU一団地の官公庁施設の予定区域")
        } else if strutil::str_eq(table_name, "urf:ScheduledAreaForDistributionBusinessPark") {
            String::from_str("PLATEAU流通業務団地の予定区域")
        } else if strutil::str_eq(table_name, "urf:DistrictPlan") {
            String::from_str("PLATEAU地区計画")
        } else if strutil::str_eq(table_name, "urf:DistrictDevelopmentPlan") {
            String::from_str("PLATEAU地区整備計画")
        } else if strutil::str_eq(table_name, "urf:DistrictFacilityurf:DistrictFacility") {
            String::from_str("PLATEAU地区施設")
        } else if strutil::str_eq(table_name, "urf:RoadsideDistrictPlan") {
            String::from_str("PLATEAU沿道地区計画")
        } else if strutil::str_eq(table_name, "urf:RoadsideDistrictImprovementPlan") {
            String::from_str("PLATEAU沿道地区整備計画")
        } else if strutil::str_eq(table_name, "urf:RoadsideDistrictFacility") {
            String::from_str("PLATEAU沿道地区施設")
        } else if strutil::str_eq(table_name, "urf:RuralDistrictPlan") {
            String::from_str("PLATEAU集落地区計画")
        } else if strutil::str_eq(table_name, "urf:RuralDistrictImprovementPlan") {
            String::from_str("PLATEAU集落地整備計画")
        } else if strutil::str_eq(table_name, "urf:RuralDistrictFacility") {
            String::from_str("PLATEAU集落施設")
        } else if strutil::str_eq(table_name, "urf:HistoricSceneryMaintenanceAndImprovementDistrictPlan") {
            String::from_str("PLATEAU歴史的風致維持向上地区計画")
        } else if strutil::str_eq(table_name, "urf:DistrictImprovementPlanForHistoricSceneryMaintenanceAndImprovementDistrict") {
            String::from_str("PLATEAU歴史的風致維持向上地区整備計画")
        } else if strutil::str_eq(table_name, "urf:DisasterPreventionBlockImprovementZonePlan") {
            String::from_str("PLATEAU防災街区整備地区計画")
        } else if strutil::str_eq(table_name, "urf:SpecifiedBuildingZoneImprovementPlan") {
            String::from_str("PLATEAU特定建築物地区整備計画")
        } else if strutil::str_eq(table_name, "urf:DistrictImprovementPlanForDisasterPreventionBlockImprovementZonePlan") {
            String::from_str("PLATEAU防災街区整備地区整備計画")
        } else if strutil::str_eq(table_name, "urf:ZonalDisasterPreventionFacility") {
            String::from_str("PLATEAU地区防災施設")
        } else if strutil::str_eq(table_name, "urf:ThreeDimensionalExtent") {
            String::from_str("PLATEAU立体的な範囲")
        } else if strutil::str_eq(table_name, "urf:Boundary") {
            String::from_str("PLATEAU境界")
        } else if strutil::str_eq(table_name, "urf:UrbanFunctionAttractionArea") {
            String::from_str("PLATEAU都市機能誘導区域")
        } else if strutil::str_eq(table_name, "urf:ResidenceAttractionArea") {
            String::from_str("PLATEAU居住誘導区域")
        } else {
            String::from_str("PLATEAU").concat(table_name)
        }
    }
}

} // verus!
