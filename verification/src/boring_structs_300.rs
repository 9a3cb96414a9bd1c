//! Record structures of schema version 3.00.
//!
//! Every field of the source record is optional text; the engine reads
//! only the coordinate fields, through the geographic facade.

use vstd::prelude::*;

use crate::boring_structs_210::{AlterationClassificationTable210, BoreholeDiameterProtection210, BoreholeHorizontalLoadTest210, BoreholeWaterLevel210, BoringBasicInfo210, CasingPipe210, Color210, CoreShapeClassificationTable210, CoreTubeBit210, DrillingMachine210, DrillingProcess210, DrillingSpeed210, Engine210, FaultFractureZoneClassification210, FractureClassificationTable210, GroundMaterialClassification210, GroundwaterLoggingTest210, GroundwaterLoggingTestDetail210, GroundwaterLoggingTestResult210, HammerDropTool210, HardnessClassificationTable210, LngLat210, LocalCoordinate210, LugeonTest210, LugeonTestDetail210, MeasuringInstrument210, NValueRecorder210, ObservationalArticle210, ObservationalArticleFrame210, OrderInstitution210, OtherInSituTest210, PWaveTest210, PermeabilityTest210, PressureCondition210, Pump210, RQD210, RelativeDensityConsistency210, Remark210, RockClassClassificationTable210, RotationSpeed210, SWaveTest210, SampleCollection210, StandardPenetrationTest210, StandardPenetrationTestDetail210, StratumRockClassification210, SurveyCompany210, SurveyPeriod210, SurveyPosition210, TowerType210, WaterSupplyCondition210, WeatheringClassificationTable210};
use crate::types::FreeInfo;

verus! {

// v2.10の構造体を流用

// ============================================================================
// ルート構造体
// ============================================================================

#[derive(Debug, Default)]
/// Element `ボーリング情報`.
pub struct Boring300 {
    /// Element `@DTD_version`.
    pub dtd_version: Option<String>,
    /// Element `標題情報`.
    pub title: Title300,
    /// Element `コア情報`.
    pub core: Core300,
}

// ============================================================================
// 標題情報 - v2.10と同じ構造だが、BasicSurvey300を使用
// ============================================================================

#[derive(Debug, Default)]
pub struct Title300 {
    /// Element `調査基本情報`.
    pub basic_info: BasicSurvey300,
    /// Element `経度緯度情報`.
    pub longitude_latitude: LngLat210,
    /// Element `ローカル座標`.
    pub local_coordinates: Vec<LocalCoordinate210>,
    /// Element `調査位置`.
    pub survey_position: SurveyPosition210,
    /// Element `発注機関`.
    pub order_institution: OrderInstitution210,
    /// Element `調査期間`.
    pub survey_period: SurveyPeriod210,
    /// Element `調査会社`.
    pub survey_company: SurveyCompany210,
    /// Element `ボーリング基本情報`.
    pub boring_basic_info: BoringBasicInfo210,
    /// Element `試錐機`.
    pub drilling_machine: DrillingMachine210,
    /// Element `エンジン`.
    pub engine: Engine210,
    /// Element `ハンマー落下用具`.
    pub hammer_drop_tool: Option<HammerDropTool210>,
    /// Element `N値記録用具`.
    pub n_value_recorder: Option<NValueRecorder210>,
    /// Element `ポンプ`.
    pub pump: Pump210,
    /// Element `櫓種類`.
    pub tower_type: Option<TowerType210>,
}

// ============================================================================
// 調査基本情報 - v3.00で適用規格が追加
// ============================================================================

#[derive(Debug, Default)]
pub struct BasicSurvey300 {
    /// Element `事業工事名`.
    pub project_name: Option<String>,
    /// Element `調査名`.
    pub survey_name: Option<String>,
    /// Element `調査目的`.
    pub survey_purpose: Option<String>,
    /// Element `調査対象`.
    pub survey_target: Option<String>,
    /// Element `ボーリング名`.
    pub boring_name: Option<String>,
    /// Element `ボーリング総数`.
    pub total_boring: Option<String>,
    /// Element `ボーリング連番`.
    pub boring_serial: Option<String>,
}

// ============================================================================
// コア情報 - 岩石土区分を使用、その他はv2.10を再利用
// ============================================================================

#[derive(Debug, Default)]
pub struct Core300 {
    /// Element `岩石土区分`.
    pub rock_soil_classifications: Vec<RockSoilClassification300>,
    /// Element `色調`.
    pub colors: Vec<Color210>,
    /// Element `観察記事`.
    pub observational_articles: Vec<ObservationalArticle210>,
    /// Element `観察記事枠線`.
    pub observational_article_frames: Vec<ObservationalArticleFrame210>,
    /// Element `標準貫入試験`.
    pub standard_penetration_tests: Vec<StandardPenetrationTest210>,
    /// Element `標準貫入試験詳細データ`.
    pub standard_penetration_test_details: Vec<StandardPenetrationTestDetail210>,
    /// Element `ルジオン試験`.
    pub lugeon_tests: Vec<LugeonTest210>,
    /// Element `ルジオン試験詳細データ`.
    pub lugeon_test_details: Vec<LugeonTestDetail210>,
    /// Element `相対密度稠度`.
    pub relative_density_consistency: Vec<RelativeDensityConsistency210>,
    /// Element `硬軟区分判定表`.
    pub hardness_classification_table: Vec<HardnessClassificationTable210>,
    /// Element `硬軟区分`.
    pub hardness_classifications: Vec<HardnessClassification300>, // v3.00で内部フィールドがオプション化
    /// Element `コア形状区分判定表`.
    pub core_shape_classification_table: Vec<CoreShapeClassificationTable210>,
    /// Element `コア形状区分`.
    pub core_shape_classifications: Vec<CoreShapeClassification300>, // v3.00で内部フィールドがオプション化
    /// Element `割れ目区分判定表`.
    pub fracture_classification_table: Vec<FractureClassificationTable210>,
    /// Element `割れ目区分`.
    pub fracture_classifications: Vec<FractureClassification300>, // v3.00で内部フィールドがオプション化
    /// Element `風化区分判定表`.
    pub weathering_classification_table: Vec<WeatheringClassificationTable210>,
    /// Element `風化区分`.
    pub weathering_classifications: Vec<WeatheringClassification300>, // v3.00で内部フィールドがオプション化
    /// Element `変質区分判定表`.
    pub alteration_classification_table: Vec<AlterationClassificationTable210>,
    /// Element `変質区分`.
    pub alteration_classifications: Vec<AlterationClassification300>, // v3.00で内部フィールドがオプション化
    /// Element `孔内水平載荷試験`.
    pub borehole_horizontal_load_tests: Vec<BoreholeHorizontalLoadTest210>,
    /// Element `透水試験`.
    pub permeability_tests: Vec<PermeabilityTest210>,
    /// Element `P波試験`.
    pub p_wave_tests: Vec<PWaveTest210>,
    /// Element `S波試験`.
    pub s_wave_tests: Vec<SWaveTest210>,
    /// Element `その他原位置試験`.
    pub other_in_situ_tests: Vec<OtherInSituTest210>,
    /// Element `試料採取`.
    pub sample_collections: Vec<SampleCollection210>,
    /// Element `地盤材料の工学的分類`.
    pub ground_material_classifications: Vec<GroundMaterialClassification210>,
    /// Element `地質時代`.
    pub geological_ages: Vec<GeologicalAge300>, // v3.00で構造変更
    /// Element `地層岩体区分`.
    pub stratum_rock_classifications: Vec<StratumRockClassification210>,
    /// Element `孔内水位`.
    pub borehole_water_levels: Vec<BoreholeWaterLevel210>,
    /// Element `掘削工程`.
    pub drilling_processes: Vec<DrillingProcess210>,
    /// Element `孔径孔壁保護`.
    pub borehole_diameter_protections: Vec<BoreholeDiameterProtection210>,
    /// Element `掘進速度`.
    pub drilling_speeds: Vec<DrillingSpeed210>,
    /// Element `コアチューブビット`.
    pub core_tube_bits: Vec<CoreTubeBit210>,
    /// Element `給圧条件`.
    pub pressure_conditions: Vec<PressureCondition210>,
    /// Element `回転数`.
    pub rotation_speeds: Vec<RotationSpeed210>,
    /// Element `送水条件`.
    pub water_supply_conditions: Vec<WaterSupplyCondition210>,
    /// Element `断層破砕帯区分`.
    pub fault_fracture_zone_classifications: Vec<FaultFractureZoneClassification210>,
    /// Element `コア採取率`.
    pub core_recovery_rates: Vec<CoreRecoveryRate300>, // v3.00で内部フィールドがオプション化
    /// Element `最大コア長`.
    pub maximum_core_lengths: Vec<MaximumCoreLength300>, // v3.00で内部フィールドがオプション化
    /// Element `RQD`.
    pub rqds: Vec<RQD210>,
    /// Element `岩級区分判定表`.
    pub rock_class_classification_table: Vec<RockClassClassificationTable210>,
    /// Element `岩級区分`.
    pub rock_class_classifications: Vec<RockClassClassification300>, // v3.00で内部フィールドがオプション化
    /// Element `保孔管`.
    pub casing_pipes: Vec<CasingPipe210>,
    /// Element `計測機器`.
    pub measuring_instruments: Vec<MeasuringInstrument210>,
    /// Element `地下水検層試験`.
    pub groundwater_logging_tests: Vec<GroundwaterLoggingTest210>,
    /// Element `地下水検層試験詳細データ`.
    pub groundwater_logging_test_details: Vec<GroundwaterLoggingTestDetail210>,
    /// Element `地下水検層試験判定結果`.
    pub groundwater_logging_test_results: Vec<GroundwaterLoggingTestResult210>,
    /// Element `備考`.
    pub remarks: Vec<Remark210>,
    /// Element `フリー情報`.
    pub free_info: Vec<FreeInfo>,
}

// ============================================================================
// 岩石土区分 - v3.00で大きく構造変更
// DTD: <!ELEMENT 岩石土区分 (岩石土区分_下端深度, 岩石土区分_岩石土名,
//      岩石土区分_岩石土記号?, 岩石土区分_岩石群+)>
// ============================================================================

#[derive(Debug, Default)]
pub struct RockSoilClassification300 {
    /// Element `岩石土区分_下端深度`.
    pub depth: Option<String>,
    /// Element `岩石土区分_岩石土名`.
    pub rock_soil_name: Option<String>,
    /// Element `岩石土区分_岩石土記号`.
    pub rock_soil_symbol: Option<String>,
    /// Element `岩石土区分_岩石群`.
    pub rock_groups: Vec<RockGroup300>,
}

// ============================================================================
// 岩石土区分_岩石群
// DTD: <!ELEMENT 岩石土区分_岩石群 (岩石土区分_岩石群コード, 岩石土区分_岩石土コード+)>
// ============================================================================

#[derive(Debug, Default)]
pub struct RockGroup300 {
    /// Element `岩石土区分_岩石群コード`.
    pub rock_group_code: Option<String>,
    /// Element `岩石土区分_岩石土コード`.
    pub rock_soil_codes: Vec<RockSoilCode300>,
}

// ============================================================================
// 岩石土区分_岩石土コード
// DTD: <!ELEMENT 岩石土区分_岩石土コード (岩石土区分_岩相?, 岩石土区分_岩石?,
//      岩石土区分_変成岩岩相?, 岩石土区分_変成岩岩石?)>
// ============================================================================

#[derive(Debug, Default)]
pub struct RockSoilCode300 {
    /// Element `岩石土区分_岩相`.
    pub lithofacies: Option<String>,
    /// Element `岩石土区分_岩石`.
    pub rock: Option<String>,
    /// Element `岩石土区分_変成岩岩相`.
    pub metamorphic_rock_lithofacies: Option<String>,
    /// Element `岩石土区分_変成岩岩石`.
    pub metamorphic_rock: Option<String>,
}

// ============================================================================
// 地質時代 - v3.00で構造変更
// DTD: <!ELEMENT 地質時代 (地質時代_上端深度, 地質時代_下端深度, 地質時代_地質時代名,
//      地質時代_形成年代上限?, 地質時代_形成年代下限?, 地質時代_変成年代上限?, 地質時代_変成年代下限?)>
// ============================================================================

#[derive(Debug, Default)]
pub struct GeologicalAge300 {
    /// Element `地質時代_上端深度`.
    pub start_depth: Option<String>,
    /// Element `地質時代_下端深度`.
    pub end_depth: Option<String>,
    /// Element `地質時代_地質時代名`.
    pub geological_age_name: Option<String>,
    /// Element `地質時代_形成年代上限`.
    pub formation_age_upper_limit: Option<String>,
    /// Element `地質時代_形成年代下限`.
    pub formation_age_lower_limit: Option<String>,
    /// Element `地質時代_変成年代上限`.
    pub metamorphic_age_upper_limit: Option<String>,
    /// Element `地質時代_変成年代下限`.
    pub metamorphic_age_lower_limit: Option<String>,
}

// ============================================================================
// 硬軟区分 - v3.00で「硬軟区分_硬軟区分」がオプション化
// DTD: <!ELEMENT 硬軟区分 (硬軟区分_下端深度, 硬軟区分_硬軟区分?)>
// ============================================================================

#[derive(Debug, Default)]
pub struct HardnessClassification300 {
    /// Element `硬軟区分_下端深度`.
    pub depth: Option<String>,
    /// Element `硬軟区分_硬軟区分`.
    pub classification: Option<String>,
}

// ============================================================================
// コア形状区分 - v3.00で「コア形状区分_コア形状区分」がオプション化
// DTD: <!ELEMENT コア形状区分 (コア形状区分_下端深度, コア形状区分_コア形状区分?)>
// ============================================================================

#[derive(Debug, Default)]
pub struct CoreShapeClassification300 {
    /// Element `コア形状区分_下端深度`.
    pub depth: Option<String>,
    /// Element `コア形状区分_コア形状区分`.
    pub classification: Option<String>,
}

// ============================================================================
// 割れ目区分 - v3.00で「割れ目区分_割れ目区分」がオプション化
// DTD: <!ELEMENT 割れ目区分 (割れ目区分_下端深度, 割れ目区分_割れ目区分?)>
// ============================================================================

#[derive(Debug, Default)]
pub struct FractureClassification300 {
    /// Element `割れ目区分_下端深度`.
    pub depth: Option<String>,
    /// Element `割れ目区分_割れ目区分`.
    pub classification: Option<String>,
}

// ============================================================================
// 風化区分 - v3.00で「風化区分_風化区分」がオプション化
// DTD: <!ELEMENT 風化区分 (風化区分_下端深度, 風化区分_風化区分?)>
// ============================================================================

#[derive(Debug, Default)]
pub struct WeatheringClassification300 {
    /// Element `風化区分_下端深度`.
    pub depth: Option<String>,
    /// Element `風化区分_風化区分`.
    pub classification: Option<String>,
}

// ============================================================================
// 変質区分 - v3.00で「変質区分_変質区分」がオプション化
// DTD: <!ELEMENT 変質区分 (変質区分_下端深度, 変質区分_変質区分?)>
// ============================================================================

#[derive(Debug, Default)]
pub struct AlterationClassification300 {
    /// Element `変質区分_下端深度`.
    pub depth: Option<String>,
    /// Element `変質区分_変質区分`.
    pub classification: Option<String>,
}

// ============================================================================
// コア採取率 - v3.00で「コア採取率_採取率」がオプション化
// DTD: <!ELEMENT コア採取率 (コア採取率_下端深度, コア採取率_採取率?)>
// ============================================================================

#[derive(Debug, Default)]
pub struct CoreRecoveryRate300 {
    /// Element `コア採取率_下端深度`.
    pub depth: Option<String>,
    /// Element `コア採取率_採取率`.
    pub recovery_rate: Option<String>,
}

// ============================================================================
// 最大コア長 - v3.00で「最大コア長_コア長」がオプション化
// DTD: <!ELEMENT 最大コア長 (最大コア長_下端深度, 最大コア長_コア長?)>
// ============================================================================

#[derive(Debug, Default)]
pub struct MaximumCoreLength300 {
    /// Element `最大コア長_下端深度`.
    pub depth: Option<String>,
    /// Element `最大コア長_コア長`.
    pub core_length: Option<String>,
}

// ============================================================================
// 岩級区分 - v3.00で「岩級区分_岩級区分」がオプション化
// DTD: <!ELEMENT 岩級区分 (岩級区分_下端深度, 岩級区分_岩級区分?)>
// ============================================================================

#[derive(Debug, Default)]
pub struct RockClassClassification300 {
    /// Element `岩級区分_下端深度`.
    pub depth: Option<String>,
    /// Element `岩級区分_岩級区分`.
    pub classification: Option<String>,
}

} // verus!
