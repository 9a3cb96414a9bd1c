//! Record structures of schema version 2.10.
//!
//! Every field of the source record is optional text; the engine reads
//! only the coordinate fields, through the geographic facade.

use vstd::prelude::*;

verus! {

// ============================================================================
// ルート構造体
// ============================================================================

#[derive(Debug, Default)]
/// Element `ボーリング情報`.
pub struct Boring210 {
    /// Element `@DTD_version`.
    pub dtd_version: Option<String>,
    /// Element `標題情報`.
    pub title: Title210,
    /// Element `コア情報`.
    pub core: Core210,
}

// ============================================================================
// 標題情報
// ============================================================================

#[derive(Debug, Default)]
pub struct Title210 {
    /// Element `調査基本情報`.
    pub basic_info: BasicSurvey210,
    /// Element `経度緯度情報`.
    pub longitude_latitude: LngLat210,
    /// Element `ローカル座標`.
    pub local_coordinates: Vec<LocalCoordinate210>,
    /// Element `調査位置`.
    pub survey_position: SurveyPosition210,
    /// Element `発注機関`.
    pub order_institution: OrderInstitution210,
    /// Element `調査期間`.
    pub survey_period: SurveyPeriod210,
    /// Element `調査会社`.
    pub survey_company: SurveyCompany210,
    /// Element `ボーリング基本情報`.
    pub boring_basic_info: BoringBasicInfo210,
    /// Element `試錐機`.
    pub drilling_machine: DrillingMachine210,
    /// Element `エンジン`.
    pub engine: Engine210,
    /// Element `ハンマー落下用具`.
    pub hammer_drop_tool: Option<HammerDropTool210>,
    /// Element `N値記録用具`.
    pub n_value_recorder: Option<NValueRecorder210>,
    /// Element `ポンプ`.
    pub pump: Pump210,
    /// Element `櫓種類`.
    pub tower_type: Option<TowerType210>,
}

// ============================================================================
// 調査基本情報
// ============================================================================

#[derive(Debug, Default)]
pub struct BasicSurvey210 {
    /// Element `事業工事名`.
    pub project_name: Option<String>,
    /// Element `調査名`.
    pub survey_name: Option<String>,
    /// Element `調査目的`.
    pub survey_purpose: Option<String>,
    /// Element `調査対象`.
    pub survey_target: Option<String>,
    /// Element `ボーリング名`.
    pub boring_name: Option<String>,
    /// Element `ボーリング総数`.
    pub total_boring: Option<String>,
    /// Element `ボーリング連番`.
    pub boring_serial: Option<String>,
}

// ============================================================================
// 経度緯度情報
// ============================================================================

#[derive(Debug, Default)]
pub struct LngLat210 {
    /// Element `経度_度`.
    pub longitude_degree: Option<String>,
    /// Element `経度_分`.
    pub longitude_minute: Option<String>,
    /// Element `経度_秒`.
    pub longitude_second: Option<String>,
    /// Element `緯度_度`.
    pub latitude_degree: Option<String>,
    /// Element `緯度_分`.
    pub latitude_minute: Option<String>,
    /// Element `緯度_秒`.
    pub latitude_second: Option<String>,
    /// Element `取得方法コード`.
    pub acquisition_method_code: Option<String>,
    /// Element `取得方法説明`.
    pub acquisition_method_description: Option<String>,
    /// Element `読取精度コード`.
    pub reading_precision_code: Option<String>,
    /// Element `測地系`.
    pub geodetic_system: Option<String>,
}

// ============================================================================
// ローカル座標（構造が変更）
// ============================================================================

#[derive(Debug, Default)]
pub struct LocalCoordinate210 {
    /// Element `座標定義`.
    pub definition: Option<String>,
    /// Element `座標`.
    pub coordinate: Option<String>,
}

// ============================================================================
// 調査位置（v1.10と同じ）
// ============================================================================

#[derive(Debug, Default)]
pub struct SurveyPosition210 {
    /// Element `調査位置住所`.
    pub address: Option<String>,
    /// Element `コード1次`.
    pub code1: Option<String>,
    /// Element `コード2次`.
    pub code2: Option<String>,
    /// Element `コード3次`.
    pub code3: Option<String>,
}

// ============================================================================
// 発注機関（v1.10と同じ）
// ============================================================================

#[derive(Debug, Default)]
pub struct OrderInstitution210 {
    /// Element `発注機関名称`.
    pub name: Option<String>,
    /// Element `テクリスコード`.
    pub code: Option<String>,
}

// ============================================================================
// 調査期間（構造が変更：年月日統合）
// ============================================================================

#[derive(Debug, Default)]
pub struct SurveyPeriod210 {
    /// Element `調査期間_開始年月日`.
    pub start_date: Option<String>,
    /// Element `調査期間_終了年月日`.
    pub end_date: Option<String>,
}

// ============================================================================
// 調査会社（v1.10と同じ）
// ============================================================================

#[derive(Debug, Default)]
pub struct SurveyCompany210 {
    /// Element `調査会社_名称`.
    pub name: Option<String>,
    /// Element `調査会社_TEL`.
    pub tel: Option<String>,
    /// Element `調査会社_主任技師`.
    pub chief_engineer: Option<String>,
    /// Element `調査会社_現場代理人`.
    pub field_agent: Option<String>,
    /// Element `調査会社_コア鑑定者`.
    pub core_appraiser: Option<String>,
    /// Element `調査会社_ボーリング責任者`.
    pub boring_manager: Option<String>,
}

// ============================================================================
// ボーリング基本情報
// DTD: <!ELEMENT ボーリング基本情報 (孔口標高, 総掘進長, 柱状図様式,
//      掘進角度?, 掘進方向?, 地盤勾配?)>
// ============================================================================

#[derive(Debug, Default)]
pub struct BoringBasicInfo210 {
    /// Element `孔口標高`.
    pub elevation: Option<String>,
    /// Element `総掘進長`.
    pub total_length: Option<String>,
    /// Element `柱状図様式`.
    pub columnar_section_style: Option<String>,
    /// Element `掘進角度`.
    pub drilling_angle: Option<String>,
    /// Element `掘進方向`.
    pub drilling_direction: Option<String>,
    /// Element `地盤勾配`.
    pub ground_slope: Option<String>,
}

// ============================================================================
// 試錐機
// DTD: <!ELEMENT 試錐機 (試錐機_名称, 試錐機_能力?, 試錐機_方法?)>
// ============================================================================

#[derive(Debug, Default)]
pub struct DrillingMachine210 {
    /// Element `試錐機_名称`.
    pub name: Option<String>,
    /// Element `試錐機_能力`.
    pub capacity: Option<String>,
    /// Element `試錐機_方法`.
    pub method: Option<String>,
}

// ============================================================================
// エンジン
// DTD: <!ELEMENT エンジン (エンジン_名称, エンジン_能力?, エンジン_単位?)>
// ============================================================================

#[derive(Debug, Default)]
pub struct Engine210 {
    /// Element `エンジン_名称`.
    pub name: Option<String>,
    /// Element `エンジン_能力`.
    pub capacity: Option<String>,
    /// Element `エンジン_単位`.
    pub unit: Option<String>,
}

// ============================================================================
// ハンマー落下用具（v1.10と同じ）
// ============================================================================

#[derive(Debug, Default)]
pub struct HammerDropTool210 {
    /// Element `ハンマー落下用具_コード`.
    pub code: Option<String>,
    /// Element `ハンマー落下用具_名称`.
    pub name: Option<String>,
}

// ============================================================================
// N値記録用具（v1.10と同じ）
// ============================================================================

#[derive(Debug, Default)]
pub struct NValueRecorder210 {
    /// Element `N値記録用具_コード`.
    pub code: Option<String>,
    /// Element `N値記録用具_名称`.
    pub name: Option<String>,
}

// ============================================================================
// ポンプ
// DTD: <!ELEMENT ポンプ (ポンプ_名称, ポンプ_能力?, ポンプ_単位?)>
// ============================================================================

#[derive(Debug, Default)]
pub struct Pump210 {
    /// Element `ポンプ_名称`.
    pub name: Option<String>,
    /// Element `ポンプ_能力`.
    pub capacity: Option<String>,
    /// Element `ポンプ_単位`.
    pub unit: Option<String>,
}

// ============================================================================
// 櫓種類（新規）
// DTD: <!ELEMENT 櫓種類 (櫓種類コード?, 櫓種類名称?)>
// ============================================================================

#[derive(Debug, Default)]
pub struct TowerType210 {
    /// Element `櫓種類コード`.
    pub code: Option<String>,
    /// Element `櫓種類名称`.
    pub name: Option<String>,
}

// ============================================================================
// コア情報
// DTD: <!ELEMENT コア情報 (土質岩種区分+, 色調*, 観察記事*, 観察記事枠線*, 標準貫入試験*,
//      標準貫入試験詳細データ*, ルジオン試験*, ルジオン試験詳細データ*, 相対密度稠度*,
//      硬軟区分判定表*, 硬軟区分*, コア形状区分判定表*, コア形状区分*, 割れ目区分判定表*,
//      割れ目区分*, 風化区分判定表*, 風化区分*, 変質区分判定表*, 変質区分*,
//      孔内水平載荷試験*, 透水試験*, P波試験*, S波試験*, その他原位置試験*, 試料採取*,
//      地盤材料の工学的分類*, 地質時代*, 地層岩体区分*, 孔内水位*, 掘削工程*,
//      孔径孔壁保護*, 掘進速度*, コアチューブビット*, 給圧条件*, 回転数*, 送水条件*,
//      断層破砕帯区分*, コア採取率*, 最大コア長*, RQD*, 岩級区分判定表*, 岩級区分*,
//      保孔管*, 計測機器*, 地下水検層試験*, 地下水検層試験詳細データ*,
//      地下水検層試験判定結果*, 備考*, フリー情報*)>
// ============================================================================

#[derive(Debug, Default)]
pub struct Core210 {
    /// Element `土質岩種区分`.
    pub soil_rock_classifications: Vec<SoilRockClassification210>,
    /// Element `色調`.
    pub colors: Vec<Color210>,
    /// Element `観察記事`.
    pub observational_articles: Vec<ObservationalArticle210>,
    /// Element `観察記事枠線`.
    pub observational_article_frames: Vec<ObservationalArticleFrame210>,
    /// Element `標準貫入試験`.
    pub standard_penetration_tests: Vec<StandardPenetrationTest210>,
    /// Element `標準貫入試験詳細データ`.
    pub standard_penetration_test_details: Vec<StandardPenetrationTestDetail210>,
    /// Element `ルジオン試験`.
    pub lugeon_tests: Vec<LugeonTest210>,
    /// Element `ルジオン試験詳細データ`.
    pub lugeon_test_details: Vec<LugeonTestDetail210>,
    /// Element `相対密度稠度`.
    pub relative_density_consistency: Vec<RelativeDensityConsistency210>,
    /// Element `硬軟区分判定表`.
    pub hardness_classification_table: Vec<HardnessClassificationTable210>,
    /// Element `硬軟区分`.
    pub hardness_classifications: Vec<HardnessClassification210>,
    /// Element `コア形状区分判定表`.
    pub core_shape_classification_table: Vec<CoreShapeClassificationTable210>,
    /// Element `コア形状区分`.
    pub core_shape_classifications: Vec<CoreShapeClassification210>,
    /// Element `割れ目区分判定表`.
    pub fracture_classification_table: Vec<FractureClassificationTable210>,
    /// Element `割れ目区分`.
    pub fracture_classifications: Vec<FractureClassification210>,
    /// Element `風化区分判定表`.
    pub weathering_classification_table: Vec<WeatheringClassificationTable210>,
    /// Element `風化区分`.
    pub weathering_classifications: Vec<WeatheringClassification210>,
    /// Element `変質区分判定表`.
    pub alteration_classification_table: Vec<AlterationClassificationTable210>,
    /// Element `変質区分`.
    pub alteration_classifications: Vec<AlterationClassification210>,
    /// Element `孔内水平載荷試験`.
    pub borehole_horizontal_load_tests: Vec<BoreholeHorizontalLoadTest210>,
    /// Element `透水試験`.
    pub permeability_tests: Vec<PermeabilityTest210>,
    /// Element `P波試験`.
    pub p_wave_tests: Vec<PWaveTest210>,
    /// Element `S波試験`.
    pub s_wave_tests: Vec<SWaveTest210>,
    /// Element `その他原位置試験`.
    pub other_in_situ_tests: Vec<OtherInSituTest210>,
    /// Element `試料採取`.
    pub sample_collections: Vec<SampleCollection210>,
    /// Element `地盤材料の工学的分類`.
    pub ground_material_classifications: Vec<GroundMaterialClassification210>,
    /// Element `地質時代`.
    pub geological_ages: Vec<GeologicalAge210>,
    /// Element `地層岩体区分`.
    pub stratum_rock_classifications: Vec<StratumRockClassification210>,
    /// Element `孔内水位`.
    pub borehole_water_levels: Vec<BoreholeWaterLevel210>,
    /// Element `掘削工程`.
    pub drilling_processes: Vec<DrillingProcess210>,
    /// Element `孔径孔壁保護`.
    pub borehole_diameter_protections: Vec<BoreholeDiameterProtection210>,
    /// Element `掘進速度`.
    pub drilling_speeds: Vec<DrillingSpeed210>,
    /// Element `コアチューブビット`.
    pub core_tube_bits: Vec<CoreTubeBit210>,
    /// Element `給圧条件`.
    pub pressure_conditions: Vec<PressureCondition210>,
    /// Element `回転数`.
    pub rotation_speeds: Vec<RotationSpeed210>,
    /// Element `送水条件`.
    pub water_supply_conditions: Vec<WaterSupplyCondition210>,
    /// Element `断層破砕帯区分`.
    pub fault_fracture_zone_classifications: Vec<FaultFractureZoneClassification210>,
    /// Element `コア採取率`.
    pub core_recovery_rates: Vec<CoreRecoveryRate210>,
    /// Element `最大コア長`.
    pub maximum_core_lengths: Vec<MaximumCoreLength210>,
    /// Element `RQD`.
    pub rqds: Vec<RQD210>,
    /// Element `岩級区分判定表`.
    pub rock_class_classification_table: Vec<RockClassClassificationTable210>,
    /// Element `岩級区分`.
    pub rock_class_classifications: Vec<RockClassClassification210>,
    /// Element `保孔管`.
    pub casing_pipes: Vec<CasingPipe210>,
    /// Element `計測機器`.
    pub measuring_instruments: Vec<MeasuringInstrument210>,
    /// Element `地下水検層試験`.
    pub groundwater_logging_tests: Vec<GroundwaterLoggingTest210>,
    /// Element `地下水検層試験詳細データ`.
    pub groundwater_logging_test_details: Vec<GroundwaterLoggingTestDetail210>,
    /// Element `地下水検層試験判定結果`.
    pub groundwater_logging_test_results: Vec<GroundwaterLoggingTestResult210>,
    /// Element `備考`.
    pub remarks: Vec<Remark210>,
    /// Element `フリー情報`.
    pub free_info: Vec<String>,
}

// ============================================================================
// 土質岩種区分（地質区分から名称変更）
// DTD: <!ELEMENT 土質岩種区分 (土質岩種区分_下端深度, 土質岩種区分_土質岩種区分1,
//      土質岩種区分_土質岩種記号1?, 土質岩種区分_分類コード1,
//      土質岩種区分_土質岩種区分2?, 土質岩種区分_土質岩種記号2?, 土質岩種区分_分類コード2?)>
// ============================================================================

#[derive(Debug, Default)]
pub struct SoilRockClassification210 {
    /// Element `土質岩種区分_下端深度`.
    pub depth: Option<String>,
    /// Element `土質岩種区分_土質岩種区分1`.
    pub classification1: Option<String>,
    /// Element `土質岩種区分_土質岩種記号1`.
    pub code1: Option<String>,
    /// Element `土質岩種区分_分類コード1`.
    pub classification_code1: Option<String>,
    /// Element `土質岩種区分_土質岩種区分2`.
    pub classification2: Option<String>,
    /// Element `土質岩種区分_土質岩種記号2`.
    pub code2: Option<String>,
    /// Element `土質岩種区分_分類コード2`.
    pub classification_code2: Option<String>,
}

// ============================================================================
// 色調
// DTD: <!ELEMENT 色調 (色調_下端深度, 色調_色調名)>
// ============================================================================

#[derive(Debug, Default)]
pub struct Color210 {
    /// Element `色調_下端深度`.
    pub depth: Option<String>,
    /// Element `色調_色調名`.
    pub color_name: Option<String>,
}

// ============================================================================
// 観察記事
// ============================================================================

#[derive(Debug, Default)]
pub struct ObservationalArticle210 {
    /// Element `観察記事_上端深度`.
    pub start_depth: Option<String>,
    /// Element `観察記事_下端深度`.
    pub end_depth: Option<String>,
    /// Element `観察記事_記事`.
    pub observation: Option<String>,
}

// ============================================================================
// 観察記事枠線
// ============================================================================

#[derive(Debug, Default)]
pub struct ObservationalArticleFrame210 {
    /// Element `観察記事枠線_下端深度`.
    pub end_depth: Option<String>,
}

// ============================================================================
// 標準貫入試験
// DTD: <!ELEMENT 標準貫入試験 (標準貫入試験_開始深度, 標準貫入試験_0_10打撃回数?,
//      標準貫入試験_0_10貫入量?, 標準貫入試験_10_20打撃回数?, 標準貫入試験_10_20貫入量?,
//      標準貫入試験_20_30打撃回数?, 標準貫入試験_20_30貫入量?, 標準貫入試験_合計打撃回数,
//      標準貫入試験_合計貫入量, 標準貫入試験_備考?)>
// ============================================================================

#[derive(Debug, Default)]
pub struct StandardPenetrationTest210 {
    /// Element `標準貫入試験_開始深度`.
    pub start_depth: Option<String>,
    /// Element `標準貫入試験_0_10打撃回数`.
    pub hits_0_10: Option<String>,
    /// Element `標準貫入試験_0_10貫入量`.
    pub penetration_0_10: Option<String>,
    /// Element `標準貫入試験_10_20打撃回数`.
    pub hits_10_20: Option<String>,
    /// Element `標準貫入試験_10_20貫入量`.
    pub penetration_10_20: Option<String>,
    /// Element `標準貫入試験_20_30打撃回数`.
    pub hits_20_30: Option<String>,
    /// Element `標準貫入試験_20_30貫入量`.
    pub penetration_20_30: Option<String>,
    /// Element `標準貫入試験_合計打撃回数`.
    pub total_hits: Option<String>,
    /// Element `標準貫入試験_合計貫入量`.
    pub total_penetration: Option<String>,
    /// Element `標準貫入試験_備考`.
    pub remarks: Option<String>,
}

// ============================================================================
// 標準貫入試験詳細データ
// DTD: <!ELEMENT 標準貫入試験詳細データ (標準貫入試験詳細データ_開始深度, 標準貫入試験詳細データ_打撃*)>
// ============================================================================

#[derive(Debug, Default)]
pub struct StandardPenetrationTestDetail210 {
    /// Element `標準貫入試験詳細データ_開始深度`.
    pub start_depth: Option<String>,
    /// Element `標準貫入試験詳細データ_打撃`.
    pub blows: Vec<StandardPenetrationTestBlow210>,
}

// ============================================================================
// 標準貫入試験詳細データ_打撃
// DTD: <!ELEMENT 標準貫入試験詳細データ_打撃 (標準貫入試験詳細データ_打撃回数,
//      標準貫入試験詳細データ_貫入量, 標準貫入試験詳細データ_累積貫入量, 標準貫入試験詳細データ_備考?)>
// ============================================================================

#[derive(Debug, Default)]
pub struct StandardPenetrationTestBlow210 {
    /// Element `標準貫入試験詳細データ_打撃回数`.
    pub blow_count: Option<String>,
    /// Element `標準貫入試験詳細データ_貫入量`.
    pub penetration: Option<String>,
    /// Element `標準貫入試験詳細データ_累積貫入量`.
    pub cumulative_penetration: Option<String>,
    /// Element `標準貫入試験詳細データ_備考`.
    pub remarks: Option<String>,
}

// ============================================================================
// ルジオン試験
// DTD: <!ELEMENT ルジオン試験 (ルジオン試験_試験番号, ルジオン試験_上端深度, ルジオン試験_下端深度,
//      ルジオン試験_圧力管理方法コード, ルジオン試験_圧力管理方法?, ルジオン試験_圧力最大スケール,
//      ルジオン試験_注入量最大スケール, ルジオン試験_圧力開始点, ルジオン試験_注入量開始点,
//      ルジオン試験_ルジオン値区分, ルジオン試験_ルジオン値, ルジオン試験_限界圧力)>
// ============================================================================

#[derive(Debug, Default)]
pub struct LugeonTest210 {
    /// Element `ルジオン試験_試験番号`.
    pub test_number: Option<String>,
    /// Element `ルジオン試験_上端深度`.
    pub start_depth: Option<String>,
    /// Element `ルジオン試験_下端深度`.
    pub end_depth: Option<String>,
    /// Element `ルジオン試験_圧力管理方法コード`.
    pub pressure_management_code: Option<String>,
    /// Element `ルジオン試験_圧力管理方法`.
    pub pressure_management: Option<String>,
    /// Element `ルジオン試験_圧力最大スケール`.
    pub pressure_max_scale: Option<String>,
    /// Element `ルジオン試験_注入量最大スケール`.
    pub injection_max_scale: Option<String>,
    /// Element `ルジオン試験_圧力開始点`.
    pub pressure_start_point: Option<String>,
    /// Element `ルジオン試験_注入量開始点`.
    pub injection_start_point: Option<String>,
    /// Element `ルジオン試験_ルジオン値区分`.
    pub lugeon_value_classification: Option<String>,
    /// Element `ルジオン試験_ルジオン値`.
    pub lugeon_value: Option<String>,
    /// Element `ルジオン試験_限界圧力`.
    pub limit_pressure: Option<String>,
}

// ============================================================================
// ルジオン試験詳細データ
// DTD: <!ELEMENT ルジオン試験詳細データ (ルジオン試験詳細データ_試験番号,
//      ルジオン試験詳細データ_有効圧力, ルジオン試験詳細データ_注入量)>
// ============================================================================

#[derive(Debug, Default)]
pub struct LugeonTestDetail210 {
    /// Element `ルジオン試験詳細データ_試験番号`.
    pub test_number: Option<String>,
    /// Element `ルジオン試験詳細データ_有効圧力`.
    pub effective_pressure: Option<String>,
    /// Element `ルジオン試験詳細データ_注入量`.
    pub injection_amount: Option<String>,
}

// ============================================================================
// 相対密度稠度
// DTD: <!ELEMENT 相対密度稠度 (相対密度稠度_下端深度, 相対密度_コード?,
//      相対密度_状態?, 相対稠度_コード?, 相対稠度_状態?)>
// ============================================================================

#[derive(Debug, Default)]
pub struct RelativeDensityConsistency210 {
    /// Element `相対密度稠度_下端深度`.
    pub depth: Option<String>,
    /// Element `相対密度_コード`.
    pub relative_density_code: Option<String>,
    /// Element `相対密度_状態`.
    pub relative_density_state: Option<String>,
    /// Element `相対稠度_コード`.
    pub relative_consistency_code: Option<String>,
    /// Element `相対稠度_状態`.
    pub relative_consistency_state: Option<String>,
}

// ============================================================================
// 硬軟区分判定表
// DTD: <!ELEMENT 硬軟区分判定表 (硬軟区分判定表_コード, 硬軟区分判定表_記号,
//      硬軟区分判定表_区分?, 硬軟区分判定表_説明?)>
// ============================================================================

#[derive(Debug, Default)]
pub struct HardnessClassificationTable210 {
    /// Element `硬軟区分判定表_コード`.
    pub code: Option<String>,
    /// Element `硬軟区分判定表_記号`.
    pub symbol: Option<String>,
    /// Element `硬軟区分判定表_区分`.
    pub classification: Option<String>,
    /// Element `硬軟区分判定表_説明`.
    pub description: Option<String>,
}

// ============================================================================
// 硬軟区分
// DTD: <!ELEMENT 硬軟区分 (硬軟区分_下端深度, 硬軟区分_硬軟区分)>
// ============================================================================

#[derive(Debug, Default)]
pub struct HardnessClassification210 {
    /// Element `硬軟区分_下端深度`.
    pub depth: Option<String>,
    /// Element `硬軟区分_硬軟区分`.
    pub classification: Option<String>,
}

// ============================================================================
// コア形状区分判定表
// DTD: <!ELEMENT コア形状区分判定表 (コア形状区分判定表_コード, コア形状区分判定表_記号,
//      コア形状区分判定表_区分?, コア形状区分判定表_説明?)>
// ============================================================================

#[derive(Debug, Default)]
pub struct CoreShapeClassificationTable210 {
    /// Element `コア形状区分判定表_コード`.
    pub code: Option<String>,
    /// Element `コア形状区分判定表_記号`.
    pub symbol: Option<String>,
    /// Element `コア形状区分判定表_区分`.
    pub classification: Option<String>,
    /// Element `コア形状区分判定表_説明`.
    pub description: Option<String>,
}

// ============================================================================
// コア形状区分
// DTD: <!ELEMENT コア形状区分 (コア形状区分_下端深度, コア形状区分_コア形状区分)>
// ============================================================================

#[derive(Debug, Default)]
pub struct CoreShapeClassification210 {
    /// Element `コア形状区分_下端深度`.
    pub depth: Option<String>,
    /// Element `コア形状区分_コア形状区分`.
    pub classification: Option<String>,
}

// ============================================================================
// 割れ目区分判定表
// DTD: <!ELEMENT 割れ目区分判定表 (割れ目区分判定表_コード, 割れ目区分判定表_記号,
//      割れ目区分判定表_区分?, 割れ目区分判定表_説明?)>
// ============================================================================

#[derive(Debug, Default)]
pub struct FractureClassificationTable210 {
    /// Element `割れ目区分判定表_コード`.
    pub code: Option<String>,
    /// Element `割れ目区分判定表_記号`.
    pub symbol: Option<String>,
    /// Element `割れ目区分判定表_区分`.
    pub classification: Option<String>,
    /// Element `割れ目区分判定表_説明`.
    pub description: Option<String>,
}

// ============================================================================
// 割れ目区分
// DTD: <!ELEMENT 割れ目区分 (割れ目区分_下端深度, 割れ目区分_割れ目区分)>
// ============================================================================

#[derive(Debug, Default)]
pub struct FractureClassification210 {
    /// Element `割れ目区分_下端深度`.
    pub depth: Option<String>,
    /// Element `割れ目区分_割れ目区分`.
    pub classification: Option<String>,
}

// ============================================================================
// 風化区分判定表
// DTD: <!ELEMENT 風化区分判定表 (風化区分判定表_コード, 風化区分判定表_記号,
//      風化区分判定表_区分?, 風化区分判定表_説明?)>
// ============================================================================

#[derive(Debug, Default)]
pub struct WeatheringClassificationTable210 {
    /// Element `風化区分判定表_コード`.
    pub code: Option<String>,
    /// Element `風化区分判定表_記号`.
    pub symbol: Option<String>,
    /// Element `風化区分判定表_区分`.
    pub classification: Option<String>,
    /// Element `風化区分判定表_説明`.
    pub description: Option<String>,
}

// ============================================================================
// 風化区分
// DTD: <!ELEMENT 風化区分 (風化区分_下端深度, 風化区分_風化区分)>
// ============================================================================

#[derive(Debug, Default)]
pub struct WeatheringClassification210 {
    /// Element `風化区分_下端深度`.
    pub depth: Option<String>,
    /// Element `風化区分_風化区分`.
    pub classification: Option<String>,
}

// ============================================================================
// 変質区分判定表
// DTD: <!ELEMENT 変質区分判定表 (変質区分判定表_コード, 変質区分判定表_記号,
//      変質区分判定表_区分?, 変質区分判定表_説明?)>
// ============================================================================

#[derive(Debug, Default)]
pub struct AlterationClassificationTable210 {
    /// Element `変質区分判定表_コード`.
    pub code: Option<String>,
    /// Element `変質区分判定表_記号`.
    pub symbol: Option<String>,
    /// Element `変質区分判定表_区分`.
    pub classification: Option<String>,
    /// Element `変質区分判定表_説明`.
    pub description: Option<String>,
}

// ============================================================================
// 変質区分
// DTD: <!ELEMENT 変質区分 (変質区分_下端深度, 変質区分_変質区分)>
// ============================================================================

#[derive(Debug, Default)]
pub struct AlterationClassification210 {
    /// Element `変質区分_下端深度`.
    pub depth: Option<String>,
    /// Element `変質区分_変質区分`.
    pub classification: Option<String>,
}

// ============================================================================
// 孔内水平載荷試験
// DTD: <!ELEMENT 孔内水平載荷試験 (孔内水平載荷試験_試験深度, 孔内水平載荷試験_試験方法コード,
//      孔内水平載荷試験_試験方法?, 孔内水平載荷試験_載荷パターン?, 孔内水平載荷試験_初期圧,
//      孔内水平載荷試験_降伏圧, 孔内水平載荷試験_変形係数, 孔内水平載荷試験_割線弾性係数?,
//      孔内水平載荷試験_接線弾性係数?)>
// ============================================================================

#[derive(Debug, Default)]
pub struct BoreholeHorizontalLoadTest210 {
    /// Element `孔内水平載荷試験_試験深度`.
    pub test_depth: Option<String>,
    /// Element `孔内水平載荷試験_試験方法コード`.
    pub test_method_code: Option<String>,
    /// Element `孔内水平載荷試験_試験方法`.
    pub test_method: Option<String>,
    /// Element `孔内水平載荷試験_載荷パターン`.
    pub load_pattern: Option<String>,
    /// Element `孔内水平載荷試験_初期圧`.
    pub initial_pressure: Option<String>,
    /// Element `孔内水平載荷試験_降伏圧`.
    pub yield_pressure: Option<String>,
    /// Element `孔内水平載荷試験_変形係数`.
    pub deformation_modulus: Option<String>,
    /// Element `孔内水平載荷試験_割線弾性係数`.
    pub secant_modulus: Option<String>,
    /// Element `孔内水平載荷試験_接線弾性係数`.
    pub tangent_modulus: Option<String>,
}

// ============================================================================
// 透水試験
// DTD: <!ELEMENT 透水試験 (透水試験_上端深度, 透水試験_下端深度, 透水試験_試験コード,
//      透水試験_試験方法?, 透水試験_透水係数)>
// ============================================================================

#[derive(Debug, Default)]
pub struct PermeabilityTest210 {
    /// Element `透水試験_上端深度`.
    pub start_depth: Option<String>,
    /// Element `透水試験_下端深度`.
    pub end_depth: Option<String>,
    /// Element `透水試験_試験コード`.
    pub test_code: Option<String>,
    /// Element `透水試験_試験方法`.
    pub test_method: Option<String>,
    /// Element `透水試験_透水係数`.
    pub permeability_coefficient: Option<String>,
}

// ============================================================================
// P波試験
// DTD: <!ELEMENT P波試験 (P波試験_上端深度, P波試験_下端深度, P波試験_起振方式?, P波試験_速度)>
// ============================================================================

#[derive(Debug, Default)]
pub struct PWaveTest210 {
    /// Element `P波試験_上端深度`.
    pub start_depth: Option<String>,
    /// Element `P波試験_下端深度`.
    pub end_depth: Option<String>,
    /// Element `P波試験_起振方式`.
    pub excitation_method: Option<String>,
    /// Element `P波試験_速度`.
    pub velocity: Option<String>,
}

// ============================================================================
// S波試験
// DTD: <!ELEMENT S波試験 (S波試験_上端深度, S波試験_下端深度, S波試験_起振方式?, S波試験_速度)>
// ============================================================================

#[derive(Debug, Default)]
pub struct SWaveTest210 {
    /// Element `S波試験_上端深度`.
    pub start_depth: Option<String>,
    /// Element `S波試験_下端深度`.
    pub end_depth: Option<String>,
    /// Element `S波試験_起振方式`.
    pub excitation_method: Option<String>,
    /// Element `S波試験_速度`.
    pub velocity: Option<String>,
}

// ============================================================================
// その他原位置試験
// DTD: <!ELEMENT その他原位置試験 (その他原位置試験_試験名, その他原位置試験_上端深度,
//      その他原位置試験_下端深度, その他原位置試験_試験結果)>
// ============================================================================

#[derive(Debug, Default)]
pub struct OtherInSituTest210 {
    /// Element `その他原位置試験_試験名`.
    pub test_name: Option<String>,
    /// Element `その他原位置試験_上端深度`.
    pub start_depth: Option<String>,
    /// Element `その他原位置試験_下端深度`.
    pub end_depth: Option<String>,
    /// Element `その他原位置試験_試験結果`.
    pub test_result: Option<String>,
}

// ============================================================================
// 試料採取
// DTD: <!ELEMENT 試料採取 (試料採取_上端深度, 試料採取_下端深度, 試料採取_試料番号,
//      試料採取_採取方法コード, 試料採取_採取方法?, 試料採取_試験名*)>
// ============================================================================

#[derive(Debug, Default)]
pub struct SampleCollection210 {
    /// Element `試料採取_上端深度`.
    pub start_depth: Option<String>,
    /// Element `試料採取_下端深度`.
    pub end_depth: Option<String>,
    /// Element `試料採取_試料番号`.
    pub sample_number: Option<String>,
    /// Element `試料採取_採取方法コード`.
    pub collection_method_code: Option<String>,
    /// Element `試料採取_採取方法`.
    pub collection_method: Option<String>,
    /// Element `試料採取_試験名`.
    pub test_names: Vec<String>,
}

// ============================================================================
// 地盤材料の工学的分類
// DTD: <!ELEMENT 地盤材料の工学的分類 (地盤分類_下端深度, 地盤分類_工学的分類記号?)>
// ============================================================================

#[derive(Debug, Default)]
pub struct GroundMaterialClassification210 {
    /// Element `地盤分類_下端深度`.
    pub depth: Option<String>,
    /// Element `地盤分類_工学的分類記号`.
    pub engineering_classification_symbol: Option<String>,
}

// ============================================================================
// 地質時代
// DTD: <!ELEMENT 地質時代 (地質時代_上端深度, 地質時代_下端深度, 地質時代_コード, 地質時代_時代名?)>
// ============================================================================

#[derive(Debug, Default)]
pub struct GeologicalAge210 {
    /// Element `地質時代_上端深度`.
    pub start_depth: Option<String>,
    /// Element `地質時代_下端深度`.
    pub end_depth: Option<String>,
    /// Element `地質時代_コード`.
    pub code: Option<String>,
    /// Element `地質時代_時代名`.
    pub age_name: Option<String>,
}

// ============================================================================
// 地層岩体区分
// DTD: <!ELEMENT 地層岩体区分 (地層岩体区分_上端深度, 地層岩体区分_下端深度, 地層岩体区分_地層岩体名?)>
// ============================================================================

#[derive(Debug, Default)]
pub struct StratumRockClassification210 {
    /// Element `地層岩体区分_上端深度`.
    pub start_depth: Option<String>,
    /// Element `地層岩体区分_下端深度`.
    pub end_depth: Option<String>,
    /// Element `地層岩体区分_地層岩体名`.
    pub stratum_rock_name: Option<String>,
}

// ============================================================================
// 孔内水位
// DTD: <!ELEMENT 孔内水位 (孔内水位_測定年月日, 孔内水位_掘削状況コード, 孔内水位_掘削状況?,
//      孔内水位_孔内水位, 孔内水位_水位種別コード?, 孔内水位_水位種別備考?)>
// ============================================================================

#[derive(Debug, Default)]
pub struct BoreholeWaterLevel210 {
    /// Element `孔内水位_測定年月日`.
    pub measurement_date: Option<String>,
    /// Element `孔内水位_掘削状況コード`.
    pub drilling_status_code: Option<String>,
    /// Element `孔内水位_掘削状況`.
    pub drilling_status: Option<String>,
    /// Element `孔内水位_孔内水位`.
    pub water_level: Option<String>,
    /// Element `孔内水位_水位種別コード`.
    pub water_level_type_code: Option<String>,
    /// Element `孔内水位_水位種別備考`.
    pub water_level_type_remarks: Option<String>,
}

// ============================================================================
// 掘削工程
// DTD: <!ELEMENT 掘削工程 (掘削工程_測定年月日, 掘削工程_掘進深度, 掘削工程_ケーシング下端深度?)>
// ============================================================================

#[derive(Debug, Default)]
pub struct DrillingProcess210 {
    /// Element `掘削工程_測定年月日`.
    pub measurement_date: Option<String>,
    /// Element `掘削工程_掘進深度`.
    pub drilling_depth: Option<String>,
    /// Element `掘削工程_ケーシング下端深度`.
    pub casing_bottom_depth: Option<String>,
}

// ============================================================================
// 孔径孔壁保護
// DTD: <!ELEMENT 孔径孔壁保護 (孔径孔壁保護_下端深度, 孔径孔壁保護_孔径,
//      孔径孔壁保護_孔壁保護コード?, 孔径孔壁保護_孔壁保護方法?, 孔径孔壁保護_孔壁保護実施理由?)>
// ============================================================================

#[derive(Debug, Default)]
pub struct BoreholeDiameterProtection210 {
    /// Element `孔径孔壁保護_下端深度`.
    pub depth: Option<String>,
    /// Element `孔径孔壁保護_孔径`.
    pub diameter: Option<String>,
    /// Element `孔径孔壁保護_孔壁保護コード`.
    pub wall_protection_code: Option<String>,
    /// Element `孔径孔壁保護_孔壁保護方法`.
    pub wall_protection_method: Option<String>,
    /// Element `孔径孔壁保護_孔壁保護実施理由`.
    pub wall_protection_reason: Option<String>,
}

// ============================================================================
// 掘進速度
// DTD: <!ELEMENT 掘進速度 (掘進速度_下端深度, 掘進速度_掘進速度)>
// ============================================================================

#[derive(Debug, Default)]
pub struct DrillingSpeed210 {
    /// Element `掘進速度_下端深度`.
    pub depth: Option<String>,
    /// Element `掘進速度_掘進速度`.
    pub speed: Option<String>,
}

// ============================================================================
// コアチューブビット
// DTD: <!ELEMENT コアチューブビット (コアチューブビット_下端深度,
//      コアチューブビット_コアチューブ名?, コアチューブビット_ビット名?)>
// ============================================================================

#[derive(Debug, Default)]
pub struct CoreTubeBit210 {
    /// Element `コアチューブビット_下端深度`.
    pub depth: Option<String>,
    /// Element `コアチューブビット_コアチューブ名`.
    pub core_tube_name: Option<String>,
    /// Element `コアチューブビット_ビット名`.
    pub bit_name: Option<String>,
}

// ============================================================================
// 給圧条件
// DTD: <!ELEMENT 給圧条件 (給圧条件_下端深度, 給圧条件_給圧)>
// ============================================================================

#[derive(Debug, Default)]
pub struct PressureCondition210 {
    /// Element `給圧条件_下端深度`.
    pub depth: Option<String>,
    /// Element `給圧条件_給圧`.
    pub pressure: Option<String>,
}

// ============================================================================
// 回転数
// DTD: <!ELEMENT 回転数 (回転数_下端深度, 回転数_回転数)>
// ============================================================================

#[derive(Debug, Default)]
pub struct RotationSpeed210 {
    /// Element `回転数_下端深度`.
    pub depth: Option<String>,
    /// Element `回転数_回転数`.
    pub rotation_speed: Option<String>,
}

// ============================================================================
// 送水条件
// DTD: <!ELEMENT 送水条件 (送水条件_下端深度, 送水条件_送水圧, 送水条件_送水量,
//      送水条件_排水量, 送水条件_送水種類コード, 送水条件_送水種類?)>
// ============================================================================

#[derive(Debug, Default)]
pub struct WaterSupplyCondition210 {
    /// Element `送水条件_下端深度`.
    pub depth: Option<String>,
    /// Element `送水条件_送水圧`.
    pub water_pressure: Option<String>,
    /// Element `送水条件_送水量`.
    pub water_supply_volume: Option<String>,
    /// Element `送水条件_排水量`.
    pub drainage_volume: Option<String>,
    /// Element `送水条件_送水種類コード`.
    pub water_type_code: Option<String>,
    /// Element `送水条件_送水種類`.
    pub water_type: Option<String>,
}

// ============================================================================
// 断層破砕帯区分
// DTD: <!ELEMENT 断層破砕帯区分 (断層破砕帯区分_上端深度, 断層破砕帯区分_下端深度,
//      断層破砕帯区分_性状コード, 断層破砕帯区分_性状?, 断層破砕帯区分_備考?)>
// ============================================================================

#[derive(Debug, Default)]
pub struct FaultFractureZoneClassification210 {
    /// Element `断層破砕帯区分_上端深度`.
    pub start_depth: Option<String>,
    /// Element `断層破砕帯区分_下端深度`.
    pub end_depth: Option<String>,
    /// Element `断層破砕帯区分_性状コード`.
    pub property_code: Option<String>,
    /// Element `断層破砕帯区分_性状`.
    pub property: Option<String>,
    /// Element `断層破砕帯区分_備考`.
    pub remarks: Option<String>,
}

// ============================================================================
// コア採取率
// DTD: <!ELEMENT コア採取率 (コア採取率_下端深度, コア採取率_採取率)>
// ============================================================================

#[derive(Debug, Default)]
pub struct CoreRecoveryRate210 {
    /// Element `コア採取率_下端深度`.
    pub depth: Option<String>,
    /// Element `コア採取率_採取率`.
    pub recovery_rate: Option<String>,
}

// ============================================================================
// 最大コア長
// DTD: <!ELEMENT 最大コア長 (最大コア長_下端深度, 最大コア長_コア長)>
// ============================================================================

#[derive(Debug, Default)]
pub struct MaximumCoreLength210 {
    /// Element `最大コア長_下端深度`.
    pub depth: Option<String>,
    /// Element `最大コア長_コア長`.
    pub core_length: Option<String>,
}

// ============================================================================
// RQD
// DTD: <!ELEMENT RQD (RQD_下端深度, RQD_RQD?)>
// ============================================================================

#[derive(Debug, Default)]
pub struct RQD210 {
    /// Element `RQD_下端深度`.
    pub depth: Option<String>,
    /// Element `RQD_RQD`.
    pub rqd: Option<String>,
}

// ============================================================================
// 岩級区分判定表
// DTD: <!ELEMENT 岩級区分判定表 (岩級区分判定表_項目名*, 岩級区分判定表_判定*)>
// ============================================================================

#[derive(Debug, Default)]
pub struct RockClassClassificationTable210 {
    /// Element `岩級区分判定表_項目名`.
    pub item_names: Vec<String>,
    /// Element `岩級区分判定表_判定`.
    pub judgments: Vec<RockClassJudgment210>,
}

// ============================================================================
// 岩級区分判定表_判定
// DTD: <!ELEMENT 岩級区分判定表_判定 (岩級区分判定表_コード, 岩級区分判定表_記号, 岩級区分判定表_説明*)>
// ============================================================================

#[derive(Debug, Default)]
pub struct RockClassJudgment210 {
    /// Element `岩級区分判定表_コード`.
    pub code: Option<String>,
    /// Element `岩級区分判定表_記号`.
    pub symbol: Option<String>,
    /// Element `岩級区分判定表_説明`.
    pub descriptions: Vec<String>,
}

// ============================================================================
// 岩級区分
// DTD: <!ELEMENT 岩級区分 (岩級区分_下端深度, 岩級区分_岩級区分)>
// ============================================================================

#[derive(Debug, Default)]
pub struct RockClassClassification210 {
    /// Element `岩級区分_下端深度`.
    pub depth: Option<String>,
    /// Element `岩級区分_岩級区分`.
    pub classification: Option<String>,
}

// ============================================================================
// 保孔管
// DTD: <!ELEMENT 保孔管 (保孔管_下端深度, 保孔管_種別コード, 保孔管_備考?)>
// ============================================================================

#[derive(Debug, Default)]
pub struct CasingPipe210 {
    /// Element `保孔管_下端深度`.
    pub depth: Option<String>,
    /// Element `保孔管_種別コード`.
    pub type_code: Option<String>,
    /// Element `保孔管_備考`.
    pub remarks: Option<String>,
}

// ============================================================================
// 計測機器
// DTD: <!ELEMENT 計測機器 (計測機器_上端深度, 計測機器_下端深度, 計測機器_機器種別, 計測機器_備考?)>
// ============================================================================

#[derive(Debug, Default)]
pub struct MeasuringInstrument210 {
    /// Element `計測機器_上端深度`.
    pub start_depth: Option<String>,
    /// Element `計測機器_下端深度`.
    pub end_depth: Option<String>,
    /// Element `計測機器_機器種別`.
    pub instrument_type: Option<String>,
    /// Element `計測機器_備考`.
    pub remarks: Option<String>,
}

// ============================================================================
// 地下水検層試験
// DTD: <!ELEMENT 地下水検層試験 (地下水検層試験_試験番号, 地下水検層試験_上端深度,
//      地下水検層試験_下端深度, 地下水検層試験_掘削深度, 地下水検層試験_孔内水位,
//      地下水検層試験_試験方法コード, 地下水検層試験_電解質溶液濃度, 地下水検層試験_測定時間*)>
// ============================================================================

#[derive(Debug, Default)]
pub struct GroundwaterLoggingTest210 {
    /// Element `地下水検層試験_試験番号`.
    pub test_number: Option<String>,
    /// Element `地下水検層試験_上端深度`.
    pub start_depth: Option<String>,
    /// Element `地下水検層試験_下端深度`.
    pub end_depth: Option<String>,
    /// Element `地下水検層試験_掘削深度`.
    pub drilling_depth: Option<String>,
    /// Element `地下水検層試験_孔内水位`.
    pub water_level: Option<String>,
    /// Element `地下水検層試験_試験方法コード`.
    pub test_method_code: Option<String>,
    /// Element `地下水検層試験_電解質溶液濃度`.
    pub electrolyte_concentration: Option<String>,
    /// Element `地下水検層試験_測定時間`.
    pub measurement_times: Vec<String>,
}

// ============================================================================
// 地下水検層試験詳細データ
// DTD: <!ELEMENT 地下水検層試験詳細データ (地下水検層試験詳細データ_試験番号,
//      地下水検層試験詳細データ_測定深度, 地下水検層試験詳細データ_比抵抗値*)>
// ============================================================================

#[derive(Debug, Default)]
pub struct GroundwaterLoggingTestDetail210 {
    /// Element `地下水検層試験詳細データ_試験番号`.
    pub test_number: Option<String>,
    /// Element `地下水検層試験詳細データ_測定深度`.
    pub measurement_depth: Option<String>,
    /// Element `地下水検層試験詳細データ_比抵抗値`.
    pub resistivity_values: Vec<String>,
}

// ============================================================================
// 地下水検層試験判定結果
// DTD: <!ELEMENT 地下水検層試験判定結果 (地下水検層試験判定結果_上端深度,
//      地下水検層試験判定結果_下端深度, 地下水検層試験判定結果_地下水検層結果)>
// ============================================================================

#[derive(Debug, Default)]
pub struct GroundwaterLoggingTestResult210 {
    /// Element `地下水検層試験判定結果_上端深度`.
    pub start_depth: Option<String>,
    /// Element `地下水検層試験判定結果_下端深度`.
    pub end_depth: Option<String>,
    /// Element `地下水検層試験判定結果_地下水検層結果`.
    pub result: Option<String>,
}

// ============================================================================
// 備考
// DTD: <!ELEMENT 備考 (備考_タイトル, 備考_上端深度, 備考_下端深度, 備考_備考内容)>
// ============================================================================

#[derive(Debug, Default)]
pub struct Remark210 {
    /// Element `備考_タイトル`.
    pub title: Option<String>,
    /// Element `備考_上端深度`.
    pub start_depth: Option<String>,
    /// Element `備考_下端深度`.
    pub end_depth: Option<String>,
    /// Element `備考_備考内容`.
    pub content: Option<String>,
}

} // verus!
