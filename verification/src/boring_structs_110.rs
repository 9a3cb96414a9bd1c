//! Record structures of schema version 1.10.
//!
//! Every field of the source record is optional text; the engine reads
//! only the coordinate fields, through the geographic facade.

use vstd::prelude::*;

use crate::types::FreeInfo;

verus! {

#[derive(Debug, Default)]
/// Element `ボーリング情報`.
pub struct Boring110 {
    /// Element `@DTD_version`.
    pub dtd_version: Option<String>,
    /// Element `標題情報`.
    pub title: Title,
    /// Element `コア情報`.
    pub core: Core,
}

#[derive(Debug, Default)]
pub struct Title {
    /// Element `調査基本情報`.
    pub basic_info: BasicSurvey,
    /// Element `経度緯度情報`.
    pub longitude_latitude: LngLat,
    /// Element `ローカル座標`.
    pub local_coordinate_definition: Option<LocalCoordinateDefinition>,
    /// Element `調査位置`.
    pub survey_position: SurveyPosition,
    /// Element `発注機関`.
    pub order_institution: OrderInstitution,
    /// Element `調査期間`.
    pub survey_period: SurveyPeriod,
    /// Element `調査会社`.
    pub survey_company: SurveyCompany,
    /// Element `ボーリング基本情報`.
    pub boring_basic_info: BoringBasicInfo,
    /// Element `試錐機`.
    pub drilling_machine: DrillingMachine,
    /// Element `ハンマ落下用具`.
    pub hammer_drop_tool: HammerDropTool,
    /// Element `N値記録用具`.
    pub n_value_recorder: NValueRecorder,
    /// Element `エンジン`.
    pub engine: Engine,
    /// Element `ポンプ`.
    pub pump: Pump,
    /// Element `港湾局指定コード`.
    pub port_authority_code: Option<PortAuthorityCode>,
}

#[derive(Debug, Default)]
pub struct BasicSurvey {
    /// Element `事業工事名`.
    pub project_name: Option<String>,
    /// Element `調査名`.
    pub survey_name: Option<String>,
    /// Element `調査目的`.
    pub survey_purpose: Option<String>,
    /// Element `調査対象`.
    pub survey_target: Option<String>,
    /// Element `ボーリング名`.
    pub boring_name: Option<String>,
    /// Element `ボーリング連番`.
    pub boring_serial: Option<String>,
    /// Element `ボーリング総数`.
    pub total_boring: Option<String>,
}

#[derive(Debug, Default)]
pub struct LngLat {
    /// Element `経度_度`.
    pub longitude_degree: Option<String>,
    /// Element `経度_分`.
    pub longitude_minute: Option<String>,
    /// Element `経度_秒`.
    pub longitude_second: Option<String>,
    /// Element `緯度_度`.
    pub latitude_degree: Option<String>,
    /// Element `緯度_分`.
    pub latitude_minute: Option<String>,
    /// Element `緯度_秒`.
    pub latitude_second: Option<String>,
    /// Element `取得方法コード`.
    pub acquisition_method_code: Option<String>,
    /// Element `読取精度コード`.
    pub reading_precision_code: Option<String>,
    /// Element `測地系`.
    pub geodetic_system: Option<String>,
}

#[derive(Debug, PartialEq, Default)]
pub struct LocalCoordinateDefinition {
    /// Element `X座標定義`.
    pub x_definition: Option<String>,
    /// Element `X座標`.
    pub x: Option<String>,
    /// Element `Y座標定義`.
    pub y_definition: Option<String>,
    /// Element `Y座標`.
    pub y: Option<String>,
    /// Element `Z座標定義`.
    pub z_definition: Option<String>,
    /// Element `Z座標`.
    pub z: Option<String>,
}

#[derive(Debug, Default)]
pub struct SurveyPosition {
    /// Element `調査位置住所`.
    pub address: Option<String>,
    /// Element `コード1次`.
    pub code1: Option<String>,
    /// Element `コード2次`.
    pub code2: Option<String>,
    /// Element `コード3次`.
    pub code3: Option<String>,
}

#[derive(Debug, Default)]
pub struct OrderInstitution {
    /// Element `発注機関名称`.
    pub name: Option<String>,
    /// Element `テクリスコード`.
    pub code: Option<String>,
}

#[derive(Debug, Default)]
pub struct SurveyPeriod {
    /// Element `調査期間_開始年`.
    pub start_year: Option<String>,
    /// Element `調査期間_開始月`.
    pub start_month: Option<String>,
    /// Element `調査期間_開始日`.
    pub start_day: Option<String>,
    /// Element `調査期間_終了年`.
    pub end_year: Option<String>,
    /// Element `調査期間_終了月`.
    pub end_month: Option<String>,
    /// Element `調査期間_終了日`.
    pub end_day: Option<String>,
}

#[derive(Debug, Default)]
pub struct SurveyCompany {
    /// Element `調査会社_名称`.
    pub name: Option<String>,
    /// Element `調査会社_TEL`.
    pub tel: Option<String>,
    /// Element `調査会社_主任技師`.
    pub chief_engineer: Option<String>,
    /// Element `調査会社_現場代理人`.
    pub field_agent: Option<String>,
    /// Element `調査会社_コア鑑定者`.
    pub core_appraiser: Option<String>,
    /// Element `調査会社_ボーリング責任者`.
    pub boring_manager: Option<String>,
}

#[derive(Debug, Default)]
pub struct BoringBasicInfo {
    /// Element `孔口標高`.
    pub elevation: Option<String>,
    /// Element `総掘進長`.
    pub total_length: Option<String>,
    /// Element `地質柱状図様式`.
    pub columnar_section_style: Option<String>,
    /// Element `掘進角度`.
    pub drilling_angle: Option<String>,
    /// Element `掘進方位`.
    pub drilling_direction: Option<String>,
    /// Element `地盤勾配`.
    pub ground_slope: Option<String>,
}

#[derive(Debug, Default)]
pub struct DrillingMachine {
    /// Element `試錐機_名称`.
    pub name: Option<String>,
    /// Element `試錐機_能力`.
    pub capacity: Option<String>,
    /// Element `試錐機_方法`.
    pub method: Option<String>,
}

#[derive(Debug, Default)]
pub struct HammerDropTool {
    /// Element `ハンマ落下用具_コード`.
    pub code: Option<String>,
    /// Element `ハンマ落下用具_名称`.
    pub name: Option<String>,
}

#[derive(Debug, Default)]
pub struct NValueRecorder {
    /// Element `N値記録用具_コード`.
    pub code: Option<String>,
    /// Element `N値記録用具_名称`.
    pub name: Option<String>,
}

#[derive(Debug, Default)]
pub struct Engine {
    /// Element `エンジン_名称`.
    pub name: Option<String>,
    /// Element `エンジン_能力`.
    pub capacity: Option<String>,
    /// Element `エンジン_単位`.
    pub unit: Option<String>,
}

#[derive(Debug, Default)]
pub struct Pump {
    /// Element `ポンプ_名称`.
    pub name: Option<String>,
    /// Element `ポンプ_能力`.
    pub capacity: Option<String>,
    /// Element `ポンプ_単位`.
    pub unit: Option<String>,
}

#[derive(Debug, Default)]
pub struct PortAuthorityCode {
    /// Element `櫓種類コード`.
    pub tower_type_code: Option<String>,
    /// Element `建設局`.
    pub construction_bureau: Option<String>,
    /// Element `都道府県`.
    pub prefecture: Option<String>,
    /// Element `港名`.
    pub port_name: Option<String>,
    /// Element `調査者`.
    pub investigator: Option<String>,
}

#[derive(Debug, Default)]
pub struct Core {
    /// Element `地質区分`.
    pub geological_classifications: Vec<GeologicalClassification>,
    /// Element `色調`.
    pub colors: Vec<Color>,
    /// Element `観察記事`.
    pub observational_articles: Vec<ObservationalArticle>,
    /// Element `観察記事枠線`.
    pub observational_article_frames: Vec<ObservationalArticleFrame>,
    /// Element `標準貫入試験`.
    pub standard_penetration_test: Vec<StandardPenetrationTest>,
    /// Element `相対密度稠度`.
    pub relative_density: Vec<RelativeDensity>,
    /// Element `孔内水平載荷試験`.
    pub borehole_horizontal_load_test: Vec<BoreholeHorizontalLoadTest>,
    /// Element `透水試験`.
    pub borehole_drilled_well_test: Vec<BoreholeDrilledWellTest>,
    /// Element `P波試験`.
    pub p_wave_test: Vec<PWaveTest>,
    /// Element `S波試験`.
    pub s_wave_test: Vec<SWaveTest>,
    /// Element `その他原位置試験`.
    pub other_original_position_tests: Vec<OtherOriginalPositionTests>,
    /// Element `採取試料`.
    pub core_samples: Vec<CoreSample>,
    /// Element `土質試験結果`.
    pub soil_test_result: Vec<SoilTestResult>,
    /// Element `地盤分類`.
    pub ground_classifications: Vec<GeotechnicalClassification>,
    /// Element `地質時代`.
    pub geological_eras: Vec<GeologicalEra>,
    /// Element `地層区分`.
    pub geostratum_classifications: Vec<GeostratumClassification>,
    /// Element `孔内水位`.
    pub borehole_water_levels: Vec<BoreholeWaterLevel>,
    /// Element `掘削工程`.
    pub drilling_process: Vec<DrillingProcess>,
    /// Element `孔径孔壁保護`.
    pub borehole_wall_protection: Vec<BoreholeWallProtection>,
    /// Element `断層区分`.
    pub fault_classification: Vec<FaultClassification>,
    /// Element `フリー情報`.
    pub free_info: Vec<FreeInfo>,
}

#[derive(Debug, Default)]
pub struct GeologicalClassification {
    /// Element `地質区分_深度`.
    pub depth: Option<String>,
    /// Element `地質区分_地質名称1`.
    pub classification1: Option<String>,
    /// Element `地質区分_地質コード1`.
    pub code1: Option<String>,
    /// Element `地質区分_地質名称2`.
    pub classification2: Option<String>,
    /// Element `地質区分_地質コード2`.
    pub code2: Option<String>,
}

#[derive(Debug, Default)]
pub struct Color {
    /// Element `色調_下端深度`.
    pub depth: Option<String>,
    /// Element `色調_状態`.
    pub state: Option<String>,
    /// Element `色調_コード`.
    pub code: Option<String>,
}

#[derive(Debug, Default)]
pub struct ObservationalArticle {
    /// Element `観察記事_上端深度`.
    pub start_depth: Option<String>,
    /// Element `観察記事_下端深度`.
    pub end_depth: Option<String>,
    /// Element `観察記事_記事`.
    pub observation: Option<String>,
}

#[derive(Debug, Default)]
pub struct ObservationalArticleFrame {
    /// Element `観察記事枠線_下端深度`.
    pub end_depth: Option<String>,
}

#[derive(Debug, Clone, Default)]
pub struct StandardPenetrationTest {
    /// Element `標準貫入試験_開始深度`.
    pub start_depth: Option<String>,
    /// Element `標準貫入試験_0_10打撃回数`.
    pub hits_0_10: Option<String>,
    /// Element `標準貫入試験_0_10貫入量`.
    pub penetration_0_10: Option<String>,
    /// Element `標準貫入試験_10_20打撃回数`.
    pub hits_10_20: Option<String>,
    /// Element `標準貫入試験_10_20貫入量`.
    pub penetration_10_20: Option<String>,
    /// Element `標準貫入試験_20_30打撃回数`.
    pub hits_20_30: Option<String>,
    /// Element `標準貫入試験_20_30貫入量`.
    pub penetration_20_30: Option<String>,
    /// Element `標準貫入試験_合計打撃回数`.
    pub total_hits: Option<String>,
    /// Element `標準貫入試験_合計貫入量`.
    pub total_penetration: Option<String>,
    /// Element `標準貫入試験_備考`.
    pub remarks: Option<String>,
}

#[derive(Debug, Default)]
pub struct RelativeDensity {
    /// Element `相対密度稠度_下端深度`.
    pub depth: Option<String>,
    /// Element `相対密度_コード`.
    pub code: Option<String>,
    /// Element `相対密度_状態`.
    pub state: Option<String>,
    /// Element `相対稠度_コード`.
    pub relative_compaction_code: Option<String>,
    /// Element `相対稠度_状態`.
    pub relative_compaction_state: Option<String>,
}

#[derive(Debug, Default)]
pub struct BoreholeHorizontalLoadTest {
    /// Element `孔内水平載荷試験_試験深度`.
    pub depth: Option<String>,
    /// Element `孔内水平載荷試験_試験方法コード`.
    pub method_code: Option<String>,
    /// Element `孔内水平載荷試験_試験方法`.
    pub method: Option<String>,
    /// Element `孔内水平載荷試験_初期圧`.
    pub initial_pressure: Option<String>,
    /// Element `孔内水平載荷試験_降伏圧`.
    pub yield_pressure: Option<String>,
    /// Element `孔内水平載荷試験_変形係数`.
    pub deformation_coefficient: Option<String>,
}

#[derive(Debug, Default)]
pub struct BoreholeDrilledWellTest {
    /// Element `透水試験_上端深度`.
    pub start_depth: Option<String>,
    /// Element `透水試験_下端深度`.
    pub end_depth: Option<String>,
    /// Element `透水試験_試験コード`.
    pub test_code: Option<String>,
    /// Element `透水試験_試験方法`.
    pub test_method: Option<String>,
    /// Element `透水試験_透水係数`.
    pub permeability: Option<String>,
}

#[derive(Debug, Default)]
pub struct PWaveTest {
    /// Element `P波試験_上端深度`.
    pub start_depth: Option<String>,
    /// Element `P波試験_下端深度`.
    pub end_depth: Option<String>,
    /// Element `P波試験_速度`.
    pub velocity: Option<String>,
}

#[derive(Debug, Default)]
pub struct SWaveTest {
    /// Element `S波試験_上端深度`.
    pub start_depth: Option<String>,
    /// Element `S波試験_下端深度`.
    pub end_depth: Option<String>,
    /// Element `S波試験_速度`.
    pub velocity: Option<String>,
}

#[derive(Debug, Default)]
pub struct OtherOriginalPositionTests {
    /// Element `その他原位置試験_試験方法`.
    pub test_method: Option<String>,
    /// Element `その他原位置試験_上端深度`.
    pub start_depth: Option<String>,
    /// Element `その他原位置試験_下端深度`.
    pub end_depth: Option<String>,
    /// Element `その他原位置試験_試験結果`.
    pub test_result: Option<String>,
}

#[derive(Debug, PartialEq, Default)]
pub struct CoreSample {
    /// Element `採取試料_上端深度`.
    pub start_depth: Option<String>,
    /// Element `採取試料_下端深度`.
    pub end_depth: Option<String>,
    /// Element `採取試料_試料番号`.
    pub sample_number: Option<String>,
    /// Element `採取試料_採取方法コード`.
    pub collection_method_code: Option<String>,
    /// Element `採取試料_採取方法`.
    pub method: Option<String>,
}

#[derive(Debug, Default)]
pub struct SoilTestResult {
    /// Element `土質試験結果_試料番号`.
    pub sample_number: Option<String>,
    /// Element `土質試験結果_上端深度`.
    pub start_depth: Option<String>,
    /// Element `土質試験結果_下端深度`.
    pub end_depth: Option<String>,
    /// Element `土質試験結果_湿潤密度`.
    pub wet_density: Option<String>,
    /// Element `土質試験結果_乾燥密度`.
    pub dry_density: Option<String>,
    /// Element `土質試験結果_土粒子密度`.
    pub soil_particle_density: Option<String>,
    /// Element `土質試験結果_自然含水比`.
    pub natural_water_content: Option<String>,
    /// Element `土質試験結果_間隙比`.
    pub void_ratio: Option<String>,
    /// Element `土質試験結果_飽和度`.
    pub saturation: Option<String>,
    /// Element `土質試験結果_粒度_石`.
    pub stone: Option<String>,
    /// Element `土質試験結果_粒度_礫`.
    pub gravel: Option<String>,
    /// Element `土質試験結果_粒度_砂`.
    pub sand: Option<String>,
    /// Element `土質試験結果_粒度_シルト`.
    pub silt: Option<String>,
    /// Element `土質試験結果_粒度_粘土`.
    pub clay: Option<String>,
    /// Element `土質試験結果_粒度_最大粒径`.
    pub max_grain_size: Option<String>,
    /// Element `土質試験結果_粒度_均等係数`.
    pub equal_coefficient: Option<String>,
    /// Element `土質試験結果_液性限界`.
    pub liquidity_limit: Option<String>,
    /// Element `土質試験結果_塑性限界`.
    pub plasticity_limit: Option<String>,
    /// Element `土質試験結果_塑性指数`.
    pub plasticity_index: Option<String>,
    /// Element `土質試験結果_地盤材料名`.
    pub soil_name: Option<String>,
    /// Element `土質試験結果_地盤材料記号`.
    pub soil_symbol: Option<String>,
    /// Element `土質試験結果_圧密試験方法`.
    pub compression_test_method: Option<String>,
    /// Element `土質試験結果_圧縮指数`.
    pub compression_index: Option<String>,
    /// Element `土質試験結果_圧密降伏応力`.
    pub compression_yield_stress: Option<String>,
    /// Element `土質試験結果_体積圧縮係数`.
    pub volume_compression_coefficient: Option<String>,
    /// Element `土質試験結果_圧密係数`.
    pub compression_coefficient: Option<String>,
    /// Element `土質試験結果_応力範囲`.
    pub stress_range: Option<String>,
    /// Element `土質試験結果_一軸圧縮強さ1`.
    pub compression_strength_1: Option<String>,
    /// Element `土質試験結果_一軸圧縮強さ2`.
    pub compression_strength_2: Option<String>,
    /// Element `土質試験結果_一軸圧縮強さ3`.
    pub compression_strength_3: Option<String>,
    /// Element `土質試験結果_一軸圧縮強さ4`.
    pub compression_strength_4: Option<String>,
    /// Element `土質試験結果_一軸試験破壊ひずみ1`.
    pub compression_failure_1: Option<String>,
    /// Element `土質試験結果_一軸試験破壊ひずみ2`.
    pub compression_failure_2: Option<String>,
    /// Element `土質試験結果_一軸試験破壊ひずみ3`.
    pub compression_failure_3: Option<String>,
    /// Element `土質試験結果_一軸試験破壊ひずみ4`.
    pub compression_failure_4: Option<String>,
    /// Element `土質試験結果_一軸試験鋭敏比`.
    pub compression_sharpness_ratio: Option<String>,
    /// Element `土質試験結果_せん断試験条件`.
    pub tensile_test_condition: Option<String>,
    /// Element `土質試験結果_せん断強さ_全応力`.
    pub tensile_strength_total: Option<String>,
    /// Element `土質試験結果_せん断抵抗角_全応力`.
    pub tensile_resistance_angle_total: Option<String>,
    /// Element `土質試験結果_せん断強さ_有効応力`.
    pub tensile_strength_effective: Option<String>,
    /// Element `土質試験結果_せん断抵抗角_有効応力`.
    pub tensile_resistance_angle_effective: Option<String>,
    /// Element `土質試験結果_試料状態`.
    pub sample_condition: Option<String>,
}

#[derive(Debug, Default)]
pub struct GeotechnicalClassification {
    /// Element `地盤分類_下端深度`.
    pub end_depth: Option<String>,
    /// Element `地盤分類_工学的分類記号`.
    pub classification_symbol: Option<String>,
}

#[derive(Debug, PartialEq, Default)]
pub struct GeologicalEra {
    /// Element `地質時代_上端深度`.
    pub start_depth: Option<String>,
    /// Element `地質時代_下端深度`.
    pub end_depth: Option<String>,
    /// Element `地質時代_コード`.
    pub code: Option<String>,
    /// Element `地質時代_時代名`.
    pub name: Option<String>,
}

#[derive(Debug, Default)]
pub struct GeostratumClassification {
    /// Element `地層区分_上端深度`.
    pub start_depth: Option<String>,
    /// Element `地層区分_下端深度`.
    pub end_depth: Option<String>,
    /// Element `地層区分_地層名`.
    pub rock_body_name: Option<String>,
}

#[derive(Debug, PartialEq, Default)]
pub struct BoreholeWaterLevel {
    /// Element `孔内水位_測定年`.
    pub year: Option<String>,
    /// Element `孔内水位_測定月`.
    pub month: Option<String>,
    /// Element `孔内水位_測定日`.
    pub day: Option<String>,
    /// Element `孔内水位_掘削深度`.
    pub depth: Option<String>,
    /// Element `孔内水位_孔内水位`.
    pub water_level: Option<String>,
    /// Element `孔内水位_水位種別`.
    pub water_level_type: Option<String>,
}

#[derive(Debug, Default)]
pub struct DrillingProcess {
    /// Element `掘削工程_測定年`.
    pub measurement_year: Option<String>,
    /// Element `掘削工程_測定月`.
    pub measurement_month: Option<String>,
    /// Element `掘削工程_測定日`.
    pub measurement_day: Option<String>,
    /// Element `掘削工程_掘進深度`.
    pub drilling_depth: Option<String>,
}

#[derive(Debug, Clone, Default)]
pub struct BoreholeWallProtection {
    /// Element `孔径孔壁保護_上端深度`.
    pub upper_depth: Option<String>,
    /// Element `孔径孔壁保護_下端深度`.
    pub lower_depth: Option<String>,
    /// Element `孔径孔壁保護_孔径`.
    pub diameter: Option<String>,
    /// Element `孔径孔壁保護_孔壁保護`.
    pub wall_protection: Option<String>,
    /// Element `孔径孔壁保護_送水条件`.
    pub water_supply_condition: Option<String>,
}

#[derive(Debug, Default)]
pub struct FaultClassification {
    /// Element `断層区分_上端深度`.
    pub upper_depth: Option<String>,
    /// Element `断層区分_下端深度`.
    pub lower_depth: Option<String>,
    /// Element `断層区分_性状`.
    pub property: Option<String>,
}

} // verus!
