use cpvm_econet_linker::AssetType;
use cpvm_econet_linker::ConcentrationUnit;
use cpvm_econet_linker::FlowUnit;

#[test]
fn test_asset_type_recognized_tokens() {
    assert_eq!(AssetType::from_str("Reservoir"), AssetType::Reservoir);
    assert_eq!(AssetType::from_str("Plant"), AssetType::Plant);
    assert_eq!(AssetType::from_str("RiverReach"), AssetType::RiverReach);
    assert_eq!(AssetType::from_str("Basin"), AssetType::Basin);
    assert_eq!(
        AssetType::from_str("WatershedCluster"),
        AssetType::WatershedCluster
    );
}

#[test]
fn test_asset_type_trims_before_matching() {
    assert_eq!(AssetType::from_str("  Reservoir\t"), AssetType::Reservoir);
}

#[test]
fn test_asset_type_unknown_token_falls_back() {
    assert_eq!(
        AssetType::from_str(" wetland "),
        AssetType::Other("wetland".to_string())
    );
}

#[test]
fn test_asset_type_match_is_case_sensitive() {
    assert_eq!(
        AssetType::from_str("reservoir"),
        AssetType::Other("reservoir".to_string())
    );
}

#[test]
fn test_concentration_unit_recognized_tokens() {
    assert_eq!(ConcentrationUnit::from_str("ng/L"), ConcentrationUnit::NgPerL);
    assert_eq!(ConcentrationUnit::from_str("mg/L"), ConcentrationUnit::MgPerL);
    assert_eq!(
        ConcentrationUnit::from_str("MPN/100mL"),
        ConcentrationUnit::MpnPer100mL
    );
}

#[test]
fn test_concentration_unit_unknown_token_falls_back() {
    assert_eq!(
        ConcentrationUnit::from_str("ug/L"),
        ConcentrationUnit::Other("ug/L".to_string())
    );
}

#[test]
fn test_flow_unit_recognized_token() {
    assert_eq!(FlowUnit::from_str("m3/s"), FlowUnit::M3PerS);
    assert_eq!(FlowUnit::from_str(" m3/s "), FlowUnit::M3PerS);
}

#[test]
fn test_flow_unit_unknown_token_falls_back() {
    assert_eq!(
        FlowUnit::from_str("L/min"),
        FlowUnit::Other("L/min".to_string())
    );
}
