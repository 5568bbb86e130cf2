use cpvm_econet_linker::decode_node_record;
use cpvm_econet_linker::split_csv_line;
use cpvm_econet_linker::AssetType;
use cpvm_econet_linker::ConcentrationUnit;
use cpvm_econet_linker::CpvmLinkerError;
use cpvm_econet_linker::FlowUnit;

fn fields_of(line: &str) -> Vec<String> {
    split_csv_line(line)
}

#[test]
fn test_decode_twelve_fields() {
    let fields = fields_of("N-1,Reservoir,River X,Region Y,PROFILE_1,10.5,ng/L,2.0,m3/s,3600,0.8,1000");
    let rec = decode_node_record(&fields, 2).unwrap();
    assert_eq!(rec.node_id.0, "N-1");
    assert_eq!(rec.asset_type, AssetType::Reservoir);
    assert_eq!(rec.waterbody, "River X");
    assert_eq!(rec.region, "Region Y");
    assert_eq!(rec.cpvm_profile, "PROFILE_1");
    assert_eq!(rec.cin_baseline_text, "10.5");
    assert_eq!(rec.cin_unit, ConcentrationUnit::NgPerL);
    assert_eq!(rec.q_avg_text, "2.0");
    assert_eq!(rec.q_unit, FlowUnit::M3PerS);
    assert_eq!(rec.horizon_s_text, "3600");
    assert_eq!(rec.ecoimpactscore_text, "0.8");
    assert_eq!(rec.karma_per_unit_text, "1000");
    assert_eq!(rec.notes, "");
}

#[test]
fn test_decode_extra_fields_join_into_notes() {
    let fields =
        fields_of("N-2,Plant,W,R,P,1,mg/L,2,m3/s,3,0.5,10,first note,second note");
    let rec = decode_node_record(&fields, 2).unwrap();
    assert_eq!(rec.notes, "first note,second note");
}

#[test]
fn test_decode_too_few_fields_reports_line_and_count() {
    let fields = fields_of("N-3,Plant,W,R,P,1,mg/L,2,m3/s,3,0.5");
    let err = decode_node_record(&fields, 7).unwrap_err();
    match err {
        CpvmLinkerError::Parse(m) => {
            assert_eq!(m, "Line 7 has insufficient fields: 11");
        }
        other => panic!("unexpected error: {:?}", other),
    }
}

#[test]
fn test_decode_unknown_enum_tokens_never_fail() {
    let fields = fields_of("N-4,SomeNewKind,W,R,P,1,parts-per-zillion,2,firkins/fortnight,3,0.5,10");
    let rec = decode_node_record(&fields, 2).unwrap();
    assert_eq!(rec.asset_type, AssetType::Other("SomeNewKind".to_string()));
    assert_eq!(
        rec.cin_unit,
        ConcentrationUnit::Other("parts-per-zillion".to_string())
    );
    assert_eq!(rec.q_unit, FlowUnit::Other("firkins/fortnight".to_string()));
}
