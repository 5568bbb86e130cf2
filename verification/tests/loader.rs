use cpvm_econet_linker::load_node_records;
use cpvm_econet_linker::AssetType;
use cpvm_econet_linker::CpvmLinkerError;

fn lines(raw: &[&str]) -> Vec<String> {
    raw.iter().map(|s| s.to_string()).collect()
}

#[test]
fn test_load_empty_source_yields_no_records() {
    let recs = load_node_records(&lines(&[])).unwrap();
    assert!(recs.is_empty());
}

#[test]
fn test_load_header_only_yields_no_records() {
    let recs = load_node_records(&lines(&["id,type,waterbody,region,profile"])).unwrap();
    assert!(recs.is_empty());
}

#[test]
fn test_load_skips_header_and_blank_lines() {
    let recs = load_node_records(&lines(&[
        "id,type,waterbody,region,profile,cin,cin_unit,q,q_unit,horizon,score,karma",
        "N-1,Reservoir,River X,Region Y,P1,10.0,ng/L,2.0,m3/s,3600,0.8,1000",
        "   ",
        "N-2,Plant,River Z,Region Y,P2,4.0,mg/L,1.5,m3/s,60,0.2,5",
    ]))
    .unwrap();
    assert_eq!(recs.len(), 2);
    assert_eq!(recs[0].node_id.0, "N-1");
    assert_eq!(recs[0].asset_type, AssetType::Reservoir);
    assert_eq!(recs[0].cin_baseline_text, "10.0");
    assert_eq!(recs[1].node_id.0, "N-2");
    assert_eq!(recs[1].horizon_s_text, "60");
}

#[test]
fn test_load_fails_fast_on_short_row() {
    let res = load_node_records(&lines(&[
        "header",
        "N-1,Reservoir,W,R,P,1,ng/L,2,m3/s,3,0.5,10",
        "N-2,Plant,too,short",
        "N-3,Basin,W,R,P,1,ng/L,2,m3/s,3,0.5,10",
    ]));
    match res {
        Err(CpvmLinkerError::Parse(m)) => {
            assert_eq!(m, "Line 3 has insufficient fields: 4");
        }
        other => panic!("expected a parse failure, got {:?}", other),
    }
}

#[test]
fn test_load_short_first_data_row_returns_no_records() {
    let res = load_node_records(&lines(&["header", "a,b,c"]));
    match res {
        Err(CpvmLinkerError::Parse(m)) => {
            assert_eq!(m, "Line 2 has insufficient fields: 3");
        }
        other => panic!("expected a parse failure, got {:?}", other),
    }
}

#[test]
fn test_load_blank_lines_still_count_for_numbering() {
    let res = load_node_records(&lines(&["header", "", "x,y"]));
    match res {
        Err(CpvmLinkerError::Parse(m)) => {
            assert_eq!(m, "Line 3 has insufficient fields: 2");
        }
        other => panic!("expected a parse failure, got {:?}", other),
    }
}
