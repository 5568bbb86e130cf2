//! The record decoder: validates the field count of one tokenized row,
//! resolves its enumeration tokens, and assembles one node record.  The
//! numeric columns are carried verbatim as text — the core stays free of
//! binary floating-point arithmetic, and the embedding application interprets
//! them.  A row with fewer than twelve fields is rejected with a message
//! naming the 1-based source line; decoding is atomic, so a failure leaves no
//! partial record.

use crate::text::dec_rep;
use crate::text::dec_string;
use crate::text::join_comma;
use crate::text::join_fields_comma;
use crate::units::asset_type_resolves;
use crate::units::concentration_unit_resolves;
use crate::units::flow_unit_resolves;
use crate::units::AssetType;
use crate::units::ConcentrationUnit;
use crate::units::FlowUnit;
use vstd::prelude::*;
use vstd::string::StringExecFns;

verus! {

/// Identifier for a physical-virtual water asset node.
#[derive(Debug, Clone, PartialEq, Eq, Hash)]
pub struct NodeId(pub String);

/// Errors for CSV parsing and configuration: a stream-access failure carried
/// as its message, or a decode failure naming the offending field and line.
#[derive(Debug, Clone, PartialEq, Eq)]
pub enum CpvmLinkerError {
    Io(String),
    Parse(String),
}

/// Core CPVM node record: identity, taxonomy, units, and the numeric columns
/// in their source text form.
#[derive(Debug, Clone)]
pub struct CpvmNodeRecord {
    pub node_id: NodeId,
    pub asset_type: AssetType,
    pub waterbody: String,
    pub region: String,
    /// Name of the CPVM profile (e.g. PFAS_PFBS_LP_v1).
    pub cpvm_profile: String,
    /// Baseline inlet concentration C_in, as written in the source.
    pub cin_baseline_text: String,
    pub cin_unit: ConcentrationUnit,
    /// Average discharge Q, as written in the source.
    pub q_avg_text: String,
    pub q_unit: FlowUnit,
    /// Time horizon for eco-impact integration [s], as written in the source.
    pub horizon_s_text: String,
    /// CEIM-style ecoimpactscore in [0,1], as written in the source.
    pub ecoimpactscore_text: String,
    /// Karma per unit canonical impact, as written in the source.
    pub karma_per_unit_text: String,
    pub notes: String,
}

/// The message reported for a row with too few fields.
pub open spec fn insufficient_fields_msg(line_no: nat, n_fields: nat) -> Seq<char> {
    "Line "@ + dec_rep(line_no) + " has insufficient fields: "@ + dec_rep(n_fields)
}

/// How a decoded record relates to the twelve-or-more fields of its row: the
/// first five fields verbatim (the second resolved as an asset type), then
/// alternating numeric-text and unit fields, and every field past the twelfth
/// rejoined with commas into the notes.
pub open spec fn record_resolves(rec: CpvmNodeRecord, fs: Seq<Seq<char>>) -> bool {
    &&& rec.node_id.0@ == fs[0]
    &&& asset_type_resolves(rec.asset_type, fs[1])
    &&& rec.waterbody@ == fs[2]
    &&& rec.region@ == fs[3]
    &&& rec.cpvm_profile@ == fs[4]
    &&& rec.cin_baseline_text@ == fs[5]
    &&& concentration_unit_resolves(rec.cin_unit, fs[6])
    &&& rec.q_avg_text@ == fs[7]
    &&& flow_unit_resolves(rec.q_unit, fs[8])
    &&& rec.horizon_s_text@ == fs[9]
    &&& rec.ecoimpactscore_text@ == fs[10]
    &&& rec.karma_per_unit_text@ == fs[11]
    &&& rec.notes@ == if fs.len() > 12 {
        join_comma(fs.skip(12))
    } else {
        Seq::<char>::empty()
    }
}

/// Decodes the tokenized fields of one row into a node record, or rejects a
/// row with fewer than twelve fields, reporting the given 1-based line
/// number.
pub fn decode_node_record(fields: &Vec<String>, line_no: usize) -> (r: Result<
    CpvmNodeRecord,
    CpvmLinkerError,
>)
    ensures
        fields@.len() >= 12 ==> (r matches Ok(rec) && record_resolves(rec, fields.deep_view())),
        fields@.len() < 12 ==> (r matches Err(CpvmLinkerError::Parse(m)) && m@
            == insufficient_fields_msg(line_no as nat, fields@.len() as nat)),
{
    if fields.len() < 12 {
        let mut msg = String::new();
        msg.append("Line ");
        let line_dec = dec_string(line_no);
        msg.append(line_dec.as_str());
        msg.append(" has insufficient fields: ");
        let count_dec = dec_string(fields.len());
        msg.append(count_dec.as_str());
        proof {
            assert(msg@ =~= insufficient_fields_msg(line_no as nat, fields@.len() as nat));
        }
        return Err(CpvmLinkerError::Parse(msg));
    }
    let ghost dv = fields.deep_view();
    proof {
        assert(forall|j: int| 0 <= j < dv.len() ==> dv[j] == fields@[j]@);
    }
    let node_id = NodeId(fields[0].clone());
    let asset_type = AssetType::from_str(fields[1].as_str());
    let waterbody = fields[2].clone();
    let region = fields[3].clone();
    let cpvm_profile = fields[4].clone();
    let cin_baseline_text = fields[5].clone();
    let cin_unit = ConcentrationUnit::from_str(fields[6].as_str());
    let q_avg_text = fields[7].clone();
    let q_unit = FlowUnit::from_str(fields[8].as_str());
    let horizon_s_text = fields[9].clone();
    let ecoimpactscore_text = fields[10].clone();
    let karma_per_unit_text = fields[11].clone();
    let notes = if fields.len() > 12 {
        join_fields_comma(fields, 12)
    } else {
        String::new()
    };
    Ok(
        CpvmNodeRecord {
            node_id,
            asset_type,
            waterbody,
            region,
            cpvm_profile,
            cin_baseline_text,
            cin_unit,
            q_avg_text,
            q_unit,
            horizon_s_text,
            ecoimpactscore_text,
            karma_per_unit_text,
            notes,
        },
    )
}

} // verus!
