//! Taxonomy and unit resolvers: closed enumerations of the recognized
//! textual tokens, each with an open `Other` fallback carrying the original
//! trimmed text.  Resolution is total — an unrecognized token is never an
//! error — and matches are exact: trim, then compare case-sensitively.

use crate::text::chars_eq_str;
use crate::text::chars_to_string;
use crate::text::str_chars;
use crate::text::trim;
use crate::text::trim_chars;
use vstd::prelude::*;

verus! {

/// Asset type taxonomy for CPVM–EcoNet nodes.
#[derive(Debug, Clone, PartialEq, Eq, Hash)]
pub enum AssetType {
    Reservoir,
    Plant,
    RiverReach,
    Basin,
    WatershedCluster,
    Other(String),
}

/// How an asset-type token resolves: the trimmed token picks its named
/// variant on an exact match, and any other token lands in `Other` carrying
/// the trimmed text.
pub open spec fn asset_type_resolves(r: AssetType, s: Seq<char>) -> bool {
    let t = trim(s);
    if t == "Reservoir"@ {
        r == AssetType::Reservoir
    } else if t == "Plant"@ {
        r == AssetType::Plant
    } else if t == "RiverReach"@ {
        r == AssetType::RiverReach
    } else if t == "Basin"@ {
        r == AssetType::Basin
    } else if t == "WatershedCluster"@ {
        r == AssetType::WatershedCluster
    } else {
        r matches AssetType::Other(o) && o@ == t
    }
}

impl AssetType {
    /// Resolves a taxonomy token, falling back to `Other` on anything
    /// unrecognized.
    pub fn from_str(s: &str) -> (r: Self)
        ensures
            asset_type_resolves(r, s@),
    {
        let chars = str_chars(s);
        let t = trim_chars(&chars);
        if chars_eq_str(&t, "Reservoir") {
            AssetType::Reservoir
        } else if chars_eq_str(&t, "Plant") {
            AssetType::Plant
        } else if chars_eq_str(&t, "RiverReach") {
            AssetType::RiverReach
        } else if chars_eq_str(&t, "Basin") {
            AssetType::Basin
        } else if chars_eq_str(&t, "WatershedCluster") {
            AssetType::WatershedCluster
        } else {
            AssetType::Other(chars_to_string(&t))
        }
    }
}

/// Simple unit enum for concentration.
#[derive(Debug, Clone, PartialEq, Eq, Hash)]
pub enum ConcentrationUnit {
    NgPerL,
    MgPerL,
    MpnPer100mL,
    Other(String),
}

/// How a concentration-unit token resolves, with the `Other` fallback
/// carrying the trimmed text.
pub open spec fn concentration_unit_resolves(r: ConcentrationUnit, s: Seq<char>) -> bool {
    let t = trim(s);
    if t == "ng/L"@ {
        r == ConcentrationUnit::NgPerL
    } else if t == "mg/L"@ {
        r == ConcentrationUnit::MgPerL
    } else if t == "MPN/100mL"@ {
        r == ConcentrationUnit::MpnPer100mL
    } else {
        r matches ConcentrationUnit::Other(o) && o@ == t
    }
}

impl ConcentrationUnit {
    /// Resolves a concentration-unit token, falling back to `Other` on
    /// anything unrecognized.
    pub fn from_str(s: &str) -> (r: Self)
        ensures
            concentration_unit_resolves(r, s@),
    {
        let chars = str_chars(s);
        let t = trim_chars(&chars);
        if chars_eq_str(&t, "ng/L") {
            ConcentrationUnit::NgPerL
        } else if chars_eq_str(&t, "mg/L") {
            ConcentrationUnit::MgPerL
        } else if chars_eq_str(&t, "MPN/100mL") {
            ConcentrationUnit::MpnPer100mL
        } else {
            ConcentrationUnit::Other(chars_to_string(&t))
        }
    }
}

/// Simple unit enum for flow.
#[derive(Debug, Clone, PartialEq, Eq, Hash)]
pub enum FlowUnit {
    M3PerS,
    Other(String),
}

/// How a flow-unit token resolves, with the `Other` fallback carrying the
/// trimmed text.
pub open spec fn flow_unit_resolves(r: FlowUnit, s: Seq<char>) -> bool {
    let t = trim(s);
    if t == "m3/s"@ {
        r == FlowUnit::M3PerS
    } else {
        r matches FlowUnit::Other(o) && o@ == t
    }
}

impl FlowUnit {
    /// Resolves a flow-unit token, falling back to `Other` on anything
    /// unrecognized.
    pub fn from_str(s: &str) -> (r: Self)
        ensures
            flow_unit_resolves(r, s@),
    {
        let chars = str_chars(s);
        let t = trim_chars(&chars);
        if chars_eq_str(&t, "m3/s") {
            FlowUnit::M3PerS
        } else {
            FlowUnit::Other(chars_to_string(&t))
        }
    }
}

} // verus!
