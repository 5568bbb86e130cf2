//! Linker for CPVM–EcoNet water-asset datasets.
//!
//! The crate turns delimited text rows describing physical water-network
//! assets into typed node records: a tolerant tokenizer splits one line into
//! trimmed fields, small resolvers map taxonomy and unit tokens onto closed
//! enumerations with an open fallback, a decoder assembles one record per
//! row, and a loader runs the whole pipeline over a line stream, failing
//! fast on the first malformed row.  Numeric columns are carried verbatim as
//! text; their binary floating-point interpretation, and everything derived
//! from it, is the embedding application's concern.

pub mod loader;
pub mod record;
pub mod text;
pub mod tokenizer;
pub mod units;

pub use loader::load_node_records;
pub use record::decode_node_record;
pub use record::CpvmLinkerError;
pub use record::CpvmNodeRecord;
pub use record::NodeId;
pub use tokenizer::split_csv_line;
pub use units::AssetType;
pub use units::ConcentrationUnit;
pub use units::FlowUnit;
