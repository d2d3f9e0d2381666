//! SAE J1939 protocol decoder.
//!
//! Decodes SAE J1939 CAN frames: parses and builds 29-bit extended CAN IDs,
//! holds a built-in catalog of common PGNs and SPNs used in heavy-duty
//! vehicles and industrial equipment, and extracts SPN values from frame data
//! with bit-field, "not available" and scale/offset handling.
//!
//! Physical values are exact: a scale such as 0.125 rpm/bit is kept as the
//! fraction 1/8, and a decoded value is the fraction `raw * scale + offset`,
//! where `raw` is negative for a signed field with the sign bit set.
//!
//! # J1939 CAN ID Format
//!
//! J1939 uses 29-bit extended CAN IDs with the following structure:
//!
//! ```text
//! | Priority | R | DP | PF | PS/DA | SA |
//! |   3 bit  |1b | 1b | 8b |  8b   | 8b |
//! ```
//!
//! - **Priority**: Message priority (0-7, lower is higher)
//! - **R**: Reserved (always 0)
//! - **DP**: Data Page
//! - **PF**: PDU Format (determines PDU1 vs PDU2)
//! - **PS/DA**: PDU Specific or Destination Address
//! - **SA**: Source Address

pub mod catalog;
pub mod database;
pub mod decoder;
pub mod frame;
pub mod types;

pub use catalog::spn_definitions;
pub use database::{
    build_pgn_database, build_spn_database, database_stats, get_spn_def, get_spns_for_pgn,
    list_supported_pgns, SpnDatabase,
};
pub use decoder::{
    decode_frame, decode_spn, decode_spn_by_number, decode_spn_full, decode_spns,
    extract_field_value, extract_raw_value, get_source_address, is_not_available, physical_value,
};
pub use frame::{
    build_can_id, build_request_pgn, extract_pgn, extract_source_address, is_valid_j1939_id,
    parse_can_id,
};
pub use types::{DecodedSpn, J1939Id, Quantity, Ratio, SpnDataType, SpnDef};
