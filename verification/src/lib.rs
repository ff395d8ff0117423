//! The data types that a Linera contract hands to the host, and their
//! conversions into the records of the contract system interface.

pub mod conversions_to_wit;
pub mod crypto;
pub mod data_types;
pub mod identifiers;
pub mod log_level;
pub mod lossless;
pub mod record_fields;
pub mod wit;
