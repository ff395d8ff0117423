//! The records of the interface between a contract and the host.

pub mod contract_system_api;
