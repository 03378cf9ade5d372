//! Resource types of the management protocol.
pub mod asset;
pub mod callback_address;
pub mod catalog;
pub mod contract_definition;
pub mod contract_negotiation;
pub mod context;
pub mod data_address;
pub mod policy;
pub mod properties;
pub mod query;
pub mod secret;
pub mod transfer_process;
