//! Validation and routing rules of Dash Platform's state transitions and
//! queries, with their contracts proved by Verus.

pub mod identifier;
pub mod document_transition;
pub mod errors;
pub mod validation;
pub mod version;
pub mod credit_transfer;
pub mod vote_status_query;
pub mod identity_create;
pub mod data_contract;
pub mod data_contract_create;
pub mod document_replace;
