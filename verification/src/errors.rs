//! Errors of the platform: consensus errors, which a transition's validation
//! reports to its sender, and execution and protocol errors, which stop the
//! processing itself.

use vstd::prelude::*;
use crate::identifier::Identifier;

verus! {

/// A consensus error: the transition broke a rule of the platform.
#[derive(Clone, Debug, PartialEq, Eq)]
pub enum ConsensusError {
    /// An identity with this id already exists.
    IdentityAlreadyExists { identity_id: Identifier },
    /// The asset lock output carries less than the required minimum.
    InvalidAssetLockProofValue { value: u64, min_value: u64 },
    /// The ECDSA signature over the transition does not verify; the message says why.
    BasicEcdsaError { message: String },
    /// An error reported by a check that runs outside this library
    /// (the asset lock proof, the public keys), with its code and message.
    Reported { code: u32, message: String },
}

/// An error of the data model.
#[derive(Clone, Debug, PartialEq, Eq)]
pub enum ProtocolError {
    /// The code reached a state that its own checks rule out.
    CorruptedCodeExecution(String),
    /// The data contract defines no document type of this name.
    DocumentTypeNotFound(String),
    /// A data contract could not be built from its serialized form.
    InvalidDataContract(String),
}

/// An error of the execution of a transition.
#[derive(Clone, Debug, PartialEq, Eq)]
pub enum ExecutionError {
    /// The platform version names a method version that this code does not know.
    UnknownVersionMismatch { method: String, known_versions: Vec<u16>, received: u16 },
    /// The platform version has no version of this method active.
    VersionNotActive { method: String, known_versions: Vec<u16> },
    /// The code reached a state that its own checks rule out.
    CorruptedCodeExecution(String),
}

/// An error that stops processing.
#[derive(Clone, Debug, PartialEq, Eq)]
pub enum Error {
    Execution(ExecutionError),
    Protocol(ProtocolError),
}

} // verus!
