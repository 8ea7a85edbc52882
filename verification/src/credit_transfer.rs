//! Balance validation of an identity credit transfer: which version of the
//! check a platform version selects.

use vstd::prelude::*;
use crate::identifier::Identifier;
use crate::errors::{Error, ExecutionError};
use crate::validation::SimpleConsensusValidationResult;
use crate::version::PlatformVersion;

verus! {

/// Transfer `amount` credits from one identity to another.
#[derive(Clone, Copy, Debug, PartialEq, Eq)]
pub struct IdentityCreditTransferTransition {
    pub identity_id: Identifier,
    pub recipient_id: Identifier,
    pub amount: u64,
    pub nonce: u64,
}

/// The name under which a version error of the balance check reports the method.
pub open spec fn validate_balance_method_name() -> Seq<char> {
    "identity credit transfer transition: validate_balance"@
}

impl IdentityCreditTransferTransition {
    /// Runs the balance check that the platform version selects: version 0 runs
    /// `validate_v0`; another version is unknown; none means the check is not active.
    pub fn validate_balance<F>(
        &self,
        platform_version: &PlatformVersion,
        validate_v0: F,
    ) -> (r: Result<SimpleConsensusValidationResult, Error>)
        where
            F: FnOnce() -> Result<SimpleConsensusValidationResult, Error>,
        requires
            platform_version.identity_credit_transfer_balance == Some(0u16) ==> call_requires(validate_v0, ()),
        ensures
            platform_version.identity_credit_transfer_balance == Some(0u16) ==> call_ensures(validate_v0, (), r),
            platform_version.identity_credit_transfer_balance matches Some(v) ==> (v != 0 ==> (r matches Err(
                    Error::Execution(ExecutionError::UnknownVersionMismatch { method, known_versions, received }),
                ) && method@ == validate_balance_method_name() && known_versions@ == seq![0u16]
                    && received == v)),
            platform_version.identity_credit_transfer_balance is None ==> (r matches Err(
                Error::Execution(ExecutionError::VersionNotActive { method, known_versions }),
            ) && method@ == validate_balance_method_name() && known_versions@ == seq![0u16]),
    {
        match platform_version.identity_credit_transfer_balance {
            Some(0) => validate_v0(),
            Some(version) => {
                let mut known_versions: Vec<u16> = Vec::new();
                known_versions.push(0);
                Err(Error::Execution(ExecutionError::UnknownVersionMismatch {
                    method: "identity credit transfer transition: validate_balance".to_string(),
                    known_versions,
                    received: version,
                }))
            },
            None => {
                let mut known_versions: Vec<u16> = Vec::new();
                known_versions.push(0);
                Err(Error::Execution(ExecutionError::VersionNotActive {
                    method: "identity credit transfer transition: validate_balance".to_string(),
                    known_versions,
                }))
            },
        }
    }
}

} // verus!
