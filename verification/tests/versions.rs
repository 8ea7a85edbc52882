use platform_validation::credit_transfer::IdentityCreditTransferTransition;
use platform_validation::errors::{ConsensusError, Error, ExecutionError};
use platform_validation::identifier::Identifier;
use platform_validation::validation::{SimpleConsensusValidationResult, ValidationResult};
use platform_validation::version::{FeatureVersionBounds, PlatformVersion};

fn platform(balance: Option<u16>) -> PlatformVersion {
    PlatformVersion {
        protocol_version: 1,
        version_upgrade_vote_status: FeatureVersionBounds { min_version: 0, max_version: 0, default_current_version: 0 },
        identity_credit_transfer_balance: balance,
    }
}

fn transfer() -> IdentityCreditTransferTransition {
    IdentityCreditTransferTransition {
        identity_id: Identifier::new([1; 32]),
        recipient_id: Identifier::new([2; 32]),
        amount: 100,
        nonce: 1,
    }
}

#[test]
fn check_version_includes_both_bounds() {
    let b = FeatureVersionBounds { min_version: 2, max_version: 4, default_current_version: 3 };
    assert!(!b.check_version(1));
    assert!(b.check_version(2));
    assert!(b.check_version(3));
    assert!(b.check_version(4));
    assert!(!b.check_version(5));
}

#[test]
fn balance_version_zero_runs_v0() {
    let expected: SimpleConsensusValidationResult =
        ValidationResult::new_with_error(ConsensusError::Reported { code: 4024, message: "insufficient".to_string() });
    let expected_clone = expected.clone();
    let r = transfer().validate_balance(&platform(Some(0)), move || Ok(expected_clone));
    assert_eq!(r, Ok(expected));
}

#[test]
fn balance_unknown_version_is_mismatch() {
    let r = transfer().validate_balance(&platform(Some(3)), || panic!("v0 must not run"));
    assert_eq!(
        r,
        Err(Error::Execution(ExecutionError::UnknownVersionMismatch {
            method: "identity credit transfer transition: validate_balance".to_string(),
            known_versions: vec![0],
            received: 3,
        }))
    );
}

#[test]
fn balance_without_version_is_not_active() {
    let r = transfer().validate_balance(&platform(None), || panic!("v0 must not run"));
    assert_eq!(
        r,
        Err(Error::Execution(ExecutionError::VersionNotActive {
            method: "identity credit transfer transition: validate_balance".to_string(),
            known_versions: vec![0],
        }))
    );
}

#[test]
fn validation_result_operations() {
    let mut r: ValidationResult<u8, u8> = ValidationResult::new();
    assert!(r.is_valid());
    r.add_error(1);
    r.add_errors(vec![2, 3]);
    let other: ValidationResult<u16, u8> = ValidationResult::new_with_errors(vec![4]);
    r.merge(other);
    assert_eq!(r.errors, vec![1, 2, 3, 4]);
    assert!(!r.is_valid());
    r.set_data(9);
    assert_eq!(r.data, Some(9));
    let d: ValidationResult<u8, u8> = ValidationResult::new_with_data(5);
    assert!(d.is_valid());
    assert_eq!(d.data, Some(5));
}
