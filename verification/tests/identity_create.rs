use platform_validation::errors::{ConsensusError, Error, ExecutionError, ProtocolError};
use platform_validation::identifier::Identifier;
use platform_validation::identity_create::{
    p2pkh_public_key_hash_bytes, IdentityCreateCommand, IdentityCreateEvent, IdentityCreateStage,
    IdentityCreateStateValidation, IdentityCreateTransitionAction, KeyType, StateTransitionAction, TxOut,
    ValidationOperation, CREDITS_PER_DUFF,
};
use platform_validation::validation::ValidationResult;

fn id() -> Identifier {
    Identifier::new([7; 32])
}

fn p2pkh_script(hash: [u8; 20]) -> Vec<u8> {
    let mut s = vec![0x76, 0xa9, 0x14];
    s.extend_from_slice(&hash);
    s.push(0x88);
    s.push(0xac);
    s
}

fn output(value: u64) -> ValidationResult<TxOut, ConsensusError> {
    ValidationResult::new_with_data(TxOut { value, script_pubkey: p2pkh_script([3; 20]) })
}

fn reported(code: u32) -> ConsensusError {
    ConsensusError::Reported { code, message: format!("error {}", code) }
}

/// Runs the state checks up to the asset lock output request.
fn through_state_checks() -> IdentityCreateStateValidation {
    let (mut v, cmd) = IdentityCreateStateValidation::validate_state_v0(id());
    assert_eq!(cmd, IdentityCreateCommand::CreateExecutionContext);
    assert_eq!(v.step(IdentityCreateEvent::ExecutionContextCreated(Ok(()))), IdentityCreateCommand::FetchIdentityBalance(id()));
    assert_eq!(v.step(IdentityCreateEvent::BalanceFetched(None)), IdentityCreateCommand::ValidateAssetLockProof);
    assert_eq!(
        v.step(IdentityCreateEvent::AssetLockProofValidated(ValidationResult::new())),
        IdentityCreateCommand::ValidateUniqueKeyHashes
    );
    assert_eq!(
        v.step(IdentityCreateEvent::UniqueKeysValidated(ValidationResult::new())),
        IdentityCreateCommand::FetchAssetLockOutput
    );
    v
}

#[test]
fn full_validation_creates_identity() {
    let mut v = through_state_checks();
    assert_eq!(v.operations(), &Vec::<ValidationOperation>::new());
    let cmd = v.step(IdentityCreateEvent::AssetLockOutputFetched { output: output(50_000), minimal_value: Ok(20_000) });
    assert_eq!(cmd, IdentityCreateCommand::ComputeSignableBytes);
    assert!(v.operations().is_empty());
    let cmd = v.step(IdentityCreateEvent::SignableBytesComputed(Ok(vec![8, 9])));
    assert_eq!(cmd, IdentityCreateCommand::VerifySignature { signable_bytes: vec![8, 9], public_key_hash: vec![3; 20] });
    assert_eq!(
        v.operations(),
        &vec![ValidationOperation::DoubleSha256, ValidationOperation::SignatureVerification(KeyType::EcdsaHash160)]
    );
    assert_eq!(v.stage(), IdentityCreateStage::AwaitingSignatureCheck { asset_lock_value: 50_000 });
    let cmd = v.step(IdentityCreateEvent::SignatureChecked(Ok(())));
    assert_eq!(cmd, IdentityCreateCommand::BuildAction { initial_balance: 50_000_000 });
    assert_eq!(50_000 * CREDITS_PER_DUFF, 50_000_000);
    let action = IdentityCreateTransitionAction { identity_id: id(), initial_balance_amount: 50_000_000 };
    let cmd = v.step(IdentityCreateEvent::ActionBuilt(Ok(action.clone())));
    assert_eq!(
        cmd,
        IdentityCreateCommand::Finish(ValidationResult::new_with_data(StateTransitionAction::IdentityCreateAction(action)))
    );
    assert_eq!(v.stage(), IdentityCreateStage::Finished);
}

#[test]
fn existing_identity_is_refused() {
    let (mut v, _) = IdentityCreateStateValidation::validate_state_v0(id());
    v.step(IdentityCreateEvent::ExecutionContextCreated(Ok(())));
    let cmd = v.step(IdentityCreateEvent::BalanceFetched(Some(0)));
    assert_eq!(
        cmd,
        IdentityCreateCommand::Finish(ValidationResult::new_with_error(ConsensusError::IdentityAlreadyExists {
            identity_id: id()
        }))
    );
    assert_eq!(v.stage(), IdentityCreateStage::Finished);
}

#[test]
fn invalid_asset_lock_proof_stops_validation() {
    let (mut v, _) = IdentityCreateStateValidation::validate_state_v0(id());
    v.step(IdentityCreateEvent::ExecutionContextCreated(Ok(())));
    v.step(IdentityCreateEvent::BalanceFetched(None));
    let cmd = v.step(IdentityCreateEvent::AssetLockProofValidated(ValidationResult::new_with_errors(vec![
        reported(1),
        reported(2),
    ])));
    assert_eq!(cmd, IdentityCreateCommand::Finish(ValidationResult::new_with_errors(vec![reported(1), reported(2)])));
}

#[test]
fn duplicate_key_stops_validation() {
    let (mut v, _) = IdentityCreateStateValidation::validate_state_v0(id());
    v.step(IdentityCreateEvent::ExecutionContextCreated(Ok(())));
    v.step(IdentityCreateEvent::BalanceFetched(None));
    v.step(IdentityCreateEvent::AssetLockProofValidated(ValidationResult::new()));
    let cmd = v.step(IdentityCreateEvent::UniqueKeysValidated(ValidationResult::new_with_error(reported(3))));
    assert_eq!(cmd, IdentityCreateCommand::Finish(ValidationResult::new_with_error(reported(3))));
}

#[test]
fn invalid_output_is_returned() {
    let mut v = through_state_checks();
    let cmd = v.step(IdentityCreateEvent::AssetLockOutputFetched {
        output: ValidationResult::new_with_error(reported(4)),
        minimal_value: Ok(1),
    });
    assert_eq!(cmd, IdentityCreateCommand::Finish(ValidationResult::new_with_error(reported(4))));
}

#[test]
fn valid_output_without_data_fails() {
    let (mut v, _) = IdentityCreateStateValidation::transform_into_action_v0(id());
    let cmd = v.step(IdentityCreateEvent::AssetLockOutputFetched { output: ValidationResult::new(), minimal_value: Ok(1) });
    assert_eq!(
        cmd,
        IdentityCreateCommand::Fail(Error::Protocol(ProtocolError::CorruptedCodeExecution(
            "validation result holds no asset lock output".to_string()
        )))
    );
}

#[test]
fn low_asset_lock_value_is_refused() {
    let (mut v, cmd) = IdentityCreateStateValidation::transform_into_action_v0(id());
    assert_eq!(cmd, IdentityCreateCommand::FetchAssetLockOutput);
    let cmd = v.step(IdentityCreateEvent::AssetLockOutputFetched { output: output(19_999), minimal_value: Ok(20_000) });
    assert_eq!(
        cmd,
        IdentityCreateCommand::Finish(ValidationResult::new_with_error(ConsensusError::InvalidAssetLockProofValue {
            value: 19_999,
            min_value: 20_000
        }))
    );
    assert!(v.operations().is_empty());
}

#[test]
fn exact_minimum_is_accepted() {
    let (mut v, _) = IdentityCreateStateValidation::transform_into_action_v0(id());
    let cmd = v.step(IdentityCreateEvent::AssetLockOutputFetched { output: output(20_000), minimal_value: Ok(20_000) });
    assert_eq!(cmd, IdentityCreateCommand::ComputeSignableBytes);
}

#[test]
fn non_p2pkh_output_fails() {
    let (mut v, _) = IdentityCreateStateValidation::transform_into_action_v0(id());
    let out = ValidationResult::new_with_data(TxOut { value: 30_000, script_pubkey: vec![0x6a, 0x01, 0x02] });
    let cmd = v.step(IdentityCreateEvent::AssetLockOutputFetched { output: out, minimal_value: Ok(1) });
    assert_eq!(cmd, IdentityCreateCommand::ComputeSignableBytes);
    let cmd = v.step(IdentityCreateEvent::SignableBytesComputed(Ok(vec![1])));
    assert_eq!(
        cmd,
        IdentityCreateCommand::Fail(Error::Execution(ExecutionError::CorruptedCodeExecution(
            "output must be a valid p2pkh already".to_string()
        )))
    );
    assert!(v.operations().is_empty());
}

#[test]
fn bad_signature_is_refused() {
    let (mut v, _) = IdentityCreateStateValidation::transform_into_action_v0(id());
    v.step(IdentityCreateEvent::AssetLockOutputFetched { output: output(30_000), minimal_value: Ok(1) });
    v.step(IdentityCreateEvent::SignableBytesComputed(Ok(vec![1])));
    let cmd = v.step(IdentityCreateEvent::SignatureChecked(Err("signature mismatch".to_string())));
    assert_eq!(
        cmd,
        IdentityCreateCommand::Finish(ValidationResult::new_with_error(ConsensusError::BasicEcdsaError {
            message: "signature mismatch".to_string()
        }))
    );
}

#[test]
fn action_error_is_reported() {
    let (mut v, _) = IdentityCreateStateValidation::transform_into_action_v0(id());
    v.step(IdentityCreateEvent::AssetLockOutputFetched { output: output(30_000), minimal_value: Ok(1) });
    v.step(IdentityCreateEvent::SignableBytesComputed(Ok(vec![1])));
    assert_eq!(
        v.step(IdentityCreateEvent::SignatureChecked(Ok(()))),
        IdentityCreateCommand::BuildAction { initial_balance: 30_000_000 }
    );
    let cmd = v.step(IdentityCreateEvent::ActionBuilt(Err(reported(5))));
    assert_eq!(cmd, IdentityCreateCommand::Finish(ValidationResult::new_with_error(reported(5))));
}

#[test]
fn p2pkh_hash_extraction() {
    let script = p2pkh_script([9; 20]);
    assert_eq!(p2pkh_public_key_hash_bytes(&script), Some(vec![9; 20]));
    let mut wrong_op = script.clone();
    wrong_op[24] = 0xad;
    assert_eq!(p2pkh_public_key_hash_bytes(&wrong_op), None);
    assert_eq!(p2pkh_public_key_hash_bytes(&script[..24]), None);
    assert_eq!(p2pkh_public_key_hash_bytes(&[]), None);
}

fn corrupted(text: &str) -> Error {
    Error::Protocol(ProtocolError::CorruptedCodeExecution(text.to_string()))
}

#[test]
fn execution_context_error_stops_validation() {
    let (mut v, _) = IdentityCreateStateValidation::validate_state_v0(id());
    let cmd = v.step(IdentityCreateEvent::ExecutionContextCreated(Err(corrupted("no context"))));
    assert_eq!(cmd, IdentityCreateCommand::Fail(corrupted("no context")));
    assert_eq!(v.stage(), IdentityCreateStage::Finished);
}

#[test]
fn minimal_value_error_stops_transformation() {
    let (mut v, _) = IdentityCreateStateValidation::transform_into_action_v0(id());
    let cmd = v.step(IdentityCreateEvent::AssetLockOutputFetched { output: output(30_000), minimal_value: Err(corrupted("no minimum")) });
    assert_eq!(cmd, IdentityCreateCommand::Fail(corrupted("no minimum")));
}

#[test]
fn signable_bytes_error_comes_before_p2pkh_check() {
    let (mut v, _) = IdentityCreateStateValidation::transform_into_action_v0(id());
    let out = ValidationResult::new_with_data(TxOut { value: 30_000, script_pubkey: vec![0x6a] });
    assert_eq!(
        v.step(IdentityCreateEvent::AssetLockOutputFetched { output: out, minimal_value: Ok(1) }),
        IdentityCreateCommand::ComputeSignableBytes
    );
    let cmd = v.step(IdentityCreateEvent::SignableBytesComputed(Err(corrupted("serialization"))));
    assert_eq!(cmd, IdentityCreateCommand::Fail(corrupted("serialization")));
    assert!(v.operations().is_empty());
}

#[test]
fn failed_signature_with_huge_value_is_reported() {
    let (mut v, _) = IdentityCreateStateValidation::transform_into_action_v0(id());
    v.step(IdentityCreateEvent::AssetLockOutputFetched { output: output(u64::MAX), minimal_value: Ok(1) });
    v.step(IdentityCreateEvent::SignableBytesComputed(Ok(vec![1])));
    let cmd = v.step(IdentityCreateEvent::SignatureChecked(Err("bad".to_string())));
    assert_eq!(
        cmd,
        IdentityCreateCommand::Finish(ValidationResult::new_with_error(ConsensusError::BasicEcdsaError {
            message: "bad".to_string()
        }))
    );
}

#[test]
fn full_validation_continues_as_transformation() {
    let mut full = through_state_checks();
    let (mut alone, first) = IdentityCreateStateValidation::transform_into_action_v0(id());
    assert_eq!(first, IdentityCreateCommand::FetchAssetLockOutput);
    assert_eq!(full.stage(), alone.stage());
    let events = || {
        vec![
            IdentityCreateEvent::AssetLockOutputFetched { output: output(40_000), minimal_value: Ok(1_000) },
            IdentityCreateEvent::SignableBytesComputed(Ok(vec![5, 6, 7])),
            IdentityCreateEvent::SignatureChecked(Ok(())),
            IdentityCreateEvent::ActionBuilt(Ok(IdentityCreateTransitionAction {
                identity_id: id(),
                initial_balance_amount: 40_000_000,
            })),
        ]
    };
    for (e1, e2) in events().into_iter().zip(events()) {
        assert_eq!(full.step(e1), alone.step(e2));
        assert_eq!(full.stage(), alone.stage());
        assert_eq!(full.operations(), alone.operations());
    }
}
