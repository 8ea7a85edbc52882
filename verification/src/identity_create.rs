//! State validation of an identity create transition, and its transformation
//! into an action.
//!
//! The validation alternates between work that happens outside this library
//! (creating the execution context, the identity's balance, the asset lock
//! proof, the public keys, the asset lock's transaction output and the least
//! value it must carry, the transition's signable bytes, the signature, the
//! building of the action) and decisions on their outcomes. The decisions are a state machine: `step`
//! takes the outcome of the last requested lookup and returns the next
//! request, or the finished validation result.

use vstd::prelude::*;
use crate::identifier::Identifier;
use crate::errors::{ConsensusError, Error, ExecutionError, ProtocolError};
use crate::validation::{ConsensusValidationResult, SimpleConsensusValidationResult, ValidationResult};

verus! {

/// Credits granted for each duff of an asset lock.
pub const CREDITS_PER_DUFF: u64 = 1000;

/// The kinds of identity public keys.
#[derive(Clone, Copy, Debug, PartialEq, Eq)]
pub enum KeyType {
    EcdsaSecp256k1,
    Bls12_381,
    EcdsaHash160,
    Bip13ScriptHash,
    Eddsa25519Hash160,
}

/// A costed operation that validation performed.
#[derive(Clone, Copy, Debug, PartialEq, Eq)]
pub enum ValidationOperation {
    /// One double SHA-256 hash.
    DoubleSha256,
    /// One signature verification with a key of this kind.
    SignatureVerification(KeyType),
}

/// A transaction output: its value in duffs and its locking script.
#[derive(Clone, Debug, PartialEq, Eq)]
pub struct TxOut {
    pub value: u64,
    pub script_pubkey: Vec<u8>,
}

/// The action that creates an identity with its initial balance.
#[derive(Clone, Debug, PartialEq, Eq)]
pub struct IdentityCreateTransitionAction {
    pub identity_id: Identifier,
    pub initial_balance_amount: u64,
}

/// An action that a validated state transition performs.
#[derive(Clone, Debug, PartialEq, Eq)]
pub enum StateTransitionAction {
    IdentityCreateAction(IdentityCreateTransitionAction),
}

/// Whether a script is a pay-to-public-key-hash script:
/// `OP_DUP OP_HASH160 <20 bytes> OP_EQUALVERIFY OP_CHECKSIG`.
pub open spec fn is_p2pkh(script: Seq<u8>) -> bool {
    &&& script.len() == 25
    &&& script[0] == 0x76u8
    &&& script[1] == 0xa9u8
    &&& script[2] == 0x14u8
    &&& script[23] == 0x88u8
    &&& script[24] == 0xacu8
}

/// The public key hash of a pay-to-public-key-hash script.
pub open spec fn p2pkh_hash(script: Seq<u8>) -> Option<Seq<u8>> {
    if is_p2pkh(script) {
        Some(script.subrange(3, 23))
    } else {
        None
    }
}

/// The 20-byte public key hash that a pay-to-public-key-hash script pays to,
/// or `None` for any other script.
pub fn p2pkh_public_key_hash_bytes(script: &[u8]) -> (r: Option<Vec<u8>>)
    ensures
        match r {
            Some(h) => p2pkh_hash(script@) == Some(h@),
            None => p2pkh_hash(script@) is None,
        },
        r matches Some(h) ==> h@.len() == 20,
        (r is Some) == (script@.len() == 25 && script@[0] == 0x76u8 && script@[1] == 0xa9u8
            && script@[2] == 0x14u8 && script@[23] == 0x88u8 && script@[24] == 0xacu8),
        r matches Some(h) ==> forall|k: int| 0 <= k < 20 ==> #[trigger] h@[k] == script@[3 + k],
{
    if script.len() == 25 && script[0] == 0x76u8 && script[1] == 0xa9u8 && script[2] == 0x14u8
        && script[23] == 0x88u8 && script[24] == 0xacu8 {
        let mut hash: Vec<u8> = Vec::new();
        let mut i: usize = 3;
        while i < 23
            invariant
                script@.len() == 25,
                3 <= i <= 23,
                hash@ == script@.subrange(3, i as int),
            decreases 23 - i,
        {
            hash.push(script[i]);
            i = i + 1;
            assert(hash@ =~= script@.subrange(3, i as int));
        }
        Some(hash)
    } else {
        None
    }
}

/// A script pays to a public key hash exactly when it has 25 bytes,
/// `OP_DUP OP_HASH160 OP_PUSHBYTES_20` first and `OP_EQUALVERIFY OP_CHECKSIG`
/// last; the hash is then the 20 bytes in between, in order.
pub proof fn lemma_p2pkh_hash_is_pushed_bytes(script: Seq<u8>)
    ensures
        (p2pkh_hash(script) is Some) == (script.len() == 25 && script[0] == 0x76u8 && script[1] == 0xa9u8
            && script[2] == 0x14u8 && script[23] == 0x88u8 && script[24] == 0xacu8),
        p2pkh_hash(script) matches Some(h) ==> h.len() == 20
            && forall|k: int| 0 <= k < 20 ==> #[trigger] h[k] == script[3 + k],
{
}

/// Where a validation stands: which outcome it waits for.
#[derive(Clone, Copy, Debug, PartialEq, Eq)]
pub enum IdentityCreateStage {
    AwaitingExecutionContext,
    AwaitingBalance,
    AwaitingAssetLockProofValidation,
    AwaitingUniqueKeyValidation,
    AwaitingAssetLockOutput,
    AwaitingSignableBytes { asset_lock_value: u64 },
    AwaitingSignatureCheck { asset_lock_value: u64 },
    AwaitingAction,
    Finished,
}

/// The outcome of the lookup that a validation requested.
#[derive(Debug, PartialEq, Eq)]
pub enum IdentityCreateEvent {
    /// The execution context for the platform version was created, or why it could not be.
    ExecutionContextCreated(Result<(), Error>),
    /// The balance of the identity, if the identity exists.
    BalanceFetched(Option<u64>),
    /// The result of validating the asset lock proof against the state.
    AssetLockProofValidated(SimpleConsensusValidationResult),
    /// The result of checking that no public key hash is already in the state.
    UniqueKeysValidated(SimpleConsensusValidationResult),
    /// The asset lock's transaction output, and the least value it must
    /// carry for the platform version (or why that could not be had).
    AssetLockOutputFetched {
        output: ValidationResult<TxOut, ConsensusError>,
        minimal_value: Result<u64, Error>,
    },
    /// The signable bytes of the transition, or why they could not be computed.
    SignableBytesComputed(Result<Vec<u8>, Error>),
    /// Whether the transition's signature verified against the public key
    /// hash, with the verifier's message when it did not.
    SignatureChecked(Result<(), String>),
    /// The action built from the transition and the requested balance, or why it could not be.
    ActionBuilt(Result<IdentityCreateTransitionAction, ConsensusError>),
}

/// What a validation asks for next.
#[derive(Debug, PartialEq, Eq)]
pub enum IdentityCreateCommand {
    /// Create the execution context of the state checks for the platform version.
    CreateExecutionContext,
    /// Fetch the balance of this identity.
    FetchIdentityBalance(Identifier),
    /// Validate the asset lock proof against the state.
    ValidateAssetLockProof,
    /// Check that no public key hash of the transition is already in the state.
    ValidateUniqueKeyHashes,
    /// Fetch the transaction output that the asset lock proof points to.
    FetchAssetLockOutput,
    /// Compute the signable bytes of the transition.
    ComputeSignableBytes,
    /// Verify the transition's signature over the double SHA-256 of these
    /// signable bytes against this public key hash.
    VerifySignature { signable_bytes: Vec<u8>, public_key_hash: Vec<u8> },
    /// Build the identity create action with this initial balance, in credits.
    BuildAction { initial_balance: u64 },
    /// The validation is over, with this result.
    Finish(ConsensusValidationResult<StateTransitionAction>),
    /// Processing stops with this error.
    Fail(Error),
}

/// A check that a validation has passed.
#[derive(Clone, Copy, Debug, PartialEq, Eq)]
pub enum Check {
    IdentityAbsent,
    AssetLockProofValid,
    PublicKeysUnique,
    AssetLockValueSufficient { value: u64, minimal_value: u64 },
    SignatureValid,
}

/// The checks of the state itself, which precede the transformation when the
/// whole state validation runs.
pub open spec fn state_checks(full: bool) -> Seq<Check> {
    if full {
        seq![Check::IdentityAbsent, Check::AssetLockProofValid, Check::PublicKeysUnique]
    } else {
        Seq::empty()
    }
}

/// Every check has passed, in order: the checks of the state when the
/// whole state validation ran, then the asset lock value check (the value
/// reached the minimum), then the signature check.
pub open spec fn all_checks_passed(passed: Seq<Check>, full: bool) -> bool {
    let n = state_checks(full).len();
    &&& passed.len() == n + 2
    &&& passed.subrange(0, n as int) == state_checks(full)
    &&& passed[n as int] matches Check::AssetLockValueSufficient { value, minimal_value }
    &&& minimal_value <= value
    &&& passed[n + 1int] == Check::SignatureValid
}

/// What a validation can see of itself: the stage, the identity, the asset
/// lock's locking script and the costed operations performed.
pub struct IdentityCreateObservation {
    pub stage: IdentityCreateStage,
    pub identity_id: Identifier,
    pub asset_lock_script: Seq<u8>,
    pub operations: Seq<ValidationOperation>,
}

/// What one step does: from what a validation sees `before` and the outcome
/// `event`, what it sees `after` and the command `cmd` it gives. Whether the
/// state checks ran first plays no part.
pub open spec fn step_outcome(
    before: IdentityCreateObservation,
    event: IdentityCreateEvent,
    after: IdentityCreateObservation,
    cmd: IdentityCreateCommand,
) -> bool {
    &&& after.identity_id == before.identity_id
    &&& after.stage is AwaitingSignableBytes || after.asset_lock_script == before.asset_lock_script
    &&& match (before.stage, event) {
                (
                    IdentityCreateStage::AwaitingExecutionContext,
                    IdentityCreateEvent::ExecutionContextCreated(created),
                ) => match created {
                    Err(e) => {
                        &&& after.stage == IdentityCreateStage::Finished
                        &&& cmd == IdentityCreateCommand::Fail(e)
                    },
                    Ok(_) => {
                        &&& after.stage == IdentityCreateStage::AwaitingBalance
                        &&& cmd == IdentityCreateCommand::FetchIdentityBalance(before.identity_id)
                    },
                },
                (IdentityCreateStage::AwaitingBalance, IdentityCreateEvent::BalanceFetched(balance)) =>
                    if balance is Some {
                        &&& after.stage == IdentityCreateStage::Finished
                        &&& finishes_with_errors(cmd, seq![ConsensusError::IdentityAlreadyExists {
                            identity_id: before.identity_id }])
                    } else {
                        &&& after.stage == IdentityCreateStage::AwaitingAssetLockProofValidation
                        &&& cmd == IdentityCreateCommand::ValidateAssetLockProof
                    },
                (
                    IdentityCreateStage::AwaitingAssetLockProofValidation,
                    IdentityCreateEvent::AssetLockProofValidated(result),
                ) => if result.errors@.len() == 0 {
                    &&& after.stage == IdentityCreateStage::AwaitingUniqueKeyValidation
                    &&& cmd == IdentityCreateCommand::ValidateUniqueKeyHashes
                } else {
                    &&& after.stage == IdentityCreateStage::Finished
                    &&& finishes_with_errors(cmd, result.errors@)
                },
                (
                    IdentityCreateStage::AwaitingUniqueKeyValidation,
                    IdentityCreateEvent::UniqueKeysValidated(result),
                ) => if result.errors@.len() == 0 {
                    &&& after.stage == IdentityCreateStage::AwaitingAssetLockOutput
                    &&& cmd == IdentityCreateCommand::FetchAssetLockOutput
                } else {
                    &&& after.stage == IdentityCreateStage::Finished
                    &&& finishes_with_errors(cmd, result.errors@)
                },
                (
                    IdentityCreateStage::AwaitingAssetLockOutput,
                    IdentityCreateEvent::AssetLockOutputFetched { output, minimal_value },
                ) => if output.errors@.len() != 0 {
                    &&& after.stage == IdentityCreateStage::Finished
                    &&& finishes_with_errors(cmd, output.errors@)
                } else {
                    match (output.data, minimal_value) {
                        (None, _) => {
                            &&& after.stage == IdentityCreateStage::Finished
                            &&& fails_in_protocol(cmd, missing_output_text())
                        },
                        (Some(_), Err(e)) => {
                            &&& after.stage == IdentityCreateStage::Finished
                            &&& cmd == IdentityCreateCommand::Fail(e)
                        },
                        (Some(tx_out), Ok(minimal_value)) => if tx_out.value < minimal_value {
                            &&& after.stage == IdentityCreateStage::Finished
                            &&& finishes_with_errors(cmd, seq![ConsensusError::InvalidAssetLockProofValue {
                                value: tx_out.value, min_value: minimal_value }])
                        } else {
                            &&& after.stage == IdentityCreateStage::AwaitingSignableBytes {
                                asset_lock_value: tx_out.value }
                            &&& after.asset_lock_script == tx_out.script_pubkey@
                            &&& cmd == IdentityCreateCommand::ComputeSignableBytes
                        },
                    }
                },
                (
                    IdentityCreateStage::AwaitingSignableBytes { asset_lock_value },
                    IdentityCreateEvent::SignableBytesComputed(computed),
                ) => match computed {
                    Err(e) => {
                        &&& after.stage == IdentityCreateStage::Finished
                        &&& cmd == IdentityCreateCommand::Fail(e)
                    },
                    Ok(signable_bytes) => match p2pkh_hash(before.asset_lock_script) {
                        None => {
                            &&& after.stage == IdentityCreateStage::Finished
                            &&& fails_in_execution(cmd, not_p2pkh_text())
                        },
                        Some(hash) => {
                            &&& after.stage == IdentityCreateStage::AwaitingSignatureCheck {
                                asset_lock_value }
                            &&& cmd is VerifySignature
                            &&& cmd->signable_bytes == signable_bytes
                            &&& cmd->public_key_hash@ == hash
                        },
                    },
                },
                (
                    IdentityCreateStage::AwaitingSignatureCheck { asset_lock_value },
                    IdentityCreateEvent::SignatureChecked(checked),
                ) => match checked {
                    Err(message) => {
                        &&& after.stage == IdentityCreateStage::Finished
                        &&& finishes_with_errors(cmd, seq![ConsensusError::BasicEcdsaError { message }])
                    },
                    Ok(_) => {
                        &&& after.stage == IdentityCreateStage::AwaitingAction
                        &&& cmd == IdentityCreateCommand::BuildAction {
                            initial_balance: (asset_lock_value * CREDITS_PER_DUFF) as u64,
                        }
                    },
                },
                (IdentityCreateStage::AwaitingAction, IdentityCreateEvent::ActionBuilt(built)) => {
                    &&& after.stage == IdentityCreateStage::Finished
                    &&& match built {
                        Ok(action) => cmd matches IdentityCreateCommand::Finish(res) && res.errors@.len() == 0
                            && res.data == Some(StateTransitionAction::IdentityCreateAction(action)),
                        Err(e) => finishes_with_errors(cmd, seq![e]),
                    }
                },
                _ => true,
            }
    &&& after.operations == if cmd is VerifySignature {
                before.operations + seq![
                    ValidationOperation::DoubleSha256,
                    ValidationOperation::SignatureVerification(KeyType::EcdsaHash160),
                ]
            } else {
                before.operations
            }
}

/// Once the signable bytes are in, a validation whose asset lock output pays
/// to a public key hash asks to verify the signature over exactly those bytes
/// against exactly the 20 bytes the script pushes, in order; any other script
/// stops the validation.
pub proof fn lemma_signature_checked_against_script_hash(
    before: IdentityCreateObservation,
    signable_bytes: Vec<u8>,
    after: IdentityCreateObservation,
    cmd: IdentityCreateCommand,
)
    requires
        before.stage is AwaitingSignableBytes,
        step_outcome(before, IdentityCreateEvent::SignableBytesComputed(Ok(signable_bytes)), after, cmd),
    ensures
        ({
            let s = before.asset_lock_script;
            if s.len() == 25 && s[0] == 0x76u8 && s[1] == 0xa9u8 && s[2] == 0x14u8 && s[23] == 0x88u8
                && s[24] == 0xacu8 {
                &&& cmd is VerifySignature
                &&& cmd->signable_bytes == signable_bytes
                &&& cmd->public_key_hash@.len() == 20
                &&& forall|k: int| 0 <= k < 20 ==> #[trigger] cmd->public_key_hash@[k] == s[3 + k]
                &&& after.stage == (IdentityCreateStage::AwaitingSignatureCheck {
                    asset_lock_value: before.stage->AwaitingSignableBytes_asset_lock_value,
                })
            } else {
                &&& cmd is Fail
                &&& after.stage == IdentityCreateStage::Finished
            }
        }),
{
    lemma_p2pkh_hash_is_pushed_bytes(before.asset_lock_script);
}

/// Whether an error is another one, up to the copy of its message.
pub open spec fn same_error(e1: Error, e2: Error) -> bool {
    match (e1, e2) {
        (
            Error::Protocol(ProtocolError::CorruptedCodeExecution(m1)),
            Error::Protocol(ProtocolError::CorruptedCodeExecution(m2)),
        ) => m1@ == m2@,
        (
            Error::Execution(ExecutionError::CorruptedCodeExecution(m1)),
            Error::Execution(ExecutionError::CorruptedCodeExecution(m2)),
        ) => m1@ == m2@,
        _ => e1 == e2,
    }
}

/// Whether a command is another one, up to copies of the bytes and texts it carries.
pub open spec fn same_command(c1: IdentityCreateCommand, c2: IdentityCreateCommand) -> bool {
    match (c1, c2) {
        (
            IdentityCreateCommand::VerifySignature { signable_bytes: s1, public_key_hash: h1 },
            IdentityCreateCommand::VerifySignature { signable_bytes: s2, public_key_hash: h2 },
        ) => s1 == s2 && h1@ == h2@,
        (IdentityCreateCommand::Finish(r1), IdentityCreateCommand::Finish(r2)) => r1.errors@ == r2.errors@
            && r1.data == r2.data,
        (IdentityCreateCommand::Fail(e1), IdentityCreateCommand::Fail(e2)) => same_error(e1, e2),
        _ => c1 == c2,
    }
}

/// A step is determined by what the validation sees and the outcome it gets:
/// two steps from the same observation with the same outcome end in the same
/// observation and give the same command.
pub proof fn lemma_step_outcome_is_determined(
    before: IdentityCreateObservation,
    event: IdentityCreateEvent,
    after1: IdentityCreateObservation,
    cmd1: IdentityCreateCommand,
    after2: IdentityCreateObservation,
    cmd2: IdentityCreateCommand,
)
    requires
        answers(before.stage, event),
        step_outcome(before, event, after1, cmd1),
        step_outcome(before, event, after2, cmd2),
    ensures
        after1 == after2,
        same_command(cmd1, cmd2),
{
    if cmd1 is Finish && cmd2 is Finish {
        assert(cmd1->Finish_0.errors@.len() == 0 ==> cmd2->Finish_0.errors@.len() == 0 ==> cmd1->Finish_0.errors@
            =~= cmd2->Finish_0.errors@);
    }
}

/// The validation of one identity create transition.
pub struct IdentityCreateStateValidation {
    identity_id: Identifier,
    full: bool,
    stage: IdentityCreateStage,
    asset_lock_script: Vec<u8>,
    operations: Vec<ValidationOperation>,
    passed: Ghost<Seq<Check>>,
}

/// The result of a command that finishes with these errors and no data.
pub open spec fn finishes_with_errors(cmd: IdentityCreateCommand, errors: Seq<ConsensusError>) -> bool {
    match cmd {
        IdentityCreateCommand::Finish(res) => res.data is None && res.errors@ == errors,
        _ => false,
    }
}

/// A command that stops processing with a corrupted-code error of the execution.
pub open spec fn fails_in_execution(cmd: IdentityCreateCommand, text: Seq<char>) -> bool {
    match cmd {
        IdentityCreateCommand::Fail(Error::Execution(ExecutionError::CorruptedCodeExecution(m))) => m@
            == text,
        _ => false,
    }
}

/// A command that stops processing with a corrupted-code error of the data model.
pub open spec fn fails_in_protocol(cmd: IdentityCreateCommand, text: Seq<char>) -> bool {
    match cmd {
        IdentityCreateCommand::Fail(Error::Protocol(ProtocolError::CorruptedCodeExecution(m))) => m@
            == text,
        _ => false,
    }
}

/// The message of the error raised when a valid output lookup carries no output.
pub open spec fn missing_output_text() -> Seq<char> {
    "validation result holds no asset lock output"@
}

/// The message of the error raised when the asset lock output does not pay to a public key hash.
pub open spec fn not_p2pkh_text() -> Seq<char> {
    "output must be a valid p2pkh already"@
}

/// Whether the event reports a verified signature.
pub open spec fn signature_verified(event: IdentityCreateEvent) -> bool {
    match event {
        IdentityCreateEvent::SignatureChecked(Ok(_)) => true,
        _ => false,
    }
}

/// Whether an event is the outcome that a stage waits for.
pub open spec fn answers(stage: IdentityCreateStage, event: IdentityCreateEvent) -> bool {
    match (stage, event) {
        (IdentityCreateStage::AwaitingExecutionContext, IdentityCreateEvent::ExecutionContextCreated(_)) => true,
        (IdentityCreateStage::AwaitingBalance, IdentityCreateEvent::BalanceFetched(_)) => true,
        (
            IdentityCreateStage::AwaitingAssetLockProofValidation,
            IdentityCreateEvent::AssetLockProofValidated(_),
        ) => true,
        (IdentityCreateStage::AwaitingUniqueKeyValidation, IdentityCreateEvent::UniqueKeysValidated(_)) => true,
        (
            IdentityCreateStage::AwaitingAssetLockOutput,
            IdentityCreateEvent::AssetLockOutputFetched { .. },
        ) => true,
        (
            IdentityCreateStage::AwaitingSignableBytes { .. },
            IdentityCreateEvent::SignableBytesComputed(_),
        ) => true,
        (IdentityCreateStage::AwaitingSignatureCheck { .. }, IdentityCreateEvent::SignatureChecked(_)) => true,
        (IdentityCreateStage::AwaitingAction, IdentityCreateEvent::ActionBuilt(_)) => true,
        _ => false,
    }
}

impl IdentityCreateStateValidation {
    /// What the validation sees of itself.
    pub closed spec fn observation(&self) -> IdentityCreateObservation {
        IdentityCreateObservation {
            stage: self.stage,
            identity_id: self.identity_id,
            asset_lock_script: self.asset_lock_script@,
            operations: self.operations@,
        }
    }

    /// The identity the transition creates.
    pub open spec fn spec_identity_id(&self) -> Identifier {
        self.observation().identity_id
    }

    /// Whether the validation started with the checks of the state.
    pub closed spec fn spec_full(&self) -> bool {
        self.full
    }

    /// The stage of the validation.
    pub open spec fn spec_stage(&self) -> IdentityCreateStage {
        self.observation().stage
    }

    /// The locking script of the asset lock output, once it has been fetched.
    pub open spec fn spec_asset_lock_script(&self) -> Seq<u8> {
        self.observation().asset_lock_script
    }

    /// The costed operations performed so far, in order.
    pub open spec fn spec_operations(&self) -> Seq<ValidationOperation> {
        self.observation().operations
    }

    /// The checks passed so far, in order.
    pub closed spec fn spec_passed(&self) -> Seq<Check> {
        self.passed@
    }

    /// The stage agrees with the checks passed so far.
    pub closed spec fn wf(&self) -> bool {
        let prefix = state_checks(self.full);
        &&& match self.stage {
            IdentityCreateStage::AwaitingExecutionContext
            | IdentityCreateStage::AwaitingBalance
            | IdentityCreateStage::AwaitingAssetLockProofValidation
            | IdentityCreateStage::AwaitingUniqueKeyValidation
            | IdentityCreateStage::AwaitingAssetLockOutput => self.asset_lock_script@ == Seq::<u8>::empty()
                && self.operations@ == Seq::<ValidationOperation>::empty(),
            IdentityCreateStage::AwaitingSignableBytes { .. } => self.operations@ == Seq::<ValidationOperation>::empty(),
            _ => true,
        }
        &&& match self.stage {
            IdentityCreateStage::AwaitingExecutionContext => self.full && self.passed@ == Seq::<Check>::empty(),
            IdentityCreateStage::AwaitingBalance => self.full && self.passed@ == Seq::<Check>::empty(),
            IdentityCreateStage::AwaitingAssetLockProofValidation => self.full && self.passed@ == seq![
                Check::IdentityAbsent,
            ],
            IdentityCreateStage::AwaitingUniqueKeyValidation => self.full && self.passed@ == seq![
                Check::IdentityAbsent,
                Check::AssetLockProofValid,
            ],
            IdentityCreateStage::AwaitingAssetLockOutput => self.passed@ == prefix,
            IdentityCreateStage::AwaitingSignableBytes { asset_lock_value } => {
                &&& self.passed@.len() == prefix.len() + 1
                &&& self.passed@.subrange(0, prefix.len() as int) == prefix
                &&& self.passed@.last() matches Check::AssetLockValueSufficient { value, minimal_value }
                &&& value == asset_lock_value
                &&& minimal_value <= value
            },
            IdentityCreateStage::AwaitingSignatureCheck { asset_lock_value } => {
                &&& self.passed@.len() == prefix.len() + 1
                &&& self.passed@.subrange(0, prefix.len() as int) == prefix
                &&& self.passed@.last() matches Check::AssetLockValueSufficient { value, minimal_value }
                &&& value == asset_lock_value
                &&& minimal_value <= value
            },
            IdentityCreateStage::AwaitingAction => all_checks_passed(self.passed@, self.full),
            IdentityCreateStage::Finished => true,
        }
    }

    /// Once the state checks have passed, the full validation stands where
    /// the transformation alone starts: waiting for the asset lock output,
    /// for the same identity, with no locking script and no operations yet.
    /// Since a step depends only on what the validation sees
    /// (`lemma_step_outcome_is_determined`), the full validation then
    /// continues exactly as the transformation does, command by command and
    /// operation by operation.
    pub proof fn lemma_state_checks_then_transformation(
        full: IdentityCreateStateValidation,
        alone: IdentityCreateStateValidation,
    )
        requires
            full.wf(),
            alone.wf(),
            full.spec_stage() == IdentityCreateStage::AwaitingAssetLockOutput,
            alone.spec_stage() == IdentityCreateStage::AwaitingAssetLockOutput,
            full.spec_identity_id() == alone.spec_identity_id(),
        ensures
            full.observation() == alone.observation(),
            full.spec_full() ==> full.spec_passed() == seq![
                Check::IdentityAbsent,
                Check::AssetLockProofValid,
                Check::PublicKeysUnique,
            ],
            forall|event: IdentityCreateEvent, after1: IdentityCreateObservation, cmd1: IdentityCreateCommand,
                after2: IdentityCreateObservation, cmd2: IdentityCreateCommand|
                answers(full.spec_stage(), event) && #[trigger] step_outcome(full.observation(), event, after1, cmd1)
                    && #[trigger] step_outcome(alone.observation(), event, after2, cmd2) ==> after1 == after2
                    && same_command(cmd1, cmd2),
    {
        assert forall|event: IdentityCreateEvent, after1: IdentityCreateObservation, cmd1: IdentityCreateCommand,
            after2: IdentityCreateObservation, cmd2: IdentityCreateCommand|
            answers(full.spec_stage(), event) && #[trigger] step_outcome(full.observation(), event, after1, cmd1)
                && #[trigger] step_outcome(alone.observation(), event, after2, cmd2) implies after1 == after2
                && same_command(cmd1, cmd2) by {
            lemma_step_outcome_is_determined(full.observation(), event, after1, cmd1, after2, cmd2);
        }
    }

    /// The validation of the whole state: it first creates its execution
    /// context, then the identity must not exist yet.
    pub fn validate_state_v0(identity_id: Identifier) -> (r: (IdentityCreateStateValidation, IdentityCreateCommand))
        ensures
            r.0.wf(),
            r.0.spec_identity_id() == identity_id,
            r.0.spec_full(),
            r.0.spec_stage() == IdentityCreateStage::AwaitingExecutionContext,
            r.0.spec_operations() == Seq::<ValidationOperation>::empty(),
            r.0.spec_passed() == Seq::<Check>::empty(),
            r.1 == IdentityCreateCommand::CreateExecutionContext,
    {
        let v = IdentityCreateStateValidation {
            identity_id,
            full: true,
            stage: IdentityCreateStage::AwaitingExecutionContext,
            asset_lock_script: Vec::new(),
            operations: Vec::new(),
            passed: Ghost(Seq::empty()),
        };
        (v, IdentityCreateCommand::CreateExecutionContext)
    }

    /// The transformation into an action alone: it starts from the asset lock output.
    pub fn transform_into_action_v0(identity_id: Identifier) -> (r: (IdentityCreateStateValidation, IdentityCreateCommand))
        ensures
            r.0.wf(),
            r.0.spec_identity_id() == identity_id,
            !r.0.spec_full(),
            r.0.spec_stage() == IdentityCreateStage::AwaitingAssetLockOutput,
            r.0.spec_operations() == Seq::<ValidationOperation>::empty(),
            r.0.spec_passed() == Seq::<Check>::empty(),
            r.1 == IdentityCreateCommand::FetchAssetLockOutput,
    {
        let v = IdentityCreateStateValidation {
            identity_id,
            full: false,
            stage: IdentityCreateStage::AwaitingAssetLockOutput,
            asset_lock_script: Vec::new(),
            operations: Vec::new(),
            passed: Ghost(Seq::empty()),
        };
        (v, IdentityCreateCommand::FetchAssetLockOutput)
    }

    /// The identity the transition creates.
    pub fn identity_id(&self) -> (r: Identifier)
        ensures
            r == self.spec_identity_id(),
    {
        self.identity_id
    }

    /// The stage of the validation.
    pub fn stage(&self) -> (r: IdentityCreateStage)
        ensures
            r == self.spec_stage(),
    {
        self.stage
    }

    /// The costed operations performed so far, in order.
    pub fn operations(&self) -> (r: &Vec<ValidationOperation>)
        ensures
            r@ == self.spec_operations(),
    {
        &self.operations
    }

    /// Takes the outcome of the requested lookup and decides what comes next.
    pub fn step(&mut self, event: IdentityCreateEvent) -> (cmd: IdentityCreateCommand)
        requires
            old(self).wf(),
            answers(old(self).spec_stage(), event),
            old(self).spec_stage() matches IdentityCreateStage::AwaitingSignatureCheck { asset_lock_value }
                ==> (signature_verified(event) ==> asset_lock_value * CREDITS_PER_DUFF <= u64::MAX),
        ensures
            final(self).wf(),
            final(self).spec_identity_id() == old(self).spec_identity_id(),
            final(self).spec_full() == old(self).spec_full(),
            step_outcome(old(self).observation(), event, final(self).observation(), cmd),
            cmd matches IdentityCreateCommand::Finish(res) ==> (res.data is Some <==> res.errors@.len() == 0),
            cmd matches IdentityCreateCommand::Finish(res) ==> (res.data is Some ==> all_checks_passed(
                final(self).spec_passed(),
                final(self).spec_full(),
            )),
    {
        match event {
            IdentityCreateEvent::ExecutionContextCreated(created) => {
                match created {
                    Err(e) => {
                        self.stage = IdentityCreateStage::Finished;
                        IdentityCreateCommand::Fail(e)
                    },
                    Ok(()) => {
                        self.stage = IdentityCreateStage::AwaitingBalance;
                        IdentityCreateCommand::FetchIdentityBalance(self.identity_id)
                    },
                }
            },
            IdentityCreateEvent::BalanceFetched(balance) => {
                if balance.is_some() {
                    self.stage = IdentityCreateStage::Finished;
                    return IdentityCreateCommand::Finish(ValidationResult::new_with_error(
                        ConsensusError::IdentityAlreadyExists { identity_id: self.identity_id },
                    ));
                }
                self.stage = IdentityCreateStage::AwaitingAssetLockProofValidation;
                self.passed = Ghost(self.passed@.push(Check::IdentityAbsent));
                assert(self.passed@ =~= seq![Check::IdentityAbsent]);
                IdentityCreateCommand::ValidateAssetLockProof
            },
            IdentityCreateEvent::AssetLockProofValidated(result) => {
                let mut validation_result: ConsensusValidationResult<StateTransitionAction> =
                    ValidationResult::new();
                validation_result.merge(result);
                if !validation_result.is_valid() {
                    self.stage = IdentityCreateStage::Finished;
                    return IdentityCreateCommand::Finish(validation_result);
                }
                self.stage = IdentityCreateStage::AwaitingUniqueKeyValidation;
                self.passed = Ghost(self.passed@.push(Check::AssetLockProofValid));
                assert(self.passed@ =~= seq![Check::IdentityAbsent, Check::AssetLockProofValid]);
                IdentityCreateCommand::ValidateUniqueKeyHashes
            },
            IdentityCreateEvent::UniqueKeysValidated(result) => {
                let mut validation_result: ConsensusValidationResult<StateTransitionAction> =
                    ValidationResult::new();
                validation_result.add_errors(result.errors);
                if !validation_result.is_valid() {
                    self.stage = IdentityCreateStage::Finished;
                    return IdentityCreateCommand::Finish(validation_result);
                }
                self.stage = IdentityCreateStage::AwaitingAssetLockOutput;
                self.passed = Ghost(self.passed@.push(Check::PublicKeysUnique));
                assert(self.passed@ =~= state_checks(true));
                IdentityCreateCommand::FetchAssetLockOutput
            },
            IdentityCreateEvent::AssetLockOutputFetched { output, minimal_value } => {
                if !output.is_valid() {
                    self.stage = IdentityCreateStage::Finished;
                    return IdentityCreateCommand::Finish(ValidationResult::new_with_errors(output.errors));
                }
                let tx_out = match output.data {
                    Some(tx_out) => tx_out,
                    None => {
                        self.stage = IdentityCreateStage::Finished;
                        return IdentityCreateCommand::Fail(Error::Protocol(
                            ProtocolError::CorruptedCodeExecution(
                                "validation result holds no asset lock output".to_string(),
                            ),
                        ));
                    },
                };
                let minimal_value = match minimal_value {
                    Ok(minimal_value) => minimal_value,
                    Err(e) => {
                        self.stage = IdentityCreateStage::Finished;
                        return IdentityCreateCommand::Fail(e);
                    },
                };
                if tx_out.value < minimal_value {
                    self.stage = IdentityCreateStage::Finished;
                    return IdentityCreateCommand::Finish(ValidationResult::new_with_error(
                        ConsensusError::InvalidAssetLockProofValue {
                            value: tx_out.value,
                            min_value: minimal_value,
                        },
                    ));
                }
                self.stage = IdentityCreateStage::AwaitingSignableBytes { asset_lock_value: tx_out.value };
                self.asset_lock_script = tx_out.script_pubkey;
                self.passed = Ghost(self.passed@.push(
                    Check::AssetLockValueSufficient { value: tx_out.value, minimal_value },
                ));
                assert(self.passed@.subrange(0, state_checks(self.full).len() as int)
                    =~= state_checks(self.full));
                IdentityCreateCommand::ComputeSignableBytes
            },
            IdentityCreateEvent::SignableBytesComputed(computed) => {
                let signable_bytes = match computed {
                    Ok(signable_bytes) => signable_bytes,
                    Err(e) => {
                        self.stage = IdentityCreateStage::Finished;
                        return IdentityCreateCommand::Fail(e);
                    },
                };
                let asset_lock_value = match self.stage {
                    IdentityCreateStage::AwaitingSignableBytes { asset_lock_value } => asset_lock_value,
                    _ => 0,
                };
                match p2pkh_public_key_hash_bytes(self.asset_lock_script.as_slice()) {
                    None => {
                        self.stage = IdentityCreateStage::Finished;
                        IdentityCreateCommand::Fail(Error::Execution(
                            ExecutionError::CorruptedCodeExecution(
                                "output must be a valid p2pkh already".to_string(),
                            ),
                        ))
                    },
                    Some(public_key_hash) => {
                        let ghost old_operations = self.operations@;
                        self.operations.push(ValidationOperation::DoubleSha256);
                        self.operations.push(
                            ValidationOperation::SignatureVerification(KeyType::EcdsaHash160),
                        );
                        assert(self.operations@ =~= old_operations + seq![
                            ValidationOperation::DoubleSha256,
                            ValidationOperation::SignatureVerification(KeyType::EcdsaHash160),
                        ]);
                        self.stage = IdentityCreateStage::AwaitingSignatureCheck { asset_lock_value };
                        IdentityCreateCommand::VerifySignature { signable_bytes, public_key_hash }
                    },
                }
            },
            IdentityCreateEvent::SignatureChecked(checked) => {
                let asset_lock_value = match self.stage {
                    IdentityCreateStage::AwaitingSignatureCheck { asset_lock_value } => asset_lock_value,
                    _ => 0,
                };
                match checked {
                    Err(message) => {
                        self.stage = IdentityCreateStage::Finished;
                        IdentityCreateCommand::Finish(ValidationResult::new_with_error(
                            ConsensusError::BasicEcdsaError { message },
                        ))
                    },
                    Ok(()) => {
                        let ghost before = self.passed@;
                        self.stage = IdentityCreateStage::AwaitingAction;
                        self.passed = Ghost(self.passed@.push(Check::SignatureValid));
                        assert(self.passed@.subrange(0, state_checks(self.full).len() as int)
                            =~= before.subrange(0, state_checks(self.full).len() as int));
                        IdentityCreateCommand::BuildAction {
                            initial_balance: asset_lock_value * CREDITS_PER_DUFF,
                        }
                    },
                }
            },
            IdentityCreateEvent::ActionBuilt(built) => {
                let mut validation_result: ConsensusValidationResult<StateTransitionAction> =
                    ValidationResult::new();
                match built {
                    Ok(action) => {
                        validation_result.set_data(StateTransitionAction::IdentityCreateAction(action));
                    },
                    Err(error) => {
                        validation_result.add_error(error);
                    },
                }
                self.stage = IdentityCreateStage::Finished;
                IdentityCreateCommand::Finish(validation_result)
            },
        }
    }
}


} // verus!
