//! The pipeline from a transfer request to a result that can be handed
//! out: build the machine's input, have the machine run and prove, have the
//! proof checked, and package.
//!
//! Running the machine, proving and checking the proof happen outside this
//! library. The pipeline says what is to be done next, is told how it went,
//! and decides what follows; it never hands out a result that is only
//! partly made.

use crate::bfv::{ciphertext_from_bytes, ciphertext_to_bytes, ciphertext_wire, parsed_ciphertext};
use crate::codec::{loaded_key, padded, sealed, Ciphertext, CiphertextModel, PlaintextModel};
use crate::error::TransferError;
use crate::journal::{committed_bytes, payload};
use crate::params::{ParameterModel, SchemeParameters};
use crate::receipt::{
    accepted, development_outcome, production_outcome, Receipt, ReceiptMetadata, RunMode,
};
use crate::transfer::{MachineInput, MachineInputModel, TransferResult};
use vstd::prelude::*;

verus! {

/// What a [`TransferRequest`] stands for.
pub struct TransferRequestModel {
    /// The sender's public key.
    pub sender_public_key: Seq<u8>,
    /// The sender's balance, encrypted under the sender's key.
    pub sender_balance: CiphertextModel,
    /// The receiver's public key.
    pub receiver_public_key: Seq<u8>,
    /// The receiver's balance, encrypted under the receiver's key.
    pub receiver_balance: CiphertextModel,
    /// The amount to move, in the clear.
    pub amount: u64,
}

/// One transfer, as a caller asks for it. Each balance carries the
/// parameters of the ring it was made under.
#[derive(Clone, Debug, PartialEq, Eq)]
pub struct TransferRequest {
    /// The sender's public key.
    pub sender_public_key: Vec<u8>,
    /// The sender's balance, encrypted under the sender's key.
    pub sender_balance: Ciphertext,
    /// The receiver's public key.
    pub receiver_public_key: Vec<u8>,
    /// The receiver's balance, encrypted under the receiver's key.
    pub receiver_balance: Ciphertext,
    /// The amount to move, in the clear.
    pub amount: u64,
}

impl View for TransferRequest {
    type V = TransferRequestModel;

    open spec fn view(&self) -> TransferRequestModel {
        TransferRequestModel {
            sender_public_key: self.sender_public_key@,
            sender_balance: self.sender_balance@,
            receiver_public_key: self.receiver_public_key@,
            receiver_balance: self.receiver_balance@,
            amount: self.amount,
        }
    }
}

/// What a deployment fixes once, at its start.
#[derive(Clone, Copy, Debug, PartialEq, Eq)]
pub struct PipelineConfig {
    /// Which result is handed out.
    pub mode: RunMode,
    /// The identifier of the program that the machine must have run.
    pub image_id: [u32; 8],
}

/// Where a pipeline stands.
#[derive(Clone, Debug, PartialEq, Eq)]
pub enum Stage {
    /// The machine's input is ready.
    Built {
        /// The bytes the machine is to be started on.
        input: Vec<u8>,
    },
    /// The machine is running, or its run is being proven.
    Executing,
    /// The run is proven; the proof has not been checked.
    Proven {
        /// What the run left behind.
        receipt: Receipt,
    },
    /// The proof has been checked; the description of the run is awaited.
    Verified {
        /// What the run left behind.
        receipt: Receipt,
    },
    /// Done: the new balances, for a development deployment.
    DevOutput(TransferResult),
    /// Done: the proof bundle, for a production deployment.
    ProdArtifact(Vec<u8>),
    /// Done: no result, and why.
    Failed(TransferError),
}

/// What the pipeline is told.
#[derive(Clone, Debug, PartialEq, Eq)]
pub enum Event {
    /// Go on from the input that was built.
    Start,
    /// The machine faulted.
    ExecutionFailed,
    /// The machine ran, but no proof came of it.
    ProofFailed,
    /// The machine ran and this is its receipt.
    Proved(Receipt),
    /// The proof matches the program.
    VerificationPassed,
    /// The proof was rejected.
    VerificationFailed,
    /// The description of the run, read from the last segment of the proof
    /// of the receipt at hand. That it was read from there is the word of
    /// whoever tells.
    MetadataExtracted(ReceiptMetadata),
    /// The proof carries no readable description.
    MetadataUnavailable,
}

/// What the pipeline asks for next.
#[derive(Clone, Debug, PartialEq, Eq)]
pub enum Action {
    /// Start the machine on these bytes and prove the run.
    Prove(Vec<u8>),
    /// Check the proof of the receipt against this program.
    Verify([u32; 8]),
    /// Read the description of the run from the last segment of the proof.
    ExtractMetadata,
    /// Nothing: the pipeline is done.
    Stop,
}

impl Stage {
    /// Whether the pipeline is done.
    pub open spec fn is_final(self) -> bool {
        self is DevOutput || self is ProdArtifact || self is Failed
    }

    /// Whether the pipeline is done.
    pub fn finished(&self) -> (done: bool)
        ensures
            done == self.is_final(),
    {
        match self {
            Stage::DevOutput(_) => true,
            Stage::ProdArtifact(_) => true,
            Stage::Failed(_) => true,
            _ => false,
        }
    }
}

/// The wire form that a balance is sent to the machine in: what the scheme
/// writes for the ciphertext that it read.
pub open spec fn canonical_balance(bytes: Seq<u8>, ring: fhe::bfv::BfvParameters) -> Result<
    Seq<u8>,
    TransferError,
> {
    match parsed_ciphertext(bytes, ring) {
        Err(_) => Err(TransferError::DeserializationError),
        Ok(c) => Ok(ciphertext_wire(c)),
    }
}

/// The error that building the machine's input is refused with, if it is.
/// A balance that is tagged with other parameters than those of the ring
/// gives `ParameterMismatchError`, before anything is read. After that it
/// is the error of the first of the two keys, the two balances and the
/// amount that does not pass. Nothing else is refused.
pub open spec fn build_refused(
    request: TransferRequestModel,
    parameters: ParameterModel,
    ring: fhe::bfv::BfvParameters,
) -> Option<TransferError> {
    if request.sender_balance.parameters != parameters || request.receiver_balance.parameters
        != parameters {
        Some(TransferError::ParameterMismatchError)
    } else {
        match loaded_key(request.sender_public_key, ring) {
            Err(e) => Some(e),
            Ok(_) => match loaded_key(request.receiver_public_key, ring) {
                Err(e) => Some(e),
                Ok(_) => match canonical_balance(request.sender_balance.bytes, ring) {
                    Err(e) => Some(e),
                    Ok(_) => match canonical_balance(request.receiver_balance.bytes, ring) {
                        Err(e) => Some(e),
                        Ok(_) => match PlaintextModel::encode(seq![request.amount], parameters) {
                            Err(e) => Some(e),
                            Ok(_) => None,
                        },
                    },
                },
            },
        }
    }
}

/// Whether `input` is a machine input for `request` in the ring `ring`
/// with the parameters `parameters`: both balances are tagged with these
/// parameters and stand in the input as the scheme writes them; the
/// sender's amount is an encryption of the amount, encoded alone, under the
/// sender's key, and the receiver's amount one of the same plaintext under
/// the receiver's key.
pub open spec fn built_for(
    input: MachineInputModel,
    request: TransferRequestModel,
    parameters: ParameterModel,
    ring: fhe::bfv::BfvParameters,
) -> bool {
    &&& request.sender_balance.parameters == parameters
    &&& request.receiver_balance.parameters == parameters
    &&& canonical_balance(request.sender_balance.bytes, ring) == Ok::<Seq<u8>, TransferError>(
        input.sender_balance,
    )
    &&& canonical_balance(request.receiver_balance.bytes, ring) == Ok::<Seq<u8>, TransferError>(
        input.receiver_balance,
    )
    &&& sealed(
        input.sender_amount,
        request.sender_public_key,
        padded(seq![request.amount], parameters.degree as nat),
        ring,
    )
    &&& sealed(
        input.receiver_amount,
        request.receiver_public_key,
        padded(seq![request.amount], parameters.degree as nat),
        ring,
    )
}

/// Balances of two rings never enter one transfer: a request in which a
/// balance is tagged with other parameters than those of the ring that is
/// asked to build the machine's input is refused with
/// `ParameterMismatchError`, whatever else it holds.
pub proof fn lemma_pipeline_isolates_rings(
    request: TransferRequestModel,
    parameters: ParameterModel,
    ring: fhe::bfv::BfvParameters,
)
    requires
        request.sender_balance.parameters != parameters || request.receiver_balance.parameters
            != parameters,
    ensures
        build_refused(request, parameters, ring) == Some(TransferError::ParameterMismatchError),
{
}

/// What the pipeline does when it is told `event` at `before`: the stage
/// `after` it moves to and the `action` it asks for.
pub open spec fn step_spec(
    before: Stage,
    event: Event,
    config: PipelineConfig,
    after: Stage,
    action: Action,
) -> bool {
    match (before, event) {
        (Stage::Built { input }, Event::Start) => {
            &&& after is Executing
            &&& action matches Action::Prove(bytes)
            &&& bytes@ == input@
        },
        (Stage::Executing, Event::ExecutionFailed) => {
            &&& after == Stage::Failed(TransferError::ExecutionFailure)
            &&& action is Stop
        },
        (Stage::Executing, Event::ProofFailed) => {
            &&& after == Stage::Failed(TransferError::ProofGenerationFailure)
            &&& action is Stop
        },
        (Stage::Executing, Event::Proved(receipt)) => {
            if committed_bytes(receipt.journal@) is None {
                &&& after == Stage::Failed(TransferError::ExecutionFailure)
                &&& action is Stop
            } else if receipt.evidence is Fake {
                &&& action is Stop
                &&& if accepted(receipt, config.mode, false) {
                    delivers_balances(receipt, after)
                } else {
                    after == Stage::Failed(TransferError::VerificationFailure)
                }
            } else {
                &&& after == (Stage::Proven { receipt })
                &&& action == Action::Verify(config.image_id)
            }
        },
        (Stage::Proven { receipt }, Event::VerificationFailed) => {
            &&& after == Stage::Failed(TransferError::VerificationFailure)
            &&& action is Stop
        },
        (Stage::Proven { receipt }, Event::VerificationPassed) => {
            if !accepted(receipt, config.mode, true) {
                &&& action is Stop
                &&& after == Stage::Failed(TransferError::VerificationFailure)
            } else {
                match config.mode {
                    RunMode::Development => {
                        &&& action is Stop
                        &&& delivers_balances(receipt, after)
                    },
                    RunMode::Production => {
                        &&& after == (Stage::Verified { receipt })
                        &&& action is ExtractMetadata
                    },
                }
            }
        },
        (Stage::Verified { receipt }, Event::MetadataExtracted(metadata)) => {
            &&& action is Stop
            &&& delivers_bundle(receipt, Some(metadata), config.image_id, after)
        },
        (Stage::Verified { receipt }, Event::MetadataUnavailable) => {
            &&& action is Stop
            &&& after == Stage::Failed(TransferError::MetadataExtractionFailure)
        },
        _ => {
            &&& action is Stop
            &&& if before.is_final() {
                after == before
            } else {
                after == Stage::Failed(TransferError::ExecutionFailure)
            }
        },
    }
}

/// `after` is the end of a development run on `receipt`: the balances read
/// from its output log, or the failure to read them.
pub open spec fn delivers_balances(receipt: Receipt, after: Stage) -> bool {
    match development_outcome(receipt.journal@) {
        Ok(expected) => after matches Stage::DevOutput(result) && result@ == expected,
        Err(e) => after == Stage::Failed(e),
    }
}

/// `after` is the end of a production run on `receipt`: the proof bundle,
/// or the failure to make it.
pub open spec fn delivers_bundle(
    receipt: Receipt,
    metadata: Option<ReceiptMetadata>,
    image_id: [u32; 8],
    after: Stage,
) -> bool {
    match production_outcome(receipt, metadata, image_id) {
        Ok(expected) => after matches Stage::ProdArtifact(bytes) && bytes@ == expected,
        Err(e) => after == Stage::Failed(e),
    }
}

/// A step never hands out anything unless the proof was accepted: balances
/// and bundles only come after `VerificationPassed`, after the description
/// that follows it, or, in development only, for a stand-in proof.
pub proof fn lemma_results_need_acceptance(
    before: Stage,
    event: Event,
    config: PipelineConfig,
    after: Stage,
    action: Action,
)
    requires
        step_spec(before, event, config, after, action),
        !before.is_final(),
        after is DevOutput || after is ProdArtifact,
    ensures
        ({
            ||| before is Proven && event is VerificationPassed && config.mode
                == RunMode::Development
            ||| before is Verified && event is MetadataExtracted
            ||| before is Executing && config.mode == RunMode::Development && event is Proved
                && event->Proved_0.evidence is Fake
        }),
{
}

/// A rejected proof ends the pipeline without a result, whatever the mode.
pub proof fn lemma_rejection_is_final(
    before: Stage,
    config: PipelineConfig,
    after: Stage,
    action: Action,
)
    requires
        step_spec(before, Event::VerificationFailed, config, after, action),
        !before.is_final(),
    ensures
        after is Failed,
        action is Stop,
{
}

/// Once the pipeline is done it stays where it is.
pub proof fn lemma_final_stage_stays(
    before: Stage,
    event: Event,
    config: PipelineConfig,
    after: Stage,
    action: Action,
)
    requires
        step_spec(before, event, config, after, action),
        before.is_final(),
    ensures
        after == before,
        action is Stop,
{
}

impl SchemeParameters {
    /// Builds the input of the isolated machine for a request: reads both
    /// public keys and both balances, encrypts the amount once under each
    /// key, and puts the four ciphertexts together.
    ///
    /// A balance of another ring than this one is refused with
    /// `ParameterMismatchError` before anything is read.
    ///
    /// The two amount ciphertexts are random, so two calls on one request
    /// give different input. What is fixed is when the call succeeds, which
    /// is whenever tags, keys, balances and amount pass; what the balances
    /// are in the input; and under which key each amount is encrypted.
    pub fn build_input(&self, request: &TransferRequest) -> (r: Result<MachineInput, TransferError>)
        ensures
            build_refused(request@, self.parameters(), self.ring()) matches Some(
                e,
            ) ==> r == Err::<MachineInput, TransferError>(e),
            build_refused(request@, self.parameters(), self.ring()) is None ==> r is Ok,
            r matches Ok(input) ==> built_for(input@, request@, self.parameters(), self.ring()),
    {
        if !self.governs(&request.sender_balance.parameters) || !self.governs(
            &request.receiver_balance.parameters,
        ) {
            return Err(TransferError::ParameterMismatchError);
        }
        let handle = self.handle();
        let sender_key = match self.load_key(request.sender_public_key.as_slice()) {
            Err(e) => {
                return Err(e);
            },
            Ok(key) => key,
        };
        let receiver_key = match self.load_key(request.receiver_public_key.as_slice()) {
            Err(e) => {
                return Err(e);
            },
            Ok(key) => key,
        };
        let sender_balance = match ciphertext_from_bytes(
            request.sender_balance.bytes.as_slice(),
            handle,
        ) {
            Err(_) => {
                return Err(TransferError::DeserializationError);
            },
            Ok(c) => c,
        };
        let receiver_balance = match ciphertext_from_bytes(
            request.receiver_balance.bytes.as_slice(),
            handle,
        ) {
            Err(_) => {
                return Err(TransferError::DeserializationError);
            },
            Ok(c) => c,
        };
        let values = [request.amount];
        assert(values@ =~= seq![request.amount]);
        let amount = match self.encode(values.as_slice()) {
            Err(e) => {
                return Err(e);
            },
            Ok(plaintext) => plaintext,
        };
        let sender_amount = self.seal(&sender_key, &amount);
        let receiver_amount = self.seal(&receiver_key, &amount);
        Ok(
            MachineInput {
                sender_balance: ciphertext_to_bytes(&sender_balance),
                sender_amount,
                receiver_balance: ciphertext_to_bytes(&receiver_balance),
                receiver_amount,
            },
        )
    }

    /// Starts a pipeline for a request: at `Built`, with the machine's input
    /// ready, or at `Failed` where the input could not be built.
    pub fn start(&self, request: &TransferRequest) -> (stage: Stage)
        ensures
            build_refused(request@, self.parameters(), self.ring()) matches Some(
                e,
            ) ==> stage == Stage::Failed(e),
            build_refused(request@, self.parameters(), self.ring()) is None ==> stage is Built,
            stage matches Stage::Built { input } ==> exists|built: MachineInputModel|
                #[trigger] built_for(built, request@, self.parameters(), self.ring()) && input@
                    == built.wire(),
    {
        match self.build_input(request) {
            Err(e) => Stage::Failed(e),
            Ok(input) => {
                let bytes = input.to_bytes();
                assert(built_for(input@, request@, self.parameters(), self.ring()));
                Stage::Built { input: bytes }
            },
        }
    }
}

impl Stage {
    /// Ends a development run on a receipt.
    fn deliver_balances(receipt: &Receipt) -> (after: Stage)
        ensures
            delivers_balances(*receipt, after),
    {
        match receipt.decode_result() {
            Err(e) => Stage::Failed(e),
            Ok(result) => Stage::DevOutput(result),
        }
    }

    /// Ends a production run on a receipt.
    fn deliver_bundle(receipt: &Receipt, metadata: ReceiptMetadata, image_id: &[u32; 8]) -> (after: Stage)
        ensures
            delivers_bundle(*receipt, Some(metadata), *image_id, after),
    {
        match receipt.bundle(Some(metadata), image_id) {
            Err(e) => Stage::Failed(e),
            Ok(bytes) => Stage::ProdArtifact(bytes),
        }
    }

    /// Takes the pipeline one step on: told `event`, it moves to the next
    /// stage and says what is to be done next.
    ///
    /// Any failure ends the pipeline at `Failed`. An event that does not
    /// belong to the stage ends it too, with `ExecutionFailure`; a pipeline
    /// that is done stays as it is.
    pub fn step(self, event: Event, config: &PipelineConfig) -> (r: (Stage, Action))
        ensures
            step_spec(self, event, *config, r.0, r.1),
    {
        match (self, event) {
            (Stage::Built { input }, Event::Start) => (Stage::Executing, Action::Prove(input)),
            (Stage::Executing, Event::ExecutionFailed) => (
                Stage::Failed(TransferError::ExecutionFailure),
                Action::Stop,
            ),
            (Stage::Executing, Event::ProofFailed) => (
                Stage::Failed(TransferError::ProofGenerationFailure),
                Action::Stop,
            ),
            (Stage::Executing, Event::Proved(receipt)) => {
                match payload(receipt.journal.as_slice()) {
                    Err(_) => (Stage::Failed(TransferError::ExecutionFailure), Action::Stop),
                    Ok(_) => {
                        if receipt.has_seal() {
                            (Stage::Proven { receipt }, Action::Verify(config.image_id))
                        } else {
                            match receipt.verify(config.mode, false) {
                                Ok(_) => (Stage::deliver_balances(&receipt), Action::Stop),
                                Err(e) => (Stage::Failed(e), Action::Stop),
                            }
                        }
                    },
                }
            },
            (Stage::Proven { receipt }, Event::VerificationFailed) => (
                Stage::Failed(TransferError::VerificationFailure),
                Action::Stop,
            ),
            (Stage::Proven { receipt }, Event::VerificationPassed) => {
                match receipt.verify(config.mode, true) {
                    Err(e) => (Stage::Failed(e), Action::Stop),
                    Ok(_) => match config.mode {
                        RunMode::Development => (Stage::deliver_balances(&receipt), Action::Stop),
                        RunMode::Production => (
                            Stage::Verified { receipt },
                            Action::ExtractMetadata,
                        ),
                    },
                }
            },
            (Stage::Verified { receipt }, Event::MetadataExtracted(metadata)) => (
                Stage::deliver_bundle(&receipt, metadata, &config.image_id),
                Action::Stop,
            ),
            (Stage::Verified { receipt }, Event::MetadataUnavailable) => (
                Stage::Failed(TransferError::MetadataExtractionFailure),
                Action::Stop,
            ),
            (before, _) => {
                if before.finished() {
                    (before, Action::Stop)
                } else {
                    (Stage::Failed(TransferError::ExecutionFailure), Action::Stop)
                }
            },
        }
    }
}

} // verus!
