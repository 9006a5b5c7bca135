//! Receipts: what one proven run of the isolated machine leaves behind, and
//! what is handed on once a receipt has been checked.

use crate::encoding::{
    bincode_bytes, bincode_digest, bincode_words, metadata_to_words,
    metadata_words, state_digest, system_state_digest,
};
use crate::error::TransferError;
use crate::journal::{committed_bytes, payload};
use crate::transfer::{TransferResult, TransferResultModel};
use crate::wire::{bytes_of_words, frame, lemma_words_to_bytes_len, words_to_bytes};
use vstd::bytes::*;
use vstd::prelude::*;

verus! {

/// The public state of the machine at one point of a run.
#[derive(Clone, Copy, Debug, PartialEq, Eq)]
pub struct SystemState {
    /// The program counter.
    pub pc: u32,
    /// The root of the hash tree over the machine's memory.
    pub merkle_root: [u32; 8],
}

/// How a run of the machine ended.
#[derive(Clone, Copy, Debug, PartialEq, Eq)]
pub enum ExitCode {
    /// The run was cut because a segment was full.
    SystemSplit,
    /// The run reached its limit.
    SessionLimit,
    /// The program paused itself, with this code.
    Paused(u32),
    /// The program ended, with this code.
    Halted(u32),
    /// The next instruction would have failed.
    Fault,
}

/// The description of a run that a proof commits to.
#[derive(Clone, Copy, Debug, PartialEq, Eq)]
pub struct ReceiptMetadata {
    /// The state before the run.
    pub pre: SystemState,
    /// The state after the run.
    pub post: SystemState,
    /// How the run ended.
    pub exit_code: ExitCode,
    /// Digest of what the program read.
    pub input: [u32; 8],
    /// Digest of what the program wrote.
    pub output: [u32; 8],
}

/// The proof inside a receipt.
#[derive(Clone, Debug, PartialEq, Eq)]
pub enum Evidence {
    /// One seal for each segment of the run, in order.
    Segments(Vec<Vec<u32>>),
    /// One seal for the whole run, made by recursion.
    Succinct,
    /// No proof at all: a stand-in that development runs produce.
    Fake,
}

/// What one run of the isolated machine leaves behind: a proof, and the
/// output log that the proof is about.
#[derive(Clone, Debug, PartialEq, Eq)]
pub struct Receipt {
    /// The proof.
    pub evidence: Evidence,
    /// The output log.
    pub journal: Vec<u8>,
}

/// Which of the two results a deployment hands out.
#[derive(Clone, Copy, Debug, PartialEq, Eq, Structural)]
pub enum RunMode {
    /// Hand out the decoded balances.
    Development,
    /// Hand out the proof bundle and leave decoding to whoever checks it.
    Production,
}

/// What a checked receipt is turned into.
#[derive(Clone, Debug, PartialEq, Eq)]
pub enum Output {
    /// The new balances, read from the output log.
    Development(TransferResult),
    /// The proof bundle.
    Production(Vec<u8>),
}

/// Whether a receipt counts as checked, given what the proof system
/// answered for its seal. A stand-in has no seal to ask about: it counts in
/// development and never in production.
pub open spec fn accepted(receipt: Receipt, mode: RunMode, seal_accepted: bool) -> bool {
    match receipt.evidence {
        Evidence::Fake => mode == RunMode::Development,
        _ => seal_accepted,
    }
}

/// The seal of the first segment, if the proof is made of segments.
pub open spec fn first_seal(receipt: Receipt) -> Option<Seq<u32>> {
    match receipt.evidence {
        Evidence::Segments(seals) => if seals@.len() > 0 {
            Some(seals@[0]@)
        } else {
            None
        },
        _ => None,
    }
}

/// The proof bundle: the seal, the identifier of the program, the digest of
/// the machine's final state, the output log and the description of the
/// run, one after the other, in this order. The first three have no length
/// in front of them; the output log is preceded by its length in bytes and
/// the description by its length in words.
pub open spec fn bundle(
    seal: Seq<u32>,
    image_id: Seq<u32>,
    metadata: ReceiptMetadata,
    journal: Seq<u8>,
) -> Seq<u8> {
    words_to_bytes(seal) + words_to_bytes(image_id) + words_to_bytes(
        state_digest(metadata.post.pc, metadata.post.merkle_root@),
    ) + frame(journal) + (spec_u64_to_le_bytes(metadata_to_words(metadata).len() as u64)
        + words_to_bytes(metadata_to_words(metadata)))
}

/// Whether there is a description and the digest of its final state has
/// its eight words, so that the fields of a bundle lie where
/// [`lemma_bundle_layout`] says.
pub open spec fn digest_is_whole(metadata: Option<ReceiptMetadata>) -> bool {
    metadata matches Some(description) && state_digest(
        description.post.pc,
        description.post.merkle_root@,
    ).len() == 8
}

/// The balances that a development deployment reads from an output log.
pub open spec fn development_outcome(journal: Seq<u8>) -> Result<TransferResultModel, TransferError> {
    match committed_bytes(journal) {
        None => Err(TransferError::ExecutionFailure),
        Some(output) => match TransferResultModel::parse(output) {
            None => Err(TransferError::ExecutionFailure),
            Some(result) => Ok(result),
        },
    }
}

/// The bundle that a production deployment makes of a receipt, of the
/// description extracted from it, and of the program's identifier.
pub open spec fn production_outcome(
    receipt: Receipt,
    metadata: Option<ReceiptMetadata>,
    image_id: [u32; 8],
) -> Result<Seq<u8>, TransferError> {
    if committed_bytes(receipt.journal@) is None {
        Err(TransferError::ExecutionFailure)
    } else {
        match (metadata, first_seal(receipt)) {
            (Some(description), Some(seal)) => Ok(
                bundle(seal, image_id@, description, receipt.journal@),
            ),
            _ => Err(TransferError::MetadataExtractionFailure),
        }
    }
}

/// Where the fields of a bundle start: the identifier right after the seal,
/// the digest 32 bytes later, the output log 32 bytes after that. The whole
/// bundle is as long as its fields and the two lengths in it.
pub proof fn lemma_bundle_layout(
    seal: Seq<u32>,
    image_id: Seq<u32>,
    metadata: ReceiptMetadata,
    journal: Seq<u8>,
)
    requires
        image_id.len() == 8,
        state_digest(metadata.post.pc, metadata.post.merkle_root@).len() == 8,
        journal.len() <= u64::MAX,
    ensures
        ({
            let whole = bundle(seal, image_id, metadata, journal);
            let start = 4 * seal.len() as int;
            &&& whole.len() == start + 32 + 32 + (8 + journal.len()) + (8 + 4 * metadata_to_words(
                metadata,
            ).len())
            &&& whole.subrange(0, start) == words_to_bytes(seal)
            &&& whole.subrange(start, start + 32) == words_to_bytes(image_id)
            &&& whole.subrange(start + 32, start + 64) == words_to_bytes(
                state_digest(metadata.post.pc, metadata.post.merkle_root@),
            )
            &&& whole.subrange(start + 64, start + 72 + journal.len()) == frame(journal)
        }),
{
    lemma_auto_spec_u64_to_from_le_bytes();
    let digest = state_digest(metadata.post.pc, metadata.post.merkle_root@);
    let words = metadata_to_words(metadata);
    lemma_words_to_bytes_len(seal);
    lemma_words_to_bytes_len(image_id);
    lemma_words_to_bytes_len(digest);
    lemma_words_to_bytes_len(words);
    let whole = bundle(seal, image_id, metadata, journal);
    let start = 4 * seal.len() as int;
    assert(whole.subrange(0, start) =~= words_to_bytes(seal));
    assert(whole.subrange(start, start + 32) =~= words_to_bytes(image_id));
    assert(whole.subrange(start + 32, start + 64) =~= words_to_bytes(digest));
    assert(whole.subrange(start + 64, start + 72 + journal.len()) =~= frame(journal));
}

impl Receipt {
    /// Whether there is a seal to put before the proof system.
    pub fn has_seal(&self) -> (yes: bool)
        ensures
            yes == !(self.evidence is Fake),
    {
        match &self.evidence {
            Evidence::Fake => false,
            _ => true,
        }
    }

    /// Decides whether this receipt counts as checked against the program
    /// it is expected to come from. `seal_accepted` is the answer of the
    /// proof system for the seal and that program; for a receipt without a
    /// seal it is not looked at.
    ///
    /// The answer is closed: anything but an accepted seal, or a stand-in in
    /// development, is `VerificationFailure`, with no word on why.
    pub fn verify(&self, mode: RunMode, seal_accepted: bool) -> (r: Result<(), TransferError>)
        ensures
            r is Ok <==> accepted(*self, mode, seal_accepted),
            r matches Err(e) ==> e == TransferError::VerificationFailure,
    {
        let passes = match &self.evidence {
            Evidence::Fake => match mode {
                RunMode::Development => true,
                RunMode::Production => false,
            },
            _ => seal_accepted,
        };
        if passes {
            Ok(())
        } else {
            Err(TransferError::VerificationFailure)
        }
    }

    /// The balances in the output log of this receipt.
    pub fn decode_result(&self) -> (r: Result<TransferResult, TransferError>)
        ensures
            match (r, development_outcome(self.journal@)) {
                (Ok(result), Ok(expected)) => result@ == expected,
                (Err(e), Err(expected)) => e == expected,
                _ => false,
            },
    {
        let output = match payload(self.journal.as_slice()) {
            Err(e) => {
                return Err(e);
            },
            Ok(output) => output,
        };
        match TransferResult::from_bytes(output.as_slice()) {
            None => Err(TransferError::ExecutionFailure),
            Some(result) => Ok(result),
        }
    }

    /// The proof bundle for this receipt.
    ///
    /// `metadata` is the description of the run, where one could be
    /// extracted from the proof. Without it, or where the proof is not made
    /// of segments, there is no bundle, only `MetadataExtractionFailure`;
    /// where the output log is unreadable, only `ExecutionFailure`.
    pub fn bundle(&self, metadata: Option<ReceiptMetadata>, image_id: &[u32; 8]) -> (r: Result<
        Vec<u8>,
        TransferError,
    >)
        ensures
            match (r, production_outcome(*self, metadata, *image_id)) {
                (Ok(bytes), Ok(expected)) => bytes@ == expected,
                (Err(e), Err(expected)) => e == expected,
                _ => false,
            },
            r is Ok ==> digest_is_whole(metadata),
    {
        match payload(self.journal.as_slice()) {
            Err(e) => {
                return Err(e);
            },
            Ok(_) => {},
        }
        let description = match metadata {
            None => {
                return Err(TransferError::MetadataExtractionFailure);
            },
            Some(description) => description,
        };
        let mut bytes = match &self.evidence {
            Evidence::Segments(seals) => {
                if seals.len() == 0 {
                    return Err(TransferError::MetadataExtractionFailure);
                }
                bytes_of_words(&seals[0])
            },
            _ => {
                return Err(TransferError::MetadataExtractionFailure);
            },
        };
        let post_state_digest = system_state_digest(&description.post);
        let words = metadata_words(&description).unwrap();
        let mut identifier = bincode_digest(image_id).unwrap();
        let mut digest = bincode_digest(&post_state_digest).unwrap();
        let mut log = bincode_bytes(&self.journal).unwrap();
        let mut run = bincode_words(&words).unwrap();
        bytes.append(&mut identifier);
        bytes.append(&mut digest);
        bytes.append(&mut log);
        bytes.append(&mut run);
        Ok(bytes)
    }

    /// Turns a receipt that has been checked into what the deployment hands
    /// out: in development the balances read from the output log, in
    /// production the proof bundle. Either the whole result is made or an
    /// error is returned; nothing in between.
    pub fn package(&self, mode: RunMode, metadata: Option<ReceiptMetadata>, image_id: &[u32; 8]) -> (r:
        Result<Output, TransferError>)
        ensures
            mode == RunMode::Development ==> match (r, development_outcome(self.journal@)) {
                (Ok(Output::Development(result)), Ok(expected)) => result@ == expected,
                (Err(e), Err(expected)) => e == expected,
                _ => false,
            },
            mode == RunMode::Production ==> match (
                r,
                production_outcome(*self, metadata, *image_id),
            ) {
                (Ok(Output::Production(bytes)), Ok(expected)) => bytes@ == expected,
                (Err(e), Err(expected)) => e == expected,
                _ => false,
            },
            mode == RunMode::Production && r is Ok ==> digest_is_whole(metadata),
    {
        match mode {
            RunMode::Development => match self.decode_result() {
                Err(e) => Err(e),
                Ok(result) => Ok(Output::Development(result)),
            },
            RunMode::Production => match self.bundle(metadata, image_id) {
                Err(e) => Err(e),
                Ok(bytes) => Ok(Output::Production(bytes)),
            },
        }
    }
}

} // verus!
