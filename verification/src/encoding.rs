//! The two serialisers that the byte layouts of this library come from.
//!
//! Everything here is taken on trust from the `bincode` and `risc0-zkvm`
//! crates. Unlike the encryption scheme, what these calls return can be
//! written down in a few lines, so each contract states the bytes or words
//! themselves.

use crate::receipt::{ExitCode, ReceiptMetadata, SystemState};
use crate::wire::{frame, read_frame, words_to_bytes};
use vstd::bytes::*;
use vstd::prelude::*;

verus! {

/// The words that the machine's serialiser writes for a byte string: its
/// length, then one word for each byte.
pub open spec fn committed_words(output: Seq<u8>) -> Seq<u32> {
    seq![output.len() as u32] + Seq::new(output.len(), |i: int| output[i] as u32)
}

/// Whether `words` start with the words of a byte string: a length, and
/// after it at least that many words, each of them a byte.
pub open spec fn hold_committed_bytes(words: Seq<u32>) -> bool {
    &&& words.len() >= 1
    &&& 1 + words[0] <= words.len()
    &&& forall|i: int| 0 <= i < words[0] ==> #[trigger] words[1 + i] <= 255
}

/// The byte string whose words `words` start with, if they do.
pub open spec fn read_committed_words(words: Seq<u32>) -> Option<Seq<u8>> {
    if hold_committed_bytes(words) {
        Some(Seq::new(words[0] as nat, |i: int| words[1 + i] as u8))
    } else {
        None
    }
}

/// The words of how a run ended.
pub open spec fn exit_code_words(code: ExitCode) -> Seq<u32> {
    match code {
        ExitCode::SystemSplit => seq![0u32],
        ExitCode::SessionLimit => seq![1u32],
        ExitCode::Paused(user) => seq![2u32, user],
        ExitCode::Halted(user) => seq![3u32, user],
        ExitCode::Fault => seq![4u32],
    }
}

/// The words of a machine state: the program counter, then the root.
pub open spec fn system_state_words(state: SystemState) -> Seq<u32> {
    seq![state.pc] + state.merkle_root@
}

/// The words that the machine's serialiser writes for the description of a
/// run: the state before, the state after, how it ended, and the digests of
/// what it read and what it wrote.
pub open spec fn metadata_to_words(metadata: ReceiptMetadata) -> Seq<u32> {
    system_state_words(metadata.pre) + system_state_words(metadata.post) + exit_code_words(
        metadata.exit_code,
    ) + metadata.input@ + metadata.output@
}

/// What `SystemState::digest` returns: a tagged SHA-256 hash of the program
/// counter and the root, as eight words.
pub uninterp spec fn state_digest(pc: u32, merkle_root: Seq<u32>) -> Seq<u32>;

/// Calls `bincode::serialize` on a byte vector.
///
/// Trusted: the call succeeds, and gives the length as eight
/// little-endian bytes followed by the bytes themselves.
#[verifier::external_body]
pub(crate) fn bincode_bytes(field: &Vec<u8>) -> (out: Option<Vec<u8>>)
    ensures
        out is Some,
        out->Some_0@ == frame(field@),
{
    bincode::serialize(field).ok()
}

/// Calls `bincode::serialize` on a vector of words.
///
/// Trusted: the call succeeds, and gives the number of words as
/// eight little-endian bytes followed by the four little-endian bytes of
/// each word.
#[verifier::external_body]
pub(crate) fn bincode_words(words: &Vec<u32>) -> (out: Option<Vec<u8>>)
    ensures
        out is Some,
        out->Some_0@ == spec_u64_to_le_bytes(words@.len() as u64) + words_to_bytes(words@),
{
    bincode::serialize(words).ok()
}

/// Calls `bincode::serialize` on an array of eight words.
///
/// Trusted: the call succeeds, and gives the four little-endian
/// bytes of each word, with nothing before them.
#[verifier::external_body]
pub(crate) fn bincode_digest(digest: &[u32; 8]) -> (out: Option<Vec<u8>>)
    ensures
        out is Some,
        out->Some_0@ == words_to_bytes(digest@),
{
    bincode::serialize(digest).ok()
}

/// Calls `bincode::deserialize` for a byte vector.
///
/// Trusted: the call succeeds exactly where the input starts with eight
/// bytes that give, little-endian, a length that the rest of the input can
/// supply; it returns that many bytes and ignores what follows.
#[verifier::external_body]
pub(crate) fn bincode_read_bytes(input: &[u8]) -> (r: Option<Vec<u8>>)
    ensures
        match (r, read_frame(input@)) {
            (Some(payload), Some(expected)) => payload@ == expected,
            (None, None) => true,
            _ => false,
        },
{
    bincode::deserialize::<Vec<u8>>(input).ok()
}

/// Calls `risc0_zkvm::serde::to_vec` on a byte vector.
///
/// The serialiser panics on a sequence of more than `u32::MAX` elements;
/// `requires` leaves those out.
///
/// Trusted: the call succeeds, and gives the length as one word followed by
/// one word for each byte.
#[verifier::external_body]
pub(crate) fn machine_words(output: &Vec<u8>) -> (words: Option<Vec<u32>>)
    requires
        output@.len() <= u32::MAX,
    ensures
        words is Some,
        words->Some_0@ == committed_words(output@),
{
    risc0_zkvm::serde::to_vec(output).ok()
}

/// Calls `risc0_zkvm::serde::from_slice` for a byte vector, on words.
///
/// Trusted: the call succeeds exactly where the first word is a length that
/// the remaining words can supply and each of those words is below 256; it
/// returns one byte for each of them and ignores what follows.
#[verifier::external_body]
pub(crate) fn machine_bytes(words: &Vec<u32>) -> (r: Option<Vec<u8>>)
    ensures
        match (r, read_committed_words(words@)) {
            (Some(payload), Some(expected)) => payload@ == expected,
            (None, None) => true,
            _ => false,
        },
{
    risc0_zkvm::serde::from_slice::<Vec<u8>, u32>(words).ok()
}

/// Calls `risc0_zkvm::serde::to_vec` on a `risc0_zkvm::ReceiptMetadata`
/// with the same fields.
///
/// Trusted: the call succeeds, and gives the fields in the order of their
/// declaration: a program counter as one word, a digest as its eight words,
/// and how the run ended as the number of its variant followed, for a pause
/// or a halt, by the user's code.
#[verifier::external_body]
pub(crate) fn metadata_words(metadata: &ReceiptMetadata) -> (words: Option<Vec<u32>>)
    ensures
        words is Some,
        words->Some_0@ == metadata_to_words(*metadata),
{
    let claim = risc0_zkvm::ReceiptMetadata {
        pre: risc0_zkvm::SystemState { pc: metadata.pre.pc, merkle_root: metadata.pre.merkle_root.into() },
        post: risc0_zkvm::SystemState { pc: metadata.post.pc, merkle_root: metadata.post.merkle_root.into() },
        exit_code: match metadata.exit_code {
            ExitCode::SystemSplit => risc0_zkvm::ExitCode::SystemSplit,
            ExitCode::SessionLimit => risc0_zkvm::ExitCode::SessionLimit,
            ExitCode::Paused(user) => risc0_zkvm::ExitCode::Paused(user),
            ExitCode::Halted(user) => risc0_zkvm::ExitCode::Halted(user),
            ExitCode::Fault => risc0_zkvm::ExitCode::Fault,
        },
        input: metadata.input.into(),
        output: metadata.output.into(),
    };
    risc0_zkvm::serde::to_vec(&claim).ok()
}

/// Calls `SystemState::digest` on a state with this program counter and
/// this root.
///
/// Trusted: the result is a function of the two.
#[verifier::external_body]
pub(crate) fn system_state_digest(state: &SystemState) -> (digest: [u32; 8])
    ensures
        digest@ == state_digest(state.pc, state.merkle_root@),
{
    risc0_zkvm::SystemState { pc: state.pc, merkle_root: state.merkle_root.into() }.digest().into()
}

} // verus!
