//! The transfer itself: what the isolated machine computes, and the byte
//! layouts of what it reads and writes.

use crate::bfv::{
    ciphertext_add, ciphertext_difference, ciphertext_len, ciphertext_level,
    ciphertext_level_of, ciphertext_parts, ciphertext_sub, ciphertext_sum, ciphertext_to_bytes,
    ciphertext_wire, regular, same_ring, Polynomials,
};
use crate::codec::{admitted, Ciphertext, CiphertextModel};
use crate::encoding::{bincode_bytes, bincode_read_bytes};
use crate::error::TransferError;
use crate::params::{ParameterModel, SchemeParameters};
use crate::wire::{
    after_first_frame, first_payload, frame, lemma_frame_reads_back, starts_with_frame,
};
use vstd::prelude::*;
use vstd::slice::slice_subrange;

verus! {

/// What a [`MachineInput`] stands for.
pub struct MachineInputModel {
    /// The sender's balance.
    pub sender_balance: Seq<u8>,
    /// The amount, encrypted for the sender.
    pub sender_amount: Seq<u8>,
    /// The receiver's balance.
    pub receiver_balance: Seq<u8>,
    /// The amount, encrypted for the receiver.
    pub receiver_amount: Seq<u8>,
}

/// The four ciphertexts that the isolated machine is started on, each in
/// its wire form.
#[derive(Clone, Debug, PartialEq, Eq)]
pub struct MachineInput {
    /// The sender's balance.
    pub sender_balance: Vec<u8>,
    /// The amount, encrypted for the sender.
    pub sender_amount: Vec<u8>,
    /// The receiver's balance.
    pub receiver_balance: Vec<u8>,
    /// The amount, encrypted for the receiver.
    pub receiver_amount: Vec<u8>,
}

/// What a [`TransferResult`] stands for.
pub struct TransferResultModel {
    /// The sender's new balance.
    pub sender_balance: Seq<u8>,
    /// The receiver's new balance.
    pub receiver_balance: Seq<u8>,
}

/// The two balances after a transfer, each a ciphertext in its wire form.
#[derive(Clone, Debug, PartialEq, Eq)]
pub struct TransferResult {
    /// The sender's new balance.
    pub sender_balance: Vec<u8>,
    /// The receiver's new balance.
    pub receiver_balance: Vec<u8>,
}

impl View for MachineInput {
    type V = MachineInputModel;

    open spec fn view(&self) -> MachineInputModel {
        MachineInputModel {
            sender_balance: self.sender_balance@,
            sender_amount: self.sender_amount@,
            receiver_balance: self.receiver_balance@,
            receiver_amount: self.receiver_amount@,
        }
    }
}

impl View for TransferResult {
    type V = TransferResultModel;

    open spec fn view(&self) -> TransferResultModel {
        TransferResultModel {
            sender_balance: self.sender_balance@,
            receiver_balance: self.receiver_balance@,
        }
    }
}

impl MachineInputModel {
    /// The bytes the machine is started on: one frame for each ciphertext.
    pub open spec fn wire(self) -> Seq<u8> {
        frame(self.sender_balance) + frame(self.sender_amount) + frame(self.receiver_balance)
            + frame(self.receiver_amount)
    }

    /// The input that `bytes` start with, if four frames are there.
    pub open spec fn parse(bytes: Seq<u8>) -> Option<MachineInputModel> {
        let second = after_first_frame(bytes);
        let third = after_first_frame(second);
        let fourth = after_first_frame(third);
        if starts_with_frame(bytes) && starts_with_frame(second) && starts_with_frame(third)
            && starts_with_frame(fourth) {
            Some(
                MachineInputModel {
                    sender_balance: first_payload(bytes),
                    sender_amount: first_payload(second),
                    receiver_balance: first_payload(third),
                    receiver_amount: first_payload(fourth),
                },
            )
        } else {
            None
        }
    }

    /// No field is longer than a length prefix can say.
    pub open spec fn fits(self) -> bool {
        &&& self.sender_balance.len() <= u64::MAX
        &&& self.sender_amount.len() <= u64::MAX
        &&& self.receiver_balance.len() <= u64::MAX
        &&& self.receiver_amount.len() <= u64::MAX
    }
}

impl TransferResultModel {
    /// The bytes the machine writes: one frame for each balance.
    pub open spec fn wire(self) -> Seq<u8> {
        frame(self.sender_balance) + frame(self.receiver_balance)
    }

    /// The result that `bytes` start with, if two frames are there.
    pub open spec fn parse(bytes: Seq<u8>) -> Option<TransferResultModel> {
        let second = after_first_frame(bytes);
        if starts_with_frame(bytes) && starts_with_frame(second) {
            Some(
                TransferResultModel {
                    sender_balance: first_payload(bytes),
                    receiver_balance: first_payload(second),
                },
            )
        } else {
            None
        }
    }

    /// No field is longer than a length prefix can say.
    pub open spec fn fits(self) -> bool {
        &&& self.sender_balance.len() <= u64::MAX
        &&& self.receiver_balance.len() <= u64::MAX
    }
}

/// What is written for a machine input reads back as that input, whatever
/// follows it.
pub proof fn lemma_input_reads_back(input: MachineInputModel, rest: Seq<u8>)
    requires
        input.fits(),
    ensures
        MachineInputModel::parse(input.wire() + rest) == Some(input),
{
    let d = frame(input.receiver_amount) + rest;
    let c = frame(input.receiver_balance) + d;
    let b = frame(input.sender_amount) + c;
    let a = frame(input.sender_balance) + b;
    assert(a =~= input.wire() + rest);
    lemma_frame_reads_back(input.sender_balance, b);
    lemma_frame_reads_back(input.sender_amount, c);
    lemma_frame_reads_back(input.receiver_balance, d);
    lemma_frame_reads_back(input.receiver_amount, rest);
}

/// What is written for a transfer result reads back as that result,
/// whatever follows it.
pub proof fn lemma_result_reads_back(result: TransferResultModel, rest: Seq<u8>)
    requires
        result.fits(),
    ensures
        TransferResultModel::parse(result.wire() + rest) == Some(result),
{
    let b = frame(result.receiver_balance) + rest;
    let a = frame(result.sender_balance) + b;
    assert(a =~= result.wire() + rest);
    lemma_frame_reads_back(result.sender_balance, b);
    lemma_frame_reads_back(result.receiver_balance, rest);
}

/// Reads one frame from the front of `input` and gives its payload and what
/// follows it.
pub fn take_frame(input: &[u8]) -> (r: Option<(Vec<u8>, &[u8])>)
    ensures
        r is Some <==> starts_with_frame(input@),
        r matches Some((payload, rest)) ==> payload@ == first_payload(input@) && rest@
            == after_first_frame(input@),
{
    match bincode_read_bytes(input) {
        None => None,
        Some(payload) => {
            let total = input.len();
            assert(payload@.len() == first_payload(input@).len());
            assert(payload@.len() + 8 <= total);
            let rest = slice_subrange(input, 8 + payload.len(), total);
            Some((payload, rest))
        },
    }
}

impl MachineInput {
    /// The bytes the machine is started on.
    pub fn to_bytes(&self) -> (bytes: Vec<u8>)
        ensures
            bytes@ == self@.wire(),
    {
        let mut bytes = bincode_bytes(&self.sender_balance).unwrap();
        let mut second = bincode_bytes(&self.sender_amount).unwrap();
        let mut third = bincode_bytes(&self.receiver_balance).unwrap();
        let mut fourth = bincode_bytes(&self.receiver_amount).unwrap();
        bytes.append(&mut second);
        bytes.append(&mut third);
        bytes.append(&mut fourth);
        bytes
    }

    /// Reads a machine input from the front of `bytes`. Bytes after the
    /// fourth frame are ignored.
    pub fn from_bytes(bytes: &[u8]) -> (r: Option<MachineInput>)
        ensures
            match (r, MachineInputModel::parse(bytes@)) {
                (Some(input), Some(expected)) => input@ == expected,
                (None, None) => true,
                _ => false,
            },
    {
        let (sender_balance, rest) = match take_frame(bytes) {
            None => {
                return None;
            },
            Some(found) => found,
        };
        let (sender_amount, rest) = match take_frame(rest) {
            None => {
                return None;
            },
            Some(found) => found,
        };
        let (receiver_balance, rest) = match take_frame(rest) {
            None => {
                return None;
            },
            Some(found) => found,
        };
        let (receiver_amount, _) = match take_frame(rest) {
            None => {
                return None;
            },
            Some(found) => found,
        };
        Some(MachineInput { sender_balance, sender_amount, receiver_balance, receiver_amount })
    }
}

impl TransferResult {
    /// The bytes the machine writes.
    pub fn to_bytes(&self) -> (bytes: Vec<u8>)
        ensures
            bytes@ == self@.wire(),
    {
        let mut bytes = bincode_bytes(&self.sender_balance).unwrap();
        let mut second = bincode_bytes(&self.receiver_balance).unwrap();
        bytes.append(&mut second);
        bytes
    }

    /// Reads a transfer result from the front of `bytes`. Bytes after the
    /// second frame are ignored.
    pub fn from_bytes(bytes: &[u8]) -> (r: Option<TransferResult>)
        ensures
            match (r, TransferResultModel::parse(bytes@)) {
                (Some(result), Some(expected)) => result@ == expected,
                (None, None) => true,
                _ => false,
            },
    {
        let (sender_balance, rest) = match take_frame(bytes) {
            None => {
                return None;
            },
            Some(found) => found,
        };
        let (receiver_balance, _) = match take_frame(rest) {
            None => {
                return None;
            },
            Some(found) => found,
        };
        Some(TransferResult { sender_balance, receiver_balance })
    }
}

/// Whether two ciphertexts can be added or subtracted: as many polynomials
/// in the one as in the other, at the same level.
pub open spec fn shapes_agree(a: Polynomials, b: Polynomials) -> bool {
    ciphertext_parts(a) == ciphertext_parts(b) && ciphertext_level(a) == ciphertext_level(b)
}

/// The balances after a transfer, as the ring `ring` computes them from the
/// wire forms of the four ciphertexts: the sender's balance minus the amount
/// encrypted for the sender, and the receiver's balance plus the amount
/// encrypted for the receiver. Nothing is decrypted, and nothing is compared
/// with the balance: where the amount exceeds it, the difference wraps.
pub open spec fn transfer_outcome(
    ring: fhe::bfv::BfvParameters,
    sender_balance: Seq<u8>,
    sender_amount: Seq<u8>,
    receiver_balance: Seq<u8>,
    receiver_amount: Seq<u8>,
) -> Result<TransferResultModel, TransferError> {
    match admitted(sender_balance, ring) {
        Err(e) => Err(e),
        Ok(sender) => match admitted(receiver_balance, ring) {
            Err(e) => Err(e),
            Ok(receiver) => match admitted(sender_amount, ring) {
                Err(e) => Err(e),
                Ok(debit) => match admitted(receiver_amount, ring) {
                    Err(e) => Err(e),
                    Ok(credit) => if shapes_agree(sender, debit) && shapes_agree(receiver, credit) {
                        Ok(
                            TransferResultModel {
                                sender_balance: ciphertext_wire(ciphertext_difference(sender, debit)),
                                receiver_balance: ciphertext_wire(ciphertext_sum(receiver, credit)),
                            },
                        )
                    } else {
                        Err(TransferError::ParameterMismatchError)
                    },
                },
            },
        },
    }
}

/// The balances after a transfer in the ring `ring`, whose parameters are
/// `active`, on four tagged ciphertexts: nothing is computed unless all four
/// are tagged with the parameters of the ring.
pub open spec fn tagged_transfer_outcome(
    active: ParameterModel,
    ring: fhe::bfv::BfvParameters,
    sender_balance: CiphertextModel,
    sender_amount: CiphertextModel,
    receiver_balance: CiphertextModel,
    receiver_amount: CiphertextModel,
) -> Result<TransferResultModel, TransferError> {
    if sender_balance.parameters == active && sender_amount.parameters == active
        && receiver_balance.parameters == active && receiver_amount.parameters == active {
        transfer_outcome(
            ring,
            sender_balance.bytes,
            sender_amount.bytes,
            receiver_balance.bytes,
            receiver_amount.bytes,
        )
    } else {
        Err(TransferError::ParameterMismatchError)
    }
}

/// Whether both balances of a result read in `ring` as ciphertexts fit for
/// decryption and for another transfer.
pub open spec fn result_reads(result: TransferResultModel, ring: fhe::bfv::BfvParameters) -> bool {
    admitted(result.sender_balance, ring) is Ok && admitted(result.receiver_balance, ring) is Ok
}

/// Whether `r` is the outcome `expected`.
pub open spec fn is_transfer_outcome(
    r: Result<TransferResult, TransferError>,
    expected: Result<TransferResultModel, TransferError>,
) -> bool {
    match (r, expected) {
        (Ok(result), Ok(model)) => result@ == model,
        (Err(e), Err(f)) => e == f,
        _ => false,
    }
}

/// Ciphertexts of two different rings are never combined: where a balance
/// and the amount that is to be taken from it or added to it are tagged
/// with different parameters, the transfer fails with
/// `ParameterMismatchError`, whichever ring is asked to compute it.
pub proof fn lemma_rings_are_isolated(
    active: ParameterModel,
    ring: fhe::bfv::BfvParameters,
    sender_balance: CiphertextModel,
    sender_amount: CiphertextModel,
    receiver_balance: CiphertextModel,
    receiver_amount: CiphertextModel,
)
    requires
        sender_balance.parameters != sender_amount.parameters || receiver_balance.parameters
            != receiver_amount.parameters,
    ensures
        tagged_transfer_outcome(
            active,
            ring,
            sender_balance,
            sender_amount,
            receiver_balance,
            receiver_amount,
        ) == Err::<TransferResultModel, TransferError>(TransferError::ParameterMismatchError),
{
}

/// What the isolated machine writes when it is started on `input`: the
/// transfer result for the four ciphertexts that `input` starts with.
pub open spec fn machine_output(ring: fhe::bfv::BfvParameters, input: Seq<u8>) -> Result<
    Seq<u8>,
    TransferError,
> {
    match MachineInputModel::parse(input) {
        None => Err(TransferError::DeserializationError),
        Some(request) => match transfer_outcome(
            ring,
            request.sender_balance,
            request.sender_amount,
            request.receiver_balance,
            request.receiver_amount,
        ) {
            Err(e) => Err(e),
            Ok(result) => Ok(result.wire()),
        },
    }
}

/// Whether `run` is what a run of the machine on `input` gives in `ring`.
pub open spec fn is_machine_run(
    run: Result<Vec<u8>, TransferError>,
    ring: fhe::bfv::BfvParameters,
    input: Seq<u8>,
) -> bool {
    match (run, machine_output(ring, input)) {
        (Ok(output), Ok(expected)) => output@ == expected,
        (Err(e), Err(expected)) => e == expected,
        _ => false,
    }
}

/// Two runs of the machine on the same bytes, in the same ring, end the
/// same way and write the same bytes: no randomness enters the computation.
pub proof fn lemma_machine_is_deterministic(
    ring: fhe::bfv::BfvParameters,
    input: Seq<u8>,
    first: Result<Vec<u8>, TransferError>,
    second: Result<Vec<u8>, TransferError>,
)
    requires
        is_machine_run(first, ring, input),
        is_machine_run(second, ring, input),
    ensures
        match (first, second) {
            (Ok(a), Ok(b)) => a@ == b@,
            (Err(a), Err(b)) => a == b,
            _ => false,
        },
{
}

impl SchemeParameters {
    /// Whether two ciphertexts of this ring can be added or subtracted.
    fn shapes_agree(&self, a: &Polynomials, b: &Polynomials) -> (r: bool)
        requires
            regular(*a, self.ring()),
            regular(*b, self.ring()),
        ensures
            r == shapes_agree(*a, *b),
    {
        let handle = self.handle();
        if ciphertext_len(a) != ciphertext_len(b) {
            return false;
        }
        match (ciphertext_level_of(a, handle), ciphertext_level_of(b, handle)) {
            (Some(first), Some(second)) => first == second,
            _ => false,
        }
    }

    /// The transfer on wire forms that are all taken to belong to this
    /// ring.
    pub(crate) fn transfer_wire(
        &self,
        sender_balance: &[u8],
        sender_amount: &[u8],
        receiver_balance: &[u8],
        receiver_amount: &[u8],
    ) -> (r: Result<TransferResult, TransferError>)
        ensures
            is_transfer_outcome(
                r,
                transfer_outcome(
                    self.ring(),
                    sender_balance@,
                    sender_amount@,
                    receiver_balance@,
                    receiver_amount@,
                ),
            ),
            r matches Ok(result) ==> result_reads(result@, self.ring()),
    {
        let sender = match self.read_ciphertext(sender_balance) {
            Err(e) => {
                return Err(e);
            },
            Ok(c) => c,
        };
        let receiver = match self.read_ciphertext(receiver_balance) {
            Err(e) => {
                return Err(e);
            },
            Ok(c) => c,
        };
        let debit = match self.read_ciphertext(sender_amount) {
            Err(e) => {
                return Err(e);
            },
            Ok(c) => c,
        };
        let credit = match self.read_ciphertext(receiver_amount) {
            Err(e) => {
                return Err(e);
            },
            Ok(c) => c,
        };
        if !self.shapes_agree(&sender, &debit) || !self.shapes_agree(&receiver, &credit) {
            return Err(TransferError::ParameterMismatchError);
        }
        assert(same_ring(sender, debit));
        assert(same_ring(receiver, credit));
        let new_sender = ciphertext_sub(&sender, &debit);
        let new_receiver = ciphertext_add(&receiver, &credit);
        assert(regular(new_sender, self.ring()));
        assert(regular(new_receiver, self.ring()));
        Ok(
            TransferResult {
                sender_balance: ciphertext_to_bytes(&new_sender),
                receiver_balance: ciphertext_to_bytes(&new_receiver),
            },
        )
    }

    /// Moves an encrypted amount from one encrypted balance to another:
    /// the sender's new balance is the old one minus `sender_amount`, the
    /// receiver's the old one plus `receiver_amount`. Both amounts are meant
    /// to encrypt the same value, one under each party's key; that they do
    /// is the caller's claim and is not checked here.
    ///
    /// Ciphertexts of another ring than this one are refused with
    /// `ParameterMismatchError` before anything is computed. An amount
    /// larger than the balance is not refused: the balance wraps at the
    /// plaintext modulus.
    pub fn transfer(
        &self,
        sender_balance: &Ciphertext,
        sender_amount: &Ciphertext,
        receiver_balance: &Ciphertext,
        receiver_amount: &Ciphertext,
    ) -> (r: Result<TransferResult, TransferError>)
        ensures
            is_transfer_outcome(
                r,
                tagged_transfer_outcome(
                    self.parameters(),
                    self.ring(),
                    sender_balance@,
                    sender_amount@,
                    receiver_balance@,
                    receiver_amount@,
                ),
            ),
            r matches Ok(result) ==> result_reads(result@, self.ring()),
    {
        if !self.governs(&sender_balance.parameters) || !self.governs(&sender_amount.parameters)
            || !self.governs(&receiver_balance.parameters) || !self.governs(
            &receiver_amount.parameters,
        ) {
            return Err(TransferError::ParameterMismatchError);
        }
        self.transfer_wire(
            sender_balance.bytes.as_slice(),
            sender_amount.bytes.as_slice(),
            receiver_balance.bytes.as_slice(),
            receiver_amount.bytes.as_slice(),
        )
    }

    /// The program of the isolated machine: reads four ciphertexts from
    /// `input`, computes the transfer in this ring, and gives the bytes to
    /// write to the output log.
    ///
    /// Input that does not start with four frames gives
    /// `DeserializationError`.
    pub fn run_transfer(&self, input: &[u8]) -> (r: Result<Vec<u8>, TransferError>)
        ensures
            is_machine_run(r, self.ring(), input@),
    {
        let request = match MachineInput::from_bytes(input) {
            None => {
                return Err(TransferError::DeserializationError);
            },
            Some(request) => request,
        };
        match self.transfer_wire(
            request.sender_balance.as_slice(),
            request.sender_amount.as_slice(),
            request.receiver_balance.as_slice(),
            request.receiver_amount.as_slice(),
        ) {
            Err(e) => Err(e),
            Ok(result) => Ok(result.to_bytes()),
        }
    }
}

} // verus!
