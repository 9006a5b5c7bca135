//! The output log of the isolated machine: how a byte string is written to
//! it and read back from it.

use crate::encoding::{
    committed_words, hold_committed_bytes, machine_bytes, machine_words, read_committed_words,
};
use crate::error::TransferError;
use crate::wire::{bytes_of_words, lemma_words_to_bytes_len, words_to_bytes};
use vstd::bytes::*;
use vstd::prelude::*;
use vstd::slice::slice_subrange;

verus! {

/// The journal that the machine leaves when it commits `output`: the length
/// as a word, then one word for each byte, each word as four bytes, least
/// significant first.
pub open spec fn journal_for(output: Seq<u8>) -> Seq<u8> {
    words_to_bytes(committed_words(output))
}

/// The word that starts at byte `4 * i` of `bytes`, least significant byte
/// first.
pub open spec fn word_at(bytes: Seq<u8>, i: int) -> u32 {
    spec_u32_from_le_bytes(bytes.subrange(4 * i, 4 * i + 4))
}

/// The words that `bytes` are made of, as far as they are whole.
pub open spec fn words_of(bytes: Seq<u8>) -> Seq<u32> {
    Seq::new(bytes.len() / 4, |i: int| word_at(bytes, i))
}

/// The byte string that was committed to `journal`, if the journal is a
/// whole number of words that start with the words of a byte string.
pub open spec fn committed_bytes(journal: Seq<u8>) -> Option<Seq<u8>> {
    if journal.len() % 4 == 0 {
        read_committed_words(words_of(journal))
    } else {
        None
    }
}

/// In the bytes of a sequence of words, followed by anything, the word at
/// place `i` is the `i`-th of the sequence.
pub proof fn lemma_word_at_words(words: Seq<u32>, rest: Seq<u8>, i: int)
    requires
        0 <= i < words.len(),
    ensures
        word_at(words_to_bytes(words) + rest, i) == words[i],
    decreases words.len(),
{
    lemma_auto_spec_u32_to_from_le_bytes();
    let front = words.drop_last();
    let tail = spec_u32_to_le_bytes(words.last());
    lemma_words_to_bytes_len(front);
    lemma_words_to_bytes_len(words);
    let whole = words_to_bytes(words) + rest;
    if i == words.len() - 1 {
        assert(whole.subrange(4 * i, 4 * i + 4) =~= tail);
    } else {
        assert(whole =~= words_to_bytes(front) + (tail + rest));
        lemma_word_at_words(front, tail + rest, i);
    }
}

/// The bytes of a sequence of words are made of exactly those words.
pub proof fn lemma_words_read_back(words: Seq<u32>)
    ensures
        words_of(words_to_bytes(words)) == words,
{
    let bytes = words_to_bytes(words);
    lemma_words_to_bytes_len(words);
    assert forall|i: int| 0 <= i < words.len() implies words_of(bytes)[i] == words[i] by {
        assert(bytes + Seq::<u8>::empty() =~= bytes);
        lemma_word_at_words(words, Seq::<u8>::empty(), i);
    }
    assert(words_of(bytes) =~= words);
}

/// What is committed to the journal reads back as it was, whatever words
/// follow it.
pub proof fn lemma_journal_reads_back(output: Seq<u8>, rest: Seq<u8>)
    requires
        output.len() <= u32::MAX,
        rest.len() % 4 == 0,
    ensures
        committed_bytes(journal_for(output) + rest) == Some(output),
{
    let words = committed_words(output);
    let journal = journal_for(output) + rest;
    let read = words_of(journal);
    lemma_words_to_bytes_len(words);
    lemma_word_at_words(words, rest, 0);
    assert(read[0] == output.len());
    assert forall|i: int| 0 <= i < output.len() implies #[trigger] read[1 + i] == output[i] as u32 by {
        lemma_word_at_words(words, rest, 1 + i);
    }
    assert(hold_committed_bytes(read));
    assert(committed_bytes(journal)->Some_0 =~= output);
}

/// The words that `bytes` are made of, as far as they are whole: up to
/// three bytes at the end are left out.
pub fn words_of_bytes(bytes: &[u8]) -> (words: Vec<u32>)
    ensures
        words@ == words_of(bytes@),
{
    let total = bytes.len();
    let count = total / 4;
    let mut words: Vec<u32> = Vec::new();
    let mut i: usize = 0;
    while i < count
        invariant
            i <= count,
            total == bytes@.len(),
            count == total / 4,
            words@ == words_of(bytes@).subrange(0, i as int),
        decreases count - i,
    {
        assert(4 * i + 4 <= total);
        let word = u32_from_le_bytes(slice_subrange(bytes, 4 * i, 4 * i + 4));
        words.push(word);
        proof {
            assert(words@ =~= words_of(bytes@).subrange(0, i + 1));
        }
        i = i + 1;
    }
    proof {
        assert(words@ =~= words_of(bytes@));
    }
    words
}

/// The journal that the machine leaves when it commits `output`.
///
/// The machine counts the bytes in one word: an output of more than
/// `u32::MAX` bytes cannot be committed and gives `ExecutionFailure`.
pub fn commit(output: &Vec<u8>) -> (r: Result<Vec<u8>, TransferError>)
    ensures
        output@.len() <= u32::MAX ==> (r matches Ok(journal) && journal@ == journal_for(output@)),
        output@.len() > u32::MAX ==> r == Err::<Vec<u8>, TransferError>(
            TransferError::ExecutionFailure,
        ),
{
    if output.len() > 0xffff_ffff {
        return Err(TransferError::ExecutionFailure);
    }
    let words = machine_words(output).unwrap();
    Ok(bytes_of_words(&words))
}

/// The byte string that was committed to `journal`.
///
/// A journal that is no whole number of words, that ends before the length
/// it announces, or that holds a word where a byte should be, gives
/// `ExecutionFailure`. Words after the byte string are ignored.
pub fn payload(journal: &[u8]) -> (r: Result<Vec<u8>, TransferError>)
    ensures
        match (r, committed_bytes(journal@)) {
            (Ok(output), Some(expected)) => output@ == expected,
            (Err(e), None) => e == TransferError::ExecutionFailure,
            _ => false,
        },
{
    if journal.len() % 4 != 0 {
        return Err(TransferError::ExecutionFailure);
    }
    let words = words_of_bytes(journal);
    match machine_bytes(&words) {
        None => Err(TransferError::ExecutionFailure),
        Some(output) => Ok(output),
    }
}

} // verus!
