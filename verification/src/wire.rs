//! The byte layouts shared with the isolated machine and with downstream
//! verifiers: length-prefixed byte strings, and sequences of 32-bit words.

use vstd::bytes::*;
use vstd::prelude::*;

verus! {

/// A byte string preceded by its length as eight little-endian bytes.
pub open spec fn frame(payload: Seq<u8>) -> Seq<u8> {
    spec_u64_to_le_bytes(payload.len() as u64) + payload
}

/// Whether `input` starts with a complete frame.
pub open spec fn starts_with_frame(input: Seq<u8>) -> bool {
    input.len() >= 8 && spec_u64_from_le_bytes(input.subrange(0, 8)) <= input.len() - 8
}

/// The payload of the frame that `input` starts with.
pub open spec fn first_payload(input: Seq<u8>) -> Seq<u8>
    recommends
        starts_with_frame(input),
{
    input.subrange(8, 8 + spec_u64_from_le_bytes(input.subrange(0, 8)) as int)
}

/// What follows the frame that `input` starts with.
pub open spec fn after_first_frame(input: Seq<u8>) -> Seq<u8>
    recommends
        starts_with_frame(input),
{
    input.subrange(8 + spec_u64_from_le_bytes(input.subrange(0, 8)) as int, input.len() as int)
}

/// The payload read from the front of `input`, if a complete frame is there.
pub open spec fn read_frame(input: Seq<u8>) -> Option<Seq<u8>> {
    if starts_with_frame(input) {
        Some(first_payload(input))
    } else {
        None
    }
}

/// The four bytes of each word, least significant first, one word after the
/// other.
pub open spec fn words_to_bytes(words: Seq<u32>) -> Seq<u8>
    decreases words.len(),
{
    if words.len() == 0 {
        Seq::<u8>::empty()
    } else {
        words_to_bytes(words.drop_last()) + spec_u32_to_le_bytes(words.last())
    }
}

/// A frame followed by anything reads back as its payload, and leaves what
/// followed.
pub proof fn lemma_frame_reads_back(payload: Seq<u8>, rest: Seq<u8>)
    requires
        payload.len() <= u64::MAX,
    ensures
        starts_with_frame(frame(payload) + rest),
        first_payload(frame(payload) + rest) == payload,
        after_first_frame(frame(payload) + rest) == rest,
        read_frame(frame(payload) + rest) == Some(payload),
        frame(payload).len() == payload.len() + 8,
{
    lemma_auto_spec_u64_to_from_le_bytes();
    let n = payload.len() as u64;
    let whole = frame(payload) + rest;
    assert(spec_u64_to_le_bytes(n).len() == 8);
    assert(whole.subrange(0, 8) =~= spec_u64_to_le_bytes(n));
    assert(spec_u64_from_le_bytes(whole.subrange(0, 8)) == n);
    assert(whole.subrange(8, 8 + n as int) =~= payload);
    assert(whole.subrange(8 + n as int, whole.len() as int) =~= rest);
}

/// Each word takes four bytes.
pub proof fn lemma_words_to_bytes_len(words: Seq<u32>)
    ensures
        words_to_bytes(words).len() == 4 * words.len(),
    decreases words.len(),
{
    lemma_auto_spec_u32_to_from_le_bytes();
    if words.len() > 0 {
        lemma_words_to_bytes_len(words.drop_last());
    }
}

/// The bytes of one more word are appended at the end.
pub proof fn lemma_words_to_bytes_push(words: Seq<u32>, word: u32)
    ensures
        words_to_bytes(words.push(word)) == words_to_bytes(words) + spec_u32_to_le_bytes(word),
{
    assert(words.push(word).drop_last() =~= words);
}

/// The bytes of `words`, four for each word, least significant byte first.
pub fn bytes_of_words(words: &Vec<u32>) -> (out: Vec<u8>)
    ensures
        out@ == words_to_bytes(words@),
{
    let mut out: Vec<u8> = Vec::new();
    let mut i: usize = 0;
    while i < words.len()
        invariant
            i <= words.len(),
            out@ == words_to_bytes(words@.subrange(0, i as int)),
        decreases words.len() - i,
    {
        let mut piece = u32_to_le_bytes(words[i]);
        proof {
            lemma_words_to_bytes_push(words@.subrange(0, i as int), words@[i as int]);
            assert(words@.subrange(0, i as int).push(words@[i as int]) =~= words@.subrange(
                0,
                i + 1,
            ));
        }
        out.append(&mut piece);
        i = i + 1;
    }
    proof {
        assert(words@.subrange(0, words@.len() as int) =~= words@);
    }
    out
}

} // verus!
