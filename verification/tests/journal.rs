use fhe_pay::error::TransferError;
use fhe_pay::journal::{commit, payload, words_of_bytes};
use fhe_pay::wire::bytes_of_words;

#[test]
fn a_committed_byte_string_is_a_length_and_one_word_for_each_byte() {
    assert_eq!(commit(&vec![7, 255]), Ok(vec![2, 0, 0, 0, 7, 0, 0, 0, 255, 0, 0, 0]));
    assert_eq!(commit(&vec![]), Ok(vec![0, 0, 0, 0]));
    let long = commit(&vec![1; 300]).unwrap();
    assert_eq!(long.len(), 4 + 4 * 300);
    assert_eq!(&long[..8], &[44, 1, 0, 0, 1, 0, 0, 0]);
}

#[test]
fn what_is_committed_is_what_the_machine_would_write() {
    let output: Vec<u8> = (0..=255).collect();
    let words = risc0_zkvm::serde::to_vec(&output).unwrap();
    let written: Vec<u8> = words.iter().flat_map(|word| word.to_le_bytes()).collect();
    assert_eq!(commit(&output), Ok(written));
}

#[test]
fn a_journal_reads_back_as_what_was_committed() {
    for output in [vec![], vec![0u8], vec![1, 2, 3], (0..=255).collect::<Vec<u8>>()] {
        let journal = commit(&output).unwrap();
        assert_eq!(payload(&journal), Ok(output));
    }
}

#[test]
fn a_journal_is_read_as_the_machine_reads_it() {
    let journal = vec![3, 0, 0, 0, 9, 0, 0, 0, 8, 0, 0, 0, 7, 0, 0, 0];
    assert_eq!(payload(&journal), Ok(vec![9, 8, 7]));
    let decoded: Vec<u8> = risc0_zkvm::Journal::new(journal).decode().unwrap();
    assert_eq!(decoded, vec![9, 8, 7]);
}

#[test]
fn words_after_the_committed_bytes_are_ignored() {
    let journal = vec![1, 0, 0, 0, 9, 0, 0, 0, 0xff, 0xff, 0xff, 0xff];
    assert_eq!(payload(&journal), Ok(vec![9]));
}

#[test]
fn a_journal_that_is_no_whole_number_of_words_is_unreadable() {
    assert_eq!(payload(&[1, 0, 0, 0, 9, 0, 0, 0, 0]), Err(TransferError::ExecutionFailure));
    assert_eq!(payload(&[0, 0, 0]), Err(TransferError::ExecutionFailure));
    assert_eq!(payload(&[0, 0, 0, 0, 0]), Err(TransferError::ExecutionFailure));
}

#[test]
fn a_journal_that_ends_early_is_unreadable() {
    assert_eq!(payload(&[]), Err(TransferError::ExecutionFailure));
    assert_eq!(payload(&[2, 0, 0, 0, 9, 0, 0, 0]), Err(TransferError::ExecutionFailure));
    assert_eq!(payload(&[0xff, 0xff, 0xff, 0xff]), Err(TransferError::ExecutionFailure));
}

#[test]
fn a_journal_with_a_word_where_a_byte_should_be_is_unreadable() {
    assert_eq!(payload(&[1, 0, 0, 0, 0, 1, 0, 0]), Err(TransferError::ExecutionFailure));
    assert_eq!(payload(&[1, 0, 0, 0, 255, 0, 0, 0]), Ok(vec![255]));
}

#[test]
fn words_are_written_least_significant_byte_first() {
    assert_eq!(bytes_of_words(&vec![]), Vec::<u8>::new());
    assert_eq!(bytes_of_words(&vec![1]), vec![1, 0, 0, 0]);
    assert_eq!(
        bytes_of_words(&vec![0x0403_0201, 0xffff_fffe]),
        vec![1, 2, 3, 4, 0xfe, 0xff, 0xff, 0xff]
    );
}

#[test]
fn bytes_are_read_as_words_least_significant_byte_first() {
    assert_eq!(words_of_bytes(&[]), Vec::<u32>::new());
    assert_eq!(words_of_bytes(&[1, 2, 3]), Vec::<u32>::new());
    assert_eq!(words_of_bytes(&[1, 2, 3, 4]), vec![0x0403_0201]);
    assert_eq!(words_of_bytes(&[1, 2, 3, 4, 0xfe, 0xff, 0xff, 0xff, 9]), vec![0x0403_0201, 0xffff_fffe]);
    let words = vec![7, 0x0102_0304, u32::MAX];
    assert_eq!(words_of_bytes(&bytes_of_words(&words)), words);
}
