use fhe_pay::error::{ErrorClass, TransferError};
use fhe_pay::params::{check_admissible, power_of_two, ParameterSet, SchemeParameters};

#[test]
fn canonical_ring_has_degree_eight_and_modulus_1153() {
    let scheme = SchemeParameters::canonical().unwrap();
    assert_eq!(scheme.degree(), 8);
    assert_eq!(scheme.plaintext_modulus(), 1153);
    let set = scheme.parameter_set();
    assert_eq!(set, ParameterSet { degree: 8, moduli_sizes: vec![62], plaintext_modulus: 1153 });
    assert!(scheme.governs(&set));
}

#[test]
fn construct_accepts_a_larger_ring_with_two_moduli() {
    let scheme = SchemeParameters::construct(16, vec![62, 62], 1153).unwrap();
    assert_eq!(scheme.degree(), 16);
    assert_eq!(scheme.parameter_set().moduli_sizes, vec![62, 62]);
}

#[test]
fn construct_rejects_a_degree_below_eight() {
    assert_eq!(SchemeParameters::construct(4, vec![62], 1153).err(), Some(TransferError::InvalidParameters));
}

#[test]
fn construct_rejects_a_degree_that_is_no_power_of_two() {
    assert_eq!(SchemeParameters::construct(12, vec![62], 1153).err(), Some(TransferError::InvalidParameters));
}

#[test]
fn construct_rejects_a_plaintext_modulus_of_one() {
    assert_eq!(SchemeParameters::construct(8, vec![62], 1).err(), Some(TransferError::InvalidParameters));
}

#[test]
fn construct_rejects_a_plaintext_modulus_of_63_bits() {
    assert_eq!(
        SchemeParameters::construct(8, vec![62], 1u64 << 62).err(),
        Some(TransferError::InvalidParameters)
    );
}

#[test]
fn construct_rejects_an_empty_list_of_moduli() {
    assert_eq!(SchemeParameters::construct(8, vec![], 1153).err(), Some(TransferError::InvalidParameters));
}

#[test]
fn construct_rejects_modulus_sizes_out_of_range() {
    assert_eq!(SchemeParameters::construct(8, vec![9], 1153).err(), Some(TransferError::InvalidParameters));
    assert_eq!(SchemeParameters::construct(8, vec![63], 1153).err(), Some(TransferError::InvalidParameters));
}

#[test]
fn admissible_numbers_are_told_from_the_others() {
    assert!(check_admissible(8, &vec![62], 1153));
    assert!(check_admissible(1024, &vec![10, 62], 2));
    assert!(!check_admissible(7, &vec![62], 1153));
    assert!(!check_admissible(24, &vec![62], 1153));
    assert!(!check_admissible(8, &vec![], 1153));
    assert!(!check_admissible(8, &vec![62, 9], 1153));
    assert!(!check_admissible(8, &vec![63], 1153));
    assert!(!check_admissible(8, &vec![62], 0));
    assert!(!check_admissible(8, &vec![62], 1));
    assert!(check_admissible(8, &vec![62], (1u64 << 61) - 1));
    assert!(!check_admissible(8, &vec![62], 1u64 << 61));
    assert!(check_admissible(8, &vec![10], 511));
    assert!(!check_admissible(8, &vec![10], 512));
    assert!(!check_admissible(8, &vec![62, 10], 1009));
    assert!(check_admissible(65536, &vec![62], 1153));
    assert!(!check_admissible(131072, &vec![62], 1153));
    assert!(!check_admissible(1usize << 63, &vec![62], 1153));
    assert!(check_admissible(8, &vec![62; 64], 1153));
    assert!(!check_admissible(8, &vec![62; 65], 1153));
}

#[test]
fn powers_of_two_are_recognised() {
    assert!(power_of_two(1));
    assert!(power_of_two(2));
    assert!(power_of_two(8));
    assert!(power_of_two(1usize << 40));
    assert!(!power_of_two(0));
    assert!(!power_of_two(3));
    assert!(!power_of_two(12));
    assert!(!power_of_two(usize::MAX));
}

#[test]
fn parameter_sets_compare_by_their_numbers() {
    let a = ParameterSet { degree: 8, moduli_sizes: vec![62], plaintext_modulus: 1153 };
    let b = a.duplicate();
    assert_eq!(a, b);
    assert!(a.same_as(&b));
    assert!(!a.same_as(&ParameterSet { degree: 16, moduli_sizes: vec![62], plaintext_modulus: 1153 }));
    assert!(!a.same_as(&ParameterSet { degree: 8, moduli_sizes: vec![61], plaintext_modulus: 1153 }));
    assert!(!a.same_as(&ParameterSet { degree: 8, moduli_sizes: vec![62, 62], plaintext_modulus: 1153 }));
    assert!(!a.same_as(&ParameterSet { degree: 8, moduli_sizes: vec![62], plaintext_modulus: 1151 }));
}

#[test]
fn a_scheme_governs_only_its_own_parameter_set() {
    let small = SchemeParameters::canonical().unwrap();
    let large = SchemeParameters::construct(16, vec![62], 1153).unwrap();
    assert!(small.governs(&small.parameter_set()));
    assert!(!small.governs(&large.parameter_set()));
    assert!(!large.governs(&small.parameter_set()));
}

#[test]
fn every_error_has_its_class() {
    assert_eq!(TransferError::InvalidParameters.class(), ErrorClass::CallerFault);
    assert_eq!(TransferError::DeserializationError.class(), ErrorClass::CallerFault);
    assert_eq!(TransferError::ParameterMismatchError.class(), ErrorClass::CallerFault);
    assert_eq!(TransferError::EncryptionFailure.class(), ErrorClass::ComputationFailed);
    assert_eq!(TransferError::ExecutionFailure.class(), ErrorClass::ComputationFailed);
    assert_eq!(TransferError::ProofGenerationFailure.class(), ErrorClass::ComputationFailed);
    assert_eq!(TransferError::MetadataExtractionFailure.class(), ErrorClass::ComputationFailed);
    assert_eq!(TransferError::VerificationFailure.class(), ErrorClass::ReceiptRejected);
}

#[test]
fn every_error_has_its_own_code() {
    let all = [
        TransferError::InvalidParameters,
        TransferError::DeserializationError,
        TransferError::ParameterMismatchError,
        TransferError::EncryptionFailure,
        TransferError::ExecutionFailure,
        TransferError::ProofGenerationFailure,
        TransferError::VerificationFailure,
        TransferError::MetadataExtractionFailure,
    ];
    let codes: Vec<u16> = all.iter().map(|e| e.code()).collect();
    assert_eq!(codes, vec![1, 2, 3, 4, 5, 6, 7, 8]);
}

#[test]
fn construct_rejects_a_plaintext_modulus_that_a_ciphertext_modulus_could_equal() {
    assert_eq!(SchemeParameters::construct(8, vec![10], 1009).err(), Some(TransferError::InvalidParameters));
    assert_eq!(SchemeParameters::construct(8, vec![10], 512).err(), Some(TransferError::InvalidParameters));
    assert_eq!(SchemeParameters::construct(8, vec![62, 11], 1153).err(), Some(TransferError::InvalidParameters));
    assert!(SchemeParameters::construct(8, vec![10], 511).is_ok());
    assert!(SchemeParameters::construct(8, vec![62, 12], 1153).is_ok());
}

#[test]
fn construct_rejects_a_degree_or_a_number_of_moduli_beyond_its_range() {
    assert_eq!(
        SchemeParameters::construct(1usize << 63, vec![62], 1153).err(),
        Some(TransferError::InvalidParameters)
    );
    assert_eq!(SchemeParameters::construct(131072, vec![62], 1153).err(), Some(TransferError::InvalidParameters));
    assert_eq!(SchemeParameters::construct(8, vec![62; 65], 1153).err(), Some(TransferError::InvalidParameters));
}

#[test]
fn construct_fails_where_the_primes_run_out() {
    assert_eq!(SchemeParameters::construct(8, vec![10; 64], 3).err(), Some(TransferError::InvalidParameters));
}
