use fhe_pay::codec::{all_below, Ciphertext, Plaintext};
use fhe_pay::error::TransferError;
use fhe_pay::params::{ParameterSet, SchemeParameters};
use fhe_traits::{FheDecoder, FheEncoder};

fn first_coefficient(scheme: &SchemeParameters, secret_key: &[u8], ciphertext: &Ciphertext) -> i64 {
    scheme.decrypt(secret_key, ciphertext).unwrap()[0]
}

#[test]
fn what_is_encrypted_decrypts_to_itself() {
    let scheme = SchemeParameters::canonical().unwrap();
    let pair = scheme.generate_key_pair();
    for value in [0u64, 1, 2, 30, 100, 575] {
        let ciphertext = scheme.encrypt(&pair.public_key, value).unwrap();
        let values = scheme.decrypt(&pair.secret_key, &ciphertext).unwrap();
        assert_eq!(values, vec![value as i64, 0, 0, 0, 0, 0, 0, 0]);
    }
}

#[test]
fn every_value_of_the_plaintext_domain_decrypts_to_itself() {
    let scheme = SchemeParameters::canonical().unwrap();
    let pair = scheme.generate_key_pair();
    for value in 0..1153u64 {
        let ciphertext = scheme.encrypt(&pair.public_key, value).unwrap();
        assert_eq!(first_coefficient(&scheme, &pair.secret_key, &ciphertext), value as i64);
    }
}

#[test]
fn the_largest_value_of_the_plaintext_domain_decrypts_to_itself() {
    let scheme = SchemeParameters::canonical().unwrap();
    let pair = scheme.generate_key_pair();
    let ciphertext = scheme.encrypt(&pair.public_key, 1152).unwrap();
    assert_eq!(scheme.decrypt(&pair.secret_key, &ciphertext), Ok(vec![1152, 0, 0, 0, 0, 0, 0, 0]));
}

#[test]
fn generated_keys_read_in_their_ring() {
    let scheme = SchemeParameters::construct(16, vec![62, 62], 1153).unwrap();
    for _ in 0..4 {
        let pair = scheme.generate_key_pair();
        let ciphertext = scheme.encrypt(&pair.public_key, 1152).unwrap();
        assert_eq!(scheme.decrypt(&pair.secret_key, &ciphertext).unwrap()[0], 1152);
    }
}

#[test]
fn a_ciphertext_carries_the_parameters_it_was_made_under() {
    let scheme = SchemeParameters::canonical().unwrap();
    let pair = scheme.generate_key_pair();
    let ciphertext = scheme.encrypt(&pair.public_key, 5).unwrap();
    assert_eq!(
        ciphertext.parameters,
        ParameterSet { degree: 8, moduli_sizes: vec![62], plaintext_modulus: 1153 }
    );
    assert!(!ciphertext.bytes.is_empty());
}

#[test]
fn encrypting_twice_gives_different_bytes() {
    let scheme = SchemeParameters::canonical().unwrap();
    let pair = scheme.generate_key_pair();
    let first = scheme.encrypt(&pair.public_key, 42).unwrap();
    let second = scheme.encrypt(&pair.public_key, 42).unwrap();
    assert_ne!(first.bytes, second.bytes);
    assert_eq!(first_coefficient(&scheme, &pair.secret_key, &first), 42);
    assert_eq!(first_coefficient(&scheme, &pair.secret_key, &second), 42);
}

#[test]
fn generating_twice_gives_different_keys() {
    let scheme = SchemeParameters::canonical().unwrap();
    let first = scheme.generate_key_pair();
    let second = scheme.generate_key_pair();
    assert!(!first.secret_key.is_empty());
    assert!(!first.public_key.is_empty());
    assert_ne!(first.secret_key, first.public_key);
    assert_ne!(first.public_key, second.public_key);
}

#[test]
fn another_secret_key_does_not_decrypt() {
    let scheme = SchemeParameters::canonical().unwrap();
    let alice = scheme.generate_key_pair();
    let bob = scheme.generate_key_pair();
    let mut wrong = 0;
    for _ in 0..8 {
        let ciphertext = scheme.encrypt(&alice.public_key, 7).unwrap();
        let values = scheme.decrypt(&bob.secret_key, &ciphertext).unwrap();
        if values != vec![7, 0, 0, 0, 0, 0, 0, 0] {
            wrong += 1;
        }
    }
    assert!(wrong > 0);
}

#[test]
fn a_value_that_the_plaintext_modulus_does_not_hold_is_not_encrypted() {
    let scheme = SchemeParameters::canonical().unwrap();
    let pair = scheme.generate_key_pair();
    assert_eq!(scheme.encrypt(&pair.public_key, 1153), Err(TransferError::EncryptionFailure));
    assert_eq!(scheme.encrypt(&pair.public_key, u64::MAX), Err(TransferError::EncryptionFailure));
    assert!(scheme.encrypt(&pair.public_key, 1152).is_ok());
}

#[test]
fn bytes_that_are_no_key_are_not_encrypted_under() {
    let scheme = SchemeParameters::canonical().unwrap();
    assert_eq!(scheme.encrypt(&[0xff, 0xff, 0xff], 1), Err(TransferError::DeserializationError));
    assert_eq!(scheme.encrypt(&[], 1), Err(TransferError::DeserializationError));
}

#[test]
fn a_key_of_another_ring_is_not_encrypted_under() {
    let small = SchemeParameters::canonical().unwrap();
    let large = SchemeParameters::construct(16, vec![62], 1153).unwrap();
    let pair = large.generate_key_pair();
    assert_eq!(small.encrypt(&pair.public_key, 1), Err(TransferError::DeserializationError));
}

#[test]
fn a_key_with_a_polynomial_in_the_wrong_representation_is_refused() {
    let scheme = SchemeParameters::canonical().unwrap();
    let pair = scheme.generate_key_pair();
    let mut key = pair.public_key.clone();
    // key: field 1 (the ciphertext) > field 1 (its first polynomial) > field 1 (the representation)
    assert_eq!((key[0], key[2], key[4], key[5]), (0x0a, 0x0a, 0x08, 2));
    key[5] = 1;
    assert_eq!(scheme.encrypt(&key, 1), Err(TransferError::DeserializationError));
}

#[test]
fn the_error_of_a_bad_key_comes_before_that_of_a_bad_value() {
    let scheme = SchemeParameters::canonical().unwrap();
    assert_eq!(scheme.encrypt(&[1, 2, 3], 5000), Err(TransferError::DeserializationError));
}

#[test]
fn bytes_that_are_no_secret_key_do_not_decrypt() {
    let scheme = SchemeParameters::canonical().unwrap();
    let pair = scheme.generate_key_pair();
    let ciphertext = scheme.encrypt(&pair.public_key, 9).unwrap();
    assert_eq!(scheme.decrypt(&[0xff, 0xff], &ciphertext), Err(TransferError::DeserializationError));
}

#[test]
fn bytes_that_are_no_ciphertext_do_not_decrypt() {
    let scheme = SchemeParameters::canonical().unwrap();
    let pair = scheme.generate_key_pair();
    let garbage = Ciphertext { parameters: scheme.parameter_set(), bytes: vec![0xff, 0xff, 0xff] };
    assert_eq!(scheme.decrypt(&pair.secret_key, &garbage), Err(TransferError::DeserializationError));
    let empty = Ciphertext { parameters: scheme.parameter_set(), bytes: vec![] };
    assert_eq!(scheme.decrypt(&pair.secret_key, &empty), Err(TransferError::DeserializationError));
}

#[test]
fn a_ciphertext_tagged_with_another_ring_does_not_decrypt() {
    let small = SchemeParameters::canonical().unwrap();
    let large = SchemeParameters::construct(16, vec![62], 1153).unwrap();
    let pair = small.generate_key_pair();
    let mut ciphertext = small.encrypt(&pair.public_key, 9).unwrap();
    ciphertext.parameters = large.parameter_set();
    assert_eq!(small.decrypt(&pair.secret_key, &ciphertext), Err(TransferError::ParameterMismatchError));
}

#[test]
fn a_ciphertext_of_another_ring_under_a_false_tag_does_not_decrypt() {
    let small = SchemeParameters::canonical().unwrap();
    let large = SchemeParameters::construct(16, vec![62], 1153).unwrap();
    let pair = small.generate_key_pair();
    let foreign = large.generate_key_pair();
    let mut ciphertext = large.encrypt(&foreign.public_key, 9).unwrap();
    ciphertext.parameters = small.parameter_set();
    assert_eq!(small.decrypt(&pair.secret_key, &ciphertext), Err(TransferError::DeserializationError));
}

#[test]
fn a_ciphertext_with_a_polynomial_in_the_wrong_representation_does_not_decrypt() {
    let scheme = SchemeParameters::canonical().unwrap();
    let pair = scheme.generate_key_pair();
    let mut ciphertext = scheme.encrypt(&pair.public_key, 9).unwrap();
    // ciphertext: field 1 (its first polynomial) > field 1 (the representation)
    assert_eq!((ciphertext.bytes[0], ciphertext.bytes[2], ciphertext.bytes[3]), (0x0a, 0x08, 2));
    ciphertext.bytes[3] = 1;
    assert_eq!(scheme.decrypt(&pair.secret_key, &ciphertext), Err(TransferError::DeserializationError));
}

#[test]
fn decryption_is_a_function_of_its_input() {
    let scheme = SchemeParameters::canonical().unwrap();
    let pair = scheme.generate_key_pair();
    let ciphertext = scheme.encrypt(&pair.public_key, 77).unwrap();
    let first = scheme.decrypt(&pair.secret_key, &ciphertext).unwrap();
    let second = scheme.decrypt(&pair.secret_key, &ciphertext).unwrap();
    assert_eq!(first, second);
}

fn plaintext(scheme: &SchemeParameters, coefficients: Vec<u64>) -> Plaintext {
    Plaintext { parameters: scheme.parameter_set(), coefficients }
}

#[test]
fn values_are_encoded_as_the_lowest_coefficients() {
    let scheme = SchemeParameters::canonical().unwrap();
    assert_eq!(scheme.encode(&[5, 6]), Ok(plaintext(&scheme, vec![5, 6, 0, 0, 0, 0, 0, 0])));
    assert_eq!(scheme.encode(&[]), Ok(plaintext(&scheme, vec![0; 8])));
    assert_eq!(scheme.encode(&[1152]), Ok(plaintext(&scheme, vec![1152, 0, 0, 0, 0, 0, 0, 0])));
    assert_eq!(
        scheme.encode(&[1, 2, 3, 4, 5, 6, 7, 8]),
        Ok(plaintext(&scheme, vec![1, 2, 3, 4, 5, 6, 7, 8]))
    );
}

#[test]
fn what_the_ring_cannot_hold_is_not_encoded() {
    let scheme = SchemeParameters::canonical().unwrap();
    assert_eq!(scheme.encode(&[1, 2, 3, 4, 5, 6, 7, 8, 9]), Err(TransferError::EncryptionFailure));
    assert_eq!(scheme.encode(&[1153]), Err(TransferError::EncryptionFailure));
    assert_eq!(scheme.encode(&[0, u64::MAX]), Err(TransferError::EncryptionFailure));
}

#[test]
fn coefficients_are_decoded_as_they_are() {
    let scheme = SchemeParameters::canonical().unwrap();
    let coefficients = vec![0, 575, 576, 577, 1152, 1, 2, 3];
    assert_eq!(
        scheme.decode(&plaintext(&scheme, coefficients)),
        Ok(vec![0, 575, 576, 577, 1152, 1, 2, 3])
    );
}

#[test]
fn coefficients_are_decoded_as_the_scheme_decodes_them() {
    let scheme = SchemeParameters::canonical().unwrap();
    let ring = fhe::bfv::BfvParametersBuilder::new()
        .set_degree(8)
        .set_plaintext_modulus(1153)
        .set_moduli_sizes(&[62])
        .build_arc()
        .unwrap();
    for start in [0u64, 570, 576, 1145] {
        assert!(start + 8 <= 1153);
        let coefficients: Vec<u64> = (start..start + 8).collect();
        let outside = fhe::bfv::Plaintext::try_encode(&coefficients, fhe::bfv::Encoding::poly(), &ring).unwrap();
        let read = Vec::<u64>::try_decode(&outside, fhe::bfv::Encoding::poly()).unwrap();
        let expected: Vec<i64> = read.iter().map(|value| *value as i64).collect();
        assert_eq!(scheme.decode(&plaintext(&scheme, coefficients)), Ok(expected));
    }
}

#[test]
fn decoding_undoes_encoding() {
    let scheme = SchemeParameters::canonical().unwrap();
    for value in [0u64, 1, 575, 576, 1000, 1152] {
        let decoded = scheme.decode(&scheme.encode(&[value]).unwrap()).unwrap();
        assert_eq!(decoded, vec![value as i64, 0, 0, 0, 0, 0, 0, 0]);
    }
}

#[test]
fn a_plaintext_that_is_none_of_the_ring_is_not_decoded() {
    let scheme = SchemeParameters::canonical().unwrap();
    let large = SchemeParameters::construct(16, vec![62], 1153).unwrap();
    assert_eq!(scheme.decode(&plaintext(&scheme, vec![0; 7])), Err(TransferError::ParameterMismatchError));
    assert_eq!(scheme.decode(&plaintext(&scheme, vec![0; 9])), Err(TransferError::ParameterMismatchError));
    assert_eq!(
        scheme.decode(&plaintext(&scheme, vec![0, 0, 0, 0, 0, 0, 0, 1153])),
        Err(TransferError::ParameterMismatchError)
    );
    assert_eq!(scheme.decode(&plaintext(&large, vec![0; 8])), Err(TransferError::ParameterMismatchError));
    assert!(scheme.holds(&plaintext(&scheme, vec![1152; 8])));
    assert!(!scheme.holds(&plaintext(&scheme, vec![1153; 8])));
    assert!(!scheme.holds(&plaintext(&large, vec![0; 8])));
}

#[test]
fn a_short_vector_is_encrypted_and_decrypted_coefficient_by_coefficient() {
    let scheme = SchemeParameters::canonical().unwrap();
    let pair = scheme.generate_key_pair();
    let encoded = scheme.encode(&[1, 2, 3, 1152]).unwrap();
    let ciphertext = scheme.encrypt_plaintext(&pair.public_key, &encoded).unwrap();
    let decrypted = scheme.decrypt_plaintext(&pair.secret_key, &ciphertext).unwrap();
    assert_eq!(decrypted, encoded);
    assert_eq!(scheme.decode(&decrypted), Ok(vec![1, 2, 3, 1152, 0, 0, 0, 0]));
    assert_eq!(scheme.decrypt(&pair.secret_key, &ciphertext), Ok(vec![1, 2, 3, 1152, 0, 0, 0, 0]));
}

#[test]
fn a_plaintext_that_is_none_of_the_ring_is_not_encrypted() {
    let scheme = SchemeParameters::canonical().unwrap();
    let large = SchemeParameters::construct(16, vec![62], 1153).unwrap();
    let pair = scheme.generate_key_pair();
    assert_eq!(
        scheme.encrypt_plaintext(&pair.public_key, &plaintext(&large, vec![0; 16])),
        Err(TransferError::ParameterMismatchError)
    );
    assert_eq!(
        scheme.encrypt_plaintext(&[0xff], &plaintext(&large, vec![0; 16])),
        Err(TransferError::ParameterMismatchError)
    );
    assert_eq!(
        scheme.encrypt_plaintext(&pair.public_key, &plaintext(&scheme, vec![0; 7])),
        Err(TransferError::EncryptionFailure)
    );
    assert_eq!(
        scheme.encrypt_plaintext(&pair.public_key, &plaintext(&scheme, vec![1153, 0, 0, 0, 0, 0, 0, 0])),
        Err(TransferError::EncryptionFailure)
    );
    assert_eq!(
        scheme.encrypt_plaintext(&[0xff], &plaintext(&scheme, vec![0; 7])),
        Err(TransferError::DeserializationError)
    );
}

#[test]
fn values_are_compared_with_the_modulus_one_by_one() {
    assert!(all_below(&[], 0));
    assert!(all_below(&[0, 1, 2], 3));
    assert!(!all_below(&[0, 3, 2], 3));
    assert!(!all_below(&[0], 0));
}

#[test]
fn what_is_encrypted_reads_back_as_the_scheme_wrote_it() {
    let scheme = SchemeParameters::canonical().unwrap();
    let pair = scheme.generate_key_pair();
    let ciphertext = scheme.encrypt(&pair.public_key, 9).unwrap();
    let ring = fhe::bfv::BfvParametersBuilder::new()
        .set_degree(8)
        .set_plaintext_modulus(1153)
        .set_moduli_sizes(&[62])
        .build_arc()
        .unwrap();
    let read = <fhe::bfv::Ciphertext as fhe_traits::DeserializeParametrized>::from_bytes(&ciphertext.bytes, &ring).unwrap();
    assert_eq!(read.len(), 2);
    assert_eq!(fhe_traits::Serialize::to_bytes(&read), ciphertext.bytes);
    let checked = fhe::bfv::Ciphertext::new(read.to_vec(), &ring).unwrap();
    assert_eq!(checked, read);
}
