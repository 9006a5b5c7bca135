//! The encryption scheme as this library uses it.
//!
//! Everything here is taken on trust from the `fhe` crate: the types it
//! hands out, a name for what each of its deterministic functions returns,
//! and one function per call that says which name its result has. Nothing in
//! this file is proved; the rest of the library is proved against it.

use fhe::bfv::traits::TryConvertFrom;
use fhe_traits::{
    DeserializeParametrized, FheDecoder, FheDecrypter, FheEncoder, FheEncrypter, Serialize,
};
use rand::TryRngCore;
use std::sync::Arc;
use vstd::prelude::*;

verus! {

/// `fhe::bfv::BfvParameters`: a ring together with everything precomputed
/// for it. Only ever held behind an `Arc`, which this file calls a handle.
///
/// The scheme tells handles apart by their address, not by what they hold.
/// No contract here says that two handles are the same, so what the
/// contracts say of values "under one handle" can only be shown of values
/// made from one and the same `Arc`.
#[verifier::external_type_specification]
#[verifier::external_body]
pub struct ExBfvParameters(fhe::bfv::BfvParameters);

/// `fhe::bfv::PublicKey`.
#[verifier::external_type_specification]
#[verifier::external_body]
pub struct ExPublicKey(fhe::bfv::PublicKey);

/// `fhe::bfv::SecretKey`.
#[verifier::external_type_specification]
#[verifier::external_body]
pub struct ExSecretKey(fhe::bfv::SecretKey);

/// `fhe::Error`.
#[verifier::external_type_specification]
#[verifier::external_body]
pub struct ExFheError(fhe::Error);

/// A `fhe::bfv::Ciphertext`: a short list of ring polynomials, bound to the
/// handle it was made under.
///
/// The outside type dereferences to a slice of polynomials of a crate that
/// this library does not name, so it is kept behind a private field rather
/// than declared.
#[verifier::external_body]
pub struct Polynomials {
    inner: fhe::bfv::Ciphertext,
}

/// Whether `BfvParametersBuilder::build_arc` accepts this degree, these
/// modulus sizes and this plaintext modulus.
pub uninterp spec fn parameters_accepted(
    degree: usize,
    moduli_sizes: Seq<usize>,
    plaintext_modulus: u64,
) -> bool;

/// What `BfvParameters::degree` returns: the number of coefficients of a
/// ring polynomial.
pub uninterp spec fn handle_degree(handle: fhe::bfv::BfvParameters) -> usize;

/// What `BfvParameters::plaintext` returns: the plaintext modulus.
pub uninterp spec fn handle_plaintext_modulus(handle: fhe::bfv::BfvParameters) -> u64;

/// What `PublicKey::from_bytes` returns.
pub uninterp spec fn parsed_public_key(bytes: Seq<u8>, handle: fhe::bfv::BfvParameters) -> Result<
    fhe::bfv::PublicKey,
    fhe::Error,
>;

/// What `SecretKey::from_bytes` returns.
pub uninterp spec fn parsed_secret_key(bytes: Seq<u8>, handle: fhe::bfv::BfvParameters) -> Result<
    fhe::bfv::SecretKey,
    fhe::Error,
>;

/// What `Ciphertext::from_bytes` returns.
pub uninterp spec fn parsed_ciphertext(bytes: Seq<u8>, handle: fhe::bfv::BfvParameters) -> Result<
    Polynomials,
    fhe::Error,
>;

/// The two polynomials inside a public key, as `Ciphertext::try_convert_from`
/// reads them back from the key's wire form.
pub uninterp spec fn key_polynomials(
    key: fhe::bfv::PublicKey,
    handle: fhe::bfv::BfvParameters,
) -> Option<Polynomials>;

/// What `Ciphertext::new` returns for the polynomials of `c`.
pub uninterp spec fn checked_ciphertext(c: Polynomials, handle: fhe::bfv::BfvParameters) -> Result<
    Polynomials,
    fhe::Error,
>;

/// How many polynomials a ciphertext has.
pub uninterp spec fn ciphertext_parts(c: Polynomials) -> nat;

/// The level of a ciphertext in the modulus chain of its handle.
pub uninterp spec fn ciphertext_level(c: Polynomials) -> usize;

/// What `SecretKey::to_bytes` returns.
pub uninterp spec fn secret_key_wire(key: fhe::bfv::SecretKey) -> Seq<u8>;

/// What `PublicKey::to_bytes` returns.
pub uninterp spec fn public_key_wire(key: fhe::bfv::PublicKey) -> Seq<u8>;

/// What `Ciphertext::to_bytes` returns.
pub uninterp spec fn ciphertext_wire(c: Polynomials) -> Seq<u8>;

/// What `&a - &b` returns.
pub uninterp spec fn ciphertext_difference(a: Polynomials, b: Polynomials) -> Polynomials;

/// What `&a + &b` returns.
pub uninterp spec fn ciphertext_sum(a: Polynomials, b: Polynomials) -> Polynomials;

/// The coefficients of the plaintext that `SecretKey::try_decrypt` returns,
/// as `Vec::<u64>::try_decode` reads them under the polynomial encoding.
pub uninterp spec fn decrypted_coefficients(key: fhe::bfv::SecretKey, c: Polynomials) -> Result<
    Seq<u64>,
    fhe::Error,
>;

/// Whether `public` is a key that `PublicKey::new` returns for `secret`,
/// for some draw of its randomness.
pub uninterp spec fn derived_from(secret: fhe::bfv::SecretKey, public: fhe::bfv::PublicKey) -> bool;

/// Whether `c` is a ciphertext that `PublicKey::try_encrypt` returns under
/// `key`, for some draw of its randomness, for the plaintext that
/// `Plaintext::try_encode` makes of `coefficients` under the polynomial
/// encoding.
pub uninterp spec fn encrypts(
    key: fhe::bfv::PublicKey,
    coefficients: Seq<u64>,
    c: Polynomials,
) -> bool;

/// The largest degree of a ring that this library builds.
pub const MAX_DEGREE: usize = 65536;

/// The largest number of ciphertext moduli of a ring that this library
/// builds.
pub const MAX_MODULI: usize = 64;

/// The smallest number of `size` bits. A ciphertext modulus of that size is
/// a prime of exactly that many bits, so it is not below this number.
pub open spec fn smallest_of_size(size: usize) -> u64 {
    1u64 << ((size - 1) as u64)
}

/// The numbers that the builder is called on. It is called on no others:
/// outside of them it may refuse, but it may also panic, run out of primes
/// or out of memory.
///
/// The degree is a power of two from 8 to [`MAX_DEGREE`]; there are from 1
/// to [`MAX_MODULI`] ciphertext moduli, each of 10 to 62 bits; and the
/// plaintext modulus is at least 2 and below the smallest number of each of
/// these sizes, which puts it below every ciphertext modulus.
pub open spec fn admissible(degree: usize, moduli_sizes: Seq<usize>, plaintext_modulus: u64) -> bool {
    &&& 8 <= degree <= MAX_DEGREE
    &&& is_power_of_two(degree as nat)
    &&& 2 <= plaintext_modulus
    &&& 1 <= moduli_sizes.len() <= MAX_MODULI
    &&& forall|i: int|
        0 <= i < moduli_sizes.len() ==> 10 <= #[trigger] moduli_sizes[i] <= 62 && plaintext_modulus
            < smallest_of_size(moduli_sizes[i])
}

/// `n` is 1, 2, 4, 8, ...
pub open spec fn is_power_of_two(n: nat) -> bool
    decreases n,
{
    if n <= 1 {
        n == 1
    } else {
        n % 2 == 0 && is_power_of_two(n / 2)
    }
}

/// `Ciphertext::new` accepts `c` under `handle` and returns it as it is: it
/// holds that handle, and at least two polynomials, all of one level and
/// in the representation that ciphertext arithmetic and decryption expect.
pub open spec fn regular(c: Polynomials, handle: fhe::bfv::BfvParameters) -> bool {
    checked_ciphertext(c, handle) == Ok::<Polynomials, fhe::Error>(c)
}

/// `bytes` read under `handle` as the ciphertext `c`.
pub open spec fn reads_as(bytes: Seq<u8>, c: Polynomials, handle: fhe::bfv::BfvParameters) -> bool {
    parsed_ciphertext(bytes, handle) == Ok::<Polynomials, fhe::Error>(c)
}

/// Both ciphertexts are regular under one handle.
pub open spec fn same_ring(a: Polynomials, b: Polynomials) -> bool {
    exists|handle: fhe::bfv::BfvParameters| #[trigger] regular(a, handle) && regular(b, handle)
}

/// `c` is regular under some handle.
pub open spec fn well_formed(c: Polynomials) -> bool {
    exists|handle: fhe::bfv::BfvParameters| #[trigger] regular(c, handle)
}

/// `key` came out of `PublicKey::from_bytes` under `handle`, and its
/// polynomials pass `Ciphertext::new`.
pub open spec fn usable_key(key: fhe::bfv::PublicKey, handle: fhe::bfv::BfvParameters) -> bool {
    &&& exists|bytes: Seq<u8>| #[trigger]
        parsed_public_key(bytes, handle) == Ok::<fhe::bfv::PublicKey, fhe::Error>(key)
    &&& key_polynomials(key, handle) matches Some(body) && checked_ciphertext(body, handle) is Ok
}

/// The wire form of `key` reads back as `key` under `handle`.
pub open spec fn secret_key_of(key: fhe::bfv::SecretKey, handle: fhe::bfv::BfvParameters) -> bool {
    parsed_secret_key(secret_key_wire(key), handle) == Ok::<fhe::bfv::SecretKey, fhe::Error>(key)
}

/// The wire form of `key` reads back as `key` under `handle`, and its
/// polynomials pass `Ciphertext::new`.
pub open spec fn public_key_of(key: fhe::bfv::PublicKey, handle: fhe::bfv::BfvParameters) -> bool {
    &&& parsed_public_key(public_key_wire(key), handle) == Ok::<fhe::bfv::PublicKey, fhe::Error>(key)
    &&& key_polynomials(key, handle) matches Some(body) && checked_ciphertext(body, handle) is Ok
}

/// Every coefficient is below the plaintext modulus of `handle`.
pub open spec fn below_modulus(coefficients: Seq<u64>, handle: fhe::bfv::BfvParameters) -> bool {
    forall|i: int|
        0 <= i < coefficients.len() ==> #[trigger] coefficients[i] < handle_plaintext_modulus(handle)
}

/// Calls `BfvParametersBuilder::new`, sets degree, plaintext modulus and
/// modulus sizes, and calls `build_arc`.
///
/// The builder unwraps the inverse of the plaintext modulus modulo each
/// ciphertext modulus, which is not there where the two are equal, and in
/// debug builds asserts that the first is below the second; it doubles the
/// degree without a test for overflow; and it unwraps the search for one
/// more 62-bit prime than there are moduli. `requires` leaves out the
/// numbers on which any of this can go wrong.
///
/// Trusted: the builder is a function of its arguments, and the handle it
/// returns reports the degree and the plaintext modulus it was given.
#[verifier::external_body]
pub(crate) fn build_parameters(
    degree: usize,
    moduli_sizes: &Vec<usize>,
    plaintext_modulus: u64,
) -> (r: Result<Arc<fhe::bfv::BfvParameters>, fhe::Error>)
    requires
        admissible(degree, moduli_sizes@, plaintext_modulus),
    ensures
        r is Ok <==> parameters_accepted(degree, moduli_sizes@, plaintext_modulus),
        r matches Ok(handle) ==> handle_degree(*handle) == degree,
        r matches Ok(handle) ==> handle_plaintext_modulus(*handle) == plaintext_modulus,
{
    fhe::bfv::BfvParametersBuilder::new()
        .set_degree(degree)
        .set_plaintext_modulus(plaintext_modulus)
        .set_moduli_sizes(moduli_sizes)
        .build_arc()
}

/// Calls `SecretKey::random` with the operating system's generator.
///
/// Trusted: which key comes out is random; whichever it is, its wire form
/// reads back as the key under the handle it was drawn for.
#[verifier::external_body]
pub(crate) fn random_secret_key(handle: &Arc<fhe::bfv::BfvParameters>) -> (key: fhe::bfv::SecretKey)
    ensures
        secret_key_of(key, **handle),
{
    fhe::bfv::SecretKey::random(handle, &mut rand::rngs::OsRng.unwrap_err())
}

/// Calls `PublicKey::new` with the thread's generator.
///
/// Trusted: which key comes out is random; whichever it is, it is one that
/// the call returns for this secret key, and under the handle of the secret
/// key its wire form reads back as the key and its polynomials pass
/// `Ciphertext::new`.
#[verifier::external_body]
pub(crate) fn derive_public_key(secret: &fhe::bfv::SecretKey) -> (key: fhe::bfv::PublicKey)
    ensures
        derived_from(*secret, key),
        forall|handle: fhe::bfv::BfvParameters| #[trigger]
            secret_key_of(*secret, handle) ==> public_key_of(key, handle),
{
    fhe::bfv::PublicKey::new(secret, &mut rand::rng())
}

/// Calls `SecretKey::to_bytes`.
///
/// Trusted: the result is a function of the key.
#[verifier::external_body]
pub(crate) fn secret_key_to_bytes(key: &fhe::bfv::SecretKey) -> (bytes: Vec<u8>)
    ensures
        bytes@ == secret_key_wire(*key),
{
    key.to_bytes()
}

/// Calls `PublicKey::to_bytes`.
///
/// Trusted: the result is a function of the key.
#[verifier::external_body]
pub(crate) fn public_key_to_bytes(key: &fhe::bfv::PublicKey) -> (bytes: Vec<u8>)
    ensures
        bytes@ == public_key_wire(*key),
{
    key.to_bytes()
}

/// Calls `PublicKey::from_bytes`.
///
/// Trusted: the result is a function of the bytes and the handle.
#[verifier::external_body]
pub(crate) fn public_key_from_bytes(bytes: &[u8], handle: &Arc<fhe::bfv::BfvParameters>) -> (r: Result<
    fhe::bfv::PublicKey,
    fhe::Error,
>)
    ensures
        r == parsed_public_key(bytes@, **handle),
{
    fhe::bfv::PublicKey::from_bytes(bytes, handle)
}

/// Writes the key in its wire form with `fhe::proto::bfv::PublicKey::from`
/// and reads the ciphertext in it back with `Ciphertext::try_convert_from`.
///
/// Trusted: the result is a function of the key and the handle.
#[verifier::external_body]
pub(crate) fn public_key_polynomials(
    key: &fhe::bfv::PublicKey,
    handle: &Arc<fhe::bfv::BfvParameters>,
) -> (r: Option<Polynomials>)
    ensures
        r == key_polynomials(*key, **handle),
{
    match fhe::proto::bfv::PublicKey::from(key).c {
        Some(body) => match fhe::bfv::Ciphertext::try_convert_from(&body, handle) {
            Ok(inner) => Some(Polynomials { inner }),
            Err(_) => None,
        },
        None => None,
    }
}

/// Calls `SecretKey::from_bytes`.
///
/// Trusted: the result is a function of the bytes and the handle.
#[verifier::external_body]
pub(crate) fn secret_key_from_bytes(bytes: &[u8], handle: &Arc<fhe::bfv::BfvParameters>) -> (r: Result<
    fhe::bfv::SecretKey,
    fhe::Error,
>)
    ensures
        r == parsed_secret_key(bytes@, **handle),
{
    fhe::bfv::SecretKey::from_bytes(bytes, handle)
}

/// Calls `Ciphertext::from_bytes`.
///
/// Trusted: the result is a function of the bytes and the handle, and a
/// ciphertext that was read has at least two polynomials.
#[verifier::external_body]
pub(crate) fn ciphertext_from_bytes(bytes: &[u8], handle: &Arc<fhe::bfv::BfvParameters>) -> (r: Result<
    Polynomials,
    fhe::Error,
>)
    ensures
        r == parsed_ciphertext(bytes@, **handle),
        r matches Ok(c) ==> ciphertext_parts(c) >= 2,
{
    match fhe::bfv::Ciphertext::from_bytes(bytes, handle) {
        Ok(inner) => Ok(Polynomials { inner }),
        Err(e) => Err(e),
    }
}

/// Calls `Ciphertext::new` on a copy of the polynomials of `c`.
///
/// Trusted: the result is a function of the ciphertext and the handle; an
/// accepted ciphertext has the polynomials it was given, at least two; and
/// the call accepts what it returned and returns it as it is.
#[verifier::external_body]
pub(crate) fn ciphertext_checked(c: &Polynomials, handle: &Arc<fhe::bfv::BfvParameters>) -> (r: Result<
    Polynomials,
    fhe::Error,
>)
    ensures
        r == checked_ciphertext(*c, **handle),
        r matches Ok(d) ==> ciphertext_parts(d) == ciphertext_parts(*c) && ciphertext_parts(d) >= 2,
        r matches Ok(d) ==> regular(d, **handle),
{
    match fhe::bfv::Ciphertext::new(c.inner.to_vec(), handle) {
        Ok(inner) => Ok(Polynomials { inner }),
        Err(e) => Err(e),
    }
}

/// Calls `len` on the polynomials of `c`.
///
/// Trusted: it is their number.
#[verifier::external_body]
pub(crate) fn ciphertext_len(c: &Polynomials) -> (n: usize)
    ensures
        n == ciphertext_parts(*c),
{
    c.inner.len()
}

/// Calls `BfvParameters::level_of_context` on the context of the first
/// polynomial of `c`, which is how `Ciphertext::new` computed the level.
///
/// Trusted: for a ciphertext that `Ciphertext::new` accepted under this
/// handle the call succeeds, as it did inside `Ciphertext::new`, and gives
/// the ciphertext's level.
#[verifier::external_body]
pub(crate) fn ciphertext_level_of(c: &Polynomials, handle: &Arc<fhe::bfv::BfvParameters>) -> (r: Option<
    usize,
>)
    requires
        regular(*c, **handle),
    ensures
        r == Some(ciphertext_level(*c)),
{
    handle.level_of_context(c.inner[0].ctx()).ok()
}

/// Calls `Ciphertext::to_bytes`.
///
/// Trusted: the result is a function of the ciphertext, and the wire form
/// of a ciphertext that is regular under a handle reads back under that
/// handle as the ciphertext. The call needs at least one polynomial.
#[verifier::external_body]
pub(crate) fn ciphertext_to_bytes(c: &Polynomials) -> (bytes: Vec<u8>)
    requires
        ciphertext_parts(*c) >= 1,
    ensures
        bytes@ == ciphertext_wire(*c),
        forall|handle: fhe::bfv::BfvParameters| #[trigger]
            regular(*c, handle) ==> reads_as(bytes@, *c, handle),
{
    c.inner.to_bytes()
}

/// Calls `&a - &b`.
///
/// The operator asserts that both operands hold the same handle, the same
/// level and the same number of polynomials, and the polynomial subtraction
/// under it asserts one representation on both sides; `requires` leaves all
/// other operands out.
///
/// Trusted: the result is a function of the operands, has as many
/// polynomials as they have, and is regular under the handle that they are
/// regular under.
#[verifier::external_body]
pub(crate) fn ciphertext_sub(a: &Polynomials, b: &Polynomials) -> (r: Polynomials)
    requires
        same_ring(*a, *b),
        ciphertext_parts(*a) == ciphertext_parts(*b),
        ciphertext_level(*a) == ciphertext_level(*b),
    ensures
        r == ciphertext_difference(*a, *b),
        ciphertext_parts(r) == ciphertext_parts(*a),
        forall|handle: fhe::bfv::BfvParameters| #[trigger]
            regular(*a, handle) && regular(*b, handle) ==> regular(r, handle),
{
    Polynomials { inner: &a.inner - &b.inner }
}

/// Calls `&a + &b`.
///
/// The operator asserts what subtraction asserts; `requires` leaves all
/// other operands out.
///
/// Trusted: the result is a function of the operands, has as many
/// polynomials as they have, and is regular under the handle that they are
/// regular under.
#[verifier::external_body]
pub(crate) fn ciphertext_add(a: &Polynomials, b: &Polynomials) -> (r: Polynomials)
    requires
        same_ring(*a, *b),
        ciphertext_parts(*a) == ciphertext_parts(*b),
        ciphertext_level(*a) == ciphertext_level(*b),
    ensures
        r == ciphertext_sum(*a, *b),
        ciphertext_parts(r) == ciphertext_parts(*a),
        forall|handle: fhe::bfv::BfvParameters| #[trigger]
            regular(*a, handle) && regular(*b, handle) ==> regular(r, handle),
{
    Polynomials { inner: &a.inner + &b.inner }
}

/// Calls `Plaintext::try_encode` on the coefficients, with
/// `Encoding::poly()`, to have a plaintext of the scheme, and
/// `PublicKey::try_encrypt` on it, with the thread's generator.
///
/// Encryption multiplies by the key's polynomials, which must sit in the
/// ring of the handle in a representation fit for it, and the scheme's
/// arithmetic expects coefficients below the plaintext modulus; `requires`
/// leaves other keys and coefficients out.
///
/// Trusted: the call succeeds where there are no more coefficients than the
/// degree: encoding refuses nothing else, and encryption under a key that
/// was read fails only on a change of level or on an error variance out of
/// range, neither of which this library sets. Which ciphertext comes out
/// is random; whichever it is, it is one that the call returns for this key
/// and these coefficients, it has two polynomials, and it is regular under
/// the handle.
#[verifier::external_body]
pub(crate) fn encrypt_coefficients(
    key: &fhe::bfv::PublicKey,
    coefficients: &Vec<u64>,
    handle: &Arc<fhe::bfv::BfvParameters>,
) -> (r: Result<Polynomials, fhe::Error>)
    requires
        usable_key(*key, **handle),
        below_modulus(coefficients@, **handle),
    ensures
        coefficients@.len() <= handle_degree(**handle) ==> r is Ok,
        r matches Ok(c) ==> encrypts(*key, coefficients@, c),
        r matches Ok(c) ==> ciphertext_parts(c) == 2,
        r matches Ok(c) ==> regular(c, **handle),
{
    let plaintext = fhe::bfv::Plaintext::try_encode(coefficients, fhe::bfv::Encoding::poly(), handle)?;
    Ok(Polynomials { inner: key.try_encrypt(&plaintext, &mut rand::rng())? })
}

/// Calls `SecretKey::try_decrypt`, and `Vec::<u64>::try_decode` with
/// `Encoding::poly()` on the plaintext, to have its coefficients.
///
/// Decryption multiplies and adds the polynomials of the ciphertext;
/// `requires` leaves out ciphertexts that `Ciphertext::new` has not accepted.
///
/// Trusted: the result is a function of the key and the ciphertext.
#[verifier::external_body]
pub(crate) fn decrypt_coefficients(key: &fhe::bfv::SecretKey, c: &Polynomials) -> (r: Result<
    Vec<u64>,
    fhe::Error,
>)
    requires
        well_formed(*c),
    ensures
        match (r, decrypted_coefficients(*key, *c)) {
            (Ok(coefficients), Ok(expected)) => coefficients@ == expected,
            (Err(e), Err(expected)) => e == expected,
            _ => false,
        },
{
    let plaintext = key.try_decrypt(&c.inner)?;
    Vec::<u64>::try_decode(&plaintext, fhe::bfv::Encoding::poly())
}

} // verus!
