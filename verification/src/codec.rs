//! Keys, plaintexts and ciphertexts, and the operations that make and read
//! them: encode, encrypt, decrypt, decode.

use crate::bfv::{
    below_modulus, checked_ciphertext, ciphertext_checked, ciphertext_from_bytes, ciphertext_parts,
    ciphertext_to_bytes, ciphertext_wire, decrypt_coefficients, decrypted_coefficients,
    derive_public_key, derived_from, encrypt_coefficients, encrypts, key_polynomials,
    parsed_ciphertext,
    parsed_public_key, parsed_secret_key, public_key_from_bytes, public_key_of,
    public_key_polynomials, public_key_to_bytes, random_secret_key, regular, secret_key_from_bytes,
    secret_key_of, secret_key_to_bytes, usable_key, well_formed, Polynomials,
};
use crate::error::TransferError;
use crate::params::{ParameterModel, ParameterSet, SchemeParameters};
use vstd::prelude::*;

verus! {

/// A secret key and the public key derived from it, each in its wire form.
#[derive(Clone, Debug, PartialEq, Eq)]
pub struct KeyPair {
    /// The secret key. Never leaves its owner.
    pub secret_key: Vec<u8>,
    /// The public key that others encrypt under.
    pub public_key: Vec<u8>,
}

/// What a [`Plaintext`] stands for.
pub struct PlaintextModel {
    /// The ring the plaintext belongs to.
    pub parameters: ParameterModel,
    /// The coefficients of its polynomial, lowest power first.
    pub coefficients: Seq<u64>,
}

/// Integers encoded as the coefficients of a ring polynomial, tagged with
/// the ring it belongs to. Made for one encryption or by one decryption,
/// and not kept.
#[derive(Clone, Debug, PartialEq, Eq)]
pub struct Plaintext {
    /// The ring the plaintext belongs to.
    pub parameters: ParameterSet,
    /// The coefficients of its polynomial, lowest power first.
    pub coefficients: Vec<u64>,
}

/// What a [`Ciphertext`] stands for.
pub struct CiphertextModel {
    /// The ring the ciphertext belongs to.
    pub parameters: ParameterModel,
    /// Its wire form.
    pub bytes: Seq<u8>,
}

/// An encrypted value in its wire form, tagged with the ring it belongs to.
#[derive(Clone, Debug, PartialEq, Eq)]
pub struct Ciphertext {
    /// The ring the ciphertext belongs to.
    pub parameters: ParameterSet,
    /// Its wire form.
    pub bytes: Vec<u8>,
}

impl View for Plaintext {
    type V = PlaintextModel;

    open spec fn view(&self) -> PlaintextModel {
        PlaintextModel { parameters: self.parameters@, coefficients: self.coefficients@ }
    }
}

impl View for Ciphertext {
    type V = CiphertextModel;

    open spec fn view(&self) -> CiphertextModel {
        CiphertextModel { parameters: self.parameters@, bytes: self.bytes@ }
    }
}

/// Whether every value is below `modulus`.
pub open spec fn in_domain(values: Seq<u64>, modulus: u64) -> bool {
    forall|i: int| 0 <= i < values.len() ==> #[trigger] values[i] < modulus
}

/// The coefficients that `values` are encoded into in a ring of degree
/// `degree`: the values themselves, then zeros.
pub open spec fn padded(values: Seq<u64>, degree: nat) -> Seq<u64> {
    Seq::new(
        degree,
        |i: int|
            if i < values.len() {
                values[i]
            } else {
                0
            },
    )
}

/// The integers that coefficients are decoded into: the coefficients
/// themselves.
pub open spec fn decoded(coefficients: Seq<u64>) -> Seq<i64> {
    Seq::new(coefficients.len(), |i: int| coefficients[i] as i64)
}

impl PlaintextModel {
    /// Whether the plaintext is one of the ring with these parameters: as
    /// many coefficients as the degree, each a residue of the plaintext
    /// modulus.
    pub open spec fn belongs_to(self, parameters: ParameterModel) -> bool {
        &&& self.parameters == parameters
        &&& self.coefficients.len() == parameters.degree
        &&& in_domain(self.coefficients, parameters.plaintext_modulus)
    }

    /// What `values` are encoded into in the ring with these parameters.
    /// More values than the degree, or a value that is no residue of the
    /// plaintext modulus, cannot be encoded.
    pub open spec fn encode(values: Seq<u64>, parameters: ParameterModel) -> Result<
        PlaintextModel,
        TransferError,
    > {
        if values.len() <= parameters.degree && in_domain(values, parameters.plaintext_modulus) {
            Ok(PlaintextModel { parameters, coefficients: padded(values, parameters.degree as nat) })
        } else {
            Err(TransferError::EncryptionFailure)
        }
    }

    /// What the plaintext is decoded into in the ring with these
    /// parameters: one integer for each coefficient, each the residue of
    /// the plaintext modulus that the coefficient is.
    pub open spec fn decode(self, parameters: ParameterModel) -> Result<Seq<i64>, TransferError> {
        if self.belongs_to(parameters) {
            Ok(decoded(self.coefficients))
        } else {
            Err(TransferError::ParameterMismatchError)
        }
    }
}

/// Decoding undoes encoding: values that are encoded and decoded come back
/// as they were, followed by zeros up to the degree of the ring.
pub proof fn lemma_decode_inverts_encode(values: Seq<u64>, parameters: ParameterModel)
    requires
        values.len() <= parameters.degree,
        in_domain(values, parameters.plaintext_modulus),
        1 <= parameters.plaintext_modulus <= i64::MAX,
    ensures
        ({
            let encoded = PlaintextModel::encode(values, parameters);
            let read = encoded->Ok_0.decode(parameters)->Ok_0;
            &&& encoded is Ok
            &&& encoded->Ok_0.decode(parameters) is Ok
            &&& read.len() == parameters.degree
            &&& forall|i: int| 0 <= i < values.len() ==> #[trigger] read[i] == values[i]
            &&& forall|i: int| values.len() <= i < read.len() ==> #[trigger] read[i] == 0
        }),
{
    let plaintext = PlaintextModel::encode(values, parameters)->Ok_0;
    assert(in_domain(plaintext.coefficients, parameters.plaintext_modulus));
    assert(plaintext.belongs_to(parameters));
}

/// The ciphertext that `bytes` stand for in `ring`: read, then checked.
/// Bytes that the scheme does not read, or whose polynomials it does not
/// accept, are malformed, whatever the reason the scheme gives.
pub open spec fn admitted(bytes: Seq<u8>, ring: fhe::bfv::BfvParameters) -> Result<
    Polynomials,
    TransferError,
> {
    match parsed_ciphertext(bytes, ring) {
        Err(_) => Err(TransferError::DeserializationError),
        Ok(read) => match checked_ciphertext(read, ring) {
            Err(_) => Err(TransferError::DeserializationError),
            Ok(c) => Ok(c),
        },
    }
}

/// The public key that `bytes` stand for in `ring`: read, and fit to encrypt
/// under.
pub open spec fn loaded_key(bytes: Seq<u8>, ring: fhe::bfv::BfvParameters) -> Result<
    fhe::bfv::PublicKey,
    TransferError,
> {
    match parsed_public_key(bytes, ring) {
        Err(_) => Err(TransferError::DeserializationError),
        Ok(key) => match key_polynomials(key, ring) {
            None => Err(TransferError::DeserializationError),
            Some(body) => if checked_ciphertext(body, ring) is Ok {
                Ok(key)
            } else {
                Err(TransferError::DeserializationError)
            },
        },
    }
}

/// The error that encrypting `plaintext` under the key `key` is refused
/// with, if it is: a plaintext of another ring, a key that does not read,
/// or a plaintext that is none of the ring. Nothing else is refused.
pub open spec fn encryption_refused(
    key: Seq<u8>,
    plaintext: PlaintextModel,
    parameters: ParameterModel,
    ring: fhe::bfv::BfvParameters,
) -> Option<TransferError> {
    if plaintext.parameters != parameters {
        Some(TransferError::ParameterMismatchError)
    } else {
        match loaded_key(key, ring) {
            Err(e) => Some(e),
            Ok(_) => if plaintext.belongs_to(parameters) {
                None
            } else {
                Some(TransferError::EncryptionFailure)
            },
        }
    }
}

/// The error that encrypting `value` under the key `key` is refused with,
/// if it is: a key that does not read, or a value that is no residue of the
/// plaintext modulus. Nothing else is refused.
pub open spec fn value_encryption_refused(
    key: Seq<u8>,
    value: u64,
    parameters: ParameterModel,
    ring: fhe::bfv::BfvParameters,
) -> Option<TransferError> {
    match loaded_key(key, ring) {
        Err(e) => Some(e),
        Ok(_) => match PlaintextModel::encode(seq![value], parameters) {
            Err(e) => Some(e),
            Ok(_) => None,
        },
    }
}

/// Whether the two keys are a pair in `ring`: the secret key reads as a
/// secret key, the public key reads as a key fit to encrypt under, and the
/// public key is one that the scheme derives from that secret key.
pub open spec fn key_pair_of(secret_key: Seq<u8>, public_key: Seq<u8>, ring: fhe::bfv::BfvParameters) -> bool {
    &&& parsed_secret_key(secret_key, ring) matches Ok(secret)
    &&& loaded_key(public_key, ring) matches Ok(public)
    &&& derived_from(secret, public)
}

/// Whether `bytes` are the wire form of a ciphertext that the scheme makes
/// of `coefficients` under the key `key`: a ciphertext of two polynomials
/// that `bytes` read back as in `ring`.
pub open spec fn sealed_under(
    bytes: Seq<u8>,
    key: fhe::bfv::PublicKey,
    coefficients: Seq<u64>,
    ring: fhe::bfv::BfvParameters,
) -> bool {
    exists|c: Polynomials|
        {
            &&& #[trigger] encrypts(key, coefficients, c)
            &&& ciphertext_parts(c) == 2
            &&& ciphertext_wire(c) == bytes
            &&& admitted(bytes, ring) == Ok::<Polynomials, TransferError>(c)
        }
}

/// Whether `bytes` are the wire form of a ciphertext that the scheme makes
/// of `coefficients` under the key that the bytes `key` read as in `ring`,
/// and read back in `ring` as that ciphertext.
pub open spec fn sealed(
    bytes: Seq<u8>,
    key: Seq<u8>,
    coefficients: Seq<u64>,
    ring: fhe::bfv::BfvParameters,
) -> bool {
    loaded_key(key, ring) matches Ok(loaded) && sealed_under(bytes, loaded, coefficients, ring)
}

/// The plaintext that decrypting `bytes` with the secret key `key` gives in
/// `ring`, whose parameters are `parameters`.
pub open spec fn decryption(
    key: Seq<u8>,
    bytes: Seq<u8>,
    parameters: ParameterModel,
    ring: fhe::bfv::BfvParameters,
) -> Result<PlaintextModel, TransferError> {
    match parsed_secret_key(key, ring) {
        Err(_) => Err(TransferError::DeserializationError),
        Ok(secret) => match admitted(bytes, ring) {
            Err(e) => Err(e),
            Ok(c) => match decrypted_coefficients(secret, c) {
                Err(_) => Err(TransferError::ParameterMismatchError),
                Ok(coefficients) => {
                    let plaintext = PlaintextModel { parameters, coefficients };
                    if plaintext.belongs_to(parameters) {
                        Ok(plaintext)
                    } else {
                        Err(TransferError::ParameterMismatchError)
                    }
                },
            },
        },
    }
}

/// What decrypting the tagged ciphertext gives in `ring`, whose parameters
/// are `parameters`: nothing is read unless the ciphertext is tagged with
/// them.
pub open spec fn tagged_decryption(
    key: Seq<u8>,
    ciphertext: CiphertextModel,
    parameters: ParameterModel,
    ring: fhe::bfv::BfvParameters,
) -> Result<PlaintextModel, TransferError> {
    if ciphertext.parameters == parameters {
        decryption(key, ciphertext.bytes, parameters, ring)
    } else {
        Err(TransferError::ParameterMismatchError)
    }
}

/// Whether every value is below `modulus`.
pub fn all_below(values: &[u64], modulus: u64) -> (yes: bool)
    ensures
        yes == in_domain(values@, modulus),
{
    let mut i: usize = 0;
    while i < values.len()
        invariant
            i <= values.len(),
            forall|j: int| 0 <= j < i ==> #[trigger] values@[j] < modulus,
        decreases values.len() - i,
    {
        if values[i] >= modulus {
            return false;
        }
        i = i + 1;
    }
    true
}

impl SchemeParameters {
    /// Reads a ciphertext and checks that its polynomials are fit for
    /// arithmetic and decryption in this ring.
    pub(crate) fn read_ciphertext(&self, bytes: &[u8]) -> (r: Result<Polynomials, TransferError>)
        ensures
            r == admitted(bytes@, self.ring()),
            r matches Ok(c) ==> regular(c, self.ring()) && ciphertext_parts(c) >= 2,
    {
        let handle = self.handle();
        match ciphertext_from_bytes(bytes, handle) {
            Err(_) => Err(TransferError::DeserializationError),
            Ok(read) => match ciphertext_checked(&read, handle) {
                Err(_) => Err(TransferError::DeserializationError),
                Ok(c) => Ok(c),
            },
        }
    }

    /// Reads a public key and checks that its polynomials are fit to encrypt
    /// under in this ring.
    pub(crate) fn load_key(&self, bytes: &[u8]) -> (r: Result<fhe::bfv::PublicKey, TransferError>)
        ensures
            r == loaded_key(bytes@, self.ring()),
            r matches Ok(key) ==> usable_key(key, self.ring()),
    {
        let handle = self.handle();
        match public_key_from_bytes(bytes, handle) {
            Err(_) => Err(TransferError::DeserializationError),
            Ok(key) => match public_key_polynomials(&key, handle) {
                None => Err(TransferError::DeserializationError),
                Some(body) => match ciphertext_checked(&body, handle) {
                    Err(_) => Err(TransferError::DeserializationError),
                    Ok(_) => Ok(key),
                },
            },
        }
    }

    /// Whether a plaintext is one of this ring.
    pub fn holds(&self, plaintext: &Plaintext) -> (yes: bool)
        ensures
            yes == plaintext@.belongs_to(self.parameters()),
    {
        self.governs(&plaintext.parameters) && plaintext.coefficients.len() == self.degree()
            && all_below(plaintext.coefficients.as_slice(), self.plaintext_modulus())
    }

    /// Encrypts a plaintext of this ring under a key of this ring, and gives
    /// the wire form of the ciphertext.
    pub(crate) fn seal(&self, key: &fhe::bfv::PublicKey, plaintext: &Plaintext) -> (bytes: Vec<u8>)
        requires
            usable_key(*key, self.ring()),
            plaintext@.belongs_to(self.parameters()),
        ensures
            sealed_under(bytes@, *key, plaintext@.coefficients, self.ring()),
    {
        let handle = self.handle();
        assert(below_modulus(plaintext.coefficients@, **handle));
        let c = encrypt_coefficients(key, &plaintext.coefficients, handle).unwrap();
        let bytes = ciphertext_to_bytes(&c);
        assert(regular(c, self.ring()));
        assert(admitted(bytes@, self.ring()) == Ok::<Polynomials, TransferError>(c));
        assert(encrypts(*key, plaintext@.coefficients, c));
        bytes
    }

    /// Draws a secret key at random and derives a public key from it with
    /// fresh randomness. Two calls give two different pairs, and so do two
    /// derivations from one secret key.
    ///
    /// Which keys come out is left to chance. What is fixed is that they
    /// are a pair of this ring: both read in it, and the public key is
    /// derived from the secret key of the pair.
    pub fn generate_key_pair(&self) -> (pair: KeyPair)
        ensures
            key_pair_of(pair.secret_key@, pair.public_key@, self.ring()),
    {
        let handle = self.handle();
        let secret = random_secret_key(handle);
        let public = derive_public_key(&secret);
        assert(secret_key_of(secret, self.ring()));
        assert(public_key_of(public, self.ring()));
        KeyPair { secret_key: secret_key_to_bytes(&secret), public_key: public_key_to_bytes(&public) }
    }

    /// Encodes integers as a plaintext of this ring: the coefficients of a
    /// polynomial, the first value at the lowest power, zeros after the
    /// last.
    ///
    /// More values than the ring has coefficients, or a value that is no
    /// residue of the plaintext modulus, give `EncryptionFailure`.
    pub fn encode(&self, values: &[u64]) -> (r: Result<Plaintext, TransferError>)
        ensures
            match (r, PlaintextModel::encode(values@, self.parameters())) {
                (Ok(plaintext), Ok(expected)) => plaintext@ == expected,
                (Err(e), Err(expected)) => e == expected,
                _ => false,
            },
            r matches Ok(plaintext) ==> plaintext@.belongs_to(self.parameters()),
    {
        let degree = self.degree();
        let modulus = self.plaintext_modulus();
        if values.len() > degree || !all_below(values, modulus) {
            return Err(TransferError::EncryptionFailure);
        }
        let mut coefficients: Vec<u64> = Vec::new();
        let mut i: usize = 0;
        while i < degree
            invariant
                i <= degree,
                coefficients@ == padded(values@, degree as nat).subrange(0, i as int),
            decreases degree - i,
        {
            let next = if i < values.len() {
                values[i]
            } else {
                0
            };
            coefficients.push(next);
            proof {
                assert(coefficients@ =~= padded(values@, degree as nat).subrange(0, i + 1));
            }
            i = i + 1;
        }
        proof {
            assert(coefficients@ =~= padded(values@, degree as nat));
        }
        Ok(Plaintext { parameters: self.parameter_set(), coefficients })
    }

    /// Decodes a plaintext of this ring into integers, one for each
    /// coefficient: the values that were encoded, then zeros. Each is a
    /// residue of the plaintext modulus, from 0 up to the modulus less one.
    ///
    /// A plaintext that is none of this ring gives `ParameterMismatchError`.
    pub fn decode(&self, plaintext: &Plaintext) -> (r: Result<Vec<i64>, TransferError>)
        ensures
            match (r, plaintext@.decode(self.parameters())) {
                (Ok(values), Ok(expected)) => values@ == expected,
                (Err(e), Err(expected)) => e == expected,
                _ => false,
            },
            r matches Ok(values) ==> values@.len() == self.parameters().degree && forall|i: int|
                0 <= i < values@.len() ==> 0 <= #[trigger] values@[i] < self.parameters().plaintext_modulus
                    && values@[i] == plaintext.coefficients@[i],
    {
        if !self.holds(plaintext) {
            return Err(TransferError::ParameterMismatchError);
        }
        let modulus = self.plaintext_modulus();
        let mut values: Vec<i64> = Vec::new();
        let mut i: usize = 0;
        while i < plaintext.coefficients.len()
            invariant
                i <= plaintext.coefficients.len(),
                modulus < 0x2000_0000_0000_0000,
                in_domain(plaintext.coefficients@, modulus),
                values@ == decoded(plaintext.coefficients@).subrange(0, i as int),
            decreases plaintext.coefficients.len() - i,
        {
            values.push(plaintext.coefficients[i] as i64);
            proof {
                assert(values@ =~= decoded(plaintext.coefficients@).subrange(0, i + 1));
            }
            i = i + 1;
        }
        proof {
            assert(values@ =~= decoded(plaintext.coefficients@));
        }
        Ok(values)
    }

    /// Encrypts a plaintext under the public key `public_key`.
    ///
    /// The ciphertext is random: the same call twice gives different bytes.
    /// What is fixed is when the call succeeds: always, unless the plaintext
    /// is tagged with another ring (`ParameterMismatchError`), the key bytes
    /// do not read as a key (`DeserializationError`), or the coefficients
    /// are not those of a plaintext of this ring (`EncryptionFailure`).
    pub fn encrypt_plaintext(&self, public_key: &[u8], plaintext: &Plaintext) -> (r: Result<
        Ciphertext,
        TransferError,
    >)
        ensures
            encryption_refused(
                public_key@,
                plaintext@,
                self.parameters(),
                self.ring(),
            ) matches Some(e) ==> r == Err::<Ciphertext, TransferError>(e),
            encryption_refused(public_key@, plaintext@, self.parameters(), self.ring()) is None
                ==> r is Ok,
            r matches Ok(c) ==> c@.parameters == self.parameters() && sealed(
                c@.bytes,
                public_key@,
                plaintext@.coefficients,
                self.ring(),
            ),
    {
        if !self.governs(&plaintext.parameters) {
            return Err(TransferError::ParameterMismatchError);
        }
        let key = match self.load_key(public_key) {
            Err(e) => {
                return Err(e);
            },
            Ok(key) => key,
        };
        if !self.holds(plaintext) {
            return Err(TransferError::EncryptionFailure);
        }
        let bytes = self.seal(&key, plaintext);
        Ok(Ciphertext { parameters: self.parameter_set(), bytes })
    }

    /// Encrypts `value` under the public key `public_key`: encodes it alone
    /// and encrypts the plaintext.
    ///
    /// The ciphertext is random. The call succeeds unless the key bytes do
    /// not read as a key (`DeserializationError`) or the value is no residue
    /// of the plaintext modulus (`EncryptionFailure`).
    pub fn encrypt(&self, public_key: &[u8], value: u64) -> (r: Result<Ciphertext, TransferError>)
        ensures
            value_encryption_refused(
                public_key@,
                value,
                self.parameters(),
                self.ring(),
            ) matches Some(e) ==> r == Err::<Ciphertext, TransferError>(e),
            value_encryption_refused(public_key@, value, self.parameters(), self.ring()) is None
                ==> r is Ok,
            r matches Ok(c) ==> c@.parameters == self.parameters() && sealed(
                c@.bytes,
                public_key@,
                padded(seq![value], self.parameters().degree as nat),
                self.ring(),
            ),
    {
        let key = match self.load_key(public_key) {
            Err(e) => {
                return Err(e);
            },
            Ok(key) => key,
        };
        let values = [value];
        let plaintext = match self.encode(values.as_slice()) {
            Err(e) => {
                assert(values@ =~= seq![value]);
                return Err(e);
            },
            Ok(plaintext) => plaintext,
        };
        assert(values@ =~= seq![value]);
        let bytes = self.seal(&key, &plaintext);
        Ok(Ciphertext { parameters: self.parameter_set(), bytes })
    }

    /// Decrypts `ciphertext` with the secret key `secret_key`.
    ///
    /// A ciphertext tagged with another ring than this one is refused with
    /// `ParameterMismatchError` before anything is read. So is one whose
    /// decryption is no plaintext of this ring.
    pub fn decrypt_plaintext(&self, secret_key: &[u8], ciphertext: &Ciphertext) -> (r: Result<
        Plaintext,
        TransferError,
    >)
        ensures
            match (r, tagged_decryption(secret_key@, ciphertext@, self.parameters(), self.ring())) {
                (Ok(plaintext), Ok(expected)) => plaintext@ == expected,
                (Err(e), Err(expected)) => e == expected,
                _ => false,
            },
            r matches Ok(plaintext) ==> plaintext@.belongs_to(self.parameters()),
    {
        if !self.governs(&ciphertext.parameters) {
            return Err(TransferError::ParameterMismatchError);
        }
        let handle = self.handle();
        let secret = match secret_key_from_bytes(secret_key, handle) {
            Err(_) => {
                return Err(TransferError::DeserializationError);
            },
            Ok(secret) => secret,
        };
        let c = match self.read_ciphertext(ciphertext.bytes.as_slice()) {
            Err(e) => {
                return Err(e);
            },
            Ok(c) => c,
        };
        assert(well_formed(c));
        let coefficients = match decrypt_coefficients(&secret, &c) {
            Err(_) => {
                return Err(TransferError::ParameterMismatchError);
            },
            Ok(coefficients) => coefficients,
        };
        let plaintext = Plaintext { parameters: self.parameter_set(), coefficients };
        if self.holds(&plaintext) {
            Ok(plaintext)
        } else {
            Err(TransferError::ParameterMismatchError)
        }
    }

    /// Decrypts `ciphertext` with the secret key `secret_key` and decodes
    /// the plaintext: one integer for every coefficient of the ring, each a
    /// residue of the plaintext modulus, the encrypted value first.
    ///
    /// A ciphertext tagged with another ring than this one is refused with
    /// `ParameterMismatchError` before anything is read.
    pub fn decrypt(&self, secret_key: &[u8], ciphertext: &Ciphertext) -> (r: Result<
        Vec<i64>,
        TransferError,
    >)
        ensures
            match (r, tagged_decryption(secret_key@, ciphertext@, self.parameters(), self.ring())) {
                (Ok(values), Ok(plaintext)) => values@ == decoded(plaintext.coefficients)
                    && values@.len() == self.parameters().degree && forall|i: int|
                    0 <= i < values@.len() ==> 0 <= #[trigger] values@[i]
                        < self.parameters().plaintext_modulus,
                (Err(e), Err(expected)) => e == expected,
                _ => false,
            },
    {
        match self.decrypt_plaintext(secret_key, ciphertext) {
            Err(e) => Err(e),
            Ok(plaintext) => self.decode(&plaintext),
        }
    }
}

} // verus!
