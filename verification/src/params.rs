//! Scheme parameters: the ring every key, plaintext and ciphertext lives in.

use crate::bfv::{
    admissible, build_parameters, handle_degree, handle_plaintext_modulus, is_power_of_two,
    parameters_accepted, smallest_of_size, MAX_DEGREE, MAX_MODULI,
};
use crate::error::TransferError;
use std::sync::Arc;
use vstd::prelude::*;

verus! {

/// What a [`ParameterSet`] stands for.
pub struct ParameterModel {
    /// Number of coefficients of a ring polynomial.
    pub degree: usize,
    /// Bit sizes of the ciphertext moduli, first level first.
    pub moduli_sizes: Seq<usize>,
    /// The modulus that plaintext arithmetic wraps at.
    pub plaintext_modulus: u64,
}

/// The numbers that name a ring. Two values made under equal sets belong
/// together; values made under different sets never do.
#[derive(Clone, Debug, PartialEq, Eq)]
pub struct ParameterSet {
    /// Number of coefficients of a ring polynomial.
    pub degree: usize,
    /// Bit sizes of the ciphertext moduli, first level first.
    pub moduli_sizes: Vec<usize>,
    /// The modulus that plaintext arithmetic wraps at.
    pub plaintext_modulus: u64,
}

impl View for ParameterSet {
    type V = ParameterModel;

    open spec fn view(&self) -> ParameterModel {
        ParameterModel {
            degree: self.degree,
            moduli_sizes: self.moduli_sizes@,
            plaintext_modulus: self.plaintext_modulus,
        }
    }
}

impl ParameterModel {
    /// The set that the service runs on: degree 8, one modulus of 62 bits,
    /// plaintext modulus 1153.
    pub open spec fn canonical() -> ParameterModel {
        ParameterModel { degree: 8, moduli_sizes: seq![62usize], plaintext_modulus: 1153 }
    }

    /// Whether the set is one that a ring is built for.
    pub open spec fn admissible(self) -> bool {
        admissible(self.degree, self.moduli_sizes, self.plaintext_modulus)
    }

    /// Whether a ring exists for the set.
    pub open spec fn accepted(self) -> bool {
        parameters_accepted(self.degree, self.moduli_sizes, self.plaintext_modulus)
    }
}

impl ParameterSet {
    /// A set of its own with the same numbers.
    pub fn duplicate(&self) -> (copy: ParameterSet)
        ensures
            copy@ == self@,
    {
        let mut sizes: Vec<usize> = Vec::new();
        let mut i: usize = 0;
        while i < self.moduli_sizes.len()
            invariant
                i <= self.moduli_sizes.len(),
                sizes@ == self.moduli_sizes@.subrange(0, i as int),
            decreases self.moduli_sizes.len() - i,
        {
            sizes.push(self.moduli_sizes[i]);
            proof {
                assert(sizes@ =~= self.moduli_sizes@.subrange(0, i + 1));
            }
            i = i + 1;
        }
        proof {
            assert(sizes@ =~= self.moduli_sizes@);
        }
        ParameterSet { degree: self.degree, moduli_sizes: sizes, plaintext_modulus: self.plaintext_modulus }
    }

    /// Whether both sets name the same ring.
    pub fn same_as(&self, other: &ParameterSet) -> (same: bool)
        ensures
            same == (self@ == other@),
    {
        if self.degree != other.degree || self.plaintext_modulus != other.plaintext_modulus
            || self.moduli_sizes.len() != other.moduli_sizes.len() {
            proof {
                if self.moduli_sizes.len() != other.moduli_sizes.len() {
                    assert(self@.moduli_sizes.len() != other@.moduli_sizes.len());
                }
            }
            return false;
        }
        let mut i: usize = 0;
        while i < self.moduli_sizes.len()
            invariant
                i <= self.moduli_sizes.len(),
                self.moduli_sizes.len() == other.moduli_sizes.len(),
                forall|j: int| 0 <= j < i ==> self.moduli_sizes@[j] == other.moduli_sizes@[j],
            decreases self.moduli_sizes.len() - i,
        {
            if self.moduli_sizes[i] != other.moduli_sizes[i] {
                proof {
                    assert(self@.moduli_sizes[i as int] != other@.moduli_sizes[i as int]);
                }
                return false;
            }
            i = i + 1;
        }
        proof {
            assert(self@.moduli_sizes =~= other@.moduli_sizes);
        }
        true
    }
}

/// Whether `n` is a power of two.
pub fn power_of_two(n: usize) -> (yes: bool)
    ensures
        yes == is_power_of_two(n as nat),
{
    let mut m: usize = n;
    while m > 1 && m % 2 == 0
        invariant
            is_power_of_two(m as nat) == is_power_of_two(n as nat),
        decreases m,
    {
        m = m / 2;
    }
    m == 1
}

/// A number below the smallest number of a size from 10 to 62 bits is below
/// 2^61.
pub proof fn lemma_below_smallest_of_size(value: u64, size: usize)
    requires
        10 <= size <= 62,
        value < smallest_of_size(size),
    ensures
        value < 0x2000_0000_0000_0000,
{
    let shift = (size - 1) as u64;
    assert(9 <= shift <= 61 ==> (1u64 << shift) <= 0x2000_0000_0000_0000) by (bit_vector);
}

/// Whether a degree, a list of modulus sizes and a plaintext modulus are
/// numbers that a ring is built for.
pub fn check_admissible(degree: usize, moduli_sizes: &Vec<usize>, plaintext_modulus: u64) -> (ok: bool)
    ensures
        ok == admissible(degree, moduli_sizes@, plaintext_modulus),
{
    if degree < 8 || degree > MAX_DEGREE || !power_of_two(degree) {
        return false;
    }
    if plaintext_modulus < 2 {
        return false;
    }
    if moduli_sizes.len() == 0 || moduli_sizes.len() > MAX_MODULI {
        return false;
    }
    let mut i: usize = 0;
    while i < moduli_sizes.len()
        invariant
            i <= moduli_sizes.len(),
            forall|j: int|
                0 <= j < i ==> 10 <= #[trigger] moduli_sizes@[j] <= 62 && plaintext_modulus
                    < smallest_of_size(moduli_sizes@[j]),
        decreases moduli_sizes.len() - i,
    {
        let size = moduli_sizes[i];
        if size < 10 || size > 62 {
            return false;
        }
        let floor: u64 = 1u64 << ((size - 1) as u64);
        if plaintext_modulus >= floor {
            return false;
        }
        i = i + 1;
    }
    true
}

/// One ring, ready for use. Build it once and hand it to every operation:
/// keys and ciphertexts made under one instance work with that instance.
pub struct SchemeParameters {
    set: ParameterSet,
    handle: Arc<fhe::bfv::BfvParameters>,
}

impl SchemeParameters {
    #[verifier::type_invariant]
    closed spec fn well_formed(self) -> bool {
        &&& self.set@.admissible()
        &&& handle_degree(*self.handle) == self.set.degree
        &&& handle_plaintext_modulus(*self.handle) == self.set.plaintext_modulus
    }

    /// The numbers this instance was built from.
    pub closed spec fn parameters(&self) -> ParameterModel {
        self.set@
    }

    /// The ring as the scheme holds it.
    pub closed spec fn ring(&self) -> fhe::bfv::BfvParameters {
        *self.handle
    }

    /// Builds the ring for a degree, the bit sizes of the ciphertext moduli
    /// and a plaintext modulus.
    ///
    /// Fails with `InvalidParameters`, and only with it, exactly where the
    /// numbers are not admissible or no ring exists for them. Admissible are
    /// a degree that is a power of two from 8 to 65536, from 1 to 64 modulus
    /// sizes of 10 to 62 bits each, and a plaintext modulus of at least 2
    /// that has fewer bits than every ciphertext modulus.
    pub fn construct(degree: usize, moduli_sizes: Vec<usize>, plaintext_modulus: u64) -> (r: Result<
        SchemeParameters,
        TransferError,
    >)
        ensures
            r is Ok <==> admissible(degree, moduli_sizes@, plaintext_modulus) && parameters_accepted(
                degree,
                moduli_sizes@,
                plaintext_modulus,
            ),
            r matches Err(e) ==> e == TransferError::InvalidParameters,
            r matches Ok(scheme) ==> scheme.parameters() == (ParameterModel {
                degree,
                moduli_sizes: moduli_sizes@,
                plaintext_modulus,
            }) && scheme.parameters().admissible(),
    {
        if !check_admissible(degree, &moduli_sizes, plaintext_modulus) {
            return Err(TransferError::InvalidParameters);
        }
        match build_parameters(degree, &moduli_sizes, plaintext_modulus) {
            Ok(handle) => Ok(
                SchemeParameters { set: ParameterSet { degree, moduli_sizes, plaintext_modulus }, handle },
            ),
            Err(_) => Err(TransferError::InvalidParameters),
        }
    }

    /// Builds the ring of degree 8 with one ciphertext modulus of 62 bits
    /// and plaintext modulus 1153.
    pub fn canonical() -> (r: Result<SchemeParameters, TransferError>)
        ensures
            r is Ok <==> ParameterModel::canonical().accepted(),
            r matches Err(e) ==> e == TransferError::InvalidParameters,
            r matches Ok(scheme) ==> scheme.parameters() == ParameterModel::canonical(),
    {
        let mut sizes: Vec<usize> = Vec::new();
        sizes.push(62);
        proof {
            assert(sizes@ =~= seq![62usize]);
            assert(is_power_of_two(8)) by {
                reveal_with_fuel(is_power_of_two, 4);
            }
            assert(1153u64 < (1u64 << 61u64)) by (bit_vector);
            assert(ParameterModel::canonical().admissible());
        }
        SchemeParameters::construct(8, sizes, 1153)
    }

    /// Number of coefficients of a ring polynomial.
    pub fn degree(&self) -> (d: usize)
        ensures
            d == self.parameters().degree,
            8 <= d <= MAX_DEGREE,
    {
        proof {
            use_type_invariant(self);
        }
        self.set.degree
    }

    /// The modulus that plaintext arithmetic wraps at.
    pub fn plaintext_modulus(&self) -> (t: u64)
        ensures
            t == self.parameters().plaintext_modulus,
            2 <= t < 0x2000_0000_0000_0000,
    {
        proof {
            use_type_invariant(self);
            lemma_below_smallest_of_size(self.set.plaintext_modulus, self.set.moduli_sizes@[0]);
        }
        self.set.plaintext_modulus
    }

    /// The numbers this instance was built from, for tagging what is made
    /// under it.
    pub fn parameter_set(&self) -> (set: ParameterSet)
        ensures
            set@ == self.parameters(),
    {
        self.set.duplicate()
    }

    /// Whether `set` names the ring of this instance.
    pub fn governs(&self, set: &ParameterSet) -> (yes: bool)
        ensures
            yes == (set@ == self.parameters()),
    {
        self.set.same_as(set)
    }

    pub(crate) fn handle(&self) -> (handle: &Arc<fhe::bfv::BfvParameters>)
        ensures
            **handle == self.ring(),
            handle_degree(**handle) == self.parameters().degree,
            handle_plaintext_modulus(**handle) == self.parameters().plaintext_modulus,
            self.parameters().admissible(),
    {
        proof {
            use_type_invariant(self);
        }
        &self.handle
    }
}

} // verus!
