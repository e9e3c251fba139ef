//! The two-component state vector.

use crate::amplitude::{complex_one, complex_zero, Amplitude};
use crate::binary64::{
    denotes_zero, lemma_nan_and_zero, lemma_same_number, Value, MAGNITUDE_MASK, ONE_BITS,
    ZERO_BITS,
};
use vstd::prelude::*;
use vstd::std_specs::cmp::PartialEqSpecImpl;

verus! {

/// A state `first |0> + second |1>`. No normalisation is asked of it.
#[derive(Debug, Clone, Copy)]
pub struct Ket {
    pub first: Amplitude,
    pub second: Amplitude,
}

/// The basis state `|0>`: amplitude one on `|0>`, none on `|1>`.
pub open spec fn basis_zero() -> Ket {
    Ket {
        first: Amplitude { re: ONE_BITS, im: ZERO_BITS },
        second: Amplitude { re: ZERO_BITS, im: ZERO_BITS },
    }
}

/// The basis state `|1>`: no amplitude on `|0>`, one on `|1>`.
pub open spec fn basis_one() -> Ket {
    Ket {
        first: Amplitude { re: ZERO_BITS, im: ZERO_BITS },
        second: Amplitude { re: ONE_BITS, im: ZERO_BITS },
    }
}

/// The basis state `|0>`.
pub fn ket_zero() -> (k: Ket)
    ensures
        k == basis_zero(),
{
    Ket { first: complex_one(), second: complex_zero() }
}

/// The basis state `|1>`.
pub fn ket_one() -> (k: Ket)
    ensures
        k == basis_one(),
{
    Ket { first: complex_zero(), second: complex_one() }
}

/// Each basis state equals itself, and the two differ.
pub proof fn lemma_basis_states()
    ensures
        basis_zero().equals(basis_zero()),
        basis_one().equals(basis_one()),
        !basis_zero().equals(basis_one()),
        !basis_one().equals(basis_zero()),
{
    lemma_same_number(ONE_BITS, ONE_BITS);
    lemma_same_number(ZERO_BITS, ZERO_BITS);
    lemma_same_number(ONE_BITS, ZERO_BITS);
    lemma_same_number(ZERO_BITS, ONE_BITS);
    lemma_nan_and_zero(ONE_BITS);
    lemma_nan_and_zero(ZERO_BITS);
    assert(ONE_BITS & MAGNITUDE_MASK == ONE_BITS) by (bit_vector);
    assert(ZERO_BITS & MAGNITUDE_MASK == 0) by (bit_vector);
}

impl View for Ket {
    type V = ((Value, Value), (Value, Value));

    /// The values that the two amplitudes denote, that of `|0>` first.
    open spec fn view(&self) -> ((Value, Value), (Value, Value)) {
        (self.first@, self.second@)
    }
}

impl Ket {
    /// Exact equality of two states: equal amplitudes on `|0>` and on `|1>`.
    pub open spec fn equals(self, other: Ket) -> bool {
        self.first.equals(other.first) && self.second.equals(other.second)
    }

    /// Whether any part of either amplitude denotes no number.
    pub open spec fn has_nan(self) -> bool {
        self.first.has_nan() || self.second.has_nan()
    }

    /// States are equal exactly when all four parts of the first denote
    /// numbers and the second denotes the same four.
    pub proof fn lemma_equals_by_value(a: Ket, b: Ket)
        ensures
            a.equals(b) <==> !a.has_nan() && a@ == b@,
    {
    }

    /// Equality does not depend on the order of its operands.
    pub proof fn lemma_equals_symmetric(a: Ket, b: Ket)
        ensures
            a.equals(b) == b.equals(a),
    {
    }

    /// Two states equal to a third are equal to each other.
    pub proof fn lemma_equals_transitive(a: Ket, b: Ket, c: Ket)
        requires
            a.equals(b),
            b.equals(c),
        ensures
            a.equals(c),
    {
    }

    /// A state equals itself exactly when all four of its parts denote
    /// numbers.
    pub proof fn lemma_equals_reflexive(a: Ket)
        ensures
            a.equals(a) <==> !a.has_nan(),
    {
    }

    /// States that are equal differ in their encodings at most by the sign
    /// of a zero.
    pub proof fn lemma_equals_encodings(a: Ket, b: Ket)
        requires
            a.equals(b),
        ensures
            a.first.re == b.first.re || (denotes_zero(a.first.re) && denotes_zero(b.first.re)),
            a.first.im == b.first.im || (denotes_zero(a.first.im) && denotes_zero(b.first.im)),
            a.second.re == b.second.re || (denotes_zero(a.second.re) && denotes_zero(b.second.re)),
            a.second.im == b.second.im || (denotes_zero(a.second.im) && denotes_zero(b.second.im)),
    {
        lemma_same_number(a.first.re, b.first.re);
        lemma_same_number(a.first.im, b.first.im);
        lemma_same_number(a.second.re, b.second.re);
        lemma_same_number(a.second.im, b.second.im);
    }
}

impl PartialEq for Ket {
    /// Exact equality, component by component.
    fn eq(&self, other: &Self) -> (r: bool) {
        self.first == other.first && self.second == other.second
    }
}

impl PartialEqSpecImpl for Ket {
    open spec fn obeys_eq_spec() -> bool {
        true
    }

    open spec fn eq_spec(&self, other: &Self) -> bool {
        self.equals(*other)
    }
}

} // verus!
