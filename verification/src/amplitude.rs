//! Complex amplitudes: a real and an imaginary part, each a binary64 encoding.

use crate::binary64::{denotes_nan, equal, same_number, value, Value, ONE_BITS, ZERO_BITS};
use vstd::prelude::*;
use vstd::std_specs::cmp::PartialEqSpecImpl;

verus! {

/// A complex number `re + im i`, its parts held as binary64 encodings.
#[derive(Debug, Clone, Copy)]
pub struct Amplitude {
    pub re: u64,
    pub im: u64,
}

/// The amplitude `0 + 0i`.
pub fn complex_zero() -> (z: Amplitude)
    ensures
        z == (Amplitude { re: ZERO_BITS, im: ZERO_BITS }),
{
    Amplitude { re: ZERO_BITS, im: ZERO_BITS }
}

/// The amplitude `1 + 0i`.
pub fn complex_one() -> (z: Amplitude)
    ensures
        z == (Amplitude { re: ONE_BITS, im: ZERO_BITS }),
{
    Amplitude { re: ONE_BITS, im: ZERO_BITS }
}

impl View for Amplitude {
    type V = (Value, Value);

    /// The values that the real and the imaginary part denote.
    open spec fn view(&self) -> (Value, Value) {
        (value(self.re), value(self.im))
    }
}

impl Amplitude {
    /// Exact equality of two amplitudes: the real parts denote one number,
    /// and so do the imaginary parts.
    pub open spec fn equals(self, other: Amplitude) -> bool {
        same_number(self.re, other.re) && same_number(self.im, other.im)
    }

    /// Whether either part denotes no number.
    pub open spec fn has_nan(self) -> bool {
        denotes_nan(self.re) || denotes_nan(self.im)
    }

    /// Amplitudes are equal exactly when both parts of the first denote
    /// numbers and the second denotes the same two.
    pub proof fn lemma_equals_by_value(a: Amplitude, b: Amplitude)
        ensures
            a.equals(b) <==> !a.has_nan() && a@ == b@,
    {
    }
}

impl PartialEq for Amplitude {
    /// Exact equality: the real parts denote one number and the imaginary
    /// parts denote one number.
    fn eq(&self, other: &Self) -> (r: bool) {
        equal(self.re, other.re) && equal(self.im, other.im)
    }
}

impl PartialEqSpecImpl for Amplitude {
    open spec fn obeys_eq_spec() -> bool {
        true
    }

    open spec fn eq_spec(&self, other: &Self) -> bool {
        self.equals(*other)
    }
}

} // verus!
