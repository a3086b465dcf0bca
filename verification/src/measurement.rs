//! Measurements: what an attestation quote says about the environment that
//! produced it.

use vstd::prelude::*;
use vstd::std_specs::cmp::PartialEqSpecImpl;

verus! {

/// Whether two byte strings hold the same bytes.
pub fn bytes_equal(left: &[u8], right: &[u8]) -> (same: bool)
    ensures
        same == (left@ == right@),
{
    if left.len() != right.len() {
        return false;
    }
    let mut i: usize = 0;
    while i < left.len()
        invariant
            i <= left.len(),
            left.len() == right.len(),
            forall|j: int| 0 <= j < i ==> left@[j] == right@[j],
        decreases left.len() - i,
    {
        if left[i] != right[i] {
            return false;
        }
        i = i + 1;
    }
    assert(left@ =~= right@);
    true
}

/// A fixed-size value that identifies either the authority that signed the
/// running code or the exact code image.
#[derive(Clone, Copy, Debug)]
pub struct SGXMeasurement {
    measurement: [u8; 32],
}

impl View for SGXMeasurement {
    type V = Seq<u8>;

    closed spec fn view(&self) -> Seq<u8> {
        self.measurement@
    }
}

impl SGXMeasurement {
    /// Wraps the 32 bytes of a measurement.
    pub fn new(measurement: [u8; 32]) -> (wrapped: Self)
        ensures
            wrapped@ == measurement@,
    {
        SGXMeasurement { measurement }
    }

    /// The 32 bytes of the measurement.
    pub fn as_bytes(&self) -> (bytes: &[u8; 32])
        ensures
            bytes@ == self@,
    {
        &self.measurement
    }

    /// A measurement always holds 32 bytes.
    pub proof fn lemma_len(self)
        ensures
            self@.len() == 32,
    {
    }
}

impl PartialEq for SGXMeasurement {
    fn eq(&self, other: &Self) -> (same: bool) {
        bytes_equal(self.measurement.as_slice(), other.measurement.as_slice())
    }
}

impl Eq for SGXMeasurement {

}

impl PartialEqSpecImpl for SGXMeasurement {
    open spec fn obeys_eq_spec() -> bool {
        true
    }

    open spec fn eq_spec(&self, other: &Self) -> bool {
        self@ == other@
    }
}

/// The model of a [`VerifiedMeasurement`]: each field as a plain value.
pub struct Measurement {
    pub signer: Seq<u8>,
    pub code_measurement: Seq<u8>,
    pub product_id: u16,
    pub version: u16,
    pub report_data: Seq<u8>,
}

/// What the attestation service reports about a quote that it found valid.
#[derive(Clone, Copy, Debug)]
pub struct VerifiedMeasurement {
    /// Measurement of the authority that signed the code.
    pub signer: SGXMeasurement,
    /// Measurement of the code image.
    pub code_measurement: SGXMeasurement,
    /// Product identifier assigned by the signer.
    pub product_id: u16,
    /// Security version of the product.
    pub version: u16,
    /// The 64 bytes the quote was requested for.
    pub report_data: [u8; 64],
}

impl View for VerifiedMeasurement {
    type V = Measurement;

    open spec fn view(&self) -> Measurement {
        Measurement {
            signer: self.signer@,
            code_measurement: self.code_measurement@,
            product_id: self.product_id,
            version: self.version,
            report_data: self.report_data@,
        }
    }
}

} // verus!
