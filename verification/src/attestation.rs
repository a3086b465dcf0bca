//! The attestation service: the collaborator that talks to the attestation
//! hardware. It produces quotes and judges them; the library neither looks
//! inside a quote nor decides whether one is genuine.

use vstd::prelude::*;

use crate::measurement::VerifiedMeasurement;

verus! {

/// Why the attestation service could not produce or did not accept a quote.
#[derive(Debug)]
pub struct AttestationError {
    /// The service's own account of what went wrong.
    pub reason: String,
}

/// What the library asks of an attestation service. An implementation owns
/// all interaction with the hardware and its driver.
pub trait AttestationService {
    /// Asks for a quote over the given report data.
    fn generate_quote(&self, report_data: &[u8; 64]) -> Result<Vec<u8>, AttestationError>;

    /// Asks whether the quote is genuine and, if so, what it reports.
    fn verify_quote(&self, quote: &[u8]) -> Result<VerifiedMeasurement, AttestationError>;
}

} // verus!
