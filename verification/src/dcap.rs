//! Producers of raw DCAP quotes.

use vstd::prelude::*;

verus! {

/// A source of DCAP quote bytes that needs nothing from its caller.
pub trait DcapBuilder: Send + Sync {
    /// Produces the bytes of a quote.
    fn build() -> Vec<u8>;
}

} // verus!
