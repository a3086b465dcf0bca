//! Remote-attestation TLS: identity certificates that embed an attestation
//! quote bound to their own public key, and the policy that decides which
//! attested peers are accepted.

pub mod attestation;
pub mod binding;
pub mod cert;
pub mod config;
pub mod dcap;
pub mod error;
pub mod extension;
pub mod measurement;
pub mod prelude;
pub mod utils;

pub use crate::config::InstanceMeasurement;
pub use crate::config::RaTlsConfig;
pub use crate::error::RaTlsError;
pub use crate::measurement::SGXMeasurement;
