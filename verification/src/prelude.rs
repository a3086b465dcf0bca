//! The names that a configuration needs.

pub use crate::InstanceMeasurement;
pub use crate::RaTlsConfig;
pub use crate::SGXMeasurement;
