//! The client of the certificate-based provider.

pub mod bill;
pub mod common;
pub mod dict;
pub mod prelude;
pub mod refund;
