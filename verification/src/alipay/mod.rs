//! The client of the shared-secret provider.

pub mod bill;
pub mod common;
pub mod dict;
pub mod params;
pub mod prelude;
pub mod refund;
