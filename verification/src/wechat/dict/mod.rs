//! Data that is exchanged with the provider.

pub mod bill;
pub mod cert;
pub mod order;
pub mod refund;
