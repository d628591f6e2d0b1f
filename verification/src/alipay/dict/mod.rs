//! Data that is exchanged with the provider.

pub mod bill;
pub mod notify;
pub mod order;
pub mod refund;
