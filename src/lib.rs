//! A registry of subnets: bounded records, each owned by one account, with
//! identifier allocation, an owner index, deposit escrow and a one-way
//! retirement lifecycle.

pub mod balances;
pub mod laws;
pub mod registry;
pub mod types;
