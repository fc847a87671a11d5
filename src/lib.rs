//! A fungible-token ledger: balances, allowances, a running total supply and a
//! fixed set of minters, changed only by atomic, checked operations.

pub mod arith;
pub mod store;
pub mod ledger;
pub mod laws;
