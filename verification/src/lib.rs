//! An in-memory relational store for commercial contracting data: parties
//! (buyers and sellers), framework agreements, and contracts that instantiate
//! a framework agreement between a buyer and a seller.
//!
//! The store keeps three tables with auto-assigned, sequential integer
//! identifiers. Insert operations return the fully populated record; list
//! operations return bounded prefixes; a composite read reconstructs each
//! contract together with its framework agreement, buyer, and seller,
//! resolving the two foreign keys that both target the party table.

pub mod date;
pub mod errors;
pub mod laws;
pub mod models;
pub mod seed;
pub mod store;

use vstd::prelude::*;

verus! {

} // verus!
