//! A ledger governance engine: realms, proposals and weighted votes kept in a
//! content-addressed record store, with exclusive voting windows, one vote per
//! (proposal, voter), checked tally arithmetic, and quorum / approval-ratio
//! resolution in basis points. Companion modules cover membership passes,
//! crowdfunding projects and time-locked savings vaults, each as verified
//! record transitions over the same identity model.

pub mod ids;
pub mod table;
pub mod engine;
pub mod laws;
pub mod dao;
pub mod funding;
pub mod vault;
