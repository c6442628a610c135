//! Core of a mood-tracking service: accounts and sign-in, check-in logging,
//! signed session tokens, and the paging rules that every listing shares.
//!
//! Everything here is plain computation with machine-checked contracts. The
//! surrounding server hands in what it read from the network or the store and
//! carries out what the functions here decide.

pub mod errors;
pub mod models;
pub mod routes;
pub mod utils;
