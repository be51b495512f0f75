//! Configuration store and profile transactions of a single-destination
//! redirect service.
//!
//! One profile out of a set is active at any time and decides where public
//! traffic goes. The store keeps the whole configuration in memory, hands out
//! snapshots, and accepts whole-value replacements; the admin transactions are
//! read-modify-write cycles on top of it.

pub mod ident;
pub mod config;
pub mod service;
pub mod admin;
