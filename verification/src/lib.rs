//! TrustLink: a registry of attestations.
//!
//! Registered issuers claim things about subjects; anybody can ask who holds
//! which claims. Administrators run the registry, and a council decides on
//! sensitive matters.
//!
//! Each request is a function on [`env::Env`], the ledger as the request sees it.
//! Its contract says on which ledgers the request is refused, for which reason,
//! and what the ledger is like afterwards. [`laws`] states what follows for the
//! registry as a whole.
#![allow(unused_imports)]

pub mod address;
pub mod admin;
pub mod books;
pub mod contract;
pub mod council;
pub mod env;
pub mod events;
pub mod ident;
pub mod issuance;
pub mod issuers;
pub mod jurisdiction;
pub mod laws;
pub mod lifecycle;
pub mod list;
pub mod multisig;
pub mod queries;
pub mod requests;
pub mod storage;
pub mod table;
pub mod text;
pub mod types;
pub mod validation;
