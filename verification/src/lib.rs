//! A land-title registry and sale-settlement engine.
//!
//! The crate records land parcels (title deeds), authenticates the officials
//! who may register them, and mediates a multi-step sale: listing, buyer
//! search, bilateral agreement, escrow deposit of title and funds, and a
//! final authorized release performed by a neutral registrar.
//!
//! All records live in a [`ledger::Ledger`], a model of a persistent keyed
//! record store with first-writer-wins creation: a record whose logical key
//! is already occupied cannot be created a second time. Every operation is a
//! single atomic transaction: it either applies completely or fails with a
//! typed [`errors::ProtocolError`] and leaves the ledger untouched. The
//! outside world supplies only authenticated caller identities and clock
//! readings; everything the protocol decides is verified here.

pub mod agreement;
pub mod catalog;
pub mod errors;
pub mod escrow;
pub mod identity;
pub mod keys;
pub mod laws;
pub mod ledger;
pub mod records;
pub mod store;
