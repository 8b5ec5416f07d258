//! Creation of a collateral-backed covered-call escrow: derivation of the
//! escrow's address from its terms, and the all-or-nothing initialization
//! that validates the terms, records the escrow and locks the collateral;
//! with the stored form of the escrow record.

pub mod bytes;
pub mod address;
pub mod ledger;
pub mod initialize;
pub mod record;
