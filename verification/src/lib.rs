//! An atomic two-party asset-swap escrow.
//!
//! Party A opens an offer by depositing an asset into a holding account
//! whose authority is handed to a program-derived address; party B settles
//! the trade by paying the demanded counter-asset and receiving the held
//! asset in one all-or-nothing step.  A failed invocation reports one
//! error and changes nothing; a successful settlement destroys the record,
//! so no offer can ever settle twice.

pub mod custody;
pub mod error;
pub mod host;
pub mod instruction;
pub mod ledger;
pub mod processor;
pub mod state;
