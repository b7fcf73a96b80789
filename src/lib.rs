//! Initialization of a two-party token escrow: a fixed-layout record codec, an
//! instruction decoder and the transition that validates the accounts, fills the
//! record and asks the token program to hand the deposit over to the escrow's
//! derived authority.

pub mod bytes;
pub mod error;
pub mod instruction;
pub mod processor;
pub mod runtime;
pub mod state;
