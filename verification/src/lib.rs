//! A self-custodial treasury controller.
//!
//! One owner, fixed when the treasury is set up, may withdraw tokens from a
//! vault that the program controls through a derived address. The crate
//! decides; the host that embeds it reads the accounts, performs the
//! invocations the crate asks for and stores what it hands back.

pub mod error;
pub mod pubkey;
pub mod wire;
pub mod address;
pub mod account;
pub mod state;
pub mod instruction;
pub mod invoke;
pub mod token;
pub mod processor;
pub mod laws;
