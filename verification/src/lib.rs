//! An authority-gated state-transition processor for a shared ledger.
//!
//! The program keeps one persistent record per storage slot: who may act on
//! it, how many arbitrage operations it has counted, and the profit it has
//! accumulated. Two instructions exist: `Initialize` creates the record in a
//! freshly allocated slot, `ExecuteArbitrage` counts one operation on behalf
//! of the record's authority.
//!
//! The executable functions are verified against contracts over
//! mathematical models: byte sequences for the wire formats, a map from keys
//! to slots for the ledger. The few calls into other crates stand in small
//! functions of their own, each marked as trusted where it stands, with a
//! contract that says what is taken on trust. The module `guarantees` proves
//! what holds of the program as a whole.
//!
//! The library decides; it performs no nested call and writes no log. A
//! successful call returns an [`Outcome`] that names what the host has to
//! carry out.

pub mod account;
pub mod cpi;
pub mod error;
pub mod guarantees;
pub mod instruction;
pub mod ledger;
pub mod processor;
pub mod pubkey;
pub mod rent;
pub mod state;
pub mod wire;

pub use account::AccountRef;
pub use error::ArbitrageError;
pub use instruction::ArbitrageInstruction;
pub use ledger::{Ledger, Slot};
pub use processor::{process_instruction, Outcome};
pub use pubkey::Pubkey;
pub use state::ArbitrageState;
