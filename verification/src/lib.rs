//! An escrow for swapping one token for another on an account-based
//! ledger.
//!
//! The initializer deposits tokens in a temporary token account and opens a
//! swap (`InitEscrow`): the terms are written to a record, and the deposit
//! is handed to an authority that only the program can sign for. A taker
//! later takes the swap (`Exchange`): the taker pays the initializer what
//! the record asks for, receives the deposit, and the record is closed.
//!
//! `processor` holds the settlement logic and states what it does;
//! `guarantees` proves what follows from that. `instruction` and `state`
//! are the two byte formats; `token`, `rent` and `authority` are what the
//! escrow takes from the token program's and the ledger's own libraries.

pub mod account;
pub mod address;
pub mod authority;
pub mod codec;
pub mod errors;
pub mod guarantees;
pub mod instruction;
pub mod processor;
pub mod rent;
pub mod state;
pub mod token;
