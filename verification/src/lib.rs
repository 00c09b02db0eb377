//! A single-item, time-boxed auction engine.
//!
//! Bids may be denominated in either of two settlement currencies (native
//! lumens or a stable token); they are compared on a common scale fixed by an
//! exchange-rate snapshot taken when the auction is created. The engine
//! enforces a minimum opening price and a 5% minimum increment, refunds the
//! outbid party on every accepted bid, and on expiry reports the winner so
//! that the surrounding contract shell can issue the reward.
//!
//! The engine itself is a pure state machine over plain values: the ledger
//! storage, caller authentication, token transfers and reward minting of the
//! hosting platform stay outside. Every operation takes the ambient inputs
//! (clock reading, authenticated caller) as arguments and returns the fund
//! movements it requires as explicit instructions for the shell to execute
//! within the same atomic invocation.

pub mod auction;
pub mod errors;
pub mod price;
pub mod types;
pub mod vault;
