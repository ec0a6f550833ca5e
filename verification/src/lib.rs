//! Round economy of a team-based key-buying game: checked arithmetic, the key
//! pricing curve, the split of every purchase among the round's pools, the
//! airdrop lottery, the round timer and settlement, and the per-player
//! dividend ledger with its withdrawals.
//!
//! Every operation works on plain records that the caller loads and stores;
//! an operation that fails leaves the records it was given untouched.

pub mod error;
pub mod instruction;
pub mod math;
pub mod processor;
pub mod state;
