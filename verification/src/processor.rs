//! The operations of the game and the checks they rely on.

pub mod fees;
pub mod lemmas;
pub mod pda;
pub mod processor;
pub mod purchase;
pub mod rng;
pub mod round;
pub mod security;
pub mod util;
pub mod withdraw;
