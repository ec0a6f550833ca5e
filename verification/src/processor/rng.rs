use vstd::prelude::*;
use vstd::bytes::{
    spec_u128_from_le_bytes, spec_u64_to_le_bytes, u128_from_le_bytes, u64_to_le_bytes,
};
use vstd::slice::slice_subrange;
use crate::error::GameError;
use crate::processor::util::append_bytes;
use crate::state::{Address, Clock};

verus! {

/// Tickets in the airdrop lottery: a draw gives a number below this.
pub const TICKETS: u128 = 1000;

/// The Keccak-256 digest of `data`, as `solana_program::keccak::hash`
/// computes it.
pub uninterp spec fn keccak256(data: Seq<u8>) -> Seq<u8>;

/// Calls `solana_program::keccak::hash`, which hashes the bytes it is given
/// and nothing else, and hands out the 32 bytes of the digest.
#[verifier::external_body]
fn keccak_digest(data: &[u8]) -> (digest: [u8; 32])
    ensures
        digest@ == keccak256(data@),
{
    solana_program::keccak::hash(data).to_bytes()
}

/// What the clock adds to a draw: its five readings added up, the two
/// timestamps taken as unsigned numbers.
pub open spec fn fingerprint(clock: Clock) -> int {
    (clock.unix_timestamp as u64) + clock.epoch + clock.slot + (clock.epoch_start_timestamp as u64)
        + clock.leader_schedule_epoch
}

/// The ticket that a digest stands for: its first 16 bytes read as a
/// little-endian number, reduced to the range of the tickets.
pub open spec fn ticket_of(digest: Seq<u8>) -> u128 {
    spec_u128_from_le_bytes(digest.subrange(0, 16)) % TICKETS
}

/// What `pseudo_rng` returns: the ticket of the digest of the player's
/// address followed by the eight little-endian bytes of the clock's
/// fingerprint, if that fingerprint fits in 64 bits.
pub open spec fn pseudo_rng_outcome(player_pk: Address, clock: Clock) -> Result<u128, GameError> {
    if fingerprint(clock) <= u64::MAX {
        Ok(ticket_of(keccak256(player_pk@ + spec_u64_to_le_bytes(fingerprint(clock) as u64))))
    } else {
        Err(GameError::CalculationFailure)
    }
}

/// The clock's readings added up, or a failure if the sum leaves 64 bits.
pub fn clock_fingerprint(clock: &Clock) -> (res: Result<u64, GameError>)
    ensures
        res == if fingerprint(*clock) <= u64::MAX {
            Ok::<u64, GameError>(fingerprint(*clock) as u64)
        } else {
            Err(GameError::CalculationFailure)
        },
{
    let now: u64 = #[verifier::truncate] (clock.unix_timestamp as u64);
    let epoch_start: u64 = #[verifier::truncate] (clock.epoch_start_timestamp as u64);
    let sum: u64 = match now.checked_add(clock.epoch) {
        Some(sum) => sum,
        None => {
            return Err(GameError::CalculationFailure);
        },
    };
    let sum: u64 = match sum.checked_add(clock.slot) {
        Some(sum) => sum,
        None => {
            return Err(GameError::CalculationFailure);
        },
    };
    let sum: u64 = match sum.checked_add(epoch_start) {
        Some(sum) => sum,
        None => {
            return Err(GameError::CalculationFailure);
        },
    };
    match sum.checked_add(clock.leader_schedule_epoch) {
        Some(sum) => Ok(sum),
        None => Err(GameError::CalculationFailure),
    }
}

/// Reads a ticket off a digest.
pub fn ticket_from_digest(digest: &[u8; 32]) -> (ticket: u128)
    ensures
        ticket == ticket_of(digest@),
        ticket < TICKETS,
{
    let short_hash = slice_subrange(digest.as_slice(), 0, 16);
    u128_from_le_bytes(short_hash) % TICKETS
}

/// Draws a ticket in `[0, 1000)` for a player at a moment.
///
/// This is no source of chance: whoever knows the player's address and the
/// clock knows the ticket.
pub fn pseudo_rng(player_pk: &Address, clock: &Clock) -> (res: Result<u128, GameError>)
    ensures
        res == pseudo_rng_outcome(*player_pk, *clock),
        res matches Ok(ticket) ==> ticket < TICKETS,
        res is Ok <==> fingerprint(*clock) <= u64::MAX,
{
    let temporal: u64 = clock_fingerprint(clock)?;
    let mut data: Vec<u8> = Vec::new();
    append_bytes(&mut data, player_pk.as_slice());
    let temporal_bytes = u64_to_le_bytes(temporal);
    append_bytes(&mut data, temporal_bytes.as_slice());
    let digest = keccak_digest(data.as_slice());
    Ok(ticket_from_digest(&digest))
}

} // verus!
