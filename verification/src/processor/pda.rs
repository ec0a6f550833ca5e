use vstd::prelude::*;
use crate::error::GameError;
use crate::processor::util::{append_bytes, same_address};
use crate::state::Address;

verus! {

// --------------------------------------- seeds

/// The bytes of "game".
pub open spec fn game_state_prefix() -> Seq<u8> {
    seq![103u8, 97u8, 109u8, 101u8]
}

/// The bytes of "round".
pub open spec fn round_state_prefix() -> Seq<u8> {
    seq![114u8, 111u8, 117u8, 110u8, 100u8]
}

/// The bytes of "pot".
pub open spec fn pot_prefix() -> Seq<u8> {
    seq![112u8, 111u8, 116u8]
}

/// The bytes of "pr".
pub open spec fn player_round_state_prefix() -> Seq<u8> {
    seq![112u8, 114u8]
}

/// Characters of a player's address that go into the seed of the player's
/// record.
pub const PLAYER_PREFIX_LEN: usize = 16;

/// The digits of `n` in base ten, as ASCII, without leading zeros.
pub open spec fn decimal(n: nat) -> Seq<u8>
    decreases n,
{
    if n < 10 {
        seq![(48 + n) as u8]
    } else {
        decimal(n / 10).push((48 + n % 10) as u8)
    }
}

/// Appends the digits of `n` in base ten to `buf`.
pub fn append_decimal(buf: &mut Vec<u8>, n: u64)
    ensures
        final(buf)@ == old(buf)@ + decimal(n as nat),
    decreases n,
{
    if n >= 10 {
        append_decimal(buf, n / 10);
    }
    let digit: u8 = 48 + (n % 10) as u8;
    buf.push(digit);
    assert(buf@ =~= old(buf)@ + decimal(n as nat));
}

/// The seed of the game record: "game" and the version.
pub open spec fn game_state_seed_of(version: u8) -> Seq<u8> {
    game_state_prefix() + decimal(version as nat)
}

/// The seed of a round's record: "round", the round and the version.
pub open spec fn round_state_seed_of(round_id: u64, version: u8) -> Seq<u8> {
    round_state_prefix() + decimal(round_id as nat) + decimal(version as nat)
}

/// The seed of a round's pot: "pot", the round and the version.
pub open spec fn pot_seed_of(round_id: u64, version: u8) -> Seq<u8> {
    pot_prefix() + decimal(round_id as nat) + decimal(version as nat)
}

/// The seed of a player's record of a round: "pr", the first 16
/// characters of `text`, the round and the version.
pub open spec fn player_round_state_seed_of(text: Seq<u8>, round_id: u64, version: u8) -> Seq<u8> {
    player_round_state_prefix() + text.subrange(0, PLAYER_PREFIX_LEN as int) + decimal(
        round_id as nat,
    ) + decimal(version as nat)
}

/// The seed of the game record of a version.
pub fn game_state_seed(version: u8) -> (seed: Vec<u8>)
    ensures
        seed@ == game_state_seed_of(version),
{
    let mut seed: Vec<u8> = vec![103u8, 97u8, 109u8, 101u8];
    assert(seed@ =~= game_state_prefix());
    append_decimal(&mut seed, version as u64);
    seed
}

/// The seed of the record of a round.
pub fn round_state_seed(round_id: u64, version: u8) -> (seed: Vec<u8>)
    ensures
        seed@ == round_state_seed_of(round_id, version),
{
    let mut seed: Vec<u8> = vec![114u8, 111u8, 117u8, 110u8, 100u8];
    assert(seed@ =~= round_state_prefix());
    append_decimal(&mut seed, round_id);
    append_decimal(&mut seed, version as u64);
    seed
}

/// The seed of the pot of a round.
pub fn pot_seed(round_id: u64, version: u8) -> (seed: Vec<u8>)
    ensures
        seed@ == pot_seed_of(round_id, version),
{
    let mut seed: Vec<u8> = vec![112u8, 111u8, 116u8];
    assert(seed@ =~= pot_prefix());
    append_decimal(&mut seed, round_id);
    append_decimal(&mut seed, version as u64);
    seed
}

/// The base58 text of an address, in bytes, as `solana_program` prints a
/// `Pubkey`.
pub uninterp spec fn base58_text(address: Seq<u8>) -> Seq<u8>;

/// Calls `Pubkey::to_string` of `solana_program`, which encodes the 32
/// bytes in base58, and hands out the bytes of the text.
#[verifier::external_body]
fn address_text(address: &Address) -> (text: Vec<u8>)
    ensures
        text@ == base58_text(address@),
{
    solana_program::pubkey::Pubkey::new_from_array(*address).to_string().into_bytes()
}

/// The seed of a player's record of a round, from the text of the player's
/// address. A text of less than 16 characters gives no seed.
pub fn player_seed_from_text(text: &[u8], round_id: u64, version: u8) -> (res: Result<
    Vec<u8>,
    GameError,
>)
    ensures
        match res {
            Ok(seed) => text@.len() >= PLAYER_PREFIX_LEN && seed@ == player_round_state_seed_of(
                text@,
                round_id,
                version,
            ),
            Err(e) => text@.len() < PLAYER_PREFIX_LEN && e == GameError::PDAMatchFailure,
        },
{
    if text.len() < PLAYER_PREFIX_LEN {
        return Err(GameError::PDAMatchFailure);
    }
    let mut seed: Vec<u8> = vec![112u8, 114u8];
    assert(seed@ =~= player_round_state_prefix());
    append_bytes(&mut seed, vstd::slice::slice_subrange(text, 0, PLAYER_PREFIX_LEN));
    append_decimal(&mut seed, round_id);
    append_decimal(&mut seed, version as u64);
    Ok(seed)
}

/// The seed of a player's record of a round.
pub fn player_round_state_seed(player_pk: &Address, round_id: u64, version: u8) -> (res: Result<
    Vec<u8>,
    GameError,
>)
    ensures
        match res {
            Ok(seed) => base58_text(player_pk@).len() >= PLAYER_PREFIX_LEN && seed@
                == player_round_state_seed_of(base58_text(player_pk@), round_id, version),
            Err(e) => base58_text(player_pk@).len() < PLAYER_PREFIX_LEN && e
                == GameError::PDAMatchFailure,
        },
{
    let text = address_text(player_pk);
    player_seed_from_text(text.as_slice(), round_id, version)
}

// --------------------------------------- derived addresses

/// The address that a program derives from a seed, with the bump that
/// makes it one, as `Pubkey::try_find_program_address` of `solana_program`
/// finds them for the one seed; `None` where it finds none.
pub uninterp spec fn program_address(seed: Seq<u8>, program_id: Seq<u8>) -> Option<(Seq<u8>, u8)>;

/// Calls `Pubkey::try_find_program_address` of `solana_program` with the
/// one seed. It works on the seed and the program's address alone and
/// returns `None` rather than fail, also for a seed of more than 32 bytes.
#[verifier::external_body]
fn derive_address(seed: &[u8], program_id: &Address) -> (derived: Option<(Address, u8)>)
    ensures
        match derived {
            Some((address, bump)) => program_address(seed@, program_id@) == Some((address@, bump)),
            None => program_address(seed@, program_id@) is None,
        },
{
    let program = solana_program::pubkey::Pubkey::new_from_array(*program_id);
    match solana_program::pubkey::Pubkey::try_find_program_address(&[seed], &program) {
        Some((address, bump)) => Some((address.to_bytes(), bump)),
        None => None,
    }
}

/// Holds the address that was handed in against the one that was derived,
/// and gives the bump if they are the same.
pub fn check_pda(derived: Option<(Address, u8)>, pda_key: &Address) -> (res: Result<u8, GameError>)
    ensures
        res == match derived {
            Some((address, bump)) => if address@ == pda_key@ {
                Ok::<u8, GameError>(bump)
            } else {
                Err(GameError::PDAMatchFailure)
            },
            None => Err(GameError::PDAMatchFailure),
        },
{
    match derived {
        Some((address, bump)) => {
            if same_address(&address, pda_key) {
                Ok(bump)
            } else {
                Err(GameError::PDAMatchFailure)
            }
        },
        None => Err(GameError::PDAMatchFailure),
    }
}

/// Checks that `pda_key` is the address that the program derives from
/// `pda_seed`, and gives the bump of the derivation.
pub fn find_and_verify_pda(pda_seed: &[u8], program_id: &Address, pda_key: &Address) -> (res: Result<
    u8,
    GameError,
>)
    ensures
        match res {
            Ok(bump) => program_address(pda_seed@, program_id@) == Some((pda_key@, bump)),
            Err(e) => {
                &&& e == GameError::PDAMatchFailure
                &&& forall|bump: u8|
                    program_address(pda_seed@, program_id@) != Some((pda_key@, bump))
            },
        },
{
    let derived = derive_address(pda_seed, program_id);
    check_pda(derived, pda_key)
}

// --------------------------------------- token accounts

/// What the game reads of a token account.
#[derive(Clone, Copy, Debug, PartialEq, Eq)]
pub struct TokenAccount {
    pub mint: Address,
    pub owner: Address,
    pub amount: u64,
}

/// Mint, owner and amount of the token account that the bytes hold, as
/// `Account::unpack` of `spl_token` reads them; `None` where it reads none.
pub uninterp spec fn token_account(data: Seq<u8>) -> Option<(Seq<u8>, Seq<u8>, u64)>;

/// Calls `Account::unpack` of `spl_token`, which reads an initialized token
/// account from exactly its packed bytes, and hands out three of its
/// fields. Every error comes out as `None`.
#[verifier::external_body]
fn unpack_account(data: &[u8]) -> (account: Option<TokenAccount>)
    ensures
        match account {
            Some(found) => token_account(data@) == Some((found.mint@, found.owner@, found.amount)),
            None => token_account(data@) is None,
        },
{
    match <spl_token::state::Account as solana_program::program_pack::Pack>::unpack(data) {
        Ok(found) => Some(
            TokenAccount {
                mint: found.mint.to_bytes(),
                owner: found.owner.to_bytes(),
                amount: found.amount,
            },
        ),
        Err(_) => None,
    }
}

/// The token account that an unpacking has found, or the failure to
/// report.
pub fn unpacked(found: Option<TokenAccount>) -> (res: Result<TokenAccount, GameError>)
    ensures
        res == match found {
            Some(account) => Ok::<TokenAccount, GameError>(account),
            None => Err(GameError::UnpackingFailure),
        },
{
    match found {
        Some(account) => Ok(account),
        None => Err(GameError::UnpackingFailure),
    }
}

/// Reads the token account that `data` holds.
pub fn unpack_token_account(data: &[u8]) -> (res: Result<TokenAccount, GameError>)
    ensures
        match res {
            Ok(found) => token_account(data@) == Some((found.mint@, found.owner@, found.amount)),
            Err(e) => e == GameError::UnpackingFailure && token_account(data@) is None,
        },
{
    unpacked(unpack_account(data))
}

} // verus!
