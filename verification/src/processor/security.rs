use vstd::prelude::*;
use crate::error::GameError;
use crate::processor::util::{base58_address, load_pk, same_address};
use crate::state::Address;

verus! {

// --------------------------------------- ownership

/// Who is expected to own an account.
#[derive(Clone, Copy, Debug, PartialEq, Eq)]
pub enum Owner {
    SystemProgram,
    TokenProgram,
    NativeLoader,
    BPFLoader,
    Sysvar,
    Other(Address),
    /// The owner is not looked at.
    Anyone,
}

/// The base58 text of the system program's address.
pub open spec fn system_program_text() -> Seq<char> {
    "11111111111111111111111111111111"@
}

/// The base58 text of the token program's address.
pub open spec fn token_program_text() -> Seq<char> {
    "TokenkegQfeZyiNwAJbNbGKPFXCWuBvf9Ss623VQ5DA"@
}

/// The base58 text of the native loader's address.
pub open spec fn native_loader_text() -> Seq<char> {
    "NativeLoader1111111111111111111111111111111"@
}

/// The base58 text of the BPF loader's address.
pub open spec fn bpf_loader_text() -> Seq<char> {
    "BPFLoader2111111111111111111111111111111111"@
}

/// The base58 text of the address that owns the sysvars.
pub open spec fn sysvar_text() -> Seq<char> {
    "Sysvar1111111111111111111111111111111111111"@
}

/// Calls `solana_program::system_program::id`. The crate declares that
/// address by its base58 text, which is decoded as `Pubkey::from_str`
/// decodes it.
#[verifier::external_body]
fn system_program_id() -> (id: Address)
    ensures
        base58_address(system_program_text()) == Some(id@),
{
    solana_program::system_program::id().to_bytes()
}

/// Calls `spl_token::id`. The crate declares that address by its base58
/// text, which is decoded as `Pubkey::from_str` decodes it.
#[verifier::external_body]
fn token_program_id() -> (id: Address)
    ensures
        base58_address(token_program_text()) == Some(id@),
{
    spl_token::id().to_bytes()
}

/// The address that has to own an account, if any has to; a failure where
/// the address of a well-known owner cannot be read.
pub open spec fn expected_address(owner: Owner) -> Result<Option<Seq<u8>>, GameError> {
    match owner {
        Owner::SystemProgram => known_address(system_program_text()),
        Owner::TokenProgram => known_address(token_program_text()),
        Owner::NativeLoader => known_address(native_loader_text()),
        Owner::BPFLoader => known_address(bpf_loader_text()),
        Owner::Sysvar => known_address(sysvar_text()),
        Owner::Other(address) => Ok(Some(address@)),
        Owner::Anyone => Ok(None),
    }
}

/// The address that a base58 text stands for, as an expected owner.
pub open spec fn known_address(text: Seq<char>) -> Result<Option<Seq<u8>>, GameError> {
    match base58_address(text) {
        Some(address) => Ok(Some(address)),
        None => Err(GameError::WrongAccount),
    }
}

/// What is wrong with the owner of an account, if anything.
pub open spec fn owner_failure(actual: Seq<u8>, expected: Owner) -> Option<GameError> {
    match expected_address(expected) {
        Err(e) => Some(e),
        Ok(None) => None,
        Ok(Some(address)) => if actual == address {
            None
        } else {
            Some(GameError::InvalidOwner)
        },
    }
}

/// The address that has to own an account, if any has to.
pub fn resolve_owner(expected: &Owner) -> (res: Result<Option<Address>, GameError>)
    ensures
        match res {
            Ok(Some(address)) => expected_address(*expected) == Ok::<Option<Seq<u8>>, GameError>(
                Some(address@),
            ),
            Ok(None) => expected_address(*expected) == Ok::<Option<Seq<u8>>, GameError>(None),
            Err(e) => expected_address(*expected) == Err::<Option<Seq<u8>>, GameError>(e),
        },
{
    match expected {
        Owner::SystemProgram => Ok(Some(system_program_id())),
        Owner::TokenProgram => Ok(Some(token_program_id())),
        Owner::NativeLoader => Ok(Some(load_pk("NativeLoader1111111111111111111111111111111")?)),
        Owner::BPFLoader => Ok(Some(load_pk("BPFLoader2111111111111111111111111111111111")?)),
        Owner::Sysvar => Ok(Some(load_pk("Sysvar1111111111111111111111111111111111111")?)),
        Owner::Other(address) => Ok(Some(*address)),
        Owner::Anyone => Ok(None),
    }
}

/// Holds the owner of one account against the owner expected.
pub fn check_owner(actual: &Address, expected: &Option<Address>) -> (res: Result<(), GameError>)
    ensures
        res == match expected {
            Some(address) => if actual@ == address@ {
                Ok::<(), GameError>(())
            } else {
                Err(GameError::InvalidOwner)
            },
            None => Ok(()),
        },
{
    match expected {
        Some(address) => {
            if same_address(actual, address) {
                Ok(())
            } else {
                Err(GameError::InvalidOwner)
            }
        },
        None => Ok(()),
    }
}

/// Checks that each account is owned by whom it is expected to be owned:
/// `owners[i]` is the owner of the account that `expected_owners[i]`
/// speaks of. The first account with the wrong owner decides the failure.
pub fn verify_account_ownership(owners: &[Address], expected_owners: &[Owner]) -> (res: Result<
    (),
    GameError,
>)
    requires
        owners@.len() <= expected_owners@.len(),
    ensures
        res is Ok <==> forall|i: int|
            0 <= i < owners@.len() ==> owner_failure(#[trigger] owners@[i]@, expected_owners@[i])
                is None,
        res matches Err(e) ==> exists|i: int|
            {
                &&& 0 <= i < owners@.len()
                &&& owner_failure(#[trigger] owners@[i]@, expected_owners@[i]) == Some(e)
                &&& forall|j: int|
                    0 <= j < i ==> owner_failure(#[trigger] owners@[j]@, expected_owners@[j])
                        is None
            },
{
    let mut at: usize = 0;
    while at < owners.len()
        invariant
            at <= owners@.len() <= expected_owners@.len(),
            forall|j: int|
                0 <= j < at ==> owner_failure(#[trigger] owners@[j]@, expected_owners@[j]) is None,
        decreases owners@.len() - at,
    {
        let expected_owner = match resolve_owner(&expected_owners[at]) {
            Ok(expected_owner) => expected_owner,
            Err(e) => {
                assert(owner_failure(owners@[at as int]@, expected_owners@[at as int]) == Some(e));
                return Err(e);
            },
        };
        match check_owner(&owners[at], &expected_owner) {
            Ok(_) => {},
            Err(e) => {
                assert(owner_failure(owners@[at as int]@, expected_owners@[at as int]) == Some(e));
                return Err(e);
            },
        }
        at = at + 1;
    }
    Ok(())
}

// --------------------------------------- signature

/// Checks that an account has signed.
pub fn verify_is_signer(is_signer: bool) -> (res: Result<(), GameError>)
    ensures
        res == if is_signer {
            Ok::<(), GameError>(())
        } else {
            Err(GameError::MissingSignature)
        },
{
    if !is_signer {
        return Err(GameError::MissingSignature);
    }
    Ok(())
}

// --------------------------------------- token program

/// Holds an address against that of the token program.
pub fn check_token_program(token_program: &Address, expected: &Address) -> (res: Result<
    (),
    GameError,
>)
    ensures
        res == if token_program@ == expected@ {
            Ok::<(), GameError>(())
        } else {
            Err(GameError::WrongAccount)
        },
{
    if !same_address(token_program, expected) {
        return Err(GameError::WrongAccount);
    }
    Ok(())
}

/// Checks that `token_program` is the address of the token program.
pub fn verify_token_program(token_program: &Address) -> (res: Result<(), GameError>)
    ensures
        res == if base58_address(token_program_text()) == Some(token_program@) {
            Ok::<(), GameError>(())
        } else {
            Err(GameError::WrongAccount)
        },
{
    let expected = token_program_id();
    check_token_program(token_program, &expected)
}

} // verus!
