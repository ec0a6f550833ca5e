use vstd::prelude::*;

verus! {

/// Why an operation was refused.
///
/// The variants fall into five groups: arithmetic (`CalculationFailure`,
/// `ConversionFailure`), record identity (`UnpackingFailure`,
/// `PDAMatchFailure`, `AlreadyInitialized`, `MissingAccount`, `WrongAccount`,
/// `MintMatchFailure`), authorization (`InvalidOwner`, `MissingSignature`),
/// business rules (`AboveThreshold`, `BelowFloor`, `NotYetEnded`,
/// `AlreadyEnded`, `TokenProgramInvocationFailure`) and the broken pool
/// invariant (`InvariantViolation`).
#[derive(Clone, Copy, Debug, PartialEq, Eq, Structural)]
pub enum GameError {
    /// An addition, subtraction, multiplication, division, power, root or
    /// remainder has no result in the integer width at hand.
    CalculationFailure,
    /// A value does not fit the narrower integer it has to go into.
    ConversionFailure,
    /// The supplied amount is above the threshold.
    AboveThreshold,
    /// The supplied amount buys less than one key.
    BelowFloor,
    /// The token program refused a transfer.
    TokenProgramInvocationFailure,
    /// A token account belongs to another mint.
    MintMatchFailure,
    /// A record could not be read from its bytes.
    UnpackingFailure,
    /// The address supplied is not the one derived from the record's seed.
    PDAMatchFailure,
    /// An account is owned by another program or wallet than expected.
    InvalidOwner,
    /// The game or round record exists already.
    AlreadyInitialized,
    /// A party that has to sign has not signed.
    MissingSignature,
    /// A record that the operation needs was not supplied.
    MissingAccount,
    /// A record of the wrong party was supplied.
    WrongAccount,
    /// The round is still running.
    NotYetEnded,
    /// The round is over.
    AlreadyEnded,
    /// The pools of a round do not add up to its pot.
    InvariantViolation,
}

impl GameError {
    /// The number under which the host reports the error.
    pub open spec fn code_of(self) -> u32 {
        match self {
            GameError::CalculationFailure => 0,
            GameError::ConversionFailure => 1,
            GameError::AboveThreshold => 2,
            GameError::BelowFloor => 3,
            GameError::TokenProgramInvocationFailure => 4,
            GameError::MintMatchFailure => 5,
            GameError::UnpackingFailure => 6,
            GameError::PDAMatchFailure => 7,
            GameError::InvalidOwner => 8,
            GameError::AlreadyInitialized => 9,
            GameError::MissingSignature => 10,
            GameError::MissingAccount => 11,
            GameError::WrongAccount => 12,
            GameError::NotYetEnded => 13,
            GameError::AlreadyEnded => 14,
            GameError::InvariantViolation => 15,
        }
    }

    /// The number under which the host reports the error: the position of
    /// the variant in the declaration, counted from zero.
    pub fn code(&self) -> (n: u32)
        ensures
            n == self.code_of(),
            n < 16,
    {
        match self {
            GameError::CalculationFailure => 0,
            GameError::ConversionFailure => 1,
            GameError::AboveThreshold => 2,
            GameError::BelowFloor => 3,
            GameError::TokenProgramInvocationFailure => 4,
            GameError::MintMatchFailure => 5,
            GameError::UnpackingFailure => 6,
            GameError::PDAMatchFailure => 7,
            GameError::InvalidOwner => 8,
            GameError::AlreadyInitialized => 9,
            GameError::MissingSignature => 10,
            GameError::MissingAccount => 11,
            GameError::WrongAccount => 12,
            GameError::NotYetEnded => 13,
            GameError::AlreadyEnded => 14,
            GameError::InvariantViolation => 15,
        }
    }

    /// The error that the host reports under `code`, if there is one.
    pub fn from_code(code: u32) -> (found: Option<GameError>)
        ensures
            match found {
                Some(e) => e.code_of() == code,
                None => forall|e: GameError| e.code_of() != code,
            },
    {
        match code {
            0 => Some(GameError::CalculationFailure),
            1 => Some(GameError::ConversionFailure),
            2 => Some(GameError::AboveThreshold),
            3 => Some(GameError::BelowFloor),
            4 => Some(GameError::TokenProgramInvocationFailure),
            5 => Some(GameError::MintMatchFailure),
            6 => Some(GameError::UnpackingFailure),
            7 => Some(GameError::PDAMatchFailure),
            8 => Some(GameError::InvalidOwner),
            9 => Some(GameError::AlreadyInitialized),
            10 => Some(GameError::MissingSignature),
            11 => Some(GameError::MissingAccount),
            12 => Some(GameError::WrongAccount),
            13 => Some(GameError::NotYetEnded),
            14 => Some(GameError::AlreadyEnded),
            15 => Some(GameError::InvariantViolation),
            _ => None,
        }
    }

    /// The sentence that describes the error.
    pub open spec fn message_of(self) -> Seq<char> {
        match self {
            GameError::CalculationFailure => "General calculation failure due to overflow or underflow"@,
            GameError::ConversionFailure => "Conversion to u64 failed with an overflow or underflow"@,
            GameError::AboveThreshold => "Supplied amount is above threshold"@,
            GameError::BelowFloor => "Supplied amount is below floor"@,
            GameError::TokenProgramInvocationFailure => "Failed to invoke the SPL Token Program"@,
            GameError::MintMatchFailure => "Failed to match mint of provided token account"@,
            GameError::UnpackingFailure => "Failed to unpack account"@,
            GameError::PDAMatchFailure => "Failed to match the provided PDA with that internally derived"@,
            GameError::InvalidOwner => "Invalid owner passed"@,
            GameError::AlreadyInitialized => "Game/round account already initialized"@,
            GameError::MissingSignature => "Missing an expected signature"@,
            GameError::MissingAccount => "An additional account was expected"@,
            GameError::WrongAccount => "Wrong account has been passed"@,
            GameError::NotYetEnded => "Previous round hasn't yet ended"@,
            GameError::AlreadyEnded => "Previous round has already ended"@,
            GameError::InvariantViolation => "Shares of the round do not add up to its pot"@,
        }
    }

    /// The sentence that describes the error, for a log or a user.
    pub fn message(&self) -> (text: &'static str)
        ensures
            text@ == self.message_of(),
    {
        match self {
            GameError::CalculationFailure => "General calculation failure due to overflow or underflow",
            GameError::ConversionFailure => "Conversion to u64 failed with an overflow or underflow",
            GameError::AboveThreshold => "Supplied amount is above threshold",
            GameError::BelowFloor => "Supplied amount is below floor",
            GameError::TokenProgramInvocationFailure => "Failed to invoke the SPL Token Program",
            GameError::MintMatchFailure => "Failed to match mint of provided token account",
            GameError::UnpackingFailure => "Failed to unpack account",
            GameError::PDAMatchFailure => "Failed to match the provided PDA with that internally derived",
            GameError::InvalidOwner => "Invalid owner passed",
            GameError::AlreadyInitialized => "Game/round account already initialized",
            GameError::MissingSignature => "Missing an expected signature",
            GameError::MissingAccount => "An additional account was expected",
            GameError::WrongAccount => "Wrong account has been passed",
            GameError::NotYetEnded => "Previous round hasn't yet ended",
            GameError::AlreadyEnded => "Previous round has already ended",
            GameError::InvariantViolation => "Shares of the round do not add up to its pot",
        }
    }
}

} // verus!
