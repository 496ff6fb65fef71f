use vstd::prelude::*;

verus! {

/// Every way in which one operation of the raffle program can fail.
#[derive(Debug, Clone, Copy, PartialEq, Eq, Structural)]
pub enum RaffleProgramError {
    InvalidInstruction,
    InvalidCounter,
    ArithmeticError,
    InvalidInitializer,
    WritableAccount,
    InvalidMint,
    ParticipantNotSigner,
    MaxNumberReached,
    InvalidWinner,
    InvalidFee,
    InvalidRaffleState,
    InvalidRewardType,
    InitializerNotSigner,
    InvalidWinnerPDA,
    InvalidRaffleNo,
    InvalidParticipantPDA,
    InvalidFeeType,
    RNGProgramError,
    InvalidConfig,
    NotSignerAuth,
    InvalidAuth,
    InvalidRaffle,
    InvalidTerms,
    InvalidRaffleTime,
    InvalidWinnerNumber,
    /// A stored record or an instruction payload does not decode.
    MalformedData,
    /// A token account does not belong to the expected mint or owner.
    InvalidTokenAccount,
    /// The participant holds less of the required token than the raffle asks.
    InsufficientRequirement,
    /// An account that the operation needs was not supplied.
    NotEnoughAccountKeys,
}

/// The number under which an error is reported to the host: its place in
/// the declaration above.
pub open spec fn error_code(e: RaffleProgramError) -> u32 {
    match e {
        RaffleProgramError::InvalidInstruction => 0,
        RaffleProgramError::InvalidCounter => 1,
        RaffleProgramError::ArithmeticError => 2,
        RaffleProgramError::InvalidInitializer => 3,
        RaffleProgramError::WritableAccount => 4,
        RaffleProgramError::InvalidMint => 5,
        RaffleProgramError::ParticipantNotSigner => 6,
        RaffleProgramError::MaxNumberReached => 7,
        RaffleProgramError::InvalidWinner => 8,
        RaffleProgramError::InvalidFee => 9,
        RaffleProgramError::InvalidRaffleState => 10,
        RaffleProgramError::InvalidRewardType => 11,
        RaffleProgramError::InitializerNotSigner => 12,
        RaffleProgramError::InvalidWinnerPDA => 13,
        RaffleProgramError::InvalidRaffleNo => 14,
        RaffleProgramError::InvalidParticipantPDA => 15,
        RaffleProgramError::InvalidFeeType => 16,
        RaffleProgramError::RNGProgramError => 17,
        RaffleProgramError::InvalidConfig => 18,
        RaffleProgramError::NotSignerAuth => 19,
        RaffleProgramError::InvalidAuth => 20,
        RaffleProgramError::InvalidRaffle => 21,
        RaffleProgramError::InvalidTerms => 22,
        RaffleProgramError::InvalidRaffleTime => 23,
        RaffleProgramError::InvalidWinnerNumber => 24,
        RaffleProgramError::MalformedData => 25,
        RaffleProgramError::InvalidTokenAccount => 26,
        RaffleProgramError::InsufficientRequirement => 27,
        RaffleProgramError::NotEnoughAccountKeys => 28,
    }
}

impl RaffleProgramError {
    /// The number under which this error is reported to the host.
    pub fn code(&self) -> (r: u32)
        ensures
            r == error_code(*self),
    {
        match self {
            RaffleProgramError::InvalidInstruction => 0,
            RaffleProgramError::InvalidCounter => 1,
            RaffleProgramError::ArithmeticError => 2,
            RaffleProgramError::InvalidInitializer => 3,
            RaffleProgramError::WritableAccount => 4,
            RaffleProgramError::InvalidMint => 5,
            RaffleProgramError::ParticipantNotSigner => 6,
            RaffleProgramError::MaxNumberReached => 7,
            RaffleProgramError::InvalidWinner => 8,
            RaffleProgramError::InvalidFee => 9,
            RaffleProgramError::InvalidRaffleState => 10,
            RaffleProgramError::InvalidRewardType => 11,
            RaffleProgramError::InitializerNotSigner => 12,
            RaffleProgramError::InvalidWinnerPDA => 13,
            RaffleProgramError::InvalidRaffleNo => 14,
            RaffleProgramError::InvalidParticipantPDA => 15,
            RaffleProgramError::InvalidFeeType => 16,
            RaffleProgramError::RNGProgramError => 17,
            RaffleProgramError::InvalidConfig => 18,
            RaffleProgramError::NotSignerAuth => 19,
            RaffleProgramError::InvalidAuth => 20,
            RaffleProgramError::InvalidRaffle => 21,
            RaffleProgramError::InvalidTerms => 22,
            RaffleProgramError::InvalidRaffleTime => 23,
            RaffleProgramError::InvalidWinnerNumber => 24,
            RaffleProgramError::MalformedData => 25,
            RaffleProgramError::InvalidTokenAccount => 26,
            RaffleProgramError::InsufficientRequirement => 27,
            RaffleProgramError::NotEnoughAccountKeys => 28,
        }
    }
}

} // verus!
