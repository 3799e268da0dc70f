use vstd::prelude::*;

verus! {

/// Why the program refuses an instruction.
#[derive(Clone, Copy, Debug, PartialEq, Eq, Structural)]
pub enum ErrorCode {
    /// The challenge has left the `Active` state.
    ChallengeNotActive,
    /// The challenge is not in the `Ended` state.
    ChallengeNotEnded,
    /// The caller is not one of the identities allowed to do this.
    Unauthorized,
    /// A checked addition or multiplication left its type's range.
    Overflow,
    /// A winner's record belongs to another challenge or another user.
    ParticipantMismatch,
    /// A winner's record shows no deposit.
    NoDepositForParticipant,
    /// A winner's record cannot be read.
    AccountDeserializeError,
    /// The list of winner accounts is malformed.
    InvalidWinnersAccounts,
    /// The list of winners is empty.
    NoWinnersProvided,
    /// A division by zero was asked for.
    DivideByZero,
    /// The challenge window has opened: joining is closed.
    ChallengeAlreadyStarted,
    /// The challenge identifier is not valid.
    InvalidChallengeId,
    /// A winner's record is marked as disqualified.
    ParticipantDisqualified,
}

/// Why an instruction of the program fails.
#[derive(Clone, Copy, Debug, PartialEq, Eq, Structural)]
pub enum ProgramError {
    /// An account that was handed in is not at the address that its seeds derive under
    /// the program.
    InvalidSeeds,
    /// The accounts are in order, and the instruction is refused for the given reason.
    Custom(ErrorCode),
}

impl ErrorCode {
    /// The text that goes with each error.
    pub open spec fn message_text(self) -> Seq<char> {
        match self {
            ErrorCode::ChallengeNotActive => "Challenge is not active"@,
            ErrorCode::ChallengeNotEnded => "Challenge is not ended"@,
            ErrorCode::Unauthorized => "Unauthorized"@,
            ErrorCode::Overflow => "Overflow"@,
            ErrorCode::ParticipantMismatch => "Participant does not belong to challenge"@,
            ErrorCode::NoDepositForParticipant => "Participant has no deposit"@,
            ErrorCode::AccountDeserializeError => "Account deserialization failed"@,
            ErrorCode::InvalidWinnersAccounts => "Invalid winners accounts provided"@,
            ErrorCode::NoWinnersProvided => "No winners provided"@,
            ErrorCode::DivideByZero => "Divide by zero"@,
            ErrorCode::ChallengeAlreadyStarted => "Challenge already started"@,
            ErrorCode::InvalidChallengeId => "Invalid Challenge Id"@,
            ErrorCode::ParticipantDisqualified => "Participant is disqualified"@,
        }
    }

    /// The message of this error, as it is shown to the caller.
    pub fn message(&self) -> (text: &'static str)
        ensures
            text@ == self.message_text(),
    {
        match self {
            ErrorCode::ChallengeNotActive => "Challenge is not active",
            ErrorCode::ChallengeNotEnded => "Challenge is not ended",
            ErrorCode::Unauthorized => "Unauthorized",
            ErrorCode::Overflow => "Overflow",
            ErrorCode::ParticipantMismatch => "Participant does not belong to challenge",
            ErrorCode::NoDepositForParticipant => "Participant has no deposit",
            ErrorCode::AccountDeserializeError => "Account deserialization failed",
            ErrorCode::InvalidWinnersAccounts => "Invalid winners accounts provided",
            ErrorCode::NoWinnersProvided => "No winners provided",
            ErrorCode::DivideByZero => "Divide by zero",
            ErrorCode::ChallengeAlreadyStarted => "Challenge already started",
            ErrorCode::InvalidChallengeId => "Invalid Challenge Id",
            ErrorCode::ParticipantDisqualified => "Participant is disqualified",
        }
    }
}

} // verus!
