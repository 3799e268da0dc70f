use crate::errors::ErrorCode;
use crate::pubkey::Pubkey;
use vstd::prelude::*;

verus! {

/// The phases of a challenge. A challenge only ever moves forward through them.
#[derive(Clone, Copy, Debug, PartialEq, Eq, Structural)]
pub enum ChallengeStatus {
    /// Created; deposits are accepted until the window opens.
    Active,
    /// Closed by the creator or the verifier; rewards can be distributed.
    Ended,
    /// Rewards were paid. Nothing follows this state.
    Distributed,
}

impl ChallengeStatus {
    /// The byte that stands for this status in a challenge record.
    pub open spec fn code(self) -> u8 {
        match self {
            ChallengeStatus::Active => 0,
            ChallengeStatus::Ended => 1,
            ChallengeStatus::Distributed => 2,
        }
    }

    /// The status that a byte of a challenge record stands for, if any.
    pub open spec fn of_code(code: u8) -> Option<ChallengeStatus> {
        if code == 0 {
            Some(ChallengeStatus::Active)
        } else if code == 1 {
            Some(ChallengeStatus::Ended)
        } else if code == 2 {
            Some(ChallengeStatus::Distributed)
        } else {
            None
        }
    }

    /// The byte that stands for this status in a challenge record.
    pub fn as_u8(self) -> (code: u8)
        ensures
            code == self.code(),
    {
        match self {
            ChallengeStatus::Active => 0,
            ChallengeStatus::Ended => 1,
            ChallengeStatus::Distributed => 2,
        }
    }

    /// The status that a byte of a challenge record stands for, if any.
    pub fn from_u8(code: u8) -> (status: Option<ChallengeStatus>)
        ensures
            status == ChallengeStatus::of_code(code),
    {
        if code == 0 {
            Some(ChallengeStatus::Active)
        } else if code == 1 {
            Some(ChallengeStatus::Ended)
        } else if code == 2 {
            Some(ChallengeStatus::Distributed)
        } else {
            None
        }
    }

    /// Every status is read back from its own code, and from no other byte.
    pub proof fn lemma_code_round_trip(status: ChallengeStatus, code: u8)
        ensures
            ChallengeStatus::of_code(status.code()) == Some(status),
            ChallengeStatus::of_code(code) == Some(status) ==> code == status.code(),
    {
    }
}

/// One pooled-stake challenge, as it is persisted.
#[derive(Clone, Copy, Debug, PartialEq, Eq)]
pub struct Challenge {
    /// Sequence number handed out at creation.
    pub id: u8,
    /// Who created the challenge.
    pub creator: Pubkey,
    /// What each participant deposits, in lamports.
    pub entry_fee: u64,
    /// A parameter of the scoring that happens elsewhere.
    pub doom_threshold_minutes: u64,
    /// When the challenge window opens. Joining closes at this time.
    pub start_time: i64,
    /// When the challenge window closes.
    pub end_time: i64,
    /// How many deposits were accepted.
    pub participant_count: u32,
    /// Who may distribute the rewards.
    pub verifier: Pubkey,
    /// The code of a `ChallengeStatus`.
    pub status: u8,
    /// Bump seed of the address at which the record is kept.
    pub bump: u8,
}

impl Challenge {
    /// Bytes to reserve for a persisted challenge: the 8-byte tag, the ten fields, and four
    /// spare bytes.
    pub fn space() -> (n: usize)
        ensures
            n == 115,
    {
        8 + 1 + 32 + 8 + 8 + 8 + 8 + 4 + 4 + 32 + 1 + 1
    }

    /// The phase that the record's status byte stands for.
    pub open spec fn lifecycle(&self) -> Option<ChallengeStatus> {
        ChallengeStatus::of_code(self.status)
    }

    /// Everything that was deposited: one entry fee for each accepted participant.
    pub open spec fn pool(&self) -> int {
        self.participant_count * self.entry_fee
    }

    /// The phase that the record's status byte stands for.
    pub fn lifecycle_status(&self) -> (status: Option<ChallengeStatus>)
        ensures
            status == self.lifecycle(),
    {
        ChallengeStatus::from_u8(self.status)
    }

    /// The pool in lamports, or `Overflow` where it does not fit in 64 bits.
    pub fn total_pool(&self) -> (r: Result<u64, ErrorCode>)
        ensures
            match r {
                Ok(total) => total == self.pool(),
                Err(e) => e == ErrorCode::Overflow && self.pool() > u64::MAX,
            },
    {
        let count: u64 = self.participant_count as u64;
        match count.checked_mul(self.entry_fee) {
            Some(total) => Ok(total),
            None => Err(ErrorCode::Overflow),
        }
    }
}

} // verus!
