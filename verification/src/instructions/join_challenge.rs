use crate::errors::ErrorCode;
use crate::pda::{
    derived_address, escrow_seeds, find_escrow_address, find_participant_address,
    participant_seeds,
};
use crate::pubkey::Pubkey;
use crate::state::{Challenge, ChallengeStatus, Participant};
use crate::system::{is_system_transfer, system_transfer, Instruction};
use vstd::prelude::*;

verus! {

/// Bump seeds of the derived accounts of `JoinChallenge`.
#[derive(Clone, Copy, Debug, PartialEq, Eq)]
pub struct JoinChallengeBumps {
    /// Bump seed of the address of the payer's record.
    pub participant: u8,
    /// Bump seed of the escrow account's address.
    pub escrow: u8,
}

/// The accounts of a deposit into a challenge.
#[derive(Clone, Copy, Debug, PartialEq, Eq)]
pub struct JoinChallenge {
    /// The address of the challenge record.
    pub challenge_key: Pubkey,
    /// The challenge that is joined.
    pub challenge: Challenge,
    /// Who deposits, and pays the deposit.
    pub payer: Pubkey,
    /// The address of the payer's participant record in this challenge.
    pub participant_key: Pubkey,
    /// The payer's participant record in this challenge: `None` until the payer has joined.
    pub participant: Option<Participant>,
    /// The address of the escrow account, which takes the deposit.
    pub escrow: Pubkey,
    /// The bump seeds that go with the derived addresses above.
    pub bumps: JoinChallengeBumps,
}

/// Why a challenge takes no deposit at time `now`, if it takes none. The conditions are
/// tested in this order: the challenge is active, its window has not opened yet, and
/// its count of participants can still grow.
pub open spec fn join_refusal(challenge: Challenge, now: i64) -> Option<ErrorCode> {
    if challenge.status != ChallengeStatus::Active.code() {
        Some(ErrorCode::ChallengeNotActive)
    } else if now >= challenge.start_time {
        Some(ErrorCode::ChallengeAlreadyStarted)
    } else if challenge.participant_count == u32::MAX {
        Some(ErrorCode::Overflow)
    } else {
        None
    }
}

/// The challenge after one more deposit.
pub open spec fn with_one_more_participant(challenge: Challenge) -> Challenge {
    Challenge { participant_count: (challenge.participant_count + 1) as u32, ..challenge }
}

/// The record of a deposit of `deposited` lamports that `user` made into the challenge at
/// `challenge_key` at time `now`.
pub open spec fn deposit_record(
    challenge_key: Pubkey,
    user: Pubkey,
    deposited: u64,
    now: i64,
    bump: u8,
) -> Participant {
    Participant {
        user,
        challenge: challenge_key,
        deposited,
        joined_at: now,
        disqualified: false,
        bump,
    }
}

impl JoinChallenge {
    /// Whether the derived accounts are where they belong: the escrow account at the
    /// address that the challenge derives, the payer's record at the address that the
    /// challenge and the payer derive, each with its bump seed.
    pub open spec fn seeds_hold(&self, program_id: Pubkey) -> bool {
        &&& derived_address(escrow_seeds(self.challenge_key), program_id) == Some(
            (self.escrow, self.bumps.escrow),
        )
        &&& derived_address(participant_seeds(self.challenge_key, self.payer), program_id)
            == Some((self.participant_key, self.bumps.participant))
    }

    /// Derives the addresses of the escrow account and of the payer's record and holds
    /// the accounts against them.
    pub fn check_seeds(&self, program_id: &Pubkey) -> (ok: bool)
        ensures
            ok == self.seeds_hold(*program_id),
    {
        let escrow_ok = match find_escrow_address(program_id, &self.challenge_key) {
            Some((address, bump)) => address == self.escrow && bump == self.bumps.escrow,
            None => false,
        };
        let participant_ok = match find_participant_address(
            program_id,
            &self.challenge_key,
            &self.payer,
        ) {
            Some((address, bump)) => address == self.participant_key && bump
                == self.bumps.participant,
            None => false,
        };
        escrow_ok && participant_ok
    }

    /// The accounts after the payer has joined at time `now`: the payer's record exists,
    /// the challenge counts one more participant, and nothing else has changed.
    pub open spec fn joined(&self, now: i64) -> JoinChallenge {
        JoinChallenge {
            challenge: with_one_more_participant(self.challenge),
            participant: Some(
                deposit_record(
                    self.challenge_key,
                    self.payer,
                    self.challenge.entry_fee,
                    now,
                    self.bumps.participant,
                ),
            ),
            ..*self
        }
    }
}

/// Registers the payer's deposit into a challenge at time `now`.
///
/// A user joins a challenge once: the payer must have no record in it yet. Where the
/// challenge takes the deposit, the record is written, the count of participants goes up
/// by one, and the transfer of the entry fee from the payer to the escrow account is
/// returned for the caller to invoke. Where it does not, the accounts are left as they
/// were and no transfer is handed out.
pub fn join_challenge(ctx: &mut JoinChallenge, now: i64) -> (r: Result<Instruction, ErrorCode>)
    requires
        old(ctx).participant is None,
    ensures
        match r {
            Ok(deposit) => join_refusal(old(ctx).challenge, now) is None && is_system_transfer(
                deposit,
                old(ctx).payer,
                old(ctx).escrow,
                old(ctx).challenge.entry_fee,
            ) && *final(ctx) == old(ctx).joined(now),
            Err(e) => join_refusal(old(ctx).challenge, now) == Some(e) && *final(ctx) == *old(ctx),
        },
{
    if ctx.challenge.status != ChallengeStatus::Active.as_u8() {
        return Err(ErrorCode::ChallengeNotActive);
    }
    if now >= ctx.challenge.start_time {
        return Err(ErrorCode::ChallengeAlreadyStarted);
    }
    let participant_count: u32 = match ctx.challenge.participant_count.checked_add(1) {
        Some(count) => count,
        None => {
            return Err(ErrorCode::Overflow);
        },
    };
    let deposit = system_transfer(&ctx.payer, &ctx.escrow, ctx.challenge.entry_fee);
    ctx.participant = Some(
        Participant {
            user: ctx.payer,
            challenge: ctx.challenge_key,
            deposited: ctx.challenge.entry_fee,
            joined_at: now,
            disqualified: false,
            bump: ctx.bumps.participant,
        },
    );
    ctx.challenge.participant_count = participant_count;
    Ok(deposit)
}

/// Joining closes when the challenge window opens: from the start time on an active
/// challenge takes no deposit.
pub proof fn lemma_joining_closes_at_start(challenge: Challenge, now: i64)
    requires
        challenge.status == ChallengeStatus::Active.code(),
        now >= challenge.start_time,
    ensures
        join_refusal(challenge, now) == Some(ErrorCode::ChallengeAlreadyStarted),
{
}

} // verus!
