use crate::errors::ErrorCode;
use crate::pda::{challenge_seeds, derived_address, find_challenge_address};
use crate::pubkey::Pubkey;
use crate::state::{Challenge, ChallengeStatus, GlobalCounter};
use vstd::prelude::*;

verus! {

/// Bump seeds of the derived accounts of `CreateChallenge`.
#[derive(Clone, Copy, Debug, PartialEq, Eq)]
pub struct CreateChallengeBumps {
    /// Bump seed of the address of the new challenge.
    pub challenge: u8,
}

/// The accounts of the creation of a challenge.
#[derive(Clone, Copy, Debug, PartialEq, Eq)]
pub struct CreateChallenge {
    /// The counter that hands out the identifier.
    pub global_counter: GlobalCounter,
    /// The address at which the new challenge is kept.
    pub challenge_key: Pubkey,
    /// The record of the new challenge, once it is created.
    pub challenge: Option<Challenge>,
    /// Who creates the challenge.
    pub creator: Pubkey,
    /// Who will be allowed to distribute its rewards.
    pub verifier: Pubkey,
    /// The bump seeds that go with the derived addresses above.
    pub bumps: CreateChallengeBumps,
}

impl CreateChallenge {
    /// Whether the new challenge is kept where it belongs: at the address that the
    /// creator and the next identifier derive under the program, with that address's
    /// bump seed.
    pub open spec fn seeds_hold(&self, program_id: Pubkey) -> bool {
        derived_address(
            challenge_seeds(self.creator, self.global_counter.challenge_count),
            program_id,
        ) == Some((self.challenge_key, self.bumps.challenge))
    }

    /// Derives the address of the new challenge and holds the accounts against it.
    pub fn check_seeds(&self, program_id: &Pubkey) -> (ok: bool)
        ensures
            ok == self.seeds_hold(*program_id),
    {
        match find_challenge_address(
            program_id,
            &self.creator,
            self.global_counter.challenge_count,
        ) {
            Some((address, bump)) => address == self.challenge_key && bump
                == self.bumps.challenge,
            None => false,
        }
    }

    /// The challenge that these accounts create with the given terms: active, without
    /// participants, under the identifier that the counter holds.
    pub open spec fn new_challenge(
        &self,
        entry_fee: u64,
        doom_threshold_minutes: u64,
        start_time: i64,
        end_time: i64,
    ) -> Challenge {
        Challenge {
            id: self.global_counter.challenge_count,
            creator: self.creator,
            entry_fee,
            doom_threshold_minutes,
            start_time,
            end_time,
            participant_count: 0,
            verifier: self.verifier,
            status: ChallengeStatus::Active.code(),
            bump: self.bumps.challenge,
        }
    }

    /// The accounts after the creation: the challenge is recorded, the counter stands one
    /// higher, and nothing else has changed.
    pub open spec fn created(
        &self,
        entry_fee: u64,
        doom_threshold_minutes: u64,
        start_time: i64,
        end_time: i64,
    ) -> CreateChallenge {
        CreateChallenge {
            global_counter: GlobalCounter {
                challenge_count: (self.global_counter.challenge_count + 1) as u8,
            },
            challenge: Some(
                self.new_challenge(entry_fee, doom_threshold_minutes, start_time, end_time),
            ),
            ..*self
        }
    }
}

/// Creates a challenge under the next identifier and returns that identifier.
///
/// The challenge and the counter change together: where no identifier is left the call
/// fails with `Overflow` and the accounts are left as they were. The terms are taken as
/// they are given; a fee of zero is accepted.
pub fn create_challenge(
    ctx: &mut CreateChallenge,
    entry_fee: u64,
    doom_threshold_minutes: u64,
    start_time: i64,
    end_time: i64,
) -> (r: Result<u8, ErrorCode>)
    ensures
        match r {
            Ok(id) => old(ctx).global_counter.challenge_count < u8::MAX && id == old(
                ctx,
            ).global_counter.challenge_count && *final(ctx) == old(ctx).created(
                entry_fee,
                doom_threshold_minutes,
                start_time,
                end_time,
            ),
            Err(e) => e == ErrorCode::Overflow && old(ctx).global_counter.challenge_count
                == u8::MAX && *final(ctx) == *old(ctx),
        },
{
    let challenge_id: u8 = match ctx.global_counter.next_id() {
        Ok(id) => id,
        Err(e) => {
            return Err(e);
        },
    };
    ctx.challenge = Some(
        Challenge {
            id: challenge_id,
            creator: ctx.creator,
            entry_fee,
            doom_threshold_minutes,
            start_time,
            end_time,
            participant_count: 0,
            verifier: ctx.verifier,
            status: ChallengeStatus::Active.as_u8(),
            bump: ctx.bumps.challenge,
        },
    );
    Ok(challenge_id)
}

/// No identifier is handed out twice: a challenge that is created after another one,
/// from the counter that the other one left behind, gets the next identifier.
pub proof fn lemma_identifiers_are_not_reused(
    first: CreateChallenge,
    second: CreateChallenge,
    entry_fee: u64,
    doom_threshold_minutes: u64,
    start_time: i64,
    end_time: i64,
)
    requires
        first.global_counter.challenge_count < u8::MAX,
        second.global_counter == first.created(
            entry_fee,
            doom_threshold_minutes,
            start_time,
            end_time,
        ).global_counter,
    ensures
        second.global_counter.challenge_count == first.global_counter.challenge_count + 1,
        second.new_challenge(entry_fee, doom_threshold_minutes, start_time, end_time).id
            == first.new_challenge(entry_fee, doom_threshold_minutes, start_time, end_time).id + 1,
{
}

} // verus!
