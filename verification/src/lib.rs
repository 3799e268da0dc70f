//! A pooled-stake challenge program: participants deposit a fixed entry fee into an
//! escrow account that belongs to the challenge, and once the challenge has ended its
//! verifier names the winners, among whom the pool is divided.
//!
//! The functions of this file are the program's instructions. Each holds the accounts
//! that it is given against the addresses that the program derives, and then lets its
//! handler under `instructions` decide. No instruction moves lamports itself: a handler
//! returns the transfers that the caller has to invoke, and leaves the accounts untouched
//! where it refuses.
use vstd::prelude::*;

pub mod account_info;
pub mod errors;
pub mod instructions;
pub mod ledger;
pub mod pda;
pub mod pubkey;
pub mod state;
pub mod system;

use crate::errors::{ErrorCode, ProgramError};
use crate::instructions::create_challenge::CreateChallenge;
use crate::instructions::distribute_rewards::{DistributeRewards, Distribution};
use crate::instructions::end_challenge::{end_refusal, ended, EndChallenge};
use crate::instructions::join_challenge::{join_refusal, JoinChallenge};
use crate::pubkey::Pubkey;
use crate::system::{is_system_transfer, Instruction};

verus! {

/// The creator sets up a new challenge with its entry fee and its time window.
///
/// Fails with `InvalidSeeds` unless the challenge account is at the address that the
/// creator and the next identifier derive; then the handler decides.
pub fn create_challenge(
    program_id: &Pubkey,
    ctx: &mut CreateChallenge,
    entry_fee: u64,
    doom_threshold_minutes: u64,
    start_time: i64,
    end_time: i64,
) -> (r: Result<u8, ProgramError>)
    ensures
        match r {
            Ok(id) => old(ctx).seeds_hold(*program_id) && old(ctx).global_counter.challenge_count
                < u8::MAX && id == old(ctx).global_counter.challenge_count && *final(ctx) == old(
                ctx,
            ).created(entry_fee, doom_threshold_minutes, start_time, end_time),
            Err(ProgramError::InvalidSeeds) => !old(ctx).seeds_hold(*program_id) && *final(ctx)
                == *old(ctx),
            Err(ProgramError::Custom(e)) => old(ctx).seeds_hold(*program_id) && e
                == ErrorCode::Overflow && old(ctx).global_counter.challenge_count == u8::MAX
                && *final(ctx) == *old(ctx),
        },
{
    if !ctx.check_seeds(program_id) {
        return Err(ProgramError::InvalidSeeds);
    }
    match crate::instructions::create_challenge::create_challenge(
        ctx,
        entry_fee,
        doom_threshold_minutes,
        start_time,
        end_time,
    ) {
        Ok(id) => Ok(id),
        Err(e) => Err(ProgramError::Custom(e)),
    }
}

/// A participant joins at time `now` and deposits the entry fee into escrow.
///
/// Fails with `InvalidSeeds` unless the escrow account and the payer's record are at the
/// addresses that the challenge and the payer derive; then the handler decides.
pub fn join_challenge(program_id: &Pubkey, ctx: &mut JoinChallenge, now: i64) -> (r: Result<
    Instruction,
    ProgramError,
>)
    requires
        old(ctx).participant is None,
    ensures
        match r {
            Ok(deposit) => old(ctx).seeds_hold(*program_id) && join_refusal(
                old(ctx).challenge,
                now,
            ) is None && is_system_transfer(
                deposit,
                old(ctx).payer,
                old(ctx).escrow,
                old(ctx).challenge.entry_fee,
            ) && *final(ctx) == old(ctx).joined(now),
            Err(ProgramError::InvalidSeeds) => !old(ctx).seeds_hold(*program_id) && *final(ctx)
                == *old(ctx),
            Err(ProgramError::Custom(e)) => old(ctx).seeds_hold(*program_id) && join_refusal(
                old(ctx).challenge,
                now,
            ) == Some(e) && *final(ctx) == *old(ctx),
        },
{
    if !ctx.check_seeds(program_id) {
        return Err(ProgramError::InvalidSeeds);
    }
    match crate::instructions::join_challenge::join_challenge(ctx, now) {
        Ok(deposit) => Ok(deposit),
        Err(e) => Err(ProgramError::Custom(e)),
    }
}

/// The creator or the verifier closes the challenge.
pub fn end_challenge(ctx: &mut EndChallenge) -> (r: Result<(), ProgramError>)
    ensures
        match r {
            Ok(_) => end_refusal(old(ctx).challenge, old(ctx).signer) is None && *final(ctx)
                == (EndChallenge { challenge: ended(old(ctx).challenge), ..*old(ctx) }),
            Err(ProgramError::InvalidSeeds) => false,
            Err(ProgramError::Custom(e)) => end_refusal(old(ctx).challenge, old(ctx).signer)
                == Some(e) && *final(ctx) == *old(ctx),
        },
{
    match crate::instructions::end_challenge::end_challenge(ctx) {
        Ok(_) => Ok(()),
        Err(e) => Err(ProgramError::Custom(e)),
    }
}

/// The verifier names the winners, and the pool is divided among them.
///
/// Fails with `InvalidSeeds` unless the escrow account is at the address that the
/// challenge derives, so that nothing is ever paid out of another account; then the
/// handler decides.
pub fn distribute_rewards(program_id: &Pubkey, ctx: &mut DistributeRewards) -> (r: Result<
    Distribution,
    ProgramError,
>)
    ensures
        match r {
            Ok(d) => old(ctx).seeds_hold(*program_id) && old(ctx).accepted() && old(ctx).pays(d)
                && *final(ctx) == old(ctx).settled(),
            Err(ProgramError::InvalidSeeds) => !old(ctx).seeds_hold(*program_id) && *final(ctx)
                == *old(ctx),
            Err(ProgramError::Custom(e)) => old(ctx).seeds_hold(*program_id) && old(
                ctx,
            ).rejected_with(e) && *final(ctx) == *old(ctx),
        },
{
    if !ctx.check_seeds(program_id) {
        return Err(ProgramError::InvalidSeeds);
    }
    match crate::instructions::distribute_rewards::distribute_rewards(ctx) {
        Ok(d) => Ok(d),
        Err(e) => Err(ProgramError::Custom(e)),
    }
}

} // verus!
