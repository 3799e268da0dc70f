use crate::errors::ErrorCode;
use crate::pubkey::Pubkey;
use crate::state::{Challenge, ChallengeStatus};
use vstd::prelude::*;

verus! {

/// The accounts of the closing of a challenge.
#[derive(Clone, Copy, Debug, PartialEq, Eq)]
pub struct EndChallenge {
    /// The challenge that is closed.
    pub challenge: Challenge,
    /// Who asks for it.
    pub signer: Pubkey,
}

/// Why `caller` cannot close a challenge, if it cannot. The conditions are tested in this
/// order: the challenge is active, and the caller is its creator or its verifier.
pub open spec fn end_refusal(challenge: Challenge, caller: Pubkey) -> Option<ErrorCode> {
    if challenge.status != ChallengeStatus::Active.code() {
        Some(ErrorCode::ChallengeNotActive)
    } else if caller != challenge.creator && caller != challenge.verifier {
        Some(ErrorCode::Unauthorized)
    } else {
        None
    }
}

/// The challenge after it was closed.
pub open spec fn ended(challenge: Challenge) -> Challenge {
    Challenge { status: ChallengeStatus::Ended.code(), ..challenge }
}

/// Closes an active challenge for its creator or its verifier, at whatever time they
/// ask. Where it is refused the accounts are left as they were.
pub fn end_challenge(ctx: &mut EndChallenge) -> (r: Result<(), ErrorCode>)
    ensures
        match r {
            Ok(_) => end_refusal(old(ctx).challenge, old(ctx).signer) is None && *final(ctx)
                == (EndChallenge { challenge: ended(old(ctx).challenge), ..*old(ctx) }),
            Err(e) => end_refusal(old(ctx).challenge, old(ctx).signer) == Some(e) && *final(ctx)
                == *old(ctx),
        },
{
    if ctx.challenge.status != ChallengeStatus::Active.as_u8() {
        return Err(ErrorCode::ChallengeNotActive);
    }
    let caller = ctx.signer;
    if !(caller == ctx.challenge.creator || caller == ctx.challenge.verifier) {
        return Err(ErrorCode::Unauthorized);
    }
    ctx.challenge.status = ChallengeStatus::Ended.as_u8();
    Ok(())
}

} // verus!
