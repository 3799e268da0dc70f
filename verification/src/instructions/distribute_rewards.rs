use crate::account_info::AccountInfo;
use crate::errors::ErrorCode;
use crate::pda::{
    derived_address, escrow_seeds, escrow_signer_seeds, escrow_signer_seeds_of,
    find_escrow_address,
};
use crate::pubkey::Pubkey;
use crate::state::{Challenge, ChallengeStatus, Participant};
use crate::system::{is_system_transfer, system_transfer, Instruction};
use vstd::arithmetic::div_mod::{lemma_div_pos_is_pos, lemma_remainder_lower, lemma_remainder_upper};
use vstd::prelude::*;

verus! {

/// Bump seeds of the derived accounts of `DistributeRewards`.
#[derive(Clone, Copy, Debug, PartialEq, Eq)]
pub struct DistributeRewardsBumps {
    /// Bump seed of the escrow account's address.
    pub escrow: u8,
}

/// The accounts of a distribution of rewards.
#[derive(Clone, Debug, PartialEq, Eq)]
pub struct DistributeRewards {
    /// The address of the challenge record.
    pub challenge_key: Pubkey,
    /// The challenge whose pool is distributed.
    pub challenge: Challenge,
    /// The address of the escrow account, out of which the winners are paid.
    pub escrow: Pubkey,
    /// Who asks for the distribution.
    pub verifier: Pubkey,
    /// The winners, two accounts for each: the winner's participant record, then the
    /// account that is paid.
    pub remaining_accounts: Vec<AccountInfo>,
    /// The bump seeds that go with the derived addresses above.
    pub bumps: DistributeRewardsBumps,
}

/// The payouts of an accepted distribution.
#[derive(Clone, Debug, PartialEq, Eq)]
pub struct Distribution {
    /// What each winner is paid, in lamports.
    pub share: u64,
    /// One transfer out of the escrow account for each winner, in the winners' order.
    pub transfers: Vec<Instruction>,
    /// The seeds with which the program signs the transfers for the escrow account.
    pub signer_seeds: Vec<Vec<u8>>,
}

/// Why a winner is refused, if it is: `record` is the data of the participant record that
/// was handed in for the winner, `destination` the account that would be paid.
pub open spec fn winner_error(record: Seq<u8>, destination: Pubkey, challenge_key: Pubkey) -> Option<
    ErrorCode,
> {
    match Participant::deserialized(record) {
        None => Some(ErrorCode::AccountDeserializeError),
        Some(participant) => if participant.challenge != challenge_key {
            Some(ErrorCode::ParticipantMismatch)
        } else if participant.deposited == 0 {
            Some(ErrorCode::NoDepositForParticipant)
        } else if participant.disqualified {
            Some(ErrorCode::ParticipantDisqualified)
        } else if participant.user != destination {
            Some(ErrorCode::ParticipantMismatch)
        } else {
            None
        },
    }
}

/// Reads a winner's participant record and holds it against the challenge and against the
/// account that would be paid.
pub fn validate_winner(record: &[u8], destination: &Pubkey, challenge_key: &Pubkey) -> (r: Result<
    Participant,
    ErrorCode,
>)
    ensures
        match r {
            Ok(participant) => winner_error(record@, *destination, *challenge_key) is None
                && Participant::deserialized(record@) == Some(participant),
            Err(e) => winner_error(record@, *destination, *challenge_key) == Some(e),
        },
{
    match Participant::try_deserialize_unchecked(record) {
        None => Err(ErrorCode::AccountDeserializeError),
        Some(participant) => {
            if participant.challenge != *challenge_key {
                Err(ErrorCode::ParticipantMismatch)
            } else if participant.deposited == 0 {
                Err(ErrorCode::NoDepositForParticipant)
            } else if participant.disqualified {
                Err(ErrorCode::ParticipantDisqualified)
            } else if participant.user != *destination {
                Err(ErrorCode::ParticipantMismatch)
            } else {
                Ok(participant)
            }
        },
    }
}

/// What each of `winners` winners gets of `total_pool`: the quotient of the integer
/// division. The remainder is paid to nobody.
pub fn share_per_winner(total_pool: u64, winners: u64) -> (r: Result<u64, ErrorCode>)
    ensures
        match r {
            Ok(share) => winners != 0 && share == total_pool / winners,
            Err(e) => e == ErrorCode::DivideByZero && winners == 0,
        },
{
    if winners == 0 {
        Err(ErrorCode::DivideByZero)
    } else {
        Ok(total_pool / winners)
    }
}

impl DistributeRewards {
    /// Whether the escrow account is the one of this challenge: it is at the address that
    /// the challenge derives under the program, with that address's bump seed.
    pub open spec fn seeds_hold(&self, program_id: Pubkey) -> bool {
        derived_address(escrow_seeds(self.challenge_key), program_id) == Some(
            (self.escrow, self.bumps.escrow),
        )
    }

    /// Derives the address of the challenge's escrow account and holds the accounts
    /// against it.
    pub fn check_seeds(&self, program_id: &Pubkey) -> (ok: bool)
        ensures
            ok == self.seeds_hold(*program_id),
    {
        match find_escrow_address(program_id, &self.challenge_key) {
            Some((address, bump)) => address == self.escrow && bump == self.bumps.escrow,
            None => false,
        }
    }

    /// How many winners were handed in.
    pub open spec fn winners_count(&self) -> int {
        self.remaining_accounts@.len() as int / 2
    }

    /// The data of the participant record of winner `i`.
    pub open spec fn winner_record(&self, i: int) -> Seq<u8> {
        self.remaining_accounts@[2 * i].data@
    }

    /// The account that is paid for winner `i`.
    pub open spec fn winner_destination(&self, i: int) -> Pubkey {
        self.remaining_accounts@[2 * i + 1].key
    }

    /// Why winner `i` is refused, if it is.
    pub open spec fn winner_error_at(&self, i: int) -> Option<ErrorCode> {
        winner_error(self.winner_record(i), self.winner_destination(i), self.challenge_key)
    }

    /// Why the distribution is refused before any winner is looked at, if it is. The
    /// conditions are tested in this order: the challenge has ended, the caller is its
    /// verifier, there are winners, they come in pairs of accounts, and the pool fits in
    /// 64 bits.
    pub open spec fn refusal(&self) -> Option<ErrorCode> {
        if self.challenge.status != ChallengeStatus::Ended.code() {
            Some(ErrorCode::ChallengeNotEnded)
        } else if self.verifier != self.challenge.verifier {
            Some(ErrorCode::Unauthorized)
        } else if self.remaining_accounts@.len() == 0 {
            Some(ErrorCode::NoWinnersProvided)
        } else if self.remaining_accounts@.len() % 2 != 0 {
            Some(ErrorCode::AccountDeserializeError)
        } else if self.challenge.pool() > u64::MAX {
            Some(ErrorCode::Overflow)
        } else {
            None
        }
    }

    /// Whether winner `i` is the first winner that is refused, and is refused with `e`.
    pub open spec fn first_refused_winner(&self, i: int, e: ErrorCode) -> bool {
        &&& 0 <= i < self.winners_count()
        &&& self.winner_error_at(i) == Some(e)
        &&& forall|j: int| 0 <= j < i ==> self.winner_error_at(j) is None
    }

    /// Whether the distribution fails with `e`: either it is refused with `e` before any
    /// winner is looked at, or it is not and `e` is what the first refused winner is
    /// refused with.
    pub open spec fn rejected_with(&self, e: ErrorCode) -> bool {
        ||| self.refusal() == Some(e)
        ||| self.refusal() is None && exists|i: int| self.first_refused_winner(i, e)
    }

    /// Whether the distribution goes through: nothing refuses it, and no winner is refused.
    pub open spec fn accepted(&self) -> bool {
        &&& self.refusal() is None
        &&& forall|i: int| 0 <= i < self.winners_count() ==> self.winner_error_at(i) is None
    }

    /// What each winner is paid.
    pub open spec fn share(&self) -> int {
        self.challenge.pool() / self.winners_count()
    }

    /// Whether `d` is the payout of this distribution: every winner gets the same share
    /// by a transfer out of the escrow account to the winner's account, the transfers
    /// stand in the winners' order, and the escrow account's own seeds sign them.
    pub open spec fn pays(&self, d: Distribution) -> bool {
        &&& d.share == self.share()
        &&& d.transfers@.len() == self.winners_count()
        &&& forall|i: int|
            0 <= i < self.winners_count() ==> is_system_transfer(
                #[trigger] d.transfers@[i],
                self.escrow,
                self.winner_destination(i),
                d.share,
            )
        &&& d.signer_seeds.deep_view() == escrow_signer_seeds_of(
            self.challenge_key,
            self.bumps.escrow,
        )
    }

    /// The accounts after the distribution: the challenge has reached its last state, and
    /// nothing else has changed.
    pub open spec fn settled(&self) -> DistributeRewards {
        DistributeRewards {
            challenge: Challenge {
                status: ChallengeStatus::Distributed.code(),
                ..self.challenge
            },
            ..*self
        }
    }
}

/// Divides the pool of an ended challenge among the winners that its verifier names.
///
/// The distribution is all or nothing. Where anything refuses it, or any winner, the
/// first failure is returned, the accounts are left as they were and no transfer is
/// handed out. Where it goes through, the challenge becomes `Distributed` and the
/// transfers are returned for the caller to invoke, each an equal share; what the
/// division leaves over stays in escrow.
pub fn distribute_rewards(ctx: &mut DistributeRewards) -> (r: Result<Distribution, ErrorCode>)
    ensures
        match r {
            Ok(d) => old(ctx).accepted() && old(ctx).pays(d) && *final(ctx) == old(ctx).settled(),
            Err(e) => old(ctx).rejected_with(e) && *final(ctx) == *old(ctx),
        },
{
    if ctx.challenge.status != ChallengeStatus::Ended.as_u8() {
        return Err(ErrorCode::ChallengeNotEnded);
    }
    if ctx.verifier != ctx.challenge.verifier {
        return Err(ErrorCode::Unauthorized);
    }
    let rem_len: usize = ctx.remaining_accounts.len();
    if rem_len == 0 {
        return Err(ErrorCode::NoWinnersProvided);
    }
    if rem_len % 2 != 0 {
        return Err(ErrorCode::AccountDeserializeError);
    }
    let winners_count: usize = rem_len / 2;
    let total_pool: u64 = match ctx.challenge.total_pool() {
        Ok(total) => total,
        Err(e) => {
            return Err(e);
        },
    };
    let share: u64 = match share_per_winner(total_pool, winners_count as u64) {
        Ok(share) => share,
        Err(e) => {
            return Err(e);
        },
    };
    let mut transfers: Vec<Instruction> = Vec::new();
    let mut i: usize = 0;
    while i < winners_count
        invariant
            *ctx == *old(ctx),
            ctx.refusal() is None,
            winners_count == ctx.winners_count(),
            rem_len == ctx.remaining_accounts@.len(),
            rem_len == 2 * winners_count,
            share == ctx.share(),
            i <= winners_count,
            transfers@.len() == i,
            forall|j: int| 0 <= j < i ==> ctx.winner_error_at(j) is None,
            forall|j: int|
                0 <= j < i ==> is_system_transfer(
                    #[trigger] transfers@[j],
                    ctx.escrow,
                    ctx.winner_destination(j),
                    share,
                ),
        decreases winners_count - i,
    {
        let participant_ai = &ctx.remaining_accounts[2 * i];
        let user_ai = &ctx.remaining_accounts[2 * i + 1];
        match validate_winner(participant_ai.data.as_slice(), &user_ai.key, &ctx.challenge_key) {
            Ok(_) => {},
            Err(e) => {
                proof {
                    assert(ctx.first_refused_winner(i as int, e));
                }
                return Err(e);
            },
        }
        transfers.push(system_transfer(&ctx.escrow, &user_ai.key, share));
        i += 1;
    }
    let signer_seeds = escrow_signer_seeds(&ctx.challenge_key, ctx.bumps.escrow);
    ctx.challenge.status = ChallengeStatus::Distributed.as_u8();
    Ok(Distribution { share, transfers, signer_seeds })
}

/// A distribution has one outcome: it goes through or it is rejected, never both, and
/// it is rejected with one error only.
pub proof fn lemma_outcome_is_determined(ctx: DistributeRewards, e1: ErrorCode, e2: ErrorCode)
    ensures
        ctx.accepted() || exists|e: ErrorCode| ctx.rejected_with(e),
        ctx.accepted() ==> !ctx.rejected_with(e1),
        ctx.rejected_with(e1) && ctx.rejected_with(e2) ==> e1 == e2,
{
    if ctx.refusal() is None {
        if !ctx.accepted() {
            lemma_some_winner_is_refused_first(ctx, ctx.winners_count());
            let (e, i) = choose|e: ErrorCode, i: int| ctx.first_refused_winner(i, e);
            assert(ctx.rejected_with(e));
        }
    } else {
        assert(ctx.rejected_with(ctx.refusal()->0));
    }
}

/// Where one of the first `n` winners is refused, one of them is the first to be refused.
proof fn lemma_some_winner_is_refused_first(ctx: DistributeRewards, n: int)
    requires
        0 <= n <= ctx.winners_count(),
        exists|i: int| 0 <= i < n && ctx.winner_error_at(i) is Some,
    ensures
        exists|e: ErrorCode, i: int| ctx.first_refused_winner(i, e),
    decreases n,
{
    if exists|i: int| 0 <= i < n - 1 && ctx.winner_error_at(i) is Some {
        lemma_some_winner_is_refused_first(ctx, n - 1);
    } else {
        let e = ctx.winner_error_at(n - 1)->0;
        assert(ctx.first_refused_winner(n - 1, e));
    }
}

/// Rewards are distributed out of an ended challenge only: in any other state the
/// distribution fails with `ChallengeNotEnded`, whoever asks and whatever the winners.
pub proof fn lemma_distribution_needs_an_ended_challenge(ctx: DistributeRewards)
    requires
        ctx.challenge.status != ChallengeStatus::Ended.code(),
    ensures
        !ctx.accepted(),
        ctx.rejected_with(ErrorCode::ChallengeNotEnded),
{
}

/// Rewards are distributed once: after a distribution that went through, every further
/// one on the same challenge fails with `ChallengeNotEnded`.
pub proof fn lemma_distribution_is_single_shot(first: DistributeRewards, second: DistributeRewards)
    requires
        first.accepted(),
        second.challenge == first.settled().challenge,
    ensures
        !second.accepted(),
        second.rejected_with(ErrorCode::ChallengeNotEnded),
{
}

/// Nobody but the verifier of an ended challenge distributes its rewards.
pub proof fn lemma_distribution_needs_the_verifier(ctx: DistributeRewards)
    requires
        ctx.challenge.status == ChallengeStatus::Ended.code(),
        ctx.verifier != ctx.challenge.verifier,
    ensures
        !ctx.accepted(),
        ctx.rejected_with(ErrorCode::Unauthorized),
{
}

/// A distribution without winners fails with `NoWinnersProvided`.
pub proof fn lemma_distribution_needs_winners(ctx: DistributeRewards)
    requires
        ctx.challenge.status == ChallengeStatus::Ended.code(),
        ctx.verifier == ctx.challenge.verifier,
        ctx.remaining_accounts@.len() == 0,
    ensures
        !ctx.accepted(),
        ctx.rejected_with(ErrorCode::NoWinnersProvided),
{
}

/// A winner whose record belongs to another challenge brings the whole distribution
/// down: where nothing else refuses it first, it fails with `ParticipantMismatch`.
pub proof fn lemma_foreign_participant_is_refused(ctx: DistributeRewards, i: int)
    requires
        ctx.refusal() is None,
        0 <= i < ctx.winners_count(),
        forall|j: int| 0 <= j < i ==> ctx.winner_error_at(j) is None,
        Participant::deserialized(ctx.winner_record(i)) matches Some(participant)
            && participant.challenge != ctx.challenge_key,
    ensures
        !ctx.accepted(),
        ctx.rejected_with(ErrorCode::ParticipantMismatch),
{
    assert(ctx.first_refused_winner(i, ErrorCode::ParticipantMismatch));
}

/// Every winner of a distribution that goes through has a record in this challenge that
/// shows a deposit and no disqualification, and is paid at the account of the record's
/// user.
pub proof fn lemma_winners_have_deposited(ctx: DistributeRewards, i: int)
    requires
        ctx.accepted(),
        0 <= i < ctx.winners_count(),
    ensures
        Participant::deserialized(ctx.winner_record(i)) matches Some(participant)
            && participant.challenge == ctx.challenge_key && participant.deposited > 0
            && !participant.disqualified && participant.user == ctx.winner_destination(i),
{
    assert(ctx.winner_error_at(i) is None);
}

/// The shares never add up to more than the pool, and what they leave of it is less than
/// one lamport for each winner.
pub proof fn lemma_shares_fit_the_pool(ctx: DistributeRewards)
    requires
        ctx.winners_count() > 0,
    ensures
        0 <= ctx.share(),
        ctx.share() * ctx.winners_count() <= ctx.challenge.pool(),
        ctx.challenge.pool() - ctx.share() * ctx.winners_count() < ctx.winners_count(),
{
    let pool = ctx.challenge.pool();
    let n = ctx.winners_count();
    assert(0 <= pool) by (nonlinear_arith)
        requires
            pool == ctx.challenge.participant_count * ctx.challenge.entry_fee,
    ;
    lemma_div_pos_is_pos(pool, n);
    lemma_remainder_lower(pool, n);
    lemma_remainder_upper(pool, n);
}

/// Rewards leave no account but the escrow account of the challenge: where the accounts
/// hold against the program's derivation, every transfer of the payout debits the address
/// that the challenge derives, and the seeds that sign are the seeds of that address
/// with its bump seed.
pub proof fn lemma_payouts_leave_the_derived_escrow(
    program_id: Pubkey,
    ctx: DistributeRewards,
    d: Distribution,
    i: int,
)
    requires
        ctx.seeds_hold(program_id),
        ctx.pays(d),
        0 <= i < ctx.winners_count(),
    ensures
        derived_address(escrow_seeds(ctx.challenge_key), program_id) matches Some((escrow, bump))
            && is_system_transfer(d.transfers@[i], escrow, ctx.winner_destination(i), d.share)
            && d.signer_seeds.deep_view() == escrow_signer_seeds_of(ctx.challenge_key, bump),
{
}

} // verus!
