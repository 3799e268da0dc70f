//! The life of one challenge, told over the rules of the instruction handlers: who has
//! joined, what the escrow account holds, and what was paid out of it. Nothing here runs;
//! the file states what holds of every challenge, whatever is asked of it and in whatever
//! order, as long as every transfer that a handler returns is invoked and no other touches
//! the escrow account.
use crate::instructions::create_challenge::CreateChallenge;
use crate::instructions::distribute_rewards::{lemma_shares_fit_the_pool, DistributeRewards};
use crate::instructions::end_challenge::{end_refusal, ended};
use crate::instructions::join_challenge::{
    deposit_record, join_refusal, with_one_more_participant, JoinChallenge,
};
use crate::pubkey::Pubkey;
use crate::state::{Challenge, ChallengeStatus, Participant};
use vstd::prelude::*;

verus! {

/// One challenge with what belongs to it.
pub struct Ledger {
    /// The address of the challenge record.
    pub challenge_key: Pubkey,
    /// The challenge record.
    pub challenge: Challenge,
    /// The participant records of the challenge, in the order in which they were written.
    pub participants: Seq<Participant>,
    /// The lamports that the escrow account of the challenge holds.
    pub escrow: int,
    /// The lamports that were paid out of the escrow account.
    pub paid_out: int,
}

/// What can be asked of a challenge once it exists.
pub enum Request {
    /// `payer` asks to join at time `now`; `bump` is the bump seed of the payer's record.
    Join { payer: Pubkey, now: i64, bump: u8 },
    /// `caller` asks to close the challenge.
    End { caller: Pubkey },
    /// A distribution of rewards is asked for with these accounts.
    Distribute { accounts: DistributeRewards },
}

impl Ledger {
    /// The ledger of a challenge that was just created: nobody has joined, and the escrow
    /// account is empty.
    pub open spec fn opened(challenge_key: Pubkey, challenge: Challenge) -> Ledger {
        Ledger { challenge_key, challenge, participants: Seq::empty(), escrow: 0, paid_out: 0 }
    }

    /// Whether `user` has a participant record in the challenge.
    pub open spec fn has_joined(self, user: Pubkey) -> bool {
        exists|i: int| 0 <= i < self.participants.len() && self.participants[i].user == user
    }

    /// Whether `payer` joins at time `now`: the payer has no record yet, and the challenge
    /// takes the deposit.
    pub open spec fn takes_join(self, payer: Pubkey, now: i64) -> bool {
        !self.has_joined(payer) && join_refusal(self.challenge, now) is None
    }

    /// The ledger after `payer` asked to join at time `now`. Where the payer joins, the
    /// record is written, the challenge counts one more participant and the deposit has
    /// reached the escrow account.
    pub open spec fn join(self, payer: Pubkey, now: i64, bump: u8) -> Ledger {
        if self.takes_join(payer, now) {
            Ledger {
                challenge: with_one_more_participant(self.challenge),
                participants: self.participants.push(
                    deposit_record(
                        self.challenge_key,
                        payer,
                        self.challenge.entry_fee,
                        now,
                        bump,
                    ),
                ),
                escrow: self.escrow + self.challenge.entry_fee,
                ..self
            }
        } else {
            self
        }
    }

    /// The ledger after `caller` asked to close the challenge.
    pub open spec fn end(self, caller: Pubkey) -> Ledger {
        if end_refusal(self.challenge, caller) is None {
            Ledger { challenge: ended(self.challenge), ..self }
        } else {
            self
        }
    }

    /// Whether the accounts of a distribution are those of this challenge.
    pub open spec fn concerns(self, accounts: DistributeRewards) -> bool {
        accounts.challenge_key == self.challenge_key && accounts.challenge == self.challenge
    }

    /// The ledger after a distribution was asked for. Where it goes through, every winner's
    /// share has left the escrow account.
    pub open spec fn distribute(self, accounts: DistributeRewards) -> Ledger {
        if self.concerns(accounts) && accounts.accepted() {
            Ledger {
                challenge: accounts.settled().challenge,
                escrow: self.escrow - accounts.share() * accounts.winners_count(),
                paid_out: self.paid_out + accounts.share() * accounts.winners_count(),
                ..self
            }
        } else {
            self
        }
    }

    /// The ledger after one request.
    pub open spec fn handle(self, request: Request) -> Ledger {
        match request {
            Request::Join { payer, now, bump } => self.join(payer, now, bump),
            Request::End { caller } => self.end(caller),
            Request::Distribute { accounts } => self.distribute(accounts),
        }
    }

    /// The ledger after a list of requests, handled one after the other.
    pub open spec fn after(self, requests: Seq<Request>) -> Ledger
        decreases requests.len(),
    {
        if requests.len() == 0 {
            self
        } else {
            self.after(requests.drop_last()).handle(requests.last())
        }
    }

    /// How many of the requests are requests to join that succeed.
    pub open spec fn joins_taken(self, requests: Seq<Request>) -> nat
        decreases requests.len(),
    {
        if requests.len() == 0 {
            0
        } else {
            let before = self.after(requests.drop_last());
            let earlier = self.joins_taken(requests.drop_last());
            match requests.last() {
                Request::Join { payer, now, bump } => if before.takes_join(payer, now) {
                    earlier + 1
                } else {
                    earlier
                },
                _ => earlier,
            }
        }
    }

    /// Everything that the participants have deposited.
    pub open spec fn deposited(self) -> int {
        self.participants.len() * self.challenge.entry_fee
    }

    /// What holds of a challenge at all times: it counts exactly its participant records;
    /// each of them belongs to it and shows a deposit of the entry fee; no user has two;
    /// every lamport that was deposited is either in escrow or was paid out; no more was
    /// paid out than was deposited; and nothing was paid out before the rewards were
    /// distributed.
    pub open spec fn consistent(self) -> bool {
        &&& self.challenge.participant_count == self.participants.len()
        &&& forall|i: int|
            0 <= i < self.participants.len() ==> (#[trigger] self.participants[i]).challenge
                == self.challenge_key && self.participants[i].deposited
                == self.challenge.entry_fee
        &&& forall|i: int, j: int|
            0 <= i < j < self.participants.len() ==> (#[trigger] self.participants[i]).user != (
            #[trigger] self.participants[j]).user
        &&& self.escrow + self.paid_out == self.deposited()
        &&& 0 <= self.paid_out <= self.deposited()
        &&& self.challenge.status != ChallengeStatus::Distributed.code() ==> self.paid_out == 0
    }
}

/// A challenge starts out consistent.
pub proof fn lemma_new_challenge_is_consistent(
    accounts: CreateChallenge,
    entry_fee: u64,
    doom_threshold_minutes: u64,
    start_time: i64,
    end_time: i64,
)
    ensures
        Ledger::opened(
            accounts.challenge_key,
            accounts.new_challenge(entry_fee, doom_threshold_minutes, start_time, end_time),
        ).consistent(),
{
}

/// A request to join that succeeds writes one record, counts one participant and moves
/// exactly the entry fee into escrow; one that fails changes nothing at all.
pub proof fn lemma_join_moves_the_entry_fee(ledger: Ledger, payer: Pubkey, now: i64, bump: u8)
    ensures
        ledger.takes_join(payer, now) ==> {
            let after = ledger.join(payer, now, bump);
            &&& after.escrow == ledger.escrow + ledger.challenge.entry_fee
            &&& after.paid_out == ledger.paid_out
            &&& after.participants.len() == ledger.participants.len() + 1
            &&& after.challenge.participant_count == ledger.challenge.participant_count + 1
            &&& after.participants.last().user == payer
            &&& after.has_joined(payer)
        },
        !ledger.takes_join(payer, now) ==> ledger.join(payer, now, bump) == ledger,
{
}

/// Whatever is asked of a consistent challenge, it stays consistent.
pub proof fn lemma_requests_keep_consistent(ledger: Ledger, request: Request)
    requires
        ledger.consistent(),
    ensures
        ledger.handle(request).consistent(),
{
    let fee = ledger.challenge.entry_fee as int;
    let n = ledger.participants.len() as int;
    match request {
        Request::Join { payer, now, bump } => {
            if ledger.takes_join(payer, now) {
                assert((n + 1) * fee == n * fee + fee) by (nonlinear_arith);
                assert(0 <= n * fee) by (nonlinear_arith)
                    requires
                        0 <= n,
                        0 <= fee,
                ;
            }
        },
        Request::End { caller } => {},
        Request::Distribute { accounts } => {
            if ledger.concerns(accounts) && accounts.accepted() {
                lemma_shares_fit_the_pool(accounts);
            }
        },
    }
}

/// Every challenge is consistent at all times: it starts out so, and no list of requests
/// changes that.
pub proof fn lemma_consistent_at_all_times(ledger: Ledger, requests: Seq<Request>)
    requires
        ledger.consistent(),
    ensures
        ledger.after(requests).consistent(),
    decreases requests.len(),
{
    if requests.len() > 0 {
        lemma_consistent_at_all_times(ledger, requests.drop_last());
        lemma_requests_keep_consistent(ledger.after(requests.drop_last()), requests.last());
    }
}

/// The participants of a challenge are the requests to join that succeeded: after any
/// list of requests the challenge has one more record for each of them, and counts as
/// many. A new challenge, which starts at zero, counts them exactly.
pub proof fn lemma_joins_are_counted(ledger: Ledger, requests: Seq<Request>)
    requires
        ledger.consistent(),
    ensures
        ledger.after(requests).participants.len() == ledger.participants.len()
            + ledger.joins_taken(requests),
        ledger.after(requests).challenge.participant_count
            == ledger.challenge.participant_count + ledger.joins_taken(requests),
    decreases requests.len(),
{
    lemma_consistent_at_all_times(ledger, requests);
    if requests.len() > 0 {
        lemma_joins_are_counted(ledger, requests.drop_last());
    }
}

/// Two users who join one after the other are both counted, whoever comes first: where
/// the challenge would take either of them and has room for two, it takes both, in
/// either order, and counts two more participants.
pub proof fn lemma_two_joins_are_both_counted(
    ledger: Ledger,
    a: Pubkey,
    a_now: i64,
    a_bump: u8,
    b: Pubkey,
    b_now: i64,
    b_bump: u8,
)
    requires
        a != b,
        ledger.takes_join(a, a_now),
        ledger.takes_join(b, b_now),
        ledger.challenge.participant_count + 2 <= u32::MAX,
    ensures
        ledger.join(a, a_now, a_bump).takes_join(b, b_now),
        ledger.join(b, b_now, b_bump).takes_join(a, a_now),
        ledger.join(a, a_now, a_bump).join(b, b_now, b_bump).challenge.participant_count
            == ledger.challenge.participant_count + 2,
        ledger.join(b, b_now, b_bump).join(a, a_now, a_bump).challenge.participant_count
            == ledger.challenge.participant_count + 2,
        ledger.join(a, a_now, a_bump).join(b, b_now, b_bump).escrow == ledger.join(
            b,
            b_now,
            b_bump,
        ).join(a, a_now, a_bump).escrow,
{
}

/// A challenge only moves forward, one phase at a time: a request leaves it in its phase,
/// or takes it from `Active` to `Ended`, or from `Ended` to `Distributed`. No request
/// changes its terms.
pub proof fn lemma_challenge_moves_forward(ledger: Ledger, request: Request)
    ensures
        ({
            let before = ledger.challenge.status;
            let after = ledger.handle(request).challenge.status;
            ||| after == before
            ||| before == ChallengeStatus::Active.code() && after == ChallengeStatus::Ended.code()
            ||| before == ChallengeStatus::Ended.code() && after
                == ChallengeStatus::Distributed.code()
        }),
        ledger.handle(request).challenge_key == ledger.challenge_key,
        ledger.handle(request).challenge.id == ledger.challenge.id,
        ledger.handle(request).challenge.creator == ledger.challenge.creator,
        ledger.handle(request).challenge.verifier == ledger.challenge.verifier,
        ledger.handle(request).challenge.entry_fee == ledger.challenge.entry_fee,
        ledger.handle(request).challenge.doom_threshold_minutes
            == ledger.challenge.doom_threshold_minutes,
        ledger.handle(request).challenge.start_time == ledger.challenge.start_time,
        ledger.handle(request).challenge.end_time == ledger.challenge.end_time,
{
}

/// `Distributed` is the end: whatever is asked of a challenge whose rewards were
/// distributed, nothing changes any more. In particular nothing is paid a second time.
pub proof fn lemma_distributed_is_final(ledger: Ledger, request: Request)
    requires
        ledger.challenge.status == ChallengeStatus::Distributed.code(),
    ensures
        ledger.handle(request) == ledger,
{
}

/// What the handler of `join_challenge` does to its accounts is what the ledger records:
/// for a payer without a record, the handler succeeds exactly where the ledger takes the
/// request, and then leaves the challenge and the payer's record as the ledger has them.
pub proof fn lemma_join_handler_is_recorded(ledger: Ledger, accounts: JoinChallenge, now: i64)
    requires
        accounts.challenge_key == ledger.challenge_key,
        accounts.challenge == ledger.challenge,
        !ledger.has_joined(accounts.payer),
    ensures
        ledger.takes_join(accounts.payer, now) == (join_refusal(accounts.challenge, now) is None),
        ledger.takes_join(accounts.payer, now) ==> {
            let after = ledger.join(accounts.payer, now, accounts.bumps.participant);
            &&& after.challenge == accounts.joined(now).challenge
            &&& Some(after.participants.last()) == accounts.joined(now).participant
        },
{
}

/// What the handler of `distribute_rewards` pays is what the ledger records: the
/// transfers of a distribution that goes through debit the escrow account by one share
/// for each of them, and a consistent challenge holds that much.
pub proof fn lemma_escrow_covers_the_payouts(ledger: Ledger, accounts: DistributeRewards)
    requires
        ledger.consistent(),
        ledger.concerns(accounts),
        accounts.accepted(),
    ensures
        0 <= accounts.share() * accounts.winners_count() <= ledger.escrow,
        ledger.distribute(accounts).escrow == ledger.escrow - accounts.share()
            * accounts.winners_count(),
        0 <= ledger.distribute(accounts).escrow < accounts.winners_count(),
{
    lemma_shares_fit_the_pool(accounts);
    let share = accounts.share();
    let n = accounts.winners_count();
    assert(0 <= share * n) by (nonlinear_arith)
        requires
            0 <= share,
            0 < n,
    ;
}

} // verus!
