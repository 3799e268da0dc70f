use doomscroll::errors::ErrorCode;
use doomscroll::instructions::join_challenge::join_challenge;
use doomscroll::instructions::{JoinChallenge, JoinChallengeBumps};
use doomscroll::pubkey::Pubkey;
use doomscroll::state::{Challenge, Participant};
use doomscroll::system::{system_program, AccountMeta, Instruction};

fn key(byte: u8) -> Pubkey {
    Pubkey { bytes: [byte; 32] }
}

fn challenge(status: u8, participant_count: u32) -> Challenge {
    Challenge {
        id: 3,
        creator: key(1),
        entry_fee: 100,
        doom_threshold_minutes: 30,
        start_time: 1_000,
        end_time: 2_000,
        participant_count,
        verifier: key(2),
        status,
        bump: 250,
    }
}

fn accounts(challenge: Challenge, payer: Pubkey) -> JoinChallenge {
    JoinChallenge {
        challenge_key: key(10),
        challenge,
        payer,
        participant_key: key(11),
        participant: None,
        escrow: key(12),
        bumps: JoinChallengeBumps { participant: 249, escrow: 248 },
    }
}

#[test]
fn join_writes_the_record_and_counts_it() {
    let mut ctx = accounts(challenge(0, 0), key(5));
    assert!(join_challenge(&mut ctx, 999).is_ok());
    assert_eq!(
        ctx.participant,
        Some(Participant {
            user: key(5),
            challenge: key(10),
            deposited: 100,
            joined_at: 999,
            disqualified: false,
            bump: 249,
        })
    );
    assert_eq!(ctx.challenge, challenge(0, 1));
}

#[test]
fn join_leaves_the_other_accounts_alone() {
    let mut ctx = accounts(challenge(0, 6), key(5));
    assert!(join_challenge(&mut ctx, 0).is_ok());
    let expected = JoinChallenge {
        challenge: challenge(0, 7),
        participant: ctx.participant,
        ..accounts(challenge(0, 6), key(5))
    };
    assert_eq!(ctx, expected);
}

#[test]
fn join_returns_the_deposit_into_escrow() {
    let mut ctx = accounts(challenge(0, 0), key(5));
    let deposit = join_challenge(&mut ctx, 999).unwrap();
    assert_eq!(
        deposit,
        Instruction {
            program_id: Pubkey { bytes: [0; 32] },
            accounts: vec![
                AccountMeta { pubkey: key(5), is_signer: true, is_writable: true },
                AccountMeta { pubkey: key(12), is_signer: false, is_writable: true },
            ],
            data: vec![2, 0, 0, 0, 100, 0, 0, 0, 0, 0, 0, 0],
        }
    );
    assert_eq!(deposit.program_id, system_program());
}

#[test]
fn deposit_is_what_the_chain_builds() {
    let mut ctx =
        accounts(Challenge { entry_fee: 0x0102_0304_0506_0708, ..challenge(0, 0) }, key(5));
    let deposit = join_challenge(&mut ctx, 999).unwrap();
    #[allow(deprecated)]
    let expected = anchor_lang::solana_program::system_instruction::transfer(
        &anchor_lang::prelude::Pubkey::new_from_array([5; 32]),
        &anchor_lang::prelude::Pubkey::new_from_array([12; 32]),
        0x0102_0304_0506_0708,
    );
    assert_eq!(deposit.program_id.bytes, expected.program_id.to_bytes());
    assert_eq!(deposit.data, expected.data);
    assert_eq!(deposit.data, vec![2, 0, 0, 0, 8, 7, 6, 5, 4, 3, 2, 1]);
    assert_eq!(deposit.accounts.len(), expected.accounts.len());
    for (ours, theirs) in deposit.accounts.iter().zip(expected.accounts.iter()) {
        assert_eq!(ours.pubkey.bytes, theirs.pubkey.to_bytes());
        assert_eq!(ours.is_signer, theirs.is_signer);
        assert_eq!(ours.is_writable, theirs.is_writable);
    }
}

#[test]
fn join_is_refused_once_the_challenge_has_ended() {
    let mut ctx = accounts(challenge(1, 2), key(5));
    let before = ctx;
    assert_eq!(join_challenge(&mut ctx, 0), Err(ErrorCode::ChallengeNotActive));
    assert_eq!(ctx, before);
}

#[test]
fn join_is_refused_once_the_rewards_are_distributed() {
    let mut ctx = accounts(challenge(2, 2), key(5));
    let before = ctx;
    assert_eq!(join_challenge(&mut ctx, 0), Err(ErrorCode::ChallengeNotActive));
    assert_eq!(ctx, before);
}

#[test]
fn join_closes_at_the_start_time() {
    let mut ctx = accounts(challenge(0, 2), key(5));
    let before = ctx;
    assert_eq!(join_challenge(&mut ctx, 1_000), Err(ErrorCode::ChallengeAlreadyStarted));
    assert_eq!(ctx, before);
    assert_eq!(join_challenge(&mut ctx, 1_001), Err(ErrorCode::ChallengeAlreadyStarted));
    assert_eq!(join_challenge(&mut ctx, i64::MAX), Err(ErrorCode::ChallengeAlreadyStarted));
    assert_eq!(ctx, before);
    assert_eq!(ctx.participant, None);
}

#[test]
fn join_is_open_until_just_before_the_start_time() {
    let mut ctx = accounts(challenge(0, 2), key(5));
    assert!(join_challenge(&mut ctx, 999).is_ok());
    let mut early = accounts(challenge(0, 2), key(5));
    assert!(join_challenge(&mut early, i64::MIN).is_ok());
    assert_eq!(early.participant.unwrap().joined_at, i64::MIN);
}

#[test]
fn state_is_tested_before_the_time() {
    let mut ctx = accounts(challenge(1, 2), key(5));
    assert_eq!(join_challenge(&mut ctx, 5_000), Err(ErrorCode::ChallengeNotActive));
}

#[test]
fn join_fails_when_the_count_is_full() {
    let mut ctx = accounts(challenge(0, u32::MAX), key(5));
    let before = ctx;
    assert_eq!(join_challenge(&mut ctx, 0), Err(ErrorCode::Overflow));
    assert_eq!(ctx, before);
    assert_eq!(ctx.participant, None);
}

#[test]
fn last_place_can_be_taken() {
    let mut ctx = accounts(challenge(0, u32::MAX - 1), key(5));
    assert!(join_challenge(&mut ctx, 0).is_ok());
    assert_eq!(ctx.challenge.participant_count, u32::MAX);
}

#[test]
fn time_is_tested_before_the_count() {
    let mut ctx = accounts(challenge(0, u32::MAX), key(5));
    assert_eq!(join_challenge(&mut ctx, 1_000), Err(ErrorCode::ChallengeAlreadyStarted));
}

#[test]
fn n_joins_count_n() {
    let mut current = challenge(0, 0);
    let mut records: Vec<Participant> = Vec::new();
    for n in 1u8..=20 {
        let mut ctx = accounts(current, key(100 + n));
        assert!(join_challenge(&mut ctx, 10).is_ok());
        current = ctx.challenge;
        records.push(ctx.participant.unwrap());
        assert_eq!(current.participant_count, n as u32);
        assert_eq!(records.len(), n as usize);
    }
    assert!(records.iter().all(|r| r.challenge == key(10) && r.deposited == 100));
}

#[test]
fn refused_joins_are_not_counted() {
    let mut current = challenge(0, 0);
    let mut accepted = 0u32;
    for (n, now) in [5i64, 1_000, 7, 2_000, 999, 1_500].iter().enumerate() {
        let mut ctx = accounts(current, key(50 + n as u8));
        if join_challenge(&mut ctx, *now).is_ok() {
            accepted += 1;
        }
        current = ctx.challenge;
    }
    assert_eq!(accepted, 3);
    assert_eq!(current.participant_count, 3);
}

#[test]
fn two_joins_count_two_in_either_order() {
    let start = challenge(0, 7);

    let mut a_first = accounts(start, key(5));
    assert!(join_challenge(&mut a_first, 10).is_ok());
    let mut b_second = accounts(a_first.challenge, key(6));
    assert!(join_challenge(&mut b_second, 20).is_ok());

    let mut b_first = accounts(start, key(6));
    assert!(join_challenge(&mut b_first, 20).is_ok());
    let mut a_second = accounts(b_first.challenge, key(5));
    assert!(join_challenge(&mut a_second, 10).is_ok());

    assert_eq!(b_second.challenge.participant_count, 9);
    assert_eq!(a_second.challenge.participant_count, 9);
    assert_eq!(b_second.challenge, a_second.challenge);
    assert_eq!(a_first.participant, a_second.participant);
    assert_eq!(b_first.participant, b_second.participant);
}
