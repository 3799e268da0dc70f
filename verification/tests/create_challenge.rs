use doomscroll::errors::ErrorCode;
use doomscroll::instructions::create_challenge::create_challenge;
use doomscroll::instructions::{CreateChallenge, CreateChallengeBumps};
use doomscroll::pubkey::Pubkey;
use doomscroll::state::{Challenge, GlobalCounter};

fn key(byte: u8) -> Pubkey {
    Pubkey { bytes: [byte; 32] }
}

fn accounts(challenge_count: u8) -> CreateChallenge {
    CreateChallenge {
        global_counter: GlobalCounter { challenge_count },
        challenge_key: key(10),
        challenge: None,
        creator: key(1),
        verifier: key(2),
        bumps: CreateChallengeBumps { challenge: 250 },
    }
}

#[test]
fn new_challenge_is_active_and_empty() {
    let mut ctx = accounts(0);
    assert_eq!(create_challenge(&mut ctx, 100, 30, 1_000, 2_000), Ok(0));
    assert_eq!(
        ctx.challenge,
        Some(Challenge {
            id: 0,
            creator: key(1),
            entry_fee: 100,
            doom_threshold_minutes: 30,
            start_time: 1_000,
            end_time: 2_000,
            participant_count: 0,
            verifier: key(2),
            status: 0,
            bump: 250,
        })
    );
    assert_eq!(ctx.global_counter.challenge_count, 1);
}

#[test]
fn creation_leaves_the_other_accounts_alone() {
    let mut ctx = accounts(4);
    assert_eq!(create_challenge(&mut ctx, 1, 2, 3, 4), Ok(4));
    assert_eq!(ctx.challenge_key, key(10));
    assert_eq!(ctx.creator, key(1));
    assert_eq!(ctx.verifier, key(2));
    assert_eq!(ctx.bumps, CreateChallengeBumps { challenge: 250 });
}

#[test]
fn identifiers_go_up_one_by_one() {
    let mut counter = GlobalCounter::default();
    for expected in 0u8..5 {
        let mut ctx = CreateChallenge { global_counter: counter, ..accounts(0) };
        assert_eq!(create_challenge(&mut ctx, 100, 30, 1_000, 2_000), Ok(expected));
        assert_eq!(ctx.challenge.unwrap().id, expected);
        counter = ctx.global_counter;
    }
    assert_eq!(counter.challenge_count, 5);
}

#[test]
fn zero_fee_and_any_window_are_accepted() {
    let mut ctx = accounts(0);
    assert_eq!(create_challenge(&mut ctx, 0, 0, 500, -500), Ok(0));
    let challenge = ctx.challenge.unwrap();
    assert_eq!(challenge.entry_fee, 0);
    assert_eq!(challenge.start_time, 500);
    assert_eq!(challenge.end_time, -500);
}

#[test]
fn last_identifier_is_254() {
    let mut ctx = accounts(254);
    assert_eq!(create_challenge(&mut ctx, 100, 30, 1_000, 2_000), Ok(254));
    assert_eq!(ctx.global_counter.challenge_count, 255);
}

#[test]
fn creation_fails_when_the_counter_is_full() {
    let mut ctx = accounts(255);
    let before = ctx;
    assert_eq!(create_challenge(&mut ctx, 100, 30, 1_000, 2_000), Err(ErrorCode::Overflow));
    assert_eq!(ctx, before);
    assert_eq!(ctx.challenge, None);
}
