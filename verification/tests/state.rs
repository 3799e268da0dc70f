use doomscroll::errors::ErrorCode;
use doomscroll::pubkey::Pubkey;
use doomscroll::state::{Challenge, ChallengeStatus, GlobalCounter, Participant};

fn key(byte: u8) -> Pubkey {
    Pubkey { bytes: [byte; 32] }
}

fn challenge(entry_fee: u64, participant_count: u32) -> Challenge {
    Challenge {
        id: 0,
        creator: key(1),
        entry_fee,
        doom_threshold_minutes: 30,
        start_time: 1_000,
        end_time: 2_000,
        participant_count,
        verifier: key(2),
        status: 0,
        bump: 255,
    }
}

fn participant() -> Participant {
    Participant {
        user: key(3),
        challenge: key(4),
        deposited: 0x0102_0304_0506_0708,
        joined_at: 70_000,
        disqualified: false,
        bump: 254,
    }
}

#[test]
fn space_of_the_records() {
    assert_eq!(Challenge::space(), 115);
    assert_eq!(Participant::space(), 90);
    assert_eq!(Participant::LEN, 90);
    assert_eq!(GlobalCounter::LEN, 16);
}

#[test]
fn status_codes_are_zero_one_two() {
    assert_eq!(ChallengeStatus::Active.as_u8(), 0);
    assert_eq!(ChallengeStatus::Ended.as_u8(), 1);
    assert_eq!(ChallengeStatus::Distributed.as_u8(), 2);
}

#[test]
fn status_is_read_back_from_its_code() {
    assert_eq!(ChallengeStatus::from_u8(0), Some(ChallengeStatus::Active));
    assert_eq!(ChallengeStatus::from_u8(1), Some(ChallengeStatus::Ended));
    assert_eq!(ChallengeStatus::from_u8(2), Some(ChallengeStatus::Distributed));
    assert_eq!(ChallengeStatus::from_u8(3), None);
    assert_eq!(ChallengeStatus::from_u8(255), None);
}

#[test]
fn lifecycle_status_follows_the_status_byte() {
    let mut c = challenge(100, 0);
    assert_eq!(c.lifecycle_status(), Some(ChallengeStatus::Active));
    c.status = 1;
    assert_eq!(c.lifecycle_status(), Some(ChallengeStatus::Ended));
    c.status = 2;
    assert_eq!(c.lifecycle_status(), Some(ChallengeStatus::Distributed));
    c.status = 9;
    assert_eq!(c.lifecycle_status(), None);
}

#[test]
fn total_pool_is_count_times_fee() {
    assert_eq!(challenge(100, 3).total_pool(), Ok(300));
    assert_eq!(challenge(100, 0).total_pool(), Ok(0));
    assert_eq!(challenge(0, 7).total_pool(), Ok(0));
}

#[test]
fn total_pool_is_not_cut_to_32_bits() {
    assert_eq!(challenge(5_000_000_000, 3).total_pool(), Ok(15_000_000_000));
    assert_eq!(challenge(1 << 32, 2).total_pool(), Ok(1 << 33));
}

#[test]
fn total_pool_overflows_past_64_bits() {
    assert_eq!(challenge(u64::MAX, 1).total_pool(), Ok(u64::MAX));
    assert_eq!(challenge(u64::MAX, 2).total_pool(), Err(ErrorCode::Overflow));
    assert_eq!(challenge(1 << 32, u32::MAX).total_pool(), Ok(0xffff_ffff_0000_0000));
    assert_eq!(challenge(1 << 33, u32::MAX).total_pool(), Err(ErrorCode::Overflow));
}

#[test]
fn counter_starts_at_zero() {
    assert_eq!(GlobalCounter::default(), GlobalCounter { challenge_count: 0 });
}

#[test]
fn counter_hands_out_each_identifier_once() {
    let mut counter = GlobalCounter::default();
    assert_eq!(counter.next_id(), Ok(0));
    assert_eq!(counter.next_id(), Ok(1));
    assert_eq!(counter.next_id(), Ok(2));
    assert_eq!(counter.challenge_count, 3);
}

#[test]
fn counter_fails_when_no_identifier_is_left() {
    let mut counter = GlobalCounter { challenge_count: 254 };
    assert_eq!(counter.next_id(), Ok(254));
    assert_eq!(counter.challenge_count, 255);
    assert_eq!(counter.next_id(), Err(ErrorCode::Overflow));
    assert_eq!(counter.challenge_count, 255);
}

#[test]
fn participant_is_written_field_by_field() {
    let data = participant().serialize();
    assert_eq!(data.len(), 90);
    assert_eq!(&data[0..8], &[32u8, 142, 108, 79, 247, 179, 54, 6]);
    assert_eq!(&data[8..40], &[3u8; 32]);
    assert_eq!(&data[40..72], &[4u8; 32]);
    assert_eq!(&data[72..80], &[8u8, 7, 6, 5, 4, 3, 2, 1]);
    assert_eq!(&data[80..88], &[0x70u8, 0x11, 0x01, 0, 0, 0, 0, 0]);
    assert_eq!(data[88], 0);
    assert_eq!(data[89], 254);
}

#[test]
fn participant_is_read_back_as_written() {
    let p = participant();
    assert_eq!(Participant::try_deserialize_unchecked(&p.serialize()), Some(p));
    let q = Participant { disqualified: true, joined_at: -5, deposited: u64::MAX, ..p };
    assert_eq!(Participant::try_deserialize_unchecked(&q.serialize()), Some(q));
    let r = Participant { joined_at: i64::MIN, deposited: 0, bump: 0, ..p };
    assert_eq!(Participant::try_deserialize_unchecked(&r.serialize()), Some(r));
}

#[test]
fn negative_join_time_is_written_in_twos_complement() {
    let p = Participant { joined_at: -2, ..participant() };
    let data = p.serialize();
    assert_eq!(&data[80..88], &[0xfeu8, 0xff, 0xff, 0xff, 0xff, 0xff, 0xff, 0xff]);
}

#[test]
fn participant_tag_is_not_looked_at() {
    let p = participant();
    let mut data = p.serialize();
    for byte in data.iter_mut().take(8) {
        *byte = 0;
    }
    assert_eq!(Participant::try_deserialize_unchecked(&data), Some(p));
}

#[test]
fn bytes_after_the_record_are_not_looked_at() {
    let p = participant();
    let mut data = p.serialize();
    data.extend_from_slice(&[9, 9, 9]);
    assert_eq!(Participant::try_deserialize_unchecked(&data), Some(p));
}

#[test]
fn short_data_holds_no_participant() {
    let data = participant().serialize();
    assert_eq!(Participant::try_deserialize_unchecked(&data[..89]), None);
    assert_eq!(Participant::try_deserialize_unchecked(&data[..8]), None);
    assert_eq!(Participant::try_deserialize_unchecked(&data[..3]), None);
    assert_eq!(Participant::try_deserialize_unchecked(&[]), None);
}

#[test]
fn flag_byte_must_be_zero_or_one() {
    let mut data = participant().serialize();
    data[88] = 1;
    assert_eq!(
        Participant::try_deserialize_unchecked(&data),
        Some(Participant { disqualified: true, ..participant() })
    );
    data[88] = 2;
    assert_eq!(Participant::try_deserialize_unchecked(&data), None);
    data[88] = 255;
    assert_eq!(Participant::try_deserialize_unchecked(&data), None);
}

#[test]
fn pubkey_is_read_from_32_bytes_only() {
    let bytes: Vec<u8> = (0u8..32).collect();
    let k = Pubkey::try_from_slice(&bytes).unwrap();
    assert_eq!(k.to_vec(), bytes);
    assert_eq!(k.bytes[31], 31);
    assert_eq!(Pubkey::try_from_slice(&bytes[..31]), None);
    assert_eq!(Pubkey::try_from_slice(&[0u8; 33]), None);
}

#[test]
fn pubkeys_are_equal_when_all_bytes_are() {
    let mut other = key(5);
    assert!(key(5) == other);
    other.bytes[31] = 6;
    assert!(key(5) != other);
    other.bytes[31] = 5;
    other.bytes[0] = 4;
    assert!(key(5) != other);
}

#[test]
fn every_error_has_its_message() {
    assert_eq!(ErrorCode::ChallengeNotActive.message(), "Challenge is not active");
    assert_eq!(ErrorCode::ChallengeNotEnded.message(), "Challenge is not ended");
    assert_eq!(ErrorCode::Unauthorized.message(), "Unauthorized");
    assert_eq!(ErrorCode::Overflow.message(), "Overflow");
    assert_eq!(
        ErrorCode::ParticipantMismatch.message(),
        "Participant does not belong to challenge"
    );
    assert_eq!(ErrorCode::NoDepositForParticipant.message(), "Participant has no deposit");
    assert_eq!(ErrorCode::AccountDeserializeError.message(), "Account deserialization failed");
    assert_eq!(ErrorCode::InvalidWinnersAccounts.message(), "Invalid winners accounts provided");
    assert_eq!(ErrorCode::NoWinnersProvided.message(), "No winners provided");
    assert_eq!(ErrorCode::DivideByZero.message(), "Divide by zero");
    assert_eq!(ErrorCode::ChallengeAlreadyStarted.message(), "Challenge already started");
    assert_eq!(ErrorCode::InvalidChallengeId.message(), "Invalid Challenge Id");
    assert_eq!(ErrorCode::ParticipantDisqualified.message(), "Participant is disqualified");
}
