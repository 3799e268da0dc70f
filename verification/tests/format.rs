use anchor_lang::{AnchorDeserialize, AnchorSerialize};
use doomscroll::pubkey::Pubkey;
use doomscroll::state::Participant;

type Fields = ([u8; 32], [u8; 32], u64, i64, bool, u8);

fn samples() -> Vec<Participant> {
    let mut user = [0u8; 32];
    for (i, byte) in user.iter_mut().enumerate() {
        *byte = i as u8;
    }
    vec![
        Participant {
            user: Pubkey { bytes: user },
            challenge: Pubkey { bytes: [4; 32] },
            deposited: 100,
            joined_at: 1_700_000_000,
            disqualified: false,
            bump: 254,
        },
        Participant {
            user: Pubkey { bytes: [255; 32] },
            challenge: Pubkey { bytes: user },
            deposited: u64::MAX,
            joined_at: -1,
            disqualified: true,
            bump: 0,
        },
        Participant {
            user: Pubkey { bytes: [0; 32] },
            challenge: Pubkey { bytes: [0; 32] },
            deposited: 0,
            joined_at: i64::MIN,
            disqualified: false,
            bump: 255,
        },
    ]
}

fn fields_of(p: &Participant) -> Fields {
    (p.user.bytes, p.challenge.bytes, p.deposited, p.joined_at, p.disqualified, p.bump)
}

#[test]
fn record_is_written_as_the_chain_s_encoding_writes_its_fields() {
    for p in samples() {
        let mut expected = Vec::new();
        fields_of(&p).serialize(&mut expected).unwrap();
        let data = p.serialize();
        assert_eq!(&data[8..], &expected[..]);
    }
}

#[test]
fn record_is_read_as_the_chain_s_encoding_reads_its_fields() {
    for p in samples() {
        let mut data = vec![9u8; 8];
        fields_of(&p).serialize(&mut data).unwrap();
        assert_eq!(Participant::try_deserialize_unchecked(&data), Some(p));
        let mut rest = &p.serialize()[8..];
        assert_eq!(Fields::deserialize(&mut rest).unwrap(), fields_of(&p));
    }
}

#[test]
fn what_the_chain_s_encoding_refuses_is_refused() {
    let mut data = samples()[0].serialize();
    data[88] = 2;
    let mut rest = &data[8..];
    assert!(Fields::deserialize(&mut rest).is_err());
    assert_eq!(Participant::try_deserialize_unchecked(&data), None);

    let short = &samples()[0].serialize()[..89];
    let mut rest = &short[8..];
    assert!(Fields::deserialize(&mut rest).is_err());
    assert_eq!(Participant::try_deserialize_unchecked(short), None);
}

#[test]
fn tag_is_the_start_of_the_hash_of_the_record_s_name() {
    let hash = anchor_lang::solana_program::hash::hash(b"account:Participant");
    let data = samples()[0].serialize();
    assert_eq!(&data[..8], &hash.to_bytes()[..8]);
}
