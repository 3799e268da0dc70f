use crate::pubkey::Pubkey;
use vstd::bytes::{
    lemma_auto_spec_u64_to_from_le_bytes, spec_u64_from_le_bytes, spec_u64_to_le_bytes,
    u64_from_le_bytes, u64_to_le_bytes,
};
use vstd::prelude::*;
use vstd::slice::slice_subrange;

verus! {

/// The record of one deposit: one user in one challenge.
#[derive(Clone, Copy, Debug, PartialEq, Eq)]
pub struct Participant {
    /// Who deposited.
    pub user: Pubkey,
    /// The address of the challenge that the deposit belongs to.
    pub challenge: Pubkey,
    /// What was deposited, in lamports.
    pub deposited: u64,
    /// When the deposit was made.
    pub joined_at: i64,
    /// Set when the participant was excluded from the rewards.
    pub disqualified: bool,
    /// Bump seed of the address at which the record is kept.
    pub bump: u8,
}

impl Participant {
    /// Length of a persisted record: an 8-byte tag, two addresses, the deposit, the time
    /// of joining, the disqualification flag and the bump seed.
    pub const LEN: usize = 8 + 32 + 32 + 8 + 8 + 1 + 1;

    /// Bytes to reserve for a persisted record.
    pub fn space() -> (n: usize)
        ensures
            n == 90,
            n == Participant::LEN,
    {
        Self::LEN
    }

    /// The tag that a persisted participant record starts with.
    pub open spec fn discriminator() -> Seq<u8> {
        seq![32u8, 142, 108, 79, 247, 179, 54, 6]
    }

    /// The fields of the record in their persisted form, which follows the tag: the two
    /// addresses, the deposit and the time of joining as 64-bit little-endian numbers, one
    /// byte that is 1 for a disqualified participant and 0 otherwise, and the bump seed.
    pub open spec fn payload(&self) -> Seq<u8> {
        self.user@ + self.challenge@ + spec_u64_to_le_bytes(self.deposited) + spec_u64_to_le_bytes(
            self.joined_at as u64,
        ) + seq![if self.disqualified { 1u8 } else { 0u8 }, self.bump]
    }

    /// The persisted form of the record: the tag, then the fields.
    pub open spec fn serialized(&self) -> Seq<u8> {
        Participant::discriminator() + self.payload()
    }

    /// The record that account data holds behind its first eight bytes, whatever these
    /// are. Data shorter than a record holds none, nor does data whose flag byte is
    /// neither 0 nor 1. Bytes that follow the record are not looked at.
    pub open spec fn deserialized(data: Seq<u8>) -> Option<Participant> {
        if data.len() >= 90 && data[88] <= 1 {
            Some(
                Participant {
                    user: Pubkey::from_seq(data.subrange(8, 40)),
                    challenge: Pubkey::from_seq(data.subrange(40, 72)),
                    deposited: spec_u64_from_le_bytes(data.subrange(72, 80)),
                    joined_at: spec_u64_from_le_bytes(data.subrange(80, 88)) as i64,
                    disqualified: data[88] == 1,
                    bump: data[89],
                },
            )
        } else {
            None
        }
    }

    /// Writes the record in its persisted form.
    pub fn serialize(&self) -> (data: Vec<u8>)
        ensures
            data@ == self.serialized(),
            data@.len() == Participant::LEN,
    {
        let mut data: Vec<u8> = vec![32u8, 142, 108, 79, 247, 179, 54, 6];
        let mut user = self.user.to_vec();
        let mut challenge = self.challenge.to_vec();
        let mut deposited = u64_to_le_bytes(self.deposited);
        let mut joined_at = u64_to_le_bytes(#[verifier::truncate] (self.joined_at as u64));
        data.append(&mut user);
        data.append(&mut challenge);
        data.append(&mut deposited);
        data.append(&mut joined_at);
        data.push(if self.disqualified { 1u8 } else { 0u8 });
        data.push(self.bump);
        data
    }

    /// Reads a record from account data without looking at the tag in its first eight
    /// bytes.
    pub fn try_deserialize_unchecked(data: &[u8]) -> (r: Option<Participant>)
        ensures
            r == Participant::deserialized(data@),
    {
        if data.len() < 90 {
            return None;
        }
        let flag: u8 = data[88];
        if flag > 1 {
            return None;
        }
        let user = Pubkey::try_from_slice(slice_subrange(data, 8, 40));
        let challenge = Pubkey::try_from_slice(slice_subrange(data, 40, 72));
        let deposited: u64 = u64_from_le_bytes(slice_subrange(data, 72, 80));
        let joined: u64 = u64_from_le_bytes(slice_subrange(data, 80, 88));
        match (user, challenge) {
            (Some(user), Some(challenge)) => Some(
                Participant {
                    user,
                    challenge,
                    deposited,
                    joined_at: #[verifier::truncate] (joined as i64),
                    disqualified: flag == 1,
                    bump: data[89],
                },
            ),
            _ => None,
        }
    }

    /// Reading gives back what was written: a record's persisted form holds that record.
    pub proof fn lemma_deserialize_serialized(p: Participant)
        ensures
            Participant::deserialized(p.serialized()) == Some(p),
    {
        let data = p.serialized();
        lemma_auto_spec_u64_to_from_le_bytes();
        Pubkey::lemma_view_determines(p.user, p.user);
        Pubkey::lemma_view_determines(p.challenge, p.challenge);
        assert(data.subrange(72, 80) =~= spec_u64_to_le_bytes(p.deposited));
        assert(data.subrange(80, 88) =~= spec_u64_to_le_bytes(p.joined_at as u64));
        let j = p.joined_at;
        assert((j as u64) as i64 == j) by (bit_vector);
    }
}

} // verus!
