use crate::pubkey::Pubkey;
use vstd::prelude::*;

verus! {

/// What the address derivation of the hosting chain yields for a list of seeds under a
/// program: the derived address, as its bytes, and the bump seed that was found with it,
/// or `None` where the seeds derive no address.
pub uninterp spec fn program_address(seeds: Seq<Seq<u8>>, program_id: Seq<u8>) -> Option<
    (Seq<u8>, u8),
>;

/// Calls `Pubkey::try_find_program_address`, which anchor_lang hands on from the
/// solana-pubkey crate. The derivation hashes its arguments and reads nothing else, so
/// the same seeds under the same program always give the same outcome, which
/// `program_address` names. Nothing is claimed of which address that is, nor of when the
/// outcome is `None`.
#[verifier::external_body]
fn try_find_program_address(seeds: &Vec<Vec<u8>>, program_id: &Pubkey) -> (found: Option<
    (Pubkey, u8),
>)
    ensures
        match found {
            Some((address, bump)) => program_address(seeds.deep_view(), program_id@) == Some(
                (address@, bump),
            ),
            None => program_address(seeds.deep_view(), program_id@) is None,
        },
{
    let slices: Vec<&[u8]> = seeds.iter().map(|seed| seed.as_slice()).collect();
    let id = anchor_lang::prelude::Pubkey::new_from_array(program_id.bytes);
    match anchor_lang::prelude::Pubkey::try_find_program_address(&slices, &id) {
        Some((address, bump)) => Some((Pubkey { bytes: address.to_bytes() }, bump)),
        None => None,
    }
}

/// The address that `seeds` derive under `program_id`, with its bump seed.
pub open spec fn derived_address(seeds: Seq<Seq<u8>>, program_id: Pubkey) -> Option<(Pubkey, u8)> {
    match program_address(seeds, program_id@) {
        Some((address, bump)) => Some((Pubkey::from_seq(address), bump)),
        None => None,
    }
}

/// Role tag of an escrow account: the ASCII bytes of `escrow`.
pub open spec fn escrow_tag() -> Seq<u8> {
    seq![101u8, 115, 99, 114, 111, 119]
}

/// Role tag of a participant record: the ASCII bytes of `participant`.
pub open spec fn participant_tag() -> Seq<u8> {
    seq![112u8, 97, 114, 116, 105, 99, 105, 112, 97, 110, 116]
}

/// Role tag of a challenge record: the ASCII bytes of `challenge`.
pub open spec fn challenge_tag() -> Seq<u8> {
    seq![99u8, 104, 97, 108, 108, 101, 110, 103, 101]
}

/// Seeds of the escrow account of a challenge: the role tag and the challenge's address.
pub open spec fn escrow_seeds(challenge: Pubkey) -> Seq<Seq<u8>> {
    seq![escrow_tag(), challenge@]
}

/// Seeds of the record of one user in one challenge. There is one such list, and so one
/// record, for each pair of challenge and user.
pub open spec fn participant_seeds(challenge: Pubkey, user: Pubkey) -> Seq<Seq<u8>> {
    seq![participant_tag(), challenge@, user@]
}

/// Seeds of the record of the challenge that `creator` made under identifier `id`.
pub open spec fn challenge_seeds(creator: Pubkey, id: u8) -> Seq<Seq<u8>> {
    seq![challenge_tag(), creator@, seq![id]]
}

/// The seeds with which the program signs for the escrow account of a challenge: the
/// seeds of the account, followed by its bump seed.
pub open spec fn escrow_signer_seeds_of(challenge: Pubkey, bump: u8) -> Seq<Seq<u8>> {
    escrow_seeds(challenge).push(seq![bump])
}

fn escrow_seed_list(challenge: &Pubkey) -> (seeds: Vec<Vec<u8>>)
    ensures
        seeds.deep_view() == escrow_seeds(*challenge),
{
    let mut seeds: Vec<Vec<u8>> = Vec::new();
    seeds.push(vec![101u8, 115, 99, 114, 111, 119]);
    seeds.push(challenge.to_vec());
    proof {
        assert(seeds.deep_view() =~~= escrow_seeds(*challenge));
    }
    seeds
}

/// Derives the address of the escrow account of a challenge.
pub fn find_escrow_address(program_id: &Pubkey, challenge: &Pubkey) -> (found: Option<
    (Pubkey, u8),
>)
    ensures
        found == derived_address(escrow_seeds(*challenge), *program_id),
{
    let seeds = escrow_seed_list(challenge);
    let found = try_find_program_address(&seeds, program_id);
    proof {
        if let Some((address, bump)) = found {
            Pubkey::lemma_view_determines(address, address);
        }
    }
    found
}

/// Derives the address of the record of `user` in a challenge.
pub fn find_participant_address(program_id: &Pubkey, challenge: &Pubkey, user: &Pubkey) -> (found:
    Option<(Pubkey, u8)>)
    ensures
        found == derived_address(participant_seeds(*challenge, *user), *program_id),
{
    let mut seeds: Vec<Vec<u8>> = Vec::new();
    seeds.push(vec![112u8, 97, 114, 116, 105, 99, 105, 112, 97, 110, 116]);
    seeds.push(challenge.to_vec());
    seeds.push(user.to_vec());
    proof {
        assert(seeds.deep_view() =~~= participant_seeds(*challenge, *user));
    }
    let found = try_find_program_address(&seeds, program_id);
    proof {
        if let Some((address, bump)) = found {
            Pubkey::lemma_view_determines(address, address);
        }
    }
    found
}

/// Derives the address of the record of the challenge that `creator` made under `id`.
pub fn find_challenge_address(program_id: &Pubkey, creator: &Pubkey, id: u8) -> (found: Option<
    (Pubkey, u8),
>)
    ensures
        found == derived_address(challenge_seeds(*creator, id), *program_id),
{
    let mut seeds: Vec<Vec<u8>> = Vec::new();
    seeds.push(vec![99u8, 104, 97, 108, 108, 101, 110, 103, 101]);
    seeds.push(creator.to_vec());
    seeds.push(vec![id]);
    proof {
        assert(seeds.deep_view() =~~= challenge_seeds(*creator, id));
    }
    let found = try_find_program_address(&seeds, program_id);
    proof {
        if let Some((address, bump)) = found {
            Pubkey::lemma_view_determines(address, address);
        }
    }
    found
}

/// The seeds that sign for the escrow account of a challenge.
pub fn escrow_signer_seeds(challenge: &Pubkey, bump: u8) -> (seeds: Vec<Vec<u8>>)
    ensures
        seeds.deep_view() == escrow_signer_seeds_of(*challenge, bump),
{
    let mut seeds = escrow_seed_list(challenge);
    seeds.push(vec![bump]);
    proof {
        assert(seeds.deep_view() =~~= escrow_signer_seeds_of(*challenge, bump));
    }
    seeds
}

} // verus!
