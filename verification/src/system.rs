use crate::pubkey::Pubkey;
use vstd::prelude::*;

verus! {

/// How an instruction uses one account.
#[derive(Clone, Copy, Debug, PartialEq, Eq)]
pub struct AccountMeta {
    /// The account's address.
    pub pubkey: Pubkey,
    /// Whether the account has to sign.
    pub is_signer: bool,
    /// Whether the instruction may change the account.
    pub is_writable: bool,
}

/// An instruction for another program, ready to be invoked.
#[derive(Clone, Debug, PartialEq, Eq)]
pub struct Instruction {
    /// The program that executes the instruction.
    pub program_id: Pubkey,
    /// The accounts that it touches.
    pub accounts: Vec<AccountMeta>,
    /// What the program is asked to do, in its own encoding.
    pub data: Vec<u8>,
}

/// The address of the system program, which moves lamports between accounts: 32 zero bytes.
pub open spec fn system_program_id() -> Pubkey {
    Pubkey::from_seq(Seq::new(32, |i: int| 0u8))
}

/// The address of the system program.
pub fn system_program() -> (id: Pubkey)
    ensures
        id == system_program_id(),
{
    let id = Pubkey { bytes: [0u8; 32] };
    proof {
        assert(id.bytes =~= system_program_id().bytes);
    }
    id
}

/// The data of the system program's instruction that transfers `lamports`.
pub uninterp spec fn system_transfer_data(lamports: u64) -> Seq<u8>;

/// Whether `ix` asks the system program to move `lamports` from `from` to `to`: `from` is
/// debited and signs, `to` is credited.
pub open spec fn is_system_transfer(ix: Instruction, from: Pubkey, to: Pubkey, lamports: u64) -> bool {
    &&& ix.program_id == system_program_id()
    &&& ix.accounts@ == seq![
        AccountMeta { pubkey: from, is_signer: true, is_writable: true },
        AccountMeta { pubkey: to, is_signer: false, is_writable: true },
    ]
    &&& ix.data@ == system_transfer_data(lamports)
}

/// Calls `system_instruction::transfer`, which anchor_lang's `solana_program` hands on
/// from the solana-system-interface crate. The instruction it builds is addressed to the
/// system program and lists two writable accounts: the source, which signs, and then the
/// destination, which does not. Its data is the encoding of a transfer of `lamports` and
/// depends on nothing else; the contract names it and says nothing of the bytes.
#[verifier::external_body]
#[allow(deprecated)]
pub(crate) fn system_transfer(from: &Pubkey, to: &Pubkey, lamports: u64) -> (ix: Instruction)
    ensures
        ix.program_id == system_program_id(),
        ix.accounts@ == seq![
            AccountMeta { pubkey: *from, is_signer: true, is_writable: true },
            AccountMeta { pubkey: *to, is_signer: false, is_writable: true },
        ],
        ix.data@ == system_transfer_data(lamports),
{
    let ix = anchor_lang::solana_program::system_instruction::transfer(
        &anchor_lang::prelude::Pubkey::new_from_array(from.bytes),
        &anchor_lang::prelude::Pubkey::new_from_array(to.bytes),
        lamports,
    );
    let accounts = ix.accounts.iter().map(|meta| AccountMeta {
        pubkey: Pubkey { bytes: meta.pubkey.to_bytes() },
        is_signer: meta.is_signer,
        is_writable: meta.is_writable,
    }).collect();
    Instruction { program_id: Pubkey { bytes: ix.program_id.to_bytes() }, accounts, data: ix.data }
}

} // verus!
