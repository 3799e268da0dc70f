use crate::pubkey::Pubkey;
use vstd::prelude::*;

verus! {

/// An account as it is handed to the program: its address and the data it holds.
#[derive(Clone, Debug, PartialEq, Eq)]
pub struct AccountInfo {
    /// The account's address.
    pub key: Pubkey,
    /// The bytes that the account holds.
    pub data: Vec<u8>,
}

} // verus!
