//! What the program reads of an account handed to an instruction.
use vstd::prelude::*;

use crate::errors::ProgramError;
use crate::pubkey::Pubkey;

verus! {

/// An account as an instruction sees it: its address, the program that owns
/// it, whether it signed the transaction, its lamports and its data.
#[derive(Clone, Debug)]
pub struct AccountInfo {
    pub key: Pubkey,
    pub owner: Pubkey,
    pub is_signer: bool,
    pub is_writable: bool,
    pub lamports: u64,
    pub data: Vec<u8>,
}

impl AccountInfo {
    /// Whether the account holds no data.
    pub fn data_is_empty(&self) -> (r: bool)
        ensures
            r <==> self.data@.len() == 0,
    {
        self.data.len() == 0
    }

    /// The account's lamport balance.
    pub fn lamports(&self) -> (r: u64)
        ensures
            r == self.lamports,
    {
        self.lamports
    }
}

/// The account at position `i` of the instruction's list: accounts are taken
/// in order, and asking past the end is an error.
pub fn next_account_info(accounts: &[AccountInfo], i: usize) -> (r: Result<&AccountInfo, ProgramError>)
    ensures
        i < accounts@.len() ==> r == Ok::<&AccountInfo, ProgramError>(&accounts@[i as int]),
        i >= accounts@.len() ==> r == Err::<&AccountInfo, ProgramError>(ProgramError::NotEnoughAccountKeys),
{
    if i < accounts.len() {
        Ok(&accounts[i])
    } else {
        Err(ProgramError::NotEnoughAccountKeys)
    }
}

} // verus!
