//! What the Anchor-framework vault programs share: the handler context, their
//! error codes, and the token transfers they ask the token program for.
use vstd::prelude::*;

use crate::address::{spl_token_id, token_program_id};
use crate::codec::{lemma_bytes_deep_view, push_pubkey};
use crate::errors::ProgramError;
use crate::pubkey::Pubkey;

verus! {

/// The accounts an instruction handler receives, and the id of the program
/// that runs it.
#[derive(Clone, Debug)]
pub struct Context<T> {
    pub program_id: Pubkey,
    pub accounts: T,
}

/// Errors the vault programs return.
#[derive(Clone, Copy, Debug, PartialEq, Eq, Structural)]
pub enum ErrorCode {
    /// Incorrect Option Owner
    IncorrectOwner,
    /// Incorrect current price
    IncorrectCurrentPrice,
    /// no deposited balance
    NoDepositedBalance,
}

impl ErrorCode {
    /// The error's message.
    pub open spec fn spec_message(self) -> Seq<char> {
        match self {
            ErrorCode::IncorrectOwner => "Incorrect Option Owner"@,
            ErrorCode::IncorrectCurrentPrice => "Incorrect current price"@,
            ErrorCode::NoDepositedBalance => "no deposited balance"@,
        }
    }

    /// The error's message.
    pub fn message(&self) -> (s: &'static str)
        ensures
            s@ == self.spec_message(),
    {
        match self {
            ErrorCode::IncorrectOwner => {
                proof {
                    reveal_strlit("Incorrect Option Owner");
                }
                "Incorrect Option Owner"
            },
            ErrorCode::IncorrectCurrentPrice => {
                proof {
                    reveal_strlit("Incorrect current price");
                }
                "Incorrect current price"
            },
            ErrorCode::NoDepositedBalance => {
                proof {
                    reveal_strlit("no deposited balance");
                }
                "no deposited balance"
            },
        }
    }
}

/// Why a handler of the Anchor programs fails: one of the framework's
/// account constraints does not hold (a required signature is missing, a
/// stated condition is false, or an account is not at the address its seeds
/// give), the program reports one of its errors, or an outside call fails
/// (with one of the errors the library models, or with another, kept as the
/// runtime's number for it).
#[derive(Clone, Copy, Debug, PartialEq, Eq, Structural)]
pub enum AnchorError {
    ConstraintSigner,
    ConstraintRaw,
    ConstraintSeeds,
    Vault(ErrorCode),
    Program(ProgramError),
    Outside(u64),
}

/// An account that a handler requires to have signed the transaction.
#[derive(Clone, Copy, Debug)]
pub struct SignerAccount {
    pub key: Pubkey,
    pub is_signer: bool,
}

/// The `signer` constraint: the account signed.
pub fn check_signer(a: &SignerAccount) -> (r: Result<(), AnchorError>)
    ensures
        a.is_signer ==> r is Ok,
        !a.is_signer ==> r == Err::<(), AnchorError>(AnchorError::ConstraintSigner),
{
    if a.is_signer {
        Ok(())
    } else {
        Err(AnchorError::ConstraintSigner)
    }
}

/// The `token_program.key == &token::ID` constraint: the account is the SPL
/// token program.
pub fn check_token_program(key: &Pubkey) -> (r: Result<(), AnchorError>)
    ensures
        key@ == spl_token_id() ==> r is Ok,
        key@ != spl_token_id() ==> r == Err::<(), AnchorError>(AnchorError::ConstraintRaw),
{
    let id = token_program_id();
    if key.eq(&id) {
        Ok(())
    } else {
        Err(AnchorError::ConstraintRaw)
    }
}

/// A token account as the handlers read it: its address and its balance.
#[derive(Clone, Copy, Debug)]
pub struct TokenAccount {
    pub key: Pubkey,
    pub amount: u64,
}

/// A transfer of `amount` tokens from `from` to `to` on the authority of
/// `authority`, made through the token program. When `signer_seeds` is not
/// empty the program signs for the authority with those seeds.
#[derive(Clone, Debug)]
pub struct Transfer {
    pub from: Pubkey,
    pub to: Pubkey,
    pub authority: Pubkey,
    pub amount: u64,
    pub signer_seeds: Vec<Vec<u8>>,
}

/// The seeds of a program signature made with a key and a nonce: the key's
/// bytes, then the nonce as a one-byte seed.
pub open spec fn key_nonce_seeds(key: Pubkey, nonce: u8) -> Seq<Seq<u8>> {
    seq![key@, seq![nonce]]
}

/// The seeds of a program signature made with a key and a nonce.
pub fn signer_seeds(key: &Pubkey, nonce: u8) -> (s: Vec<Vec<u8>>)
    ensures
        s.deep_view() == key_nonce_seeds(*key, nonce),
{
    let mut k: Vec<u8> = Vec::new();
    push_pubkey(&mut k, key);
    let n: Vec<u8> = vec![nonce];
    let mut s: Vec<Vec<u8>> = Vec::new();
    s.push(k);
    s.push(n);
    proof {
        lemma_bytes_deep_view(s@[0]);
        lemma_bytes_deep_view(s@[1]);
        assert(s@[1]@ =~= seq![nonce]);
        assert(s.deep_view() =~= key_nonce_seeds(*key, nonce));
    }
    s
}

/// A key-and-nonce signature is made with exactly two seeds: the key's 32
/// bytes, then the nonce alone.
pub proof fn lemma_key_nonce_seeds(key: Pubkey, nonce: u8)
    ensures
        key_nonce_seeds(key, nonce).len() == 2,
        key_nonce_seeds(key, nonce)[0] == key@,
        key_nonce_seeds(key, nonce)[1] == seq![nonce],
{
}

} // verus!
