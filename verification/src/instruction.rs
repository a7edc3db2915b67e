//! The instructions the vault program accepts, and their byte layout.
use vstd::prelude::*;

use crate::codec::{BorshError, le_bytes, le_value, lemma_le_roundtrip, push_u64, read_u64};

verus! {

/// An instruction of the vault program. On the wire it is one tag byte (the
/// variant's position) followed by the variant's fields, little-endian.
#[derive(Clone, Copy, Debug, PartialEq, Eq, Structural)]
pub enum VovoVaultInstruction {
    /// Create a new vault account bound to a resource, initially in a pending state.
    ///   0. `[signer]` The account creating the vault, which is authorised to make changes.
    ///   1. `[writable]` Uninitialized vault account.
    ///   2. `[]` Rent sysvar
    ///   3. `[]` System account
    ///   4. `[]` Token mint of the deposits (optional)
    ///   5. `[]` Token account to store all deposits (optional)
    CreateVovoVault,
    /// Update the authority for an vault account.
    SetAuthority,
    /// Place a bid on a running vault.
    ///   0. `[signer]` The depositors primary account, for PDA calculation/transit auth.
    ///   1. `[writable]` The depositors token account they'll pay with
    ///   2. `[writable]` The pot, containing a reference to the stored SPL token account.
    ///   3. `[writable]` The pot SPL account, where the tokens will be deposited.
    ///   4. `[writable]` The metadata account, storing information about the depositors actions.
    ///   5. `[writable]` VovoVault account, containing data about the vault and item being bid on.
    ///   6. `[writable]` Token mint, for transfer instructions and verification.
    ///   7. `[signer]` Transfer authority, for moving tokens into the bid pot.
    ///   8. `[signer]` Payer
    ///   9. `[]` Clock sysvar
    ///   10. `[]` Rent sysvar
    ///   11. `[]` System program
    ///   12. `[]` SPL Token Program
    Deposit(u64),
    /// Move SPL tokens from winning bid to the destination account.
    ///   0. `[writable]` The destination account
    ///   1. `[writable]` The depositor pot token account
    ///   2. `[]` The depositor pot pda account [seed of ['vault', program_id, vault key, depositor key]]
    ///   3. `[signer]` The authority on the vault
    ///   4. `[]` The vault
    ///   5. `[]` The depositor wallet
    ///   6. `[]` Token mint of the vault
    ///   7. `[]` Clock sysvar
    ///   8. `[]` Token program
    Claim,
}

impl VovoVaultInstruction {
    /// The bytes that encode this instruction.
    pub open spec fn spec_encode(self) -> Seq<u8> {
        match self {
            VovoVaultInstruction::CreateVovoVault => seq![0u8],
            VovoVaultInstruction::SetAuthority => seq![1u8],
            VovoVaultInstruction::Deposit(amount) => seq![2u8] + le_bytes(amount),
            VovoVaultInstruction::Claim => seq![3u8],
        }
    }

    /// What reading `s`, which must be consumed whole, yields.
    pub open spec fn spec_decode(s: Seq<u8>) -> Result<VovoVaultInstruction, BorshError> {
        if s.len() == 0 {
            Err(BorshError::UnexpectedLengthOfInput)
        } else if s[0] == 2 {
            if s.len() < 9 {
                Err(BorshError::UnexpectedLengthOfInput)
            } else if s.len() > 9 {
                Err(BorshError::NotAllBytesRead)
            } else {
                Ok(VovoVaultInstruction::Deposit(le_value(s.subrange(1, 9))))
            }
        } else if s[0] > 3 {
            Err(BorshError::UnexpectedVariantIndex(s[0]))
        } else if s.len() > 1 {
            Err(BorshError::NotAllBytesRead)
        } else if s[0] == 0 {
            Ok(VovoVaultInstruction::CreateVovoVault)
        } else if s[0] == 1 {
            Ok(VovoVaultInstruction::SetAuthority)
        } else {
            Ok(VovoVaultInstruction::Claim)
        }
    }

    /// Reads an instruction from `v`, which must hold exactly one.
    pub fn try_from_slice(v: &[u8]) -> (r: Result<VovoVaultInstruction, BorshError>)
        ensures
            r == Self::spec_decode(v@),
    {
        if v.len() == 0 {
            return Err(BorshError::UnexpectedLengthOfInput);
        }
        let tag = v[0];
        if tag == 2 {
            if v.len() < 9 {
                Err(BorshError::UnexpectedLengthOfInput)
            } else if v.len() > 9 {
                Err(BorshError::NotAllBytesRead)
            } else {
                Ok(VovoVaultInstruction::Deposit(read_u64(v, 1)))
            }
        } else if tag > 3 {
            Err(BorshError::UnexpectedVariantIndex(tag))
        } else if v.len() > 1 {
            Err(BorshError::NotAllBytesRead)
        } else if tag == 0 {
            Ok(VovoVaultInstruction::CreateVovoVault)
        } else if tag == 1 {
            Ok(VovoVaultInstruction::SetAuthority)
        } else {
            Ok(VovoVaultInstruction::Claim)
        }
    }

    /// The bytes that encode this instruction.
    pub fn try_to_vec(&self) -> (out: Vec<u8>)
        ensures
            out@ == self.spec_encode(),
    {
        let mut out: Vec<u8> = Vec::new();
        match self {
            VovoVaultInstruction::CreateVovoVault => out.push(0u8),
            VovoVaultInstruction::SetAuthority => out.push(1u8),
            VovoVaultInstruction::Deposit(amount) => {
                out.push(2u8);
                push_u64(&mut out, *amount);
            },
            VovoVaultInstruction::Claim => out.push(3u8),
        }
        assert(out@ =~= self.spec_encode());
        out
    }
}

/// Reading back what an instruction encodes to gives that instruction.
pub proof fn lemma_instruction_decode_encode(i: VovoVaultInstruction)
    ensures
        VovoVaultInstruction::spec_decode(i.spec_encode()) == Ok::<VovoVaultInstruction, BorshError>(i),
{
    lemma_le_roundtrip();
    if let VovoVaultInstruction::Deposit(a) = i {
        let s = i.spec_encode();
        assert(s.subrange(1, 9) =~= le_bytes(a));
    }
}

/// Bytes that read as an instruction are exactly that instruction's encoding.
pub proof fn lemma_instruction_encode_decode(s: Seq<u8>)
    ensures
        VovoVaultInstruction::spec_decode(s) matches Ok(i) ==> i.spec_encode() == s,
{
    lemma_le_roundtrip();
    if let Ok(i) = VovoVaultInstruction::spec_decode(s) {
        if let VovoVaultInstruction::Deposit(a) = i {
            assert(le_bytes(le_value(s.subrange(1, 9))) == s.subrange(1, 9));
            assert(i.spec_encode() =~= s);
        } else {
            assert(i.spec_encode() =~= s);
        }
    }
}

/// The wire tag of each instruction is its position in the declaration:
/// 0 creates the vault, 1 sets the authority, 2 deposits, 3 claims; a
/// deposit's amount follows its tag as eight little-endian bytes.
pub proof fn lemma_instruction_tags(amount: u64)
    ensures
        VovoVaultInstruction::CreateVovoVault.spec_encode() == seq![0u8],
        VovoVaultInstruction::SetAuthority.spec_encode() == seq![1u8],
        VovoVaultInstruction::Claim.spec_encode() == seq![3u8],
        VovoVaultInstruction::Deposit(amount).spec_encode().len() == 9,
        VovoVaultInstruction::Deposit(amount).spec_encode()[0] == 2,
        vstd::bytes::spec_u64_from_le_bytes(VovoVaultInstruction::Deposit(amount).spec_encode().subrange(1, 9))
            == amount,
        VovoVaultInstruction::spec_decode(seq![0u8]) == Ok::<VovoVaultInstruction, BorshError>(
            VovoVaultInstruction::CreateVovoVault,
        ),
        VovoVaultInstruction::spec_decode(seq![1u8]) == Ok::<VovoVaultInstruction, BorshError>(
            VovoVaultInstruction::SetAuthority,
        ),
        VovoVaultInstruction::spec_decode(seq![3u8]) == Ok::<VovoVaultInstruction, BorshError>(
            VovoVaultInstruction::Claim,
        ),
{
    lemma_le_roundtrip();
    let s = VovoVaultInstruction::Deposit(amount).spec_encode();
    assert(s.subrange(1, 9) =~= le_bytes(amount));
}

} // verus!
