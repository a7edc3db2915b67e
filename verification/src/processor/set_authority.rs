//! Resets authority on an vault account.
use vstd::prelude::*;

use crate::account::{AccountInfo, next_account_info};
use crate::codec::{BorshError, write_prefix};
use crate::errors::{ProgramError, VovoVaultError, vault_error};
use crate::processor::{VAULT_DATA_LEN, VovoVaultData, lemma_vault_data_roundtrip};
use crate::pubkey::Pubkey;

verus! {

/// What `set_authority` does with these accounts (the vault, its current
/// authority, the new authority): the vault's new data, or the error.
/// The authority is the first 32 bytes of the vault's data, so a successful
/// call rewrites exactly those bytes.
pub open spec fn set_authority_result(program_id: Pubkey, accounts: Seq<AccountInfo>) -> Result<
    Seq<u8>,
    ProgramError,
> {
    if accounts.len() < 3 {
        Err(ProgramError::NotEnoughAccountKeys)
    } else {
        let vault = accounts[0];
        let current = accounts[1];
        let new_authority = accounts[2];
        if vault.data@.len() < VAULT_DATA_LEN {
            Err(ProgramError::BorshIoError(BorshError::UnexpectedLengthOfInput))
        } else if vault.owner@ != program_id@ {
            Err(vault_error(VovoVaultError::IncorrectOwner))
        } else if vault.data@.subrange(0, 32) != current.key@ {
            Err(vault_error(VovoVaultError::InvalidAuthority))
        } else if !current.is_signer {
            Err(vault_error(VovoVaultError::InvalidAuthority))
        } else if new_authority.data@.len() == 0 || new_authority.lamports == 0 {
            Err(vault_error(VovoVaultError::InvalidAuthority))
        } else {
            Ok(new_authority.key@ + vault.data@.subrange(32, vault.data@.len() as int))
        }
    }
}

/// Hands the vault to a new authority. The current authority must have
/// signed, and the new authority must be an existing account (with data and
/// lamports). Returns the vault account's new data.
pub fn set_authority(program_id: &Pubkey, accounts: &[AccountInfo]) -> (r: Result<Vec<u8>, ProgramError>)
    ensures
        match set_authority_result(*program_id, accounts@) {
            Ok(data) => r matches Ok(d) && d@ == data,
            Err(e) => r == Err::<Vec<u8>, ProgramError>(e),
        },
{
    let vault_act = next_account_info(accounts, 0)?;
    let current_authority = next_account_info(accounts, 1)?;
    let new_authority = next_account_info(accounts, 2)?;

    let mut vault = VovoVaultData::from_account_info(vault_act)?;
    if !vault_act.owner.eq(program_id) {
        return Err(ProgramError::from(VovoVaultError::IncorrectOwner));
    }
    if !vault.authority.eq(&current_authority.key) {
        return Err(ProgramError::from(VovoVaultError::InvalidAuthority));
    }
    if !current_authority.is_signer {
        return Err(ProgramError::from(VovoVaultError::InvalidAuthority));
    }
    // Make sure new authority actually exists in some form.
    if new_authority.data_is_empty() || new_authority.lamports() == 0 {
        return Err(ProgramError::from(VovoVaultError::InvalidAuthority));
    }

    let ghost old_vault = vault;
    vault.authority = new_authority.key;
    let enc = vault.try_to_vec();
    let data = write_prefix(vault_act.data.as_slice(), &enc);
    proof {
        lemma_vault_data_roundtrip(vault, Seq::empty(), vault_act.data@, old_vault);
        assert(old_vault.spec_encode() == vault_act.data@.subrange(0, VAULT_DATA_LEN as int));
        assert(vault.spec_encode() =~= new_authority.key@ + old_vault.spec_encode().subrange(32, VAULT_DATA_LEN as int));
        assert(data@ =~= new_authority.key@ + vault_act.data@.subrange(32, vault_act.data@.len() as int));
    }
    Ok(data)
}

/// Handing over the authority changes the vault's authority to the new
/// authority's key and nothing else; and it only happens when the stored
/// authority is the second account and that account signed.
pub proof fn lemma_set_authority_changes_only_authority(
    program_id: Pubkey,
    accounts: Seq<AccountInfo>,
    before: VovoVaultData,
)
    requires
        accounts.len() >= 3,
        VovoVaultData::read_from(accounts[0].data@, before),
    ensures
        set_authority_result(program_id, accounts) matches Ok(data) ==> {
            &&& before.authority@ == accounts[1].key@
            &&& accounts[1].is_signer
            &&& accounts[0].owner@ == program_id@
            &&& data.len() == accounts[0].data@.len()
            &&& VovoVaultData::read_from(data, VovoVaultData { authority: accounts[2].key, ..before })
        },
{
    if let Ok(data) = set_authority_result(program_id, accounts) {
        let old_data = accounts[0].data@;
        assert(data.subrange(0, 32) =~= accounts[2].key@);
        assert forall|i: int, j: int| 32 <= i <= j <= 136 implies data.subrange(i, j) == old_data.subrange(i, j) by {
            assert(data.subrange(i, j) =~= old_data.subrange(i, j));
        }
    }
}

/// Handing over the authority succeeds exactly when there are three
/// accounts, the vault's data holds a whole vault, the vault belongs to the
/// program, its stored authority is the second account and that account
/// signed, and the new authority has data and lamports; nothing else (such
/// as the lamports of the two authorities compared) refuses it. On success
/// the vault's data is the new authority's key followed by the old data from
/// byte 32 on.
pub proof fn lemma_set_authority_accepted_exactly_when_checks_pass(program_id: Pubkey, accounts: Seq<AccountInfo>)
    ensures
        set_authority_result(program_id, accounts) is Ok <==> {
            &&& accounts.len() >= 3
            &&& accounts[0].data@.len() >= 136
            &&& accounts[0].owner@ == program_id@
            &&& accounts[0].data@.subrange(0, 32) == accounts[1].key@
            &&& accounts[1].is_signer
            &&& accounts[2].data@.len() > 0
            &&& accounts[2].lamports > 0
        },
        set_authority_result(program_id, accounts) is Ok ==> set_authority_result(program_id, accounts)->Ok_0
            == accounts[2].key@ + accounts[0].data@.subrange(32, accounts[0].data@.len() as int),
{
}

/// Which error a refused handover reports: too few accounts; vault data too
/// short for a vault; a vault the program does not own (error 0); otherwise
/// error 8 when the stored authority is not the second account, that account
/// did not sign, or the new authority has no data or no lamports.
pub proof fn lemma_set_authority_refusal_order(program_id: Pubkey, accounts: Seq<AccountInfo>)
    ensures
        accounts.len() < 3 ==> set_authority_result(program_id, accounts) == Err::<Seq<u8>, ProgramError>(
            ProgramError::NotEnoughAccountKeys,
        ),
        accounts.len() >= 3 && accounts[0].data@.len() < 136 ==> set_authority_result(program_id, accounts) == Err::<
            Seq<u8>,
            ProgramError,
        >(ProgramError::BorshIoError(BorshError::UnexpectedLengthOfInput)),
        accounts.len() >= 3 && accounts[0].data@.len() >= 136 && accounts[0].owner@ != program_id@
            ==> set_authority_result(program_id, accounts) == Err::<Seq<u8>, ProgramError>(ProgramError::Custom(0)),
        accounts.len() >= 3 && accounts[0].data@.len() >= 136 && accounts[0].owner@ == program_id@ && (
        accounts[0].data@.subrange(0, 32) != accounts[1].key@ || !accounts[1].is_signer || accounts[2].data@.len()
            == 0 || accounts[2].lamports == 0) ==> set_authority_result(program_id, accounts) == Err::<
            Seq<u8>,
            ProgramError,
        >(ProgramError::Custom(8)),
{
}

} // verus!
