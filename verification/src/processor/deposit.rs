//! Deposits tokens into the vault and credits the depositor's record.
use vstd::prelude::*;

use crate::account::{AccountInfo, next_account_info};
use crate::address::{spl_token_id, token_program_id};
use crate::codec::{BorshError, le_bytes, le_value, lemma_bytes_deep_view, lemma_le_roundtrip, push_pubkey, write_prefix};
use crate::errors::{ProgramError, VovoVaultError, vault_error};
use crate::processor::{USER_INFO_LEN, UserInfo, VAULT_DATA_LEN, VovoVaultData, lemma_vault_data_roundtrip};
use crate::pubkey::Pubkey;
use crate::{prefix_bytes, prefix_seed};

verus! {

/// A transfer of SPL tokens to be made through the token program. The
/// account fields are positions in the instruction's account list; the
/// transfer is signed with `signer_seeds`.
#[derive(Clone, Debug)]
pub struct TokenTransfer {
    pub source: usize,
    pub destination: usize,
    pub authority: usize,
    pub token_program: usize,
    pub amount: u64,
    pub signer_seeds: Vec<Vec<u8>>,
}

/// What a deposit asks of the runtime: make `transfer`, then store
/// `user_info_data` in the depositor's record account (position `record`)
/// and `vault_data` in the vault account (position `vault`).
#[derive(Clone, Debug)]
pub struct DepositPlan {
    pub transfer: TokenTransfer,
    pub record: usize,
    pub vault: usize,
    pub user_info_data: Vec<u8>,
    pub vault_data: Vec<u8>,
}

/// The first account check that these accounts fail, in the order the
/// deposit makes them; or `None` when all pass. The accounts are: 0, the
/// depositor, who signs; 1, the depositor's token account; 2, the pot; 3, the
/// pot token account the tokens go to; 4, the depositor's record; 5, the
/// vault; 6, the token mint; 7, the transfer authority, who signs; 8, the
/// payer, who signs; 9, the clock; 10, the rent sysvar; 11, the system
/// program; 12, the token program. The vault and the record must belong to
/// the program, the depositor's token account and the mint to the token
/// program, and the token program must be the SPL token program.
pub open spec fn account_refusal(program_id: Pubkey, accounts: Seq<AccountInfo>) -> Option<ProgramError> {
    if accounts.len() < 13 {
        Some(ProgramError::NotEnoughAccountKeys)
    } else if accounts[5].owner@ != program_id@ || accounts[4].owner@ != program_id@
        || accounts[1].owner@ != spl_token_id() || accounts[6].owner@ != spl_token_id() {
        Some(vault_error(VovoVaultError::IncorrectOwner))
    } else if !accounts[0].is_signer || !accounts[7].is_signer || !accounts[8].is_signer {
        Some(ProgramError::MissingRequiredSignature)
    } else if accounts[12].key@ != spl_token_id() {
        Some(vault_error(VovoVaultError::InvalidTokenProgram))
    } else {
        None
    }
}

/// Why a deposit with these accounts is refused: a failed account check; a
/// vault or record account too short to hold its state; a mint other than the
/// vault's; a pot token account other than the vault's token pool. `None`
/// when the deposit goes ahead.
pub open spec fn deposit_refusal(program_id: Pubkey, accounts: Seq<AccountInfo>) -> Option<ProgramError> {
    if account_refusal(program_id, accounts) is Some {
        account_refusal(program_id, accounts)
    } else if accounts[5].data@.len() < VAULT_DATA_LEN || accounts[4].data@.len() < USER_INFO_LEN {
        Some(ProgramError::BorshIoError(BorshError::UnexpectedLengthOfInput))
    } else if accounts[6].key@ != accounts[5].data@.subrange(32, 64) {
        Some(vault_error(VovoVaultError::IncorrectMint))
    } else if accounts[3].key@ != accounts[5].data@.subrange(64, 96) {
        Some(vault_error(VovoVaultError::InvalidTokenPool))
    } else {
        None
    }
}

/// The balance stored in a depositor's record.
pub open spec fn stored_balance(data: Seq<u8>) -> u64 {
    le_value(data.subrange(32, 40))
}

/// The depositor's record after a deposit of `amount`: owned by the record
/// account's own key, its balance raised by `amount`, later bytes kept.
pub open spec fn credited_record(record: AccountInfo, amount: u64) -> Seq<u8> {
    record.key@ + le_bytes((stored_balance(record.data@) + amount) as u64) + record.data@.subrange(
        USER_INFO_LEN as int,
        record.data@.len() as int,
    )
}

/// The seeds the transfer is signed with: the prefix, the program id, the
/// vault's key and the depositor's key.
pub open spec fn deposit_signer_seeds(program_id: Pubkey, accounts: Seq<AccountInfo>) -> Seq<Seq<u8>> {
    seq![prefix_bytes(), program_id@, accounts[5].key@, accounts[0].key@]
}

impl DepositPlan {
    /// The plan deposits `amount` for these accounts: it moves `amount` from
    /// the depositor's token account to the pot token account (the vault's
    /// token pool) on the transfer authority's signature, credits the record,
    /// and writes the vault back unchanged.
    pub open spec fn carries_out(self, program_id: Pubkey, accounts: Seq<AccountInfo>, amount: u64) -> bool {
        &&& self.transfer.source == 1
        &&& self.transfer.destination == 3
        &&& self.transfer.authority == 7
        &&& self.transfer.token_program == 12
        &&& self.transfer.amount == amount
        &&& self.transfer.signer_seeds.deep_view() == deposit_signer_seeds(program_id, accounts)
        &&& self.record == 4
        &&& self.vault == 5
        &&& self.user_info_data@ == credited_record(accounts[4], amount)
        &&& self.vault_data@ == accounts[5].data@
    }
}

fn bytes_of(k: &Pubkey) -> (v: Vec<u8>)
    ensures
        v@ == k@,
{
    let mut v: Vec<u8> = Vec::new();
    push_pubkey(&mut v, k);
    assert(v@ =~= k@);
    v
}

/// Checks the accounts of a deposit in the order the program does: there are
/// thirteen; the vault and the record belong to the program, and the
/// depositor's token account and the mint to the token program; the
/// depositor, the transfer authority and the payer signed; the token program
/// is the SPL token program.
fn parse_accounts(program_id: &Pubkey, accounts: &[AccountInfo]) -> (r: Result<(), ProgramError>)
    ensures
        match account_refusal(*program_id, accounts@) {
            Some(e) => r == Err::<(), ProgramError>(e),
            None => r is Ok,
        },
{
    let depositor = next_account_info(accounts, 0)?;
    let depositor_token = next_account_info(accounts, 1)?;
    let _pot = next_account_info(accounts, 2)?;
    let _pool_token = next_account_info(accounts, 3)?;
    let depositor_info = next_account_info(accounts, 4)?;
    let vault = next_account_info(accounts, 5)?;
    let mint = next_account_info(accounts, 6)?;
    let transfer_authority = next_account_info(accounts, 7)?;
    let payer = next_account_info(accounts, 8)?;
    let _clock = next_account_info(accounts, 9)?;
    let _rent = next_account_info(accounts, 10)?;
    let _system = next_account_info(accounts, 11)?;
    let token_program = next_account_info(accounts, 12)?;
    let token_id = token_program_id();

    if !vault.owner.eq(program_id) || !depositor_info.owner.eq(program_id) || !depositor_token.owner.eq(
        &token_id,
    ) || !mint.owner.eq(&token_id) {
        return Err(ProgramError::from(VovoVaultError::IncorrectOwner));
    }
    if !depositor.is_signer || !transfer_authority.is_signer || !payer.is_signer {
        return Err(ProgramError::MissingRequiredSignature);
    }
    if !token_program.key.eq(&token_id) {
        return Err(ProgramError::from(VovoVaultError::InvalidTokenProgram));
    }
    Ok(())
}

/// Whether depositing `amount` with these accounts would take the depositor's
/// balance past `u64::MAX`.
pub open spec fn deposit_overflows(program_id: Pubkey, accounts: Seq<AccountInfo>, amount: u64) -> bool {
    deposit_refusal(program_id, accounts) is None && stored_balance(accounts[4].data@) + amount > u64::MAX
}

/// Whether depositing `amount` with these accounts would take the depositor's
/// balance past `u64::MAX`, which `deposit` does not accept.
pub fn deposit_would_overflow(program_id: &Pubkey, accounts: &[AccountInfo], amount: u64) -> (r: bool)
    ensures
        r == deposit_overflows(*program_id, accounts@, amount),
{
    if parse_accounts(program_id, accounts).is_err() {
        return false;
    }
    let vault = match VovoVaultData::from_account_info(&accounts[5]) {
        Ok(v) => v,
        Err(_) => return false,
    };
    let user_info = match UserInfo::from_account_info(&accounts[4]) {
        Ok(u) => u,
        Err(_) => return false,
    };
    if !accounts[6].key.eq(&vault.token_mint) || !accounts[3].key.eq(&vault.token_pool) {
        return false;
    }
    user_info.deposite_balance > u64::MAX - amount
}

/// Deposits `amount` of the vault's token: after the account checks, the
/// amount moves from the depositor's token account to the pool, and the
/// depositor's record is credited with it and set to the record account's key.
pub fn deposit(program_id: &Pubkey, accounts: &[AccountInfo], amount: u64) -> (r: Result<DepositPlan, ProgramError>)
    requires
        !deposit_overflows(*program_id, accounts@, amount),
    ensures
        match deposit_refusal(*program_id, accounts@) {
            Some(e) => r == Err::<DepositPlan, ProgramError>(e),
            None => r matches Ok(p) && p.carries_out(*program_id, accounts@, amount),
        },
{
    parse_accounts(program_id, accounts)?;
    let depositor = &accounts[0];
    let pool_token = &accounts[3];
    let depositor_info = &accounts[4];
    let vault_info = &accounts[5];
    let mint = &accounts[6];

    // Load the vault and the depositor's record.
    let vault = VovoVaultData::from_account_info(vault_info)?;
    let mut user_info = UserInfo::from_account_info(depositor_info)?;

    // The deposit must be of the vault's token, into the vault's token pool.
    if !mint.key.eq(&vault.token_mint) {
        return Err(ProgramError::from(VovoVaultError::IncorrectMint));
    }
    if !pool_token.key.eq(&vault.token_pool) {
        return Err(ProgramError::from(VovoVaultError::InvalidTokenPool));
    }

    let mut signer_seeds: Vec<Vec<u8>> = Vec::new();
    signer_seeds.push(prefix_seed());
    signer_seeds.push(bytes_of(program_id));
    signer_seeds.push(bytes_of(&vault_info.key));
    signer_seeds.push(bytes_of(&depositor.key));
    proof {
        lemma_bytes_deep_view(signer_seeds@[0]);
        lemma_bytes_deep_view(signer_seeds@[1]);
        lemma_bytes_deep_view(signer_seeds@[2]);
        lemma_bytes_deep_view(signer_seeds@[3]);
        assert(signer_seeds.deep_view() =~= deposit_signer_seeds(*program_id, accounts@));
    }
    let transfer = TokenTransfer {
        source: 1,
        destination: 3,
        authority: 7,
        token_program: 12,
        amount,
        signer_seeds,
    };

    user_info.owner = depositor_info.key;
    user_info.deposite_balance = user_info.deposite_balance + amount;

    let user_enc = user_info.try_to_vec();
    let user_info_data = write_prefix(depositor_info.data.as_slice(), &user_enc);
    let vault_enc = vault.try_to_vec();
    let vault_data = write_prefix(vault_info.data.as_slice(), &vault_enc);
    proof {
        lemma_le_roundtrip();
        lemma_vault_data_roundtrip(vault, Seq::empty(), vault_info.data@, vault);
        assert(vault_data@ =~= vault_info.data@);
        assert(user_info_data@ =~= credited_record(accounts@[4], amount));
    }
    Ok(DepositPlan { transfer, record: 4, vault: 5, user_info_data, vault_data })
}

/// A deposit leaves a record that reads as owned by the record account's key
/// and holding the old balance plus the amount, in a buffer of unchanged length.
pub proof fn lemma_deposit_credits(record: AccountInfo, amount: u64)
    requires
        record.data@.len() >= USER_INFO_LEN,
        stored_balance(record.data@) + amount <= u64::MAX,
    ensures
        UserInfo::read_from(
            credited_record(record, amount),
            UserInfo { owner: record.key, deposite_balance: (stored_balance(record.data@) + amount) as u64 },
        ),
        credited_record(record, amount).len() == record.data@.len(),
        stored_balance(credited_record(record, amount)) == stored_balance(record.data@) + amount,
{
    lemma_le_roundtrip();
    let d = credited_record(record, amount);
    let b = (stored_balance(record.data@) + amount) as u64;
    assert(d.subrange(0, 32) =~= record.key@);
    assert(d.subrange(32, 40) =~= le_bytes(b));
}

/// A deposit that goes ahead is of the vault's own mint and goes into the
/// vault's own token pool.
pub proof fn lemma_deposit_only_into_the_vault_pool(program_id: Pubkey, accounts: Seq<AccountInfo>, v: VovoVaultData)
    requires
        accounts.len() >= 13,
        VovoVaultData::read_from(accounts[5].data@, v),
        deposit_refusal(program_id, accounts) is None,
    ensures
        accounts[3].key@ == v.token_pool@,
        accounts[6].key@ == v.token_mint@,
{
}

/// A deposit goes ahead exactly when its accounts pass the program's checks:
/// there are thirteen; the vault and the record belong to the program and
/// the depositor's token account and the mint to the SPL token program; the
/// depositor, the transfer authority and the payer signed; the token program
/// is the SPL token program; the vault's and the record's data are long
/// enough for their states; the mint is the vault's mint and the pot token
/// account is the vault's token pool. No other property of the accounts
/// (which keys sign as what, the balances, the other accounts) refuses it.
pub proof fn lemma_deposit_accepted_exactly_when_checks_pass(program_id: Pubkey, accounts: Seq<AccountInfo>)
    ensures
        deposit_refusal(program_id, accounts) is None <==> {
            &&& accounts.len() >= 13
            &&& accounts[5].owner@ == program_id@
            &&& accounts[4].owner@ == program_id@
            &&& accounts[1].owner@ == spl_token_id()
            &&& accounts[6].owner@ == spl_token_id()
            &&& accounts[0].is_signer
            &&& accounts[7].is_signer
            &&& accounts[8].is_signer
            &&& accounts[12].key@ == spl_token_id()
            &&& accounts[5].data@.len() >= 136
            &&& accounts[4].data@.len() >= 40
            &&& accounts[6].key@ == accounts[5].data@.subrange(32, 64)
            &&& accounts[3].key@ == accounts[5].data@.subrange(64, 96)
        },
{
}

/// Which error a refused deposit reports: the first failing check, in the
/// order too few accounts, a wrong owner (error 0), a missing signature, a
/// wrong token program (error 17), data too short, a wrong mint (error 14),
/// a wrong pot token account (error 19).
pub proof fn lemma_deposit_refusal_order(program_id: Pubkey, accounts: Seq<AccountInfo>)
    ensures
        accounts.len() < 13 ==> deposit_refusal(program_id, accounts) == Some(ProgramError::NotEnoughAccountKeys),
        accounts.len() >= 13 && (accounts[5].owner@ != program_id@ || accounts[4].owner@ != program_id@
            || accounts[1].owner@ != spl_token_id() || accounts[6].owner@ != spl_token_id()) ==> deposit_refusal(
            program_id,
            accounts,
        ) == Some(ProgramError::Custom(0)),
        account_refusal(program_id, accounts) is None ==> accounts.len() >= 13,
        account_refusal(program_id, accounts) is None && (accounts[5].data@.len() < 136
            || accounts[4].data@.len() < 40) ==> deposit_refusal(program_id, accounts) == Some(
            ProgramError::BorshIoError(BorshError::UnexpectedLengthOfInput),
        ),
        account_refusal(program_id, accounts) is None && accounts[5].data@.len() >= 136 && accounts[4].data@.len()
            >= 40 && accounts[6].key@ != accounts[5].data@.subrange(32, 64) ==> deposit_refusal(program_id, accounts)
            == Some(ProgramError::Custom(14)),
        account_refusal(program_id, accounts) is None && accounts[5].data@.len() >= 136 && accounts[4].data@.len()
            >= 40 && accounts[6].key@ == accounts[5].data@.subrange(32, 64) && accounts[3].key@
            != accounts[5].data@.subrange(64, 96) ==> deposit_refusal(program_id, accounts) == Some(
            ProgramError::Custom(19),
        ),
        accounts.len() >= 13 && accounts[5].owner@ == program_id@ && accounts[4].owner@ == program_id@
            && accounts[1].owner@ == spl_token_id() && accounts[6].owner@ == spl_token_id() && (!accounts[0].is_signer
            || !accounts[7].is_signer || !accounts[8].is_signer) ==> deposit_refusal(program_id, accounts) == Some(
            ProgramError::MissingRequiredSignature,
        ),
        accounts.len() >= 13 && accounts[5].owner@ == program_id@ && accounts[4].owner@ == program_id@
            && accounts[1].owner@ == spl_token_id() && accounts[6].owner@ == spl_token_id() && accounts[0].is_signer
            && accounts[7].is_signer && accounts[8].is_signer && accounts[12].key@ != spl_token_id()
            ==> deposit_refusal(program_id, accounts) == Some(ProgramError::Custom(17)),
{
}

/// A deposit's transfer is signed with four seeds: the prefix, the program
/// id, the vault's key and the depositor's key.
pub proof fn lemma_deposit_signer_seeds(program_id: Pubkey, accounts: Seq<AccountInfo>)
    ensures
        deposit_signer_seeds(program_id, accounts).len() == 4,
        deposit_signer_seeds(program_id, accounts)[0] == prefix_bytes(),
        deposit_signer_seeds(program_id, accounts)[1] == program_id@,
        deposit_signer_seeds(program_id, accounts)[2] == accounts[5].key@,
        deposit_signer_seeds(program_id, accounts)[3] == accounts[0].key@,
{
}

} // verus!
