//! The vault program's account layouts and its instruction dispatch.
use vstd::prelude::*;
use vstd::bytes::spec_u64_from_le_bytes;

pub mod create_vault;
pub mod deposit;
pub mod set_authority;

use crate::account::AccountInfo;
use crate::codec::{BorshError, le_bytes, le_value, lemma_le_roundtrip, push_pubkey, push_u64, read_pubkey, read_u64};
use crate::errors::ProgramError;
use crate::instruction::VovoVaultInstruction;
use crate::processor::create_vault::{CreateVaultPlan, VaultFees, create_vault, create_vault_result};
use crate::processor::deposit::{DepositPlan, deposit, deposit_overflows, deposit_refusal};
use crate::processor::set_authority::{set_authority, set_authority_result};
use crate::pubkey::Pubkey;

verus! {

/// Bytes that a `UserInfo` takes in account data.
pub const USER_INFO_LEN: usize = 40;

/// Bytes that a `VovoVaultData` takes in account data.
pub const VAULT_DATA_LEN: usize = 136;

/// A depositor's record.
#[derive(Clone, Copy, Debug)]
pub struct UserInfo {
    pub owner: Pubkey,
    pub deposite_balance: u64,
}

/// The vault's state.
#[derive(Clone, Copy, Debug)]
pub struct VovoVaultData {
    /// Pubkey of the authority with permission to modify this vault.
    pub authority: Pubkey,
    /// Token mint for the SPL token being used to deposit
    pub token_mint: Pubkey,
    /// Token account to store all deposits
    pub token_pool: Pubkey,
    /// withdraw fee
    pub withdraw_fee: u64,
    /// performance fee
    pub performance_fee: u64,
    /// leverage
    pub leverage: u64,
    /// total farm reward
    pub total_farm_reward: u64,
    /// total trade profit
    pub total_trade_profit: u64,
}

impl UserInfo {
    /// The record's bytes: the owner, then the balance little-endian.
    pub open spec fn spec_encode(self) -> Seq<u8> {
        self.owner@ + le_bytes(self.deposite_balance)
    }

    /// `s` begins with the encoding of a record whose fields are those of `u`.
    pub open spec fn read_from(s: Seq<u8>, u: UserInfo) -> bool {
        &&& s.len() >= USER_INFO_LEN
        &&& u.owner@ == s.subrange(0, 32)
        &&& u.deposite_balance == le_value(s.subrange(32, 40))
    }

    /// Reads a record from the start of `data`; bytes after it are ignored.
    pub fn try_from_slice_unchecked(data: &[u8]) -> (r: Result<UserInfo, BorshError>)
        ensures
            data@.len() < USER_INFO_LEN ==> r == Err::<UserInfo, BorshError>(BorshError::UnexpectedLengthOfInput),
            data@.len() >= USER_INFO_LEN ==> (r matches Ok(u) && Self::read_from(data@, u)),
    {
        if data.len() < USER_INFO_LEN {
            return Err(BorshError::UnexpectedLengthOfInput);
        }
        let owner = read_pubkey(data, 0);
        let deposite_balance = read_u64(data, 32);
        Ok(UserInfo { owner, deposite_balance })
    }

    /// The record's bytes.
    pub fn try_to_vec(&self) -> (out: Vec<u8>)
        ensures
            out@ == self.spec_encode(),
            out@.len() == USER_INFO_LEN,
    {
        proof { lemma_le_roundtrip(); }
        let mut out: Vec<u8> = Vec::new();
        push_pubkey(&mut out, &self.owner);
        push_u64(&mut out, self.deposite_balance);
        assert(out@ =~= self.spec_encode());
        out
    }

    /// Reads the record held in an account's data.
    pub fn from_account_info(a: &AccountInfo) -> (r: Result<UserInfo, ProgramError>)
        ensures
            a.data@.len() < USER_INFO_LEN ==> r == Err::<UserInfo, ProgramError>(
                ProgramError::BorshIoError(BorshError::UnexpectedLengthOfInput)),
            a.data@.len() >= USER_INFO_LEN ==> (r matches Ok(u) && Self::read_from(a.data@, u)),
    {
        match UserInfo::try_from_slice_unchecked(a.data.as_slice()) {
            Ok(u) => Ok(u),
            Err(e) => Err(ProgramError::BorshIoError(e)),
        }
    }
}

impl VovoVaultData {
    /// The vault's bytes: the three keys, then the five numbers little-endian.
    pub open spec fn spec_encode(self) -> Seq<u8> {
        self.authority@ + self.token_mint@ + self.token_pool@ + le_bytes(self.withdraw_fee)
            + le_bytes(self.performance_fee) + le_bytes(self.leverage) + le_bytes(
            self.total_farm_reward,
        ) + le_bytes(self.total_trade_profit)
    }

    /// `s` begins with the encoding of a vault whose fields are those of `d`.
    pub open spec fn read_from(s: Seq<u8>, d: VovoVaultData) -> bool {
        &&& s.len() >= VAULT_DATA_LEN
        &&& d.authority@ == s.subrange(0, 32)
        &&& d.token_mint@ == s.subrange(32, 64)
        &&& d.token_pool@ == s.subrange(64, 96)
        &&& d.withdraw_fee == le_value(s.subrange(96, 104))
        &&& d.performance_fee == le_value(s.subrange(104, 112))
        &&& d.leverage == le_value(s.subrange(112, 120))
        &&& d.total_farm_reward == le_value(s.subrange(120, 128))
        &&& d.total_trade_profit == le_value(s.subrange(128, 136))
    }

    /// Reads a vault from the start of `data`; bytes after it are ignored.
    pub fn try_from_slice_unchecked(data: &[u8]) -> (r: Result<VovoVaultData, BorshError>)
        ensures
            data@.len() < VAULT_DATA_LEN ==> r == Err::<VovoVaultData, BorshError>(BorshError::UnexpectedLengthOfInput),
            data@.len() >= VAULT_DATA_LEN ==> (r matches Ok(d) && Self::read_from(data@, d)),
    {
        if data.len() < VAULT_DATA_LEN {
            return Err(BorshError::UnexpectedLengthOfInput);
        }
        let authority = read_pubkey(data, 0);
        let token_mint = read_pubkey(data, 32);
        let token_pool = read_pubkey(data, 64);
        let withdraw_fee = read_u64(data, 96);
        let performance_fee = read_u64(data, 104);
        let leverage = read_u64(data, 112);
        let total_farm_reward = read_u64(data, 120);
        let total_trade_profit = read_u64(data, 128);
        Ok(VovoVaultData {
            authority,
            token_mint,
            token_pool,
            withdraw_fee,
            performance_fee,
            leverage,
            total_farm_reward,
            total_trade_profit,
        })
    }

    /// The vault's bytes.
    pub fn try_to_vec(&self) -> (out: Vec<u8>)
        ensures
            out@ == self.spec_encode(),
            out@.len() == VAULT_DATA_LEN,
    {
        proof { lemma_le_roundtrip(); }
        let mut out: Vec<u8> = Vec::new();
        push_pubkey(&mut out, &self.authority);
        push_pubkey(&mut out, &self.token_mint);
        push_pubkey(&mut out, &self.token_pool);
        push_u64(&mut out, self.withdraw_fee);
        push_u64(&mut out, self.performance_fee);
        push_u64(&mut out, self.leverage);
        push_u64(&mut out, self.total_farm_reward);
        push_u64(&mut out, self.total_trade_profit);
        out
    }

    /// Reads the vault held in an account's data.
    pub fn from_account_info(a: &AccountInfo) -> (r: Result<VovoVaultData, ProgramError>)
        ensures
            a.data@.len() < VAULT_DATA_LEN ==> r == Err::<VovoVaultData, ProgramError>(
                ProgramError::BorshIoError(BorshError::UnexpectedLengthOfInput)),
            a.data@.len() >= VAULT_DATA_LEN ==> (r matches Ok(d) && Self::read_from(a.data@, d)),
    {
        match VovoVaultData::try_from_slice_unchecked(a.data.as_slice()) {
            Ok(d) => Ok(d),
            Err(e) => Err(ProgramError::BorshIoError(e)),
        }
    }
}

/// A vault's encoding reads back as that vault, whatever follows it, and the
/// bytes a vault is read from are that vault's encoding.
pub proof fn lemma_vault_data_roundtrip(d: VovoVaultData, rest: Seq<u8>, s: Seq<u8>, e: VovoVaultData)
    ensures
        d.spec_encode().len() == VAULT_DATA_LEN,
        VovoVaultData::read_from(d.spec_encode() + rest, d),
        VovoVaultData::read_from(s, e) ==> e.spec_encode() == s.subrange(0, VAULT_DATA_LEN as int),
{
    lemma_le_roundtrip();
    let t = d.spec_encode() + rest;
    assert(t.subrange(0, 32) =~= d.authority@);
    assert(t.subrange(32, 64) =~= d.token_mint@);
    assert(t.subrange(64, 96) =~= d.token_pool@);
    assert(t.subrange(96, 104) =~= le_bytes(d.withdraw_fee));
    assert(t.subrange(104, 112) =~= le_bytes(d.performance_fee));
    assert(t.subrange(112, 120) =~= le_bytes(d.leverage));
    assert(t.subrange(120, 128) =~= le_bytes(d.total_farm_reward));
    assert(t.subrange(128, 136) =~= le_bytes(d.total_trade_profit));
    if VovoVaultData::read_from(s, e) {
        assert(le_bytes(e.withdraw_fee) == s.subrange(96, 104));
        assert(le_bytes(e.performance_fee) == s.subrange(104, 112));
        assert(le_bytes(e.leverage) == s.subrange(112, 120));
        assert(le_bytes(e.total_farm_reward) == s.subrange(120, 128));
        assert(le_bytes(e.total_trade_profit) == s.subrange(128, 136));
        assert(e.spec_encode() =~= s.subrange(0, VAULT_DATA_LEN as int));
    }
}

/// A record's encoding reads back as that record, whatever follows it, and the
/// bytes a record is read from are that record's encoding.
pub proof fn lemma_user_info_roundtrip(u: UserInfo, rest: Seq<u8>, s: Seq<u8>, v: UserInfo)
    ensures
        u.spec_encode().len() == USER_INFO_LEN,
        UserInfo::read_from(u.spec_encode() + rest, u),
        UserInfo::read_from(s, v) ==> v.spec_encode() == s.subrange(0, USER_INFO_LEN as int),
{
    lemma_le_roundtrip();
    let t = u.spec_encode() + rest;
    assert(t.subrange(0, 32) =~= u.owner@);
    assert(t.subrange(32, 40) =~= le_bytes(u.deposite_balance));
    if UserInfo::read_from(s, v) {
        assert(le_bytes(v.deposite_balance) == s.subrange(32, 40));
        assert(v.spec_encode() =~= s.subrange(0, USER_INFO_LEN as int));
    }
}

/// What an instruction asks of the runtime once the program has decided on it.
#[derive(Debug)]
pub enum Outcome {
    /// Create and fill the vault account.
    CreateVault(CreateVaultPlan),
    /// Transfer the deposit, then store the updated accounts.
    Deposit(DepositPlan),
    /// Store this data in the vault account (position 0).
    SetAuthority(Vec<u8>),
    /// A claim: its handler lies outside this library, and the caller
    /// carries it out.
    Claim,
}

/// Reads the instruction from `input` and hands it to its handler.
pub fn process_instruction(
    program_id: &Pubkey,
    accounts: &[AccountInfo],
    input: &[u8],
    fees: VaultFees,
) -> (r: Result<Outcome, ProgramError>)
    requires
        VovoVaultInstruction::spec_decode(input@) matches Ok(VovoVaultInstruction::Deposit(amount))
            ==> !deposit_overflows(*program_id, accounts@, amount),
    ensures
        match VovoVaultInstruction::spec_decode(input@) {
            Err(e) => r == Err::<Outcome, ProgramError>(ProgramError::BorshIoError(e)),
            Ok(VovoVaultInstruction::CreateVovoVault) => match create_vault_result(*program_id, accounts@, fees) {
                Ok(res) => r matches Ok(Outcome::CreateVault(p)) && p.carries_out(*program_id, res),
                Err(e) => r == Err::<Outcome, ProgramError>(e),
            },
            Ok(VovoVaultInstruction::Deposit(amount)) => match deposit_refusal(*program_id, accounts@) {
                None => r matches Ok(Outcome::Deposit(p)) && p.carries_out(*program_id, accounts@, amount),
                Some(e) => r == Err::<Outcome, ProgramError>(e),
            },
            Ok(VovoVaultInstruction::SetAuthority) => match set_authority_result(*program_id, accounts@) {
                Ok(data) => r matches Ok(Outcome::SetAuthority(d)) && d@ == data,
                Err(e) => r == Err::<Outcome, ProgramError>(e),
            },
            Ok(VovoVaultInstruction::Claim) => r matches Ok(Outcome::Claim),
        },
{
    let instruction = match VovoVaultInstruction::try_from_slice(input) {
        Ok(i) => i,
        Err(e) => return Err(ProgramError::BorshIoError(e)),
    };
    match instruction {
        VovoVaultInstruction::CreateVovoVault => {
            let p = create_vault(program_id, accounts, fees)?;
            Ok(Outcome::CreateVault(p))
        },
        VovoVaultInstruction::Deposit(amount) => {
            let p = deposit(program_id, accounts, amount)?;
            Ok(Outcome::Deposit(p))
        },
        VovoVaultInstruction::SetAuthority => {
            let d = set_authority(program_id, accounts)?;
            Ok(Outcome::SetAuthority(d))
        },
        VovoVaultInstruction::Claim => Ok(Outcome::Claim),
    }
}

/// Where each field of a vault lies in its bytes: the authority in bytes
/// 0 to 32, the mint in 32 to 64, the token pool in 64 to 96, then the
/// withdraw fee, the performance fee, the leverage, the total farm reward and
/// the total trade profit, eight little-endian bytes each, from byte 96 on.
pub proof fn lemma_vault_layout(d: VovoVaultData)
    ensures
        d.spec_encode().len() == 136,
        d.spec_encode().subrange(0, 32) == d.authority@,
        d.spec_encode().subrange(32, 64) == d.token_mint@,
        d.spec_encode().subrange(64, 96) == d.token_pool@,
        spec_u64_from_le_bytes(d.spec_encode().subrange(96, 104)) == d.withdraw_fee,
        spec_u64_from_le_bytes(d.spec_encode().subrange(104, 112)) == d.performance_fee,
        spec_u64_from_le_bytes(d.spec_encode().subrange(112, 120)) == d.leverage,
        spec_u64_from_le_bytes(d.spec_encode().subrange(120, 128)) == d.total_farm_reward,
        spec_u64_from_le_bytes(d.spec_encode().subrange(128, 136)) == d.total_trade_profit,
{
    lemma_vault_data_roundtrip(d, Seq::empty(), d.spec_encode(), d);
    assert(d.spec_encode() + Seq::<u8>::empty() =~= d.spec_encode());
}

/// Where each field of a depositor's record lies in its bytes: the owner in
/// bytes 0 to 32, the balance little-endian in bytes 32 to 40.
pub proof fn lemma_user_info_layout(u: UserInfo)
    ensures
        u.spec_encode().len() == 40,
        u.spec_encode().subrange(0, 32) == u.owner@,
        spec_u64_from_le_bytes(u.spec_encode().subrange(32, 40)) == u.deposite_balance,
{
    lemma_user_info_roundtrip(u, Seq::empty(), u.spec_encode(), u);
    assert(u.spec_encode() + Seq::<u8>::empty() =~= u.spec_encode());
}

} // verus!
