//! Creates the vault account at its program-derived address.
use vstd::prelude::*;

use crate::account::{AccountInfo, next_account_info};
use crate::address::{program_address, try_find_program_address};
use crate::codec::{lemma_bytes_deep_view, push_pubkey};
use crate::errors::{ProgramError, VovoVaultError, vault_error};
use crate::processor::{VAULT_DATA_LEN, VovoVaultData, lemma_vault_data_roundtrip};
use crate::pubkey::Pubkey;
use crate::{prefix_bytes, prefix_seed};

verus! {

/// The fee and leverage settings a new vault starts with.
#[derive(Clone, Copy, Debug)]
pub struct VaultFees {
    pub withdraw_fee: u64,
    pub performance_fee: u64,
    pub leverage: u64,
}

/// What creating the vault asks of the runtime: allocate `space` bytes at
/// the vault's address, owned by the program and paid by the creator, signing
/// with `signer_seeds`; then store `data` in the new account. The account
/// fields are positions in the instruction's account list.
#[derive(Clone, Debug)]
pub struct CreateVaultPlan {
    pub payer: usize,
    pub vault: usize,
    pub rent: usize,
    pub system: usize,
    pub bump: u8,
    pub space: usize,
    pub signer_seeds: Vec<Vec<u8>>,
    pub data: Vec<u8>,
}

/// The seeds of the vault's address.
pub open spec fn vault_seeds(program_id: Pubkey) -> Seq<Seq<u8>> {
    seq![prefix_bytes(), program_id@]
}

/// The all-zero key, which a vault records for a mint or pool it was not given.
pub open spec fn unset_key() -> Pubkey {
    Pubkey(vstd::array::spec_array_fill_for_copy_type::<u8, 32>(0u8))
}

/// The key of the account at `i`, or the all-zero key when the list is shorter.
pub open spec fn optional_key(accounts: Seq<AccountInfo>, i: int) -> Pubkey {
    if i < accounts.len() {
        accounts[i].key
    } else {
        unset_key()
    }
}

/// The vault as created: the creator as its authority, the mint and pool
/// accounts that follow the four required ones (when given), the given
/// fees, and no farm reward or trade profit yet.
pub open spec fn initial_vault(accounts: Seq<AccountInfo>, fees: VaultFees) -> VovoVaultData {
    VovoVaultData {
        authority: accounts[0].key,
        token_mint: optional_key(accounts, 4),
        token_pool: optional_key(accounts, 5),
        withdraw_fee: fees.withdraw_fee,
        performance_fee: fees.performance_fee,
        leverage: fees.leverage,
        total_farm_reward: 0,
        total_trade_profit: 0,
    }
}

/// What creating the vault does with these accounts, given `found`, the
/// address and bump seed that deriving the vault's address from the prefix
/// and the program id gave (`None` when no bump seed gives one): the bump seed
/// and the new vault's bytes, or the error. The accounts are: 0, the creator,
/// who signs, pays and becomes the vault's authority; 1, the uninitialized
/// vault, which must be at the derived address; 2, the rent sysvar; 3, the
/// system program; then, optionally, 4, the token mint and 5, the token pool
/// the vault takes deposits into. The vault's address is checked before the
/// creator's signature. Without accounts 4 and 5 the vault records the
/// all-zero key for its mint and pool, so a deposit into it is refused unless
/// its mint and pot token accounts carry that key.
pub open spec fn create_vault_from(
    accounts: Seq<AccountInfo>,
    fees: VaultFees,
    found: Option<(Seq<u8>, u8)>,
) -> Result<(u8, Seq<u8>), ProgramError> {
    if accounts.len() < 4 {
        Err(ProgramError::NotEnoughAccountKeys)
    } else {
        match found {
            None => Err(vault_error(VovoVaultError::DerivedKeyInvalid)),
            Some((key, bump)) => if key != accounts[1].key@ {
                Err(vault_error(VovoVaultError::InvalidVovoVaultAccount))
            } else if !accounts[0].is_signer {
                Err(ProgramError::MissingRequiredSignature)
            } else {
                Ok((bump, initial_vault(accounts, fees).spec_encode()))
            },
        }
    }
}

/// A derivation's result taken by its view.
pub open spec fn found_view(found: Option<(Pubkey, u8)>) -> Option<(Seq<u8>, u8)> {
    match found {
        Some((k, b)) => Some((k@, b)),
        None => None,
    }
}

/// What `create_vault` does with these accounts: `create_vault_from` with
/// the vault address derived for this program.
pub open spec fn create_vault_result(program_id: Pubkey, accounts: Seq<AccountInfo>, fees: VaultFees) -> Result<
    (u8, Seq<u8>),
    ProgramError,
> {
    create_vault_from(accounts, fees, program_address(vault_seeds(program_id), program_id@))
}

impl CreateVaultPlan {
    /// The plan carries out `result` for this program: the layout's account
    /// positions, the bump seed, the vault's size, the signing seeds (the
    /// address seeds and the bump) and the vault's bytes.
    pub open spec fn carries_out(self, program_id: Pubkey, result: (u8, Seq<u8>)) -> bool {
        &&& self.payer == 0
        &&& self.vault == 1
        &&& self.rent == 2
        &&& self.system == 3
        &&& self.bump == result.0
        &&& self.space == VAULT_DATA_LEN
        &&& self.signer_seeds.deep_view() == vault_seeds(program_id).push(seq![result.0])
        &&& self.data@ == result.1
    }
}

fn optional_account_key(accounts: &[AccountInfo], i: usize) -> (k: Pubkey)
    ensures
        k == optional_key(accounts@, i as int),
{
    if i < accounts.len() {
        accounts[i].key
    } else {
        Pubkey([0u8; 32])
    }
}

fn vault_seed_vec(program_id: &Pubkey) -> (s: Vec<Vec<u8>>)
    ensures
        s@.len() == 2,
        s.deep_view() == vault_seeds(*program_id),
{
    let mut seeds: Vec<Vec<u8>> = Vec::new();
    seeds.push(prefix_seed());
    let mut program_seed: Vec<u8> = Vec::new();
    push_pubkey(&mut program_seed, program_id);
    assert(program_seed@ =~= program_id@);
    seeds.push(program_seed);
    proof {
        lemma_bytes_deep_view(seeds@[0]);
        lemma_bytes_deep_view(seeds@[1]);
        assert(seeds.deep_view() =~= vault_seeds(*program_id));
    }
    seeds
}

/// Derives the vault's address for this program, then checks that the
/// vault account is the one at that address and that the creator signed,
/// and returns what creating it takes.
pub fn create_vault(program_id: &Pubkey, accounts: &[AccountInfo], fees: VaultFees) -> (r: Result<
    CreateVaultPlan,
    ProgramError,
>)
    ensures
        match create_vault_result(*program_id, accounts@, fees) {
            Ok(res) => r matches Ok(p) && p.carries_out(*program_id, res),
            Err(e) => r == Err::<CreateVaultPlan, ProgramError>(e),
        },
{
    let seeds = vault_seed_vec(program_id);
    let found = try_find_program_address(&seeds, program_id);
    create_vault_at(program_id, accounts, fees, found)
}

/// Creating the vault once its address is derived: `found` is what deriving
/// the vault's address from the prefix and `program_id` gave. Checks that
/// the vault account is the one at that address and that the creator signed,
/// and returns what creating it takes.
pub fn create_vault_at(
    program_id: &Pubkey,
    accounts: &[AccountInfo],
    fees: VaultFees,
    found: Option<(Pubkey, u8)>,
) -> (r: Result<CreateVaultPlan, ProgramError>)
    ensures
        match create_vault_from(accounts@, fees, found_view(found)) {
            Ok(res) => r matches Ok(p) && p.carries_out(*program_id, res),
            Err(e) => r == Err::<CreateVaultPlan, ProgramError>(e),
        },
{
    let creator = next_account_info(accounts, 0)?;
    let vault = next_account_info(accounts, 1)?;
    let _rent = next_account_info(accounts, 2)?;
    let _system = next_account_info(accounts, 3)?;

    // Confirm the vault account is at the derived address.
    let (vault_key, bump) = match found {
        Some(found) => found,
        None => return Err(ProgramError::from(VovoVaultError::DerivedKeyInvalid)),
    };
    if !vault_key.eq(&vault.key) {
        return Err(ProgramError::from(VovoVaultError::InvalidVovoVaultAccount));
    }
    if !creator.is_signer {
        return Err(ProgramError::MissingRequiredSignature);
    }

    let mut signer_seeds = vault_seed_vec(program_id);
    let bump_seed: Vec<u8> = vec![bump];
    assert(bump_seed@ =~= seq![bump]);
    signer_seeds.push(bump_seed);
    proof {
        lemma_bytes_deep_view(signer_seeds@[0]);
        lemma_bytes_deep_view(signer_seeds@[1]);
        lemma_bytes_deep_view(signer_seeds@[2]);
        assert(signer_seeds@[2]@ =~= seq![bump]);
    }
    assert(signer_seeds.deep_view() =~= vault_seeds(*program_id).push(seq![bump]));

    let state = VovoVaultData {
        authority: creator.key,
        token_mint: optional_account_key(accounts, 4),
        token_pool: optional_account_key(accounts, 5),
        withdraw_fee: fees.withdraw_fee,
        performance_fee: fees.performance_fee,
        leverage: fees.leverage,
        total_farm_reward: 0,
        total_trade_profit: 0,
    };
    let data = state.try_to_vec();
    Ok(CreateVaultPlan {
        payer: 0,
        vault: 1,
        rent: 2,
        system: 3,
        bump,
        space: VAULT_DATA_LEN,
        signer_seeds,
        data,
    })
}

/// The vault a successful creation stores reads back as the initial vault,
/// with the creator as its authority, and it is at the derived address.
pub proof fn lemma_created_vault_reads_back(program_id: Pubkey, accounts: Seq<AccountInfo>, fees: VaultFees)
    ensures
        create_vault_result(program_id, accounts, fees) matches Ok(res) ==> {
            &&& res.1.len() == VAULT_DATA_LEN
            &&& VovoVaultData::read_from(res.1, initial_vault(accounts, fees))
            &&& initial_vault(accounts, fees).authority == accounts[0].key
            &&& accounts[0].is_signer
            &&& program_address(vault_seeds(program_id), program_id@) matches Some((key, _)) && key
                == accounts[1].key@
        },
{
    if let Ok(res) = create_vault_result(program_id, accounts, fees) {
        lemma_vault_data_roundtrip(initial_vault(accounts, fees), Seq::empty(), res.1, initial_vault(accounts, fees));
        assert(initial_vault(accounts, fees).spec_encode() + Seq::<u8>::empty() =~= res.1);
    }
}

/// The checks of a vault's creation, in order: at least four accounts; an
/// address found for the vault (else error 4); the vault account at that
/// address, whoever signed (else error 2); the creator's signature. When all
/// pass, the vault records the creator as its authority, accounts 4 and 5 (when
/// given) as its mint and pool, the given fees, and no reward or profit, and
/// the bump seed is the one found.
pub proof fn lemma_create_vault_checks_in_order(
    accounts: Seq<AccountInfo>,
    fees: VaultFees,
    found: Option<(Seq<u8>, u8)>,
)
    ensures
        accounts.len() < 4 ==> create_vault_from(accounts, fees, found) == Err::<(u8, Seq<u8>), ProgramError>(
            ProgramError::NotEnoughAccountKeys,
        ),
        accounts.len() >= 4 && found is None ==> create_vault_from(accounts, fees, found) == Err::<
            (u8, Seq<u8>),
            ProgramError,
        >(ProgramError::Custom(4)),
        accounts.len() >= 4 && (found matches Some((k, _)) && k != accounts[1].key@) ==> create_vault_from(
            accounts,
            fees,
            found,
        ) == Err::<(u8, Seq<u8>), ProgramError>(ProgramError::Custom(2)),
        accounts.len() >= 4 && (found matches Some((k, _)) && k == accounts[1].key@) && !accounts[0].is_signer
            ==> create_vault_from(accounts, fees, found) == Err::<(u8, Seq<u8>), ProgramError>(
            ProgramError::MissingRequiredSignature,
        ),
        accounts.len() >= 4 && (found matches Some((k, _)) && k == accounts[1].key@) && accounts[0].is_signer
            ==> create_vault_from(accounts, fees, found) == Ok::<(u8, Seq<u8>), ProgramError>(
            (
                found->Some_0.1,
                VovoVaultData {
                    authority: accounts[0].key,
                    token_mint: if accounts.len() > 4 {
                        accounts[4].key
                    } else {
                        unset_key()
                    },
                    token_pool: if accounts.len() > 5 {
                        accounts[5].key
                    } else {
                        unset_key()
                    },
                    withdraw_fee: fees.withdraw_fee,
                    performance_fee: fees.performance_fee,
                    leverage: fees.leverage,
                    total_farm_reward: 0,
                    total_trade_profit: 0,
                }.spec_encode(),
            ),
        ),
{
}

} // verus!
