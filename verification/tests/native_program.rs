use vovo::account::AccountInfo;
use vovo::codec::BorshError;
use vovo::errors::{ProgramError, VovoVaultError};
use vovo::instruction::VovoVaultInstruction;
use vovo::processor::create_vault::{create_vault, create_vault_at, VaultFees};
use vovo::processor::deposit::{deposit, deposit_would_overflow};
use vovo::processor::set_authority::set_authority;
use vovo::processor::{process_instruction, Outcome, UserInfo, VovoVaultData, USER_INFO_LEN, VAULT_DATA_LEN};
use vovo::pubkey::Pubkey;
use vovo::{prefix_seed, PREFIX};

fn key(n: u8) -> Pubkey {
    Pubkey([n; 32])
}

fn token_id() -> Pubkey {
    Pubkey(spl_token::id().to_bytes())
}

fn account(k: Pubkey, owner: Pubkey, signer: bool, lamports: u64, data: Vec<u8>) -> AccountInfo {
    AccountInfo { key: k, owner, is_signer: signer, is_writable: true, lamports, data }
}

fn vault_state() -> VovoVaultData {
    VovoVaultData {
        authority: key(10),
        token_mint: key(11),
        token_pool: key(12),
        withdraw_fee: 5,
        performance_fee: 20,
        leverage: 3,
        total_farm_reward: 7,
        total_trade_profit: 9,
    }
}

const FEES: VaultFees = VaultFees { withdraw_fee: 5, performance_fee: 20, leverage: 3 };

#[test]
fn instruction_bytes_match_the_wire_format() {
    assert_eq!(VovoVaultInstruction::CreateVovoVault.try_to_vec(), vec![0]);
    assert_eq!(VovoVaultInstruction::SetAuthority.try_to_vec(), vec![1]);
    assert_eq!(VovoVaultInstruction::Claim.try_to_vec(), vec![3]);
    let d = VovoVaultInstruction::Deposit(0x0102030405060708).try_to_vec();
    assert_eq!(d, vec![2, 8, 7, 6, 5, 4, 3, 2, 1]);
    let mut expected = vec![2u8];
    expected.extend(borsh::BorshSerialize::try_to_vec(&0x0102030405060708u64).unwrap());
    assert_eq!(d, expected);
}

#[test]
fn instruction_decoding_round_trips_and_rejects_bad_input() {
    for i in [
        VovoVaultInstruction::CreateVovoVault,
        VovoVaultInstruction::SetAuthority,
        VovoVaultInstruction::Deposit(u64::MAX),
        VovoVaultInstruction::Deposit(42),
        VovoVaultInstruction::Claim,
    ] {
        assert_eq!(VovoVaultInstruction::try_from_slice(&i.try_to_vec()), Ok(i));
    }
    assert_eq!(VovoVaultInstruction::try_from_slice(&[]), Err(BorshError::UnexpectedLengthOfInput));
    assert_eq!(VovoVaultInstruction::try_from_slice(&[4]), Err(BorshError::UnexpectedVariantIndex(4)));
    assert_eq!(VovoVaultInstruction::try_from_slice(&[0, 0]), Err(BorshError::NotAllBytesRead));
    assert_eq!(VovoVaultInstruction::try_from_slice(&[2, 1, 2]), Err(BorshError::UnexpectedLengthOfInput));
    assert_eq!(
        VovoVaultInstruction::try_from_slice(&[2, 1, 0, 0, 0, 0, 0, 0, 0, 9]),
        Err(BorshError::NotAllBytesRead)
    );
    assert_eq!(
        VovoVaultInstruction::try_from_slice(&[2, 1, 0, 0, 0, 0, 0, 0, 0]),
        Ok(VovoVaultInstruction::Deposit(1))
    );
}

#[test]
fn vault_layout_round_trips() {
    let v = vault_state();
    let bytes = v.try_to_vec();
    assert_eq!(bytes.len(), VAULT_DATA_LEN);
    assert_eq!(&bytes[0..32], &[10u8; 32]);
    assert_eq!(&bytes[96..104], &5u64.to_le_bytes());
    assert_eq!(&bytes[128..136], &9u64.to_le_bytes());
    let mut longer = bytes.clone();
    longer.extend([1, 2, 3]);
    let back = VovoVaultData::try_from_slice_unchecked(&longer).unwrap();
    assert_eq!(back.try_to_vec(), bytes);
    assert_eq!(back.total_farm_reward, 7);
    assert_eq!(
        VovoVaultData::try_from_slice_unchecked(&bytes[..135]).map(|_| ()),
        Err(BorshError::UnexpectedLengthOfInput)
    );
}

#[test]
fn user_info_layout_round_trips() {
    let u = UserInfo { owner: key(3), deposite_balance: 1_000_000 };
    let bytes = u.try_to_vec();
    assert_eq!(bytes.len(), USER_INFO_LEN);
    let back = UserInfo::try_from_slice_unchecked(&bytes).unwrap();
    assert_eq!(back.owner, key(3));
    assert_eq!(back.deposite_balance, 1_000_000);
    assert!(UserInfo::try_from_slice_unchecked(&bytes[..39]).is_err());
}

#[test]
fn error_codes_messages_and_conversion() {
    assert_eq!(VovoVaultError::IncorrectOwner.code(), 0);
    assert_eq!(VovoVaultError::InvalidAuthority.code(), 8);
    assert_eq!(VovoVaultError::InvalidTokenPool.code(), 19);
    assert_eq!(VovoVaultError::from_u32(17), Some(VovoVaultError::InvalidTokenProgram));
    assert_eq!(VovoVaultError::from_u32(20), None);
    assert_eq!(VovoVaultError::InvalidTokenProgram.message(), " This is not a valid token program");
    assert_eq!(VovoVaultError::BalanceTooLow.message(), "Balance too low to make bid.");
    assert_eq!(ProgramError::from(VovoVaultError::InvalidVovoVaultAccount), ProgramError::Custom(2));
    assert_eq!(ProgramError::from(VovoVaultError::DataTypeMismatch), ProgramError::Custom(18));
}

#[test]
fn prefix_seed_is_the_prefix() {
    assert_eq!(prefix_seed(), PREFIX.as_bytes().to_vec());
}

fn set_authority_accounts(program: Pubkey) -> Vec<AccountInfo> {
    let mut data = vault_state().try_to_vec();
    data.extend([7, 7]);
    vec![
        account(key(1), program, false, 1, data),
        account(key(10), key(0), true, 1, vec![]),
        account(key(20), key(0), false, 5, vec![1]),
    ]
}

#[test]
fn set_authority_rewrites_only_the_authority() {
    let program = key(99);
    let accounts = set_authority_accounts(program);
    let data = set_authority(&program, &accounts).unwrap();
    let mut expected = accounts[0].data.clone();
    expected[..32].copy_from_slice(&[20u8; 32]);
    assert_eq!(data, expected);
    let v = VovoVaultData::try_from_slice_unchecked(&data).unwrap();
    assert_eq!(v.authority, key(20));
    assert_eq!(v.token_pool, key(12));
}

#[test]
fn set_authority_refusals() {
    let program = key(99);
    let invalid = ProgramError::Custom(VovoVaultError::InvalidAuthority.code());

    let accounts = set_authority_accounts(program);
    assert_eq!(set_authority(&program, &accounts[..2]), Err(ProgramError::NotEnoughAccountKeys));

    let mut a = set_authority_accounts(program);
    a[0].owner = key(98);
    assert_eq!(set_authority(&program, &a), Err(ProgramError::Custom(0)));

    let mut a = set_authority_accounts(program);
    a[0].data.truncate(100);
    assert_eq!(set_authority(&program, &a), Err(ProgramError::BorshIoError(BorshError::UnexpectedLengthOfInput)));

    let mut a = set_authority_accounts(program);
    a[1].key = key(11);
    assert_eq!(set_authority(&program, &a), Err(invalid));

    let mut a = set_authority_accounts(program);
    a[1].is_signer = false;
    assert_eq!(set_authority(&program, &a), Err(invalid));

    let mut a = set_authority_accounts(program);
    a[2].data.clear();
    assert_eq!(set_authority(&program, &a), Err(invalid));

    let mut a = set_authority_accounts(program);
    a[2].lamports = 0;
    assert_eq!(set_authority(&program, &a), Err(invalid));
}

fn deposit_accounts(program: Pubkey, balance: u64) -> Vec<AccountInfo> {
    let t = token_id();
    let mut record = UserInfo { owner: key(50), deposite_balance: balance }.try_to_vec();
    record.extend([9, 9, 9]);
    vec![
        account(key(2), key(0), true, 1, vec![]),
        account(key(3), t, false, 1, vec![]),
        account(key(4), key(0), false, 1, vec![]),
        account(key(12), t, false, 1, vec![]),
        account(key(5), program, false, 1, record),
        account(key(1), program, false, 1, vault_state().try_to_vec()),
        account(key(11), t, false, 1, vec![]),
        account(key(7), key(0), true, 1, vec![]),
        account(key(8), key(0), true, 1, vec![]),
        account(key(13), key(0), false, 1, vec![]),
        account(key(14), key(0), false, 1, vec![]),
        account(key(15), key(0), false, 1, vec![]),
        account(t, key(0), false, 1, vec![]),
    ]
}

#[test]
fn deposit_credits_the_record_and_keeps_the_vault() {
    let program = key(99);
    let accounts = deposit_accounts(program, 100);
    let plan = deposit(&program, &accounts, 25).unwrap();
    assert_eq!(plan.transfer.amount, 25);
    assert_eq!((plan.transfer.source, plan.transfer.destination, plan.transfer.authority), (1, 3, 7));
    assert_eq!(plan.transfer.token_program, 12);
    assert_eq!((plan.record, plan.vault), (4, 5));
    assert_eq!(
        plan.transfer.signer_seeds,
        vec![PREFIX.as_bytes().to_vec(), vec![99u8; 32], vec![1u8; 32], vec![2u8; 32]]
    );
    assert_eq!(plan.vault_data, accounts[5].data);
    let u = UserInfo::try_from_slice_unchecked(&plan.user_info_data).unwrap();
    assert_eq!(u.owner, key(5));
    assert_eq!(u.deposite_balance, 125);
    assert_eq!(&plan.user_info_data[40..], &[9, 9, 9]);
}

#[test]
fn deposit_refusals() {
    let program = key(99);
    let accounts = deposit_accounts(program, 0);
    assert_eq!(deposit(&program, &accounts[..12], 1).map(|_| ()), Err(ProgramError::NotEnoughAccountKeys));

    let mut a = deposit_accounts(program, 0);
    a[5].owner = key(0);
    assert_eq!(deposit(&program, &a, 1).map(|_| ()), Err(ProgramError::Custom(0)));

    let mut a = deposit_accounts(program, 0);
    a[6].owner = key(0);
    assert_eq!(deposit(&program, &a, 1).map(|_| ()), Err(ProgramError::Custom(0)));

    for signer in [0usize, 7, 8] {
        let mut a = deposit_accounts(program, 0);
        a[signer].is_signer = false;
        assert_eq!(deposit(&program, &a, 1).map(|_| ()), Err(ProgramError::MissingRequiredSignature));
    }

    let mut a = deposit_accounts(program, 0);
    a[12].key = key(8);
    assert_eq!(deposit(&program, &a, 1).map(|_| ()), Err(ProgramError::Custom(17)));

    let mut a = deposit_accounts(program, 0);
    a[4].data.truncate(39);
    assert_eq!(
        deposit(&program, &a, 1).map(|_| ()),
        Err(ProgramError::BorshIoError(BorshError::UnexpectedLengthOfInput))
    );
}

#[test]
fn deposit_into_another_pool_or_mint_is_refused() {
    let program = key(99);
    let mut a = deposit_accounts(program, 0);
    a[6].key = key(16);
    assert_eq!(
        deposit(&program, &a, 1).map(|_| ()),
        Err(ProgramError::Custom(VovoVaultError::IncorrectMint.code()))
    );
    assert_eq!(VovoVaultError::IncorrectMint.code(), 14);

    let mut a = deposit_accounts(program, 0);
    a[3].key = key(16);
    assert_eq!(
        deposit(&program, &a, 1).map(|_| ()),
        Err(ProgramError::Custom(VovoVaultError::InvalidTokenPool.code()))
    );
    assert_eq!(VovoVaultError::InvalidTokenPool.code(), 19);
}

#[test]
fn deposit_overflow_is_detected() {
    let program = key(99);
    let accounts = deposit_accounts(program, u64::MAX - 1);
    assert!(!deposit_would_overflow(&program, &accounts, 1));
    assert!(deposit_would_overflow(&program, &accounts, 2));
}

fn create_accounts(vault: Pubkey) -> Vec<AccountInfo> {
    vec![
        account(key(10), key(0), true, 10, vec![]),
        account(vault, key(0), false, 0, vec![]),
        account(key(6), key(0), false, 0, vec![]),
        account(key(7), key(0), false, 0, vec![]),
        account(key(11), key(0), false, 0, vec![]),
        account(key(12), key(0), false, 0, vec![]),
    ]
}

fn vault_address(program: Pubkey) -> (Pubkey, u8) {
    let id = solana_program::pubkey::Pubkey::new_from_array(program.0);
    let (pda, bump) = solana_program::pubkey::Pubkey::find_program_address(&[PREFIX.as_bytes(), id.as_ref()], &id);
    (Pubkey(pda.to_bytes()), bump)
}

#[test]
fn create_vault_at_the_derived_address() {
    let program = key(99);
    let (vault, bump) = vault_address(program);
    let accounts = create_accounts(vault);
    let plan = create_vault(&program, &accounts, FEES).unwrap();
    assert_eq!(plan.bump, bump);
    assert_eq!(plan.space, 136);
    assert_eq!((plan.payer, plan.vault, plan.rent, plan.system), (0, 1, 2, 3));
    assert_eq!(plan.signer_seeds, vec![PREFIX.as_bytes().to_vec(), vec![99u8; 32], vec![bump]]);
    let v = VovoVaultData::try_from_slice_unchecked(&plan.data).unwrap();
    assert_eq!(v.authority, key(10));
    assert_eq!(v.token_mint, key(11));
    assert_eq!(v.token_pool, key(12));
    assert_eq!((v.withdraw_fee, v.performance_fee, v.leverage), (5, 20, 3));
    assert_eq!((v.total_farm_reward, v.total_trade_profit), (0, 0));
}

#[test]
fn create_vault_with_the_four_documented_accounts() {
    let program = key(99);
    let (vault, _) = vault_address(program);
    let accounts = create_accounts(vault);
    let plan = create_vault(&program, &accounts[..4], FEES).unwrap();
    let v = VovoVaultData::try_from_slice_unchecked(&plan.data).unwrap();
    assert_eq!(v.authority, accounts[0].key);
    assert_eq!(v.token_mint, key(0));
    assert_eq!(v.token_pool, key(0));
    let plan = create_vault(&program, &accounts[..5], FEES).unwrap();
    let v = VovoVaultData::try_from_slice_unchecked(&plan.data).unwrap();
    assert_eq!(v.token_mint, key(11));
    assert_eq!(v.token_pool, key(0));
}

#[test]
fn create_vault_refusals() {
    let program = key(99);
    let accounts = create_accounts(key(42));
    assert_eq!(
        create_vault(&program, &accounts, FEES).map(|_| ()),
        Err(ProgramError::Custom(VovoVaultError::InvalidVovoVaultAccount.code()))
    );
    assert_eq!(create_vault(&program, &accounts[..3], FEES).map(|_| ()), Err(ProgramError::NotEnoughAccountKeys));
    let (vault, _) = vault_address(program);
    let mut a = create_accounts(vault);
    a[0].is_signer = false;
    assert_eq!(create_vault(&program, &a, FEES).map(|_| ()), Err(ProgramError::MissingRequiredSignature));
}

#[test]
fn create_vault_checks_the_address_before_the_signature() {
    let program = key(99);
    let mut a = create_accounts(key(42));
    a[0].is_signer = false;
    assert_eq!(
        create_vault(&program, &a, FEES).map(|_| ()),
        Err(ProgramError::Custom(VovoVaultError::InvalidVovoVaultAccount.code()))
    );
    assert_eq!(VovoVaultError::InvalidVovoVaultAccount.code(), 2);
}

#[test]
fn create_vault_at_takes_the_derivation_as_given() {
    let program = key(99);
    let accounts = create_accounts(key(42));
    assert_eq!(
        create_vault_at(&program, &accounts, FEES, None).map(|_| ()),
        Err(ProgramError::Custom(VovoVaultError::DerivedKeyInvalid.code()))
    );
    assert_eq!(
        create_vault_at(&program, &accounts, FEES, Some((key(43), 7))).map(|_| ()),
        Err(ProgramError::Custom(2))
    );
    let plan = create_vault_at(&program, &accounts, FEES, Some((key(42), 7))).unwrap();
    assert_eq!(plan.bump, 7);
    assert_eq!(plan.signer_seeds, vec![PREFIX.as_bytes().to_vec(), vec![99u8; 32], vec![7u8]]);
    assert_eq!(VovoVaultData::try_from_slice_unchecked(&plan.data).unwrap().authority, key(10));
    let mut a = create_accounts(key(42));
    a[0].is_signer = false;
    assert_eq!(
        create_vault_at(&program, &a, FEES, Some((key(42), 7))).map(|_| ()),
        Err(ProgramError::MissingRequiredSignature)
    );
    assert_eq!(
        create_vault_at(&program, &a[..3], FEES, Some((key(42), 7))).map(|_| ()),
        Err(ProgramError::NotEnoughAccountKeys)
    );
}

#[test]
fn process_instruction_dispatches() {
    let program = key(99);
    assert_eq!(
        process_instruction(&program, &[], &[9], FEES).map(|_| ()),
        Err(ProgramError::BorshIoError(BorshError::UnexpectedVariantIndex(9)))
    );
    assert!(matches!(process_instruction(&program, &[], &[3], FEES), Ok(Outcome::Claim)));
    let accounts = set_authority_accounts(program);
    assert!(matches!(process_instruction(&program, &accounts, &[1], FEES), Ok(Outcome::SetAuthority(_))));
    let accounts = deposit_accounts(program, 1);
    let input = VovoVaultInstruction::Deposit(2).try_to_vec();
    match process_instruction(&program, &accounts, &input, FEES) {
        Ok(Outcome::Deposit(p)) => assert_eq!(UserInfo::try_from_slice_unchecked(&p.user_info_data).unwrap().deposite_balance, 3),
        _ => panic!("deposit expected"),
    }
    assert_eq!(
        process_instruction(&program, &accounts, &[0], FEES).map(|_| ()),
        Err(ProgramError::Custom(2))
    );
}

#[test]
fn error_numbers_lead_back_to_their_errors() {
    for c in 0u32..25 {
        match VovoVaultError::from_u32(c) {
            Some(e) => assert_eq!(e.code(), c),
            None => assert!(c >= 20),
        }
    }
}
