use vovo::anchor::{AnchorError, Context, ErrorCode, SignerAccount, TokenAccount};
use vovo::cpi::PositionType;
use vovo::errors::ProgramError;
use vovo::pubkey::Pubkey;
use vovo::vovo_solana::{PokeAction, PokeStep};
use vovo::{anchor_vault, vovo_solana, vovo_vault};

fn key(n: u8) -> Pubkey {
    Pubkey([n; 32])
}

fn tok() -> Pubkey {
    Pubkey(spl_token::id().to_bytes())
}

fn signer(k: Pubkey) -> SignerAccount {
    SignerAccount { key: k, is_signer: true }
}

const NO_BALANCE: AnchorError = AnchorError::Vault(ErrorCode::NoDepositedBalance);

fn vv_data() -> vovo_vault::VovoData {
    vovo_vault::VovoData {
        authority: key(1),
        nonce: 254,
        token_mint: key(2),
        token_pool: key(3),
        withdraw_fee: 0,
        performance_fee: 0,
        leverage: 1,
        total_trade_profit: 0,
    }
}

fn vv_withdraw(balance: u64) -> Context<vovo_vault::Withdraw> {
    Context {
        program_id: key(99),
        accounts: vovo_vault::Withdraw {
            vovo_data: vv_data(),
            user_info: vovo_vault::UserInfo { owner: key(5), deposit_balance: balance },
            to: key(6),
            token_pool_account: TokenAccount { key: key(3), amount: 1000 },
            pool_signer: key(7),
            owner: key(5),
            token_program: tok(),
        },
    }
}

#[test]
fn error_messages() {
    assert_eq!(ErrorCode::NoDepositedBalance.message(), "no deposited balance");
    assert_eq!(ErrorCode::IncorrectOwner.message(), "Incorrect Option Owner");
    assert_eq!(ErrorCode::IncorrectCurrentPrice.message(), "Incorrect current price");
}

#[test]
fn vovo_vault_withdraw_pays_at_most_the_balance() {
    let mut state = vv_data();
    let mut ctx = vv_withdraw(40);
    let t = state.withdraw(&mut ctx, 100).unwrap();
    assert_eq!(t.amount, 40);
    assert_eq!(t.from, key(3));
    assert_eq!(t.to, key(6));
    assert_eq!(t.authority, key(7));
    assert_eq!(t.signer_seeds, vec![vec![2u8; 32], vec![254u8]]);
    assert_eq!(ctx.accounts.user_info.deposit_balance, 0);

    let mut ctx = vv_withdraw(40);
    let t = state.withdraw(&mut ctx, 15).unwrap();
    assert_eq!(t.amount, 15);
    assert_eq!(ctx.accounts.user_info.deposit_balance, 25);
}

#[test]
fn vovo_vault_withdraw_refuses_an_empty_balance() {
    let mut state = vv_data();
    let mut ctx = vv_withdraw(0);
    assert_eq!(state.withdraw(&mut ctx, 1).map(|_| ()), Err(NO_BALANCE));
    assert_eq!(ctx.accounts.user_info.deposit_balance, 0);
}

#[test]
fn vovo_vault_deposit_then_withdraw_restores_the_balance() {
    let mut state = vv_data();
    let mut dctx = Context {
        program_id: key(99),
        accounts: vovo_vault::Deposit {
            vovo_data: vv_data(),
            user_info: vovo_vault::UserInfo { owner: key(5), deposit_balance: 10 },
            from: key(9),
            token_pool_account: TokenAccount { key: key(3), amount: 0 },
            owner: key(5),
            token_program: tok(),
        },
    };
    let t = state.deposit(&mut dctx, 30).unwrap();
    assert_eq!((t.from, t.to, t.authority, t.amount), (key(9), key(3), key(5), 30));
    assert!(t.signer_seeds.is_empty());
    assert_eq!(dctx.accounts.user_info.deposit_balance, 40);
    let mut wctx = vv_withdraw(dctx.accounts.user_info.deposit_balance);
    let w = state.withdraw(&mut wctx, 30).unwrap();
    assert_eq!(w.amount, 30);
    assert_eq!(wctx.accounts.user_info.deposit_balance, 10);
}

#[test]
fn vovo_vault_new_and_user_info() {
    let ctx = Context {
        program_id: key(99),
        accounts: vovo_vault::InitializeVovoData { authority: signer(key(1)), token_mint: key(2), token_pool_account: key(3) },
    };
    let d = vovo_vault::VovoData::new(ctx, 7, 1, 2, 3, 4).unwrap();
    assert_eq!((d.authority, d.token_mint, d.token_pool), (key(1), key(2), key(3)));
    assert_eq!((d.nonce, d.withdraw_fee, d.performance_fee, d.leverage, d.total_trade_profit), (7, 1, 2, 3, 4));
    let u = vovo_vault::UserInfo::new(Context {
        program_id: key(99),
        accounts: vovo_vault::InitializeUserInfo { owner: key(4) },
    })
    .unwrap();
    assert_eq!((u.owner, u.deposit_balance), (key(4), 0));
}

#[test]
fn vovo_vault_mercurial_calls() {
    let mut state = vv_data();
    let ctx = Context {
        program_id: key(99),
        accounts: vovo_vault::MercurialExchange {
            token_program: tok(),
            vovo_data: vv_data(),
            mercurial_program: key(20),
            mercurial_swap_account: key(21),
            mercurial_token_program_id: key(22),
            mercurial_pool_authority: key(23),
            mercurial_transfer_authority: key(24),
            mercurial_swap_token: key(25),
            mercurial_pool_token_mint: key(26),
            mercurial_source_token: key(27),
            mercurial_dest_token: key(28),
        },
    };
    let c = state.mercurial_exchange(ctx, 500, 490).unwrap();
    assert_eq!(c.instruction.program_id, key(20));
    assert_eq!(c.instruction.swap_token_accounts, vec![key(25)]);
    assert_eq!((c.instruction.in_amount, c.instruction.minimum_out_amount), (500, 490));
    assert_eq!(c.accounts, vec![key(21), key(22), key(23), key(24), key(25), key(27), key(28)]);
}

#[test]
fn vovo_vault_poke_maps_the_side() {
    let mut state = vv_data();
    let mk = || Context {
        program_id: key(99),
        accounts: vovo_vault::Poke {
            token_program: tok(),
            vovo_data: vv_data(),
            audaces_protocol_program_id: key(30),
            market_account: key(31),
            market_signer_account: key(32),
            market_vault: key(33),
            oracle_account: key(34),
            instance_account: key(35),
            user_account: key(36),
            user_account_owner: key(37),
            bonfida_bnb: key(38),
            memory_page: key(39),
            source_owner: key(40),
            source_token_account: key(41),
            open_positions_account: key(42),
            clock_sysvar: key(43),
            trade_label: key(44),
        },
    };
    let p = state.bonfida_poke(mk(), 1, 2, 3, 4, 5, 600, 0, 1, 100, 2).unwrap();
    assert_eq!(p.open.instruction.side, PositionType::Short);
    assert_eq!(p.add_budget.instruction.amount, 600);
    assert_eq!(p.close.instruction.position_index, 3);
    assert_eq!(p.close.instruction.accounts.memory_pages, vec![key(39)]);
    let p = state.bonfida_poke(mk(), 1, 2, 3, 4, 5, 600, 7, 1, 100, 2).unwrap();
    assert_eq!(p.open.instruction.side, PositionType::Long);
}

fn av_data() -> anchor_vault::VovoData {
    anchor_vault::VovoData {
        authority: key(1),
        nonce: 3,
        token_mint: key(2),
        token_pool: key(3),
        withdraw_fee: 0,
        performance_fee: 0,
        leverage: 1,
        total_trade_profit: 0,
        mercurial_program_id: key(20),
        mercurial_swap_account: key(21),
        mercurial_token_program_id: key(22),
        mercurial_pool_authority: key(23),
        mercurial_transfer_authority: key(24),
        mercurial_swap_token: key(25),
        mercurial_pool_token_mint: key(26),
        mercurial_source_token: key(27),
        mercurial_lp_token: key(28),
        mercurial_min_mint_amount: 11,
    }
}

#[test]
fn anchor_vault_deposit_to_mercurial_uses_the_recorded_pool() {
    let mut state = av_data();
    let ctx = Context {
        program_id: key(99),
        accounts: anchor_vault::MercurialDeposit {
            token_program: tok(),
            mercurial_swap_account: key(51),
            mercurial_token_program_id: key(52),
            mercurial_pool_authority: key(53),
            mercurial_transfer_authority: key(54),
            mercurial_swap_token: key(55),
            mercurial_pool_token_mint: key(56),
            mercurial_source_token: key(57),
            mercurial_lp_token: key(58),
        },
    };
    let c = state.deposit_to_mercurial(ctx, 77, key(3), 9).unwrap();
    assert_eq!(c.instruction.program_id, key(20));
    assert_eq!(c.instruction.deposit_amounts, vec![77]);
    assert_eq!(c.instruction.min_mint_amount, 11);
    assert_eq!(c.accounts[0], key(51));
    assert_eq!(c.signer_seeds, vec![vec![3u8; 32], vec![9u8]]);
}

#[test]
fn anchor_vault_withdraw_refuses_an_empty_balance() {
    let mut state = av_data();
    let mut ctx = Context {
        program_id: key(99),
        accounts: anchor_vault::Withdraw {
            vovo_data: av_data(),
            user_info: anchor_vault::UserInfo { owner: key(5), deposit_balance: 0 },
            to: key(6),
            token_pool_account: TokenAccount { key: key(3), amount: 0 },
            pool_signer: key(7),
            owner: key(5),
            token_program: tok(),
        },
    };
    assert_eq!(state.withdraw(&mut ctx, 5).map(|_| ()), Err(NO_BALANCE));
    ctx.accounts.user_info.deposit_balance = 9;
    assert_eq!(state.withdraw(&mut ctx, 5).unwrap().amount, 5);
    assert_eq!(ctx.accounts.user_info.deposit_balance, 4);
}

fn vs_data() -> vovo_solana::VovoData {
    vovo_solana::VovoData {
        authority: key(1),
        nonce: 250,
        token_mint: key(2),
        token_pool_usdc: key(3),
        token_pool_usdt: key(4),
        token_pool_wust: key(5),
        withdraw_fee: 0,
        performance_fee: 0,
        leverage: 1,
        total_trade_profit: 0,
        mer_reward_token: key(6),
        usdc_reward_token: key(7),
        mercurial_lp_token: key(1),
        bonfida_user_account: key(9),
    }
}

fn vs_poke(vault_amount: u64, dest_amount: u64) -> Context<vovo_solana::Poke> {
    Context {
        program_id: key(99),
        accounts: vovo_solana::Poke {
            token_program: tok(),
            vovo_data: vs_data(),
            raydium_program_id: key(60),
            raydium_amm_id: key(61),
            raydium_amm_authority: key(62),
            raydium_amm_open_orders: key(63),
            raydium_amm_target_orders: key(64),
            raydium_pool_coin_token_account: key(65),
            raydium_pool_pc_token_account: key(66),
            raydium_serum_program_id: key(67),
            raydium_serum_market: key(68),
            raydium_serum_bids: key(69),
            raydium_serum_asks: key(70),
            raydium_serum_event_queue: key(71),
            raydium_serum_coin_vault_account: key(72),
            raydium_serum_pc_vault_account: key(73),
            raydium_serum_vault_signer: key(74),
            user_source_token_account: TokenAccount { key: key(75), amount: 1234 },
            user_destination_token_account: TokenAccount { key: key(76), amount: dest_amount },
            user_source_owner: key(77),
            audaces_protocol_program_id: key(30),
            market_account: key(31),
            market_signer_account: key(32),
            market_vault: TokenAccount { key: key(33), amount: vault_amount },
            target_account: key(34),
            open_positions_owner_account: key(35),
            oracle_account: key(36),
            instance_account: key(37),
            user_account: key(38),
            user_account_owner: key(39),
            bonfida_bnb: key(40),
            memory_page: key(41),
            source_owner: key(42),
            source_token_account: key(43),
            open_positions_account: key(44),
            clock_sysvar: key(45),
            trade_label: key(46),
        },
    }
}

fn poke_step(
    state: &mut vovo_solana::VovoData,
    ctx: Context<vovo_solana::Poke>,
    last: Option<PokeStep>,
    outcome: Result<bool, AnchorError>,
) -> PokeAction {
    state.bonfida_poke(ctx, 1, 2, 3, 4, 5, 1, 0, 100, 2, last, outcome)
}

/// Runs a poke to its end with every call succeeding and the position check
/// answering `open`; returns the steps asked for and the result.
fn run_poke(ctx: Context<vovo_solana::Poke>, open: bool) -> (Vec<PokeStep>, Result<(), AnchorError>) {
    let mut state = vs_data();
    let mut steps = Vec::new();
    let mut last = None;
    loop {
        let step = match poke_step(&mut state, ctx.clone(), last, Ok(open)) {
            PokeAction::Finish(r) => return (steps, r),
            PokeAction::Swap(_) => PokeStep::Swap,
            PokeAction::CheckPosition { .. } => PokeStep::CheckPosition,
            PokeAction::ClosePosition(_) => PokeStep::ClosePosition,
            PokeAction::WithdrawBudget(_) => PokeStep::WithdrawBudget,
            PokeAction::AddBudget(_) => PokeStep::AddBudget,
            PokeAction::OpenPosition(_) => PokeStep::OpenPosition,
        };
        steps.push(step);
        last = Some(step);
    }
}

#[test]
fn vovo_solana_poke_with_nothing_to_do_only_swaps() {
    let mut state = vs_data();
    match poke_step(&mut state, vs_poke(0, 0), None, Ok(false)) {
        PokeAction::Swap(c) => {
            assert_eq!(c.instruction.amount_in, 1234);
            assert_eq!(c.instruction.minimum_amount_out, 0);
            assert_eq!(c.accounts.len(), 18);
            assert_eq!(c.accounts[0], tok());
            assert_eq!(c.signer_seeds, vec![vec![99u8; 32], vec![250u8]]);
        }
        other => panic!("swap expected, got {:?}", other),
    }
    assert_eq!(run_poke(vs_poke(0, 0), false), (vec![PokeStep::Swap, PokeStep::CheckPosition], Ok(())));
}

#[test]
fn vovo_solana_poke_opens_only_above_the_threshold() {
    let mut state = vs_data();
    let all = vec![
        PokeStep::Swap,
        PokeStep::CheckPosition,
        PokeStep::ClosePosition,
        PokeStep::WithdrawBudget,
        PokeStep::AddBudget,
    ];
    assert_eq!(run_poke(vs_poke(5_000_000, 10), true), (all.clone(), Ok(())));
    match poke_step(&mut state, vs_poke(5_000_000, 10), Some(PokeStep::CheckPosition), Ok(true)) {
        PokeAction::ClosePosition(c) => assert_eq!(c.instruction.position_index, 3),
        other => panic!("close expected, got {:?}", other),
    }
    match poke_step(&mut state, vs_poke(5_000_000, 10), Some(PokeStep::ClosePosition), Ok(true)) {
        PokeAction::WithdrawBudget(c) => assert_eq!(c.instruction.amount, 5_000_000),
        other => panic!("withdraw expected, got {:?}", other),
    }
    match poke_step(&mut state, vs_poke(5_000_000, 10), Some(PokeStep::WithdrawBudget), Ok(true)) {
        PokeAction::AddBudget(c) => assert_eq!(c.instruction.amount, 10),
        other => panic!("add expected, got {:?}", other),
    }

    let (steps, r) = run_poke(vs_poke(5_000_001, 0), false);
    assert_eq!(
        steps,
        vec![PokeStep::Swap, PokeStep::CheckPosition, PokeStep::WithdrawBudget, PokeStep::OpenPosition]
    );
    assert_eq!(r, Ok(()));
    match poke_step(&mut state, vs_poke(5_000_001, 0), Some(PokeStep::WithdrawBudget), Ok(false)) {
        PokeAction::OpenPosition(open) => {
            assert_eq!(open.instruction.side, PositionType::Long);
            assert_eq!(open.instruction.accounts.market_vault, key(33));
            assert_eq!((open.instruction.collateral, open.instruction.leverage), (100, 2));
        }
        other => panic!("open expected, got {:?}", other),
    }
}

#[test]
fn vovo_solana_poke_stops_at_the_first_error() {
    let mut state = vs_data();
    let failed = AnchorError::Program(ProgramError::Custom(6));
    for step in [
        PokeStep::Swap,
        PokeStep::CheckPosition,
        PokeStep::ClosePosition,
        PokeStep::WithdrawBudget,
        PokeStep::AddBudget,
        PokeStep::OpenPosition,
    ] {
        match poke_step(&mut state, vs_poke(5_000_001, 10), Some(step), Err(failed)) {
            PokeAction::Finish(r) => assert_eq!(r, Err(failed)),
            other => panic!("finish expected, got {:?}", other),
        }
    }
    let mut ctx = vs_poke(5_000_001, 10);
    ctx.accounts.token_program = key(8);
    match poke_step(&mut state, ctx, None, Ok(true)) {
        PokeAction::Finish(r) => assert_eq!(r, Err(AnchorError::ConstraintRaw)),
        other => panic!("finish expected, got {:?}", other),
    }
    match poke_step(&mut state, vs_poke(0, 0), Some(PokeStep::Swap), Ok(false)) {
        PokeAction::CheckPosition { user_account, position_index } => {
            assert_eq!((user_account, position_index), (key(38), 3))
        }
        other => panic!("check expected, got {:?}", other),
    }
    assert_eq!(format!("{:?}", state), format!("{:?}", vs_data()));
}

fn vs_withdraw(balance: u64) -> Context<vovo_solana::Withdraw> {
    Context {
        program_id: key(99),
        accounts: vovo_solana::Withdraw {
            token_program: tok(),
            vovo_data: vs_data(),
            user_info: vovo_solana::UserInfo { owner: key(5), deposit_balance: balance, bump: 1 },
            to: key(80),
            pool_authority: key(81),
            mercurial_program: key(20),
            mercurial_swap_account: key(21),
            mercurial_token_program_id: tok(),
            mercurial_pool_authority: key(23),
            mercurial_transfer_authority: key(24),
            mercurial_swap_token_usdc: key(25),
            mercurial_swap_token_usdt: key(26),
            mercurial_swap_token_wust: key(27),
            mercurial_pool_token_mint: key(28),
            token_pool_usdc: TokenAccount { key: key(3), amount: 500 },
            token_pool_usdt: key(4),
            token_pool_wust: key(5),
            mercurial_lp_token: key(29),
        },
    }
}

#[test]
fn vovo_solana_withdraw_unwinds_liquidity_then_pays() {
    let mut state = vs_data();
    let mut ctx = vs_withdraw(70);
    let p = state.withdraw(&mut ctx, 100).unwrap();
    assert_eq!(p.remove_liquidity.instruction.unmint_amount, 70);
    assert_eq!(p.remove_liquidity.instruction.minimum_amounts, vec![0]);
    assert_eq!(p.remove_liquidity.instruction.dest_token_accounts, vec![key(3), key(4), key(5)]);
    assert_eq!(p.remove_liquidity.accounts.len(), 12);
    assert_eq!(p.remove_liquidity.signer_seeds, vec![vec![99u8; 32], vec![250u8]]);
    assert_eq!((p.transfer.from, p.transfer.to, p.transfer.authority, p.transfer.amount), (key(3), key(80), key(81), 70));
    assert_eq!(p.transfer.signer_seeds, vec![vec![2u8; 32], vec![250u8]]);
    assert_eq!(ctx.accounts.user_info.deposit_balance, 0);
    let mut ctx = vs_withdraw(0);
    assert!(matches!(state.withdraw(&mut ctx, 1), Err(NO_BALANCE)));
}

#[test]
fn vovo_solana_earn_adds_the_usdc_pool() {
    let mut state = vs_data();
    let w = vs_withdraw(0).accounts;
    let mut ctx = Context {
        program_id: key(99),
        accounts: vovo_solana::Earn {
            token_program: w.token_program,
            vovo_data: vs_data(),
            mercurial_program: w.mercurial_program,
            mercurial_swap_account: w.mercurial_swap_account,
            mercurial_token_program_id: w.mercurial_token_program_id,
            mercurial_pool_authority: w.mercurial_pool_authority,
            mercurial_transfer_authority: w.mercurial_transfer_authority,
            mercurial_swap_token_usdc: w.mercurial_swap_token_usdc,
            mercurial_swap_token_usdt: w.mercurial_swap_token_usdt,
            mercurial_swap_token_wust: w.mercurial_swap_token_wust,
            mercurial_pool_token_mint: w.mercurial_pool_token_mint,
            token_pool_usdc: w.token_pool_usdc,
            token_pool_usdt: w.token_pool_usdt,
            token_pool_wust: w.token_pool_wust,
            mercurial_lp_token: w.mercurial_lp_token,
        },
    };
    let c = state.earn(&mut ctx, 3).unwrap();
    assert_eq!(c.instruction.deposit_amounts, vec![500, 0, 0]);
    assert_eq!(c.instruction.min_mint_amount, 3);
    assert_eq!(ctx.accounts.vovo_data.mercurial_lp_token, key(29));
}

#[test]
fn vovo_solana_new_create_user_and_default() {
    let ctx = Context {
        program_id: key(99),
        accounts: vovo_solana::InitializeVovoData {
            authority: signer(key(1)),
            token_mint: key(2),
            token_pool_usdc_account: key(3),
            token_pool_usdt_account: key(4),
            token_pool_wust_account: key(5),
            bonfida_program_id: key(6),
            bonfida_user_account: key(9),
        },
    };
    let d = vovo_solana::VovoData::new(ctx, 1, 2, 3, 4, 5, key(10), key(11)).unwrap();
    assert_eq!(d.mercurial_lp_token, key(1));
    assert_eq!(d.bonfida_user_account, key(9));
    assert_eq!((d.mer_reward_token, d.usdc_reward_token), (key(10), key(11)));

    let mut c = Context {
        program_id: key(99),
        accounts: vovo_solana::CreateUser {
            user_info: vovo_solana::UserInfo::default(),
            user_info_key: user_address(key(12), key(99)).0,
            owner: key(12),
            rent: key(13),
            system_program: key(14),
        },
    };
    assert_eq!(c.accounts.user_info.owner, Pubkey([0; 32]));
    let bump = user_address(key(12), key(99)).1;
    let before = c.clone();
    assert_eq!(vovo_solana::create_user(&mut c, bump.wrapping_add(1)), Err(AnchorError::ConstraintSeeds));
    assert_eq!(c.accounts.user_info.owner, before.accounts.user_info.owner);
    vovo_solana::create_user(&mut c, bump).unwrap();
    assert_eq!(c.accounts.user_info.owner, key(12));
    assert_eq!((c.accounts.user_info.deposit_balance, c.accounts.user_info.bump), (0, bump));

    let mut c = before.clone();
    c.accounts.user_info_key = key(13);
    assert_eq!(vovo_solana::create_user(&mut c, bump), Err(AnchorError::ConstraintSeeds));
}

fn user_address(owner: Pubkey, program: Pubkey) -> (Pubkey, u8) {
    let id = solana_program::pubkey::Pubkey::new_from_array(program.0);
    let (pda, bump) =
        solana_program::pubkey::Pubkey::find_program_address(&[b"vovo-user-seed", &owner.0], &id);
    (Pubkey(pda.to_bytes()), bump)
}

#[test]
fn anchor_constraints_refuse_before_anything_changes() {
    let ctx = Context {
        program_id: key(99),
        accounts: vovo_vault::InitializeVovoData {
            authority: SignerAccount { key: key(1), is_signer: false },
            token_mint: key(2),
            token_pool_account: key(3),
        },
    };
    assert_eq!(vovo_vault::VovoData::new(ctx, 7, 1, 2, 3, 4).map(|_| ()), Err(AnchorError::ConstraintSigner));

    let mut state = vv_data();
    let mut ctx = vv_withdraw(40);
    ctx.accounts.token_program = key(8);
    assert_eq!(state.withdraw(&mut ctx, 10).map(|_| ()), Err(AnchorError::ConstraintRaw));
    assert_eq!(ctx.accounts.user_info.deposit_balance, 40);

    let mut state = vs_data();
    let mut ctx = vs_withdraw(70);
    ctx.accounts.mercurial_token_program_id = key(22);
    assert_eq!(state.withdraw(&mut ctx, 10).map(|_| ()), Err(AnchorError::ConstraintRaw));
    assert_eq!(ctx.accounts.user_info.deposit_balance, 70);
}

fn vs_deposit(is_signer: bool, token_program: Pubkey) -> Context<vovo_solana::Deposit> {
    Context {
        program_id: key(99),
        accounts: vovo_solana::Deposit {
            user_info: vovo_solana::UserInfo { owner: key(5), deposit_balance: 10, bump: 1 },
            from: key(9),
            token_pool_usdc_account: TokenAccount { key: key(3), amount: 0 },
            owner: SignerAccount { key: key(5), is_signer },
            token_program,
        },
    }
}

#[test]
fn vovo_solana_deposit_checks_the_signer_and_the_token_program() {
    let mut state = vs_data();
    let mut ctx = vs_deposit(true, tok());
    let t = state.deposit(&mut ctx, 30).unwrap();
    assert_eq!((t.from, t.to, t.authority, t.amount), (key(9), key(3), key(5), 30));
    assert_eq!(ctx.accounts.user_info.deposit_balance, 40);

    let mut ctx = vs_deposit(false, tok());
    assert_eq!(state.deposit(&mut ctx, 30).map(|_| ()), Err(AnchorError::ConstraintSigner));
    assert_eq!(ctx.accounts.user_info.deposit_balance, 10);

    let mut ctx = vs_deposit(true, key(8));
    assert_eq!(state.deposit(&mut ctx, 30).map(|_| ()), Err(AnchorError::ConstraintRaw));
    assert_eq!(ctx.accounts.user_info.deposit_balance, 10);
}

#[test]
fn create_user_at_takes_the_derivation_as_given() {
    let mut c = Context {
        program_id: key(99),
        accounts: vovo_solana::CreateUser {
            user_info: vovo_solana::UserInfo::default(),
            user_info_key: key(20),
            owner: key(12),
            rent: key(13),
            system_program: key(14),
        },
    };
    assert_eq!(vovo_solana::create_user_at(&mut c, 5, None), Err(AnchorError::ConstraintSeeds));
    assert_eq!(vovo_solana::create_user_at(&mut c, 5, Some(key(21))), Err(AnchorError::ConstraintSeeds));
    assert_eq!(c.accounts.user_info.owner, Pubkey([0; 32]));
    assert_eq!(vovo_solana::create_user_at(&mut c, 5, Some(key(20))), Ok(()));
    assert_eq!(c.accounts.user_info.owner, key(12));
    assert_eq!((c.accounts.user_info.deposit_balance, c.accounts.user_info.bump), (0, 5));
}
