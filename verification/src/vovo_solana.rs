//! The Anchor vault program that pools three stable coins: deposits and
//! withdrawals in USDC, liquidity in a three-coin Mercurial pool, and a
//! perpetuals position on an Audaces market funded through a Raydium swap.
use vstd::prelude::*;

pub use crate::anchor::ErrorCode;
use crate::address::{create_program_address, created_program_address, spl_token_id};
use crate::anchor::{
    AnchorError, Context, SignerAccount, TokenAccount, Transfer, check_signer, check_token_program, key_nonce_seeds,
    signer_seeds,
};
use crate::codec::{lemma_bytes_deep_view, push_pubkey};
use crate::cpi::{
    AddBudget, AddLiquidity, ClosePosition, Invoke, OpenPosition, PositionAccounts, PositionType, RemoveLiquidity,
    Swap, WithdrawBudget, position_side, spec_position_side,
};
use crate::ledger::{payout, withdrawal_amount};
use crate::pubkey::Pubkey;

verus! {

/// The market vault balance above which a poke opens a new position.
pub const OPEN_POSITION_THRESHOLD: u64 = 5000000;

/// The vault's state.
#[derive(Clone, Copy, Debug)]
pub struct VovoData {
    pub authority: Pubkey,
    pub nonce: u8,
    pub token_mint: Pubkey,
    pub token_pool_usdc: Pubkey,
    pub token_pool_usdt: Pubkey,
    pub token_pool_wust: Pubkey,
    pub withdraw_fee: u64,
    pub performance_fee: u64,
    pub leverage: u64,
    pub total_trade_profit: u64,
    pub mer_reward_token: Pubkey,
    pub usdc_reward_token: Pubkey,
    pub mercurial_lp_token: Pubkey,
    pub bonfida_user_account: Pubkey,
}

/// A depositor's record.
#[derive(Clone, Copy, Debug)]
pub struct UserInfo {
    pub owner: Pubkey,
    pub deposit_balance: u64,
    pub bump: u8,
}

/// Accounts for creating the vault's state.
#[derive(Clone, Copy, Debug)]
pub struct InitializeVovoData {
    /// Must have signed the transaction.
    pub authority: SignerAccount,
    pub token_mint: Pubkey,
    pub token_pool_usdc_account: Pubkey,
    pub token_pool_usdt_account: Pubkey,
    pub token_pool_wust_account: Pubkey,
    pub bonfida_program_id: Pubkey,
    pub bonfida_user_account: Pubkey,
}

/// Accounts for a deposit.
#[derive(Clone, Copy, Debug)]
pub struct Deposit {
    pub user_info: UserInfo,
    pub from: Pubkey,
    pub token_pool_usdc_account: TokenAccount,
    /// Must have signed the transaction.
    pub owner: SignerAccount,
    /// The SPL token program.
    pub token_program: Pubkey,
}

/// Accounts for creating a depositor's record, at the address derived from
/// the owner's key.
#[derive(Clone, Copy, Debug)]
pub struct CreateUser {
    pub user_info: UserInfo,
    /// The record's address.
    pub user_info_key: Pubkey,
    pub owner: Pubkey,
    pub rent: Pubkey,
    pub system_program: Pubkey,
}

/// Accounts for a withdrawal.
#[derive(Clone, Copy, Debug)]
pub struct Withdraw {
    /// The SPL token program.
    pub token_program: Pubkey,
    pub vovo_data: VovoData,
    pub user_info: UserInfo,
    pub to: Pubkey,
    pub pool_authority: Pubkey,
    pub mercurial_program: Pubkey,
    pub mercurial_swap_account: Pubkey,
    pub mercurial_token_program_id: Pubkey,
    pub mercurial_pool_authority: Pubkey,
    pub mercurial_transfer_authority: Pubkey,
    pub mercurial_swap_token_usdc: Pubkey,
    pub mercurial_swap_token_usdt: Pubkey,
    pub mercurial_swap_token_wust: Pubkey,
    pub mercurial_pool_token_mint: Pubkey,
    pub token_pool_usdc: TokenAccount,
    pub token_pool_usdt: Pubkey,
    pub token_pool_wust: Pubkey,
    pub mercurial_lp_token: Pubkey,
}

/// Accounts for putting the USDC pool into the Mercurial pool.
#[derive(Clone, Copy, Debug)]
pub struct Earn {
    /// The SPL token program.
    pub token_program: Pubkey,
    pub vovo_data: VovoData,
    pub mercurial_program: Pubkey,
    pub mercurial_swap_account: Pubkey,
    pub mercurial_token_program_id: Pubkey,
    pub mercurial_pool_authority: Pubkey,
    pub mercurial_transfer_authority: Pubkey,
    pub mercurial_swap_token_usdc: Pubkey,
    pub mercurial_swap_token_usdt: Pubkey,
    pub mercurial_swap_token_wust: Pubkey,
    pub mercurial_pool_token_mint: Pubkey,
    pub token_pool_usdc: TokenAccount,
    pub token_pool_usdt: Pubkey,
    pub token_pool_wust: Pubkey,
    pub mercurial_lp_token: Pubkey,
}

/// Accounts for withdrawing from the Mercurial pool.
#[derive(Clone, Copy, Debug)]
pub struct MercurialWithdraw {
    /// The SPL token program.
    pub token_program: Pubkey,
    pub vovo_data: VovoData,
}

/// Accounts for re-balancing the position on the Audaces market.
#[derive(Clone, Copy, Debug)]
pub struct Poke {
    /// The SPL token program.
    pub token_program: Pubkey,
    pub vovo_data: VovoData,
    pub raydium_program_id: Pubkey,
    pub raydium_amm_id: Pubkey,
    pub raydium_amm_authority: Pubkey,
    pub raydium_amm_open_orders: Pubkey,
    pub raydium_amm_target_orders: Pubkey,
    pub raydium_pool_coin_token_account: Pubkey,
    pub raydium_pool_pc_token_account: Pubkey,
    pub raydium_serum_program_id: Pubkey,
    pub raydium_serum_market: Pubkey,
    pub raydium_serum_bids: Pubkey,
    pub raydium_serum_asks: Pubkey,
    pub raydium_serum_event_queue: Pubkey,
    pub raydium_serum_coin_vault_account: Pubkey,
    pub raydium_serum_pc_vault_account: Pubkey,
    pub raydium_serum_vault_signer: Pubkey,
    pub user_source_token_account: TokenAccount,
    pub user_destination_token_account: TokenAccount,
    pub user_source_owner: Pubkey,
    pub audaces_protocol_program_id: Pubkey,
    pub market_account: Pubkey,
    pub market_signer_account: Pubkey,
    pub market_vault: TokenAccount,
    pub target_account: Pubkey,
    pub open_positions_owner_account: Pubkey,
    pub oracle_account: Pubkey,
    pub instance_account: Pubkey,
    pub user_account: Pubkey,
    pub user_account_owner: Pubkey,
    pub bonfida_bnb: Pubkey,
    pub memory_page: Pubkey,
    pub source_owner: Pubkey,
    pub source_token_account: Pubkey,
    pub open_positions_account: Pubkey,
    pub clock_sysvar: Pubkey,
    pub trade_label: Pubkey,
}

/// Accounts for creating a depositor's record.
#[derive(Clone, Copy, Debug)]
pub struct InitializeUserInfo {
    pub owner: Pubkey,
}

/// The two calls of a withdrawal: take the liquidity out of the Mercurial
/// pool, then pay the depositor from the USDC pool.
#[derive(Clone, Debug)]
pub struct WithdrawPlan {
    pub remove_liquidity: Invoke<RemoveLiquidity>,
    pub transfer: Transfer,
}

/// The steps of a poke that the caller carries out: its outside calls, and
/// the program's check whether a position is open.
#[derive(Clone, Copy, Debug, PartialEq, Eq, Structural)]
pub enum PokeStep {
    Swap,
    CheckPosition,
    ClosePosition,
    WithdrawBudget,
    AddBudget,
    OpenPosition,
}

/// What a poke asks its caller for next: a call to make, the position check
/// to run, or the end of the poke with its result.
#[derive(Debug)]
pub enum PokeAction {
    Swap(Invoke<Swap>),
    CheckPosition { user_account: Pubkey, position_index: u16 },
    ClosePosition(Invoke<ClosePosition>),
    WithdrawBudget(Invoke<WithdrawBudget>),
    AddBudget(Invoke<AddBudget>),
    OpenPosition(Invoke<OpenPosition>),
    Finish(Result<(), AnchorError>),
}

/// The accounts handed to the Mercurial pool when liquidity moves: the swap
/// and its authorities, the pool's three coin accounts, its LP mint, the
/// vault's three coin pools and its LP token account.
pub open spec fn mercurial_pool_accounts(
    swap_account: Pubkey,
    token_program_id: Pubkey,
    pool_authority: Pubkey,
    transfer_authority: Pubkey,
    swap_tokens: Seq<Pubkey>,
    pool_token_mint: Pubkey,
    vault_pools: Seq<Pubkey>,
    lp_token: Pubkey,
) -> Seq<Pubkey> {
    seq![swap_account, token_program_id, pool_authority, transfer_authority] + swap_tokens + seq![
        pool_token_mint,
    ] + vault_pools + seq![lp_token]
}

impl Withdraw {
    /// The token program and the Mercurial token program are the SPL token
    /// program, as the accounts' constraints require.
    pub open spec fn token_programs_checked(self) -> bool {
        self.token_program@ == spl_token_id() && self.mercurial_token_program_id@ == spl_token_id()
    }

    /// The pool's three coin accounts.
    pub open spec fn swap_tokens(self) -> Seq<Pubkey> {
        seq![self.mercurial_swap_token_usdc, self.mercurial_swap_token_usdt, self.mercurial_swap_token_wust]
    }

    /// The vault's three coin pools.
    pub open spec fn vault_pools(self) -> Seq<Pubkey> {
        seq![self.token_pool_usdc.key, self.token_pool_usdt, self.token_pool_wust]
    }
}

impl Earn {
    /// The token program and the Mercurial token program are the SPL token
    /// program, as the accounts' constraints require.
    pub open spec fn token_programs_checked(self) -> bool {
        self.token_program@ == spl_token_id() && self.mercurial_token_program_id@ == spl_token_id()
    }

    /// The pool's three coin accounts.
    pub open spec fn swap_tokens(self) -> Seq<Pubkey> {
        seq![self.mercurial_swap_token_usdc, self.mercurial_swap_token_usdt, self.mercurial_swap_token_wust]
    }

    /// The vault's three coin pools.
    pub open spec fn vault_pools(self) -> Seq<Pubkey> {
        seq![self.token_pool_usdc.key, self.token_pool_usdt, self.token_pool_wust]
    }
}

/// `p` carries out a withdrawal of `paid` with the accounts `a` of program
/// `program_id`: the liquidity removal from the Mercurial pool into the
/// vault's three coin pools, then the payment from the USDC pool.
pub open spec fn withdraw_plan_made(a: Withdraw, program_id: Pubkey, paid: u64, p: WithdrawPlan) -> bool {
    let i = p.remove_liquidity.instruction;
    &&& i.program_id == a.mercurial_program
    &&& i.swap_account == a.mercurial_swap_account
    &&& i.token_program_id == a.mercurial_token_program_id
    &&& i.pool_authority == a.mercurial_pool_authority
    &&& i.transfer_authority == a.mercurial_transfer_authority
    &&& i.swap_token_accounts@ == a.swap_tokens()
    &&& i.pool_token_mint == a.mercurial_pool_token_mint
    &&& i.dest_token_accounts@ == a.vault_pools()
    &&& i.lp_token_account == a.mercurial_lp_token
    &&& i.unmint_amount == paid
    &&& i.minimum_amounts@ == seq![0u64]
    &&& p.remove_liquidity.accounts@ == mercurial_pool_accounts(
        a.mercurial_swap_account,
        a.mercurial_token_program_id,
        a.mercurial_pool_authority,
        a.mercurial_transfer_authority,
        a.swap_tokens(),
        a.mercurial_pool_token_mint,
        a.vault_pools(),
        a.mercurial_lp_token,
    )
    &&& p.remove_liquidity.signer_seeds.deep_view() == key_nonce_seeds(
        program_id,
        a.vovo_data.nonce,
    )
    &&& p.transfer.from == a.token_pool_usdc.key
    &&& p.transfer.to == a.to
    &&& p.transfer.authority == a.pool_authority
    &&& p.transfer.amount == paid
    &&& p.transfer.signer_seeds.deep_view() == key_nonce_seeds(
        a.vovo_data.token_mint,
        a.vovo_data.nonce,
    )
}

/// A withdrawal takes the liquidity out coin by coin into the matching
/// pool: the Mercurial pool's USDC, USDT and WUST accounts, in that order,
/// paired with the vault's USDC, USDT and WUST pools, both in the instruction
/// and in the accounts handed over; it unmints what it pays, and pays it from
/// the USDC pool.
pub proof fn lemma_withdraw_pairs_each_coin(a: Withdraw, program_id: Pubkey, paid: u64, p: WithdrawPlan)
    requires
        withdraw_plan_made(a, program_id, paid, p),
    ensures
        p.remove_liquidity.instruction.swap_token_accounts@ == seq![
            a.mercurial_swap_token_usdc,
            a.mercurial_swap_token_usdt,
            a.mercurial_swap_token_wust,
        ],
        p.remove_liquidity.instruction.dest_token_accounts@ == seq![
            a.token_pool_usdc.key,
            a.token_pool_usdt,
            a.token_pool_wust,
        ],
        p.remove_liquidity.accounts@ == seq![
            a.mercurial_swap_account,
            a.mercurial_token_program_id,
            a.mercurial_pool_authority,
            a.mercurial_transfer_authority,
            a.mercurial_swap_token_usdc,
            a.mercurial_swap_token_usdt,
            a.mercurial_swap_token_wust,
            a.mercurial_pool_token_mint,
            a.token_pool_usdc.key,
            a.token_pool_usdt,
            a.token_pool_wust,
            a.mercurial_lp_token,
        ],
        p.remove_liquidity.instruction.unmint_amount == paid,
        p.transfer.from == a.token_pool_usdc.key,
        p.transfer.amount == paid,
{
    assert(p.remove_liquidity.accounts@ =~= seq![
        a.mercurial_swap_account,
        a.mercurial_token_program_id,
        a.mercurial_pool_authority,
        a.mercurial_transfer_authority,
        a.mercurial_swap_token_usdc,
        a.mercurial_swap_token_usdt,
        a.mercurial_swap_token_wust,
        a.mercurial_pool_token_mint,
        a.token_pool_usdc.key,
        a.token_pool_usdt,
        a.token_pool_wust,
        a.mercurial_lp_token,
    ]);
}

/// `c` puts the whole USDC pool of the accounts `a` of program `program_id`
/// into the Mercurial pool, asking for at least `min_mint_amount` LP tokens.
pub open spec fn earn_call_made(a: Earn, program_id: Pubkey, min_mint_amount: u64, c: Invoke<AddLiquidity>) -> bool {
    let i = c.instruction;
    &&& i.program_id == a.mercurial_program
    &&& i.swap_account == a.mercurial_swap_account
    &&& i.token_program_id == a.mercurial_token_program_id
    &&& i.pool_authority == a.mercurial_pool_authority
    &&& i.transfer_authority == a.mercurial_transfer_authority
    &&& i.swap_token_accounts@ == a.swap_tokens()
    &&& i.pool_token_mint == a.mercurial_pool_token_mint
    &&& i.source_token_accounts@ == a.vault_pools()
    &&& i.lp_token_account == a.mercurial_lp_token
    &&& i.deposit_amounts@ == seq![a.token_pool_usdc.amount, 0u64, 0u64]
    &&& i.min_mint_amount == min_mint_amount
    &&& c.accounts@ == mercurial_pool_accounts(
    a.mercurial_swap_account,
    a.mercurial_token_program_id,
    a.mercurial_pool_authority,
    a.mercurial_transfer_authority,
    a.swap_tokens(),
    a.mercurial_pool_token_mint,
    a.vault_pools(),
    a.mercurial_lp_token,
    )
    &&& c.signer_seeds.deep_view() == key_nonce_seeds(program_id, a.vovo_data.nonce)
}

/// Earning deposits coin by coin from the matching pool: the vault's USDC,
/// USDT and WUST pools, in that order, paired with the Mercurial pool's USDC,
/// USDT and WUST accounts, both in the instruction and in the accounts handed
/// over; the whole USDC pool balance is deposited, drawn from the USDC pool,
/// and nothing of the other two.
pub proof fn lemma_earn_pairs_each_coin(a: Earn, program_id: Pubkey, min_mint_amount: u64, c: Invoke<AddLiquidity>)
    requires
        earn_call_made(a, program_id, min_mint_amount, c),
    ensures
        c.instruction.source_token_accounts@ == seq![a.token_pool_usdc.key, a.token_pool_usdt, a.token_pool_wust],
        c.instruction.swap_token_accounts@ == seq![
            a.mercurial_swap_token_usdc,
            a.mercurial_swap_token_usdt,
            a.mercurial_swap_token_wust,
        ],
        c.instruction.source_token_accounts@[0] == a.token_pool_usdc.key,
        c.instruction.deposit_amounts@ == seq![a.token_pool_usdc.amount, 0u64, 0u64],
        c.accounts@ == seq![
            a.mercurial_swap_account,
            a.mercurial_token_program_id,
            a.mercurial_pool_authority,
            a.mercurial_transfer_authority,
            a.mercurial_swap_token_usdc,
            a.mercurial_swap_token_usdt,
            a.mercurial_swap_token_wust,
            a.mercurial_pool_token_mint,
            a.token_pool_usdc.key,
            a.token_pool_usdt,
            a.token_pool_wust,
            a.mercurial_lp_token,
        ],
        c.instruction.min_mint_amount == min_mint_amount,
{
    assert(c.accounts@ =~= seq![
        a.mercurial_swap_account,
        a.mercurial_token_program_id,
        a.mercurial_pool_authority,
        a.mercurial_transfer_authority,
        a.mercurial_swap_token_usdc,
        a.mercurial_swap_token_usdt,
        a.mercurial_swap_token_wust,
        a.mercurial_pool_token_mint,
        a.token_pool_usdc.key,
        a.token_pool_usdt,
        a.token_pool_wust,
        a.mercurial_lp_token,
    ]);
}

impl VovoData {
    /// The vault's state as created, provided the authority signed: keys
    /// from the accounts, the rest from
    /// the arguments; the LP token account starts as the authority's key.
    ///
    /// The accounts are taken as the framework loaded them: those the
    /// instruction marks writable are writable, and each one is owned by the
    /// program its type names and holds that type. Only the checks stated here
    /// are made.
    pub fn new(
        ctx: Context<InitializeVovoData>,
        nonce: u8,
        withdraw_fee: u64,
        performance_fee: u64,
        leverage: u64,
        total_trade_profit: u64,
        mer_reward_token: Pubkey,
        usdc_reward_token: Pubkey,
    ) -> (r: Result<VovoData, AnchorError>)
        ensures
            !ctx.accounts.authority.is_signer ==> r == Err::<VovoData, AnchorError>(AnchorError::ConstraintSigner),
            ctx.accounts.authority.is_signer ==> r == Ok::<VovoData, AnchorError>(
                VovoData {
                    authority: ctx.accounts.authority.key,
                    nonce,
                    token_mint: ctx.accounts.token_mint,
                    token_pool_usdc: ctx.accounts.token_pool_usdc_account,
                    token_pool_usdt: ctx.accounts.token_pool_usdt_account,
                    token_pool_wust: ctx.accounts.token_pool_wust_account,
                    withdraw_fee,
                    performance_fee,
                    leverage,
                    total_trade_profit,
                    mer_reward_token,
                    usdc_reward_token,
                    mercurial_lp_token: ctx.accounts.authority.key,
                    bonfida_user_account: ctx.accounts.bonfida_user_account,
                },
            ),
    {
        check_signer(&ctx.accounts.authority)?;
        Ok(VovoData {
            authority: ctx.accounts.authority.key,
            token_mint: ctx.accounts.token_mint,
            token_pool_usdc: ctx.accounts.token_pool_usdc_account,
            token_pool_usdt: ctx.accounts.token_pool_usdt_account,
            token_pool_wust: ctx.accounts.token_pool_wust_account,
            nonce,
            withdraw_fee,
            performance_fee,
            leverage,
            total_trade_profit,
            mer_reward_token,
            usdc_reward_token,
            bonfida_user_account: ctx.accounts.bonfida_user_account,
            mercurial_lp_token: ctx.accounts.authority.key,
        })
    }

    /// Deposits `amount`, once the owner is checked to have signed and the
    /// token program to be the SPL token program: it moves from the
    /// depositor's account to the USDC
    /// pool on the owner's authority, and the depositor's balance grows by it.
    ///
    /// The accounts are taken as the framework loaded them: those the
    /// instruction marks writable are writable, and each one is owned by the
    /// program its type names and holds that type. Only the checks stated here
    /// are made.
    ///
    /// The calls and transfers returned are still to be made; if one of them
    /// fails, the instruction must fail, so that the runtime undoes what this
    /// handler changed.
    pub fn deposit(&mut self, ctx: &mut Context<Deposit>, amount: u64) -> (r: Result<Transfer, AnchorError>)
        requires
            old(ctx).accounts.owner.is_signer && old(ctx).accounts.token_program@ == spl_token_id()
                ==> old(ctx).accounts.user_info.deposit_balance + amount <= u64::MAX,
        ensures
            *final(self) == *old(self),
            !old(ctx).accounts.owner.is_signer ==> {
                &&& r == Err::<Transfer, AnchorError>(AnchorError::ConstraintSigner)
                &&& *final(ctx) == *old(ctx)
            },
            old(ctx).accounts.owner.is_signer && old(ctx).accounts.token_program@ != spl_token_id() ==> {
                &&& r == Err::<Transfer, AnchorError>(AnchorError::ConstraintRaw)
                &&& *final(ctx) == *old(ctx)
            },
            old(ctx).accounts.owner.is_signer && old(ctx).accounts.token_program@ == spl_token_id() ==> {
                &&& r matches Ok(t) && {
                    &&& t.from == old(ctx).accounts.from
                    &&& t.to == old(ctx).accounts.token_pool_usdc_account.key
                    &&& t.authority == old(ctx).accounts.owner.key
                    &&& t.amount == amount
                    &&& t.signer_seeds@.len() == 0
                }
                &&& *final(ctx) == (Context {
                    accounts: Deposit {
                        user_info: UserInfo {
                            deposit_balance: (old(ctx).accounts.user_info.deposit_balance + amount) as u64,
                            ..old(ctx).accounts.user_info
                        },
                        ..old(ctx).accounts
                    },
                    ..*old(ctx)
                })
            },
    {
        check_signer(&ctx.accounts.owner)?;
        check_token_program(&ctx.accounts.token_program)?;
        // transfer from user to pool
        let t = Transfer {
            from: ctx.accounts.from,
            to: ctx.accounts.token_pool_usdc_account.key,
            authority: ctx.accounts.owner.key,
            amount,
            signer_seeds: Vec::new(),
        };
        ctx.accounts.user_info.deposit_balance = ctx.accounts.user_info.deposit_balance + amount;
        Ok(t)
    }

    /// Withdraws up to `amount`, once the token program and the Mercurial
    /// token program are checked to be the SPL token program: refused when
    /// the depositor's balance is empty. Otherwise, with `paid` the smaller of `amount` and the balance,
    /// `paid` LP tokens are taken out of the Mercurial pool into the vault's
    /// three coin pools (with no minimum), the program signing with its id and
    /// the vault's nonce; then `paid` moves from the USDC pool to the
    /// recipient, the pool signing with the vault's mint and nonce; and the
    /// balance shrinks by `paid`.
    ///
    /// The accounts are taken as the framework loaded them: those the
    /// instruction marks writable are writable, and each one is owned by the
    /// program its type names and holds that type. Only the checks stated here
    /// are made.
    ///
    /// The calls and transfers returned are still to be made; if one of them
    /// fails, the instruction must fail, so that the runtime undoes what this
    /// handler changed.
    pub fn withdraw(&mut self, ctx: &mut Context<Withdraw>, amount: u64) -> (r: Result<WithdrawPlan, AnchorError>)
        ensures
            *final(self) == *old(self),
            !old(ctx).accounts.token_programs_checked() ==> {
                &&& r matches Err(e) && e == AnchorError::ConstraintRaw
                &&& *final(ctx) == *old(ctx)
            },
            old(ctx).accounts.token_programs_checked() && old(ctx).accounts.user_info.deposit_balance == 0 ==> {
                &&& r matches Err(e) && e == AnchorError::Vault(ErrorCode::NoDepositedBalance)
                &&& *final(ctx) == *old(ctx)
            },
            old(ctx).accounts.token_programs_checked() && old(ctx).accounts.user_info.deposit_balance > 0 ==> {
                let a = old(ctx).accounts;
                let paid = payout(a.user_info.deposit_balance, amount);
                &&& r matches Ok(p) && withdraw_plan_made(a, old(ctx).program_id, paid, p)
                &&& *final(ctx) == (Context {
                    accounts: Withdraw {
                        user_info: UserInfo { deposit_balance: (a.user_info.deposit_balance - paid) as u64, ..a.user_info },
                        ..a
                    },
                    ..*old(ctx)
                })
            },
    {
        check_token_program(&ctx.accounts.token_program)?;
        check_token_program(&ctx.accounts.mercurial_token_program_id)?;
        let paid = match withdrawal_amount(ctx.accounts.user_info.deposit_balance, amount) {
            Some(p) => p,
            None => return Err(AnchorError::Vault(ErrorCode::NoDepositedBalance)),
        };
        let a = ctx.accounts;
        let swap_tokens = vec![a.mercurial_swap_token_usdc, a.mercurial_swap_token_usdt, a.mercurial_swap_token_wust];
        let vault_pools = vec![a.token_pool_usdc.key, a.token_pool_usdt, a.token_pool_wust];
        let minimum_amounts: Vec<u64> = vec![0];
        assert(minimum_amounts@ =~= seq![0u64]);
        // withdraw from Mercurial
        let instruction = RemoveLiquidity {
            program_id: a.mercurial_program,
            swap_account: a.mercurial_swap_account,
            token_program_id: a.mercurial_token_program_id,
            pool_authority: a.mercurial_pool_authority,
            transfer_authority: a.mercurial_transfer_authority,
            swap_token_accounts: swap_tokens,
            pool_token_mint: a.mercurial_pool_token_mint,
            dest_token_accounts: vault_pools,
            lp_token_account: a.mercurial_lp_token,
            unmint_amount: paid,
            minimum_amounts,
        };
        let accounts = vec![
            a.mercurial_swap_account,
            a.mercurial_token_program_id,
            a.mercurial_pool_authority,
            a.mercurial_transfer_authority,
            a.mercurial_swap_token_usdc,
            a.mercurial_swap_token_usdt,
            a.mercurial_swap_token_wust,
            a.mercurial_pool_token_mint,
            a.token_pool_usdc.key,
            a.token_pool_usdt,
            a.token_pool_wust,
            a.mercurial_lp_token,
        ];
        assert(accounts@ =~= mercurial_pool_accounts(
            a.mercurial_swap_account,
            a.mercurial_token_program_id,
            a.mercurial_pool_authority,
            a.mercurial_transfer_authority,
            a.swap_tokens(),
            a.mercurial_pool_token_mint,
            a.vault_pools(),
            a.mercurial_lp_token,
        ));
        let remove_liquidity = Invoke {
            instruction,
            accounts,
            signer_seeds: signer_seeds(&ctx.program_id, a.vovo_data.nonce),
        };
        // transfer from pool to user
        let transfer = Transfer {
            from: a.token_pool_usdc.key,
            to: a.to,
            authority: a.pool_authority,
            amount: paid,
            signer_seeds: signer_seeds(&a.vovo_data.token_mint, a.vovo_data.nonce),
        };
        let plan = WithdrawPlan { remove_liquidity, transfer };
        assert(withdraw_plan_made(a, ctx.program_id, paid, plan));
        ctx.accounts.user_info.deposit_balance = ctx.accounts.user_info.deposit_balance - paid;
        Ok(plan)
    }

    /// Once the token program and the Mercurial token program are checked to
    /// be the SPL token program, puts the whole USDC pool into the Mercurial
    /// pool (nothing of the other
    /// two coins), asking for at least `min_mint_amount` LP tokens, the
    /// program signing with its id and the vault's nonce; then records the LP
    /// token account in the vault's state account.
    ///
    /// The accounts are taken as the framework loaded them: those the
    /// instruction marks writable are writable, and each one is owned by the
    /// program its type names and holds that type. Only the checks stated here
    /// are made.
    ///
    /// The calls and transfers returned are still to be made; if one of them
    /// fails, the instruction must fail, so that the runtime undoes what this
    /// handler changed.
    pub fn earn(&mut self, ctx: &mut Context<Earn>, min_mint_amount: u64) -> (r: Result<Invoke<AddLiquidity>, AnchorError>)
        ensures
            *final(self) == *old(self),
            !old(ctx).accounts.token_programs_checked() ==> {
                &&& r matches Err(e) && e == AnchorError::ConstraintRaw
                &&& *final(ctx) == *old(ctx)
            },
            old(ctx).accounts.token_programs_checked() ==> (r matches Ok(c) && earn_call_made(
                old(ctx).accounts,
                old(ctx).program_id,
                min_mint_amount,
                c,
            )),
            old(ctx).accounts.token_programs_checked() ==> *final(ctx) == (Context {
                accounts: Earn {
                    vovo_data: VovoData {
                        mercurial_lp_token: old(ctx).accounts.mercurial_lp_token,
                        ..old(ctx).accounts.vovo_data
                    },
                    ..old(ctx).accounts
                },
                ..*old(ctx)
            }),
    {
        check_token_program(&ctx.accounts.token_program)?;
        check_token_program(&ctx.accounts.mercurial_token_program_id)?;
        let a = ctx.accounts;
        let swap_tokens = vec![a.mercurial_swap_token_usdc, a.mercurial_swap_token_usdt, a.mercurial_swap_token_wust];
        let vault_pools = vec![a.token_pool_usdc.key, a.token_pool_usdt, a.token_pool_wust];
        let deposit_amounts: Vec<u64> = vec![a.token_pool_usdc.amount, 0, 0];
        assert(deposit_amounts@ =~= seq![a.token_pool_usdc.amount, 0u64, 0u64]);
        let instruction = AddLiquidity {
            program_id: a.mercurial_program,
            swap_account: a.mercurial_swap_account,
            token_program_id: a.mercurial_token_program_id,
            pool_authority: a.mercurial_pool_authority,
            transfer_authority: a.mercurial_transfer_authority,
            swap_token_accounts: swap_tokens,
            pool_token_mint: a.mercurial_pool_token_mint,
            source_token_accounts: vault_pools,
            lp_token_account: a.mercurial_lp_token,
            deposit_amounts,
            min_mint_amount,
        };
        let accounts = vec![
            a.mercurial_swap_account,
            a.mercurial_token_program_id,
            a.mercurial_pool_authority,
            a.mercurial_transfer_authority,
            a.mercurial_swap_token_usdc,
            a.mercurial_swap_token_usdt,
            a.mercurial_swap_token_wust,
            a.mercurial_pool_token_mint,
            a.token_pool_usdc.key,
            a.token_pool_usdt,
            a.token_pool_wust,
            a.mercurial_lp_token,
        ];
        assert(accounts@ =~= mercurial_pool_accounts(
            a.mercurial_swap_account,
            a.mercurial_token_program_id,
            a.mercurial_pool_authority,
            a.mercurial_transfer_authority,
            a.swap_tokens(),
            a.mercurial_pool_token_mint,
            a.vault_pools(),
            a.mercurial_lp_token,
        ));
        let c = Invoke { instruction, accounts, signer_seeds: signer_seeds(&ctx.program_id, a.vovo_data.nonce) };
        ctx.accounts.vovo_data.mercurial_lp_token = ctx.accounts.mercurial_lp_token;
        Ok(c)
    }

    /// One step of re-balancing the Audaces position. A poke is run as a
    /// sequence of steps: the caller starts with `last` set to `None`, then
    /// carries out each action returned (an outside call, or the program's
    /// position check for the user account and `position_index`) and hands
    /// back which step it was as `last`, with its outcome: the check's answer
    /// (whether the position is open) or any `Ok` for a call, or the error it
    /// failed with. The first error ends the poke with that error, and no
    /// further call is asked for.
    ///
    /// The steps, with the balances the accounts held when the instruction
    /// started: the token program must be the SPL token program; swap the
    /// whole source token balance on Raydium (with no minimum out); check the
    /// position; close position `position_index` when it is open; withdraw the
    /// whole market vault balance from the budget when it is not zero; add the
    /// whole destination token balance to the budget when it is not zero; and
    /// open a new position on the side `side` stands for (0 short, otherwise
    /// long) when the market vault balance is above `OPEN_POSITION_THRESHOLD`.
    /// Every call is signed with the program id and the vault's nonce.
    ///
    /// The accounts are taken as the framework loaded them: those the
    /// instruction marks writable are writable, and each one is owned by the
    /// program its type names and holds that type. Only the checks stated here
    /// are made.
    ///
    /// The calls and transfers returned are still to be made; if one of them
    /// fails, the instruction must fail, so that the runtime undoes what this
    /// handler changed.
    pub fn bonfida_poke(
        &mut self,
        ctx: Context<Poke>,
        closing_collateral: u64,
        closing_v_coin: u64,
        position_index: u16,
        predicted_entry_price: u64,
        maximum_slippage_margin: u64,
        side: u8,
        instance_index: u8,
        collateral: u64,
        leverage: u64,
        last: Option<PokeStep>,
        outcome: Result<bool, AnchorError>,
    ) -> (r: PokeAction)
        ensures
            *final(self) == *old(self),
            ({
                let a = ctx.accounts;
                let seeds = key_nonce_seeds(ctx.program_id, a.vovo_data.nonce);
                match poke_next(a, last, outcome) {
                    Err(e) => r == PokeAction::Finish(Err(e)),
                    Ok(None) => r == PokeAction::Finish(Ok(())),
                    Ok(Some(PokeStep::Swap)) => r matches PokeAction::Swap(c) && swap_call(a, seeds, c),
                    Ok(Some(PokeStep::CheckPosition)) => r == (PokeAction::CheckPosition {
                        user_account: a.user_account,
                        position_index,
                    }),
                    Ok(Some(PokeStep::ClosePosition)) => r matches PokeAction::ClosePosition(c) && close_call(
                        a,
                        seeds,
                        closing_collateral,
                        closing_v_coin,
                        position_index,
                        predicted_entry_price,
                        maximum_slippage_margin,
                        c,
                    ),
                    Ok(Some(PokeStep::WithdrawBudget)) => r matches PokeAction::WithdrawBudget(c)
                        && withdraw_budget_call(a, seeds, c),
                    Ok(Some(PokeStep::AddBudget)) => r matches PokeAction::AddBudget(c) && add_budget_call(a, seeds, c),
                    Ok(Some(PokeStep::OpenPosition)) => r matches PokeAction::OpenPosition(c) && open_call(
                        a,
                        seeds,
                        side,
                        instance_index,
                        collateral,
                        leverage,
                        predicted_entry_price,
                        maximum_slippage_margin,
                        c,
                    ),
                }
            }),
    {
        let a = ctx.accounts;
        let next: Option<PokeStep> = match last {
            None => {
                if let Err(e) = check_token_program(&a.token_program) {
                    return PokeAction::Finish(Err(e));
                }
                Some(PokeStep::Swap)
            },
            Some(step) => {
                let position_open = match outcome {
                    Err(e) => {
                        return PokeAction::Finish(Err(e));
                    },
                    Ok(b) => b,
                };
                match step {
                    PokeStep::Swap => Some(PokeStep::CheckPosition),
                    PokeStep::CheckPosition => {
                        if position_open {
                            Some(PokeStep::ClosePosition)
                        } else {
                            step_after_close(&a)
                        }
                    },
                    PokeStep::ClosePosition => step_after_close(&a),
                    PokeStep::WithdrawBudget => step_after_withdraw(&a),
                    PokeStep::AddBudget => step_after_add(&a),
                    PokeStep::OpenPosition => None,
                }
            },
        };
        match next {
            None => PokeAction::Finish(Ok(())),
            Some(PokeStep::Swap) => PokeAction::Swap(swap_invoke(&a, &ctx.program_id)),
            Some(PokeStep::CheckPosition) => PokeAction::CheckPosition { user_account: a.user_account, position_index },
            Some(PokeStep::ClosePosition) => PokeAction::ClosePosition(
                close_invoke(
                    &a,
                    &ctx.program_id,
                    closing_collateral,
                    closing_v_coin,
                    position_index,
                    predicted_entry_price,
                    maximum_slippage_margin,
                ),
            ),
            Some(PokeStep::WithdrawBudget) => PokeAction::WithdrawBudget(withdraw_budget_invoke(&a, &ctx.program_id)),
            Some(PokeStep::AddBudget) => PokeAction::AddBudget(add_budget_invoke(&a, &ctx.program_id)),
            Some(PokeStep::OpenPosition) => PokeAction::OpenPosition(
                open_invoke(
                    &a,
                    &ctx.program_id,
                    side,
                    instance_index,
                    collateral,
                    leverage,
                    predicted_entry_price,
                    maximum_slippage_margin,
                ),
            ),
        }
    }
}

/// The poke's step after the position is dealt with: the budget withdrawal
/// when the market vault holds tokens, else what follows it.
pub open spec fn after_close(a: Poke) -> Option<PokeStep> {
    if a.market_vault.amount > 0 {
        Some(PokeStep::WithdrawBudget)
    } else {
        after_withdraw(a)
    }
}

/// The poke's step after the budget withdrawal: adding to the budget when
/// the destination token account holds tokens, else what follows it.
pub open spec fn after_withdraw(a: Poke) -> Option<PokeStep> {
    if a.user_destination_token_account.amount > 0 {
        Some(PokeStep::AddBudget)
    } else {
        after_add(a)
    }
}

/// The poke's step after adding to the budget: opening a position when the
/// market vault balance is above the threshold, else the end.
pub open spec fn after_add(a: Poke) -> Option<PokeStep> {
    if a.market_vault.amount > OPEN_POSITION_THRESHOLD {
        Some(PokeStep::OpenPosition)
    } else {
        None
    }
}

/// What a poke does next, given the step it last asked for (`None` at its
/// start) and that step's outcome: `Err` to end with that error, `Ok(None)`
/// to end with success, `Ok(Some(s))` to ask for step `s`.
pub open spec fn poke_next(a: Poke, last: Option<PokeStep>, outcome: Result<bool, AnchorError>) -> Result<
    Option<PokeStep>,
    AnchorError,
> {
    match last {
        None => if a.token_program@ == spl_token_id() {
            Ok(Some(PokeStep::Swap))
        } else {
            Err(AnchorError::ConstraintRaw)
        },
        Some(step) => match outcome {
            Err(e) => Err(e),
            Ok(position_open) => match step {
                PokeStep::Swap => Ok(Some(PokeStep::CheckPosition)),
                PokeStep::CheckPosition => if position_open {
                    Ok(Some(PokeStep::ClosePosition))
                } else {
                    Ok(after_close(a))
                },
                PokeStep::ClosePosition => Ok(after_close(a)),
                PokeStep::WithdrawBudget => Ok(after_withdraw(a)),
                PokeStep::AddBudget => Ok(after_add(a)),
                PokeStep::OpenPosition => Ok(None),
            },
        },
    }
}

/// The steps a poke asks for, in order, when every call succeeds and the
/// position check answers `position_open`.
pub open spec fn poke_steps(a: Poke, position_open: bool) -> Seq<PokeStep> {
    seq![PokeStep::Swap, PokeStep::CheckPosition] + (if position_open {
        seq![PokeStep::ClosePosition]
    } else {
        Seq::empty()
    }) + (if a.market_vault.amount > 0 {
        seq![PokeStep::WithdrawBudget]
    } else {
        Seq::empty()
    }) + (if a.user_destination_token_account.amount > 0 {
        seq![PokeStep::AddBudget]
    } else {
        Seq::empty()
    }) + (if a.market_vault.amount > OPEN_POSITION_THRESHOLD {
        seq![PokeStep::OpenPosition]
    } else {
        Seq::empty()
    })
}

/// A poke whose accounts pass the token program constraint, whose calls all
/// succeed and whose position check answers `position_open`, asks for
/// exactly the steps of `poke_steps`, in order, and then ends with success.
pub proof fn lemma_poke_runs_its_steps(a: Poke, position_open: bool)
    requires
        a.token_program@ == spl_token_id(),
    ensures
        ({
            let steps = poke_steps(a, position_open);
            &&& poke_next(a, None, Ok(position_open)) == Ok::<Option<PokeStep>, AnchorError>(Some(steps[0]))
            &&& forall|i: int|
                0 <= i < steps.len() - 1 ==> poke_next(a, Some(#[trigger] steps[i]), Ok(position_open)) == Ok::<
                    Option<PokeStep>,
                    AnchorError,
                >(Some(steps[i + 1]))
            &&& poke_next(a, Some(steps.last()), Ok(position_open)) == Ok::<Option<PokeStep>, AnchorError>(None)
        }),
{
}

/// A poke asks for no call when the token program is not the SPL token
/// program, ends with the error of any step that fails, and asks to open a
/// position only when the market vault balance is above the threshold.
pub proof fn lemma_poke_stops_at_errors(a: Poke, last: Option<PokeStep>, outcome: Result<bool, AnchorError>)
    ensures
        last is None && a.token_program@ != spl_token_id() ==> poke_next(a, last, outcome) == Err::<
            Option<PokeStep>,
            AnchorError,
        >(AnchorError::ConstraintRaw),
        last is Some && outcome is Err ==> poke_next(a, last, outcome) == Err::<Option<PokeStep>, AnchorError>(
            outcome->Err_0,
        ),
        poke_next(a, last, outcome) == Ok::<Option<PokeStep>, AnchorError>(Some(PokeStep::OpenPosition))
            ==> a.market_vault.amount > OPEN_POSITION_THRESHOLD,
        poke_next(a, last, outcome) == Ok::<Option<PokeStep>, AnchorError>(Some(PokeStep::ClosePosition))
            ==> last == Some(PokeStep::CheckPosition) && outcome == Ok::<bool, AnchorError>(true),
{
}

/// What a poke asks for after each step that succeeded, in terms of the
/// balances the accounts hold: the value a call hands back plays no part,
/// only the position check's answer does. At the start the outcome is not
/// read either.
pub proof fn lemma_poke_step_after_success(a: Poke, step: PokeStep, b: bool, outcome: Result<bool, AnchorError>)
    ensures
        poke_next(a, None, outcome) == (if a.token_program@ == spl_token_id() {
            Ok::<Option<PokeStep>, AnchorError>(Some(PokeStep::Swap))
        } else {
            Err::<Option<PokeStep>, AnchorError>(AnchorError::ConstraintRaw)
        }),
        step != PokeStep::CheckPosition ==> poke_next(a, Some(step), Ok(b)) == poke_next(a, Some(step), Ok(!b)),
        poke_next(a, Some(PokeStep::Swap), Ok(b)) == Ok::<Option<PokeStep>, AnchorError>(Some(PokeStep::CheckPosition)),
        poke_next(a, Some(PokeStep::CheckPosition), Ok(true)) == Ok::<Option<PokeStep>, AnchorError>(
            Some(PokeStep::ClosePosition),
        ),
        poke_next(a, Some(PokeStep::CheckPosition), Ok(false)) == poke_next(a, Some(PokeStep::ClosePosition), Ok(b)),
        poke_next(a, Some(PokeStep::ClosePosition), Ok(b)) == Ok::<Option<PokeStep>, AnchorError>(
            if a.market_vault.amount > 0 {
                Some(PokeStep::WithdrawBudget)
            } else if a.user_destination_token_account.amount > 0 {
                Some(PokeStep::AddBudget)
            } else if a.market_vault.amount > 5000000 {
                Some(PokeStep::OpenPosition)
            } else {
                None
            },
        ),
        poke_next(a, Some(PokeStep::WithdrawBudget), Ok(b)) == Ok::<Option<PokeStep>, AnchorError>(
            if a.user_destination_token_account.amount > 0 {
                Some(PokeStep::AddBudget)
            } else if a.market_vault.amount > 5000000 {
                Some(PokeStep::OpenPosition)
            } else {
                None
            },
        ),
        poke_next(a, Some(PokeStep::AddBudget), Ok(b)) == Ok::<Option<PokeStep>, AnchorError>(
            if a.market_vault.amount > 5000000 {
                Some(PokeStep::OpenPosition)
            } else {
                None
            },
        ),
        poke_next(a, Some(PokeStep::OpenPosition), Ok(b)) == Ok::<Option<PokeStep>, AnchorError>(None),
{
}

/// The first seed of a record's address is the text `vovo-user-seed`, one
/// byte per character; the others are the owner's key and the bump seed.
pub proof fn lemma_user_seed_spells_the_seed(owner: Pubkey, bump: u8)
    ensures
        user_seed().len() == "vovo-user-seed"@.len(),
        forall|i: int| 0 <= i < user_seed().len() ==> user_seed()[i] == #[trigger] "vovo-user-seed"@[i] as u8,
        user_info_seeds(owner, bump) == seq![user_seed(), owner@, seq![bump]],
{
    reveal_strlit("vovo-user-seed");
}

/// What the poke's calls move and where, in terms of the accounts: the swap
/// sells the whole source token balance from the source token account into
/// the destination token account, with no minimum out; closing acts on
/// position `position_index` of the user account with the given collateral
/// and coins; the budget withdrawal takes the whole market vault balance to
/// the target account; the budget top-up adds the whole destination token
/// balance from the source token account; a new position is short for side
/// 0 and long otherwise, with the given collateral and leverage; every call
/// is signed with the seeds it was given.
pub proof fn lemma_poke_calls_move_the_balances(
    a: Poke,
    seeds: Seq<Seq<u8>>,
    closing_collateral: u64,
    closing_v_coin: u64,
    position_index: u16,
    predicted_entry_price: u64,
    maximum_slippage_margin: u64,
    side: u8,
    instance_index: u8,
    collateral: u64,
    leverage: u64,
    swap: Invoke<Swap>,
    close: Invoke<ClosePosition>,
    withdraw: Invoke<WithdrawBudget>,
    add: Invoke<AddBudget>,
    open: Invoke<OpenPosition>,
)
    ensures
        swap_call(a, seeds, swap) ==> {
            &&& swap.instruction.amount_in == a.user_source_token_account.amount
            &&& swap.instruction.minimum_amount_out == 0
            &&& swap.instruction.user_source_token_account == a.user_source_token_account.key
            &&& swap.instruction.user_destination_token_account == a.user_destination_token_account.key
            &&& swap.instruction.program_id == a.raydium_program_id
            &&& swap.signer_seeds.deep_view() == seeds
        },
        close_call(
            a,
            seeds,
            closing_collateral,
            closing_v_coin,
            position_index,
            predicted_entry_price,
            maximum_slippage_margin,
            close,
        ) ==> {
            &&& close.instruction.position_index == position_index
            &&& close.instruction.closing_collateral == closing_collateral
            &&& close.instruction.closing_v_coin == closing_v_coin
            &&& close.instruction.accounts.user_account == a.user_account
            &&& close.instruction.accounts.market_vault == a.market_vault.key
            &&& close.instruction.accounts.program_id == a.audaces_protocol_program_id
            &&& close.signer_seeds.deep_view() == seeds
        },
        withdraw_budget_call(a, seeds, withdraw) ==> {
            &&& withdraw.instruction.amount == a.market_vault.amount
            &&& withdraw.instruction.market_vault == a.market_vault.key
            &&& withdraw.instruction.target_account == a.target_account
            &&& withdraw.signer_seeds.deep_view() == seeds
        },
        add_budget_call(a, seeds, add) ==> {
            &&& add.instruction.amount == a.user_destination_token_account.amount
            &&& add.instruction.market_vault == a.market_vault.key
            &&& add.instruction.source_token_account == a.source_token_account
            &&& add.signer_seeds.deep_view() == seeds
        },
        open_call(
            a,
            seeds,
            side,
            instance_index,
            collateral,
            leverage,
            predicted_entry_price,
            maximum_slippage_margin,
            open,
        ) ==> {
            &&& open.instruction.side == (if side == 0 {
                PositionType::Short
            } else {
                PositionType::Long
            })
            &&& open.instruction.collateral == collateral
            &&& open.instruction.leverage == leverage
            &&& open.instruction.instance_index == instance_index
            &&& open.instruction.accounts.user_account == a.user_account
            &&& open.instruction.accounts.market_vault == a.market_vault.key
            &&& open.signer_seeds.deep_view() == seeds
        },
{
}

fn step_after_close(a: &Poke) -> (s: Option<PokeStep>)
    ensures
        s == after_close(*a),
{
    if a.market_vault.amount > 0 {
        Some(PokeStep::WithdrawBudget)
    } else {
        step_after_withdraw(a)
    }
}

fn step_after_withdraw(a: &Poke) -> (s: Option<PokeStep>)
    ensures
        s == after_withdraw(*a),
{
    if a.user_destination_token_account.amount > 0 {
        Some(PokeStep::AddBudget)
    } else {
        step_after_add(a)
    }
}

fn step_after_add(a: &Poke) -> (s: Option<PokeStep>)
    ensures
        s == after_add(*a),
{
    if a.market_vault.amount > OPEN_POSITION_THRESHOLD {
        Some(PokeStep::OpenPosition)
    } else {
        None
    }
}

/// `c` swaps the whole source token balance to the destination token on the
/// poke's Raydium pool, with no minimum out, signed with `seeds`.
pub open spec fn swap_call(a: Poke, seeds: Seq<Seq<u8>>, c: Invoke<Swap>) -> bool {
    let i = c.instruction;
    &&& i.program_id == a.raydium_program_id
    &&& i.amm_id == a.raydium_amm_id
    &&& i.amm_authority == a.raydium_amm_authority
    &&& i.amm_open_orders == a.raydium_amm_open_orders
    &&& i.amm_target_orders == a.raydium_amm_target_orders
    &&& i.pool_coin_token_account == a.raydium_pool_coin_token_account
    &&& i.pool_pc_token_account == a.raydium_pool_pc_token_account
    &&& i.serum_program_id == a.raydium_serum_program_id
    &&& i.serum_market == a.raydium_serum_market
    &&& i.serum_bids == a.raydium_serum_bids
    &&& i.serum_asks == a.raydium_serum_asks
    &&& i.serum_event_queue == a.raydium_serum_event_queue
    &&& i.serum_coin_vault_account == a.raydium_serum_coin_vault_account
    &&& i.serum_pc_vault_account == a.raydium_serum_pc_vault_account
    &&& i.serum_vault_signer == a.raydium_serum_vault_signer
    &&& i.user_source_token_account == a.user_source_token_account.key
    &&& i.user_destination_token_account == a.user_destination_token_account.key
    &&& i.user_source_owner == a.user_source_owner
    &&& i.amount_in == a.user_source_token_account.amount
    &&& i.minimum_amount_out == 0
    &&& c.accounts@ == seq![
        a.token_program,
        a.raydium_amm_id,
        a.raydium_amm_authority,
        a.raydium_amm_open_orders,
        a.raydium_amm_target_orders,
        a.raydium_pool_coin_token_account,
        a.raydium_pool_pc_token_account,
        a.raydium_serum_program_id,
        a.raydium_serum_market,
        a.raydium_serum_bids,
        a.raydium_serum_asks,
        a.raydium_serum_event_queue,
        a.raydium_serum_coin_vault_account,
        a.raydium_serum_pc_vault_account,
        a.raydium_serum_vault_signer,
        a.user_source_token_account.key,
        a.user_destination_token_account.key,
        a.user_source_owner,
    ]
    &&& c.signer_seeds.deep_view() == seeds
}

/// These are the keys of the poke's market: its program, market, signer,
/// vault, oracle, instance, user account and owner, fee account, and the
/// single memory page.
pub open spec fn market_of(pa: PositionAccounts, a: Poke) -> bool {
    &&& pa.program_id == a.audaces_protocol_program_id
    &&& pa.market == a.market_account
    &&& pa.market_signer == a.market_signer_account
    &&& pa.market_vault == a.market_vault.key
    &&& pa.oracle == a.oracle_account
    &&& pa.instance == a.instance_account
    &&& pa.user_account == a.user_account
    &&& pa.user_account_owner == a.user_account_owner
    &&& pa.bonfida_bnb == a.bonfida_bnb
    &&& pa.memory_pages@ == seq![a.memory_page]
}

/// `c` closes the given position on the poke's market, signed with `seeds`.
pub open spec fn close_call(
    a: Poke,
    seeds: Seq<Seq<u8>>,
    closing_collateral: u64,
    closing_v_coin: u64,
    position_index: u16,
    predicted_entry_price: u64,
    maximum_slippage_margin: u64,
    c: Invoke<ClosePosition>,
) -> bool {
    let i = c.instruction;
    &&& market_of(i.accounts, a)
    &&& i.closing_collateral == closing_collateral
    &&& i.closing_v_coin == closing_v_coin
    &&& i.position_index == position_index
    &&& i.predicted_entry_price == predicted_entry_price
    &&& i.maximum_slippage_margin == maximum_slippage_margin
    &&& c.accounts@ == seq![
        a.token_program,
        a.clock_sysvar,
        a.market_account,
        a.instance_account,
        a.market_signer_account,
        a.market_vault.key,
        a.bonfida_bnb,
        a.oracle_account,
        a.user_account_owner,
        a.user_account,
        a.trade_label,
        a.memory_page,
    ]
    &&& c.signer_seeds.deep_view() == seeds
}

/// `c` withdraws the whole market vault balance from the budget to the
/// target account, signed with `seeds`.
pub open spec fn withdraw_budget_call(a: Poke, seeds: Seq<Seq<u8>>, c: Invoke<WithdrawBudget>) -> bool {
    let i = c.instruction;
    &&& i.program_id == a.audaces_protocol_program_id
    &&& i.market == a.market_account
    &&& i.market_signer == a.market_signer_account
    &&& i.market_vault == a.market_vault.key
    &&& i.amount == a.market_vault.amount
    &&& i.target_account == a.target_account
    &&& i.open_positions_owner_account == a.open_positions_owner_account
    &&& i.open_positions_account == a.open_positions_account
    &&& c.accounts@ == seq![
        a.token_program,
        a.market_account,
        a.market_signer_account,
        a.market_vault.key,
        a.open_positions_owner_account,
        a.open_positions_account,
        a.target_account,
    ]
    &&& c.signer_seeds.deep_view() == seeds
}

/// `c` adds the whole destination token balance to the budget from the
/// source token account, signed with `seeds`.
pub open spec fn add_budget_call(a: Poke, seeds: Seq<Seq<u8>>, c: Invoke<AddBudget>) -> bool {
    let i = c.instruction;
    &&& i.program_id == a.audaces_protocol_program_id
    &&& i.market == a.market_account
    &&& i.market_vault == a.market_vault.key
    &&& i.amount == a.user_destination_token_account.amount
    &&& i.source_owner == a.source_owner
    &&& i.source_token_account == a.source_token_account
    &&& i.open_positions_account == a.open_positions_account
    &&& c.accounts@ == seq![
        a.token_program,
        a.market_account,
        a.market_vault.key,
        a.open_positions_account,
        a.source_owner,
        a.source_token_account,
    ]
    &&& c.signer_seeds.deep_view() == seeds
}

/// `c` opens a position on the poke's market on the side `side` stands for,
/// signed with `seeds`.
pub open spec fn open_call(
    a: Poke,
    seeds: Seq<Seq<u8>>,
    side: u8,
    instance_index: u8,
    collateral: u64,
    leverage: u64,
    predicted_entry_price: u64,
    maximum_slippage_margin: u64,
    c: Invoke<OpenPosition>,
) -> bool {
    let i = c.instruction;
    &&& market_of(i.accounts, a)
    &&& i.side == spec_position_side(side)
    &&& i.instance_index == instance_index
    &&& i.collateral == collateral
    &&& i.leverage == leverage
    &&& i.predicted_entry_price == predicted_entry_price
    &&& i.maximum_slippage_margin == maximum_slippage_margin
    &&& c.accounts@ == seq![
        a.token_program,
        a.clock_sysvar,
        a.market_account,
        a.instance_account,
        a.market_signer_account,
        a.market_vault.key,
        a.bonfida_bnb,
        a.user_account_owner,
        a.user_account,
        a.trade_label,
        a.oracle_account,
        a.memory_page,
    ]
    &&& c.signer_seeds.deep_view() == seeds
}

fn swap_invoke(a: &Poke, program_id: &Pubkey) -> (c: Invoke<Swap>)
    ensures
        swap_call(*a, key_nonce_seeds(*program_id, a.vovo_data.nonce), c),
{
    let instruction = Swap {
        program_id: a.raydium_program_id,
        amm_id: a.raydium_amm_id,
        amm_authority: a.raydium_amm_authority,
        amm_open_orders: a.raydium_amm_open_orders,
        amm_target_orders: a.raydium_amm_target_orders,
        pool_coin_token_account: a.raydium_pool_coin_token_account,
        pool_pc_token_account: a.raydium_pool_pc_token_account,
        serum_program_id: a.raydium_serum_program_id,
        serum_market: a.raydium_serum_market,
        serum_bids: a.raydium_serum_bids,
        serum_asks: a.raydium_serum_asks,
        serum_event_queue: a.raydium_serum_event_queue,
        serum_coin_vault_account: a.raydium_serum_coin_vault_account,
        serum_pc_vault_account: a.raydium_serum_pc_vault_account,
        serum_vault_signer: a.raydium_serum_vault_signer,
        user_source_token_account: a.user_source_token_account.key,
        user_destination_token_account: a.user_destination_token_account.key,
        user_source_owner: a.user_source_owner,
        amount_in: a.user_source_token_account.amount,
        minimum_amount_out: 0,
    };
    let accounts = vec![
        a.token_program,
        a.raydium_amm_id,
        a.raydium_amm_authority,
        a.raydium_amm_open_orders,
        a.raydium_amm_target_orders,
        a.raydium_pool_coin_token_account,
        a.raydium_pool_pc_token_account,
        a.raydium_serum_program_id,
        a.raydium_serum_market,
        a.raydium_serum_bids,
        a.raydium_serum_asks,
        a.raydium_serum_event_queue,
        a.raydium_serum_coin_vault_account,
        a.raydium_serum_pc_vault_account,
        a.raydium_serum_vault_signer,
        a.user_source_token_account.key,
        a.user_destination_token_account.key,
        a.user_source_owner,
    ];
    let c = Invoke { instruction, accounts, signer_seeds: signer_seeds(program_id, a.vovo_data.nonce) };
    assert(c.accounts@ =~= seq![
        a.token_program,
        a.raydium_amm_id,
        a.raydium_amm_authority,
        a.raydium_amm_open_orders,
        a.raydium_amm_target_orders,
        a.raydium_pool_coin_token_account,
        a.raydium_pool_pc_token_account,
        a.raydium_serum_program_id,
        a.raydium_serum_market,
        a.raydium_serum_bids,
        a.raydium_serum_asks,
        a.raydium_serum_event_queue,
        a.raydium_serum_coin_vault_account,
        a.raydium_serum_pc_vault_account,
        a.raydium_serum_vault_signer,
        a.user_source_token_account.key,
        a.user_destination_token_account.key,
        a.user_source_owner,
    ]);
    c
}

fn market_accounts(a: &Poke) -> (r: PositionAccounts)
    ensures
        market_of(r, *a),
{
    let memory_pages = vec![a.memory_page];
    assert(memory_pages@ =~= seq![a.memory_page]);
    PositionAccounts {
        program_id: a.audaces_protocol_program_id,
        market: a.market_account,
        market_signer: a.market_signer_account,
        market_vault: a.market_vault.key,
        oracle: a.oracle_account,
        instance: a.instance_account,
        user_account: a.user_account,
        user_account_owner: a.user_account_owner,
        bonfida_bnb: a.bonfida_bnb,
        memory_pages,
    }
}

fn close_invoke(
    a: &Poke,
    program_id: &Pubkey,
    closing_collateral: u64,
    closing_v_coin: u64,
    position_index: u16,
    predicted_entry_price: u64,
    maximum_slippage_margin: u64,
) -> (c: Invoke<ClosePosition>)
    ensures
        close_call(
            *a,
            key_nonce_seeds(*program_id, a.vovo_data.nonce),
            closing_collateral,
            closing_v_coin,
            position_index,
            predicted_entry_price,
            maximum_slippage_margin,
            c,
        ),
{
    let instruction = ClosePosition {
        accounts: market_accounts(a),
        closing_collateral,
        closing_v_coin,
        position_index,
        predicted_entry_price,
        maximum_slippage_margin,
    };
    let accounts = vec![
        a.token_program,
        a.clock_sysvar,
        a.market_account,
        a.instance_account,
        a.market_signer_account,
        a.market_vault.key,
        a.bonfida_bnb,
        a.oracle_account,
        a.user_account_owner,
        a.user_account,
        a.trade_label,
        a.memory_page,
    ];
    let c = Invoke { instruction, accounts, signer_seeds: signer_seeds(program_id, a.vovo_data.nonce) };
    assert(c.accounts@ =~= seq![
        a.token_program,
        a.clock_sysvar,
        a.market_account,
        a.instance_account,
        a.market_signer_account,
        a.market_vault.key,
        a.bonfida_bnb,
        a.oracle_account,
        a.user_account_owner,
        a.user_account,
        a.trade_label,
        a.memory_page,
    ]);
    c
}

fn withdraw_budget_invoke(a: &Poke, program_id: &Pubkey) -> (c: Invoke<WithdrawBudget>)
    ensures
        withdraw_budget_call(*a, key_nonce_seeds(*program_id, a.vovo_data.nonce), c),
{
    let instruction = WithdrawBudget {
        program_id: a.audaces_protocol_program_id,
        market: a.market_account,
        market_signer: a.market_signer_account,
        market_vault: a.market_vault.key,
        amount: a.market_vault.amount,
        target_account: a.target_account,
        open_positions_owner_account: a.open_positions_owner_account,
        open_positions_account: a.open_positions_account,
    };
    let accounts = vec![
        a.token_program,
        a.market_account,
        a.market_signer_account,
        a.market_vault.key,
        a.open_positions_owner_account,
        a.open_positions_account,
        a.target_account,
    ];
    let c = Invoke { instruction, accounts, signer_seeds: signer_seeds(program_id, a.vovo_data.nonce) };
    assert(c.accounts@ =~= seq![
        a.token_program,
        a.market_account,
        a.market_signer_account,
        a.market_vault.key,
        a.open_positions_owner_account,
        a.open_positions_account,
        a.target_account,
    ]);
    c
}

fn add_budget_invoke(a: &Poke, program_id: &Pubkey) -> (c: Invoke<AddBudget>)
    ensures
        add_budget_call(*a, key_nonce_seeds(*program_id, a.vovo_data.nonce), c),
{
    let instruction = AddBudget {
        program_id: a.audaces_protocol_program_id,
        market: a.market_account,
        market_vault: a.market_vault.key,
        amount: a.user_destination_token_account.amount,
        source_owner: a.source_owner,
        source_token_account: a.source_token_account,
        open_positions_account: a.open_positions_account,
    };
    let accounts = vec![
        a.token_program,
        a.market_account,
        a.market_vault.key,
        a.open_positions_account,
        a.source_owner,
        a.source_token_account,
    ];
    let c = Invoke { instruction, accounts, signer_seeds: signer_seeds(program_id, a.vovo_data.nonce) };
    assert(c.accounts@ =~= seq![
        a.token_program,
        a.market_account,
        a.market_vault.key,
        a.open_positions_account,
        a.source_owner,
        a.source_token_account,
    ]);
    c
}

fn open_invoke(
    a: &Poke,
    program_id: &Pubkey,
    side: u8,
    instance_index: u8,
    collateral: u64,
    leverage: u64,
    predicted_entry_price: u64,
    maximum_slippage_margin: u64,
) -> (c: Invoke<OpenPosition>)
    ensures
        open_call(
            *a,
            key_nonce_seeds(*program_id, a.vovo_data.nonce),
            side,
            instance_index,
            collateral,
            leverage,
            predicted_entry_price,
            maximum_slippage_margin,
            c,
        ),
{
    let instruction = OpenPosition {
        accounts: market_accounts(a),
        side: position_side(side),
        instance_index,
        collateral,
        leverage,
        predicted_entry_price,
        maximum_slippage_margin,
    };
    let accounts = vec![
        a.token_program,
        a.clock_sysvar,
        a.market_account,
        a.instance_account,
        a.market_signer_account,
        a.market_vault.key,
        a.bonfida_bnb,
        a.user_account_owner,
        a.user_account,
        a.trade_label,
        a.oracle_account,
        a.memory_page,
    ];
    let c = Invoke { instruction, accounts, signer_seeds: signer_seeds(program_id, a.vovo_data.nonce) };
    assert(c.accounts@ =~= seq![
        a.token_program,
        a.clock_sysvar,
        a.market_account,
        a.instance_account,
        a.market_signer_account,
        a.market_vault.key,
        a.bonfida_bnb,
        a.user_account_owner,
        a.user_account,
        a.trade_label,
        a.oracle_account,
        a.memory_page,
    ]);
    c
}

/// The first seed of a depositor record's address, the bytes of `vovo-user-seed`.
pub open spec fn user_seed() -> Seq<u8> {
    seq![118u8, 111, 118, 111, 45, 117, 115, 101, 114, 45, 115, 101, 101, 100]
}

/// The seeds of the address of `owner`'s record: the fixed seed, the owner's
/// key, then the bump seed.
pub open spec fn user_info_seeds(owner: Pubkey, bump: u8) -> Seq<Seq<u8>> {
    seq![user_seed(), owner@, seq![bump]]
}

fn user_info_seed_vec(owner: &Pubkey, bump: u8) -> (s: Vec<Vec<u8>>)
    ensures
        s.deep_view() == user_info_seeds(*owner, bump),
{
    let seed: Vec<u8> = vec![118u8, 111, 118, 111, 45, 117, 115, 101, 114, 45, 115, 101, 101, 100];
    let mut k: Vec<u8> = Vec::new();
    push_pubkey(&mut k, owner);
    let b: Vec<u8> = vec![bump];
    let mut s: Vec<Vec<u8>> = Vec::new();
    s.push(seed);
    s.push(k);
    s.push(b);
    proof {
        lemma_bytes_deep_view(s@[0]);
        lemma_bytes_deep_view(s@[1]);
        lemma_bytes_deep_view(s@[2]);
        assert(s@[0]@ =~= user_seed());
        assert(s@[2]@ =~= seq![bump]);
        assert(s.deep_view() =~= user_info_seeds(*owner, bump));
    }
    s
}

/// Fills a new depositor record: the owner's key, nothing deposited, and the
/// bump seed of its address. The record must be at the address derived from
/// `vovo-user-seed`, the owner's key and `nonce` for this program; otherwise
/// nothing changes and the seeds constraint fails.
///
/// The accounts are taken as the framework loaded them: those the
/// instruction marks writable are writable, and each one is owned by the
/// program its type names and holds that type. Only the checks stated here
/// are made.
pub fn create_user(ctx: &mut Context<CreateUser>, nonce: u8) -> (r: Result<(), AnchorError>)
    ensures
        created_program_address(user_info_seeds(old(ctx).accounts.owner, nonce), old(ctx).program_id@) == Some(
            old(ctx).accounts.user_info_key@,
        ) ==> r is Ok && *final(ctx) == (Context {
            accounts: CreateUser {
                user_info: UserInfo { owner: old(ctx).accounts.owner, deposit_balance: 0, bump: nonce },
                ..old(ctx).accounts
            },
            ..*old(ctx)
        }),
        created_program_address(user_info_seeds(old(ctx).accounts.owner, nonce), old(ctx).program_id@) != Some(
            old(ctx).accounts.user_info_key@,
        ) ==> r == Err::<(), AnchorError>(AnchorError::ConstraintSeeds) && *final(ctx) == *old(ctx),
{
    let seeds = user_info_seed_vec(&ctx.accounts.owner, nonce);
    let derived = create_program_address(&seeds, &ctx.program_id);
    create_user_at(ctx, nonce, derived)
}

/// Fills a new depositor record once its address is derived: `derived` is
/// the address that `vovo-user-seed`, the owner's key and `nonce` give for
/// this program (`None` when they give none). The record must be at that
/// address; otherwise nothing changes and the seeds constraint fails.
///
/// The accounts are taken as the framework loaded them: those the
/// instruction marks writable are writable, and each one is owned by the
/// program its type names and holds that type. Only the checks stated here
/// are made.
pub fn create_user_at(ctx: &mut Context<CreateUser>, nonce: u8, derived: Option<Pubkey>) -> (r: Result<
    (),
    AnchorError,
>)
    ensures
        (derived matches Some(k) && k@ == old(ctx).accounts.user_info_key@) ==> r is Ok && *final(ctx) == (Context {
            accounts: CreateUser {
                user_info: UserInfo { owner: old(ctx).accounts.owner, deposit_balance: 0, bump: nonce },
                ..old(ctx).accounts
            },
            ..*old(ctx)
        }),
        !(derived matches Some(k) && k@ == old(ctx).accounts.user_info_key@) ==> r == Err::<(), AnchorError>(
            AnchorError::ConstraintSeeds,
        ) && *final(ctx) == *old(ctx),
{
    let at_address = match derived {
        Some(k) => k.eq(&ctx.accounts.user_info_key),
        None => false,
    };
    if !at_address {
        return Err(AnchorError::ConstraintSeeds);
    }
    ctx.accounts.user_info.owner = ctx.accounts.owner;
    ctx.accounts.user_info.deposit_balance = 0;
    ctx.accounts.user_info.bump = nonce;
    Ok(())
}

impl Default for UserInfo {
    /// An empty record: the all-zero key, nothing deposited, bump seed zero.
    fn default() -> (r: UserInfo)
        ensures
            r.owner@ == Seq::new(32, |i: int| 0u8),
            r.deposit_balance == 0,
            r.bump == 0,
    {
        let owner = Pubkey([0u8; 32]);
        assert(owner@ =~= Seq::new(32, |i: int| 0u8));
        UserInfo { owner, deposit_balance: 0, bump: 0 }
    }
}

} // verus!
