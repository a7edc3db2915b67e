//! The `vovo` vault program built on Anchor: deposits and withdrawals of one
//! token, a reward pool, liquidity moves on a Mercurial pool, and positions
//! on an Audaces market.
use vstd::prelude::*;

pub use crate::anchor::ErrorCode;
use crate::address::spl_token_id;
use crate::anchor::{
    AnchorError, Context, SignerAccount, TokenAccount, Transfer, check_signer, check_token_program, key_nonce_seeds,
    signer_seeds,
};
use crate::cpi::{
    AddBudget, AddLiquidity, ClosePosition, Exchange, Invoke, OpenPosition, PositionAccounts, RemoveLiquidity,
    position_side, spec_position_side,
};
use crate::ledger::{payout, withdrawal_amount};
use crate::pubkey::Pubkey;

verus! {

/// The vault's state.
#[derive(Clone, Copy, Debug)]
pub struct VovoData {
    pub authority: Pubkey,
    pub nonce: u8,
    pub token_mint: Pubkey,
    pub token_pool: Pubkey,
    pub withdraw_fee: u64,
    pub performance_fee: u64,
    pub leverage: u64,
    pub total_trade_profit: u64,
}

/// A depositor's record.
#[derive(Clone, Copy, Debug)]
pub struct UserInfo {
    pub owner: Pubkey,
    pub deposit_balance: u64,
}

/// Accounts for creating the vault's state.
#[derive(Clone, Copy, Debug)]
pub struct InitializeVovoData {
    /// Must have signed the transaction.
    pub authority: SignerAccount,
    pub token_mint: Pubkey,
    pub token_pool_account: Pubkey,
}

/// Accounts for a deposit.
#[derive(Clone, Copy, Debug)]
pub struct Deposit {
    pub vovo_data: VovoData,
    pub user_info: UserInfo,
    pub from: Pubkey,
    pub token_pool_account: TokenAccount,
    pub owner: Pubkey,
    /// The SPL token program.
    pub token_program: Pubkey,
}

/// Accounts for a withdrawal.
#[derive(Clone, Copy, Debug)]
pub struct Withdraw {
    pub vovo_data: VovoData,
    pub user_info: UserInfo,
    pub to: Pubkey,
    pub token_pool_account: TokenAccount,
    pub pool_signer: Pubkey,
    pub owner: Pubkey,
    /// The SPL token program.
    pub token_program: Pubkey,
}

/// Accounts for adding to the reward pool.
#[derive(Clone, Copy, Debug)]
pub struct AddReward {
    pub vovo_data: VovoData,
    pub from: Pubkey,
    pub token_reward_account: TokenAccount,
    pub owner: Pubkey,
    /// The SPL token program.
    pub token_program: Pubkey,
}

/// Accounts for adding liquidity to the Mercurial pool.
#[derive(Clone, Copy, Debug)]
pub struct MercurialDeposit {
    pub token_program: Pubkey,
    pub vovo_data: VovoData,
    pub mercurial_program: Pubkey,
    pub mercurial_swap_account: Pubkey,
    pub mercurial_token_program_id: Pubkey,
    pub mercurial_pool_authority: Pubkey,
    pub mercurial_transfer_authority: Pubkey,
    pub mercurial_swap_token: Pubkey,
    pub mercurial_pool_token_mint: Pubkey,
    pub mercurial_source_token: Pubkey,
    pub mercurial_lp_token: Pubkey,
}

/// Accounts for removing liquidity from the Mercurial pool.
#[derive(Clone, Copy, Debug)]
pub struct MercurialWithdraw {
    pub token_program: Pubkey,
    pub vovo_data: VovoData,
    pub mercurial_program: Pubkey,
    pub mercurial_swap_account: Pubkey,
    pub mercurial_token_program_id: Pubkey,
    pub mercurial_pool_authority: Pubkey,
    pub mercurial_transfer_authority: Pubkey,
    pub mercurial_swap_token: Pubkey,
    pub mercurial_pool_token_mint: Pubkey,
    pub mercurial_dest_token: Pubkey,
    pub mercurial_lp_token: Pubkey,
}

/// Accounts for an exchange on the Mercurial pool.
#[derive(Clone, Copy, Debug)]
pub struct MercurialExchange {
    pub token_program: Pubkey,
    pub vovo_data: VovoData,
    pub mercurial_program: Pubkey,
    pub mercurial_swap_account: Pubkey,
    pub mercurial_token_program_id: Pubkey,
    pub mercurial_pool_authority: Pubkey,
    pub mercurial_transfer_authority: Pubkey,
    pub mercurial_swap_token: Pubkey,
    pub mercurial_pool_token_mint: Pubkey,
    pub mercurial_source_token: Pubkey,
    pub mercurial_dest_token: Pubkey,
}

/// Accounts for re-balancing the position on the Audaces market.
#[derive(Clone, Copy, Debug)]
pub struct Poke {
    pub token_program: Pubkey,
    pub vovo_data: VovoData,
    pub audaces_protocol_program_id: Pubkey,
    pub market_account: Pubkey,
    pub market_signer_account: Pubkey,
    pub market_vault: Pubkey,
    pub oracle_account: Pubkey,
    pub instance_account: Pubkey,
    pub user_account: Pubkey,
    pub user_account_owner: Pubkey,
    pub bonfida_bnb: Pubkey,
    pub memory_page: Pubkey,
    pub source_owner: Pubkey,
    pub source_token_account: Pubkey,
    pub open_positions_account: Pubkey,
    pub clock_sysvar: Pubkey,
    pub trade_label: Pubkey,
}

/// Accounts for creating a depositor's record.
#[derive(Clone, Copy, Debug)]
pub struct InitializeUserInfo {
    pub owner: Pubkey,
}

/// The three calls of a poke: close the position, add to the budget, open a
/// new position.
#[derive(Clone, Debug)]
pub struct PokePlan {
    pub close: Invoke<ClosePosition>,
    pub add_budget: Invoke<AddBudget>,
    pub open: Invoke<OpenPosition>,
}

impl VovoData {
    /// The vault's state as created, provided the authority signed: keys
    /// from the accounts, the rest from the arguments.
    ///
    /// The accounts are taken as the framework loaded them: those the
    /// instruction marks writable are writable, and each one is owned by the
    /// program its type names and holds that type. Only the checks stated here
    /// are made.
    pub fn new(
        ctx: Context<InitializeVovoData>,
        nonce: u8,
        withdraw_fee: u64,
        performance_fee: u64,
        leverage: u64,
        total_trade_profit: u64,
    ) -> (r: Result<VovoData, AnchorError>)
        ensures
            !ctx.accounts.authority.is_signer ==> r == Err::<VovoData, AnchorError>(AnchorError::ConstraintSigner),
            ctx.accounts.authority.is_signer ==> r == Ok::<VovoData, AnchorError>(
                VovoData {
                    authority: ctx.accounts.authority.key,
                    nonce,
                    token_mint: ctx.accounts.token_mint,
                    token_pool: ctx.accounts.token_pool_account,
                    withdraw_fee,
                    performance_fee,
                    leverage,
                    total_trade_profit,
                },
            ),
    {
        check_signer(&ctx.accounts.authority)?;
        Ok(VovoData {
            authority: ctx.accounts.authority.key,
            token_mint: ctx.accounts.token_mint,
            token_pool: ctx.accounts.token_pool_account,
            nonce,
            withdraw_fee,
            performance_fee,
            leverage,
            total_trade_profit,
        })
    }

    /// Deposits `amount`, once the token program is checked to be the SPL
    /// token program: it moves from the depositor's account to the pool
    /// on the owner's authority, and the depositor's balance grows by it.
    ///
    /// The accounts are taken as the framework loaded them: those the
    /// instruction marks writable are writable, and each one is owned by the
    /// program its type names and holds that type. Only the checks stated here
    /// are made.
    ///
    /// The calls and transfers returned are still to be made; if one of them
    /// fails, the instruction must fail, so that the runtime undoes what this
    /// handler changed.
    pub fn deposit(&mut self, ctx: &mut Context<Deposit>, amount: u64) -> (r: Result<Transfer, AnchorError>)
        requires
            old(ctx).accounts.token_program@ == spl_token_id() ==> old(ctx).accounts.user_info.deposit_balance
                + amount <= u64::MAX,
        ensures
            *final(self) == *old(self),
            old(ctx).accounts.token_program@ != spl_token_id() ==> {
                &&& r == Err::<Transfer, AnchorError>(AnchorError::ConstraintRaw)
                &&& *final(ctx) == *old(ctx)
            },
            old(ctx).accounts.token_program@ == spl_token_id() ==> {
                &&& r matches Ok(t) && {
                    &&& t.from == old(ctx).accounts.from
                    &&& t.to == old(ctx).accounts.token_pool_account.key
                    &&& t.authority == old(ctx).accounts.owner
                    &&& t.amount == amount
                    &&& t.signer_seeds@.len() == 0
                }
                &&& *final(ctx) == (Context {
                    accounts: Deposit {
                        user_info: UserInfo {
                            deposit_balance: (old(ctx).accounts.user_info.deposit_balance + amount) as u64,
                            ..old(ctx).accounts.user_info
                        },
                        ..old(ctx).accounts
                    },
                    ..*old(ctx)
                })
            },
    {
        check_token_program(&ctx.accounts.token_program)?;
        // transfer from user to pool
        let t = Transfer {
            from: ctx.accounts.from,
            to: ctx.accounts.token_pool_account.key,
            authority: ctx.accounts.owner,
            amount,
            signer_seeds: Vec::new(),
        };
        ctx.accounts.user_info.deposit_balance = ctx.accounts.user_info.deposit_balance + amount;
        Ok(t)
    }

    /// Withdraws up to `amount`, once the token program is checked to be the
    /// SPL token program: refused when the depositor's balance is
    /// empty; otherwise the smaller of `amount` and the balance moves from the
    /// pool to the recipient, the pool signing with the vault's mint and nonce,
    /// and the balance shrinks by it.
    ///
    /// The accounts are taken as the framework loaded them: those the
    /// instruction marks writable are writable, and each one is owned by the
    /// program its type names and holds that type. Only the checks stated here
    /// are made.
    ///
    /// The calls and transfers returned are still to be made; if one of them
    /// fails, the instruction must fail, so that the runtime undoes what this
    /// handler changed.
    pub fn withdraw(&mut self, ctx: &mut Context<Withdraw>, amount: u64) -> (r: Result<Transfer, AnchorError>)
        ensures
            *final(self) == *old(self),
            old(ctx).accounts.token_program@ != spl_token_id() ==> {
                &&& r == Err::<Transfer, AnchorError>(AnchorError::ConstraintRaw)
                &&& *final(ctx) == *old(ctx)
            },
            old(ctx).accounts.token_program@ == spl_token_id() && old(ctx).accounts.user_info.deposit_balance == 0
                ==> {
                &&& r == Err::<Transfer, AnchorError>(AnchorError::Vault(ErrorCode::NoDepositedBalance))
                &&& *final(ctx) == *old(ctx)
            },
            old(ctx).accounts.token_program@ == spl_token_id() && old(ctx).accounts.user_info.deposit_balance > 0
                ==> {
                let paid = payout(old(ctx).accounts.user_info.deposit_balance, amount);
                &&& r matches Ok(t) && {
                    &&& t.from == old(ctx).accounts.token_pool_account.key
                    &&& t.to == old(ctx).accounts.to
                    &&& t.authority == old(ctx).accounts.pool_signer
                    &&& t.amount == paid
                    &&& t.signer_seeds.deep_view() == key_nonce_seeds(
                        old(ctx).accounts.vovo_data.token_mint,
                        old(ctx).accounts.vovo_data.nonce,
                    )
                }
                &&& *final(ctx) == (Context {
                    accounts: Withdraw {
                        user_info: UserInfo {
                            deposit_balance: (old(ctx).accounts.user_info.deposit_balance - paid) as u64,
                            ..old(ctx).accounts.user_info
                        },
                        ..old(ctx).accounts
                    },
                    ..*old(ctx)
                })
            },
    {
        check_token_program(&ctx.accounts.token_program)?;
        let paid = match withdrawal_amount(ctx.accounts.user_info.deposit_balance, amount) {
            Some(p) => p,
            None => return Err(AnchorError::Vault(ErrorCode::NoDepositedBalance)),
        };
        // transfer from pool to user
        let t = Transfer {
            from: ctx.accounts.token_pool_account.key,
            to: ctx.accounts.to,
            authority: ctx.accounts.pool_signer,
            amount: paid,
            signer_seeds: signer_seeds(&ctx.accounts.vovo_data.token_mint, ctx.accounts.vovo_data.nonce),
        };
        ctx.accounts.user_info.deposit_balance = ctx.accounts.user_info.deposit_balance - paid;
        Ok(t)
    }

    /// Adds `amount` to the reward pool, once the token program is checked to
    /// be the SPL token program: it moves from the funder's account
    /// to the reward account on the owner's authority.
    ///
    /// The accounts are taken as the framework loaded them: those the
    /// instruction marks writable are writable, and each one is owned by the
    /// program its type names and holds that type. Only the checks stated here
    /// are made.
    ///
    /// The calls and transfers returned are still to be made; if one of them
    /// fails, the instruction must fail, so that the runtime undoes what this
    /// handler changed.
    pub fn add_reward(&mut self, ctx: Context<AddReward>, amount: u64) -> (r: Result<Transfer, AnchorError>)
        ensures
            *final(self) == *old(self),
            ctx.accounts.token_program@ != spl_token_id() ==> r == Err::<Transfer, AnchorError>(
                AnchorError::ConstraintRaw,
            ),
            ctx.accounts.token_program@ == spl_token_id() ==> (r matches Ok(t) && {
                &&& t.from == ctx.accounts.from
                &&& t.to == ctx.accounts.token_reward_account.key
                &&& t.authority == ctx.accounts.owner
                &&& t.amount == amount
                &&& t.signer_seeds@.len() == 0
            }),
    {
        check_token_program(&ctx.accounts.token_program)?;
        // transfer from user to pool
        Ok(Transfer {
            from: ctx.accounts.from,
            to: ctx.accounts.token_reward_account.key,
            authority: ctx.accounts.owner,
            amount,
            signer_seeds: Vec::new(),
        })
    }

    /// Adds `amount` of the source token to the Mercurial pool, asking for at
    /// least `min_mint_amount` LP tokens.
    ///
    /// The accounts are taken as the framework loaded them: those the
    /// instruction marks writable are writable, and each one is owned by the
    /// program its type names and holds that type. Only the checks stated here
    /// are made.
    ///
    /// The calls and transfers returned are still to be made; if one of them
    /// fails, the instruction must fail, so that the runtime undoes what this
    /// handler changed.
    pub fn mercurial_deposit(
        &mut self,
        ctx: Context<MercurialDeposit>,
        amount: u64,
        min_mint_amount: u64,
    ) -> (r: Result<Invoke<AddLiquidity>, ErrorCode>)
        ensures
            *final(self) == *old(self),
            r matches Ok(c) && {
                let a = ctx.accounts;
                let i = c.instruction;
                &&& i.program_id == a.mercurial_program
                &&& i.swap_account == a.mercurial_swap_account
                &&& i.token_program_id == a.mercurial_token_program_id
                &&& i.pool_authority == a.mercurial_pool_authority
                &&& i.transfer_authority == a.mercurial_transfer_authority
                &&& i.swap_token_accounts@ == seq![a.mercurial_swap_token]
                &&& i.pool_token_mint == a.mercurial_pool_token_mint
                &&& i.source_token_accounts@ == seq![a.mercurial_source_token]
                &&& i.lp_token_account == a.mercurial_lp_token
                &&& i.deposit_amounts@ == seq![amount]
                &&& i.min_mint_amount == min_mint_amount
                &&& c.accounts@ == seq![
                    a.mercurial_swap_account,
                    a.mercurial_token_program_id,
                    a.mercurial_pool_authority,
                    a.mercurial_transfer_authority,
                    a.mercurial_swap_token,
                    a.mercurial_pool_token_mint,
                    a.mercurial_source_token,
                    a.mercurial_lp_token,
                ]
                &&& c.signer_seeds@.len() == 0
            },
    {
        let a = ctx.accounts;
        let instruction = AddLiquidity {
            program_id: a.mercurial_program,
            swap_account: a.mercurial_swap_account,
            token_program_id: a.mercurial_token_program_id,
            pool_authority: a.mercurial_pool_authority,
            transfer_authority: a.mercurial_transfer_authority,
            swap_token_accounts: vec![a.mercurial_swap_token],
            pool_token_mint: a.mercurial_pool_token_mint,
            source_token_accounts: vec![a.mercurial_source_token],
            lp_token_account: a.mercurial_lp_token,
            deposit_amounts: vec![amount],
            min_mint_amount,
        };
        let accounts = vec![
            a.mercurial_swap_account,
            a.mercurial_token_program_id,
            a.mercurial_pool_authority,
            a.mercurial_transfer_authority,
            a.mercurial_swap_token,
            a.mercurial_pool_token_mint,
            a.mercurial_source_token,
            a.mercurial_lp_token,
        ];
        Ok(Invoke { instruction, accounts, signer_seeds: Vec::new() })
    }

    /// Burns `amount` LP tokens of the Mercurial pool for the destination
    /// token, asking for at least `mercurial_withdraw_min_amount` back.
    ///
    /// The accounts are taken as the framework loaded them: those the
    /// instruction marks writable are writable, and each one is owned by the
    /// program its type names and holds that type. Only the checks stated here
    /// are made.
    ///
    /// The calls and transfers returned are still to be made; if one of them
    /// fails, the instruction must fail, so that the runtime undoes what this
    /// handler changed.
    pub fn mercurial_withdraw(
        &mut self,
        ctx: Context<MercurialWithdraw>,
        amount: u64,
        mercurial_withdraw_min_amount: u64,
    ) -> (r: Result<Invoke<RemoveLiquidity>, ErrorCode>)
        ensures
            *final(self) == *old(self),
            r matches Ok(c) && {
                let a = ctx.accounts;
                let i = c.instruction;
                &&& i.program_id == a.mercurial_program
                &&& i.swap_account == a.mercurial_swap_account
                &&& i.token_program_id == a.mercurial_token_program_id
                &&& i.pool_authority == a.mercurial_pool_authority
                &&& i.transfer_authority == a.mercurial_transfer_authority
                &&& i.swap_token_accounts@ == seq![a.mercurial_swap_token]
                &&& i.pool_token_mint == a.mercurial_pool_token_mint
                &&& i.dest_token_accounts@ == seq![a.mercurial_dest_token]
                &&& i.lp_token_account == a.mercurial_lp_token
                &&& i.unmint_amount == amount
                &&& i.minimum_amounts@ == seq![mercurial_withdraw_min_amount]
                &&& c.accounts@ == seq![
                    a.mercurial_swap_account,
                    a.mercurial_token_program_id,
                    a.mercurial_pool_authority,
                    a.mercurial_transfer_authority,
                    a.mercurial_swap_token,
                    a.mercurial_pool_token_mint,
                    a.mercurial_dest_token,
                    a.mercurial_lp_token,
                ]
                &&& c.signer_seeds@.len() == 0
            },
    {
        let a = ctx.accounts;
        let instruction = RemoveLiquidity {
            program_id: a.mercurial_program,
            swap_account: a.mercurial_swap_account,
            token_program_id: a.mercurial_token_program_id,
            pool_authority: a.mercurial_pool_authority,
            transfer_authority: a.mercurial_transfer_authority,
            swap_token_accounts: vec![a.mercurial_swap_token],
            pool_token_mint: a.mercurial_pool_token_mint,
            dest_token_accounts: vec![a.mercurial_dest_token],
            lp_token_account: a.mercurial_lp_token,
            unmint_amount: amount,
            minimum_amounts: vec![mercurial_withdraw_min_amount],
        };
        let accounts = vec![
            a.mercurial_swap_account,
            a.mercurial_token_program_id,
            a.mercurial_pool_authority,
            a.mercurial_transfer_authority,
            a.mercurial_swap_token,
            a.mercurial_pool_token_mint,
            a.mercurial_dest_token,
            a.mercurial_lp_token,
        ];
        Ok(Invoke { instruction, accounts, signer_seeds: Vec::new() })
    }

    /// Exchanges `amount` of the source token for the destination token on
    /// the Mercurial pool, asking for at least `min_out_amount`.
    ///
    /// The accounts are taken as the framework loaded them: those the
    /// instruction marks writable are writable, and each one is owned by the
    /// program its type names and holds that type. Only the checks stated here
    /// are made.
    ///
    /// The calls and transfers returned are still to be made; if one of them
    /// fails, the instruction must fail, so that the runtime undoes what this
    /// handler changed.
    pub fn mercurial_exchange(
        &mut self,
        ctx: Context<MercurialExchange>,
        amount: u64,
        min_out_amount: u64,
    ) -> (r: Result<Invoke<Exchange>, ErrorCode>)
        ensures
            *final(self) == *old(self),
            r matches Ok(c) && {
                let a = ctx.accounts;
                let i = c.instruction;
                &&& i.program_id == a.mercurial_program
                &&& i.swap_account == a.mercurial_swap_account
                &&& i.token_program_id == a.mercurial_token_program_id
                &&& i.pool_authority == a.mercurial_pool_authority
                &&& i.transfer_authority == a.mercurial_transfer_authority
                &&& i.swap_token_accounts@ == seq![a.mercurial_swap_token]
                &&& i.source_token_account == a.mercurial_source_token
                &&& i.dest_token_account == a.mercurial_dest_token
                &&& i.in_amount == amount
                &&& i.minimum_out_amount == min_out_amount
                &&& c.accounts@ == seq![
                    a.mercurial_swap_account,
                    a.mercurial_token_program_id,
                    a.mercurial_pool_authority,
                    a.mercurial_transfer_authority,
                    a.mercurial_swap_token,
                    a.mercurial_source_token,
                    a.mercurial_dest_token,
                ]
                &&& c.signer_seeds@.len() == 0
            },
    {
        let a = ctx.accounts;
        let instruction = Exchange {
            program_id: a.mercurial_program,
            swap_account: a.mercurial_swap_account,
            token_program_id: a.mercurial_token_program_id,
            pool_authority: a.mercurial_pool_authority,
            transfer_authority: a.mercurial_transfer_authority,
            swap_token_accounts: vec![a.mercurial_swap_token],
            source_token_account: a.mercurial_source_token,
            dest_token_account: a.mercurial_dest_token,
            in_amount: amount,
            minimum_out_amount: min_out_amount,
        };
        let accounts = vec![
            a.mercurial_swap_account,
            a.mercurial_token_program_id,
            a.mercurial_pool_authority,
            a.mercurial_transfer_authority,
            a.mercurial_swap_token,
            a.mercurial_source_token,
            a.mercurial_dest_token,
        ];
        Ok(Invoke { instruction, accounts, signer_seeds: Vec::new() })
    }

    /// Re-balances the Audaces position: closes position `position_index`,
    /// adds `budget_amount` to the market budget, then opens a new position
    /// on the side `side` stands for (0 short, otherwise long).
    ///
    /// The accounts are taken as the framework loaded them: those the
    /// instruction marks writable are writable, and each one is owned by the
    /// program its type names and holds that type. Only the checks stated here
    /// are made.
    ///
    /// The calls and transfers returned are still to be made; if one of them
    /// fails, the instruction must fail, so that the runtime undoes what this
    /// handler changed.
    pub fn bonfida_poke(
        &mut self,
        ctx: Context<Poke>,
        closing_collateral: u64,
        closing_v_coin: u64,
        position_index: u16,
        predicted_entry_price: u64,
        maximum_slippage_margin: u64,
        budget_amount: u64,
        side: u8,
        instance_index: u8,
        collateral: u64,
        leverage: u64,
    ) -> (r: Result<PokePlan, ErrorCode>)
        ensures
            *final(self) == *old(self),
            r matches Ok(p) && {
                let a = ctx.accounts;
                &&& p.close.instruction.accounts.trades_on(a)
                &&& p.close.instruction.closing_collateral == closing_collateral
                &&& p.close.instruction.closing_v_coin == closing_v_coin
                &&& p.close.instruction.position_index == position_index
                &&& p.close.instruction.predicted_entry_price == predicted_entry_price
                &&& p.close.instruction.maximum_slippage_margin == maximum_slippage_margin
                &&& p.close.accounts@ == seq![
                    a.token_program,
                    a.clock_sysvar,
                    a.market_account,
                    a.instance_account,
                    a.market_signer_account,
                    a.market_vault,
                    a.bonfida_bnb,
                    a.oracle_account,
                    a.user_account_owner,
                    a.user_account,
                    a.trade_label,
                    a.memory_page,
                ]
                &&& p.close.signer_seeds@.len() == 0
                &&& p.add_budget.instruction.program_id == a.audaces_protocol_program_id
                &&& p.add_budget.instruction.market == a.market_account
                &&& p.add_budget.instruction.market_vault == a.market_vault
                &&& p.add_budget.instruction.amount == budget_amount
                &&& p.add_budget.instruction.source_owner == a.source_owner
                &&& p.add_budget.instruction.source_token_account == a.source_token_account
                &&& p.add_budget.instruction.open_positions_account == a.open_positions_account
                &&& p.add_budget.accounts@ == seq![
                    a.token_program,
                    a.market_account,
                    a.market_signer_account,
                    a.market_vault,
                    a.open_positions_account,
                    a.source_owner,
                    a.source_token_account,
                ]
                &&& p.add_budget.signer_seeds@.len() == 0
                &&& p.open.instruction.accounts.trades_on(a)
                &&& p.open.instruction.side == spec_position_side(side)
                &&& p.open.instruction.instance_index == instance_index
                &&& p.open.instruction.collateral == collateral
                &&& p.open.instruction.leverage == leverage
                &&& p.open.instruction.predicted_entry_price == predicted_entry_price
                &&& p.open.instruction.maximum_slippage_margin == maximum_slippage_margin
                &&& p.open.accounts@ == seq![
                    a.token_program,
                    a.clock_sysvar,
                    a.market_account,
                    a.instance_account,
                    a.market_signer_account,
                    a.market_vault,
                    a.bonfida_bnb,
                    a.user_account_owner,
                    a.user_account,
                    a.trade_label,
                    a.oracle_account,
                    a.memory_page,
                ]
                &&& p.open.signer_seeds@.len() == 0
            },
    {
        let a = ctx.accounts;
        // close position
        let close = Invoke {
            instruction: ClosePosition {
                accounts: position_accounts(&a),
                closing_collateral,
                closing_v_coin,
                position_index,
                predicted_entry_price,
                maximum_slippage_margin,
            },
            accounts: vec![
                a.token_program,
                a.clock_sysvar,
                a.market_account,
                a.instance_account,
                a.market_signer_account,
                a.market_vault,
                a.bonfida_bnb,
                a.oracle_account,
                a.user_account_owner,
                a.user_account,
                a.trade_label,
                a.memory_page,
            ],
            signer_seeds: Vec::new(),
        };
        let add_budget = Invoke {
            instruction: AddBudget {
                program_id: a.audaces_protocol_program_id,
                market: a.market_account,
                market_vault: a.market_vault,
                amount: budget_amount,
                source_owner: a.source_owner,
                source_token_account: a.source_token_account,
                open_positions_account: a.open_positions_account,
            },
            accounts: vec![
                a.token_program,
                a.market_account,
                a.market_signer_account,
                a.market_vault,
                a.open_positions_account,
                a.source_owner,
                a.source_token_account,
            ],
            signer_seeds: Vec::new(),
        };
        let open = Invoke {
            instruction: OpenPosition {
                accounts: position_accounts(&a),
                side: position_side(side),
                instance_index,
                collateral,
                leverage,
                predicted_entry_price,
                maximum_slippage_margin,
            },
            accounts: vec![
                a.token_program,
                a.clock_sysvar,
                a.market_account,
                a.instance_account,
                a.market_signer_account,
                a.market_vault,
                a.bonfida_bnb,
                a.user_account_owner,
                a.user_account,
                a.trade_label,
                a.oracle_account,
                a.memory_page,
            ],
            signer_seeds: Vec::new(),
        };
        Ok(PokePlan { close, add_budget, open })
    }
}

impl PositionAccounts {
    /// These are the keys of the poke's market: its program, market, signer,
    /// vault, oracle, instance, user account and owner, fee account, and the
    /// single memory page.
    pub open spec fn trades_on(self, a: Poke) -> bool {
        &&& self.program_id == a.audaces_protocol_program_id
        &&& self.market == a.market_account
        &&& self.market_signer == a.market_signer_account
        &&& self.market_vault == a.market_vault
        &&& self.oracle == a.oracle_account
        &&& self.instance == a.instance_account
        &&& self.user_account == a.user_account
        &&& self.user_account_owner == a.user_account_owner
        &&& self.bonfida_bnb == a.bonfida_bnb
        &&& self.memory_pages@ == seq![a.memory_page]
    }
}

fn position_accounts(a: &Poke) -> (r: PositionAccounts)
    ensures
        r.trades_on(*a),
{
    let memory_pages = vec![a.memory_page];
    assert(memory_pages@ =~= seq![a.memory_page]);
    PositionAccounts {
        program_id: a.audaces_protocol_program_id,
        market: a.market_account,
        market_signer: a.market_signer_account,
        market_vault: a.market_vault,
        oracle: a.oracle_account,
        instance: a.instance_account,
        user_account: a.user_account,
        user_account_owner: a.user_account_owner,
        bonfida_bnb: a.bonfida_bnb,
        memory_pages,
    }
}

impl UserInfo {
    /// A new record for the owner, with nothing deposited.
    ///
    /// The accounts are taken as the framework loaded them: those the
    /// instruction marks writable are writable, and each one is owned by the
    /// program its type names and holds that type. Only the checks stated here
    /// are made.
    pub fn new(ctx: Context<InitializeUserInfo>) -> (r: Result<UserInfo, ErrorCode>)
        ensures
            r == Ok::<UserInfo, ErrorCode>(UserInfo { owner: ctx.accounts.owner, deposit_balance: 0 }),
    {
        Ok(UserInfo { owner: ctx.accounts.owner, deposit_balance: 0 })
    }
}

/// A position call that trades on the poke's market names its Audaces
/// program, market, signer, vault, oracle, instance, user account and owner,
/// fee account, and the one memory page, each from the poke's accounts.
pub proof fn lemma_trades_on_the_poke_market(pa: PositionAccounts, a: Poke)
    requires
        pa.trades_on(a),
    ensures
        pa.program_id == a.audaces_protocol_program_id,
        pa.market == a.market_account,
        pa.market_signer == a.market_signer_account,
        pa.market_vault == a.market_vault,
        pa.oracle == a.oracle_account,
        pa.instance == a.instance_account,
        pa.user_account == a.user_account,
        pa.user_account_owner == a.user_account_owner,
        pa.bonfida_bnb == a.bonfida_bnb,
        pa.memory_pages@ == seq![a.memory_page],
{
}

} // verus!
