//! The Anchor vault program whose state also records its Mercurial pool:
//! deposits, withdrawals, and moving deposits into that pool.
use vstd::prelude::*;

pub use crate::anchor::ErrorCode;
use crate::address::spl_token_id;
use crate::anchor::{
    AnchorError, Context, SignerAccount, TokenAccount, Transfer, check_signer, check_token_program, key_nonce_seeds,
    signer_seeds,
};
use crate::cpi::{AddLiquidity, Invoke};
use crate::ledger::{payout, withdrawal_amount};
use crate::pubkey::Pubkey;

verus! {

/// The vault's state, with the accounts and minimum of its Mercurial pool.
#[derive(Clone, Copy, Debug)]
pub struct VovoData {
    pub authority: Pubkey,
    pub nonce: u8,
    pub token_mint: Pubkey,
    pub token_pool: Pubkey,
    pub withdraw_fee: u64,
    pub performance_fee: u64,
    pub leverage: u64,
    pub total_trade_profit: u64,
    pub mercurial_program_id: Pubkey,
    pub mercurial_swap_account: Pubkey,
    pub mercurial_token_program_id: Pubkey,
    pub mercurial_pool_authority: Pubkey,
    pub mercurial_transfer_authority: Pubkey,
    pub mercurial_swap_token: Pubkey,
    pub mercurial_pool_token_mint: Pubkey,
    pub mercurial_source_token: Pubkey,
    pub mercurial_lp_token: Pubkey,
    pub mercurial_min_mint_amount: u64,
}

/// A depositor's record.
#[derive(Clone, Copy, Debug)]
pub struct UserInfo {
    pub owner: Pubkey,
    pub deposit_balance: u64,
}

/// Accounts for creating the vault's state.
#[derive(Clone, Copy, Debug)]
pub struct InitializeVovoData {
    /// Must have signed the transaction.
    pub authority: SignerAccount,
    pub token_mint: Pubkey,
    pub token_pool_account: Pubkey,
}

/// Accounts for a deposit.
#[derive(Clone, Copy, Debug)]
pub struct Deposit {
    pub vovo_data: VovoData,
    pub user_info: UserInfo,
    pub from: Pubkey,
    pub token_pool_account: TokenAccount,
    pub owner: Pubkey,
    /// The SPL token program.
    pub token_program: Pubkey,
}

/// Accounts passed along when the vault adds liquidity to its Mercurial pool.
#[derive(Clone, Copy, Debug)]
pub struct MercurialDeposit {
    pub token_program: Pubkey,
    pub mercurial_swap_account: Pubkey,
    pub mercurial_token_program_id: Pubkey,
    pub mercurial_pool_authority: Pubkey,
    pub mercurial_transfer_authority: Pubkey,
    pub mercurial_swap_token: Pubkey,
    pub mercurial_pool_token_mint: Pubkey,
    pub mercurial_source_token: Pubkey,
    pub mercurial_lp_token: Pubkey,
}

/// Accounts for a withdrawal.
#[derive(Clone, Copy, Debug)]
pub struct Withdraw {
    pub vovo_data: VovoData,
    pub user_info: UserInfo,
    pub to: Pubkey,
    pub token_pool_account: TokenAccount,
    pub pool_signer: Pubkey,
    pub owner: Pubkey,
    /// The SPL token program.
    pub token_program: Pubkey,
}

/// Accounts for creating a depositor's record.
#[derive(Clone, Copy, Debug)]
pub struct InitializeUserInfo {
    pub owner: Pubkey,
}

impl VovoData {
    /// The vault's state as created, provided the authority signed: keys
    /// from the accounts, the rest from the arguments.
    ///
    /// The accounts are taken as the framework loaded them: those the
    /// instruction marks writable are writable, and each one is owned by the
    /// program its type names and holds that type. Only the checks stated here
    /// are made.
    pub fn new(
        ctx: Context<InitializeVovoData>,
        nonce: u8,
        withdraw_fee: u64,
        performance_fee: u64,
        leverage: u64,
        total_trade_profit: u64,
        mercurial_program_id: Pubkey,
        mercurial_swap_account: Pubkey,
        mercurial_token_program_id: Pubkey,
        mercurial_pool_authority: Pubkey,
        mercurial_transfer_authority: Pubkey,
        mercurial_swap_token: Pubkey,
        mercurial_pool_token_mint: Pubkey,
        mercurial_source_token: Pubkey,
        mercurial_lp_token: Pubkey,
        mercurial_min_mint_amount: u64,
    ) -> (r: Result<VovoData, AnchorError>)
        ensures
            !ctx.accounts.authority.is_signer ==> r == Err::<VovoData, AnchorError>(AnchorError::ConstraintSigner),
            ctx.accounts.authority.is_signer ==> r == Ok::<VovoData, AnchorError>(
                VovoData {
                    authority: ctx.accounts.authority.key,
                    nonce,
                    token_mint: ctx.accounts.token_mint,
                    token_pool: ctx.accounts.token_pool_account,
                    withdraw_fee,
                    performance_fee,
                    leverage,
                    total_trade_profit,
                    mercurial_program_id,
                    mercurial_swap_account,
                    mercurial_token_program_id,
                    mercurial_pool_authority,
                    mercurial_transfer_authority,
                    mercurial_swap_token,
                    mercurial_pool_token_mint,
                    mercurial_source_token,
                    mercurial_lp_token,
                    mercurial_min_mint_amount,
                },
            ),
    {
        check_signer(&ctx.accounts.authority)?;
        Ok(VovoData {
            authority: ctx.accounts.authority.key,
            token_mint: ctx.accounts.token_mint,
            token_pool: ctx.accounts.token_pool_account,
            nonce,
            withdraw_fee,
            performance_fee,
            leverage,
            total_trade_profit,
            mercurial_program_id,
            mercurial_swap_account,
            mercurial_token_program_id,
            mercurial_pool_authority,
            mercurial_transfer_authority,
            mercurial_swap_token,
            mercurial_pool_token_mint,
            mercurial_source_token,
            mercurial_lp_token,
            mercurial_min_mint_amount,
        })
    }

    /// Deposits `amount`, once the token program is checked to be the SPL
    /// token program: it moves from the depositor's account to the pool
    /// on the owner's authority, and the depositor's balance grows by it.
    ///
    /// The accounts are taken as the framework loaded them: those the
    /// instruction marks writable are writable, and each one is owned by the
    /// program its type names and holds that type. Only the checks stated here
    /// are made.
    ///
    /// The calls and transfers returned are still to be made; if one of them
    /// fails, the instruction must fail, so that the runtime undoes what this
    /// handler changed.
    pub fn deposit(&mut self, ctx: &mut Context<Deposit>, amount: u64) -> (r: Result<Transfer, AnchorError>)
        requires
            old(ctx).accounts.token_program@ == spl_token_id() ==> old(ctx).accounts.user_info.deposit_balance
                + amount <= u64::MAX,
        ensures
            *final(self) == *old(self),
            old(ctx).accounts.token_program@ != spl_token_id() ==> {
                &&& r == Err::<Transfer, AnchorError>(AnchorError::ConstraintRaw)
                &&& *final(ctx) == *old(ctx)
            },
            old(ctx).accounts.token_program@ == spl_token_id() ==> {
                &&& r matches Ok(t) && {
                    &&& t.from == old(ctx).accounts.from
                    &&& t.to == old(ctx).accounts.token_pool_account.key
                    &&& t.authority == old(ctx).accounts.owner
                    &&& t.amount == amount
                    &&& t.signer_seeds@.len() == 0
                }
                &&& *final(ctx) == (Context {
                    accounts: Deposit {
                        user_info: UserInfo {
                            deposit_balance: (old(ctx).accounts.user_info.deposit_balance + amount) as u64,
                            ..old(ctx).accounts.user_info
                        },
                        ..old(ctx).accounts
                    },
                    ..*old(ctx)
                })
            },
    {
        check_token_program(&ctx.accounts.token_program)?;
        // transfer from user to pool
        let t = Transfer {
            from: ctx.accounts.from,
            to: ctx.accounts.token_pool_account.key,
            authority: ctx.accounts.owner,
            amount,
            signer_seeds: Vec::new(),
        };
        ctx.accounts.user_info.deposit_balance = ctx.accounts.user_info.deposit_balance + amount;
        Ok(t)
    }

    /// Withdraws up to `amount`, once the token program is checked to be the
    /// SPL token program: refused when the depositor's balance is
    /// empty; otherwise the smaller of `amount` and the balance moves from the
    /// pool to the recipient, the pool signing with the vault's mint and nonce,
    /// and the balance shrinks by it.
    ///
    /// The accounts are taken as the framework loaded them: those the
    /// instruction marks writable are writable, and each one is owned by the
    /// program its type names and holds that type. Only the checks stated here
    /// are made.
    ///
    /// The calls and transfers returned are still to be made; if one of them
    /// fails, the instruction must fail, so that the runtime undoes what this
    /// handler changed.
    pub fn withdraw(&mut self, ctx: &mut Context<Withdraw>, amount: u64) -> (r: Result<Transfer, AnchorError>)
        ensures
            *final(self) == *old(self),
            old(ctx).accounts.token_program@ != spl_token_id() ==> {
                &&& r == Err::<Transfer, AnchorError>(AnchorError::ConstraintRaw)
                &&& *final(ctx) == *old(ctx)
            },
            old(ctx).accounts.token_program@ == spl_token_id() && old(ctx).accounts.user_info.deposit_balance == 0
                ==> {
                &&& r == Err::<Transfer, AnchorError>(AnchorError::Vault(ErrorCode::NoDepositedBalance))
                &&& *final(ctx) == *old(ctx)
            },
            old(ctx).accounts.token_program@ == spl_token_id() && old(ctx).accounts.user_info.deposit_balance > 0
                ==> {
                let paid = payout(old(ctx).accounts.user_info.deposit_balance, amount);
                &&& r matches Ok(t) && {
                    &&& t.from == old(ctx).accounts.token_pool_account.key
                    &&& t.to == old(ctx).accounts.to
                    &&& t.authority == old(ctx).accounts.pool_signer
                    &&& t.amount == paid
                    &&& t.signer_seeds.deep_view() == key_nonce_seeds(
                        old(ctx).accounts.vovo_data.token_mint,
                        old(ctx).accounts.vovo_data.nonce,
                    )
                }
                &&& *final(ctx) == (Context {
                    accounts: Withdraw {
                        user_info: UserInfo {
                            deposit_balance: (old(ctx).accounts.user_info.deposit_balance - paid) as u64,
                            ..old(ctx).accounts.user_info
                        },
                        ..old(ctx).accounts
                    },
                    ..*old(ctx)
                })
            },
    {
        check_token_program(&ctx.accounts.token_program)?;
        let paid = match withdrawal_amount(ctx.accounts.user_info.deposit_balance, amount) {
            Some(p) => p,
            None => return Err(AnchorError::Vault(ErrorCode::NoDepositedBalance)),
        };
        // transfer from pool to user
        let t = Transfer {
            from: ctx.accounts.token_pool_account.key,
            to: ctx.accounts.to,
            authority: ctx.accounts.pool_signer,
            amount: paid,
            signer_seeds: signer_seeds(&ctx.accounts.vovo_data.token_mint, ctx.accounts.vovo_data.nonce),
        };
        ctx.accounts.user_info.deposit_balance = ctx.accounts.user_info.deposit_balance - paid;
        Ok(t)
    }

    /// Adds `amount` of the vault's source token to its Mercurial pool, with
    /// the pool accounts and minimum recorded in the vault's state; the
    /// program signs with the key of `pool` and with `nonce`.
    ///
    /// The accounts are taken as the framework loaded them: those the
    /// instruction marks writable are writable, and each one is owned by the
    /// program its type names and holds that type. Only the checks stated here
    /// are made.
    ///
    /// The calls and transfers returned are still to be made; if one of them
    /// fails, the instruction must fail, so that the runtime undoes what this
    /// handler changed.
    pub fn deposit_to_mercurial(
        &mut self,
        ctx: Context<MercurialDeposit>,
        amount: u64,
        pool: Pubkey,
        nonce: u8,
    ) -> (r: Result<Invoke<AddLiquidity>, ErrorCode>)
        ensures
            *final(self) == *old(self),
            r matches Ok(c) && {
                let a = ctx.accounts;
                let s = *old(self);
                let i = c.instruction;
                &&& i.program_id == s.mercurial_program_id
                &&& i.swap_account == s.mercurial_swap_account
                &&& i.token_program_id == s.mercurial_token_program_id
                &&& i.pool_authority == s.mercurial_pool_authority
                &&& i.transfer_authority == s.mercurial_transfer_authority
                &&& i.swap_token_accounts@ == seq![s.mercurial_swap_token]
                &&& i.pool_token_mint == s.mercurial_pool_token_mint
                &&& i.source_token_accounts@ == seq![s.mercurial_source_token]
                &&& i.lp_token_account == s.mercurial_lp_token
                &&& i.deposit_amounts@ == seq![amount]
                &&& i.min_mint_amount == s.mercurial_min_mint_amount
                &&& c.accounts@ == seq![
                    a.mercurial_swap_account,
                    a.mercurial_token_program_id,
                    a.mercurial_pool_authority,
                    a.mercurial_transfer_authority,
                    a.mercurial_swap_token,
                    a.mercurial_pool_token_mint,
                    a.mercurial_source_token,
                    a.mercurial_lp_token,
                ]
                &&& c.signer_seeds.deep_view() == key_nonce_seeds(pool, nonce)
            },
    {
        let a = ctx.accounts;
        let instruction = AddLiquidity {
            program_id: self.mercurial_program_id,
            swap_account: self.mercurial_swap_account,
            token_program_id: self.mercurial_token_program_id,
            pool_authority: self.mercurial_pool_authority,
            transfer_authority: self.mercurial_transfer_authority,
            swap_token_accounts: vec![self.mercurial_swap_token],
            pool_token_mint: self.mercurial_pool_token_mint,
            source_token_accounts: vec![self.mercurial_source_token],
            lp_token_account: self.mercurial_lp_token,
            deposit_amounts: vec![amount],
            min_mint_amount: self.mercurial_min_mint_amount,
        };
        let accounts = vec![
            a.mercurial_swap_account,
            a.mercurial_token_program_id,
            a.mercurial_pool_authority,
            a.mercurial_transfer_authority,
            a.mercurial_swap_token,
            a.mercurial_pool_token_mint,
            a.mercurial_source_token,
            a.mercurial_lp_token,
        ];
        Ok(Invoke { instruction, accounts, signer_seeds: signer_seeds(&pool, nonce) })
    }
}

impl UserInfo {
    /// A new record for the owner, with nothing deposited.
    ///
    /// The accounts are taken as the framework loaded them: those the
    /// instruction marks writable are writable, and each one is owned by the
    /// program its type names and holds that type. Only the checks stated here
    /// are made.
    pub fn new(ctx: Context<InitializeUserInfo>) -> (r: Result<UserInfo, ErrorCode>)
        ensures
            r == Ok::<UserInfo, ErrorCode>(UserInfo { owner: ctx.accounts.owner, deposit_balance: 0 }),
    {
        Ok(UserInfo { owner: ctx.accounts.owner, deposit_balance: 0 })
    }
}

} // verus!
