//! Cross-program calls that the Anchor vault programs make: liquidity moves
//! on a Mercurial stable-swap pool, positions and budget on an Audaces
//! perpetuals market, and a swap on a Raydium pool. Each value holds the
//! arguments of the instruction builder the program calls, together with
//! the accounts handed to the call and the seeds the program signs with.
use vstd::prelude::*;

use crate::pubkey::Pubkey;

verus! {

/// A call of another program: the instruction, the accounts passed along
/// with it, and the seeds the calling program signs with (empty when it
/// signs for nothing).
#[derive(Clone, Debug)]
pub struct Invoke<I> {
    pub instruction: I,
    pub accounts: Vec<Pubkey>,
    pub signer_seeds: Vec<Vec<u8>>,
}

/// Arguments of the Mercurial `add_liquidity` instruction.
#[derive(Clone, Debug)]
pub struct AddLiquidity {
    pub program_id: Pubkey,
    pub swap_account: Pubkey,
    pub token_program_id: Pubkey,
    pub pool_authority: Pubkey,
    pub transfer_authority: Pubkey,
    pub swap_token_accounts: Vec<Pubkey>,
    pub pool_token_mint: Pubkey,
    pub source_token_accounts: Vec<Pubkey>,
    pub lp_token_account: Pubkey,
    pub deposit_amounts: Vec<u64>,
    pub min_mint_amount: u64,
}

/// Arguments of the Mercurial `remove_liquidity` instruction.
#[derive(Clone, Debug)]
pub struct RemoveLiquidity {
    pub program_id: Pubkey,
    pub swap_account: Pubkey,
    pub token_program_id: Pubkey,
    pub pool_authority: Pubkey,
    pub transfer_authority: Pubkey,
    pub swap_token_accounts: Vec<Pubkey>,
    pub pool_token_mint: Pubkey,
    pub dest_token_accounts: Vec<Pubkey>,
    pub lp_token_account: Pubkey,
    pub unmint_amount: u64,
    pub minimum_amounts: Vec<u64>,
}

/// Arguments of the Mercurial `exchange` instruction.
#[derive(Clone, Debug)]
pub struct Exchange {
    pub program_id: Pubkey,
    pub swap_account: Pubkey,
    pub token_program_id: Pubkey,
    pub pool_authority: Pubkey,
    pub transfer_authority: Pubkey,
    pub swap_token_accounts: Vec<Pubkey>,
    pub source_token_account: Pubkey,
    pub dest_token_account: Pubkey,
    pub in_amount: u64,
    pub minimum_out_amount: u64,
}

/// The side of a perpetuals position.
#[derive(Clone, Copy, Debug, PartialEq, Eq, Structural)]
pub enum PositionType {
    Short,
    Long,
}

/// The keys that opening and closing a position on an Audaces market take.
#[derive(Clone, Debug)]
pub struct PositionAccounts {
    pub program_id: Pubkey,
    pub market: Pubkey,
    pub market_signer: Pubkey,
    pub market_vault: Pubkey,
    pub oracle: Pubkey,
    pub instance: Pubkey,
    pub user_account: Pubkey,
    pub user_account_owner: Pubkey,
    pub bonfida_bnb: Pubkey,
    pub memory_pages: Vec<Pubkey>,
}

/// Arguments of the Audaces `close_position` instruction; it is built with
/// no discount account and no referrer.
#[derive(Clone, Debug)]
pub struct ClosePosition {
    pub accounts: PositionAccounts,
    pub closing_collateral: u64,
    pub closing_v_coin: u64,
    pub position_index: u16,
    pub predicted_entry_price: u64,
    pub maximum_slippage_margin: u64,
}

/// Arguments of the Audaces `open_position` instruction; it is built with
/// no discount account and no referrer.
#[derive(Clone, Debug)]
pub struct OpenPosition {
    pub accounts: PositionAccounts,
    pub side: PositionType,
    pub instance_index: u8,
    pub collateral: u64,
    pub leverage: u64,
    pub predicted_entry_price: u64,
    pub maximum_slippage_margin: u64,
}

/// Arguments of the Audaces `add_budget` instruction.
#[derive(Clone, Debug)]
pub struct AddBudget {
    pub program_id: Pubkey,
    pub market: Pubkey,
    pub market_vault: Pubkey,
    pub amount: u64,
    pub source_owner: Pubkey,
    pub source_token_account: Pubkey,
    pub open_positions_account: Pubkey,
}

/// Arguments of the Audaces `withdraw_budget` instruction.
#[derive(Clone, Debug)]
pub struct WithdrawBudget {
    pub program_id: Pubkey,
    pub market: Pubkey,
    pub market_signer: Pubkey,
    pub market_vault: Pubkey,
    pub amount: u64,
    pub target_account: Pubkey,
    pub open_positions_owner_account: Pubkey,
    pub open_positions_account: Pubkey,
}

/// Arguments of the Raydium AMM `swap` instruction.
#[derive(Clone, Debug)]
pub struct Swap {
    pub program_id: Pubkey,
    pub amm_id: Pubkey,
    pub amm_authority: Pubkey,
    pub amm_open_orders: Pubkey,
    pub amm_target_orders: Pubkey,
    pub pool_coin_token_account: Pubkey,
    pub pool_pc_token_account: Pubkey,
    pub serum_program_id: Pubkey,
    pub serum_market: Pubkey,
    pub serum_bids: Pubkey,
    pub serum_asks: Pubkey,
    pub serum_event_queue: Pubkey,
    pub serum_coin_vault_account: Pubkey,
    pub serum_pc_vault_account: Pubkey,
    pub serum_vault_signer: Pubkey,
    pub user_source_token_account: Pubkey,
    pub user_destination_token_account: Pubkey,
    pub user_source_owner: Pubkey,
    pub amount_in: u64,
    pub minimum_amount_out: u64,
}

/// The side an encoded side byte stands for: 0 is short, anything else long.
pub open spec fn spec_position_side(side: u8) -> PositionType {
    if side == 0 {
        PositionType::Short
    } else {
        PositionType::Long
    }
}

/// The side an encoded side byte stands for: 0 is short, anything else long.
pub fn position_side(side: u8) -> (r: PositionType)
    ensures
        r == spec_position_side(side),
{
    if side == 0 {
        PositionType::Short
    } else {
        PositionType::Long
    }
}

/// Side byte 0 opens a short position; every other byte a long one.
pub proof fn lemma_position_side(side: u8)
    ensures
        side == 0 ==> spec_position_side(side) == PositionType::Short,
        side != 0 ==> spec_position_side(side) == PositionType::Long,
{
}

} // verus!
