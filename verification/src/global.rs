//! Process-wide configuration, read by every trade.
//!
//! The configuration is passed into each pricing call as an immutable
//! snapshot; the engine never mutates it.

use vstd::prelude::*;

use crate::constants::{
    BPS_DENOMINATOR, DEFAULT_CREATOR_SHARE_BPS, DEFAULT_DECIMALS, DEFAULT_GRADUATION_THRESHOLD,
    DEFAULT_REAL_TOKENS, DEFAULT_REFERRAL_SHARE_BPS, DEFAULT_TOKEN_SUPPLY, DEFAULT_TRADE_FEE_BPS,
    DEFAULT_VIRTUAL_SOL, DEFAULT_VIRTUAL_TOKENS,
};

verus! {

/// An account identity (a wallet or mint address), opaque to the engine:
/// it is only stored, handed back and compared, never inspected.
pub type AccountId = u64;

/// Whether the deployment accepts work.
#[derive(Clone, Copy, Debug, PartialEq, Eq, Structural)]
pub enum ProgramStatus {
    /// Everything is allowed.
    Running,
    /// Trades on existing curves are allowed, nothing else.
    SwapOnly,
    /// No trading at all.
    Paused,
}

/// The singleton deployment configuration. Created once by the authority;
/// consumed read-only by every trade, launch and migration.
#[derive(Clone, Copy, Debug, PartialEq, Eq, Structural)]
pub struct Global {
    /// Who may change this configuration (enforced by the host).
    pub authority: AccountId,
    /// Where the protocol's fee cut is credited.
    pub fee_receiver: AccountId,
    /// Synthetic sol liquidity a fresh curve starts with.
    pub initial_virtual_sol_reserves: u64,
    /// Synthetic token liquidity a fresh curve starts with.
    pub initial_virtual_token_reserves: u64,
    /// Sellable real token reserve a fresh curve starts with.
    pub initial_real_token_reserves: u64,
    /// Total supply of a launched token.
    pub token_total_supply: u64,
    /// Decimals of a launched token.
    pub token_decimals: u8,
    /// Trade fee taken from the base-currency leg, in basis points.
    pub trade_fee_bps: u16,
    /// Creator's share of the trade fee, in basis points.
    pub creator_share_bps: u16,
    /// Referrer's share of the trade fee, in basis points.
    pub referral_share_bps: u16,
    /// Real-sol level at which a curve graduates.
    pub graduation_threshold: u64,
    /// Whether the deployment accepts work.
    pub status: ProgramStatus,
}

impl Global {
    /// Well-formedness of a configuration: the creator and referrer fee
    /// shares fit together inside the fee, and the initial curve state it
    /// prescribes satisfies the curve invariant (positive virtual reserves,
    /// real reserve within the supply).
    pub open spec fn wf(self) -> bool {
        &&& self.creator_share_bps + self.referral_share_bps <= BPS_DENOMINATOR
        &&& self.initial_virtual_sol_reserves > 0
        &&& self.initial_virtual_token_reserves > 0
        &&& self.initial_real_token_reserves <= self.token_total_supply
    }

    /// The configuration a deployment starts with: the stock launchpad
    /// defaults, owned by `authority`, fees paid to `fee_receiver`.
    pub fn default_config(authority: AccountId, fee_receiver: AccountId) -> (g: Global)
        ensures
            g.wf(),
            g.authority == authority,
            g.fee_receiver == fee_receiver,
            g.initial_virtual_sol_reserves == DEFAULT_VIRTUAL_SOL,
            g.initial_virtual_token_reserves == DEFAULT_VIRTUAL_TOKENS,
            g.initial_real_token_reserves == DEFAULT_REAL_TOKENS,
            g.token_total_supply == DEFAULT_TOKEN_SUPPLY,
            g.token_decimals == DEFAULT_DECIMALS,
            g.trade_fee_bps == DEFAULT_TRADE_FEE_BPS,
            g.creator_share_bps == DEFAULT_CREATOR_SHARE_BPS,
            g.referral_share_bps == DEFAULT_REFERRAL_SHARE_BPS,
            g.graduation_threshold == DEFAULT_GRADUATION_THRESHOLD,
            g.status == ProgramStatus::Running,
    {
        Global {
            authority,
            fee_receiver,
            initial_virtual_sol_reserves: DEFAULT_VIRTUAL_SOL,
            initial_virtual_token_reserves: DEFAULT_VIRTUAL_TOKENS,
            initial_real_token_reserves: DEFAULT_REAL_TOKENS,
            token_total_supply: DEFAULT_TOKEN_SUPPLY,
            token_decimals: DEFAULT_DECIMALS,
            trade_fee_bps: DEFAULT_TRADE_FEE_BPS,
            creator_share_bps: DEFAULT_CREATOR_SHARE_BPS,
            referral_share_bps: DEFAULT_REFERRAL_SHARE_BPS,
            graduation_threshold: DEFAULT_GRADUATION_THRESHOLD,
            status: ProgramStatus::Running,
        }
    }

    /// Whether trades are permitted under this configuration: everything
    /// but `Paused` allows them.
    pub fn trading_allowed(&self) -> (b: bool)
        ensures
            b == (self.status != ProgramStatus::Paused),
    {
        self.status != ProgramStatus::Paused
    }
}

} // verus!
