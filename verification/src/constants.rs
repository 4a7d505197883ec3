//! Deployment defaults and unit helpers.

use vstd::prelude::*;

verus! {

/// Base-currency minor units per whole unit (10^9 lamports per sol).
pub const LAMPORTS_PER_SOL: u64 = 1_000_000_000;

/// Default number of decimals of a launched token.
pub const DEFAULT_DECIMALS: u8 = 6;

/// Token minor units per whole token (10^6).
pub const TOKEN_DECIMALS_FACTOR: u64 = 1_000_000;

/// Basis-point denominator: 10_000 basis points are 100%.
pub const BPS_DENOMINATOR: u64 = 10_000;

/// Default synthetic sol liquidity of a fresh curve.
pub const DEFAULT_VIRTUAL_SOL: u64 = 30 * LAMPORTS_PER_SOL;

/// Default synthetic token liquidity of a fresh curve.
pub const DEFAULT_VIRTUAL_TOKENS: u64 = 1_073_000_000 * TOKEN_DECIMALS_FACTOR;

/// Default sellable real token reserve of a fresh curve.
pub const DEFAULT_REAL_TOKENS: u64 = 793_100_000 * TOKEN_DECIMALS_FACTOR;

/// Default total supply of a launched token.
pub const DEFAULT_TOKEN_SUPPLY: u64 = 1_000_000_000 * TOKEN_DECIMALS_FACTOR;

/// Default trade fee: 1% of the base-currency leg.
pub const DEFAULT_TRADE_FEE_BPS: u16 = 100;

/// Default creator share of the trade fee: 30%.
pub const DEFAULT_CREATOR_SHARE_BPS: u16 = 3_000;

/// Default referrer share of the trade fee: 10%.
pub const DEFAULT_REFERRAL_SHARE_BPS: u16 = 1_000;

/// Default real-sol threshold at which a curve graduates.
pub const DEFAULT_GRADUATION_THRESHOLD: u64 = 85 * LAMPORTS_PER_SOL;

/// Fixed fee deducted from the real sol reserves on migration.
pub const MIGRATION_FEE: u64 = LAMPORTS_PER_SOL / 2;

} // verus!
