//! Bonding-curve economics engine for a token launchpad.
//!
//! A constant-product bonding curve lets users buy and sell a token against a
//! base currency (lamports) before the token graduates to an external
//! liquidity pool. This crate holds the verified pricing and settlement core:
//! overflow-checked fixed-point arithmetic, reserve updates for buy and sell
//! trades, the trade-fee split between protocol, creator and referrer,
//! referral-earnings accounting, and the one-way graduation and migration
//! state machine.
//!
//! Everything here is synchronous arithmetic over in-memory records; account
//! storage, signer authorization and the actual value transfers are the host
//! environment's concern and stay outside this crate.

pub mod bonding_curve;
pub mod constants;
pub mod errors;
pub mod fees;
pub mod global;
pub mod laws;
pub mod math;
pub mod referral;
