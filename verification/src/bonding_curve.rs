//! The reserve curve: one record per launched token, with the buy/sell
//! pricing math, graduation and migration.
//!
//! Pricing follows the constant-product rule over the *virtual* reserves,
//! which are synthetic liquidity and are never drained to zero; only the
//! *real* reserves are drainable. Every call either commits all its state
//! changes or fails before any of them: a failed call leaves the curve
//! exactly as it was.

use vstd::prelude::*;

use crate::constants::MIGRATION_FEE;
use crate::errors::{MathError, TradeError, TradeFailure};
use crate::fees::{fee_split_spec, split_fee, FeeSplit};
use crate::global::{AccountId, Global, ProgramStatus};
use crate::math::{bps_mul, bps_of, lemma_mul_div_le};
use vstd::arithmetic::mul::{lemma_mul_is_commutative, lemma_mul_upper_bound};

verus! {

/// The strictly forward life of a curve: `Active` (trading) to `Completed`
/// (graduated, waiting for migration) to `Migrated` (reserves handed off).
#[derive(Clone, Copy, Debug, PartialEq, Eq, Structural)]
pub enum CurveState {
    Active,
    Completed,
    Migrated,
}

/// What a successful trade reports back: the realized output and where
/// the fee went.
#[derive(Clone, Copy, Debug, PartialEq, Eq, Structural)]
pub struct TradeOutcome {
    /// What the trader receives: token units for a buy, lamports net of
    /// the fee for a sell.
    pub amount_out: u64,
    /// The trade's fee and its exact split.
    pub fees: FeeSplit,
}

/// What a migration hands to the external liquidity venue.
#[derive(Clone, Copy, Debug, PartialEq, Eq, Structural)]
pub struct MigrationOutcome {
    /// Real sol moved to the venue: the reserves minus the migration fee.
    pub sol_to_pool: u64,
    /// Real tokens moved to the venue.
    pub tokens_to_pool: u64,
    /// The fixed fee kept back from the real sol reserves.
    pub migration_fee: u64,
}

/// One token's bonding curve.
#[derive(Clone, Copy, Debug, PartialEq, Eq, Structural)]
pub struct BondingCurve {
    /// The launched token.
    pub mint: AccountId,
    /// Who launched it; earns the creator's share of every trade fee.
    pub creator: AccountId,
    /// Synthetic sol reserve, used only for pricing.
    pub virtual_sol: u64,
    /// Synthetic token reserve, used only for pricing.
    pub virtual_token: u64,
    /// Real tokens still held by the curve; bounds what a buy can return.
    pub real_token: u64,
    /// Real sol accumulated by buys net of fees; drives graduation.
    pub real_sol_reserves: u64,
    /// Total supply of the token; `real_token` never exceeds it.
    pub token_total_supply: u64,
    /// When trading opened.
    pub start_time: i64,
    /// Set once, by the buy whose reserves reach the graduation threshold.
    pub completed: bool,
    /// Set once, by the migration operation, after `completed`.
    pub migrated: bool,
}

/// The raw constant-product buy quote: how many tokens `net_sol_in`
/// (the paid sol net of the fee) buys out of reserves `(virtual_sol,
/// virtual_token)`. The quotient is floor-divided.
pub open spec fn buy_quote(virtual_sol: u64, virtual_token: u64, net_sol_in: u64) -> int
    recommends
        virtual_sol > 0,
{
    virtual_token - (virtual_sol * virtual_token) / (virtual_sol + net_sol_in)
}

/// The raw constant-product sell quote: how much sol, before the fee,
/// `tokens_in` returns out of reserves `(virtual_sol, virtual_token)`.
/// The quotient is floor-divided.
pub open spec fn sell_quote(virtual_sol: u64, virtual_token: u64, tokens_in: u64) -> int
    recommends
        virtual_token > 0,
{
    virtual_sol - (virtual_sol * virtual_token) / (virtual_token + tokens_in)
}

/// The complete effect of a buy of `sol_in` lamports, as a mathematical
/// function: either the updated curve with the trade's outcome, or the
/// error the call fails with (and then nothing changes). The conditions
/// are checked in this order:
///
/// - the curve must still be active, else `CurveCompleted`;
/// - the configuration must not be paused, else `ProgramPaused`;
/// - `sol_in` must be positive, else `ZeroAmount`;
/// - the fee (a floor basis-point share of `sol_in`) must fit inside
///   `sol_in`, else `Overflow` (only possible above 10_000 bps);
/// - the grown virtual sol reserve must fit in a u64, else `Overflow`;
/// - the quote must neither drain the virtual token reserve to zero nor
///   exceed the real token reserve, else `NotEnoughTokens`;
/// - the quote must reach the caller's minimum, else `SlippageExceeded`;
/// - the grown real sol reserve must fit in a u64, else `Overflow`.
///
/// A successful buy moves `net_sol_in` into both sol reserves, moves the
/// bought tokens out of both token reserves, splits the fee, and graduates
/// the curve (sets `completed`) in the same step exactly when the new real
/// sol reserves reach the graduation threshold.
pub open spec fn buy_spec(
    c: BondingCurve,
    g: Global,
    sol_in: u64,
    min_tokens_out: u64,
    referred: bool,
) -> Result<(BondingCurve, TradeOutcome), TradeFailure>
    recommends
        c.wf(),
        g.wf(),
{
    if c.completed {
        Err(TradeFailure::Trade(TradeError::CurveCompleted))
    } else if g.status == ProgramStatus::Paused {
        Err(TradeFailure::Trade(TradeError::ProgramPaused))
    } else if sol_in == 0 {
        Err(TradeFailure::Trade(TradeError::ZeroAmount))
    } else {
        let fee = bps_of(sol_in as int, g.trade_fee_bps as int);
        if fee > sol_in {
            Err(TradeFailure::Math(MathError::Overflow))
        } else {
            let net_sol_in = (sol_in - fee) as u64;
            if c.virtual_sol + net_sol_in > u64::MAX {
                Err(TradeFailure::Math(MathError::Overflow))
            } else {
                let tokens_out = buy_quote(c.virtual_sol, c.virtual_token, net_sol_in);
                if tokens_out == c.virtual_token || tokens_out > c.real_token {
                    Err(TradeFailure::Trade(TradeError::NotEnoughTokens))
                } else if tokens_out < min_tokens_out {
                    Err(TradeFailure::Trade(TradeError::SlippageExceeded))
                } else if c.real_sol_reserves + net_sol_in > u64::MAX {
                    Err(TradeFailure::Math(MathError::Overflow))
                } else {
                    let new_real_sol = (c.real_sol_reserves + net_sol_in) as u64;
                    let new_curve = BondingCurve {
                        mint: c.mint,
                        creator: c.creator,
                        virtual_sol: (c.virtual_sol + net_sol_in) as u64,
                        virtual_token: (c.virtual_token - tokens_out) as u64,
                        real_token: (c.real_token - tokens_out) as u64,
                        real_sol_reserves: new_real_sol,
                        token_total_supply: c.token_total_supply,
                        start_time: c.start_time,
                        completed: new_real_sol >= g.graduation_threshold,
                        migrated: c.migrated,
                    };
                    let outcome = TradeOutcome {
                        amount_out: tokens_out as u64,
                        fees: fee_split_spec(
                            fee as u64,
                            g.creator_share_bps,
                            g.referral_share_bps,
                            referred,
                        ),
                    };
                    Ok((new_curve, outcome))
                }
            }
        }
    }
}

/// The complete effect of a sell of `tokens_in` token units, as a
/// mathematical function. The conditions are checked in this order:
///
/// - the curve must still be active, else `CurveCompleted`;
/// - the configuration must not be paused, else `ProgramPaused`;
/// - `tokens_in` must be positive, else `ZeroAmount`;
/// - the grown virtual token reserve must fit in a u64, else `Overflow`;
/// - the quote must not drain the virtual sol reserve to zero, else
///   `NotEnoughTokens`;
/// - the fee (a floor basis-point share of the quoted sol, taken from the
///   base-currency leg as on a buy) must fit inside the quote, else
///   `Overflow`;
/// - the net sol out must reach the caller's minimum, else
///   `SlippageExceeded`;
/// - the real sol reserves must cover the net sol out, else `Overflow`.
///
/// A successful sell moves `tokens_in` into the virtual token reserve and
/// into the real token reserve (the latter capped at the total supply:
/// sells can only return previously sold real tokens), moves the quoted
/// sol out of the virtual reserve and the net sol out of the real reserve,
/// and splits the fee.
pub open spec fn sell_spec(
    c: BondingCurve,
    g: Global,
    tokens_in: u64,
    min_sol_out: u64,
    referred: bool,
) -> Result<(BondingCurve, TradeOutcome), TradeFailure>
    recommends
        c.wf(),
        g.wf(),
{
    if c.completed {
        Err(TradeFailure::Trade(TradeError::CurveCompleted))
    } else if g.status == ProgramStatus::Paused {
        Err(TradeFailure::Trade(TradeError::ProgramPaused))
    } else if tokens_in == 0 {
        Err(TradeFailure::Trade(TradeError::ZeroAmount))
    } else if c.virtual_token + tokens_in > u64::MAX {
        Err(TradeFailure::Math(MathError::Overflow))
    } else {
        let sol_out = sell_quote(c.virtual_sol, c.virtual_token, tokens_in);
        if sol_out == c.virtual_sol {
            Err(TradeFailure::Trade(TradeError::NotEnoughTokens))
        } else {
            let fee = bps_of(sol_out, g.trade_fee_bps as int);
            if fee > sol_out {
                Err(TradeFailure::Math(MathError::Overflow))
            } else {
                let net_sol_out = sol_out - fee;
                if net_sol_out < min_sol_out {
                    Err(TradeFailure::Trade(TradeError::SlippageExceeded))
                } else if net_sol_out > c.real_sol_reserves {
                    Err(TradeFailure::Math(MathError::Overflow))
                } else {
                    let new_real_token = if c.real_token + tokens_in > c.token_total_supply {
                        c.token_total_supply
                    } else {
                        (c.real_token + tokens_in) as u64
                    };
                    let new_curve = BondingCurve {
                        mint: c.mint,
                        creator: c.creator,
                        virtual_sol: (c.virtual_sol - sol_out) as u64,
                        virtual_token: (c.virtual_token + tokens_in) as u64,
                        real_token: new_real_token,
                        real_sol_reserves: (c.real_sol_reserves - net_sol_out) as u64,
                        token_total_supply: c.token_total_supply,
                        start_time: c.start_time,
                        completed: c.completed,
                        migrated: c.migrated,
                    };
                    let outcome = TradeOutcome {
                        amount_out: net_sol_out as u64,
                        fees: fee_split_spec(
                            fee as u64,
                            g.creator_share_bps,
                            g.referral_share_bps,
                            referred,
                        ),
                    };
                    Ok((new_curve, outcome))
                }
            }
        }
    }
}

/// The complete effect of a migration, as a mathematical function. It is
/// legal exactly once, in the `Completed` state: any other state fails
/// with the terminal-state error `CurveCompleted` and changes nothing. The
/// fixed migration fee must be covered by the real sol reserves, else
/// `Overflow`. A successful migration hands the remaining real reserves
/// (sol and tokens) to the external venue, empties them, and sets
/// `migrated` — irrevocably.
pub open spec fn migrate_spec(c: BondingCurve) -> Result<
    (BondingCurve, MigrationOutcome),
    TradeFailure,
>
    recommends
        c.wf(),
{
    if !c.completed || c.migrated {
        Err(TradeFailure::Trade(TradeError::CurveCompleted))
    } else if c.real_sol_reserves < MIGRATION_FEE {
        Err(TradeFailure::Math(MathError::Overflow))
    } else {
        let new_curve = BondingCurve {
            mint: c.mint,
            creator: c.creator,
            virtual_sol: c.virtual_sol,
            virtual_token: c.virtual_token,
            real_token: 0,
            real_sol_reserves: 0,
            token_total_supply: c.token_total_supply,
            start_time: c.start_time,
            completed: c.completed,
            migrated: true,
        };
        let outcome = MigrationOutcome {
            sol_to_pool: (c.real_sol_reserves - MIGRATION_FEE) as u64,
            tokens_to_pool: c.real_token,
            migration_fee: MIGRATION_FEE,
        };
        Ok((new_curve, outcome))
    }
}

impl BondingCurve {
    /// The curve invariant: the synthetic reserves are never zero (they
    /// are liquidity for pricing, not a drainable balance), the real token
    /// reserve stays within the total supply, and a migrated curve is a
    /// completed one.
    pub open spec fn wf(self) -> bool {
        &&& self.virtual_sol > 0
        &&& self.virtual_token > 0
        &&& self.real_token <= self.token_total_supply
        &&& (self.migrated ==> self.completed)
    }

    /// Where the curve stands in its one-way life.
    pub open spec fn spec_state(self) -> CurveState {
        if self.migrated {
            CurveState::Migrated
        } else if self.completed {
            CurveState::Completed
        } else {
            CurveState::Active
        }
    }

    /// Where the curve stands in its one-way life.
    pub fn state(&self) -> (s: CurveState)
        ensures
            s == self.spec_state(),
    {
        if self.migrated {
            CurveState::Migrated
        } else if self.completed {
            CurveState::Completed
        } else {
            CurveState::Active
        }
    }

    /// Launches a token: a fresh, active curve with the virtual and real
    /// reserves the configuration prescribes and no real sol yet.
    pub fn launch(mint: AccountId, creator: AccountId, g: &Global, start_time: i64) -> (c:
        BondingCurve)
        requires
            g.wf(),
        ensures
            c.wf(),
            c.spec_state() == CurveState::Active,
            c.mint == mint,
            c.creator == creator,
            c.virtual_sol == g.initial_virtual_sol_reserves,
            c.virtual_token == g.initial_virtual_token_reserves,
            c.real_token == g.initial_real_token_reserves,
            c.real_sol_reserves == 0,
            c.token_total_supply == g.token_total_supply,
            c.start_time == start_time,
            !c.completed,
            !c.migrated,
    {
        BondingCurve {
            mint,
            creator,
            virtual_sol: g.initial_virtual_sol_reserves,
            virtual_token: g.initial_virtual_token_reserves,
            real_token: g.initial_real_token_reserves,
            real_sol_reserves: 0,
            token_total_supply: g.token_total_supply,
            start_time,
            completed: false,
            migrated: false,
        }
    }

    /// Buys tokens with `sol_in` lamports. Behaves exactly as [`buy_spec`]
    /// says: on success the curve takes the updated state atomically (and
    /// may graduate in the same step); on any error it is left untouched.
    pub fn buy(&mut self, g: &Global, sol_in: u64, min_tokens_out: u64, referred: bool) -> (r:
        Result<TradeOutcome, TradeFailure>)
        requires
            old(self).wf(),
            g.wf(),
        ensures
            ({
                let s = buy_spec(*old(self), *g, sol_in, min_tokens_out, referred);
                match s {
                    Ok(p) => r == Ok::<TradeOutcome, TradeFailure>(p.1) && *final(self) == p.0,
                    Err(e) => r == Err::<TradeOutcome, TradeFailure>(e) && *final(self) == *old(
                        self,
                    ),
                }
            }),
            final(self).wf(),
            old(self).completed ==> r == Err::<TradeOutcome, TradeFailure>(
                TradeFailure::Trade(TradeError::CurveCompleted),
            ),
            r is Ok ==> final(self).completed == (final(self).real_sol_reserves
                >= g.graduation_threshold),
            r matches Ok(out) ==> out.fees.creator_cut + out.fees.referral_cut
                + out.fees.protocol_cut == out.fees.total_fee,
    {
        if self.completed {
            return Err(TradeFailure::Trade(TradeError::CurveCompleted));
        }
        if self.status_paused(g) {
            return Err(TradeFailure::Trade(TradeError::ProgramPaused));
        }
        if sol_in == 0 {
            return Err(TradeFailure::Trade(TradeError::ZeroAmount));
        }
        let fee = match bps_mul(sol_in, g.trade_fee_bps) {
            Ok(f) => f,
            Err(e) => {
                return Err(TradeFailure::Math(e));
            },
        };
        if fee > sol_in {
            return Err(TradeFailure::Math(MathError::Overflow));
        }
        let net_sol_in = sol_in - fee;
        let new_virtual_sol = match self.virtual_sol.checked_add(net_sol_in) {
            Some(v) => v,
            None => {
                return Err(TradeFailure::Math(MathError::Overflow));
            },
        };
        proof {
            lemma_mul_upper_bound(
                self.virtual_sol as int,
                u64::MAX as int,
                self.virtual_token as int,
                u64::MAX as int,
            );
            lemma_mul_div_le(
                self.virtual_sol as int,
                self.virtual_token as int,
                new_virtual_sol as int,
            );
        }
        let invariant_k: u128 = (self.virtual_sol as u128) * (self.virtual_token as u128);
        let kept: u64 = (invariant_k / (new_virtual_sol as u128)) as u64;
        let tokens_out = self.virtual_token - kept;
        if tokens_out == self.virtual_token || tokens_out > self.real_token {
            return Err(TradeFailure::Trade(TradeError::NotEnoughTokens));
        }
        if tokens_out < min_tokens_out {
            return Err(TradeFailure::Trade(TradeError::SlippageExceeded));
        }
        let new_real_sol = match self.real_sol_reserves.checked_add(net_sol_in) {
            Some(v) => v,
            None => {
                return Err(TradeFailure::Math(MathError::Overflow));
            },
        };
        let fees = split_fee(fee, g.creator_share_bps, g.referral_share_bps, referred);
        self.virtual_sol = new_virtual_sol;
        self.virtual_token = self.virtual_token - tokens_out;
        self.real_token = self.real_token - tokens_out;
        self.real_sol_reserves = new_real_sol;
        self.completed = new_real_sol >= g.graduation_threshold;
        Ok(TradeOutcome { amount_out: tokens_out, fees })
    }

    /// Sells `tokens_in` token units back to the curve. Behaves exactly as
    /// [`sell_spec`] says: on success the curve takes the updated state
    /// atomically; on any error it is left untouched. The fee is taken
    /// from the base-currency leg, as on a buy.
    pub fn sell(&mut self, g: &Global, tokens_in: u64, min_sol_out: u64, referred: bool) -> (r:
        Result<TradeOutcome, TradeFailure>)
        requires
            old(self).wf(),
            g.wf(),
        ensures
            ({
                let s = sell_spec(*old(self), *g, tokens_in, min_sol_out, referred);
                match s {
                    Ok(p) => r == Ok::<TradeOutcome, TradeFailure>(p.1) && *final(self) == p.0,
                    Err(e) => r == Err::<TradeOutcome, TradeFailure>(e) && *final(self) == *old(
                        self,
                    ),
                }
            }),
            final(self).wf(),
            old(self).completed ==> r == Err::<TradeOutcome, TradeFailure>(
                TradeFailure::Trade(TradeError::CurveCompleted),
            ),
            r is Ok ==> final(self).completed == old(self).completed,
            r matches Ok(out) ==> out.fees.creator_cut + out.fees.referral_cut
                + out.fees.protocol_cut == out.fees.total_fee,
    {
        if self.completed {
            return Err(TradeFailure::Trade(TradeError::CurveCompleted));
        }
        if self.status_paused(g) {
            return Err(TradeFailure::Trade(TradeError::ProgramPaused));
        }
        if tokens_in == 0 {
            return Err(TradeFailure::Trade(TradeError::ZeroAmount));
        }
        let new_virtual_token = match self.virtual_token.checked_add(tokens_in) {
            Some(v) => v,
            None => {
                return Err(TradeFailure::Math(MathError::Overflow));
            },
        };
        proof {
            lemma_mul_upper_bound(
                self.virtual_sol as int,
                u64::MAX as int,
                self.virtual_token as int,
                u64::MAX as int,
            );
            lemma_mul_div_le(
                self.virtual_token as int,
                self.virtual_sol as int,
                new_virtual_token as int,
            );
            lemma_mul_is_commutative(self.virtual_sol as int, self.virtual_token as int);
        }
        let invariant_k: u128 = (self.virtual_sol as u128) * (self.virtual_token as u128);
        let kept: u64 = (invariant_k / (new_virtual_token as u128)) as u64;
        let sol_out = self.virtual_sol - kept;
        if sol_out == self.virtual_sol {
            return Err(TradeFailure::Trade(TradeError::NotEnoughTokens));
        }
        let fee = match bps_mul(sol_out, g.trade_fee_bps) {
            Ok(f) => f,
            Err(e) => {
                return Err(TradeFailure::Math(e));
            },
        };
        if fee > sol_out {
            return Err(TradeFailure::Math(MathError::Overflow));
        }
        let net_sol_out = sol_out - fee;
        if net_sol_out < min_sol_out {
            return Err(TradeFailure::Trade(TradeError::SlippageExceeded));
        }
        let new_real_sol = match self.real_sol_reserves.checked_sub(net_sol_out) {
            Some(v) => v,
            None => {
                return Err(TradeFailure::Math(MathError::Overflow));
            },
        };
        let new_real_token = match self.real_token.checked_add(tokens_in) {
            Some(s) => if s > self.token_total_supply {
                self.token_total_supply
            } else {
                s
            },
            None => self.token_total_supply,
        };
        let fees = split_fee(fee, g.creator_share_bps, g.referral_share_bps, referred);
        self.virtual_sol = kept;
        self.virtual_token = new_virtual_token;
        self.real_token = new_real_token;
        self.real_sol_reserves = new_real_sol;
        Ok(TradeOutcome { amount_out: net_sol_out, fees })
    }

    /// Migrates a completed curve's remaining real reserves to the external
    /// liquidity venue. Behaves exactly as [`migrate_spec`] says: legal
    /// once, only in the `Completed` state; on any error the curve is left
    /// untouched.
    pub fn migrate(&mut self) -> (r: Result<MigrationOutcome, TradeFailure>)
        requires
            old(self).wf(),
        ensures
            ({
                let s = migrate_spec(*old(self));
                match s {
                    Ok(p) => r == Ok::<MigrationOutcome, TradeFailure>(p.1) && *final(self) == p.0,
                    Err(e) => r == Err::<MigrationOutcome, TradeFailure>(e) && *final(self) == *old(
                        self,
                    ),
                }
            }),
            final(self).wf(),
            old(self).migrated ==> r == Err::<MigrationOutcome, TradeFailure>(
                TradeFailure::Trade(TradeError::CurveCompleted),
            ),
            r is Ok ==> final(self).spec_state() == CurveState::Migrated,
    {
        if !self.completed || self.migrated {
            return Err(TradeFailure::Trade(TradeError::CurveCompleted));
        }
        let sol_to_pool = match self.real_sol_reserves.checked_sub(MIGRATION_FEE) {
            Some(v) => v,
            None => {
                return Err(TradeFailure::Math(MathError::Overflow));
            },
        };
        let tokens_to_pool = self.real_token;
        self.real_sol_reserves = 0;
        self.real_token = 0;
        self.migrated = true;
        Ok(MigrationOutcome { sol_to_pool, tokens_to_pool, migration_fee: MIGRATION_FEE })
    }

    /// Whether the configuration blocks trading.
    fn status_paused(&self, g: &Global) -> (b: bool)
        ensures
            b == (g.status == ProgramStatus::Paused),
    {
        g.status == ProgramStatus::Paused
    }
}

} // verus!
