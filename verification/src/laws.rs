//! Engine-wide laws, proved once and for all inputs.
//!
//! These lemmas state the economic guarantees of the curve over the
//! mathematical trade functions [`buy_spec`](crate::bonding_curve::buy_spec)
//! and [`sell_spec`](crate::bonding_curve::sell_spec): the virtual-reserve
//! product never grows and shrinks by less than one floor-division rounding
//! step per trade, the real token reserve stays within the total supply,
//! and completion and migration are permanent, trade-blocking states.

use vstd::prelude::*;

use crate::bonding_curve::{buy_spec, migrate_spec, sell_spec, BondingCurve};
use crate::errors::{TradeError, TradeFailure};
use crate::global::Global;
use crate::math::lemma_mul_div_le;
use vstd::arithmetic::div_mod::{lemma_fundamental_div_mod, lemma_mod_division_less_than_divisor};
use vstd::arithmetic::mul::lemma_mul_is_commutative;

verus! {

/// A successful buy never increases the virtual-reserve product
/// `virtual_sol * virtual_token`, and leaves it within one rounding step:
/// the shortfall against the old product is strictly less than the updated
/// virtual sol reserve (the floor division's divisor), and zero whenever
/// the division is exact. A larger drop would leak value out of the curve.
pub proof fn lemma_buy_product_within_rounding(
    c: BondingCurve,
    g: Global,
    sol_in: u64,
    min_tokens_out: u64,
    referred: bool,
)
    requires
        c.wf(),
        g.wf(),
        buy_spec(c, g, sol_in, min_tokens_out, referred) is Ok,
    ensures
        ({
            let nc = buy_spec(c, g, sol_in, min_tokens_out, referred)->Ok_0.0;
            &&& nc.virtual_sol * nc.virtual_token <= c.virtual_sol * c.virtual_token
            &&& c.virtual_sol * c.virtual_token < nc.virtual_sol * nc.virtual_token
                + nc.virtual_sol
            &&& (c.virtual_sol * c.virtual_token) % (nc.virtual_sol as int) == 0
                ==> nc.virtual_sol * nc.virtual_token == c.virtual_sol * c.virtual_token
        }),
{
    let nc = buy_spec(c, g, sol_in, min_tokens_out, referred)->Ok_0.0;
    let k = c.virtual_sol as int * c.virtual_token as int;
    let d = nc.virtual_sol as int;
    lemma_fundamental_div_mod(k, d);
    lemma_mod_division_less_than_divisor(k, d);
    assert(nc.virtual_sol * nc.virtual_token == d * (k / d)) by {
        lemma_mul_is_commutative(nc.virtual_sol as int, nc.virtual_token as int);
    }
}

/// A successful sell never increases the virtual-reserve product, and
/// leaves it within one rounding step: the shortfall against the old
/// product is strictly less than the updated virtual token reserve, and
/// zero whenever the division is exact.
pub proof fn lemma_sell_product_within_rounding(
    c: BondingCurve,
    g: Global,
    tokens_in: u64,
    min_sol_out: u64,
    referred: bool,
)
    requires
        c.wf(),
        g.wf(),
        sell_spec(c, g, tokens_in, min_sol_out, referred) is Ok,
    ensures
        ({
            let nc = sell_spec(c, g, tokens_in, min_sol_out, referred)->Ok_0.0;
            &&& nc.virtual_sol * nc.virtual_token <= c.virtual_sol * c.virtual_token
            &&& c.virtual_sol * c.virtual_token < nc.virtual_sol * nc.virtual_token
                + nc.virtual_token
            &&& (c.virtual_sol * c.virtual_token) % (nc.virtual_token as int) == 0
                ==> nc.virtual_sol * nc.virtual_token == c.virtual_sol * c.virtual_token
        }),
{
    let nc = sell_spec(c, g, tokens_in, min_sol_out, referred)->Ok_0.0;
    let k = c.virtual_sol as int * c.virtual_token as int;
    let d = nc.virtual_token as int;
    lemma_mul_is_commutative(c.virtual_sol as int, c.virtual_token as int);
    lemma_mul_div_le(c.virtual_token as int, c.virtual_sol as int, d);
    lemma_fundamental_div_mod(k, d);
    lemma_mod_division_less_than_divisor(k, d);
    assert(nc.virtual_sol * nc.virtual_token == d * (k / d)) by {
        lemma_mul_is_commutative(nc.virtual_sol as int, nc.virtual_token as int);
    }
}

/// A trade on an active curve keeps the real token reserve between zero
/// and the token's total supply, which the trade never changes.
pub proof fn lemma_trades_keep_real_token_within_supply(
    c: BondingCurve,
    g: Global,
    amount_in: u64,
    min_out: u64,
    referred: bool,
)
    requires
        c.wf(),
        g.wf(),
    ensures
        buy_spec(c, g, amount_in, min_out, referred) matches Ok(p) ==> {
            let nc = p.0;
            &&& 0 <= nc.real_token <= nc.token_total_supply
            &&& nc.token_total_supply == c.token_total_supply
        },
        sell_spec(c, g, amount_in, min_out, referred) matches Ok(p) ==> {
            let nc = p.0;
            &&& 0 <= nc.real_token <= nc.token_total_supply
            &&& nc.token_total_supply == c.token_total_supply
        },
{
}

/// Once a curve is completed, every later buy and sell fails with
/// `CurveCompleted`, whatever the amounts: completion permanently ends
/// curve trading.
pub proof fn lemma_completed_curve_refuses_trades(
    c: BondingCurve,
    g: Global,
    amount_in: u64,
    min_out: u64,
    referred: bool,
)
    requires
        c.completed,
    ensures
        buy_spec(c, g, amount_in, min_out, referred) == Err::<
            (BondingCurve, crate::bonding_curve::TradeOutcome),
            TradeFailure,
        >(TradeFailure::Trade(TradeError::CurveCompleted)),
        sell_spec(c, g, amount_in, min_out, referred) == Err::<
            (BondingCurve, crate::bonding_curve::TradeOutcome),
            TradeFailure,
        >(TradeFailure::Trade(TradeError::CurveCompleted)),
{
}

/// The buy that graduates a curve is its last: after a successful buy that
/// set `completed`, any further trade fails with `CurveCompleted`.
pub proof fn lemma_graduating_buy_is_final(
    c: BondingCurve,
    g: Global,
    sol_in: u64,
    min_tokens_out: u64,
    referred: bool,
    amount_in: u64,
    min_out: u64,
    referred2: bool,
)
    requires
        buy_spec(c, g, sol_in, min_tokens_out, referred) matches Ok(p) && p.0.completed,
    ensures
        ({
            let nc = buy_spec(c, g, sol_in, min_tokens_out, referred)->Ok_0.0;
            &&& buy_spec(nc, g, amount_in, min_out, referred2) == Err::<
                (BondingCurve, crate::bonding_curve::TradeOutcome),
                TradeFailure,
            >(TradeFailure::Trade(TradeError::CurveCompleted))
            &&& sell_spec(nc, g, amount_in, min_out, referred2) == Err::<
                (BondingCurve, crate::bonding_curve::TradeOutcome),
                TradeFailure,
            >(TradeFailure::Trade(TradeError::CurveCompleted))
        }),
{
    let nc = buy_spec(c, g, sol_in, min_tokens_out, referred)->Ok_0.0;
    lemma_completed_curve_refuses_trades(nc, g, amount_in, min_out, referred2);
}

/// Migration is terminal: a migrated curve refuses a second migration, and
/// in particular the curve a successful migration leaves behind does.
pub proof fn lemma_migration_is_permanent(c: BondingCurve)
    ensures
        c.migrated ==> migrate_spec(c) == Err::<
            (BondingCurve, crate::bonding_curve::MigrationOutcome),
            TradeFailure,
        >(TradeFailure::Trade(TradeError::CurveCompleted)),
        migrate_spec(c) matches Ok(p) ==> migrate_spec(p.0) == Err::<
            (BondingCurve, crate::bonding_curve::MigrationOutcome),
            TradeFailure,
        >(TradeFailure::Trade(TradeError::CurveCompleted)),
{
}

} // verus!
