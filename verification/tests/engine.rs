use token_lp::bonding_curve::{BondingCurve, CurveState};
use token_lp::constants::{
    DEFAULT_CREATOR_SHARE_BPS, DEFAULT_GRADUATION_THRESHOLD, DEFAULT_REAL_TOKENS,
    DEFAULT_REFERRAL_SHARE_BPS, DEFAULT_TOKEN_SUPPLY, DEFAULT_TRADE_FEE_BPS, DEFAULT_VIRTUAL_SOL,
    DEFAULT_VIRTUAL_TOKENS, MIGRATION_FEE,
};
use token_lp::errors::{MathError, TradeError, TradeFailure};
use token_lp::global::{Global, ProgramStatus};

fn test_config() -> Global {
    Global {
        authority: 1,
        fee_receiver: 2,
        initial_virtual_sol_reserves: 30_000_000_000,
        initial_virtual_token_reserves: 1_073_000_000_000_000,
        initial_real_token_reserves: 793_100_000_000_000,
        token_total_supply: 1_000_000_000_000_000,
        token_decimals: 6,
        trade_fee_bps: 100,
        creator_share_bps: 3000,
        referral_share_bps: 1000,
        graduation_threshold: 85_000_000_000,
        status: ProgramStatus::Running,
    }
}

fn fresh_curve(g: &Global) -> BondingCurve {
    BondingCurve::launch(7, 8, g, 1_700_000_000)
}

#[test]
fn default_config_matches_constants() {
    let g = Global::default_config(11, 22);
    assert_eq!(g.authority, 11);
    assert_eq!(g.fee_receiver, 22);
    assert_eq!(g.initial_virtual_sol_reserves, DEFAULT_VIRTUAL_SOL);
    assert_eq!(g.initial_virtual_token_reserves, DEFAULT_VIRTUAL_TOKENS);
    assert_eq!(g.initial_real_token_reserves, DEFAULT_REAL_TOKENS);
    assert_eq!(g.token_total_supply, DEFAULT_TOKEN_SUPPLY);
    assert_eq!(g.trade_fee_bps, DEFAULT_TRADE_FEE_BPS);
    assert_eq!(g.creator_share_bps, DEFAULT_CREATOR_SHARE_BPS);
    assert_eq!(g.referral_share_bps, DEFAULT_REFERRAL_SHARE_BPS);
    assert_eq!(g.graduation_threshold, DEFAULT_GRADUATION_THRESHOLD);
    assert_eq!(g.status, ProgramStatus::Running);
    assert!(g.trading_allowed());
}

#[test]
fn launch_copies_config_defaults() {
    let g = test_config();
    let c = fresh_curve(&g);
    assert_eq!(c.mint, 7);
    assert_eq!(c.creator, 8);
    assert_eq!(c.virtual_sol, 30_000_000_000);
    assert_eq!(c.virtual_token, 1_073_000_000_000_000);
    assert_eq!(c.real_token, 793_100_000_000_000);
    assert_eq!(c.real_sol_reserves, 0);
    assert_eq!(c.token_total_supply, 1_000_000_000_000_000);
    assert_eq!(c.start_time, 1_700_000_000);
    assert_eq!(c.state(), CurveState::Active);
}

#[test]
fn buy_one_sol_floor_arithmetic() {
    // A buy of 1 sol on the stock curve: 1% fee, floor-divided
    // constant-product quote, and the matching reserve updates.
    let g = test_config();
    let mut c = fresh_curve(&g);
    let out = c.buy(&g, 1_000_000_000, 0, true).unwrap();
    assert_eq!(out.fees.total_fee, 10_000_000);
    assert_eq!(out.amount_out, 34_277_831_558_568);
    assert_eq!(c.virtual_sol, 30_990_000_000);
    assert_eq!(c.virtual_token, 1_038_722_168_441_432);
    assert_eq!(c.real_token, 793_100_000_000_000 - 34_277_831_558_568);
    assert_eq!(c.real_sol_reserves, 990_000_000);
    assert!(!c.completed);
    assert!(!c.migrated);
}

#[test]
fn fee_split_with_referrer() {
    // 30% to the creator, 10% to the referrer, the rest to the protocol.
    let g = test_config();
    let mut c = fresh_curve(&g);
    let out = c.buy(&g, 1_000_000_000, 0, true).unwrap();
    assert_eq!(out.fees.total_fee, 10_000_000);
    assert_eq!(out.fees.creator_cut, 3_000_000);
    assert_eq!(out.fees.referral_cut, 1_000_000);
    assert_eq!(out.fees.protocol_cut, 6_000_000);
}

#[test]
fn fee_split_without_referrer_goes_to_protocol() {
    let g = test_config();
    let mut c = fresh_curve(&g);
    let out = c.buy(&g, 1_000_000_000, 0, false).unwrap();
    assert_eq!(out.fees.creator_cut, 3_000_000);
    assert_eq!(out.fees.referral_cut, 0);
    assert_eq!(out.fees.protocol_cut, 7_000_000);
}

#[test]
fn fee_split_is_exact_with_remainder() {
    // A fee that does not divide evenly: the floors' remainder stays with
    // the protocol and the cuts still sum exactly.
    let s = token_lp::fees::split_fee(9_999, 3000, 1000, true);
    assert_eq!(s.creator_cut, 2_999);
    assert_eq!(s.referral_cut, 999);
    assert_eq!(s.protocol_cut, 9_999 - 2_999 - 999);
    assert_eq!(s.creator_cut + s.referral_cut + s.protocol_cut, s.total_fee);
}

#[test]
fn sell_returns_bought_tokens() {
    // Buy 1 sol, then sell every bought token back: the gross quote is one
    // lamport above the net paid (floor rounding), the 1% fee comes off the
    // sol leg, and the real reserves return to within rounding of launch.
    let g = test_config();
    let mut c = fresh_curve(&g);
    c.buy(&g, 1_000_000_000, 0, false).unwrap();
    let out = c.sell(&g, 34_277_831_558_568, 0, false).unwrap();
    assert_eq!(out.fees.total_fee, 9_900_000);
    assert_eq!(out.amount_out, 980_100_001);
    assert_eq!(c.virtual_sol, 29_999_999_999);
    assert_eq!(c.virtual_token, 1_073_000_000_000_000);
    assert_eq!(c.real_token, 793_100_000_000_000);
    assert_eq!(c.real_sol_reserves, 9_899_999);
    assert_eq!(out.fees.creator_cut, 2_970_000);
    assert_eq!(out.fees.referral_cut, 0);
    assert_eq!(out.fees.protocol_cut, 9_900_000 - 2_970_000);
}

#[test]
fn sell_real_token_capped_at_supply() {
    // A sell may only return previously sold real tokens: the real reserve
    // is capped at the total supply even when more tokens come in.
    let g = test_config();
    let mut c = fresh_curve(&g);
    // A curve one token unit short of holding the whole supply, with sol
    // to pay out; selling a billion units in would overshoot the supply.
    c.real_token = 999_999_999_999_999;
    c.real_sol_reserves = 10_000_000_000;
    let out = c.sell(&g, 1_000_000_000, 0, false).unwrap();
    assert_eq!(out.amount_out, 27_680);
    assert_eq!(c.real_token, 1_000_000_000_000_000);
    assert_eq!(c.token_total_supply, 1_000_000_000_000_000);
    assert_eq!(c.real_sol_reserves, 10_000_000_000 - 27_680);
}

#[test]
fn sell_on_fresh_curve_cannot_drain_real_sol() {
    // No sol has been paid in, so a sell that quotes positive sol fails
    // on the checked real-reserve subtraction.
    let g = test_config();
    let mut c = fresh_curve(&g);
    let before = c;
    let r = c.sell(&g, 1_000_000_000_000, 0, false);
    assert_eq!(r, Err(TradeFailure::Math(MathError::Overflow)));
    assert_eq!(c, before);
}

#[test]
fn buy_zero_amount_rejected() {
    let g = test_config();
    let mut c = fresh_curve(&g);
    let before = c;
    assert_eq!(
        c.buy(&g, 0, 0, false),
        Err(TradeFailure::Trade(TradeError::ZeroAmount))
    );
    assert_eq!(c, before);
}

#[test]
fn sell_zero_amount_rejected() {
    let g = test_config();
    let mut c = fresh_curve(&g);
    assert_eq!(
        c.sell(&g, 0, 0, false),
        Err(TradeFailure::Trade(TradeError::ZeroAmount))
    );
}

#[test]
fn paused_program_blocks_trades() {
    let mut g = test_config();
    g.status = ProgramStatus::Paused;
    assert!(!g.trading_allowed());
    let mut c = fresh_curve(&g);
    let before = c;
    assert_eq!(
        c.buy(&g, 1_000_000_000, 0, false),
        Err(TradeFailure::Trade(TradeError::ProgramPaused))
    );
    assert_eq!(
        c.sell(&g, 1_000_000, 0, false),
        Err(TradeFailure::Trade(TradeError::ProgramPaused))
    );
    assert_eq!(c, before);
}

#[test]
fn swap_only_still_allows_trades() {
    let mut g = test_config();
    g.status = ProgramStatus::SwapOnly;
    let mut c = fresh_curve(&g);
    assert!(c.buy(&g, 1_000_000_000, 0, false).is_ok());
}

#[test]
fn buy_slippage_bound_enforced() {
    let g = test_config();
    let mut c = fresh_curve(&g);
    let before = c;
    // One token unit above what the trade realizes.
    let r = c.buy(&g, 1_000_000_000, 34_277_831_558_569, false);
    assert_eq!(r, Err(TradeFailure::Trade(TradeError::SlippageExceeded)));
    assert_eq!(c, before);
    assert!(c.buy(&g, 1_000_000_000, 34_277_831_558_568, false).is_ok());
}

#[test]
fn sell_slippage_bound_enforced() {
    let g = test_config();
    let mut c = fresh_curve(&g);
    c.buy(&g, 1_000_000_000, 0, false).unwrap();
    let before = c;
    let r = c.sell(&g, 34_277_831_558_568, 980_100_002, false);
    assert_eq!(r, Err(TradeFailure::Trade(TradeError::SlippageExceeded)));
    assert_eq!(c, before);
}

#[test]
fn buy_cannot_exceed_real_token_reserve() {
    // The virtual reserves would quote more tokens than the curve really
    // holds: the buy is refused and nothing changes.
    let mut g = test_config();
    g.initial_real_token_reserves = 1_000_000; // nearly empty curve
    let mut c = fresh_curve(&g);
    let before = c;
    let r = c.buy(&g, 1_000_000_000, 0, false);
    assert_eq!(r, Err(TradeFailure::Trade(TradeError::NotEnoughTokens)));
    assert_eq!(c, before);
}

#[test]
fn trade_fee_above_hundred_percent_overflows() {
    // A misconfigured fee above 10_000 bps would make the fee exceed the
    // paid amount; the checked subtraction surfaces it as Overflow.
    let mut g = test_config();
    g.trade_fee_bps = 10_001;
    let mut c = fresh_curve(&g);
    let before = c;
    let r = c.buy(&g, 1_000_000_000, 0, false);
    assert_eq!(r, Err(TradeFailure::Math(MathError::Overflow)));
    assert_eq!(c, before);
}

#[test]
fn graduation_fires_exactly_on_threshold() {
    // Reserves land exactly on the threshold: completion flips in the same
    // call that updates the reserves.
    let g = test_config();
    let mut c = fresh_curve(&g);
    c.real_sol_reserves = 84_010_000_000;
    assert_eq!(c.state(), CurveState::Active);
    let out = c.buy(&g, 1_000_000_000, 0, false).unwrap();
    assert_eq!(out.amount_out, 34_277_831_558_568);
    assert_eq!(c.real_sol_reserves, 85_000_000_000);
    assert!(c.completed);
    assert_eq!(c.state(), CurveState::Completed);
}

#[test]
fn one_lamport_below_threshold_stays_active() {
    let g = test_config();
    let mut c = fresh_curve(&g);
    c.real_sol_reserves = 84_009_999_999;
    c.buy(&g, 1_000_000_000, 0, false).unwrap();
    assert_eq!(c.real_sol_reserves, 84_999_999_999);
    assert!(!c.completed);
}

#[test]
fn completed_curve_refuses_buy_without_state_change() {
    let g = test_config();
    let mut c = fresh_curve(&g);
    c.completed = true;
    let before = c;
    let r = c.buy(&g, 1_000_000_000, 0, false);
    assert_eq!(r, Err(TradeFailure::Trade(TradeError::CurveCompleted)));
    assert_eq!(c, before);
}

#[test]
fn completed_curve_refuses_sell() {
    let g = test_config();
    let mut c = fresh_curve(&g);
    c.completed = true;
    assert_eq!(
        c.sell(&g, 1_000_000, 0, false),
        Err(TradeFailure::Trade(TradeError::CurveCompleted))
    );
}

#[test]
fn migration_happens_once() {
    let g = test_config();
    let mut c = fresh_curve(&g);
    c.completed = true;
    c.real_sol_reserves = 85_000_000_000;
    c.real_token = 200_000_000_000_000;
    let out = c.migrate().unwrap();
    assert_eq!(out.migration_fee, MIGRATION_FEE);
    assert_eq!(out.sol_to_pool, 85_000_000_000 - MIGRATION_FEE);
    assert_eq!(out.tokens_to_pool, 200_000_000_000_000);
    assert_eq!(c.real_sol_reserves, 0);
    assert_eq!(c.real_token, 0);
    assert!(c.migrated);
    assert_eq!(c.state(), CurveState::Migrated);
    // A second migration fails with the terminal-state error.
    let before = c;
    assert_eq!(
        c.migrate(),
        Err(TradeFailure::Trade(TradeError::CurveCompleted))
    );
    assert_eq!(c, before);
}

#[test]
fn migration_requires_completed_state() {
    let g = test_config();
    let mut c = fresh_curve(&g);
    let before = c;
    assert_eq!(
        c.migrate(),
        Err(TradeFailure::Trade(TradeError::CurveCompleted))
    );
    assert_eq!(c, before);
}

#[test]
fn migration_fee_must_be_covered() {
    let g = test_config();
    let mut c = fresh_curve(&g);
    c.completed = true;
    c.real_sol_reserves = MIGRATION_FEE - 1;
    let before = c;
    assert_eq!(c.migrate(), Err(TradeFailure::Math(MathError::Overflow)));
    assert_eq!(c, before);
}

#[test]
fn product_never_grows_across_trades() {
    // The virtual-reserve product may only shrink, and by less than one
    // rounding step of the trade's divisor.
    let g = test_config();
    let mut c = fresh_curve(&g);
    let k0 = c.virtual_sol as u128 * c.virtual_token as u128;
    c.buy(&g, 123_456_789, 0, false).unwrap();
    let k1 = c.virtual_sol as u128 * c.virtual_token as u128;
    assert!(k1 <= k0);
    assert!(k0 < k1 + c.virtual_sol as u128);
    c.sell(&g, 1_234_567_890, 0, false).unwrap();
    let k2 = c.virtual_sol as u128 * c.virtual_token as u128;
    assert!(k2 <= k1);
    assert!(k1 < k2 + c.virtual_token as u128);
}

#[test]
fn lifecycle_active_completed_migrated() {
    // One record through its whole life: launch, the graduating buy, the
    // post-graduation trade refusals, migration, and the terminal state.
    let g = test_config();
    let mut c = fresh_curve(&g);
    c.real_sol_reserves = 84_500_000_000;
    c.buy(&g, 1_000_000_000, 0, true).unwrap();
    assert!(c.real_sol_reserves >= g.graduation_threshold);
    assert_eq!(c.state(), CurveState::Completed);
    assert_eq!(
        c.buy(&g, 1_000_000_000, 0, false),
        Err(TradeFailure::Trade(TradeError::CurveCompleted))
    );
    assert_eq!(
        c.sell(&g, 1_000_000, 0, false),
        Err(TradeFailure::Trade(TradeError::CurveCompleted))
    );
    let out = c.migrate().unwrap();
    assert_eq!(
        out.sol_to_pool + out.migration_fee,
        84_500_000_000 + 990_000_000
    );
    assert_eq!(c.state(), CurveState::Migrated);
    assert_eq!(
        c.migrate(),
        Err(TradeFailure::Trade(TradeError::CurveCompleted))
    );
}
