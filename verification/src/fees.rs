//! The trade-fee split between protocol, creator and referrer.

use vstd::prelude::*;

use crate::constants::BPS_DENOMINATOR;
use crate::math::{bps_mul, bps_of, lemma_bps_shares_fit};
use vstd::pervasive::unreached;

verus! {

/// How one trade's fee is divided. The three cuts always sum exactly to
/// `total_fee`: the creator and referrer cuts are floors of their
/// basis-point shares and the protocol keeps the remainder.
#[derive(Clone, Copy, Debug, PartialEq, Eq, Structural)]
pub struct FeeSplit {
    /// The whole fee taken from the trade's base-currency leg.
    pub total_fee: u64,
    /// Credited to the curve's creator.
    pub creator_cut: u64,
    /// Credited to the trade's referrer; zero when the trade has none.
    pub referral_cut: u64,
    /// Credited to the configured fee receiver.
    pub protocol_cut: u64,
}

/// The fee split as a mathematical function: floor shares for the creator
/// and (when one is present) the referrer, remainder to the protocol. A
/// trade without a referrer leaves the would-be referral share to the
/// protocol.
pub open spec fn fee_split_spec(
    total_fee: u64,
    creator_share_bps: u16,
    referral_share_bps: u16,
    referred: bool,
) -> FeeSplit
    recommends
        creator_share_bps + referral_share_bps <= BPS_DENOMINATOR,
{
    let creator_cut = bps_of(total_fee as int, creator_share_bps as int);
    let referral_cut = if referred {
        bps_of(total_fee as int, referral_share_bps as int)
    } else {
        0
    };
    FeeSplit {
        total_fee,
        creator_cut: creator_cut as u64,
        referral_cut: referral_cut as u64,
        protocol_cut: (total_fee - creator_cut - referral_cut) as u64,
    }
}

/// The three cuts of a fee split sum exactly to the fee: no remainder is
/// ever unaccounted, whether or not a referrer is present.
pub proof fn lemma_fee_split_exact(
    total_fee: u64,
    creator_share_bps: u16,
    referral_share_bps: u16,
    referred: bool,
)
    requires
        creator_share_bps + referral_share_bps <= BPS_DENOMINATOR,
    ensures
        ({
            let s = fee_split_spec(total_fee, creator_share_bps, referral_share_bps, referred);
            &&& s.total_fee == total_fee
            &&& s.creator_cut + s.referral_cut + s.protocol_cut == total_fee
            &&& s.creator_cut == bps_of(total_fee as int, creator_share_bps as int)
            &&& s.referral_cut == if referred {
                bps_of(total_fee as int, referral_share_bps as int)
            } else {
                0int
            }
        }),
{
    lemma_bps_shares_fit(total_fee as int, creator_share_bps as int, referral_share_bps as int);
}

/// Computes the split of the gross trade fee `total_fee`. The creator cut
/// is the floor of its basis-point share; the referral cut likewise, but
/// only when a registered referrer accompanies the trade; the protocol
/// keeps the exact remainder, so the cuts sum to `total_fee`.
pub fn split_fee(
    total_fee: u64,
    creator_share_bps: u16,
    referral_share_bps: u16,
    referred: bool,
) -> (s: FeeSplit)
    requires
        creator_share_bps + referral_share_bps <= BPS_DENOMINATOR,
    ensures
        s == fee_split_spec(total_fee, creator_share_bps, referral_share_bps, referred),
        s.creator_cut + s.referral_cut + s.protocol_cut == total_fee,
        !referred ==> s.referral_cut == 0,
{
    proof {
        lemma_fee_split_exact(total_fee, creator_share_bps, referral_share_bps, referred);
    }
    let creator_cut = match bps_mul(total_fee, creator_share_bps) {
        Ok(c) => c,
        Err(_) => unreached(),
    };
    let referral_cut = if referred {
        match bps_mul(total_fee, referral_share_bps) {
            Ok(c) => c,
            Err(_) => unreached(),
        }
    } else {
        0
    };
    let protocol_cut = total_fee - creator_cut - referral_cut;
    FeeSplit { total_fee, creator_cut, referral_cut, protocol_cut }
}

} // verus!
