//! How an arbiter's outcome divides a disputed vault balance between buyer
//! and seller. Fees and insurance are taken from the seller's part only.

use vstd::prelude::*;
use crate::escrow::DisputeOutcome;
use crate::payout::{
    BPS_DENOMINATOR,
    Party,
    Transfer,
    bps_of_spec,
    calc_fee_splits,
    lemma_bps_of_bounds,
    lemma_fees_within_principal,
    mul_bps,
    push_transfer,
    saturating_sub_spec,
    transfer_if,
};

verus! {

#[derive(Clone, Copy, Debug, PartialEq, Eq, Structural)]
pub struct DisputeSplit {
    pub total: u64,
    pub buyer_amount: u64,
    /// The seller's part before fee and insurance.
    pub seller_gross: u64,
    pub fee_cut: u64,
    pub insurance_cut: u64,
    /// What the seller receives.
    pub seller_net: u64,
}

/// The seller's part of `total` under `outcome`: nothing on a refund, all of
/// it on a release, `seller_pct_bps` of it on a split.
pub open spec fn seller_gross_spec(total: int, outcome: DisputeOutcome, seller_pct_bps: int) -> int {
    match outcome {
        DisputeOutcome::Refund => 0,
        DisputeOutcome::Release => total,
        DisputeOutcome::Split => bps_of_spec(total, seller_pct_bps),
    }
}

/// Whether `s` divides `total` as the arbiter's outcome says.
pub open spec fn is_split_of(
    s: DisputeSplit,
    total: u64,
    outcome: DisputeOutcome,
    seller_pct_bps: u16,
    fee_bps: u16,
    insurance_bps: u16,
) -> bool {
    let gross = seller_gross_spec(total as int, outcome, seller_pct_bps as int);
    &&& s.total == total
    &&& s.seller_gross == gross
    &&& s.buyer_amount == saturating_sub_spec(total as int, gross)
    &&& s.fee_cut == bps_of_spec(gross, fee_bps as int)
    &&& s.insurance_cut == bps_of_spec(gross, insurance_bps as int)
    &&& s.seller_net == saturating_sub_spec(gross, s.fee_cut + s.insurance_cut)
}

/// The transfers that carry out a split, in this order: buyer, seller, fee,
/// insurance; each only when non-zero.
pub open spec fn dispute_transfers_spec(s: DisputeSplit) -> Seq<Transfer> {
    transfer_if(Party::Buyer, s.buyer_amount) + transfer_if(Party::Seller, s.seller_net)
        + transfer_if(Party::Treasury, s.fee_cut) + transfer_if(
        Party::InsuranceTreasury,
        s.insurance_cut,
    )
}

/// Divides `total` between buyer and seller as `outcome` says, and takes fee
/// and insurance from the seller's part.
pub fn split_dispute(
    total: u64,
    outcome: DisputeOutcome,
    seller_pct_bps: u16,
    fee_bps: u16,
    insurance_bps: u16,
) -> (s: DisputeSplit)
    ensures
        is_split_of(s, total, outcome, seller_pct_bps, fee_bps, insurance_bps),
{
    let (buyer_amount, seller_gross) = match outcome {
        DisputeOutcome::Refund => (total, 0u64),
        DisputeOutcome::Release => (0u64, total),
        DisputeOutcome::Split => {
            let seller_amt = mul_bps(total, seller_pct_bps);
            (total.saturating_sub(seller_amt), seller_amt)
        },
    };
    let (fee_cut, insurance_cut) = if seller_gross > 0 {
        calc_fee_splits(seller_gross, fee_bps, insurance_bps)
    } else {
        (0u64, 0u64)
    };
    proof {
        lemma_bps_of_bounds(seller_gross as int, fee_bps as int);
        lemma_bps_of_bounds(seller_gross as int, insurance_bps as int);
    }
    let seller_net = seller_gross.saturating_sub(fee_cut + insurance_cut);
    DisputeSplit { total, buyer_amount, seller_gross, fee_cut, insurance_cut, seller_net }
}

/// The transfers that carry out `s`, in the order of `dispute_transfers_spec`.
pub fn dispute_transfers(s: &DisputeSplit) -> (r: Vec<Transfer>)
    ensures
        r@ == dispute_transfers_spec(*s),
{
    let mut r: Vec<Transfer> = Vec::new();
    push_transfer(&mut r, Party::Buyer, s.buyer_amount);
    push_transfer(&mut r, Party::Seller, s.seller_net);
    push_transfer(&mut r, Party::Treasury, s.fee_cut);
    push_transfer(&mut r, Party::InsuranceTreasury, s.insurance_cut);
    assert(r@ =~= dispute_transfers_spec(*s));
    r
}

/// For every share of at most one whole, buyer and seller parts add up to
/// the disputed total exactly; and when the fee and insurance rates sum to at
/// most one whole, the seller receives its part less fee less insurance.
pub proof fn lemma_dispute_split_exact(
    s: DisputeSplit,
    total: u64,
    outcome: DisputeOutcome,
    seller_pct_bps: u16,
    fee_bps: u16,
    insurance_bps: u16,
)
    requires
        is_split_of(s, total, outcome, seller_pct_bps, fee_bps, insurance_bps),
        seller_pct_bps <= BPS_DENOMINATOR,
    ensures
        s.buyer_amount + s.seller_gross == total,
        fee_bps + insurance_bps <= BPS_DENOMINATOR ==> s.seller_net == s.seller_gross - s.fee_cut
            - s.insurance_cut,
{
    lemma_bps_of_bounds(total as int, seller_pct_bps as int);
    if fee_bps + insurance_bps <= BPS_DENOMINATOR {
        lemma_fees_within_principal(s.seller_gross, fee_bps, insurance_bps);
    }
}

} // verus!
