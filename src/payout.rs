//! Fixed-point basis-point arithmetic for fees, insurance, retention and late
//! penalties.

use vstd::prelude::*;

verus! {

/// Basis points in one whole.
pub const BPS_DENOMINATOR: u64 = 10_000;

/// `a * b`, capped at the largest `u64`.
pub open spec fn saturating_mul_spec(a: int, b: int) -> int {
    if a * b > u64::MAX {
        u64::MAX as int
    } else {
        a * b
    }
}

/// `a - b`, floored at zero.
pub open spec fn saturating_sub_spec(a: int, b: int) -> int {
    if a >= b {
        a - b
    } else {
        0
    }
}

/// `floor(amount * bps / 10000)`, the product saturating at the largest `u64`.
pub open spec fn bps_of_spec(amount: int, bps: int) -> int {
    saturating_mul_spec(amount, bps) / (BPS_DENOMINATOR as int)
}

/// The basis-point share `bps` of `amount`, rounded down.
pub fn mul_bps(amount: u64, bps: u16) -> (r: u64)
    ensures
        r == bps_of_spec(amount as int, bps as int),
{
    let product: u64 = match amount.checked_mul(bps as u64) {
        Some(p) => p,
        None => u64::MAX,
    };
    product / BPS_DENOMINATOR
}

/// `(bps_of(amount, fee_bps), bps_of(amount, insurance_bps))`: the platform
/// fee and the insurance cut taken from `amount`.
pub fn calc_fee_splits(amount: u64, fee_bps: u16, insurance_bps: u16) -> (r: (u64, u64))
    ensures
        r.0 == bps_of_spec(amount as int, fee_bps as int),
        r.1 == bps_of_spec(amount as int, insurance_bps as int),
{
    (mul_bps(amount, fee_bps), mul_bps(amount, insurance_bps))
}

/// The retention withheld from `total` until the warranty window ends.
pub fn calc_retention(total: u64, retention_bps: u16) -> (r: u64)
    ensures
        r == bps_of_spec(total as int, retention_bps as int),
{
    mul_bps(total, retention_bps)
}

/// A share in basis points never exceeds a whole share of the amount.
pub proof fn lemma_bps_of_bounds(amount: int, bps: int)
    requires
        0 <= amount <= u64::MAX,
        0 <= bps,
    ensures
        0 <= bps_of_spec(amount, bps) <= amount * bps / (BPS_DENOMINATOR as int),
        bps_of_spec(amount, bps) <= (u64::MAX as int) / (BPS_DENOMINATOR as int),
        bps <= BPS_DENOMINATOR ==> bps_of_spec(amount, bps) <= amount,
{
    assert(0 <= amount * bps) by (nonlinear_arith)
        requires
            0 <= amount,
            0 <= bps,
    ;
    let p = saturating_mul_spec(amount, bps);
    assert(p / 10000 <= amount * bps / 10000) by (nonlinear_arith)
        requires
            0 <= p <= amount * bps,
    ;
    assert(p / 10000 <= u64::MAX / 10000) by (nonlinear_arith)
        requires
            0 <= p <= u64::MAX,
    ;
    if bps <= BPS_DENOMINATOR {
        assert(amount * bps / 10000 <= amount) by (nonlinear_arith)
            requires
                0 <= amount,
                0 <= bps <= 10000,
        ;
    }
}

/// For every amount, when the fee and insurance rates sum to at most one
/// whole, the fee plus the insurance cut never exceeds the amount.
pub proof fn lemma_fees_within_principal(amount: u64, fee_bps: u16, insurance_bps: u16)
    requires
        fee_bps + insurance_bps <= BPS_DENOMINATOR,
    ensures
        bps_of_spec(amount as int, fee_bps as int) + bps_of_spec(
            amount as int,
            insurance_bps as int,
        ) <= amount,
{
    let a = amount as int;
    let f = fee_bps as int;
    let i = insurance_bps as int;
    lemma_bps_of_bounds(a, f);
    lemma_bps_of_bounds(a, i);
    assert(a * f / 10000 + a * i / 10000 <= a) by (nonlinear_arith)
        requires
            0 <= a,
            0 <= f,
            0 <= i,
            f + i <= 10000,
    ;
}

/// Who receives a transfer out of the escrow's vault.
#[derive(Clone, Copy, Debug, PartialEq, Eq, Structural)]
pub enum Party {
    Buyer,
    Seller,
    Treasury,
    InsuranceTreasury,
}

/// One movement of `amount` out of the vault to `to`, for the host to carry out.
#[derive(Clone, Copy, Debug, PartialEq, Eq, Structural)]
pub struct Transfer {
    pub to: Party,
    pub amount: u64,
}

/// A single transfer when `amount` is non-zero, none otherwise.
pub open spec fn transfer_if(to: Party, amount: u64) -> Seq<Transfer> {
    if amount > 0 {
        seq![Transfer { to, amount }]
    } else {
        seq![]
    }
}

/// Breakdown of one payout to the seller.
#[derive(Clone, Copy, Debug, PartialEq, Eq, Structural)]
pub struct Payout {
    /// The amount paid out of the vault in all.
    pub gross: u64,
    pub fee_cut: u64,
    pub insurance_cut: u64,
    /// Late penalty, routed back to the buyer.
    pub penalty: u64,
    /// What the seller receives.
    pub seller_amount: u64,
}

/// The seller's share of `gross` after fee and insurance, before any penalty.
pub open spec fn net_of_fees_spec(gross: int, fee_bps: int, insurance_bps: int) -> int {
    saturating_sub_spec(gross, bps_of_spec(gross, fee_bps) + bps_of_spec(gross, insurance_bps))
}

/// The late penalty: a share of the post-fee amount, charged only when `late`.
pub open spec fn penalty_spec(
    gross: int,
    fee_bps: int,
    insurance_bps: int,
    late_penalty_bps: int,
    late: bool,
) -> int {
    if late {
        bps_of_spec(net_of_fees_spec(gross, fee_bps, insurance_bps), late_penalty_bps)
    } else {
        0
    }
}

/// Whether `p` is the breakdown of paying out `gross` at the given rates.
pub open spec fn is_payout_of(
    p: Payout,
    gross: u64,
    fee_bps: u16,
    insurance_bps: u16,
    late_penalty_bps: u16,
    late: bool,
) -> bool {
    let net = net_of_fees_spec(gross as int, fee_bps as int, insurance_bps as int);
    let penalty = penalty_spec(
        gross as int,
        fee_bps as int,
        insurance_bps as int,
        late_penalty_bps as int,
        late,
    );
    &&& p.gross == gross
    &&& p.fee_cut == bps_of_spec(gross as int, fee_bps as int)
    &&& p.insurance_cut == bps_of_spec(gross as int, insurance_bps as int)
    &&& p.penalty == penalty
    &&& p.seller_amount == saturating_sub_spec(net, penalty)
}

/// The transfers that carry out a payout, in this order: penalty to the
/// buyer, fee to the treasury, insurance cut to the insurance treasury, the
/// rest to the seller; each only when non-zero.
pub open spec fn payout_transfers_spec(p: Payout) -> Seq<Transfer> {
    transfer_if(Party::Buyer, p.penalty) + transfer_if(Party::Treasury, p.fee_cut) + transfer_if(
        Party::InsuranceTreasury,
        p.insurance_cut,
    ) + transfer_if(Party::Seller, p.seller_amount)
}

/// Splits `gross` into fee, insurance cut, late penalty (when `late`) and
/// the seller's remainder. All subtractions saturate at zero.
pub fn compute_payout(
    gross: u64,
    fee_bps: u16,
    insurance_bps: u16,
    late_penalty_bps: u16,
    late: bool,
) -> (p: Payout)
    ensures
        is_payout_of(p, gross, fee_bps, insurance_bps, late_penalty_bps, late),
{
    let (fee_cut, insurance_cut) = calc_fee_splits(gross, fee_bps, insurance_bps);
    proof {
        lemma_bps_of_bounds(gross as int, fee_bps as int);
        lemma_bps_of_bounds(gross as int, insurance_bps as int);
    }
    let net = gross.saturating_sub(fee_cut + insurance_cut);
    let mut penalty: u64 = 0;
    let mut seller_amount = net;
    if late {
        penalty = mul_bps(net, late_penalty_bps);
        seller_amount = net.saturating_sub(penalty);
    }
    Payout { gross, fee_cut, insurance_cut, penalty, seller_amount }
}

/// Appends a transfer of `amount` to `to` when `amount` is non-zero.
pub(crate) fn push_transfer(transfers: &mut Vec<Transfer>, to: Party, amount: u64)
    ensures
        final(transfers)@ == old(transfers)@ + transfer_if(to, amount),
{
    if amount > 0 {
        transfers.push(Transfer { to, amount });
    } else {
        assert(old(transfers)@ + transfer_if(to, amount) =~= old(transfers)@);
    }
}

/// The transfers that carry out `p`, in the order of `payout_transfers_spec`.
pub fn payout_transfers(p: &Payout) -> (r: Vec<Transfer>)
    ensures
        r@ == payout_transfers_spec(*p),
{
    let mut r: Vec<Transfer> = Vec::new();
    push_transfer(&mut r, Party::Buyer, p.penalty);
    push_transfer(&mut r, Party::Treasury, p.fee_cut);
    push_transfer(&mut r, Party::InsuranceTreasury, p.insurance_cut);
    push_transfer(&mut r, Party::Seller, p.seller_amount);
    assert(r@ =~= payout_transfers_spec(*p));
    r
}

/// Value is neither lost nor created by a payout: when the fee and insurance
/// rates sum to at most one whole, penalty, fee, insurance cut and seller
/// amount add up to the gross exactly, and the seller gets the gross less
/// fee and insurance less penalty.
pub proof fn lemma_payout_conserves(
    p: Payout,
    gross: u64,
    fee_bps: u16,
    insurance_bps: u16,
    late_penalty_bps: u16,
    late: bool,
)
    requires
        is_payout_of(p, gross, fee_bps, insurance_bps, late_penalty_bps, late),
        fee_bps + insurance_bps <= BPS_DENOMINATOR,
        late_penalty_bps <= BPS_DENOMINATOR,
    ensures
        p.penalty + p.fee_cut + p.insurance_cut + p.seller_amount == gross,
        p.seller_amount == gross - p.fee_cut - p.insurance_cut - p.penalty,
{
    lemma_fees_within_principal(gross, fee_bps, insurance_bps);
    let net = net_of_fees_spec(gross as int, fee_bps as int, insurance_bps as int);
    if late {
        lemma_bps_of_bounds(net, late_penalty_bps as int);
    }
}

} // verus!
