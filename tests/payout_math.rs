use construction_escrow::dispute::{dispute_transfers, split_dispute};
use construction_escrow::escrow::DisputeOutcome;
use construction_escrow::payout::{
    calc_fee_splits, calc_retention, compute_payout, mul_bps, payout_transfers, Party, Transfer,
};

#[test]
fn fee_scenario_one_million() {
    let (fee, insurance) = calc_fee_splits(1_000_000, 250, 100);
    assert_eq!(fee, 25_000);
    assert_eq!(insurance, 10_000);
    let p = compute_payout(1_000_000, 250, 100, 0, false);
    assert_eq!(p.fee_cut, 25_000);
    assert_eq!(p.insurance_cut, 10_000);
    assert_eq!(p.penalty, 0);
    assert_eq!(p.seller_amount, 965_000);
}

#[test]
fn late_penalty_scenario() {
    let p = compute_payout(1_000_000, 250, 100, 1000, true);
    assert_eq!(p.fee_cut, 25_000);
    assert_eq!(p.insurance_cut, 10_000);
    assert_eq!(p.penalty, 96_500);
    assert_eq!(p.seller_amount, 868_500);
    let t = payout_transfers(&p);
    assert_eq!(
        t,
        vec![
            Transfer { to: Party::Buyer, amount: 96_500 },
            Transfer { to: Party::Treasury, amount: 25_000 },
            Transfer { to: Party::InsuranceTreasury, amount: 10_000 },
            Transfer { to: Party::Seller, amount: 868_500 },
        ]
    );
}

#[test]
fn mul_bps_rounds_down() {
    assert_eq!(mul_bps(9_999, 1), 0);
    assert_eq!(mul_bps(10_000, 1), 1);
    assert_eq!(mul_bps(12_345, 10_000), 12_345);
    assert_eq!(mul_bps(0, 65_535), 0);
}

#[test]
fn mul_bps_saturates_on_overflow() {
    // u64::MAX * 2 overflows, so the product caps at u64::MAX before dividing.
    assert_eq!(mul_bps(u64::MAX, 2), u64::MAX / 10_000);
    assert_eq!(mul_bps(u64::MAX, 1), u64::MAX / 10_000);
}

#[test]
fn retention_is_bps_of_total() {
    assert_eq!(calc_retention(1_000_000, 500), 50_000);
    assert_eq!(calc_retention(1_000_000, 0), 0);
}

#[test]
fn fees_never_exceed_principal_on_samples() {
    let amounts = [0u64, 1, 7, 9_999, 10_001, 1_000_000, u64::MAX];
    let rates = [(0u16, 0u16), (250, 100), (5_000, 5_000), (9_999, 1), (10_000, 0), (3_333, 3_333)];
    for a in amounts {
        for (f, i) in rates {
            let (fee, ins) = calc_fee_splits(a, f, i);
            assert!(fee as u128 + ins as u128 <= a as u128);
            let p = compute_payout(a, f, i, 1_000, true);
            assert_eq!(p.penalty as u128 + p.fee_cut as u128 + p.insurance_cut as u128 + p.seller_amount as u128, a as u128);
        }
    }
}

#[test]
fn payout_skips_zero_transfers() {
    let p = compute_payout(100, 0, 0, 0, false);
    assert_eq!(p.seller_amount, 100);
    assert_eq!(payout_transfers(&p), vec![Transfer { to: Party::Seller, amount: 100 }]);
    let z = compute_payout(0, 250, 100, 1000, true);
    assert!(payout_transfers(&z).is_empty());
}

#[test]
fn payout_saturates_when_rates_exceed_whole() {
    let p = compute_payout(100, 10_000, 10_000, 0, false);
    assert_eq!(p.fee_cut, 100);
    assert_eq!(p.insurance_cut, 100);
    assert_eq!(p.seller_amount, 0);
}

#[test]
fn dispute_split_parts_add_up() {
    for pct in [0u16, 1, 2_500, 3_333, 5_000, 9_999, 10_000] {
        for total in [1u64, 3, 999, 1_000_000, 123_456_789] {
            let s = split_dispute(total, DisputeOutcome::Split, pct, 250, 100);
            assert_eq!(s.buyer_amount + s.seller_gross, total);
            assert_eq!(s.seller_net, s.seller_gross - s.fee_cut - s.insurance_cut);
        }
    }
}

#[test]
fn dispute_split_exact_values() {
    let s = split_dispute(1_000_000, DisputeOutcome::Split, 6_000, 250, 100);
    assert_eq!(s.seller_gross, 600_000);
    assert_eq!(s.buyer_amount, 400_000);
    assert_eq!(s.fee_cut, 15_000);
    assert_eq!(s.insurance_cut, 6_000);
    assert_eq!(s.seller_net, 579_000);
    assert_eq!(
        dispute_transfers(&s),
        vec![
            Transfer { to: Party::Buyer, amount: 400_000 },
            Transfer { to: Party::Seller, amount: 579_000 },
            Transfer { to: Party::Treasury, amount: 15_000 },
            Transfer { to: Party::InsuranceTreasury, amount: 6_000 },
        ]
    );
}

#[test]
fn dispute_refund_and_release_outcomes() {
    let r = split_dispute(500, DisputeOutcome::Refund, 7_000, 250, 100);
    assert_eq!((r.buyer_amount, r.seller_gross, r.fee_cut, r.insurance_cut, r.seller_net), (500, 0, 0, 0, 0));
    assert_eq!(dispute_transfers(&r), vec![Transfer { to: Party::Buyer, amount: 500 }]);
    let l = split_dispute(10_000, DisputeOutcome::Release, 0, 250, 100);
    assert_eq!((l.buyer_amount, l.seller_gross, l.fee_cut, l.insurance_cut, l.seller_net), (0, 10_000, 250, 100, 9_650));
}
