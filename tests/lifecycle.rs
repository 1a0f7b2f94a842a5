use construction_escrow::config::{init_config, Config};
use construction_escrow::error::EscrowError;
use construction_escrow::escrow::{
    add_attestation, add_milestone, attach_evidence, create_escrow, finalize_receipt_nft,
    init_receipt_nft, mark_in_progress, open_dispute, request_cancel, set_deadlines,
    update_oracles, update_seller_dest, verify_delivery, verify_milestone, DisputeOutcome, Escrow,
    EscrowState,
};
use construction_escrow::identity::Identity;
use construction_escrow::payout::{Party, Transfer};
use construction_escrow::quorum::Voter;
use construction_escrow::release::{
    approve_cancel, enter_transfer, exit_transfer, expire_and_refund, release_for_milestone,
    release_payment, release_retention, resolve_dispute,
};

fn id(b: u8) -> Identity {
    Identity::new([b; 32])
}

const BUYER: u8 = 1;
const SELLER: u8 = 2;
const ARBITER: u8 = 3;
const STRANGER: u8 = 9;

fn config() -> Config {
    init_config(id(10), id(11), id(12), id(ARBITER), 250, 100, 500, 30, 2).unwrap()
}

fn oracles() -> Vec<Identity> {
    vec![id(20), id(21), id(22)]
}

fn escrow_with(amount: u64, quorum: u8) -> Escrow {
    create_escrow(
        &config(),
        id(13),
        id(BUYER),
        id(SELLER),
        id(14),
        7,
        amount,
        1,
        oracles(),
        quorum,
        0,
        true,
        1_000,
    )
    .unwrap()
}

fn signed(b: u8) -> Voter {
    Voter { identity: id(b), is_signer: true }
}

fn verified_with_milestone(amount: u64) -> Escrow {
    let mut e = escrow_with(1_000_000, 2);
    assert_eq!(add_milestone(&mut e, id(BUYER), amount, [5; 32]), Ok(0));
    verify_milestone(&mut e, 0, &vec![signed(20), signed(21)], 2_000).unwrap();
    e
}

#[test]
fn create_sets_initial_record() {
    let e = escrow_with(1_000_000, 2);
    assert_eq!(e.state, EscrowState::Open);
    assert_eq!(e.amount, 1_000_000);
    assert_eq!(e.fee_bps, 250);
    assert_eq!(e.insurance_bps, 100);
    assert_eq!(e.retention_bps, 500);
    assert_eq!(e.warranty_end_ts, 1_000 + 30 * 86_400);
    assert_eq!(e.created_ts, 1_000);
    assert_eq!(e.last_ix_nonce, 1);
    assert!(e.arbiter == id(ARBITER));
    assert!(e.milestones().is_empty());
    assert!(!e.in_transfer);
    assert!(e.is_well_formed());
}

#[test]
fn create_rejects_bad_arguments() {
    let cfg = config();
    let mk = |amount: u64, nonce: u64, oracles: Vec<Identity>, quorum: u8| {
        create_escrow(&cfg, id(13), id(1), id(2), id(14), 7, amount, nonce, oracles, quorum, 0, false, 0)
            .map(|_| ())
    };
    assert_eq!(mk(0, 1, vec![], 1), Err(EscrowError::ZeroAmount));
    assert_eq!(mk(5, 1, vec![], 0), Err(EscrowError::BadQuorum));
    assert_eq!(mk(5, 1, (0..9).map(|b| id(b + 30)).collect(), 1), Err(EscrowError::TooManyOracles));
    assert_eq!(mk(5, 0, vec![], 1), Err(EscrowError::BadNonce));
    assert_eq!(mk(5, 1, (0..8).map(|b| id(b + 30)).collect(), 1), Ok(()));
}

#[test]
fn quorum_exact_threshold_succeeds() {
    let mut e = escrow_with(1_000, 2);
    assert_eq!(verify_delivery(&mut e, 7, &vec![signed(20), signed(22)], 5_000), Ok(2));
    assert_eq!(e.state, EscrowState::Verified);
    assert_eq!(e.verified_ts, 5_000);
}

#[test]
fn quorum_one_short_fails() {
    let mut e = escrow_with(1_000, 2);
    assert_eq!(verify_delivery(&mut e, 7, &vec![signed(20)], 5_000), Err(EscrowError::QuorumNotMet));
    assert_eq!(e.state, EscrowState::Open);
    assert_eq!(e.verified_ts, 0);
}

#[test]
fn quorum_duplicates_count_once() {
    let mut e = escrow_with(1_000, 2);
    let voters = vec![signed(20), signed(20), signed(20)];
    assert_eq!(verify_delivery(&mut e, 7, &voters, 5_000), Err(EscrowError::QuorumNotMet));
    let voters = vec![signed(20), signed(20), signed(21)];
    assert_eq!(verify_delivery(&mut e, 7, &voters, 5_000), Ok(2));
}

#[test]
fn quorum_ignores_unsigned_strangers_and_placeholders() {
    let mut e = escrow_with(1_000, 1);
    update_oracles(&mut e, id(BUYER), vec![Identity::zero(), id(20)], 1).unwrap();
    let voters = vec![
        Voter { identity: id(20), is_signer: false },
        signed(STRANGER),
        Voter { identity: Identity::zero(), is_signer: true },
    ];
    assert_eq!(verify_delivery(&mut e, 7, &voters, 5_000), Err(EscrowError::QuorumNotMet));
    // An unsigned entry does not shadow a later signed one.
    let voters = vec![Voter { identity: id(20), is_signer: false }, signed(20)];
    assert_eq!(verify_delivery(&mut e, 7, &voters, 5_000), Ok(1));
}

#[test]
fn verify_delivery_checks_project_and_state() {
    let mut e = escrow_with(1_000, 1);
    assert_eq!(verify_delivery(&mut e, 8, &vec![signed(20)], 1), Err(EscrowError::ProjectMismatch));
    verify_delivery(&mut e, 7, &vec![signed(20)], 1).unwrap();
    assert_eq!(verify_delivery(&mut e, 7, &vec![signed(20)], 2), Err(EscrowError::BadState));
}

#[test]
fn milestones_over_total_rejected() {
    let mut e = escrow_with(1_000, 1);
    assert_eq!(add_milestone(&mut e, id(BUYER), 600, [1; 32]), Ok(0));
    assert_eq!(add_milestone(&mut e, id(SELLER), 400, [2; 32]), Ok(1));
    assert_eq!(add_milestone(&mut e, id(BUYER), 1, [3; 32]), Err(EscrowError::MilestoneOverTotal));
    assert_eq!(e.milestones().len(), 2);
    assert_eq!(e.milestones()[0].amount, 600);
    assert_eq!(e.milestones()[1].amount, 400);
    assert_eq!(e.milestones()[1].id, 1);
}

#[test]
fn milestone_over_total_at_largest_amount() {
    let mut e = escrow_with(u64::MAX, 1);
    assert_eq!(add_milestone(&mut e, id(BUYER), u64::MAX - 5, [1; 32]), Ok(0));
    assert_eq!(add_milestone(&mut e, id(BUYER), 10, [1; 32]), Err(EscrowError::MilestoneOverTotal));
    assert_eq!(add_milestone(&mut e, id(BUYER), 5, [1; 32]), Ok(1));
}

#[test]
fn milestone_ledger_is_bounded() {
    let mut e = escrow_with(1_000, 1);
    for i in 0..10u8 {
        assert_eq!(add_milestone(&mut e, id(BUYER), 1, [i; 32]), Ok(i));
    }
    assert_eq!(add_milestone(&mut e, id(BUYER), 1, [0; 32]), Err(EscrowError::TooManyMilestones));
}

#[test]
fn add_milestone_checks_role_and_state() {
    let mut e = escrow_with(1_000, 1);
    assert_eq!(add_milestone(&mut e, id(STRANGER), 1, [0; 32]), Err(EscrowError::Unauthorized));
    open_dispute(&mut e, id(BUYER)).unwrap();
    assert_eq!(add_milestone(&mut e, id(BUYER), 1, [0; 32]), Err(EscrowError::BadState));
}

#[test]
fn verify_milestone_errors() {
    let mut e = escrow_with(1_000, 2);
    add_milestone(&mut e, id(BUYER), 100, [0; 32]).unwrap();
    let quorum = vec![signed(20), signed(21)];
    assert_eq!(verify_milestone(&mut e, 1, &quorum, 10), Err(EscrowError::BadMilestoneId));
    assert_eq!(verify_milestone(&mut e, 0, &vec![signed(20)], 10), Err(EscrowError::QuorumNotMet));
    assert_eq!(verify_milestone(&mut e, 0, &quorum, 10), Ok(()));
    assert!(e.milestones()[0].verified);
    assert_eq!(e.milestones()[0].verify_ts, 10);
    assert_eq!(e.state, EscrowState::Verified);
    assert_eq!(verify_milestone(&mut e, 0, &quorum, 11), Err(EscrowError::AlreadyVerified));
}

#[test]
fn milestone_release_pays_and_marks() {
    let mut e = verified_with_milestone(1_000_000);
    let r = release_for_milestone(&mut e, 0, 3_000, 1_000_000).unwrap();
    assert_eq!(r.payout.fee_cut, 25_000);
    assert_eq!(r.payout.insurance_cut, 10_000);
    assert_eq!(r.payout.seller_amount, 965_000);
    assert_eq!(
        r.transfers,
        vec![
            Transfer { to: Party::Treasury, amount: 25_000 },
            Transfer { to: Party::InsuranceTreasury, amount: 10_000 },
            Transfer { to: Party::Seller, amount: 965_000 },
        ]
    );
    assert!(e.milestones()[0].released);
    assert_eq!(e.state, EscrowState::PartiallyReleased);
    assert_eq!(e.released_ts, 3_000);
    assert!(!e.in_transfer);
}

#[test]
fn milestone_release_late_penalty() {
    let mut e = escrow_with(1_000_000, 2);
    e.late_penalty_bps = 1000;
    set_deadlines(&mut e, id(SELLER), 0, 2_500).unwrap();
    add_milestone(&mut e, id(BUYER), 1_000_000, [5; 32]).unwrap();
    verify_milestone(&mut e, 0, &vec![signed(20), signed(21)], 2_000).unwrap();
    let r = release_for_milestone(&mut e, 0, 3_000, 1_000_000).unwrap();
    assert_eq!(r.payout.penalty, 96_500);
    assert_eq!(r.payout.seller_amount, 868_500);
    assert_eq!(r.transfers[0], Transfer { to: Party::Buyer, amount: 96_500 });
    assert_eq!(r.transfers[3], Transfer { to: Party::Seller, amount: 868_500 });
}

#[test]
fn milestone_release_twice_rejected() {
    let mut e = verified_with_milestone(1_000);
    release_for_milestone(&mut e, 0, 3_000, 1_000_000).unwrap();
    let before_ts = e.released_ts;
    assert!(matches!(
        release_for_milestone(&mut e, 0, 4_000, 1_000_000),
        Err(EscrowError::MilestoneNotReleasable)
    ));
    assert_eq!(e.released_ts, before_ts);
}

#[test]
fn milestone_release_errors() {
    let mut e = escrow_with(1_000, 2);
    add_milestone(&mut e, id(BUYER), 500, [0; 32]).unwrap();
    assert!(matches!(release_for_milestone(&mut e, 3, 1, 1_000), Err(EscrowError::BadMilestoneId)));
    assert!(matches!(release_for_milestone(&mut e, 0, 1, 1_000), Err(EscrowError::MilestoneNotReleasable)));
    verify_milestone(&mut e, 0, &vec![signed(20), signed(21)], 1).unwrap();
    assert!(matches!(release_for_milestone(&mut e, 0, 1, 499), Err(EscrowError::VaultBalanceLow)));
    enter_transfer(&mut e).unwrap();
    assert!(matches!(release_for_milestone(&mut e, 0, 1, 1_000), Err(EscrowError::Reentrancy)));
    exit_transfer(&mut e);
    assert!(release_for_milestone(&mut e, 0, 1, 1_000).is_ok());
}

#[test]
fn guard_refuses_second_entry() {
    let mut e = escrow_with(1_000, 1);
    assert_eq!(enter_transfer(&mut e), Ok(()));
    assert!(e.in_transfer);
    assert_eq!(enter_transfer(&mut e), Err(EscrowError::Reentrancy));
    exit_transfer(&mut e);
    assert!(!e.in_transfer);
}

#[test]
fn release_payment_withholds_retention() {
    let mut e = escrow_with(1_000_000, 1);
    verify_delivery(&mut e, 7, &vec![signed(20)], 10).unwrap();
    let r = release_payment(&mut e, 20, 1_000_000).unwrap();
    // Retention is 5% of the total: 50_000 stays in the vault.
    assert_eq!(r.payout.gross, 950_000);
    assert_eq!(r.payout.fee_cut, 23_750);
    assert_eq!(r.payout.insurance_cut, 9_500);
    assert_eq!(r.payout.seller_amount, 916_750);
    assert_eq!(e.state, EscrowState::Released);
    assert_eq!(e.released_ts, 20);
}

#[test]
fn release_payment_errors() {
    let mut e = escrow_with(1_000_000, 1);
    assert!(matches!(release_payment(&mut e, 20, 1_000_000), Err(EscrowError::BadState)));
    verify_delivery(&mut e, 7, &vec![signed(20)], 10).unwrap();
    assert!(matches!(release_payment(&mut e, 20, 50_000), Err(EscrowError::NothingToRelease)));
    assert!(matches!(release_payment(&mut e, 20, 0), Err(EscrowError::NothingToRelease)));
    assert_eq!(e.state, EscrowState::Verified);
}

#[test]
fn retention_before_warranty_end_fails_then_once() {
    let mut e = escrow_with(1_000_000, 1);
    let end = e.warranty_end_ts;
    assert!(matches!(release_retention(&mut e, end - 1, 1_000_000), Err(EscrowError::WarrantyNotEnded)));
    let r = release_retention(&mut e, end, 1_000_000).unwrap();
    assert_eq!(r.payout.gross, 50_000);
    assert_eq!(r.payout.fee_cut, 1_250);
    assert_eq!(r.payout.insurance_cut, 500);
    assert_eq!(r.payout.penalty, 0);
    assert_eq!(r.payout.seller_amount, 48_250);
    assert!(e.retention_released);
    assert_eq!(e.state, EscrowState::Open);
    assert!(matches!(
        release_retention(&mut e, end + 1, 1_000_000),
        Err(EscrowError::RetentionAlreadyReleased)
    ));
}

#[test]
fn retention_release_ignores_late_penalty() {
    let mut e = escrow_with(1_000_000, 1);
    e.late_penalty_bps = 1000;
    set_deadlines(&mut e, id(BUYER), 0, 5).unwrap();
    let end = e.warranty_end_ts;
    assert!(matches!(release_retention(&mut e, end, 49_999), Err(EscrowError::VaultBalanceLow)));
    let r = release_retention(&mut e, end, 50_000).unwrap();
    assert_eq!(r.payout.penalty, 0);
}

#[test]
fn expire_refund_then_again_fails() {
    let mut e = escrow_with(1_000_000, 1);
    set_deadlines(&mut e, id(BUYER), 5_000, 0).unwrap();
    let t = expire_and_refund(&mut e, 5_001, 1_000_000).unwrap();
    assert_eq!(t, vec![Transfer { to: Party::Buyer, amount: 1_000_000 }]);
    assert_eq!(e.state, EscrowState::Refunded);
    assert_eq!(e.released_ts, 5_001);
    assert_eq!(expire_and_refund(&mut e, 5_002, 1_000_000), Err(EscrowError::BadState));
}

#[test]
fn expire_refund_errors() {
    let mut e = escrow_with(1_000, 1);
    assert_eq!(expire_and_refund(&mut e, 10, 1_000), Err(EscrowError::NotExpired));
    set_deadlines(&mut e, id(BUYER), 100, 0).unwrap();
    assert_eq!(expire_and_refund(&mut e, 100, 1_000), Err(EscrowError::NotExpired));
    assert_eq!(expire_and_refund(&mut e, 101, 999), Err(EscrowError::VaultBalanceLow));
    let t = expire_and_refund(&mut e, 101, 1_200).unwrap();
    assert_eq!(t, vec![Transfer { to: Party::Buyer, amount: 1_200 }]);
}

#[test]
fn set_deadlines_role_and_state() {
    let mut e = escrow_with(1_000, 1);
    assert_eq!(set_deadlines(&mut e, id(STRANGER), 1, 2), Err(EscrowError::Unauthorized));
    verify_delivery(&mut e, 7, &vec![signed(20)], 1).unwrap();
    assert_eq!(set_deadlines(&mut e, id(BUYER), 1, 2), Err(EscrowError::BadState));
}

#[test]
fn cancel_flow() {
    let mut e = escrow_with(1_000, 1);
    assert_eq!(approve_cancel(&mut e, id(SELLER), 1_000), Err(EscrowError::CancelNotRequested));
    assert_eq!(request_cancel(&mut e, id(STRANGER)), Err(EscrowError::Unauthorized));
    assert_eq!(request_cancel(&mut e, id(BUYER)), Ok(()));
    assert_eq!(request_cancel(&mut e, id(SELLER)), Err(EscrowError::CancelAlreadyRequested));
    assert_eq!(approve_cancel(&mut e, id(BUYER), 1_000), Err(EscrowError::Unauthorized));
    assert_eq!(approve_cancel(&mut e, id(STRANGER), 1_000), Err(EscrowError::Unauthorized));
    assert_eq!(approve_cancel(&mut e, id(SELLER), 0), Err(EscrowError::NothingToRelease));
    let t = approve_cancel(&mut e, id(SELLER), 700).unwrap();
    assert_eq!(t, vec![Transfer { to: Party::Buyer, amount: 700 }]);
    assert_eq!(e.state, EscrowState::Refunded);
    assert_eq!(approve_cancel(&mut e, id(SELLER), 700), Err(EscrowError::BadState));
}

#[test]
fn dispute_flow_split() {
    let mut e = escrow_with(1_000_000, 1);
    assert_eq!(open_dispute(&mut e, id(STRANGER)), Err(EscrowError::Unauthorized));
    assert!(matches!(
        resolve_dispute(&mut e, id(ARBITER), DisputeOutcome::Split, 5_000, 9, 1_000_000),
        Err(EscrowError::NoOpenDispute)
    ));
    assert_eq!(open_dispute(&mut e, id(SELLER)), Ok(()));
    assert_eq!(e.state, EscrowState::Dispute);
    assert_eq!(open_dispute(&mut e, id(BUYER)), Err(EscrowError::DisputeAlreadyOpen));
    assert!(matches!(
        resolve_dispute(&mut e, id(BUYER), DisputeOutcome::Release, 0, 9, 1_000_000),
        Err(EscrowError::Unauthorized)
    ));
    assert!(matches!(
        resolve_dispute(&mut e, id(ARBITER), DisputeOutcome::Split, 5_000, 9, 0),
        Err(EscrowError::NothingToRelease)
    ));
    let r = resolve_dispute(&mut e, id(ARBITER), DisputeOutcome::Split, 5_000, 9, 1_000_000).unwrap();
    assert_eq!(r.split.buyer_amount, 500_000);
    assert_eq!(r.split.seller_gross, 500_000);
    assert_eq!(r.split.seller_net, 482_500);
    assert_eq!(r.transfers.len(), 4);
    assert_eq!(e.state, EscrowState::Released);
    assert!(!e.dispute_open);
    assert_eq!(e.released_ts, 9);
    assert_eq!(open_dispute(&mut e, id(BUYER)), Err(EscrowError::BadState));
}

#[test]
fn dispute_refund_ends_refunded() {
    let mut e = escrow_with(1_000, 1);
    open_dispute(&mut e, id(BUYER)).unwrap();
    let r = resolve_dispute(&mut e, id(ARBITER), DisputeOutcome::Refund, 0, 9, 1_000).unwrap();
    assert_eq!(r.transfers, vec![Transfer { to: Party::Buyer, amount: 1_000 }]);
    assert_eq!(e.state, EscrowState::Refunded);
}

#[test]
fn admin_updates() {
    let mut e = escrow_with(1_000, 1);
    assert_eq!(mark_in_progress(&mut e, id(BUYER)), Err(EscrowError::Unauthorized));
    assert_eq!(mark_in_progress(&mut e, id(SELLER)), Ok(()));
    assert!(e.in_progress);
    assert_eq!(update_oracles(&mut e, id(STRANGER), vec![], 1), Err(EscrowError::Unauthorized));
    assert_eq!(update_oracles(&mut e, id(BUYER), (0..9).map(id).collect(), 1), Err(EscrowError::TooManyOracles));
    assert_eq!(update_oracles(&mut e, id(BUYER), vec![id(40)], 0), Err(EscrowError::BadQuorum));
    assert_eq!(update_oracles(&mut e, id(SELLER), vec![id(40)], 1), Ok(()));
    assert_eq!(e.oracles.len(), 1);
    assert_eq!(update_seller_dest(&mut e, id(BUYER), id(50)), Err(EscrowError::Unauthorized));
    assert_eq!(update_seller_dest(&mut e, id(SELLER), id(50)), Ok(()));
    assert!(e.seller == id(50));
}

#[test]
fn evidence_and_attestations() {
    let mut e = escrow_with(1_000, 1);
    let long: Vec<u8> = (0..200u32).map(|i| i as u8).collect();
    assert_eq!(attach_evidence(&mut e, id(STRANGER), [7; 32], &long), Err(EscrowError::Unauthorized));
    attach_evidence(&mut e, id(BUYER), [7; 32], &long).unwrap();
    assert_eq!(e.last_evidence_hash, [7; 32]);
    assert_eq!(e.last_evidence_uri, long[..96].to_vec());
    let a = add_attestation(&mut e, id(13), id(60), [8; 32], &vec![1, 2, 3], 77);
    assert_eq!(a.uri_prefix, vec![1, 2, 3]);
    assert_eq!(a.ts, 77);
    assert!(a.attester == id(60));
    assert_eq!(e.attestations_count, 1);
    e.attestations_count = u32::MAX;
    add_attestation(&mut e, id(13), id(60), [8; 32], &vec![], 78);
    assert_eq!(e.attestations_count, u32::MAX);
}

#[test]
fn receipt_nft_rules() {
    let mut e = escrow_with(1_000, 1);
    assert_eq!(init_receipt_nft(&mut e, id(70)), Ok(()));
    assert_eq!(finalize_receipt_nft(&e, id(70)), Err(EscrowError::BadState));
    verify_delivery(&mut e, 7, &vec![signed(20)], 1).unwrap();
    release_payment(&mut e, 2, 1_000).unwrap();
    assert_eq!(finalize_receipt_nft(&e, id(71)), Err(EscrowError::BadNftMint));
    assert_eq!(finalize_receipt_nft(&e, id(70)), Ok(()));
    e.nft_enabled = false;
    assert_eq!(finalize_receipt_nft(&e, id(70)), Err(EscrowError::NftDisabled));
    assert_eq!(init_receipt_nft(&mut e, id(70)), Err(EscrowError::NftDisabled));
}

#[test]
fn well_formedness_check() {
    let mut e = escrow_with(1_000, 1);
    add_milestone(&mut e, id(BUYER), 600, [0; 32]).unwrap();
    assert!(e.is_well_formed());
    e.amount = 500;
    assert!(!e.is_well_formed());
}
