//! The operations that pay out of the vault: refunds on expiry or agreed
//! cancellation, milestone and full releases, the retention release, and
//! dispute resolution. Each holds the escrow's reentrancy guard while it
//! works and hands back the transfers for the host to carry out, in order.

use vstd::prelude::*;
use crate::dispute::{DisputeSplit, dispute_transfers, dispute_transfers_spec, is_split_of, split_dispute};
use crate::error::EscrowError;
use crate::escrow::{
    DisputeOutcome,
    Escrow,
    EscrowState,
    EscrowView,
    is_party,
    is_unsettled,
};
use crate::identity::Identity;
use crate::milestone::{Milestone, lemma_milestone_total_update};
use crate::payout::{
    Party,
    Payout,
    Transfer,
    bps_of_spec,
    calc_retention,
    compute_payout,
    is_payout_of,
    payout_transfers,
    payout_transfers_spec,
};

verus! {

/// A payout to the seller and the transfers that carry it out.
#[derive(Debug)]
pub struct Release {
    pub payout: Payout,
    pub transfers: Vec<Transfer>,
}

/// A settled dispute and the transfers that carry it out.
#[derive(Debug)]
pub struct DisputeResolution {
    pub split: DisputeSplit,
    pub transfers: Vec<Transfer>,
}

/// Takes the reentrancy guard; refused when it is already held.
pub fn enter_transfer(e: &mut Escrow) -> (r: Result<(), EscrowError>)
    ensures
        old(e).in_transfer ==> r == Err::<(), EscrowError>(EscrowError::Reentrancy) && final(e)@
            == old(e)@,
        !old(e).in_transfer ==> r is Ok && final(e)@ == (EscrowView {
            in_transfer: true,
            ..old(e)@
        }),
{
    if e.in_transfer {
        return Err(EscrowError::Reentrancy);
    }
    e.in_transfer = true;
    Ok(())
}

/// Gives the reentrancy guard back.
pub fn exit_transfer(e: &mut Escrow)
    ensures
        final(e)@ == (EscrowView { in_transfer: false, ..old(e)@ }),
{
    e.in_transfer = false;
}

/// Why `expire_and_refund` is refused, if it is.
pub open spec fn expire_error(v: EscrowView, now: i64, vault_balance: u64) -> Option<EscrowError> {
    if !(v.verify_by_ts > 0 && now > v.verify_by_ts) {
        Some(EscrowError::NotExpired)
    } else if v.state != EscrowState::Open {
        Some(EscrowError::BadState)
    } else if vault_balance < v.amount {
        Some(EscrowError::VaultBalanceLow)
    } else if v.in_transfer {
        Some(EscrowError::Reentrancy)
    } else {
        None
    }
}

/// The escrow after a successful `expire_and_refund` at `now`.
pub open spec fn expire_post(v: EscrowView, now: i64) -> EscrowView {
    EscrowView { state: EscrowState::Refunded, released_ts: now, ..v }
}

/// Anyone may refund the buyer the whole vault once the verify-by deadline
/// has passed with the escrow still open.
pub fn expire_and_refund(e: &mut Escrow, now: i64, vault_balance: u64) -> (r: Result<
    Vec<Transfer>,
    EscrowError,
>)
    requires
        old(e)@.wf(),
    ensures
        final(e)@.wf(),
        match expire_error(old(e)@, now, vault_balance) {
            Some(err) => r == Err::<Vec<Transfer>, EscrowError>(err) && final(e)@ == old(e)@,
            None => r matches Ok(t) && t@ == seq![Transfer { to: Party::Buyer, amount: vault_balance }]
                && final(e)@ == expire_post(old(e)@, now),
        },
{
    if !(e.verify_by_ts > 0 && now > e.verify_by_ts) {
        return Err(EscrowError::NotExpired);
    }
    if e.state != EscrowState::Open {
        return Err(EscrowError::BadState);
    }
    if vault_balance < e.amount {
        return Err(EscrowError::VaultBalanceLow);
    }
    if let Err(err) = enter_transfer(e) {
        return Err(err);
    }
    let mut transfers: Vec<Transfer> = Vec::new();
    transfers.push(Transfer { to: Party::Buyer, amount: vault_balance });
    e.state = EscrowState::Refunded;
    e.released_ts = now;
    exit_transfer(e);
    Ok(transfers)
}

/// Why `release_for_milestone` is refused, if it is.
pub open spec fn release_milestone_error(v: EscrowView, milestone_id: u8, vault_balance: u64) -> Option<
    EscrowError,
> {
    if milestone_id >= v.milestones.len() {
        Some(EscrowError::BadMilestoneId)
    } else if !(v.milestones[milestone_id as int].verified && !v.milestones[milestone_id as int].released) {
        Some(EscrowError::MilestoneNotReleasable)
    } else if v.in_transfer {
        Some(EscrowError::Reentrancy)
    } else if vault_balance < v.milestones[milestone_id as int].amount {
        Some(EscrowError::VaultBalanceLow)
    } else {
        None
    }
}

/// The escrow after a successful `release_for_milestone` at `now`.
pub open spec fn release_milestone_post(v: EscrowView, milestone_id: u8, now: i64) -> EscrowView {
    let m = v.milestones[milestone_id as int];
    EscrowView {
        milestones: v.milestones.update(milestone_id as int, Milestone { released: true, ..m }),
        state: EscrowState::PartiallyReleased,
        released_ts: now,
        ..v
    }
}

/// Pays out a verified milestone: fee and insurance are taken from its
/// amount, a late penalty from what is left goes back to the buyer when the
/// delivery deadline has passed, and the seller gets the rest.
pub fn release_for_milestone(e: &mut Escrow, milestone_id: u8, now: i64, vault_balance: u64) -> (r:
    Result<Release, EscrowError>)
    requires
        old(e)@.wf(),
    ensures
        final(e)@.wf(),
        match release_milestone_error(old(e)@, milestone_id, vault_balance) {
            Some(err) => r == Err::<Release, EscrowError>(err) && final(e)@ == old(e)@,
            None => r matches Ok(rel) && is_payout_of(
                rel.payout,
                old(e)@.milestones[milestone_id as int].amount,
                old(e).fee_bps,
                old(e).insurance_bps,
                old(e).late_penalty_bps,
                old(e)@.is_late(now),
            ) && rel.transfers@ == payout_transfers_spec(rel.payout) && final(e)@
                == release_milestone_post(old(e)@, milestone_id, now),
        },
{
    let i = milestone_id as usize;
    if i >= e.milestones.len() {
        return Err(EscrowError::BadMilestoneId);
    }
    let mut m = e.milestones[i];
    if !(m.verified && !m.released) {
        return Err(EscrowError::MilestoneNotReleasable);
    }
    if e.in_transfer {
        return Err(EscrowError::Reentrancy);
    }
    if vault_balance < m.amount {
        return Err(EscrowError::VaultBalanceLow);
    }
    if let Err(err) = enter_transfer(e) {
        return Err(err);
    }
    let late = e.deliver_by_ts > 0 && now > e.deliver_by_ts;
    let payout = compute_payout(m.amount, e.fee_bps, e.insurance_bps, e.late_penalty_bps, late);
    let transfers = payout_transfers(&payout);
    m.released = true;
    proof {
        lemma_milestone_total_update(e.milestones@, i as int, m);
    }
    e.milestones.set(i, m);
    e.state = EscrowState::PartiallyReleased;
    e.released_ts = now;
    exit_transfer(e);
    Ok(Release { payout, transfers })
}

/// What `release_payment` pays out of a vault holding `vault_balance`: all
/// of it, less the retention while that is still held back.
pub open spec fn releasable_spec(v: EscrowView, vault_balance: u64) -> int {
    let retention_due = bps_of_spec(v.amount as int, v.retention_bps as int);
    if v.retention_released {
        vault_balance as int
    } else if retention_due <= vault_balance {
        vault_balance - retention_due
    } else {
        0
    }
}

/// Why `release_payment` is refused, if it is.
pub open spec fn release_payment_error(v: EscrowView, vault_balance: u64) -> Option<EscrowError> {
    if !(v.state == EscrowState::Verified || v.state == EscrowState::PartiallyReleased) {
        Some(EscrowError::BadState)
    } else if releasable_spec(v, vault_balance) == 0 {
        Some(EscrowError::NothingToRelease)
    } else if v.in_transfer {
        Some(EscrowError::Reentrancy)
    } else {
        None
    }
}

/// The escrow after a successful `release_payment` at `now`.
pub open spec fn release_payment_post(v: EscrowView, now: i64) -> EscrowView {
    EscrowView { state: EscrowState::Released, released_ts: now, ..v }
}

/// Pays the seller what is left in the vault, holding back the retention
/// until it is released, with the same fee, insurance and late-penalty
/// routing as a milestone. The escrow is then released.
pub fn release_payment(e: &mut Escrow, now: i64, vault_balance: u64) -> (r: Result<
    Release,
    EscrowError,
>)
    requires
        old(e)@.wf(),
    ensures
        final(e)@.wf(),
        match release_payment_error(old(e)@, vault_balance) {
            Some(err) => r == Err::<Release, EscrowError>(err) && final(e)@ == old(e)@,
            None => r matches Ok(rel) && is_payout_of(
                rel.payout,
                releasable_spec(old(e)@, vault_balance) as u64,
                old(e).fee_bps,
                old(e).insurance_bps,
                old(e).late_penalty_bps,
                old(e)@.is_late(now),
            ) && rel.transfers@ == payout_transfers_spec(rel.payout) && final(e)@
                == release_payment_post(old(e)@, now),
        },
{
    if !(e.state == EscrowState::Verified || e.state == EscrowState::PartiallyReleased) {
        return Err(EscrowError::BadState);
    }
    let mut remaining = vault_balance;
    let retention_due = calc_retention(e.amount, e.retention_bps);
    if !e.retention_released {
        let withheld = if retention_due < remaining {
            retention_due
        } else {
            remaining
        };
        remaining = remaining - withheld;
    }
    if remaining == 0 {
        return Err(EscrowError::NothingToRelease);
    }
    if let Err(err) = enter_transfer(e) {
        return Err(err);
    }
    let late = e.deliver_by_ts > 0 && now > e.deliver_by_ts;
    let payout = compute_payout(remaining, e.fee_bps, e.insurance_bps, e.late_penalty_bps, late);
    let transfers = payout_transfers(&payout);
    e.state = EscrowState::Released;
    e.released_ts = now;
    exit_transfer(e);
    Ok(Release { payout, transfers })
}

/// Why `release_retention` is refused, if it is.
pub open spec fn release_retention_error(v: EscrowView, now: i64, vault_balance: u64) -> Option<
    EscrowError,
> {
    if v.retention_released {
        Some(EscrowError::RetentionAlreadyReleased)
    } else if now < v.warranty_end_ts {
        Some(EscrowError::WarrantyNotEnded)
    } else if vault_balance < bps_of_spec(v.amount as int, v.retention_bps as int) {
        Some(EscrowError::VaultBalanceLow)
    } else if v.in_transfer {
        Some(EscrowError::Reentrancy)
    } else {
        None
    }
}

/// The escrow after a successful `release_retention`.
pub open spec fn release_retention_post(v: EscrowView) -> EscrowView {
    EscrowView { retention_released: true, ..v }
}

/// Once the warranty window has ended, pays the retention to the seller
/// through the fee and insurance routing, with no late penalty. The
/// lifecycle state is left as it is.
pub fn release_retention(e: &mut Escrow, now: i64, vault_balance: u64) -> (r: Result<
    Release,
    EscrowError,
>)
    requires
        old(e)@.wf(),
    ensures
        final(e)@.wf(),
        match release_retention_error(old(e)@, now, vault_balance) {
            Some(err) => r == Err::<Release, EscrowError>(err) && final(e)@ == old(e)@,
            None => r matches Ok(rel) && is_payout_of(
                rel.payout,
                bps_of_spec(old(e).amount as int, old(e).retention_bps as int) as u64,
                old(e).fee_bps,
                old(e).insurance_bps,
                old(e).late_penalty_bps,
                false,
            ) && rel.transfers@ == payout_transfers_spec(rel.payout) && final(e)@
                == release_retention_post(old(e)@),
        },
{
    if e.retention_released {
        return Err(EscrowError::RetentionAlreadyReleased);
    }
    if now < e.warranty_end_ts {
        return Err(EscrowError::WarrantyNotEnded);
    }
    let retention = calc_retention(e.amount, e.retention_bps);
    if vault_balance < retention {
        return Err(EscrowError::VaultBalanceLow);
    }
    if let Err(err) = enter_transfer(e) {
        return Err(err);
    }
    let payout = compute_payout(retention, e.fee_bps, e.insurance_bps, e.late_penalty_bps, false);
    let transfers = payout_transfers(&payout);
    e.retention_released = true;
    exit_transfer(e);
    Ok(Release { payout, transfers })
}

/// Why `approve_cancel` is refused, if it is.
pub open spec fn approve_cancel_error(v: EscrowView, caller: Identity, vault_balance: u64) -> Option<
    EscrowError,
> {
    if v.cancel_requested_by is None {
        Some(EscrowError::CancelNotRequested)
    } else if !v.is_party(caller) || v.cancel_requested_by == Some(caller) {
        Some(EscrowError::Unauthorized)
    } else if !is_unsettled(v.state) {
        Some(EscrowError::BadState)
    } else if vault_balance == 0 {
        Some(EscrowError::NothingToRelease)
    } else if v.in_transfer {
        Some(EscrowError::Reentrancy)
    } else {
        None
    }
}

/// The counterparty of the one who asked to cancel agrees: the buyer gets
/// the whole vault back.
pub fn approve_cancel(e: &mut Escrow, caller: Identity, vault_balance: u64) -> (r: Result<
    Vec<Transfer>,
    EscrowError,
>)
    requires
        old(e)@.wf(),
    ensures
        final(e)@.wf(),
        match approve_cancel_error(old(e)@, caller, vault_balance) {
            Some(err) => r == Err::<Vec<Transfer>, EscrowError>(err) && final(e)@ == old(e)@,
            None => r matches Ok(t) && t@ == seq![Transfer { to: Party::Buyer, amount: vault_balance }]
                && final(e)@ == (EscrowView { state: EscrowState::Refunded, ..old(e)@ }),
        },
{
    let requester = match e.cancel_requested_by {
        Some(id) => id,
        None => {
            return Err(EscrowError::CancelNotRequested);
        },
    };
    if !is_party(e, &caller) || caller == requester {
        return Err(EscrowError::Unauthorized);
    }
    if !(e.state == EscrowState::Open || e.state == EscrowState::Verified || e.state
        == EscrowState::PartiallyReleased) {
        return Err(EscrowError::BadState);
    }
    if vault_balance == 0 {
        return Err(EscrowError::NothingToRelease);
    }
    if let Err(err) = enter_transfer(e) {
        return Err(err);
    }
    let mut transfers: Vec<Transfer> = Vec::new();
    transfers.push(Transfer { to: Party::Buyer, amount: vault_balance });
    e.state = EscrowState::Refunded;
    exit_transfer(e);
    Ok(transfers)
}

/// Why `resolve_dispute` is refused, if it is.
pub open spec fn resolve_dispute_error(v: EscrowView, caller: Identity, vault_balance: u64) -> Option<
    EscrowError,
> {
    if caller != v.arbiter {
        Some(EscrowError::Unauthorized)
    } else if !v.dispute_open {
        Some(EscrowError::NoOpenDispute)
    } else if v.in_transfer {
        Some(EscrowError::Reentrancy)
    } else if vault_balance == 0 {
        Some(EscrowError::NothingToRelease)
    } else {
        None
    }
}

/// The escrow after a successful `resolve_dispute` at `now` that gave the
/// seller `seller_gross`.
pub open spec fn resolve_dispute_post(v: EscrowView, seller_gross: u64, now: i64) -> EscrowView {
    EscrowView {
        dispute_open: false,
        state: if seller_gross > 0 {
            EscrowState::Released
        } else {
            EscrowState::Refunded
        },
        released_ts: now,
        ..v
    }
}

/// The arbiter settles an open dispute over the whole vault: a refund, a
/// release, or a split giving the seller `seller_pct_bps`. Fee and insurance
/// come from the seller's part only. The escrow ends released when the
/// seller got anything, refunded otherwise.
pub fn resolve_dispute(
    e: &mut Escrow,
    caller: Identity,
    outcome: DisputeOutcome,
    seller_pct_bps: u16,
    now: i64,
    vault_balance: u64,
) -> (r: Result<DisputeResolution, EscrowError>)
    requires
        old(e)@.wf(),
    ensures
        final(e)@.wf(),
        match resolve_dispute_error(old(e)@, caller, vault_balance) {
            Some(err) => r == Err::<DisputeResolution, EscrowError>(err) && final(e)@ == old(e)@,
            None => r matches Ok(res) && is_split_of(
                res.split,
                vault_balance,
                outcome,
                seller_pct_bps,
                old(e).fee_bps,
                old(e).insurance_bps,
            ) && res.transfers@ == dispute_transfers_spec(res.split) && final(e)@
                == resolve_dispute_post(old(e)@, res.split.seller_gross, now),
        },
{
    if caller != e.arbiter {
        return Err(EscrowError::Unauthorized);
    }
    if !e.dispute_open {
        return Err(EscrowError::NoOpenDispute);
    }
    if e.in_transfer {
        return Err(EscrowError::Reentrancy);
    }
    if vault_balance == 0 {
        return Err(EscrowError::NothingToRelease);
    }
    if let Err(err) = enter_transfer(e) {
        return Err(err);
    }
    let split = split_dispute(vault_balance, outcome, seller_pct_bps, e.fee_bps, e.insurance_bps);
    let transfers = dispute_transfers(&split);
    e.dispute_open = false;
    e.state = if split.seller_gross > 0 {
        EscrowState::Released
    } else {
        EscrowState::Refunded
    };
    e.released_ts = now;
    exit_transfer(e);
    Ok(DisputeResolution { split, transfers })
}

/// A milestone is paid at most once: releasing one already released is
/// refused with a state error (and so, by `release_for_milestone`'s
/// contract, moves nothing and changes nothing), and after a successful
/// release every later release of the same milestone is refused the same way.
pub proof fn lemma_milestone_released_once(
    v: EscrowView,
    milestone_id: u8,
    now: i64,
    vault_balance: u64,
    later_vault_balance: u64,
)
    requires
        v.wf(),
    ensures
        milestone_id < v.milestones.len() && v.milestones[milestone_id as int].released
            ==> release_milestone_error(v, milestone_id, vault_balance) == Some(
            EscrowError::MilestoneNotReleasable,
        ),
        release_milestone_error(v, milestone_id, vault_balance) is None ==> release_milestone_error(
            release_milestone_post(v, milestone_id, now),
            milestone_id,
            later_vault_balance,
        ) == Some(EscrowError::MilestoneNotReleasable),
{
}

/// The retention is released only once the warranty window has ended, and
/// only once: before `warranty_end_ts` it is refused; after it, with the
/// vault holding the retention and no transfer under way, it succeeds; and
/// after a success every later call is refused as already released.
pub proof fn lemma_retention_released_once(
    v: EscrowView,
    now: i64,
    vault_balance: u64,
    later_now: i64,
    later_vault_balance: u64,
)
    requires
        v.wf(),
    ensures
        !v.retention_released && now < v.warranty_end_ts ==> release_retention_error(
            v,
            now,
            vault_balance,
        ) == Some(EscrowError::WarrantyNotEnded),
        !v.retention_released && now >= v.warranty_end_ts && vault_balance >= bps_of_spec(
            v.amount as int,
            v.retention_bps as int,
        ) && !v.in_transfer ==> release_retention_error(v, now, vault_balance) is None,
        release_retention_error(v, now, vault_balance) is None ==> release_retention_error(
            release_retention_post(v),
            later_now,
            later_vault_balance,
        ) == Some(EscrowError::RetentionAlreadyReleased),
{
}

/// An expired escrow is refunded once: after a successful
/// `expire_and_refund` the escrow is no longer open and every later call is
/// refused, as a state error once the deadline has passed.
pub proof fn lemma_expired_refund_once(
    v: EscrowView,
    now: i64,
    vault_balance: u64,
    later_now: i64,
    later_vault_balance: u64,
)
    requires
        v.wf(),
    ensures
        expire_error(v, now, vault_balance) is None ==> expire_error(
            expire_post(v, now),
            later_now,
            later_vault_balance,
        ) is Some,
        expire_error(v, now, vault_balance) is None && later_now > v.verify_by_ts ==> expire_error(
            expire_post(v, now),
            later_now,
            later_vault_balance,
        ) == Some(EscrowError::BadState),
{
}

} // verus!
