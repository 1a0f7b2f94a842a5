//! The escrow record and its lifecycle: creation, deadlines, delivery
//! verification by oracle quorum, the milestone ledger, cancellation,
//! disputes, evidence, and administrative updates. Operations that pay out
//! are in `release`.

use vstd::prelude::*;
use crate::config::{Config, QUORUM_MIN};
use crate::error::EscrowError;
use crate::identity::Identity;
use crate::milestone::{
    Milestone,
    MAX_MILESTONES,
    milestone_total,
    lemma_milestone_total_prefix,
    lemma_milestone_total_update,
    sum_milestones,
};
use crate::quorum::{
    Voter,
    count_quorum_votes,
    is_authenticated_oracle,
    lemma_distinct_oracle_voters_all_count,
    quorum_votes,
};

verus! {

/// The most oracles one escrow may register.
pub const MAX_ORACLES: usize = 8;

/// Seconds in one day, for the warranty window.
pub const SECONDS_PER_DAY: i64 = 86_400;

/// The most bytes of an evidence URI that an escrow or attestation keeps.
pub const URI_PREFIX_LEN: usize = 96;

#[derive(Clone, Copy, Debug, PartialEq, Eq, Structural)]
pub enum EscrowState {
    Open,
    Verified,
    PartiallyReleased,
    Released,
    Refunded,
    Dispute,
}

#[derive(Clone, Copy, Debug, PartialEq, Eq, Structural)]
pub enum DisputeOutcome {
    Refund,
    Release,
    Split,
}

/// One escrow, for one project.
#[derive(Debug)]
pub struct Escrow {
    pub project_id: u64,
    pub buyer: Identity,
    pub seller: Identity,
    /// The asset the escrow holds.
    pub mint: Identity,
    /// The configuration the escrow was created under.
    pub config: Identity,
    /// The arbiter copied from the configuration at creation.
    pub arbiter: Identity,
    pub amount: u64,
    pub fee_bps: u16,
    pub insurance_bps: u16,
    pub retention_bps: u16,
    pub late_penalty_bps: u16,
    pub price_snapshot_1e6: u64,
    pub quorum_m: u8,
    pub oracles: Vec<Identity>,
    pub state: EscrowState,
    pub created_ts: i64,
    pub verified_ts: i64,
    pub released_ts: i64,
    pub verify_by_ts: i64,
    pub deliver_by_ts: i64,
    pub warranty_end_ts: i64,
    pub milestones: Vec<Milestone>,
    pub last_evidence_hash: [u8; 32],
    pub last_evidence_uri: Vec<u8>,
    pub attestations_count: u32,
    pub cancel_requested_by: Option<Identity>,
    pub dispute_open: bool,
    pub nft_enabled: bool,
    pub receipt_nft_mint: Option<Identity>,
    /// The reentrancy guard: held while an operation issues transfers.
    pub in_transfer: bool,
    pub in_progress: bool,
    pub retention_released: bool,
    pub last_ix_nonce: u64,
}

/// The mathematical model of an [`Escrow`]: the same fields, with the
/// vectors seen as sequences.
pub struct EscrowView {
    pub project_id: u64,
    pub buyer: Identity,
    pub seller: Identity,
    pub mint: Identity,
    pub config: Identity,
    pub arbiter: Identity,
    pub amount: u64,
    pub fee_bps: u16,
    pub insurance_bps: u16,
    pub retention_bps: u16,
    pub late_penalty_bps: u16,
    pub price_snapshot_1e6: u64,
    pub quorum_m: u8,
    pub oracles: Seq<Identity>,
    pub state: EscrowState,
    pub created_ts: i64,
    pub verified_ts: i64,
    pub released_ts: i64,
    pub verify_by_ts: i64,
    pub deliver_by_ts: i64,
    pub warranty_end_ts: i64,
    pub milestones: Seq<Milestone>,
    pub last_evidence_hash: [u8; 32],
    pub last_evidence_uri: Seq<u8>,
    pub attestations_count: u32,
    pub cancel_requested_by: Option<Identity>,
    pub dispute_open: bool,
    pub nft_enabled: bool,
    pub receipt_nft_mint: Option<Identity>,
    pub in_transfer: bool,
    pub in_progress: bool,
    pub retention_released: bool,
    pub last_ix_nonce: u64,
}

impl View for Escrow {
    type V = EscrowView;

    open spec fn view(&self) -> EscrowView {
        EscrowView {
            project_id: self.project_id,
            buyer: self.buyer,
            seller: self.seller,
            mint: self.mint,
            config: self.config,
            arbiter: self.arbiter,
            amount: self.amount,
            fee_bps: self.fee_bps,
            insurance_bps: self.insurance_bps,
            retention_bps: self.retention_bps,
            late_penalty_bps: self.late_penalty_bps,
            price_snapshot_1e6: self.price_snapshot_1e6,
            quorum_m: self.quorum_m,
            oracles: self.oracles@,
            state: self.state,
            created_ts: self.created_ts,
            verified_ts: self.verified_ts,
            released_ts: self.released_ts,
            verify_by_ts: self.verify_by_ts,
            deliver_by_ts: self.deliver_by_ts,
            warranty_end_ts: self.warranty_end_ts,
            milestones: self.milestones@,
            last_evidence_hash: self.last_evidence_hash,
            last_evidence_uri: self.last_evidence_uri@,
            attestations_count: self.attestations_count,
            cancel_requested_by: self.cancel_requested_by,
            dispute_open: self.dispute_open,
            nft_enabled: self.nft_enabled,
            receipt_nft_mint: self.receipt_nft_mint,
            in_transfer: self.in_transfer,
            in_progress: self.in_progress,
            retention_released: self.retention_released,
            last_ix_nonce: self.last_ix_nonce,
        }
    }
}

impl EscrowView {
    /// The invariants every escrow keeps between operations.
    pub open spec fn wf(self) -> bool {
        &&& self.amount > 0
        &&& self.quorum_m >= QUORUM_MIN
        &&& self.oracles.len() <= MAX_ORACLES
        &&& self.milestones.len() <= MAX_MILESTONES
        &&& milestone_total(self.milestones) <= self.amount
        &&& forall|i: int| 0 <= i < self.milestones.len() ==> #[trigger] self.milestones[i].id == i
        &&& self.last_evidence_uri.len() <= URI_PREFIX_LEN
    }

    /// `caller` is the buyer or the seller.
    pub open spec fn is_party(self, caller: Identity) -> bool {
        caller == self.buyer || caller == self.seller
    }

    /// A delivery deadline is set and `now` is past it.
    pub open spec fn is_late(self, now: i64) -> bool {
        self.deliver_by_ts > 0 && now > self.deliver_by_ts
    }
}

/// The first `URI_PREFIX_LEN` bytes of `uri` (all of it when shorter).
pub open spec fn uri_prefix_spec(uri: Seq<u8>) -> Seq<u8> {
    if uri.len() <= URI_PREFIX_LEN {
        uri
    } else {
        uri.take(URI_PREFIX_LEN as int)
    }
}

/// The first `URI_PREFIX_LEN` bytes of `uri`.
pub fn uri_prefix(uri: &Vec<u8>) -> (r: Vec<u8>)
    ensures
        r@ == uri_prefix_spec(uri@),
{
    let n: usize = if uri.len() < URI_PREFIX_LEN {
        uri.len()
    } else {
        URI_PREFIX_LEN
    };
    let mut r: Vec<u8> = Vec::new();
    let mut i: usize = 0;
    while i < n
        invariant
            i <= n <= uri.len(),
            n == uri.len() || n == URI_PREFIX_LEN,
            n <= URI_PREFIX_LEN,
            r@ == uri@.take(i as int),
        decreases n - i,
    {
        r.push(uri[i]);
        i = i + 1;
        assert(r@ =~= uri@.take(i as int));
    }
    assert(uri.len() <= URI_PREFIX_LEN ==> uri@.take(n as int) =~= uri@);
    r
}

/// Why `create_escrow` refuses its arguments, if it does.
pub open spec fn create_error(amount: u64, ix_nonce: u64, oracles_len: nat, quorum_m: u8) -> Option<
    EscrowError,
> {
    if amount == 0 {
        Some(EscrowError::ZeroAmount)
    } else if quorum_m < QUORUM_MIN {
        Some(EscrowError::BadQuorum)
    } else if oracles_len > MAX_ORACLES {
        Some(EscrowError::TooManyOracles)
    } else if ix_nonce <= 0 {
        Some(EscrowError::BadNonce)
    } else {
        None
    }
}

/// Creates the escrow for `project_id`, copying the rates, warranty length
/// and arbiter of `cfg`. The buyer's deposit of `amount` into the vault is
/// the host's to make once this succeeds.
pub fn create_escrow(
    cfg: &Config,
    config_key: Identity,
    buyer: Identity,
    seller: Identity,
    mint: Identity,
    project_id: u64,
    amount: u64,
    ix_nonce: u64,
    oracles: Vec<Identity>,
    quorum_m: u8,
    price_snapshot_1e6: u64,
    nft_enabled: bool,
    now: i64,
) -> (r: Result<Escrow, EscrowError>)
    requires
        i64::MIN <= cfg.warranty_days * SECONDS_PER_DAY <= i64::MAX,
        i64::MIN <= now + cfg.warranty_days * SECONDS_PER_DAY <= i64::MAX,
    ensures
        match create_error(amount, ix_nonce, oracles@.len(), quorum_m) {
            Some(err) => r == Err::<Escrow, EscrowError>(err),
            None => r matches Ok(e) && e@ == (EscrowView {
                project_id,
                buyer,
                seller,
                mint,
                config: config_key,
                arbiter: cfg.arbiter,
                amount,
                fee_bps: cfg.fee_bps,
                insurance_bps: cfg.insurance_bps,
                retention_bps: cfg.retention_bps,
                late_penalty_bps: 0,
                price_snapshot_1e6,
                quorum_m,
                oracles: oracles@,
                state: EscrowState::Open,
                created_ts: now,
                verified_ts: 0,
                released_ts: 0,
                verify_by_ts: 0,
                deliver_by_ts: 0,
                warranty_end_ts: (now + cfg.warranty_days * SECONDS_PER_DAY) as i64,
                milestones: Seq::empty(),
                last_evidence_hash: e.last_evidence_hash,
                last_evidence_uri: Seq::empty(),
                attestations_count: 0,
                cancel_requested_by: None,
                dispute_open: false,
                nft_enabled,
                receipt_nft_mint: None,
                in_transfer: false,
                in_progress: false,
                retention_released: false,
                last_ix_nonce: ix_nonce,
            }) && e.last_evidence_hash@ == Seq::new(32, |i: int| 0u8) && e@.wf(),
        },
{
    if amount == 0 {
        return Err(EscrowError::ZeroAmount);
    }
    if quorum_m < QUORUM_MIN {
        return Err(EscrowError::BadQuorum);
    }
    if oracles.len() > MAX_ORACLES {
        return Err(EscrowError::TooManyOracles);
    }
    // A fresh record starts from nonce zero.
    let last_ix_nonce: u64 = 0;
    if ix_nonce <= last_ix_nonce {
        return Err(EscrowError::BadNonce);
    }
    let warranty_end_ts = now + cfg.warranty_days * SECONDS_PER_DAY;
    let e = Escrow {
        project_id,
        buyer,
        seller,
        mint,
        config: config_key,
        arbiter: cfg.arbiter,
        amount,
        fee_bps: cfg.fee_bps,
        insurance_bps: cfg.insurance_bps,
        retention_bps: cfg.retention_bps,
        late_penalty_bps: 0,
        price_snapshot_1e6,
        quorum_m,
        oracles,
        state: EscrowState::Open,
        created_ts: now,
        verified_ts: 0,
        released_ts: 0,
        verify_by_ts: 0,
        deliver_by_ts: 0,
        warranty_end_ts,
        milestones: Vec::new(),
        last_evidence_hash: [0u8; 32],
        last_evidence_uri: Vec::new(),
        attestations_count: 0,
        cancel_requested_by: None,
        dispute_open: false,
        nft_enabled,
        receipt_nft_mint: None,
        in_transfer: false,
        in_progress: false,
        retention_released: false,
        last_ix_nonce: ix_nonce,
    };
    assert(e.last_evidence_hash@ =~= Seq::new(32, |i: int| 0u8));
    Ok(e)
}

/// Whether `caller` is the buyer or the seller of `e`.
pub fn is_party(e: &Escrow, caller: &Identity) -> (r: bool)
    ensures
        r == e@.is_party(*caller),
{
    *caller == e.buyer || *caller == e.seller
}

impl Escrow {
    /// The milestones recorded so far, in order.
    pub fn milestones(&self) -> (r: &[Milestone])
        ensures
            r@ == self.milestones@,
    {
        self.milestones.as_slice()
    }

    /// Checks the invariants of `EscrowView::wf`, for a record that comes
    /// from storage.
    pub fn is_well_formed(&self) -> (r: bool)
        ensures
            r == self@.wf(),
    {
        if self.amount == 0 || self.quorum_m < QUORUM_MIN || self.oracles.len() > MAX_ORACLES
            || self.milestones.len() > MAX_MILESTONES || self.last_evidence_uri.len()
            > URI_PREFIX_LEN {
            return false;
        }
        let mut i: usize = 0;
        while i < self.milestones.len()
            invariant
                i <= self.milestones.len() <= MAX_MILESTONES,
                self.amount > 0,
                self.quorum_m >= QUORUM_MIN,
                self.oracles.len() <= MAX_ORACLES,
                self.last_evidence_uri.len() <= URI_PREFIX_LEN,
                forall|j: int| 0 <= j < i ==> #[trigger] self.milestones@[j].id == j,
            decreases self.milestones.len() - i,
        {
            if self.milestones[i].id as usize != i {
                return false;
            }
            i = i + 1;
        }
        match sum_milestones(&self.milestones) {
            Some(total) => total <= self.amount,
            None => false,
        }
    }
}

/// Why `set_deadlines` is refused, if it is.
pub open spec fn set_deadlines_error(v: EscrowView, caller: Identity) -> Option<EscrowError> {
    if !v.is_party(caller) {
        Some(EscrowError::Unauthorized)
    } else if !(v.state == EscrowState::Open || v.state == EscrowState::PartiallyReleased) {
        Some(EscrowError::BadState)
    } else {
        None
    }
}

/// The buyer or the seller sets the verify-by and deliver-by deadlines
/// (zero for none), while the escrow is open or partially released.
pub fn set_deadlines(e: &mut Escrow, caller: Identity, verify_by_ts: i64, deliver_by_ts: i64) -> (r:
    Result<(), EscrowError>)
    requires
        old(e)@.wf(),
    ensures
        final(e)@.wf(),
        match set_deadlines_error(old(e)@, caller) {
            Some(err) => r == Err::<(), EscrowError>(err) && final(e)@ == old(e)@,
            None => r is Ok && final(e)@ == (EscrowView {
                verify_by_ts,
                deliver_by_ts,
                ..old(e)@
            }),
        },
{
    if !is_party(e, &caller) {
        return Err(EscrowError::Unauthorized);
    }
    if !(e.state == EscrowState::Open || e.state == EscrowState::PartiallyReleased) {
        return Err(EscrowError::BadState);
    }
    e.verify_by_ts = verify_by_ts;
    e.deliver_by_ts = deliver_by_ts;
    Ok(())
}

/// The seller flags that work has started. Informational only.
pub fn mark_in_progress(e: &mut Escrow, caller: Identity) -> (r: Result<(), EscrowError>)
    requires
        old(e)@.wf(),
    ensures
        final(e)@.wf(),
        caller != old(e).seller ==> r == Err::<(), EscrowError>(EscrowError::Unauthorized)
            && final(e)@ == old(e)@,
        caller == old(e).seller ==> r is Ok && final(e)@ == (EscrowView {
            in_progress: true,
            ..old(e)@
        }),
{
    if caller != e.seller {
        return Err(EscrowError::Unauthorized);
    }
    e.in_progress = true;
    Ok(())
}

/// Why `verify_delivery` is refused, if it is.
pub open spec fn verify_delivery_error(v: EscrowView, project_id: u64, voters: Seq<Voter>) -> Option<
    EscrowError,
> {
    if v.project_id != project_id {
        Some(EscrowError::ProjectMismatch)
    } else if !(v.state == EscrowState::Open || v.state == EscrowState::PartiallyReleased) {
        Some(EscrowError::BadState)
    } else if quorum_votes(v.oracles, voters) < v.quorum_m {
        Some(EscrowError::QuorumNotMet)
    } else {
        None
    }
}

/// The escrow after a successful `verify_delivery` at `now`.
pub open spec fn verify_delivery_post(v: EscrowView, now: i64) -> EscrowView {
    EscrowView {
        state: if v.state == EscrowState::Open {
            EscrowState::Verified
        } else {
            v.state
        },
        verified_ts: now,
        ..v
    }
}

/// An oracle quorum confirms delivery: an open escrow becomes verified, a
/// partially released one records the time. Returns the number of votes.
pub fn verify_delivery(e: &mut Escrow, project_id: u64, voters: &Vec<Voter>, now: i64) -> (r: Result<
    usize,
    EscrowError,
>)
    requires
        old(e)@.wf(),
    ensures
        final(e)@.wf(),
        match verify_delivery_error(old(e)@, project_id, voters@) {
            Some(err) => r == Err::<usize, EscrowError>(err) && final(e)@ == old(e)@,
            None => r == Ok::<usize, EscrowError>(quorum_votes(old(e)@.oracles, voters@) as usize)
                && final(e)@ == verify_delivery_post(old(e)@, now),
        },
{
    if e.project_id != project_id {
        return Err(EscrowError::ProjectMismatch);
    }
    if !(e.state == EscrowState::Open || e.state == EscrowState::PartiallyReleased) {
        return Err(EscrowError::BadState);
    }
    let votes = count_quorum_votes(&e.oracles, voters);
    if votes < e.quorum_m as usize {
        return Err(EscrowError::QuorumNotMet);
    }
    if e.state == EscrowState::Open {
        e.state = EscrowState::Verified;
    }
    e.verified_ts = now;
    Ok(votes)
}

/// Why `add_milestone` is refused, if it is.
pub open spec fn add_milestone_error(v: EscrowView, caller: Identity, amount: u64) -> Option<
    EscrowError,
> {
    if !v.is_party(caller) {
        Some(EscrowError::Unauthorized)
    } else if !(v.state == EscrowState::Open || v.state == EscrowState::Verified) {
        Some(EscrowError::BadState)
    } else if v.milestones.len() >= MAX_MILESTONES {
        Some(EscrowError::TooManyMilestones)
    } else if milestone_total(v.milestones) + amount > v.amount {
        Some(EscrowError::MilestoneOverTotal)
    } else {
        None
    }
}

/// The escrow after a successful `add_milestone`.
pub open spec fn add_milestone_post(v: EscrowView, amount: u64, evidence_hash: [u8; 32]) -> EscrowView {
    EscrowView {
        milestones: v.milestones.push(
            Milestone {
                id: v.milestones.len() as u8,
                amount,
                verified: false,
                released: false,
                verify_ts: 0,
                evidence_hash,
            },
        ),
        ..v
    }
}

/// The buyer or the seller appends a milestone of `amount`. Refused, with
/// the ledger untouched, when the milestones would sum to more than the
/// escrow's total. Returns the new milestone's id.
pub fn add_milestone(e: &mut Escrow, caller: Identity, amount: u64, evidence_hash: [u8; 32]) -> (r:
    Result<u8, EscrowError>)
    requires
        old(e)@.wf(),
    ensures
        final(e)@.wf(),
        match add_milestone_error(old(e)@, caller, amount) {
            Some(err) => r == Err::<u8, EscrowError>(err) && final(e)@ == old(e)@,
            None => r == Ok::<u8, EscrowError>(old(e)@.milestones.len() as u8) && final(e)@
                == add_milestone_post(old(e)@, amount, evidence_hash),
        },
{
    if !is_party(e, &caller) {
        return Err(EscrowError::Unauthorized);
    }
    if !(e.state == EscrowState::Open || e.state == EscrowState::Verified) {
        return Err(EscrowError::BadState);
    }
    if e.milestones.len() >= MAX_MILESTONES {
        return Err(EscrowError::TooManyMilestones);
    }
    proof {
        lemma_milestone_total_prefix(e.milestones@, 0);
    }
    let current_sum: u64 = match sum_milestones(&e.milestones) {
        Some(s) => s,
        None => {
            return Err(EscrowError::MilestoneOverTotal);
        },
    };
    // The ledger already sums to at most the total, so this cannot wrap.
    if amount > e.amount - current_sum {
        return Err(EscrowError::MilestoneOverTotal);
    }
    let id = e.milestones.len() as u8;
    e.milestones.push(
        Milestone { id, amount, verified: false, released: false, verify_ts: 0, evidence_hash },
    );
    proof {
        let ms = e.milestones@;
        assert(ms.drop_last() =~= old(e)@.milestones);
        assert(milestone_total(ms) == milestone_total(old(e)@.milestones) + amount);
        assert(ms == old(e)@.milestones.push(
            Milestone { id, amount, verified: false, released: false, verify_ts: 0, evidence_hash },
        ));
        assert forall|j: int| 0 <= j < ms.len() implies #[trigger] ms[j].id == j by {
            if j < ms.len() - 1 {
                assert(ms[j] == old(e)@.milestones[j]);
            }
        }
    }
    Ok(id)
}

/// Why `verify_milestone` is refused, if it is.
pub open spec fn verify_milestone_error(v: EscrowView, milestone_id: u8, voters: Seq<Voter>) -> Option<
    EscrowError,
> {
    if milestone_id >= v.milestones.len() {
        Some(EscrowError::BadMilestoneId)
    } else if quorum_votes(v.oracles, voters) < v.quorum_m {
        Some(EscrowError::QuorumNotMet)
    } else if v.milestones[milestone_id as int].verified {
        Some(EscrowError::AlreadyVerified)
    } else {
        None
    }
}

/// The escrow after a successful `verify_milestone` at `now`.
pub open spec fn verify_milestone_post(v: EscrowView, milestone_id: u8, now: i64) -> EscrowView {
    let m = v.milestones[milestone_id as int];
    EscrowView {
        milestones: v.milestones.update(
            milestone_id as int,
            Milestone { verified: true, verify_ts: now, ..m },
        ),
        state: if v.state == EscrowState::Open {
            EscrowState::Verified
        } else {
            v.state
        },
        ..v
    }
}

/// An oracle quorum confirms one milestone; an open escrow becomes verified.
pub fn verify_milestone(e: &mut Escrow, milestone_id: u8, voters: &Vec<Voter>, now: i64) -> (r:
    Result<(), EscrowError>)
    requires
        old(e)@.wf(),
    ensures
        final(e)@.wf(),
        match verify_milestone_error(old(e)@, milestone_id, voters@) {
            Some(err) => r == Err::<(), EscrowError>(err) && final(e)@ == old(e)@,
            None => r is Ok && final(e)@ == verify_milestone_post(old(e)@, milestone_id, now),
        },
{
    let i = milestone_id as usize;
    if i >= e.milestones.len() {
        return Err(EscrowError::BadMilestoneId);
    }
    let votes = count_quorum_votes(&e.oracles, voters);
    if votes < e.quorum_m as usize {
        return Err(EscrowError::QuorumNotMet);
    }
    let mut m = e.milestones[i];
    if m.verified {
        return Err(EscrowError::AlreadyVerified);
    }
    m.verified = true;
    m.verify_ts = now;
    proof {
        lemma_milestone_total_update(e.milestones@, i as int, m);
    }
    e.milestones.set(i, m);
    if e.state == EscrowState::Open {
        e.state = EscrowState::Verified;
    }
    Ok(())
}

/// Why `request_cancel` is refused, if it is.
pub open spec fn request_cancel_error(v: EscrowView, caller: Identity) -> Option<EscrowError> {
    if v.cancel_requested_by is Some {
        Some(EscrowError::CancelAlreadyRequested)
    } else if !v.is_party(caller) {
        Some(EscrowError::Unauthorized)
    } else {
        None
    }
}

/// The buyer or the seller asks to cancel; the other party must approve.
pub fn request_cancel(e: &mut Escrow, caller: Identity) -> (r: Result<(), EscrowError>)
    requires
        old(e)@.wf(),
    ensures
        final(e)@.wf(),
        match request_cancel_error(old(e)@, caller) {
            Some(err) => r == Err::<(), EscrowError>(err) && final(e)@ == old(e)@,
            None => r is Ok && final(e)@ == (EscrowView {
                cancel_requested_by: Some(caller),
                ..old(e)@
            }),
        },
{
    if e.cancel_requested_by.is_some() {
        return Err(EscrowError::CancelAlreadyRequested);
    }
    if !is_party(e, &caller) {
        return Err(EscrowError::Unauthorized);
    }
    e.cancel_requested_by = Some(caller);
    Ok(())
}

/// The states from which funds are still unsettled: a dispute may be opened
/// and a cancellation approved from these only.
pub open spec fn is_unsettled(state: EscrowState) -> bool {
    state == EscrowState::Open || state == EscrowState::Verified || state
        == EscrowState::PartiallyReleased
}

fn unsettled(state: EscrowState) -> (r: bool)
    ensures
        r == is_unsettled(state),
{
    state == EscrowState::Open || state == EscrowState::Verified || state
        == EscrowState::PartiallyReleased
}

/// Why `open_dispute` is refused, if it is.
pub open spec fn open_dispute_error(v: EscrowView, caller: Identity) -> Option<EscrowError> {
    if !v.is_party(caller) {
        Some(EscrowError::Unauthorized)
    } else if v.dispute_open {
        Some(EscrowError::DisputeAlreadyOpen)
    } else if !is_unsettled(v.state) {
        Some(EscrowError::BadState)
    } else {
        None
    }
}

/// The buyer or the seller opens a dispute; the escrow waits for the arbiter.
pub fn open_dispute(e: &mut Escrow, caller: Identity) -> (r: Result<(), EscrowError>)
    requires
        old(e)@.wf(),
    ensures
        final(e)@.wf(),
        match open_dispute_error(old(e)@, caller) {
            Some(err) => r == Err::<(), EscrowError>(err) && final(e)@ == old(e)@,
            None => r is Ok && final(e)@ == (EscrowView {
                dispute_open: true,
                state: EscrowState::Dispute,
                ..old(e)@
            }),
        },
{
    if !is_party(e, &caller) {
        return Err(EscrowError::Unauthorized);
    }
    if e.dispute_open {
        return Err(EscrowError::DisputeAlreadyOpen);
    }
    if !unsettled(e.state) {
        return Err(EscrowError::BadState);
    }
    e.dispute_open = true;
    e.state = EscrowState::Dispute;
    Ok(())
}

/// Why `update_oracles` is refused, if it is.
pub open spec fn update_oracles_error(
    v: EscrowView,
    caller: Identity,
    oracles_len: nat,
    new_quorum_m: u8,
) -> Option<EscrowError> {
    if !v.is_party(caller) {
        Some(EscrowError::Unauthorized)
    } else if oracles_len > MAX_ORACLES {
        Some(EscrowError::TooManyOracles)
    } else if new_quorum_m < QUORUM_MIN {
        Some(EscrowError::BadQuorum)
    } else {
        None
    }
}

/// The buyer or the seller replaces the oracle set and quorum, in any state.
pub fn update_oracles(e: &mut Escrow, caller: Identity, new_oracles: Vec<Identity>, new_quorum_m: u8) -> (r:
    Result<(), EscrowError>)
    requires
        old(e)@.wf(),
    ensures
        final(e)@.wf(),
        match update_oracles_error(old(e)@, caller, new_oracles@.len(), new_quorum_m) {
            Some(err) => r == Err::<(), EscrowError>(err) && final(e)@ == old(e)@,
            None => r is Ok && final(e)@ == (EscrowView {
                oracles: new_oracles@,
                quorum_m: new_quorum_m,
                ..old(e)@
            }),
        },
{
    if !is_party(e, &caller) {
        return Err(EscrowError::Unauthorized);
    }
    if new_oracles.len() > MAX_ORACLES {
        return Err(EscrowError::TooManyOracles);
    }
    if new_quorum_m < QUORUM_MIN {
        return Err(EscrowError::BadQuorum);
    }
    e.oracles = new_oracles;
    e.quorum_m = new_quorum_m;
    Ok(())
}

/// The seller moves its payout destination to `new_seller`, in any state.
pub fn update_seller_dest(e: &mut Escrow, caller: Identity, new_seller: Identity) -> (r: Result<
    (),
    EscrowError,
>)
    requires
        old(e)@.wf(),
    ensures
        final(e)@.wf(),
        caller != old(e).seller ==> r == Err::<(), EscrowError>(EscrowError::Unauthorized)
            && final(e)@ == old(e)@,
        caller == old(e).seller ==> r is Ok && final(e)@ == (EscrowView {
            seller: new_seller,
            ..old(e)@
        }),
{
    if caller != e.seller {
        return Err(EscrowError::Unauthorized);
    }
    e.seller = new_seller;
    Ok(())
}

/// The buyer or the seller records the latest evidence: its hash and the
/// first `URI_PREFIX_LEN` bytes of its URI.
pub fn attach_evidence(e: &mut Escrow, caller: Identity, hash: [u8; 32], uri: &Vec<u8>) -> (r:
    Result<(), EscrowError>)
    requires
        old(e)@.wf(),
    ensures
        final(e)@.wf(),
        !old(e)@.is_party(caller) ==> r == Err::<(), EscrowError>(EscrowError::Unauthorized)
            && final(e)@ == old(e)@,
        old(e)@.is_party(caller) ==> r is Ok && final(e)@ == (EscrowView {
            last_evidence_hash: hash,
            last_evidence_uri: uri_prefix_spec(uri@),
            ..old(e)@
        }),
{
    if !is_party(e, &caller) {
        return Err(EscrowError::Unauthorized);
    }
    e.last_evidence_hash = hash;
    e.last_evidence_uri = uri_prefix(uri);
    Ok(())
}

/// A note attached to an escrow by anyone (an inspector, say). Never read by
/// the payout logic.
#[derive(Debug)]
pub struct Attestation {
    /// The escrow's own key.
    pub escrow: Identity,
    pub attester: Identity,
    pub hash: [u8; 32],
    pub uri_prefix: Vec<u8>,
    pub ts: i64,
}

/// Records an attestation by `attester` at `now` and counts it on the escrow
/// (the count saturates).
pub fn add_attestation(
    e: &mut Escrow,
    escrow_key: Identity,
    attester: Identity,
    hash: [u8; 32],
    uri: &Vec<u8>,
    now: i64,
) -> (r: Attestation)
    requires
        old(e)@.wf(),
    ensures
        final(e)@.wf(),
        final(e)@ == (EscrowView {
            attestations_count: if old(e).attestations_count == u32::MAX {
                u32::MAX
            } else {
                (old(e).attestations_count + 1) as u32
            },
            ..old(e)@
        }),
        r.escrow == escrow_key,
        r.attester == attester,
        r.hash == hash,
        r.uri_prefix@ == uri_prefix_spec(uri@),
        r.ts == now,
{
    e.attestations_count = e.attestations_count.saturating_add(1);
    Attestation { escrow: escrow_key, attester, hash, uri_prefix: uri_prefix(uri), ts: now }
}

/// Records the receipt token's mint, when the escrow was created with
/// receipts enabled. Minting the token is the host's.
pub fn init_receipt_nft(e: &mut Escrow, nft_mint: Identity) -> (r: Result<(), EscrowError>)
    requires
        old(e)@.wf(),
    ensures
        final(e)@.wf(),
        !old(e).nft_enabled ==> r == Err::<(), EscrowError>(EscrowError::NftDisabled) && final(e)@
            == old(e)@,
        old(e).nft_enabled ==> r is Ok && final(e)@ == (EscrowView {
            receipt_nft_mint: Some(nft_mint),
            ..old(e)@
        }),
{
    if !e.nft_enabled {
        return Err(EscrowError::NftDisabled);
    }
    e.receipt_nft_mint = Some(nft_mint);
    Ok(())
}

/// Why `finalize_receipt_nft` is refused, if it is.
pub open spec fn finalize_receipt_error(v: EscrowView, nft_mint: Identity) -> Option<EscrowError> {
    if v.state != EscrowState::Released {
        Some(EscrowError::BadState)
    } else if !v.nft_enabled {
        Some(EscrowError::NftDisabled)
    } else if v.receipt_nft_mint != Some(nft_mint) {
        Some(EscrowError::BadNftMint)
    } else {
        None
    }
}

/// Whether the receipt token `nft_mint` may be thawed or burnt: the escrow
/// is released and `nft_mint` is its receipt.
pub fn finalize_receipt_nft(e: &Escrow, nft_mint: Identity) -> (r: Result<(), EscrowError>)
    ensures
        match finalize_receipt_error(e@, nft_mint) {
            Some(err) => r == Err::<(), EscrowError>(err),
            None => r is Ok,
        },
{
    if e.state != EscrowState::Released {
        return Err(EscrowError::BadState);
    }
    if !e.nft_enabled {
        return Err(EscrowError::NftDisabled);
    }
    match e.receipt_nft_mint {
        Some(m) => {
            if m != nft_mint {
                return Err(EscrowError::BadNftMint);
            }
        },
        None => {
            return Err(EscrowError::BadNftMint);
        },
    }
    Ok(())
}

/// Quorum: for an escrow that may be verified, voters that are distinct,
/// authenticated oracles confirm delivery exactly when there are at least
/// `quorum_m` of them; so `quorum_m` of them succeed and one fewer is refused
/// for want of quorum.
pub proof fn lemma_quorum_threshold(v: EscrowView, project_id: u64, voters: Seq<Voter>)
    requires
        v.wf(),
        v.project_id == project_id,
        v.state == EscrowState::Open || v.state == EscrowState::PartiallyReleased,
        forall|k: int| 0 <= k < voters.len() ==> is_authenticated_oracle(v.oracles, #[trigger] voters[k]),
        forall|j: int, k: int|
            0 <= j < k < voters.len() ==> voters[j].identity != voters[k].identity,
    ensures
        verify_delivery_error(v, project_id, voters) is None <==> voters.len() >= v.quorum_m,
        voters.len() == v.quorum_m ==> verify_delivery_error(v, project_id, voters) is None,
        voters.len() + 1 == v.quorum_m ==> verify_delivery_error(v, project_id, voters) == Some(
            EscrowError::QuorumNotMet,
        ),
{
    lemma_distinct_oracle_voters_all_count(v.oracles, voters);
}

/// A milestone that would take the ledger past the escrow's total is
/// refused on that call (and so, by `add_milestone`'s contract, the ledger
/// is left untouched), whatever was added before.
pub proof fn lemma_milestone_over_total_rejected(v: EscrowView, caller: Identity, amount: u64)
    requires
        v.wf(),
        v.is_party(caller),
        v.state == EscrowState::Open || v.state == EscrowState::Verified,
        v.milestones.len() < MAX_MILESTONES,
        milestone_total(v.milestones) + amount > v.amount,
    ensures
        add_milestone_error(v, caller, amount) == Some(EscrowError::MilestoneOverTotal),
{
}

/// Milestones added one after another never sum to more than the escrow's
/// total: every successful `add_milestone` keeps the ledger within it.
pub proof fn lemma_milestones_within_total(
    v: EscrowView,
    caller: Identity,
    amount: u64,
    evidence_hash: [u8; 32],
)
    requires
        v.wf(),
        add_milestone_error(v, caller, amount) is None,
    ensures
        milestone_total(add_milestone_post(v, amount, evidence_hash).milestones) <= v.amount,
        add_milestone_post(v, amount, evidence_hash).milestones.drop_last() == v.milestones,
{
    let ms = add_milestone_post(v, amount, evidence_hash).milestones;
    assert(ms.drop_last() =~= v.milestones);
}

} // verus!
