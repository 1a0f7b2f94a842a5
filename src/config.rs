//! Platform-wide configuration: fee and insurance rates, retention, warranty
//! length, default quorum, and the identities of treasury, arbiter and the
//! authority that may change them. Escrows copy what they need at creation.

use vstd::prelude::*;
use crate::error::EscrowError;
use crate::identity::Identity;

verus! {

/// The smallest quorum an escrow or the configuration may ask for.
pub const QUORUM_MIN: u8 = 1;

#[derive(Clone, Copy, Debug)]
pub struct Config {
    pub authority: Identity,
    /// The identity proposed to take over as authority, if any.
    pub pending_authority: Option<Identity>,
    pub treasury: Identity,
    pub insurance_treasury: Identity,
    pub fee_bps: u16,
    pub insurance_bps: u16,
    pub retention_bps: u16,
    pub warranty_days: i64,
    pub quorum_m: u8,
    pub arbiter: Identity,
}

/// Creates the configuration; refused when `quorum_m` is below the minimum.
pub fn init_config(
    authority: Identity,
    treasury: Identity,
    insurance_treasury: Identity,
    arbiter: Identity,
    fee_bps: u16,
    insurance_bps: u16,
    retention_bps: u16,
    warranty_days: i64,
    quorum_m: u8,
) -> (r: Result<Config, EscrowError>)
    ensures
        quorum_m < QUORUM_MIN ==> r == Err::<Config, EscrowError>(EscrowError::BadQuorum),
        quorum_m >= QUORUM_MIN ==> r == Ok::<Config, EscrowError>(
            Config {
                authority,
                pending_authority: None,
                treasury,
                insurance_treasury,
                fee_bps,
                insurance_bps,
                retention_bps,
                warranty_days,
                quorum_m,
                arbiter,
            },
        ),
{
    if quorum_m < QUORUM_MIN {
        return Err(EscrowError::BadQuorum);
    }
    Ok(
        Config {
            authority,
            pending_authority: None,
            treasury,
            insurance_treasury,
            fee_bps,
            insurance_bps,
            retention_bps,
            warranty_days,
            quorum_m,
            arbiter,
        },
    )
}

/// The authority sets new fee and insurance rates; escrows created earlier
/// keep the rates they copied.
pub fn update_fee_splits(cfg: &mut Config, caller: Identity, fee_bps: u16, insurance_bps: u16) -> (r:
    Result<(), EscrowError>)
    ensures
        caller != old(cfg).authority ==> r == Err::<(), EscrowError>(EscrowError::Unauthorized)
            && *final(cfg) == *old(cfg),
        caller == old(cfg).authority ==> r is Ok && *final(cfg) == (Config {
            fee_bps,
            insurance_bps,
            ..*old(cfg)
        }),
{
    if caller != cfg.authority {
        return Err(EscrowError::Unauthorized);
    }
    cfg.fee_bps = fee_bps;
    cfg.insurance_bps = insurance_bps;
    Ok(())
}

/// First phase of handing over authority: the authority names its successor.
pub fn transfer_market_authority_propose(cfg: &mut Config, caller: Identity, new_auth: Identity) -> (r:
    Result<(), EscrowError>)
    ensures
        caller != old(cfg).authority ==> r == Err::<(), EscrowError>(EscrowError::Unauthorized)
            && *final(cfg) == *old(cfg),
        caller == old(cfg).authority ==> r is Ok && *final(cfg) == (Config {
            pending_authority: Some(new_auth),
            ..*old(cfg)
        }),
{
    if caller != cfg.authority {
        return Err(EscrowError::Unauthorized);
    }
    cfg.pending_authority = Some(new_auth);
    Ok(())
}

/// Second phase: the named successor accepts and becomes the authority.
pub fn transfer_market_authority_accept(cfg: &mut Config, caller: Identity) -> (r: Result<
    (),
    EscrowError,
>)
    ensures
        old(cfg).pending_authority != Some(caller) ==> r == Err::<(), EscrowError>(
            EscrowError::BadAuthorityAccept,
        ) && *final(cfg) == *old(cfg),
        old(cfg).pending_authority == Some(caller) ==> r is Ok && *final(cfg) == (Config {
            authority: caller,
            pending_authority: None,
            ..*old(cfg)
        }),
{
    match cfg.pending_authority {
        Some(pending) => {
            if pending == caller {
                cfg.authority = caller;
                cfg.pending_authority = None;
                Ok(())
            } else {
                Err(EscrowError::BadAuthorityAccept)
            }
        },
        None => Err(EscrowError::BadAuthorityAccept),
    }
}

} // verus!
