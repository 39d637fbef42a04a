//! Badge issuance and revocation.

use vstd::prelude::*;
use crate::errors::ParityError;
use crate::state::ProgramEntry;
use crate::state::Pubkey;
use crate::state::Registry;
use crate::state::VerificationBadge;
use crate::state::VerificationTier;
use crate::state::pubkey_eq;
use crate::state::spec_tier_threshold;
use crate::state::tier_threshold;

verus! {

/// Accounts touched by [`create_verification_badge`]: the signing
/// authority, the registry singleton, and the program the badge attests.
pub struct CreateVerificationBadge {
    /// The transaction signer; must equal the registry authority.
    pub authority: Pubkey,
    pub registry: Registry,
    pub program_entry: ProgramEntry,
}

/// The first check an issuance fails, in the order they are applied:
/// authorization, verification state, score against the tier threshold,
/// expiry against the clock. `None` means the badge is issued.
pub open spec fn spec_create_badge_error(
    registry: Registry,
    program_entry: ProgramEntry,
    authority: Pubkey,
    tier: VerificationTier,
    expires_at: i64,
    now: i64,
) -> Option<ParityError> {
    if registry.authority != authority {
        Some(ParityError::UnauthorizedAuditor)
    } else if !program_entry.is_verified {
        Some(ParityError::ProgramNotRegistered)
    } else if program_entry.latest_score < spec_tier_threshold(tier) {
        Some(ParityError::InsufficientScore)
    } else if expires_at <= now {
        Some(ParityError::BadgeExpired)
    } else {
        None
    }
}

/// Issues a tiered badge against a verified program: the program's latest
/// score must reach the tier's threshold and the expiry must lie strictly
/// in the future. The badge records the score at issuance; no account is
/// mutated. One live badge per program is enforced by the ledger's keyed
/// storage, modeled in [`crate::ledger`].
pub fn create_verification_badge(
    ctx: &mut CreateVerificationBadge,
    now: i64,
    tier: VerificationTier,
    expires_at: i64,
) -> (r: Result<VerificationBadge, ParityError>)
    requires
        old(ctx).program_entry.latest_score <= 100,
    ensures
        *final(ctx) == *old(ctx),
        match r {
            Ok(badge) => {
                &&& spec_create_badge_error(
                    old(ctx).registry,
                    old(ctx).program_entry,
                    old(ctx).authority,
                    tier,
                    expires_at,
                    now,
                ) is None
                &&& badge == (VerificationBadge {
                    program_entry: old(ctx).program_entry.program_hash,
                    issuer: old(ctx).authority,
                    tier,
                    score_at_issuance: old(ctx).program_entry.latest_score,
                    issued_at: now,
                    expires_at,
                    is_revoked: false,
                })
                &&& badge.wf()
            },
            Err(e) => Some(e) == spec_create_badge_error(
                old(ctx).registry,
                old(ctx).program_entry,
                old(ctx).authority,
                tier,
                expires_at,
                now,
            ),
        },
{
    if !pubkey_eq(&ctx.authority, &ctx.registry.authority) {
        return Err(ParityError::UnauthorizedAuditor);
    }
    if !ctx.program_entry.is_verified {
        return Err(ParityError::ProgramNotRegistered);
    }

    let min_score = tier_threshold(tier);
    if ctx.program_entry.latest_score < min_score {
        return Err(ParityError::InsufficientScore);
    }
    if expires_at <= now {
        return Err(ParityError::BadgeExpired);
    }

    Ok(
        VerificationBadge {
            program_entry: ctx.program_entry.program_hash,
            issuer: ctx.authority,
            tier,
            score_at_issuance: ctx.program_entry.latest_score,
            issued_at: now,
            expires_at,
            is_revoked: false,
        },
    )
}

/// Law: for the registry authority and a verified program, issuance
/// succeeds exactly when the program's latest score reaches the tier's
/// threshold and the expiry lies strictly in the future; a score below
/// the threshold is rejected as `InsufficientScore`, and an expiry not in
/// the future as `BadgeExpired`.
pub proof fn lemma_badge_issuance_criteria(
    registry: Registry,
    program_entry: ProgramEntry,
    authority: Pubkey,
    tier: VerificationTier,
    expires_at: i64,
    now: i64,
)
    requires
        registry.authority == authority,
        program_entry.is_verified,
    ensures
        spec_create_badge_error(registry, program_entry, authority, tier, expires_at, now)
            is None <==> (program_entry.latest_score >= spec_tier_threshold(tier) && expires_at
            > now),
        program_entry.latest_score < spec_tier_threshold(tier) ==> spec_create_badge_error(
            registry,
            program_entry,
            authority,
            tier,
            expires_at,
            now,
        ) == Some(ParityError::InsufficientScore),
        program_entry.latest_score >= spec_tier_threshold(tier) && expires_at <= now
            ==> spec_create_badge_error(registry, program_entry, authority, tier, expires_at, now)
            == Some(ParityError::BadgeExpired),
{
}

/// Accounts touched by [`revoke_verification_badge`]: the signing
/// authority, the registry singleton, and the badge.
pub struct RevokeVerificationBadge {
    /// The transaction signer; must equal the registry authority.
    pub authority: Pubkey,
    pub registry: Registry,
    pub verification_badge: VerificationBadge,
}

/// Revokes a badge, a one-way transition: the first call succeeds and sets
/// `is_revoked`; any later call fails with `BadgeAlreadyRevoked` and
/// changes nothing, so revocation is idempotent in effect but not in
/// result.
pub fn revoke_verification_badge(ctx: &mut RevokeVerificationBadge) -> (r: Result<
    (),
    ParityError,
>)
    ensures
        match r {
            Ok(_) => {
                &&& old(ctx).registry.authority == old(ctx).authority
                &&& !old(ctx).verification_badge.is_revoked
                &&& final(ctx).verification_badge == (VerificationBadge {
                    is_revoked: true,
                    ..old(ctx).verification_badge
                })
                &&& final(ctx).registry == old(ctx).registry
                &&& final(ctx).authority == old(ctx).authority
            },
            Err(e) => {
                &&& *final(ctx) == *old(ctx)
                &&& if old(ctx).registry.authority != old(ctx).authority {
                    e == ParityError::UnauthorizedAuditor
                } else {
                    e == ParityError::BadgeAlreadyRevoked
                        && old(ctx).verification_badge.is_revoked
                }
            },
        },
{
    if !pubkey_eq(&ctx.authority, &ctx.registry.authority) {
        return Err(ParityError::UnauthorizedAuditor);
    }
    if ctx.verification_badge.is_revoked {
        return Err(ParityError::BadgeAlreadyRevoked);
    }

    ctx.verification_badge.is_revoked = true;

    Ok(())
}

} // verus!
