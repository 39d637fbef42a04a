//! Registry bootstrap, program registration, and policy updates.

use vstd::prelude::*;
use crate::errors::ParityError;
use crate::state::Framework;
use crate::state::MAX_METADATA_URI_LEN;
use crate::state::ProgramEntry;
use crate::state::Pubkey;
use crate::state::Registry;
use crate::state::RegistryConfig;
use crate::state::byte_len;
use crate::state::pubkey_eq;
use crate::state::str_byte_len;

verus! {

/// Creates the registry singleton with all counters zeroed and the given
/// policy stored. The ledger guarantees the singleton slot is empty when
/// this runs; a second initialization fails at the storage layer.
pub fn initialize_registry(authority: Pubkey, config: RegistryConfig, now: i64) -> (registry:
    Registry)
    ensures
        registry == (Registry {
            authority,
            total_programs: 0,
            total_analyses: 0,
            total_skills: 0,
            total_auditors: 0,
            total_patterns: 0,
            min_score_for_badge: config.min_score_for_badge,
            analysis_fee_lamports: config.analysis_fee_lamports,
            is_paused: config.is_paused,
            created_at: now,
            updated_at: now,
        }),
{
    Registry {
        authority,
        total_programs: 0,
        total_analyses: 0,
        total_skills: 0,
        total_auditors: 0,
        total_patterns: 0,
        min_score_for_badge: config.min_score_for_badge,
        analysis_fee_lamports: config.analysis_fee_lamports,
        is_paused: config.is_paused,
        created_at: now,
        updated_at: now,
    }
}

/// Accounts touched by [`register_program`]: the signing owner and the
/// registry singleton.
pub struct RegisterProgram {
    /// The transaction signer, recorded as the entry's owner.
    pub owner: Pubkey,
    pub registry: Registry,
}

/// The first check a registration fails; `None` means it is accepted.
pub open spec fn spec_register_program_error(metadata_uri: Seq<char>) -> Option<ParityError> {
    if byte_len(metadata_uri) > MAX_METADATA_URI_LEN {
        Some(ParityError::MetadataUriTooLong)
    } else {
        None
    }
}

/// Creates a program entry for `program_hash` with no analyses yet, a zero
/// latest score, and verification unset, and counts it in the registry.
/// On failure nothing changes. Uniqueness of `program_hash` is enforced by
/// the ledger's keyed storage, modeled in [`crate::ledger`].
pub fn register_program(
    ctx: &mut RegisterProgram,
    now: i64,
    program_hash: [u8; 32],
    framework: Framework,
    metadata_uri: String,
) -> (r: Result<ProgramEntry, ParityError>)
    requires
        old(ctx).registry.total_programs < u64::MAX,
    ensures
        match r {
            Ok(entry) => {
                &&& spec_register_program_error(metadata_uri@) is None
                &&& entry == (ProgramEntry {
                    owner: old(ctx).owner,
                    program_hash,
                    framework,
                    metadata_uri,
                    registered_at: now,
                    updated_at: now,
                    analysis_count: 0,
                    latest_score: 0,
                    is_verified: false,
                })
                &&& entry.wf()
                &&& final(ctx).registry == (Registry {
                    total_programs: (old(ctx).registry.total_programs + 1) as u64,
                    updated_at: now,
                    ..old(ctx).registry
                })
                &&& final(ctx).owner == old(ctx).owner
            },
            Err(e) => {
                &&& Some(e) == spec_register_program_error(metadata_uri@)
                &&& *final(ctx) == *old(ctx)
            },
        },
{
    if str_byte_len(metadata_uri.as_str()) > MAX_METADATA_URI_LEN {
        return Err(ParityError::MetadataUriTooLong);
    }

    let entry = ProgramEntry {
        owner: ctx.owner,
        program_hash,
        framework,
        metadata_uri,
        registered_at: now,
        updated_at: now,
        analysis_count: 0,
        latest_score: 0,
        is_verified: false,
    };

    ctx.registry.total_programs = ctx.registry.total_programs + 1;
    ctx.registry.updated_at = now;

    Ok(entry)
}

/// Accounts touched by [`update_registry_config`]: the signing authority
/// and the registry singleton.
pub struct UpdateRegistryConfig {
    /// The transaction signer; must equal the stored registry authority.
    pub authority: Pubkey,
    pub registry: Registry,
}

/// Overwrites the registry's policy fields. Only the stored authority may
/// do so; subsequent badge-eligibility checks use the new threshold
/// immediately. On failure nothing changes.
pub fn update_registry_config(
    ctx: &mut UpdateRegistryConfig,
    now: i64,
    new_config: RegistryConfig,
) -> (r: Result<(), ParityError>)
    ensures
        match r {
            Ok(_) => {
                &&& old(ctx).registry.authority == old(ctx).authority
                &&& final(ctx).registry == (Registry {
                    min_score_for_badge: new_config.min_score_for_badge,
                    analysis_fee_lamports: new_config.analysis_fee_lamports,
                    is_paused: new_config.is_paused,
                    updated_at: now,
                    ..old(ctx).registry
                })
                &&& final(ctx).authority == old(ctx).authority
            },
            Err(e) => {
                &&& e == ParityError::UnauthorizedAuditor
                &&& old(ctx).registry.authority != old(ctx).authority
                &&& *final(ctx) == *old(ctx)
            },
        },
{
    if !pubkey_eq(&ctx.authority, &ctx.registry.authority) {
        return Err(ParityError::UnauthorizedAuditor);
    }

    ctx.registry.min_score_for_badge = new_config.min_score_for_badge;
    ctx.registry.analysis_fee_lamports = new_config.analysis_fee_lamports;
    ctx.registry.is_paused = new_config.is_paused;
    ctx.registry.updated_at = now;

    Ok(())
}

} // verus!
