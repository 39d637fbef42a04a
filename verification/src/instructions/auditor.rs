//! Auditor lifecycle: accreditation and activation.

use vstd::prelude::*;
use crate::errors::ParityError;
use crate::state::AuditorAccount;
use crate::state::MAX_AUDITOR_NAME_LEN;
use crate::state::MAX_CREDENTIALS_URI_LEN;
use crate::state::Pubkey;
use crate::state::Registry;
use crate::state::byte_len;
use crate::state::str_byte_len;

verus! {

/// Accounts touched by [`register_auditor`]: the signing authority and the
/// registry singleton.
pub struct RegisterAuditor {
    /// The transaction signer, recorded as the account's authority; the
    /// account is also addressed by this key.
    pub authority: Pubkey,
    pub registry: Registry,
}

/// The first check an auditor registration fails; `None` means it is
/// accepted.
pub open spec fn spec_register_auditor_error(
    name: Seq<char>,
    credentials_uri: Seq<char>,
) -> Option<ParityError> {
    if byte_len(name) > MAX_AUDITOR_NAME_LEN {
        Some(ParityError::AuditorNameTooLong)
    } else if byte_len(credentials_uri) > MAX_CREDENTIALS_URI_LEN {
        Some(ParityError::CredentialsUriTooLong)
    } else {
        None
    }
}

/// Creates an active auditor account with zeroed counters for the signing
/// authority, and counts it in the registry. On failure nothing changes.
/// One account per authority key is enforced by the ledger's keyed
/// storage, modeled in [`crate::ledger`].
pub fn register_auditor(
    ctx: &mut RegisterAuditor,
    now: i64,
    name: String,
    credentials_uri: String,
) -> (r: Result<AuditorAccount, ParityError>)
    requires
        old(ctx).registry.total_auditors < u64::MAX,
    ensures
        match r {
            Ok(auditor) => {
                &&& spec_register_auditor_error(name@, credentials_uri@) is None
                &&& auditor == (AuditorAccount {
                    authority: old(ctx).authority,
                    name,
                    credentials_uri,
                    total_analyses: 0,
                    average_score: 0,
                    is_active: true,
                    registered_at: now,
                    updated_at: now,
                })
                &&& auditor.wf()
                &&& final(ctx).registry == (Registry {
                    total_auditors: (old(ctx).registry.total_auditors + 1) as u64,
                    updated_at: now,
                    ..old(ctx).registry
                })
                &&& final(ctx).authority == old(ctx).authority
            },
            Err(e) => {
                &&& Some(e) == spec_register_auditor_error(name@, credentials_uri@)
                &&& *final(ctx) == *old(ctx)
            },
        },
{
    if str_byte_len(name.as_str()) > MAX_AUDITOR_NAME_LEN {
        return Err(ParityError::AuditorNameTooLong);
    }
    if str_byte_len(credentials_uri.as_str()) > MAX_CREDENTIALS_URI_LEN {
        return Err(ParityError::CredentialsUriTooLong);
    }

    let auditor = AuditorAccount {
        authority: ctx.authority,
        name,
        credentials_uri,
        total_analyses: 0,
        average_score: 0,
        is_active: true,
        registered_at: now,
        updated_at: now,
    };

    ctx.registry.total_auditors = ctx.registry.total_auditors + 1;
    ctx.registry.updated_at = now;

    Ok(auditor)
}

/// Sets an auditor's activation flag in either direction. Gating who may
/// call this is a governance decision outside the core, so it always
/// succeeds.
pub fn update_auditor_status(auditor_account: &mut AuditorAccount, now: i64, is_active: bool)
    ensures
        *final(auditor_account) == (AuditorAccount {
            is_active,
            updated_at: now,
            ..*old(auditor_account)
        }),
{
    auditor_account.is_active = is_active;
    auditor_account.updated_at = now;
}

} // verus!
