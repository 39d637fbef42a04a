//! Skill catalog curation: registration, update, and one-way deprecation.

use vstd::prelude::*;
use crate::errors::ParityError;
use crate::state::MAX_SKILL_DESC_LEN;
use crate::state::MAX_SKILL_NAME_LEN;
use crate::state::MAX_SKILL_VERSION_LEN;
use crate::state::Pubkey;
use crate::state::Registry;
use crate::state::SkillEntry;
use crate::state::SkillType;
use crate::state::byte_len;
use crate::state::pubkey_eq;
use crate::state::str_byte_len;

verus! {

/// Accounts touched by [`register_skill`]: the signing authority and the
/// registry singleton.
pub struct RegisterSkill {
    /// The transaction signer, recorded as the skill's authority.
    pub authority: Pubkey,
    pub registry: Registry,
}

/// The first check a skill registration fails; `None` means it is
/// accepted.
pub open spec fn spec_register_skill_error(
    name: Seq<char>,
    version: Seq<char>,
    description: Seq<char>,
) -> Option<ParityError> {
    if byte_len(name) > MAX_SKILL_NAME_LEN {
        Some(ParityError::SkillNameTooLong)
    } else if byte_len(version) > MAX_SKILL_VERSION_LEN {
        Some(ParityError::SkillVersionTooLong)
    } else if byte_len(description) > MAX_SKILL_DESC_LEN {
        Some(ParityError::SkillDescriptionTooLong)
    } else {
        None
    }
}

/// Creates a catalog entry for a reusable audit methodology, not yet
/// deprecated and never used, and counts it in the registry. On failure
/// nothing changes. Uniqueness of `name` is enforced by the ledger's keyed
/// storage, modeled in [`crate::ledger`].
pub fn register_skill(
    ctx: &mut RegisterSkill,
    now: i64,
    name: String,
    version: String,
    description: String,
    skill_type: SkillType,
) -> (r: Result<SkillEntry, ParityError>)
    requires
        old(ctx).registry.total_skills < u64::MAX,
    ensures
        match r {
            Ok(skill) => {
                &&& spec_register_skill_error(name@, version@, description@) is None
                &&& skill == (SkillEntry {
                    authority: old(ctx).authority,
                    name,
                    version,
                    description,
                    skill_type,
                    usage_count: 0,
                    is_deprecated: false,
                    registered_at: now,
                    updated_at: now,
                })
                &&& skill.wf()
                &&& final(ctx).registry == (Registry {
                    total_skills: (old(ctx).registry.total_skills + 1) as u64,
                    updated_at: now,
                    ..old(ctx).registry
                })
                &&& final(ctx).authority == old(ctx).authority
            },
            Err(e) => {
                &&& Some(e) == spec_register_skill_error(name@, version@, description@)
                &&& *final(ctx) == *old(ctx)
            },
        },
{
    if str_byte_len(name.as_str()) > MAX_SKILL_NAME_LEN {
        return Err(ParityError::SkillNameTooLong);
    }
    if str_byte_len(version.as_str()) > MAX_SKILL_VERSION_LEN {
        return Err(ParityError::SkillVersionTooLong);
    }
    if str_byte_len(description.as_str()) > MAX_SKILL_DESC_LEN {
        return Err(ParityError::SkillDescriptionTooLong);
    }

    let skill = SkillEntry {
        authority: ctx.authority,
        name,
        version,
        description,
        skill_type,
        usage_count: 0,
        is_deprecated: false,
        registered_at: now,
        updated_at: now,
    };

    ctx.registry.total_skills = ctx.registry.total_skills + 1;
    ctx.registry.updated_at = now;

    Ok(skill)
}

/// Accounts touched by [`update_skill`]: the signing authority and the
/// skill entry.
pub struct UpdateSkill {
    /// The transaction signer; must equal the skill's stored authority.
    pub authority: Pubkey,
    pub skill_entry: SkillEntry,
}

/// Accounts touched by [`deprecate_skill`]: the signing authority and the
/// skill entry.
pub struct DeprecateSkill {
    /// The transaction signer; must equal the skill's stored authority.
    pub authority: Pubkey,
    pub skill_entry: SkillEntry,
}

/// The first check a skill update fails, in the order they are applied:
/// deprecation is checked before anything else, so a deprecated skill
/// rejects updates regardless of the caller. `None` means the update is
/// accepted.
pub open spec fn spec_update_skill_error(
    skill_entry: SkillEntry,
    authority: Pubkey,
    new_version: Seq<char>,
    new_description: Seq<char>,
) -> Option<ParityError> {
    if skill_entry.is_deprecated {
        Some(ParityError::CannotUpdateDeprecatedSkill)
    } else if skill_entry.authority != authority {
        Some(ParityError::UnauthorizedAuditor)
    } else if byte_len(new_version) > MAX_SKILL_VERSION_LEN {
        Some(ParityError::SkillVersionTooLong)
    } else if byte_len(new_description) > MAX_SKILL_DESC_LEN {
        Some(ParityError::SkillDescriptionTooLong)
    } else {
        None
    }
}

/// Law: a deprecated skill rejects every update with
/// `CannotUpdateDeprecatedSkill`, whoever the caller is and whatever the
/// new fields are.
pub proof fn lemma_deprecated_skill_immutable(
    skill_entry: SkillEntry,
    authority: Pubkey,
    new_version: Seq<char>,
    new_description: Seq<char>,
)
    requires
        skill_entry.is_deprecated,
    ensures
        spec_update_skill_error(skill_entry, authority, new_version, new_description) == Some(
            ParityError::CannotUpdateDeprecatedSkill,
        ),
{
}

/// Replaces a skill's version and description. Deprecated entries are
/// immutable: they always fail with `CannotUpdateDeprecatedSkill`, whoever
/// calls. On failure nothing changes.
pub fn update_skill(
    ctx: &mut UpdateSkill,
    now: i64,
    new_version: String,
    new_description: String,
) -> (r: Result<(), ParityError>)
    ensures
        match r {
            Ok(_) => {
                &&& spec_update_skill_error(
                    old(ctx).skill_entry,
                    old(ctx).authority,
                    new_version@,
                    new_description@,
                ) is None
                &&& final(ctx).skill_entry == (SkillEntry {
                    version: new_version,
                    description: new_description,
                    updated_at: now,
                    ..old(ctx).skill_entry
                })
                &&& final(ctx).authority == old(ctx).authority
            },
            Err(e) => {
                &&& Some(e) == spec_update_skill_error(
                    old(ctx).skill_entry,
                    old(ctx).authority,
                    new_version@,
                    new_description@,
                )
                &&& *final(ctx) == *old(ctx)
            },
        },
{
    if ctx.skill_entry.is_deprecated {
        return Err(ParityError::CannotUpdateDeprecatedSkill);
    }
    if !pubkey_eq(&ctx.authority, &ctx.skill_entry.authority) {
        return Err(ParityError::UnauthorizedAuditor);
    }
    if str_byte_len(new_version.as_str()) > MAX_SKILL_VERSION_LEN {
        return Err(ParityError::SkillVersionTooLong);
    }
    if str_byte_len(new_description.as_str()) > MAX_SKILL_DESC_LEN {
        return Err(ParityError::SkillDescriptionTooLong);
    }

    ctx.skill_entry.version = new_version;
    ctx.skill_entry.description = new_description;
    ctx.skill_entry.updated_at = now;

    Ok(())
}

/// Marks a skill deprecated, a one-way transition: only the skill's
/// authority may do it, and doing it twice fails with
/// `SkillAlreadyDeprecated`. On failure nothing changes.
pub fn deprecate_skill(ctx: &mut DeprecateSkill, now: i64) -> (r: Result<(), ParityError>)
    ensures
        match r {
            Ok(_) => {
                &&& old(ctx).skill_entry.authority == old(ctx).authority
                &&& !old(ctx).skill_entry.is_deprecated
                &&& final(ctx).skill_entry == (SkillEntry {
                    is_deprecated: true,
                    updated_at: now,
                    ..old(ctx).skill_entry
                })
                &&& final(ctx).authority == old(ctx).authority
            },
            Err(e) => {
                &&& *final(ctx) == *old(ctx)
                &&& if old(ctx).skill_entry.authority != old(ctx).authority {
                    e == ParityError::UnauthorizedAuditor
                } else {
                    e == ParityError::SkillAlreadyDeprecated && old(ctx).skill_entry.is_deprecated
                }
            },
        },
{
    if !pubkey_eq(&ctx.authority, &ctx.skill_entry.authority) {
        return Err(ParityError::UnauthorizedAuditor);
    }
    if ctx.skill_entry.is_deprecated {
        return Err(ParityError::SkillAlreadyDeprecated);
    }

    ctx.skill_entry.is_deprecated = true;
    ctx.skill_entry.updated_at = now;

    Ok(())
}

} // verus!
